//! Catalog resolver: from a query to a media record, by a cascade of catalog
//! lookups.
//!
//! The resolver does not talk to the catalog itself. It says which address to
//! ask next, takes the catalog's reply, and reads out of it what the record
//! needs; its caller does the asking. The first search result is authoritative:
//! nothing is ranked or scored here.

use vstd::prelude::*;
use vstd::string::StringExecFns;
use crate::json::Json;
use crate::text::{decimal, optional_text, push_decimal, texts};
use crate::title::ParsedQuery;

verus! {

// ---------------------------------------------------------------------------
// Data
// ---------------------------------------------------------------------------

/// Which catalog a query goes to.
#[derive(Clone, Copy, Debug, PartialEq, Eq, Structural)]
pub enum Kind {
    Movie,
    Show,
}

/// The resolver's request: a text to search for, and for a show the season
/// and episode asked for.
#[derive(Debug, PartialEq, Eq)]
pub struct CatalogQuery {
    pub text: String,
    pub kind: Kind,
    pub season: Option<u32>,
    pub episode: Option<u32>,
}

/// The model of a `CatalogQuery`.
pub struct CatalogQueryModel {
    pub text: Seq<char>,
    pub kind: Kind,
    pub season: Option<u32>,
    pub episode: Option<u32>,
}

impl View for CatalogQuery {
    type V = CatalogQueryModel;

    open spec fn view(&self) -> CatalogQueryModel {
        CatalogQueryModel {
            text: self.text@,
            kind: self.kind,
            season: self.season,
            episode: self.episode,
        }
    }
}

impl CatalogQueryModel {
    /// A query names a season and an episode exactly when it is for a show.
    pub open spec fn wf(self) -> bool {
        &&& self.kind == Kind::Show <==> self.season is Some
        &&& self.kind == Kind::Show <==> self.episode is Some
    }
}

/// The query that a normalized title stands for.
pub open spec fn query_of(text: Seq<char>, marker: Option<(u32, u32)>) -> CatalogQueryModel {
    match marker {
        Some((season, episode)) => CatalogQueryModel {
            text,
            kind: Kind::Show,
            season: Some(season),
            episode: Some(episode),
        },
        None => CatalogQueryModel { text, kind: Kind::Movie, season: None, episode: None },
    }
}

impl CatalogQuery {
    /// The query of a normalized title: for a show exactly when the title
    /// carries an episode marker.
    pub fn from_parsed(parsed: &ParsedQuery) -> (query: CatalogQuery)
        ensures
            query@ == query_of(parsed.cleaned_text@, parsed.episode_marker),
            query@.wf(),
    {
        match parsed.episode_marker {
            Some((season, episode)) => CatalogQuery {
                text: parsed.cleaned_text.clone(),
                kind: Kind::Show,
                season: Some(season),
                episode: Some(episode),
            },
            None => CatalogQuery {
                text: parsed.cleaned_text.clone(),
                kind: Kind::Movie,
                season: None,
                episode: None,
            },
        }
    }
}

/// A canonical media record.
///
/// An empty `poster_path` means that there is no artwork; an absent
/// `external_id` means that there is no cross-reference.
#[derive(Debug, PartialEq, Eq)]
pub enum MediaRecord {
    Movie {
        title: String,
        genres: Vec<String>,
        poster_path: String,
        catalog_id: u32,
        external_id: Option<String>,
    },
    Episode {
        show_title: String,
        episode_title: Option<String>,
        season: u32,
        episode: u32,
        poster_path: String,
        catalog_id: u32,
        external_id: Option<String>,
    },
}

/// The model of a `MediaRecord`.
pub enum MediaModel {
    Movie {
        title: Seq<char>,
        genres: Seq<Seq<char>>,
        poster_path: Seq<char>,
        catalog_id: u32,
        external_id: Option<Seq<char>>,
    },
    Episode {
        show_title: Seq<char>,
        episode_title: Option<Seq<char>>,
        season: u32,
        episode: u32,
        poster_path: Seq<char>,
        catalog_id: u32,
        external_id: Option<Seq<char>>,
    },
}

impl View for MediaRecord {
    type V = MediaModel;

    open spec fn view(&self) -> MediaModel {
        match *self {
            MediaRecord::Movie { title, genres, poster_path, catalog_id, external_id } => {
                MediaModel::Movie {
                    title: title@,
                    genres: texts(genres@),
                    poster_path: poster_path@,
                    catalog_id,
                    external_id: optional_text(external_id),
                }
            },
            MediaRecord::Episode {
                show_title,
                episode_title,
                season,
                episode,
                poster_path,
                catalog_id,
                external_id,
            } => MediaModel::Episode {
                show_title: show_title@,
                episode_title: optional_text(episode_title),
                season,
                episode,
                poster_path: poster_path@,
                catalog_id,
                external_id: optional_text(external_id),
            },
        }
    }
}

impl MediaModel {
    /// The record's identifier in the catalog.
    pub open spec fn id(self) -> u32 {
        match self {
            MediaModel::Movie { catalog_id, .. } => catalog_id,
            MediaModel::Episode { catalog_id, .. } => catalog_id,
        }
    }

    /// The record with `names` as its genres; an episode has none and stays
    /// as it is.
    pub open spec fn with_genres(self, names: Seq<Seq<char>>) -> MediaModel {
        match self {
            MediaModel::Movie { title, genres, poster_path, catalog_id, external_id } => {
                MediaModel::Movie { title, genres: names, poster_path, catalog_id, external_id }
            },
            _ => self,
        }
    }

    /// The record with `name` as its episode title; a movie has none and stays
    /// as it is.
    pub open spec fn with_episode_title(self, name: Option<Seq<char>>) -> MediaModel {
        match self {
            MediaModel::Episode {
                show_title,
                episode_title,
                season,
                episode,
                poster_path,
                catalog_id,
                external_id,
            } => MediaModel::Episode {
                show_title,
                episode_title: name,
                season,
                episode,
                poster_path,
                catalog_id,
                external_id,
            },
            _ => self,
        }
    }

    /// The record with `id` as its cross-reference.
    pub open spec fn with_external_id(self, id: Option<Seq<char>>) -> MediaModel {
        match self {
            MediaModel::Movie { title, genres, poster_path, catalog_id, external_id } => {
                MediaModel::Movie { title, genres, poster_path, catalog_id, external_id: id }
            },
            MediaModel::Episode {
                show_title,
                episode_title,
                season,
                episode,
                poster_path,
                catalog_id,
                external_id,
            } => MediaModel::Episode {
                show_title,
                episode_title,
                season,
                episode,
                poster_path,
                catalog_id,
                external_id: id,
            },
        }
    }
}

impl MediaRecord {
    /// The record's identifier in the catalog.
    pub fn catalog_id(&self) -> (id: u32)
        ensures
            id == self@.id(),
    {
        match self {
            MediaRecord::Movie { catalog_id, .. } => *catalog_id,
            MediaRecord::Episode { catalog_id, .. } => *catalog_id,
        }
    }

    /// Sets the genres of a movie.
    pub fn with_genres(self, names: Vec<String>) -> (record: MediaRecord)
        ensures
            record@ == self@.with_genres(texts(names@)),
    {
        match self {
            MediaRecord::Movie { title, genres, poster_path, catalog_id, external_id } => {
                MediaRecord::Movie { title, genres: names, poster_path, catalog_id, external_id }
            },
            other => other,
        }
    }

    /// Sets the title of an episode.
    pub fn with_episode_title(self, name: Option<String>) -> (record: MediaRecord)
        ensures
            record@ == self@.with_episode_title(optional_text(name)),
    {
        match self {
            MediaRecord::Episode {
                show_title,
                episode_title,
                season,
                episode,
                poster_path,
                catalog_id,
                external_id,
            } => MediaRecord::Episode {
                show_title,
                episode_title: name,
                season,
                episode,
                poster_path,
                catalog_id,
                external_id,
            },
            other => other,
        }
    }

    /// Sets the cross-reference.
    pub fn with_external_id(self, id: Option<String>) -> (record: MediaRecord)
        ensures
            record@ == self@.with_external_id(optional_text(id)),
    {
        match self {
            MediaRecord::Movie { title, genres, poster_path, catalog_id, external_id } => {
                MediaRecord::Movie { title, genres, poster_path, catalog_id, external_id: id }
            },
            MediaRecord::Episode {
                show_title,
                episode_title,
                season,
                episode,
                poster_path,
                catalog_id,
                external_id,
            } => MediaRecord::Episode {
                show_title,
                episode_title,
                season,
                episode,
                poster_path,
                catalog_id,
                external_id: id,
            },
        }
    }
}

// ---------------------------------------------------------------------------
// Reading the catalog's replies
// ---------------------------------------------------------------------------

/// The first result of a search reply, in the catalog's own order.
pub open spec fn first_hit(reply: Json) -> Option<Json> {
    match reply.member("results"@) {
        Some(Json::Array(results)) => if results@.len() > 0 {
            Some(results@[0])
        } else {
            None
        },
        _ => None,
    }
}

/// The identifier of a search result, cut to 32 bits; zero where the result
/// has none.
pub open spec fn id_of(hit: Json) -> u32 {
    match hit.member("id"@) {
        Some(value) => match value.unsigned() {
            Some(n) => (n % 0x1_0000_0000) as u32,
            None => 0,
        },
        None => 0,
    }
}

/// The number that a genre identifier holds; zero where it is no integer.
pub open spec fn signed_or_zero(value: Json) -> i64 {
    match value.signed() {
        Some(n) => n,
        None => 0,
    }
}

/// The genre identifiers of a movie search result, in its order.
pub open spec fn genre_ids_of(hit: Json) -> Seq<i64> {
    match hit.member("genre_ids"@) {
        Some(Json::Array(ids)) => ids@.map_values(|value: Json| signed_or_zero(value)),
        _ => Seq::empty(),
    }
}

/// The movie that a search result describes, before its genres and its
/// cross-reference are known.
pub open spec fn movie_of_hit(hit: Json) -> MediaModel {
    MediaModel::Movie {
        title: hit.text_or_empty("title"@),
        genres: Seq::empty(),
        poster_path: hit.text_or_empty("poster_path"@),
        catalog_id: id_of(hit),
        external_id: None,
    }
}

/// The episode of the show that a search result describes, before its title
/// and the show's cross-reference are known.
pub open spec fn show_of_hit(hit: Json, season: u32, episode: u32) -> MediaModel {
    MediaModel::Episode {
        show_title: hit.text_or_empty("name"@),
        episode_title: None,
        season,
        episode,
        poster_path: hit.text_or_empty("poster_path"@),
        catalog_id: id_of(hit),
        external_id: None,
    }
}

/// The genres that a genre list names.
pub open spec fn genres_of(list: Json) -> Seq<Json> {
    match list.member("genres"@) {
        Some(Json::Array(genres)) => genres@,
        _ => Seq::empty(),
    }
}

/// Whether a genre of the list has the identifier `id`.
pub open spec fn has_id(genre: Json, id: i64) -> bool {
    match genre.member("id"@) {
        Some(value) => value.signed() == Some(id),
        None => false,
    }
}

/// The name of the first genre from index `i` on that has the identifier `id`,
/// where there is such a genre and its name is a string.
pub open spec fn genre_name_from(genres: Seq<Json>, id: i64, i: int) -> Option<Seq<char>>
    decreases genres.len() - i,
{
    if i < 0 || i >= genres.len() {
        None
    } else if has_id(genres[i], id) {
        genres[i].optional_text("name"@)
    } else {
        genre_name_from(genres, id, i + 1)
    }
}

/// The names of the genres that `ids` refer to, in the order of `ids`; an
/// identifier that the list gives no name for is left out.
pub open spec fn genre_names_of(ids: Seq<i64>, list: Json) -> Seq<Seq<char>> {
    ids.filter_map(|id: i64| genre_name_from(genres_of(list), id, 0))
}

/// The cross-reference that a show's detail names.
pub open spec fn show_external_id(detail: Json) -> Option<Seq<char>> {
    match detail.member("external_ids"@) {
        Some(ids) => ids.optional_text("imdb_id"@),
        None => None,
    }
}

/// The first result of a search reply, if it has one.
pub fn first_result(reply: &Json) -> (hit: Option<&Json>)
    ensures
        match hit {
            Some(h) => first_hit(*reply) == Some(*h),
            None => first_hit(*reply) is None,
        },
{
    match reply.get("results") {
        Some(Json::Array(results)) => if results.len() > 0 {
            Some(&results[0])
        } else {
            None
        },
        _ => None,
    }
}

/// Reads the identifier of a search result.
pub fn read_id(hit: &Json) -> (id: u32)
    ensures
        id == id_of(*hit),
{
    match hit.get("id") {
        Some(value) => match value.as_u64() {
            Some(n) => (n % 0x1_0000_0000) as u32,
            None => 0,
        },
        None => 0,
    }
}

/// Reads the genre identifiers of a movie search result.
pub fn read_genre_ids(hit: &Json) -> (ids: Vec<i64>)
    ensures
        ids@ == genre_ids_of(*hit),
{
    let mut ids: Vec<i64> = Vec::new();
    match hit.get("genre_ids") {
        Some(Json::Array(values)) => {
            let mut i: usize = 0;
            while i < values.len()
                invariant
                    i <= values.len(),
                    ids@ == values@.take(i as int).map_values(|value: Json| signed_or_zero(value)),
                    genre_ids_of(*hit) == values@.map_values(|value: Json| signed_or_zero(value)),
                decreases values.len() - i,
            {
                let n = match values[i].as_i64() {
                    Some(n) => n,
                    None => 0,
                };
                ids.push(n);
                i = i + 1;
                assert(ids@ =~= values@.take(i as int).map_values(
                    |value: Json| signed_or_zero(value),
                ));
            }
            assert(values@.take(values.len() as int) =~= values@);
        },
        _ => {},
    }
    ids
}

/// Reads a movie out of a search result.
pub fn read_movie(hit: &Json) -> (movie: MediaRecord)
    ensures
        movie@ == movie_of_hit(*hit),
{
    let movie = MediaRecord::Movie {
        title: hit.string_or_empty("title"),
        genres: Vec::new(),
        poster_path: hit.string_or_empty("poster_path"),
        catalog_id: read_id(hit),
        external_id: None,
    };
    assert(texts(Seq::<String>::empty()) =~= Seq::<Seq<char>>::empty());
    movie
}

/// Reads a show out of a search result, for the episode asked for.
pub fn read_show(hit: &Json, season: u32, episode: u32) -> (show: MediaRecord)
    ensures
        show@ == show_of_hit(*hit, season, episode),
{
    MediaRecord::Episode {
        show_title: hit.string_or_empty("name"),
        episode_title: None,
        season,
        episode,
        poster_path: hit.string_or_empty("poster_path"),
        catalog_id: read_id(hit),
        external_id: None,
    }
}

/// Looks up the name of one genre identifier in the genres of a list.
pub fn genre_name(genres: &Vec<Json>, id: i64) -> (name: Option<String>)
    ensures
        optional_text(name) == genre_name_from(genres@, id, 0),
{
    let mut i: usize = 0;
    while i < genres.len()
        invariant
            i <= genres.len(),
            genre_name_from(genres@, id, 0) == genre_name_from(genres@, id, i as int),
        decreases genres.len() - i,
    {
        let found = match genres[i].get("id") {
            Some(value) => match value.as_i64() {
                Some(n) => n == id,
                None => false,
            },
            None => false,
        };
        if found {
            return genres[i].optional_string("name");
        }
        i = i + 1;
    }
    None
}

/// Resolves genre identifiers against the catalog's genre list.
pub fn genre_names(ids: &Vec<i64>, list: &Json) -> (names: Vec<String>)
    ensures
        texts(names@) == genre_names_of(ids@, *list),
{
    let mut names: Vec<String> = Vec::new();
    assert(texts(names@) =~= Seq::<Seq<char>>::empty());
    match list.get("genres") {
        Some(Json::Array(genres)) => {
            let mut i: usize = 0;
            while i < ids.len()
                invariant
                    i <= ids.len(),
                    genres@ == genres_of(*list),
                    texts(names@) == genre_names_of(ids@.take(i as int), *list),
                decreases ids.len() - i,
            {
                let ghost before = names@;
                let found = genre_name(genres, ids[i]);
                match found {
                    Some(name) => {
                        names.push(name);
                        assert(texts(names@) =~= texts(before) + seq![name@]);
                    },
                    None => {},
                }
                i = i + 1;
                assert(ids@.take(i as int).drop_last() =~= ids@.take(i - 1));
            }
            assert(ids@.take(ids.len() as int) =~= ids@);
        },
        _ => {
            proof {
                lemma_no_genres_no_names(ids@, *list);
            }
        },
    }
    names
}

/// A list without genres gives no identifier a name.
pub proof fn lemma_no_genres_no_names(ids: Seq<i64>, list: Json)
    requires
        genres_of(list).len() == 0,
    ensures
        genre_names_of(ids, list) == Seq::<Seq<char>>::empty(),
    decreases ids.len(),
{
    if ids.len() > 0 {
        lemma_no_genres_no_names(ids.drop_last(), list);
    }
}

/// Reads the cross-reference out of a show's detail.
pub fn read_show_external_id(detail: &Json) -> (id: Option<String>)
    ensures
        optional_text(id) == show_external_id(*detail),
{
    match detail.get("external_ids") {
        Some(ids) => ids.optional_string("imdb_id"),
        None => None,
    }
}

// ---------------------------------------------------------------------------
// The catalog's addresses
// ---------------------------------------------------------------------------

/// The address that searches the movie catalog for `text`.
pub open spec fn movie_search_address(key: Seq<char>, text: Seq<char>) -> Seq<char> {
    "https://api.themoviedb.org/3/search/movie?api_key="@ + key + "&query="@ + text
}

/// The address that searches the show catalog for `text`.
pub open spec fn show_search_address(key: Seq<char>, text: Seq<char>) -> Seq<char> {
    "https://api.themoviedb.org/3/search/tv?api_key="@ + key + "&query="@ + text
}

/// The address of the catalog's list of movie genres.
pub open spec fn genre_list_address(key: Seq<char>) -> Seq<char> {
    "https://api.themoviedb.org/3/genre/movie/list?api_key="@ + key
}

/// The address of the detail of the movie `id`.
pub open spec fn movie_detail_address(id: u32, key: Seq<char>) -> Seq<char> {
    "https://api.themoviedb.org/3/movie/"@ + decimal(id as nat) + "?api_key="@ + key
}

/// The address of the detail of the show `id`.
pub open spec fn show_detail_address(id: u32, key: Seq<char>) -> Seq<char> {
    "https://api.themoviedb.org/3/tv/"@ + decimal(id as nat) + "?api_key="@ + key
}

/// The address of one episode of the show `id`.
pub open spec fn episode_address(id: u32, season: u32, episode: u32, key: Seq<char>) -> Seq<
    char,
> {
    "https://api.themoviedb.org/3/tv/"@ + decimal(id as nat) + "/season/"@ + decimal(
        season as nat,
    ) + "/episode/"@ + decimal(episode as nat) + "?api_key="@ + key
}

/// Builds the address of a movie search.
pub fn movie_search_url(api_key: &str, text: &str) -> (url: String)
    ensures
        url@ == movie_search_address(api_key@, text@),
{
    let mut url = String::from_str("https://api.themoviedb.org/3/search/movie?api_key=");
    url.append(api_key);
    url.append("&query=");
    url.append(text);
    url
}

/// Builds the address of a show search.
pub fn show_search_url(api_key: &str, text: &str) -> (url: String)
    ensures
        url@ == show_search_address(api_key@, text@),
{
    let mut url = String::from_str("https://api.themoviedb.org/3/search/tv?api_key=");
    url.append(api_key);
    url.append("&query=");
    url.append(text);
    url
}

/// Builds the address of the genre list.
pub fn genre_list_url(api_key: &str) -> (url: String)
    ensures
        url@ == genre_list_address(api_key@),
{
    let mut url = String::from_str("https://api.themoviedb.org/3/genre/movie/list?api_key=");
    url.append(api_key);
    url
}

/// Builds the address of a movie's detail.
pub fn movie_detail_url(id: u32, api_key: &str) -> (url: String)
    ensures
        url@ == movie_detail_address(id, api_key@),
{
    let mut url = String::from_str("https://api.themoviedb.org/3/movie/");
    push_decimal(&mut url, id);
    url.append("?api_key=");
    url.append(api_key);
    url
}

/// Builds the address of a show's detail.
pub fn show_detail_url(id: u32, api_key: &str) -> (url: String)
    ensures
        url@ == show_detail_address(id, api_key@),
{
    let mut url = String::from_str("https://api.themoviedb.org/3/tv/");
    push_decimal(&mut url, id);
    url.append("?api_key=");
    url.append(api_key);
    url
}

/// Builds the address of an episode.
pub fn episode_url(id: u32, season: u32, episode: u32, api_key: &str) -> (url: String)
    ensures
        url@ == episode_address(id, season, episode, api_key@),
{
    let mut url = String::from_str("https://api.themoviedb.org/3/tv/");
    push_decimal(&mut url, id);
    url.append("/season/");
    push_decimal(&mut url, season);
    url.append("/episode/");
    push_decimal(&mut url, episode);
    url.append("?api_key=");
    url.append(api_key);
    url
}

// ---------------------------------------------------------------------------
// The cascade
// ---------------------------------------------------------------------------

/// No catalog match for the query, or no answer from the catalog: the two are
/// not told apart.
#[derive(Clone, Copy, Debug, PartialEq, Eq, Structural)]
pub struct NotFound;

/// The lookup whose reply the resolver waits for, with what it has gathered.
#[derive(Debug, PartialEq, Eq)]
pub enum Pending {
    /// The search for the query.
    Search(CatalogQuery),
    /// The genre list, for the movie found.
    Genres { movie: MediaRecord, genre_ids: Vec<i64> },
    /// The detail of the movie found.
    MovieDetail { movie: MediaRecord },
    /// The episode asked for, of the show found.
    Episode { show: MediaRecord },
    /// The detail of the show found.
    ShowDetail { show: MediaRecord },
}

/// The model of a `Pending`.
pub enum PendingModel {
    Search(CatalogQueryModel),
    Genres { movie: MediaModel, genre_ids: Seq<i64> },
    MovieDetail { movie: MediaModel },
    Episode { show: MediaModel },
    ShowDetail { show: MediaModel },
}

impl View for Pending {
    type V = PendingModel;

    open spec fn view(&self) -> PendingModel {
        match *self {
            Pending::Search(query) => PendingModel::Search(query@),
            Pending::Genres { movie, genre_ids } => PendingModel::Genres {
                movie: movie@,
                genre_ids: genre_ids@,
            },
            Pending::MovieDetail { movie } => PendingModel::MovieDetail { movie: movie@ },
            Pending::Episode { show } => PendingModel::Episode { show: show@ },
            Pending::ShowDetail { show } => PendingModel::ShowDetail { show: show@ },
        }
    }
}

/// How far a resolution has come.
#[derive(Debug, PartialEq, Eq)]
pub enum Progress {
    /// The caller is to fetch `url` and hand the reply to `advance` with
    /// `then`.
    Ask { url: String, then: Pending },
    /// The resolution ended with a record.
    Found(MediaRecord),
    /// The resolution ended without one.
    NotFound,
}

/// The model of a `Progress`.
pub enum ProgressModel {
    Ask { url: Seq<char>, then: PendingModel },
    Found(MediaModel),
    NotFound,
}

impl View for Progress {
    type V = ProgressModel;

    open spec fn view(&self) -> ProgressModel {
        match *self {
            Progress::Ask { url, then } => ProgressModel::Ask { url: url@, then: then@ },
            Progress::Found(record) => ProgressModel::Found(record@),
            Progress::NotFound => ProgressModel::NotFound,
        }
    }
}

impl ProgressModel {
    /// The result of a resolution that has ended.
    pub open spec fn outcome(self) -> Option<Result<MediaModel, NotFound>> {
        match self {
            ProgressModel::Ask { .. } => None,
            ProgressModel::Found(record) => Some(Ok(record)),
            ProgressModel::NotFound => Some(Err(NotFound)),
        }
    }
}

/// The first step of a resolution: the search for the query's text, in the
/// catalog of its kind.
pub open spec fn opening(query: CatalogQueryModel, key: Seq<char>) -> ProgressModel {
    ProgressModel::Ask {
        url: match query.kind {
            Kind::Movie => movie_search_address(key, query.text),
            Kind::Show => show_search_address(key, query.text),
        },
        then: PendingModel::Search(query),
    }
}

/// What follows the reply to a search: without a first result the resolution
/// ends, with one it goes on to the genre list or to the episode.
pub open spec fn after_search(query: CatalogQueryModel, reply: Json, key: Seq<char>) -> ProgressModel {
    match first_hit(reply) {
        None => ProgressModel::NotFound,
        Some(hit) => match query.kind {
            Kind::Movie => ProgressModel::Ask {
                url: genre_list_address(key),
                then: PendingModel::Genres {
                    movie: movie_of_hit(hit),
                    genre_ids: genre_ids_of(hit),
                },
            },
            Kind::Show => match (query.season, query.episode) {
                (Some(season), Some(episode)) => ProgressModel::Ask {
                    url: episode_address(id_of(hit), season, episode, key),
                    then: PendingModel::Episode { show: show_of_hit(hit, season, episode) },
                },
                _ => ProgressModel::NotFound,
            },
        },
    }
}

/// The step that follows a lookup: a lookup without a reply ends the
/// resolution, as does a search without results; else the reply is read and
/// the next lookup named, until the record is complete.
pub open spec fn after_reply(pending: PendingModel, reply: Option<Json>, key: Seq<char>) -> ProgressModel {
    match reply {
        None => ProgressModel::NotFound,
        Some(body) => match pending {
            PendingModel::Search(query) => after_search(query, body, key),
            PendingModel::Genres { movie, genre_ids } => ProgressModel::Ask {
                url: movie_detail_address(movie.id(), key),
                then: PendingModel::MovieDetail {
                    movie: movie.with_genres(genre_names_of(genre_ids, body)),
                },
            },
            PendingModel::MovieDetail { movie } => ProgressModel::Found(
                movie.with_external_id(body.optional_text("imdb_id"@)),
            ),
            PendingModel::Episode { show } => ProgressModel::Ask {
                url: show_detail_address(show.id(), key),
                then: PendingModel::ShowDetail {
                    show: show.with_episode_title(body.optional_text("name"@)),
                },
            },
            PendingModel::ShowDetail { show } => ProgressModel::Found(
                show.with_external_id(show_external_id(body)),
            ),
        },
    }
}

/// Begins the resolution of `query`.
pub fn begin(query: CatalogQuery, api_key: &str) -> (progress: Progress)
    ensures
        progress@ == opening(query@, api_key@),
{
    let url = match query.kind {
        Kind::Movie => movie_search_url(api_key, query.text.as_str()),
        Kind::Show => show_search_url(api_key, query.text.as_str()),
    };
    Progress::Ask { url, then: Pending::Search(query) }
}

/// Reads the reply to the search.
fn on_search(query: CatalogQuery, reply: &Json, api_key: &str) -> (progress: Progress)
    ensures
        progress@ == after_search(query@, *reply, api_key@),
{
    match first_result(reply) {
        None => Progress::NotFound,
        Some(hit) => match query.kind {
            Kind::Movie => Progress::Ask {
                url: genre_list_url(api_key),
                then: Pending::Genres { movie: read_movie(hit), genre_ids: read_genre_ids(hit) },
            },
            Kind::Show => match (query.season, query.episode) {
                (Some(season), Some(episode)) => Progress::Ask {
                    url: episode_url(read_id(hit), season, episode, api_key),
                    then: Pending::Episode { show: read_show(hit, season, episode) },
                },
                _ => Progress::NotFound,
            },
        },
    }
}

/// Takes the reply to the pending lookup, `None` where the catalog gave none,
/// and says how the resolution goes on.
pub fn advance(pending: Pending, reply: Option<Json>, api_key: &str) -> (progress: Progress)
    ensures
        progress@ == after_reply(pending@, reply, api_key@),
        reply is None ==> progress is NotFound,
{
    match reply {
        None => Progress::NotFound,
        Some(body) => match pending {
            Pending::Search(query) => on_search(query, &body, api_key),
            Pending::Genres { movie, genre_ids } => {
                let url = movie_detail_url(movie.catalog_id(), api_key);
                let names = genre_names(&genre_ids, &body);
                Progress::Ask { url, then: Pending::MovieDetail { movie: movie.with_genres(names) } }
            },
            Pending::MovieDetail { movie } => {
                let id = body.optional_string("imdb_id");
                Progress::Found(movie.with_external_id(id))
            },
            Pending::Episode { show } => {
                let url = show_detail_url(show.catalog_id(), api_key);
                let name = body.optional_string("name");
                Progress::Ask { url, then: Pending::ShowDetail { show: show.with_episode_title(name) } }
            },
            Pending::ShowDetail { show } => {
                let id = read_show_external_id(&body);
                Progress::Found(show.with_external_id(id))
            },
        },
    }
}

/// A search that returns no result ends the resolution without a record,
/// whatever the query asked for and whichever lookup would have come next.
pub proof fn lemma_empty_search_is_not_found(query: CatalogQueryModel, reply: Json, key: Seq<char>)
    requires
        first_hit(reply) is None,
    ensures
        after_reply(PendingModel::Search(query), Some(reply), key) == ProgressModel::NotFound,
        after_reply(PendingModel::Search(query), Some(reply), key).outcome() == Some(
            Err::<MediaModel, NotFound>(NotFound),
        ),
{
}

/// The record of a movie query whose three lookups were answered with `search`,
/// `genres` and `detail`.
pub open spec fn movie_resolution(search: Json, genres: Json, detail: Json) -> Result<
    MediaModel,
    NotFound,
> {
    match first_hit(search) {
        None => Err(NotFound),
        Some(hit) => Ok(
            MediaModel::Movie {
                title: hit.text_or_empty("title"@),
                genres: genre_names_of(genre_ids_of(hit), genres),
                poster_path: hit.text_or_empty("poster_path"@),
                catalog_id: id_of(hit),
                external_id: detail.optional_text("imdb_id"@),
            },
        ),
    }
}

/// The record of a query for `season` and `episode` of a show whose three
/// lookups were answered with `search`, `episode_reply` and `detail`.
pub open spec fn episode_resolution(
    season: u32,
    episode: u32,
    search: Json,
    episode_reply: Json,
    detail: Json,
) -> Result<MediaModel, NotFound> {
    match first_hit(search) {
        None => Err(NotFound),
        Some(hit) => Ok(
            MediaModel::Episode {
                show_title: hit.text_or_empty("name"@),
                episode_title: episode_reply.optional_text("name"@),
                season,
                episode,
                poster_path: hit.text_or_empty("poster_path"@),
                catalog_id: id_of(hit),
                external_id: show_external_id(detail),
            },
        ),
    }
}

/// A movie query whose search has a result goes through the genre list and the
/// movie's detail, in this order, and ends with the record of the first
/// result.
pub proof fn lemma_movie_cascade(
    query: CatalogQueryModel,
    search: Json,
    genres: Json,
    detail: Json,
    key: Seq<char>,
)
    requires
        query.kind == Kind::Movie,
        first_hit(search) is Some,
    ensures
        ({
            let first = after_reply(PendingModel::Search(query), Some(search), key);
            let second = after_reply(first->then, Some(genres), key);
            let third = after_reply(second->then, Some(detail), key);
            &&& first is Ask
            &&& first->url == genre_list_address(key)
            &&& second is Ask
            &&& second->url == movie_detail_address(id_of(first_hit(search)->0), key)
            &&& third.outcome() == Some(movie_resolution(search, genres, detail))
        }),
{
}

/// A show query whose search has a result goes through the episode and the
/// show's detail, in this order, and ends with the record of the first result.
pub proof fn lemma_episode_cascade(
    query: CatalogQueryModel,
    search: Json,
    episode_reply: Json,
    detail: Json,
    key: Seq<char>,
)
    requires
        query.kind == Kind::Show,
        query.wf(),
        first_hit(search) is Some,
    ensures
        ({
            let season = query.season->0;
            let episode = query.episode->0;
            let id = id_of(first_hit(search)->0);
            let first = after_reply(PendingModel::Search(query), Some(search), key);
            let second = after_reply(first->then, Some(episode_reply), key);
            let third = after_reply(second->then, Some(detail), key);
            &&& first is Ask
            &&& first->url == episode_address(id, season, episode, key)
            &&& second is Ask
            &&& second->url == show_detail_address(id, key)
            &&& third.outcome() == Some(
                episode_resolution(season, episode, search, episode_reply, detail),
            )
        }),
{
}

} // verus!
