//! Presence projector: from a media record to what the presence service
//! shows.

use vstd::prelude::*;
use vstd::string::StringExecFns;
use crate::catalog::{MediaModel, MediaRecord};
use crate::scan::is_digit;
use crate::text::{
    decimal, join, joined, lemma_two_places_digits, lemma_two_places_injective, optional_text,
    push_decimal, push_two_places, two_places,
};

verus! {

/// The structured status that the presence service shows.
#[derive(Debug, PartialEq, Eq)]
pub struct PresencePayload {
    pub title: String,
    pub subtitle: String,
    pub image_key: String,
    pub primary_link: String,
    pub secondary_link: Option<String>,
}

/// The model of a `PresencePayload`.
pub struct PresenceModel {
    pub title: Seq<char>,
    pub subtitle: Seq<char>,
    pub image_key: Seq<char>,
    pub primary_link: Seq<char>,
    pub secondary_link: Option<Seq<char>>,
}

impl View for PresencePayload {
    type V = PresenceModel;

    open spec fn view(&self) -> PresenceModel {
        PresenceModel {
            title: self.title@,
            subtitle: self.subtitle@,
            image_key: self.image_key@,
            primary_link: self.primary_link@,
            secondary_link: optional_text(self.secondary_link),
        }
    }
}

/// The subtitle of an episode: the show's title, then season and episode in
/// two places each.
pub open spec fn episode_subtitle(show_title: Seq<char>, season: u32, episode: u32) -> Seq<char> {
    show_title + " S"@ + two_places(season as nat) + ":E"@ + two_places(episode as nat)
}

/// The subtitle of a movie: its genres in the catalog's order; empty where it
/// has none.
pub open spec fn movie_subtitle(genres: Seq<Seq<char>>) -> Seq<char> {
    if genres.len() == 0 {
        Seq::empty()
    } else {
        "Genres: "@ + joined(genres, ", "@)
    }
}

/// The title shown: a movie's title; an episode's own title, or the show's
/// where the episode has none or an empty one.
pub open spec fn title_of(record: MediaModel) -> Seq<char> {
    match record {
        MediaModel::Movie { title, .. } => title,
        MediaModel::Episode { show_title, episode_title, .. } => match episode_title {
            Some(name) => if name.len() > 0 {
                name
            } else {
                show_title
            },
            None => show_title,
        },
    }
}

/// The subtitle shown.
pub open spec fn subtitle_of(record: MediaModel) -> Seq<char> {
    match record {
        MediaModel::Movie { genres, .. } => movie_subtitle(genres),
        MediaModel::Episode { show_title, season, episode, .. } => episode_subtitle(
            show_title,
            season,
            episode,
        ),
    }
}

/// The artwork shown: the poster at the artwork base address, or a neutral
/// placeholder where the record has no poster.
pub open spec fn image_of(poster_path: Seq<char>) -> Seq<char> {
    if poster_path.len() == 0 {
        "placeholder"@
    } else {
        "https://image.tmdb.org/t/p/w500"@ + poster_path
    }
}

/// The poster path of a record.
pub open spec fn poster_of(record: MediaModel) -> Seq<char> {
    match record {
        MediaModel::Movie { poster_path, .. } => poster_path,
        MediaModel::Episode { poster_path, .. } => poster_path,
    }
}

/// The cross-reference of a record.
pub open spec fn external_of(record: MediaModel) -> Option<Seq<char>> {
    match record {
        MediaModel::Movie { external_id, .. } => external_id,
        MediaModel::Episode { external_id, .. } => external_id,
    }
}

/// The address of the record's page in the catalog.
pub open spec fn primary_link_of(record: MediaModel) -> Seq<char> {
    match record {
        MediaModel::Movie { catalog_id, .. } => "https://www.themoviedb.org/movie/"@ + decimal(
            catalog_id as nat,
        ),
        MediaModel::Episode { catalog_id, .. } => "https://www.themoviedb.org/tv/"@ + decimal(
            catalog_id as nat,
        ),
    }
}

/// The address of the record's cross-reference, where it has one.
pub open spec fn secondary_link_of(record: MediaModel) -> Option<Seq<char>> {
    match external_of(record) {
        Some(id) => Some("https://www.imdb.com/title/"@ + id + "/"@),
        None => None,
    }
}

/// What the presence service shows for a record.
pub open spec fn projection(record: MediaModel) -> PresenceModel {
    PresenceModel {
        title: title_of(record),
        subtitle: subtitle_of(record),
        image_key: image_of(poster_of(record)),
        primary_link: primary_link_of(record),
        secondary_link: secondary_link_of(record),
    }
}

/// Builds the artwork reference of a poster path.
fn image_key(poster_path: &String) -> (key: String)
    ensures
        key@ == image_of(poster_path@),
{
    if poster_path.as_str().unicode_len() == 0 {
        String::from_str("placeholder")
    } else {
        let mut key = String::from_str("https://image.tmdb.org/t/p/w500");
        key.append(poster_path.as_str());
        key
    }
}

/// Builds the address of a cross-reference.
fn external_link(external_id: &Option<String>) -> (link: Option<String>)
    ensures
        optional_text(link) == match optional_text(*external_id) {
            Some(id) => Some("https://www.imdb.com/title/"@ + id + "/"@),
            None => None,
        },
{
    match external_id {
        Some(id) => {
            let mut link = String::from_str("https://www.imdb.com/title/");
            link.append(id.as_str());
            link.append("/");
            Some(link)
        },
        None => None,
    }
}

/// Projects a media record onto the presence payload. Total.
pub fn project(record: &MediaRecord) -> (payload: PresencePayload)
    ensures
        payload@ == projection(record@),
{
    match record {
        MediaRecord::Movie { title, genres, poster_path, catalog_id, external_id } => {
            let mut subtitle = String::new();
            if genres.len() > 0 {
                subtitle.append("Genres: ");
                subtitle.append(join(genres, ", ").as_str());
            }
            let mut primary_link = String::from_str("https://www.themoviedb.org/movie/");
            push_decimal(&mut primary_link, *catalog_id);
            PresencePayload {
                title: title.clone(),
                subtitle,
                image_key: image_key(poster_path),
                primary_link,
                secondary_link: external_link(external_id),
            }
        },
        MediaRecord::Episode {
            show_title,
            episode_title,
            season,
            episode,
            poster_path,
            catalog_id,
            external_id,
        } => {
            let title = match episode_title {
                Some(name) => if name.as_str().unicode_len() > 0 {
                    name.clone()
                } else {
                    show_title.clone()
                },
                None => show_title.clone(),
            };
            let mut subtitle = show_title.clone();
            subtitle.append(" S");
            push_two_places(&mut subtitle, *season);
            subtitle.append(":E");
            push_two_places(&mut subtitle, *episode);
            let mut primary_link = String::from_str("https://www.themoviedb.org/tv/");
            push_decimal(&mut primary_link, *catalog_id);
            PresencePayload {
                title,
                subtitle,
                image_key: image_key(poster_path),
                primary_link,
                secondary_link: external_link(external_id),
            }
        },
    }
}

/// A labelled link of a presence status.
#[derive(Debug, PartialEq, Eq)]
pub struct Link {
    pub label: String,
    pub url: String,
}

/// The links of a payload, in the order shown: the catalog's page, then the
/// cross-reference where there is one.
pub open spec fn links_of(payload: PresenceModel) -> Seq<(Seq<char>, Seq<char>)> {
    match payload.secondary_link {
        Some(url) => seq![("TMDB"@, payload.primary_link), ("IMDB"@, url)],
        None => seq![("TMDB"@, payload.primary_link)],
    }
}

/// The pairs of label and address of `links`.
pub open spec fn link_texts(links: Seq<Link>) -> Seq<(Seq<char>, Seq<char>)> {
    links.map_values(|link: Link| (link.label@, link.url@))
}

/// The links to send with a payload.
pub fn links(payload: &PresencePayload) -> (list: Vec<Link>)
    ensures
        link_texts(list@) == links_of(payload@),
{
    let mut list: Vec<Link> = Vec::new();
    list.push(Link { label: String::from_str("TMDB"), url: payload.primary_link.clone() });
    match &payload.secondary_link {
        Some(url) => {
            list.push(Link { label: String::from_str("IMDB"), url: url.clone() });
        },
        None => {},
    }
    assert(link_texts(list@) =~= links_of(payload@));
    list
}

/// A text that ends in a non-digit followed by digits only splits in one way
/// into what stands before that non-digit, the non-digit, and the digits.
proof fn lemma_split_before_digits(
    a1: Seq<char>,
    c1: char,
    d1: Seq<char>,
    a2: Seq<char>,
    c2: char,
    d2: Seq<char>,
)
    requires
        a1.push(c1) + d1 == a2.push(c2) + d2,
        !is_digit(c1),
        !is_digit(c2),
        forall|i: int| 0 <= i < d1.len() ==> is_digit(#[trigger] d1[i]),
        forall|i: int| 0 <= i < d2.len() ==> is_digit(#[trigger] d2[i]),
    ensures
        a1 == a2,
        c1 == c2,
        d1 == d2,
{
    let x = a1.push(c1) + d1;
    let y = a2.push(c2) + d2;
    assert(x.len() == a1.len() + 1 + d1.len());
    assert(y.len() == a2.len() + 1 + d2.len());
    assert(x[a1.len() as int] == c1);
    assert(y[a2.len() as int] == c2);
    if a1.len() < a2.len() {
        assert(x[a2.len() as int] == d1[a2.len() - a1.len() - 1]);
    }
    if a2.len() < a1.len() {
        assert(y[a1.len() as int] == d2[a1.len() - a2.len() - 1]);
    }
    assert(a1.len() == a2.len());
    assert forall|i: int| 0 <= i < a1.len() implies a1[i] == a2[i] by {
        assert(x[i] == a1[i]);
        assert(y[i] == a2[i]);
    }
    assert(a1 =~= a2);
    assert forall|i: int| 0 <= i < d1.len() implies d1[i] == d2[i] by {
        assert(x[a1.len() + 1 + i] == d1[i]);
        assert(y[a2.len() + 1 + i] == d2[i]);
    }
    assert(d1 =~= d2);
}

/// Episodes with the same subtitle have the same show title, season and
/// episode.
pub proof fn lemma_episode_subtitle_injective(
    title1: Seq<char>,
    season1: u32,
    episode1: u32,
    title2: Seq<char>,
    season2: u32,
    episode2: u32,
)
    requires
        episode_subtitle(title1, season1, episode1) == episode_subtitle(title2, season2, episode2),
    ensures
        title1 == title2,
        season1 == season2,
        episode1 == episode2,
{
    reveal_strlit(" S");
    reveal_strlit(":E");
    lemma_two_places_digits(season1 as nat);
    lemma_two_places_digits(season2 as nat);
    lemma_two_places_digits(episode1 as nat);
    lemma_two_places_digits(episode2 as nat);
    let front1 = title1.push(' ');
    let front2 = title2.push(' ');
    let middle1 = (front1.push('S') + two_places(season1 as nat)).push(':');
    let middle2 = (front2.push('S') + two_places(season2 as nat)).push(':');
    assert(episode_subtitle(title1, season1, episode1) =~= middle1.push('E') + two_places(
        episode1 as nat,
    ));
    assert(episode_subtitle(title2, season2, episode2) =~= middle2.push('E') + two_places(
        episode2 as nat,
    ));
    lemma_split_before_digits(
        middle1,
        'E',
        two_places(episode1 as nat),
        middle2,
        'E',
        two_places(episode2 as nat),
    );
    lemma_two_places_injective(episode1 as nat, episode2 as nat);
    assert(middle1.drop_last() =~= front1.push('S') + two_places(season1 as nat));
    assert(middle2.drop_last() =~= front2.push('S') + two_places(season2 as nat));
    lemma_split_before_digits(
        front1,
        'S',
        two_places(season1 as nat),
        front2,
        'S',
        two_places(season2 as nat),
    );
    lemma_two_places_injective(season1 as nat, season2 as nat);
    assert(front1.drop_last() =~= title1);
    assert(front2.drop_last() =~= title2);
}

/// The show title, season and episode of an episode record.
pub open spec fn episode_key(record: MediaModel) -> (Seq<char>, u32, u32) {
    match record {
        MediaModel::Episode { show_title, season, episode, .. } => (show_title, season, episode),
        MediaModel::Movie { title, .. } => (title, 0, 0),
    }
}

/// Two episode records that differ in show title, season or episode never
/// get the same subtitle.
pub proof fn lemma_distinct_episodes_distinct_subtitles(a: MediaModel, b: MediaModel)
    requires
        a is Episode,
        b is Episode,
        episode_key(a) != episode_key(b),
    ensures
        projection(a).subtitle != projection(b).subtitle,
{
    if projection(a).subtitle == projection(b).subtitle {
        lemma_episode_subtitle_injective(
            episode_key(a).0,
            episode_key(a).1,
            episode_key(a).2,
            episode_key(b).0,
            episode_key(b).1,
            episode_key(b).2,
        );
    }
}

} // verus!
