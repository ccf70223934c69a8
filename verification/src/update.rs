//! Self-update: the version comparison and the state machine that decides what
//! the program does about a newer release.
//!
//! The machine only decides. Its caller performs each command (fetch, save,
//! launch, ask, overwrite, remove) and reports what came of it as the next
//! event, until a command ends the run.

use std::cmp::Ordering;
use vstd::prelude::*;
use crate::json::Json;
use crate::scan::{trim, trimmed};
use crate::text::chars_of;

verus! {

/// A parsed version of the `semver` crate.
#[verifier::external_type_specification]
#[verifier::external_body]
pub struct ExSemverVersion(semver::Version);

/// The parse error of the `semver` crate.
#[verifier::external_type_specification]
#[verifier::external_body]
pub struct ExSemverError(semver::Error);

/// Whether `semver::Version::parse` accepts `text` as a semantic version.
pub uninterp spec fn semver_reads(text: Seq<char>) -> bool;

/// How the versions that `semver::Version::parse` reads from `a` and from `b`
/// compare: below zero where the first is the lower, zero where they are
/// equal, above zero where the first is the higher.
pub uninterp spec fn semver_order(a: Seq<char>, b: Seq<char>) -> int;

/// A semantic version, kept with the text it was read from.
///
/// Only `read_version` builds a value, so `parsed` is always what the `semver`
/// crate reads from `text`.
#[derive(Debug, PartialEq, Eq)]
pub struct SemanticVersion {
    text: String,
    parsed: semver::Version,
}

impl View for SemanticVersion {
    type V = Seq<char>;

    /// The text the version was read from.
    closed spec fn view(&self) -> Seq<char> {
        self.text@
    }
}

impl SemanticVersion {
    /// The text the version was read from.
    pub fn as_str(&self) -> (text: &str)
        ensures
            text@ == self@,
    {
        self.text.as_str()
    }
}

/// Calls `semver::Version::parse`. The result is `Ok` exactly on the texts
/// that the crate accepts, and the version then carries the text it was read
/// from.
#[verifier::external_body]
fn read_version(text: &str) -> (r: Result<SemanticVersion, semver::Error>)
    ensures
        r is Ok <==> semver_reads(text@),
        r matches Ok(v) ==> v@ == text@,
{
    match semver::Version::parse(text) {
        Ok(parsed) => Ok(SemanticVersion { text: text.to_owned(), parsed }),
        Err(e) => Err(e),
    }
}

/// Calls `Ord::cmp` of `semver::Version` on the two parsed versions and
/// returns its sign: -1, 0 or 1. Each parsed version is what the crate reads
/// from the text kept with it, so the sign depends on the two texts alone, and
/// two versions read from the same text are equal.
#[verifier::external_body]
fn precedence(a: &SemanticVersion, b: &SemanticVersion) -> (sign: i8)
    ensures
        sign == semver_order(a@, b@),
        -1 <= sign <= 1,
        a@ == b@ ==> sign == 0,
{
    match a.parsed.cmp(&b.parsed) {
        Ordering::Less => -1,
        Ordering::Equal => 0,
        Ordering::Greater => 1,
    }
}

/// Why an update run ends in failure.
#[derive(Clone, Copy, Debug, PartialEq, Eq, Structural)]
pub enum UpdateError {
    /// The program's own version is no semantic version.
    MalformedCurrentVersion,
    /// The release's version tag is no semantic version.
    MalformedRemoteVersion,
    /// The release descriptor has no version tag.
    MissingVersionTag,
    /// A newer release offers nothing to download.
    MissingAsset,
    /// The release descriptor could not be fetched.
    ReleaseUnavailable,
    /// The candidate could not be downloaded or saved.
    DownloadFailed,
    /// A program could not be launched.
    LaunchFailed,
    /// The answer to the consent prompt could not be read.
    ConsentUnreadable,
    /// The executable could not be overwritten.
    ReplaceFailed,
    /// The candidate file could not be removed.
    RemoveFailed,
    /// An event came that the state does not wait for.
    UnexpectedEvent,
}

/// What a version comparison asks for.
#[derive(Clone, Copy, Debug, PartialEq, Eq, Structural)]
pub enum UpdateChoice {
    /// The release is not newer than the program.
    UpToDate,
    /// The release is newer: replace the program and restart.
    ReplaceAndRestart,
}

/// The outcome of comparing the program's version with the release's.
#[derive(Debug, PartialEq, Eq)]
pub struct UpdateDecision {
    pub current_version: SemanticVersion,
    pub remote_version: SemanticVersion,
    pub action: UpdateChoice,
}

/// What a comparison of `current` with `remote` asks for: replacement exactly
/// where `remote` is the higher version.
pub open spec fn choice_of(order: int) -> UpdateChoice {
    if order < 0 {
        UpdateChoice::ReplaceAndRestart
    } else {
        UpdateChoice::UpToDate
    }
}

/// The decision on two version texts: an error for the first of them that is
/// no semantic version, else what their order asks for.
pub open spec fn decision(current: Seq<char>, remote: Seq<char>) -> Result<
    UpdateChoice,
    UpdateError,
> {
    if !semver_reads(current) {
        Err(UpdateError::MalformedCurrentVersion)
    } else if !semver_reads(remote) {
        Err(UpdateError::MalformedRemoteVersion)
    } else {
        Ok(choice_of(semver_order(current, remote)))
    }
}

/// What the sign of comparing the current version with the remote one asks
/// for.
pub fn choice_for(sign: i8) -> (choice: UpdateChoice)
    ensures
        choice == choice_of(sign as int),
{
    if sign < 0 {
        UpdateChoice::ReplaceAndRestart
    } else {
        UpdateChoice::UpToDate
    }
}

/// Reads a semantic version.
pub fn parse_version(text: &str) -> (r: Option<SemanticVersion>)
    ensures
        r is Some <==> semver_reads(text@),
        r matches Some(v) ==> v@ == text@,
{
    match read_version(text) {
        Ok(version) => Some(version),
        Err(_) => None,
    }
}

/// Compares the program's version with the release's.
pub fn decide(current: &str, remote: &str) -> (r: Result<UpdateDecision, UpdateError>)
    ensures
        match r {
            Ok(d) => decision(current@, remote@) == Ok::<UpdateChoice, UpdateError>(d.action)
                && d.current_version@ == current@ && d.remote_version@ == remote@,
            Err(e) => decision(current@, remote@) == Err::<UpdateChoice, UpdateError>(e),
        },
        current@ == remote@ ==> !(r matches Ok(d) && d.action == UpdateChoice::ReplaceAndRestart),
{
    match parse_version(current) {
        None => Err(UpdateError::MalformedCurrentVersion),
        Some(current_version) => match parse_version(remote) {
            None => Err(UpdateError::MalformedRemoteVersion),
            Some(remote_version) => {
                let action = choice_for(precedence(&current_version, &remote_version));
                Ok(UpdateDecision { current_version, remote_version, action })
            },
        },
    }
}

/// Whether an answer to the consent prompt grants the replacement: `y` or
/// `yes`, exactly, once the whitespace around it is taken off.
pub open spec fn is_consent(answer: Seq<char>) -> bool {
    trimmed(answer) == seq!['y'] || trimmed(answer) == seq!['y', 'e', 's']
}

/// Tests whether an answer to the consent prompt grants the replacement.
pub fn consent_granted(answer: &str) -> (granted: bool)
    ensures
        granted == is_consent(answer@),
{
    let word = trim(&chars_of(answer));
    let granted = (word.len() == 1 && word[0] == 'y') || (word.len() == 3 && word[0] == 'y'
        && word[1] == 'e' && word[2] == 's');
    assert(granted ==> word@ =~= seq!['y'] || word@ =~= seq!['y', 'e', 's']);
    granted
}

/// The version tag of a release descriptor.
pub open spec fn release_tag(release: Json) -> Option<Seq<char>> {
    release.optional_text("tag_name"@)
}

/// The download address of the first asset of a release descriptor.
pub open spec fn first_asset(release: Json) -> Option<Seq<char>> {
    match release.member("assets"@) {
        Some(Json::Array(assets)) => if assets@.len() > 0 {
            assets@[0].optional_text("browser_download_url"@)
        } else {
            None
        },
        _ => None,
    }
}

/// Reads the version tag out of a release descriptor.
pub fn version_tag(release: &Json) -> (tag: Option<String>)
    ensures
        match tag {
            Some(t) => release_tag(*release) == Some(t@),
            None => release_tag(*release) is None,
        },
{
    release.optional_string("tag_name")
}

/// Reads the download address of the first asset out of a release
/// descriptor.
pub fn first_asset_url(release: &Json) -> (url: Option<String>)
    ensures
        match url {
            Some(u) => first_asset(*release) == Some(u@),
            None => first_asset(*release) is None,
        },
{
    match release.get("assets") {
        Some(Json::Array(assets)) => if assets.len() > 0 {
            assets[0].optional_string("browser_download_url")
        } else {
            None
        },
        _ => None,
    }
}

/// How far a download has come.
#[derive(Clone, Copy, Debug, PartialEq, Eq, Structural)]
pub enum DownloadStep {
    /// The candidate is being fetched and saved.
    Saving,
    /// The saved candidate is being launched.
    Launching,
}

/// How far a replacement has come.
#[derive(Clone, Copy, Debug, PartialEq, Eq, Structural)]
pub enum ReplaceStep {
    /// The executable is being overwritten with the candidate's bytes.
    Overwriting,
    /// The new executable is being launched.
    Launching,
    /// The candidate file is being removed.
    Removing,
}

/// Where an update run stands.
#[derive(Clone, Copy, Debug, PartialEq, Eq, Structural)]
pub enum UpdateState {
    CheckingVersion,
    DownloadingUpdate(DownloadStep),
    AwaitingUserConsent,
    Replacing(ReplaceStep),
    /// The user declined; the old executable is started again.
    DeclinedRestartOriginal,
    /// Nothing to do: the program goes on.
    UpToDate,
    /// The new executable runs.
    Restarted,
    Failed(UpdateError),
}

/// What came of the last command.
#[derive(Debug, PartialEq, Eq)]
pub enum UpdateEvent {
    /// The release descriptor, and whether a candidate file of an earlier run
    /// lies on disk.
    ReleaseFound { release: Json, leftover: bool },
    /// The line typed at the consent prompt.
    Answer(String),
    /// The command was carried out.
    Done,
    /// The command failed.
    Failed,
}

/// What the caller is to do next.
#[derive(Clone, Copy, Debug, PartialEq, Eq, Structural)]
pub enum Command {
    /// Fetch the latest release descriptor and look for a leftover candidate.
    FetchRelease,
    /// Download the first asset into the candidate file.
    SaveCandidate,
    /// Launch the candidate file as a detached process.
    LaunchCandidate,
    /// Ask the user whether to install the candidate.
    AskConsent,
    /// Overwrite the executable with the candidate's bytes.
    OverwriteExecutable,
    /// Launch the executable as a detached process.
    LaunchExecutable,
    /// Remove the candidate file.
    RemoveCandidate,
    /// End the update run and go on with normal operation.
    Continue,
    /// End the process.
    Exit,
    /// End the process with an error.
    Abort(UpdateError),
}

/// The failure that a state reports when its command fails.
pub open spec fn failure_of(state: UpdateState) -> UpdateError {
    match state {
        UpdateState::CheckingVersion => UpdateError::ReleaseUnavailable,
        UpdateState::DownloadingUpdate(DownloadStep::Saving) => UpdateError::DownloadFailed,
        UpdateState::DownloadingUpdate(DownloadStep::Launching) => UpdateError::LaunchFailed,
        UpdateState::AwaitingUserConsent => UpdateError::ConsentUnreadable,
        UpdateState::Replacing(ReplaceStep::Overwriting) => UpdateError::ReplaceFailed,
        UpdateState::Replacing(ReplaceStep::Launching) => UpdateError::LaunchFailed,
        UpdateState::Replacing(ReplaceStep::Removing) => UpdateError::RemoveFailed,
        UpdateState::DeclinedRestartOriginal => UpdateError::LaunchFailed,
        UpdateState::UpToDate => UpdateError::UnexpectedEvent,
        UpdateState::Restarted => UpdateError::UnexpectedEvent,
        UpdateState::Failed(e) => e,
    }
}

/// The state and command that end a run in failure.
pub open spec fn failed(e: UpdateError) -> (UpdateState, Command) {
    (UpdateState::Failed(e), Command::Abort(e))
}

/// What follows once the release descriptor is known.
pub open spec fn after_release(release: Json, leftover: bool, current: Seq<char>) -> (
    UpdateState,
    Command,
) {
    match release_tag(release) {
        None => failed(UpdateError::MissingVersionTag),
        Some(tag) => match decision(current, tag) {
            Err(e) => failed(e),
            Ok(UpdateChoice::ReplaceAndRestart) => if first_asset(release) is Some {
                (UpdateState::DownloadingUpdate(DownloadStep::Saving), Command::SaveCandidate)
            } else {
                failed(UpdateError::MissingAsset)
            },
            Ok(UpdateChoice::UpToDate) => if leftover {
                (UpdateState::AwaitingUserConsent, Command::AskConsent)
            } else {
                (UpdateState::UpToDate, Command::Continue)
            },
        },
    }
}

/// What follows once the last command was carried out.
pub open spec fn after_done(state: UpdateState) -> (UpdateState, Command) {
    match state {
        UpdateState::DownloadingUpdate(DownloadStep::Saving) => (
            UpdateState::DownloadingUpdate(DownloadStep::Launching),
            Command::LaunchCandidate,
        ),
        // The candidate now runs; it finds its own file and asks for consent.
        UpdateState::DownloadingUpdate(DownloadStep::Launching) => (
            UpdateState::AwaitingUserConsent,
            Command::Exit,
        ),
        UpdateState::Replacing(ReplaceStep::Overwriting) => (
            UpdateState::Replacing(ReplaceStep::Launching),
            Command::LaunchExecutable,
        ),
        UpdateState::Replacing(ReplaceStep::Launching) => (
            UpdateState::Replacing(ReplaceStep::Removing),
            Command::RemoveCandidate,
        ),
        UpdateState::Replacing(ReplaceStep::Removing) => (UpdateState::Restarted, Command::Exit),
        UpdateState::DeclinedRestartOriginal => (
            UpdateState::DeclinedRestartOriginal,
            Command::Exit,
        ),
        _ => failed(UpdateError::UnexpectedEvent),
    }
}

/// The state machine: the state and the command that follow `state` on
/// `event`, for a program whose own version is `current`.
pub open spec fn transition(state: UpdateState, event: UpdateEvent, current: Seq<char>) -> (
    UpdateState,
    Command,
) {
    match state {
        UpdateState::UpToDate => (state, Command::Continue),
        UpdateState::Restarted => (state, Command::Exit),
        UpdateState::Failed(e) => (state, Command::Abort(e)),
        _ => match event {
            UpdateEvent::Failed => failed(failure_of(state)),
            UpdateEvent::Done => after_done(state),
            UpdateEvent::ReleaseFound { release, leftover } => if state
                == UpdateState::CheckingVersion {
                after_release(release, leftover, current)
            } else {
                failed(UpdateError::UnexpectedEvent)
            },
            UpdateEvent::Answer(answer) => if state == UpdateState::AwaitingUserConsent {
                if is_consent(answer@) {
                    (UpdateState::Replacing(ReplaceStep::Overwriting), Command::OverwriteExecutable)
                } else {
                    (UpdateState::DeclinedRestartOriginal, Command::LaunchExecutable)
                }
            } else {
                failed(UpdateError::UnexpectedEvent)
            },
        },
    }
}

/// Where a run begins: with fetching the release, unless the program's own
/// version is no semantic version.
pub open spec fn beginning(current: Seq<char>) -> (UpdateState, Command) {
    if semver_reads(current) {
        (UpdateState::CheckingVersion, Command::FetchRelease)
    } else {
        failed(UpdateError::MalformedCurrentVersion)
    }
}

/// Begins an update run for a program of version `current_version`.
pub fn begin(current_version: &str) -> (next: (UpdateState, Command))
    ensures
        next == beginning(current_version@),
{
    match parse_version(current_version) {
        Some(_) => (UpdateState::CheckingVersion, Command::FetchRelease),
        None => fail(UpdateError::MalformedCurrentVersion),
    }
}

/// Ends the run in failure.
fn fail(e: UpdateError) -> (next: (UpdateState, Command))
    ensures
        next == failed(e),
{
    (UpdateState::Failed(e), Command::Abort(e))
}

/// Decides on a release descriptor.
fn on_release(release: &Json, leftover: bool, current_version: &str) -> (next: (
    UpdateState,
    Command,
))
    ensures
        next == after_release(*release, leftover, current_version@),
{
    match version_tag(release) {
        None => fail(UpdateError::MissingVersionTag),
        Some(tag) => match decide(current_version, tag.as_str()) {
            Err(e) => fail(e),
            Ok(decision) => match decision.action {
                UpdateChoice::ReplaceAndRestart => if first_asset_url(release).is_some() {
                    (UpdateState::DownloadingUpdate(DownloadStep::Saving), Command::SaveCandidate)
                } else {
                    fail(UpdateError::MissingAsset)
                },
                UpdateChoice::UpToDate => if leftover {
                    (UpdateState::AwaitingUserConsent, Command::AskConsent)
                } else {
                    (UpdateState::UpToDate, Command::Continue)
                },
            },
        },
    }
}

/// Names the command that follows a command carried out.
fn on_done(state: UpdateState) -> (next: (UpdateState, Command))
    ensures
        next == after_done(state),
{
    match state {
        UpdateState::DownloadingUpdate(DownloadStep::Saving) => (
            UpdateState::DownloadingUpdate(DownloadStep::Launching),
            Command::LaunchCandidate,
        ),
        UpdateState::DownloadingUpdate(DownloadStep::Launching) => (
            UpdateState::AwaitingUserConsent,
            Command::Exit,
        ),
        UpdateState::Replacing(ReplaceStep::Overwriting) => (
            UpdateState::Replacing(ReplaceStep::Launching),
            Command::LaunchExecutable,
        ),
        UpdateState::Replacing(ReplaceStep::Launching) => (
            UpdateState::Replacing(ReplaceStep::Removing),
            Command::RemoveCandidate,
        ),
        UpdateState::Replacing(ReplaceStep::Removing) => (UpdateState::Restarted, Command::Exit),
        UpdateState::DeclinedRestartOriginal => (
            UpdateState::DeclinedRestartOriginal,
            Command::Exit,
        ),
        _ => fail(UpdateError::UnexpectedEvent),
    }
}

/// Names the error of a command that failed.
fn failure(state: UpdateState) -> (e: UpdateError)
    ensures
        e == failure_of(state),
{
    match state {
        UpdateState::CheckingVersion => UpdateError::ReleaseUnavailable,
        UpdateState::DownloadingUpdate(DownloadStep::Saving) => UpdateError::DownloadFailed,
        UpdateState::DownloadingUpdate(DownloadStep::Launching) => UpdateError::LaunchFailed,
        UpdateState::AwaitingUserConsent => UpdateError::ConsentUnreadable,
        UpdateState::Replacing(ReplaceStep::Overwriting) => UpdateError::ReplaceFailed,
        UpdateState::Replacing(ReplaceStep::Launching) => UpdateError::LaunchFailed,
        UpdateState::Replacing(ReplaceStep::Removing) => UpdateError::RemoveFailed,
        UpdateState::DeclinedRestartOriginal => UpdateError::LaunchFailed,
        UpdateState::UpToDate => UpdateError::UnexpectedEvent,
        UpdateState::Restarted => UpdateError::UnexpectedEvent,
        UpdateState::Failed(e) => e,
    }
}

/// One step of the update run: takes the state and what came of the last
/// command, and returns the next state and the next command.
pub fn update(state: UpdateState, event: &UpdateEvent, current_version: &str) -> (next: (
    UpdateState,
    Command,
))
    ensures
        next == transition(state, *event, current_version@),
{
    match state {
        UpdateState::UpToDate => (state, Command::Continue),
        UpdateState::Restarted => (state, Command::Exit),
        UpdateState::Failed(e) => (state, Command::Abort(e)),
        _ => match event {
            UpdateEvent::Failed => fail(failure(state)),
            UpdateEvent::Done => on_done(state),
            UpdateEvent::ReleaseFound { release, leftover } => match state {
                UpdateState::CheckingVersion => on_release(release, *leftover, current_version),
                _ => fail(UpdateError::UnexpectedEvent),
            },
            UpdateEvent::Answer(answer) => match state {
                UpdateState::AwaitingUserConsent => if consent_granted(answer.as_str()) {
                    (UpdateState::Replacing(ReplaceStep::Overwriting), Command::OverwriteExecutable)
                } else {
                    (UpdateState::DeclinedRestartOriginal, Command::LaunchExecutable)
                },
                _ => fail(UpdateError::UnexpectedEvent),
            },
        },
    }
}

/// The candidate file is removed only at the end of a replacement: the command
/// to remove it follows a launch of the new executable that was carried out,
/// that launch follows an overwrite that was carried out, and the overwrite
/// follows a consent that was granted.
pub proof fn lemma_removal_ends_a_replacement(
    state: UpdateState,
    event: UpdateEvent,
    current: Seq<char>,
)
    ensures
        transition(state, event, current).1 == Command::RemoveCandidate ==> state
            == UpdateState::Replacing(ReplaceStep::Launching) && event is Done,
        transition(state, event, current).0 == UpdateState::Replacing(ReplaceStep::Launching)
            ==> state == UpdateState::Replacing(ReplaceStep::Overwriting) && event is Done,
        transition(state, event, current).0 == UpdateState::Replacing(ReplaceStep::Overwriting)
            ==> state == UpdateState::AwaitingUserConsent && (event matches UpdateEvent::Answer(
            answer,
        ) && is_consent(answer@)),
{
}

/// A consent that is declined leads to the relaunch of the old executable,
/// and from there on to the end of the process; the candidate file is neither
/// used nor removed.
pub proof fn lemma_declined_consent_keeps_the_candidate(
    answer: String,
    event: UpdateEvent,
    current: Seq<char>,
)
    requires
        !is_consent(answer@),
    ensures
        transition(UpdateState::AwaitingUserConsent, UpdateEvent::Answer(answer), current) == (
            UpdateState::DeclinedRestartOriginal,
            Command::LaunchExecutable,
        ),
        transition(UpdateState::DeclinedRestartOriginal, event, current).1 is Exit || transition(
            UpdateState::DeclinedRestartOriginal,
            event,
            current,
        ).1 is Abort,
{
}

/// A release that is not newer than the program never starts a download: with
/// a leftover candidate the user is asked, without one the program goes on.
pub proof fn lemma_no_download_unless_newer(
    release: Json,
    leftover: bool,
    current: Seq<char>,
    tag: Seq<char>,
)
    requires
        release_tag(release) == Some(tag),
        decision(current, tag) == Ok::<UpdateChoice, UpdateError>(UpdateChoice::UpToDate),
    ensures
        after_release(release, leftover, current) == if leftover {
            (UpdateState::AwaitingUserConsent, Command::AskConsent)
        } else {
            (UpdateState::UpToDate, Command::Continue)
        },
{
}

} // verus!
