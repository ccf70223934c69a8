use vlc_discord_rpc::json::Json;
use vlc_discord_rpc::update::{
    begin, choice_for, consent_granted, decide, first_asset_url, parse_version, update,
    version_tag, Command, DownloadStep, ReplaceStep, UpdateChoice, UpdateError, UpdateEvent,
    UpdateState,
};

fn object(members: Vec<(&str, Json)>) -> Json {
    Json::Object(members.into_iter().map(|(k, v)| (k.to_string(), v)).collect())
}

fn string(s: &str) -> Json {
    Json::Text(s.to_string())
}

fn release(tag: &str) -> Json {
    object(vec![
        ("tag_name", string(tag)),
        (
            "assets",
            Json::Array(vec![
                object(vec![("browser_download_url", string("https://example.org/first.exe"))]),
                object(vec![("browser_download_url", string("https://example.org/second.exe"))]),
            ]),
        ),
    ])
}

fn found(tag: &str, leftover: bool) -> UpdateEvent {
    UpdateEvent::ReleaseFound { release: release(tag), leftover }
}

fn action(current: &str, remote: &str) -> Result<UpdateChoice, UpdateError> {
    decide(current, remote).map(|d| d.action)
}

#[test]
fn newer_release_asks_for_replacement() {
    assert_eq!(action("1.2.0", "1.3.0"), Ok(UpdateChoice::ReplaceAndRestart));
    assert_eq!(action("1.2.0", "1.2.1"), Ok(UpdateChoice::ReplaceAndRestart));
    assert_eq!(action("1.2.0", "2.0.0"), Ok(UpdateChoice::ReplaceAndRestart));
    assert_eq!(action("1.9.0", "1.10.0"), Ok(UpdateChoice::ReplaceAndRestart));
    assert_eq!(action("1.3.0-rc.1", "1.3.0"), Ok(UpdateChoice::ReplaceAndRestart));
}

#[test]
fn equal_or_older_release_is_up_to_date() {
    assert_eq!(action("1.2.0", "1.2.0"), Ok(UpdateChoice::UpToDate));
    assert_eq!(action("1.3.0", "1.2.0"), Ok(UpdateChoice::UpToDate));
    assert_eq!(action("1.10.0", "1.9.9"), Ok(UpdateChoice::UpToDate));
    assert_eq!(action("1.3.0", "1.3.0-rc.1"), Ok(UpdateChoice::UpToDate));
}

#[test]
fn malformed_version_is_an_error() {
    assert_eq!(action("1.2.0", "1.2.0.malformed"), Err(UpdateError::MalformedRemoteVersion));
    assert_eq!(action("1.2.0", "1.2"), Err(UpdateError::MalformedRemoteVersion));
    assert_eq!(action("1.2.0", "v1.3.0"), Err(UpdateError::MalformedRemoteVersion));
    assert_eq!(action("1.2.0", "1.2.0-"), Err(UpdateError::MalformedRemoteVersion));
    assert_eq!(action("1.2.0", "1.2.0-mal_formed"), Err(UpdateError::MalformedRemoteVersion));
    assert_eq!(action("1.2.0", ""), Err(UpdateError::MalformedRemoteVersion));
    assert_eq!(action("one", "1.3.0"), Err(UpdateError::MalformedCurrentVersion));
    assert_eq!(action("one", "two"), Err(UpdateError::MalformedCurrentVersion));
}

#[test]
fn pre_release_tag_is_a_version_below_its_release() {
    // A hyphen and letters behind the three numbers name a pre-release.
    assert_eq!(action("1.2.0", "1.2.0-malformed"), Ok(UpdateChoice::UpToDate));
    assert_eq!(action("1.2.0-malformed", "1.2.0"), Ok(UpdateChoice::ReplaceAndRestart));
}

#[test]
fn decision_keeps_both_versions() {
    let decision = decide("1.2.0", "1.3.0-beta+build.5").unwrap();
    assert_eq!(decision.current_version.as_str(), "1.2.0");
    assert_eq!(decision.remote_version.as_str(), "1.3.0-beta+build.5");
    assert_eq!(parse_version("1.2.3").unwrap().as_str(), "1.2.3");
    assert!(parse_version("1.2.03").is_none());
    assert!(parse_version(" 1.2.3").is_none());
}

#[test]
fn choice_follows_the_sign() {
    assert_eq!(choice_for(-1), UpdateChoice::ReplaceAndRestart);
    assert_eq!(choice_for(0), UpdateChoice::UpToDate);
    assert_eq!(choice_for(1), UpdateChoice::UpToDate);
}

#[test]
fn consent_is_y_or_yes_exactly() {
    for granted in ["y", "yes", " y", "y\n", "yes\r\n", "\t yes \n", "\u{a0}y\u{a0}"] {
        assert!(consent_granted(granted), "{:?}", granted);
    }
    for declined in ["", "n", "no", "Y", "Yes", "YES", "ye", "yess", "y es", "yes please", "\n"] {
        assert!(!consent_granted(declined), "{:?}", declined);
    }
}

#[test]
fn release_descriptor_is_read() {
    let descriptor = release("1.3.0");
    assert_eq!(version_tag(&descriptor), Some("1.3.0".to_string()));
    assert_eq!(first_asset_url(&descriptor), Some("https://example.org/first.exe".to_string()));
    assert_eq!(version_tag(&object(vec![])), None);
    assert_eq!(version_tag(&object(vec![("tag_name", Json::Null)])), None);
    assert_eq!(first_asset_url(&object(vec![("assets", Json::Array(vec![]))])), None);
    assert_eq!(first_asset_url(&object(vec![("assets", Json::Array(vec![Json::Null]))])), None);
    assert_eq!(first_asset_url(&object(vec![])), None);
}

#[test]
fn run_begins_with_fetching_the_release() {
    assert_eq!(begin("1.2.0"), (UpdateState::CheckingVersion, Command::FetchRelease));
    let e = UpdateError::MalformedCurrentVersion;
    assert_eq!(begin("dev"), (UpdateState::Failed(e), Command::Abort(e)));
}

#[test]
fn up_to_date_without_leftover_goes_on() {
    let (state, _) = begin("1.2.0");
    assert_eq!(update(state, &found("1.2.0", false), "1.2.0"), (UpdateState::UpToDate, Command::Continue));
    assert_eq!(update(state, &found("1.1.9", false), "1.2.0"), (UpdateState::UpToDate, Command::Continue));
    assert_eq!(
        update(UpdateState::UpToDate, &UpdateEvent::Done, "1.2.0"),
        (UpdateState::UpToDate, Command::Continue)
    );
}

#[test]
fn newer_release_is_saved_and_launched_without_asking() {
    let current = "1.2.0";
    let (state, _) = begin(current);
    let (state, command) = update(state, &found("1.3.0", false), current);
    assert_eq!(state, UpdateState::DownloadingUpdate(DownloadStep::Saving));
    assert_eq!(command, Command::SaveCandidate);
    let (state, command) = update(state, &UpdateEvent::Done, current);
    assert_eq!(state, UpdateState::DownloadingUpdate(DownloadStep::Launching));
    assert_eq!(command, Command::LaunchCandidate);
    let (state, command) = update(state, &UpdateEvent::Done, current);
    assert_eq!(state, UpdateState::AwaitingUserConsent);
    assert_eq!(command, Command::Exit);
}

#[test]
fn newer_release_is_saved_even_with_a_leftover() {
    let (state, _) = begin("1.2.0");
    let (state, command) = update(state, &found("1.3.0", true), "1.2.0");
    assert_eq!(state, UpdateState::DownloadingUpdate(DownloadStep::Saving));
    assert_eq!(command, Command::SaveCandidate);
}

#[test]
fn declined_consent_restarts_the_old_executable_and_keeps_the_candidate() {
    let current = "1.2.0";
    let mut commands = Vec::new();
    let (state, command) = begin(current);
    commands.push(command);
    let (state, command) = update(state, &found("1.2.0", true), current);
    assert_eq!(state, UpdateState::AwaitingUserConsent);
    commands.push(command);
    let (state, command) = update(state, &UpdateEvent::Answer("n\n".to_string()), current);
    assert_eq!(state, UpdateState::DeclinedRestartOriginal);
    commands.push(command);
    let (state, command) = update(state, &UpdateEvent::Done, current);
    assert_eq!(state, UpdateState::DeclinedRestartOriginal);
    commands.push(command);
    assert_eq!(
        commands,
        vec![
            Command::FetchRelease,
            Command::AskConsent,
            Command::LaunchExecutable,
            Command::Exit
        ]
    );
    assert!(!commands.contains(&Command::RemoveCandidate));
    assert!(!commands.contains(&Command::OverwriteExecutable));
}

#[test]
fn granted_consent_replaces_launches_and_only_then_removes() {
    let current = "1.3.0";
    let (state, _) = begin(current);
    let (state, command) = update(state, &found("1.3.0", true), current);
    assert_eq!(command, Command::AskConsent);
    let (state, command) = update(state, &UpdateEvent::Answer("yes\n".to_string()), current);
    assert_eq!(state, UpdateState::Replacing(ReplaceStep::Overwriting));
    assert_eq!(command, Command::OverwriteExecutable);
    let (state, command) = update(state, &UpdateEvent::Done, current);
    assert_eq!(state, UpdateState::Replacing(ReplaceStep::Launching));
    assert_eq!(command, Command::LaunchExecutable);
    let (state, command) = update(state, &UpdateEvent::Done, current);
    assert_eq!(state, UpdateState::Replacing(ReplaceStep::Removing));
    assert_eq!(command, Command::RemoveCandidate);
    let (state, command) = update(state, &UpdateEvent::Done, current);
    assert_eq!(state, UpdateState::Restarted);
    assert_eq!(command, Command::Exit);
}

#[test]
fn failed_overwrite_leaves_the_candidate() {
    let next = update(
        UpdateState::Replacing(ReplaceStep::Overwriting),
        &UpdateEvent::Failed,
        "1.3.0",
    );
    let e = UpdateError::ReplaceFailed;
    assert_eq!(next, (UpdateState::Failed(e), Command::Abort(e)));
    assert_eq!(update(next.0, &UpdateEvent::Done, "1.3.0"), (UpdateState::Failed(e), Command::Abort(e)));
}

#[test]
fn every_failure_has_its_error() {
    let cases = [
        (UpdateState::CheckingVersion, UpdateError::ReleaseUnavailable),
        (UpdateState::DownloadingUpdate(DownloadStep::Saving), UpdateError::DownloadFailed),
        (UpdateState::DownloadingUpdate(DownloadStep::Launching), UpdateError::LaunchFailed),
        (UpdateState::AwaitingUserConsent, UpdateError::ConsentUnreadable),
        (UpdateState::Replacing(ReplaceStep::Overwriting), UpdateError::ReplaceFailed),
        (UpdateState::Replacing(ReplaceStep::Launching), UpdateError::LaunchFailed),
        (UpdateState::Replacing(ReplaceStep::Removing), UpdateError::RemoveFailed),
        (UpdateState::DeclinedRestartOriginal, UpdateError::LaunchFailed),
    ];
    for (state, e) in cases {
        assert_eq!(
            update(state, &UpdateEvent::Failed, "1.0.0"),
            (UpdateState::Failed(e), Command::Abort(e))
        );
    }
}

#[test]
fn release_without_tag_or_asset_is_an_error() {
    let no_tag = UpdateEvent::ReleaseFound { release: object(vec![]), leftover: true };
    let e = UpdateError::MissingVersionTag;
    assert_eq!(
        update(UpdateState::CheckingVersion, &no_tag, "1.0.0"),
        (UpdateState::Failed(e), Command::Abort(e))
    );
    let no_asset = UpdateEvent::ReleaseFound {
        release: object(vec![("tag_name", string("2.0.0")), ("assets", Json::Array(vec![]))]),
        leftover: false,
    };
    let e = UpdateError::MissingAsset;
    assert_eq!(
        update(UpdateState::CheckingVersion, &no_asset, "1.0.0"),
        (UpdateState::Failed(e), Command::Abort(e))
    );
    // An older release needs no asset.
    let old = UpdateEvent::ReleaseFound {
        release: object(vec![("tag_name", string("0.9.0"))]),
        leftover: false,
    };
    assert_eq!(
        update(UpdateState::CheckingVersion, &old, "1.0.0"),
        (UpdateState::UpToDate, Command::Continue)
    );
    let bad = UpdateError::MalformedRemoteVersion;
    assert_eq!(
        update(UpdateState::CheckingVersion, &found("v2", false), "1.0.0"),
        (UpdateState::Failed(bad), Command::Abort(bad))
    );
    let own = UpdateError::MalformedCurrentVersion;
    assert_eq!(
        update(UpdateState::CheckingVersion, &found("2.0.0", false), "dev"),
        (UpdateState::Failed(own), Command::Abort(own))
    );
}

#[test]
fn event_out_of_order_is_an_error() {
    let e = UpdateError::UnexpectedEvent;
    let failed = (UpdateState::Failed(e), Command::Abort(e));
    assert_eq!(update(UpdateState::CheckingVersion, &UpdateEvent::Done, "1.0.0"), failed);
    assert_eq!(
        update(UpdateState::CheckingVersion, &UpdateEvent::Answer("y".to_string()), "1.0.0"),
        failed
    );
    assert_eq!(update(UpdateState::AwaitingUserConsent, &UpdateEvent::Done, "1.0.0"), failed);
    assert_eq!(update(UpdateState::AwaitingUserConsent, &found("1.0.0", true), "1.0.0"), failed);
    assert_eq!(
        update(UpdateState::Replacing(ReplaceStep::Removing), &found("1.0.0", true), "1.0.0"),
        failed
    );
}

#[test]
fn ended_run_repeats_its_last_command() {
    for event in [UpdateEvent::Done, UpdateEvent::Failed, UpdateEvent::Answer("y".to_string())] {
        assert_eq!(
            update(UpdateState::Restarted, &event, "1.0.0"),
            (UpdateState::Restarted, Command::Exit)
        );
        assert_eq!(
            update(UpdateState::UpToDate, &event, "1.0.0"),
            (UpdateState::UpToDate, Command::Continue)
        );
    }
}
