use crates_io_cn::easy_git::{
    merge_outcome, AcceptedKinds, Attempt, CredentialSearch, CredentialStep, MergeOutcome,
    OriginConfig,
};
use crates_io_cn::elastic::{index_mappings, index_setup, IndexSetup};
use crates_io_cn::schedule::{crates_waiting, newest_first, pause_after_update, UpdatePause};
use crates_io_cn::status::{sync_status, sync_status_at};
use crates_io_cn::text::is_not_hidden;

fn mirror() -> OriginConfig {
    OriginConfig::mirror("https://example.com/index.git", "me@example.com", "pw")
}

fn kinds(user_pass_plaintext: bool, default: bool, ssh_key: bool) -> AcceptedKinds {
    AcceptedKinds {
        user_pass_plaintext,
        default,
        ssh_key,
    }
}

fn tries_user_pass(step: &CredentialStep) -> bool {
    match step {
        CredentialStep::Try(Attempt::UserPass { username, password }) => {
            username == "me@example.com" && password == "pw"
        }
        _ => false,
    }
}

fn tries_agent(step: &CredentialStep) -> bool {
    match step {
        CredentialStep::Try(Attempt::Agent { user }) => user == "git",
        _ => false,
    }
}

#[test]
fn a_mirror_is_pushed_to_by_its_user() {
    let config = mirror().clone();
    assert_eq!(config.url, "https://example.com/index.git");
    assert_eq!(config.username, Some("me@example.com".to_string()));
    assert_eq!(config.password, Some("pw".to_string()));
}

#[test]
fn a_merge_is_published_where_it_changed_something() {
    match merge_outcome(1, mirror()) {
        MergeOutcome::Publish {
            message,
            remote,
            refspec,
            mirror,
        } => {
            assert_eq!(message, "Merge");
            assert_eq!(remote, "local");
            assert_eq!(refspec, "refs/heads/master");
            assert_eq!(mirror.url, "https://example.com/index.git");
        }
        MergeOutcome::CleanUp => panic!("something changed"),
    }
    assert!(matches!(merge_outcome(0, mirror()), MergeOutcome::CleanUp));
}

#[test]
fn every_attempt_is_made_in_order() {
    let (mut search, step) =
        CredentialSearch::begin("u", Some("git"), kinds(true, true, true), &mirror());
    assert!(tries_user_pass(&step));
    assert!(matches!(
        search.next(false),
        CredentialStep::Try(Attempt::OpenConfig)
    ));
    assert!(matches!(
        search.next(true),
        CredentialStep::Try(Attempt::Helper)
    ));
    assert!(tries_agent(&search.next(false)));
    assert!(matches!(search.next(false), CredentialStep::FailWithLast));
}

#[test]
fn credentials_that_were_found_are_used() {
    let (mut search, step) =
        CredentialSearch::begin("u", Some("git"), kinds(true, true, true), &mirror());
    assert!(tries_user_pass(&step));
    assert!(matches!(search.next(true), CredentialStep::Use));
    let (mut search, step) =
        CredentialSearch::begin("u", Some("git"), kinds(false, false, true), &mirror());
    assert!(tries_agent(&step));
    assert!(matches!(search.next(true), CredentialStep::Use));
    let (mut search, _) = CredentialSearch::begin("u", None, kinds(false, true, true), &mirror());
    search.next(true);
    assert!(matches!(search.next(true), CredentialStep::Use));
}

#[test]
fn a_configuration_that_cannot_be_opened_ends_the_search() {
    let (mut search, step) =
        CredentialSearch::begin("u", Some("git"), kinds(false, true, true), &mirror());
    assert!(matches!(step, CredentialStep::Try(Attempt::OpenConfig)));
    assert!(matches!(search.next(false), CredentialStep::FailWithLast));
}

#[test]
fn without_an_attempt_the_error_names_the_address() {
    let nobody = OriginConfig {
        url: "u".to_string(),
        username: None,
        password: Some("pw".to_string()),
    };
    let (mut search, step) =
        CredentialSearch::begin("https://example.com", None, kinds(true, false, true), &nobody);
    match step {
        CredentialStep::FailWith(message) => assert_eq!(
            message,
            "Failed to find credentials for https://example.com"
        ),
        _ => panic!("nothing can be attempted"),
    }
    assert!(matches!(search.next(true), CredentialStep::FailWithLast));
    assert!(matches!(search.next(false), CredentialStep::FailWithLast));
}

#[test]
fn hidden_files_are_passed_over() {
    assert!(is_not_hidden(Some("serde"), 3));
    assert!(!is_not_hidden(Some(".git"), 1));
    assert!(is_not_hidden(Some(".index"), 0));
    assert!(is_not_hidden(Some(""), 1));
    assert!(!is_not_hidden(None, 0));
    assert!(!is_not_hidden(None, 1));
}

#[test]
fn an_index_is_created_where_there_is_none() {
    assert_eq!(index_setup(404), IndexSetup::Create);
    assert_eq!(index_setup(200), IndexSetup::ReportExisting);
    assert_eq!(index_setup(500), IndexSetup::ReportAnswer);
}

#[test]
fn a_failed_update_is_soon_repeated() {
    assert_eq!(pause_after_update(true), UpdatePause::SinceBegin(300));
    assert_eq!(pause_after_update(false), UpdatePause::For(10));
}

#[test]
fn the_newest_file_comes_first() {
    let mut times = vec![3i128, -5, 7, 0, 7];
    times.sort_by(|a, b| newest_first(*a, *b));
    assert_eq!(times, [7, 7, 3, 0, -5]);
}

#[test]
fn crates_wait_as_long_as_either_end_holds_any() {
    assert!(!crates_waiting(true, true));
    assert!(crates_waiting(false, true));
    assert!(crates_waiting(true, false));
    assert!(crates_waiting(false, false));
}

#[test]
fn the_report_is_fixed_but_for_the_time() {
    let status = sync_status_at("now".to_string());
    assert_eq!(status.id, "carte-index-sync");
    assert_eq!(status.name, "Sync");
    assert_eq!(status.kind, "script");
    assert_eq!(status.message, "Execute script");
    assert_eq!(status.current_state, "WAITING");
    assert_eq!(status.last_run_result, "INTERRUPTED");
    assert_eq!(status.next_run, None);
    assert_eq!(status.last_run, "now");
}

#[test]
fn the_report_is_made_now_in_utc() {
    let status = sync_status();
    assert!(status.last_run.ends_with("+00:00"));
    assert_eq!(status.last_run.len(), 25);
    assert_eq!(status.id, "carte-index-sync");
}

#[test]
fn the_report_is_put_in_json() {
    let expected: serde_json::Value = serde_json::from_str(
        r#"{"id":"carte-index-sync","name":"Sync","type":"script","message":"Execute script",
            "currentState":"WAITING","lastRunResult":"INTERRUPTED","nextRun":null,
            "lastRun":"now"}"#,
    )
    .unwrap();
    assert_eq!(sync_status_at("now".to_string()).to_json(), expected);
}

#[test]
fn the_fields_of_a_document_are_described() {
    let expected: serde_json::Value = serde_json::from_str(
        r#"{"mappings":{"properties":{
            "name":{"type":"text"},
            "vers":{"type":"text"},
            "deps":{"properties":{
                "optional":{"type":"boolean"},
                "default_features":{"type":"boolean"},
                "name":{"type":"text"},
                "feature":{"type":"nested"},
                "req":{"type":"text"},
                "target":{"type":"text"},
                "kind":{"type":"text"}}},
            "cksum":{"type":"keyword"},
            "features":{"type":"object"},
            "yanked":{"type":"boolean"},
            "links":{"type":"keyword"}}}}"#,
    )
    .unwrap();
    assert_eq!(index_mappings(), expected);
}
