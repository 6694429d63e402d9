use repoyear_backend::api::implementation::read_token_exchange;
use repoyear_backend::api::implementation::GitHubTokenResponse;
use repoyear_backend::api::implementation::TokenExchange;
use repoyear_backend::api::MockAppState;
use repoyear_backend::params::failure_line;
use repoyear_backend::params::ColorChoice;
use repoyear_backend::repos::branch::conclude;
use repoyear_backend::repos::branch::head_branch;
use repoyear_backend::repos::branch::remote_head_ref;
use repoyear_backend::repos::branch::setting_branch;
use repoyear_backend::repos::branch::Source;
use repoyear_backend::repos::branch::tolerate_missing;
use repoyear_backend::repos::branch::Lookup;
use repoyear_backend::repos::branch::Progress;
use repoyear_backend::repos::branch::Step;
use repoyear_backend::repos::scan::judge_remote;
use repoyear_backend::repos::scan::plan_after_remotes;
use repoyear_backend::repos::scan::record_time;
use repoyear_backend::repos::scan::Plan;
use repoyear_backend::repos::scan::RemoteVerdict;
use repoyear_backend::repos::RepoIterError;
use repoyear_backend::repos::ScanError;
use repoyear_backend::repos::ScanFailure;

fn answer() -> GitHubTokenResponse {
    GitHubTokenResponse {
        access_token: Some("token".to_owned()),
        refresh_token: Some("refresh".to_owned()),
        expires_in: Some(5),
        refresh_token_expires_in: None,
        error: None,
        error_description: None,
    }
}

fn missing() -> git2::Error {
    git2::Error::new(git2::ErrorCode::NotFound, git2::ErrorClass::Reference, "no such thing")
}

fn broken() -> git2::Error {
    git2::Error::new(git2::ErrorCode::GenericError, git2::ErrorClass::Odb, "broken")
}

#[test]
fn mock_test_mock_health() {
    let mock_state = MockAppState::new();
    let result = mock_state.check_health();
    assert_eq!(result, "ok");
}

#[test]
fn mock_test_mock_oauth_success() {
    let mock_state = MockAppState::new();
    let result = mock_state.exchange_oauth_token("test_code");
    let response = result.unwrap();
    assert_eq!(response.access_token, "mock_token_12345");
    assert_eq!(response.refresh_token, Some("mock_refresh_12345".to_owned()));
}

#[test]
fn mock_test_mock_oauth_failure() {
    let mock_state = MockAppState::with_oauth_error("Invalid code".to_owned());
    let result = mock_state.exchange_oauth_token("test_code");
    assert_eq!(result.unwrap_err(), "Invalid code");
}

#[test]
fn mock_tokens_expire() {
    let response = MockAppState::default().refresh_oauth_token("old").unwrap();
    assert_eq!(response.access_token, "mock_token_12345");
    assert_eq!(response.refresh_token, Some("mock_refresh_12345".to_owned()));
    assert_eq!(response.expires_in, Some(28_800));
    assert_eq!(response.refresh_token_expires_in, Some(15_897_600));
    let exchanged = MockAppState::new().exchange_oauth_token("code").unwrap();
    assert_eq!(exchanged.expires_in, Some(28_800));
    assert_eq!(exchanged.refresh_token_expires_in, Some(15_897_600));
    assert_eq!(exchanged.into_callback_success().access_token, "mock_token_12345");
}

#[test]
fn mock_without_tokens_says_so() {
    let mut state = MockAppState::new();
    state.mock_refresh_token = None;
    assert_eq!(state.exchange_oauth_token("code").unwrap().refresh_token, None);
    assert_eq!(state.refresh_oauth_token("old").unwrap_err(), "No refresh token configured");
    state.mock_access_token = None;
    assert_eq!(state.exchange_oauth_token("code").unwrap_err(), "No token configured");
    assert_eq!(state.refresh_oauth_token("old").unwrap_err(), "No token configured");
    let failing = MockAppState::with_oauth_error("Invalid code".to_owned());
    assert_eq!(failing.refresh_oauth_token("old").unwrap_err(), "Invalid code");
    assert_eq!(failing.check_health(), "ok");
}

#[test]
fn token_exchange_that_went_well() {
    let response = read_token_exchange(TokenExchange::Answered(answer()), "OAuth").unwrap();
    assert_eq!(response.access_token, "token");
    assert_eq!(response.refresh_token, Some("refresh".to_owned()));
    assert_eq!(response.expires_in, Some(5));
    assert_eq!(response.refresh_token_expires_in, None);
}

#[test]
fn token_exchange_that_failed() {
    let unsent = read_token_exchange(TokenExchange::Unsent, "OAuth");
    assert_eq!(unsent.unwrap_err(), "Service temporarily unavailable");
    let unreadable = read_token_exchange(TokenExchange::Unreadable, "OAuth");
    assert_eq!(unreadable.unwrap_err(), "Internal server error");

    let mut described = answer();
    described.error = Some("bad_verification_code".to_owned());
    described.error_description = Some("The code is incorrect.".to_owned());
    let result = read_token_exchange(TokenExchange::Answered(described), "OAuth");
    assert_eq!(result.unwrap_err(), "The code is incorrect.");

    let mut bare = answer();
    bare.error = Some("bad_refresh_token".to_owned());
    let result = read_token_exchange(TokenExchange::Answered(bare), "OAuth refresh");
    assert_eq!(result.unwrap_err(), "OAuth refresh failed");

    let mut empty = answer();
    empty.access_token = None;
    let result = read_token_exchange(TokenExchange::Answered(empty), "OAuth");
    assert_eq!(result.unwrap_err(), "Internal server error");
}

#[test]
fn auto_color_needs_a_terminal() {
    assert_eq!(ColorChoice::default(), ColorChoice::Auto);
    assert_eq!(ColorChoice::Auto.on_stream(true), ColorChoice::Auto);
    assert_eq!(ColorChoice::Auto.on_stream(false), ColorChoice::Never);
    assert_eq!(ColorChoice::Always.on_stream(false), ColorChoice::Always);
    assert_eq!(ColorChoice::Always.on_stream(true), ColorChoice::Always);
    assert_eq!(ColorChoice::Never.on_stream(true), ColorChoice::Never);
    assert_eq!(ColorChoice::Never.on_stream(false), ColorChoice::Never);
}

#[test]
fn failure_line_says_error_once() {
    assert_eq!(failure_line("no such file"), "Error: no such file\n");
    assert_eq!(failure_line("Error in config"), "Error in config\n");
    assert_eq!(failure_line("ERROR: x"), "ERROR: x\n");
    assert_eq!(failure_line("errors abound"), "errors abound\n");
    assert_eq!(failure_line("an error"), "Error: an error\n");
    assert_eq!(failure_line(""), "Error: \n");
}

#[test]
fn first_decisive_guess_ends_the_search() {
    let commit = git2::Oid::from_str("0123456789abcdef0123456789abcdef01234567").unwrap();
    for step in [Step::OriginHead, Step::UpstreamHead, Step::ConfiguredBranch, Step::Main, Step::Master, Step::Head] {
        assert!(matches!(
            step.advance(Lookup::Resolved(commit)),
            Progress::Done(Ok(found)) if found == commit
        ));
        assert!(matches!(
            step.advance(Lookup::Failed(broken())),
            Progress::Done(Err(ScanError::Git(error))) if error.message() == "broken"
        ));
    }
    assert!(matches!(Step::OriginHead.advance(Lookup::NoMatch), Progress::Try(Step::UpstreamHead)));
    assert!(matches!(
        Step::UpstreamHead.advance(Lookup::NoMatch),
        Progress::Try(Step::ConfiguredBranch)
    ));
    assert!(matches!(Step::ConfiguredBranch.advance(Lookup::NoMatch), Progress::Try(Step::Main)));
    assert!(matches!(Step::Main.advance(Lookup::NoMatch), Progress::Try(Step::Master)));
    assert!(matches!(Step::Master.advance(Lookup::NoMatch), Progress::Try(Step::Head)));
    assert!(matches!(
        Step::Head.advance(Lookup::NoMatch),
        Progress::Done(Err(ScanError::NoDefaultBranch))
    ));
}

#[test]
fn missing_is_an_answer_and_broken_a_failure() {
    let commit = git2::Oid::from_str("0123456789abcdef0123456789abcdef01234567").unwrap();
    assert_eq!(tolerate_missing(Ok(commit)), Ok(Some(commit)));
    assert_eq!(tolerate_missing::<git2::Oid>(Err(missing())), Ok(None));
    assert_eq!(tolerate_missing::<git2::Oid>(Err(broken())), Err(broken()));
    assert!(matches!(conclude(Ok(Some(commit))), Lookup::Resolved(found) if found == commit));
    assert!(matches!(conclude(Ok(None)), Lookup::NoMatch));
    assert!(matches!(conclude(Err(broken())), Lookup::Failed(error) if error == broken()));
}

#[test]
fn head_of_a_remote_names_a_branch_of_that_remote() {
    let target = Some("refs/remotes/origin/dev".to_owned());
    assert_eq!(head_branch(Ok(target.clone()), "origin"), Ok(Some("dev".to_owned())));
    assert_eq!(head_branch(Ok(target), "upstream"), Ok(None));
    assert_eq!(head_branch(Ok(Some("refs/heads/dev".to_owned())), "origin"), Ok(None));
    assert_eq!(head_branch(Ok(None), "origin"), Ok(None));
    assert_eq!(head_branch(Err(missing()), "origin"), Ok(None));
    assert_eq!(head_branch(Err(broken()), "origin"), Err(broken()));
}

#[test]
fn remote_is_judged_by_its_url() {
    let hosted = judge_remote(Ok(Some("https://github.com/foo/bar".to_owned())));
    assert!(matches!(hosted, RemoteVerdict::Hosted(url) if url == "https://github.com/foo/bar"));
    let ssh = judge_remote(Ok(Some("git@github.com:foo/bar".to_owned())));
    assert!(matches!(ssh, RemoteVerdict::Hosted(url) if url == "git@github.com:foo/bar"));
    let other = judge_remote(Ok(Some("/srv/git/bar".to_owned())));
    assert!(matches!(other, RemoteVerdict::Elsewhere));
    assert!(matches!(judge_remote(Ok(None)), RemoteVerdict::Elsewhere));
    assert!(matches!(judge_remote(Err(missing())), RemoteVerdict::Failed(error) if error == missing()));
}

#[test]
fn hosted_repository_has_an_empty_history() {
    let hosted = Ok(Some("https://github.com/foo/bar".to_owned()));
    assert!(matches!(plan_after_remotes(hosted), Plan::Finished(Ok(times)) if times.is_empty()));
    assert!(matches!(plan_after_remotes(Ok(None)), Plan::ReadCommits));
    assert!(matches!(
        plan_after_remotes(Err(ScanError::NoDefaultBranch)),
        Plan::Finished(Err(ScanError::NoDefaultBranch))
    ));
}

#[test]
fn times_are_kept_in_the_order_read() {
    let mut times = vec![3];
    assert!(record_time(&mut times, Ok(1)).is_ok());
    assert!(record_time(&mut times, Ok(-2)).is_ok());
    assert_eq!(times, vec![3, 1, -2]);
    let failed = record_time(&mut times, Err(broken()));
    assert!(matches!(failed, Err(ScanError::Git(error)) if error == broken()));
    assert_eq!(times, vec![3, 1, -2]);
}

#[test]
fn guesses_look_where_they_say() {
    assert!(matches!(Step::OriginHead.source(), Source::RemoteHead("origin")));
    assert!(matches!(Step::UpstreamHead.source(), Source::RemoteHead("upstream")));
    assert!(matches!(Step::ConfiguredBranch.source(), Source::Setting("init.defaultBranch")));
    assert!(matches!(Step::Main.source(), Source::Revision("refs/heads/main")));
    assert!(matches!(Step::Master.source(), Source::Revision("refs/heads/master")));
    assert!(matches!(Step::Head.source(), Source::Revision("HEAD")));
    assert_eq!(remote_head_ref("origin"), "refs/remotes/origin/HEAD");
    assert_eq!(remote_head_ref("upstream"), "refs/remotes/upstream/HEAD");
}

#[test]
fn setting_that_is_not_there_names_no_branch() {
    assert_eq!(setting_branch(Ok(Ok("trunk".to_owned()))), Ok(Some("trunk".to_owned())));
    assert_eq!(setting_branch(Ok(Err(missing()))), Ok(None));
    assert_eq!(setting_branch(Ok(Err(broken()))), Err(broken()));
    assert_eq!(setting_branch(Err(missing())), Ok(None));
    assert_eq!(setting_branch(Err(broken())), Err(broken()));
}

#[test]
fn failures_speak_with_the_words_of_their_errors() {
    assert_eq!(ScanError::Git(git2::Error::from_str("plain")).message(), "plain");
    assert_eq!(ScanError::Git(missing()).message(), format!("{}", missing()));
    assert_eq!(
        ScanError::Git(missing()).message(),
        "no such thing; class=Reference (4); code=NotFound (-3)"
    );
    assert_eq!(ScanError::NoDefaultBranch.message(), "Could not find a default branch");
    assert_eq!(RepoIterError::Git(broken()).message(), format!("{}", broken()));
    let failure = ScanFailure::History("name".to_owned(), ScanError::Git(broken()));
    assert_eq!(failure.message(), format!("{}", broken()));
    let failure = ScanFailure::Discovery(RepoIterError::Git(git2::Error::from_str("plain")));
    assert_eq!(failure.message(), "plain");
}
