use bitbucket_api::auth::Authorization;
use bitbucket_api::models::PullRequestState;

#[test]
fn authorization_keeps_its_credentials() {
    let auth = Authorization::new("george", "SECRET-REDACTED");
    assert_eq!(auth.username(), "george");
    assert_eq!(auth.password(), "SECRET-REDACTED");
}

#[test]
fn pull_request_states_render_to_their_filters() {
    assert_eq!(PullRequestState::ALL.as_str(), "ALL");
    assert_eq!(PullRequestState::OPEN.as_str(), "OPEN");
    assert_eq!(PullRequestState::MERGED.as_str(), "MERGED");
    assert_eq!(PullRequestState::DECLINED.as_str(), "DECLINED");
}
