use gitlight::auth::{AuthError, AuthSession, Directive, Verdict};
use gitlight::text::{same_text, starts_with};

const AUTHORIZE: &str = "https://github.com/login/oauth/authorize?client_id=abc";
const PREFIX: &str = "http://localhost:1420";

fn session() -> AuthSession {
    AuthSession::open("github-auth".to_string(), AUTHORIZE.to_string(), PREFIX.to_string())
}

#[test]
fn redirect_is_captured_after_other_navigations() {
    let mut flow = session();
    assert!(flow.is_pending());
    assert_eq!(flow.resolution(), None);
    assert_eq!(flow.on_ready(), Directive::Navigate);
    assert_eq!(flow.authorize_url(), AUTHORIZE);
    assert_eq!(flow.label(), "github-auth");
    assert_eq!(flow.on_navigation("https://github.com/login"), Verdict::Allow);
    assert!(flow.is_pending());
    assert_eq!(flow.on_navigation("https://github.com/sessions/two-factor"), Verdict::Allow);
    assert_eq!(flow.resolution(), None);
    let redirect = "http://localhost:1420/callback?code=42&state=x";
    assert_eq!(flow.on_navigation(redirect), Verdict::Capture);
    assert!(!flow.is_pending());
    assert_eq!(flow.resolution(), Some(Ok(redirect.to_string())));
}

#[test]
fn redirect_is_captured_only_once() {
    let mut flow = session();
    flow.on_ready();
    assert_eq!(flow.on_navigation("http://localhost:1420/first"), Verdict::Capture);
    assert_eq!(flow.on_navigation("http://localhost:1420/second"), Verdict::Veto);
    assert_eq!(flow.on_navigation("https://github.com/"), Verdict::Allow);
    assert_eq!(flow.on_window_closed(), Directive::Nothing);
    assert_eq!(flow.on_ready(), Directive::Nothing);
    assert_eq!(flow.on_ready_timeout(), Directive::Nothing);
    assert_eq!(flow.resolution(), Some(Ok("http://localhost:1420/first".to_string())));
}

#[test]
fn redirect_that_comes_before_readiness_is_captured_too() {
    let mut flow = session();
    assert_eq!(flow.on_navigation("http://localhost:1420"), Verdict::Capture);
    assert_eq!(flow.on_ready(), Directive::Nothing);
    assert_eq!(flow.resolution(), Some(Ok("http://localhost:1420".to_string())));
}

#[test]
fn closing_the_window_cancels_the_wait() {
    let mut flow = session();
    flow.on_ready();
    assert_eq!(flow.on_navigation("https://github.com/login"), Verdict::Allow);
    assert_eq!(flow.on_window_closed(), Directive::Fail(AuthError::AuthFlowCancelled));
    assert_eq!(flow.resolution(), Some(Err(AuthError::AuthFlowCancelled)));
    assert_eq!(flow.on_navigation("http://localhost:1420/late"), Verdict::Veto);
    assert_eq!(flow.on_window_closed(), Directive::Nothing);
    assert_eq!(flow.resolution(), Some(Err(AuthError::AuthFlowCancelled)));
}

#[test]
fn closing_before_readiness_cancels_too() {
    let mut flow = session();
    assert_eq!(flow.on_window_closed(), Directive::Fail(AuthError::AuthFlowCancelled));
    assert_eq!(flow.on_ready(), Directive::Nothing);
    assert_eq!(flow.on_ready_timeout(), Directive::Nothing);
    assert_eq!(flow.resolution(), Some(Err(AuthError::AuthFlowCancelled)));
}

#[test]
fn page_that_never_becomes_ready_times_out() {
    let mut flow = session();
    assert_eq!(flow.on_ready_timeout(), Directive::CloseAndFail(AuthError::AuthFlowTimedOut));
    assert_eq!(flow.resolution(), Some(Err(AuthError::AuthFlowTimedOut)));
    assert_eq!(flow.on_ready(), Directive::Nothing);
    assert_eq!(flow.on_window_closed(), Directive::Nothing);
    assert_eq!(flow.on_navigation("http://localhost:1420/x"), Verdict::Veto);
    assert_eq!(flow.resolution(), Some(Err(AuthError::AuthFlowTimedOut)));
}

#[test]
fn timeout_after_readiness_changes_nothing() {
    let mut flow = session();
    assert_eq!(flow.on_ready(), Directive::Navigate);
    assert_eq!(flow.on_ready(), Directive::Nothing);
    assert_eq!(flow.on_ready_timeout(), Directive::Nothing);
    assert!(flow.is_pending());
    assert_eq!(flow.on_navigation("http://localhost:1420/ok"), Verdict::Capture);
}

#[test]
fn only_addresses_that_begin_with_the_prefix_are_redirects() {
    for url in [
        "http://localhost:142",
        "http://localhost:1421/callback",
        "https://localhost:1420/",
        "HTTP://LOCALHOST:1420/",
        " http://localhost:1420/",
        "https://github.com/?next=http://localhost:1420/",
        "",
    ] {
        let mut flow = session();
        assert_eq!(flow.on_navigation(url), Verdict::Allow, "{url}");
        assert!(flow.is_pending());
    }
    for url in ["http://localhost:1420", "http://localhost:1420/", "http://localhost:14200", "http://localhost:1420?code=\u{e9}\u{1f600}"] {
        let mut flow = session();
        assert_eq!(flow.on_navigation(url), Verdict::Capture, "{url}");
        assert_eq!(flow.resolution(), Some(Ok(url.to_string())));
    }
}

#[test]
fn empty_prefix_matches_every_address() {
    let mut flow = AuthSession::open("github-auth".to_string(), AUTHORIZE.to_string(), String::new());
    assert_eq!(flow.on_navigation(""), Verdict::Capture);
    assert_eq!(flow.resolution(), Some(Ok(String::new())));
}

#[test]
fn texts_are_compared_character_by_character() {
    assert!(same_text("", ""));
    assert!(same_text("toggle", "toggle"));
    assert!(!same_text("toggle", "toggl"));
    assert!(!same_text("toggle", "Toggle"));
    assert!(same_text("caf\u{e9}", "caf\u{e9}"));
    assert!(!same_text("caf\u{e9}", "cafe\u{301}"));
    assert!(starts_with("abc", ""));
    assert!(starts_with("abc", "ab"));
    assert!(starts_with("abc", "abc"));
    assert!(!starts_with("abc", "abcd"));
    assert!(!starts_with("abc", "b"));
    assert!(!starts_with("", "a"));
    assert!(starts_with("\u{e9}t\u{e9}", "\u{e9}"));
    assert!(!starts_with("\u{e9}t\u{e9}", "e"));
}
