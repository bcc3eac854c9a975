// End-to-end exercises of the client session state machine.

use auth_session::model::AuthStatus;
use auth_session::model::Page;
use auth_session::model::SessionModel;
use auth_session::session::Action;
use auth_session::session::Msg;
use auth_session::session::dispatch;
use auth_session::session::init;
use auth_session::router::home_path;
use auth_session::router::login_path;
use auth_session::transport::RawCompletion;
use auth_session::transport::TransportError;
use auth_session::transport::classify;
use auth_session::transport::TIMEOUT_MS;

fn bytes(s: &str) -> Vec<u8> {
    s.as_bytes().to_vec()
}

fn assert_login_form(m: &SessionModel) {
    assert!(matches!(m.page, Page::LoginForm { .. }));
}

fn assert_anonymous(m: &SessionModel) {
    assert!(matches!(m.auth, AuthStatus::Anonymous));
}

fn assert_authenticated_as(m: &SessionModel, user: &str) {
    match &m.auth {
        AuthStatus::Authenticated(u) => assert_eq!(u, &bytes(user)),
        _ => panic!("expected an authenticated status"),
    }
}

fn fresh_client() -> (SessionModel, u64) {
    let path: Vec<Vec<u8>> = Vec::new();
    let (m, action) = init(&path);
    match action {
        Action::StartCheck(tag) => (m, tag),
        _ => panic!("startup must issue a check"),
    }
}

#[test]
fn startup_is_pending_on_dashboard() {
    let (m, tag) = fresh_client();
    assert!(matches!(m.auth, AuthStatus::Pending));
    assert!(matches!(m.page, Page::Dashboard));
    assert_eq!(tag, 1);
}

#[test]
fn check_with_empty_body_folds_to_anonymous() {
    let (mut m, tag) = fresh_client();
    let body = classify(RawCompletion::Responded(200, Vec::new())).unwrap();
    assert_eq!(body, Vec::<u8>::new());
    let act = dispatch(&mut m, Msg::AuthChecked(tag, Ok(body)));
    assert!(act.is_none());
    assert_anonymous(&m);
    assert_login_form(&m);
}

#[test]
fn check_with_username_authenticates() {
    let (mut m, tag) = fresh_client();
    dispatch(&mut m, Msg::AuthChecked(tag, Ok(bytes("alice"))));
    assert_authenticated_as(&m, "alice");
}

#[test]
fn check_timeout_folds_to_anonymous() {
    let (mut m, tag) = fresh_client();
    let completed = classify(RawCompletion::TimedOut);
    assert!(matches!(completed, Err(TransportError::Timeout)));
    dispatch(&mut m, Msg::AuthChecked(tag, Err(completed.unwrap_err())));
    assert_anonymous(&m);
    assert_login_form(&m);
}

#[test]
fn timeout_deadline_is_five_seconds() {
    assert_eq!(TIMEOUT_MS, 5000);
}

#[test]
fn login_success_shows_dashboard() {
    let (mut m, tag) = fresh_client();
    dispatch(&mut m, Msg::AuthChecked(tag, Ok(Vec::new())));
    dispatch(&mut m, Msg::EditUsername(bytes("alice")));
    dispatch(&mut m, Msg::EditPassword(bytes("secret")));
    let act = dispatch(&mut m, Msg::SubmitLogin);
    let login_tag = match act {
        Some(Action::StartLogin(t, _header)) => t,
        _ => panic!("submitting the form must start a login"),
    };
    dispatch(&mut m, Msg::LoginCompleted(login_tag, Ok(bytes("alice"))));
    assert_authenticated_as(&m, "alice");
    assert!(matches!(m.page, Page::Dashboard));
}

#[test]
fn login_rejection_returns_to_login_form() {
    let (mut m, tag) = fresh_client();
    dispatch(&mut m, Msg::AuthChecked(tag, Ok(Vec::new())));
    let act = dispatch(&mut m, Msg::SubmitLogin);
    let login_tag = match act {
        Some(Action::StartLogin(t, _header)) => t,
        _ => panic!("submitting the form must start a login"),
    };
    let completed = classify(RawCompletion::Responded(400, Vec::new()));
    assert!(matches!(completed, Err(TransportError::HttpStatus(400))));
    dispatch(&mut m, Msg::LoginCompleted(login_tag, Err(completed.unwrap_err())));
    assert_anonymous(&m);
    assert_login_form(&m);
}

#[test]
fn check_during_login_is_suppressed_and_login_wins() {
    let (mut m, tag) = fresh_client();
    dispatch(&mut m, Msg::AuthChecked(tag, Ok(Vec::new())));
    dispatch(&mut m, Msg::EditUsername(bytes("alice")));
    dispatch(&mut m, Msg::EditPassword(bytes("x")));
    let act = dispatch(&mut m, Msg::SubmitLogin);
    let login_tag = match act {
        Some(Action::StartLogin(t, _header)) => t,
        _ => panic!("submitting the form must start a login"),
    };
    // A check dispatched while the login is outstanding starts nothing.
    let suppressed = dispatch(&mut m, Msg::CheckAuth);
    assert!(suppressed.is_none());
    // The login's response arrives last and alone determines the outcome.
    dispatch(&mut m, Msg::LoginCompleted(login_tag, Ok(bytes("alice"))));
    assert_authenticated_as(&m, "alice");
    assert!(matches!(m.page, Page::Dashboard));
}

#[test]
fn late_stale_check_result_cannot_undo_login() {
    let (mut m, tag) = fresh_client();
    dispatch(&mut m, Msg::AuthChecked(tag, Ok(Vec::new())));
    let check_act = dispatch(&mut m, Msg::CheckAuth);
    let check_tag = match check_act {
        Some(Action::StartCheck(t)) => t,
        _ => panic!("a quiescent check must be issued"),
    };
    dispatch(&mut m, Msg::EditUsername(bytes("alice")));
    dispatch(&mut m, Msg::EditPassword(bytes("x")));
    let login_act = dispatch(&mut m, Msg::SubmitLogin);
    let login_tag = match login_act {
        Some(Action::StartLogin(t, _header)) => t,
        _ => panic!("submitting the form must start a login"),
    };
    // The newer login's response arrives first ...
    dispatch(&mut m, Msg::LoginCompleted(login_tag, Ok(bytes("alice"))));
    assert_authenticated_as(&m, "alice");
    // ... and the older check's "no session" answer, arriving last, is stale.
    dispatch(&mut m, Msg::AuthChecked(check_tag, Ok(Vec::new())));
    assert_authenticated_as(&m, "alice");
    assert!(matches!(m.page, Page::Dashboard));
}

#[test]
fn stale_check_after_logout_is_discarded() {
    let (mut m, tag) = fresh_client();
    dispatch(&mut m, Msg::AuthChecked(tag, Ok(bytes("alice"))));
    let act = dispatch(&mut m, Msg::CheckAuth);
    let check_tag = match act {
        Some(Action::StartCheck(t)) => t,
        _ => panic!("a quiescent check must be issued"),
    };
    let logout_act = dispatch(&mut m, Msg::SubmitLogout);
    let logout_tag = match logout_act {
        Some(Action::StartLogout(t)) => t,
        _ => panic!("logout must be issued"),
    };
    // The earlier check's completion is stale now and must change nothing.
    dispatch(&mut m, Msg::AuthChecked(check_tag, Ok(bytes("alice"))));
    assert_authenticated_as(&m, "alice");
    dispatch(&mut m, Msg::LogoutCompleted(logout_tag, Ok(())));
    assert_anonymous(&m);
    assert_login_form(&m);
}

#[test]
fn repeated_checks_with_same_answer_agree() {
    let (mut m, tag) = fresh_client();
    dispatch(&mut m, Msg::AuthChecked(tag, Ok(bytes("alice"))));
    let first = matches!(&m.auth, AuthStatus::Authenticated(u) if u == &bytes("alice"));
    let act = dispatch(&mut m, Msg::CheckAuth);
    let t2 = match act {
        Some(Action::StartCheck(t)) => t,
        _ => panic!("a quiescent check must be issued"),
    };
    dispatch(&mut m, Msg::AuthChecked(t2, Ok(bytes("alice"))));
    let second = matches!(&m.auth, AuthStatus::Authenticated(u) if u == &bytes("alice"));
    assert!(first && second);
}

#[test]
fn logout_failure_keeps_the_session() {
    let (mut m, tag) = fresh_client();
    dispatch(&mut m, Msg::AuthChecked(tag, Ok(bytes("alice"))));
    let logout_act = dispatch(&mut m, Msg::SubmitLogout);
    let logout_tag = match logout_act {
        Some(Action::StartLogout(t)) => t,
        _ => panic!("logout must be issued"),
    };
    dispatch(&mut m, Msg::LogoutCompleted(logout_tag, Err(TransportError::NetworkFailure)));
    assert_authenticated_as(&m, "alice");
}

#[test]
fn edits_off_the_login_form_are_ignored() {
    let (mut m, tag) = fresh_client();
    dispatch(&mut m, Msg::AuthChecked(tag, Ok(bytes("alice"))));
    assert!(matches!(m.page, Page::Dashboard));
    dispatch(&mut m, Msg::EditUsername(bytes("mallory")));
    dispatch(&mut m, Msg::EditPassword(bytes("guess")));
    assert!(matches!(m.page, Page::Dashboard));
    let act = dispatch(&mut m, Msg::SubmitLogin);
    assert!(act.is_none());
}

#[test]
fn empty_login_body_means_no_session() {
    let (mut m, tag) = fresh_client();
    dispatch(&mut m, Msg::AuthChecked(tag, Ok(Vec::new())));
    let act = dispatch(&mut m, Msg::SubmitLogin);
    let login_tag = match act {
        Some(Action::StartLogin(t, _header)) => t,
        _ => panic!("submitting the form must start a login"),
    };
    dispatch(&mut m, Msg::LoginCompleted(login_tag, Ok(Vec::new())));
    assert_anonymous(&m);
    assert_login_form(&m);
}

#[test]
fn navigation_respects_auth_status() {
    let (mut m, tag) = fresh_client();
    dispatch(&mut m, Msg::AuthChecked(tag, Ok(bytes("alice"))));
    dispatch(&mut m, Msg::UrlChanged(login_path()));
    assert_login_form(&m);
    assert_eq!(login_path(), vec![bytes("login")]);
    dispatch(&mut m, Msg::UrlChanged(vec![bytes("elsewhere")]));
    assert!(matches!(m.page, Page::NotFound));
    dispatch(&mut m, Msg::UrlChanged(home_path()));
    assert!(matches!(m.page, Page::Dashboard));
    assert_eq!(home_path(), Vec::<Vec<u8>>::new());
}

#[test]
fn anonymous_navigation_always_lands_on_login() {
    let (mut m, tag) = fresh_client();
    dispatch(&mut m, Msg::AuthChecked(tag, Ok(Vec::new())));
    dispatch(&mut m, Msg::UrlChanged(Vec::new()));
    assert_login_form(&m);
    dispatch(&mut m, Msg::UrlChanged(vec![bytes("elsewhere")]));
    assert_login_form(&m);
}
