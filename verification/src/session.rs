//! The client session state machine: the single serialization point for all
//! session-state changes.
//!
//! UI events and network completions enter as messages; `dispatch` applies
//! exactly one message and may start one transport request.  Every
//! auth-mutating request (check, login, logout) is tagged with a fresh value
//! of a monotonically increasing sequence counter, and a completion is
//! applied only when its tag is still the newest issued one, so the last
//! issued request always wins whatever order completions arrive in.  While a
//! login's completion is outstanding, new checks are suppressed outright.

use crate::bytes::copy_bytes;
use crate::creds::basic_header_spec;
use crate::creds::build_basic_header;
use crate::model::AuthStatus;
use crate::model::AuthStatusView;
use crate::model::ModelView;
use crate::model::Page;
use crate::model::PageView;
use crate::model::SessionModel;
use crate::model::empty_login_page;
use crate::model::inv;
use crate::router::resolve;
use crate::router::spec_resolve;
use crate::transport::TransportError;
use vstd::prelude::*;

verus! {

/// A message fed into the state machine.
pub enum Msg {
    /// The displayed URL changed to this path (as segments).
    UrlChanged(Vec<Vec<u8>>),
    /// Ask the server whether a session cookie is present.
    CheckAuth,
    /// A check request with this tag completed.
    AuthChecked(u64, Result<Vec<u8>, TransportError>),
    /// The username draft on the login form changed.
    EditUsername(Vec<u8>),
    /// The password draft on the login form changed.
    EditPassword(Vec<u8>),
    /// The login form was submitted.
    SubmitLogin,
    /// A login request with this tag completed.
    LoginCompleted(u64, Result<Vec<u8>, TransportError>),
    /// The logout button was pressed.
    SubmitLogout,
    /// A logout request with this tag completed.
    LogoutCompleted(u64, Result<(), TransportError>),
}

/// A transport request the state machine asks its caller to start.
pub enum Action {
    /// Ask the server for the current session, tagged.
    StartCheck(u64),
    /// Send a login request with this Authorization header, tagged.
    StartLogin(u64, Vec<u8>),
    /// Send a logout request, tagged.
    StartLogout(u64),
}

/// Ghost view of [`Msg`].
pub ghost enum MsgView {
    UrlChanged(Seq<Seq<u8>>),
    CheckAuth,
    AuthChecked(u64, Result<Seq<u8>, TransportError>),
    EditUsername(Seq<u8>),
    EditPassword(Seq<u8>),
    SubmitLogin,
    LoginCompleted(u64, Result<Seq<u8>, TransportError>),
    SubmitLogout,
    LogoutCompleted(u64, Result<(), TransportError>),
}

/// Ghost view of [`Action`].
pub ghost enum ActionView {
    StartCheck(u64),
    StartLogin(u64, Seq<u8>),
    StartLogout(u64),
}

impl View for Msg {
    type V = MsgView;

    open spec fn view(&self) -> MsgView {
        match self {
            Msg::UrlChanged(path) => MsgView::UrlChanged(path.deep_view()),
            Msg::CheckAuth => MsgView::CheckAuth,
            Msg::AuthChecked(t, r) => MsgView::AuthChecked(
                *t,
                match r {
                    Ok(u) => Ok(u@),
                    Err(e) => Err(*e),
                },
            ),
            Msg::EditUsername(s) => MsgView::EditUsername(s@),
            Msg::EditPassword(s) => MsgView::EditPassword(s@),
            Msg::SubmitLogin => MsgView::SubmitLogin,
            Msg::LoginCompleted(t, r) => MsgView::LoginCompleted(
                *t,
                match r {
                    Ok(u) => Ok(u@),
                    Err(e) => Err(*e),
                },
            ),
            Msg::SubmitLogout => MsgView::SubmitLogout,
            Msg::LogoutCompleted(t, r) => MsgView::LogoutCompleted(*t, *r),
        }
    }
}

impl View for Action {
    type V = ActionView;

    open spec fn view(&self) -> ActionView {
        match self {
            Action::StartCheck(t) => ActionView::StartCheck(*t),
            Action::StartLogin(t, h) => ActionView::StartLogin(*t, h@),
            Action::StartLogout(t) => ActionView::StartLogout(*t),
        }
    }
}

/// The authentication status a check completion folds to: an empty body or
/// any transport error means anonymous, a non-empty body names the user.
pub open spec fn check_outcome_auth(r: Result<Seq<u8>, TransportError>) -> AuthStatusView {
    match r {
        Ok(u) => if u.len() == 0 {
            AuthStatusView::Anonymous
        } else {
            AuthStatusView::Authenticated(u)
        },
        Err(_) => AuthStatusView::Anonymous,
    }
}

/// The authentication status a login completion folds to; it coincides with
/// the check outcome, since an empty body again means no session.
pub open spec fn login_outcome_auth(r: Result<Seq<u8>, TransportError>) -> AuthStatusView {
    check_outcome_auth(r)
}

/// Apply a check completion's result to the model.
pub open spec fn apply_check_result(m: ModelView, r: Result<Seq<u8>, TransportError>) -> ModelView {
    match check_outcome_auth(r) {
        AuthStatusView::Authenticated(u) => ModelView {
            page: m.page,
            auth: AuthStatusView::Authenticated(u),
            seq: m.seq,
            login_inflight: m.login_inflight,
        },
        _ => ModelView {
            page: empty_login_page(),
            auth: AuthStatusView::Anonymous,
            seq: m.seq,
            login_inflight: m.login_inflight,
        },
    }
}

/// Apply a login completion's result to the model: success shows the
/// dashboard, anything else returns to the login form.
pub open spec fn apply_login_result(m: ModelView, r: Result<Seq<u8>, TransportError>) -> ModelView {
    match login_outcome_auth(r) {
        AuthStatusView::Authenticated(u) => ModelView {
            page: PageView::Dashboard,
            auth: AuthStatusView::Authenticated(u),
            seq: m.seq,
            login_inflight: m.login_inflight,
        },
        _ => ModelView {
            page: empty_login_page(),
            auth: AuthStatusView::Anonymous,
            seq: m.seq,
            login_inflight: m.login_inflight,
        },
    }
}

/// The state after one message.
pub open spec fn spec_step(m: ModelView, msg: MsgView) -> ModelView {
    match msg {
        MsgView::UrlChanged(path) => ModelView {
            page: spec_resolve(path, m.auth),
            auth: m.auth,
            seq: m.seq,
            login_inflight: m.login_inflight,
        },
        MsgView::CheckAuth => if m.login_inflight is Some {
            m
        } else {
            ModelView {
                page: m.page,
                auth: m.auth,
                seq: (m.seq + 1) as u64,
                login_inflight: m.login_inflight,
            }
        },
        MsgView::AuthChecked(t, r) => if t == m.seq {
            apply_check_result(m, r)
        } else {
            m
        },
        MsgView::EditUsername(s) => match m.page {
            PageView::LoginForm { username: _, password } => ModelView {
                page: PageView::LoginForm { username: s, password },
                auth: m.auth,
                seq: m.seq,
                login_inflight: m.login_inflight,
            },
            _ => m,
        },
        MsgView::EditPassword(s) => match m.page {
            PageView::LoginForm { username, password: _ } => ModelView {
                page: PageView::LoginForm { username, password: s },
                auth: m.auth,
                seq: m.seq,
                login_inflight: m.login_inflight,
            },
            _ => m,
        },
        MsgView::SubmitLogin => match m.page {
            PageView::LoginForm { .. } => ModelView {
                page: m.page,
                auth: m.auth,
                seq: (m.seq + 1) as u64,
                login_inflight: Some((m.seq + 1) as u64),
            },
            _ => m,
        },
        MsgView::LoginCompleted(t, r) => {
            let cleared = if m.login_inflight == Some(t) {
                ModelView {
                    page: m.page,
                    auth: m.auth,
                    seq: m.seq,
                    login_inflight: None,
                }
            } else {
                m
            };
            if t == m.seq {
                apply_login_result(cleared, r)
            } else {
                cleared
            }
        },
        MsgView::SubmitLogout => ModelView {
            page: m.page,
            auth: m.auth,
            seq: (m.seq + 1) as u64,
            login_inflight: m.login_inflight,
        },
        MsgView::LogoutCompleted(t, r) => if t == m.seq && r is Ok {
            ModelView {
                page: empty_login_page(),
                auth: AuthStatusView::Anonymous,
                seq: m.seq,
                login_inflight: m.login_inflight,
            }
        } else {
            m
        },
    }
}

/// The request, if any, that one message starts.
pub open spec fn spec_action(m: ModelView, msg: MsgView) -> Option<ActionView> {
    match msg {
        MsgView::CheckAuth => if m.login_inflight is Some {
            None
        } else {
            Some(ActionView::StartCheck((m.seq + 1) as u64))
        },
        MsgView::SubmitLogin => match m.page {
            PageView::LoginForm { username, password } => Some(
                ActionView::StartLogin((m.seq + 1) as u64, basic_header_spec(username, password)),
            ),
            _ => None,
        },
        MsgView::SubmitLogout => Some(ActionView::StartLogout((m.seq + 1) as u64)),
        _ => None,
    }
}

/// The state the client starts in: the first check is pending, the page is
/// resolved from the startup path under that pending status, and the one
/// startup check has been issued with tag 1.
pub open spec fn spec_init(path: Seq<Seq<u8>>) -> ModelView {
    ModelView {
        page: spec_resolve(path, AuthStatusView::Pending),
        auth: AuthStatusView::Pending,
        seq: 1,
        login_inflight: None,
    }
}

/// The login form with empty drafts.
fn empty_login_form() -> (p: Page)
    ensures
        p@ == empty_login_page(),
{
    Page::LoginForm { username: Vec::new(), password: Vec::new() }
}

/// Create the client state at startup and issue the single startup check.
pub fn init(path: &Vec<Vec<u8>>) -> (r: (SessionModel, Action))
    ensures
        r.0@ == spec_init(path.deep_view()),
        r.1@ == ActionView::StartCheck(1),
        inv(r.0@),
{
    let auth = AuthStatus::Pending;
    let page = resolve(path, &auth);
    let m = SessionModel { page, auth, seq: 1, login_inflight: None };
    (m, Action::StartCheck(1))
}

/// Apply one message to the model; the returned action, if any, is the
/// transport request the caller must start.
///
/// The whole behaviour is pinned to the transition function `spec_step` and
/// the request function `spec_action`.
pub fn dispatch(m: &mut SessionModel, msg: Msg) -> (act: Option<Action>)
    requires
        old(m).seq < u64::MAX,
    ensures
        final(m)@ == spec_step(old(m)@, msg@),
        match act {
            Some(a) => spec_action(old(m)@, msg@) == Some(a@),
            None => spec_action(old(m)@, msg@) is None,
        },
{
    match msg {
        Msg::UrlChanged(path) => {
            m.page = resolve(&path, &m.auth);
            None
        },
        Msg::CheckAuth => {
            match m.login_inflight {
                Some(_) => None,
                None => {
                    m.seq = m.seq + 1;
                    Some(Action::StartCheck(m.seq))
                },
            }
        },
        Msg::AuthChecked(t, r) => {
            if t == m.seq {
                match r {
                    Ok(u) => {
                        if u.len() == 0 {
                            m.auth = AuthStatus::Anonymous;
                            m.page = empty_login_form();
                        } else {
                            m.auth = AuthStatus::Authenticated(u);
                        }
                    },
                    Err(_) => {
                        m.auth = AuthStatus::Anonymous;
                        m.page = empty_login_form();
                    },
                }
            }
            None
        },
        Msg::EditUsername(s) => {
            let new_page = match &m.page {
                Page::LoginForm { username: _, password } => Some(
                    Page::LoginForm { username: s, password: copy_bytes(password) },
                ),
                _ => None,
            };
            match new_page {
                Some(p) => {
                    m.page = p;
                },
                None => {},
            }
            None
        },
        Msg::EditPassword(s) => {
            let new_page = match &m.page {
                Page::LoginForm { username, password: _ } => Some(
                    Page::LoginForm { username: copy_bytes(username), password: s },
                ),
                _ => None,
            };
            match new_page {
                Some(p) => {
                    m.page = p;
                },
                None => {},
            }
            None
        },
        Msg::SubmitLogin => {
            let header = match &m.page {
                Page::LoginForm { username, password } => Some(
                    build_basic_header(username, password),
                ),
                _ => None,
            };
            match header {
                Some(h) => {
                    m.seq = m.seq + 1;
                    m.login_inflight = Some(m.seq);
                    Some(Action::StartLogin(m.seq, h))
                },
                None => None,
            }
        },
        Msg::LoginCompleted(t, r) => {
            let was_inflight = match m.login_inflight {
                Some(ft) => ft == t,
                None => false,
            };
            if was_inflight {
                m.login_inflight = None;
            }
            if t == m.seq {
                match r {
                    Ok(u) => {
                        if u.len() == 0 {
                            m.auth = AuthStatus::Anonymous;
                            m.page = empty_login_form();
                        } else {
                            m.auth = AuthStatus::Authenticated(u);
                            m.page = Page::Dashboard;
                        }
                    },
                    Err(_) => {
                        m.auth = AuthStatus::Anonymous;
                        m.page = empty_login_form();
                    },
                }
            }
            None
        },
        Msg::SubmitLogout => {
            m.seq = m.seq + 1;
            Some(Action::StartLogout(m.seq))
        },
        Msg::LogoutCompleted(t, r) => {
            if t == m.seq {
                match r {
                    Ok(_) => {
                        m.auth = AuthStatus::Anonymous;
                        m.page = empty_login_form();
                    },
                    Err(_) => {},
                }
            }
            None
        },
    }
}

} // verus!
