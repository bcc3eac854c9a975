//! The client-side session model: authentication status, displayed page, and
//! the request-sequencing bookkeeping that closes the out-of-order-completion
//! hazard.
//!
//! Executable types hold byte strings (`Vec<u8>`); each has a ghost view over
//! `Seq<u8>` that the contracts speak of.

use vstd::prelude::*;

verus! {

/// What the client believes about its authentication.
pub enum AuthStatus {
    /// The server reported no session, or an auth request failed.
    Anonymous,
    /// Startup value: the first check has not resolved yet.
    Pending,
    /// The server reported a session for this username.
    Authenticated(Vec<u8>),
}

/// The page the client currently displays.
pub enum Page {
    /// The login form, with transient draft input.
    LoginForm { username: Vec<u8>, password: Vec<u8> },
    /// The home page, reachable only while authenticated or pending.
    Dashboard,
    /// Any unknown path.
    NotFound,
}

/// The whole client-side session state.
pub struct SessionModel {
    /// The page currently displayed.
    pub page: Page,
    /// What the client believes about its authentication.
    pub auth: AuthStatus,
    /// Sequence tag of the most recently issued auth-mutating request;
    /// `0` when none has been issued yet.
    pub seq: u64,
    /// Tag of a login request whose completion has not arrived yet.
    pub login_inflight: Option<u64>,
}

/// Ghost view of [`AuthStatus`].
pub ghost enum AuthStatusView {
    Anonymous,
    Pending,
    Authenticated(Seq<u8>),
}

/// Ghost view of [`Page`].
pub ghost enum PageView {
    LoginForm { username: Seq<u8>, password: Seq<u8> },
    Dashboard,
    NotFound,
}

/// Ghost view of [`SessionModel`].
pub ghost struct ModelView {
    pub page: PageView,
    pub auth: AuthStatusView,
    pub seq: u64,
    pub login_inflight: Option<u64>,
}

impl View for AuthStatus {
    type V = AuthStatusView;

    open spec fn view(&self) -> AuthStatusView {
        match self {
            AuthStatus::Anonymous => AuthStatusView::Anonymous,
            AuthStatus::Pending => AuthStatusView::Pending,
            AuthStatus::Authenticated(u) => AuthStatusView::Authenticated(u@),
        }
    }
}

impl View for Page {
    type V = PageView;

    open spec fn view(&self) -> PageView {
        match self {
            Page::LoginForm { username, password } => PageView::LoginForm {
                username: username@,
                password: password@,
            },
            Page::Dashboard => PageView::Dashboard,
            Page::NotFound => PageView::NotFound,
        }
    }
}

impl View for SessionModel {
    type V = ModelView;

    open spec fn view(&self) -> ModelView {
        ModelView {
            page: self.page@,
            auth: self.auth@,
            seq: self.seq,
            login_inflight: self.login_inflight,
        }
    }
}

/// The login page with empty draft fields, as produced by every
/// navigation back to the login form.
pub open spec fn empty_login_page() -> PageView {
    PageView::LoginForm { username: Seq::empty(), password: Seq::empty() }
}

/// The session invariant.
///
/// The dashboard is only ever displayed while the client is authenticated or
/// while the very first check is still pending; an anonymous client always
/// sits on the login form.  The bookkeeping clause bounds an outstanding
/// login's tag by the sequence counter.
pub open spec fn inv(m: ModelView) -> bool {
    &&& m.page is Dashboard ==> (m.auth is Authenticated || m.auth is Pending)
    &&& m.auth is Anonymous ==> m.page is LoginForm
    &&& m.login_inflight matches Some(t) ==> 1 <= t <= m.seq
}

} // verus!
