//! The laws of the session protocol, proved once and for all over the
//! transition function.

use crate::model::AuthStatusView;
use crate::model::ModelView;
use crate::model::inv;
use crate::session::MsgView;
use crate::session::check_outcome_auth;
use crate::session::login_outcome_auth;
use crate::session::spec_action;
use crate::session::spec_init;
use crate::session::spec_step;
use crate::transport::TransportError;
use vstd::prelude::*;

verus! {

/// Law: the startup state satisfies the session invariant.
pub proof fn lemma_init_satisfies_inv(path: Seq<Seq<u8>>)
    ensures
        inv(spec_init(path)),
{
}

/// Law: every message preserves the session invariant, so every reachable
/// state satisfies it.  In particular the dashboard is never displayed
/// anonymously, and an anonymous client always sits on the login form.
pub proof fn lemma_step_preserves_inv(m: ModelView, msg: MsgView)
    requires
        inv(m),
        m.seq < u64::MAX,
    ensures
        inv(spec_step(m, msg)),
{
}

/// Law: once the first check has resolved, so that the status is no longer
/// pending, the dashboard is displayed only while authenticated.
pub proof fn lemma_dashboard_needs_authentication(m: ModelView)
    requires
        inv(m),
        !(m.auth is Pending),
    ensures
        m.page is Dashboard ==> m.auth is Authenticated,
{
}

/// Law: an anonymous client always sits on the login form.
pub proof fn lemma_anonymous_shows_login(m: ModelView)
    requires
        inv(m),
        m.auth is Anonymous,
    ensures
        m.page is LoginForm,
{
}

/// Law: while a login's completion is outstanding, dispatching a check
/// changes nothing and starts no request.
pub proof fn lemma_check_suppressed_while_login_inflight(m: ModelView)
    requires
        m.login_inflight is Some,
    ensures
        spec_step(m, MsgView::CheckAuth) == m,
        spec_action(m, MsgView::CheckAuth) is None,
{
}

/// Law: a completion whose tag is not the newest issued one never changes
/// the authentication status or the page.
pub proof fn lemma_stale_completion_discarded(m: ModelView, msg: MsgView)
    requires
        match msg {
            MsgView::AuthChecked(t, _) => t != m.seq,
            MsgView::LoginCompleted(t, _) => t != m.seq,
            MsgView::LogoutCompleted(t, _) => t != m.seq,
            _ => false,
        },
    ensures
        spec_step(m, msg).auth == m.auth,
        spec_step(m, msg).page == m.page,
{
}

/// Law: whenever the outstanding login is the newest issued request, its
/// completion alone decides the authentication status; the completion of any
/// check issued earlier is discarded whether it arrives before or after the
/// login's.
pub proof fn lemma_newest_login_decides(
    m: ModelView,
    check_tag: u64,
    check_result: Result<Seq<u8>, TransportError>,
    login_result: Result<Seq<u8>, TransportError>,
)
    requires
        m.login_inflight == Some(m.seq),
        check_tag < m.seq,
    ensures
        ({
            let login_tag = m.seq;
            let check_first = spec_step(
                spec_step(m, MsgView::AuthChecked(check_tag, check_result)),
                MsgView::LoginCompleted(login_tag, login_result),
            );
            let login_first = spec_step(
                spec_step(m, MsgView::LoginCompleted(login_tag, login_result)),
                MsgView::AuthChecked(check_tag, check_result),
            );
            &&& check_first == login_first
            &&& check_first.auth == login_outcome_auth(login_result)
        }),
{
}

/// Law: when a login is issued after a check, the login's completion alone
/// determines the final authentication status, in whichever order the two
/// completions arrive; the check's stale result is discarded.
pub proof fn lemma_login_result_wins(
    m0: ModelView,
    check_result: Result<Seq<u8>, TransportError>,
    login_result: Result<Seq<u8>, TransportError>,
)
    requires
        inv(m0),
        m0.seq < u64::MAX - 1,
        m0.login_inflight is None,
        m0.page is LoginForm,
    ensures
        ({
            let issued = spec_step(spec_step(m0, MsgView::CheckAuth), MsgView::SubmitLogin);
            let check_tag = spec_step(m0, MsgView::CheckAuth).seq;
            let login_tag = issued.seq;
            let check_first = spec_step(
                spec_step(issued, MsgView::AuthChecked(check_tag, check_result)),
                MsgView::LoginCompleted(login_tag, login_result),
            );
            let login_first = spec_step(
                spec_step(issued, MsgView::LoginCompleted(login_tag, login_result)),
                MsgView::AuthChecked(check_tag, check_result),
            );
            &&& check_first == login_first
            &&& check_first.auth == login_outcome_auth(login_result)
        }),
{
}

/// Law: two checks with no auth-mutating request between them and the same
/// server answer both fold to the same authentication status.
pub proof fn lemma_check_idempotent(m0: ModelView, answer: Result<Seq<u8>, TransportError>)
    requires
        m0.seq < u64::MAX - 1,
        m0.login_inflight is None,
    ensures
        ({
            let m1 = spec_step(m0, MsgView::CheckAuth);
            let m2 = spec_step(m1, MsgView::AuthChecked(m1.seq, answer));
            let m3 = spec_step(m2, MsgView::CheckAuth);
            let m4 = spec_step(m3, MsgView::AuthChecked(m3.seq, answer));
            &&& m2.auth == check_outcome_auth(answer)
            &&& m4.auth == check_outcome_auth(answer)
            &&& m2.auth == m4.auth
        }),
{
}

} // verus!
