//! Mapping a URL path to a page, gated by authentication status.
//!
//! An anonymous client is always sent to the login form, whatever it asked
//! for.  A pending or authenticated client resolves by path: the empty path
//! is the dashboard, the `login` segment is the login form, and anything else
//! is not found.

use crate::bytes::bytes_eq;
use crate::model::AuthStatus;
use crate::model::AuthStatusView;
use crate::model::Page;
use crate::model::PageView;
use crate::model::empty_login_page;
use vstd::prelude::*;

verus! {

/// The path segment that names the login page: `login`.
pub open spec fn login_segment_spec() -> Seq<u8> {
    seq![108u8, 111u8, 103u8, 105u8, 110u8]
}

/// What `resolve` yields for a path and an authentication status.
pub open spec fn spec_resolve(path: Seq<Seq<u8>>, auth: AuthStatusView) -> PageView {
    if auth is Anonymous {
        empty_login_page()
    } else if path.len() == 0 {
        PageView::Dashboard
    } else if path[0] == login_segment_spec() {
        empty_login_page()
    } else {
        PageView::NotFound
    }
}

/// The `login` path segment as bytes.
pub fn login_segment() -> (r: Vec<u8>)
    ensures
        r@ == login_segment_spec(),
{
    let mut v: Vec<u8> = Vec::new();
    v.push(108);
    v.push(111);
    v.push(103);
    v.push(105);
    v.push(110);
    proof {
        assert(v@ =~= login_segment_spec());
    }
    v
}

/// The path of the home page: no segments at all.
pub fn home_path() -> (r: Vec<Vec<u8>>)
    ensures
        r.deep_view() == Seq::<Seq<u8>>::empty(),
{
    let r: Vec<Vec<u8>> = Vec::new();
    proof {
        assert(r.deep_view() =~= Seq::<Seq<u8>>::empty());
    }
    r
}

/// The path of the login page: the single `login` segment.
pub fn login_path() -> (r: Vec<Vec<u8>>)
    ensures
        r.deep_view() == seq![login_segment_spec()],
{
    let mut r: Vec<Vec<u8>> = Vec::new();
    r.push(login_segment());
    proof {
        assert(r@[0].deep_view() =~= login_segment_spec());
        assert(r.deep_view() =~= seq![login_segment_spec()]);
    }
    r
}

/// Resolve a URL path (as segments) under an authentication status.
pub fn resolve(path: &Vec<Vec<u8>>, auth: &AuthStatus) -> (p: Page)
    ensures
        p@ == spec_resolve(path.deep_view(), auth@),
{
    match auth {
        AuthStatus::Anonymous => Page::LoginForm { username: Vec::new(), password: Vec::new() },
        _ => {
            if path.len() == 0 {
                Page::Dashboard
            } else {
                let l = login_segment();
                proof {
                    assert(path.deep_view()[0] =~= path@[0]@);
                }
                if bytes_eq(&path[0], &l) {
                    Page::LoginForm { username: Vec::new(), password: Vec::new() }
                } else {
                    Page::NotFound
                }
            }
        },
    }
}

} // verus!
