//! The server's identity service: stateless per-request handlers backed by
//! the identity cookie.  The cookie is the whole session: the server keeps
//! no table, it only reads, writes or clears the username the cookie
//! carries.  What a handler does to the cookie is returned as an explicit
//! effect, applied by the host to the real cookie.

use crate::bytes::copy_bytes;
use crate::creds::parse_basic_header;
use crate::creds::parse_basic_header_spec;
use vstd::prelude::*;

verus! {

/// Status code of every successful reply.
pub const STATUS_OK: u16 = 200;

/// Status code for a missing or malformed Authorization header.
pub const STATUS_BAD_REQUEST: u16 = 400;

/// An HTTP reply: a status code and a body.
pub struct HttpReply {
    pub status: u16,
    pub body: Vec<u8>,
}

/// Ghost view of [`HttpReply`].
pub ghost struct HttpReplyView {
    pub status: u16,
    pub body: Seq<u8>,
}

impl View for HttpReply {
    type V = HttpReplyView;

    open spec fn view(&self) -> HttpReplyView {
        HttpReplyView { status: self.status, body: self.body@ }
    }
}

/// What a handler asks the browser to do with the identity cookie.
pub enum CookieEffect {
    /// Leave the cookie as it is.
    Keep,
    /// Remember this username.
    Remember(Vec<u8>),
    /// Forget any session.
    Forget,
}

/// Ghost view of [`CookieEffect`].
pub ghost enum CookieEffectView {
    Keep,
    Remember(Seq<u8>),
    Forget,
}

impl View for CookieEffect {
    type V = CookieEffectView;

    open spec fn view(&self) -> CookieEffectView {
        match self {
            CookieEffect::Keep => CookieEffectView::Keep,
            CookieEffect::Remember(u) => CookieEffectView::Remember(u@),
            CookieEffect::Forget => CookieEffectView::Forget,
        }
    }
}

/// Configuration of the identity cookie.  The cryptography lives with the
/// host; this records the name and the `secure` flag, which defaults to on.
pub struct CookieConfig {
    pub name: Vec<u8>,
    pub secure: bool,
}

impl CookieConfig {
    /// A configuration with the given cookie name and the `secure` flag on.
    pub fn new(name: Vec<u8>) -> (c: CookieConfig)
        ensures
            c.name@ == name@,
            c.secure,
    {
        CookieConfig { name, secure: true }
    }
}

/// Handle a check request: 200 with the username when the cookie names one,
/// 200 with an empty body otherwise -- the empty body is the deliberate
/// "no session" signal.
pub fn check(identity: &Option<Vec<u8>>) -> (r: HttpReply)
    ensures
        r@.status == STATUS_OK,
        match identity {
            Some(u) => r@.body == u@,
            None => r@.body.len() == 0,
        },
{
    match identity {
        Some(u) => HttpReply { status: STATUS_OK, body: copy_bytes(u) },
        None => HttpReply { status: STATUS_OK, body: Vec::new() },
    }
}

/// What can be wrong with a request itself: only its credentials.
#[derive(Clone, Copy, Debug, PartialEq, Eq, Structural)]
pub enum AuthError {
    /// The Authorization header is missing or cannot be decoded.
    MalformedCredentials,
}

/// Extract the username from an optional Authorization header: a missing or
/// undecodable header is malformed, anything else names a user.
pub fn parse_credentials(auth_header: &Option<Vec<u8>>) -> (r: Result<Vec<u8>, AuthError>)
    ensures
        match auth_header {
            None => r == Err::<Vec<u8>, AuthError>(AuthError::MalformedCredentials),
            Some(h) => match parse_basic_header_spec(h@) {
                None => r == Err::<Vec<u8>, AuthError>(AuthError::MalformedCredentials),
                Some(u) => r matches Ok(v) && v@ == u,
            },
        },
{
    match auth_header {
        Some(h) => match parse_basic_header(h) {
            Some(u) => Ok(u),
            None => Err(AuthError::MalformedCredentials),
        },
        None => Err(AuthError::MalformedCredentials),
    }
}

/// Handle a login request: parse the Basic Authorization header.  A missing
/// or undecodable header is answered with 400 and no cookie change; any
/// well-formed pair succeeds -- no password verification is performed --
/// with 200, the username as the body, and the cookie set to it.
pub fn login(auth_header: &Option<Vec<u8>>) -> (r: (HttpReply, CookieEffect))
    ensures
        match auth_header {
            None => r.0@.status == STATUS_BAD_REQUEST && r.0@.body.len() == 0 && r.1@ is Keep,
            Some(h) => match parse_basic_header_spec(h@) {
                None => r.0@.status == STATUS_BAD_REQUEST && r.0@.body.len() == 0 && r.1@ is Keep,
                Some(u) => r.0@.status == STATUS_OK && r.0@.body == u && r.1@
                    == CookieEffectView::Remember(u),
            },
        },
{
    match parse_credentials(auth_header) {
        Ok(u) => {
            let body = copy_bytes(&u);
            (HttpReply { status: STATUS_OK, body }, CookieEffect::Remember(u))
        },
        Err(AuthError::MalformedCredentials) => (
            HttpReply { status: STATUS_BAD_REQUEST, body: Vec::new() },
            CookieEffect::Keep,
        ),
    }
}

/// Handle a logout request: clear the cookie and reply 200 with an empty
/// body, whether or not a session was present (idempotent).
pub fn logout() -> (r: (HttpReply, CookieEffect))
    ensures
        r.0@.status == STATUS_OK,
        r.0@.body.len() == 0,
        r.1@ is Forget,
{
    (HttpReply { status: STATUS_OK, body: Vec::new() }, CookieEffect::Forget)
}

/// Apply a handler's cookie effect to a browser-side cookie store.
pub fn apply_cookie_effect(store: &mut Option<Vec<u8>>, effect: CookieEffect)
    ensures
        match effect@ {
            CookieEffectView::Keep => final(store).deep_view() == old(store).deep_view(),
            CookieEffectView::Remember(u) => final(store).deep_view() == Some(u),
            CookieEffectView::Forget => final(store).deep_view() is None,
        },
{
    match effect {
        CookieEffect::Keep => {},
        CookieEffect::Remember(u) => {
            *store = Some(u);
        },
        CookieEffect::Forget => {
            *store = None;
        },
    }
}

} // verus!
