//! The cookies that carry the token pair of a browser session: what is set
//! after a login or a refresh, and what is cleared on logout.

use vstd::prelude::*;

verus! {

/// The `SameSite` attribute of a cookie.
#[derive(Debug, Clone, Copy, PartialEq, Eq, Structural)]
pub enum SameSite {
    Strict,
    Lax,
    /// `SameSite=None`: sent on cross-site requests too.
    Unrestricted,
}

/// A cookie the response sets, by its attributes.
#[derive(Debug)]
pub struct SessionCookie {
    pub name: String,
    pub value: String,
    /// Hidden from scripts in the page.
    pub http_only: bool,
    pub same_site: SameSite,
    pub path: String,
    /// Sent over HTTPS only.
    pub secure: bool,
}

/// Name of the cookie holding the access token.
pub open spec fn access_cookie_name() -> Seq<char> {
    "access_token"@
}

/// Name of the cookie holding the refresh token.
pub open spec fn refresh_cookie_name() -> Seq<char> {
    "refresh_token"@
}

/// A session cookie named `name` carrying `value`: hidden from scripts, sent
/// on top-level navigations only, valid for the whole site.
pub open spec fn token_cookie_of(c: SessionCookie, name: Seq<char>, value: Seq<char>, secure: bool) -> bool {
    &&& c.name@ == name
    &&& c.value@ == value
    &&& c.http_only
    &&& c.same_site == SameSite::Lax
    &&& c.path@ == "/"@
    &&& c.secure == secure
}

/// Builds an httpOnly session cookie carrying a token.
pub fn token_cookie(name: &str, value: String, secure: bool) -> (c: SessionCookie)
    ensures
        token_cookie_of(c, name@, value@, secure),
{
    SessionCookie {
        name: String::from_str(name),
        value,
        http_only: true,
        same_site: SameSite::Lax,
        path: String::from_str("/"),
        secure,
    }
}

/// The cookies set once a login or a refresh yields a token pair: the access
/// token always, the refresh token when the provider issued one. Every one is
/// httpOnly, so no script in the page can read a token.
pub fn token_cookies(access_token: String, refresh_token: Option<String>, secure: bool) -> (v: Vec<
    SessionCookie,
>)
    ensures
        v.len() == (if refresh_token is Some { 2int } else { 1int }),
        token_cookie_of(v[0], access_cookie_name(), access_token@, secure),
        refresh_token matches Some(t) ==> token_cookie_of(v[1], refresh_cookie_name(), t@, secure),
        forall|i: int| 0 <= i < v.len() ==> (#[trigger] v[i]).http_only,
{
    let mut v: Vec<SessionCookie> = Vec::new();
    v.push(token_cookie("access_token", access_token, secure));
    proof {
        reveal_strlit("access_token");
    }
    if let Some(t) = refresh_token {
        v.push(token_cookie("refresh_token", t, secure));
        proof {
            reveal_strlit("refresh_token");
        }
    }
    v
}

/// The names and path of the cookies a logout removes: both tokens, at the
/// path they were set on.
pub fn cleared_cookies() -> (v: Vec<(String, String)>)
    ensures
        v.len() == 2,
        v[0].0@ == access_cookie_name() && v[0].1@ == "/"@,
        v[1].0@ == refresh_cookie_name() && v[1].1@ == "/"@,
{
    proof {
        reveal_strlit("access_token");
        reveal_strlit("refresh_token");
    }
    let mut v: Vec<(String, String)> = Vec::new();
    v.push((String::from_str("access_token"), String::from_str("/")));
    v.push((String::from_str("refresh_token"), String::from_str("/")));
    v
}

} // verus!
