//! What the HTTP layer decides on its own: where a browser is sent after
//! login, how a download is named, which credential a request carries, which
//! multipart field is an upload, the profile shown to a user and the version
//! the API advertises.

use vstd::prelude::*;
use vstd::string::*;

use crate::level::{level_named, parse_level, PermissionLevel};
use crate::error::{CoreError, ErrorView};
use crate::file::Upload;
use crate::models::{File, User};
use crate::text::{chars_of, has_prefix, push_char, same_text, starts_with, string_from_range, trim, trimmed, uuid_string, uuid_text};

verus! {

/// `s` without the slashes it ends with.
pub open spec fn without_trailing_slashes(s: Seq<char>) -> Seq<char>
    decreases s.len(),
{
    if s.len() > 0 && s.last() == '/' {
        without_trailing_slashes(s.drop_last())
    } else {
        s
    }
}

/// Where a browser is sent after login: the same-origin path it asked for,
/// under the frontend origin, or the frontend itself.
pub open spec fn redirect_target(frontend_url: Seq<char>, redirect: Option<Seq<char>>) -> Seq<char> {
    match redirect {
        Some(path) => if has_prefix(path, seq!['/']) {
            without_trailing_slashes(frontend_url) + path
        } else {
            frontend_url
        },
        None => frontend_url,
    }
}

/// Resolves the post-login redirect against the frontend origin. Only
/// same-origin paths (starting with `/`) are honoured, to avoid open
/// redirects.
pub fn frontend_target(frontend_url: &str, redirect: Option<&str>) -> (target: String)
    ensures
        target@ == redirect_target(
            frontend_url@,
            match redirect {
                Some(p) => Some(p@),
                None => None,
            },
        ),
{
    proof {
        reveal_strlit("/");
        assert("/"@ =~= seq!['/']);
    }
    match redirect {
        Some(path) if starts_with(path, "/") => {
            let c = chars_of(frontend_url);
            let mut end = c.len();
            assert(c@.subrange(0, end as int) =~= c@);
            while end > 0 && c[end - 1] == '/'
                invariant
                    c@ == frontend_url@,
                    has_prefix(path@, seq!['/']),
                    end <= c@.len(),
                    without_trailing_slashes(frontend_url@) == without_trailing_slashes(
                        c@.subrange(0, end as int),
                    ),
                decreases end,
            {
                assert(c@.subrange(0, end as int).drop_last() =~= c@.subrange(0, end - 1));
                end = end - 1;
            }
            assert(without_trailing_slashes(c@.subrange(0, end as int)) == c@.subrange(0, end as int));
            let mut target = string_from_range(&c, 0, end);
            target.append(path);
            target
        },
        _ => String::from_str(frontend_url),
    }
}

proof fn lemma_without_trailing_slashes_is_prefix(s: Seq<char>)
    ensures
        has_prefix(s, without_trailing_slashes(s)),
    decreases s.len(),
{
    if s.len() > 0 && s.last() == '/' {
        lemma_without_trailing_slashes_is_prefix(s.drop_last());
        let w = without_trailing_slashes(s.drop_last());
        assert(s.subrange(0, w.len() as int) =~= s.drop_last().subrange(0, w.len() as int));
    } else {
        assert(s.subrange(0, s.len() as int) =~= s);
    }
}

/// A login never sends the browser off the frontend's origin: wherever it is
/// sent begins with the frontend URL, trailing slashes aside.
pub proof fn law_a_redirect_stays_on_the_frontend(
    frontend_url: Seq<char>,
    redirect: Option<Seq<char>>,
)
    ensures
        has_prefix(
            redirect_target(frontend_url, redirect),
            without_trailing_slashes(frontend_url),
        ),
{
    lemma_without_trailing_slashes_is_prefix(frontend_url);
    let w = without_trailing_slashes(frontend_url);
    let t = redirect_target(frontend_url, redirect);
    if t != frontend_url {
        assert(t.subrange(0, w.len() as int) =~= w);
    }
}

/// Unicode control characters (general category `Cc`), as
/// `char::is_control` defines them.
pub open spec fn is_control(c: char) -> bool {
    (c as u32) <= 0x1f || (0x7f <= (c as u32) && (c as u32) <= 0x9f)
}

/// Whether a character may stand inside the quoted file name of a
/// `Content-Disposition` header.
pub open spec fn kept_in_header(c: char) -> bool {
    c != '"' && c != '\\' && !is_control(c)
}

/// `name` without the characters that could end the quoted string early.
pub open spec fn sanitized(name: Seq<char>) -> Seq<char>
    decreases name.len(),
{
    if name.len() == 0 {
        seq![]
    } else if kept_in_header(name.last()) {
        sanitized(name.drop_last()).push(name.last())
    } else {
        sanitized(name.drop_last())
    }
}

/// The `Content-Disposition` header of a download.
pub open spec fn disposition(name: Seq<char>) -> Seq<char> {
    "attachment; filename=\""@ + sanitized(name) + "\""@
}

/// Quotes the stored name for `Content-Disposition`. A double quote or a
/// backslash inside it would end the quoted string early, so both are dropped
/// rather than escaped, along with control characters: this header has no
/// reliable escaping across clients.
pub fn content_disposition(name: &str) -> (header: String)
    ensures
        header@ == disposition(name@),
{
    let c = chars_of(name);
    let mut header = String::from_str("attachment; filename=\"");
    let ghost start = header@;
    let mut i: usize = 0;
    while i < c.len()
        invariant
            c@ == name@,
            i <= c@.len(),
            start == "attachment; filename=\""@,
            header@ == start + sanitized(c@.subrange(0, i as int)),
        decreases c@.len() - i,
    {
        let ch = c[i];
        assert(c@.subrange(0, i + 1).drop_last() =~= c@.subrange(0, i as int));
        let n = ch as u32;
        if ch != '"' && ch != '\\' && !(n <= 0x1f || (0x7f <= n && n <= 0x9f)) {
            push_char(&mut header, ch);
        }
        i = i + 1;
    }
    assert(c@.subrange(0, c@.len() as int) =~= c@);
    header.append("\"");
    header
}

/// A quoted download name can never be broken out of: it holds no quote, no
/// backslash and no control character.
pub proof fn law_a_sanitized_name_cannot_end_the_quote(name: Seq<char>)
    ensures
        forall|i: int| 0 <= i < sanitized(name).len() ==> kept_in_header(#[trigger] sanitized(name)[i]),
    decreases name.len(),
{
    if name.len() > 0 {
        law_a_sanitized_name_cannot_end_the_quote(name.drop_last());
        let prev = sanitized(name.drop_last());
        assert forall|i: int| 0 <= i < sanitized(name).len() implies kept_in_header(
            #[trigger] sanitized(name)[i],
        ) by {
            if i < prev.len() {
                assert(sanitized(name)[i] == prev[i]);
            }
        }
    }
}

/// Whether a character is a double quote, a backslash or a Unicode control
/// character (`Cc`: U+0000 to U+001F and U+007F to U+009F), as a number.
pub open spec fn quote_breaking(c: char) -> bool {
    c == '"' || c == '\\' || (c as u32) <= 0x1f || (0x7f <= (c as u32) && (c as u32) <= 0x9f)
}

/// Sanitizing a download name drops exactly the double quotes, backslashes
/// and control characters, and keeps every other character, spaces included,
/// in order.
pub proof fn law_sanitizing_drops_only_what_ends_the_quote(name: Seq<char>)
    ensures
        sanitized(name) == name.filter(|c: char| !quote_breaking(c)),
    decreases name.len(),
{
    reveal(Seq::filter);
    if name.len() > 0 {
        law_sanitizing_drops_only_what_ends_the_quote(name.drop_last());
    }
}

/// A name holding no double quote, backslash or control character is quoted
/// unchanged: the header is `attachment; filename="` + the name + `"`.
pub proof fn law_a_plain_name_is_quoted_as_it_is(name: Seq<char>)
    requires
        forall|i: int| 0 <= i < name.len() ==> !quote_breaking(#[trigger] name[i]),
    ensures
        sanitized(name) == name,
        disposition(name) == "attachment; filename=\""@ + name + "\""@,
    decreases name.len(),
{
    if name.len() > 0 {
        let rest = name.drop_last();
        assert forall|i: int| 0 <= i < rest.len() implies !quote_breaking(#[trigger] rest[i]) by {
            assert(rest[i] == name[i]);
        }
        law_a_plain_name_is_quoted_as_it_is(rest);
        assert(!quote_breaking(name[name.len() - 1]));
        assert(rest.push(name.last()) =~= name);
    } else {
        assert(sanitized(name) =~= name);
    }
}

/// The credential a request carries: the `Authorization` header, with an
/// optional `Bearer ` prefix removed, else the `access_token` cookie.
pub open spec fn carried_token(authorization: Option<Seq<char>>, access_cookie: Option<Seq<char>>) -> Option<
    Seq<char>,
> {
    match authorization {
        Some(raw) => if has_prefix(raw, "Bearer "@) {
            Some(raw.subrange(7, raw.len() as int))
        } else {
            Some(raw)
        },
        None => access_cookie,
    }
}

/// The view of an optional text.
pub open spec fn optional_text(s: Option<&str>) -> Option<Seq<char>> {
    match s {
        Some(t) => Some(t@),
        None => None,
    }
}

/// Extracts the bearer or API-key token from the `Authorization` header,
/// falling back to the `access_token` cookie set by the login flow.
pub fn extract_token(authorization: Option<&str>, access_cookie: Option<&str>) -> (token: Option<
    String,
>)
    ensures
        match token {
            Some(t) => carried_token(optional_text(authorization), optional_text(access_cookie))
                == Some(t@),
            None => carried_token(optional_text(authorization), optional_text(access_cookie))
                is None,
        },
{
    match authorization {
        Some(raw) => {
            if starts_with(raw, "Bearer ") {
                proof {
                    reveal_strlit("Bearer ");
                }
                let c = chars_of(raw);
                Some(string_from_range(&c, 7, c.len()))
            } else {
                Some(String::from_str(raw))
            }
        },
        None => match access_cookie {
            Some(cookie) => Some(String::from_str(cookie)),
            None => None,
        },
    }
}

/// The version the API advertises, in order of preference: the one fixed at
/// build time, the current git tag, the git short hash, the package version.
pub open spec fn chosen_version(
    compiled: Option<Seq<char>>,
    git_tag: Option<Seq<char>>,
    git_hash: Option<Seq<char>>,
    package_version: Seq<char>,
) -> Seq<char> {
    match compiled {
        Some(v) => v,
        None => if git_tag is Some && trimmed(git_tag->Some_0).len() > 0 {
            trimmed(git_tag->Some_0)
        } else if git_hash is Some && trimmed(git_hash->Some_0).len() > 0 {
            trimmed(git_hash->Some_0)
        } else {
            package_version
        },
    }
}

/// Chooses the version the API advertises. `git_tag` and `git_hash` are what
/// `git describe --tags --exact-match` and `git rev-parse --short HEAD`
/// printed when they succeeded; blank output is skipped.
pub fn resolve_api_version(
    compiled: Option<&str>,
    git_tag: Option<&str>,
    git_hash: Option<&str>,
    package_version: &str,
) -> (version: String)
    ensures
        version@ == chosen_version(
            optional_text(compiled),
            optional_text(git_tag),
            optional_text(git_hash),
            package_version@,
        ),
{
    if let Some(v) = compiled {
        return String::from_str(v);
    }
    if let Some(tag) = git_tag {
        let tag = trim(tag);
        if tag.as_str().unicode_len() > 0 {
            return tag;
        }
    }
    if let Some(hash) = git_hash {
        let hash = trim(hash);
        if hash.as_str().unicode_len() > 0 {
            return hash;
        }
    }
    String::from_str(package_version)
}

/// The authenticated user's profile: identity from the identity provider,
/// display name from the locally stored row.
#[derive(Debug)]
pub struct GetMeResponse {
    /// The subject the provider identifies the user by.
    pub id: String,
    /// Given name, owned by the user.
    pub first_name: String,
    /// Family name, owned by the user.
    pub last_name: String,
    /// Email address, owned by the identity provider.
    pub email: String,
    /// Application role. Not modelled yet: always `USER`.
    pub role: String,
    /// Team the user belongs to. Not modelled yet: always empty.
    pub team_id: String,
    /// First login, as a Unix timestamp in milliseconds; `0` until the user is
    /// registered locally.
    pub created_at: i64,
}

impl GetMeResponse {
    /// Maps the provider's identity claims onto the profile shape.
    pub fn from_userinfo(subject: u128, given_name: &str, family_name: &str, email: &str) -> (r:
        GetMeResponse)
        ensures
            r.id@ == uuid_text(subject),
            r.first_name@ == given_name@,
            r.last_name@ == family_name@,
            r.email@ == email@,
            r.role@ == "USER"@,
            r.team_id@ == Seq::<char>::empty(),
            r.created_at == 0,
    {
        GetMeResponse {
            id: uuid_string(subject),
            first_name: String::from_str(given_name),
            last_name: String::from_str(family_name),
            email: String::from_str(email),
            role: String::from_str("USER"),
            team_id: String::new(),
            created_at: 0,
        }
    }

    /// Overlays the fields the local row owns onto the provider's claims.
    pub fn with_profile(self, user: &User) -> (r: GetMeResponse)
        ensures
            r.first_name@ == user.first_name@,
            r.last_name@ == user.last_name@,
            r.created_at == user.created_at,
            r.id == self.id,
            r.email == self.email,
            r.role == self.role,
            r.team_id == self.team_id,
    {
        let mut me = self;
        me.first_name = user.first_name.clone();
        me.last_name = user.last_name.clone();
        me.created_at = user.created_at;
        me
    }
}

/// The level a listed grant is shown at. A stored level that does not parse
/// is shown at its least privileged reading rather than dropped, so a manager
/// still sees the grant exists.
pub fn shown_level(stored: &str) -> (level: PermissionLevel)
    ensures
        level == match level_named(stored@) {
            Some(l) => l,
            None => PermissionLevel::Viewer,
        },
{
    match parse_level(stored) {
        Ok(level) => level,
        Err(_) => PermissionLevel::Viewer,
    }
}

/// Whether a multipart field is the one that carries an upload: the field
/// named `file`. The others are skipped.
pub fn carries_upload(field_name: Option<&str>) -> (r: bool)
    ensures
        r == (field_name matches Some(n) && n@ == "file"@),
{
    match field_name {
        Some(n) => same_text(n, "file"),
        None => false,
    }
}

/// The refusal for a multipart body that carries no upload.
pub open spec fn no_upload_field() -> ErrorView {
    ErrorView::InvalidRequest("the multipart body carries no `file` field"@)
}

/// Whether a field name is the one that carries an upload.
pub open spec fn upload_name(name: Option<String>) -> bool {
    name matches Some(n) && n@ == "file"@
}

/// Picks the field that carries the upload among the names of a multipart
/// body's fields, in their order: the first one named `file`.
pub fn upload_field(names: &Vec<Option<String>>) -> (r: Result<usize, CoreError>)
    ensures
        match r {
            Ok(i) => i < names@.len() && upload_name(names@[i as int]) && forall|j: int|
                0 <= j < i ==> !upload_name(#[trigger] names@[j]),
            Err(e) => e@ == no_upload_field() && forall|j: int|
                0 <= j < names@.len() ==> !upload_name(#[trigger] names@[j]),
        },
{
    let mut i: usize = 0;
    while i < names.len()
        invariant
            i <= names@.len(),
            forall|j: int| 0 <= j < i ==> !upload_name(#[trigger] names@[j]),
        decreases names@.len() - i,
    {
        let found = match &names[i] {
            Some(n) => carries_upload(Some(n.as_str())),
            None => false,
        };
        if found {
            return Ok(i);
        }
        i = i + 1;
    }
    Err(CoreError::InvalidRequest(String::from_str("the multipart body carries no `file` field")))
}

/// The upload a multipart field carries: its file name, empty when it has
/// none; its declared content type, `application/octet-stream` when it
/// declares none; and its bytes.
pub fn upload_from_field(file_name: Option<&str>, content_type: Option<&str>, content: Vec<u8>) -> (u:
    Upload)
    ensures
        u.name@ == (match file_name {
            Some(n) => n@,
            None => Seq::<char>::empty(),
        }),
        u.mime_type@ == (match content_type {
            Some(t) => t@,
            None => "application/octet-stream"@,
        }),
        u.content@ == content@,
{
    let name = match file_name {
        Some(n) => String::from_str(n),
        None => String::new(),
    };
    let mime_type = match content_type {
        Some(t) => String::from_str(t),
        None => String::from_str("application/octet-stream"),
    };
    Upload { name, mime_type, content }
}

/// Whether a thumbnail can be fetched for a file.
pub fn has_thumbnail(file: &File) -> (r: bool)
    ensures
        r == file.thumbnail_storage_key is Some,
{
    file.thumbnail_storage_key.is_some()
}

} // verus!
