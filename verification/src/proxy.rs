//! The HTTP proxy through which the server is reached, as a URL.
//!
//! A URL is kept as its text. Reading and changing one is the work of the
//! `url` crate; what it makes of a text has a name here and no definition.

use url::ParseError;
use url::Url;
use vstd::prelude::*;
use vstd::string::StringExecFns;
use vstd::utf8::encode_utf8;
use crate::error::ConfigError;
use crate::text::{starts_with, text_of};

verus! {

#[verifier::external_type_specification]
#[verifier::external_body]
pub struct ExParseError(url::ParseError);

/// The URL that a text is read as, in its canonical writing, if the text is
/// a URL at all.
pub uninterp spec fn url_parse(input: Seq<char>) -> Option<Seq<char>>;

/// A URL with its user name replaced, if the URL can carry a user name.
pub uninterp spec fn url_with_username(url: Seq<char>, username: Seq<char>) -> Option<Seq<char>>;

/// A URL with its password replaced, if the URL can carry a password.
pub uninterp spec fn url_with_password(url: Seq<char>, password: Seq<char>) -> Option<Seq<char>>;

/// Beyond this many bytes a URL, a login or a password is not worked on:
/// the offsets inside a URL are 32-bit numbers.
pub const MAX_URL_PART_BYTES: usize = 0x0fff_ffff;

/// The URL and what is to be written into it are short enough to be worked
/// on.
pub open spec fn fits(url: Seq<char>, part: Seq<char>) -> bool {
    encode_utf8(url).len() <= MAX_URL_PART_BYTES && encode_utf8(part).len() <= MAX_URL_PART_BYTES
}

/// Reads a text as a URL, by `url::Url::parse`, and hands out the URL as
/// text.
///
/// Trusted, not proved: what comes back depends on the text alone.
#[verifier::external_body]
pub(crate) fn parse_url(input: &str) -> (r: Result<String, ParseError>)
    ensures
        match r {
            Ok(url) => url_parse(input@) == Some(url@),
            Err(_) => url_parse(input@) is None,
        },
{
    match Url::parse(input) {
        Ok(url) => Ok(String::from(url)),
        Err(error) => Err(error),
    }
}

/// Replaces the user name of a URL, by `url::Url::set_username` on the URL
/// that the text is read as, and hands out the changed URL as text.
///
/// Trusted, not proved: what comes back depends on the two texts alone.
/// The bound keeps the changed URL well within the 32 bits of the offsets
/// that the call works with: a URL may grow when it is read, and each byte
/// of the user name may take three.
#[verifier::external_body]
fn set_url_username(url: &str, username: &str) -> (r: Option<String>)
    requires
        fits(url@, username@),
    ensures
        match r {
            Some(changed) => url_with_username(url@, username@) == Some(changed@),
            None => url_with_username(url@, username@) is None,
        },
{
    let mut parsed = Url::parse(url).ok()?;
    parsed.set_username(username).ok()?;
    Some(String::from(parsed))
}

/// Replaces the password of a URL, by `url::Url::set_password` on the URL
/// that the text is read as, and hands out the changed URL as text.
///
/// Trusted, not proved: what comes back depends on the two texts alone.
/// The bound keeps the changed URL well within the 32 bits of the offsets
/// that the call works with: a URL may grow when it is read, and each byte
/// of the password may take three.
#[verifier::external_body]
fn set_url_password(url: &str, password: &str) -> (r: Option<String>)
    requires
        fits(url@, password@),
    ensures
        match r {
            Some(changed) => url_with_password(url@, password@) == Some(changed@),
            None => url_with_password(url@, password@) is None,
        },
{
    let mut parsed = Url::parse(url).ok()?;
    parsed.set_password(Some(password)).ok()?;
    Some(String::from(parsed))
}

/// The scheme that a proxy address is given when it names none.
pub open spec fn http_prefix() -> Seq<char> {
    seq!['h', 't', 't', 'p', ':', '/', '/']
}

/// The text that a proxy address is read from: the address itself where it
/// begins with `http://`, else the address behind `http://`.
pub open spec fn proxy_text(proxy: Seq<char>) -> Seq<char> {
    if http_prefix().is_prefix_of(proxy) {
        proxy
    } else {
        http_prefix() + proxy
    }
}

/// Puts `http://` before a proxy address that does not begin with it.
pub fn proxy_url_text(proxy: String) -> (r: String)
    ensures
        r@ == proxy_text(proxy@),
{
    proof {
        reveal_strlit("http://");
    }
    if starts_with(proxy.as_str(), "http://") {
        proxy
    } else {
        String::from_str("http://").concat(proxy.as_str())
    }
}

/// A URL with a login written into it, if one is given. A login or URL too
/// long to be worked on cannot be written.
pub open spec fn with_login(url: Seq<char>, login: Option<Seq<char>>) -> Option<Seq<char>> {
    match login {
        None => Some(url),
        Some(login) => if fits(url, login) {
            url_with_username(url, login)
        } else {
            None
        },
    }
}

/// A URL with a password written into it, if one is given. A password or URL
/// too long to be worked on cannot be written.
pub open spec fn with_password(url: Seq<char>, password: Option<Seq<char>>) -> Option<Seq<char>> {
    match password {
        None => Some(url),
        Some(password) => if fits(url, password) {
            url_with_password(url, password)
        } else {
            None
        },
    }
}

/// What becomes of a proxy address once it is read: the URL with the login
/// and then the password written into it, or the first thing that went
/// wrong.
pub open spec fn finish_proxy(
    parsed: Option<Seq<char>>,
    login: Option<Seq<char>>,
    password: Option<Seq<char>>,
) -> Result<Seq<char>, ConfigError> {
    match parsed {
        None => Err(ConfigError::InvalidProxyUrl),
        Some(url) => match with_login(url, login) {
            None => Err(ConfigError::CannotSetProxyLogin),
            Some(named) => match with_password(named, password) {
                None => Err(ConfigError::CannotSetProxyPassword),
                Some(complete) => Ok(complete),
            },
        },
    }
}

/// The URL of the proxy that a configuration asks for, if it asks for one.
pub open spec fn proxy_url_of(
    proxy: Option<Seq<char>>,
    login: Option<Seq<char>>,
    password: Option<Seq<char>>,
) -> Result<Option<Seq<char>>, ConfigError> {
    match proxy {
        None => Ok(None),
        Some(address) => match finish_proxy(url_parse(proxy_text(address)), login, password) {
            Ok(url) => Ok(Some(url)),
            Err(error) => Err(error),
        },
    }
}

/// Writes a login into a URL.
fn apply_login(url: String, login: Option<String>) -> (r: Option<String>)
    ensures
        text_of(r) == with_login(url@, text_of(login)),
{
    match login {
        None => Some(url),
        Some(login) => {
            if url.as_str().as_bytes().len() <= MAX_URL_PART_BYTES
                && login.as_str().as_bytes().len() <= MAX_URL_PART_BYTES {
                set_url_username(url.as_str(), login.as_str())
            } else {
                None
            }
        },
    }
}

/// Writes a password into a URL.
fn apply_password(url: String, password: Option<String>) -> (r: Option<String>)
    ensures
        text_of(r) == with_password(url@, text_of(password)),
{
    match password {
        None => Some(url),
        Some(password) => {
            if url.as_str().as_bytes().len() <= MAX_URL_PART_BYTES
                && password.as_str().as_bytes().len() <= MAX_URL_PART_BYTES {
                set_url_password(url.as_str(), password.as_str())
            } else {
                None
            }
        },
    }
}

/// Completes the URL of a proxy from what came of reading its address: the
/// login is written into it, then the password. A read that failed, a login
/// that cannot be written and a password that cannot be written each have
/// their own error.
pub fn complete_proxy_url(
    parsed: Option<String>,
    login: Option<String>,
    password: Option<String>,
) -> (r: Result<String, ConfigError>)
    ensures
        match finish_proxy(text_of(parsed), text_of(login), text_of(password)) {
            Ok(url) => r matches Ok(text) && text@ == url,
            Err(error) => r matches Err(e) && e == error,
        },
{
    let url = match parsed {
        None => { return Err(ConfigError::InvalidProxyUrl); },
        Some(url) => url,
    };
    let named = match apply_login(url, login) {
        None => { return Err(ConfigError::CannotSetProxyLogin); },
        Some(named) => named,
    };
    match apply_password(named, password) {
        None => Err(ConfigError::CannotSetProxyPassword),
        Some(complete) => Ok(complete),
    }
}

} // verus!
