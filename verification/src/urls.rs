//! URLs, parsed and serialized by the `url` crate.
use vstd::prelude::*;

verus! {

/// Name for what parsing `text` with `url::Url::parse` gives: the serialization of the
/// parsed URL, or the text of the parse error.
pub uninterp spec fn url_parsed(text: Seq<char>) -> Result<Seq<char>, Seq<char>>;

/// Name for the serialization of the URL `url` after `set_username(user)`, `None` where
/// that call reports an error.
pub uninterp spec fn url_with_username(url: Seq<char>, user: Seq<char>) -> Option<Seq<char>>;

/// Name for the serialization of the URL `url` after `set_password(password)`, `None`
/// where that call reports an error.
pub uninterp spec fn url_with_password(url: Seq<char>, password: Option<Seq<char>>) -> Option<Seq<char>>;

/// Calls `url::Url::parse(text)`; gives the serialization of the URL or the text of the
/// error, as the names state.
#[verifier::external_body]
pub(crate) fn parse_url(text: &str) -> (r: Result<String, String>)
    ensures
        match r {
            Ok(u) => url_parsed(text@) == Ok::<Seq<char>, Seq<char>>(u@),
            Err(e) => url_parsed(text@) == Err::<Seq<char>, Seq<char>>(e@),
        },
{
    match url::Url::parse(text) {
        Ok(u) => Ok(u.to_string()),
        Err(e) => Err(e.to_string()),
    }
}

/// Calls `url::Url::set_username(user)` on the URL serialized as `url`, a serialization
/// that `parse_url` gave.
#[verifier::external_body]
pub(crate) fn set_url_username(url: &str, user: &str) -> (r: Option<String>)
    ensures
        match r {
            Some(u) => url_with_username(url@, user@) == Some(u@),
            None => url_with_username(url@, user@) is None,
        },
{
    match url::Url::parse(url) {
        Ok(mut u) => match u.set_username(user) {
            Ok(()) => Some(u.to_string()),
            Err(()) => None,
        },
        Err(_) => None,
    }
}

/// Calls `url::Url::set_password(password)` on the URL serialized as `url`, a
/// serialization that `parse_url` gave.
#[verifier::external_body]
pub(crate) fn set_url_password(url: &str, password: Option<&str>) -> (r: Option<String>)
    ensures
        match r {
            Some(u) => url_with_password(
                url@,
                match password {
                    Some(p) => Some(p@),
                    None => None,
                },
            ) == Some(u@),
            None => url_with_password(
                url@,
                match password {
                    Some(p) => Some(p@),
                    None => None,
                },
            ) is None,
        },
{
    match url::Url::parse(url) {
        Ok(mut u) => match u.set_password(password) {
            Ok(()) => Some(u.to_string()),
            Err(()) => None,
        },
        Err(_) => None,
    }
}


/// Name for the serialization of the URL that `url::Url::join(input)` gives on the URL
/// serialized as `base`, or the text of its error.
pub uninterp spec fn url_joined(base: Seq<char>, input: Seq<char>) -> Result<Seq<char>, Seq<char>>;

/// Calls `url::Url::join(input)` on the URL serialized as `base`, a serialization that
/// `parse_url` gave; the result is the one that the name states.
#[verifier::external_body]
pub(crate) fn join_url(base: &str, input: &str) -> (r: Result<String, String>)
    ensures
        match r {
            Ok(u) => url_joined(base@, input@) == Ok::<Seq<char>, Seq<char>>(u@),
            Err(e) => url_joined(base@, input@) == Err::<Seq<char>, Seq<char>>(e@),
        },
{
    match url::Url::parse(base) {
        Ok(u) => match u.join(input) {
            Ok(j) => Ok(j.to_string()),
            Err(e) => Err(e.to_string()),
        },
        Err(e) => Err(e.to_string()),
    }
}


/// Name for the serialization of the URL serialized as `url` after appending the query
/// pair `key`=`value` (`query_pairs_mut().append_pair`), `None` where `url` does not parse.
pub uninterp spec fn url_with_pair(url: Seq<char>, key: Seq<char>, value: Seq<char>) -> Option<Seq<char>>;

/// Calls `url::Url::query_pairs_mut().append_pair(key, value)` on the URL serialized as
/// `url`; the result is the one that the name states.
#[verifier::external_body]
pub(crate) fn append_query_pair(url: &str, key: &str, value: &str) -> (r: Option<String>)
    ensures
        match r {
            Some(u) => url_with_pair(url@, key@, value@) == Some(u@),
            None => url_with_pair(url@, key@, value@) is None,
        },
{
    match url::Url::parse(url) {
        Ok(mut u) => {
            u.query_pairs_mut().append_pair(key, value);
            Some(u.to_string())
        },
        Err(_) => None,
    }
}

} // verus!
