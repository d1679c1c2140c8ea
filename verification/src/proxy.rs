//! Passing a request on to another server: which methods are passed on.

use vstd::prelude::*;
use crate::strings::{followed_by, same_text};

verus! {

/// The methods that are passed on.
#[derive(Clone, Copy, PartialEq, Eq, Debug, Structural)]
pub enum ProxyMethod {
    /// A request without a body.
    Get,
    /// A request that may carry a body.
    Post,
}

/// `text` in upper case, as the standard library makes it.
pub uninterp spec fn uppercase_of(text: Seq<char>) -> Seq<char>;

/// `str::to_uppercase`: the upper-case equivalent of `text`. It goes by the
/// characters of `text` alone, so the result is the value that
/// `uppercase_of` names; nothing else is claimed of it.
#[verifier::external_body]
pub(crate) fn to_uppercase(text: &str) -> (upper: String)
    ensures
        upper@ == uppercase_of(text@),
{
    text.to_uppercase()
}

/// The method that a name in upper case stands for, if it is passed on.
pub open spec fn method_named(upper: Seq<char>) -> Option<ProxyMethod> {
    if upper == "GET"@ {
        Some(ProxyMethod::Get)
    } else if upper == "POST"@ {
        Some(ProxyMethod::Post)
    } else {
        None
    }
}

/// The message for a method that is not passed on.
pub open spec fn unsupported_text(method: Seq<char>) -> Seq<char> {
    "Unsupported method: "@ + method
}

/// The method that a name in upper case stands for, if it is passed on.
pub fn method_of(upper: &str) -> (method: Option<ProxyMethod>)
    ensures
        method == method_named(upper@),
{
    if same_text(upper, "GET") {
        Some(ProxyMethod::Get)
    } else if same_text(upper, "POST") {
        Some(ProxyMethod::Post)
    } else {
        None
    }
}

/// The method that `method` names, in whatever case it is written; for any
/// other name, the message that says so.
pub fn proxy_method(method: &str) -> (chosen: Result<ProxyMethod, String>)
    ensures
        match chosen {
            Ok(found) => method_named(uppercase_of(method@)) == Some(found),
            Err(message) => method_named(uppercase_of(method@)) is None && message@
                == unsupported_text(method@),
        },
{
    let upper = to_uppercase(method);
    match method_of(upper.as_str()) {
        Some(found) => Ok(found),
        None => Err(followed_by("Unsupported method: ", method)),
    }
}

} // verus!
