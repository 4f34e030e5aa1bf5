//! Password Purgatory, which makes password rules hellish.
use vstd::prelude::*;

use crate::links::{url_with_param, with_param};

verus! {

/// The request for a password: the service's address with the password as
/// its `password` parameter, built by `url`; `None` when it cannot be built.
pub fn make_hell_url(password: &str) -> (r: Option<String>)
    ensures
        match r {
            Some(u) => url_with_param("https://api.passwordpurgatory.com/make-hell"@, "password"@, password@) == Some(u@),
            None => url_with_param("https://api.passwordpurgatory.com/make-hell"@, "password"@, password@) is None,
        },
{
    with_param("https://api.passwordpurgatory.com/make-hell", "password", password)
}

} // verus!
