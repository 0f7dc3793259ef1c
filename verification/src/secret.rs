//! The secret key that guards the connector: where it comes from and how a new
//! one is made.

use vstd::prelude::*;

use crate::ids;
use crate::text;

verus! {

/// The key that the environment provides: the variable's value without the
/// white space around it, unless nothing is left.
pub open spec fn configured_key(variable: Option<Seq<char>>) -> Option<Seq<char>> {
    match variable {
        Some(value) => if text::is_blank(value) {
            None
        } else {
            Some(text::trimmed(value))
        },
        None => None,
    }
}

/// The key that is there already, in the environment or in the settings. A blank
/// value counts as none.
pub open spec fn kept_key(variable: Option<Seq<char>>, stored: Option<Seq<char>>) -> Option<
    Seq<char>,
> {
    match (configured_key(variable), stored) {
        (Some(key), _) => Some(key),
        (None, Some(key)) if !text::is_blank(key) => Some(key),
        _ => None,
    }
}

/// The key made from a UUID.
pub open spec fn key_text(id: u128) -> Seq<char> {
    "calagopus_mcp_sec_"@ + ids::simple_text(id)
}

/// A key that a fresh random UUID can give.
pub open spec fn is_fresh_key(key: Seq<char>) -> bool {
    exists|id: u128| ids::is_random_uuid(id) && key == #[trigger] key_text(id)
}

/// The key in force, with where it comes from.
pub enum Secret {
    /// Provided by the environment.
    Configured(String),
    /// Read from the settings.
    Stored(String),
    /// Just made, and still to be written to the settings.
    Fresh(String),
}

impl Secret {
    pub open spec fn key(self) -> Seq<char> {
        match self {
            Secret::Configured(key) => key@,
            Secret::Stored(key) => key@,
            Secret::Fresh(key) => key@,
        }
    }

    /// The key itself.
    pub fn into_key(self) -> (res: String)
        ensures
            res@ == self.key(),
    {
        match self {
            Secret::Configured(key) => key,
            Secret::Stored(key) => key,
            Secret::Fresh(key) => key,
        }
    }
}

pub open spec fn text_view(s: Option<&str>) -> Option<Seq<char>> {
    match s {
        Some(s) => Some(s@),
        None => None,
    }
}

/// The key that the environment provides.
pub fn configured_secret(variable: Option<&str>) -> (res: Option<String>)
    ensures
        match res {
            Some(key) => configured_key(text_view(variable)) == Some(key@),
            None => configured_key(text_view(variable)) is None,
        },
{
    match variable {
        Some(value) => if text::blank(value) {
            None
        } else {
            Some(text::trim(value).to_string())
        },
        None => None,
    }
}

/// Settles on the key in force: the one the environment provides, else the one
/// in the settings as it stands there, else a new one. A blank value counts as
/// none.
pub fn get_or_generate_mcp_secret(variable: Option<&str>, stored: Option<&str>) -> (res: Secret)
    ensures
        match kept_key(text_view(variable), text_view(stored)) {
            Some(key) => res !is Fresh && res.key() == key,
            None => res is Fresh && is_fresh_key(res.key()),
        },
        res is Configured <==> configured_key(text_view(variable)) is Some,
{
    if let Some(key) = configured_secret(variable) {
        return Secret::Configured(key);
    }
    match stored {
        Some(key) => if text::blank(key) {
            Secret::Fresh(rotate_mcp_secret())
        } else {
            Secret::Stored(key.to_string())
        },
        None => Secret::Fresh(rotate_mcp_secret()),
    }
}

/// Makes a new key, to be written to the settings in place of the old one.
pub fn rotate_mcp_secret() -> (key: String)
    ensures
        is_fresh_key(key@),
{
    let id: u128 = ids::new_uuid();
    mcp_secret_from(id)
}

/// The key made from a UUID.
pub fn mcp_secret_from(id: u128) -> (key: String)
    ensures
        key@ == key_text(id),
{
    "calagopus_mcp_sec_".to_string().concat(ids::simple(id).as_str())
}

} // verus!
