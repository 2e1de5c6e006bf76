//! Combines the stored, requested and server safe-search levels into one.

use vstd::prelude::*;

verus! {

/// The strictest safe-search tier: only at this level is the local
/// blocklist consulted.
pub const STRICTEST_LEVEL: u8 = 4;

/// The lowest level that a request parameter is not trusted to set.
pub const FIRST_UNTRUSTED_REQUEST_LEVEL: u8 = 3;

/// The effective level: a level from the request is honoured only when it
/// relaxes filtering below the strict tiers, else the server's level wins;
/// without one the stored level, else the server's level.
pub open spec fn effective_level(stored: Option<u8>, requested: Option<u8>, server: u8) -> u8 {
    match requested {
        Some(level) => if level >= FIRST_UNTRUSTED_REQUEST_LEVEL {
            server
        } else {
            level
        },
        None => match stored {
            Some(level) => level,
            None => server,
        },
    }
}

/// Resolves the effective safe-search level of a request.
///
/// A level given in the request URL of 3 or more is replaced by the server
/// default: the URL may only relax filtering, never pick the strict tiers
/// past the server's policy. This asymmetry is deliberate.
pub fn get_safesearch_level(cookie_level: &Option<u8>, url_level: &Option<u8>, config_level: u8) -> (r: u8)
    ensures
        r == effective_level(*cookie_level, *url_level, config_level),
        url_level.is_some() && url_level.unwrap() >= 3 ==> r == config_level,
        url_level.is_some() && url_level.unwrap() < 3 ==> r == url_level.unwrap(),
        url_level.is_none() && cookie_level.is_some() ==> r == cookie_level.unwrap(),
        url_level.is_none() && cookie_level.is_none() ==> r == config_level,
{
    match url_level {
        Some(level) => {
            if *level >= FIRST_UNTRUSTED_REQUEST_LEVEL {
                config_level
            } else {
                *level
            }
        },
        None => match cookie_level {
            Some(level) => *level,
            None => config_level,
        },
    }
}

} // verus!
