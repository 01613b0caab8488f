//! Admission and routing policy for a multi-tenant, geohash-scoped message
//! relay.
//!
//! The relay partitions storage into isolated tenant scopes. A scope is either
//! the root partition or a named partition; named partitions are commonly
//! geographic grid cells identified by a geohash. This crate decides, for each
//! inbound message, whether it may be stored and into which scope, and whether
//! a reader may see stored messages or run a subscription query.

use vstd::prelude::*;

pub mod config;
pub mod decimal;
pub mod geohash_utils;
pub mod processor;
pub mod scope;

verus! {

/// Relies on `alloc::string::String::push`, whose documentation says it
/// appends the given `char` to the end of the string.
pub assume_specification[ String::push ](s: &mut String, ch: char)
    ensures
        final(s)@ == old(s)@.push(ch),
;

} // verus!
