//! Card supertypes (Basic, Legendary, Snow).
use crate::query_builder::{self, collection_url, resolution, Transport};
use crate::status::ErrorKind;
use std::collections::HashSet;
use vstd::prelude::*;

verus! {

/// Envelope of the list of names.
#[derive(Debug)]
pub struct RootAll {
    pub supertypes: HashSet<String>,
}

/// The request for every name: the collection URL of `supertypes`.
pub fn all() -> (url: String)
    ensures
        url@ == collection_url("supertypes"@),
{
    query_builder::all("supertypes")
}

/// What `all()` yields once the exchange is over: the names inside the
/// envelope, or the error of the exchange.
pub fn resolve_all(report: Transport, body: Option<RootAll>) -> (r: Result<
    HashSet<String>,
    ErrorKind,
>)
    ensures
        r == (match resolution(report, body) {
            Ok(root) => Ok::<HashSet<String>, ErrorKind>(root.supertypes),
            Err(e) => Err(e),
        }),
{
    match query_builder::build(report, body) {
        Ok(root) => Ok(root.supertypes),
        Err(e) => Err(e),
    }
}

} // verus!
