//! The lines that tell what a run has done.

use crate::dnslinkers::{dnslink_value, link_value};
use crate::text::join;
use vstd::prelude::*;

verus! {

/// The line that tells that `path` was pinned as `hash`.
pub open spec fn pinned_line(path: Seq<char>, hash: Seq<char>) -> Seq<char> {
    "Pinned "@ + path + " with hash "@ + hash
}

/// The line that tells that the link to `hash` was published for `record`.
pub open spec fn linked_line(record: Seq<char>, hash: Seq<char>) -> Seq<char> {
    "Update dnslink record for "@ + record + " with "@ + link_value(hash)
}

/// The line that tells that `path` was pinned as `hash`.
pub fn report_pinned(path: &str, hash: &str) -> (r: String)
    ensures
        r@ == pinned_line(path@, hash@),
{
    join("Pinned ", path).concat(" with hash ").concat(hash)
}

/// The line that tells that the link to `hash` was published for `record`.
pub fn report_linked(record: &str, hash: &str) -> (r: String)
    ensures
        r@ == linked_line(record@, hash@),
{
    let value = dnslink_value(hash);
    join("Update dnslink record for ", record).concat(" with ").concat(value.as_str())
}

} // verus!
