//! Infura's IPFS gateway: an upload is answered entry by entry.

use crate::pinners::{PinError, Pinner};
use crate::text::same_text;
use std::path::Path;
use vstd::prelude::*;

verus! {

/// Infura's IPFS gateway. It asks for no credentials.
#[derive(Clone, Copy, Debug, PartialEq, Eq, Structural)]
pub struct Infura {}

impl Default for Infura {
    fn default() -> (r: Infura)
        ensures
            r == (Infura {  }),
    {
        Infura {  }
    }
}

/// Where Infura's gateway listens.
pub const ENDPOINT: &'static str = "https://ipfs.infura.io:5001";

/// One entry of the answer to an upload: a file or directory that was
/// added, by the name the service reports, with its content identifier.
#[derive(Debug, PartialEq, Eq)]
pub struct AddedEntry {
    pub name: String,
    pub hash: String,
}

/// An [`AddedEntry`] over texts.
pub struct AddedEntryView {
    pub name: Seq<char>,
    pub hash: Seq<char>,
}

impl View for AddedEntry {
    type V = AddedEntryView;

    open spec fn view(&self) -> AddedEntryView {
        AddedEntryView { name: self.name@, hash: self.hash@ }
    }
}

/// The views of a sequence of entries.
pub open spec fn entry_views(entries: Seq<AddedEntry>) -> Seq<AddedEntryView> {
    entries.map_values(|entry: AddedEntry| entry@)
}

/// The test that an entry is reported under `name`.
pub open spec fn reported_as(name: Seq<char>) -> spec_fn(AddedEntryView) -> bool {
    |entry: AddedEntryView| entry.name == name
}

/// The content identifier of the root among `entries`: that of the first
/// entry reported under `basename`.
pub open spec fn root_hash(entries: Seq<AddedEntryView>, basename: Seq<char>) -> Option<
    Seq<char>,
> {
    let roots = entries.filter(reported_as(basename));
    if roots.len() == 0 {
        None
    } else {
        Some(roots[0].hash)
    }
}

/// The final component of `path` as `std::path::Path::file_name` tells it
/// on the platform that the crate is built for; `None` where the path has
/// none, as when it ends in `..` or is a root.
pub uninterp spec fn file_name(path: Seq<char>) -> Option<Seq<char>>;

/// Calls `std::path::Path::file_name` on `path` and hands the component
/// back as text. Trusted, not proved: the contract names the result
/// [`file_name`] and so claims that it depends on the path's text alone; it
/// claims nothing of which text it is.
#[verifier::external_body]
fn final_component(path: &str) -> (r: Option<String>)
    ensures
        match r {
            Some(name) => file_name(path@) == Some(name@),
            None => file_name(path@) is None,
        },
{
    match Path::new(path).file_name() {
        Some(name) => name.to_str().map(String::from),
        None => None,
    }
}

/// The content identifier of the first of `entries` that is reported
/// under `basename`, if there is one.
pub fn find_root(entries: &Vec<AddedEntry>, basename: &str) -> (r: Option<String>)
    ensures
        match r {
            Some(hash) => root_hash(entry_views(entries@), basename@) == Some(hash@),
            None => root_hash(entry_views(entries@), basename@) is None,
        },
{
    let ghost all = entry_views(entries@);
    let ghost test = reported_as(basename@);
    proof {
        reveal(Seq::filter);
        assert(all.take(0).filter(test) =~= Seq::empty());
    }
    for i in 0..entries.len()
        invariant
            all == entry_views(entries@),
            test == reported_as(basename@),
            all.take(i as int).filter(test).len() == 0,
    {
        proof {
            all.take(i as int).lemma_filter_push(all[i as int], test);
            assert(all.take(i as int).push(all[i as int]) =~= all.take(i + 1));
        }
        if same_text(entries[i].name.as_str(), basename) {
            proof {
                let upto = all.take(i + 1);
                let rest = all.skip(i + 1);
                assert(all =~= upto + rest);
                Seq::filter_distributes_over_add(upto, rest, test);
                assert(upto.filter(test) =~= seq![all[i as int]]);
            }
            return Some(entries[i].hash.clone());
        }
    }
    assert(all.take(entries.len() as int) =~= all);
    None
}

/// Where an entry is reported under `basename`, the root's content
/// identifier is that of the first such entry.
pub proof fn law_root_found(entries: Seq<AddedEntryView>, basename: Seq<char>, at: int)
    requires
        0 <= at < entries.len(),
        entries[at].name == basename,
        forall|i: int| 0 <= i < at ==> entries[i].name != basename,
    ensures
        root_hash(entries, basename) == Some(entries[at].hash),
{
    let test = reported_as(basename);
    let before = entries.take(at);
    let after = entries.skip(at + 1);
    lemma_none_reported(before, basename);
    before.lemma_filter_push(entries[at], test);
    assert(entries =~= before.push(entries[at]) + after);
    Seq::filter_distributes_over_add(before.push(entries[at]), after, test);
}

/// Where no entry is reported under `basename`, there is no root.
pub proof fn law_root_missing(entries: Seq<AddedEntryView>, basename: Seq<char>)
    requires
        forall|i: int| 0 <= i < entries.len() ==> entries[i].name != basename,
    ensures
        root_hash(entries, basename) is None,
{
    lemma_none_reported(entries, basename);
}

/// Entries of which none is reported under `basename` leave nothing behind
/// the test for it.
proof fn lemma_none_reported(entries: Seq<AddedEntryView>, basename: Seq<char>)
    requires
        forall|i: int| 0 <= i < entries.len() ==> entries[i].name != basename,
    ensures
        entries.filter(reported_as(basename)).len() == 0,
    decreases entries.len(),
{
    reveal(Seq::filter);
    if entries.len() > 0 {
        lemma_none_reported(entries.drop_last(), basename);
    }
}

impl Pinner for Infura {
    type Answer = Vec<AddedEntry>;

    /// The gateway answers with an entry for each file and directory that
    /// it added. The upload's identifier is that of the entry named as the
    /// path's final component.
    open spec fn identifier(&self, path: Seq<char>, answer: Vec<AddedEntry>) -> Option<Seq<char>> {
        match file_name(path) {
            Some(basename) => root_hash(entry_views(answer@), basename),
            None => None,
        }
    }

    fn pin_path(&self, path: &str, outcome: Result<Vec<AddedEntry>, String>) -> (r: Result<
        String,
        PinError,
    >) {
        match outcome {
            Err(message) => Err(PinError::Remote { message }),
            Ok(entries) => match final_component(path) {
                None => Err(PinError::RootHashNotFound),
                Some(basename) => match find_root(&entries, basename.as_str()) {
                    Some(hash) => Ok(hash),
                    None => Err(PinError::RootHashNotFound),
                },
            },
        }
    }
}

} // verus!
