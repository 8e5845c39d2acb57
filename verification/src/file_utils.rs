//! The few filesystem questions the protocol itself needs: whether a path
//! exists, whether it is a regular file, and filtering a requested file list
//! down to the entries worth offering.
//!
//! Probing the disk answers nothing provable, so the probes are thin trusted
//! calls; every decision made on their answers — the qualification rule and
//! the filter itself — is verified code with an exact contract over those
//! answers.

use vstd::prelude::*;

verus! {

/// How a peer opens its end of a transfer: the initiator opens an existing
/// source, the listener creates a fresh destination.
#[derive(Clone, Copy, Debug, PartialEq, Eq, Structural)]
pub enum FileMode {
    Open,
    Create,
}

/// Relies on `std::path::Path::exists`: whether the path points at anything
/// on disk right now.  The answer depends on the filesystem at the moment of
/// the call, so nothing more can be promised of it.
#[verifier::external_body]
pub fn path_exists(name: &str) -> bool {
    std::path::Path::new(name).exists()
}

/// Relies on `std::path::Path::is_file`: whether the path points at a
/// regular file right now.  The answer depends on the filesystem at the
/// moment of the call, so nothing more can be promised of it.
#[verifier::external_body]
fn path_is_file(name: &str) -> bool {
    std::path::Path::new(name).is_file()
}

/// The qualification rule on the two probe answers: an entry qualifies for
/// a batch exactly when it exists and is a regular file.
pub fn qualifies(on_disk: bool, regular: bool) -> (r: bool)
    ensures
        r == (on_disk && regular),
{
    on_disk && regular
}

/// Whether a requested entry qualifies right now: probes the filesystem
/// and applies [`qualifies`] to the answers.
pub fn check_file(name: &str) -> bool {
    let on_disk = path_exists(name);
    let regular = path_is_file(name);
    qualifies(on_disk, regular)
}

/// The entries of `files` whose answer in `keep` is true, in input order,
/// duplicates kept, nothing invented.
pub open spec fn filtered_by(files: Seq<String>, keep: Seq<bool>) -> Seq<String>
    decreases files.len(),
{
    if files.len() == 0 {
        Seq::empty()
    } else if keep[files.len() - 1] {
        filtered_by(files.drop_last(), keep.drop_last()).push(files.last())
    } else {
        filtered_by(files.drop_last(), keep.drop_last())
    }
}

/// How many of the answers are true.
pub open spec fn count_true(keep: Seq<bool>) -> int
    decreases keep.len(),
{
    if keep.len() == 0 {
        0
    } else {
        count_true(keep.drop_last()) + if keep.last() {
            1int
        } else {
            0int
        }
    }
}

/// Law: the filter keeps exactly one entry per true answer — with M true
/// answers among N, the batch holds exactly M of the N requested entries.
pub proof fn lemma_filtered_by_length(files: Seq<String>, keep: Seq<bool>)
    requires
        files.len() == keep.len(),
    ensures
        filtered_by(files, keep).len() == count_true(keep),
        0 <= count_true(keep) <= keep.len(),
    decreases files.len(),
{
    if files.len() > 0 {
        lemma_filtered_by_length(files.drop_last(), keep.drop_last());
    }
}

/// Keeps exactly the entries whose answer is true: the executable form of
/// [`filtered_by`].
pub fn filter_requested(files: &Vec<String>, keep: &Vec<bool>) -> (r: Vec<String>)
    requires
        keep@.len() == files@.len(),
    ensures
        r@ == filtered_by(files@, keep@),
{
    let mut kept: Vec<String> = Vec::new();
    let mut i: usize = 0;
    while i < files.len()
        invariant
            i <= files@.len(),
            keep@.len() == files@.len(),
            kept@ == filtered_by(files@.subrange(0, i as int), keep@.subrange(0, i as int)),
        decreases files.len() - i,
    {
        if keep[i] {
            kept.push(files[i].clone());
        }
        proof {
            assert(files@.subrange(0, i + 1).drop_last() =~= files@.subrange(0, i as int));
            assert(keep@.subrange(0, i + 1).drop_last() =~= keep@.subrange(0, i as int));
            assert(files@.subrange(0, i + 1).last() == files@[i as int]);
            assert(keep@.subrange(0, i + 1).last() == keep@[i as int]);
        }
        i = i + 1;
    }
    proof {
        assert(files@.subrange(0, files@.len() as int) =~= files@);
        assert(keep@.subrange(0, keep@.len() as int) =~= keep@);
    }
    kept
}

/// Drops the requested entries that do not exist or are not regular files:
/// each entry is probed once, in input order, and the result is exactly the
/// input filtered by those probe answers — the dropped entries are gone
/// before any batch header is computed.
pub fn clean_file_list(files: &Vec<String>) -> (r: Vec<String>)
    ensures
        r@.len() <= files@.len(),
        exists|keep: Seq<bool>|
            keep.len() == files@.len() && r@ == filtered_by(files@, keep),
{
    let mut keep: Vec<bool> = Vec::new();
    let mut i: usize = 0;
    while i < files.len()
        invariant
            i <= files@.len(),
            keep@.len() == i,
        decreases files.len() - i,
    {
        let name: &String = &files[i];
        keep.push(check_file(name.as_str()));
        i = i + 1;
    }
    let kept = filter_requested(files, &keep);
    proof {
        lemma_filtered_by_length(files@, keep@);
    }
    kept
}

} // verus!
