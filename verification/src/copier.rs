//! Flat copying of a directory tree.
//!
//! The copier takes a source directory tree and copies every file in it,
//! at any depth, directly into one destination directory: nested directories
//! do not reappear at the destination, only the files they hold, each under
//! its own base name. This module plans that copy over a plain model of the
//! tree; the caller enumerates the real directory (assigning each file an
//! opaque id), asks for the plan, and performs one copy per planned step,
//! in order.
//!
//! Known limitation, preserved deliberately: when two files at different
//! depths share a base name, they land on the same destination path and the
//! one visited later silently overwrites the earlier one ("last write wins").
//! The lemmas below pin that behavior down.

use vstd::prelude::*;

verus! {

/// One entry of a source directory tree, as enumerated by the caller.
/// A file carries its base name and an opaque id the caller assigned
/// (standing for the file's path and contents); a directory carries its
/// entries in the order the caller visited them.
pub enum TreeEntry {
    File { name: String, id: u64 },
    Dir { name: String, entries: Vec<TreeEntry> },
}

/// The copy plan of one tree entry: the (id, destination name) pairs of every
/// file under it, in visit order, each destined for its own base name.
pub open spec fn tree_plan(t: TreeEntry) -> Seq<(u64, Seq<char>)>
    decreases t,
{
    match t {
        TreeEntry::File { name, id } => seq![(id, name@)],
        TreeEntry::Dir { name: _, entries } => entries_plan(entries@),
    }
}

/// The copy plan of a run of sibling entries, in order.
pub open spec fn entries_plan(es: Seq<TreeEntry>) -> Seq<(u64, Seq<char>)>
    decreases es,
{
    if es.len() == 0 {
        Seq::empty()
    } else {
        tree_plan(es[0]) + entries_plan(es.skip(1))
    }
}

/// The view of an executable plan: each destination name as its character
/// sequence.
pub open spec fn plan_view(p: Seq<(u64, String)>) -> Seq<(u64, Seq<char>)> {
    p.map_values(|e: (u64, String)| (e.0, e.1@))
}

/// The destination directory modeled as a map from file name to the id of
/// the file whose bytes sit there; running a plan performs its copies in
/// order, each overwriting whatever its name already held.
pub open spec fn apply_plan(m: Map<Seq<char>, u64>, p: Seq<(u64, Seq<char>)>) -> Map<
    Seq<char>,
    u64,
>
    decreases p.len(),
{
    if p.len() == 0 {
        m
    } else {
        apply_plan(m.insert(p[0].1, p[0].0), p.skip(1))
    }
}

/// The set of destination names a plan writes.
pub open spec fn plan_names(p: Seq<(u64, Seq<char>)>) -> Set<Seq<char>>
    decreases p.len(),
{
    if p.len() == 0 {
        Set::empty()
    } else {
        plan_names(p.skip(1)).insert(p[0].1)
    }
}

/// The id of the last copy a plan makes onto the given name, if any.
pub open spec fn last_write(p: Seq<(u64, Seq<char>)>, n: Seq<char>) -> Option<u64>
    decreases p.len(),
{
    if p.len() == 0 {
        None
    } else {
        let rest = last_write(p.skip(1), n);
        if rest is Some {
            rest
        } else if p[0].1 == n {
            Some(p[0].0)
        } else {
            None
        }
    }
}

/// A destination path a plan never writes keeps exactly what it had before:
/// running a plan touches no other contents of the destination directory.
pub proof fn lemma_apply_untouched(m: Map<Seq<char>, u64>, p: Seq<(u64, Seq<char>)>, n: Seq<char>)
    requires
        !plan_names(p).contains(n),
    ensures
        apply_plan(m, p).contains_key(n) == m.contains_key(n),
        m.contains_key(n) ==> apply_plan(m, p)[n] == m[n],
    decreases p.len(),
{
    if p.len() > 0 {
        lemma_apply_untouched(m.insert(p[0].1, p[0].0), p.skip(1), n);
    }
}

/// After running a plan the destination holds exactly its old contents plus
/// one file per name the plan writes.
pub proof fn lemma_apply_dom(m: Map<Seq<char>, u64>, p: Seq<(u64, Seq<char>)>)
    ensures
        apply_plan(m, p).dom() =~= m.dom() + plan_names(p),
    decreases p.len(),
{
    if p.len() > 0 {
        lemma_apply_dom(m.insert(p[0].1, p[0].0), p.skip(1));
    }
}

/// Last write wins: a name is written by a plan exactly when the plan holds a
/// copy onto it, and the file that ends up there is the last such copy in the
/// plan — earlier copies onto the same name are silently overwritten.
pub proof fn lemma_last_write_wins(m: Map<Seq<char>, u64>, p: Seq<(u64, Seq<char>)>, n: Seq<char>)
    ensures
        plan_names(p).contains(n) <==> last_write(p, n) is Some,
        last_write(p, n) matches Some(id) ==> apply_plan(m, p).contains_key(n) && apply_plan(m, p)[n]
            == id,
    decreases p.len(),
{
    if p.len() > 0 {
        let m1 = m.insert(p[0].1, p[0].0);
        lemma_last_write_wins(m1, p.skip(1), n);
        if last_write(p.skip(1), n) is None && p[0].1 == n {
            lemma_apply_untouched(m1, p.skip(1), n);
        }
    }
}

/// Copying the same source tree into the same destination twice leaves the
/// destination exactly as one run does: the second run overwrites each file
/// with itself.
pub proof fn lemma_apply_idempotent(m: Map<Seq<char>, u64>, p: Seq<(u64, Seq<char>)>)
    ensures
        apply_plan(apply_plan(m, p), p) == apply_plan(m, p),
{
    let m1 = apply_plan(m, p);
    let m2 = apply_plan(m1, p);
    lemma_apply_dom(m, p);
    lemma_apply_dom(m1, p);
    assert forall|n: Seq<char>| m2.contains_key(n) implies m2[n] == m1[n] by {
        if plan_names(p).contains(n) {
            lemma_last_write_wins(m, p, n);
            lemma_last_write_wins(m1, p, n);
        } else {
            lemma_apply_untouched(m1, p, n);
        }
    }
    assert(m2 =~= m1);
}

/// Computes the copy plan of a source tree: one (id, destination name) pair
/// per file, in visit order, every file destined directly for the one
/// destination directory under its base name.
pub fn copy_plan(t: &TreeEntry) -> (r: Vec<(u64, String)>)
    ensures
        plan_view(r@) == tree_plan(*t),
{
    let mut acc: Vec<(u64, String)> = Vec::new();
    copy_plan_into(t, &mut acc);
    proof {
        assert(plan_view(acc@) =~= tree_plan(*t));
    }
    acc
}

/// Appends the copy plan of `t` to `acc`.
fn copy_plan_into(t: &TreeEntry, acc: &mut Vec<(u64, String)>)
    ensures
        plan_view(final(acc)@) == plan_view(old(acc)@) + tree_plan(*t),
    decreases *t,
{
    match t {
        TreeEntry::File { name, id } => {
            acc.push((*id, name.clone()));
            proof {
                assert(plan_view(acc@) =~= plan_view(old(acc)@) + tree_plan(*t));
            }
        }
        TreeEntry::Dir { name: _, entries } => {
            let ghost entry_acc = acc@;
            let n: usize = entries.len();
            proof {
                assert(entries@.skip(0) =~= entries@);
            }
            let mut i: usize = 0;
            while i < n
                invariant
                    i <= n,
                    n == entries@.len(),
                    *t == (TreeEntry::Dir { name: t->Dir_name, entries: *entries }),
                    plan_view(acc@) + entries_plan(entries@.skip(i as int)) == plan_view(entry_acc)
                        + entries_plan(entries@),
                decreases n - i,
            {
                let ghost prev = acc@;
                proof {
                    assert(decreases_to!(*t => t->Dir_entries));
                    assert(t->Dir_entries == *entries);
                    assert(decreases_to!(*entries => entries@));
                    assert(decreases_to!(entries@ => entries@[i as int]));
                }
                copy_plan_into(&entries[i], acc);
                proof {
                    let es = entries@;
                    let k = i as int;
                    assert(es.skip(k)[0] == es[k]);
                    assert(es.skip(k).skip(1) =~= es.skip(k + 1));
                    assert(entries_plan(es.skip(k)) == tree_plan(es[k]) + entries_plan(
                        es.skip(k + 1),
                    ));
                    assert(plan_view(acc@) + entries_plan(es.skip(k + 1)) =~= (plan_view(prev)
                        + tree_plan(es[k])) + entries_plan(es.skip(k + 1)));
                    assert((plan_view(prev) + tree_plan(es[k])) + entries_plan(es.skip(k + 1)) =~=
                        plan_view(prev) + entries_plan(es.skip(k)));
                }
                i = i + 1;
            }
            proof {
                assert(entries@.skip(n as int) =~= Seq::<TreeEntry>::empty());
                assert(plan_view(acc@) + entries_plan(entries@.skip(n as int)) =~= plan_view(
                    acc@,
                ));
                assert(plan_view(acc@) =~= plan_view(old(acc)@) + tree_plan(*t));
            }
        }
    }
}

} // verus!
