//! Partial updates of a stored resource, and the finalizer-removal patch.
use vstd::prelude::*;

use crate::resource::{opt_text, K8sResource, ResourceView};

verus! {

/// A partial update of a stored resource.
#[derive(Debug, Clone, PartialEq, Eq)]
pub enum Patch {
    /// Take every entry equal to this finalizer off the stored finalizer
    /// list, whatever else the list holds by then.
    RemoveFinalizer(String),
    /// Replace the status with this payload.
    SetStatus(String),
}

/// Mathematical model of a patch.
pub enum PatchView {
    RemoveFinalizer(Seq<char>),
    SetStatus(Seq<char>),
}

impl View for Patch {
    type V = PatchView;

    open spec fn view(&self) -> PatchView {
        match self {
            Patch::RemoveFinalizer(f) => PatchView::RemoveFinalizer(f@),
            Patch::SetStatus(s) => PatchView::SetStatus(s@),
        }
    }
}

/// Model of an optional patch.
pub open spec fn opt_patch(p: Option<Patch>) -> Option<PatchView> {
    match p {
        Some(q) => Some(q@),
        None => None,
    }
}

/// `fs` with every entry equal to `f` taken out, the others kept in order.
pub open spec fn without(fs: Seq<Seq<char>>, f: Seq<char>) -> Seq<Seq<char>>
    decreases fs.len(),
{
    if fs.len() == 0 {
        fs
    } else {
        let rest = without(fs.drop_last(), f);
        if fs.last() == f {
            rest
        } else {
            rest.push(fs.last())
        }
    }
}

/// The stored resource after `p` has been applied to `r`.
pub open spec fn apply_patch(r: ResourceView, p: PatchView) -> ResourceView {
    match p {
        PatchView::RemoveFinalizer(f) => ResourceView { finalizers: without(r.finalizers, f), ..r },
        PatchView::SetStatus(s) => ResourceView { status: Some(s), ..r },
    }
}

/// Builds the patch that takes `operator_name`'s finalizer off the stored
/// parent and leaves the finalizers of other controllers as they are.
pub fn remove_finalizer_patch(operator_name: &String) -> (p: Patch)
    ensures
        p@ == PatchView::RemoveFinalizer(operator_name@),
{
    Patch::RemoveFinalizer(operator_name.clone())
}

proof fn lemma_without_contains(fs: Seq<Seq<char>>, f: Seq<char>, g: Seq<char>)
    ensures
        without(fs, f).contains(g) == (g != f && fs.contains(g)),
    decreases fs.len(),
{
    if fs.len() > 0 {
        let init = fs.drop_last();
        lemma_without_contains(init, f, g);
        assert(fs =~= init.push(fs.last()));
        assert(fs.contains(g) == (init.contains(g) || fs.last() == g)) by {
            if fs.contains(g) {
                let k = choose|k: int| 0 <= k < fs.len() && fs[k] == g;
                if k < fs.len() - 1 {
                    assert(init[k] == g);
                }
            }
            if init.contains(g) {
                let k = choose|k: int| 0 <= k < init.len() && init[k] == g;
                assert(fs[k] == g);
            }
        }
        let rest = without(init, f);
        if fs.last() != f {
            let pushed = rest.push(fs.last());
            assert(pushed[pushed.len() - 1] == fs.last());
            if rest.contains(g) {
                let k = choose|k: int| 0 <= k < rest.len() && rest[k] == g;
                assert(pushed[k] == g);
            }
            if pushed.contains(g) && g != fs.last() {
                let k = choose|k: int| 0 <= k < pushed.len() && pushed[k] == g;
                assert(rest[k] == g);
            }
        }
    }
}

proof fn lemma_without_idempotent(fs: Seq<Seq<char>>, f: Seq<char>)
    ensures
        without(without(fs, f), f) == without(fs, f),
    decreases fs.len(),
{
    if fs.len() > 0 {
        let rest = without(fs.drop_last(), f);
        lemma_without_idempotent(fs.drop_last(), f);
        if fs.last() != f {
            assert(rest.push(fs.last()).drop_last() =~= rest);
        }
    }
}

proof fn lemma_without_absent(fs: Seq<Seq<char>>, f: Seq<char>)
    requires
        !fs.contains(f),
    ensures
        without(fs, f) == fs,
    decreases fs.len(),
{
    if fs.len() > 0 {
        let init = fs.drop_last();
        assert(!init.contains(f)) by {
            if init.contains(f) {
                let k = choose|k: int| 0 <= k < init.len() && init[k] == f;
                assert(fs[k] == f);
            }
        }
        lemma_without_absent(init, f);
        assert(fs.last() != f);
        assert(init.push(fs.last()) =~= fs);
    }
}

/// The finalizer-removal patch, applied to any stored resource, takes exactly
/// that finalizer off it and changes nothing else. A resource without the
/// finalizer is left as it is, so applying the patch twice is the same as
/// applying it once.
pub proof fn lemma_removal_patch(r: ResourceView, finalizer: Seq<char>)
    ensures
        ({
            let p = PatchView::RemoveFinalizer(finalizer);
            let after = apply_patch(r, p);
            &&& !after.has_finalizer(finalizer)
            &&& forall|g: Seq<char>| g != finalizer ==> (#[trigger] after.has_finalizer(g)
                == r.has_finalizer(g))
            &&& after.namespace == r.namespace
            &&& after.name == r.name
            &&& after.status == r.status
            &&& !r.has_finalizer(finalizer) ==> after == r
            &&& apply_patch(after, p) == after
        }),
{
    let p = PatchView::RemoveFinalizer(finalizer);
    let after = apply_patch(r, p);
    lemma_without_contains(r.finalizers, finalizer, finalizer);
    assert forall|g: Seq<char>| g != finalizer implies (#[trigger] after.has_finalizer(g)
        == r.has_finalizer(g)) by {
        lemma_without_contains(r.finalizers, finalizer, g);
    }
    if !r.has_finalizer(finalizer) {
        lemma_without_absent(r.finalizers, finalizer);
    }
    lemma_without_idempotent(r.finalizers, finalizer);
}

/// The patch that stores `status` on `r`, where it is given and differs from
/// the status that `r` holds now.
pub open spec fn status_update(r: ResourceView, status: Option<Seq<char>>) -> Option<PatchView> {
    match status {
        Some(s) => if r.status == Some(s) {
            None
        } else {
            Some(PatchView::SetStatus(s))
        },
        None => None,
    }
}

/// Builds the status patch for `parent`, or nothing where `status` is absent
/// or equal to the status stored on `parent` (no call that would change
/// nothing).
pub fn status_update_patch(parent: &K8sResource, status: Option<String>) -> (p: Option<Patch>)
    ensures
        opt_patch(p) == status_update(parent@, opt_text(status)),
{
    match status {
        Some(s) => {
            let same = match &parent.status {
                Some(current) => *current == s,
                None => false,
            };
            if same {
                None
            } else {
                Some(Patch::SetStatus(s))
            }
        },
        None => None,
    }
}

} // verus!
