//! The parent resource: identity, finalizer list and status.
use vstd::prelude::*;

verus! {

/// Namespace and name of a stored object.
#[derive(Debug, Clone, PartialEq, Eq)]
pub struct ObjectId {
    pub namespace: String,
    pub name: String,
}

/// The parent resource as the finalization protocol sees it.
///
/// `status` holds the serialized status payload. Statuses are compared by
/// their text: two texts that encode the same value count as different, and
/// lead to a status patch that stores the same value again.
#[derive(Debug, Clone, PartialEq, Eq)]
pub struct K8sResource {
    pub id: ObjectId,
    pub finalizers: Vec<String>,
    pub status: Option<String>,
}

/// Mathematical model of a resource.
pub struct ResourceView {
    pub namespace: Seq<char>,
    pub name: Seq<char>,
    pub finalizers: Seq<Seq<char>>,
    pub status: Option<Seq<char>>,
}

/// The texts of a list of strings.
pub open spec fn texts(v: Seq<String>) -> Seq<Seq<char>> {
    v.map_values(|s: String| s@)
}

/// The text of an optional string.
pub open spec fn opt_text(o: Option<String>) -> Option<Seq<char>> {
    match o {
        Some(s) => Some(s@),
        None => None,
    }
}

impl View for K8sResource {
    type V = ResourceView;

    open spec fn view(&self) -> ResourceView {
        ResourceView {
            namespace: self.id.namespace@,
            name: self.id.name@,
            finalizers: texts(self.finalizers@),
            status: opt_text(self.status),
        }
    }
}

impl ResourceView {
    /// Whether `finalizer` is among this resource's finalizers.
    pub open spec fn has_finalizer(self, finalizer: Seq<char>) -> bool {
        self.finalizers.contains(finalizer)
    }
}

/// Whether the resource still carries the finalizer named `finalizer`.
pub fn does_finalizer_exist(parent: &K8sResource, finalizer: &String) -> (r: bool)
    ensures
        r == parent@.has_finalizer(finalizer@),
{
    let n = parent.finalizers.len();
    let mut i: usize = 0;
    while i < n
        invariant
            n == parent.finalizers@.len(),
            0 <= i <= n,
            forall|j: int| 0 <= j < i ==> parent.finalizers@[j]@ != finalizer@,
        decreases n - i,
    {
        if parent.finalizers[i] == *finalizer {
            assert(parent@.finalizers[i as int] == finalizer@);
            return true;
        }
        i = i + 1;
    }
    assert forall|j: int| 0 <= j < parent@.finalizers.len() implies parent@.finalizers[j]
        != finalizer@ by {}
    false
}

} // verus!
