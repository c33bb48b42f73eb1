//! One-time registration of the backing scripts that define the host custom
//! elements.
//!
//! A registration request is idempotent process-wide: the first request for
//! an element kind reports that the underlying loader must run, every later
//! request for the same kind reports that nothing is to be done.  The
//! registry never forgets a kind: registration is permanent for the process.

use vstd::prelude::*;
use crate::host::ElementKind;

verus! {

/// The process-wide record of which element kinds have had their backing
/// script requested.
pub struct LoaderRegistry {
    loaded: Vec<ElementKind>,
}

impl LoaderRegistry {
    /// The set of element kinds already registered.
    pub closed spec fn loaded_set(self) -> Set<ElementKind> {
        Set::new(|k: ElementKind| self.loaded@.contains(k))
    }

    /// A fresh registry: nothing registered yet.
    pub fn new() -> (r: Self)
        ensures
            r.loaded_set() == Set::<ElementKind>::empty(),
    {
        let r = LoaderRegistry { loaded: Vec::new() };
        proof {
            assert(r.loaded_set() =~= Set::<ElementKind>::empty());
        }
        r
    }

    /// Whether the given kind has been registered already.
    pub fn is_loaded(&self, kind: ElementKind) -> (r: bool)
        ensures
            r == self.loaded_set().contains(kind),
    {
        let mut i: usize = 0;
        let mut found = false;
        while i < self.loaded.len()
            invariant
                0 <= i <= self.loaded@.len(),
                found == exists|j: int| 0 <= j < i && self.loaded@[j] == kind,
            decreases self.loaded@.len() - i,
        {
            if self.loaded[i] == kind {
                found = true;
            }
            i += 1;
        }
        found
    }

    /// The idempotent check-and-set behind every adapter's creation: records
    /// the kind and reports whether the caller must perform the underlying
    /// registration now.  That is the case exactly on the first request for
    /// the kind; repeating the request attempts nothing and never errors.
    pub fn register(&mut self, kind: ElementKind) -> (attempt: bool)
        ensures
            attempt == !old(self).loaded_set().contains(kind),
            final(self).loaded_set() == old(self).loaded_set().insert(kind),
    {
        let already = self.is_loaded(kind);
        if !already {
            self.loaded.push(kind);
            proof {
                let s0 = old(self).loaded@;
                let s1 = self.loaded@;
                assert forall|k: ElementKind| s1.contains(k) implies (s0.contains(k) || k
                    == kind) by {
                    let i = choose|i: int| 0 <= i < s1.len() && s1[i] == k;
                    if i < s0.len() {
                        assert(s0[i] == k);
                    }
                }
                assert forall|k: ElementKind| s0.contains(k) implies s1.contains(k) by {
                    let i = choose|i: int| 0 <= i < s0.len() && s0[i] == k;
                    assert(s1[i] == k);
                }
                assert(s1[s1.len() - 1] == kind);
                assert(s1.contains(kind));
                assert(self.loaded_set() =~= old(self).loaded_set().insert(kind));
            }
        } else {
            proof {
                assert(self.loaded_set() =~= old(self).loaded_set().insert(kind));
            }
        }
        !already
    }
}

/// Law: once an element kind is registered, every later registration request
/// for it reports that no underlying attempt is needed.  Any number of
/// adapter instances registering the same kind therefore cause exactly one
/// attempt: the one made while the kind was not yet in the registry.
pub proof fn lemma_register_at_most_once(
    after_first: Set<ElementKind>,
    later: Set<ElementKind>,
    kind: ElementKind,
)
    requires
        after_first.contains(kind),
        after_first.subset_of(later),
    ensures
        later.contains(kind),
{
}

} // verus!
