//! The dedup set: at most one emission per structurally distinct annotation.

use crate::github::{Annotation, AnnotationView};
use vstd::prelude::*;

verus! {

/// Whether the sequence holds the annotation value.
pub open spec fn spec_contains(s: Seq<AnnotationView>, a: AnnotationView) -> bool {
    exists|i: int| 0 <= i < s.len() && s[i] == a
}

/// The collection enforcing at-most-one emission per structurally distinct
/// annotation. Membership goes by full structural equality: two annotations
/// are duplicates only when every field matches exactly. The first
/// occurrence wins; the arrival order of first occurrences is kept.
pub struct DedupSet {
    items: Vec<Annotation>,
}

impl View for DedupSet {
    type V = Seq<AnnotationView>;

    closed spec fn view(&self) -> Seq<AnnotationView> {
        self.items@.map_values(|a: Annotation| a@)
    }
}

impl DedupSet {
    /// No annotation value occurs twice.
    #[verifier::type_invariant]
    spec fn inv(&self) -> bool {
        forall|i: int, j: int| 0 <= i < j < self@.len() ==> self@[i] != self@[j]
    }

    /// An empty set.
    pub fn new() -> (r: DedupSet)
        ensures
            r@ == Seq::<AnnotationView>::empty(),
    {
        let r = DedupSet { items: Vec::new() };
        proof {
            assert(r@ =~= Seq::<AnnotationView>::empty());
        }
        r
    }

    /// The number of distinct annotations seen so far.
    pub fn len(&self) -> (r: usize)
        ensures
            r == self@.len(),
    {
        self.items.len()
    }

    /// Whether the set already holds this annotation value.
    pub fn contains(&self, a: &Annotation) -> (r: bool)
        ensures
            r == spec_contains(self@, a@),
    {
        let n = self.items.len();
        let mut i: usize = 0;
        while i < n
            invariant
                0 <= i <= n,
                n == self.items@.len(),
                forall|j: int| 0 <= j < i ==> self@[j] != a@,
            decreases n - i,
        {
            if self.items[i] == *a {
                proof {
                    assert(self@[i as int] == a@);
                }
                return true;
            }
            i = i + 1;
        }
        false
    }

    /// Inserts an annotation. Returns true if and only if the value was not
    /// already present; a duplicate is silently absorbed and the set is left
    /// unchanged.
    pub fn insert(&mut self, a: Annotation) -> (r: bool)
        ensures
            r == !spec_contains(old(self)@, a@),
            r ==> final(self)@ == old(self)@.push(a@),
            !r ==> final(self)@ == old(self)@,
    {
        proof {
            use_type_invariant(&*self);
        }
        if self.contains(&a) {
            return false;
        }
        let ghost pre = self@;
        let ghost av = a@;
        let mut items: Vec<Annotation> = Vec::new();
        core::mem::swap(&mut items, &mut self.items);
        items.push(a);
        let ghost pushed = items@.map_values(|x: Annotation| x@);
        proof {
            assert(pushed =~= pre.push(av));
            assert forall|i: int, j: int| 0 <= i < j < pushed.len() implies pushed[i]
                != pushed[j] by {
                if j == pushed.len() - 1 {
                    assert(pushed[i] == pre[i]);
                    assert(!spec_contains(pre, av));
                }
            }
        }
        core::mem::swap(&mut items, &mut self.items);
        proof {
            assert(self@ == pushed);
        }
        true
    }
}

/// A sequence extended with an annotation value contains that value; so once
/// one insertion of a value has been accepted, every later insertion of the
/// same value is rejected and leaves the set unchanged. Together with
/// [`DedupSet::insert`]'s contract this gives dedup idempotence: inserting
/// one value any number of times accepts it exactly once.
pub proof fn lemma_contains_after_push(s: Seq<AnnotationView>, a: AnnotationView)
    ensures
        spec_contains(s.push(a), a),
{
    assert(s.push(a)[s.len() as int] == a);
}

} // verus!
