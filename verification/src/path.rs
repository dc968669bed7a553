//! Addressing inside a type tree: a `Step` identifies one descent from a
//! node to a child, a `Path` is the ordered sequence of descents from the
//! root. Paths localize every failure the validating traversal reports.

use vstd::prelude::*;

verus! {

/// One descent from a node to an immediate child: the child's position
/// among its siblings and, for descents into a sum type, the selected
/// variant's discriminant position.
#[derive(Copy, Clone, PartialEq, Eq, Structural, Debug)]
pub enum Step {
    /// Descent into the product-type member at the given position.
    Field(u8),
    /// Descent into the sum-type alternative at the given discriminant
    /// position.
    Variant(u8),
}

/// The sibling position a step descends into.
pub open spec fn step_index(s: Step) -> u8 {
    match s {
        Step::Field(pos) => pos,
        Step::Variant(pos) => pos,
    }
}

impl Step {
    /// The sibling position this step descends into.
    pub fn index(self) -> (r: u8)
        ensures
            r == step_index(self),
    {
        match self {
            Step::Field(pos) => pos,
            Step::Variant(pos) => pos,
        }
    }
}

/// A location inside a type tree: the steps taken from the root, oldest
/// first. Empty at the root.
#[derive(Eq, Debug)]
pub struct Path {
    steps: Vec<Step>,
}

impl PartialEq for Path {
    fn eq(&self, other: &Path) -> (r: bool) {
        if self.steps.len() != other.steps.len() {
            return false;
        }
        let mut i: usize = 0;
        while i < self.steps.len()
            invariant
                0 <= i <= self@.len(),
                self@.len() == other@.len(),
                forall|k: int| 0 <= k < i ==> self@[k] == other@[k],
            decreases self@.len() - i,
        {
            if self.steps[i] != other.steps[i] {
                return false;
            }
            i += 1;
        }
        proof {
            assert(self@ =~= other@);
        }
        true
    }
}

impl vstd::std_specs::cmp::PartialEqSpecImpl for Path {
    open spec fn obeys_eq_spec() -> bool {
        true
    }

    open spec fn eq_spec(&self, other: &Path) -> bool {
        self@ == other@
    }
}

impl View for Path {
    type V = Seq<Step>;

    closed spec fn view(&self) -> Seq<Step> {
        self.steps@
    }
}

impl Path {
    /// The root location.
    pub fn new() -> (r: Path)
        ensures
            r@ == Seq::<Step>::empty(),
    {
        Path { steps: Vec::new() }
    }

    /// How many levels below the root this location lies.
    pub fn len(&self) -> (r: usize)
        ensures
            r == self@.len(),
    {
        self.steps.len()
    }

    /// The step taken at the given level.
    pub fn step_at(&self, level: usize) -> (r: Step)
        requires
            level < self@.len(),
        ensures
            r == self@[level as int],
    {
        self.steps[level]
    }

    /// Extends the location by one descent.
    pub fn push(&mut self, step: Step)
        ensures
            final(self)@ == old(self)@.push(step),
    {
        self.steps.push(step);
    }

    /// Removes the last descent and returns it. Callers guarantee the
    /// location is not the root: popping at the root is an invariant
    /// violation of the engine driving this path, never a data error.
    pub fn pop(&mut self) -> (r: Step)
        requires
            old(self)@.len() > 0,
        ensures
            final(self)@ == old(self)@.drop_last(),
            r == old(self)@.last(),
    {
        let r = self.steps.pop();
        match r {
            Some(step) => step,
            None => vstd::pervasive::unreached(),
        }
    }
}

impl Clone for Path {
    fn clone(&self) -> (r: Path)
        ensures
            r@ == self@,
    {
        let mut steps: Vec<Step> = Vec::new();
        let mut i: usize = 0;
        while i < self.steps.len()
            invariant
                0 <= i <= self@.len(),
                steps@ == self@.subrange(0, i as int),
            decreases self@.len() - i,
        {
            steps.push(self.steps[i]);
            i += 1;
        }
        proof {
            assert(steps@ =~= self@);
        }
        Path { steps }
    }
}

} // verus!
