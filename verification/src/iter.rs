//! The validating traversal: walks a type tree position by position and
//! verifies that an external encoder or decoder descends into and returns
//! from every declared child exactly once, in order, and that the subtype
//! found at each visited location matches what it claims to check.

use vstd::prelude::*;

use crate::ast::{
    at_path_spec, lemma_at_path_prefix, sub_same, sub_ty, sub_wf, ty_equal, ty_wf, Cls, SubTy, Ty,
};
use crate::path::{Path, Step};

verus! {

/// The three ways a traversal step can fail. Every failure carries enough
/// to localize the offending position exactly.
#[derive(Clone, PartialEq, Eq, Debug)]
pub enum CheckError {
    /// A descent was attempted where the schema has no such child: the
    /// class of the node that was being descended from, and the path of
    /// the attempted descent.
    NoSubtypes(Cls, Path),
    /// The subtype found by resolving the current path differs from what
    /// the visitor claims to be checking.
    TypeMismatch { expected: Cls, found: Cls, path: Path },
    /// An ascent was attempted before every declared child of the current
    /// level had been visited.
    UncheckedFields { checked: u8, total: u8 },
}

/// The owning traversal: the root type, a one-byte cursor counting how
/// many immediate children have been yielded, and the current location.
pub struct IntoIter {
    ty: Ty,
    pos: u8,
    current: Path,
}

impl IntoIter {
    /// The root type the traversal walks.
    pub closed spec fn root(self) -> Ty {
        self.ty
    }

    /// How many immediate children have been yielded so far.
    pub closed spec fn cursor(self) -> u8 {
        self.pos
    }

    /// The current location below the root.
    pub closed spec fn location(self) -> Seq<Step> {
        self.current@
    }

    /// A traversal is coherent when its root is well-formed, its location
    /// resolves against the root, and its cursor has not passed the root's
    /// child count. Every constructor establishes this and every method
    /// preserves it.
    pub open spec fn wf(self) -> bool {
        &&& ty_wf(self.root())
        &&& at_path_spec(self.root(), self.location()) is Some
        &&& self.cursor() <= self.root().children@.len()
    }

    /// A fresh traversal over the given root, positioned at the root with
    /// nothing yielded yet.
    pub fn new(ty: Ty) -> (r: IntoIter)
        requires
            ty_wf(ty),
        ensures
            r.root() == ty,
            r.cursor() == 0,
            r.location() == Seq::<Step>::empty(),
            r.wf(),
    {
        IntoIter { ty, pos: 0, current: Path::new() }
    }

    /// The current location, for callers that record or report it.
    pub fn location_path(&self) -> (r: &Path)
        ensures
            r@ == self.location(),
    {
        &self.current
    }

    /// How many immediate children have been yielded so far.
    pub fn visited(&self) -> (r: u8)
        ensures
            r == self.cursor(),
    {
        self.pos
    }

    /// Yields the child at the cursor, if any, and advances the cursor.
    /// The sequence is finite and single-pass: once the cursor reaches the
    /// child count nothing more is yielded.
    pub fn next(&mut self) -> (r: Option<SubTy>)
        requires
            old(self).wf(),
        ensures
            final(self).wf(),
            final(self).root() == old(self).root(),
            final(self).location() == old(self).location(),
            old(self).cursor() < old(self).root().children@.len() ==> {
                &&& final(self).cursor() == old(self).cursor() + 1
                &&& r matches Some(s) && sub_same(
                    s,
                    old(self).root().children@[old(self).cursor() as int],
                )
            },
            old(self).cursor() as int >= old(self).root().children@.len() ==> r is None
                && final(self).cursor() == old(self).cursor(),
    {
        let opt = self.ty.ty_at(self.pos);
        match opt {
            Some(s) => {
                let child = s.clone();
                self.pos = self.pos + 1;
                Some(child)
            },
            None => None,
        }
    }

    /// Resolves the current location against the root and compares the
    /// node found there to `expect` by structural equality. Succeeds, with
    /// no observable effect, exactly when the two are structurally equal;
    /// fails with a `TypeMismatch` naming both classes and the current
    /// location otherwise.
    pub fn check(&mut self, expect: &Ty) -> (r: Result<(), CheckError>)
        requires
            old(self).wf(),
        ensures
            *final(self) == *old(self),
            r == Ok::<(), CheckError>(()) <==> ty_equal(
                at_path_spec(old(self).root(), old(self).location()).unwrap(),
                *expect,
            ),
            !ty_equal(at_path_spec(old(self).root(), old(self).location()).unwrap(), *expect)
                ==> {
                &&& r matches Err(CheckError::TypeMismatch { expected, found, path })
                    && expected == expect.cls && found == at_path_spec(
                    old(self).root(),
                    old(self).location(),
                ).unwrap().cls && path@ == old(self).location()
            },
    {
        let found = match self.ty.at_path(&self.current) {
            Some(t) => t,
            None => vstd::pervasive::unreached(),
        };
        if found.structural_eq(expect) {
            Ok(())
        } else {
            Err(
                CheckError::TypeMismatch {
                    expected: expect.cls(),
                    found: found.cls(),
                    path: self.current.clone(),
                },
            )
        }
    }

    /// Extends the current location by `step` when the root has a child
    /// there: succeeds exactly when the extended path resolves. On failure
    /// the location is rolled back unchanged and the error names the class
    /// of the node the descent started from, together with the path of
    /// the attempted descent.
    pub fn step_in(&mut self, step: Step) -> (r: Result<(), CheckError>)
        requires
            old(self).wf(),
        ensures
            final(self).wf(),
            final(self).root() == old(self).root(),
            final(self).cursor() == old(self).cursor(),
            r == Ok::<(), CheckError>(()) <==> at_path_spec(
                old(self).root(),
                old(self).location().push(step),
            ) is Some,
            at_path_spec(old(self).root(), old(self).location().push(step)) is Some ==> final(self).location() == old(self).location().push(step),
            at_path_spec(old(self).root(), old(self).location().push(step)) is None ==> {
                &&& final(self).location() == old(self).location()
                &&& r matches Err(CheckError::NoSubtypes(cls, path)) && cls == at_path_spec(
                    old(self).root(),
                    old(self).location(),
                ).unwrap().cls && path@ == old(self).location().push(step)
            },
    {
        self.current.push(step);
        let resolved = match self.ty.at_path(&self.current) {
            Some(_) => true,
            None => false,
        };
        if resolved {
            Ok(())
        } else {
            let attempted = self.current.clone();
            self.current.pop();
            proof {
                assert(old(self).location().push(step).drop_last() =~= old(self).location());
            }
            let node = match self.ty.at_path(&self.current) {
                Some(t) => t,
                None => vstd::pervasive::unreached(),
            };
            Err(CheckError::NoSubtypes(node.cls(), attempted))
        }
    }

    /// Ascends one level, but only after every declared child of the
    /// current level has been yielded: ascending early fails with
    /// `UncheckedFields` carrying the exact counts, and leaves the
    /// location unchanged. Callers guarantee a completed traversal never
    /// ascends from the root itself.
    pub fn step_out(&mut self) -> (r: Result<(), CheckError>)
        requires
            old(self).wf(),
            old(self).cursor() as int == old(self).root().children@.len() ==> old(self).location().len() > 0,
        ensures
            final(self).wf(),
            final(self).root() == old(self).root(),
            final(self).cursor() == old(self).cursor(),
            (old(self).cursor() as int) < old(self).root().children@.len() ==> r == Err::<
                (),
                CheckError,
            >(
                CheckError::UncheckedFields {
                    checked: old(self).cursor(),
                    total: old(self).root().children@.len() as u8,
                },
            ) && final(self).location() == old(self).location(),
            old(self).cursor() as int == old(self).root().children@.len() ==> r == Ok::<
                (),
                CheckError,
            >(()) && final(self).location() == old(self).location().drop_last(),
    {
        let total = self.ty.count_subtypes();
        if self.pos < total {
            return Err(CheckError::UncheckedFields { checked: self.pos, total });
        }
        proof {
            lemma_at_path_prefix(old(self).root(), old(self).location());
        }
        self.current.pop();
        Ok(())
    }
}

impl Ty {
    /// Consumes this node into an owning traversal over it.
    pub fn into_iter(self) -> (r: IntoIter)
        requires
            ty_wf(self),
        ensures
            r.root() == self,
            r.cursor() == 0,
            r.location() == Seq::<Step>::empty(),
            r.wf(),
    {
        IntoIter::new(self)
    }
}

/// The borrowing traversal: yields references to the immediate children
/// of a borrowed node, in order, exactly once each.
pub struct Iter<'t> {
    ty: &'t Ty,
    pos: u8,
}

impl<'t> Iter<'t> {
    /// The node whose children this traversal yields.
    pub closed spec fn root(self) -> Ty {
        *self.ty
    }

    /// How many children have been yielded so far.
    pub closed spec fn cursor(self) -> u8 {
        self.pos
    }

    /// A borrowing traversal is coherent when its node is well-formed and
    /// its cursor has not passed the child count.
    pub open spec fn wf(self) -> bool {
        &&& ty_wf(self.root())
        &&& self.cursor() as int <= self.root().children@.len()
    }

    /// A fresh borrowing traversal over the given node.
    pub fn new(ty: &'t Ty) -> (r: Iter<'t>)
        requires
            ty_wf(*ty),
        ensures
            r.root() == *ty,
            r.cursor() == 0,
            r.wf(),
    {
        Iter { ty, pos: 0 }
    }

    /// Yields a reference to the child at the cursor, if any, and advances
    /// the cursor.
    pub fn next(&mut self) -> (r: Option<&'t SubTy>)
        requires
            old(self).wf(),
        ensures
            final(self).wf(),
            final(self).root() == old(self).root(),
            old(self).cursor() < old(self).root().children@.len() ==> {
                &&& final(self).cursor() == old(self).cursor() + 1
                &&& r matches Some(s) && *s == old(self).root().children@[old(self).cursor() as int]
            },
            old(self).cursor() as int >= old(self).root().children@.len() ==> r is None
                && final(self).cursor() == old(self).cursor(),
    {
        let opt = self.ty.ty_at(self.pos);
        match opt {
            Some(s) => {
                self.pos = self.pos + 1;
                Some(s)
            },
            None => None,
        }
    }
}

impl SubTy {
    /// A borrowing traversal over the children of the node this reference
    /// stands for.
    pub fn iter(&self) -> (r: Iter<'_>)
        requires
            sub_wf(*self),
        ensures
            r.root() == sub_ty(*self),
            r.cursor() == 0,
            r.wf(),
    {
        Iter::new(self.as_ty())
    }
}

impl Ty {
    /// A borrowing traversal over this node's children.
    pub fn iter(&self) -> (r: Iter<'_>)
        requires
            ty_wf(*self),
        ensures
            r.root() == *self,
            r.cursor() == 0,
            r.wf(),
    {
        Iter::new(self)
    }
}

} // verus!

