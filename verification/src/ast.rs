//! The generic recursive type node: a structural class plus a bounded,
//! ordered collection of child references. Any concrete schema type is
//! projected onto this form for structural reasoning; the validating
//! traversal works on it exclusively.

use vstd::prelude::*;

use crate::path::{step_index, Path, Step};
use crate::schema::{PrimitiveType, TypeName};

verus! {

/// Most immediate children a single type node may have: positions are
/// addressed by one byte.
pub const MAX_SUBTYPE_COUNT: usize = 255;

/// The structural category of a type node. Two nodes match only if their
/// classes are equal and, recursively, their children match.
#[derive(Copy, Clone, PartialEq, Eq, Structural, Debug)]
pub enum Cls {
    /// A primitive of the given kind (other than the two string shapes).
    Primitive(PrimitiveType),
    /// A Unicode string.
    Unicode,
    /// An opaque byte string.
    Bytes,
    /// A fixed array of the declared element count.
    Array(u16),
    /// A variable-length list.
    List,
    /// A set of distinct elements.
    SetOf,
    /// A map from keys to values.
    Mapping,
    /// A product type with ordered fields.
    Struct,
    /// A sum type with tagged alternatives.
    Union,
}

/// The class a primitive kind projects onto: the two string shapes have
/// classes of their own.
pub open spec fn prim_cls(p: PrimitiveType) -> Cls {
    match p {
        PrimitiveType::Unicode => Cls::Unicode,
        PrimitiveType::Bytes => Cls::Bytes,
        _ => Cls::Primitive(p),
    }
}

/// The structural class a declared shape projects onto.
pub open spec fn data_cls(d: crate::schema::DataType) -> Cls {
    match d {
        crate::schema::DataType::Primitive(p) => prim_cls(p),
        crate::schema::DataType::Union(_) => Cls::Union,
        crate::schema::DataType::Struct(_) => Cls::Struct,
        crate::schema::DataType::Array(size, _) => Cls::Array(size),
        crate::schema::DataType::List(_) => Cls::List,
        crate::schema::DataType::Mapping(_, _) => Cls::Mapping,
    }
}

impl crate::schema::DataType {
    /// The structural class this declared shape projects onto: how a node
    /// declared with it is classified during checks.
    pub fn cls(&self) -> (r: Cls)
        ensures
            r == data_cls(*self),
    {
        match self {
            crate::schema::DataType::Primitive(p) => match p {
                PrimitiveType::Unicode => Cls::Unicode,
                PrimitiveType::Bytes => Cls::Bytes,
                _ => Cls::Primitive(*p),
            },
            crate::schema::DataType::Union(_) => Cls::Union,
            crate::schema::DataType::Struct(_) => Cls::Struct,
            crate::schema::DataType::Array(size, _) => Cls::Array(*size),
            crate::schema::DataType::List(_) => Cls::List,
            crate::schema::DataType::Mapping(_, _) => Cls::Mapping,
        }
    }
}

/// A type node: its structural class and its ordered children.
pub struct Ty {
    pub cls: Cls,
    pub children: Vec<SubTy>,
}

/// A reference from a type node to one child. An inline reference owns the
/// child's definition directly; a named reference identifies a type
/// declared elsewhere and carries the shape that its name resolves to, as
/// the enclosing namespace would supply it. Comparisons use the resolved
/// shape, never the name: this is what makes recursive and shared type
/// graphs comparable.
pub enum SubTy {
    Inline(Box<Ty>),
    Named(TypeName, Box<Ty>),
}

/// The type node a child reference stands for.
pub open spec fn sub_ty(s: SubTy) -> Ty {
    match s {
        SubTy::Inline(t) => *t,
        SubTy::Named(_, t) => *t,
    }
}

/// Every node, recursively, keeps its child count within the one-byte
/// position bound.
pub open spec fn ty_wf(t: Ty) -> bool
    decreases t,
{
    &&& t.children@.len() <= MAX_SUBTYPE_COUNT
    &&& forall|i: int| 0 <= i < t.children@.len() ==> sub_wf(#[trigger] t.children@[i])
}

/// Well-formedness of the node a child reference stands for.
pub open spec fn sub_wf(s: SubTy) -> bool
    decreases s,
{
    match s {
        SubTy::Inline(t) => ty_wf(*t),
        SubTy::Named(_, t) => ty_wf(*t),
    }
}

/// Structural equality of two type nodes: same class, same child count,
/// children pairwise structurally equal.
pub open spec fn ty_equal(a: Ty, b: Ty) -> bool
    decreases a,
{
    &&& a.cls == b.cls
    &&& a.children@.len() == b.children@.len()
    &&& forall|i: int|
        0 <= i < a.children@.len() ==> sub_equal(#[trigger] a.children@[i], b.children@[i])
}

/// Structural equality of two child references: their resolved shapes are
/// equal. Whether either side is inline or named, and under which name, is
/// deliberately ignored.
pub open spec fn sub_equal(x: SubTy, y: SubTy) -> bool
    decreases x,
{
    match x {
        SubTy::Inline(t) => ty_equal(*t, sub_ty(y)),
        SubTy::Named(_, t) => ty_equal(*t, sub_ty(y)),
    }
}

/// Identity of two type nodes as written: same class, and children
/// pairwise identical, reference kinds and names included. Stronger than
/// `ty_equal`.
pub open spec fn ty_same(a: Ty, b: Ty) -> bool
    decreases a,
{
    &&& a.cls == b.cls
    &&& a.children@.len() == b.children@.len()
    &&& forall|i: int|
        0 <= i < a.children@.len() ==> sub_same(#[trigger] a.children@[i], b.children@[i])
}

/// Identity of two child references as written.
pub open spec fn sub_same(x: SubTy, y: SubTy) -> bool
    decreases x,
{
    match x {
        SubTy::Inline(t) => y matches SubTy::Inline(u) && ty_same(*t, *u),
        SubTy::Named(n, t) => y matches SubTy::Named(m, u) && n@ == m@ && ty_same(*t, *u),
    }
}

/// The child reference at a one-byte position, if the node has one.
pub open spec fn ty_child(t: Ty, pos: u8) -> Option<SubTy> {
    if pos < t.children@.len() {
        Some(t.children@[pos as int])
    } else {
        None
    }
}

/// Resolves a path against a root node by repeated single-step lookups.
pub open spec fn at_path_spec(t: Ty, path: Seq<Step>) -> Option<Ty>
    decreases path.len(),
{
    if path.len() == 0 {
        Some(t)
    } else {
        match ty_child(t, step_index(path[0])) {
            Some(s) => at_path_spec(sub_ty(s), path.drop_first()),
            None => None,
        }
    }
}

impl SubTy {
    /// Borrows the node this reference stands for.
    pub fn as_ty(&self) -> (r: &Ty)
        ensures
            *r == sub_ty(*self),
    {
        match self {
            SubTy::Inline(t) => &**t,
            SubTy::Named(_, t) => &**t,
        }
    }

    /// Takes the node this reference stands for.
    pub fn into_ty(self) -> (r: Ty)
        ensures
            r == sub_ty(self),
    {
        match self {
            SubTy::Inline(t) => *t,
            SubTy::Named(_, t) => *t,
        }
    }

    /// Structural equality against another reference: compares the
    /// resolved shapes, never the names.
    pub fn structural_eq(&self, other: &SubTy) -> (r: bool)
        ensures
            r == sub_equal(*self, *other),
        decreases *self,
    {
        match self {
            SubTy::Inline(t) => t.structural_eq(other.as_ty()),
            SubTy::Named(_, t) => t.structural_eq(other.as_ty()),
        }
    }
}

impl Ty {
    /// A leaf node for a primitive kind; the two string kinds project onto
    /// classes of their own.
    pub fn primitive(p: PrimitiveType) -> (r: Ty)
        ensures
            r.cls == prim_cls(p),
            r.children@.len() == 0,
            ty_wf(r),
    {
        let cls = match p {
            PrimitiveType::Unicode => Cls::Unicode,
            PrimitiveType::Bytes => Cls::Bytes,
            _ => Cls::Primitive(p),
        };
        Ty { cls, children: Vec::new() }
    }

    /// A node of the given class over the given children. Succeeds exactly
    /// when the child count stays within the one-byte position bound.
    pub fn new(cls: Cls, children: Vec<SubTy>) -> (r: Option<Ty>)
        requires
            forall|i: int| 0 <= i < children@.len() ==> sub_wf(#[trigger] children@[i]),
        ensures
            r is Some <==> children@.len() <= MAX_SUBTYPE_COUNT,
            r matches Some(t) ==> t.cls == cls && t.children@ == children@ && ty_wf(t),
    {
        if children.len() <= MAX_SUBTYPE_COUNT {
            Some(Ty { cls, children })
        } else {
            None
        }
    }

    /// The structural class of this node.
    pub fn cls(&self) -> (r: Cls)
        ensures
            r == self.cls,
    {
        self.cls
    }

    /// The total number of immediate children, used by the traversal to
    /// know when a level is fully visited.
    pub fn count_subtypes(&self) -> (r: u8)
        requires
            ty_wf(*self),
        ensures
            r as int == self.children@.len(),
    {
        self.children.len() as u8
    }

    /// The child reference at the given position, or nothing where the
    /// node has no such child.
    pub fn ty_at(&self, pos: u8) -> (r: Option<&SubTy>)
        ensures
            match r {
                Some(s) => ty_child(*self, pos) == Some(*s),
                None => ty_child(*self, pos) is None,
            },
    {
        if (pos as usize) < self.children.len() {
            Some(&self.children[pos as usize])
        } else {
            None
        }
    }

    /// Resolves a full path from this root by repeated single-step
    /// lookups; nothing is returned where some intermediate position does
    /// not exist.
    pub fn at_path(&self, path: &Path) -> (r: Option<&Ty>)
        ensures
            match r {
                Some(t) => at_path_spec(*self, path@) == Some(*t),
                None => at_path_spec(*self, path@) is None,
            },
    {
        let mut cur: &Ty = self;
        let mut i: usize = 0;
        proof {
            assert(path@.skip(0) =~= path@);
        }
        while i < path.len()
            invariant
                0 <= i <= path@.len(),
                at_path_spec(*self, path@) == at_path_spec(*cur, path@.skip(i as int)),
            decreases path@.len() - i,
        {
            proof {
                assert(path@.skip(i as int).drop_first() =~= path@.skip(i as int + 1));
            }
            let step = path.step_at(i);
            let idx = step.index() as usize;
            if idx < cur.children.len() {
                cur = self_child(cur, idx);
            } else {
                return None;
            }
            i += 1;
        }
        proof {
            assert(path@.skip(path@.len() as int) =~= Seq::<Step>::empty());
        }
        Some(cur)
    }

    /// Structural equality against another node: same class, same child
    /// count, children pairwise structurally equal.
    pub fn structural_eq(&self, other: &Ty) -> (r: bool)
        ensures
            r == ty_equal(*self, *other),
        decreases *self,
    {
        if !(self.cls == other.cls) {
            return false;
        }
        if self.children.len() != other.children.len() {
            return false;
        }
        let mut i: usize = 0;
        while i < self.children.len()
            invariant
                0 <= i <= self.children@.len(),
                self.children@.len() == other.children@.len(),
                self.cls == other.cls,
                forall|k: int|
                    0 <= k < i ==> sub_equal(#[trigger] self.children@[k], other.children@[k]),
            decreases self.children@.len() - i,
        {
            proof {
                assert(decreases_to!(*self => self.children@[i as int]));
            }
            if !self.children[i].structural_eq(&other.children[i]) {
                return false;
            }
            i += 1;
        }
        true
    }
}

impl PartialEq for Ty {
    fn eq(&self, other: &Ty) -> (r: bool) {
        self.structural_eq(other)
    }
}

impl vstd::std_specs::cmp::PartialEqSpecImpl for Ty {
    open spec fn obeys_eq_spec() -> bool {
        true
    }

    open spec fn eq_spec(&self, other: &Ty) -> bool {
        ty_equal(*self, *other)
    }
}

impl PartialEq for SubTy {
    fn eq(&self, other: &SubTy) -> (r: bool) {
        self.structural_eq(other)
    }
}

impl vstd::std_specs::cmp::PartialEqSpecImpl for SubTy {
    open spec fn obeys_eq_spec() -> bool {
        true
    }

    open spec fn eq_spec(&self, other: &SubTy) -> bool {
        sub_equal(*self, *other)
    }
}

impl Clone for Ty {
    fn clone(&self) -> (r: Ty)
        ensures
            ty_same(r, *self),
        decreases *self,
    {
        let mut children: Vec<SubTy> = Vec::new();
        let mut i: usize = 0;
        while i < self.children.len()
            invariant
                0 <= i <= self.children@.len(),
                children@.len() == i,
                forall|k: int|
                    0 <= k < i ==> sub_same(#[trigger] children@[k], self.children@[k]),
            decreases self.children@.len() - i,
        {
            proof {
                assert(decreases_to!(*self => self.children@[i as int]));
            }
            children.push(self.children[i].clone());
            i += 1;
        }
        Ty { cls: self.cls, children }
    }
}

impl Clone for SubTy {
    fn clone(&self) -> (r: SubTy)
        ensures
            sub_same(r, *self),
        decreases *self,
    {
        match self {
            SubTy::Inline(t) => SubTy::Inline(Box::new((**t).clone())),
            SubTy::Named(n, t) => SubTy::Named(n.clone(), Box::new((**t).clone())),
        }
    }
}

/// Structural equality is reflexive: every type node equals itself.
pub proof fn lemma_ty_equal_reflexive(t: Ty)
    ensures
        ty_equal(t, t),
    decreases t,
{
    assert forall|i: int| 0 <= i < t.children@.len() implies sub_equal(
        #[trigger] t.children@[i],
        t.children@[i],
    ) by {
        lemma_sub_equal_reflexive(t.children@[i]);
    }
}

/// Structural equality of child references is reflexive.
pub proof fn lemma_sub_equal_reflexive(s: SubTy)
    ensures
        sub_equal(s, s),
    decreases s,
{
    match s {
        SubTy::Inline(t) => lemma_ty_equal_reflexive(*t),
        SubTy::Named(_, t) => lemma_ty_equal_reflexive(*t),
    }
}

/// Structural equality is symmetric: the order of comparison never
/// matters.
pub proof fn lemma_ty_equal_symmetric(a: Ty, b: Ty)
    ensures
        ty_equal(a, b) == ty_equal(b, a),
    decreases a,
{
    if ty_equal(a, b) {
        assert forall|i: int| 0 <= i < b.children@.len() implies sub_equal(
            #[trigger] b.children@[i],
            a.children@[i],
        ) by {
            lemma_sub_equal_symmetric(a.children@[i], b.children@[i]);
        }
    }
    if ty_equal(b, a) {
        assert forall|i: int| 0 <= i < a.children@.len() implies sub_equal(
            #[trigger] a.children@[i],
            b.children@[i],
        ) by {
            lemma_sub_equal_symmetric(a.children@[i], b.children@[i]);
        }
    }
}

/// Structural equality of child references is symmetric.
pub proof fn lemma_sub_equal_symmetric(x: SubTy, y: SubTy)
    ensures
        sub_equal(x, y) == sub_equal(y, x),
    decreases x,
{
    lemma_ty_equal_symmetric(sub_ty(x), sub_ty(y));
}

/// Structural equality respects recursion through references: two child
/// references are equal exactly when the shapes they stand for are equal,
/// whether each is held inline or reached by name.
pub proof fn lemma_sub_equal_ignores_reference_kind(x: SubTy, y: SubTy)
    ensures
        sub_equal(x, y) == ty_equal(sub_ty(x), sub_ty(y)),
{
}

/// Identical nodes are structurally equal: identity as written is the
/// stronger relation.
pub proof fn lemma_ty_same_implies_equal(a: Ty, b: Ty)
    requires
        ty_same(a, b),
    ensures
        ty_equal(a, b),
    decreases a,
{
    assert forall|i: int| 0 <= i < a.children@.len() implies sub_equal(
        #[trigger] a.children@[i],
        b.children@[i],
    ) by {
        lemma_sub_same_implies_equal(a.children@[i], b.children@[i]);
    }
}

/// Identical child references are structurally equal.
pub proof fn lemma_sub_same_implies_equal(x: SubTy, y: SubTy)
    requires
        sub_same(x, y),
    ensures
        sub_equal(x, y),
    decreases x,
{
    match x {
        SubTy::Inline(t) => lemma_ty_same_implies_equal(*t, sub_ty(y)),
        SubTy::Named(_, t) => lemma_ty_same_implies_equal(*t, sub_ty(y)),
    }
}

/// A path that resolves keeps resolving after its last step is removed:
/// every prefix of a reachable location is reachable.
pub proof fn lemma_at_path_prefix(t: Ty, path: Seq<Step>)
    requires
        path.len() > 0,
        at_path_spec(t, path) is Some,
    ensures
        at_path_spec(t, path.drop_last()) is Some,
    decreases path.len(),
{
    if path.len() == 1 {
        assert(path.drop_last() =~= Seq::<Step>::empty());
    } else {
        let child = ty_child(t, step_index(path[0])).unwrap();
        lemma_at_path_prefix(sub_ty(child), path.drop_first());
        assert(path.drop_last()[0] == path[0]);
        assert(path.drop_last().drop_first() =~= path.drop_first().drop_last());
    }
}

/// Borrows the child reference's node at the given position.
fn self_child<'a>(t: &'a Ty, idx: usize) -> (r: &'a Ty)
    requires
        idx < t.children@.len(),
    ensures
        *r == sub_ty(t.children@[idx as int]),
{
    t.children[idx].as_ty()
}

} // verus!
