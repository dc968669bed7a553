//! The concrete schema vocabulary: the primitive catalogue with its stable
//! wire codes, type references, struct/union/array/list/map descriptors, and
//! the namespace of uniquely named struct types.

use vstd::prelude::*;
use vstd::string::StringSliceAdditionalSpecFns;

verus! {

/// Shortest name a type may carry.
pub const TYPE_NAME_MIN_LEN: usize = 1;
/// Longest name a type may carry.
pub const TYPE_NAME_MAX_LEN: usize = 32;

/// A type name is a non-empty ASCII string of at most `TYPE_NAME_MAX_LEN`
/// characters.
pub open spec fn valid_type_name(s: Seq<char>) -> bool {
    &&& TYPE_NAME_MIN_LEN <= s.len() <= TYPE_NAME_MAX_LEN
    &&& vstd::utf8::is_ascii_chars(s)
}

/// A bounded-length ASCII identifier naming a type declared in some
/// namespace. Values are valid by construction: the only constructor
/// checks `valid_type_name`.
#[derive(Eq, Debug)]
pub struct TypeName {
    name: String,
}

impl View for TypeName {
    type V = Seq<char>;

    closed spec fn view(&self) -> Seq<char> {
        self.name@
    }
}

impl TypeName {
    /// Accepts exactly the strings that form a valid type name.
    pub fn new(s: &str) -> (r: Option<TypeName>)
        ensures
            r is Some <==> valid_type_name(s@),
            r matches Some(n) ==> n@ == s@,
    {
        if s.is_ascii() {
            proof {
                vstd::string::is_ascii_spec_bytes(s);
                assert(s.spec_bytes().len() == s@.len());
            }
            let len = s.as_bytes().len();
            if TYPE_NAME_MIN_LEN <= len && len <= TYPE_NAME_MAX_LEN {
                Some(TypeName { name: s.to_owned() })
            } else {
                None
            }
        } else {
            None
        }
    }

    /// The name as a borrowed string.
    pub fn as_str(&self) -> (r: &str)
        ensures
            r@ == self@,
    {
        self.name.as_str()
    }
}

impl Clone for TypeName {
    fn clone(&self) -> (r: TypeName)
        ensures
            r == *self,
    {
        TypeName { name: self.name.clone() }
    }
}

impl PartialEq for TypeName {
    fn eq(&self, other: &TypeName) -> (r: bool) {
        self.name == other.name
    }
}

impl vstd::std_specs::cmp::PartialEqSpecImpl for TypeName {
    open spec fn obeys_eq_spec() -> bool {
        true
    }

    open spec fn eq_spec(&self, other: &TypeName) -> bool {
        self@ == other@
    }
}

/// Closed catalogue of primitive kinds. The declaration order follows the
/// numeric wire codes, so the derived ordering is the canonical code order.
#[derive(Copy, Clone, PartialEq, Eq, Structural, Debug, Hash, PartialOrd, Ord)]
pub enum PrimitiveType {
    U8,
    U16,
    U32,
    U64,
    U128,
    U256,
    U512,
    U1024,
    I8,
    I16,
    I32,
    I64,
    I128,
    I256,
    I512,
    I1024,
    F16b,
    F16,
    F32,
    F64,
    F80,
    F128,
    F256,
    F512,
    Unicode,
    Bytes,
}

/// The stable numeric code of a primitive kind: its canonical on-wire tag.
/// These values are part of the wire format and must never be renumbered.
pub open spec fn prim_code(p: PrimitiveType) -> u8 {
    match p {
        PrimitiveType::U8 => 0x00,
        PrimitiveType::U16 => 0x01,
        PrimitiveType::U32 => 0x02,
        PrimitiveType::U64 => 0x03,
        PrimitiveType::U128 => 0x04,
        PrimitiveType::U256 => 0x05,
        PrimitiveType::U512 => 0x06,
        PrimitiveType::U1024 => 0x07,
        PrimitiveType::I8 => 0x10,
        PrimitiveType::I16 => 0x11,
        PrimitiveType::I32 => 0x12,
        PrimitiveType::I64 => 0x13,
        PrimitiveType::I128 => 0x14,
        PrimitiveType::I256 => 0x15,
        PrimitiveType::I512 => 0x16,
        PrimitiveType::I1024 => 0x17,
        PrimitiveType::F16b => 0x30,
        PrimitiveType::F16 => 0x31,
        PrimitiveType::F32 => 0x32,
        PrimitiveType::F64 => 0x33,
        PrimitiveType::F80 => 0x34,
        PrimitiveType::F128 => 0x35,
        PrimitiveType::F256 => 0x36,
        PrimitiveType::F512 => 0x37,
        PrimitiveType::Unicode => 0xFE,
        PrimitiveType::Bytes => 0xFF,
    }
}

/// The primitive kind a numeric code stands for, if any: the exact inverse
/// of `prim_code`.
pub open spec fn prim_of_code(code: u8) -> Option<PrimitiveType> {
    match code {
        0x00 => Some(PrimitiveType::U8),
        0x01 => Some(PrimitiveType::U16),
        0x02 => Some(PrimitiveType::U32),
        0x03 => Some(PrimitiveType::U64),
        0x04 => Some(PrimitiveType::U128),
        0x05 => Some(PrimitiveType::U256),
        0x06 => Some(PrimitiveType::U512),
        0x07 => Some(PrimitiveType::U1024),
        0x10 => Some(PrimitiveType::I8),
        0x11 => Some(PrimitiveType::I16),
        0x12 => Some(PrimitiveType::I32),
        0x13 => Some(PrimitiveType::I64),
        0x14 => Some(PrimitiveType::I128),
        0x15 => Some(PrimitiveType::I256),
        0x16 => Some(PrimitiveType::I512),
        0x17 => Some(PrimitiveType::I1024),
        0x30 => Some(PrimitiveType::F16b),
        0x31 => Some(PrimitiveType::F16),
        0x32 => Some(PrimitiveType::F32),
        0x33 => Some(PrimitiveType::F64),
        0x34 => Some(PrimitiveType::F80),
        0x35 => Some(PrimitiveType::F128),
        0x36 => Some(PrimitiveType::F256),
        0x37 => Some(PrimitiveType::F512),
        0xFE => Some(PrimitiveType::Unicode),
        0xFF => Some(PrimitiveType::Bytes),
        _ => None,
    }
}

impl PrimitiveType {
    /// Encodes this primitive kind as its one-byte wire tag.
    pub fn to_code(self) -> (r: u8)
        ensures
            r == prim_code(self),
    {
        match self {
            PrimitiveType::U8 => 0x00,
            PrimitiveType::U16 => 0x01,
            PrimitiveType::U32 => 0x02,
            PrimitiveType::U64 => 0x03,
            PrimitiveType::U128 => 0x04,
            PrimitiveType::U256 => 0x05,
            PrimitiveType::U512 => 0x06,
            PrimitiveType::U1024 => 0x07,
            PrimitiveType::I8 => 0x10,
            PrimitiveType::I16 => 0x11,
            PrimitiveType::I32 => 0x12,
            PrimitiveType::I64 => 0x13,
            PrimitiveType::I128 => 0x14,
            PrimitiveType::I256 => 0x15,
            PrimitiveType::I512 => 0x16,
            PrimitiveType::I1024 => 0x17,
            PrimitiveType::F16b => 0x30,
            PrimitiveType::F16 => 0x31,
            PrimitiveType::F32 => 0x32,
            PrimitiveType::F64 => 0x33,
            PrimitiveType::F80 => 0x34,
            PrimitiveType::F128 => 0x35,
            PrimitiveType::F256 => 0x36,
            PrimitiveType::F512 => 0x37,
            PrimitiveType::Unicode => 0xFE,
            PrimitiveType::Bytes => 0xFF,
        }
    }

    /// Decodes a one-byte wire tag back into a primitive kind.
    pub fn from_code(code: u8) -> (r: Option<PrimitiveType>)
        ensures
            r == prim_of_code(code),
    {
        match code {
            0x00 => Some(PrimitiveType::U8),
            0x01 => Some(PrimitiveType::U16),
            0x02 => Some(PrimitiveType::U32),
            0x03 => Some(PrimitiveType::U64),
            0x04 => Some(PrimitiveType::U128),
            0x05 => Some(PrimitiveType::U256),
            0x06 => Some(PrimitiveType::U512),
            0x07 => Some(PrimitiveType::U1024),
            0x10 => Some(PrimitiveType::I8),
            0x11 => Some(PrimitiveType::I16),
            0x12 => Some(PrimitiveType::I32),
            0x13 => Some(PrimitiveType::I64),
            0x14 => Some(PrimitiveType::I128),
            0x15 => Some(PrimitiveType::I256),
            0x16 => Some(PrimitiveType::I512),
            0x17 => Some(PrimitiveType::I1024),
            0x30 => Some(PrimitiveType::F16b),
            0x31 => Some(PrimitiveType::F16),
            0x32 => Some(PrimitiveType::F32),
            0x33 => Some(PrimitiveType::F64),
            0x34 => Some(PrimitiveType::F80),
            0x35 => Some(PrimitiveType::F128),
            0x36 => Some(PrimitiveType::F256),
            0x37 => Some(PrimitiveType::F512),
            0xFE => Some(PrimitiveType::Unicode),
            0xFF => Some(PrimitiveType::Bytes),
            _ => None,
        }
    }
}

/// Decoding is the exact inverse of encoding: every primitive kind comes
/// back from its own code, and a code decodes to a kind only if that kind
/// encodes to it.
pub proof fn lemma_prim_code_roundtrip(p: PrimitiveType, code: u8)
    ensures
        prim_of_code(prim_code(p)) == Some(p),
        prim_of_code(code) matches Some(q) ==> prim_code(q) == code,
{
}

/// A reference to a type used as a building block inside a composite
/// descriptor: either an inline primitive or a named reference to a type
/// declared elsewhere. A named reference never embeds a definition.
#[derive(Clone, PartialEq, Eq, Debug)]
pub enum TypeRef {
    Primitive(PrimitiveType),
    Named(TypeName),
}

/// The only legal shapes of a map key: a primitive, or a fixed-size array
/// of a primitive.
#[derive(Clone, PartialEq, Eq, Debug)]
pub enum KeyType {
    Primitive(PrimitiveType),
    Array(u16, PrimitiveType),
}

/// The declared shape of any field or nested element.
#[derive(Clone, PartialEq, Eq, Debug)]
pub enum DataType {
    Primitive(PrimitiveType),
    Union(TypeRef),
    Struct(TypeRef),
    Array(u16, TypeRef),
    List(TypeRef),
    Mapping(KeyType, TypeRef),
}

/// A type constructor applied to some building block: the general shapes a
/// composite declaration can take.
#[derive(Clone, PartialEq, Eq, Debug)]
pub enum TypeConstr<T> {
    Plain(T),
    Array(u16, T),
    List(T),
    SetOf(T),
    Mapping(KeyType, T),
}

/// One ordered member of a product type: its declared shape and an explicit
/// optionality flag.
#[derive(Clone, PartialEq, Eq, Debug)]
pub struct StructField {
    pub ty: DataType,
    pub optional: bool,
}

impl StructField {
    /// A mandatory field holding a struct type declared elsewhere under
    /// `name_str`; the name must be well-formed.
    pub fn new(name_str: &str) -> (r: StructField)
        requires
            valid_type_name(name_str@),
        ensures
            r.ty matches DataType::Struct(TypeRef::Named(n)) && n@ == name_str@,
            !r.optional,
    {
        let name = match TypeName::new(name_str) {
            Some(name) => name,
            None => vstd::pervasive::unreached(),
        };
        StructField { ty: DataType::Struct(TypeRef::Named(name)), optional: false }
    }

    /// A mandatory field of a primitive kind.
    pub fn primitive(prim: PrimitiveType) -> (r: StructField)
        ensures
            r == (StructField { ty: DataType::Primitive(prim), optional: false }),
    {
        StructField { ty: DataType::Primitive(prim), optional: false }
    }

    /// A mandatory field holding a variable-length list of `ty` elements.
    pub fn list(ty: TypeRef) -> (r: StructField)
        ensures
            r == (StructField { ty: DataType::List(ty), optional: false }),
    {
        StructField { ty: DataType::List(ty), optional: false }
    }

    /// A mandatory field holding a fixed-size array of `size` primitives.
    pub fn array(prim: PrimitiveType, size: u16) -> (r: StructField)
        ensures
            r == (StructField {
                ty: DataType::Array(size, TypeRef::Primitive(prim)),
                optional: false,
            }),
    {
        StructField { ty: DataType::Array(size, TypeRef::Primitive(prim)), optional: false }
    }

    /// An optional field of the given shape.
    pub fn optional(ty: DataType) -> (r: StructField)
        ensures
            r.ty == ty,
            r.optional,
    {
        StructField { ty, optional: true }
    }
}

/// Most members a single product or sum type may declare.
pub const MAX_MEMBER_COUNT: usize = 65535;

/// A product type: a non-empty ordered sequence of fields. Order is the
/// on-wire field order and the traversal visitation order.
#[derive(Clone, PartialEq, Eq, Debug)]
pub struct StructType {
    fields: Vec<StructField>,
}

impl View for StructType {
    type V = Seq<StructField>;

    closed spec fn view(&self) -> Seq<StructField> {
        self.fields@
    }
}

impl StructType {
    /// Accepts exactly the non-empty field sequences within the member
    /// bound.
    pub fn new(fields: Vec<StructField>) -> (r: Option<StructType>)
        ensures
            r is Some <==> 1 <= fields@.len() <= MAX_MEMBER_COUNT,
            r matches Some(t) ==> t@ == fields@,
    {
        if 1 <= fields.len() && fields.len() <= MAX_MEMBER_COUNT {
            Some(StructType { fields })
        } else {
            None
        }
    }

    /// How many fields the product type declares.
    pub fn len(&self) -> (r: usize)
        ensures
            r == self@.len(),
    {
        self.fields.len()
    }

    /// The field declared at position `pos`.
    pub fn field_at(&self, pos: usize) -> (r: &StructField)
        requires
            pos < self@.len(),
        ensures
            *r == self@[pos as int],
    {
        &self.fields[pos]
    }
}

/// A sum type restricted to primitive-typed variants: at least two distinct
/// kinds, kept in canonical (code) order.
pub open spec fn valid_union_variants(s: Seq<PrimitiveType>) -> bool {
    &&& 2 <= s.len() <= MAX_MEMBER_COUNT
    &&& forall|i: int, j: int|
        0 <= i < j < s.len() ==> prim_code(#[trigger] s[i]) < prim_code(#[trigger] s[j])
}

/// The closed tag space of a sum type: a canonically ordered set of at
/// least two distinct primitive kinds.
#[derive(Clone, PartialEq, Eq, Debug)]
pub struct UnionType {
    variants: Vec<PrimitiveType>,
}

impl View for UnionType {
    type V = Seq<PrimitiveType>;

    closed spec fn view(&self) -> Seq<PrimitiveType> {
        self.variants@
    }
}

impl UnionType {
    /// Accepts exactly the variant sequences that already stand in strictly
    /// ascending code order, with at least two of them.
    pub fn new(variants: Vec<PrimitiveType>) -> (r: Option<UnionType>)
        ensures
            r is Some <==> valid_union_variants(variants@),
            r matches Some(u) ==> u@ == variants@,
    {
        if variants.len() < 2 || variants.len() > MAX_MEMBER_COUNT {
            return None;
        }
        let mut i: usize = 1;
        while i < variants.len()
            invariant
                1 <= i <= variants@.len(),
                forall|k: int, l: int|
                    0 <= k < l < i ==> prim_code(#[trigger] variants@[k]) < prim_code(
                        #[trigger] variants@[l],
                    ),
            decreases variants@.len() - i,
        {
            if variants[i - 1].to_code() >= variants[i].to_code() {
                return None;
            }
            i += 1;
        }
        Some(UnionType { variants })
    }

    /// Builds the canonical variant set from members listed in any order,
    /// ignoring repeats: the result holds exactly the listed kinds, in
    /// code order. Succeeds exactly when at least two distinct kinds are
    /// listed.
    pub fn from_members(members: &Vec<PrimitiveType>) -> (r: Option<UnionType>)
        ensures
            r is None <==> forall|i: int, j: int|
                0 <= i < members@.len() && 0 <= j < members@.len() ==> members@[i] == members@[j],
            r matches Some(u) ==> {
                &&& valid_union_variants(u@)
                &&& forall|p: PrimitiveType| u@.contains(p) <==> members@.contains(p)
            },
    {
        let mut out: Vec<PrimitiveType> = Vec::new();
        let mut code: u16 = 0;
        while code < 256
            invariant
                0 <= code <= 256,
                out@.len() <= code,
                forall|k: int, l: int|
                    0 <= k < l < out@.len() ==> prim_code(#[trigger] out@[k]) < prim_code(
                        #[trigger] out@[l],
                    ),
                forall|k: int| 0 <= k < out@.len() ==> prim_code(#[trigger] out@[k]) < code,
                forall|p: PrimitiveType|
                    #[trigger] out@.contains(p) <==> members@.contains(p) && prim_code(p) < code,
            decreases 256 - code,
        {
            match PrimitiveType::from_code(code as u8) {
                Some(p) => {
                    if contains_prim(members, p) {
                        let ghost prev = out@;
                        out.push(p);
                        proof {
                            assert(out@ == prev.push(p));
                            assert forall|q: PrimitiveType| #[trigger]
                                out@.contains(q) <==> members@.contains(q) && prim_code(q) < code
                                + 1 by {
                                if out@.contains(q) {
                                    let k = choose|k: int|
                                        0 <= k < out@.len() && out@[k] == q;
                                    if k < prev.len() {
                                        assert(prev[k] == q);
                                        assert(prev.contains(q));
                                    } else {
                                        assert(q == p);
                                    }
                                }
                                if members@.contains(q) && prim_code(q) < code + 1 {
                                    if prim_code(q) == code {
                                        lemma_prim_code_roundtrip(q, code as u8);
                                        assert(q == p);
                                        assert(out@[prev.len() as int] == q);
                                    } else {
                                        assert(prev.contains(q));
                                        let k = choose|k: int|
                                            0 <= k < prev.len() && prev[k] == q;
                                        assert(out@[k] == q);
                                    }
                                }
                            }
                        }
                    }
                },
                None => {
                    proof {
                        assert forall|q: PrimitiveType| #[trigger]
                            out@.contains(q) <==> members@.contains(q) && prim_code(q) < code
                            + 1 by {
                            if members@.contains(q) && prim_code(q) < code + 1 {
                                lemma_prim_code_roundtrip(q, code as u8);
                                assert(prim_code(q) != code);
                            }
                        }
                    }
                },
            }
            code += 1;
        }
        if out.len() >= 2 {
            proof {
                assert(exists|i: int, j: int|
                    0 <= i < members@.len() && 0 <= j < members@.len() && members@[i]
                        != members@[j]) by {
                    assert(out@.contains(out@[0]));
                    assert(out@.contains(out@[1]));
                }
            }
            Some(UnionType { variants: out })
        } else {
            proof {
                assert forall|i: int, j: int|
                    0 <= i < members@.len() && 0 <= j < members@.len() implies members@[i]
                    == members@[j] by {
                    assert(members@.contains(members@[i]));
                    assert(members@.contains(members@[j]));
                    assert(out@.contains(members@[i]));
                    assert(out@.contains(members@[j]));
                }
            }
            None
        }
    }

    /// How many variants the sum type declares.
    pub fn len(&self) -> (r: usize)
        ensures
            r == self@.len(),
    {
        self.variants.len()
    }

    /// The variant declared at position `pos`.
    pub fn variant_at(&self, pos: usize) -> (r: PrimitiveType)
        requires
            pos < self@.len(),
        ensures
            r == self@[pos as int],
    {
        self.variants[pos]
    }
}

/// Whether a primitive kind occurs among the listed members.
fn contains_prim(members: &Vec<PrimitiveType>, p: PrimitiveType) -> (r: bool)
    ensures
        r == members@.contains(p),
{
    let mut i: usize = 0;
    while i < members.len()
        invariant
            0 <= i <= members@.len(),
            forall|k: int| 0 <= k < i ==> members@[k] != p,
        decreases members@.len() - i,
    {
        if members[i] == p {
            return true;
        }
        i += 1;
    }
    false
}

/// Most entries a single namespace may hold.
pub const MAX_TYPE_COUNT: usize = 65535;

/// The ways schema construction can fail.
#[derive(Clone, PartialEq, Eq, Debug)]
pub enum Error {
    /// A type of this name is already registered.
    DuplicatedType(TypeName),
    /// The namespace has reached its size bound.
    Oversize,
}

/// A registry of uniquely named struct types: the unit of schema
/// composition. Entries are kept in registration order; no two entries
/// share a name.
#[derive(Clone, Debug)]
pub struct TypeSystem {
    entries: Vec<(TypeName, StructType)>,
}

impl View for TypeSystem {
    type V = Seq<(TypeName, StructType)>;

    closed spec fn view(&self) -> Seq<(TypeName, StructType)> {
        self.entries@
    }
}

/// Whether the namespace already holds an entry under the given name.
pub open spec fn sys_contains_name(sys: TypeSystem, name: Seq<char>) -> bool {
    exists|i: int| 0 <= i < sys@.len() && (#[trigger] sys@[i]).0@ == name
}

/// No two entries share a name, and the entry count stays within the size
/// bound.
pub open spec fn sys_wf(sys: TypeSystem) -> bool {
    &&& sys@.len() <= MAX_TYPE_COUNT
    &&& forall|i: int, j: int|
        0 <= i < j < sys@.len() ==> (#[trigger] sys@[i]).0@ != (#[trigger] sys@[j]).0@
}

impl Default for TypeSystem {
    /// The empty namespace.
    fn default() -> (r: TypeSystem)
        ensures
            r@ == Seq::<(TypeName, StructType)>::empty(),
            sys_wf(r),
    {
        TypeSystem { entries: Vec::new() }
    }
}

impl TypeSystem {
    /// The empty namespace.
    pub fn new() -> (r: TypeSystem)
        ensures
            r@ == Seq::<(TypeName, StructType)>::empty(),
            sys_wf(r),
    {
        TypeSystem { entries: Vec::new() }
    }

    /// How many types the namespace holds.
    pub fn len(&self) -> (r: usize)
        ensures
            r == self@.len(),
    {
        self.entries.len()
    }

    /// The entry registered at position `pos`.
    pub fn entry_at(&self, pos: usize) -> (r: &(TypeName, StructType))
        requires
            pos < self@.len(),
        ensures
            *r == self@[pos as int],
    {
        &self.entries[pos]
    }

    /// Whether a type of the given name is already registered.
    pub fn contains_key(&self, name: &TypeName) -> (r: bool)
        ensures
            r == sys_contains_name(*self, name@),
    {
        let mut i: usize = 0;
        while i < self.entries.len()
            invariant
                0 <= i <= self@.len(),
                forall|k: int| 0 <= k < i ==> (#[trigger] self@[k]).0@ != name@,
            decreases self@.len() - i,
        {
            if self.entries[i].0 == *name {
                return true;
            }
            i += 1;
        }
        false
    }

    /// Registers a struct type under a fresh name. Fails with
    /// `DuplicatedType` when the name is taken, and with `Oversize` when
    /// the namespace is full; the namespace is unchanged on failure.
    pub fn push(&mut self, name: TypeName, ty: StructType) -> (r: Result<(), Error>)
        requires
            sys_wf(*old(self)),
        ensures
            sys_wf(*final(self)),
            sys_contains_name(*old(self), name@) ==> r == Err::<(), Error>(Error::DuplicatedType(name))
                && *final(self) == *old(self),
            !sys_contains_name(*old(self), name@) && old(self)@.len() < MAX_TYPE_COUNT ==> r
                == Ok::<(), Error>(()) && final(self)@ == old(self)@.push((name, ty)),
            !sys_contains_name(*old(self), name@) && old(self)@.len() >= MAX_TYPE_COUNT ==> r
                == Err::<(), Error>(Error::Oversize) && *final(self) == *old(self),
    {
        if self.contains_key(&name) {
            return Err(Error::DuplicatedType(name));
        }
        if self.entries.len() >= MAX_TYPE_COUNT {
            return Err(Error::Oversize);
        }
        self.entries.push((name, ty));
        Ok(())
    }
}

} // verus!
