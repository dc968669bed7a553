//! The schema's textual notation: every descriptor renders to the exact
//! character sequence the corresponding spec function describes, e.g.
//! `U32`, `Txid*32` or `{U8} -> Bytes`. A presentation concern, kept
//! because it doubles as documentation of the grammar.

use vstd::prelude::*;

use crate::schema::{
    DataType, KeyType, PrimitiveType, StructField, StructType, TypeName, TypeRef, TypeSystem,
    UnionType,
};

verus! {

/// The characters of one decimal digit.
pub open spec fn digit_seq(d: int) -> Seq<char> {
    if d == 0 {
        "0"@
    } else if d == 1 {
        "1"@
    } else if d == 2 {
        "2"@
    } else if d == 3 {
        "3"@
    } else if d == 4 {
        "4"@
    } else if d == 5 {
        "5"@
    } else if d == 6 {
        "6"@
    } else if d == 7 {
        "7"@
    } else if d == 8 {
        "8"@
    } else {
        "9"@
    }
}

/// The usual decimal notation of a non-negative number, most significant
/// digit first and without leading zeroes.
pub open spec fn dec_chars(n: int) -> Seq<char>
    recommends
        n >= 0,
    decreases n,
{
    if n < 10 {
        digit_seq(n)
    } else {
        dec_chars(n / 10) + digit_seq(n % 10)
    }
}

/// The notation of a primitive kind: its catalogue name.
pub open spec fn prim_chars(p: PrimitiveType) -> Seq<char> {
    match p {
        PrimitiveType::U8 => "U8"@,
        PrimitiveType::U16 => "U16"@,
        PrimitiveType::U32 => "U32"@,
        PrimitiveType::U64 => "U64"@,
        PrimitiveType::U128 => "U128"@,
        PrimitiveType::U256 => "U256"@,
        PrimitiveType::U512 => "U512"@,
        PrimitiveType::U1024 => "U1024"@,
        PrimitiveType::I8 => "I8"@,
        PrimitiveType::I16 => "I16"@,
        PrimitiveType::I32 => "I32"@,
        PrimitiveType::I64 => "I64"@,
        PrimitiveType::I128 => "I128"@,
        PrimitiveType::I256 => "I256"@,
        PrimitiveType::I512 => "I512"@,
        PrimitiveType::I1024 => "I1024"@,
        PrimitiveType::F16b => "F16b"@,
        PrimitiveType::F16 => "F16"@,
        PrimitiveType::F32 => "F32"@,
        PrimitiveType::F64 => "F64"@,
        PrimitiveType::F80 => "F80"@,
        PrimitiveType::F128 => "F128"@,
        PrimitiveType::F256 => "F256"@,
        PrimitiveType::F512 => "F512"@,
        PrimitiveType::Unicode => "Unicode"@,
        PrimitiveType::Bytes => "Bytes"@,
    }
}

/// The notation of a type reference: the primitive's name, or the named
/// type's name.
pub open spec fn ref_chars(r: TypeRef) -> Seq<char> {
    match r {
        TypeRef::Primitive(p) => prim_chars(p),
        TypeRef::Named(n) => n@,
    }
}

/// The notation of a map key: `U8`, or `U8[32]` for a fixed array key.
pub open spec fn key_chars(k: KeyType) -> Seq<char> {
    match k {
        KeyType::Primitive(p) => prim_chars(p),
        KeyType::Array(size, p) => prim_chars(p) + "["@ + dec_chars(size as int) + "]"@,
    }
}

/// The notation of a declared shape: `U32`, `Txid*32`, `Bytes*`,
/// `{U8} -> Bytes` and the like.
pub open spec fn data_chars(d: DataType) -> Seq<char> {
    match d {
        DataType::Primitive(p) => prim_chars(p),
        DataType::Union(r) => ref_chars(r),
        DataType::Struct(r) => ref_chars(r),
        DataType::Array(size, r) => ref_chars(r) + "*"@ + dec_chars(size as int),
        DataType::List(r) => ref_chars(r) + "*"@,
        DataType::Mapping(k, r) => "{"@ + key_chars(k) + "} -> "@ + ref_chars(r),
    }
}

/// The notation of one struct field: its shape, with `?` marking an
/// optional field.
pub open spec fn field_chars(f: StructField) -> Seq<char> {
    if f.optional {
        data_chars(f.ty) + "?"@
    } else {
        data_chars(f.ty)
    }
}

/// The notation of the first `k` fields of a product type, separated by
/// `, ` with no separator after the last declared field.
pub open spec fn fields_chars_upto(s: Seq<StructField>, k: int) -> Seq<char>
    decreases k,
{
    if k <= 0 {
        Seq::<char>::empty()
    } else if k < s.len() {
        fields_chars_upto(s, k - 1) + field_chars(s[k - 1]) + ", "@
    } else {
        fields_chars_upto(s, k - 1) + field_chars(s[k - 1])
    }
}

/// The notation of a product type: its fields in order.
pub open spec fn struct_chars(s: Seq<StructField>) -> Seq<char> {
    fields_chars_upto(s, s.len() as int)
}

/// The notation of the first `k` variants of a sum type, separated by
/// ` | `.
pub open spec fn variants_chars_upto(s: Seq<PrimitiveType>, k: int) -> Seq<char>
    decreases k,
{
    if k <= 0 {
        Seq::<char>::empty()
    } else if k < s.len() {
        variants_chars_upto(s, k - 1) + prim_chars(s[k - 1]) + " | "@
    } else {
        variants_chars_upto(s, k - 1) + prim_chars(s[k - 1])
    }
}

/// The notation of a sum type: its variants in canonical order.
pub open spec fn union_chars(s: Seq<PrimitiveType>) -> Seq<char> {
    variants_chars_upto(s, s.len() as int)
}

/// The notation of the first `k` entries of a namespace, one
/// `Name :: fields` line each.
pub open spec fn system_chars_upto(es: Seq<(TypeName, StructType)>, k: int) -> Seq<char>
    decreases k,
{
    if k <= 0 {
        Seq::<char>::empty()
    } else {
        system_chars_upto(es, k - 1) + es[k - 1].0@ + " :: "@ + struct_chars(es[k - 1].1@) + "\n"@
    }
}

/// The notation of a namespace: its entries in registration order.
pub open spec fn system_chars(es: Seq<(TypeName, StructType)>) -> Seq<char> {
    system_chars_upto(es, es.len() as int)
}

/// The literal for one decimal digit.
fn digit_str(d: u16) -> (r: &'static str)
    requires
        d < 10,
    ensures
        r@ == digit_seq(d as int),
{
    match d {
        0 => "0",
        1 => "1",
        2 => "2",
        3 => "3",
        4 => "4",
        5 => "5",
        6 => "6",
        7 => "7",
        8 => "8",
        _ => "9",
    }
}

/// Renders a number in decimal notation.
fn dec_string(n: u16) -> (r: String)
    ensures
        r@ == dec_chars(n as int),
    decreases n,
{
    if n < 10 {
        String::from_str(digit_str(n))
    } else {
        let mut s = dec_string(n / 10);
        s.append(digit_str(n % 10));
        s
    }
}

impl PrimitiveType {
    /// The notation of this primitive kind.
    pub fn display_string(&self) -> (r: String)
        ensures
            r@ == prim_chars(*self),
    {
        String::from_str(
            match self {
                PrimitiveType::U8 => "U8",
                PrimitiveType::U16 => "U16",
                PrimitiveType::U32 => "U32",
                PrimitiveType::U64 => "U64",
                PrimitiveType::U128 => "U128",
                PrimitiveType::U256 => "U256",
                PrimitiveType::U512 => "U512",
                PrimitiveType::U1024 => "U1024",
                PrimitiveType::I8 => "I8",
                PrimitiveType::I16 => "I16",
                PrimitiveType::I32 => "I32",
                PrimitiveType::I64 => "I64",
                PrimitiveType::I128 => "I128",
                PrimitiveType::I256 => "I256",
                PrimitiveType::I512 => "I512",
                PrimitiveType::I1024 => "I1024",
                PrimitiveType::F16b => "F16b",
                PrimitiveType::F16 => "F16",
                PrimitiveType::F32 => "F32",
                PrimitiveType::F64 => "F64",
                PrimitiveType::F80 => "F80",
                PrimitiveType::F128 => "F128",
                PrimitiveType::F256 => "F256",
                PrimitiveType::F512 => "F512",
                PrimitiveType::Unicode => "Unicode",
                PrimitiveType::Bytes => "Bytes",
            },
        )
    }
}

impl TypeRef {
    /// The notation of this type reference.
    pub fn display_string(&self) -> (r: String)
        ensures
            r@ == ref_chars(*self),
    {
        match self {
            TypeRef::Primitive(p) => p.display_string(),
            TypeRef::Named(n) => String::from_str(n.as_str()),
        }
    }
}

impl KeyType {
    /// The notation of this map key shape.
    pub fn display_string(&self) -> (r: String)
        ensures
            r@ == key_chars(*self),
    {
        match self {
            KeyType::Primitive(p) => p.display_string(),
            KeyType::Array(size, p) => {
                let mut s = p.display_string();
                s.append("[");
                let num = dec_string(*size);
                s.append(num.as_str());
                s.append("]");
                s
            },
        }
    }
}

impl DataType {
    /// The notation of this declared shape.
    pub fn display_string(&self) -> (r: String)
        ensures
            r@ == data_chars(*self),
    {
        match self {
            DataType::Primitive(p) => p.display_string(),
            DataType::Union(t) => t.display_string(),
            DataType::Struct(t) => t.display_string(),
            DataType::Array(size, t) => {
                let mut s = t.display_string();
                s.append("*");
                let num = dec_string(*size);
                s.append(num.as_str());
                s
            },
            DataType::List(t) => {
                let mut s = t.display_string();
                s.append("*");
                s
            },
            DataType::Mapping(k, t) => {
                let mut s = String::from_str("{");
                let key = k.display_string();
                s.append(key.as_str());
                s.append("} -> ");
                let val = t.display_string();
                s.append(val.as_str());
                s
            },
        }
    }
}

impl StructField {
    /// The notation of this field.
    pub fn display_string(&self) -> (r: String)
        ensures
            r@ == field_chars(*self),
    {
        let mut s = self.ty.display_string();
        if self.optional {
            s.append("?");
        }
        s
    }
}

impl StructType {
    /// The notation of this product type: its fields in order, separated
    /// by `, `.
    pub fn display_string(&self) -> (r: String)
        ensures
            r@ == struct_chars(self@),
    {
        let mut s = String::new();
        let len = self.len();
        let mut i: usize = 0;
        while i < len
            invariant
                0 <= i <= self@.len(),
                len == self@.len(),
                s@ == fields_chars_upto(self@, i as int),
            decreases self@.len() - i,
        {
            let f = self.field_at(i).display_string();
            s.append(f.as_str());
            if i < len - 1 {
                s.append(", ");
            }
            i += 1;
        }
        s
    }
}

impl UnionType {
    /// The notation of this sum type: its variants in canonical order,
    /// separated by ` | `.
    pub fn display_string(&self) -> (r: String)
        ensures
            r@ == union_chars(self@),
    {
        let mut s = String::new();
        let len = self.len();
        let mut i: usize = 0;
        while i < len
            invariant
                0 <= i <= self@.len(),
                len == self@.len(),
                s@ == variants_chars_upto(self@, i as int),
            decreases self@.len() - i,
        {
            let v = self.variant_at(i).display_string();
            s.append(v.as_str());
            if i < len - 1 {
                s.append(" | ");
            }
            i += 1;
        }
        s
    }
}

impl TypeSystem {
    /// The notation of this namespace: one `Name :: fields` line per
    /// registered type, in registration order.
    pub fn display_string(&self) -> (r: String)
        ensures
            r@ == system_chars(self@),
    {
        let mut s = String::new();
        let len = self.len();
        let mut i: usize = 0;
        while i < len
            invariant
                0 <= i <= self@.len(),
                len == self@.len(),
                s@ == system_chars_upto(self@, i as int),
            decreases self@.len() - i,
        {
            let entry = self.entry_at(i);
            s.append(entry.0.as_str());
            s.append(" :: ");
            let body = entry.1.display_string();
            s.append(body.as_str());
            s.append("\n");
            i += 1;
        }
        s
    }
}

} // verus!
