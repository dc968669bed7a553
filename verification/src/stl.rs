//! The well-known standard libraries of the schema system: each is a
//! frozen table of the type names it declares, together with its
//! content-derived library identifier. Deriving an identifier from a
//! compiled type set is an external collaborator's job; the identifiers of
//! the well-known libraries are process-wide stable values, so they are
//! recorded here as frozen constants and validated by test, never
//! recomputed at run time.

use vstd::prelude::*;

use crate::schema::TypeName;

verus! {

/// The recorded identifier of the `Std` library.
pub const LIB_ID_STD: &'static str =
    "regard_light_ninja_9fsgNpJdXxPiJztBbJVZQKcRbxF8DtpBcYQduxUgXKps";

/// The recorded identifier of the `StrictTypes` library.
pub const LIB_ID_STRICT_TYPES: &'static str =
    "sardine_mimic_stella_AP9Ttup5cS6XFY8ZsPFcYV4REjrgaT85wQhRmXN2tuZ9";

/// A compiled library's symbol table: its name, its recorded identifier,
/// and the names of the types it declares, in declaration order.
pub struct TypeObjects {
    name: TypeName,
    id: &'static str,
    symbols: Vec<TypeName>,
}

impl TypeObjects {
    /// The library's name.
    pub closed spec fn spec_name(self) -> Seq<char> {
        self.name@
    }

    /// The library's recorded identifier.
    pub closed spec fn spec_id(self) -> Seq<char> {
        self.id@
    }

    /// The names of the types the library declares.
    pub closed spec fn spec_symbols(self) -> Seq<TypeName> {
        self.symbols@
    }

    /// The library's name.
    pub fn lib_name(&self) -> (r: &TypeName)
        ensures
            r@ == self.spec_name(),
    {
        &self.name
    }

    /// The library's recorded identifier.
    pub fn id(&self) -> (r: &'static str)
        ensures
            r@ == self.spec_id(),
    {
        self.id
    }

    /// The names of the types the library declares.
    pub fn symbols(&self) -> (r: &Vec<TypeName>)
        ensures
            r@ == self.spec_symbols(),
    {
        &self.symbols
    }
}

/// Turns a list of known-valid name literals into type names.
fn names_of(literals: Vec<&str>) -> (r: Vec<TypeName>)
    requires
        forall|i: int|
            0 <= i < literals@.len() ==> crate::schema::valid_type_name(
                (#[trigger] literals@[i])@,
            ),
    ensures
        r@.len() == literals@.len(),
        forall|i: int| 0 <= i < r@.len() ==> (#[trigger] r@[i])@ == literals@[i]@,
{
    let mut out: Vec<TypeName> = Vec::new();
    let mut i: usize = 0;
    while i < literals.len()
        invariant
            0 <= i <= literals@.len(),
            out@.len() == i,
            forall|k: int|
                0 <= k < literals@.len() ==> crate::schema::valid_type_name(
                    (#[trigger] literals@[k])@,
                ),
            forall|k: int| 0 <= k < i ==> (#[trigger] out@[k])@ == literals@[k]@,
        decreases literals@.len() - i,
    {
        let n = match TypeName::new(literals[i]) {
            Some(n) => n,
            None => vstd::pervasive::unreached(),
        };
        out.push(n);
        i += 1;
    }
    out
}

/// The `Std` library: the character-class and small-number primitives the
/// standard schema vocabulary declares, under its recorded identifier.
pub fn std_stl() -> (r: TypeObjects)
    ensures
        r.spec_name() == "Std"@,
        r.spec_id() == LIB_ID_STD@,
        r.spec_symbols().len() == 13,
        r.spec_symbols()[0]@ == "Bool"@,
        r.spec_symbols()[1]@ == "U4"@,
        r.spec_symbols()[2]@ == "AsciiPrintable"@,
        r.spec_symbols()[3]@ == "Alpha"@,
        r.spec_symbols()[4]@ == "AlphaCaps"@,
        r.spec_symbols()[5]@ == "AlphaSmall"@,
        r.spec_symbols()[6]@ == "Dec"@,
        r.spec_symbols()[7]@ == "HexDecCaps"@,
        r.spec_symbols()[8]@ == "HexDecSmall"@,
        r.spec_symbols()[9]@ == "AlphaNum"@,
        r.spec_symbols()[10]@ == "AlphaCapsNum"@,
        r.spec_symbols()[11]@ == "AlphaNumDash"@,
        r.spec_symbols()[12]@ == "AlphaNumLodash"@,
{
    let literals = vec![
        "Bool",
        "U4",
        "AsciiPrintable",
        "Alpha",
        "AlphaCaps",
        "AlphaSmall",
        "Dec",
        "HexDecCaps",
        "HexDecSmall",
        "AlphaNum",
        "AlphaCapsNum",
        "AlphaNumDash",
        "AlphaNumLodash",
    ];
    proof {
        assert forall|i: int| 0 <= i < literals@.len() implies crate::schema::valid_type_name(
            (#[trigger] literals@[i])@,
        ) by {
            reveal_strlit("Bool");
            reveal_strlit("U4");
            reveal_strlit("AsciiPrintable");
            reveal_strlit("Alpha");
            reveal_strlit("AlphaCaps");
            reveal_strlit("AlphaSmall");
            reveal_strlit("Dec");
            reveal_strlit("HexDecCaps");
            reveal_strlit("HexDecSmall");
            reveal_strlit("AlphaNum");
            reveal_strlit("AlphaCapsNum");
            reveal_strlit("AlphaNumDash");
            reveal_strlit("AlphaNumLodash");
        }
    }
    let name = match TypeName::new("Std") {
        Some(n) => n,
        None => {
            proof {
                reveal_strlit("Std");
            }
            vstd::pervasive::unreached()
        },
    };
    TypeObjects { name, id: LIB_ID_STD, symbols: names_of(literals) }
}

/// The `StrictTypes` library: the schema system's own reflective types,
/// under its recorded identifier.
pub fn strict_types_stl() -> (r: TypeObjects)
    ensures
        r.spec_name() == "StrictTypes"@,
        r.spec_id() == LIB_ID_STRICT_TYPES@,
        r.spec_symbols().len() == 4,
        r.spec_symbols()[0]@ == "TypeLib"@,
        r.spec_symbols()[1]@ == "TypeSystem"@,
        r.spec_symbols()[2]@ == "TypeSysId"@,
        r.spec_symbols()[3]@ == "TypeSymbol"@,
{
    let literals = vec!["TypeLib", "TypeSystem", "TypeSysId", "TypeSymbol"];
    proof {
        assert forall|i: int| 0 <= i < literals@.len() implies crate::schema::valid_type_name(
            (#[trigger] literals@[i])@,
        ) by {
            reveal_strlit("TypeLib");
            reveal_strlit("TypeSystem");
            reveal_strlit("TypeSysId");
            reveal_strlit("TypeSymbol");
        }
    }
    let name = match TypeName::new("StrictTypes") {
        Some(n) => n,
        None => {
            proof {
                reveal_strlit("StrictTypes");
            }
            vstd::pervasive::unreached()
        },
    };
    TypeObjects { name, id: LIB_ID_STRICT_TYPES, symbols: names_of(literals) }
}

} // verus!
