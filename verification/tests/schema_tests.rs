use strict_schema::schema::{
    DataType, Error, KeyType, PrimitiveType, StructField, StructType, TypeName, TypeRef,
    TypeSystem, UnionType,
};

fn name(s: &str) -> TypeName {
    TypeName::new(s).expect("valid type name")
}

fn struct_type(fields: Vec<StructField>) -> StructType {
    StructType::new(fields).expect("valid struct type")
}

fn type_system() -> TypeSystem {
    let mut ts = TypeSystem::new();
    ts.push(
        name("Transaction"),
        struct_type(vec![
            StructField::primitive(PrimitiveType::U32),
            StructField::list(TypeRef::Named(name("Input"))),
            StructField::list(TypeRef::Named(name("Output"))),
            StructField::primitive(PrimitiveType::U32),
        ]),
    )
    .expect("invalid type declaration");
    ts.push(
        name("Input"),
        struct_type(vec![
            StructField::new("OutPoint"),
            StructField::primitive(PrimitiveType::Bytes),
            StructField::new("Witness"),
        ]),
    )
    .expect("invalid type declaration");
    ts.push(
        name("Output"),
        struct_type(vec![
            StructField::primitive(PrimitiveType::U64),
            StructField::primitive(PrimitiveType::Bytes),
        ]),
    )
    .expect("invalid type declaration");
    ts.push(
        name("OutPoint"),
        struct_type(vec![
            StructField::new("Txid"),
            StructField::primitive(PrimitiveType::U16),
        ]),
    )
    .expect("invalid type declaration");
    ts.push(
        name("Txid"),
        struct_type(vec![StructField::array(PrimitiveType::U8, 32)]),
    )
    .expect("invalid type declaration");
    ts.push(
        name("Witness"),
        struct_type(vec![StructField::list(TypeRef::Primitive(PrimitiveType::Bytes))]),
    )
    .expect("invalid type declaration");
    ts
}

#[test]
fn display() {
    println!("{}", type_system().display_string());
}

#[test]
fn primitive_code_stability() {
    assert_eq!(PrimitiveType::U32.to_code(), 0x02);
    assert_eq!(PrimitiveType::from_code(0x02), Some(PrimitiveType::U32));
    assert_eq!(PrimitiveType::U8.to_code(), 0x00);
    assert_eq!(PrimitiveType::I8.to_code(), 0x10);
    assert_eq!(PrimitiveType::F16b.to_code(), 0x30);
    assert_eq!(PrimitiveType::Unicode.to_code(), 0xFE);
    assert_eq!(PrimitiveType::Bytes.to_code(), 0xFF);
    assert_eq!(PrimitiveType::from_code(0x20), None);
    assert_eq!(PrimitiveType::from_code(0x38), None);
}

#[test]
fn primitive_code_roundtrip() {
    for code in 0..=255u16 {
        let code = code as u8;
        if let Some(p) = PrimitiveType::from_code(code) {
            assert_eq!(p.to_code(), code);
        }
    }
}

#[test]
fn duplicated_type_is_rejected() {
    let a = struct_type(vec![StructField::array(PrimitiveType::U8, 32)]);
    let b = struct_type(vec![StructField::primitive(PrimitiveType::U64)]);
    let mut ts = TypeSystem::new();
    assert_eq!(ts.push(name("Txid"), a.clone()), Ok(()));
    assert_eq!(
        ts.push(name("Txid"), b),
        Err(Error::DuplicatedType(name("Txid")))
    );
    assert_eq!(ts.len(), 1);
    assert_eq!(ts.entry_at(0).1, a);
}

#[test]
fn empty_namespace() {
    assert_eq!(TypeSystem::new().len(), 0);
    assert_eq!(TypeSystem::default().len(), 0);
    assert_eq!(TypeSystem::new().display_string(), "");
}

#[test]
fn type_name_bounds() {
    assert!(TypeName::new("").is_none());
    assert!(TypeName::new("A").is_some());
    assert!(TypeName::new("abcdefghijklmnopqrstuvwxyzABCDEF").is_some());
    assert!(TypeName::new("abcdefghijklmnopqrstuvwxyzABCDEFG").is_none());
    assert!(TypeName::new("T\u{00e9}l").is_none());
    assert_eq!(name("Txid").as_str(), "Txid");
}

#[test]
fn struct_type_must_not_be_empty() {
    assert!(StructType::new(vec![]).is_none());
    assert!(StructType::new(vec![StructField::primitive(PrimitiveType::U8)]).is_some());
}

#[test]
fn union_type_needs_two_ordered_variants() {
    assert!(UnionType::new(vec![PrimitiveType::U8]).is_none());
    assert!(UnionType::new(vec![PrimitiveType::U8, PrimitiveType::U16]).is_some());
    assert!(UnionType::new(vec![PrimitiveType::U16, PrimitiveType::U8]).is_none());
    assert!(UnionType::new(vec![PrimitiveType::U8, PrimitiveType::U8]).is_none());
}

#[test]
fn union_members_are_deduplicated_and_canonically_ordered() {
    let u = UnionType::from_members(&vec![
        PrimitiveType::Bytes,
        PrimitiveType::U16,
        PrimitiveType::U8,
        PrimitiveType::U16,
    ])
    .expect("three distinct kinds");
    assert_eq!(u.len(), 3);
    assert_eq!(u.variant_at(0), PrimitiveType::U8);
    assert_eq!(u.variant_at(1), PrimitiveType::U16);
    assert_eq!(u.variant_at(2), PrimitiveType::Bytes);
    assert_eq!(u.display_string(), "U8 | U16 | Bytes");
    assert!(UnionType::from_members(&vec![]).is_none());
    assert!(UnionType::from_members(&vec![PrimitiveType::U8]).is_none());
    assert!(UnionType::from_members(&vec![PrimitiveType::U8, PrimitiveType::U8]).is_none());
}

#[test]
fn struct_field_constructors() {
    let f = StructField::new("OutPoint");
    assert_eq!(
        f.ty,
        DataType::Struct(TypeRef::Named(name("OutPoint")))
    );
    assert!(!f.optional);
    let f = StructField::primitive(PrimitiveType::U64);
    assert_eq!(f.ty, DataType::Primitive(PrimitiveType::U64));
    let f = StructField::array(PrimitiveType::U8, 32);
    assert_eq!(
        f.ty,
        DataType::Array(32, TypeRef::Primitive(PrimitiveType::U8))
    );
    let f = StructField::optional(DataType::Primitive(PrimitiveType::U16));
    assert!(f.optional);
}

#[test]
fn render_notation() {
    assert_eq!(PrimitiveType::U32.display_string(), "U32");
    assert_eq!(
        DataType::Array(32, TypeRef::Named(name("Txid"))).display_string(),
        "Txid*32"
    );
    assert_eq!(
        DataType::Mapping(
            KeyType::Primitive(PrimitiveType::U8),
            TypeRef::Primitive(PrimitiveType::Bytes)
        )
        .display_string(),
        "{U8} -> Bytes"
    );
    assert_eq!(
        DataType::List(TypeRef::Primitive(PrimitiveType::Bytes)).display_string(),
        "Bytes*"
    );
    assert_eq!(
        StructField::optional(DataType::Primitive(PrimitiveType::U16)).display_string(),
        "U16?"
    );
    assert_eq!(
        KeyType::Array(32, PrimitiveType::U8).display_string(),
        "U8[32]"
    );
    assert_eq!(
        struct_type(vec![
            StructField::primitive(PrimitiveType::U64),
            StructField::primitive(PrimitiveType::Bytes),
        ])
        .display_string(),
        "U64, Bytes"
    );
    assert_eq!(
        UnionType::new(vec![PrimitiveType::U8, PrimitiveType::U16])
            .unwrap()
            .display_string(),
        "U8 | U16"
    );
    let mut ts = TypeSystem::new();
    ts.push(
        name("Output"),
        struct_type(vec![
            StructField::primitive(PrimitiveType::U64),
            StructField::primitive(PrimitiveType::Bytes),
        ]),
    )
    .unwrap();
    assert_eq!(ts.display_string(), "Output :: U64, Bytes\n");
    assert_eq!(
        type_system().display_string(),
        "Transaction :: U32, Input*, Output*, U32\n\
         Input :: OutPoint, Bytes, Witness\n\
         Output :: U64, Bytes\n\
         OutPoint :: Txid, U16\n\
         Txid :: U8*32\n\
         Witness :: Bytes*\n"
    );
}
