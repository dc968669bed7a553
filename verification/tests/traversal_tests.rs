use strict_schema::ast::{Cls, SubTy, Ty};
use strict_schema::iter::CheckError;
use strict_schema::path::Step;
use strict_schema::schema::{DataType, KeyType, PrimitiveType, TypeName, TypeRef};

fn inline(t: Ty) -> SubTy {
    SubTy::Inline(Box::new(t))
}

fn named(n: &str, shape: Ty) -> SubTy {
    SubTy::Named(TypeName::new(n).expect("valid type name"), Box::new(shape))
}

/// The struct type `Output :: { U64, Bytes }`.
fn output_ty() -> Ty {
    Ty::new(
        Cls::Struct,
        vec![
            inline(Ty::primitive(PrimitiveType::U64)),
            inline(Ty::primitive(PrimitiveType::Bytes)),
        ],
    )
    .expect("within the child bound")
}

#[test]
fn structural_equality_is_reflexive_and_symmetric() {
    let a = output_ty();
    let b = output_ty();
    assert!(a.structural_eq(&a));
    assert!(a.structural_eq(&b));
    assert!(b.structural_eq(&a));
    let c = Ty::new(Cls::Struct, vec![inline(Ty::primitive(PrimitiveType::U64))]).unwrap();
    assert!(!a.structural_eq(&c));
    assert!(!c.structural_eq(&a));
}

#[test]
fn structural_equality_ignores_reference_kind() {
    let by_value = Ty::new(
        Cls::Struct,
        vec![inline(Ty::primitive(PrimitiveType::U64))],
    )
    .unwrap();
    let by_name = Ty::new(
        Cls::Struct,
        vec![named("Amount", Ty::primitive(PrimitiveType::U64))],
    )
    .unwrap();
    let other_name = Ty::new(
        Cls::Struct,
        vec![named("Value", Ty::primitive(PrimitiveType::U64))],
    )
    .unwrap();
    let other_shape = Ty::new(
        Cls::Struct,
        vec![named("Amount", Ty::primitive(PrimitiveType::U32))],
    )
    .unwrap();
    assert!(by_value.structural_eq(&by_name));
    assert!(by_name.structural_eq(&other_name));
    assert!(!by_value.structural_eq(&other_shape));
}

#[test]
fn step_out_requires_exhaustive_traversal() {
    let mut it = output_ty().into_iter();
    assert_eq!(it.step_in(Step::Field(0)), Ok(()));
    let first = it.next();
    assert!(first.is_some());
    match it.step_out() {
        Err(CheckError::UncheckedFields { checked, total }) => {
            assert_eq!(checked, 1);
            assert_eq!(total, 2);
        }
        other => panic!("expected UncheckedFields, got {:?}", other),
    }
    let second = it.next();
    assert!(second.is_some());
    assert!(it.next().is_none());
    assert_eq!(it.step_out(), Ok(()));
    assert_eq!(it.location_path().len(), 0);
}

#[test]
fn step_in_exists_iff_child_exists() {
    let mut it = output_ty().into_iter();
    match it.step_in(Step::Field(2)) {
        Err(CheckError::NoSubtypes(cls, path)) => {
            assert_eq!(cls, Cls::Struct);
            assert_eq!(path.len(), 1);
            assert_eq!(path.step_at(0), Step::Field(2));
        }
        other => panic!("expected NoSubtypes, got {:?}", other),
    }
    assert_eq!(it.location_path().len(), 0);

    assert_eq!(it.step_in(Step::Field(1)), Ok(()));
    assert_eq!(it.location_path().len(), 1);
    match it.step_in(Step::Field(0)) {
        Err(CheckError::NoSubtypes(cls, path)) => {
            assert_eq!(cls, Cls::Bytes);
            assert_eq!(path.len(), 2);
            assert_eq!(path.step_at(1), Step::Field(0));
        }
        other => panic!("expected NoSubtypes, got {:?}", other),
    }
    assert_eq!(it.location_path().len(), 1);
}

#[test]
fn mismatch_is_detected_with_exact_location() {
    let mut it = output_ty().into_iter();
    assert_eq!(it.step_in(Step::Field(1)), Ok(()));
    match it.check(&Ty::primitive(PrimitiveType::Unicode)) {
        Err(CheckError::TypeMismatch {
            expected,
            found,
            path,
        }) => {
            assert_eq!(expected, Cls::Unicode);
            assert_eq!(found, Cls::Bytes);
            assert_eq!(path.len(), 1);
            assert_eq!(path.step_at(0), Step::Field(1));
        }
        other => panic!("expected TypeMismatch, got {:?}", other),
    }
    assert_eq!(it.check(&Ty::primitive(PrimitiveType::Bytes)), Ok(()));
}

#[test]
fn end_to_end_output_traversal() {
    let root = output_ty();
    let mut peek = root.iter();
    let first = peek.next().expect("two children declared");
    assert_eq!(first.as_ty().cls(), Cls::Primitive(PrimitiveType::U64));

    let mut it = root.into_iter();
    assert_eq!(it.step_in(Step::Field(0)), Ok(()));
    assert_eq!(it.check(&Ty::primitive(PrimitiveType::U64)), Ok(()));
    match it.step_out() {
        Err(CheckError::UncheckedFields { checked, total }) => {
            assert_eq!(checked, 0);
            assert_eq!(total, 2);
        }
        other => panic!("expected UncheckedFields, got {:?}", other),
    }
    let first = it.next().expect("child 0");
    assert_eq!(first.as_ty().cls(), Cls::Primitive(PrimitiveType::U64));
    let second = it.next().expect("child 1");
    assert_eq!(second.as_ty().cls(), Cls::Bytes);
    assert_eq!(it.step_out(), Ok(()));
    assert_eq!(it.location_path().len(), 0);
}

#[test]
fn borrowing_iteration_yields_each_child_once() {
    let root = output_ty();
    let mut it = root.iter();
    let mut seen = 0;
    while let Some(child) = it.next() {
        let cls = child.as_ty().cls();
        if seen == 0 {
            assert_eq!(cls, Cls::Primitive(PrimitiveType::U64));
        } else {
            assert_eq!(cls, Cls::Bytes);
        }
        seen += 1;
    }
    assert_eq!(seen, 2);
}

#[test]
fn declared_shapes_project_onto_classes() {
    assert_eq!(
        DataType::Primitive(PrimitiveType::U64).cls(),
        Cls::Primitive(PrimitiveType::U64)
    );
    assert_eq!(DataType::Primitive(PrimitiveType::Bytes).cls(), Cls::Bytes);
    assert_eq!(DataType::Primitive(PrimitiveType::Unicode).cls(), Cls::Unicode);
    assert_eq!(
        DataType::Array(32, TypeRef::Primitive(PrimitiveType::U8)).cls(),
        Cls::Array(32)
    );
    assert_eq!(
        DataType::List(TypeRef::Primitive(PrimitiveType::Bytes)).cls(),
        Cls::List
    );
    assert_eq!(
        DataType::Mapping(
            KeyType::Primitive(PrimitiveType::U8),
            TypeRef::Primitive(PrimitiveType::Bytes)
        )
        .cls(),
        Cls::Mapping
    );
    assert_eq!(
        DataType::Struct(TypeRef::Named(TypeName::new("Txid").unwrap())).cls(),
        Cls::Struct
    );
    assert_eq!(
        DataType::Union(TypeRef::Primitive(PrimitiveType::U8)).cls(),
        Cls::Union
    );
}

#[test]
fn cloned_children_keep_their_shape() {
    let root = output_ty();
    let mut it = root.into_iter();
    let child = it.next().expect("child 0");
    assert!(child.as_ty().structural_eq(&Ty::primitive(PrimitiveType::U64)));
    let copy = child.clone();
    assert!(copy.structural_eq(&child));
}
