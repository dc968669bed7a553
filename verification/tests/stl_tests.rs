use strict_schema::stl::{std_stl, strict_types_stl, LIB_ID_STD, LIB_ID_STRICT_TYPES};

#[test]
fn std_lib_id() {
    let lib = std_stl();
    assert_eq!(lib.id().to_string(), LIB_ID_STD);
}

#[test]
fn strict_types_lib_id() {
    let lib = strict_types_stl();
    assert_eq!(lib.id().to_string(), LIB_ID_STRICT_TYPES);
}

#[test]
fn std_lib_symbols() {
    let lib = std_stl();
    assert_eq!(lib.lib_name().as_str(), "Std");
    assert_eq!(lib.symbols().len(), 13);
    assert_eq!(lib.symbols()[0].as_str(), "Bool");
    assert_eq!(lib.symbols()[12].as_str(), "AlphaNumLodash");
}

#[test]
fn strict_types_lib_symbols() {
    let lib = strict_types_stl();
    assert_eq!(lib.lib_name().as_str(), "StrictTypes");
    assert_eq!(lib.symbols().len(), 4);
    assert_eq!(lib.symbols()[1].as_str(), "TypeSystem");
}
