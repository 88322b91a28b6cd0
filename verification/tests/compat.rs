use btf_core::btf::Btf;
use btf_core::compat::{fields_are_compatible, types_are_compatible};
use btf_core::errors::BtfError;
use btf_core::types::{
    Array, BtfMember, BtfType, Fwd, Int, Ptr, Struct, TypeHeader, Typedef, Union,
};

/// A forward declaration named by `name_offset`; the library offers no
/// construction helper for these, so the test builds the record directly.
fn fwd(name_offset: u32) -> BtfType {
    BtfType::Fwd(Fwd {
        header: TypeHeader { name_offset, info: 0x0700_0000, word: 0 },
    })
}

/// An anonymous union of the given members; built directly for the same
/// reason.
fn union_of(members: Vec<BtfMember>, size: u32) -> BtfType {
    let vlen = members.len() as u32;
    BtfType::Union(Union {
        header: TypeHeader { name_offset: 0, info: 0x0500_0000 | vlen, word: size },
        members,
    })
}

#[test]
fn test_types_are_compatible() {
    let mut btf = Btf::new();
    let name_offset = btf.add_string("u32".to_string());
    let u32t = btf.add_type(BtfType::Int(Int::new(name_offset, 4, 0, 0)));
    let name_offset = btf.add_string("u64".to_string());
    let u64t = btf.add_type(BtfType::Int(Int::new(name_offset, 8, 0, 0)));
    let name_offset = btf.add_string("widgets".to_string());
    let array_type = btf.add_type(BtfType::Array(Array::new(name_offset, u64t, u32t, 16)));

    assert!(types_are_compatible(&btf, u32t, &btf, u32t).unwrap());
    // int types are compatible if offsets match. size and encoding aren't compared
    assert!(types_are_compatible(&btf, u32t, &btf, u64t).unwrap());
    assert!(types_are_compatible(&btf, array_type, &btf, array_type).unwrap());
}

#[test]
fn test_types_compatible_through_qualifiers() {
    let mut btf = Btf::new();
    let int = btf.add_type(BtfType::Int(Int::new(0, 4, 0, 0)));
    let alias = btf.add_type(BtfType::Typedef(Typedef::new(0, int)));
    let wrapped = btf.add_type(BtfType::Const(btf_core::types::Const::new(alias)));
    assert!(types_are_compatible(&btf, wrapped, &btf, int).unwrap());
    assert!(types_are_compatible(&btf, int, &btf, wrapped).unwrap());
}

#[test]
fn test_int_offset_rule() {
    let mut btf = Btf::new();
    let zero_a = btf.add_type(BtfType::Int(Int::new(0, 4, 0, 0)));
    let zero_b = btf.add_type(BtfType::Int(Int::new(0, 8, 1, 0)));
    let shifted = btf.add_type(BtfType::Int(Int::new(0, 4, 0, 8)));
    assert!(types_are_compatible(&btf, zero_a, &btf, zero_b).unwrap());
    assert!(!types_are_compatible(&btf, zero_a, &btf, shifted).unwrap());
    assert!(!types_are_compatible(&btf, shifted, &btf, zero_a).unwrap());
    assert!(!types_are_compatible(&btf, shifted, &btf, shifted).unwrap());
}

#[test]
fn test_kind_mismatch_is_incompatible() {
    let mut btf = Btf::new();
    let int = btf.add_type(BtfType::Int(Int::new(0, 4, 0, 0)));
    let ptr = btf.add_type(BtfType::Ptr(Ptr::new(0, int)));
    assert!(!types_are_compatible(&btf, int, &btf, ptr).unwrap());
}

#[test]
fn test_depth_bound_self_referential_pointer() {
    let mut btf = Btf::new();
    // The next id the table assigns is 1, so this pointer points to itself.
    let looper = btf.add_type(BtfType::Ptr(Ptr::new(0, 1)));
    assert_eq!(looper, 1);
    assert_eq!(
        types_are_compatible(&btf, looper, &btf, looper),
        Err(BtfError::MaximumTypeDepthReached { type_id: looper })
    );
}

#[test]
fn test_depth_bound_self_referential_typedef() {
    let mut btf = Btf::new();
    // A typedef naming its own id can never be resolved.
    let looper = btf.add_type(BtfType::Typedef(Typedef::new(0, 1)));
    assert_eq!(looper, 1);
    assert_eq!(
        types_are_compatible(&btf, looper, &btf, looper),
        Err(BtfError::MaximumTypeDepthReached { type_id: looper })
    );
    assert_eq!(
        btf.resolve_type(looper),
        Err(BtfError::MaximumTypeDepthReached { type_id: looper })
    );
}

#[test]
fn test_unknown_type_id_is_reported() {
    let btf = Btf::new();
    assert_eq!(
        types_are_compatible(&btf, 99, &btf, 99),
        Err(BtfError::UnknownTypeId { type_id: 99 })
    );
}

#[test]
fn test_fields_compatible_composites() {
    let mut btf = Btf::new();
    let a = btf.add_type(BtfType::Struct(Struct::new(
        0,
        vec![BtfMember { name_offset: 1, btf_type: 1, offset: 0 }],
        4,
    )));
    let b = btf.add_type(union_of(vec![], 16));
    let c = btf.add_type(BtfType::Struct(Struct::new(0, vec![], 0)));
    // Any struct is field-compatible with any union and vice versa,
    // regardless of member differences.
    assert!(fields_are_compatible(&btf, a, &btf, b).unwrap());
    assert!(fields_are_compatible(&btf, b, &btf, a).unwrap());
    assert!(fields_are_compatible(&btf, a, &btf, c).unwrap());
    assert!(fields_are_compatible(&btf, b, &btf, b).unwrap());
}

#[test]
fn test_fields_compatible_fwd_flavors() {
    let mut btf = Btf::new();
    let foo_v2 = btf.add_string("foo___v2".to_string());
    let foo_v5 = btf.add_string("foo___v5".to_string());
    let bar = btf.add_string("bar".to_string());
    let a = btf.add_type(fwd(foo_v2));
    let b = btf.add_type(fwd(foo_v5));
    let c = btf.add_type(fwd(bar));
    assert!(fields_are_compatible(&btf, a, &btf, b).unwrap());
    assert!(fields_are_compatible(&btf, b, &btf, a).unwrap());
    assert!(!fields_are_compatible(&btf, a, &btf, c).unwrap());
    assert!(!fields_are_compatible(&btf, c, &btf, b).unwrap());
}

#[test]
fn test_fields_compatible_int_and_pointer() {
    let mut btf = Btf::new();
    let zero = btf.add_type(BtfType::Int(Int::new(0, 4, 0, 0)));
    let shifted = btf.add_type(BtfType::Int(Int::new(0, 4, 0, 16)));
    let ptr_a = btf.add_type(BtfType::Ptr(Ptr::new(0, zero)));
    let ptr_b = btf.add_type(BtfType::Ptr(Ptr::new(0, shifted)));
    assert!(fields_are_compatible(&btf, zero, &btf, zero).unwrap());
    assert!(!fields_are_compatible(&btf, zero, &btf, shifted).unwrap());
    // Pointers are unconditionally field-compatible, whatever they point at.
    assert!(fields_are_compatible(&btf, ptr_a, &btf, ptr_b).unwrap());
}

#[test]
fn test_fields_compatible_array_advances_to_element() {
    let mut btf = Btf::new();
    let int = btf.add_type(BtfType::Int(Int::new(0, 4, 0, 0)));
    let shifted = btf.add_type(BtfType::Int(Int::new(0, 4, 0, 8)));
    let arr_a = btf.add_type(BtfType::Array(Array::new(0, int, int, 4)));
    let arr_b = btf.add_type(BtfType::Array(Array::new(0, shifted, int, 8)));
    assert!(fields_are_compatible(&btf, arr_a, &btf, arr_a).unwrap());
    assert!(!fields_are_compatible(&btf, arr_a, &btf, arr_b).unwrap());
}

#[test]
fn test_fields_invalid_string_offset_is_reported() {
    let mut btf = Btf::new();
    let a = btf.add_type(fwd(55));
    let b = btf.add_type(fwd(55));
    assert_eq!(
        fields_are_compatible(&btf, a, &btf, b),
        Err(BtfError::InvalidStringOffset { offset: 55 })
    );
}

#[test]
fn test_name_lookup() {
    let mut btf = Btf::new();
    let off = btf.add_string("widget".to_string());
    let named = fwd(off);
    let anonymous = fwd(0);
    match btf.name_of_type(&named) {
        Ok(Some(s)) => assert_eq!(s.as_str(), "widget"),
        other => panic!("expected a name, got {:#?}", other),
    }
    assert_eq!(btf.name_of_type(&anonymous), Ok(None));
    let stray = fwd(17);
    assert_eq!(
        btf.name_of_type(&stray),
        Err(BtfError::InvalidStringOffset { offset: 17 })
    );
}

#[test]
fn test_type_by_id_bounds() {
    let mut btf = Btf::new();
    let int = btf.add_type(BtfType::Int(Int::new(0, 4, 0, 0)));
    assert_eq!(int, 1);
    assert_eq!(btf.type_count(), 2);
    assert!(btf.type_by_id(int).is_ok());
    assert!(matches!(
        btf.type_by_id(7),
        Err(BtfError::UnknownTypeId { type_id: 7 })
    ));
}
