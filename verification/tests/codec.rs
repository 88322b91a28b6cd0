use btf_core::types::{
    BtfEnum, BtfKind, BtfMember, BtfParam, BtfType, ByteOrder, DataSecEntry, Int, TypeHeader,
    member_bit_field_size, member_bit_offset, type_vlen,
};
use btf_core::types::{Array, DataSec, Enum, FuncProto, Struct, Typedef};
use btf_core::errors::BtfError;

/// The byte order of this host, the order the reference buffers below were
/// captured in.
fn host_order() -> ByteOrder {
    if object::Endianness::default() == object::Endianness::Little {
        ByteOrder::Little
    } else {
        ByteOrder::Big
    }
}

#[test]
fn test_read_btf_type_int() {
    let endianness = host_order();
    let data: &[u8] = &[
        0x01, 0x00, 0x00, 0x00, 0x00, 0x00, 0x00, 0x01, 0x08, 0x00, 0x00, 0x00, 0x40, 0x00, 0x00,
        0x00,
    ];
    let got = BtfType::read(data, endianness);
    match &got {
        Ok(BtfType::Int(ty)) => {
            assert_eq!(ty.name_offset(), 1);
            assert_eq!(ty.size(), Some(8));
            assert_eq!(ty.bits(), 64);
        }
        Ok(t) => panic!("expected int type, got {:#?}", t),
        Err(_) => panic!("unexpected error"),
    }
    let data2 = got.unwrap().to_bytes();
    assert_eq!(data, data2.as_slice());
}

#[test]
fn test_write_btf_long_unsigned_int() {
    let data: &[u8] = &[
        0x01, 0x00, 0x00, 0x00, 0x00, 0x00, 0x00, 0x01, 0x08, 0x00, 0x00, 0x00, 0x40, 0x00, 0x00,
        0x00,
    ];
    let int = BtfType::Int(Int::new(1, 8, 0, 0));
    assert_eq!(int.to_bytes(), data);
}

#[test]
fn test_write_btf_uchar() {
    let data: &[u8] = &[
        0x13, 0x00, 0x00, 0x00, 0x00, 0x00, 0x00, 0x01, 0x01, 0x00, 0x00, 0x00, 0x08, 0x00, 0x00,
        0x00,
    ];
    let int = BtfType::Int(Int::new(0x13, 1, 0, 0));
    assert_eq!(int.to_bytes(), data);
}

#[test]
fn test_write_btf_signed_short_int() {
    let data: &[u8] = &[
        0x4a, 0x00, 0x00, 0x00, 0x00, 0x00, 0x00, 0x01, 0x02, 0x00, 0x00, 0x00, 0x10, 0x00, 0x00,
        0x01,
    ];
    // The integer encoding bit for a signed integer is 1.
    let int = BtfType::Int(Int::new(0x4a, 2, 1, 0));
    assert_eq!(int.to_bytes(), data);
}

#[test]
fn test_read_btf_type_ptr() {
    let endianness = host_order();
    let data: &[u8] = &[
        0x00, 0x00, 0x00, 0x00, 0x00, 0x00, 0x00, 0x02, 0x06, 0x00, 0x00, 0x00,
    ];
    let got = BtfType::read(data, endianness);
    match &got {
        Ok(BtfType::Ptr(_)) => {}
        Ok(t) => panic!("expected ptr type, got {:#?}", t),
        Err(_) => panic!("unexpected error"),
    }
    let data2 = got.unwrap().to_bytes();
    assert_eq!(data, data2.as_slice())
}

#[test]
fn test_read_btf_type_array() {
    let endianness = host_order();
    let data: &[u8] = &[
        0x00, 0x00, 0x00, 0x00, 0x00, 0x00, 0x00, 0x03, 0x00, 0x00, 0x00, 0x00, 0x01, 0x00, 0x00,
        0x00, 0x12, 0x00, 0x00, 0x00, 0x02, 0x00, 0x00, 0x00,
    ];
    let got = BtfType::read(data, endianness);
    match &got {
        Ok(BtfType::Array(_)) => {}
        Ok(t) => panic!("expected array type, got {:#?}", t),
        Err(_) => panic!("unexpected error"),
    }
    let data2 = got.unwrap().to_bytes();
    assert_eq!(data, data2.as_slice())
}

#[test]
fn test_read_btf_type_struct() {
    let endianness = host_order();
    let data: &[u8] = &[
        0x00, 0x00, 0x00, 0x00, 0x01, 0x00, 0x00, 0x04, 0x04, 0x00, 0x00, 0x00, 0x47, 0x02, 0x00,
        0x00, 0x12, 0x00, 0x00, 0x00, 0x00, 0x00, 0x00, 0x00,
    ];
    let got = BtfType::read(data, endianness);
    match &got {
        Ok(BtfType::Struct(_)) => {}
        Ok(t) => panic!("expected struct type, got {:#?}", t),
        Err(_) => panic!("unexpected error"),
    }
    let data2 = got.unwrap().to_bytes();
    assert_eq!(data, data2.as_slice())
}

#[test]
fn test_read_btf_type_union() {
    let endianness = host_order();
    let data: &[u8] = &[
        0x00, 0x00, 0x00, 0x00, 0x01, 0x00, 0x00, 0x05, 0x04, 0x00, 0x00, 0x00, 0x0d, 0x04, 0x00,
        0x00, 0x68, 0x00, 0x00, 0x00, 0x00, 0x00, 0x00, 0x00,
    ];
    let got = BtfType::read(data, endianness);
    match &got {
        Ok(BtfType::Union(_)) => {}
        Ok(t) => panic!("expected union type, got {:#?}", t),
        Err(_) => panic!("unexpected error"),
    }
    let data2 = got.unwrap().to_bytes();
    assert_eq!(data, data2.as_slice())
}

#[test]
fn test_read_btf_type_enum() {
    let endianness = host_order();
    let data: &[u8] = &[
        0x00, 0x00, 0x00, 0x00, 0x02, 0x00, 0x00, 0x06, 0x04, 0x00, 0x00, 0x00, 0xc9, 0x00, 0x00,
        0x00, 0x00, 0x00, 0x00, 0x00, 0xcf, 0x00, 0x00, 0x00, 0x01, 0x00, 0x00, 0x00,
    ];
    let got = BtfType::read(data, endianness);
    match &got {
        Ok(BtfType::Enum(_)) => {}
        Ok(t) => panic!("expected enum type, got {:#?}", t),
        Err(_) => panic!("unexpected error"),
    }
    let data2 = got.unwrap().to_bytes();
    assert_eq!(data, data2.as_slice())
}

#[test]
fn test_read_btf_type_fwd() {
    let endianness = host_order();
    let data: &[u8] = &[
        0x0b, 0x55, 0x00, 0x00, 0x00, 0x00, 0x00, 0x07, 0x00, 0x00, 0x00, 0x00,
    ];
    let got = BtfType::read(data, endianness);
    match &got {
        Ok(BtfType::Fwd(_)) => {}
        Ok(t) => panic!("expected fwd type, got {:#?}", t),
        Err(_) => panic!("unexpected error"),
    }
    let data2 = got.unwrap().to_bytes();
    assert_eq!(data, data2.as_slice())
}

#[test]
fn test_read_btf_type_typedef() {
    let endianness = host_order();
    let data: &[u8] = &[
        0x31, 0x00, 0x00, 0x00, 0x00, 0x00, 0x00, 0x08, 0x0b, 0x00, 0x00, 0x00,
    ];
    let got = BtfType::read(data, endianness);
    match &got {
        Ok(BtfType::Typedef(_)) => {}
        Ok(t) => panic!("expected typedef type, got {:#?}", t),
        Err(_) => panic!("unexpected error"),
    }
    let data2 = got.unwrap().to_bytes();
    assert_eq!(data, data2.as_slice())
}

#[test]
fn test_read_btf_type_volatile() {
    let endianness = host_order();
    let data: &[u8] = &[
        0x00, 0x00, 0x00, 0x00, 0x00, 0x00, 0x00, 0x09, 0x24, 0x00, 0x00, 0x00,
    ];
    let got = BtfType::read(data, endianness);
    match &got {
        Ok(BtfType::Volatile(_)) => {}
        Ok(t) => panic!("expected volatile type, got {:#?}", t),
        Err(_) => panic!("unexpected error"),
    }
    let data2 = got.unwrap().to_bytes();
    assert_eq!(data, data2.as_slice())
}

#[test]
fn test_read_btf_type_const() {
    let endianness = host_order();
    let data: &[u8] = &[
        0x00, 0x00, 0x00, 0x00, 0x00, 0x00, 0x00, 0x0a, 0x01, 0x00, 0x00, 0x00,
    ];
    let got = BtfType::read(data, endianness);
    match &got {
        Ok(BtfType::Const(_)) => {}
        Ok(t) => panic!("expected const type, got {:#?}", t),
        Err(_) => panic!("unexpected error"),
    }
    let data2 = got.unwrap().to_bytes();
    assert_eq!(data, data2.as_slice())
}

#[test]
fn test_read_btf_type_restrict() {
    let endianness = host_order();
    let data: &[u8] = &[
        0x00, 0x00, 0x00, 0x00, 0x00, 0x00, 0x00, 0x0b, 0x04, 0x00, 0x00, 0x00,
    ];
    let got = BtfType::read(data, endianness);
    match &got {
        Ok(BtfType::Restrict(_)) => {}
        Ok(t) => panic!("expected restrict type gpt {:#?}", t),
        Err(_) => panic!("unexpected error"),
    }
    let data2 = got.unwrap().to_bytes();
    assert_eq!(data, data2.as_slice())
}

#[test]
fn test_read_btf_type_func() {
    let endianness = host_order();
    let data: &[u8] = &[
        0x17, 0x8b, 0x0f, 0x00, 0x00, 0x00, 0x00, 0x0c, 0xf0, 0xe4, 0x00, 0x00,
    ];
    let got = BtfType::read(data, endianness);
    match &got {
        Ok(BtfType::Func(_)) => {}
        Ok(t) => panic!("expected func type gpt {:#?}", t),
        Err(_) => panic!("unexpected error"),
    }
    let data2 = got.unwrap().to_bytes();
    assert_eq!(data, data2.as_slice())
}

#[test]
fn test_read_btf_type_func_proto() {
    let endianness = host_order();
    let data: &[u8] = &[
        0x00, 0x00, 0x00, 0x00, 0x01, 0x00, 0x00, 0x0d, 0x00, 0x00, 0x00, 0x00, 0x00, 0x00, 0x00,
        0x00, 0x12, 0x00, 0x00, 0x00,
    ];
    let got = BtfType::read(data, endianness);
    match &got {
        Ok(BtfType::FuncProto(_)) => {}
        Ok(t) => panic!("expected func_proto type, got {:#?}", t),
        Err(_) => panic!("unexpected error"),
    }
    let data2 = got.unwrap().to_bytes();
    assert_eq!(data, data2.as_slice())
}

#[test]
fn test_read_btf_type_func_var() {
    let endianness = host_order();
    let data: &[u8] = &[
        0x00, 0x00, 0x00, 0x00, 0x00, 0x00, 0x00, 0x0e, 0xf0, 0x00, 0x00, 0x00, 0x00, 0x00, 0x00,
        0x00,
    ];
    let got = BtfType::read(data, endianness);
    match &got {
        Ok(BtfType::Var(_)) => {}
        Ok(t) => panic!("expected var type, got {:#?}", t),
        Err(_) => panic!("unexpected error"),
    };
    let data2 = got.unwrap().to_bytes();
    assert_eq!(data, data2.as_slice())
}

#[test]
fn test_read_btf_type_func_datasec() {
    let endianness = host_order();
    let data: &[u8] = &[
        0xd9, 0x00, 0x00, 0x00, 0x01, 0x00, 0x00, 0x0f, 0x00, 0x00, 0x00, 0x00, 0x0b, 0x00, 0x00,
        0x00, 0x00, 0x00, 0x00, 0x00, 0x04, 0x00, 0x00, 0x00,
    ];
    let got = BtfType::read(data, endianness);
    match &got {
        Ok(BtfType::DataSec(ty)) => {
            assert_eq!(ty.size(), Some(0));
            assert_eq!(1, type_vlen(&ty.header));
            assert_eq!(1, ty.entries.len());
            assert_eq!(11, ty.entries[0].btf_type);
            assert_eq!(0, ty.entries[0].offset);
            assert_eq!(4, ty.entries[0].size);
        }
        Ok(t) => panic!("expected datasec type, got {:#?}", t),
        Err(_) => panic!("unexpected error"),
    }
    let data2 = got.unwrap().to_bytes();
    assert_eq!(data, data2.as_slice())
}

#[test]
fn test_read_btf_type_float() {
    let endianness = host_order();
    let data: &[u8] = &[
        0x78, 0xfd, 0x02, 0x00, 0x00, 0x00, 0x00, 0x10, 0x08, 0x00, 0x00, 0x00,
    ];
    let got = BtfType::read(data, endianness);
    match &got {
        Ok(BtfType::Float(_)) => {}
        Ok(t) => panic!("expected float type, got {:#?}", t),
        Err(_) => panic!("unexpected error"),
    }
    let data2 = got.unwrap().to_bytes();
    assert_eq!(data, data2.as_slice())
}

#[test]
fn test_write_btf_func_proto() {
    let params = vec![
        BtfParam {
            name_offset: 1,
            btf_type: 1,
        },
        BtfParam {
            name_offset: 3,
            btf_type: 1,
        },
    ];
    let func_proto = BtfType::FuncProto(FuncProto::new(params, 2));
    let data = func_proto.to_bytes();
    let got = BtfType::read(&data, host_order());
    match got {
        Ok(BtfType::FuncProto(fp)) => {
            assert_eq!(type_vlen(&fp.header), 2);
            assert_eq!(fp.params.len(), 2);
        }
        Ok(t) => panic!("expected func proto type, got {:#?}", t),
        Err(_) => panic!("unexpected error"),
    }
}

#[test]
fn test_roundtrip_all_constructed_kinds() {
    let records = vec![
        BtfType::Unknown(TypeHeader { name_offset: 7, info: 0, word: 9 }),
        BtfType::Typedef(Typedef::new(5, 3)),
        BtfType::Int(Int::new(1, 4, 2, 0)),
        BtfType::Array(Array::new(0, 2, 1, 16)),
        BtfType::Enum(Enum::new(
            9,
            vec![
                BtfEnum { name_offset: 10, value: -1 },
                BtfEnum { name_offset: 12, value: 250 },
            ],
        )),
        BtfType::Struct(Struct::new(
            2,
            vec![BtfMember { name_offset: 3, btf_type: 1, offset: 0 }],
            4,
        )),
        BtfType::FuncProto(FuncProto::new(
            vec![BtfParam { name_offset: 1, btf_type: 2 }],
            3,
        )),
        BtfType::DataSec(
            DataSec::new(8, vec![DataSecEntry { btf_type: 2, offset: 0, size: 4 }], 4),
        ),
    ];
    for record in records {
        let bytes = record.to_bytes();
        assert_eq!(bytes.len(), record.type_info_size());
        let back = BtfType::read(&bytes, ByteOrder::Little).unwrap();
        assert_eq!(back.to_bytes(), bytes);
        assert_eq!(back.kind(), record.kind());
        assert_eq!(back.name_offset(), record.name_offset());
        assert_eq!(back.size(), record.size());
        assert_eq!(back.next_type(), record.next_type());
    }
}

#[test]
fn test_read_int_big_endian_aux_word() {
    // Only the packed auxiliary word of an Int honors the byte order.
    let data: &[u8] = &[
        0x01, 0x00, 0x00, 0x00, 0x00, 0x00, 0x00, 0x01, 0x08, 0x00, 0x00, 0x00, 0x00, 0x00, 0x00,
        0x40,
    ];
    match BtfType::read(data, ByteOrder::Big) {
        Ok(BtfType::Int(ty)) => {
            assert_eq!(ty.bits(), 64);
            assert_eq!(ty.offset(), 0);
        }
        other => panic!("expected int type, got {:#?}", other),
    }
    match BtfType::read(data, ByteOrder::Little) {
        Ok(BtfType::Int(ty)) => assert_eq!(ty.bits(), 0),
        other => panic!("expected int type, got {:#?}", other),
    }
}

#[test]
fn test_kind_codes_exhaustive() {
    let kinds = [
        BtfKind::Unknown,
        BtfKind::Int,
        BtfKind::Ptr,
        BtfKind::Array,
        BtfKind::Struct,
        BtfKind::Union,
        BtfKind::Enum,
        BtfKind::Fwd,
        BtfKind::Typedef,
        BtfKind::Volatile,
        BtfKind::Const,
        BtfKind::Restrict,
        BtfKind::Func,
        BtfKind::FuncProto,
        BtfKind::Var,
        BtfKind::DataSec,
        BtfKind::Float,
        BtfKind::DeclTag,
        BtfKind::TypeTag,
    ];
    for (code, kind) in kinds.iter().enumerate() {
        assert_eq!(BtfKind::try_from(code as u32), Ok(*kind));
        assert_eq!(kind.code(), code as u32);
    }
    for code in 19u32..32 {
        assert_eq!(BtfKind::try_from(code), Err(BtfError::InvalidTypeKind { kind: code }));
    }
}

#[test]
fn test_decode_unassigned_kind_code() {
    // Kind bits hold 0x1F, which is not one of the 19 assigned codes.
    let data: &[u8] = &[
        0x00, 0x00, 0x00, 0x00, 0x00, 0x00, 0x00, 0x1f, 0x00, 0x00, 0x00, 0x00,
    ];
    assert!(matches!(
        BtfType::read(data, ByteOrder::Little),
        Err(BtfError::InvalidTypeKind { kind: 0x1f })
    ));
}

#[test]
fn test_decode_truncated_header() {
    for len in 0..12usize {
        let data = vec![0u8; len];
        assert!(matches!(
            BtfType::read(&data, ByteOrder::Little),
            Err(BtfError::InvalidTypeInfo)
        ));
    }
}

#[test]
fn test_decode_truncated_trailing_data() {
    // A struct header declaring two members, followed by only one.
    let data: &[u8] = &[
        0x00, 0x00, 0x00, 0x00, 0x02, 0x00, 0x00, 0x04, 0x08, 0x00, 0x00, 0x00, 0x01, 0x00, 0x00,
        0x00, 0x02, 0x00, 0x00, 0x00, 0x00, 0x00, 0x00, 0x00,
    ];
    assert!(matches!(
        BtfType::read(data, ByteOrder::Little),
        Err(BtfError::InvalidTypeInfo)
    ));
    // An int header with no auxiliary word behind it.
    let data: &[u8] = &[
        0x00, 0x00, 0x00, 0x00, 0x00, 0x00, 0x00, 0x01, 0x04, 0x00, 0x00, 0x00,
    ];
    assert!(matches!(
        BtfType::read(data, ByteOrder::Little),
        Err(BtfError::InvalidTypeInfo)
    ));
}

#[test]
fn test_member_bit_layout() {
    let kflag_set: u32 = 0x8000_0000;
    let kflag_clear: u32 = 0x0000_0000;
    // With the flag set the low 24 bits are the bit offset and the high 8
    // bits the bit-field width; with it clear the whole word is the offset.
    let member = BtfMember { name_offset: 0, btf_type: 1, offset: 0x0210_0010 };
    assert_eq!(member_bit_offset(kflag_set, &member), 0x10_0010);
    assert_eq!(member_bit_field_size(kflag_set, &member), 2);
    assert_eq!(member_bit_offset(kflag_clear, &member), 0x0210_0010);
    assert_eq!(member_bit_field_size(kflag_clear, &member), 0);
    let member = BtfMember { name_offset: 0, btf_type: 1, offset: 0x0200_0010 };
    assert_eq!(member_bit_offset(kflag_set, &member), 0x10);
    assert_eq!(member_bit_field_size(kflag_set, &member), 2);
    assert_eq!(member_bit_offset(kflag_clear, &member), 0x0200_0010);
    assert_eq!(member_bit_field_size(kflag_clear, &member), 0);
}

#[test]
fn test_kind_labels() {
    assert_eq!(BtfKind::Int.label(), "[INT]");
    assert_eq!(BtfKind::FuncProto.label(), "[FUNC_PROTO]");
    assert_eq!(BtfKind::Unknown.label(), "[UNKNOWN]");
}

#[test]
fn test_type_info_size_matches_encoding() {
    let e = BtfType::Enum(Enum::new(
        0,
        vec![
            BtfEnum { name_offset: 1, value: 0 },
            BtfEnum { name_offset: 2, value: 1 },
            BtfEnum { name_offset: 3, value: 2 },
        ],
    ));
    assert_eq!(e.type_info_size(), 12 + 3 * 8);
    assert_eq!(e.to_bytes().len(), 12 + 3 * 8);
    let v = BtfType::Var(btf_core::types::Var::new(1, 2, 0));
    assert_eq!(v.type_info_size(), 16);
}

#[test]
fn test_decode_ignores_trailing_bytes() {
    // A typedef record followed by two stray bytes: decode yields the
    // complete record and re-encoding reproduces exactly the record's own
    // bytes, nothing more.
    let data: &[u8] = &[
        0x31, 0x00, 0x00, 0x00, 0x00, 0x00, 0x00, 0x08, 0x0b, 0x00, 0x00, 0x00, 0xaa, 0xbb,
    ];
    let got = BtfType::read(data, ByteOrder::Little).unwrap();
    assert_eq!(got.type_info_size(), 12);
    assert_eq!(got.to_bytes(), &data[..12]);
}
