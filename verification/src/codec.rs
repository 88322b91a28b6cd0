use vstd::prelude::*;

use crate::errors::BtfError;
use crate::types::{
    Array, BtfEnum, BtfKind, BtfMember, BtfParam, BtfType, BtfTypeV, ByteOrder, Const, DataSec,
    DataSecEntry, DataSecV, DeclTag, Enum, EnumV, Float, Func, FuncProto, FuncProtoV, Fwd, Int,
    Ptr, Restrict, Struct, StructV, TypeHeader, TypeTag, Typedef, Union, UnionV, Var, Volatile,
    spec_kind_of_code,
};

verus! {

// ---------------------------------------------------------------------------
// Words as byte sequences
// ---------------------------------------------------------------------------
/// The four bytes of a 32-bit word, least-significant first.
pub open spec fn spec_u32_le(x: u32) -> Seq<u8> {
    seq![(x & 0xff) as u8, ((x >> 8) & 0xff) as u8, ((x >> 16) & 0xff) as u8, (
    (x >> 24) & 0xff) as u8]
}

/// The 32-bit word held by four bytes, least-significant first.
pub open spec fn spec_le_u32(s: Seq<u8>) -> u32
    recommends
        s.len() == 4,
{
    (s[0] as u32) | (s[1] as u32) << 8 | (s[2] as u32) << 16 | (s[3] as u32) << 24
}

/// The 32-bit word held by four bytes, most-significant first.
pub open spec fn spec_be_u32(s: Seq<u8>) -> u32
    recommends
        s.len() == 4,
{
    (s[3] as u32) | (s[2] as u32) << 8 | (s[1] as u32) << 16 | (s[0] as u32) << 24
}

/// The word at byte offset `off` of a buffer, least-significant byte first.
pub open spec fn spec_u32_le_at(d: Seq<u8>, off: int) -> u32 {
    spec_le_u32(d.subrange(off, off + 4))
}

/// Splitting a word into four bytes and reassembling them gives the word
/// back, in either byte order.
pub proof fn lemma_u32_bytes_roundtrip(x: u32)
    ensures
        spec_u32_le(x).len() == 4,
        spec_le_u32(spec_u32_le(x)) == x,
{
    assert((x & 0xff) < 256 && ((x >> 8) & 0xff) < 256 && ((x >> 16) & 0xff) < 256 && ((x >> 24)
        & 0xff) < 256) by (bit_vector);
    assert((x & 0xff) | ((x >> 8) & 0xff) << 8 | ((x >> 16) & 0xff) << 16 | ((x >> 24) & 0xff)
        << 24 == x) by (bit_vector);
}

/// Reassembling four bytes into a word and splitting it again gives the
/// bytes back.
pub proof fn lemma_le_u32_bytes_exact(s: Seq<u8>)
    requires
        s.len() == 4,
    ensures
        spec_u32_le(spec_le_u32(s)) == s,
{
    let b0 = s[0] as u32;
    let b1 = s[1] as u32;
    let b2 = s[2] as u32;
    let b3 = s[3] as u32;
    assert(b0 < 256 && b1 < 256 && b2 < 256 && b3 < 256);
    let x = spec_le_u32(s);
    assert((b0 < 256 && b1 < 256 && b2 < 256 && b3 < 256) ==> ((b0 | b1 << 8 | b2 << 16 | b3 << 24)
        & 0xff == b0 && ((b0 | b1 << 8 | b2 << 16 | b3 << 24) >> 8) & 0xff == b1 && ((b0 | b1 << 8
        | b2 << 16 | b3 << 24) >> 16) & 0xff == b2 && ((b0 | b1 << 8 | b2 << 16 | b3 << 24) >> 24)
        & 0xff == b3)) by (bit_vector);
    assert(spec_u32_le(x) =~= s);
}

/// A 32-bit value keeps its bits when reinterpreted between signed and
/// unsigned.
pub proof fn lemma_i32_u32_casts(v: i32, x: u32)
    by (bit_vector)
    ensures
        ((v as u32) as i32) == v,
        ((x as i32) as u32) == x,
{
}

// ---------------------------------------------------------------------------
// Encoding: record to bytes
// ---------------------------------------------------------------------------
/// The 12 bytes of a record's fixed leading part.
pub open spec fn spec_header_bytes(h: TypeHeader) -> Seq<u8> {
    spec_u32_le(h.name_offset) + spec_u32_le(h.info) + spec_u32_le(h.word)
}

/// The 8 bytes of one enum value.
pub open spec fn spec_enum_entry_bytes(e: BtfEnum) -> Seq<u8> {
    spec_u32_le(e.name_offset) + spec_u32_le(e.value as u32)
}

/// The 12 bytes of one struct or union member.
pub open spec fn spec_member_bytes(m: BtfMember) -> Seq<u8> {
    spec_u32_le(m.name_offset) + spec_u32_le(m.btf_type) + spec_u32_le(m.offset)
}

/// The 8 bytes of one prototype parameter.
pub open spec fn spec_param_bytes(p: BtfParam) -> Seq<u8> {
    spec_u32_le(p.name_offset) + spec_u32_le(p.btf_type)
}

/// The 12 bytes of one section-info entry.
pub open spec fn spec_secinfo_bytes(e: DataSecEntry) -> Seq<u8> {
    spec_u32_le(e.btf_type) + spec_u32_le(e.offset) + spec_u32_le(e.size)
}

/// The concatenated bytes of a sequence of enum values.
pub open spec fn spec_enum_values_bytes(vs: Seq<BtfEnum>) -> Seq<u8>
    decreases vs.len(),
{
    if vs.len() == 0 {
        Seq::empty()
    } else {
        spec_enum_values_bytes(vs.drop_last()) + spec_enum_entry_bytes(vs.last())
    }
}

/// The concatenated bytes of a sequence of members.
pub open spec fn spec_members_bytes(ms: Seq<BtfMember>) -> Seq<u8>
    decreases ms.len(),
{
    if ms.len() == 0 {
        Seq::empty()
    } else {
        spec_members_bytes(ms.drop_last()) + spec_member_bytes(ms.last())
    }
}

/// The concatenated bytes of a sequence of parameters.
pub open spec fn spec_params_bytes(ps: Seq<BtfParam>) -> Seq<u8>
    decreases ps.len(),
{
    if ps.len() == 0 {
        Seq::empty()
    } else {
        spec_params_bytes(ps.drop_last()) + spec_param_bytes(ps.last())
    }
}

/// The concatenated bytes of a sequence of section-info entries.
pub open spec fn spec_secinfos_bytes(es: Seq<DataSecEntry>) -> Seq<u8>
    decreases es.len(),
{
    if es.len() == 0 {
        Seq::empty()
    } else {
        spec_secinfos_bytes(es.drop_last()) + spec_secinfo_bytes(es.last())
    }
}

/// The kind-specific trailing bytes of a record.
pub open spec fn spec_payload_bytes(v: BtfTypeV) -> Seq<u8> {
    match v {
        BtfTypeV::Int(t) => spec_u32_le(t.data),
        BtfTypeV::Array(t) => spec_u32_le(t.array.element_type) + spec_u32_le(t.array.index_type)
            + spec_u32_le(t.array.len),
        BtfTypeV::Var(t) => spec_u32_le(t.linkage),
        BtfTypeV::DeclTag(t) => spec_u32_le(t.component_index as u32),
        BtfTypeV::Enum(t) => spec_enum_values_bytes(t.values),
        BtfTypeV::Struct(t) => spec_members_bytes(t.members),
        BtfTypeV::Union(t) => spec_members_bytes(t.members),
        BtfTypeV::FuncProto(t) => spec_params_bytes(t.params),
        BtfTypeV::DataSec(t) => spec_secinfos_bytes(t.entries),
        _ => Seq::empty(),
    }
}

/// The full encoding of a record: its fixed leading part followed by its
/// kind-specific trailing bytes.
pub open spec fn spec_encode(v: BtfTypeV) -> Seq<u8> {
    spec_header_bytes(v.header()) + spec_payload_bytes(v)
}

// ---------------------------------------------------------------------------
// Decoding: bytes to record
// ---------------------------------------------------------------------------
/// The enum value whose 8 bytes start at `off`.
pub open spec fn spec_enum_at(d: Seq<u8>, off: int) -> BtfEnum {
    BtfEnum { name_offset: spec_u32_le_at(d, off), value: spec_u32_le_at(d, off + 4) as i32 }
}

/// The member whose 12 bytes start at `off`.
pub open spec fn spec_member_at(d: Seq<u8>, off: int) -> BtfMember {
    BtfMember {
        name_offset: spec_u32_le_at(d, off),
        btf_type: spec_u32_le_at(d, off + 4),
        offset: spec_u32_le_at(d, off + 8),
    }
}

/// The parameter whose 8 bytes start at `off`.
pub open spec fn spec_param_at(d: Seq<u8>, off: int) -> BtfParam {
    BtfParam { name_offset: spec_u32_le_at(d, off), btf_type: spec_u32_le_at(d, off + 4) }
}

/// The section-info entry whose 12 bytes start at `off`.
pub open spec fn spec_secinfo_at(d: Seq<u8>, off: int) -> DataSecEntry {
    DataSecEntry {
        btf_type: spec_u32_le_at(d, off),
        offset: spec_u32_le_at(d, off + 4),
        size: spec_u32_le_at(d, off + 8),
    }
}

/// The exact number of bytes a record of the given kind and `vlen` spans:
/// the 12-byte fixed part plus its kind-specific trailing data.
pub open spec fn spec_record_len(k: BtfKind, vlen: int) -> int {
    match k {
        BtfKind::Int => 16,
        BtfKind::Array => 24,
        BtfKind::Var => 16,
        BtfKind::DeclTag => 16,
        BtfKind::Enum => 12 + 8 * vlen,
        BtfKind::Struct => 12 + 12 * vlen,
        BtfKind::Union => 12 + 12 * vlen,
        BtfKind::FuncProto => 12 + 8 * vlen,
        BtfKind::DataSec => 12 + 12 * vlen,
        _ => 12,
    }
}

/// What decoding a buffer returns.
///
/// A buffer of fewer than 12 bytes, or shorter than the trailing data its
/// header declares, fails with `InvalidTypeInfo`; a header whose kind bits
/// hold an unassigned code fails with `InvalidTypeKind`; any other buffer
/// decodes to the complete record at its start, and bytes beyond that
/// record are ignored.  Only the `Int` auxiliary word is sensitive to the
/// byte order; every other word is read least-significant byte first.
pub open spec fn spec_decode(d: Seq<u8>, bo: ByteOrder) -> Result<BtfTypeV, BtfError> {
    if d.len() < 12 {
        Err(BtfError::InvalidTypeInfo)
    } else {
        let h = TypeHeader {
            name_offset: spec_u32_le_at(d, 0),
            info: spec_u32_le_at(d, 4),
            word: spec_u32_le_at(d, 8),
        };
        let code = (h.info >> 24) & 0x1F;
        let vlen = (h.info & 0xFFFF) as int;
        match spec_kind_of_code(code) {
            None => Err(BtfError::InvalidTypeKind { kind: code }),
            Some(k) => {
                if d.len() < spec_record_len(k, vlen) {
                    Err(BtfError::InvalidTypeInfo)
                } else {
                    Ok(spec_decode_body(d, bo, h, k, vlen))
                }
            },
        }
    }
}

/// The record a buffer holds, once its length checks have passed.
pub open spec fn spec_decode_body(d: Seq<u8>, bo: ByteOrder, h: TypeHeader, k: BtfKind, vlen: int)
    -> BtfTypeV {
    match k {
        BtfKind::Unknown => BtfTypeV::Unknown(h),
        BtfKind::Fwd => BtfTypeV::Fwd(Fwd { header: h }),
        BtfKind::Const => BtfTypeV::Const(Const { header: h }),
        BtfKind::Volatile => BtfTypeV::Volatile(Volatile { header: h }),
        BtfKind::Restrict => BtfTypeV::Restrict(Restrict { header: h }),
        BtfKind::Ptr => BtfTypeV::Ptr(Ptr { header: h }),
        BtfKind::Typedef => BtfTypeV::Typedef(Typedef { header: h }),
        BtfKind::Func => BtfTypeV::Func(Func { header: h }),
        BtfKind::TypeTag => BtfTypeV::TypeTag(TypeTag { header: h }),
        BtfKind::Float => BtfTypeV::Float(Float { header: h }),
        BtfKind::Int => BtfTypeV::Int(
            Int {
                header: h,
                data: match bo {
                    ByteOrder::Little => spec_u32_le_at(d, 12),
                    ByteOrder::Big => spec_be_u32(d.subrange(12, 16)),
                },
            },
        ),
        BtfKind::Array => BtfTypeV::Array(
            Array {
                header: h,
                array: crate::types::BtfArray {
                    element_type: spec_u32_le_at(d, 12),
                    index_type: spec_u32_le_at(d, 16),
                    len: spec_u32_le_at(d, 20),
                },
            },
        ),
        BtfKind::Var => BtfTypeV::Var(Var { header: h, linkage: spec_u32_le_at(d, 12) }),
        BtfKind::DeclTag => BtfTypeV::DeclTag(
            DeclTag { header: h, component_index: spec_u32_le_at(d, 12) as i32 },
        ),
        BtfKind::Enum => BtfTypeV::Enum(
            EnumV {
                header: h,
                values: Seq::new(vlen as nat, |i: int| spec_enum_at(d, 12 + 8 * i)),
            },
        ),
        BtfKind::Struct => BtfTypeV::Struct(
            StructV {
                header: h,
                members: Seq::new(vlen as nat, |i: int| spec_member_at(d, 12 + 12 * i)),
            },
        ),
        BtfKind::Union => BtfTypeV::Union(
            UnionV {
                header: h,
                members: Seq::new(vlen as nat, |i: int| spec_member_at(d, 12 + 12 * i)),
            },
        ),
        BtfKind::FuncProto => BtfTypeV::FuncProto(
            FuncProtoV {
                header: h,
                params: Seq::new(vlen as nat, |i: int| spec_param_at(d, 12 + 8 * i)),
            },
        ),
        BtfKind::DataSec => BtfTypeV::DataSec(
            DataSecV {
                header: h,
                entries: Seq::new(vlen as nat, |i: int| spec_secinfo_at(d, 12 + 12 * i)),
            },
        ),
    }
}

/// What decoding `r` and mapping the record to its mathematical value
/// gives; relates the executable decoder's result to [`spec_decode`].
pub open spec fn spec_result_view(r: Result<BtfType, BtfError>) -> Result<BtfTypeV, BtfError> {
    match r {
        Ok(t) => Ok(t@),
        Err(e) => Err(e),
    }
}

// ---------------------------------------------------------------------------
// Executable byte helpers
// ---------------------------------------------------------------------------
/// Reads the word at byte offset `off`, least-significant byte first.
fn read_u32_le(data: &[u8], off: usize) -> (r: u32)
    requires
        off + 4 <= data@.len(),
    ensures
        r == spec_u32_le_at(data@, off as int),
{
    let b0 = data[off] as u32;
    let b1 = data[off + 1] as u32;
    let b2 = data[off + 2] as u32;
    let b3 = data[off + 3] as u32;
    let r = b0 | b1 << 8 | b2 << 16 | b3 << 24;
    proof {
        let s = data@.subrange(off as int, off as int + 4);
        assert(s[0] == data@[off as int]);
        assert(s[1] == data@[off as int + 1]);
        assert(s[2] == data@[off as int + 2]);
        assert(s[3] == data@[off as int + 3]);
    }
    r
}

/// Reads the word at byte offset `off`, most-significant byte first.
fn read_u32_be(data: &[u8], off: usize) -> (r: u32)
    requires
        off + 4 <= data@.len(),
    ensures
        r == spec_be_u32(data@.subrange(off as int, off as int + 4)),
{
    let b0 = data[off] as u32;
    let b1 = data[off + 1] as u32;
    let b2 = data[off + 2] as u32;
    let b3 = data[off + 3] as u32;
    let r = b3 | b2 << 8 | b1 << 16 | b0 << 24;
    proof {
        let s = data@.subrange(off as int, off as int + 4);
        assert(s[0] == data@[off as int]);
        assert(s[1] == data@[off as int + 1]);
        assert(s[2] == data@[off as int + 2]);
        assert(s[3] == data@[off as int + 3]);
    }
    r
}

/// Appends the four bytes of a word, least-significant first.
fn push_u32_le(buf: &mut Vec<u8>, v: u32)
    ensures
        final(buf)@ == old(buf)@ + spec_u32_le(v),
{
    buf.push((v & 0xff) as u8);
    buf.push(((v >> 8) & 0xff) as u8);
    buf.push(((v >> 16) & 0xff) as u8);
    buf.push(((v >> 24) & 0xff) as u8);
    proof {
        assert(buf@ =~= old(buf)@ + spec_u32_le(v));
    }
}

/// Appends the 12 bytes of a record's fixed leading part.
fn push_header(buf: &mut Vec<u8>, h: &TypeHeader)
    ensures
        final(buf)@ == old(buf)@ + spec_header_bytes(*h),
{
    push_u32_le(buf, h.name_offset);
    push_u32_le(buf, h.info);
    push_u32_le(buf, h.word);
    proof {
        assert(buf@ =~= old(buf)@ + spec_header_bytes(*h));
    }
}

// ---------------------------------------------------------------------------
// Payload lengths
// ---------------------------------------------------------------------------
/// A sequence of enum values encodes to 8 bytes per value.
pub proof fn lemma_enum_values_bytes_len(vs: Seq<BtfEnum>)
    ensures
        spec_enum_values_bytes(vs).len() == 8 * vs.len(),
    decreases vs.len(),
{
    if vs.len() > 0 {
        lemma_enum_values_bytes_len(vs.drop_last());
    }
}

/// A sequence of members encodes to 12 bytes per member.
pub proof fn lemma_members_bytes_len(ms: Seq<BtfMember>)
    ensures
        spec_members_bytes(ms).len() == 12 * ms.len(),
    decreases ms.len(),
{
    if ms.len() > 0 {
        lemma_members_bytes_len(ms.drop_last());
    }
}

/// A sequence of parameters encodes to 8 bytes per parameter.
pub proof fn lemma_params_bytes_len(ps: Seq<BtfParam>)
    ensures
        spec_params_bytes(ps).len() == 8 * ps.len(),
    decreases ps.len(),
{
    if ps.len() > 0 {
        lemma_params_bytes_len(ps.drop_last());
    }
}

/// A sequence of section-info entries encodes to 12 bytes per entry.
pub proof fn lemma_secinfos_bytes_len(es: Seq<DataSecEntry>)
    ensures
        spec_secinfos_bytes(es).len() == 12 * es.len(),
    decreases es.len(),
{
    if es.len() > 0 {
        lemma_secinfos_bytes_len(es.drop_last());
    }
}

// ---------------------------------------------------------------------------
// Executable encoders
// ---------------------------------------------------------------------------
impl Fwd {
    /// Encodes the record.
    pub fn to_bytes(&self) -> (r: Vec<u8>)
        ensures
            r@ == spec_encode(BtfTypeV::Fwd(*self)),
    {
        let mut buf: Vec<u8> = Vec::new();
        push_header(&mut buf, &self.header);
        proof {
            assert(buf@ =~= spec_encode(BtfTypeV::Fwd(*self)));
        }
        buf
    }
}

impl Const {
    /// Encodes the record.
    pub fn to_bytes(&self) -> (r: Vec<u8>)
        ensures
            r@ == spec_encode(BtfTypeV::Const(*self)),
    {
        let mut buf: Vec<u8> = Vec::new();
        push_header(&mut buf, &self.header);
        proof {
            assert(buf@ =~= spec_encode(BtfTypeV::Const(*self)));
        }
        buf
    }
}

impl Volatile {
    /// Encodes the record.
    pub fn to_bytes(&self) -> (r: Vec<u8>)
        ensures
            r@ == spec_encode(BtfTypeV::Volatile(*self)),
    {
        let mut buf: Vec<u8> = Vec::new();
        push_header(&mut buf, &self.header);
        proof {
            assert(buf@ =~= spec_encode(BtfTypeV::Volatile(*self)));
        }
        buf
    }
}

impl Restrict {
    /// Encodes the record.
    pub fn to_bytes(&self) -> (r: Vec<u8>)
        ensures
            r@ == spec_encode(BtfTypeV::Restrict(*self)),
    {
        let mut buf: Vec<u8> = Vec::new();
        push_header(&mut buf, &self.header);
        proof {
            assert(buf@ =~= spec_encode(BtfTypeV::Restrict(*self)));
        }
        buf
    }
}

impl Ptr {
    /// Encodes the record.
    pub fn to_bytes(&self) -> (r: Vec<u8>)
        ensures
            r@ == spec_encode(BtfTypeV::Ptr(*self)),
    {
        let mut buf: Vec<u8> = Vec::new();
        push_header(&mut buf, &self.header);
        proof {
            assert(buf@ =~= spec_encode(BtfTypeV::Ptr(*self)));
        }
        buf
    }
}

impl Typedef {
    /// Encodes the record.
    pub fn to_bytes(&self) -> (r: Vec<u8>)
        ensures
            r@ == spec_encode(BtfTypeV::Typedef(*self)),
    {
        let mut buf: Vec<u8> = Vec::new();
        push_header(&mut buf, &self.header);
        proof {
            assert(buf@ =~= spec_encode(BtfTypeV::Typedef(*self)));
        }
        buf
    }
}

impl Func {
    /// Encodes the record.
    pub fn to_bytes(&self) -> (r: Vec<u8>)
        ensures
            r@ == spec_encode(BtfTypeV::Func(*self)),
    {
        let mut buf: Vec<u8> = Vec::new();
        push_header(&mut buf, &self.header);
        proof {
            assert(buf@ =~= spec_encode(BtfTypeV::Func(*self)));
        }
        buf
    }
}

impl TypeTag {
    /// Encodes the record.
    pub fn to_bytes(&self) -> (r: Vec<u8>)
        ensures
            r@ == spec_encode(BtfTypeV::TypeTag(*self)),
    {
        let mut buf: Vec<u8> = Vec::new();
        push_header(&mut buf, &self.header);
        proof {
            assert(buf@ =~= spec_encode(BtfTypeV::TypeTag(*self)));
        }
        buf
    }
}

impl Float {
    /// Encodes the record.
    pub fn to_bytes(&self) -> (r: Vec<u8>)
        ensures
            r@ == spec_encode(BtfTypeV::Float(*self)),
    {
        let mut buf: Vec<u8> = Vec::new();
        push_header(&mut buf, &self.header);
        proof {
            assert(buf@ =~= spec_encode(BtfTypeV::Float(*self)));
        }
        buf
    }
}

impl Int {
    /// Encodes the record; the auxiliary word is written least-significant
    /// byte first.
    pub fn to_bytes(&self) -> (r: Vec<u8>)
        ensures
            r@ == spec_encode(BtfTypeV::Int(*self)),
    {
        let mut buf: Vec<u8> = Vec::new();
        push_header(&mut buf, &self.header);
        push_u32_le(&mut buf, self.data);
        proof {
            assert(buf@ =~= spec_encode(BtfTypeV::Int(*self)));
        }
        buf
    }
}

impl Array {
    /// Encodes the record.
    pub fn to_bytes(&self) -> (r: Vec<u8>)
        ensures
            r@ == spec_encode(BtfTypeV::Array(*self)),
    {
        let mut buf: Vec<u8> = Vec::new();
        push_header(&mut buf, &self.header);
        push_u32_le(&mut buf, self.array.element_type);
        push_u32_le(&mut buf, self.array.index_type);
        push_u32_le(&mut buf, self.array.len);
        proof {
            assert(buf@ =~= spec_encode(BtfTypeV::Array(*self)));
        }
        buf
    }
}

impl Var {
    /// Encodes the record.
    pub fn to_bytes(&self) -> (r: Vec<u8>)
        ensures
            r@ == spec_encode(BtfTypeV::Var(*self)),
    {
        let mut buf: Vec<u8> = Vec::new();
        push_header(&mut buf, &self.header);
        push_u32_le(&mut buf, self.linkage);
        proof {
            assert(buf@ =~= spec_encode(BtfTypeV::Var(*self)));
        }
        buf
    }
}

impl DeclTag {
    /// Encodes the record.
    pub fn to_bytes(&self) -> (r: Vec<u8>)
        ensures
            r@ == spec_encode(BtfTypeV::DeclTag(*self)),
    {
        let mut buf: Vec<u8> = Vec::new();
        push_header(&mut buf, &self.header);
        push_u32_le(&mut buf, self.component_index as u32);
        proof {
            assert(buf@ =~= spec_encode(BtfTypeV::DeclTag(*self)));
        }
        buf
    }
}

impl Enum {
    /// Encodes the record and its trailing values.
    pub fn to_bytes(&self) -> (r: Vec<u8>)
        ensures
            r@ == spec_encode(BtfTypeV::Enum(self@)),
    {
        let mut buf: Vec<u8> = Vec::new();
        push_header(&mut buf, &self.header);
        let n = self.values.len();
        let mut i: usize = 0;
        while i < n
            invariant
                n == self.values@.len(),
                i <= n,
                buf@ == spec_header_bytes(self.header) + spec_enum_values_bytes(
                    self.values@.take(i as int),
                ),
            decreases n - i,
        {
            let e = self.values[i];
            push_u32_le(&mut buf, e.name_offset);
            push_u32_le(&mut buf, e.value as u32);
            proof {
                assert(self.values@.take(i as int + 1).drop_last() =~= self.values@.take(i as int));
                assert(buf@ =~= spec_header_bytes(self.header) + spec_enum_values_bytes(
                    self.values@.take(i as int + 1),
                ));
            }
            i += 1;
        }
        proof {
            assert(self.values@.take(n as int) =~= self.values@);
            assert(buf@ =~= spec_encode(BtfTypeV::Enum(self@)));
        }
        buf
    }
}

impl Struct {
    /// Encodes the record and its trailing members.
    pub fn to_bytes(&self) -> (r: Vec<u8>)
        ensures
            r@ == spec_encode(BtfTypeV::Struct(self@)),
    {
        let mut buf: Vec<u8> = Vec::new();
        push_header(&mut buf, &self.header);
        push_members(&mut buf, &self.members);
        proof {
            assert(buf@ =~= spec_encode(BtfTypeV::Struct(self@)));
        }
        buf
    }
}

impl Union {
    /// Encodes the record and its trailing members.
    pub fn to_bytes(&self) -> (r: Vec<u8>)
        ensures
            r@ == spec_encode(BtfTypeV::Union(self@)),
    {
        let mut buf: Vec<u8> = Vec::new();
        push_header(&mut buf, &self.header);
        push_members(&mut buf, &self.members);
        proof {
            assert(buf@ =~= spec_encode(BtfTypeV::Union(self@)));
        }
        buf
    }
}

/// Appends the encodings of all members, in order.
fn push_members(buf: &mut Vec<u8>, members: &Vec<BtfMember>)
    ensures
        final(buf)@ == old(buf)@ + spec_members_bytes(members@),
{
    let n = members.len();
    let mut i: usize = 0;
    while i < n
        invariant
            n == members@.len(),
            i <= n,
            buf@ == old(buf)@ + spec_members_bytes(members@.take(i as int)),
        decreases n - i,
    {
        let m = members[i];
        push_u32_le(buf, m.name_offset);
        push_u32_le(buf, m.btf_type);
        push_u32_le(buf, m.offset);
        proof {
            assert(members@.take(i as int + 1).drop_last() =~= members@.take(i as int));
            assert(buf@ =~= old(buf)@ + spec_members_bytes(members@.take(i as int + 1)));
        }
        i += 1;
    }
    proof {
        assert(members@.take(n as int) =~= members@);
    }
}

impl FuncProto {
    /// Encodes the record and its trailing parameters.
    pub fn to_bytes(&self) -> (r: Vec<u8>)
        ensures
            r@ == spec_encode(BtfTypeV::FuncProto(self@)),
    {
        let mut buf: Vec<u8> = Vec::new();
        push_header(&mut buf, &self.header);
        let n = self.params.len();
        let mut i: usize = 0;
        while i < n
            invariant
                n == self.params@.len(),
                i <= n,
                buf@ == spec_header_bytes(self.header) + spec_params_bytes(
                    self.params@.take(i as int),
                ),
            decreases n - i,
        {
            let p = self.params[i];
            push_u32_le(&mut buf, p.name_offset);
            push_u32_le(&mut buf, p.btf_type);
            proof {
                assert(self.params@.take(i as int + 1).drop_last() =~= self.params@.take(i as int));
                assert(buf@ =~= spec_header_bytes(self.header) + spec_params_bytes(
                    self.params@.take(i as int + 1),
                ));
            }
            i += 1;
        }
        proof {
            assert(self.params@.take(n as int) =~= self.params@);
            assert(buf@ =~= spec_encode(BtfTypeV::FuncProto(self@)));
        }
        buf
    }
}

impl DataSec {
    /// Encodes the record and its trailing section-info entries.
    pub fn to_bytes(&self) -> (r: Vec<u8>)
        ensures
            r@ == spec_encode(BtfTypeV::DataSec(self@)),
    {
        let mut buf: Vec<u8> = Vec::new();
        push_header(&mut buf, &self.header);
        let n = self.entries.len();
        let mut i: usize = 0;
        while i < n
            invariant
                n == self.entries@.len(),
                i <= n,
                buf@ == spec_header_bytes(self.header) + spec_secinfos_bytes(
                    self.entries@.take(i as int),
                ),
            decreases n - i,
        {
            let e = self.entries[i];
            push_u32_le(&mut buf, e.btf_type);
            push_u32_le(&mut buf, e.offset);
            push_u32_le(&mut buf, e.size);
            proof {
                assert(self.entries@.take(i as int + 1).drop_last() =~= self.entries@.take(
                    i as int,
                ));
                assert(buf@ =~= spec_header_bytes(self.header) + spec_secinfos_bytes(
                    self.entries@.take(i as int + 1),
                ));
            }
            i += 1;
        }
        proof {
            assert(self.entries@.take(n as int) =~= self.entries@);
            assert(buf@ =~= spec_encode(BtfTypeV::DataSec(self@)));
        }
        buf
    }
}

impl BtfType {
    /// Encodes the record: the fixed leading part followed by the
    /// kind-specific trailing data, in the layout decoding expects.
    pub fn to_bytes(&self) -> (r: Vec<u8>)
        ensures
            r@ == spec_encode(self@),
    {
        match self {
            BtfType::Unknown(h) => {
                let mut buf: Vec<u8> = Vec::new();
                push_header(&mut buf, h);
                proof {
                    assert(buf@ =~= spec_encode(self@));
                }
                buf
            },
            BtfType::Fwd(t) => t.to_bytes(),
            BtfType::Const(t) => t.to_bytes(),
            BtfType::Volatile(t) => t.to_bytes(),
            BtfType::Restrict(t) => t.to_bytes(),
            BtfType::Ptr(t) => t.to_bytes(),
            BtfType::Typedef(t) => t.to_bytes(),
            BtfType::Func(t) => t.to_bytes(),
            BtfType::Int(t) => t.to_bytes(),
            BtfType::Float(t) => t.to_bytes(),
            BtfType::Enum(t) => t.to_bytes(),
            BtfType::Array(t) => t.to_bytes(),
            BtfType::Struct(t) => t.to_bytes(),
            BtfType::Union(t) => t.to_bytes(),
            BtfType::FuncProto(t) => t.to_bytes(),
            BtfType::Var(t) => t.to_bytes(),
            BtfType::DataSec(t) => t.to_bytes(),
            BtfType::DeclTag(t) => t.to_bytes(),
            BtfType::TypeTag(t) => t.to_bytes(),
        }
    }

    /// The byte length of the record's own encoding.
    pub fn type_info_size(&self) -> (r: usize)
        requires
            spec_encode(self@).len() <= usize::MAX,
        ensures
            r == spec_encode(self@).len(),
    {
        match self {
            BtfType::Unknown(_) => 12,
            BtfType::Fwd(_) => 12,
            BtfType::Const(_) => 12,
            BtfType::Volatile(_) => 12,
            BtfType::Restrict(_) => 12,
            BtfType::Ptr(_) => 12,
            BtfType::Typedef(_) => 12,
            BtfType::Func(_) => 12,
            BtfType::Int(_) => 16,
            BtfType::Float(_) => 12,
            BtfType::Enum(t) => {
                proof {
                    lemma_enum_values_bytes_len(t.values@);
                }
                12 + 8 * t.values.len()
            },
            BtfType::Array(_) => 24,
            BtfType::Struct(t) => {
                proof {
                    lemma_members_bytes_len(t.members@);
                }
                12 + 12 * t.members.len()
            },
            BtfType::Union(t) => {
                proof {
                    lemma_members_bytes_len(t.members@);
                }
                12 + 12 * t.members.len()
            },
            BtfType::FuncProto(t) => {
                proof {
                    lemma_params_bytes_len(t.params@);
                }
                12 + 8 * t.params.len()
            },
            BtfType::Var(_) => 16,
            BtfType::DataSec(t) => {
                proof {
                    lemma_secinfos_bytes_len(t.entries@);
                }
                12 + 12 * t.entries.len()
            },
            BtfType::DeclTag(_) => 16,
            BtfType::TypeTag(_) => 12,
        }
    }

    /// Decodes the record at the start of `data`, reading the `Int`
    /// auxiliary word in the given byte order.
    ///
    /// Returns exactly what [`spec_decode`] says: `InvalidTypeInfo` when the
    /// buffer is shorter than the fixed leading part or than the trailing
    /// data the header declares, `InvalidTypeKind` when the kind bits hold
    /// an unassigned code, and the complete record otherwise; trailing
    /// data is never truncated into a partial record.
    pub fn read(data: &[u8], endianness: ByteOrder) -> (r: Result<BtfType, BtfError>)
        ensures
            spec_result_view(r) == spec_decode(data@, endianness),
    {
        if data.len() < 12 {
            return Err(BtfError::InvalidTypeInfo);
        }
        let name_offset = read_u32_le(data, 0);
        let info = read_u32_le(data, 4);
        let word = read_u32_le(data, 8);
        let h = TypeHeader { name_offset, info, word };
        let code = (info >> 24) & 0x1F;
        let vlen = {
            proof {
                crate::types::lemma_mask_bounds(info);
            }
            (info & 0xFFFF) as usize
        };
        let kind = match BtfKind::try_from(code) {
            Ok(k) => k,
            Err(e) => {
                return Err(e);
            },
        };
        match kind {
            BtfKind::Unknown => Ok(BtfType::Unknown(h)),
            BtfKind::Fwd => Ok(BtfType::Fwd(Fwd { header: h })),
            BtfKind::Const => Ok(BtfType::Const(Const { header: h })),
            BtfKind::Volatile => Ok(BtfType::Volatile(Volatile { header: h })),
            BtfKind::Restrict => Ok(BtfType::Restrict(Restrict { header: h })),
            BtfKind::Ptr => Ok(BtfType::Ptr(Ptr { header: h })),
            BtfKind::Typedef => Ok(BtfType::Typedef(Typedef { header: h })),
            BtfKind::Func => Ok(BtfType::Func(Func { header: h })),
            BtfKind::TypeTag => Ok(BtfType::TypeTag(TypeTag { header: h })),
            BtfKind::Float => Ok(BtfType::Float(Float { header: h })),
            BtfKind::Int => {
                if data.len() < 16 {
                    return Err(BtfError::InvalidTypeInfo);
                }
                let aux = match endianness {
                    ByteOrder::Little => read_u32_le(data, 12),
                    ByteOrder::Big => read_u32_be(data, 12),
                };
                Ok(BtfType::Int(Int { header: h, data: aux }))
            },
            BtfKind::Array => {
                if data.len() < 24 {
                    return Err(BtfError::InvalidTypeInfo);
                }
                let element_type = read_u32_le(data, 12);
                let index_type = read_u32_le(data, 16);
                let len = read_u32_le(data, 20);
                Ok(
                    BtfType::Array(
                        Array {
                            header: h,
                            array: crate::types::BtfArray { element_type, index_type, len },
                        },
                    ),
                )
            },
            BtfKind::Var => {
                if data.len() < 16 {
                    return Err(BtfError::InvalidTypeInfo);
                }
                let linkage = read_u32_le(data, 12);
                Ok(BtfType::Var(Var { header: h, linkage }))
            },
            BtfKind::DeclTag => {
                if data.len() < 16 {
                    return Err(BtfError::InvalidTypeInfo);
                }
                let component_index = read_u32_le(data, 12) as i32;
                Ok(BtfType::DeclTag(DeclTag { header: h, component_index }))
            },
            BtfKind::Enum => {
                if data.len() < 12 + 8 * vlen {
                    return Err(BtfError::InvalidTypeInfo);
                }
                let mut values: Vec<BtfEnum> = Vec::new();
                let mut i: usize = 0;
                while i < vlen
                    invariant
                        vlen <= 0xFFFF,
                        12 + 8 * vlen <= data@.len(),
                        i <= vlen,
                        values@.len() == i,
                        forall|j: int|
                            0 <= j < i ==> values@[j] == spec_enum_at(data@, 12 + 8 * j),
                    decreases vlen - i,
                {
                    let name_offset = read_u32_le(data, 12 + 8 * i);
                    let value = read_u32_le(data, 16 + 8 * i) as i32;
                    values.push(BtfEnum { name_offset, value });
                    i += 1;
                }
                proof {
                    assert(values@ =~= Seq::new(
                        vlen as nat,
                        |j: int| spec_enum_at(data@, 12 + 8 * j),
                    ));
                }
                Ok(BtfType::Enum(Enum { header: h, values }))
            },
            BtfKind::Struct => {
                if data.len() < 12 + 12 * vlen {
                    return Err(BtfError::InvalidTypeInfo);
                }
                let members = read_members(data, vlen);
                Ok(BtfType::Struct(Struct { header: h, members }))
            },
            BtfKind::Union => {
                if data.len() < 12 + 12 * vlen {
                    return Err(BtfError::InvalidTypeInfo);
                }
                let members = read_members(data, vlen);
                Ok(BtfType::Union(Union { header: h, members }))
            },
            BtfKind::FuncProto => {
                if data.len() < 12 + 8 * vlen {
                    return Err(BtfError::InvalidTypeInfo);
                }
                let mut params: Vec<BtfParam> = Vec::new();
                let mut i: usize = 0;
                while i < vlen
                    invariant
                        vlen <= 0xFFFF,
                        12 + 8 * vlen <= data@.len(),
                        i <= vlen,
                        params@.len() == i,
                        forall|j: int|
                            0 <= j < i ==> params@[j] == spec_param_at(data@, 12 + 8 * j),
                    decreases vlen - i,
                {
                    let name_offset = read_u32_le(data, 12 + 8 * i);
                    let btf_type = read_u32_le(data, 16 + 8 * i);
                    params.push(BtfParam { name_offset, btf_type });
                    i += 1;
                }
                proof {
                    assert(params@ =~= Seq::new(
                        vlen as nat,
                        |j: int| spec_param_at(data@, 12 + 8 * j),
                    ));
                }
                Ok(BtfType::FuncProto(FuncProto { header: h, params }))
            },
            BtfKind::DataSec => {
                if data.len() < 12 + 12 * vlen {
                    return Err(BtfError::InvalidTypeInfo);
                }
                let mut entries: Vec<DataSecEntry> = Vec::new();
                let mut i: usize = 0;
                while i < vlen
                    invariant
                        vlen <= 0xFFFF,
                        12 + 12 * vlen <= data@.len(),
                        i <= vlen,
                        entries@.len() == i,
                        forall|j: int|
                            0 <= j < i ==> entries@[j] == spec_secinfo_at(data@, 12 + 12 * j),
                    decreases vlen - i,
                {
                    let btf_type = read_u32_le(data, 12 + 12 * i);
                    let offset = read_u32_le(data, 16 + 12 * i);
                    let size = read_u32_le(data, 20 + 12 * i);
                    entries.push(DataSecEntry { btf_type, offset, size });
                    i += 1;
                }
                proof {
                    assert(entries@ =~= Seq::new(
                        vlen as nat,
                        |j: int| spec_secinfo_at(data@, 12 + 12 * j),
                    ));
                }
                Ok(BtfType::DataSec(DataSec { header: h, entries }))
            },
        }
    }
}

/// Reads `vlen` members from the trailing data that starts 12 bytes into
/// the buffer.
fn read_members(data: &[u8], vlen: usize) -> (r: Vec<BtfMember>)
    requires
        vlen <= 0xFFFF,
        12 + 12 * vlen <= data@.len(),
    ensures
        r@ == Seq::new(vlen as nat, |j: int| spec_member_at(data@, 12 + 12 * j)),
{
    let mut members: Vec<BtfMember> = Vec::new();
    let mut i: usize = 0;
    while i < vlen
        invariant
            vlen <= 0xFFFF,
            12 + 12 * vlen <= data@.len(),
            i <= vlen,
            members@.len() == i,
            forall|j: int| 0 <= j < i ==> members@[j] == spec_member_at(data@, 12 + 12 * j),
        decreases vlen - i,
    {
        let name_offset = read_u32_le(data, 12 + 12 * i);
        let btf_type = read_u32_le(data, 16 + 12 * i);
        let offset = read_u32_le(data, 20 + 12 * i);
        members.push(BtfMember { name_offset, btf_type, offset });
        i += 1;
    }
    proof {
        assert(members@ =~= Seq::new(vlen as nat, |j: int| spec_member_at(data@, 12 + 12 * j)));
    }
    members
}

// ---------------------------------------------------------------------------
// Round-trip lemmas
// ---------------------------------------------------------------------------
/// A buffer that holds a member's bytes at `off` parses back to the member.
proof fn lemma_member_at_extract(d: Seq<u8>, off: int, m: BtfMember)
    requires
        0 <= off,
        off + 12 <= d.len(),
        d.subrange(off, off + 12) == spec_member_bytes(m),
    ensures
        spec_member_at(d, off) == m,
{
    lemma_u32_bytes_roundtrip(m.name_offset);
    lemma_u32_bytes_roundtrip(m.btf_type);
    lemma_u32_bytes_roundtrip(m.offset);
    let s = d.subrange(off, off + 12);
    assert(s.subrange(0, 4) =~= spec_u32_le(m.name_offset));
    assert(s.subrange(4, 8) =~= spec_u32_le(m.btf_type));
    assert(s.subrange(8, 12) =~= spec_u32_le(m.offset));
    assert(d.subrange(off, off + 4) =~= s.subrange(0, 4));
    assert(d.subrange(off + 4, off + 8) =~= s.subrange(4, 8));
    assert(d.subrange(off + 8, off + 12) =~= s.subrange(8, 12));
}

/// A buffer that holds an enum value's bytes at `off` parses back to the
/// value.
proof fn lemma_enum_at_extract(d: Seq<u8>, off: int, e: BtfEnum)
    requires
        0 <= off,
        off + 8 <= d.len(),
        d.subrange(off, off + 8) == spec_enum_entry_bytes(e),
    ensures
        spec_enum_at(d, off) == e,
{
    lemma_u32_bytes_roundtrip(e.name_offset);
    lemma_u32_bytes_roundtrip(e.value as u32);
    lemma_i32_u32_casts(e.value, 0);
    let s = d.subrange(off, off + 8);
    assert(s.subrange(0, 4) =~= spec_u32_le(e.name_offset));
    assert(s.subrange(4, 8) =~= spec_u32_le(e.value as u32));
    assert(d.subrange(off, off + 4) =~= s.subrange(0, 4));
    assert(d.subrange(off + 4, off + 8) =~= s.subrange(4, 8));
}

/// A buffer that holds a parameter's bytes at `off` parses back to the
/// parameter.
proof fn lemma_param_at_extract(d: Seq<u8>, off: int, p: BtfParam)
    requires
        0 <= off,
        off + 8 <= d.len(),
        d.subrange(off, off + 8) == spec_param_bytes(p),
    ensures
        spec_param_at(d, off) == p,
{
    lemma_u32_bytes_roundtrip(p.name_offset);
    lemma_u32_bytes_roundtrip(p.btf_type);
    let s = d.subrange(off, off + 8);
    assert(s.subrange(0, 4) =~= spec_u32_le(p.name_offset));
    assert(s.subrange(4, 8) =~= spec_u32_le(p.btf_type));
    assert(d.subrange(off, off + 4) =~= s.subrange(0, 4));
    assert(d.subrange(off + 4, off + 8) =~= s.subrange(4, 8));
}

/// A buffer that holds a section-info entry's bytes at `off` parses back to
/// the entry.
proof fn lemma_secinfo_at_extract(d: Seq<u8>, off: int, e: DataSecEntry)
    requires
        0 <= off,
        off + 12 <= d.len(),
        d.subrange(off, off + 12) == spec_secinfo_bytes(e),
    ensures
        spec_secinfo_at(d, off) == e,
{
    lemma_u32_bytes_roundtrip(e.btf_type);
    lemma_u32_bytes_roundtrip(e.offset);
    lemma_u32_bytes_roundtrip(e.size);
    let s = d.subrange(off, off + 12);
    assert(s.subrange(0, 4) =~= spec_u32_le(e.btf_type));
    assert(s.subrange(4, 8) =~= spec_u32_le(e.offset));
    assert(s.subrange(8, 12) =~= spec_u32_le(e.size));
    assert(d.subrange(off, off + 4) =~= s.subrange(0, 4));
    assert(d.subrange(off + 4, off + 8) =~= s.subrange(4, 8));
    assert(d.subrange(off + 8, off + 12) =~= s.subrange(8, 12));
}

/// The bytes of member `i` sit 12 times `i` bytes into the concatenation.
proof fn lemma_members_bytes_index(ms: Seq<BtfMember>, i: int)
    requires
        0 <= i < ms.len(),
    ensures
        spec_members_bytes(ms).subrange(12 * i, 12 * i + 12) == spec_member_bytes(ms[i]),
    decreases ms.len(),
{
    lemma_members_bytes_len(ms);
    lemma_members_bytes_len(ms.drop_last());
    if i == ms.len() - 1 {
        assert(spec_members_bytes(ms).subrange(12 * i, 12 * i + 12) =~= spec_member_bytes(
            ms.last(),
        ));
    } else {
        lemma_members_bytes_index(ms.drop_last(), i);
        assert(spec_members_bytes(ms).subrange(12 * i, 12 * i + 12) =~= spec_members_bytes(
            ms.drop_last(),
        ).subrange(12 * i, 12 * i + 12));
    }
}

/// The bytes of enum value `i` sit 8 times `i` bytes into the
/// concatenation.
proof fn lemma_enum_values_bytes_index(vs: Seq<BtfEnum>, i: int)
    requires
        0 <= i < vs.len(),
    ensures
        spec_enum_values_bytes(vs).subrange(8 * i, 8 * i + 8) == spec_enum_entry_bytes(vs[i]),
    decreases vs.len(),
{
    lemma_enum_values_bytes_len(vs);
    lemma_enum_values_bytes_len(vs.drop_last());
    if i == vs.len() - 1 {
        assert(spec_enum_values_bytes(vs).subrange(8 * i, 8 * i + 8) =~= spec_enum_entry_bytes(
            vs.last(),
        ));
    } else {
        lemma_enum_values_bytes_index(vs.drop_last(), i);
        assert(spec_enum_values_bytes(vs).subrange(8 * i, 8 * i + 8) =~= spec_enum_values_bytes(
            vs.drop_last(),
        ).subrange(8 * i, 8 * i + 8));
    }
}

/// The bytes of parameter `i` sit 8 times `i` bytes into the concatenation.
proof fn lemma_params_bytes_index(ps: Seq<BtfParam>, i: int)
    requires
        0 <= i < ps.len(),
    ensures
        spec_params_bytes(ps).subrange(8 * i, 8 * i + 8) == spec_param_bytes(ps[i]),
    decreases ps.len(),
{
    lemma_params_bytes_len(ps);
    lemma_params_bytes_len(ps.drop_last());
    if i == ps.len() - 1 {
        assert(spec_params_bytes(ps).subrange(8 * i, 8 * i + 8) =~= spec_param_bytes(ps.last()));
    } else {
        lemma_params_bytes_index(ps.drop_last(), i);
        assert(spec_params_bytes(ps).subrange(8 * i, 8 * i + 8) =~= spec_params_bytes(
            ps.drop_last(),
        ).subrange(8 * i, 8 * i + 8));
    }
}

/// The bytes of entry `i` sit 12 times `i` bytes into the concatenation.
proof fn lemma_secinfos_bytes_index(es: Seq<DataSecEntry>, i: int)
    requires
        0 <= i < es.len(),
    ensures
        spec_secinfos_bytes(es).subrange(12 * i, 12 * i + 12) == spec_secinfo_bytes(es[i]),
    decreases es.len(),
{
    lemma_secinfos_bytes_len(es);
    lemma_secinfos_bytes_len(es.drop_last());
    if i == es.len() - 1 {
        assert(spec_secinfos_bytes(es).subrange(12 * i, 12 * i + 12) =~= spec_secinfo_bytes(
            es.last(),
        ));
    } else {
        lemma_secinfos_bytes_index(es.drop_last(), i);
        assert(spec_secinfos_bytes(es).subrange(12 * i, 12 * i + 12) =~= spec_secinfos_bytes(
            es.drop_last(),
        ).subrange(12 * i, 12 * i + 12));
    }
}

/// Decoding the fixed leading part of an encoding gives the header back.
proof fn lemma_header_extract(h: TypeHeader, rest: Seq<u8>)
    ensures
        (spec_header_bytes(h) + rest).len() == 12 + rest.len(),
        spec_u32_le_at(spec_header_bytes(h) + rest, 0) == h.name_offset,
        spec_u32_le_at(spec_header_bytes(h) + rest, 4) == h.info,
        spec_u32_le_at(spec_header_bytes(h) + rest, 8) == h.word,
{
    let enc = spec_header_bytes(h) + rest;
    lemma_u32_bytes_roundtrip(h.name_offset);
    lemma_u32_bytes_roundtrip(h.info);
    lemma_u32_bytes_roundtrip(h.word);
    assert(enc.subrange(0, 4) =~= spec_u32_le(h.name_offset));
    assert(enc.subrange(4, 8) =~= spec_u32_le(h.info));
    assert(enc.subrange(8, 12) =~= spec_u32_le(h.word));
}

/// Decoding the encoding of a well-formed record gives the record back,
/// byte order permitting: every record re-read in the order its encoder
/// writes (least-significant byte first) round-trips exactly, for all 19
/// kinds, zero-length trailing data and nonzero `vlen` payloads alike.
#[verifier::rlimit(60)]
pub proof fn lemma_round_trip(v: BtfTypeV)
    requires
        v.well_formed(),
    ensures
        spec_decode(spec_encode(v), ByteOrder::Little) == Ok::<BtfTypeV, BtfError>(v),
{
    let h = v.header();
    let payload = spec_payload_bytes(v);
    let enc = spec_encode(v);
    lemma_header_extract(h, payload);
    crate::types::lemma_kind_code_bijective();
    let code = (h.info >> 24) & 0x1F;
    assert(spec_kind_of_code(code) == Some(v.kind()));
    let vlen = (h.info & 0xFFFF) as int;
    match v {
        BtfTypeV::Unknown(_) => {},
        BtfTypeV::Fwd(_) => {},
        BtfTypeV::Const(_) => {},
        BtfTypeV::Volatile(_) => {},
        BtfTypeV::Restrict(_) => {},
        BtfTypeV::Ptr(_) => {},
        BtfTypeV::Typedef(_) => {},
        BtfTypeV::Func(_) => {},
        BtfTypeV::TypeTag(_) => {},
        BtfTypeV::Float(_) => {},
        BtfTypeV::Int(t) => {
            lemma_u32_bytes_roundtrip(t.data);
            assert(enc.subrange(12, 16) =~= spec_u32_le(t.data));
        },
        BtfTypeV::Array(t) => {
            lemma_u32_bytes_roundtrip(t.array.element_type);
            lemma_u32_bytes_roundtrip(t.array.index_type);
            lemma_u32_bytes_roundtrip(t.array.len);
            assert(enc.subrange(12, 16) =~= spec_u32_le(t.array.element_type));
            assert(enc.subrange(16, 20) =~= spec_u32_le(t.array.index_type));
            assert(enc.subrange(20, 24) =~= spec_u32_le(t.array.len));
        },
        BtfTypeV::Var(t) => {
            lemma_u32_bytes_roundtrip(t.linkage);
            assert(enc.subrange(12, 16) =~= spec_u32_le(t.linkage));
        },
        BtfTypeV::DeclTag(t) => {
            lemma_u32_bytes_roundtrip(t.component_index as u32);
            lemma_i32_u32_casts(t.component_index, 0);
            assert(enc.subrange(12, 16) =~= spec_u32_le(t.component_index as u32));
        },
        BtfTypeV::Enum(t) => {
            lemma_enum_values_bytes_len(t.values);
            assert forall|i: int| 0 <= i < vlen implies spec_enum_at(enc, 12 + 8 * i)
                == t.values[i] by {
                lemma_enum_values_bytes_index(t.values, i);
                assert(enc.subrange(12 + 8 * i, 12 + 8 * i + 8) =~= spec_enum_values_bytes(
                    t.values,
                ).subrange(8 * i, 8 * i + 8));
                lemma_enum_at_extract(enc, 12 + 8 * i, t.values[i]);
            }
            assert(Seq::new(vlen as nat, |i: int| spec_enum_at(enc, 12 + 8 * i)) =~= t.values);
        },
        BtfTypeV::Struct(t) => {
            lemma_members_bytes_len(t.members);
            assert forall|i: int| 0 <= i < vlen implies spec_member_at(enc, 12 + 12 * i)
                == t.members[i] by {
                lemma_members_bytes_index(t.members, i);
                assert(enc.subrange(12 + 12 * i, 12 + 12 * i + 12) =~= spec_members_bytes(
                    t.members,
                ).subrange(12 * i, 12 * i + 12));
                lemma_member_at_extract(enc, 12 + 12 * i, t.members[i]);
            }
            assert(Seq::new(vlen as nat, |i: int| spec_member_at(enc, 12 + 12 * i)) =~= t.members);
        },
        BtfTypeV::Union(t) => {
            lemma_members_bytes_len(t.members);
            assert forall|i: int| 0 <= i < vlen implies spec_member_at(enc, 12 + 12 * i)
                == t.members[i] by {
                lemma_members_bytes_index(t.members, i);
                assert(enc.subrange(12 + 12 * i, 12 + 12 * i + 12) =~= spec_members_bytes(
                    t.members,
                ).subrange(12 * i, 12 * i + 12));
                lemma_member_at_extract(enc, 12 + 12 * i, t.members[i]);
            }
            assert(Seq::new(vlen as nat, |i: int| spec_member_at(enc, 12 + 12 * i)) =~= t.members);
        },
        BtfTypeV::FuncProto(t) => {
            lemma_params_bytes_len(t.params);
            assert forall|i: int| 0 <= i < vlen implies spec_param_at(enc, 12 + 8 * i)
                == t.params[i] by {
                lemma_params_bytes_index(t.params, i);
                assert(enc.subrange(12 + 8 * i, 12 + 8 * i + 8) =~= spec_params_bytes(
                    t.params,
                ).subrange(8 * i, 8 * i + 8));
                lemma_param_at_extract(enc, 12 + 8 * i, t.params[i]);
            }
            assert(Seq::new(vlen as nat, |i: int| spec_param_at(enc, 12 + 8 * i)) =~= t.params);
        },
        BtfTypeV::DataSec(t) => {
            lemma_secinfos_bytes_len(t.entries);
            assert forall|i: int| 0 <= i < vlen implies spec_secinfo_at(enc, 12 + 12 * i)
                == t.entries[i] by {
                lemma_secinfos_bytes_index(t.entries, i);
                assert(enc.subrange(12 + 12 * i, 12 + 12 * i + 12) =~= spec_secinfos_bytes(
                    t.entries,
                ).subrange(12 * i, 12 * i + 12));
                lemma_secinfo_at_extract(enc, 12 + 12 * i, t.entries[i]);
            }
            assert(Seq::new(vlen as nat, |i: int| spec_secinfo_at(enc, 12 + 12 * i))
                =~= t.entries);
        },
    }
}

/// The 12 bytes at `off` re-encode the member parsed there.
proof fn lemma_member_bytes_of_at(d: Seq<u8>, off: int)
    requires
        0 <= off,
        off + 12 <= d.len(),
    ensures
        spec_member_bytes(spec_member_at(d, off)) == d.subrange(off, off + 12),
{
    lemma_le_u32_bytes_exact(d.subrange(off, off + 4));
    lemma_le_u32_bytes_exact(d.subrange(off + 4, off + 8));
    lemma_le_u32_bytes_exact(d.subrange(off + 8, off + 12));
    assert(spec_member_bytes(spec_member_at(d, off)) =~= d.subrange(off, off + 12));
}

/// The 8 bytes at `off` re-encode the enum value parsed there.
proof fn lemma_enum_bytes_of_at(d: Seq<u8>, off: int)
    requires
        0 <= off,
        off + 8 <= d.len(),
    ensures
        spec_enum_entry_bytes(spec_enum_at(d, off)) == d.subrange(off, off + 8),
{
    lemma_le_u32_bytes_exact(d.subrange(off, off + 4));
    lemma_le_u32_bytes_exact(d.subrange(off + 4, off + 8));
    lemma_i32_u32_casts(0, spec_u32_le_at(d, off + 4));
    assert(spec_enum_entry_bytes(spec_enum_at(d, off)) =~= d.subrange(off, off + 8));
}

/// The 8 bytes at `off` re-encode the parameter parsed there.
proof fn lemma_param_bytes_of_at(d: Seq<u8>, off: int)
    requires
        0 <= off,
        off + 8 <= d.len(),
    ensures
        spec_param_bytes(spec_param_at(d, off)) == d.subrange(off, off + 8),
{
    lemma_le_u32_bytes_exact(d.subrange(off, off + 4));
    lemma_le_u32_bytes_exact(d.subrange(off + 4, off + 8));
    assert(spec_param_bytes(spec_param_at(d, off)) =~= d.subrange(off, off + 8));
}

/// The 12 bytes at `off` re-encode the section-info entry parsed there.
proof fn lemma_secinfo_bytes_of_at(d: Seq<u8>, off: int)
    requires
        0 <= off,
        off + 12 <= d.len(),
    ensures
        spec_secinfo_bytes(spec_secinfo_at(d, off)) == d.subrange(off, off + 12),
{
    lemma_le_u32_bytes_exact(d.subrange(off, off + 4));
    lemma_le_u32_bytes_exact(d.subrange(off + 4, off + 8));
    lemma_le_u32_bytes_exact(d.subrange(off + 8, off + 12));
    assert(spec_secinfo_bytes(spec_secinfo_at(d, off)) =~= d.subrange(off, off + 12));
}

/// The members parsed from a slice of a buffer re-encode to that slice.
proof fn lemma_members_of_slice(d: Seq<u8>, base: int, n: int)
    requires
        0 <= base,
        0 <= n,
        base + 12 * n <= d.len(),
    ensures
        spec_members_bytes(Seq::new(n as nat, |i: int| spec_member_at(d, base + 12 * i)))
            == d.subrange(base, base + 12 * n),
    decreases n,
{
    let ms = Seq::new(n as nat, |i: int| spec_member_at(d, base + 12 * i));
    if n == 0 {
        assert(spec_members_bytes(ms) =~= d.subrange(base, base));
    } else {
        lemma_members_of_slice(d, base, n - 1);
        assert(ms.drop_last() =~= Seq::new((n - 1) as nat, |i: int| spec_member_at(
            d,
            base + 12 * i,
        )));
        lemma_member_bytes_of_at(d, base + 12 * (n - 1));
        assert(spec_members_bytes(ms) =~= d.subrange(base, base + 12 * n));
    }
}

/// The enum values parsed from a slice of a buffer re-encode to that slice.
proof fn lemma_enum_values_of_slice(d: Seq<u8>, base: int, n: int)
    requires
        0 <= base,
        0 <= n,
        base + 8 * n <= d.len(),
    ensures
        spec_enum_values_bytes(Seq::new(n as nat, |i: int| spec_enum_at(d, base + 8 * i)))
            == d.subrange(base, base + 8 * n),
    decreases n,
{
    let vs = Seq::new(n as nat, |i: int| spec_enum_at(d, base + 8 * i));
    if n == 0 {
        assert(spec_enum_values_bytes(vs) =~= d.subrange(base, base));
    } else {
        lemma_enum_values_of_slice(d, base, n - 1);
        assert(vs.drop_last() =~= Seq::new((n - 1) as nat, |i: int| spec_enum_at(
            d,
            base + 8 * i,
        )));
        lemma_enum_bytes_of_at(d, base + 8 * (n - 1));
        assert(spec_enum_values_bytes(vs) =~= d.subrange(base, base + 8 * n));
    }
}

/// The parameters parsed from a slice of a buffer re-encode to that slice.
proof fn lemma_params_of_slice(d: Seq<u8>, base: int, n: int)
    requires
        0 <= base,
        0 <= n,
        base + 8 * n <= d.len(),
    ensures
        spec_params_bytes(Seq::new(n as nat, |i: int| spec_param_at(d, base + 8 * i)))
            == d.subrange(base, base + 8 * n),
    decreases n,
{
    let ps = Seq::new(n as nat, |i: int| spec_param_at(d, base + 8 * i));
    if n == 0 {
        assert(spec_params_bytes(ps) =~= d.subrange(base, base));
    } else {
        lemma_params_of_slice(d, base, n - 1);
        assert(ps.drop_last() =~= Seq::new((n - 1) as nat, |i: int| spec_param_at(
            d,
            base + 8 * i,
        )));
        lemma_param_bytes_of_at(d, base + 8 * (n - 1));
        assert(spec_params_bytes(ps) =~= d.subrange(base, base + 8 * n));
    }
}

/// The section-info entries parsed from a slice of a buffer re-encode to
/// that slice.
proof fn lemma_secinfos_of_slice(d: Seq<u8>, base: int, n: int)
    requires
        0 <= base,
        0 <= n,
        base + 12 * n <= d.len(),
    ensures
        spec_secinfos_bytes(Seq::new(n as nat, |i: int| spec_secinfo_at(d, base + 12 * i)))
            == d.subrange(base, base + 12 * n),
    decreases n,
{
    let es = Seq::new(n as nat, |i: int| spec_secinfo_at(d, base + 12 * i));
    if n == 0 {
        assert(spec_secinfos_bytes(es) =~= d.subrange(base, base));
    } else {
        lemma_secinfos_of_slice(d, base, n - 1);
        assert(es.drop_last() =~= Seq::new((n - 1) as nat, |i: int| spec_secinfo_at(
            d,
            base + 12 * i,
        )));
        lemma_secinfo_bytes_of_at(d, base + 12 * (n - 1));
        assert(spec_secinfos_bytes(es) =~= d.subrange(base, base + 12 * n));
    }
}

/// Every decoded record is well formed, and its `vlen` never exceeds the
/// 16 bits that hold it.
pub proof fn lemma_decode_well_formed(d: Seq<u8>, bo: ByteOrder)
    ensures
        spec_decode(d, bo) matches Ok(v) ==> v.well_formed() && v.vlen() <= 0xFFFF,
{
    if spec_decode(d, bo) is Ok {
        let info = spec_u32_le_at(d, 4);
        crate::types::lemma_mask_bounds(info);
        crate::types::lemma_kind_code_bijective();
    }
}

/// Decoding is lossless: re-encoding a record decoded from a buffer
/// reproduces the buffer's leading bytes exactly, including any bits this
/// model does not interpret.  (The record spans `spec_record_len` bytes;
/// what the buffer holds beyond them was no part of the record.)
#[verifier::rlimit(60)]
pub proof fn lemma_decode_then_encode(d: Seq<u8>, v: BtfTypeV)
    requires
        spec_decode(d, ByteOrder::Little) == Ok::<BtfTypeV, BtfError>(v),
    ensures
        spec_encode(v).len() == spec_record_len(v.kind(), v.vlen() as int),
        spec_encode(v).len() <= d.len(),
        spec_encode(v) == d.subrange(0, spec_encode(v).len() as int),
{
    let h = v.header();
    crate::types::lemma_mask_bounds(spec_u32_le_at(d, 4));
    crate::types::lemma_kind_code_bijective();
    lemma_le_u32_bytes_exact(d.subrange(0, 4));
    lemma_le_u32_bytes_exact(d.subrange(4, 8));
    lemma_le_u32_bytes_exact(d.subrange(8, 12));
    assert(spec_header_bytes(h) =~= d.subrange(0, 12));
    let vlen = v.vlen() as int;
    match v {
        BtfTypeV::Unknown(_) => {
            assert(spec_encode(v) =~= d.subrange(0, 12));
        },
        BtfTypeV::Fwd(_) => {
            assert(spec_encode(v) =~= d.subrange(0, 12));
        },
        BtfTypeV::Const(_) => {
            assert(spec_encode(v) =~= d.subrange(0, 12));
        },
        BtfTypeV::Volatile(_) => {
            assert(spec_encode(v) =~= d.subrange(0, 12));
        },
        BtfTypeV::Restrict(_) => {
            assert(spec_encode(v) =~= d.subrange(0, 12));
        },
        BtfTypeV::Ptr(_) => {
            assert(spec_encode(v) =~= d.subrange(0, 12));
        },
        BtfTypeV::Typedef(_) => {
            assert(spec_encode(v) =~= d.subrange(0, 12));
        },
        BtfTypeV::Func(_) => {
            assert(spec_encode(v) =~= d.subrange(0, 12));
        },
        BtfTypeV::TypeTag(_) => {
            assert(spec_encode(v) =~= d.subrange(0, 12));
        },
        BtfTypeV::Float(_) => {
            assert(spec_encode(v) =~= d.subrange(0, 12));
        },
        BtfTypeV::Int(_) => {
            lemma_le_u32_bytes_exact(d.subrange(12, 16));
            assert(spec_encode(v) =~= d.subrange(0, 16));
        },
        BtfTypeV::Array(_) => {
            lemma_le_u32_bytes_exact(d.subrange(12, 16));
            lemma_le_u32_bytes_exact(d.subrange(16, 20));
            lemma_le_u32_bytes_exact(d.subrange(20, 24));
            assert(spec_encode(v) =~= d.subrange(0, 24));
        },
        BtfTypeV::Var(_) => {
            lemma_le_u32_bytes_exact(d.subrange(12, 16));
            assert(spec_encode(v) =~= d.subrange(0, 16));
        },
        BtfTypeV::DeclTag(_) => {
            lemma_le_u32_bytes_exact(d.subrange(12, 16));
            lemma_i32_u32_casts(0, spec_u32_le_at(d, 12));
            assert(spec_encode(v) =~= d.subrange(0, 16));
        },
        BtfTypeV::Enum(t) => {
            lemma_enum_values_of_slice(d, 12, vlen);
            assert(t.values =~= Seq::new(vlen as nat, |i: int| spec_enum_at(d, 12 + 8 * i)));
            lemma_enum_values_bytes_len(t.values);
            assert(spec_encode(v) =~= d.subrange(0, 12 + 8 * vlen));
        },
        BtfTypeV::Struct(t) => {
            lemma_members_of_slice(d, 12, vlen);
            assert(t.members =~= Seq::new(vlen as nat, |i: int| spec_member_at(d, 12 + 12 * i)));
            lemma_members_bytes_len(t.members);
            assert(spec_encode(v) =~= d.subrange(0, 12 + 12 * vlen));
        },
        BtfTypeV::Union(t) => {
            lemma_members_of_slice(d, 12, vlen);
            assert(t.members =~= Seq::new(vlen as nat, |i: int| spec_member_at(d, 12 + 12 * i)));
            lemma_members_bytes_len(t.members);
            assert(spec_encode(v) =~= d.subrange(0, 12 + 12 * vlen));
        },
        BtfTypeV::FuncProto(t) => {
            lemma_params_of_slice(d, 12, vlen);
            assert(t.params =~= Seq::new(vlen as nat, |i: int| spec_param_at(d, 12 + 8 * i)));
            lemma_params_bytes_len(t.params);
            assert(spec_encode(v) =~= d.subrange(0, 12 + 8 * vlen));
        },
        BtfTypeV::DataSec(t) => {
            lemma_secinfos_of_slice(d, 12, vlen);
            assert(t.entries =~= Seq::new(vlen as nat, |i: int| spec_secinfo_at(d, 12 + 12 * i)));
            lemma_secinfos_bytes_len(t.entries);
            assert(spec_encode(v) =~= d.subrange(0, 12 + 12 * vlen));
        },
    }
}

/// The condition under which decoding a buffer succeeds: it holds the full
/// fixed leading part, an assigned kind code, and the whole trailing data
/// its header declares.
pub open spec fn spec_decode_ok(d: Seq<u8>) -> bool {
    &&& d.len() >= 12
    &&& spec_kind_of_code((spec_u32_le_at(d, 4) >> 24) & 0x1F) matches Some(k) && d.len()
        >= spec_record_len(k, (spec_u32_le_at(d, 4) & 0xFFFF) as int)
}

/// Truncation safety: a buffer shorter than the fixed leading part, or
/// shorter than that part plus the trailing data its header declares,
/// always fails with `InvalidTypeInfo` — never with a partial record.
pub proof fn lemma_decode_truncated(d: Seq<u8>, bo: ByteOrder)
    ensures
        d.len() < 12 ==> spec_decode(d, bo) == Err::<BtfTypeV, BtfError>(BtfError::InvalidTypeInfo),
        (d.len() >= 12 && spec_kind_of_code((spec_u32_le_at(d, 4) >> 24) & 0x1F) is Some
            && !spec_decode_ok(d)) ==> spec_decode(d, bo) == Err::<BtfTypeV, BtfError>(
            BtfError::InvalidTypeInfo,
        ),
{
}

/// When decoding succeeds, and with what: success exactly under
/// [`spec_decode_ok`], the decoded kind read off the header's kind bits,
/// and an unassigned code failing with `InvalidTypeKind` carrying it.
pub proof fn lemma_decode_success(d: Seq<u8>, bo: ByteOrder)
    ensures
        spec_decode(d, bo) is Ok <==> spec_decode_ok(d),
        spec_decode(d, bo) matches Ok(v) ==> spec_kind_of_code((spec_u32_le_at(d, 4) >> 24) & 0x1F)
            == Some(v.kind()),
        (d.len() >= 12 && spec_kind_of_code((spec_u32_le_at(d, 4) >> 24) & 0x1F) is None)
            ==> spec_decode(d, bo) == Err::<BtfTypeV, BtfError>(
            BtfError::InvalidTypeKind { kind: (spec_u32_le_at(d, 4) >> 24) & 0x1F },
        ),
{
}

} // verus!
