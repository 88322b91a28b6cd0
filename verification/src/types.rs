use vstd::prelude::*;

verus! {

/// Byte order used to read the byte-order-sensitive parts of a record.
///
/// Multi-byte fields of the format are stored least-significant byte first
/// except for the packed auxiliary word of an `Int` record, which is read in
/// the declared order of the buffer being decoded.
#[derive(Clone, Copy, Debug, PartialEq, Eq, Structural)]
pub enum ByteOrder {
    Little,
    Big,
}

/// The closed set of 19 kinds a type record can have.
#[derive(Clone, Copy, Debug, PartialEq, Eq, Structural)]
pub enum BtfKind {
    Unknown,
    Int,
    Ptr,
    Array,
    Struct,
    Union,
    Enum,
    Fwd,
    Typedef,
    Volatile,
    Const,
    Restrict,
    Func,
    FuncProto,
    Var,
    DataSec,
    Float,
    DeclTag,
    TypeTag,
}

/// The numeric code of a kind, as stored in bits 24..=28 of a record's
/// `info` word.
pub open spec fn spec_kind_code(k: BtfKind) -> u32 {
    match k {
        BtfKind::Unknown => 0,
        BtfKind::Int => 1,
        BtfKind::Ptr => 2,
        BtfKind::Array => 3,
        BtfKind::Struct => 4,
        BtfKind::Union => 5,
        BtfKind::Enum => 6,
        BtfKind::Fwd => 7,
        BtfKind::Typedef => 8,
        BtfKind::Volatile => 9,
        BtfKind::Const => 10,
        BtfKind::Restrict => 11,
        BtfKind::Func => 12,
        BtfKind::FuncProto => 13,
        BtfKind::Var => 14,
        BtfKind::DataSec => 15,
        BtfKind::Float => 16,
        BtfKind::DeclTag => 17,
        BtfKind::TypeTag => 18,
    }
}

/// The kind a numeric code stands for, total over all of `u32`: exactly the
/// codes 0..=18 are assigned.
pub open spec fn spec_kind_of_code(v: u32) -> Option<BtfKind> {
    if v == 0 {
        Some(BtfKind::Unknown)
    } else if v == 1 {
        Some(BtfKind::Int)
    } else if v == 2 {
        Some(BtfKind::Ptr)
    } else if v == 3 {
        Some(BtfKind::Array)
    } else if v == 4 {
        Some(BtfKind::Struct)
    } else if v == 5 {
        Some(BtfKind::Union)
    } else if v == 6 {
        Some(BtfKind::Enum)
    } else if v == 7 {
        Some(BtfKind::Fwd)
    } else if v == 8 {
        Some(BtfKind::Typedef)
    } else if v == 9 {
        Some(BtfKind::Volatile)
    } else if v == 10 {
        Some(BtfKind::Const)
    } else if v == 11 {
        Some(BtfKind::Restrict)
    } else if v == 12 {
        Some(BtfKind::Func)
    } else if v == 13 {
        Some(BtfKind::FuncProto)
    } else if v == 14 {
        Some(BtfKind::Var)
    } else if v == 15 {
        Some(BtfKind::DataSec)
    } else if v == 16 {
        Some(BtfKind::Float)
    } else if v == 17 {
        Some(BtfKind::DeclTag)
    } else if v == 18 {
        Some(BtfKind::TypeTag)
    } else {
        None
    }
}

/// What converting a numeric code to a kind returns: the kind for the 19
/// assigned codes, `InvalidTypeKind` carrying the offending value otherwise.
pub open spec fn spec_kind_try_from(v: u32) -> Result<BtfKind, crate::errors::BtfError> {
    match spec_kind_of_code(v) {
        Some(k) => Ok(k),
        None => Err(crate::errors::BtfError::InvalidTypeKind { kind: v }),
    }
}

/// The two code mappings invert each other.
pub proof fn lemma_kind_code_bijective()
    ensures
        forall|k: BtfKind| spec_kind_of_code(#[trigger] spec_kind_code(k)) == Some(k),
        forall|k: BtfKind| spec_kind_code(k) <= 18,
        forall|v: u32| (#[trigger] spec_kind_of_code(v)) matches Some(k) ==> spec_kind_code(k) == v,
{
}

impl BtfKind {
    /// Converts a numeric kind code to its kind; the 19 assigned codes
    /// succeed, every other value fails with `InvalidTypeKind`.
    pub fn try_from(v: u32) -> (r: Result<BtfKind, crate::errors::BtfError>)
        ensures
            r == spec_kind_try_from(v),
    {
        if v == 0 {
            Ok(BtfKind::Unknown)
        } else if v == 1 {
            Ok(BtfKind::Int)
        } else if v == 2 {
            Ok(BtfKind::Ptr)
        } else if v == 3 {
            Ok(BtfKind::Array)
        } else if v == 4 {
            Ok(BtfKind::Struct)
        } else if v == 5 {
            Ok(BtfKind::Union)
        } else if v == 6 {
            Ok(BtfKind::Enum)
        } else if v == 7 {
            Ok(BtfKind::Fwd)
        } else if v == 8 {
            Ok(BtfKind::Typedef)
        } else if v == 9 {
            Ok(BtfKind::Volatile)
        } else if v == 10 {
            Ok(BtfKind::Const)
        } else if v == 11 {
            Ok(BtfKind::Restrict)
        } else if v == 12 {
            Ok(BtfKind::Func)
        } else if v == 13 {
            Ok(BtfKind::FuncProto)
        } else if v == 14 {
            Ok(BtfKind::Var)
        } else if v == 15 {
            Ok(BtfKind::DataSec)
        } else if v == 16 {
            Ok(BtfKind::Float)
        } else if v == 17 {
            Ok(BtfKind::DeclTag)
        } else if v == 18 {
            Ok(BtfKind::TypeTag)
        } else {
            Err(crate::errors::BtfError::InvalidTypeKind { kind: v })
        }
    }

    /// The numeric code of this kind.
    pub fn code(&self) -> (r: u32)
        ensures
            r == spec_kind_code(*self),
    {
        match self {
            BtfKind::Unknown => 0,
            BtfKind::Int => 1,
            BtfKind::Ptr => 2,
            BtfKind::Array => 3,
            BtfKind::Struct => 4,
            BtfKind::Union => 5,
            BtfKind::Enum => 6,
            BtfKind::Fwd => 7,
            BtfKind::Typedef => 8,
            BtfKind::Volatile => 9,
            BtfKind::Const => 10,
            BtfKind::Restrict => 11,
            BtfKind::Func => 12,
            BtfKind::FuncProto => 13,
            BtfKind::Var => 14,
            BtfKind::DataSec => 15,
            BtfKind::Float => 16,
            BtfKind::DeclTag => 17,
            BtfKind::TypeTag => 18,
        }
    }
}

impl Default for BtfKind {
    /// The kind a zeroed `info` word decodes to.
    fn default() -> (r: BtfKind)
        ensures
            r == BtfKind::Unknown,
    {
        BtfKind::Unknown
    }
}

/// The fixed short display label of a kind, for diagnostics.
pub open spec fn spec_kind_label(k: BtfKind) -> Seq<char> {
    match k {
        BtfKind::Unknown => "[UNKNOWN]"@,
        BtfKind::Int => "[INT]"@,
        BtfKind::Ptr => "[PTR]"@,
        BtfKind::Array => "[ARRAY]"@,
        BtfKind::Struct => "[STRUCT]"@,
        BtfKind::Union => "[UNION]"@,
        BtfKind::Enum => "[ENUM]"@,
        BtfKind::Fwd => "[FWD]"@,
        BtfKind::Typedef => "[TYPEDEF]"@,
        BtfKind::Volatile => "[VOLATILE]"@,
        BtfKind::Const => "[CONST]"@,
        BtfKind::Restrict => "[RESTRICT]"@,
        BtfKind::Float => "[FLOAT]"@,
        BtfKind::Func => "[FUNC]"@,
        BtfKind::FuncProto => "[FUNC_PROTO]"@,
        BtfKind::Var => "[VAR]"@,
        BtfKind::DataSec => "[DATASEC]"@,
        BtfKind::DeclTag => "[DECL_TAG]"@,
        BtfKind::TypeTag => "[TYPE_TAG]"@,
    }
}

impl BtfKind {
    /// The kind's bracketed display label.
    pub fn label(&self) -> (r: String)
        ensures
            r@ == spec_kind_label(*self),
    {
        match self {
            BtfKind::Unknown => "[UNKNOWN]".to_owned(),
            BtfKind::Int => "[INT]".to_owned(),
            BtfKind::Ptr => "[PTR]".to_owned(),
            BtfKind::Array => "[ARRAY]".to_owned(),
            BtfKind::Struct => "[STRUCT]".to_owned(),
            BtfKind::Union => "[UNION]".to_owned(),
            BtfKind::Enum => "[ENUM]".to_owned(),
            BtfKind::Fwd => "[FWD]".to_owned(),
            BtfKind::Typedef => "[TYPEDEF]".to_owned(),
            BtfKind::Volatile => "[VOLATILE]".to_owned(),
            BtfKind::Const => "[CONST]".to_owned(),
            BtfKind::Restrict => "[RESTRICT]".to_owned(),
            BtfKind::Float => "[FLOAT]".to_owned(),
            BtfKind::Func => "[FUNC]".to_owned(),
            BtfKind::FuncProto => "[FUNC_PROTO]".to_owned(),
            BtfKind::Var => "[VAR]".to_owned(),
            BtfKind::DataSec => "[DATASEC]".to_owned(),
            BtfKind::DeclTag => "[DECL_TAG]".to_owned(),
            BtfKind::TypeTag => "[TYPE_TAG]".to_owned(),
        }
    }
}

/// The fixed 12-byte leading part shared by every record: the 8-byte common
/// header (`name_offset` and the packed `info` word) followed by the
/// kind-dependent auxiliary word.
///
/// `info` packs the kind code in bits 24..=28, the k-flag in bit 31 and a
/// 16-bit `vlen`/auxiliary count in bits 0..=15.  `word` holds a byte size
/// for kinds that have one, a referenced type id for kinds that reference
/// exactly one other type, and unspecified bits otherwise; it is kept
/// verbatim so that re-encoding reproduces the original bytes.
#[derive(Clone, Copy, Debug, PartialEq, Eq, Structural)]
pub struct TypeHeader {
    pub name_offset: u32,
    pub info: u32,
    pub word: u32,
}

/// One named value of an `Enum` record's trailing data.
#[derive(Clone, Copy, Debug, PartialEq, Eq, Structural)]
pub struct BtfEnum {
    pub name_offset: u32,
    pub value: i32,
}

/// One member of a `Struct` or `Union` record's trailing data.
///
/// How `offset` splits into a bit offset and a bit-field width depends on
/// the owning record's k-flag; see [`member_bit_offset`] and
/// [`member_bit_field_size`].
#[derive(Clone, Copy, Debug, PartialEq, Eq, Structural)]
pub struct BtfMember {
    pub name_offset: u32,
    pub btf_type: u32,
    pub offset: u32,
}

/// One parameter of a `FuncProto` record's trailing data.
#[derive(Clone, Copy, Debug, PartialEq, Eq, Structural)]
pub struct BtfParam {
    pub name_offset: u32,
    pub btf_type: u32,
}

/// The fixed trailing data of an `Array` record.
#[derive(Clone, Copy, Debug, PartialEq, Eq, Structural)]
pub struct BtfArray {
    pub element_type: u32,
    pub index_type: u32,
    pub len: u32,
}

/// One section-info entry of a `DataSec` record's trailing data.
#[derive(Clone, Copy, Debug, PartialEq, Eq, Structural)]
pub struct DataSecEntry {
    pub btf_type: u32,
    pub offset: u32,
    pub size: u32,
}

/// A forward declaration; the k-flag distinguishes a struct from a union.
#[derive(Clone, Copy, Debug, PartialEq, Eq, Structural)]
pub struct Fwd {
    pub header: TypeHeader,
}

/// A `const` qualifier wrapping the type id in the auxiliary word.
#[derive(Clone, Copy, Debug, PartialEq, Eq, Structural)]
pub struct Const {
    pub header: TypeHeader,
}

/// A `volatile` qualifier wrapping the type id in the auxiliary word.
#[derive(Clone, Copy, Debug, PartialEq, Eq, Structural)]
pub struct Volatile {
    pub header: TypeHeader,
}

/// A `restrict` qualifier wrapping the type id in the auxiliary word.
#[derive(Clone, Copy, Debug, PartialEq, Eq, Structural)]
pub struct Restrict {
    pub header: TypeHeader,
}

/// A pointer to the type id in the auxiliary word.
#[derive(Clone, Copy, Debug, PartialEq, Eq, Structural)]
pub struct Ptr {
    pub header: TypeHeader,
}

/// A type alias for the type id in the auxiliary word.
#[derive(Clone, Copy, Debug, PartialEq, Eq, Structural)]
pub struct Typedef {
    pub header: TypeHeader,
}

/// A function; its prototype id sits in the auxiliary word and its linkage
/// in the low 16 bits of `info`.
#[derive(Clone, Copy, Debug, PartialEq, Eq, Structural)]
pub struct Func {
    pub header: TypeHeader,
}

/// A type tag annotating the type id in the auxiliary word.
#[derive(Clone, Copy, Debug, PartialEq, Eq, Structural)]
pub struct TypeTag {
    pub header: TypeHeader,
}

/// A floating-point type; its byte size sits in the auxiliary word.
#[derive(Clone, Copy, Debug, PartialEq, Eq, Structural)]
pub struct Float {
    pub header: TypeHeader,
}

/// An integer type; its byte size sits in the auxiliary word and a packed
/// word of encoding, bit offset and bit width trails the header.
#[derive(Clone, Copy, Debug, PartialEq, Eq, Structural)]
pub struct Int {
    pub header: TypeHeader,
    pub data: u32,
}

/// An array; element type, index type and element count trail the header.
#[derive(Clone, Copy, Debug, PartialEq, Eq, Structural)]
pub struct Array {
    pub header: TypeHeader,
    pub array: BtfArray,
}

/// A variable; its type id sits in the auxiliary word and its linkage
/// trails the header.
#[derive(Clone, Copy, Debug, PartialEq, Eq, Structural)]
pub struct Var {
    pub header: TypeHeader,
    pub linkage: u32,
}

/// A declaration tag; its annotated type id sits in the auxiliary word and
/// a component index trails the header.
#[derive(Clone, Copy, Debug, PartialEq, Eq, Structural)]
pub struct DeclTag {
    pub header: TypeHeader,
    pub component_index: i32,
}

/// An enumeration; its byte size sits in the auxiliary word and `vlen`
/// named values trail the header.
#[derive(Clone, Debug)]
pub struct Enum {
    pub header: TypeHeader,
    pub values: Vec<BtfEnum>,
}

/// A struct; its byte size sits in the auxiliary word and `vlen` members
/// trail the header.
#[derive(Clone, Debug)]
pub struct Struct {
    pub header: TypeHeader,
    pub members: Vec<BtfMember>,
}

/// A union; its byte size sits in the auxiliary word and `vlen` members
/// trail the header.
#[derive(Clone, Debug)]
pub struct Union {
    pub header: TypeHeader,
    pub members: Vec<BtfMember>,
}

/// A function prototype; its return type id sits in the auxiliary word and
/// `vlen` parameters trail the header.
#[derive(Clone, Debug)]
pub struct FuncProto {
    pub header: TypeHeader,
    pub params: Vec<BtfParam>,
}

/// A data section; its byte size sits in the auxiliary word and `vlen`
/// section-info entries trail the header.
#[derive(Clone, Debug)]
pub struct DataSec {
    pub header: TypeHeader,
    pub entries: Vec<DataSecEntry>,
}

/// The in-memory decoding of one binary type record: a tagged union over
/// the 19 kinds, each variant carrying the fixed leading part and its
/// kind-specific trailing data.
#[derive(Clone, Debug)]
pub enum BtfType {
    Unknown(TypeHeader),
    Fwd(Fwd),
    Const(Const),
    Volatile(Volatile),
    Restrict(Restrict),
    Ptr(Ptr),
    Typedef(Typedef),
    Func(Func),
    Int(Int),
    Float(Float),
    Enum(Enum),
    Array(Array),
    Struct(Struct),
    Union(Union),
    FuncProto(FuncProto),
    Var(Var),
    DataSec(DataSec),
    DeclTag(DeclTag),
    TypeTag(TypeTag),
}

/// The mathematical value of an [`Enum`] record.
#[verifier::ext_equal]
pub struct EnumV {
    pub header: TypeHeader,
    pub values: Seq<BtfEnum>,
}

/// The mathematical value of a [`Struct`] record.
#[verifier::ext_equal]
pub struct StructV {
    pub header: TypeHeader,
    pub members: Seq<BtfMember>,
}

/// The mathematical value of a [`Union`] record.
#[verifier::ext_equal]
pub struct UnionV {
    pub header: TypeHeader,
    pub members: Seq<BtfMember>,
}

/// The mathematical value of a [`FuncProto`] record.
#[verifier::ext_equal]
pub struct FuncProtoV {
    pub header: TypeHeader,
    pub params: Seq<BtfParam>,
}

/// The mathematical value of a [`DataSec`] record.
#[verifier::ext_equal]
pub struct DataSecV {
    pub header: TypeHeader,
    pub entries: Seq<DataSecEntry>,
}

/// The mathematical value of a [`BtfType`]: the same tagged union with
/// every trailing vector abstracted to a sequence.
#[verifier::ext_equal]
pub enum BtfTypeV {
    Unknown(TypeHeader),
    Fwd(Fwd),
    Const(Const),
    Volatile(Volatile),
    Restrict(Restrict),
    Ptr(Ptr),
    Typedef(Typedef),
    Func(Func),
    Int(Int),
    Float(Float),
    Enum(EnumV),
    Array(Array),
    Struct(StructV),
    Union(UnionV),
    FuncProto(FuncProtoV),
    Var(Var),
    DataSec(DataSecV),
    DeclTag(DeclTag),
    TypeTag(TypeTag),
}

impl View for Enum {
    type V = EnumV;

    open spec fn view(&self) -> EnumV {
        EnumV { header: self.header, values: self.values@ }
    }
}

impl View for Struct {
    type V = StructV;

    open spec fn view(&self) -> StructV {
        StructV { header: self.header, members: self.members@ }
    }
}

impl View for Union {
    type V = UnionV;

    open spec fn view(&self) -> UnionV {
        UnionV { header: self.header, members: self.members@ }
    }
}

impl View for FuncProto {
    type V = FuncProtoV;

    open spec fn view(&self) -> FuncProtoV {
        FuncProtoV { header: self.header, params: self.params@ }
    }
}

impl View for DataSec {
    type V = DataSecV;

    open spec fn view(&self) -> DataSecV {
        DataSecV { header: self.header, entries: self.entries@ }
    }
}

impl View for BtfType {
    type V = BtfTypeV;

    open spec fn view(&self) -> BtfTypeV {
        match self {
            BtfType::Unknown(h) => BtfTypeV::Unknown(*h),
            BtfType::Fwd(t) => BtfTypeV::Fwd(*t),
            BtfType::Const(t) => BtfTypeV::Const(*t),
            BtfType::Volatile(t) => BtfTypeV::Volatile(*t),
            BtfType::Restrict(t) => BtfTypeV::Restrict(*t),
            BtfType::Ptr(t) => BtfTypeV::Ptr(*t),
            BtfType::Typedef(t) => BtfTypeV::Typedef(*t),
            BtfType::Func(t) => BtfTypeV::Func(*t),
            BtfType::Int(t) => BtfTypeV::Int(*t),
            BtfType::Float(t) => BtfTypeV::Float(*t),
            BtfType::Enum(t) => BtfTypeV::Enum(t@),
            BtfType::Array(t) => BtfTypeV::Array(*t),
            BtfType::Struct(t) => BtfTypeV::Struct(t@),
            BtfType::Union(t) => BtfTypeV::Union(t@),
            BtfType::FuncProto(t) => BtfTypeV::FuncProto(t@),
            BtfType::Var(t) => BtfTypeV::Var(*t),
            BtfType::DataSec(t) => BtfTypeV::DataSec(t@),
            BtfType::DeclTag(t) => BtfTypeV::DeclTag(*t),
            BtfType::TypeTag(t) => BtfTypeV::TypeTag(*t),
        }
    }
}

impl BtfTypeV {
    /// The fixed leading part of the record.
    pub open spec fn header(self) -> TypeHeader {
        match self {
            BtfTypeV::Unknown(h) => h,
            BtfTypeV::Fwd(t) => t.header,
            BtfTypeV::Const(t) => t.header,
            BtfTypeV::Volatile(t) => t.header,
            BtfTypeV::Restrict(t) => t.header,
            BtfTypeV::Ptr(t) => t.header,
            BtfTypeV::Typedef(t) => t.header,
            BtfTypeV::Func(t) => t.header,
            BtfTypeV::Int(t) => t.header,
            BtfTypeV::Float(t) => t.header,
            BtfTypeV::Enum(t) => t.header,
            BtfTypeV::Array(t) => t.header,
            BtfTypeV::Struct(t) => t.header,
            BtfTypeV::Union(t) => t.header,
            BtfTypeV::FuncProto(t) => t.header,
            BtfTypeV::Var(t) => t.header,
            BtfTypeV::DataSec(t) => t.header,
            BtfTypeV::DeclTag(t) => t.header,
            BtfTypeV::TypeTag(t) => t.header,
        }
    }

    /// The kind of the record.
    pub open spec fn kind(self) -> BtfKind {
        match self {
            BtfTypeV::Unknown(_) => BtfKind::Unknown,
            BtfTypeV::Fwd(_) => BtfKind::Fwd,
            BtfTypeV::Const(_) => BtfKind::Const,
            BtfTypeV::Volatile(_) => BtfKind::Volatile,
            BtfTypeV::Restrict(_) => BtfKind::Restrict,
            BtfTypeV::Ptr(_) => BtfKind::Ptr,
            BtfTypeV::Typedef(_) => BtfKind::Typedef,
            BtfTypeV::Func(_) => BtfKind::Func,
            BtfTypeV::Int(_) => BtfKind::Int,
            BtfTypeV::Float(_) => BtfKind::Float,
            BtfTypeV::Enum(_) => BtfKind::Enum,
            BtfTypeV::Array(_) => BtfKind::Array,
            BtfTypeV::Struct(_) => BtfKind::Struct,
            BtfTypeV::Union(_) => BtfKind::Union,
            BtfTypeV::FuncProto(_) => BtfKind::FuncProto,
            BtfTypeV::Var(_) => BtfKind::Var,
            BtfTypeV::DataSec(_) => BtfKind::DataSec,
            BtfTypeV::DeclTag(_) => BtfKind::DeclTag,
            BtfTypeV::TypeTag(_) => BtfKind::TypeTag,
        }
    }

    /// The record's name offset; `0` means anonymous.
    pub open spec fn name_offset(self) -> u32 {
        self.header().name_offset
    }

    /// The record's byte size, present exactly for the kinds that have one.
    pub open spec fn size(self) -> Option<u32> {
        match self {
            BtfTypeV::Int(_) => Some(self.header().word),
            BtfTypeV::Float(_) => Some(self.header().word),
            BtfTypeV::Enum(_) => Some(self.header().word),
            BtfTypeV::Struct(_) => Some(self.header().word),
            BtfTypeV::Union(_) => Some(self.header().word),
            BtfTypeV::DataSec(_) => Some(self.header().word),
            _ => None,
        }
    }

    /// The single other type id the record references, present exactly for
    /// the kinds that reference one: the wrapped type for qualifiers,
    /// typedefs and type tags, the pointee for pointers, the element type
    /// for arrays, the variable's type, the annotated type for declaration
    /// tags, and the return type for function prototypes.
    pub open spec fn next_type(self) -> Option<u32> {
        match self {
            BtfTypeV::Ptr(_) => Some(self.header().word),
            BtfTypeV::Typedef(_) => Some(self.header().word),
            BtfTypeV::Const(_) => Some(self.header().word),
            BtfTypeV::Volatile(_) => Some(self.header().word),
            BtfTypeV::Restrict(_) => Some(self.header().word),
            BtfTypeV::TypeTag(_) => Some(self.header().word),
            BtfTypeV::Array(t) => Some(t.array.element_type),
            BtfTypeV::Var(_) => Some(self.header().word),
            BtfTypeV::DeclTag(_) => Some(self.header().word),
            BtfTypeV::FuncProto(_) => Some(self.header().word),
            _ => None,
        }
    }

    /// Whether the record is a struct or a union.
    pub open spec fn is_composite(self) -> bool {
        self is Struct || self is Union
    }

    /// The 16-bit count of trailing sub-elements packed in `info`,
    /// meaningful only for the variable-length kinds.
    pub open spec fn vlen(self) -> u32 {
        self.header().info & 0xFFFF
    }

    /// A record is well formed when the kind bits of its `info` word agree
    /// with its variant and, for the variable-length kinds, `vlen` equals
    /// the number of trailing sub-elements held.  Decoding only produces
    /// well-formed records, and only well-formed records re-encode to bytes
    /// that decode back to themselves.
    pub open spec fn well_formed(self) -> bool {
        &&& (self.header().info >> 24) & 0x1F == spec_kind_code(self.kind())
        &&& match self {
            BtfTypeV::Enum(t) => t.values.len() == self.vlen(),
            BtfTypeV::Struct(t) => t.members.len() == self.vlen(),
            BtfTypeV::Union(t) => t.members.len() == self.vlen(),
            BtfTypeV::FuncProto(t) => t.params.len() == self.vlen(),
            BtfTypeV::DataSec(t) => t.entries.len() == self.vlen(),
            _ => true,
        }
    }
}

/// The `info` word a construction helper builds: the kind code in bits
/// 24..=28 and a 16-bit auxiliary value (element count or linkage) in bits
/// 0..=15.
pub open spec fn spec_info(kind_code: u32, extra: u32) -> u32 {
    (kind_code << 24) | extra
}

/// Packing a kind code and a 16-bit auxiliary value into an `info` word
/// leaves both recoverable.
pub proof fn lemma_pack_info(kind_code: u32, extra: u32)
    by (bit_vector)
    requires
        kind_code <= 31,
        extra <= 0xFFFF,
    ensures
        ((kind_code << 24) | extra) >> 24 & 0x1F == kind_code,
        ((kind_code << 24) | extra) & 0xFFFF == extra,
{
}

/// Builds the `info` word of a constructed record from a kind code and a
/// 16-bit auxiliary value.
fn make_info(kind_code: u32, extra: u32) -> (r: u32)
    requires
        kind_code <= 31,
        extra <= 0xFFFF,
    ensures
        r == spec_info(kind_code, extra),
        r >> 24 & 0x1F == kind_code,
        r & 0xFFFF == extra,
{
    proof {
        lemma_pack_info(kind_code, extra);
    }
    (kind_code << 24) | extra
}

impl Fwd {
    pub fn size(&self) -> (r: Option<u32>)
        ensures
            r is None,
    {
        None
    }

    pub fn next_type(&self) -> (r: Option<u32>)
        ensures
            r is None,
    {
        None
    }

    pub fn name_offset(&self) -> (r: u32)
        ensures
            r == self.header.name_offset,
    {
        self.header.name_offset
    }

    pub fn kind(&self) -> (r: BtfKind)
        ensures
            r == BtfKind::Fwd,
    {
        BtfKind::Fwd
    }
}

impl Const {
    pub fn size(&self) -> (r: Option<u32>)
        ensures
            r is None,
    {
        None
    }

    pub fn next_type(&self) -> (r: Option<u32>)
        ensures
            r == Some(self.header.word),
    {
        Some(self.header.word)
    }

    pub fn name_offset(&self) -> (r: u32)
        ensures
            r == self.header.name_offset,
    {
        self.header.name_offset
    }

    pub fn kind(&self) -> (r: BtfKind)
        ensures
            r == BtfKind::Const,
    {
        BtfKind::Const
    }

    /// Builds an anonymous `const` qualifier wrapping `type_`.
    pub fn new(type_: u32) -> (r: Const)
        ensures
            r.header == (TypeHeader { name_offset: 0, info: spec_info(10, 0), word: type_ }),
            BtfTypeV::Const(r).well_formed(),
    {
        let info = make_info(10, 0);
        Const { header: TypeHeader { name_offset: 0, info, word: type_ } }
    }
}

impl Volatile {
    pub fn size(&self) -> (r: Option<u32>)
        ensures
            r is None,
    {
        None
    }

    pub fn next_type(&self) -> (r: Option<u32>)
        ensures
            r == Some(self.header.word),
    {
        Some(self.header.word)
    }

    pub fn name_offset(&self) -> (r: u32)
        ensures
            r == self.header.name_offset,
    {
        self.header.name_offset
    }

    pub fn kind(&self) -> (r: BtfKind)
        ensures
            r == BtfKind::Volatile,
    {
        BtfKind::Volatile
    }
}

impl Restrict {
    pub fn size(&self) -> (r: Option<u32>)
        ensures
            r is None,
    {
        None
    }

    pub fn next_type(&self) -> (r: Option<u32>)
        ensures
            r == Some(self.header.word),
    {
        Some(self.header.word)
    }

    pub fn name_offset(&self) -> (r: u32)
        ensures
            r == self.header.name_offset,
    {
        self.header.name_offset
    }

    pub fn kind(&self) -> (r: BtfKind)
        ensures
            r == BtfKind::Restrict,
    {
        BtfKind::Restrict
    }
}

impl Ptr {
    pub fn size(&self) -> (r: Option<u32>)
        ensures
            r is None,
    {
        None
    }

    pub fn next_type(&self) -> (r: Option<u32>)
        ensures
            r == Some(self.header.word),
    {
        Some(self.header.word)
    }

    pub fn name_offset(&self) -> (r: u32)
        ensures
            r == self.header.name_offset,
    {
        self.header.name_offset
    }

    pub fn kind(&self) -> (r: BtfKind)
        ensures
            r == BtfKind::Ptr,
    {
        BtfKind::Ptr
    }

    /// Builds a pointer to `type_`.
    pub fn new(name_offset: u32, type_: u32) -> (r: Ptr)
        ensures
            r.header == (TypeHeader { name_offset, info: spec_info(2, 0), word: type_ }),
            BtfTypeV::Ptr(r).well_formed(),
    {
        let info = make_info(2, 0);
        Ptr { header: TypeHeader { name_offset, info, word: type_ } }
    }
}

impl Typedef {
    pub fn size(&self) -> (r: Option<u32>)
        ensures
            r is None,
    {
        None
    }

    pub fn next_type(&self) -> (r: Option<u32>)
        ensures
            r == Some(self.header.word),
    {
        Some(self.header.word)
    }

    pub fn name_offset(&self) -> (r: u32)
        ensures
            r == self.header.name_offset,
    {
        self.header.name_offset
    }

    pub fn kind(&self) -> (r: BtfKind)
        ensures
            r == BtfKind::Typedef,
    {
        BtfKind::Typedef
    }

    /// Builds a type alias named `name_offset` for `type_`.
    pub fn new(name_offset: u32, type_: u32) -> (r: Typedef)
        ensures
            r.header == (TypeHeader { name_offset, info: spec_info(8, 0), word: type_ }),
            BtfTypeV::Typedef(r).well_formed(),
    {
        let info = make_info(8, 0);
        Typedef { header: TypeHeader { name_offset, info, word: type_ } }
    }
}

impl Func {
    pub fn size(&self) -> (r: Option<u32>)
        ensures
            r is None,
    {
        None
    }

    pub fn next_type(&self) -> (r: Option<u32>)
        ensures
            r is None,
    {
        None
    }

    pub fn name_offset(&self) -> (r: u32)
        ensures
            r == self.header.name_offset,
    {
        self.header.name_offset
    }

    pub fn kind(&self) -> (r: BtfKind)
        ensures
            r == BtfKind::Func,
    {
        BtfKind::Func
    }

    /// Builds a function of prototype `proto` with the low 16 bits of
    /// `linkage` packed into `info`.
    pub fn new(name_offset: u32, proto: u32, linkage: u32) -> (r: Func)
        ensures
            r.header == (TypeHeader {
                name_offset,
                info: spec_info(12, linkage & 0xFFFF),
                word: proto,
            }),
            BtfTypeV::Func(r).well_formed(),
    {
        proof {
            lemma_mask_bounds(linkage);
        }
        let info = make_info(12, linkage & 0xFFFF);
        Func { header: TypeHeader { name_offset, info, word: proto } }
    }
}

impl TypeTag {
    pub fn size(&self) -> (r: Option<u32>)
        ensures
            r is None,
    {
        None
    }

    pub fn next_type(&self) -> (r: Option<u32>)
        ensures
            r == Some(self.header.word),
    {
        Some(self.header.word)
    }

    pub fn name_offset(&self) -> (r: u32)
        ensures
            r == self.header.name_offset,
    {
        self.header.name_offset
    }

    pub fn kind(&self) -> (r: BtfKind)
        ensures
            r == BtfKind::TypeTag,
    {
        BtfKind::TypeTag
    }

    /// Builds a type tag named `name_offset` annotating `type_`.
    pub fn new(name_offset: u32, type_: u32) -> (r: TypeTag)
        ensures
            r.header == (TypeHeader { name_offset, info: spec_info(18, 0), word: type_ }),
            BtfTypeV::TypeTag(r).well_formed(),
    {
        let info = make_info(18, 0);
        TypeTag { header: TypeHeader { name_offset, info, word: type_ } }
    }
}

impl Float {
    pub fn size(&self) -> (r: Option<u32>)
        ensures
            r == Some(self.header.word),
    {
        Some(self.header.word)
    }

    pub fn next_type(&self) -> (r: Option<u32>)
        ensures
            r is None,
    {
        None
    }

    pub fn name_offset(&self) -> (r: u32)
        ensures
            r == self.header.name_offset,
    {
        self.header.name_offset
    }

    pub fn kind(&self) -> (r: BtfKind)
        ensures
            r == BtfKind::Float,
    {
        BtfKind::Float
    }

    /// Builds a floating-point type of `size` bytes.
    pub fn new(name_offset: u32, size: u32) -> (r: Float)
        ensures
            r.header == (TypeHeader { name_offset, info: spec_info(16, 0), word: size }),
            BtfTypeV::Float(r).well_formed(),
    {
        let info = make_info(16, 0);
        Float { header: TypeHeader { name_offset, info, word: size } }
    }
}

/// Masking with a constant bounds the result by that constant.
pub proof fn lemma_mask_bounds(v: u32)
    by (bit_vector)
    ensures
        v & 0xFFFF <= 0xFFFF,
        v & 0xff <= 0xff,
        v & 0x0f <= 0x0f,
        v & 0x1f <= 0x1f,
{
}

/// The bit-offset, encoding and bit-width fields of an `Int` record's
/// packed auxiliary word.
impl Int {
    /// The integer encoding packed in bits 24..=27 of the auxiliary word.
    pub open spec fn spec_encoding(self) -> u32 {
        (self.data & 0x0f000000) >> 24
    }

    /// The bit offset packed in bits 16..=23 of the auxiliary word.
    pub open spec fn spec_offset(self) -> u32 {
        (self.data & 0x00ff0000) >> 16
    }

    /// The bit width packed in bits 0..=7 of the auxiliary word.
    pub open spec fn spec_bits(self) -> u32 {
        self.data & 0x000000ff
    }

    pub fn size(&self) -> (r: Option<u32>)
        ensures
            r == Some(self.header.word),
    {
        Some(self.header.word)
    }

    pub fn next_type(&self) -> (r: Option<u32>)
        ensures
            r is None,
    {
        None
    }

    pub fn name_offset(&self) -> (r: u32)
        ensures
            r == self.header.name_offset,
    {
        self.header.name_offset
    }

    pub fn kind(&self) -> (r: BtfKind)
        ensures
            r == BtfKind::Int,
    {
        BtfKind::Int
    }

    pub fn encoding(&self) -> (r: u32)
        ensures
            r == self.spec_encoding(),
    {
        (self.data & 0x0f000000) >> 24
    }

    pub fn offset(&self) -> (r: u32)
        ensures
            r == self.spec_offset(),
    {
        (self.data & 0x00ff0000) >> 16
    }

    pub fn bits(&self) -> (r: u32)
        ensures
            r == self.spec_bits(),
    {
        self.data & 0x000000ff
    }

    /// Builds an integer type of `size` bytes with the given encoding and
    /// bit offset; the bit width is eight times the size, reduced to the
    /// 8 bits the packed word can hold.
    pub fn new(name_offset: u32, size: u32, encoding: u32, offset: u32) -> (r: Int)
        ensures
            r.header == (TypeHeader { name_offset, info: spec_info(1, 0), word: size }),
            r.data == spec_int_data(size, encoding, offset),
            r.spec_encoding() == encoding & 0x0f,
            r.spec_offset() == offset & 0xff,
            r.spec_bits() == ((size & 0x1f) * 8) as u32,
            encoding <= 0x0f ==> r.spec_encoding() == encoding,
            offset <= 0xff ==> r.spec_offset() == offset,
            size <= 0x1f ==> r.spec_bits() == size * 8,
            BtfTypeV::Int(r).well_formed(),
    {
        let info = make_info(1, 0);
        proof {
            lemma_int_data_fields(size, encoding, offset);
        }
        let data = ((encoding & 0x0f) << 24) | ((offset & 0xff) << 16) | ((size & 0x1f) * 8);
        Int { header: TypeHeader { name_offset, info, word: size }, data }
    }
}

/// The packed auxiliary word an `Int` construction helper builds.
pub open spec fn spec_int_data(size: u32, encoding: u32, offset: u32) -> u32 {
    ((encoding & 0x0f) << 24) | ((offset & 0xff) << 16) | (((size & 0x1f) * 8) as u32)
}

/// Packing encoding, offset and bit width into an `Int` auxiliary word
/// leaves all three recoverable.
pub proof fn lemma_int_data_fields(size: u32, encoding: u32, offset: u32)
    by (bit_vector)
    ensures
        size & 0x1f < 32,
        ((((encoding & 0x0f) << 24) | ((offset & 0xff) << 16) | (((size & 0x1f) * 8) as u32)) & 0x0f000000)
            >> 24 == encoding & 0x0f,
        ((((encoding & 0x0f) << 24) | ((offset & 0xff) << 16) | (((size & 0x1f) * 8) as u32)) & 0x00ff0000)
            >> 16 == offset & 0xff,
        (((encoding & 0x0f) << 24) | ((offset & 0xff) << 16) | (((size & 0x1f) * 8) as u32)) & 0x000000ff
            == ((size & 0x1f) * 8) as u32,
        encoding <= 0x0f ==> encoding & 0x0f == encoding,
        offset <= 0xff ==> offset & 0xff == offset,
        size <= 0x1f ==> size & 0x1f == size,
{
}

impl Enum {
    pub fn size(&self) -> (r: Option<u32>)
        ensures
            r == Some(self.header.word),
    {
        Some(self.header.word)
    }

    pub fn next_type(&self) -> (r: Option<u32>)
        ensures
            r is None,
    {
        None
    }

    pub fn name_offset(&self) -> (r: u32)
        ensures
            r == self.header.name_offset,
    {
        self.header.name_offset
    }

    pub fn kind(&self) -> (r: BtfKind)
        ensures
            r == BtfKind::Enum,
    {
        BtfKind::Enum
    }

    /// Builds an enumeration of the given named values, 4 bytes in size.
    pub fn new(name_offset: u32, values: Vec<BtfEnum>) -> (r: Enum)
        requires
            values.len() <= 0xFFFF,
        ensures
            r.header == (TypeHeader {
                name_offset,
                info: spec_info(6, values.len() as u32),
                word: 4,
            }),
            r.values == values,
            BtfTypeV::Enum(r@).well_formed(),
    {
        let info = make_info(6, values.len() as u32);
        Enum { header: TypeHeader { name_offset, info, word: 4 }, values }
    }
}

impl Struct {
    pub fn size(&self) -> (r: Option<u32>)
        ensures
            r == Some(self.header.word),
    {
        Some(self.header.word)
    }

    pub fn next_type(&self) -> (r: Option<u32>)
        ensures
            r is None,
    {
        None
    }

    pub fn name_offset(&self) -> (r: u32)
        ensures
            r == self.header.name_offset,
    {
        self.header.name_offset
    }

    pub fn kind(&self) -> (r: BtfKind)
        ensures
            r == BtfKind::Struct,
    {
        BtfKind::Struct
    }

    /// Builds a struct of the given members and byte size.
    pub fn new(name_offset: u32, members: Vec<BtfMember>, size: u32) -> (r: Struct)
        requires
            members.len() <= 0xFFFF,
        ensures
            r.header == (TypeHeader {
                name_offset,
                info: spec_info(4, members.len() as u32),
                word: size,
            }),
            r.members == members,
            BtfTypeV::Struct(r@).well_formed(),
    {
        let info = make_info(4, members.len() as u32);
        Struct { header: TypeHeader { name_offset, info, word: size }, members }
    }
}

impl Union {
    pub fn size(&self) -> (r: Option<u32>)
        ensures
            r == Some(self.header.word),
    {
        Some(self.header.word)
    }

    pub fn next_type(&self) -> (r: Option<u32>)
        ensures
            r is None,
    {
        None
    }

    pub fn name_offset(&self) -> (r: u32)
        ensures
            r == self.header.name_offset,
    {
        self.header.name_offset
    }

    pub fn kind(&self) -> (r: BtfKind)
        ensures
            r == BtfKind::Union,
    {
        BtfKind::Union
    }
}

impl Array {
    pub fn size(&self) -> (r: Option<u32>)
        ensures
            r is None,
    {
        None
    }

    pub fn next_type(&self) -> (r: Option<u32>)
        ensures
            r == Some(self.array.element_type),
    {
        Some(self.array.element_type)
    }

    pub fn name_offset(&self) -> (r: u32)
        ensures
            r == self.header.name_offset,
    {
        self.header.name_offset
    }

    /// The number of elements of the array.
    pub fn len(&self) -> (r: u32)
        ensures
            r == self.array.len,
    {
        self.array.len
    }

    pub fn kind(&self) -> (r: BtfKind)
        ensures
            r == BtfKind::Array,
    {
        BtfKind::Array
    }

    /// Builds an array of `nelems` elements of type `type_`, indexed by
    /// `index_type`.
    pub fn new(name_offset: u32, type_: u32, index_type: u32, nelems: u32) -> (r: Array)
        ensures
            r.header == (TypeHeader { name_offset, info: spec_info(3, 0), word: 0 }),
            r.array == (BtfArray { element_type: type_, index_type, len: nelems }),
            BtfTypeV::Array(r).well_formed(),
    {
        let info = make_info(3, 0);
        Array {
            header: TypeHeader { name_offset, info, word: 0 },
            array: BtfArray { element_type: type_, index_type, len: nelems },
        }
    }
}

impl FuncProto {
    pub fn size(&self) -> (r: Option<u32>)
        ensures
            r is None,
    {
        None
    }

    pub fn next_type(&self) -> (r: Option<u32>)
        ensures
            r == Some(self.header.word),
    {
        Some(self.header.word)
    }

    pub fn name_offset(&self) -> (r: u32)
        ensures
            r == self.header.name_offset,
    {
        self.header.name_offset
    }

    pub fn kind(&self) -> (r: BtfKind)
        ensures
            r == BtfKind::FuncProto,
    {
        BtfKind::FuncProto
    }

    /// Builds an anonymous function prototype with the given parameters and
    /// return type.
    pub fn new(params: Vec<BtfParam>, return_type: u32) -> (r: FuncProto)
        requires
            params.len() <= 0xFFFF,
        ensures
            r.header == (TypeHeader {
                name_offset: 0,
                info: spec_info(13, params.len() as u32),
                word: return_type,
            }),
            r.params == params,
            BtfTypeV::FuncProto(r@).well_formed(),
    {
        let info = make_info(13, params.len() as u32);
        FuncProto { header: TypeHeader { name_offset: 0, info, word: return_type }, params }
    }
}

impl Var {
    pub fn size(&self) -> (r: Option<u32>)
        ensures
            r is None,
    {
        None
    }

    pub fn next_type(&self) -> (r: Option<u32>)
        ensures
            r == Some(self.header.word),
    {
        Some(self.header.word)
    }

    pub fn name_offset(&self) -> (r: u32)
        ensures
            r == self.header.name_offset,
    {
        self.header.name_offset
    }

    pub fn kind(&self) -> (r: BtfKind)
        ensures
            r == BtfKind::Var,
    {
        BtfKind::Var
    }

    /// Builds a variable of type `type_` with the given linkage.
    pub fn new(name_offset: u32, type_: u32, linkage: u32) -> (r: Var)
        ensures
            r.header == (TypeHeader { name_offset, info: spec_info(14, 0), word: type_ }),
            r.linkage == linkage,
            BtfTypeV::Var(r).well_formed(),
    {
        let info = make_info(14, 0);
        Var { header: TypeHeader { name_offset, info, word: type_ }, linkage }
    }
}

impl DataSec {
    pub fn size(&self) -> (r: Option<u32>)
        ensures
            r == Some(self.header.word),
    {
        Some(self.header.word)
    }

    pub fn next_type(&self) -> (r: Option<u32>)
        ensures
            r is None,
    {
        None
    }

    pub fn name_offset(&self) -> (r: u32)
        ensures
            r == self.header.name_offset,
    {
        self.header.name_offset
    }

    pub fn kind(&self) -> (r: BtfKind)
        ensures
            r == BtfKind::DataSec,
    {
        BtfKind::DataSec
    }

    /// Builds a data section of the given byte size holding the given
    /// section-info entries.
    pub fn new(name_offset: u32, variables: Vec<DataSecEntry>, size: u32) -> (r: DataSec)
        requires
            variables.len() <= 0xFFFF,
        ensures
            r.header == (TypeHeader {
                name_offset,
                info: spec_info(15, variables.len() as u32),
                word: size,
            }),
            r.entries == variables,
            BtfTypeV::DataSec(r@).well_formed(),
    {
        let info = make_info(15, variables.len() as u32);
        DataSec { header: TypeHeader { name_offset, info, word: size }, entries: variables }
    }
}

impl DeclTag {
    pub fn size(&self) -> (r: Option<u32>)
        ensures
            r is None,
    {
        None
    }

    pub fn next_type(&self) -> (r: Option<u32>)
        ensures
            r == Some(self.header.word),
    {
        Some(self.header.word)
    }

    pub fn name_offset(&self) -> (r: u32)
        ensures
            r == self.header.name_offset,
    {
        self.header.name_offset
    }

    pub fn kind(&self) -> (r: BtfKind)
        ensures
            r == BtfKind::DeclTag,
    {
        BtfKind::DeclTag
    }

    /// Builds a declaration tag annotating component `component_idx` of
    /// `type_`.
    pub fn new(name_offset: u32, type_: u32, component_idx: i32) -> (r: DeclTag)
        ensures
            r.header == (TypeHeader { name_offset, info: spec_info(17, 0), word: type_ }),
            r.component_index == component_idx,
            BtfTypeV::DeclTag(r).well_formed(),
    {
        let info = make_info(17, 0);
        DeclTag {
            header: TypeHeader { name_offset, info, word: type_ },
            component_index: component_idx,
        }
    }
}

impl BtfType {
    /// The kind of the record.
    pub fn kind(&self) -> (r: BtfKind)
        ensures
            r == self@.kind(),
    {
        match self {
            BtfType::Unknown(_) => BtfKind::Unknown,
            BtfType::Fwd(t) => t.kind(),
            BtfType::Const(t) => t.kind(),
            BtfType::Volatile(t) => t.kind(),
            BtfType::Restrict(t) => t.kind(),
            BtfType::Ptr(t) => t.kind(),
            BtfType::Typedef(t) => t.kind(),
            BtfType::Func(t) => t.kind(),
            BtfType::Int(t) => t.kind(),
            BtfType::Float(t) => t.kind(),
            BtfType::Enum(t) => t.kind(),
            BtfType::Array(t) => t.kind(),
            BtfType::Struct(t) => t.kind(),
            BtfType::Union(t) => t.kind(),
            BtfType::FuncProto(t) => t.kind(),
            BtfType::Var(t) => t.kind(),
            BtfType::DataSec(t) => t.kind(),
            BtfType::DeclTag(t) => t.kind(),
            BtfType::TypeTag(t) => t.kind(),
        }
    }

    /// The record's name offset; `0` means anonymous.
    pub fn name_offset(&self) -> (r: u32)
        ensures
            r == self@.name_offset(),
    {
        match self {
            BtfType::Unknown(h) => h.name_offset,
            BtfType::Fwd(t) => t.name_offset(),
            BtfType::Const(t) => t.name_offset(),
            BtfType::Volatile(t) => t.name_offset(),
            BtfType::Restrict(t) => t.name_offset(),
            BtfType::Ptr(t) => t.name_offset(),
            BtfType::Typedef(t) => t.name_offset(),
            BtfType::Func(t) => t.name_offset(),
            BtfType::Int(t) => t.name_offset(),
            BtfType::Float(t) => t.name_offset(),
            BtfType::Enum(t) => t.name_offset(),
            BtfType::Array(t) => t.name_offset(),
            BtfType::Struct(t) => t.name_offset(),
            BtfType::Union(t) => t.name_offset(),
            BtfType::FuncProto(t) => t.name_offset(),
            BtfType::Var(t) => t.name_offset(),
            BtfType::DataSec(t) => t.name_offset(),
            BtfType::DeclTag(t) => t.name_offset(),
            BtfType::TypeTag(t) => t.name_offset(),
        }
    }

    /// The record's byte size, present exactly for the kinds that have one.
    pub fn size(&self) -> (r: Option<u32>)
        ensures
            r == self@.size(),
    {
        match self {
            BtfType::Unknown(_) => None,
            BtfType::Fwd(t) => t.size(),
            BtfType::Const(t) => t.size(),
            BtfType::Volatile(t) => t.size(),
            BtfType::Restrict(t) => t.size(),
            BtfType::Ptr(t) => t.size(),
            BtfType::Typedef(t) => t.size(),
            BtfType::Func(t) => t.size(),
            BtfType::Int(t) => t.size(),
            BtfType::Float(t) => t.size(),
            BtfType::Enum(t) => t.size(),
            BtfType::Array(t) => t.size(),
            BtfType::Struct(t) => t.size(),
            BtfType::Union(t) => t.size(),
            BtfType::FuncProto(t) => t.size(),
            BtfType::Var(t) => t.size(),
            BtfType::DataSec(t) => t.size(),
            BtfType::DeclTag(t) => t.size(),
            BtfType::TypeTag(t) => t.size(),
        }
    }

    /// The single other type id the record references, if its kind
    /// references one.
    pub fn next_type(&self) -> (r: Option<u32>)
        ensures
            r == self@.next_type(),
    {
        match self {
            BtfType::Unknown(_) => None,
            BtfType::Fwd(t) => t.next_type(),
            BtfType::Const(t) => t.next_type(),
            BtfType::Volatile(t) => t.next_type(),
            BtfType::Restrict(t) => t.next_type(),
            BtfType::Ptr(t) => t.next_type(),
            BtfType::Typedef(t) => t.next_type(),
            BtfType::Func(t) => t.next_type(),
            BtfType::Int(t) => t.next_type(),
            BtfType::Float(t) => t.next_type(),
            BtfType::Enum(t) => t.next_type(),
            BtfType::Array(t) => t.next_type(),
            BtfType::Struct(t) => t.next_type(),
            BtfType::Union(t) => t.next_type(),
            BtfType::FuncProto(t) => t.next_type(),
            BtfType::Var(t) => t.next_type(),
            BtfType::DataSec(t) => t.next_type(),
            BtfType::DeclTag(t) => t.next_type(),
            BtfType::TypeTag(t) => t.next_type(),
        }
    }

    /// Whether the record is a struct or a union.
    pub fn is_composite(&self) -> (r: bool)
        ensures
            r == self@.is_composite(),
    {
        match self {
            BtfType::Struct(_) => true,
            BtfType::Union(_) => true,
            _ => false,
        }
    }
}

/// The kind packed in bits 24..=28 of a record's `info` word, or
/// `InvalidTypeKind` if those bits hold none of the 19 assigned codes.
pub fn type_kind(header: &TypeHeader) -> (r: Result<BtfKind, crate::errors::BtfError>)
    ensures
        r == spec_kind_try_from(header.info >> 24 & 0x1F),
{
    BtfKind::try_from((header.info >> 24) & 0x1F)
}

/// The 16-bit count of trailing sub-elements packed in a record's `info`
/// word; meaningful only for the variable-length kinds.
pub fn type_vlen(header: &TypeHeader) -> (r: usize)
    ensures
        r == (header.info & 0xFFFF) as usize,
{
    (header.info & 0xFFFF) as usize
}

/// The bit offset of a struct or union member, split out of the member's
/// packed `offset` word under the owning record's k-flag (`info` bit 31):
/// the low 24 bits when the flag is set, the whole word when it is clear.
pub open spec fn spec_member_bit_offset(info: u32, m: BtfMember) -> u32 {
    if info >> 31 == 1 {
        m.offset & 0xFFFFFF
    } else {
        m.offset
    }
}

/// The bit-field width of a struct or union member under the owning
/// record's k-flag: the high 8 bits of the member's `offset` word when the
/// flag is set, `0` (not a bit-field) when it is clear.
pub open spec fn spec_member_bit_field_size(info: u32, m: BtfMember) -> u32 {
    if info >> 31 == 1 {
        m.offset >> 24
    } else {
        0
    }
}

/// The bit offset of member `m` of a record whose `info` word is given;
/// the split is selected by the owning record's k-flag, never by any
/// property of the member itself.
pub fn member_bit_offset(info: u32, m: &BtfMember) -> (r: usize)
    ensures
        r == spec_member_bit_offset(info, *m) as usize,
{
    let k_flag = info >> 31 == 1;
    let bit_offset = if k_flag {
        m.offset & 0xFFFFFF
    } else {
        m.offset
    };
    bit_offset as usize
}

/// The bit-field width of member `m` of a record whose `info` word is
/// given; `0` when the owning record's k-flag is clear.
pub fn member_bit_field_size(info: u32, m: &BtfMember) -> (r: usize)
    ensures
        r == spec_member_bit_field_size(info, *m) as usize,
{
    let k_flag = info >> 31 == 1;
    let size = if k_flag {
        m.offset >> 24
    } else {
        0
    };
    size as usize
}

} // verus!
