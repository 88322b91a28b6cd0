use vstd::prelude::*;

use crate::errors::BtfError;
use crate::types::{BtfType, BtfTypeV, TypeHeader};

verus! {

/// How many qualifier/typedef wrappers a resolution walks through before it
/// gives up with `MaximumTypeDepthReached`; the same bound caps each
/// recursive step of the compatibility engine.
pub const MAX_RESOLVE_DEPTH: u32 = 32;

/// The mathematical value of a [`Btf`] table: its records and the strings
/// their name offsets index.
pub struct BtfView {
    pub types: Seq<BtfTypeV>,
    pub strings: Seq<Seq<char>>,
}

/// A table of decoded type records and the string table their name offsets
/// point into.
///
/// Entry `0` of the record table is reserved for the void type and is never
/// returned by [`Btf::add_type`]: a record's identity is positional,
/// assigned by this container.  Entry `0` of the string table is the empty
/// string, so a name offset of `0` keeps meaning anonymous.  Construction
/// is append-only; records are immutable once added.
pub struct Btf {
    types: Vec<BtfType>,
    strings: Vec<String>,
}

impl View for Btf {
    type V = BtfView;

    closed spec fn view(&self) -> BtfView {
        BtfView {
            types: self.types@.map_values(|t: BtfType| t@),
            strings: self.strings@.map_values(|s: String| s@),
        }
    }
}

/// Whether a record is a qualifier or typedef wrapper that resolution
/// strips.
pub open spec fn spec_is_qualifier(v: BtfTypeV) -> bool {
    v is Volatile || v is Const || v is Restrict || v is Typedef
}

/// What resolving `id` returns after at most `fuel` more steps, with `root`
/// remembered for the depth error: the first id on the qualifier chain from
/// `id` whose record is no qualifier, an `UnknownTypeId` error at the first
/// id the table does not hold, or `MaximumTypeDepthReached` once the fuel
/// runs out.
pub open spec fn spec_resolve(types: Seq<BtfTypeV>, root: u32, id: u32, fuel: nat) -> Result<
    u32,
    BtfError,
>
    decreases fuel,
{
    if fuel == 0 {
        Err(BtfError::MaximumTypeDepthReached { type_id: root })
    } else if id >= types.len() {
        Err(BtfError::UnknownTypeId { type_id: id })
    } else if !spec_is_qualifier(types[id as int]) {
        Ok(id)
    } else {
        spec_resolve(types, root, types[id as int].header().word, (fuel - 1) as nat)
    }
}

/// A successful resolution names a record the table holds, and never a
/// qualifier.
pub proof fn lemma_resolve_ok(types: Seq<BtfTypeV>, root: u32, id: u32, fuel: nat)
    ensures
        spec_resolve(types, root, id, fuel) matches Ok(r) ==> r < types.len()
            && !spec_is_qualifier(types[r as int]),
    decreases fuel,
{
    if fuel > 0 && id < types.len() && spec_is_qualifier(types[id as int]) {
        lemma_resolve_ok(types, root, types[id as int].header().word, (fuel - 1) as nat);
    }
}

/// What looking a record's name up returns: no name for a zero offset, the
/// string at the offset when the table holds it, `InvalidStringOffset`
/// otherwise.
pub open spec fn spec_name_of_type(b: BtfView, v: BtfTypeV) -> Result<Option<Seq<char>>, BtfError> {
    if v.name_offset() == 0 {
        Ok(None)
    } else if (v.name_offset() as int) < b.strings.len() {
        Ok(Some(b.strings[v.name_offset() as int]))
    } else {
        Err(BtfError::InvalidStringOffset { offset: v.name_offset() })
    }
}

/// What looking a name result up and taking each string's mathematical
/// value gives; relates [`Btf::name_of_type`] to [`spec_name_of_type`].
pub open spec fn spec_name_result_view(r: Result<Option<&String>, BtfError>) -> Result<
    Option<Seq<char>>,
    BtfError,
> {
    match r {
        Ok(None) => Ok(None),
        Ok(Some(s)) => Ok(Some(s@)),
        Err(e) => Err(e),
    }
}

impl Btf {
    /// Builds an empty table: the reserved void record and the reserved
    /// empty string.
    pub fn new() -> (r: Btf)
        ensures
            r@.types =~= seq![BtfTypeV::Unknown(TypeHeader { name_offset: 0, info: 0, word: 0 })],
            r@.strings =~= seq![Seq::<char>::empty()],
    {
        let r = Btf {
            types: vec![BtfType::Unknown(TypeHeader { name_offset: 0, info: 0, word: 0 })],
            strings: vec![String::new()],
        };
        proof {
            assert(r@.types =~= seq![
                BtfTypeV::Unknown(TypeHeader { name_offset: 0, info: 0, word: 0 }),
            ]);
            assert(r@.strings =~= seq![Seq::<char>::empty()]);
        }
        r
    }

    /// Appends a record and returns the type id it will answer to; never
    /// the reserved id `0`, since the table never starts empty.
    pub fn add_type(&mut self, btf_type: BtfType) -> (id: u32)
        requires
            old(self)@.types.len() < 0xFFFF_FFFF,
        ensures
            final(self)@.types == old(self)@.types.push(btf_type@),
            final(self)@.strings == old(self)@.strings,
            id == old(self)@.types.len(),
    {
        self.types.push(btf_type);
        proof {
            assert(self@.types =~= old(self)@.types.push(btf_type@));
            assert(self@.strings =~= old(self)@.strings);
        }
        (self.types.len() - 1) as u32
    }

    /// Appends a string and returns the name offset that will find it;
    /// never `0`, since the table never starts empty.
    pub fn add_string(&mut self, string: String) -> (offset: u32)
        requires
            old(self)@.strings.len() < 0xFFFF_FFFF,
        ensures
            final(self)@.strings == old(self)@.strings.push(string@),
            final(self)@.types == old(self)@.types,
            offset == old(self)@.strings.len(),
    {
        let ghost sview = string@;
        self.strings.push(string);
        proof {
            assert(self@.strings =~= old(self)@.strings.push(sview));
            assert(self@.types =~= old(self)@.types);
        }
        (self.strings.len() - 1) as u32
    }

    /// How many records the table holds, the reserved void entry included.
    pub fn type_count(&self) -> (r: usize)
        ensures
            r == self@.types.len(),
    {
        self.types.len()
    }

    /// The record a type id names, or `UnknownTypeId` for an id the table
    /// does not hold.
    pub fn type_by_id(&self, type_id: u32) -> (r: Result<&BtfType, BtfError>)
        ensures
            match r {
                Ok(t) => type_id < self@.types.len() && t@ == self@.types[type_id as int],
                Err(e) => type_id >= self@.types.len() && e == (BtfError::UnknownTypeId {
                    type_id,
                }),
            },
    {
        if (type_id as usize) < self.types.len() {
            Ok(&self.types[type_id as usize])
        } else {
            Err(BtfError::UnknownTypeId { type_id })
        }
    }

    /// Strips qualifier and typedef wrappers from `root_type_id` until a
    /// concrete type id remains, walking at most [`MAX_RESOLVE_DEPTH`]
    /// records; returns exactly what [`spec_resolve`] says.
    pub fn resolve_type(&self, root_type_id: u32) -> (r: Result<u32, BtfError>)
        ensures
            r == spec_resolve(
                self@.types,
                root_type_id,
                root_type_id,
                MAX_RESOLVE_DEPTH as nat,
            ),
    {
        self.resolve_step(root_type_id, root_type_id, MAX_RESOLVE_DEPTH)
    }

    /// One fuel-counted leg of [`Btf::resolve_type`].
    fn resolve_step(&self, root: u32, id: u32, fuel: u32) -> (r: Result<u32, BtfError>)
        ensures
            r == spec_resolve(self@.types, root, id, fuel as nat),
        decreases fuel,
    {
        if fuel == 0 {
            return Err(BtfError::MaximumTypeDepthReached { type_id: root });
        }
        if (id as usize) >= self.types.len() {
            return Err(BtfError::UnknownTypeId { type_id: id });
        }
        let ty = &self.types[id as usize];
        match ty {
            BtfType::Volatile(t) => self.resolve_step(root, t.header.word, fuel - 1),
            BtfType::Const(t) => self.resolve_step(root, t.header.word, fuel - 1),
            BtfType::Restrict(t) => self.resolve_step(root, t.header.word, fuel - 1),
            BtfType::Typedef(t) => self.resolve_step(root, t.header.word, fuel - 1),
            _ => Ok(id),
        }
    }

    /// The name a record's `name_offset` points at: `None` for an anonymous
    /// record, the string otherwise, or `InvalidStringOffset` for an offset
    /// the string table does not hold.
    pub fn name_of_type(&self, ty: &BtfType) -> (r: Result<Option<&String>, BtfError>)
        ensures
            spec_name_result_view(r) == spec_name_of_type(self@, ty@),
    {
        let offset = ty.name_offset();
        if offset == 0 {
            Ok(None)
        } else if (offset as usize) < self.strings.len() {
            Ok(Some(&self.strings[offset as usize]))
        } else {
            Err(BtfError::InvalidStringOffset { offset })
        }
    }
}

} // verus!
