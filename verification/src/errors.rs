use vstd::prelude::*;

verus! {

/// Failures of the type-record codec, of the type table, and of the
/// compatibility engine.
#[derive(Clone, Copy, Debug, PartialEq, Eq, Structural)]
pub enum BtfError {
    /// The 5-bit kind code found in a record header is not one of the
    /// assigned codes; carries the offending value.
    InvalidTypeKind { kind: u32 },
    /// A byte buffer too short for the fixed leading part of a record or for
    /// the trailing data its header declares.
    InvalidTypeInfo,
    /// A compatibility check exceeded the maximum resolve depth; signals a
    /// malformed cyclic type graph or one too deep to relocate against.
    MaximumTypeDepthReached { type_id: u32 },
    /// A type id that the type table does not hold.
    UnknownTypeId { type_id: u32 },
    /// A name offset that the string table does not hold.
    InvalidStringOffset { offset: u32 },
}

/// Failures of loading a program into its runtime.
#[derive(Clone, Copy, Debug, PartialEq, Eq, Structural)]
pub enum ProgramError {
    /// The program was already loaded.
    AlreadyLoaded,
    /// The program is not loaded.
    NotLoaded,
}

/// Failures of attaching, detaching or transferring a program link.
#[derive(Clone, Copy, Debug, PartialEq, Eq, Structural)]
pub enum LinkError {
    /// The given link id is not registered (or no longer registered).
    InvalidLink,
    /// The program is not loaded, so nothing can be attached to it.
    NotLoaded,
}

} // verus!
