//! Why a schema description cannot be compiled.

use vstd::prelude::*;

verus! {

/// A schema construct for which the generated program has no type.
#[derive(Clone, Copy, Debug, PartialEq, Eq, Structural)]
pub enum Unsupported {
    /// A field whose type is an untyped pointer.
    AnyPointer,
    /// A field that holds raw data.
    Data,
    /// A field whose type is an interface.
    Interface,
    /// A field that is a group.
    Group,
    /// A type for which no conversion can be written: a struct with a field
    /// without a value, a union with a member that holds a number or a
    /// boolean, or a list of lists.
    Conversion,
}

/// The conditions that end a compilation. None leaves a partial result.
#[derive(Clone, Copy, Debug, PartialEq, Eq, Structural)]
pub enum Error {
    /// The schema uses a construct that is not supported.
    UnsupportedConstruct(Unsupported),
    /// A type refers to the id of a type that no module declares.
    BrokenInternalReference(u64),
    /// The display name of the file node with this id cannot be cut one byte
    /// before its prefix length.
    MalformedDisplayName(u64),
    /// Nodes are nested one inside another more deeply than there are nodes,
    /// so some node is nested in itself.
    CyclicNesting,
    /// The id derived for the enum of a partial union is the id of a node of
    /// the description.
    UnionIdTaken(u64),
}

/// An outcome with its value seen mathematically.
pub open spec fn outcome<T: View>(r: Result<T, Error>) -> Result<T::V, Error> {
    match r {
        Ok(x) => Ok(x@),
        Err(e) => Err(e),
    }
}

} // verus!
