use vstd::prelude::*;

verus! {

/// Why a create failed: the store rejected the insert, for instance on
/// resource exhaustion.
#[derive(Debug, Clone, Copy, PartialEq, Eq, Structural)]
pub enum CreateError {
    StoreWrite,
}

/// Why a get failed. `NotFound` means no record bears the identifier;
/// `StoreRead` means the store could not execute the lookup. The two are
/// distinct so a caller can tell "does not exist" from "could not ask".
#[derive(Debug, Clone, Copy, PartialEq, Eq, Structural)]
pub enum GetError {
    NotFound,
    StoreRead,
}

/// Why a list failed: the store could not execute the query, or a returned
/// document did not hold the record shape. An empty table is a normal
/// empty listing, never an error.
#[derive(Debug, Clone, Copy, PartialEq, Eq, Structural)]
pub enum ListError {
    StoreRead,
}

/// Why a toggle failed: the record was demanded but missing, the
/// read-modify-write transaction could not commit, or a returned document
/// did not hold the record shape.
#[derive(Debug, Clone, Copy, PartialEq, Eq, Structural)]
pub enum ToggleError {
    NotFound,
    TransactionFailure,
    DecodeFailure,
}

/// Why a delete failed: infrastructure-level failure only; "nothing to
/// delete" is a normal zero count, not an error.
#[derive(Debug, Clone, Copy, PartialEq, Eq, Structural)]
pub enum DeleteError {
    StoreWrite,
}

/// An all-or-nothing decode rejection: the document did not hold exactly
/// the task record shape, so no partially populated record is produced.
#[derive(Debug, Clone, Copy, PartialEq, Eq, Structural)]
pub struct DecodeFailure;

} // verus!
