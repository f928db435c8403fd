//! Status codes of the capability-based personality.

use vstd::prelude::*;

verus! {

/// The outcome of an operation on a kernel object.
#[allow(non_camel_case_types)]
#[derive(Clone, Copy, Debug, PartialEq, Eq, Structural, Hash)]
pub enum ZxError {
    /// No error.
    OK,
    /// The operation is not supported by this kind of object.
    NOT_SUPPORTED,
    /// The object is of the wrong kind for the operation.
    WRONG_TYPE,
}

pub type ZxResult<T = ()> = Result<T, ZxError>;

} // verus!
