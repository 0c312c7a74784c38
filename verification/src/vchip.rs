//! Inference modes of the virtual chip and the errors of its inference paths.

use vstd::prelude::*;

use crate::crossbar::CrossbarError;

verus! {

/// How the virtual chip runs an inference.
#[derive(Debug, Clone, Copy, PartialEq, Eq, Structural)]
pub enum InferenceMode {
    Digital,
    Analog,
    Hybrid,
}

/// Errors of the virtual chip's inference and programming paths.
#[derive(Debug, Clone, Copy, PartialEq, Eq, Structural)]
pub enum OmegaVChipError {
    /// The input vector does not have the chip's side as its length.
    InvalidInputSize { expected: usize, got: usize },
    /// The underlying crossbar refused the operation.
    Crossbar(CrossbarError),
}

/// Result of a virtual-chip operation.
pub type OmegaVChipResult<T> = Result<T, OmegaVChipError>;

impl From<CrossbarError> for OmegaVChipError {
    fn from(e: CrossbarError) -> (r: Self) {
        OmegaVChipError::Crossbar(e)
    }
}

impl vstd::std_specs::convert::FromSpecImpl<CrossbarError> for OmegaVChipError {
    open spec fn obeys_from_spec() -> bool {
        true
    }

    open spec fn from_spec(v: CrossbarError) -> OmegaVChipError {
        OmegaVChipError::Crossbar(v)
    }
}

/// The chip-level size check that `infer` and `infer_cascade` make before they
/// touch the crossbar: the input must have the chip's side `size` as its length.
pub fn check_infer_input(size: usize, input_len: usize) -> (r: OmegaVChipResult<()>)
    ensures
        r == (if input_len != size {
            Err(OmegaVChipError::InvalidInputSize { expected: size, got: input_len })
        } else {
            Ok(())
        }),
{
    if input_len != size {
        return Err(OmegaVChipError::InvalidInputSize { expected: size, got: input_len });
    }
    Ok(())
}

} // verus!
