//! Apple-Silicon heuristic: when to run the crossbar matvec on the Metal GPU
//! and when on the (NEON) CPU.
//!
//! Platform convention, shared with [`crate::metal_plan`]: this library
//! carries no Metal backend, so the functions without a `metal_available`
//! argument give what a build without Metal gives (every matvec on the CPU,
//! the scalar kernel tier); their `_with` forms take whether a Metal backend
//! is available, and give the Metal host's choice when it is.

use vstd::prelude::*;

pub use crate::metal_plan::{SIMD_KERNEL_MIN_N, TILED_CASCADE_MIN_N, TILED_KERNEL_TILE};

verus! {

/// Input tiling threshold quoted for builds without the Metal backend. (The
/// Metal runner itself never tiles forward passes:
/// [`crate::metal_plan::TILED_KERNEL_MIN_N`].)
pub const TILED_KERNEL_MIN_N: usize = 4096;

/// A single `forward` goes to the GPU from this crossbar side on.
pub const METAL_FORWARD_MIN_N: usize = 2048;

/// A cascade of depth at least [`METAL_CASCADE_MIN_DEPTH`] goes to the GPU from
/// this crossbar side on.
pub const METAL_CASCADE_MIN_N: usize = 2048;

/// The smallest cascade depth that the GPU takes.
pub const METAL_CASCADE_MIN_DEPTH: usize = 2;

/// The device that runs a crossbar matvec.
#[derive(Debug, Clone, Copy, PartialEq, Eq, Structural)]
pub enum MatvecDevice {
    CpuNeon,
    MetalGpu,
}

/// The device for a matvec on a crossbar of side `n`, as a cascade of depth
/// `d` when `cascade_depth == Some(d)`, when a Metal backend is (or is not)
/// available.
pub open spec fn device_for(n: usize, cascade_depth: Option<usize>, metal_available: bool) -> MatvecDevice {
    if metal_available && match cascade_depth {
        Some(d) => d >= METAL_CASCADE_MIN_DEPTH && n >= METAL_CASCADE_MIN_N,
        None => n >= METAL_FORWARD_MIN_N,
    } {
        MatvecDevice::MetalGpu
    } else {
        MatvecDevice::CpuNeon
    }
}

/// Chooses the matvec device for side `n` and an optional cascade depth, on a
/// host where the Metal backend is available or not.
pub fn choose_matvec_device_with(
    n: usize,
    cascade_depth: Option<usize>,
    metal_available: bool,
) -> (d: MatvecDevice)
    ensures
        d == device_for(n, cascade_depth, metal_available),
{
    if metal_available {
        if let Some(d) = cascade_depth {
            if d >= METAL_CASCADE_MIN_DEPTH && n >= METAL_CASCADE_MIN_N {
                return MatvecDevice::MetalGpu;
            }
        }
        if cascade_depth.is_none() && n >= METAL_FORWARD_MIN_N {
            return MatvecDevice::MetalGpu;
        }
    }
    MatvecDevice::CpuNeon
}

/// Chooses the matvec device for side `n` and an optional cascade depth.
///
/// This library carries no Metal backend, so, as in a build without Metal,
/// every matvec stays on the CPU. A host with the Metal backend calls
/// [`choose_matvec_device_with`], which sends large matvecs to the GPU.
pub fn choose_matvec_device(n: usize, cascade_depth: Option<usize>) -> (d: MatvecDevice)
    ensures
        d == device_for(n, cascade_depth, false),
        d == MatvecDevice::CpuNeon,
{
    choose_matvec_device_with(n, cascade_depth, false)
}

/// The GPU is only ever chosen for large crossbars: below the smaller of the
/// two thresholds, and for cascades shallower than the minimum depth below the
/// forward threshold, every matvec stays on the CPU.
pub proof fn lemma_small_crossbars_stay_on_cpu(
    n: usize,
    cascade_depth: Option<usize>,
    metal_available: bool,
)
    requires
        n < METAL_CASCADE_MIN_N,
        n < METAL_FORWARD_MIN_N,
    ensures
        device_for(n, cascade_depth, metal_available) == MatvecDevice::CpuNeon,
{
}

/// With Metal, a shallow cascade (depth below the minimum) never goes to the
/// GPU, and a crossbar at least as large as a threshold that applies does.
pub proof fn lemma_metal_choice(n: usize, cascade_depth: Option<usize>)
    ensures
        (cascade_depth matches Some(d) && d < METAL_CASCADE_MIN_DEPTH) ==> device_for(
            n,
            cascade_depth,
            true,
        ) == MatvecDevice::CpuNeon,
        (cascade_depth matches Some(d) && d >= METAL_CASCADE_MIN_DEPTH && n >= METAL_CASCADE_MIN_N)
            ==> device_for(n, cascade_depth, true) == MatvecDevice::MetalGpu,
        (cascade_depth is None && n >= METAL_FORWARD_MIN_N) ==> device_for(n, cascade_depth, true)
            == MatvecDevice::MetalGpu,
{
}

} // verus!
