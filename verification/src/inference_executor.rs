//! Maps a route decision to an execution path.
//!
//! `Mlx` and `CoreMl` run the pluggable digital backends, `Hybrid` blends the
//! chip's digital and analog paths, and `Memristor` / `WindsurfCascade` run
//! the crossbar matvec on the device that `choose_matvec_device_with` picks.

use vstd::prelude::*;

use crate::m5_compute::{choose_matvec_device_with, device_for, MatvecDevice};
use crate::metal_plan::{metal_kernel_tier_with, tier_for, MetalKernelTier};
use crate::route_engine::RouteDecision;

verus! {

/// How one routed task is executed.
#[derive(Debug, Clone, Copy, PartialEq, Eq, Structural)]
pub enum ExecutionPath {
    /// The MLX backend (or passthrough when none is registered).
    Mlx,
    /// The Core ML stub: the input is returned as it is.
    CoreMlPassthrough,
    /// The chip's hybrid blend with this digital weight, in thousandths.
    Hybrid { digital_weight_permille: u32 },
    /// The crossbar matvec: a single forward when `depth == 0`, otherwise a
    /// cascade of `depth` passes, on `device`.
    Matvec { depth: usize, device: MatvecDevice },
}

/// The cascade depth handed to the device choice: none for a single forward.
pub open spec fn cascade_option(depth: usize) -> Option<usize> {
    if depth > 0 {
        Some(depth)
    } else {
        None
    }
}

/// The execution path of `route` on a crossbar of side `n`.
pub open spec fn path_for(route: RouteDecision, n: usize, metal_available: bool) -> ExecutionPath {
    match route {
        RouteDecision::Mlx => ExecutionPath::Mlx,
        RouteDecision::CoreMl => ExecutionPath::CoreMlPassthrough,
        RouteDecision::Hybrid { digital_weight_permille } => ExecutionPath::Hybrid {
            digital_weight_permille,
        },
        RouteDecision::Memristor => ExecutionPath::Matvec {
            depth: 0,
            device: device_for(n, None, metal_available),
        },
        RouteDecision::WindsurfCascade { depth } => ExecutionPath::Matvec {
            depth,
            device: device_for(n, cascade_option(depth), metal_available),
        },
    }
}

/// Chooses the execution path of `route` on a crossbar of side `n`.
pub fn plan_execution(route: RouteDecision, n: usize, metal_available: bool) -> (p: ExecutionPath)
    ensures
        p == path_for(route, n, metal_available),
        route matches RouteDecision::WindsurfCascade { depth } ==> p == (ExecutionPath::Matvec {
            depth,
            device: if depth > 0 {
                device_for(n, Some(depth), metal_available)
            } else {
                device_for(n, None, metal_available)
            },
        }),
        route == RouteDecision::Memristor ==> p == (ExecutionPath::Matvec {
            depth: 0,
            device: device_for(n, None, metal_available),
        }),
{
    match route {
        RouteDecision::Mlx => ExecutionPath::Mlx,
        RouteDecision::CoreMl => ExecutionPath::CoreMlPassthrough,
        RouteDecision::Hybrid { digital_weight_permille } => ExecutionPath::Hybrid {
            digital_weight_permille,
        },
        RouteDecision::Memristor => ExecutionPath::Matvec {
            depth: 0,
            device: choose_matvec_device_with(n, None, metal_available),
        },
        RouteDecision::WindsurfCascade { depth } => {
            let cascade = if depth > 0 {
                Some(depth)
            } else {
                None
            };
            ExecutionPath::Matvec {
                depth,
                device: choose_matvec_device_with(n, cascade, metal_available),
            }
        },
    }
}

/// The device reported for a path: the matvec's device, none for the others.
pub fn matvec_device_of(path: ExecutionPath) -> (d: Option<MatvecDevice>)
    ensures
        d == match path {
            ExecutionPath::Matvec { device, .. } => Some(device),
            _ => None,
        },
{
    match path {
        ExecutionPath::Matvec { device, .. } => Some(device),
        _ => None,
    }
}

/// The number of matvec runs for a requested repeat count: at least one.
pub fn normalized_repeats(repeats: usize) -> (r: usize)
    ensures
        r == if repeats == 0 {
            1
        } else {
            repeats
        },
{
    if repeats == 0 {
        1
    } else {
        repeats
    }
}

/// The Metal kernel tier reported for an outcome: only when the GPU ran it,
/// as a cascade pass exactly when the route was a cascade.
pub fn metal_kernel_tier_for_outcome(
    n: usize,
    route: RouteDecision,
    device: Option<MatvecDevice>,
) -> (t: Option<MetalKernelTier>)
    ensures
        t == if device == Some(MatvecDevice::MetalGpu) {
            Some(tier_for(n, route is WindsurfCascade))
        } else {
            None::<MetalKernelTier>
        },
{
    if !matches!(device, Some(MatvecDevice::MetalGpu)) {
        return None;
    }
    let cascade = matches!(route, RouteDecision::WindsurfCascade { .. });
    Some(metal_kernel_tier_with(n, cascade, true))
}

/// Only crossbar routes run a matvec; the GPU runs it only when Metal is
/// available; and without Metal every matvec runs on the CPU.
pub proof fn lemma_matvec_only_for_crossbar_routes(route: RouteDecision, n: usize, metal_available: bool)
    ensures
        path_for(route, n, metal_available) is Matvec <==> (route == RouteDecision::Memristor
            || route is WindsurfCascade),
        !metal_available ==> (path_for(route, n, metal_available) is Matvec ==> path_for(
            route,
            n,
            metal_available,
        )->device == MatvecDevice::CpuNeon),
{
}

/// A cascade runs with exactly its requested depth, and its device is chosen
/// for that depth: with Metal, a cascade of depth at least 2 on a crossbar of
/// side at least 2048 runs on the GPU, a cascade of depth 1 (or a shallower
/// crossbar) on the CPU; a single forward (`Memristor`, or a cascade of depth
/// 0) goes to the GPU from side 2048 on; without Metal everything runs on the CPU.
pub proof fn lemma_cascade_path_keeps_its_depth(depth: usize, n: usize, metal_available: bool)
    ensures
        path_for(RouteDecision::WindsurfCascade { depth }, n, metal_available) is Matvec,
        path_for(RouteDecision::WindsurfCascade { depth }, n, metal_available)->Matvec_depth
            == depth,
        depth > 0 ==> path_for(RouteDecision::WindsurfCascade { depth }, n, metal_available)
            == (ExecutionPath::Matvec { depth, device: device_for(n, Some(depth), metal_available) }),
        (metal_available && depth >= 2 && n >= 2048) ==> path_for(
            RouteDecision::WindsurfCascade { depth },
            n,
            metal_available,
        )->Matvec_device == MatvecDevice::MetalGpu,
        (depth == 1 || n < 2048 || !metal_available) ==> path_for(
            RouteDecision::WindsurfCascade { depth },
            n,
            metal_available,
        )->Matvec_device == MatvecDevice::CpuNeon || (depth == 0 && metal_available && n >= 2048),
        (depth == 0 && metal_available && n >= 2048) ==> path_for(
            RouteDecision::WindsurfCascade { depth },
            n,
            metal_available,
        )->Matvec_device == MatvecDevice::MetalGpu,
        path_for(RouteDecision::Memristor, n, metal_available) == (ExecutionPath::Matvec {
            depth: 0,
            device: if metal_available && n >= 2048 {
                MatvecDevice::MetalGpu
            } else {
                MatvecDevice::CpuNeon
            },
        }),
{
}

} // verus!
