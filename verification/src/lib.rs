//! Verified core of the memristor crossbar simulator and its runtime routing layer.

pub mod backend;
pub mod crossbar;
pub mod inference_executor;
pub mod kv_cache;
pub mod m5_compute;
pub mod metal_plan;
pub mod resonance_class;
pub mod route_engine;
pub mod vchip;

pub use backend::backend_output_or_passthrough;
pub use crossbar::{ConductanceEpoch, CrossbarError, CrossbarLayout};
pub use inference_executor::{
    matvec_device_of, metal_kernel_tier_for_outcome, normalized_repeats, plan_execution,
    ExecutionPath,
};
pub use kv_cache::{CompressKvError, DecompressKvError, KvSessionStore, SessionId};
pub use m5_compute::{
    choose_matvec_device, choose_matvec_device_with, MatvecDevice, METAL_CASCADE_MIN_DEPTH,
    METAL_CASCADE_MIN_N, METAL_FORWARD_MIN_N,
};
pub use metal_plan::{
    kernel_tier_for_n, metal_kernel_tier, metal_kernel_tier_with, MetalForwardError,
    MetalKernelTier,
};
pub use resonance_class::{ResonanceCategory, ResonanceClass};
pub use route_engine::{
    MemoryGovernor, RouteDecision, RouteEngine, RuntimeState, TaskReq, TaskType,
    DEFAULT_HYBRID_DIGITAL_WEIGHT_PERMILLE,
};
pub use vchip::{check_infer_input, InferenceMode, OmegaVChipError, OmegaVChipResult};
