//! Route decisions for Digital / Memristor / Hybrid / Cascade execution.
//!
//! Routing reads the task's type, its optional cascade depth and the memory
//! governor's inference mode; it never reads the task's input.

use vstd::prelude::*;

use crate::vchip::InferenceMode;

verus! {

/// Task categories for routing.
#[derive(Debug, Clone, Copy, PartialEq, Eq, Structural)]
pub enum TaskType {
    Embed,
    Classify,
    Rerank,
    ShortGeneration,
    LongGeneration,
}

/// Where to execute the next step.
///
/// The hybrid blend's digital weight is carried in thousandths (`700` is `0.7`).
#[derive(Debug, Clone, Copy, PartialEq, Eq, Structural)]
pub enum RouteDecision {
    Mlx,
    CoreMl,
    Memristor,
    Hybrid { digital_weight_permille: u32 },
    /// Multi-pass virtual crossbar.
    WindsurfCascade { depth: usize },
}

/// Documented default blend for hybrid routing: digital weight 0.7, in thousandths.
pub const DEFAULT_HYBRID_DIGITAL_WEIGHT_PERMILLE: u32 = 700;

/// Runtime signals for routing (none yet).
#[derive(Debug, Clone, Copy)]
pub struct RuntimeState {}

impl Default for RuntimeState {
    fn default() -> (s: Self)
        ensures
            s == (RuntimeState {}),
    {
        RuntimeState {}
    }
}

/// Memory / thermal governor: decides the inference mode, optionally forced.
#[derive(Debug, Clone, Copy)]
pub struct MemoryGovernor {
    forced_mode: Option<InferenceMode>,
}

impl MemoryGovernor {
    /// The inference mode the governor selects: the forced one, or `Digital`.
    pub closed spec fn mode(self) -> InferenceMode {
        match self.forced_mode {
            Some(m) => m,
            None => InferenceMode::Digital,
        }
    }

    /// A governor with no forced mode.
    pub fn new() -> (g: Self)
        ensures
            g.mode() == InferenceMode::Digital,
    {
        MemoryGovernor { forced_mode: None }
    }

    /// A governor that always selects `mode`.
    pub fn with_inference_mode(mode: InferenceMode) -> (g: Self)
        ensures
            g.mode() == mode,
    {
        MemoryGovernor { forced_mode: Some(mode) }
    }

    /// The inference mode to use.
    pub fn inference_mode(&self) -> (m: InferenceMode)
        ensures
            m == self.mode(),
    {
        match self.forced_mode {
            Some(m) => m,
            None => InferenceMode::Digital,
        }
    }
}

impl Default for MemoryGovernor {
    fn default() -> (g: Self)
        ensures
            g.mode() == InferenceMode::Digital,
    {
        MemoryGovernor::new()
    }
}

/// A task to route. `input` is the task's payload, which routing never reads.
#[derive(Debug, Clone)]
pub struct TaskReq<T> {
    pub task_type: TaskType,
    pub input: T,
    pub session_id: u64,
    /// When `Some(d)` with `d > 0` for `Embed` or `ShortGeneration`, the task
    /// is routed to `RouteDecision::WindsurfCascade`.
    pub cascade_depth: Option<usize>,
    /// How many times the crossbar matvec is repeated when the task runs on it.
    pub matvec_repeats: usize,
}

impl<T> TaskReq<T> {
    /// A task with no cascade preference and a single matvec pass.
    pub fn new(task_type: TaskType, input: T, session_id: u64) -> (r: Self)
        ensures
            r.task_type == task_type,
            r.input == input,
            r.session_id == session_id,
            r.cascade_depth == None::<usize>,
            r.matvec_repeats == 1,
    {
        TaskReq { task_type, input, session_id, cascade_depth: None, matvec_repeats: 1 }
    }

    /// The same task with cascade depth `depth`.
    pub fn with_cascade_depth(self, depth: usize) -> (r: Self)
        ensures
            r == (TaskReq { cascade_depth: Some(depth), ..self }),
    {
        TaskReq { cascade_depth: Some(depth), ..self }
    }

    /// The same task with `repeats` matvec passes.
    pub fn with_matvec_repeats(self, repeats: usize) -> (r: Self)
        ensures
            r == (TaskReq { matvec_repeats: repeats, ..self }),
    {
        TaskReq { matvec_repeats: repeats, ..self }
    }
}

/// Whether a task prefers the multi-pass cascade: it asks for a positive depth
/// and is an `Embed` or `ShortGeneration` task.
pub open spec fn prefers_cascade(task_type: TaskType, cascade_depth: Option<usize>) -> bool {
    &&& cascade_depth matches Some(d) && d > 0
    &&& (task_type == TaskType::Embed || task_type == TaskType::ShortGeneration)
}

/// The route for a task of type `task_type` with cascade preference
/// `cascade_depth` under inference mode `mode`.
pub open spec fn route_for(
    task_type: TaskType,
    cascade_depth: Option<usize>,
    mode: InferenceMode,
) -> RouteDecision {
    if prefers_cascade(task_type, cascade_depth) {
        RouteDecision::WindsurfCascade { depth: cascade_depth->Some_0 }
    } else if task_type == TaskType::LongGeneration {
        RouteDecision::Mlx
    } else {
        match mode {
            InferenceMode::Digital => if task_type == TaskType::ShortGeneration {
                RouteDecision::Mlx
            } else {
                RouteDecision::CoreMl
            },
            InferenceMode::Analog => RouteDecision::Memristor,
            InferenceMode::Hybrid => RouteDecision::Hybrid {
                digital_weight_permille: DEFAULT_HYBRID_DIGITAL_WEIGHT_PERMILLE,
            },
        }
    }
}

/// Routing policy: a memory governor and the side of the virtual crossbar
/// that memristor routes run on.
#[derive(Debug, Clone, Copy)]
pub struct RouteEngine {
    governor: MemoryGovernor,
    crossbar_side: usize,
}

impl RouteEngine {
    /// The governor's inference mode.
    pub closed spec fn mode(self) -> InferenceMode {
        self.governor.mode()
    }

    /// The side of the virtual crossbar.
    pub closed spec fn side(self) -> usize {
        self.crossbar_side
    }

    /// A routing policy for a crossbar of side `crossbar_side`, with a default governor.
    pub fn new(crossbar_side: usize) -> (e: Self)
        ensures
            e.side() == crossbar_side,
            e.mode() == InferenceMode::Digital,
    {
        RouteEngine { governor: MemoryGovernor::new(), crossbar_side }
    }

    /// The same policy under `governor`.
    pub fn with_governor(self, governor: MemoryGovernor) -> (e: Self)
        ensures
            e.side() == self.side(),
            e.mode() == governor.mode(),
    {
        RouteEngine { governor, ..self }
    }

    /// The side of the virtual crossbar.
    pub fn vchip_len(&self) -> (n: usize)
        ensures
            n == self.side(),
    {
        self.crossbar_side
    }

    /// Chooses where to run `req`. The runtime state is not consulted.
    pub fn choose_route<T>(&self, req: &TaskReq<T>, state: &RuntimeState) -> (d: RouteDecision)
        ensures
            d == route_for(req.task_type, req.cascade_depth, self.mode()),
            (req.cascade_depth matches Some(depth) && depth > 0 && (req.task_type == TaskType::Embed
                || req.task_type == TaskType::ShortGeneration)) ==> d
                == (RouteDecision::WindsurfCascade { depth: req.cascade_depth->Some_0 }),
    {
        let _ = state;
        if let Some(depth) = req.cascade_depth {
            if depth > 0 && (matches!(req.task_type, TaskType::Embed) || matches!(req.task_type, TaskType::ShortGeneration)) {
                return RouteDecision::WindsurfCascade { depth };
            }
        }
        let mode = self.governor.inference_mode();
        match req.task_type {
            TaskType::LongGeneration => RouteDecision::Mlx,
            TaskType::Embed | TaskType::Classify | TaskType::Rerank => match mode {
                InferenceMode::Digital => RouteDecision::CoreMl,
                InferenceMode::Analog => RouteDecision::Memristor,
                InferenceMode::Hybrid => RouteDecision::Hybrid {
                    digital_weight_permille: DEFAULT_HYBRID_DIGITAL_WEIGHT_PERMILLE,
                },
            },
            TaskType::ShortGeneration => match mode {
                InferenceMode::Digital => RouteDecision::Mlx,
                InferenceMode::Analog => RouteDecision::Memristor,
                InferenceMode::Hybrid => RouteDecision::Hybrid {
                    digital_weight_permille: DEFAULT_HYBRID_DIGITAL_WEIGHT_PERMILLE,
                },
            },
        }
    }
}

/// Long generation always runs on MLX, whatever the cascade preference and
/// the governor's mode.
pub proof fn lemma_long_generation_always_mlx(cascade_depth: Option<usize>, mode: InferenceMode)
    ensures
        route_for(TaskType::LongGeneration, cascade_depth, mode) == RouteDecision::Mlx,
{
}

/// A cascade preference overrides the governor: a task is routed to the
/// cascade, with exactly its requested depth, if and only if it prefers the
/// cascade; a cascade route never has depth zero.
pub proof fn lemma_cascade_route_iff_preference(
    task_type: TaskType,
    cascade_depth: Option<usize>,
    mode: InferenceMode,
    depth: usize,
)
    ensures
        (route_for(task_type, cascade_depth, mode) == RouteDecision::WindsurfCascade { depth }) <==> (
        prefers_cascade(task_type, cascade_depth) && cascade_depth == Some(depth)),
        route_for(task_type, cascade_depth, mode) is WindsurfCascade ==> route_for(
            task_type,
            cascade_depth,
            mode,
        )->WindsurfCascade_depth > 0,
{
}

/// Without a cascade preference, only the analog mode routes to the memristor
/// crossbar, only the hybrid mode routes to the hybrid blend (always with the
/// default weight), and a digital governor never uses the crossbar.
pub proof fn lemma_mode_decides_crossbar_use(
    task_type: TaskType,
    cascade_depth: Option<usize>,
    mode: InferenceMode,
)
    requires
        !prefers_cascade(task_type, cascade_depth),
    ensures
        route_for(task_type, cascade_depth, mode) == RouteDecision::Memristor <==> (mode
            == InferenceMode::Analog && task_type != TaskType::LongGeneration),
        route_for(task_type, cascade_depth, mode) is Hybrid <==> (mode == InferenceMode::Hybrid
            && task_type != TaskType::LongGeneration),
        route_for(task_type, cascade_depth, mode) is Hybrid ==> route_for(
            task_type,
            cascade_depth,
            mode,
        )->digital_weight_permille == DEFAULT_HYBRID_DIGITAL_WEIGHT_PERMILLE,
        mode == InferenceMode::Digital ==> (route_for(task_type, cascade_depth, mode)
            == RouteDecision::Mlx || route_for(task_type, cascade_depth, mode)
            == RouteDecision::CoreMl),
{
}

/// The routing table. An `Embed` or `ShortGeneration` task that asks for any
/// positive cascade depth `d` goes to the cascade with depth `d`, whatever the
/// mode. Otherwise the requested depth plays no part (a depth of 0 is the same
/// as none), and the route is: `LongGeneration` on MLX; under the digital mode
/// `ShortGeneration` on MLX and `Embed` / `Classify` / `Rerank` on Core ML;
/// under the analog mode the memristor crossbar; under the hybrid mode the
/// hybrid blend with digital weight 700‰.
pub proof fn lemma_route_table(task_type: TaskType, cascade_depth: Option<usize>, mode: InferenceMode)
    ensures
        (cascade_depth matches Some(d) && d > 0 && (task_type == TaskType::Embed || task_type
            == TaskType::ShortGeneration)) ==> route_for(task_type, cascade_depth, mode)
            == (RouteDecision::WindsurfCascade { depth: cascade_depth->Some_0 }),
        !(cascade_depth matches Some(d) && d > 0 && (task_type == TaskType::Embed || task_type
            == TaskType::ShortGeneration)) ==> route_for(task_type, cascade_depth, mode)
            == route_for(task_type, None, mode),
        route_for(TaskType::LongGeneration, None, mode) == RouteDecision::Mlx,
        route_for(TaskType::ShortGeneration, None, InferenceMode::Digital) == RouteDecision::Mlx,
        task_type != TaskType::LongGeneration && task_type != TaskType::ShortGeneration ==> route_for(
            task_type,
            None,
            InferenceMode::Digital,
        ) == RouteDecision::CoreMl,
        task_type != TaskType::LongGeneration ==> route_for(task_type, None, InferenceMode::Analog)
            == RouteDecision::Memristor,
        task_type != TaskType::LongGeneration ==> route_for(task_type, None, InferenceMode::Hybrid)
            == (RouteDecision::Hybrid { digital_weight_permille: 700 }),
{
}

} // verus!
