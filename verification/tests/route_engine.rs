use memristor::{
    InferenceMode, MemoryGovernor, RouteDecision, RouteEngine, RuntimeState, TaskReq, TaskType,
    DEFAULT_HYBRID_DIGITAL_WEIGHT_PERMILLE,
};

#[test]
fn long_generation_always_mlx() {
    let engine = RouteEngine::new(8)
        .with_governor(MemoryGovernor::with_inference_mode(InferenceMode::Analog));
    let req = TaskReq {
        task_type: TaskType::LongGeneration,
        input: vec![0.1_f32; 8],
        session_id: 1,
        cascade_depth: None,
        matvec_repeats: 1,
    };
    assert_eq!(
        engine.choose_route(&req, &RuntimeState::default()),
        RouteDecision::Mlx
    );
}

#[test]
fn embed_analog_targets_memristor() {
    let engine = RouteEngine::new(3)
        .with_governor(MemoryGovernor::with_inference_mode(InferenceMode::Analog));
    let req = TaskReq {
        task_type: TaskType::Embed,
        input: vec![0.0_f32; 3],
        session_id: 2,
        cascade_depth: None,
        matvec_repeats: 1,
    };
    assert_eq!(
        engine.choose_route(&req, &RuntimeState::default()),
        RouteDecision::Memristor
    );
}

#[test]
fn embed_cascade_depth_overrides_governor() {
    let engine = RouteEngine::new(3)
        .with_governor(MemoryGovernor::with_inference_mode(InferenceMode::Analog));
    let req = TaskReq::new(TaskType::Embed, vec![0.0_f32; 3], 3).with_cascade_depth(2);
    assert_eq!(
        engine.choose_route(&req, &RuntimeState::default()),
        RouteDecision::WindsurfCascade { depth: 2 }
    );
}

#[test]
fn long_generation_ignores_cascade_pref() {
    let engine = RouteEngine::new(4);
    let req = TaskReq::new(TaskType::LongGeneration, vec![0.0_f32; 4], 1).with_cascade_depth(3);
    assert_eq!(
        engine.choose_route(&req, &RuntimeState::default()),
        RouteDecision::Mlx
    );
}

fn route(task: TaskType, depth: Option<usize>, mode: Option<InferenceMode>) -> RouteDecision {
    let mut engine = RouteEngine::new(4);
    if let Some(m) = mode {
        engine = engine.with_governor(MemoryGovernor::with_inference_mode(m));
    }
    let mut req = TaskReq::new(task, (), 0);
    if let Some(d) = depth {
        req = req.with_cascade_depth(d);
    }
    engine.choose_route(&req, &RuntimeState::default())
}

#[test]
fn default_governor_is_digital() {
    assert_eq!(MemoryGovernor::new().inference_mode(), InferenceMode::Digital);
    assert_eq!(MemoryGovernor::default().inference_mode(), InferenceMode::Digital);
    for m in [InferenceMode::Digital, InferenceMode::Analog, InferenceMode::Hybrid] {
        assert_eq!(MemoryGovernor::with_inference_mode(m).inference_mode(), m);
    }
}

#[test]
fn digital_mode_table() {
    assert_eq!(route(TaskType::Embed, None, None), RouteDecision::CoreMl);
    assert_eq!(route(TaskType::Classify, None, None), RouteDecision::CoreMl);
    assert_eq!(route(TaskType::Rerank, None, None), RouteDecision::CoreMl);
    assert_eq!(route(TaskType::ShortGeneration, None, None), RouteDecision::Mlx);
    assert_eq!(route(TaskType::LongGeneration, None, None), RouteDecision::Mlx);
}

#[test]
fn hybrid_mode_uses_default_weight() {
    let h = RouteDecision::Hybrid { digital_weight_permille: DEFAULT_HYBRID_DIGITAL_WEIGHT_PERMILLE };
    assert_eq!(DEFAULT_HYBRID_DIGITAL_WEIGHT_PERMILLE, 700);
    for t in [TaskType::Embed, TaskType::Classify, TaskType::Rerank, TaskType::ShortGeneration] {
        assert_eq!(route(t, None, Some(InferenceMode::Hybrid)), h);
    }
    assert_eq!(route(TaskType::LongGeneration, None, Some(InferenceMode::Hybrid)), RouteDecision::Mlx);
}

#[test]
fn cascade_preference_needs_positive_depth_and_task() {
    assert_eq!(
        route(TaskType::ShortGeneration, Some(5), Some(InferenceMode::Digital)),
        RouteDecision::WindsurfCascade { depth: 5 }
    );
    assert_eq!(route(TaskType::Embed, Some(0), Some(InferenceMode::Analog)), RouteDecision::Memristor);
    assert_eq!(route(TaskType::Classify, Some(3), Some(InferenceMode::Analog)), RouteDecision::Memristor);
    assert_eq!(route(TaskType::Rerank, Some(3), None), RouteDecision::CoreMl);
}

#[test]
fn task_builders_keep_other_fields() {
    let req = TaskReq::new(TaskType::Rerank, vec![1u8, 2], 42);
    assert_eq!(req.cascade_depth, None);
    assert_eq!(req.matvec_repeats, 1);
    let req = req.with_cascade_depth(7).with_matvec_repeats(3);
    assert_eq!(req.task_type, TaskType::Rerank);
    assert_eq!(req.input, vec![1u8, 2]);
    assert_eq!(req.session_id, 42);
    assert_eq!(req.cascade_depth, Some(7));
    assert_eq!(req.matvec_repeats, 3);
}

#[test]
fn engine_reports_crossbar_side() {
    let engine = RouteEngine::new(17).with_governor(MemoryGovernor::new());
    assert_eq!(engine.vchip_len(), 17);
}
