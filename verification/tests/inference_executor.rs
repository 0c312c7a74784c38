use memristor::{
    backend_output_or_passthrough, matvec_device_of, metal_kernel_tier_for_outcome,
    normalized_repeats, plan_execution, ExecutionPath, InferenceMode, MatvecDevice,
    MemoryGovernor, MetalKernelTier, RouteDecision, RouteEngine, RuntimeState, TaskReq, TaskType,
};

#[test]
fn mlx_stub_passthrough() {
    let engine = RouteEngine::new(2)
        .with_governor(MemoryGovernor::with_inference_mode(InferenceMode::Digital));
    let req = TaskReq::new(TaskType::ShortGeneration, vec![9.0_f32, -1.5], 1);
    let route = engine.choose_route(&req, &RuntimeState::default());
    let path = plan_execution(route, engine.vchip_len(), false);
    assert_eq!(path, ExecutionPath::Mlx);
    let out = backend_output_or_passthrough(&req.input, None);
    assert_eq!(out, req.input);
}

#[test]
fn small_memristor_reports_cpu_neon_device() {
    let engine = RouteEngine::new(2)
        .with_governor(MemoryGovernor::with_inference_mode(InferenceMode::Analog));
    let req = TaskReq::new(TaskType::Embed, vec![2.0_f32, 1.0], 2);
    let route = engine.choose_route(&req, &RuntimeState::default());
    let path = plan_execution(route, engine.vchip_len(), false);
    assert_eq!(matvec_device_of(path), Some(MatvecDevice::CpuNeon));
}

#[test]
fn routes_map_to_paths() {
    assert_eq!(plan_execution(RouteDecision::Mlx, 2, false), ExecutionPath::Mlx);
    assert_eq!(plan_execution(RouteDecision::CoreMl, 2, false), ExecutionPath::CoreMlPassthrough);
    assert_eq!(
        plan_execution(RouteDecision::Hybrid { digital_weight_permille: 700 }, 2, false),
        ExecutionPath::Hybrid { digital_weight_permille: 700 }
    );
    assert_eq!(
        plan_execution(RouteDecision::Memristor, 2, false),
        ExecutionPath::Matvec { depth: 0, device: MatvecDevice::CpuNeon }
    );
    assert_eq!(
        plan_execution(RouteDecision::WindsurfCascade { depth: 2 }, 2, false),
        ExecutionPath::Matvec { depth: 2, device: MatvecDevice::CpuNeon }
    );
}

#[test]
fn large_crossbars_use_gpu_when_available() {
    assert_eq!(
        plan_execution(RouteDecision::Memristor, 2048, true),
        ExecutionPath::Matvec { depth: 0, device: MatvecDevice::MetalGpu }
    );
    assert_eq!(
        plan_execution(RouteDecision::WindsurfCascade { depth: 1 }, 4096, true),
        ExecutionPath::Matvec { depth: 1, device: MatvecDevice::CpuNeon }
    );
    assert_eq!(
        plan_execution(RouteDecision::Memristor, 2048, false),
        ExecutionPath::Matvec { depth: 0, device: MatvecDevice::CpuNeon }
    );
}

#[test]
fn outcome_device_and_tier() {
    assert_eq!(matvec_device_of(ExecutionPath::Mlx), None);
    assert_eq!(
        matvec_device_of(ExecutionPath::Matvec { depth: 0, device: MatvecDevice::CpuNeon }),
        Some(MatvecDevice::CpuNeon)
    );
    assert_eq!(
        metal_kernel_tier_for_outcome(2048, RouteDecision::Memristor, Some(MatvecDevice::MetalGpu)),
        Some(MetalKernelTier::SimdgroupBatch)
    );
    assert_eq!(
        metal_kernel_tier_for_outcome(
            2048,
            RouteDecision::WindsurfCascade { depth: 2 },
            Some(MatvecDevice::MetalGpu)
        ),
        Some(MetalKernelTier::Simdgroup)
    );
    assert_eq!(
        metal_kernel_tier_for_outcome(2048, RouteDecision::Memristor, Some(MatvecDevice::CpuNeon)),
        None
    );
    assert_eq!(metal_kernel_tier_for_outcome(2048, RouteDecision::Mlx, None), None);
}

#[test]
fn repeats_are_at_least_one() {
    assert_eq!(normalized_repeats(0), 1);
    assert_eq!(normalized_repeats(1), 1);
    assert_eq!(normalized_repeats(4), 4);
}
