use memristor::metal_plan::{
    complete_run, forward_cascade_is_empty, matvec_dispatch, plan_forward_cascade,
    plan_forward_cascade_repeated, plan_forward_repeated, use_simd_batch_kernel, use_simd_kernel,
    use_tiled_kernel, GpuCommand, GpuPlan, GpuRun, GpuUploadTracker, INVALID_G_EPOCH,
};
use memristor::{
    kernel_tier_for_n, metal_kernel_tier, metal_kernel_tier_with, MetalForwardError,
    MetalKernelTier,
};

#[test]
fn metal_kernel_tier_splits_forward_and_cascade() {
    // The tiers a host with the Metal backend reports.
    assert_eq!(metal_kernel_tier_with(2048, false, true), MetalKernelTier::SimdgroupBatch);
    assert_eq!(metal_kernel_tier_with(2048, true, true), MetalKernelTier::Simdgroup);
    assert_eq!(metal_kernel_tier_with(4096, false, true), MetalKernelTier::SimdgroupBatch);
    assert_eq!(metal_kernel_tier_with(4096, true, true), MetalKernelTier::Tiled);
}

#[test]
fn kernel_tier_of_a_build_without_metal_is_scalar() {
    assert_eq!(metal_kernel_tier(2048, false), MetalKernelTier::Scalar);
    assert_eq!(metal_kernel_tier(4096, true), MetalKernelTier::Scalar);
    assert_eq!(metal_kernel_tier(16, false), MetalKernelTier::Scalar);
}

#[test]
fn tier_thresholds() {
    assert_eq!(kernel_tier_for_n(511, false), MetalKernelTier::Scalar);
    assert_eq!(kernel_tier_for_n(512, false), MetalKernelTier::Simdgroup);
    assert_eq!(kernel_tier_for_n(1023, false), MetalKernelTier::Simdgroup);
    assert_eq!(kernel_tier_for_n(1024, false), MetalKernelTier::SimdgroupBatch);
    assert_eq!(kernel_tier_for_n(4095, true), MetalKernelTier::Simdgroup);
    assert_eq!(kernel_tier_for_n(64, true), MetalKernelTier::Scalar);
    assert!(use_tiled_kernel(4096, true) && !use_tiled_kernel(4096, false));
    assert!(use_simd_batch_kernel(1024, false) && !use_simd_batch_kernel(1024, true));
    assert!(use_simd_kernel(1024, true) && !use_simd_kernel(1024, false) && !use_simd_kernel(100, true));
}

#[test]
fn dispatch_covers_every_row() {
    let d = matvec_dispatch(100, false, 1024, 32);
    assert_eq!(d.tier, MetalKernelTier::Scalar);
    assert_eq!((d.threads_per_group, d.thread_groups), (1024, 1));
    let d = matvec_dispatch(3000, false, 1024, 32);
    assert_eq!(d.tier, MetalKernelTier::SimdgroupBatch);
    assert_eq!((d.threads_per_group, d.thread_groups), (1024, 94));
    let d = matvec_dispatch(600, true, 1024, 32);
    assert_eq!((d.tier, d.threads_per_group, d.thread_groups), (MetalKernelTier::Simdgroup, 32, 600));
    let d = matvec_dispatch(5000, true, 1024, 32);
    assert_eq!(d.tier, MetalKernelTier::Tiled);
    assert_eq!(d.threadgroup_memory_bytes, 1024);
    assert_eq!(d.thread_groups, 5000);
}

#[test]
fn scalar_dispatch_rounds_to_simd_width() {
    let d = matvec_dispatch(100, false, 700, 32);
    assert_eq!((d.threads_per_group, d.thread_groups), (672, 1));
    let d = matvec_dispatch(100, false, 20, 32);
    assert_eq!((d.threads_per_group, d.thread_groups), (20, 5));
    let d = matvec_dispatch(7, false, 64, 0);
    assert_eq!((d.threads_per_group, d.thread_groups), (64, 1));
    let d = matvec_dispatch(0, false, 64, 32);
    assert_eq!(d.thread_groups, 0);
}

#[test]
fn upload_tracker_skips_only_same_matrix() {
    let mut t = GpuUploadTracker::new();
    assert_eq!(t.uploaded_g_epoch(), INVALID_G_EPOCH);
    assert!(t.needs_g_upload(16, 1));
    t.mark_g_uploaded(16, 1);
    assert!(!t.needs_g_upload(16, 1));
    assert!(t.needs_g_upload(16, 2));
    assert!(t.needs_g_upload(8, 1));
    t.observe_side(16);
    assert!(!t.needs_g_upload(16, 1));
    t.observe_side(8);
    assert!(t.needs_g_upload(16, 1));
    t.mark_g_uploaded(16, 1);
    t.invalidate_conductance_on_gpu();
    assert!(t.needs_g_upload(16, 1));
}

fn plan_of(r: Result<GpuRun, MetalForwardError>) -> (bool, bool, Vec<GpuCommand>) {
    let p = gpu_plan(r);
    (p.upload_conductance, p.upload_input_anchor, p.commands)
}

fn gpu_plan(r: Result<GpuRun, MetalForwardError>) -> GpuPlan {
    match r {
        Ok(GpuRun::Encode(p)) => p,
        other => panic!("expected a GPU plan, got {:?}", other),
    }
}

fn message_of(r: Result<GpuRun, MetalForwardError>) -> String {
    match r {
        Err(MetalForwardError::Metal(msg)) => msg,
        other => panic!("expected a length error, got {:?}", other),
    }
}

#[test]
fn forward_repeated_plan() {
    let mut t = GpuUploadTracker::new();
    let (up, anchor, cmds) = plan_of(plan_forward_repeated(&mut t, 4, 16, 3, 4, 3, 4));
    assert!(up && !anchor);
    assert_eq!(cmds, vec![GpuCommand::Matvec { cascade_pass: false }; 3]);
    t.mark_g_uploaded(4, 3);
    let (up, _, _) = plan_of(plan_forward_repeated(&mut t, 4, 16, 3, 4, 1, 4));
    assert!(!up);
    assert!(matches!(plan_forward_repeated(&mut t, 4, 16, 3, 4, 0, 4), Ok(GpuRun::Nothing)));
    assert!(matches!(plan_forward_repeated(&mut t, 4, 16, 3, 4, 0, 5), Err(MetalForwardError::Metal(_))));
    assert_eq!(
        plan_forward_repeated(&mut t, 4, 15, 3, 4, 1, 4).unwrap_err(),
        MetalForwardError::InvalidShape { n: 4, conductance_len: 15, input_len: 4 }
    );
    match plan_forward_repeated(&mut t, 4, 16, 3, 4, 1, 2) {
        Err(MetalForwardError::Metal(msg)) => {
            assert_eq!(msg, "forward_repeated_into: expected output len 4, got 2")
        }
        other => panic!("unexpected {:?}", other),
    }
}

#[test]
fn cascade_plan_alternates_passes_and_copies() {
    let mut t = GpuUploadTracker::new();
    let (up, anchor, cmds) = plan_of(plan_forward_cascade(&mut t, 2, 4, 1, 2, 3, 2));
    assert!(up && !anchor);
    let m = GpuCommand::Matvec { cascade_pass: true };
    let b = GpuCommand::BlitOutputToInput;
    assert_eq!(cmds, vec![m, b, m, b, m]);
    assert!(matches!(plan_forward_cascade(&mut t, 2, 4, 1, 2, 0, 2), Ok(GpuRun::CopyInput)));
    assert!(matches!(plan_forward_cascade(&mut t, 2, 4, 1, 1, 0, 2), Err(MetalForwardError::Metal(_))));
    assert_eq!(
        plan_forward_cascade(&mut t, 2, 4, 1, 2, 1, 3).unwrap_err(),
        MetalForwardError::InvalidShape { n: 2, conductance_len: 4, input_len: 2 }
    );
}

#[test]
fn repeated_cascade_plan_restores_input_between_runs() {
    let mut t = GpuUploadTracker::new();
    let (up, anchor, cmds) = plan_of(plan_forward_cascade_repeated(&mut t, 2, 4, 1, 2, 2, 3, 2));
    assert!(up && anchor);
    let m = GpuCommand::Matvec { cascade_pass: true };
    let b = GpuCommand::BlitOutputToInput;
    let a = GpuCommand::BlitInputAnchorToInput;
    assert_eq!(cmds, vec![m, b, m, a, m, b, m, a, m, b, m]);
    let passes = cmds.iter().filter(|c| matches!(c, GpuCommand::Matvec { .. })).count();
    assert_eq!(passes, 2 * 3);
    assert!(matches!(plan_forward_cascade_repeated(&mut t, 2, 4, 1, 2, 2, 0, 2), Ok(GpuRun::Nothing)));
}

#[test]
fn repeated_cascade_of_depth_zero_copies_input() {
    let mut t = GpuUploadTracker::new();
    assert!(matches!(
        plan_forward_cascade_repeated(&mut t, 2, 4, 1, 2, 0, 3, 2),
        Ok(GpuRun::CopyInput)
    ));
    assert_eq!(t.uploaded_g_epoch(), INVALID_G_EPOCH);
    assert_eq!(
        message_of(plan_forward_cascade_repeated(&mut t, 2, 4, 1, 3, 0, 3, 2)),
        "forward_cascade_into depth 0: expected len n=2"
    );
    assert!(matches!(
        plan_forward_cascade_repeated(&mut t, 2, 5, 1, 2, 0, 1, 2),
        Ok(GpuRun::CopyInput)
    ));
}

#[test]
fn cascade_vector_on_empty_crossbar() {
    assert_eq!(forward_cascade_is_empty(0, 0, 0), Ok(true));
    assert_eq!(
        forward_cascade_is_empty(0, 1, 0),
        Err(MetalForwardError::InvalidShape { n: 0, conductance_len: 1, input_len: 0 })
    );
    assert_eq!(forward_cascade_is_empty(3, 0, 0), Ok(false));
}

#[test]
fn length_messages_name_the_side() {
    let mut t = GpuUploadTracker::new();
    assert_eq!(
        message_of(plan_forward_repeated(&mut t, 4096, 4096 * 4096, 1, 4096, 0, 10)),
        "forward_repeated_into: expected output len 4096, got 10"
    );
    assert_eq!(
        message_of(plan_forward_repeated(&mut t, 0, 0, 1, 0, 2, 7)),
        "forward_repeated_into: expected output len 0, got 7"
    );
    assert_eq!(
        message_of(plan_forward_cascade(&mut t, 12, 144, 1, 12, 0, 11)),
        "forward_cascade_into depth 0: expected len n=12"
    );
    assert_eq!(
        message_of(plan_forward_cascade_repeated(&mut t, 305, 0, 1, 0, 2, 0, 9)),
        "forward_cascade_repeated_into: expected output len 305"
    );
}

#[test]
fn forward_records_upload_only_after_completion() {
    let mut t = GpuUploadTracker::new();
    let plan = gpu_plan(plan_forward_repeated(&mut t, 4, 16, 7, 4, 1, 4));
    assert!(plan.upload_conductance && !plan.record_upload_before_commit);
    complete_run(&mut t, &plan, 4, 7, false);
    assert_eq!(t.uploaded_g_epoch(), INVALID_G_EPOCH);
    complete_run(&mut t, &plan, 4, 7, true);
    assert_eq!(t.uploaded_g_epoch(), 7);
}

#[test]
fn cascade_records_upload_before_commit() {
    let mut t = GpuUploadTracker::new();
    let plan = gpu_plan(plan_forward_cascade(&mut t, 3, 9, 5, 3, 2, 3));
    assert!(plan.upload_conductance && plan.record_upload_before_commit);
    complete_run(&mut t, &plan, 3, 5, false);
    assert_eq!(t.uploaded_g_epoch(), 5);
    let plan = gpu_plan(plan_forward_cascade_repeated(&mut t, 3, 9, 5, 3, 2, 2, 3));
    assert!(!plan.upload_conductance && plan.record_upload_before_commit);
}

#[test]
fn unchanged_matrix_is_not_uploaded_again() {
    let mut t = GpuUploadTracker::new();
    let first = gpu_plan(plan_forward_repeated(&mut t, 16, 256, 3, 16, 1, 16));
    assert!(first.upload_conductance);
    complete_run(&mut t, &first, 16, 3, true);
    assert_eq!(t.uploaded_g_epoch(), 3);
    let second = gpu_plan(plan_forward_repeated(&mut t, 16, 256, 3, 16, 1, 16));
    assert!(!second.upload_conductance);
    complete_run(&mut t, &second, 16, 3, true);
    assert_eq!(t.uploaded_g_epoch(), 3);
    let changed = gpu_plan(plan_forward_repeated(&mut t, 16, 256, 4, 16, 1, 16));
    assert!(changed.upload_conductance);
}

#[test]
fn kernel_tier_without_metal_is_scalar() {
    assert_eq!(metal_kernel_tier_with(4096, true, true), MetalKernelTier::Tiled);
    assert_eq!(metal_kernel_tier_with(2048, false, true), MetalKernelTier::SimdgroupBatch);
    assert_eq!(metal_kernel_tier_with(4096, true, false), MetalKernelTier::Scalar);
    assert_eq!(metal_kernel_tier_with(100, false, false), MetalKernelTier::Scalar);
}

#[test]
fn scalar_dispatch_is_largest_multiple_of_width() {
    for max_total in [1u64, 20, 31, 32, 33, 700, 1024, 4096] {
        for width in [0u64, 1, 16, 32, 64] {
            let d = matvec_dispatch(100, false, max_total, width);
            let w = if width == 0 { 1 } else { width };
            let cap = max_total.min(1024);
            if w <= cap {
                assert_eq!(d.threads_per_group % w, 0);
                assert!(d.threads_per_group <= cap && d.threads_per_group + w > cap);
            } else {
                assert_eq!(d.threads_per_group, w.min(max_total));
            }
            assert!(d.thread_groups * d.threads_per_group >= 100);
            assert!((d.thread_groups - 1) * d.threads_per_group < 100);
        }
    }
}

/// Runs a command list on one-number "buffers" with the matvec `x ↦ 3x + 1`.
fn run_on_numbers(cmds: &[GpuCommand], input: i64, anchor: i64) -> i64 {
    let (mut inp, mut out) = (input, -1);
    for c in cmds {
        match c {
            GpuCommand::Matvec { .. } => out = 3 * inp + 1,
            GpuCommand::BlitOutputToInput => inp = out,
            GpuCommand::BlitInputAnchorToInput => inp = anchor,
        }
    }
    out
}

#[test]
fn planned_commands_compute_powers_of_the_matvec() {
    let mut t = GpuUploadTracker::new();
    let (_, _, cmds) = plan_of(plan_forward_repeated(&mut t, 2, 4, 1, 2, 4, 2));
    assert_eq!(run_on_numbers(&cmds, 5, 0), 16);
    let (_, _, cmds) = plan_of(plan_forward_cascade(&mut t, 2, 4, 1, 2, 3, 2));
    assert_eq!(run_on_numbers(&cmds, 5, 0), 3 * (3 * (3 * 5 + 1) + 1) + 1);
    let (_, anchor, cmds) = plan_of(plan_forward_cascade_repeated(&mut t, 2, 4, 1, 2, 2, 4, 2));
    assert!(anchor);
    assert_eq!(run_on_numbers(&cmds, 5, 5), 3 * (3 * 5 + 1) + 1);
}
