//! Host-side planning for the Metal crossbar matvec: which compute kernel a
//! pass uses, how it is dispatched, when the conductance matrix has to be
//! uploaded again, and which commands a forward, a cascade or a repeated run
//! encodes into one command buffer.
//!
//! The GPU work itself (buffers, encoders, command queues) belongs to a macOS
//! host; it executes the plans made here. As in [`crate::m5_compute`],
//! [`metal_kernel_tier`] gives what a build without the Metal backend gives
//! (the scalar tier), and [`metal_kernel_tier_with`] takes whether the
//! backend is available and gives the encoder's tier when it is.

use vstd::prelude::*;
use vstd::string::StringExecFns;

verus! {

/// From this crossbar side on, a pass uses the one-row-per-threadgroup simdgroup kernel.
pub const SIMD_KERNEL_MIN_N: usize = 512;

/// From this side on, a forward pass uses the batched simdgroup kernel.
pub const SIMD_BATCH_MIN_N: usize = 1024;

/// Rows per threadgroup in the batched simdgroup kernel.
pub const SIMD_BATCH_ROWS_PER_GROUP: usize = 32;

/// Forward passes are never tiled; kept for interface compatibility.
pub const TILED_KERNEL_MIN_N: usize = usize::MAX;

/// From this side on, cascade passes use the input-tiling kernel.
pub const TILED_CASCADE_MIN_N: usize = 4096;

/// Tile width, in elements, of the tiling kernel.
pub const TILED_KERNEL_TILE: usize = 256;

/// Lanes of one SIMD group.
pub const SIMDGROUP_WIDTH: u64 = 32;

/// Bytes of one matrix or vector element on the GPU.
pub const ELEMENT_BYTES: u64 = 4;

/// Upper bound on threads per threadgroup for the scalar kernel.
pub const MAX_SCALAR_THREADS_PER_GROUP: u64 = 1024;

/// Epoch value that marks the GPU copy of the conductance matrix as invalid.
pub const INVALID_G_EPOCH: u64 = u64::MAX;

/// Which Metal compute kernel runs a matvec pass.
#[derive(Debug, Clone, Copy, PartialEq, Eq, Structural)]
pub enum MetalKernelTier {
    Scalar,
    Simdgroup,
    /// Forward: 32 output rows per threadgroup.
    SimdgroupBatch,
    Tiled,
}

/// Errors of the Metal crossbar path.
#[derive(Debug, Clone, PartialEq, Eq)]
pub enum MetalForwardError {
    UnsupportedPlatform,
    NoGpuDevice,
    InvalidShape { n: usize, conductance_len: usize, input_len: usize },
    Metal(String),
}

/// The kernel tier for side `n`, for a cascade pass or a forward pass.
pub open spec fn tier_for(n: usize, cascade_pass: bool) -> MetalKernelTier {
    if cascade_pass && n >= TILED_CASCADE_MIN_N {
        MetalKernelTier::Tiled
    } else if !cascade_pass && n >= SIMD_BATCH_MIN_N {
        MetalKernelTier::SimdgroupBatch
    } else if n >= SIMD_KERNEL_MIN_N {
        MetalKernelTier::Simdgroup
    } else {
        MetalKernelTier::Scalar
    }
}

/// The kernel tier for side `n`.
pub fn kernel_tier_for_n(n: usize, cascade_pass: bool) -> (t: MetalKernelTier)
    ensures
        t == tier_for(n, cascade_pass),
{
    if cascade_pass && n >= TILED_CASCADE_MIN_N {
        MetalKernelTier::Tiled
    } else if !cascade_pass && n >= SIMD_BATCH_MIN_N {
        MetalKernelTier::SimdgroupBatch
    } else if n >= SIMD_KERNEL_MIN_N {
        MetalKernelTier::Simdgroup
    } else {
        MetalKernelTier::Scalar
    }
}

/// The kernel tier reported for side `n`. This library carries no Metal
/// backend, so, as in a build without Metal, it is `Scalar`; a host with the
/// backend calls [`metal_kernel_tier_with`], which gives the encoder's tier.
pub fn metal_kernel_tier(n: usize, cascade_pass: bool) -> (t: MetalKernelTier)
    ensures
        t == MetalKernelTier::Scalar,
{
    metal_kernel_tier_with(n, cascade_pass, false)
}

/// The kernel tier reported for side `n` on a host where the Metal backend is
/// (or is not) available: the encoder's choice, and `Scalar` without Metal.
pub fn metal_kernel_tier_with(n: usize, cascade_pass: bool, metal_available: bool) -> (t:
    MetalKernelTier)
    ensures
        t == (if metal_available {
            tier_for(n, cascade_pass)
        } else {
            MetalKernelTier::Scalar
        }),
{
    if metal_available {
        kernel_tier_for_n(n, cascade_pass)
    } else {
        MetalKernelTier::Scalar
    }
}

/// Whether a pass uses the batched simdgroup kernel.
pub fn use_simd_batch_kernel(n: usize, cascade_pass: bool) -> (b: bool)
    ensures
        b == (!cascade_pass && n >= SIMD_BATCH_MIN_N),
{
    !cascade_pass && n >= SIMD_BATCH_MIN_N
}

/// Whether a pass uses the tiling kernel.
pub fn use_tiled_kernel(n: usize, cascade_pass: bool) -> (b: bool)
    ensures
        b == (cascade_pass && n >= TILED_CASCADE_MIN_N),
{
    cascade_pass && n >= TILED_CASCADE_MIN_N
}

/// Whether a pass uses the one-row simdgroup kernel.
pub fn use_simd_kernel(n: usize, cascade_pass: bool) -> (b: bool)
    ensures
        b == (n >= SIMD_KERNEL_MIN_N && !(!cascade_pass && n >= SIMD_BATCH_MIN_N) && !(cascade_pass
            && n >= TILED_CASCADE_MIN_N)),
{
    n >= SIMD_KERNEL_MIN_N && !use_simd_batch_kernel(n, cascade_pass) && !use_tiled_kernel(
        n,
        cascade_pass,
    )
}

/// `ceil(n / d)` for a positive divisor.
pub open spec fn ceil_div(n: int, d: int) -> int {
    (n + d - 1) / d
}

/// `ceil(n / d)` in a `u64`, without an intermediate that could overflow.
fn ceil_div_u64(n: u64, d: u64) -> (q: u64)
    requires
        d > 0,
    ensures
        q == ceil_div(n as int, d as int),
        q * d >= n,
        q == 0 || (q - 1) * d < n,
{
    let q = n / d;
    let r = n % d;
    proof {
        assert(n == q * d + r && 0 <= r < d) by (nonlinear_arith)
            requires
                q == n / d,
                r == n % d,
                d > 0,
        ;
    }
    if r == 0 {
        proof {
            assert(q == (n + d - 1) / (d as int)) by (nonlinear_arith)
                requires
                    n == q * d,
                    d > 0,
            ;
            assert((q - 1) * d < n || q == 0) by (nonlinear_arith)
                requires
                    n == q * d,
                    d > 0,
            ;
        }
        q
    } else {
        proof {
            assert(q + 1 == (n + d - 1) / (d as int)) by (nonlinear_arith)
                requires
                    n == q * d + r,
                    0 < r < d,
            ;
            assert((q + 1) * d >= n && q * d < n) by (nonlinear_arith)
                requires
                    n == q * d + r,
                    0 < r < d,
            ;
            assert(q + 1 <= u64::MAX) by (nonlinear_arith)
                requires
                    q == n / d,
                    d > 1,
                    n <= u64::MAX,
            ;
        }
        q + 1
    }
}

/// Threads per threadgroup for the scalar kernel: the largest multiple of the
/// SIMD width (at least 1) that is at most both the pipeline's limit and
/// [`MAX_SCALAR_THREADS_PER_GROUP`]; when there is none, the smaller of the
/// width and the pipeline's limit.
pub open spec fn scalar_threads_per_group(max_total_threads: u64, execution_width: u64) -> u64 {
    let width = if execution_width == 0 {
        1
    } else {
        execution_width
    };
    let cap = if max_total_threads < MAX_SCALAR_THREADS_PER_GROUP {
        max_total_threads
    } else {
        MAX_SCALAR_THREADS_PER_GROUP
    };
    let rounded = (cap / width) * width;
    if rounded == 0 {
        if width < max_total_threads {
            width
        } else {
            max_total_threads
        }
    } else {
        rounded as u64
    }
}

/// The SIMD width the scalar kernel rounds to: the pipeline's, or 1 when it reports 0.
pub open spec fn simd_width(execution_width: u64) -> u64 {
    if execution_width == 0 {
        1
    } else {
        execution_width
    }
}

/// The most threads per threadgroup the scalar kernel may use.
pub open spec fn scalar_cap(max_total_threads: u64) -> u64 {
    if max_total_threads < MAX_SCALAR_THREADS_PER_GROUP {
        max_total_threads
    } else {
        MAX_SCALAR_THREADS_PER_GROUP
    }
}

/// How one matvec pass is dispatched: its kernel, the threads per threadgroup,
/// the number of threadgroups and the threadgroup memory it reserves.
#[derive(Debug, Clone, Copy, PartialEq, Eq, Structural)]
pub struct MatvecDispatch {
    pub tier: MetalKernelTier,
    pub threads_per_group: u64,
    pub thread_groups: u64,
    pub threadgroup_memory_bytes: u64,
}

/// The dispatch of a matvec pass on side `n`, given the scalar pipeline's
/// thread limit and SIMD width.
pub open spec fn dispatch_for(
    n: usize,
    cascade_pass: bool,
    max_total_threads: u64,
    execution_width: u64,
) -> MatvecDispatch {
    let tier = tier_for(n, cascade_pass);
    match tier {
        MetalKernelTier::Tiled => MatvecDispatch {
            tier,
            threads_per_group: SIMDGROUP_WIDTH,
            thread_groups: n as u64,
            threadgroup_memory_bytes: (TILED_KERNEL_TILE as u64 * ELEMENT_BYTES) as u64,
        },
        MetalKernelTier::SimdgroupBatch => MatvecDispatch {
            tier,
            threads_per_group: (SIMD_BATCH_ROWS_PER_GROUP as u64 * SIMDGROUP_WIDTH) as u64,
            thread_groups: ceil_div(n as int, SIMD_BATCH_ROWS_PER_GROUP as int) as u64,
            threadgroup_memory_bytes: 0,
        },
        MetalKernelTier::Simdgroup => MatvecDispatch {
            tier,
            threads_per_group: SIMDGROUP_WIDTH,
            thread_groups: n as u64,
            threadgroup_memory_bytes: 0,
        },
        MetalKernelTier::Scalar => {
            let tpg = scalar_threads_per_group(max_total_threads, execution_width);
            MatvecDispatch {
                tier,
                threads_per_group: tpg,
                thread_groups: ceil_div(n as int, tpg as int) as u64,
                threadgroup_memory_bytes: 0,
            }
        },
    }
}

/// The number of output rows a dispatch computes: one row per threadgroup for
/// the one-row kernels, [`SIMD_BATCH_ROWS_PER_GROUP`] rows per threadgroup
/// for the batched kernel, one row per thread for the scalar kernel.
pub open spec fn rows_covered(d: MatvecDispatch) -> int {
    match d.tier {
        MetalKernelTier::Tiled | MetalKernelTier::Simdgroup => d.thread_groups as int,
        MetalKernelTier::SimdgroupBatch => d.thread_groups * SIMD_BATCH_ROWS_PER_GROUP,
        MetalKernelTier::Scalar => d.thread_groups * d.threads_per_group,
    }
}

/// Computes the dispatch of a matvec pass on side `n`. The scalar pipeline
/// must allow at least one thread per threadgroup.
pub fn matvec_dispatch(
    n: usize,
    cascade_pass: bool,
    max_total_threads: u64,
    execution_width: u64,
) -> (d: MatvecDispatch)
    requires
        max_total_threads > 0,
    ensures
        d == dispatch_for(n, cascade_pass, max_total_threads, execution_width),
        d.tier == tier_for(n, cascade_pass),
        d.threads_per_group > 0,
        rows_covered(d) >= n,
        d.tier == MetalKernelTier::Scalar ==> d.threads_per_group <= max_total_threads,
        d.tier == MetalKernelTier::Scalar && simd_width(execution_width) <= scalar_cap(
            max_total_threads,
        ) ==> {
            &&& d.threads_per_group % simd_width(execution_width) == 0
            &&& d.threads_per_group <= scalar_cap(max_total_threads)
            &&& d.threads_per_group + simd_width(execution_width) > scalar_cap(max_total_threads)
        },
        d.tier == MetalKernelTier::Scalar && simd_width(execution_width) > scalar_cap(
            max_total_threads,
        ) ==> d.threads_per_group == (if simd_width(execution_width) < max_total_threads {
            simd_width(execution_width)
        } else {
            max_total_threads
        }),
        d.tier == MetalKernelTier::Scalar ==> d.thread_groups == 0 || (d.thread_groups - 1)
            * d.threads_per_group < n,
        d.tier == MetalKernelTier::SimdgroupBatch ==> d.thread_groups == 0 || (d.thread_groups - 1)
            * SIMD_BATCH_ROWS_PER_GROUP < n,
{
    let tier = kernel_tier_for_n(n, cascade_pass);
    match tier {
        MetalKernelTier::Tiled => MatvecDispatch {
            tier,
            threads_per_group: SIMDGROUP_WIDTH,
            thread_groups: n as u64,
            threadgroup_memory_bytes: TILED_KERNEL_TILE as u64 * ELEMENT_BYTES,
        },
        MetalKernelTier::SimdgroupBatch => {
            let groups = ceil_div_u64(n as u64, SIMD_BATCH_ROWS_PER_GROUP as u64);
            MatvecDispatch {
                tier,
                threads_per_group: SIMD_BATCH_ROWS_PER_GROUP as u64 * SIMDGROUP_WIDTH,
                thread_groups: groups,
                threadgroup_memory_bytes: 0,
            }
        },
        MetalKernelTier::Simdgroup => MatvecDispatch {
            tier,
            threads_per_group: SIMDGROUP_WIDTH,
            thread_groups: n as u64,
            threadgroup_memory_bytes: 0,
        },
        MetalKernelTier::Scalar => {
            let width = if execution_width == 0 {
                1
            } else {
                execution_width
            };
            let cap = if max_total_threads < MAX_SCALAR_THREADS_PER_GROUP {
                max_total_threads
            } else {
                MAX_SCALAR_THREADS_PER_GROUP
            };
            proof {
                assert((cap / width) * width <= cap) by (nonlinear_arith)
                    requires
                        width > 0,
                ;
                assert((((cap / width) * width) as int) % (width as int) == 0) by (nonlinear_arith)
                    requires
                        width > 0,
                ;
                assert((cap / width) * width + width > cap) by (nonlinear_arith)
                    requires
                        width > 0,
                ;
                assert(width <= cap ==> (cap / width) * width > 0) by (nonlinear_arith)
                    requires
                        width > 0,
                ;
                assert(width > cap ==> (cap / width) * width == 0) by (nonlinear_arith)
                    requires
                        width > 0,
                ;
            }
            let mut tpg = (cap / width) * width;
            if tpg == 0 {
                tpg = if width < max_total_threads {
                    width
                } else {
                    max_total_threads
                };
            }
            let groups = ceil_div_u64(n as u64, tpg);
            MatvecDispatch { tier, threads_per_group: tpg, thread_groups: groups, threadgroup_memory_bytes: 0 }
        },
    }
}

/// A pass is dispatched on the encoder's kernel: the tiling kernel for a
/// cascade pass from side 4096 on (32 threads and one threadgroup per row,
/// 1 KiB of threadgroup memory); the batched kernel for a forward pass from
/// side 1024 on (1024 threads, one threadgroup per 32 rows); the one-row
/// simdgroup kernel from side 512 on otherwise (32 threads, one threadgroup
/// per row); and the scalar kernel below side 512.
pub proof fn lemma_dispatch_follows_encoder(
    n: usize,
    cascade_pass: bool,
    max_total_threads: u64,
    execution_width: u64,
)
    ensures
        dispatch_for(n, cascade_pass, max_total_threads, execution_width).tier == tier_for(
            n,
            cascade_pass,
        ),
        cascade_pass && n >= 4096 ==> dispatch_for(
            n,
            cascade_pass,
            max_total_threads,
            execution_width,
        ) == (MatvecDispatch {
            tier: MetalKernelTier::Tiled,
            threads_per_group: 32,
            thread_groups: n as u64,
            threadgroup_memory_bytes: 1024,
        }),
        !cascade_pass && n >= 1024 ==> dispatch_for(
            n,
            cascade_pass,
            max_total_threads,
            execution_width,
        ) == (MatvecDispatch {
            tier: MetalKernelTier::SimdgroupBatch,
            threads_per_group: 1024,
            thread_groups: ((n + 31) / 32) as u64,
            threadgroup_memory_bytes: 0,
        }),
        512 <= n && !(cascade_pass && n >= 4096) && !(!cascade_pass && n >= 1024) ==> dispatch_for(
            n,
            cascade_pass,
            max_total_threads,
            execution_width,
        ) == (MatvecDispatch {
            tier: MetalKernelTier::Simdgroup,
            threads_per_group: 32,
            thread_groups: n as u64,
            threadgroup_memory_bytes: 0,
        }),
        n < 512 ==> dispatch_for(n, cascade_pass, max_total_threads, execution_width).tier
            == MetalKernelTier::Scalar && dispatch_for(
            n,
            cascade_pass,
            max_total_threads,
            execution_width,
        ).threadgroup_memory_bytes == 0,
{
}

/// What the GPU holds of the conductance matrix: the epoch and side it was
/// uploaded with. An epoch of [`INVALID_G_EPOCH`] means nothing usable.
#[derive(Debug, Clone, Copy)]
pub struct GpuUploadTracker {
    uploaded_g_epoch: u64,
    uploaded_n: usize,
}

/// Whether a matvec on side `n` with a matrix of epoch `g_epoch` must upload
/// the matrix, given the epoch and side of the copy on the GPU.
pub open spec fn upload_needed(uploaded_epoch: u64, uploaded_n: usize, n: usize, g_epoch: u64) -> bool {
    uploaded_epoch == INVALID_G_EPOCH || uploaded_n != n || uploaded_epoch != g_epoch
}

impl GpuUploadTracker {
    /// Epoch of the matrix copy on the GPU.
    pub closed spec fn epoch(self) -> u64 {
        self.uploaded_g_epoch
    }

    /// Side of the matrix copy on the GPU.
    pub closed spec fn side(self) -> usize {
        self.uploaded_n
    }

    /// Whether a matvec on side `n` with epoch `g_epoch` must upload the matrix.
    pub open spec fn needs(self, n: usize, g_epoch: u64) -> bool {
        upload_needed(self.epoch(), self.side(), n, g_epoch)
    }

    /// A tracker for a GPU that holds no matrix yet.
    pub fn new() -> (t: Self)
        ensures
            t.epoch() == INVALID_G_EPOCH,
            t.side() == 0,
    {
        GpuUploadTracker { uploaded_g_epoch: INVALID_G_EPOCH, uploaded_n: 0 }
    }

    /// Forces the next matvec to upload the full matrix.
    pub fn invalidate_conductance_on_gpu(&mut self)
        ensures
            final(self).epoch() == INVALID_G_EPOCH,
            final(self).side() == old(self).side(),
    {
        self.uploaded_g_epoch = INVALID_G_EPOCH;
    }

    /// Called when the GPU buffers are (re)sized for side `n`: a copy of
    /// another side is no longer usable.
    pub fn observe_side(&mut self, n: usize)
        ensures
            final(self).side() == old(self).side(),
            final(self).epoch() == (if old(self).side() != n {
                INVALID_G_EPOCH
            } else {
                old(self).epoch()
            }),
    {
        if self.uploaded_n != n {
            self.uploaded_g_epoch = INVALID_G_EPOCH;
        }
    }

    /// Whether a matvec on side `n` with epoch `g_epoch` must upload the matrix.
    pub fn needs_g_upload(&self, n: usize, g_epoch: u64) -> (b: bool)
        ensures
            b == self.needs(n, g_epoch),
    {
        self.uploaded_g_epoch == INVALID_G_EPOCH || self.uploaded_n != n || self.uploaded_g_epoch
            != g_epoch
    }

    /// Records that the matrix of side `n` and epoch `g_epoch` is on the GPU.
    pub fn mark_g_uploaded(&mut self, n: usize, g_epoch: u64)
        ensures
            final(self).epoch() == g_epoch,
            final(self).side() == n,
    {
        self.uploaded_n = n;
        self.uploaded_g_epoch = g_epoch;
    }

    /// The epoch of the matrix copy on the GPU.
    pub fn uploaded_g_epoch(&self) -> (e: u64)
        ensures
            e == self.epoch(),
    {
        self.uploaded_g_epoch
    }
}

/// An upload is skipped exactly when the GPU already holds the same matrix:
/// after the matrix of side `n` and a valid epoch `e` is uploaded, a matvec
/// with that side and epoch needs no upload, and any other side or epoch does;
/// after an invalidation every matvec uploads.
pub proof fn lemma_upload_skipped_only_for_same_matrix(n: usize, e: u64, n2: usize, e2: u64, side: usize)
    requires
        e != INVALID_G_EPOCH,
    ensures
        !upload_needed(e, n, n, e),
        upload_needed(e, n, n2, e2) <==> (n2 != n || e2 != e),
        upload_needed(INVALID_G_EPOCH, side, n2, e2),
{
}

/// One command encoded into the command buffer of a GPU run.
#[derive(Debug, Clone, Copy, PartialEq, Eq, Structural)]
pub enum GpuCommand {
    /// A matvec pass `output = G · input`; cascade passes may use another kernel.
    Matvec { cascade_pass: bool },
    /// Copies the output buffer into the input buffer (between cascade passes).
    BlitOutputToInput,
    /// Restores the input buffer from the input anchor (between repeated cascades).
    BlitInputAnchorToInput,
}

/// The work of one GPU run: whether the conductance matrix and the input
/// anchor are uploaded (the input itself always is), the commands of its
/// single command buffer, and whether an upload of the matrix is recorded
/// before the buffer is committed (cascades) or only once it has completed
/// (forwards). The output is read back after the buffer completes.
#[derive(Debug, Clone)]
pub struct GpuPlan {
    pub upload_conductance: bool,
    pub upload_input_anchor: bool,
    pub commands: Vec<GpuCommand>,
    pub record_upload_before_commit: bool,
}

/// What a runner call does after its checks.
#[derive(Debug, Clone)]
pub enum GpuRun {
    /// Nothing: no pass was asked for.
    Nothing,
    /// The host copies the input to the output (a cascade of depth 0).
    CopyInput,
    /// The host runs this plan on the GPU.
    Encode(GpuPlan),
}

/// `repeats` independent forward passes.
pub open spec fn repeated_forward_commands(repeats: nat) -> Seq<GpuCommand> {
    Seq::new(repeats, |i: int| GpuCommand::Matvec { cascade_pass: false })
}

/// A cascade of `depth` passes, with an output-to-input copy between
/// consecutive passes: `2·depth − 1` commands, passes at even positions.
pub open spec fn cascade_commands(depth: nat) -> Seq<GpuCommand> {
    if depth == 0 {
        Seq::empty()
    } else {
        Seq::new(
            (2 * depth - 1) as nat,
            |i: int|
                if i % 2 == 0 {
                    GpuCommand::Matvec { cascade_pass: true }
                } else {
                    GpuCommand::BlitOutputToInput
                },
        )
    }
}

/// `repeats` cascades of `depth` passes, each but the first preceded by a
/// restore of the input from its anchor.
pub open spec fn repeated_cascade_commands(depth: nat, repeats: nat) -> Seq<GpuCommand>
    decreases repeats,
{
    if repeats == 0 {
        Seq::empty()
    } else if repeats == 1 {
        cascade_commands(depth)
    } else {
        repeated_cascade_commands(depth, (repeats - 1) as nat).push(
            GpuCommand::BlitInputAnchorToInput,
        ) + cascade_commands(depth)
    }
}

/// The number of matvec passes in a command sequence.
pub open spec fn matvec_count(cmds: Seq<GpuCommand>) -> nat
    decreases cmds.len(),
{
    if cmds.len() == 0 {
        0
    } else {
        matvec_count(cmds.drop_last()) + if cmds.last() is Matvec {
            1nat
        } else {
            0nat
        }
    }
}

/// Encodes `repeats` forward passes.
pub fn encode_repeated_matvec_passes(repeats: usize) -> (cmds: Vec<GpuCommand>)
    ensures
        cmds@ == repeated_forward_commands(repeats as nat),
{
    let mut cmds: Vec<GpuCommand> = Vec::new();
    let mut i: usize = 0;
    while i < repeats
        invariant
            i <= repeats,
            cmds@ == repeated_forward_commands(i as nat),
        decreases repeats - i,
    {
        cmds.push(GpuCommand::Matvec { cascade_pass: false });
        i = i + 1;
        assert(cmds@ =~= repeated_forward_commands(i as nat));
    }
    cmds
}

/// Appends a cascade of `depth` passes to `cmds`.
pub fn encode_cascade_matvec_passes(cmds: &mut Vec<GpuCommand>, depth: usize)
    ensures
        final(cmds)@ == old(cmds)@ + cascade_commands(depth as nat),
{
    let ghost start = old(cmds)@;
    let mut pass: usize = 0;
    while pass < depth
        invariant
            pass <= depth,
            start == old(cmds)@,
            pass == 0 ==> cmds@ == start,
            0 < pass < depth ==> cmds@ == start + cascade_commands(pass as nat).push(
                GpuCommand::BlitOutputToInput,
            ),
            pass == depth ==> cmds@ == start + cascade_commands(depth as nat),
        decreases depth - pass,
    {
        cmds.push(GpuCommand::Matvec { cascade_pass: true });
        if pass + 1 < depth {
            cmds.push(GpuCommand::BlitOutputToInput);
        }
        pass = pass + 1;
        proof {
            if pass < depth {
                assert(cmds@ =~= start + cascade_commands(pass as nat).push(
                    GpuCommand::BlitOutputToInput,
                ));
            } else {
                assert(cmds@ =~= start + cascade_commands(depth as nat));
            }
        }
    }
    assert(cmds@ =~= old(cmds)@ + cascade_commands(depth as nat));
}

/// Appends `repeats` cascades of `depth` passes to `cmds`, restoring the input
/// from its anchor before every cascade but the first.
pub fn encode_repeated_cascade_passes(cmds: &mut Vec<GpuCommand>, depth: usize, repeats: usize)
    ensures
        final(cmds)@ == old(cmds)@ + repeated_cascade_commands(depth as nat, repeats as nat),
{
    let ghost start = old(cmds)@;
    let mut rep: usize = 0;
    while rep < repeats
        invariant
            rep <= repeats,
            start == old(cmds)@,
            cmds@ == start + repeated_cascade_commands(depth as nat, rep as nat),
        decreases repeats - rep,
    {
        if rep > 0 {
            cmds.push(GpuCommand::BlitInputAnchorToInput);
        }
        encode_cascade_matvec_passes(cmds, depth);
        rep = rep + 1;
        assert(cmds@ =~= start + repeated_cascade_commands(depth as nat, rep as nat));
    }
}

/// Counting passes distributes over concatenation.
pub proof fn lemma_matvec_count_concat(a: Seq<GpuCommand>, b: Seq<GpuCommand>)
    ensures
        matvec_count(a + b) == matvec_count(a) + matvec_count(b),
    decreases b.len(),
{
    if b.len() == 0 {
        assert(a + b =~= a);
    } else {
        lemma_matvec_count_concat(a, b.drop_last());
        assert((a + b).drop_last() =~= a + b.drop_last());
    }
}

/// `repeats` forward runs encode exactly `repeats` passes.
pub proof fn lemma_repeated_forward_passes(repeats: nat)
    ensures
        matvec_count(repeated_forward_commands(repeats)) == repeats,
    decreases repeats,
{
    if repeats > 0 {
        lemma_repeated_forward_passes((repeats - 1) as nat);
        assert(repeated_forward_commands(repeats).drop_last() =~= repeated_forward_commands(
            (repeats - 1) as nat,
        ));
    }
}

/// A cascade of depth `d` encodes exactly `d` passes.
pub proof fn lemma_cascade_passes(depth: nat)
    ensures
        matvec_count(cascade_commands(depth)) == depth,
    decreases depth,
{
    reveal_with_fuel(matvec_count, 3);
    if depth == 1 {
        let c = cascade_commands(1);
        assert(c =~= seq![GpuCommand::Matvec { cascade_pass: true }]);
        assert(c.drop_last() =~= Seq::<GpuCommand>::empty());
    } else if depth > 1 {
        let c = cascade_commands(depth);
        let p = cascade_commands((depth - 1) as nat);
        let tail = seq![GpuCommand::BlitOutputToInput, GpuCommand::Matvec { cascade_pass: true }];
        lemma_cascade_passes((depth - 1) as nat);
        assert(c =~= p + tail);
        lemma_matvec_count_concat(p, tail);
        assert(tail.drop_last() =~= seq![GpuCommand::BlitOutputToInput]);
        assert(tail.drop_last().drop_last() =~= Seq::<GpuCommand>::empty());
    }
}

/// `repeats` cascades of depth `d` encode exactly `d · repeats` passes.
pub proof fn lemma_repeated_cascade_passes(depth: nat, repeats: nat)
    ensures
        matvec_count(repeated_cascade_commands(depth, repeats)) == depth * repeats,
    decreases repeats,
{
    lemma_cascade_passes(depth);
    if repeats > 1 {
        let prev = repeated_cascade_commands(depth, (repeats - 1) as nat);
        lemma_repeated_cascade_passes(depth, (repeats - 1) as nat);
        let with_restore = prev.push(GpuCommand::BlitInputAnchorToInput);
        assert(with_restore.drop_last() =~= prev);
        assert(with_restore.last() == GpuCommand::BlitInputAnchorToInput);
        assert(matvec_count(with_restore) == matvec_count(prev));
        assert(repeated_cascade_commands(depth, repeats) == with_restore + cascade_commands(depth));
        lemma_matvec_count_concat(with_restore, cascade_commands(depth));
        assert(depth * repeats == depth * (repeats - 1) + depth) by (nonlinear_arith)
            requires
                repeats > 1,
        ;
    } else if repeats == 1 {
        assert(depth * repeats == depth) by (nonlinear_arith)
            requires
                repeats == 1,
        ;
    } else {
        assert(depth * repeats == 0) by (nonlinear_arith)
            requires
                repeats == 0,
        ;
    }
}

/// What the GPU's three row buffers hold while a command buffer runs: the
/// input, the output and the input anchor.
pub struct GpuBuffers<V> {
    pub input: V,
    pub output: V,
    pub anchor: V,
}

/// The buffers after one command, where `mv` is the matvec `x ↦ G · x` that
/// every kernel tier computes.
pub open spec fn step_command<V>(mv: spec_fn(V) -> V, b: GpuBuffers<V>, c: GpuCommand) -> GpuBuffers<
    V,
> {
    match c {
        GpuCommand::Matvec { .. } => GpuBuffers { input: b.input, output: mv(b.input), anchor: b.anchor },
        GpuCommand::BlitOutputToInput => GpuBuffers {
            input: b.output,
            output: b.output,
            anchor: b.anchor,
        },
        GpuCommand::BlitInputAnchorToInput => GpuBuffers {
            input: b.anchor,
            output: b.output,
            anchor: b.anchor,
        },
    }
}

/// The buffers after running `cmds` in order from `b`.
pub open spec fn run_commands<V>(mv: spec_fn(V) -> V, cmds: Seq<GpuCommand>, b: GpuBuffers<V>) -> GpuBuffers<
    V,
>
    decreases cmds.len(),
{
    if cmds.len() == 0 {
        b
    } else {
        step_command(mv, run_commands(mv, cmds.drop_last(), b), cmds.last())
    }
}

/// `mv` applied `k` times to `x`.
pub open spec fn matvec_power<V>(mv: spec_fn(V) -> V, k: nat, x: V) -> V
    decreases k,
{
    if k == 0 {
        x
    } else {
        mv(matvec_power(mv, (k - 1) as nat, x))
    }
}

/// Running two command lists one after the other is running their concatenation.
pub proof fn lemma_run_concat<V>(
    mv: spec_fn(V) -> V,
    a: Seq<GpuCommand>,
    c: Seq<GpuCommand>,
    b: GpuBuffers<V>,
)
    ensures
        run_commands(mv, a + c, b) == run_commands(mv, c, run_commands(mv, a, b)),
    decreases c.len(),
{
    if c.len() == 0 {
        assert(a + c =~= a);
    } else {
        lemma_run_concat(mv, a, c.drop_last(), b);
        assert((a + c).drop_last() =~= a + c.drop_last());
    }
}

/// Repeated forward passes are independent: after any positive number of
/// them the output is `G · x` for the input `x`, which they leave as it is.
pub proof fn lemma_repeated_forward_output<V>(mv: spec_fn(V) -> V, repeats: nat, b: GpuBuffers<V>)
    ensures
        run_commands(mv, repeated_forward_commands(repeats), b).input == b.input,
        run_commands(mv, repeated_forward_commands(repeats), b).anchor == b.anchor,
        repeats > 0 ==> run_commands(mv, repeated_forward_commands(repeats), b).output == mv(
            b.input,
        ),
    decreases repeats,
{
    if repeats > 0 {
        let c = repeated_forward_commands(repeats);
        assert(c.drop_last() =~= repeated_forward_commands((repeats - 1) as nat));
        lemma_repeated_forward_output(mv, (repeats - 1) as nat, b);
    }
}

/// A cascade of depth `d > 0` leaves `G^d · x` in the output for the input
/// `x`, and `G^(d−1) · x` in the input buffer.
pub proof fn lemma_cascade_output<V>(mv: spec_fn(V) -> V, depth: nat, b: GpuBuffers<V>)
    requires
        depth > 0,
    ensures
        run_commands(mv, cascade_commands(depth), b).output == matvec_power(mv, depth, b.input),
        run_commands(mv, cascade_commands(depth), b).input == matvec_power(
            mv,
            (depth - 1) as nat,
            b.input,
        ),
        run_commands(mv, cascade_commands(depth), b).anchor == b.anchor,
    decreases depth,
{
    let m = GpuCommand::Matvec { cascade_pass: true };
    if depth == 1 {
        let c = cascade_commands(1);
        assert(c =~= seq![m]);
        assert(c.drop_last() =~= Seq::<GpuCommand>::empty());
        assert(run_commands(mv, c.drop_last(), b) == b);
        assert(c.last() == m);
        assert(matvec_power(mv, 0, b.input) == b.input);
        assert(matvec_power(mv, 1, b.input) == mv(matvec_power(mv, 0, b.input)));
    } else {
        let c = cascade_commands(depth);
        let p = cascade_commands((depth - 1) as nat);
        let tail = seq![GpuCommand::BlitOutputToInput, m];
        assert(c =~= p + tail);
        lemma_cascade_output(mv, (depth - 1) as nat, b);
        lemma_run_concat(mv, p, tail, b);
        let s = run_commands(mv, p, b);
        let t1 = tail.drop_last();
        assert(t1 =~= seq![GpuCommand::BlitOutputToInput]);
        assert(t1.drop_last() =~= Seq::<GpuCommand>::empty());
        assert(run_commands(mv, t1.drop_last(), s) == s);
        assert(t1.last() == GpuCommand::BlitOutputToInput);
        assert(tail.last() == m);
        assert(run_commands(mv, tail.drop_last(), s) == step_command(
            mv,
            s,
            GpuCommand::BlitOutputToInput,
        ));
        assert(matvec_power(mv, depth, b.input) == mv(
            matvec_power(mv, (depth - 1) as nat, b.input),
        ));
    }
}

/// Repeated cascades are independent: when the anchor holds the input `x`,
/// every cascade starts again from `x`, and after any positive number of
/// cascades of depth `d > 0` the output is `G^d · x`.
pub proof fn lemma_repeated_cascade_output<V>(
    mv: spec_fn(V) -> V,
    depth: nat,
    repeats: nat,
    b: GpuBuffers<V>,
)
    requires
        depth > 0,
        repeats > 0,
        b.anchor == b.input,
    ensures
        run_commands(mv, repeated_cascade_commands(depth, repeats), b).output == matvec_power(
            mv,
            depth,
            b.input,
        ),
        run_commands(mv, repeated_cascade_commands(depth, repeats), b).anchor == b.anchor,
    decreases repeats,
{
    lemma_cascade_output(mv, depth, b);
    if repeats > 1 {
        let prev = repeated_cascade_commands(depth, (repeats - 1) as nat);
        let with_restore = prev.push(GpuCommand::BlitInputAnchorToInput);
        lemma_repeated_cascade_output(mv, depth, (repeats - 1) as nat, b);
        assert(with_restore.drop_last() =~= prev);
        let restored = run_commands(mv, with_restore, b);
        assert(restored.input == b.input && restored.anchor == b.anchor);
        lemma_run_concat(mv, with_restore, cascade_commands(depth), b);
        lemma_cascade_output(mv, depth, restored);
    }
}

/// The text of one decimal digit `d < 10`.
pub open spec fn digit_text(d: nat) -> Seq<char> {
    if d == 0 {
        "0"@
    } else if d == 1 {
        "1"@
    } else if d == 2 {
        "2"@
    } else if d == 3 {
        "3"@
    } else if d == 4 {
        "4"@
    } else if d == 5 {
        "5"@
    } else if d == 6 {
        "6"@
    } else if d == 7 {
        "7"@
    } else if d == 8 {
        "8"@
    } else {
        "9"@
    }
}

/// The decimal text of `n`, most significant digit first, without leading zeros.
pub open spec fn decimal(n: nat) -> Seq<char>
    decreases n,
{
    if n < 10 {
        digit_text(n)
    } else {
        decimal(n / 10) + digit_text(n % 10)
    }
}

/// The message when the output of a repeated forward has the wrong length.
pub open spec fn repeated_len_text(n: usize, got: usize) -> Seq<char> {
    "forward_repeated_into: expected output len "@ + decimal(n as nat) + ", got "@ + decimal(
        got as nat,
    )
}

/// The message when a cascade of depth 0 gets an input or output of the wrong length.
pub open spec fn cascade_depth0_len_text(n: usize) -> Seq<char> {
    "forward_cascade_into depth 0: expected len n="@ + decimal(n as nat)
}

/// The message when the output of a repeated cascade with no repeat has the wrong length.
pub open spec fn cascade_repeated_len_text(n: usize) -> Seq<char> {
    "forward_cascade_repeated_into: expected output len "@ + decimal(n as nat)
}

fn digit_str(d: usize) -> (s: &'static str)
    requires
        d < 10,
    ensures
        s@ == digit_text(d as nat),
{
    match d {
        0 => "0",
        1 => "1",
        2 => "2",
        3 => "3",
        4 => "4",
        5 => "5",
        6 => "6",
        7 => "7",
        8 => "8",
        _ => "9",
    }
}

/// Appends the decimal text of `n` to `s`.
fn push_decimal(s: &mut String, n: usize)
    ensures
        final(s)@ == old(s)@ + decimal(n as nat),
    decreases n,
{
    if n >= 10 {
        push_decimal(s, n / 10);
    }
    s.append(digit_str(n % 10));
    proof {
        if n >= 10 {
            assert(final(s)@ == old(s)@ + decimal(n as nat)) by {
                assert(old(s)@ + decimal((n / 10) as nat) + digit_text((n % 10) as nat) =~= old(s)@
                    + (decimal((n / 10) as nat) + digit_text((n % 10) as nat)));
            }
        }
    }
}

fn repeated_len_message(n: usize, got: usize) -> (m: String)
    ensures
        m@ == repeated_len_text(n, got),
{
    let mut m = String::new();
    m.append("forward_repeated_into: expected output len ");
    push_decimal(&mut m, n);
    m.append(", got ");
    push_decimal(&mut m, got);
    assert(m@ =~= repeated_len_text(n, got));
    m
}

fn cascade_depth0_len_message(n: usize) -> (m: String)
    ensures
        m@ == cascade_depth0_len_text(n),
{
    let mut m = String::new();
    m.append("forward_cascade_into depth 0: expected len n=");
    push_decimal(&mut m, n);
    assert(m@ =~= cascade_depth0_len_text(n));
    m
}

fn cascade_repeated_len_message(n: usize) -> (m: String)
    ensures
        m@ == cascade_repeated_len_text(n),
{
    let mut m = String::new();
    m.append("forward_cascade_repeated_into: expected output len ");
    push_decimal(&mut m, n);
    assert(m@ =~= cascade_repeated_len_text(n));
    m
}

/// Whether the conductance matrix has `n²` entries and the input `n`.
pub open spec fn shape_ok(n: usize, conductance_len: usize, input_len: usize) -> bool {
    conductance_len == n * n && input_len == n
}

fn shape_matches(n: usize, conductance_len: usize, input_len: usize) -> (b: bool)
    ensures
        b == shape_ok(n, conductance_len, input_len),
{
    match n.checked_mul(n) {
        Some(cells) => cells == conductance_len && input_len == n,
        None => false,
    }
}

/// The epoch a copy of epoch `epoch` and side `side` keeps once the GPU
/// buffers are sized for side `n`: a copy of another side is unusable.
pub open spec fn epoch_on_side(epoch: u64, side: usize, n: usize) -> u64 {
    if side != n {
        INVALID_G_EPOCH
    } else {
        epoch
    }
}

/// The epoch the tracker holds once the buffers are sized for side `n`.
pub open spec fn observed_epoch(t: GpuUploadTracker, n: usize) -> u64 {
    epoch_on_side(t.epoch(), t.side(), n)
}

/// Whether `r` is the error `Metal(text)`.
pub open spec fn is_len_error(r: Result<GpuRun, MetalForwardError>, text: Seq<char>) -> bool {
    r matches Err(MetalForwardError::Metal(msg)) && msg@ == text
}

/// Whether `r` is a GPU run uploading the matrix when `upload` holds, the
/// anchor when `anchor` holds, encoding `cmds`, and recording the upload
/// before the commit when `before_commit` holds.
pub open spec fn is_encode(
    r: Result<GpuRun, MetalForwardError>,
    upload: bool,
    anchor: bool,
    cmds: Seq<GpuCommand>,
    before_commit: bool,
) -> bool {
    r matches Ok(GpuRun::Encode(p)) && p.upload_conductance == upload && p.upload_input_anchor
        == anchor && p.commands@ == cmds && p.record_upload_before_commit == before_commit
}

/// Plans `repeats` forward passes `output = G · input` on side `n` in one
/// command buffer. With no pass, only the output length is checked.
pub fn plan_forward_repeated(
    tracker: &mut GpuUploadTracker,
    n: usize,
    conductance_len: usize,
    g_epoch: u64,
    input_len: usize,
    repeats: usize,
    output_len: usize,
) -> (r: Result<GpuRun, MetalForwardError>)
    ensures
        repeats == 0 ==> {
            &&& *final(tracker) == *old(tracker)
            &&& output_len != n ==> is_len_error(r, repeated_len_text(n, output_len))
            &&& output_len == n ==> r matches Ok(GpuRun::Nothing)
        },
        repeats > 0 && !shape_ok(n, conductance_len, input_len) ==> {
            &&& *final(tracker) == *old(tracker)
            &&& r == Err::<GpuRun, MetalForwardError>(
                MetalForwardError::InvalidShape { n, conductance_len, input_len },
            )
        },
        repeats > 0 && shape_ok(n, conductance_len, input_len) && output_len != n ==> {
            &&& *final(tracker) == *old(tracker)
            &&& is_len_error(r, repeated_len_text(n, output_len))
        },
        repeats > 0 && shape_ok(n, conductance_len, input_len) && output_len == n ==> {
            &&& final(tracker).side() == old(tracker).side()
            &&& final(tracker).epoch() == observed_epoch(*old(tracker), n)
            &&& is_encode(
                r,
                final(tracker).needs(n, g_epoch),
                false,
                repeated_forward_commands(repeats as nat),
                false,
            )
        },
{
    if repeats == 0 {
        if output_len != n {
            return Err(MetalForwardError::Metal(repeated_len_message(n, output_len)));
        }
        return Ok(GpuRun::Nothing);
    }
    if !shape_matches(n, conductance_len, input_len) {
        return Err(MetalForwardError::InvalidShape { n, conductance_len, input_len });
    }
    if output_len != n {
        return Err(MetalForwardError::Metal(repeated_len_message(n, output_len)));
    }
    tracker.observe_side(n);
    let upload = tracker.needs_g_upload(n, g_epoch);
    let commands = encode_repeated_matvec_passes(repeats);
    Ok(
        GpuRun::Encode(
            GpuPlan {
                upload_conductance: upload,
                upload_input_anchor: false,
                commands,
                record_upload_before_commit: false,
            },
        ),
    )
}

/// Plans a cascade of `depth` passes `y ← G · y` on side `n` in one command
/// buffer; a cascade of depth 0 copies the input on the host.
pub fn plan_forward_cascade(
    tracker: &mut GpuUploadTracker,
    n: usize,
    conductance_len: usize,
    g_epoch: u64,
    input_len: usize,
    depth: usize,
    output_len: usize,
) -> (r: Result<GpuRun, MetalForwardError>)
    ensures
        depth == 0 ==> {
            &&& *final(tracker) == *old(tracker)
            &&& (input_len != n || output_len != n) ==> is_len_error(r, cascade_depth0_len_text(n))
            &&& (input_len == n && output_len == n) ==> r matches Ok(GpuRun::CopyInput)
        },
        depth > 0 && !(shape_ok(n, conductance_len, input_len) && output_len == n) ==> {
            &&& *final(tracker) == *old(tracker)
            &&& r == Err::<GpuRun, MetalForwardError>(
                MetalForwardError::InvalidShape { n, conductance_len, input_len },
            )
        },
        depth > 0 && shape_ok(n, conductance_len, input_len) && output_len == n ==> {
            &&& final(tracker).side() == old(tracker).side()
            &&& final(tracker).epoch() == observed_epoch(*old(tracker), n)
            &&& is_encode(
                r,
                final(tracker).needs(n, g_epoch),
                false,
                cascade_commands(depth as nat),
                true,
            )
        },
{
    if depth == 0 {
        if input_len != n || output_len != n {
            return Err(MetalForwardError::Metal(cascade_depth0_len_message(n)));
        }
        return Ok(GpuRun::CopyInput);
    }
    if !shape_matches(n, conductance_len, input_len) || output_len != n {
        return Err(MetalForwardError::InvalidShape { n, conductance_len, input_len });
    }
    tracker.observe_side(n);
    let upload = tracker.needs_g_upload(n, g_epoch);
    let mut commands: Vec<GpuCommand> = Vec::new();
    encode_cascade_matvec_passes(&mut commands, depth);
    assert(commands@ =~= cascade_commands(depth as nat));
    Ok(
        GpuRun::Encode(
            GpuPlan {
                upload_conductance: upload,
                upload_input_anchor: false,
                commands,
                record_upload_before_commit: true,
            },
        ),
    )
}

/// Plans `repeats` independent cascades of `depth` passes in one command
/// buffer, the input restored from an anchor copy before each one but the
/// first. It works like [`plan_forward_cascade`]: a cascade of depth 0 copies
/// the input on the host. With no repeat only the output is checked.
pub fn plan_forward_cascade_repeated(
    tracker: &mut GpuUploadTracker,
    n: usize,
    conductance_len: usize,
    g_epoch: u64,
    input_len: usize,
    depth: usize,
    repeats: usize,
    output_len: usize,
) -> (r: Result<GpuRun, MetalForwardError>)
    ensures
        repeats == 0 ==> {
            &&& *final(tracker) == *old(tracker)
            &&& output_len != n ==> is_len_error(r, cascade_repeated_len_text(n))
            &&& output_len == n ==> r matches Ok(GpuRun::Nothing)
        },
        repeats > 0 && depth == 0 ==> {
            &&& *final(tracker) == *old(tracker)
            &&& (input_len != n || output_len != n) ==> is_len_error(r, cascade_depth0_len_text(n))
            &&& (input_len == n && output_len == n) ==> r matches Ok(GpuRun::CopyInput)
        },
        repeats > 0 && depth > 0 && !(shape_ok(n, conductance_len, input_len) && output_len == n)
            ==> {
            &&& *final(tracker) == *old(tracker)
            &&& r == Err::<GpuRun, MetalForwardError>(
                MetalForwardError::InvalidShape { n, conductance_len, input_len },
            )
        },
        repeats > 0 && depth > 0 && shape_ok(n, conductance_len, input_len) && output_len == n ==> {
            &&& final(tracker).side() == old(tracker).side()
            &&& final(tracker).epoch() == observed_epoch(*old(tracker), n)
            &&& is_encode(
                r,
                final(tracker).needs(n, g_epoch),
                true,
                repeated_cascade_commands(depth as nat, repeats as nat),
                true,
            )
        },
{
    if repeats == 0 {
        if output_len != n {
            return Err(MetalForwardError::Metal(cascade_repeated_len_message(n)));
        }
        return Ok(GpuRun::Nothing);
    }
    if depth == 0 {
        return plan_forward_cascade(tracker, n, conductance_len, g_epoch, input_len, 0, output_len);
    }
    if !shape_matches(n, conductance_len, input_len) || output_len != n {
        return Err(MetalForwardError::InvalidShape { n, conductance_len, input_len });
    }
    tracker.observe_side(n);
    let upload = tracker.needs_g_upload(n, g_epoch);
    let mut commands: Vec<GpuCommand> = Vec::new();
    encode_repeated_cascade_passes(&mut commands, depth, repeats);
    assert(commands@ =~= repeated_cascade_commands(depth as nat, repeats as nat));
    Ok(
        GpuRun::Encode(
            GpuPlan {
                upload_conductance: upload,
                upload_input_anchor: true,
                commands,
                record_upload_before_commit: true,
            },
        ),
    )
}

/// The tracker's epoch and side after a run on side `n` with matrix epoch
/// `g_epoch` that planned `upload`: the new matrix when its upload is
/// recorded, the copy as it was otherwise.
pub open spec fn after_run(
    epoch: u64,
    side: usize,
    upload: bool,
    recorded: bool,
    n: usize,
    g_epoch: u64,
) -> (u64, usize) {
    if upload && recorded {
        (g_epoch, n)
    } else {
        (epoch, side)
    }
}

/// Finishes a GPU run of `plan` on side `n` with matrix epoch `g_epoch`:
/// when the plan uploaded the matrix, records it as the GPU's copy, unless the
/// plan records only completed runs and this one did not complete.
pub fn complete_run(
    tracker: &mut GpuUploadTracker,
    plan: &GpuPlan,
    n: usize,
    g_epoch: u64,
    completed: bool,
)
    ensures
        (final(tracker).epoch(), final(tracker).side()) == after_run(
            old(tracker).epoch(),
            old(tracker).side(),
            plan.upload_conductance,
            plan.record_upload_before_commit || completed,
            n,
            g_epoch,
        ),
{
    if plan.upload_conductance && (plan.record_upload_before_commit || completed) {
        tracker.mark_g_uploaded(n, g_epoch);
    }
}

/// An unchanged matrix is not uploaded again: a run on side `n` with a valid
/// matrix epoch `g_epoch`, sized and planned from a GPU copy of any epoch and
/// side, then recorded, leaves a copy for which the next run with the same
/// side and epoch plans no upload.
pub proof fn lemma_unchanged_matrix_not_uploaded_again(
    epoch: u64,
    side: usize,
    n: usize,
    g_epoch: u64,
)
    requires
        g_epoch != INVALID_G_EPOCH,
    ensures
        ({
            let sized = epoch_on_side(epoch, side, n);
            let after = after_run(
                sized,
                side,
                upload_needed(sized, side, n, g_epoch),
                true,
                n,
                g_epoch,
            );
            !upload_needed(epoch_on_side(after.0, after.1, n), after.1, n, g_epoch)
        }),
{
}

/// The check of the vector-returning cascade: on side 0 the result is empty
/// when the matrix and the input are empty (`Ok(true)`), and an `InvalidShape`
/// error otherwise; on any other side the cascade proceeds (`Ok(false)`).
pub fn forward_cascade_is_empty(n: usize, conductance_len: usize, input_len: usize) -> (r: Result<
    bool,
    MetalForwardError,
>)
    ensures
        r == (if n == 0 {
            if input_len == 0 && conductance_len == 0 {
                Ok(true)
            } else {
                Err(MetalForwardError::InvalidShape { n: 0, conductance_len, input_len })
            }
        } else {
            Ok(false)
        }),
{
    if n == 0 {
        if input_len == 0 && conductance_len == 0 {
            return Ok(true);
        }
        return Err(MetalForwardError::InvalidShape { n: 0, conductance_len, input_len });
    }
    Ok(false)
}

/// The kernels are tried in the encoder's order (tiled, batched, one-row
/// simdgroup, scalar), and the first that applies is exactly the reported
/// tier; so at most one of the three special kernels applies.
pub proof fn lemma_encoder_order_matches_tier(n: usize, cascade_pass: bool)
    ensures
        tier_for(n, cascade_pass) == (if cascade_pass && n >= TILED_CASCADE_MIN_N {
            MetalKernelTier::Tiled
        } else if !cascade_pass && n >= SIMD_BATCH_MIN_N {
            MetalKernelTier::SimdgroupBatch
        } else if n >= SIMD_KERNEL_MIN_N && !(!cascade_pass && n >= SIMD_BATCH_MIN_N) && !(
        cascade_pass && n >= TILED_CASCADE_MIN_N) {
            MetalKernelTier::Simdgroup
        } else {
            MetalKernelTier::Scalar
        }),
        !((cascade_pass && n >= TILED_CASCADE_MIN_N) && (!cascade_pass && n >= SIMD_BATCH_MIN_N)),
        cascade_pass ==> tier_for(n, cascade_pass) != MetalKernelTier::SimdgroupBatch,
        !cascade_pass ==> tier_for(n, cascade_pass) != MetalKernelTier::Tiled,
{
}

} // verus!
