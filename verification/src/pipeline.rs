//! The pipeline orchestrator's decisions: validation, kernel-source
//! generation, buffer sizing and dispatch-grid sizing, all fixed at
//! construction. A host executes the plan against a compute device: one
//! independent pass per convolution kernel, a barrier, then the
//! forest-evaluation pass, and a final read-back.

use vstd::prelude::*;
use crate::gaussian::GaussianBlur;
use crate::forest::{RandomForest, spec_forest_highest};
use crate::shader::{
    MAX_DIM, spec_blur_source, spec_forest_source, generate_blur_shader, generate_forest_shader,
};

verus! {

/// The fixed tile of parallel execution lanes each dispatch step covers
/// per dimension; the third extent is 1 for these 2-D passes.
pub struct WorkgroupSize {
    pub x: u32,
    pub y: u32,
    pub z: u32,
}

impl WorkgroupSize {
    /// A usable workgroup shape for a 2-D pass.
    pub open spec fn wf(&self) -> bool {
        self.x >= 1 && self.y >= 1 && self.z == 1
    }
}

/// A construction or `process` validation failure. Backend failures
/// (compilation, allocation, mapping) surface in the host layer that
/// executes the plan.
#[derive(Debug, PartialEq, Eq)]
pub enum PipelineError {
    /// The workgroup shape has a zero extent, or its third extent is not 1.
    InvalidWorkgroup,
    /// A zero, oversized or unallocatable image extent.
    InvalidExtent { width: u32, height: u32 },
    /// A kernel spec that is not well formed, at the first such position.
    InvalidKernel { index: usize },
    /// A forest with no trees has no per-pixel mean.
    EmptyForest,
    /// The forest references a feature with no corresponding kernel.
    FeatureIndexOutOfRange { highest: i64, num_kernels: usize },
    /// A host image whose pixel count does not match the configured extent.
    ImageSizeMismatch { expected: usize, actual: usize },
}

/// The ceiling of `a / b`.
pub open spec fn spec_ceil_div(a: int, b: int) -> int {
    (a + b - 1) / b
}

/// The index of the first kernel spec at or after `i` that is not well
/// formed, or the list's length when all are.
pub open spec fn spec_first_bad_kernel_from(ks: Seq<GaussianBlur>, i: int) -> int
    decreases ks.len() - i,
{
    if i < 0 || i >= ks.len() {
        ks.len() as int
    } else if !ks[i].wf() {
        i
    } else {
        spec_first_bad_kernel_from(ks, i + 1)
    }
}

/// Whether an extent is usable: nonzero, within coordinate range, and with
/// a four-channel float buffer size the host can address.
pub open spec fn spec_extent_ok(width: u32, height: u32) -> bool {
    &&& 1 <= width <= MAX_DIM
    &&& 1 <= height <= MAX_DIM
    &&& width as int * height as int * 16 <= usize::MAX as int
}

/// The validation outcome construction is committed to: the first failing
/// check, in checking order, or nothing when the configuration is valid.
pub open spec fn spec_validation_error(
    wg: WorkgroupSize,
    ks: Seq<GaussianBlur>,
    f: RandomForest,
    width: u32,
    height: u32,
) -> Option<PipelineError> {
    if !wg.wf() {
        Some(PipelineError::InvalidWorkgroup)
    } else if !spec_extent_ok(width, height) {
        Some(PipelineError::InvalidExtent { width, height })
    } else if spec_first_bad_kernel_from(ks, 0) < ks.len() {
        Some(PipelineError::InvalidKernel { index: spec_first_bad_kernel_from(ks, 0) as usize })
    } else if f.trees@.len() == 0 {
        Some(PipelineError::EmptyForest)
    } else if spec_forest_highest(f) >= ks.len() {
        Some(
            PipelineError::FeatureIndexOutOfRange {
                highest: spec_forest_highest(f) as i64,
                num_kernels: ks.len() as usize,
            },
        )
    } else {
        None
    }
}

/// Everything the host needs to run the two-stage dispatch: the generated
/// pass sources in order, the dispatch grid, and the common size of the
/// input, feature and output buffers. Built once, reused across `process`
/// calls.
pub struct PipelinePlan {
    pub width: u32,
    pub height: u32,
    pub workgroup: WorkgroupSize,
    pub kernels: Vec<GaussianBlur>,
    pub blur_sources: Vec<String>,
    pub forest_source: String,
    pub dispatch_x: u32,
    pub dispatch_y: u32,
    pub buffer_len_bytes: usize,
}

proof fn lemma_first_bad_prefix(ks: Seq<GaussianBlur>, i: int)
    requires
        0 <= i <= ks.len(),
        forall|j: int| 0 <= j < i ==> (#[trigger] ks[j]).wf(),
    ensures
        spec_first_bad_kernel_from(ks, 0) == spec_first_bad_kernel_from(ks, i),
    decreases i,
{
    if i > 0 {
        lemma_first_bad_prefix(ks, i - 1);
        assert(ks[i - 1].wf());
    }
}

impl PipelinePlan {
    /// Validates the configuration, generates every pass's source text, and
    /// fixes buffer and dispatch-grid sizes. Succeeds exactly when
    /// validation passes, and fails with the first failing check's error:
    /// in particular, a forest referencing a feature index with no
    /// corresponding kernel is rejected here, before any device work.
    pub fn new(
        workgroup: WorkgroupSize,
        kernels: Vec<GaussianBlur>,
        forest: &RandomForest,
        width: u32,
        height: u32,
    ) -> (r: Result<PipelinePlan, PipelineError>)
        requires
            kernels@.len() <= 0xffffffff,
            forest.trees@.len() <= 0xffffffff,
        ensures
            match r {
                Ok(p) => {
                    &&& spec_validation_error(workgroup, kernels@, *forest, width, height)
                        is None
                    &&& p.width == width
                    &&& p.height == height
                    &&& p.workgroup == workgroup
                    &&& p.kernels@ == kernels@
                    &&& p.blur_sources@.len() == kernels@.len()
                    &&& forall|i: int|
                        0 <= i < kernels@.len() ==> (#[trigger] p.blur_sources@[i])@
                            == spec_blur_source(
                            kernels@[i],
                            width,
                            height,
                            workgroup.x,
                            workgroup.y,
                        )
                    &&& p.forest_source@ == spec_forest_source(
                        forest.trees@,
                        kernels@.len() as int,
                        width,
                        height,
                        workgroup.x,
                        workgroup.y,
                    )
                    &&& p.dispatch_x == spec_ceil_div(width as int, workgroup.x as int)
                    &&& p.dispatch_y == spec_ceil_div(height as int, workgroup.y as int)
                    &&& p.buffer_len_bytes == width as int * height as int * 16
                },
                Err(e) => spec_validation_error(workgroup, kernels@, *forest, width, height)
                    == Some(e),
            },
    {
        if !(workgroup.x >= 1 && workgroup.y >= 1 && workgroup.z == 1) {
            return Err(PipelineError::InvalidWorkgroup);
        }
        proof {
            assert(width as int * height as int <= 0xffffffff * 0xffffffff) by (nonlinear_arith)
                requires width as int <= 0xffffffff, height as int <= 0xffffffff;
        }
        let bytes: u128 = width as u128 * height as u128 * 16;
        if !(1 <= width && width <= MAX_DIM && 1 <= height && height <= MAX_DIM && bytes
            <= usize::MAX as u128) {
            return Err(PipelineError::InvalidExtent { width, height });
        }
        proof {
            assert(workgroup.wf());
            assert(width as int * height as int * 16 == bytes as int);
            assert(spec_extent_ok(width, height));
        }
        let mut i: usize = 0;
        while i < kernels.len()
            invariant
                workgroup.wf(),
                spec_extent_ok(width, height),
                i <= kernels@.len(),
                forall|j: int| 0 <= j < i ==> (#[trigger] kernels@[j]).wf(),
            decreases kernels@.len() - i,
        {
            if !kernels[i].is_wf() {
                proof {
                    lemma_first_bad_prefix(kernels@, i as int);
                }
                return Err(PipelineError::InvalidKernel { index: i });
            }
            i = i + 1;
        }
        proof {
            lemma_first_bad_prefix(kernels@, kernels@.len() as int);
        }
        if forest.trees.len() == 0 {
            return Err(PipelineError::EmptyForest);
        }
        let highest = forest.highest_feature_idx();
        if highest >= kernels.len() as i64 {
            return Err(
                PipelineError::FeatureIndexOutOfRange {
                    highest,
                    num_kernels: kernels.len(),
                },
            );
        }
        let mut blur_sources: Vec<String> = Vec::new();
        let mut n: usize = 0;
        while n < kernels.len()
            invariant
                n <= kernels@.len(),
                1 <= width <= MAX_DIM,
                1 <= height <= MAX_DIM,
                forall|j: int| 0 <= j < kernels@.len() ==> (#[trigger] kernels@[j]).wf(),
                blur_sources@.len() == n,
                forall|j: int|
                    0 <= j < n ==> (#[trigger] blur_sources@[j])@ == spec_blur_source(
                        kernels@[j],
                        width,
                        height,
                        workgroup.x,
                        workgroup.y,
                    ),
            decreases kernels@.len() - n,
        {
            let src = generate_blur_shader(&kernels[n], width, height, workgroup.x, workgroup.y);
            blur_sources.push(src);
            n = n + 1;
        }
        let forest_source = generate_forest_shader(
            forest,
            kernels.len(),
            width,
            height,
            workgroup.x,
            workgroup.y,
        );
        proof {
            assert((width as int + workgroup.x as int - 1) / (workgroup.x as int) <= width as int)
                by (nonlinear_arith)
                requires 1 <= width as int, 1 <= workgroup.x as int;
            assert((height as int + workgroup.y as int - 1) / (workgroup.y as int)
                <= height as int) by (nonlinear_arith)
                requires 1 <= height as int, 1 <= workgroup.y as int;
        }
        let dispatch_x = ((width as u64 + workgroup.x as u64 - 1) / (workgroup.x as u64)) as u32;
        let dispatch_y = ((height as u64 + workgroup.y as u64 - 1) / (workgroup.y as u64)) as u32;
        Ok(
            PipelinePlan {
                width,
                height,
                workgroup,
                kernels,
                blur_sources,
                forest_source,
                dispatch_x,
                dispatch_y,
                buffer_len_bytes: bytes as usize,
            },
        )
    }

    /// The number of pixels every pass covers and the read-back returns.
    pub fn pixel_count(&self) -> (r: usize)
        requires
            spec_extent_ok(self.width, self.height),
        ensures
            r == self.width as int * self.height as int,
    {
        proof {
            assert(self.width as int * self.height as int * 16 <= usize::MAX as int);
            assert(0 <= self.width as int * self.height as int) by (nonlinear_arith);
            assert(self.width as int * self.height as int <= self.width as int * self.height as int
                * 16) by (nonlinear_arith);
        }
        (self.width as u64 * self.height as u64) as usize
    }

    /// Checks a host image against the configured extent before any upload:
    /// succeeds exactly when its pixel count matches.
    pub fn validate_image(&self, pixel_count: usize) -> (r: Result<(), PipelineError>)
        requires
            spec_extent_ok(self.width, self.height),
        ensures
            match r {
                Ok(()) => pixel_count == self.width as int * self.height as int,
                Err(e) => {
                    &&& pixel_count != self.width as int * self.height as int
                    &&& e == (PipelineError::ImageSizeMismatch {
                        expected: (self.width as int * self.height as int) as usize,
                        actual: pixel_count,
                    })
                },
            },
    {
        let expected = self.pixel_count();
        if pixel_count == expected {
            Ok(())
        } else {
            Err(PipelineError::ImageSizeMismatch { expected, actual: pixel_count })
        }
    }
}

} // verus!
