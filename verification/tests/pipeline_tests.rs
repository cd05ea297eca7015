//! Plan construction: validation outcomes, generated pass sources,
//! dispatch-grid and buffer sizing.

use feature_extractor_pipeline::forest::{DecisionTree, RandomForest};
use feature_extractor_pipeline::gaussian::GaussianBlur;
use feature_extractor_pipeline::pipeline::{PipelineError, PipelinePlan, WorkgroupSize};
use rustc_apfloat::Float;

fn lit(v: f32) -> String {
    format!("{}", rustc_apfloat::ieee::Single::from_bits(v.to_bits() as u128))
}

fn radial_table(side: usize, sigma: f32) -> Vec<u32> {
    let c = (side - 1) / 2;
    (0..=(2 * c * c))
        .map(|d2| (-(d2 as f32) / (2.0 * sigma * sigma)).exp().to_bits())
        .collect()
}

fn blur(side: usize, sigma: f32) -> GaussianBlur {
    GaussianBlur { side, sigma_bits: sigma.to_bits(), radial: radial_table(side, sigma) }
}

fn leaf(scores: [f32; 4]) -> DecisionTree {
    DecisionTree::Leaf { scores: scores.map(|s| s.to_bits()) }
}

fn split(feature_index: u32, threshold: f32, left: DecisionTree, right: DecisionTree) -> DecisionTree {
    DecisionTree::Split {
        feature_index,
        threshold_bits: threshold.to_bits(),
        left: Box::new(left),
        right: Box::new(right),
    }
}

fn wg(x: u32, y: u32, z: u32) -> WorkgroupSize {
    WorkgroupSize { x, y, z }
}

fn single_leaf_forest() -> RandomForest {
    RandomForest { trees: vec![leaf([1.0, 0.0, 0.0, 0.0])] }
}

#[test]
fn feature_index_beyond_kernels_fails_validation() {
    // A forest referencing feature index 3 with only 2 kernels configured.
    let forest = RandomForest {
        trees: vec![split(3, 0.5, leaf([1.0, 0.0, 0.0, 0.0]), leaf([0.0, 1.0, 0.0, 0.0]))],
    };
    let r = PipelinePlan::new(wg(16, 16, 1), vec![blur(1, 0.5), blur(1, 1.0)], &forest, 4, 4);
    match r.err() {
        Some(PipelineError::FeatureIndexOutOfRange { highest, num_kernels }) => {
            assert_eq!(highest, 3);
            assert_eq!(num_kernels, 2);
        },
        other => panic!("expected a feature-index validation error, got {other:?}"),
    }
}

#[test]
fn empty_forest_fails_validation() {
    let forest = RandomForest { trees: vec![] };
    let r = PipelinePlan::new(wg(16, 16, 1), vec![blur(1, 0.5)], &forest, 4, 4);
    assert_eq!(r.err(), Some(PipelineError::EmptyForest));
}

#[test]
fn bad_workgroup_fails_validation() {
    let r = PipelinePlan::new(wg(16, 0, 1), vec![blur(1, 0.5)], &single_leaf_forest(), 4, 4);
    assert_eq!(r.err(), Some(PipelineError::InvalidWorkgroup));
    let r = PipelinePlan::new(wg(16, 16, 2), vec![blur(1, 0.5)], &single_leaf_forest(), 4, 4);
    assert_eq!(r.err(), Some(PipelineError::InvalidWorkgroup));
}

#[test]
fn zero_extent_fails_validation() {
    let r = PipelinePlan::new(wg(16, 16, 1), vec![blur(1, 0.5)], &single_leaf_forest(), 0, 4);
    assert_eq!(r.err(), Some(PipelineError::InvalidExtent { width: 0, height: 4 }));
}

#[test]
fn oversized_extent_fails_validation() {
    // A coordinate beyond the kernel language's signed 32-bit range.
    let r = PipelinePlan::new(
        wg(16, 16, 1),
        vec![blur(1, 0.5)],
        &single_leaf_forest(),
        0x80000000,
        4,
    );
    assert_eq!(r.err(), Some(PipelineError::InvalidExtent { width: 0x80000000, height: 4 }));
    // An extent whose four-channel float buffer exceeds the address space.
    let r = PipelinePlan::new(
        wg(16, 16, 1),
        vec![blur(1, 0.5)],
        &single_leaf_forest(),
        0x7fffffff,
        0x7fffffff,
    );
    assert_eq!(
        r.err(),
        Some(PipelineError::InvalidExtent { width: 0x7fffffff, height: 0x7fffffff })
    );
}

#[test]
fn malformed_kernel_fails_validation_at_its_position() {
    let bad = GaussianBlur { side: 2, sigma_bits: 1.0f32.to_bits(), radial: vec![] };
    let r = PipelinePlan::new(
        wg(16, 16, 1),
        vec![blur(1, 0.5), bad],
        &single_leaf_forest(),
        4,
        4,
    );
    assert_eq!(r.err(), Some(PipelineError::InvalidKernel { index: 1 }));
}

#[test]
fn plan_sizes_follow_the_extent_and_workgroup() {
    let plan = PipelinePlan::new(wg(2, 2, 1), vec![blur(1, 0.5)], &single_leaf_forest(), 5, 3)
        .expect("valid configuration");
    assert_eq!(plan.dispatch_x, 3); // ceil(5 / 2)
    assert_eq!(plan.dispatch_y, 2); // ceil(3 / 2)
    assert_eq!(plan.buffer_len_bytes, 5 * 3 * 16);
    assert_eq!(plan.pixel_count(), 15);
    assert!(plan.validate_image(15).is_ok());
    assert_eq!(
        plan.validate_image(16).err(),
        Some(PipelineError::ImageSizeMismatch { expected: 15, actual: 16 })
    );
}

#[test]
fn identity_blur_source_is_exact() {
    let plan = PipelinePlan::new(wg(2, 2, 1), vec![blur(1, 0.5)], &single_leaf_forest(), 4, 1)
        .expect("valid configuration");
    assert_eq!(plan.blur_sources.len(), 1);
    let term = format!(
        "({} * input[(u32(clamp((y + 0), 0, 0)) * 4u + u32(clamp((x + 0), 0, 3)))])",
        lit(1.0)
    );
    let expected = format!(
        "@group(0) @binding(0) var<storage, read> input: array<vec4<f32>>;\n\
         @group(0) @binding(1) var<storage, read_write> output: array<vec4<f32>>;\n\
         @compute @workgroup_size(2, 2, 1)\n\
         fn main(@builtin(global_invocation_id) gid: vec3<u32>) {{\n\
         \x20   if (gid.x >= 4u || gid.y >= 1u) {{\n\
         \x20       return;\n\
         \x20   }}\n\
         \x20   let x = i32(gid.x);\n\
         \x20   let y = i32(gid.y);\n\
         \x20   output[(gid.y * 4u + gid.x)] = {term};\n\
         }}\n"
    );
    assert_eq!(plan.blur_sources[0], expected);
}

#[test]
fn blur_sample_coordinates_are_edge_clamped() {
    // A 3x3 window on a 4x4 image: every sampled coordinate is wrapped in a
    // clamp against [0, dimension - 1], so even corner pixels stay inside.
    let plan = PipelinePlan::new(wg(2, 2, 1), vec![blur(3, 1.0)], &single_leaf_forest(), 4, 4)
        .expect("valid configuration");
    let src = &plan.blur_sources[0];
    for d in ["-1", "0", "1"] {
        assert!(src.contains(&format!("clamp((x + {d}), 0, 3)")));
        assert!(src.contains(&format!("clamp((y + {d}), 0, 3)")));
    }
    assert!(!src.contains("(x + 2)"));
    assert!(!src.contains("(y + 2)"));
}

#[test]
fn single_leaf_forest_source_is_exact() {
    // Constant-image scenario: with one tree that is a single Leaf, the
    // per-pixel output text is the mean of that one score vector.
    let plan = PipelinePlan::new(wg(2, 2, 1), vec![blur(1, 0.5)], &single_leaf_forest(), 2, 2)
        .expect("valid configuration");
    let mean = format!(
        "({} * vec4<f32>({}, {}, {}, {}))",
        lit(1.0),
        lit(1.0),
        lit(0.0),
        lit(0.0),
        lit(0.0)
    );
    let expected = format!(
        "@group(0) @binding(0) var<storage, read> features_0: array<vec4<f32>>;\n\
         @group(0) @binding(1) var<storage, read_write> output: array<vec4<f32>>;\n\
         @compute @workgroup_size(2, 2, 1)\n\
         fn main(@builtin(global_invocation_id) gid: vec3<u32>) {{\n\
         \x20   if (gid.x >= 2u || gid.y >= 2u) {{\n\
         \x20       return;\n\
         \x20   }}\n\
         \x20   let idx = (gid.y * 2u + gid.x);\n\
         \x20   let f0 = features_0[idx].x;\n\
         \x20   output[idx] = {mean};\n\
         }}\n"
    );
    assert_eq!(plan.forest_source, expected);
}

#[test]
fn threshold_split_forest_reads_its_feature() {
    // Threshold-split scenario: one Split on feature 0 with threshold 5;
    // scores [1,0,0,0] on the low side, [0,1,0,0] on the high side.
    let forest = RandomForest {
        trees: vec![split(0, 5.0, leaf([1.0, 0.0, 0.0, 0.0]), leaf([0.0, 1.0, 0.0, 0.0]))],
    };
    let plan = PipelinePlan::new(wg(2, 2, 1), vec![blur(1, 0.5)], &forest, 4, 1)
        .expect("valid configuration");
    let low = format!("vec4<f32>({}, {}, {}, {})", lit(1.0), lit(0.0), lit(0.0), lit(0.0));
    let high = format!("vec4<f32>({}, {}, {}, {})", lit(0.0), lit(1.0), lit(0.0), lit(0.0));
    let tree = format!("select({high}, {low}, (f0 <= {}))", lit(5.0));
    let mean = format!("({} * {tree})", lit(1.0));
    assert!(plan.forest_source.contains(&format!("    output[idx] = {mean};\n")));
    assert!(plan.forest_source.contains("    let f0 = features_0[idx].x;\n"));
}

#[test]
fn multi_tree_mean_halves_two_leaves() {
    // Multi-tree averaging: two single-Leaf trees, so the output text
    // scales their sum by one half.
    let forest = RandomForest {
        trees: vec![leaf([1.0, 0.0, 0.0, 0.0]), leaf([0.0, 1.0, 0.0, 0.0])],
    };
    let plan = PipelinePlan::new(wg(2, 2, 1), vec![blur(1, 0.5)], &forest, 2, 2)
        .expect("valid configuration");
    let a = format!("vec4<f32>({}, {}, {}, {})", lit(1.0), lit(0.0), lit(0.0), lit(0.0));
    let b = format!("vec4<f32>({}, {}, {}, {})", lit(0.0), lit(1.0), lit(0.0), lit(0.0));
    let mean = format!("({} * ({a} + {b}))", lit(0.5));
    assert!(plan.forest_source.contains(&format!("    output[idx] = {mean};\n")));
}

#[test]
fn permuting_kernels_permutes_sources_without_changing_them() {
    // Blur-pass order independence: each pass's source depends on its own
    // kernel spec alone, so swapping the specs swaps the sources.
    let ka = blur(3, 0.7);
    let kb = blur(5, 1.6);
    let forest = single_leaf_forest();
    let plan1 = PipelinePlan::new(wg(4, 4, 1), vec![ka, kb], &forest, 8, 8)
        .expect("valid configuration");
    let ka = blur(3, 0.7);
    let kb = blur(5, 1.6);
    let plan2 = PipelinePlan::new(wg(4, 4, 1), vec![kb, ka], &forest, 8, 8)
        .expect("valid configuration");
    assert_eq!(plan1.blur_sources[0], plan2.blur_sources[1]);
    assert_eq!(plan1.blur_sources[1], plan2.blur_sources[0]);
    assert_ne!(plan1.blur_sources[0], plan1.blur_sources[1]);
    // The forest pass, which depends on the number of kernels but not their
    // order, is unchanged.
    assert_eq!(plan1.forest_source, plan2.forest_source);
}
