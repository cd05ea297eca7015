//! Forest metadata and branchless tree compilation.

use feature_extractor_pipeline::expression::Wgsl;
use feature_extractor_pipeline::forest::{compile_tree, DecisionTree, RandomForest};
use rustc_apfloat::Float;

/// The library's float-literal spelling, reproduced independently.
fn lit(v: f32) -> String {
    format!("{}", rustc_apfloat::ieee::Single::from_bits(v.to_bits() as u128))
}

fn leaf(scores: [f32; 4]) -> DecisionTree {
    DecisionTree::Leaf { scores: scores.map(|s| s.to_bits()) }
}

fn split(feature_index: u32, threshold: f32, left: DecisionTree, right: DecisionTree) -> DecisionTree {
    DecisionTree::Split {
        feature_index,
        threshold_bits: threshold.to_bits(),
        left: Box::new(left),
        right: Box::new(right),
    }
}

#[test]
fn highest_feature_idx_is_sentinel_without_splits() {
    let empty = RandomForest { trees: vec![] };
    assert_eq!(empty.highest_feature_idx(), -1);
    let leaves = RandomForest { trees: vec![leaf([1.0, 0.0, 0.0, 0.0]), leaf([0.0, 1.0, 0.0, 0.0])] };
    assert_eq!(leaves.highest_feature_idx(), -1);
}

#[test]
fn highest_feature_idx_is_the_maximum_over_all_splits() {
    let t1 = split(2, 0.5, leaf([1.0, 0.0, 0.0, 0.0]), leaf([0.0, 1.0, 0.0, 0.0]));
    let t2 = split(
        7,
        1.5,
        split(3, 0.25, leaf([1.0, 0.0, 0.0, 0.0]), leaf([0.0, 1.0, 0.0, 0.0])),
        leaf([0.0, 0.0, 1.0, 0.0]),
    );
    let forest = RandomForest { trees: vec![t1, t2] };
    assert_eq!(forest.highest_feature_idx(), 7);
}

#[test]
fn leaf_compiles_to_its_score_vector() {
    let e = compile_tree(&leaf([1.0, 0.0, 0.0, 0.0]));
    let expected = format!(
        "vec4<f32>({}, {}, {}, {})",
        lit(1.0),
        lit(0.0),
        lit(0.0),
        lit(0.0)
    );
    assert_eq!(e.wgsl(), expected);
}

#[test]
fn split_compiles_to_branchless_select() {
    let t = split(0, 5.0, leaf([1.0, 0.0, 0.0, 0.0]), leaf([0.0, 1.0, 0.0, 0.0]));
    let e = compile_tree(&t);
    let l = format!("vec4<f32>({}, {}, {}, {})", lit(1.0), lit(0.0), lit(0.0), lit(0.0));
    let r = format!("vec4<f32>({}, {}, {}, {})", lit(0.0), lit(1.0), lit(0.0), lit(0.0));
    let expected = format!("select({r}, {l}, (f0 <= {}))", lit(5.0));
    assert_eq!(e.wgsl(), expected);
}

#[test]
fn nested_split_compiles_depth_first() {
    let inner = split(1, 0.5, leaf([1.0, 0.0, 0.0, 0.0]), leaf([0.0, 1.0, 0.0, 0.0]));
    let t = split(0, 2.0, inner, leaf([0.0, 0.0, 1.0, 0.0]));
    let e = compile_tree(&t);
    let a = format!("vec4<f32>({}, {}, {}, {})", lit(1.0), lit(0.0), lit(0.0), lit(0.0));
    let b = format!("vec4<f32>({}, {}, {}, {})", lit(0.0), lit(1.0), lit(0.0), lit(0.0));
    let c = format!("vec4<f32>({}, {}, {}, {})", lit(0.0), lit(0.0), lit(1.0), lit(0.0));
    let inner_text = format!("select({b}, {a}, (f1 <= {}))", lit(0.5));
    let expected = format!("select({c}, {inner_text}, (f0 <= {}))", lit(2.0));
    assert_eq!(e.wgsl(), expected);
}
