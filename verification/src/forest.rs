//! Decision trees and forests, and their branchless compilation into one
//! `select`-based WGSL expression per tree.

use vstd::prelude::*;
use crate::expression::{Expression, spec_binop, spec_call3, spec_call4, call3_text};
use crate::wgsl_types::{ShaderTypeExt, FloatVec4, FloatScalar};
use crate::floatbits::float_literal;
use crate::text::{spec_dec, dec_u32};

verus! {

/// A node of a decision tree: an internal threshold test on one feature, or
/// a leaf carrying a four-component score vector (components as
/// single-precision bit patterns).
pub enum DecisionTree {
    Split {
        feature_index: u32,
        threshold_bits: u32,
        left: Box<DecisionTree>,
        right: Box<DecisionTree>,
    },
    Leaf { scores: [u32; 4] },
}

/// An ordered sequence of decision trees, immutable once loaded.
pub struct RandomForest {
    pub trees: Vec<DecisionTree>,
}

/// The set of feature indices referenced by the Split nodes of a tree.
pub open spec fn spec_tree_features(t: DecisionTree) -> Set<int>
    decreases t,
{
    match t {
        DecisionTree::Leaf { .. } => Set::empty(),
        DecisionTree::Split { feature_index, left, right, .. } => spec_tree_features(
            *left,
        ).union(spec_tree_features(*right)).insert(feature_index as int),
    }
}

/// The highest feature index referenced by any Split node of a tree, or the
/// sentinel -1 when the tree is a single leaf.
pub open spec fn spec_tree_highest(t: DecisionTree) -> int
    decreases t,
{
    match t {
        DecisionTree::Leaf { .. } => -1,
        DecisionTree::Split { feature_index, left, right, .. } => {
            let l = spec_tree_highest(*left);
            let r = spec_tree_highest(*right);
            let m = if l >= r {
                l
            } else {
                r
            };
            if feature_index as int >= m {
                feature_index as int
            } else {
                m
            }
        },
    }
}

/// The set of feature indices referenced by the first `n` trees.
pub open spec fn spec_forest_features_upto(trees: Seq<DecisionTree>, n: int) -> Set<int>
    decreases n,
{
    if n <= 0 {
        Set::empty()
    } else {
        spec_forest_features_upto(trees, n - 1).union(spec_tree_features(trees[n - 1]))
    }
}

/// The highest feature index referenced by the first `n` trees, or -1.
pub open spec fn spec_forest_highest_upto(trees: Seq<DecisionTree>, n: int) -> int
    decreases n,
{
    if n <= 0 {
        -1
    } else {
        let prev = spec_forest_highest_upto(trees, n - 1);
        let cur = spec_tree_highest(trees[n - 1]);
        if cur >= prev {
            cur
        } else {
            prev
        }
    }
}

/// The highest feature index referenced anywhere in a forest, or -1 when the
/// forest is empty or has no Split node.
pub open spec fn spec_forest_highest(f: RandomForest) -> int {
    spec_forest_highest_upto(f.trees@, f.trees@.len() as int)
}

/// The set of feature indices referenced anywhere in a forest.
pub open spec fn spec_forest_features(f: RandomForest) -> Set<int> {
    spec_forest_features_upto(f.trees@, f.trees@.len() as int)
}

fn tree_highest(t: &DecisionTree) -> (r: i64)
    ensures
        r == spec_tree_highest(*t),
    decreases *t,
{
    match t {
        DecisionTree::Leaf { .. } => -1,
        DecisionTree::Split { feature_index, left, right, .. } => {
            let l = tree_highest(left);
            let r = tree_highest(right);
            let mut m: i64 = *feature_index as i64;
            if l > m {
                m = l;
            }
            if r > m {
                m = r;
            }
            m
        },
    }
}

impl RandomForest {
    /// The highest feature index found across every Split node in every
    /// tree, or the sentinel -1 when the forest has no Split; used to
    /// validate that enough convolution kernels exist to supply every
    /// feature the forest references.
    pub fn highest_feature_idx(&self) -> (r: i64)
        ensures
            r == spec_forest_highest(*self),
    {
        let mut m: i64 = -1;
        let mut i: usize = 0;
        while i < self.trees.len()
            invariant
                0 <= i <= self.trees@.len(),
                m == spec_forest_highest_upto(self.trees@, i as int),
            decreases self.trees@.len() - i,
        {
            let cur = tree_highest(&self.trees[i]);
            if cur > m {
                m = cur;
            }
            i = i + 1;
        }
        m
    }
}

proof fn lemma_tree_highest_is_max(t: DecisionTree)
    ensures
        forall|x: int| spec_tree_features(t).contains(x) ==> x <= spec_tree_highest(t),
        spec_tree_highest(t) == -1 <==> spec_tree_features(t).is_empty(),
        spec_tree_highest(t) != -1 ==> spec_tree_features(t).contains(spec_tree_highest(t)),
    decreases t,
{
    match t {
        DecisionTree::Leaf { .. } => {
            assert(spec_tree_features(t).is_empty());
        },
        DecisionTree::Split { feature_index, left, right, .. } => {
            lemma_tree_highest_is_max(*left);
            lemma_tree_highest_is_max(*right);
            assert(spec_tree_features(t).contains(feature_index as int));
        },
    }
}

proof fn lemma_forest_highest_upto_is_max(trees: Seq<DecisionTree>, n: int)
    requires
        0 <= n <= trees.len(),
    ensures
        forall|x: int|
            spec_forest_features_upto(trees, n).contains(x) ==> x <= spec_forest_highest_upto(
                trees,
                n,
            ),
        spec_forest_highest_upto(trees, n) == -1 <==> spec_forest_features_upto(
            trees,
            n,
        ).is_empty(),
        spec_forest_highest_upto(trees, n) != -1 ==> spec_forest_features_upto(
            trees,
            n,
        ).contains(spec_forest_highest_upto(trees, n)),
    decreases n,
{
    if n > 0 {
        lemma_forest_highest_upto_is_max(trees, n - 1);
        lemma_tree_highest_is_max(trees[n - 1]);
    }
}

/// The highest feature index of a forest is exactly the maximum feature
/// index over all its Split nodes: it bounds every referenced index, it is
/// itself referenced unless it is the sentinel, and it is the sentinel -1
/// exactly when no Split node exists.
pub proof fn lemma_highest_feature_idx_is_max(f: RandomForest)
    ensures
        forall|x: int| spec_forest_features(f).contains(x) ==> x <= spec_forest_highest(f),
        spec_forest_highest(f) == -1 <==> spec_forest_features(f).is_empty(),
        spec_forest_highest(f) != -1 ==> spec_forest_features(f).contains(spec_forest_highest(f)),
{
    lemma_forest_highest_upto_is_max(f.trees@, f.trees@.len() as int);
}

/// The WGSL text of the branchless compilation of a tree: a Split becomes
/// `select(right, left, (fN <= threshold))` and a Leaf becomes its literal
/// score vector.
pub open spec fn spec_tree_wgsl(t: DecisionTree) -> Seq<char>
    decreases t,
{
    match t {
        DecisionTree::Leaf { scores } => spec_call4(
            FloatVec4::spec_type_name(),
            float_literal(scores[0]),
            float_literal(scores[1]),
            float_literal(scores[2]),
            float_literal(scores[3]),
        ),
        DecisionTree::Split { feature_index, threshold_bits, left, right } => spec_call3(
            "select"@,
            spec_tree_wgsl(*right),
            spec_tree_wgsl(*left),
            spec_binop("f"@ + spec_dec(feature_index as nat), "<="@, float_literal(threshold_bits)),
        ),
    }
}

/// The WGSL text that reads feature number `i` of the per-pixel feature
/// vector: the local `fN` the kernel preamble declares.
pub fn feature_ref(i: u32) -> (r: Expression<FloatScalar>)
    ensures
        r@ == "f"@ + spec_dec(i as nat),
{
    let mut t = String::from_str("f");
    t.append(dec_u32(i).as_str());
    proof {
        assert(t@ =~= "f"@ + spec_dec(i as nat));
    }
    Expression::<FloatScalar>::new(t)
}

/// Compiles one tree into a single branchless expression by a pure
/// recursive fold.
pub fn compile_tree(t: &DecisionTree) -> (r: Expression<FloatVec4>)
    ensures
        r@ == spec_tree_wgsl(*t),
    decreases *t,
{
    match t {
        DecisionTree::Leaf { scores } => Expression::<FloatVec4>::literal(
            scores[0],
            scores[1],
            scores[2],
            scores[3],
        ),
        DecisionTree::Split { feature_index, threshold_bits, left, right } => {
            let le = compile_tree(left);
            let re = compile_tree(right);
            let cond = feature_ref(*feature_index).le(
                &Expression::<FloatScalar>::literal(*threshold_bits),
            );
            let t = call3_text("select", &re.0, &le.0, &cond.0);
            Expression::<FloatVec4>::new(t)
        },
    }
}

} // verus!
