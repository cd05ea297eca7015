//! The two kernel code generators: separable-window Gaussian convolution
//! and decision-forest evaluation. Each emits complete WGSL source text,
//! pinned character for character by a spec-level rendering.

use vstd::prelude::*;
use crate::expression::{Expression, Wgsl, spec_binop, spec_call3};
use crate::wgsl_types::{FloatScalar, FloatVec4, IntScalar};
use crate::floatbits::{float_literal, fdiv, fdiv_bits, single_of_u32, single_from_u32};
use crate::gaussian::{
    GaussianBlur, spec_center, spec_weight, weight_matrix, lemma_rowmajor_decompose,
};
use crate::forest::{RandomForest, DecisionTree, spec_tree_wgsl, compile_tree};
use crate::text::{spec_dec, spec_dec_signed, dec_u32};

verus! {

/// The largest supported image extent per axis: a coordinate must fit the
/// kernel language's 32-bit signed integers for the edge clamp.
pub const MAX_DIM: u32 = 0x7fffffff;

/// The value of the three-argument `clamp` the kernels evaluate on sampled
/// coordinates.
pub open spec fn spec_clamp_int(v: int, lo: int, hi: int) -> int {
    if v < lo {
        lo
    } else if v > hi {
        hi
    } else {
        v
    }
}

/// Edge-clamp property: for a pixel anywhere in the image — any corner
/// included — every sampled neighbor coordinate, clamped against
/// `[0, width-1]` and `[0, height-1]` as the emitted `clamp` text does,
/// lies inside the image, whatever the offset.
pub proof fn lemma_edge_clamp_in_bounds(x: int, y: int, dx: int, dy: int, w: int, h: int)
    requires
        0 <= x < w,
        0 <= y < h,
    ensures
        0 <= spec_clamp_int(x + dx, 0, w - 1) < w,
        0 <= spec_clamp_int(y + dy, 0, h - 1) < h,
{
}

/// The clamped sample coordinate text: `clamp((base + d), 0, limit - 1)`.
pub open spec fn spec_coord(base: Seq<char>, d: int, limit: u32) -> Seq<char> {
    spec_call3(
        "clamp"@,
        spec_binop(base, "+"@, spec_dec_signed(d)),
        spec_dec(0),
        spec_dec((limit - 1) as nat),
    )
}

/// The text that samples the input pixel at offset `(dx, dy)` from the
/// invocation's pixel, with both coordinates edge-clamped.
pub open spec fn spec_sample(dx: int, dy: int, width: u32, height: u32) -> Seq<char> {
    "input[(u32("@ + spec_coord("y"@, dy, height) + ") * "@ + spec_dec(width as nat)
        + "u + u32("@ + spec_coord("x"@, dx, width) + "))]"@
}

/// One multiply-accumulate term of the weighted sum: the baked weight
/// literal of cell `(i, j)` times the clamped sample at its offset.
pub open spec fn spec_blur_term(k: GaussianBlur, i: int, j: int, width: u32, height: u32) -> Seq<
    char,
> {
    spec_binop(
        float_literal(spec_weight(k, i, j)),
        "*"@,
        spec_sample(j - spec_center(k.side as int), i - spec_center(k.side as int), width, height),
    )
}

/// The weighted sum over the first `n` window cells in row-major order,
/// folded left with `+`.
pub open spec fn spec_blur_sum(k: GaussianBlur, width: u32, height: u32, n: int) -> Seq<char>
    decreases n,
{
    if n <= 1 {
        spec_blur_term(k, 0, 0, width, height)
    } else {
        spec_binop(
            spec_blur_sum(k, width, height, n - 1),
            "+"@,
            spec_blur_term(k, (n - 1) / k.side as int, (n - 1) % k.side as int, width, height),
        )
    }
}

/// Everything of a blur kernel before the weighted-sum expression.
pub open spec fn spec_blur_preamble(width: u32, height: u32, wx: u32, wy: u32) -> Seq<char> {
    "@group(0) @binding(0) var<storage, read> input: array<vec4<f32>>;\n@group(0) @binding(1) var<storage, read_write> output: array<vec4<f32>>;\n@compute @workgroup_size("@
        + spec_dec(wx as nat) + ", "@ + spec_dec(wy as nat)
        + ", 1)\nfn main(@builtin(global_invocation_id) gid: vec3<u32>) {\n    if (gid.x >= "@
        + spec_dec(width as nat) + "u || gid.y >= "@ + spec_dec(height as nat)
        + "u) {\n        return;\n    }\n    let x = i32(gid.x);\n    let y = i32(gid.y);\n    output[(gid.y * "@
        + spec_dec(width as nat) + "u + gid.x)] = "@
}

/// The complete WGSL source of one convolution pass. It depends on the
/// kernel spec and the fixed pipeline configuration alone — not on the
/// other kernels of the pipeline nor on the pass's position among them.
pub open spec fn spec_blur_source(
    k: GaussianBlur,
    width: u32,
    height: u32,
    wx: u32,
    wy: u32,
) -> Seq<char> {
    spec_blur_preamble(width, height, wx, wy) + spec_blur_sum(
        k,
        width,
        height,
        k.side as int * k.side as int,
    ) + ";\n}\n"@
}

/// Blur-pass order independence: a convolution pass's source text is a
/// function of its own kernel spec and the shared configuration, so
/// permuting the list of kernel specs permutes the generated sources with
/// them — the association changes, never the text of equal specs.
pub proof fn lemma_blur_order_independence(
    ks1: Seq<GaussianBlur>,
    ks2: Seq<GaussianBlur>,
    i: int,
    j: int,
    width: u32,
    height: u32,
    wx: u32,
    wy: u32,
)
    requires
        0 <= i < ks1.len(),
        0 <= j < ks2.len(),
        ks1[i] == ks2[j],
    ensures
        spec_blur_source(ks1[i], width, height, wx, wy) == spec_blur_source(
            ks2[j],
            width,
            height,
            wx,
            wy,
        ),
{
}

fn coord_expr(base: &str, d: i32, limit: u32) -> (r: Expression<IntScalar>)
    requires
        1 <= limit <= MAX_DIM,
    ensures
        r@ == spec_coord(base@, d as int, limit),
{
    let b = Expression::<IntScalar>::new(String::from_str(base));
    let shifted = b.add(&Expression::<IntScalar>::literal(d));
    let lo = Expression::<IntScalar>::literal(0);
    let hi = Expression::<IntScalar>::literal((limit - 1) as i32);
    shifted.clamped(&lo, &hi)
}

fn sample_expr(dx: i32, dy: i32, width: u32, height: u32) -> (r: Expression<FloatVec4>)
    requires
        1 <= width <= MAX_DIM,
        1 <= height <= MAX_DIM,
    ensures
        r@ == spec_sample(dx as int, dy as int, width, height),
{
    let cy = coord_expr("y", dy, height);
    let cx = coord_expr("x", dx, width);
    let mut t = String::from_str("input[(u32(");
    t.append(cy.0.as_str());
    t.append(") * ");
    t.append(dec_u32(width).as_str());
    t.append("u + u32(");
    t.append(cx.0.as_str());
    t.append("))]");
    proof {
        assert(t@ =~= spec_sample(dx as int, dy as int, width, height));
    }
    Expression::<FloatVec4>::new(t)
}

fn blur_term_expr(
    k: &GaussianBlur,
    w: u32,
    i: usize,
    j: usize,
    width: u32,
    height: u32,
) -> (r: Expression<FloatVec4>)
    requires
        k.wf(),
        i < k.side,
        j < k.side,
        w == spec_weight(*k, i as int, j as int),
        1 <= width <= MAX_DIM,
        1 <= height <= MAX_DIM,
    ensures
        r@ == spec_blur_term(*k, i as int, j as int, width, height),
{
    let c = (k.side - 1) / 2;
    proof {
        assert(c <= 23170);
    }
    let dx: i32 = j as i32 - c as i32;
    let dy: i32 = i as i32 - c as i32;
    let wl = Expression::<FloatScalar>::literal(w);
    let s = sample_expr(dx, dy, width, height);
    wl.mul_vec4(&s)
}

/// Generates the complete WGSL source of one convolution pass: the weight
/// matrix is baked in as literals, and every neighbor sample is
/// edge-clamped.
pub fn generate_blur_shader(
    k: &GaussianBlur,
    width: u32,
    height: u32,
    wx: u32,
    wy: u32,
) -> (r: String)
    requires
        k.wf(),
        1 <= width <= MAX_DIM,
        1 <= height <= MAX_DIM,
    ensures
        r@ == spec_blur_source(*k, width, height, wx, wy),
{
    let side = k.side;
    let weights = weight_matrix(k);
    proof {
        assert(1 <= side * side <= 46341 * 46341) by (nonlinear_arith)
            requires 1 <= side <= 46341;
    }
    let count = side * side;
    let mut acc = blur_term_expr(k, weights[0][0], 0, 0, width, height);
    let mut n: usize = 1;
    while n < count
        invariant
            k.wf(),
            side == k.side,
            count == side * side,
            count <= 46341 * 46341,
            1 <= n <= count,
            1 <= width <= MAX_DIM,
            1 <= height <= MAX_DIM,
            weights@.len() == side,
            forall|a: int| 0 <= a < side ==> #[trigger] weights@[a]@.len() == side,
            forall|a: int, b: int|
                0 <= a < side && 0 <= b < side ==> #[trigger] weights@[a]@[b] == spec_weight(
                    *k,
                    a,
                    b,
                ),
            acc@ == spec_blur_sum(*k, width, height, n as int),
        decreases count - n,
    {
        let i = n / side;
        let j = n % side;
        proof {
            assert(n < side * side);
            assert(i < side) by (nonlinear_arith)
                requires 0 < side, n < side * side, i == n / side;
            assert(j < side);
            lemma_rowmajor_decompose(side as int, i as int, j as int);
            assert(i * side + j == n) by (nonlinear_arith)
                requires 0 < side, i == n as int / side as int, j == n as int % side as int;
        }
        let term = blur_term_expr(k, weights[i][j], i, j, width, height);
        acc = acc.add(&term);
        n = n + 1;
    }
    let mut out = String::from_str(
        "@group(0) @binding(0) var<storage, read> input: array<vec4<f32>>;\n@group(0) @binding(1) var<storage, read_write> output: array<vec4<f32>>;\n@compute @workgroup_size(",
    );
    out.append(dec_u32(wx).as_str());
    out.append(", ");
    out.append(dec_u32(wy).as_str());
    out.append(", 1)\nfn main(@builtin(global_invocation_id) gid: vec3<u32>) {\n    if (gid.x >= ");
    out.append(dec_u32(width).as_str());
    out.append("u || gid.y >= ");
    out.append(dec_u32(height).as_str());
    out.append("u) {\n        return;\n    }\n    let x = i32(gid.x);\n    let y = i32(gid.y);\n    output[(gid.y * ");
    out.append(dec_u32(width).as_str());
    out.append("u + gid.x)] = ");
    out.append(acc.0.as_str());
    out.append(";\n}\n");
    proof {
        assert(out@ =~= spec_blur_source(*k, width, height, wx, wy));
    }
    out
}

/// The feature-buffer declarations of the forest kernel: one read-only
/// binding per convolution pass, in order.
pub open spec fn spec_feature_decls(n: int) -> Seq<char>
    decreases n,
{
    if n <= 0 {
        Seq::<char>::empty()
    } else {
        spec_feature_decls(n - 1) + "@group(0) @binding("@ + spec_dec((n - 1) as nat)
            + ") var<storage, read> features_"@ + spec_dec((n - 1) as nat)
            + ": array<vec4<f32>>;\n"@
    }
}

/// The per-pixel feature loads of the forest kernel: one scalar local per
/// feature buffer.
pub open spec fn spec_feature_loads(n: int) -> Seq<char>
    decreases n,
{
    if n <= 0 {
        Seq::<char>::empty()
    } else {
        spec_feature_loads(n - 1) + "    let f"@ + spec_dec((n - 1) as nat) + " = features_"@
            + spec_dec((n - 1) as nat) + "[idx].x;\n"@
    }
}

/// The sum of the branchless per-tree expressions over the first `n`
/// trees, folded left with `+`.
pub open spec fn spec_tree_sum(trees: Seq<DecisionTree>, n: int) -> Seq<char>
    decreases n,
{
    if n <= 1 {
        spec_tree_wgsl(trees[0])
    } else {
        spec_binop(spec_tree_sum(trees, n - 1), "+"@, spec_tree_wgsl(trees[n - 1]))
    }
}

/// The per-pixel output of the forest kernel: the arithmetic mean of all
/// trees' score vectors, as `(1/n * (t0 + ... ))`.
pub open spec fn spec_forest_mean(trees: Seq<DecisionTree>) -> Seq<char> {
    spec_binop(
        float_literal(fdiv_bits(single_of_u32(1), single_of_u32(trees.len() as u32))),
        "*"@,
        spec_tree_sum(trees, trees.len() as int),
    )
}

/// The complete WGSL source of the forest-evaluation pass: one binding per
/// feature buffer, the output binding after them, and one branchless
/// expression per tree, averaged.
pub open spec fn spec_forest_source(
    trees: Seq<DecisionTree>,
    nfeat: int,
    width: u32,
    height: u32,
    wx: u32,
    wy: u32,
) -> Seq<char> {
    spec_feature_decls(nfeat) + "@group(0) @binding("@ + spec_dec(nfeat as nat)
        + ") var<storage, read_write> output: array<vec4<f32>>;\n@compute @workgroup_size("@
        + spec_dec(wx as nat) + ", "@ + spec_dec(wy as nat)
        + ", 1)\nfn main(@builtin(global_invocation_id) gid: vec3<u32>) {\n    if (gid.x >= "@
        + spec_dec(width as nat) + "u || gid.y >= "@ + spec_dec(height as nat)
        + "u) {\n        return;\n    }\n    let idx = (gid.y * "@ + spec_dec(width as nat)
        + "u + gid.x);\n"@ + spec_feature_loads(nfeat) + "    output[idx] = "@
        + spec_forest_mean(trees) + ";\n}\n"@
}

fn feature_decls(n: usize) -> (r: String)
    requires
        n <= 0xffffffff,
    ensures
        r@ == spec_feature_decls(n as int),
{
    let mut out = String::new();
    let mut i: usize = 0;
    while i < n
        invariant
            n <= 0xffffffff,
            i <= n,
            out@ == spec_feature_decls(i as int),
        decreases n - i,
    {
        out.append("@group(0) @binding(");
        out.append(dec_u32(i as u32).as_str());
        out.append(") var<storage, read> features_");
        out.append(dec_u32(i as u32).as_str());
        out.append(": array<vec4<f32>>;\n");
        i = i + 1;
        proof {
            assert(out@ =~= spec_feature_decls(i as int));
        }
    }
    out
}

fn feature_loads(n: usize) -> (r: String)
    requires
        n <= 0xffffffff,
    ensures
        r@ == spec_feature_loads(n as int),
{
    let mut out = String::new();
    let mut i: usize = 0;
    while i < n
        invariant
            n <= 0xffffffff,
            i <= n,
            out@ == spec_feature_loads(i as int),
        decreases n - i,
    {
        out.append("    let f");
        out.append(dec_u32(i as u32).as_str());
        out.append(" = features_");
        out.append(dec_u32(i as u32).as_str());
        out.append("[idx].x;\n");
        i = i + 1;
        proof {
            assert(out@ =~= spec_feature_loads(i as int));
        }
    }
    out
}

/// Generates the complete WGSL source of the forest-evaluation pass.
pub fn generate_forest_shader(
    forest: &RandomForest,
    nfeat: usize,
    width: u32,
    height: u32,
    wx: u32,
    wy: u32,
) -> (r: String)
    requires
        1 <= forest.trees@.len() <= 0xffffffff,
        nfeat <= 0xffffffff,
    ensures
        r@ == spec_forest_source(forest.trees@, nfeat as int, width, height, wx, wy),
{
    let ntrees = forest.trees.len();
    let one = single_from_u32(1);
    let n_bits = single_from_u32(ntrees as u32);
    let coef = Expression::<FloatScalar>::literal(fdiv(one, n_bits));
    let mut sum = compile_tree(&forest.trees[0]);
    let mut t: usize = 1;
    while t < ntrees
        invariant
            ntrees == forest.trees@.len(),
            1 <= t <= ntrees,
            sum@ == spec_tree_sum(forest.trees@, t as int),
        decreases ntrees - t,
    {
        let te = compile_tree(&forest.trees[t]);
        sum = sum.add(&te);
        t = t + 1;
    }
    let mean = coef.mul_vec4(&Expression::<FloatVec4>::new(sum.wgsl()));
    let mut out = feature_decls(nfeat);
    out.append("@group(0) @binding(");
    out.append(dec_u32(nfeat as u32).as_str());
    out.append(") var<storage, read_write> output: array<vec4<f32>>;\n@compute @workgroup_size(");
    out.append(dec_u32(wx).as_str());
    out.append(", ");
    out.append(dec_u32(wy).as_str());
    out.append(", 1)\nfn main(@builtin(global_invocation_id) gid: vec3<u32>) {\n    if (gid.x >= ");
    out.append(dec_u32(width).as_str());
    out.append("u || gid.y >= ");
    out.append(dec_u32(height).as_str());
    out.append("u) {\n        return;\n    }\n    let idx = (gid.y * ");
    out.append(dec_u32(width).as_str());
    out.append("u + gid.x);\n");
    let loads = feature_loads(nfeat);
    out.append(loads.as_str());
    out.append("    output[idx] = ");
    out.append(mean.0.as_str());
    out.append(";\n}\n");
    proof {
        assert(out@ =~= spec_forest_source(forest.trees@, nfeat as int, width, height, wx, wy));
    }
    out
}

} // verus!
