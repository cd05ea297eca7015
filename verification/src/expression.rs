//! The typed expression IR: immutable, type-tagged fragments of WGSL source
//! text. Every composite operation wraps its result in parentheses, so an
//! expression is always a complete, self-contained operand, safe to embed in
//! a larger expression without precedence corruption.

use vstd::prelude::*;
use core::marker::PhantomData;
use crate::wgsl_types::{
    ShaderTypeExt, FloatScalar, IntScalar, UintScalar, FloatVec2, FloatVec3, FloatVec4, UintVec2,
    UintVec3, UintVec4, IntVec2, BoolScalar,
};
use crate::floatbits::{float_literal, float_to_literal};
use crate::text::{spec_dec, spec_dec_signed, dec_u32, dec_i32};

verus! {

/// An immutable, type-tagged WGSL sub-expression: rendered text plus a
/// phantom semantic type.
pub struct Expression<T: ShaderTypeExt>(pub String, pub PhantomData<T>);

impl<T: ShaderTypeExt> View for Expression<T> {
    type V = Seq<char>;

    open spec fn view(&self) -> Seq<char> {
        self.0@
    }
}

/// Anything that renders to WGSL source text.
pub trait Wgsl {
    /// The rendered text.
    spec fn spec_wgsl(&self) -> Seq<char>;

    /// Renders to WGSL source text.
    fn wgsl(&self) -> (r: String)
        ensures
            r@ == self.spec_wgsl(),
    ;
}

impl<T: ShaderTypeExt> Wgsl for Expression<T> {
    open spec fn spec_wgsl(&self) -> Seq<char> {
        self@
    }

    fn wgsl(&self) -> (r: String) {
        self.0.clone()
    }
}

/// The text of a parenthesized binary operation: `(lhs OP rhs)`.
pub open spec fn spec_binop(lhs: Seq<char>, op: Seq<char>, rhs: Seq<char>) -> Seq<char> {
    "("@ + lhs + " "@ + op + " "@ + rhs + ")"@
}

/// The text of a two-argument constructor or call: `f(a, b)`.
pub open spec fn spec_call2(f: Seq<char>, a: Seq<char>, b: Seq<char>) -> Seq<char> {
    f + "("@ + a + ", "@ + b + ")"@
}

/// The text of a three-argument call: `f(a, b, c)`.
pub open spec fn spec_call3(f: Seq<char>, a: Seq<char>, b: Seq<char>, c: Seq<char>) -> Seq<char> {
    f + "("@ + a + ", "@ + b + ", "@ + c + ")"@
}

/// The text of a four-argument call: `f(a, b, c, d)`.
pub open spec fn spec_call4(
    f: Seq<char>,
    a: Seq<char>,
    b: Seq<char>,
    c: Seq<char>,
    d: Seq<char>,
) -> Seq<char> {
    f + "("@ + a + ", "@ + b + ", "@ + c + ", "@ + d + ")"@
}

/// The text of a component access: `base.name`.
pub open spec fn spec_member(base: Seq<char>, name: Seq<char>) -> Seq<char> {
    base + "."@ + name
}

fn binop_text(l: &String, op: &str, r: &String) -> (t: String)
    ensures
        t@ == spec_binop(l@, op@, r@),
{
    let mut t = String::from_str("(");
    t.append(l.as_str());
    t.append(" ");
    t.append(op);
    t.append(" ");
    t.append(r.as_str());
    t.append(")");
    proof {
        assert(t@ =~= spec_binop(l@, op@, r@));
    }
    t
}

fn call2_text(f: String, a: &String, b: &String) -> (t: String)
    ensures
        t@ == spec_call2(f@, a@, b@),
{
    let ghost f0 = f@;
    let mut t = f;
    t.append("(");
    t.append(a.as_str());
    t.append(", ");
    t.append(b.as_str());
    t.append(")");
    proof {
        assert(t@ =~= spec_call2(f0, a@, b@));
    }
    t
}

pub(crate) fn call3_text(f: &str, a: &String, b: &String, c: &String) -> (t: String)
    ensures
        t@ == spec_call3(f@, a@, b@, c@),
{
    let mut t = String::from_str(f);
    t.append("(");
    t.append(a.as_str());
    t.append(", ");
    t.append(b.as_str());
    t.append(", ");
    t.append(c.as_str());
    t.append(")");
    proof {
        assert(t@ =~= spec_call3(f@, a@, b@, c@));
    }
    t
}

fn member_text(base: &String, name: &str) -> (t: String)
    ensures
        t@ == spec_member(base@, name@),
{
    let mut t = base.clone();
    t.append(".");
    t.append(name);
    proof {
        assert(t@ =~= spec_member(base@, name@));
    }
    t
}

impl<T: ShaderTypeExt> Expression<T> {
    /// Wraps already-rendered text as an expression of type `T`.
    pub fn new(code: String) -> (r: Self)
        ensures
            r@ == code@,
    {
        Expression(code, PhantomData)
    }

    /// A fresh expression with the same rendered text (value semantics).
    pub fn dup(&self) -> (r: Self)
        ensures
            r@ == self@,
    {
        Expression(self.0.clone(), PhantomData)
    }

    /// `(self + rhs)`: addition of two operands of the same semantic type.
    pub fn add(&self, rhs: &Expression<T>) -> (r: Expression<T>)
        ensures
            r@ == spec_binop(self@, "+"@, rhs@),
    {
        Expression(binop_text(&self.0, "+", &rhs.0), PhantomData)
    }

    /// `(self - rhs)`: subtraction of two operands of the same semantic type.
    pub fn sub(&self, rhs: &Expression<T>) -> (r: Expression<T>)
        ensures
            r@ == spec_binop(self@, "-"@, rhs@),
    {
        Expression(binop_text(&self.0, "-", &rhs.0), PhantomData)
    }

    /// `(self * rhs)`: multiplication of two operands of the same semantic
    /// type.
    pub fn mul(&self, rhs: &Expression<T>) -> (r: Expression<T>)
        ensures
            r@ == spec_binop(self@, "*"@, rhs@),
    {
        Expression(binop_text(&self.0, "*", &rhs.0), PhantomData)
    }
}

impl Expression<FloatScalar> {
    /// A float literal, from the bit pattern of its value.
    pub fn literal(bits: u32) -> (r: Self)
        ensures
            r@ == float_literal(bits),
    {
        Expression(float_to_literal(bits), PhantomData)
    }

    /// `(self <= rhs)`: the ordering test a `select` branches on.
    pub fn le(&self, rhs: &Expression<FloatScalar>) -> (r: Expression<BoolScalar>)
        ensures
            r@ == spec_binop(self@, "<="@, rhs@),
    {
        Expression(binop_text(&self.0, "<=", &rhs.0), PhantomData)
    }

    /// `(self * rhs)`: a scalar scaling a four-component vector.
    pub fn mul_vec4(&self, rhs: &Expression<FloatVec4>) -> (r: Expression<FloatVec4>)
        ensures
            r@ == spec_binop(self@, "*"@, rhs@),
    {
        Expression(binop_text(&self.0, "*", &rhs.0), PhantomData)
    }
}

impl Expression<UintScalar> {
    /// An unsigned decimal literal.
    pub fn literal(v: u32) -> (r: Self)
        ensures
            r@ == spec_dec(v as nat),
    {
        Expression(dec_u32(v), PhantomData)
    }

    /// Re-tags an unsigned operand as a signed one, text unchanged.
    pub fn as_int(&self) -> (r: Expression<IntScalar>)
        ensures
            r@ == self@,
    {
        Expression(self.0.clone(), PhantomData)
    }
}

impl Expression<IntScalar> {
    /// A signed decimal literal.
    pub fn literal(v: i32) -> (r: Self)
        ensures
            r@ == spec_dec_signed(v as int),
    {
        Expression(dec_i32(v), PhantomData)
    }

    /// `clamp(self, min, max)`: the building block of edge-clamped neighbor
    /// sampling.
    pub fn clamped(&self, min: &Expression<IntScalar>, max: &Expression<IntScalar>) -> (r:
        Expression<IntScalar>)
        ensures
            r@ == spec_call3("clamp"@, self@, min@, max@),
    {
        Expression(call3_text("clamp", &self.0, &min.0, &max.0), PhantomData)
    }
}

impl Expression<IntVec2> {
    /// The `vec2<i32>` constructor applied to two signed operands.
    pub fn construct(x: &Expression<IntScalar>, y: &Expression<IntScalar>) -> (r: Self)
        ensures
            r@ == spec_call2(IntVec2::spec_type_name(), x@, y@),
    {
        Expression(call2_text(IntVec2::wgsl_type_name(), &x.0, &y.0), PhantomData)
    }
}

impl Expression<FloatVec4> {
    /// A `vec4<f32>` literal from the bit patterns of its four components.
    pub fn literal(a: u32, b: u32, c: u32, d: u32) -> (r: Self)
        ensures
            r@ == spec_call4(
                FloatVec4::spec_type_name(),
                float_literal(a),
                float_literal(b),
                float_literal(c),
                float_literal(d),
            ),
    {
        let mut t = FloatVec4::wgsl_type_name();
        t.append("(");
        let la = float_to_literal(a);
        t.append(la.as_str());
        t.append(", ");
        let lb = float_to_literal(b);
        t.append(lb.as_str());
        t.append(", ");
        let lc = float_to_literal(c);
        t.append(lc.as_str());
        t.append(", ");
        let ld = float_to_literal(d);
        t.append(ld.as_str());
        t.append(")");
        proof {
            assert(t@ =~= spec_call4(
                FloatVec4::spec_type_name(),
                float_literal(a),
                float_literal(b),
                float_literal(c),
                float_literal(d),
            ));
        }
        Expression(t, PhantomData)
    }

    /// Component access `.x`.
    pub fn x(&self) -> (r: Expression<FloatScalar>)
        ensures
            r@ == spec_member(self@, "x"@),
    {
        Expression(member_text(&self.0, "x"), PhantomData)
    }

    /// Component access `.y`.
    pub fn y(&self) -> (r: Expression<FloatScalar>)
        ensures
            r@ == spec_member(self@, "y"@),
    {
        Expression(member_text(&self.0, "y"), PhantomData)
    }

    /// Component access `.z`.
    pub fn z(&self) -> (r: Expression<FloatScalar>)
        ensures
            r@ == spec_member(self@, "z"@),
    {
        Expression(member_text(&self.0, "z"), PhantomData)
    }

    /// Component access `.w`.
    pub fn w(&self) -> (r: Expression<FloatScalar>)
        ensures
            r@ == spec_member(self@, "w"@),
    {
        Expression(member_text(&self.0, "w"), PhantomData)
    }

    /// Swizzle `.xyz`.
    pub fn xyz(&self) -> (r: Expression<FloatVec3>)
        ensures
            r@ == spec_member(self@, "xyz"@),
    {
        Expression(member_text(&self.0, "xyz"), PhantomData)
    }
}

impl Expression<FloatVec3> {
    /// A `vec3<f32>` literal from the bit patterns of its three components.
    pub fn literal(a: u32, b: u32, c: u32) -> (r: Self)
        ensures
            r@ == spec_call3(
                FloatVec3::spec_type_name(),
                float_literal(a),
                float_literal(b),
                float_literal(c),
            ),
    {
        let mut t = FloatVec3::wgsl_type_name();
        t.append("(");
        let la = float_to_literal(a);
        t.append(la.as_str());
        t.append(", ");
        let lb = float_to_literal(b);
        t.append(lb.as_str());
        t.append(", ");
        let lc = float_to_literal(c);
        t.append(lc.as_str());
        t.append(")");
        proof {
            assert(t@ =~= spec_call3(
                FloatVec3::spec_type_name(),
                float_literal(a),
                float_literal(b),
                float_literal(c),
            ));
        }
        Expression(t, PhantomData)
    }

    /// `(self * rhs)`: a three-component vector scaled by a float literal,
    /// given as the bit pattern of its value.
    pub fn mul_scalar(&self, bits: u32) -> (r: Expression<FloatVec3>)
        ensures
            r@ == spec_binop(self@, "*"@, float_literal(bits)),
    {
        let lit = float_to_literal(bits);
        Expression(binop_text(&self.0, "*", &lit), PhantomData)
    }

    /// Component access `.x`.
    pub fn x(&self) -> (r: Expression<FloatScalar>)
        ensures
            r@ == spec_member(self@, "x"@),
    {
        Expression(member_text(&self.0, "x"), PhantomData)
    }

    /// Component access `.y`.
    pub fn y(&self) -> (r: Expression<FloatScalar>)
        ensures
            r@ == spec_member(self@, "y"@),
    {
        Expression(member_text(&self.0, "y"), PhantomData)
    }

    /// Component access `.z`.
    pub fn z(&self) -> (r: Expression<FloatScalar>)
        ensures
            r@ == spec_member(self@, "z"@),
    {
        Expression(member_text(&self.0, "z"), PhantomData)
    }

    /// Swizzle `.xy`.
    pub fn xy(&self) -> (r: Expression<FloatVec2>)
        ensures
            r@ == spec_member(self@, "xy"@),
    {
        Expression(member_text(&self.0, "xy"), PhantomData)
    }

    /// Promotion of a three-component vector to four components with a fixed
    /// last component: `vec4(self.xyz, 1)`.
    pub fn xyz1(&self) -> (r: Expression<FloatVec4>)
        ensures
            r@ == "vec4("@ + self@ + ".xyz, 1)"@,
    {
        let mut t = String::from_str("vec4(");
        t.append(self.0.as_str());
        t.append(".xyz, 1)");
        proof {
            assert(t@ =~= "vec4("@ + self@ + ".xyz, 1)"@);
        }
        Expression(t, PhantomData)
    }
}

impl Expression<UintVec4> {
    /// Component access `.x`.
    pub fn x(&self) -> (r: Expression<UintScalar>)
        ensures
            r@ == spec_member(self@, "x"@),
    {
        Expression(member_text(&self.0, "x"), PhantomData)
    }

    /// Component access `.y`.
    pub fn y(&self) -> (r: Expression<UintScalar>)
        ensures
            r@ == spec_member(self@, "y"@),
    {
        Expression(member_text(&self.0, "y"), PhantomData)
    }

    /// Component access `.z`.
    pub fn z(&self) -> (r: Expression<UintScalar>)
        ensures
            r@ == spec_member(self@, "z"@),
    {
        Expression(member_text(&self.0, "z"), PhantomData)
    }

    /// Component access `.w`.
    pub fn w(&self) -> (r: Expression<UintScalar>)
        ensures
            r@ == spec_member(self@, "w"@),
    {
        Expression(member_text(&self.0, "w"), PhantomData)
    }

    /// Swizzle `.xyz`.
    pub fn xyz(&self) -> (r: Expression<UintVec3>)
        ensures
            r@ == spec_member(self@, "xyz"@),
    {
        Expression(member_text(&self.0, "xyz"), PhantomData)
    }
}

impl Expression<UintVec3> {
    /// Component access `.x`.
    pub fn x(&self) -> (r: Expression<UintScalar>)
        ensures
            r@ == spec_member(self@, "x"@),
    {
        Expression(member_text(&self.0, "x"), PhantomData)
    }

    /// Component access `.y`.
    pub fn y(&self) -> (r: Expression<UintScalar>)
        ensures
            r@ == spec_member(self@, "y"@),
    {
        Expression(member_text(&self.0, "y"), PhantomData)
    }

    /// Component access `.z`.
    pub fn z(&self) -> (r: Expression<UintScalar>)
        ensures
            r@ == spec_member(self@, "z"@),
    {
        Expression(member_text(&self.0, "z"), PhantomData)
    }

    /// Swizzle `.xy`.
    pub fn xy(&self) -> (r: Expression<UintVec2>)
        ensures
            r@ == spec_member(self@, "xy"@),
    {
        Expression(member_text(&self.0, "xy"), PhantomData)
    }
}

} // verus!
