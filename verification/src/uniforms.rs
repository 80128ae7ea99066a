//! Shader uniform values: transform, color, projection, and generic
//! caller-named scalars and 2D vectors.
//!
//! A uniform is a named, shader-global input bound per draw call.  The
//! library builds uniform values exactly — a transform is the list of
//! operations that compose it, a projection is its viewport size, a color is
//! three scalar bit patterns — and the unverified interpreter turns each into
//! the matrix or vector the driver expects.

use vstd::arithmetic::power2::{lemma2_to64, lemma_pow2_adds, lemma_pow2_strictly_increases, pow2};
use vstd::prelude::*;

use crate::ScalarBits;

verus! {

/// One step in the composition of a transform matrix.  A transform is the
/// identity matrix multiplied on the right by each operation in order.
#[derive(Clone, Copy, Debug, PartialEq, Eq, Structural)]
pub enum TransformOp {
    /// Translation by `(x, y, 0)`.
    Translate { x: ScalarBits, y: ScalarBits },
    /// Rotation about the z axis by `angle` radians.
    Rotate { angle: ScalarBits },
}

/// The value of the `transform` uniform: a 4x4 matrix, represented exactly as
/// the sequence of operations multiplied onto the identity.
#[derive(Clone, Debug)]
pub struct TransformUniforms {
    ops: Vec<TransformOp>,
}

impl View for TransformUniforms {
    type V = Seq<TransformOp>;

    closed spec fn view(&self) -> Seq<TransformOp> {
        self.ops@
    }
}

impl TransformUniforms {
    /// The identity transform: no operations applied.
    pub fn new() -> (r: TransformUniforms)
        ensures
            r@ == Seq::<TransformOp>::empty(),
    {
        TransformUniforms { ops: Vec::new() }
    }

    /// Multiplies a translation by `(x, y, 0)` onto the transform.
    pub fn translate(&mut self, x: ScalarBits, y: ScalarBits)
        ensures
            final(self)@ == old(self)@.push(TransformOp::Translate { x, y }),
    {
        self.ops.push(TransformOp::Translate { x, y });
    }

    /// Multiplies a rotation about the z axis by `angle` radians onto the
    /// transform.
    pub fn rotate(&mut self, angle: ScalarBits)
        ensures
            final(self)@ == old(self)@.push(TransformOp::Rotate { angle }),
    {
        self.ops.push(TransformOp::Rotate { angle });
    }

    /// The operations composing this transform, oldest first.
    pub fn ops(&self) -> (r: &Vec<TransformOp>)
        ensures
            r@ == self@,
    {
        &self.ops
    }
}

/// The value of the `ucolor` uniform: an RGB triple of single-precision
/// scalars, each carried as its bit pattern.
#[derive(Clone, Copy, Debug, PartialEq, Eq, Structural)]
pub struct ColorUniforms {
    pub r: ScalarBits,
    pub g: ScalarBits,
    pub b: ScalarBits,
}

impl ColorUniforms {
    /// A color from three raw scalar channels.
    pub fn new(r: ScalarBits, g: ScalarBits, b: ScalarBits) -> (c: ColorUniforms)
        ensures
            c == (ColorUniforms { r, g, b }),
    {
        ColorUniforms { r, g, b }
    }

    /// A color from three 8-bit channels, each normalized to the
    /// single-precision scalar nearest to its value over 255, so that 0
    /// maps to zero and 255 to one (see [`lemma_unorm8_endpoints`]).
    pub fn new_from_8(r: u8, g: u8, b: u8) -> (c: ColorUniforms)
        ensures
            c.r.0 == unorm8_bits(r as int),
            c.g.0 == unorm8_bits(g as int),
            c.b.0 == unorm8_bits(b as int),
    {
        ColorUniforms { r: unorm8_to_bits(r), g: unorm8_to_bits(g), b: unorm8_to_bits(b) }
    }
}

/// The number of doublings that bring a channel byte `v` into the interval
/// [255, 510); the scalar v/255 then lies in [2^-s, 2^(1-s)) for s
/// doublings.
pub open spec fn unorm_shift(v: int) -> nat
    decreases (if v < 255 { 255 - v } else { 0 }),
{
    if 1 <= v && v < 255 {
        (1 + unorm_shift(2 * v)) as nat
    } else {
        0
    }
}

/// The bit pattern of the single-precision scalar nearest to b/255, for a
/// channel byte b (a tie cannot arise because 255 is odd).  With
/// s = unorm_shift(b), the value b/255 lies in [2^-s, 2^(1-s)), its 24-bit
/// mantissa is b*2^(23+s)/255 rounded to nearest, and the biased exponent
/// is 127 - s, plus one if rounding carried the mantissa up to 2^24.
pub open spec fn unorm8_bits(b: int) -> int {
    if b <= 0 {
        0
    } else {
        let s = unorm_shift(b) as int;
        let n = b * (pow2((23 + s) as nat) as int);
        let q = n / 255;
        let m = if 2 * (n % 255) > 255 {
            q + 1
        } else {
            q
        };
        if m == pow2(24) {
            (128 - s) * (pow2(23) as int)
        } else {
            (127 - s) * (pow2(23) as int) + (m - pow2(23))
        }
    }
}

/// Encodes the channel byte `b` as the single-precision scalar nearest to
/// b/255, computed exactly in integer arithmetic.
pub fn unorm8_to_bits(b: u8) -> (r: ScalarBits)
    ensures
        r.0 == unorm8_bits(b as int),
{
    if b == 0 {
        return ScalarBits(0);
    }
    proof {
        lemma2_to64();
    }
    let mut v: u32 = b as u32;
    let mut sh: u32 = 0;
    while v < 255
        invariant
            1 <= v < 510,
            sh <= 8,
            v == b as int * pow2(sh as nat),
            unorm_shift(b as int) == sh + unorm_shift(v as int),
        decreases 510 - v,
    {
        proof {
            lemma2_to64();
            assert(unorm_shift(v as int) == 1 + unorm_shift(2 * v as int));
            lemma_pow2_adds(sh as nat, 1);
            assert(pow2((sh + 1) as nat) == 2 * pow2(sh as nat));
            assert(b as int * (pow2((sh + 1) as nat) as int) == 2 * (b as int * (pow2(
                sh as nat,
            ) as int))) by (nonlinear_arith)
                requires
                    pow2((sh + 1) as nat) == 2 * pow2(sh as nat),
            ;
            assert(pow2(sh as nat) <= v) by (nonlinear_arith)
                requires
                    v == b as int * pow2(sh as nat),
                    b >= 1,
            ;
            if sh >= 8 {
                if sh > 8 {
                    lemma_pow2_strictly_increases(8, sh as nat);
                }
                assert(pow2(sh as nat) >= 256);
                assert(false);
            }
        }
        v = v * 2;
        sh = sh + 1;
    }
    proof {
        assert(unorm_shift(v as int) == 0);
        assert(sh == unorm_shift(b as int));
    }
    let n: u64 = (v as u64) * 8388608;
    let q: u64 = n / 255;
    let rem: u64 = n % 255;
    let m: u64 = if 2 * rem > 255 {
        q + 1
    } else {
        q
    };
    proof {
        assert(n >= 255 * 8388608);
        assert(n < 510 * 8388608);
        assert(q >= 8388608);
        assert(q < 16777216);
    }
    let bits: u32 = if m == 16777216 {
        (128 - sh) * 8388608
    } else {
        (127 - sh) * 8388608 + (m as u32 - 8388608)
    };
    proof {
        lemma2_to64();
        lemma_pow2_adds(23, sh as nat);
        assert(b as int * (pow2((23 + sh as nat)) as int) == (v as int) * 8388608)
            by (nonlinear_arith)
            requires
                v == b as int * pow2(sh as nat),
                pow2((23 + sh as nat)) == pow2(23) * pow2(sh as nat),
                pow2(23) == 8388608,
        ;
        assert((23 + unorm_shift(b as int) as int) as nat == 23 + sh as nat);
        assert(n == b as int * (pow2((23 + unorm_shift(b as int) as int) as nat) as int));
    }
    ScalarBits(bits)
}

/// Law: full black maps to the zero scalar on every channel, and full
/// white to the scalar one (bit pattern 0x3F80_0000): normalizing 0 gives
/// 0.0 and normalizing 255 gives exactly 1.0.
pub proof fn lemma_unorm8_endpoints()
    ensures
        unorm8_bits(0) == 0,
        unorm8_bits(255) == 0x3F80_0000,
{
    lemma2_to64();
    assert(unorm_shift(255) == 0);
    assert(255 * (pow2(23) as int) == 2139095040);
    assert(2139095040int / 255 == 8388608);
    assert(2139095040int % 255 == 0);
    assert(unorm8_bits(255) == 127 * (pow2(23) as int) + (8388608 - pow2(23)));
}

/// The value of the `projection` uniform: the orthographic projection for a
/// viewport of `width` by `height` pixels, with the origin at the top-left
/// corner and the y axis pointing down.
///
/// The projection maps pixel coordinates to clip coordinates:
/// `clip_x = (2 * x - width) / width` and `clip_y = (height - 2 * y) / height`.
/// The library states this mapping exactly over integers (see
/// [`ortho_maps_x`] and [`ortho_maps_y`]); the interpreter realizes it as the
/// matrix `ortho(0, width, height, 0, 0, 1)`.
#[derive(Clone, Copy, Debug, PartialEq, Eq, Structural)]
pub struct ProjectionUniforms {
    pub width: u32,
    pub height: u32,
}

/// The orthographic projection for viewport width `w` maps pixel column `x`
/// to clip coordinate `cx` exactly when `cx == (2 * x - w) / w`, stated
/// without division.
pub open spec fn ortho_maps_x(w: int, x: int, cx: int) -> bool {
    2 * x - w == cx * w
}

/// The orthographic projection for viewport height `h` maps pixel row `y` to
/// clip coordinate `cy` exactly when `cy == (h - 2 * y) / h`, stated without
/// division.  The sign flip relative to [`ortho_maps_x`] is the downward
/// y axis.
pub open spec fn ortho_maps_y(h: int, y: int, cy: int) -> bool {
    h - 2 * y == cy * h
}

impl ProjectionUniforms {
    /// The orthographic projection for a viewport of `size.0` by `size.1`
    /// pixels.
    pub fn new(size: (u32, u32)) -> (p: ProjectionUniforms)
        ensures
            p.width == size.0,
            p.height == size.1,
    {
        ProjectionUniforms { width: size.0, height: size.1 }
    }
}

/// The projection maps the viewport's top-left pixel `(0, 0)` to the
/// top-left corner `(-1, 1)` of clip space, and its bottom-right pixel
/// `(w, h)` to the bottom-right corner `(1, -1)`: the y axis is flipped.
pub proof fn lemma_ortho_maps_corners(w: int, h: int)
    requires
        w > 0,
        h > 0,
    ensures
        ortho_maps_x(w, 0, -1),
        ortho_maps_y(h, 0, 1),
        ortho_maps_x(w, w, 1),
        ortho_maps_y(h, h, -1),
{
}

/// A 2D-vector uniform under a caller-chosen name (the radial gradient's
/// `center`).
#[derive(Clone, Debug)]
pub struct GenericVec2Uniform {
    pub name: String,
    pub x: ScalarBits,
    pub y: ScalarBits,
}

impl GenericVec2Uniform {
    /// A 2D-vector uniform named `name` with value `value`.
    pub fn new(name: String, value: (ScalarBits, ScalarBits)) -> (u: GenericVec2Uniform)
        ensures
            u.name@ == name@,
            u.x == value.0,
            u.y == value.1,
    {
        GenericVec2Uniform { name, x: value.0, y: value.1 }
    }
}

/// A scalar uniform under a caller-chosen name (the radial gradient's
/// `range`).
#[derive(Clone, Debug)]
pub struct GenericFloatUniform {
    pub name: String,
    pub value: ScalarBits,
}

impl GenericFloatUniform {
    /// A scalar uniform named `name` with value `value`.
    pub(crate) fn new(name: String, value: ScalarBits) -> (u: GenericFloatUniform)
        ensures
            u.name@ == name@,
            u.value == value,
    {
        GenericFloatUniform { name, value }
    }
}

/// One uniform binding of a draw call: a value together with the shader
/// uniform name it is bound to (see [`uniform_name`]).
#[derive(Clone, Debug)]
pub enum Uniforms {
    Transform(TransformUniforms),
    Color(ColorUniforms),
    Projection(ProjectionUniforms),
    Vec2(GenericVec2Uniform),
    Float(GenericFloatUniform),
}

/// The shader uniform name a binding is applied to.  Transform, color and
/// projection values go to fixed names expected by the shaders; generic
/// values carry their own name.
pub open spec fn uniform_name(u: Uniforms) -> Seq<char> {
    match u {
        Uniforms::Transform(_) => "transform"@,
        Uniforms::Color(_) => "ucolor"@,
        Uniforms::Projection(_) => "projection"@,
        Uniforms::Vec2(v) => v.name@,
        Uniforms::Float(f) => f.name@,
    }
}

} // verus!
