use vstd::prelude::*;

verus! {

/// Alpha is held as a fraction of this scale: `ALPHA_ONE` is fully opaque.
pub const ALPHA_ONE: u32 = 1_000_000;

/// A straight (not premultiplied) sRGB colour with an alpha channel.
///
/// `alpha` is a fixed-point fraction in millionths, so a colour is valid when
/// `alpha <= ALPHA_ONE`.
#[derive(Clone, Copy, Debug, PartialEq, Eq, Structural)]
pub struct RgbaColor {
    pub red: u8,
    pub green: u8,
    pub blue: u8,
    pub alpha: u32,
}

/// The rasterizer's native colour: 8-bit alpha with premultiplied channels.
#[derive(Clone, Copy, Debug, PartialEq, Eq, Structural)]
pub struct PremultipliedColor {
    pub r: u8,
    pub g: u8,
    pub b: u8,
    pub a: u8,
}

impl RgbaColor {
    pub open spec fn wf(self) -> bool {
        self.alpha <= ALPHA_ONE
    }
}

/// `round(alpha * 255)` for an alpha given in millionths (halves round up).
pub open spec fn alpha8_of(alpha: u32) -> int {
    (alpha * 255 + ALPHA_ONE / 2) / (ALPHA_ONE as int)
}

/// The rasterizer's fixed-point `a * b / 255`, rounded to nearest.
pub open spec fn muldiv255(a: u8, b: u8) -> u8 {
    let t = a * b + 128;
    ((t + t / 256) / 256) as u8
}

/// Premultiplication of a straight colour channel by an 8-bit alpha.
pub open spec fn premultiplied_of(a: u8, r: u8, g: u8, b: u8) -> PremultipliedColor {
    PremultipliedColor { r: muldiv255(a, r), g: muldiv255(a, g), b: muldiv255(a, b), a }
}

/// The native colour that a valid straight colour converts to.
pub open spec fn native_of(c: RgbaColor) -> PremultipliedColor {
    premultiplied_of(alpha8_of(c.alpha) as u8, c.red, c.green, c.blue)
}

/// The 8-bit alpha channel: `round(alpha * 255)`.
pub fn alpha8(alpha: u32) -> (r: u8)
    requires
        alpha <= ALPHA_ONE,
    ensures
        r as int == alpha8_of(alpha),
        alpha == 0 ==> r == 0,
        alpha == ALPHA_ONE ==> r == 255,
{
    let wide: u64 = alpha as u64 * 255 + (ALPHA_ONE / 2) as u64;
    assert(wide / (ALPHA_ONE as u64) <= 255) by (nonlinear_arith)
        requires
            wide == alpha * 255 + 500_000,
            alpha <= 1_000_000,
    ;
    (wide / (ALPHA_ONE as u64)) as u8
}

/// Relies on raqote's `SolidSource::from_unpremultiplied_argb`: alpha is kept
/// and each colour channel is scaled by it with `muldiv255`.
#[verifier::external_body]
fn solid_from_argb(a: u8, r: u8, g: u8, b: u8) -> (s: PremultipliedColor)
    ensures
        s == premultiplied_of(a, r, g, b),
{
    let s = raqote::SolidSource::from_unpremultiplied_argb(a, r, g, b);
    PremultipliedColor { r: s.r, g: s.g, b: s.b, a: s.a }
}

/// Converts a straight colour to the rasterizer's solid source colour.
pub fn conv_color(color: &RgbaColor) -> (r: PremultipliedColor)
    requires
        color.wf(),
    ensures
        r == native_of(*color),
{
    let a = alpha8(color.alpha);
    solid_from_argb(a, color.red, color.green, color.blue)
}

/// Conversion is deterministic: equal colours always give equal native values.
pub proof fn lemma_conversion_deterministic(c: RgbaColor, d: RgbaColor)
    requires
        c.wf(),
        d.wf(),
        c == d,
    ensures
        native_of(c) == native_of(d),
        native_of(c).a as int == alpha8_of(c.alpha),
{
    let t = c.alpha * 255 + 500_000;
    assert(t / 1_000_000 <= 255) by (nonlinear_arith)
        requires
            t == c.alpha * 255 + 500_000,
            c.alpha <= 1_000_000,
    ;
    assert(t / 1_000_000 >= 0) by (nonlinear_arith)
        requires
            t >= 0,
    ;
}

} // verus!
