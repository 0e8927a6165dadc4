//! What the colour special effects compute, stated over the components
//! they are given: alpha blending and brightness changes.

use vstd::prelude::*;

use crate::lcd::{
    blend_component, brighten_component, darken_component, lemma_rgb555_components, top_two, with_backdrop, Lcd, PixelInfo, Rgb555,
};

verus! {

/// One component of an alpha blend of `a` (weight `ea` sixteenths) over `b`
/// (weight `eb` sixteenths): the result `r` is the weighted sum
/// `a * ea + b * eb` divided by 16 and rounded down (`16 * r` is at most the
/// sum and the sum is under `16 * (r + 1)`), or 31 where the sum reaches
/// `16 * 31`. So a first component at full weight over a second at none is
/// kept, and the other way round.
pub proof fn lemma_blend_component_weights(a: u8, ea: u8, b: u8, eb: u8)
    requires
        a < 32,
        b < 32,
        ea <= 16,
        eb <= 16,
    ensures
        ({
            let r = blend_component(a, ea, b, eb) as int;
            let sum = a * ea + b * eb;
            &&& r <= 31
            &&& sum >= 16 * 31 ==> r == 31
            &&& sum < 16 * 31 ==> 16 * r <= sum < 16 * (r + 1)
            &&& ea == 16 && eb == 0 ==> r == a
            &&& ea == 0 && eb == 16 ==> r == b
        }),
{
    let sum = a * ea + b * eb;
    assert(0 <= sum <= 16 * 31 * 2) by (nonlinear_arith)
        requires
            a < 32,
            b < 32,
            ea <= 16,
            eb <= 16,
            sum == a * ea + b * eb,
    ;
    let q = sum / 16;
    assert(16 * q <= sum < 16 * (q + 1)) by (nonlinear_arith)
        requires
            q == sum / 16,
            sum >= 0,
    ;
    if ea == 16 && eb == 0 {
        assert(sum == a * 16) by (nonlinear_arith)
            requires
                sum == a * ea + b * eb,
                ea == 16,
                eb == 0,
        ;
    }
    if ea == 0 && eb == 16 {
        assert(sum == b * 16) by (nonlinear_arith)
            requires
                sum == a * ea + b * eb,
                ea == 0,
                eb == 16,
        ;
    }
}

/// An alpha blend of two colours at full weight for the first and none for
/// the second gives the first colour's components back.
pub proof fn lemma_blend_keeps_first(first: Rgb555, second: Rgb555)
    ensures
        blend_component(first.spec_red(), 16, second.spec_red(), 0) == first.spec_red(),
        blend_component(first.spec_green(), 16, second.spec_green(), 0) == first.spec_green(),
        blend_component(first.spec_blue(), 16, second.spec_blue(), 0) == first.spec_blue(),
{
    crate::bits::lemma_u16_fields(first.0);
    crate::bits::lemma_u16_fields(second.0);
    lemma_blend_component_weights(first.spec_red(), 16, second.spec_red(), 0);
    lemma_blend_component_weights(first.spec_green(), 16, second.spec_green(), 0);
    lemma_blend_component_weights(first.spec_blue(), 16, second.spec_blue(), 0);
}

/// Brightening moves a component `coeff` sixteenths of the way to white
/// (31), rounded down: `16 * (r - c)` is at most `(31 - c) * coeff` and that
/// is under `16 * (r - c + 1)`; at 0 the component is kept, at 16 it is 31.
pub proof fn lemma_brighten_component(c: u8, coeff: u8)
    requires
        c < 32,
        coeff <= 16,
    ensures
        ({
            let r = brighten_component(c, coeff) as int;
            &&& c <= r <= 31
            &&& 16 * (r - c) <= (31 - c) * coeff < 16 * (r - c + 1)
            &&& coeff == 0 ==> r == c
            &&& coeff == 16 ==> r == 31
        }),
{
    let p = (31 - c) * coeff;
    assert(0 <= p <= (31 - c) * 16) by (nonlinear_arith)
        requires
            c < 32,
            coeff <= 16,
            p == (31 - c) * coeff,
    ;
    let q = p / 16;
    assert(16 * q <= p < 16 * (q + 1)) by (nonlinear_arith)
        requires
            q == p / 16,
            p >= 0,
    ;
    assert(q <= 31 - c) by (nonlinear_arith)
        requires
            16 * q <= p,
            p <= (31 - c) * 16,
    ;
}

/// Darkening takes `coeff` sixteenths of a component away, rounded down:
/// `16 * (c - r)` is at most `c * coeff` and that is under
/// `16 * (c - r + 1)`; at 0 the component is kept, at 16 it is 0.
pub proof fn lemma_darken_component(c: u8, coeff: u8)
    requires
        c < 32,
        coeff <= 16,
    ensures
        ({
            let r = darken_component(c, coeff) as int;
            &&& 0 <= r <= c
            &&& 16 * (c - r) <= c * coeff < 16 * (c - r + 1)
            &&& coeff == 0 ==> r == c
            &&& coeff == 16 ==> r == 0
        }),
{
    let p = c * coeff;
    assert(0 <= p <= c * 16) by (nonlinear_arith)
        requires
            c < 32,
            coeff <= 16,
            p == c * coeff,
    ;
    let q = p / 16;
    assert(16 * q <= p < 16 * (q + 1)) by (nonlinear_arith)
        requires
            q == p / 16,
            p >= 0,
    ;
    assert(q <= c) by (nonlinear_arith)
        requires
            16 * q <= p,
            p <= c * 16,
    ;
}

/// With alpha blending selected and the first target weighted 16/16 and the
/// second 0/16, every pixel keeps the colour of its top layer (or of the
/// backdrop): the first target carries the first coefficient.
pub proof fn lemma_alpha_full_first_weight(
    lcd: Lcd,
    effects_displayed: bool,
    sprite: Option<PixelInfo>,
    l0: Option<PixelInfo>,
    l1: Option<PixelInfo>,
    l2: Option<PixelInfo>,
    l3: Option<PixelInfo>,
)
    requires
        (lcd.color_effects_selection >> 6u16) & 3u16 == 1,
        lcd.alpha_coefficients & 0x1Fu16 == 16,
        (lcd.alpha_coefficients >> 8u16) & 0x1Fu16 == 0,
    ensures
        ({
            let (first, second) = top_two(seq![sprite, l0, l1, l2, l3]);
            let (c1, t1) = with_backdrop(first, lcd.bg_palette_ram@[0]);
            let r = lcd.spec_resolve_pixel(effects_displayed, sprite, l0, l1, l2, l3);
            &&& r.spec_red() == c1.spec_red()
            &&& r.spec_green() == c1.spec_green()
            &&& r.spec_blue() == c1.spec_blue()
        }),
{
    let (first, second) = top_two(seq![sprite, l0, l1, l2, l3]);
    let (c1, t1) = with_backdrop(first, lcd.bg_palette_ram@[0]);
    let (c2, t2) = with_backdrop(second, lcd.bg_palette_ram@[0]);
    lemma_blend_keeps_first(c1, c2);
    crate::bits::lemma_u16_fields(c1.0);
    lemma_rgb555_components(c1.spec_red(), c1.spec_green(), c1.spec_blue());
}

} // verus!
