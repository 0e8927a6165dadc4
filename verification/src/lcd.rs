use vstd::prelude::*;

use crate::bits::{bit_of_u16, get_bit_u16, lemma_with_bit_u16, set_bit_u16, with_bit_u16};
use crate::data_access::DataAccess;

pub mod effects;
pub mod frame;

verus! {

pub const LCD_WIDTH: usize = 240;

pub const LCD_HEIGHT: usize = 160;

/// Dots per scanline, including the horizontal blank.
pub const DOTS_PER_LINE: u16 = 308;

/// Scanlines per frame, including the vertical blank.
pub const LINES_PER_FRAME: u16 = 228;

pub const VRAM_SIZE: usize = 0x18000;

pub const OAM_OBJECT_COUNT: usize = 0x80;

pub const OAM_ROTATION_COUNT: usize = 0x20;

pub const PALETTE_COLORS: usize = 0x100;

#[derive(Clone, Copy, Debug, PartialEq, Eq, Structural)]
pub enum LcdState {
    Visible,
    HBlank,
    VBlank,
}

/// What happened during one LCD step.
#[derive(Clone, Copy, Debug, PartialEq, Eq, Structural)]
pub struct LcdStateChangeInfo {
    pub vblank_entered: bool,
    pub hblank_entered: bool,
    pub vcount_matched: bool,
}

#[derive(Clone, Copy, Debug, PartialEq, Eq, Structural)]
pub enum BgModeType {
    TileMode,
    BitmapMode,
    Invalid,
}

#[derive(Clone, Copy, Debug, PartialEq, Eq, Structural)]
pub enum BgMode {
    Mode0,
    Mode1,
    Mode2,
    Mode3,
    Mode4,
    Mode5,
    Invalid,
}

impl BgMode {
    pub open spec fn spec_type(self) -> BgModeType {
        match self {
            BgMode::Mode0 | BgMode::Mode1 | BgMode::Mode2 => BgModeType::TileMode,
            BgMode::Mode3 | BgMode::Mode4 | BgMode::Mode5 => BgModeType::BitmapMode,
            BgMode::Invalid => BgModeType::Invalid,
        }
    }

    pub fn get_type(self) -> (r: BgModeType)
        ensures
            r == self.spec_type(),
    {
        match self {
            BgMode::Mode0 | BgMode::Mode1 | BgMode::Mode2 => BgModeType::TileMode,
            BgMode::Mode3 | BgMode::Mode4 | BgMode::Mode5 => BgModeType::BitmapMode,
            BgMode::Invalid => BgModeType::Invalid,
        }
    }
}

#[derive(Clone, Copy, Debug, PartialEq, Eq, Structural)]
pub enum PixelType {
    Layer0,
    Layer1,
    Layer2,
    Layer3,
    Sprite,
    Backdrop,
}

#[derive(Clone, Copy, Debug, PartialEq, Eq, Structural)]
pub struct PixelInfo {
    pub priority: u16,
    pub color: Rgb555,
    pub pixel_type: PixelType,
}

#[derive(Clone, Copy, Debug, PartialEq, Eq, Structural)]
pub struct SpritePixelInfo {
    pub pixel_info: PixelInfo,
    pub semi_transparent: bool,
}

#[derive(Clone, Copy, Debug, PartialEq, Eq, Structural)]
pub struct SpritePixelQueryInfo {
    pub sprite_pixel_info: Option<SpritePixelInfo>,
    pub obj_window: bool,
}

#[derive(Clone, Copy, Debug, PartialEq, Eq, Structural)]
pub enum ColorSpecialEffect {
    NoEffect,
    AlphaBlending,
    BrightnessIncrease,
    BrightnessDecrease,
}

#[derive(Clone, Copy, Debug, PartialEq, Eq, Structural)]
pub enum PaletteDepth {
    FourBit,
    EightBit,
}

#[derive(Clone, Copy, Debug, PartialEq, Eq, Structural)]
pub enum ObjectShape {
    Square,
    Horizontal,
    Vertical,
    Prohibited,
}

#[derive(Clone, Copy, Debug, PartialEq, Eq, Structural)]
pub enum ObjMode {
    Normal,
    SemiTransparent,
    ObjWindow,
    Prohibited,
}

#[derive(Clone, Copy, Debug, PartialEq, Eq, Structural)]
pub enum ObjectTileMapping {
    OneDimensional,
    TwoDimensional,
}

#[derive(Clone, Copy, Debug, PartialEq, Eq, Structural)]
pub struct DisplayedSelectionInfo {
    pub bg0_displayed: bool,
    pub bg1_displayed: bool,
    pub bg2_displayed: bool,
    pub bg3_displayed: bool,
    pub obj_displayed: bool,
    pub effects_displayed: bool,
}

/// A 15-bit color: red in bits 0-4, green in bits 5-9, blue in bits 10-14.
#[derive(Clone, Copy, Debug, PartialEq, Eq, Structural)]
pub struct Rgb555(pub u16);

pub open spec fn rgb555_value(red: u8, green: u8, blue: u8) -> u16 {
    ((red as u16) & 0x1Fu16) | (((green as u16) & 0x1Fu16) << 5u16) | (((blue as u16) & 0x1Fu16)
        << 10u16)
}

impl Rgb555 {
    pub open spec fn spec_red(self) -> u8 {
        (self.0 & 0x1Fu16) as u8
    }

    pub open spec fn spec_green(self) -> u8 {
        ((self.0 >> 5u16) & 0x1Fu16) as u8
    }

    pub open spec fn spec_blue(self) -> u8 {
        ((self.0 >> 10u16) & 0x1Fu16) as u8
    }

    pub fn new(red: u8, green: u8, blue: u8) -> (r: Self)
        ensures
            r.0 == rgb555_value(red, green, blue),
    {
        Rgb555(((red as u16) & 0x1F) | (((green as u16) & 0x1F) << 5u16) | (((blue as u16) & 0x1F)
            << 10u16))
    }

    pub fn to_int(self) -> (r: u16)
        ensures
            r == self.0,
    {
        self.0
    }

    pub fn from_int(val: u16) -> (r: Self)
        ensures
            r.0 == val,
    {
        Rgb555(val)
    }

    pub fn red(&self) -> (r: u8)
        ensures
            r == self.spec_red(),
            r < 32,
    {
        let v = self.0;
        assert(v & 0x1Fu16 < 32) by {
            crate::bits::lemma_u16_fields(v);
        }
        (self.0 & 0x1F) as u8
    }

    pub fn green(&self) -> (r: u8)
        ensures
            r == self.spec_green(),
            r < 32,
    {
        let v = self.0;
        assert((v >> 5u16) & 0x1Fu16 < 32) by {
            crate::bits::lemma_u16_fields(v);
        }
        ((self.0 >> 5u16) & 0x1F) as u8
    }

    pub fn blue(&self) -> (r: u8)
        ensures
            r == self.spec_blue(),
            r < 32,
    {
        let v = self.0;
        assert((v >> 10u16) & 0x1Fu16 < 32) by {
            crate::bits::lemma_u16_fields(v);
        }
        ((self.0 >> 10u16) & 0x1F) as u8
    }

    /// The weighted sum `self * coeff_self / 16 + other * coeff_other / 16`
    /// of each component, saturated at 31.
    pub fn blend(self, coeff_self: u8, other: Rgb555, coeff_other: u8) -> (r: Self)
        requires
            coeff_self <= 16,
            coeff_other <= 16,
        ensures
            r.spec_red() == blend_component(self.spec_red(), coeff_self, other.spec_red(), coeff_other),
            r.spec_green() == blend_component(
                self.spec_green(),
                coeff_self,
                other.spec_green(),
                coeff_other,
            ),
            r.spec_blue() == blend_component(
                self.spec_blue(),
                coeff_self,
                other.spec_blue(),
                coeff_other,
            ),
            r == Rgb555(
                rgb555_value(
                    blend_component(self.spec_red(), coeff_self, other.spec_red(), coeff_other),
                    blend_component(self.spec_green(), coeff_self, other.spec_green(), coeff_other),
                    blend_component(self.spec_blue(), coeff_self, other.spec_blue(), coeff_other),
                ),
            ),
    {
        let red = blend_component_exec(self.red(), coeff_self, other.red(), coeff_other);
        let green = blend_component_exec(self.green(), coeff_self, other.green(), coeff_other);
        let blue = blend_component_exec(self.blue(), coeff_self, other.blue(), coeff_other);
        let r = Rgb555::new(red, green, blue);
        proof {
            lemma_rgb555_components(red, green, blue);
        }
        r
    }
}

/// Packing three 5-bit components and reading them back gives them back.
pub proof fn lemma_rgb555_components(red: u8, green: u8, blue: u8)
    requires
        red < 32,
        green < 32,
        blue < 32,
    ensures
        Rgb555(rgb555_value(red, green, blue)).spec_red() == red,
        Rgb555(rgb555_value(red, green, blue)).spec_green() == green,
        Rgb555(rgb555_value(red, green, blue)).spec_blue() == blue,
{
    let r16 = red as u16;
    let g16 = green as u16;
    let b16 = blue as u16;
    assert(r16 < 32 && g16 < 32 && b16 < 32);
    let v = (r16 & 0x1Fu16) | ((g16 & 0x1Fu16) << 5u16) | ((b16 & 0x1Fu16) << 10u16);
    assert(v & 0x1Fu16 == r16 && (v >> 5u16) & 0x1Fu16 == g16 && (v >> 10u16) & 0x1Fu16 == b16)
        by (bit_vector)
        requires
            r16 < 32,
            g16 < 32,
            b16 < 32,
            v == (r16 & 0x1Fu16) | ((g16 & 0x1Fu16) << 5u16) | ((b16 & 0x1Fu16) << 10u16),
    ;
}

/// One color component of an alpha blend: `(a * ea + b * eb) / 16`,
/// rounded down and saturated at 31.
pub open spec fn blend_component(a: u8, ea: u8, b: u8, eb: u8) -> u8 {
    let sum = (a * ea + b * eb) / 16;
    if sum > 31 {
        31
    } else {
        sum as u8
    }
}

fn blend_component_exec(a: u8, ea: u8, b: u8, eb: u8) -> (r: u8)
    requires
        a < 32,
        b < 32,
        ea <= 16,
        eb <= 16,
    ensures
        r == blend_component(a, ea, b, eb),
        r < 32,
{
    assert(a * ea <= 31 * 16) by (nonlinear_arith)
        requires
            a < 32,
            ea <= 16,
    ;
    assert(b * eb <= 31 * 16) by (nonlinear_arith)
        requires
            b < 32,
            eb <= 16,
    ;
    let sum: u16 = ((a as u16) * (ea as u16) + (b as u16) * (eb as u16)) / 16;
    if sum > 31 {
        31
    } else {
        sum as u8
    }
}

/// A component brightened by `coeff / 16` of its distance to white.
pub open spec fn brighten_component(c: u8, coeff: u8) -> u8 {
    (c + ((31 - c) * coeff) / 16) as u8
}

/// A component darkened by `coeff / 16` of its value.
pub open spec fn darken_component(c: u8, coeff: u8) -> u8 {
    (c - (c * coeff) / 16) as u8
}

fn brighten_component_exec(c: u8, coeff: u8) -> (r: u8)
    requires
        c < 32,
        coeff <= 16,
    ensures
        r == brighten_component(c, coeff),
        r < 32,
{
    assert((31 - c) * coeff <= (31 - c) * 16) by (nonlinear_arith)
        requires
            c < 32,
            coeff <= 16,
    ;
    let inc: u16 = ((31 - c) as u16 * coeff as u16) / 16;
    c + inc as u8
}

fn darken_component_exec(c: u8, coeff: u8) -> (r: u8)
    requires
        c < 32,
        coeff <= 16,
    ensures
        r == darken_component(c, coeff),
        r <= c,
{
    assert(c * coeff <= c * 16) by (nonlinear_arith)
        requires
            coeff <= 16,
    ;
    let dec: u16 = (c as u16 * coeff as u16) / 16;
    c - dec as u8
}

/// The attributes of one sprite (object) in OAM, with the sprite's size in
/// tiles cached from attributes 0 and 1.
#[derive(Clone, Copy, Debug)]
pub struct ObjectAttributeInfo {
    pub attribute_0: u16,
    pub attribute_1: u16,
    pub attribute_2: u16,
    pub tile_dims_cache: Option<(u16, u16)>,
}

/// A sprite's width and height in tiles, from its shape (attribute 0, bits
/// 14-15) and size (attribute 1, bits 14-15); `None` for the prohibited shape.
pub open spec fn obj_tile_dims(attribute_0: u16, attribute_1: u16) -> Option<(u16, u16)> {
    let shape = attribute_0 >> 14u16;
    let size = attribute_1 >> 14u16;
    if shape == 0 {
        if size == 0 {
            Some((1u16, 1u16))
        } else if size == 1 {
            Some((2u16, 2u16))
        } else if size == 2 {
            Some((4u16, 4u16))
        } else {
            Some((8u16, 8u16))
        }
    } else if shape == 1 {
        if size == 0 {
            Some((2u16, 1u16))
        } else if size == 1 {
            Some((4u16, 1u16))
        } else if size == 2 {
            Some((4u16, 2u16))
        } else {
            Some((8u16, 4u16))
        }
    } else if shape == 2 {
        if size == 0 {
            Some((1u16, 2u16))
        } else if size == 1 {
            Some((1u16, 4u16))
        } else if size == 2 {
            Some((2u16, 4u16))
        } else {
            Some((4u16, 8u16))
        }
    } else {
        None
    }
}

impl ObjectAttributeInfo {
    pub open spec fn wf(self) -> bool {
        self.tile_dims_cache == obj_tile_dims(self.attribute_0, self.attribute_1)
    }

    pub fn new() -> (r: Self)
        ensures
            r.wf(),
            r.attribute_0 == 0,
            r.attribute_1 == 0,
            r.attribute_2 == 0,
    {
        let r = ObjectAttributeInfo {
            attribute_0: 0,
            attribute_1: 0,
            attribute_2: 0,
            tile_dims_cache: Some((1, 1)),
        };
        assert(0u16 >> 14u16 == 0) by {
            crate::bits::lemma_bit_constants();
        }
        r
    }

    /// Recomputes the cached size from the current attributes.
    fn update_cache(&mut self)
        ensures
            final(self).wf(),
            final(self).attribute_0 == old(self).attribute_0,
            final(self).attribute_1 == old(self).attribute_1,
            final(self).attribute_2 == old(self).attribute_2,
    {
        let shape = self.attribute_0 >> 14u16;
        let size = self.attribute_1 >> 14u16;
        self.tile_dims_cache = if shape == 0 {
            if size == 0 {
                Some((1, 1))
            } else if size == 1 {
                Some((2, 2))
            } else if size == 2 {
                Some((4, 4))
            } else {
                Some((8, 8))
            }
        } else if shape == 1 {
            if size == 0 {
                Some((2, 1))
            } else if size == 1 {
                Some((4, 1))
            } else if size == 2 {
                Some((4, 2))
            } else {
                Some((8, 4))
            }
        } else if shape == 2 {
            if size == 0 {
                Some((1, 2))
            } else if size == 1 {
                Some((1, 4))
            } else if size == 2 {
                Some((2, 4))
            } else {
                Some((4, 8))
            }
        } else {
            None
        };
    }

    pub fn write_attribute_0(&mut self, value: u16)
        ensures
            final(self).wf(),
            final(self).attribute_0 == value,
            final(self).attribute_1 == old(self).attribute_1,
            final(self).attribute_2 == old(self).attribute_2,
    {
        self.attribute_0 = value;
        self.update_cache();
    }

    pub fn write_attribute_1(&mut self, value: u16)
        ensures
            final(self).wf(),
            final(self).attribute_1 == value,
            final(self).attribute_0 == old(self).attribute_0,
            final(self).attribute_2 == old(self).attribute_2,
    {
        self.attribute_1 = value;
        self.update_cache();
    }

    pub fn write_attribute_2(&mut self, value: u16)
        ensures
            final(self).wf(),
            final(self).attribute_2 == value,
            final(self).attribute_0 == old(self).attribute_0,
            final(self).attribute_1 == old(self).attribute_1,
    {
        self.attribute_2 = value;
        self.update_cache();
    }

    fn get_y_coordinate(&self) -> (r: u16)
        ensures
            r == self.attribute_0 & 0xFFu16,
            r < 256,
    {
        let v = self.attribute_0;
        assert(v & 0xFFu16 < 256) by {
            crate::bits::lemma_u16_fields(v);
        }
        self.attribute_0 & 0xFF
    }

    fn get_rotation_scaling_flag(&self) -> (r: bool)
        ensures
            r == bit_of_u16(self.attribute_0, 8),
    {
        get_bit_u16(self.attribute_0, 8)
    }

    fn get_double_size_flag(&self) -> (r: bool)
        ensures
            r == bit_of_u16(self.attribute_0, 9),
    {
        get_bit_u16(self.attribute_0, 9)
    }

    fn get_obj_mode(&self) -> (r: ObjMode)
        ensures
            r == (if (self.attribute_0 >> 10u16) & 3 == 0 {
                ObjMode::Normal
            } else if (self.attribute_0 >> 10u16) & 3 == 1 {
                ObjMode::SemiTransparent
            } else if (self.attribute_0 >> 10u16) & 3 == 2 {
                ObjMode::ObjWindow
            } else {
                ObjMode::Prohibited
            }),
    {
        let m = (self.attribute_0 >> 10u16) & 3;
        if m == 0 {
            ObjMode::Normal
        } else if m == 1 {
            ObjMode::SemiTransparent
        } else if m == 2 {
            ObjMode::ObjWindow
        } else {
            ObjMode::Prohibited
        }
    }

    fn get_obj_mosaic(&self) -> (r: bool)
        ensures
            r == bit_of_u16(self.attribute_0, 12),
    {
        get_bit_u16(self.attribute_0, 12)
    }

    fn get_palette_depth(&self) -> (r: PaletteDepth)
        ensures
            (r == PaletteDepth::EightBit) == bit_of_u16(self.attribute_0, 13),
    {
        if get_bit_u16(self.attribute_0, 13) {
            PaletteDepth::EightBit
        } else {
            PaletteDepth::FourBit
        }
    }

    fn get_x_coordinate(&self) -> (r: u16)
        ensures
            r == self.attribute_1 & 0x1FFu16,
            r < 512,
    {
        let v = self.attribute_1;
        assert(v & 0x1FFu16 < 512) by {
            crate::bits::lemma_u16_fields(v);
        }
        self.attribute_1 & 0x1FF
    }

    fn get_rotation_scaling_index(&self) -> (r: u16)
        ensures
            r == (self.attribute_1 >> 9u16) & 0x1Fu16,
            r < 32,
    {
        let v = self.attribute_1;
        assert((v >> 9u16) & 0x1Fu16 < 32) by {
            crate::bits::lemma_u16_fields(v);
        }
        (self.attribute_1 >> 9u16) & 0x1F
    }

    fn get_horizontal_flip(&self) -> (r: bool)
        ensures
            r == bit_of_u16(self.attribute_1, 12),
    {
        get_bit_u16(self.attribute_1, 12)
    }

    fn get_vertical_flip(&self) -> (r: bool)
        ensures
            r == bit_of_u16(self.attribute_1, 13),
    {
        get_bit_u16(self.attribute_1, 13)
    }

    fn get_tile_number(&self) -> (r: u16)
        ensures
            r == self.attribute_2 & 0x3FFu16,
            r < 1024,
    {
        let v = self.attribute_2;
        assert(v & 0x3FFu16 < 1024) by {
            crate::bits::lemma_u16_fields(v);
        }
        self.attribute_2 & 0x3FF
    }

    fn get_bg_priority(&self) -> (r: u16)
        ensures
            r == (self.attribute_2 >> 10u16) & 3u16,
            r < 4,
    {
        let v = self.attribute_2;
        assert((v >> 10u16) & 3u16 < 4) by {
            crate::bits::lemma_u16_fields(v);
        }
        (self.attribute_2 >> 10u16) & 3
    }

    fn get_palette_number(&self) -> (r: u8)
        ensures
            r == (self.attribute_2 >> 12u16) as u8,
            r < 16,
    {
        let v = self.attribute_2;
        assert(v >> 12u16 < 16) by {
            crate::bits::lemma_u16_fields(v);
        }
        (self.attribute_2 >> 12u16) as u8
    }

    fn get_obj_tile_dims(&self) -> (r: Option<(u16, u16)>)
        ensures
            r == self.tile_dims_cache,
    {
        self.tile_dims_cache
    }
}

/// The affine parameters of one sprite rotation/scaling group (8.8 fixed point).
#[derive(Clone, Copy, Debug, PartialEq, Eq, Structural)]
pub struct ObjectRotationScalingInfo {
    pub a: u16,
    pub b: u16,
    pub c: u16,
    pub d: u16,
}

/// The registers of one background layer.
#[derive(Clone, Copy, Debug, PartialEq, Eq, Structural)]
pub struct BackgroundLayer {
    pub bg_control: u16,
    pub x_offset: u16,
    pub y_offset: u16,
    pub affine_x_offset: u32,
    pub affine_y_offset: u32,
    pub affine_param_a: u16,
    pub affine_param_b: u16,
    pub affine_param_c: u16,
    pub affine_param_d: u16,
}

impl BackgroundLayer {
    pub fn new() -> (r: Self)
        ensures
            r.bg_control == 0,
            r.x_offset == 0,
            r.y_offset == 0,
            r.affine_x_offset == 0,
            r.affine_y_offset == 0,
            r.affine_param_a == 0,
            r.affine_param_b == 0,
            r.affine_param_c == 0,
            r.affine_param_d == 0,
    {
        BackgroundLayer {
            bg_control: 0,
            x_offset: 0,
            y_offset: 0,
            affine_x_offset: 0,
            affine_y_offset: 0,
            affine_param_a: 0,
            affine_param_b: 0,
            affine_param_c: 0,
            affine_param_d: 0,
        }
    }

    /// The layer's drawing priority (0 is drawn on top).
    pub fn get_priority(&self) -> (r: u16)
        ensures
            r == self.bg_control & 3u16,
            r < 4,
    {
        let v = self.bg_control;
        assert(v & 3u16 < 4) by {
            crate::bits::lemma_u16_fields(v);
        }
        self.bg_control & 3
    }
}

/// The picture processing unit: its registers, its memories and the frame it
/// draws into, one dot per step.
#[derive(Clone, Debug)]
pub struct Lcd {
    pub dot: u16,
    pub vcount: u16,
    pub lcd_control: u16,
    pub lcd_status: u16,
    pub mosaic_size: u32,
    pub color_effects_selection: u16,
    pub alpha_coefficients: u16,
    pub brightness_coefficient: u16,
    pub window_0_horizontal: u16,
    pub window_1_horizontal: u16,
    pub window_0_vertical: u16,
    pub window_1_vertical: u16,
    pub window_in_control: u16,
    pub window_out_control: u16,
    pub state: LcdState,
    pub bg_palette_ram: Vec<Rgb555>,
    pub obj_palette_ram: Vec<Rgb555>,
    pub vram: Vec<u8>,
    pub obj_attributes: Vec<ObjectAttributeInfo>,
    pub obj_rotations: Vec<ObjectRotationScalingInfo>,
    pub buffer: Vec<Rgb555>,
    pub back_buffer: Vec<Rgb555>,
    pub layer_0: BackgroundLayer,
    pub layer_1: BackgroundLayer,
    pub layer_2: BackgroundLayer,
    pub layer_3: BackgroundLayer,
}

/// The coefficient field value `base`, clamped to 16 (which stands for 1.0).
pub open spec fn clamp_coefficient(base: u16) -> u8 {
    if base > 16 {
        16
    } else {
        base as u8
    }
}

/// Keeps `candidate` among the two highest-priority pixels `acc` (a lower
/// priority value wins; of two equal ones, the earlier stays ahead).
pub open spec fn insert_candidate(
    acc: (Option<PixelInfo>, Option<PixelInfo>),
    candidate: Option<PixelInfo>,
) -> (Option<PixelInfo>, Option<PixelInfo>) {
    match candidate {
        None => acc,
        Some(p) => match acc.0 {
            None => (Some(p), acc.1),
            Some(first) => if p.priority < first.priority {
                (Some(p), acc.0)
            } else {
                match acc.1 {
                    None => (acc.0, Some(p)),
                    Some(second) => if p.priority < second.priority {
                        (acc.0, Some(p))
                    } else {
                        acc
                    },
                }
            },
        },
    }
}

/// The first two entries of the pixels stably sorted by priority, with
/// missing pixels last.
pub open spec fn top_two(pixels: Seq<Option<PixelInfo>>) -> (Option<PixelInfo>, Option<PixelInfo>)
    decreases pixels.len(),
{
    if pixels.len() == 0 {
        (None, None)
    } else {
        insert_candidate(top_two(pixels.drop_last()), pixels.last())
    }
}

fn insert_candidate_exec(
    acc: (Option<PixelInfo>, Option<PixelInfo>),
    candidate: Option<PixelInfo>,
) -> (r: (Option<PixelInfo>, Option<PixelInfo>))
    ensures
        r == insert_candidate(acc, candidate),
{
    match candidate {
        None => acc,
        Some(p) => match acc.0 {
            None => (Some(p), acc.1),
            Some(first) => if p.priority < first.priority {
                (Some(p), acc.0)
            } else {
                match acc.1 {
                    None => (acc.0, Some(p)),
                    Some(second) => if p.priority < second.priority {
                        (acc.0, Some(p))
                    } else {
                        acc
                    },
                }
            },
        },
    }
}

/// The pixel type and color that a special effect sees at a position: the
/// given pixel, or the backdrop when there is none.
pub open spec fn with_backdrop(pixel: Option<PixelInfo>, backdrop: Rgb555) -> (Rgb555, PixelType) {
    match pixel {
        Some(p) => (p.color, p.pixel_type),
        None => (backdrop, PixelType::Backdrop),
    }
}

/// What one sprite shows at one screen position.
#[derive(Clone, Copy, Debug, PartialEq, Eq, Structural)]
pub enum ObjectPixel {
    Transparent,
    Window,
    Opaque { palette_index: usize, semi_transparent: bool },
}

impl Lcd {
    pub open spec fn wf(&self) -> bool {
        &&& self.bg_palette_ram.len() == PALETTE_COLORS
        &&& self.obj_palette_ram.len() == PALETTE_COLORS
        &&& self.vram.len() == VRAM_SIZE
        &&& self.obj_attributes.len() == OAM_OBJECT_COUNT
        &&& self.obj_rotations.len() == OAM_ROTATION_COUNT
        &&& self.buffer.len() == LCD_WIDTH * LCD_HEIGHT
        &&& self.back_buffer.len() == LCD_WIDTH * LCD_HEIGHT
        &&& forall|i: int| 0 <= i < OAM_OBJECT_COUNT ==> (#[trigger] self.obj_attributes@[i]).wf()
        &&& self.dot < DOTS_PER_LINE
        &&& self.vcount < LINES_PER_FRAME
        &&& self.state == LcdState::Visible ==> self.vcount < 160 && self.dot <= 240
    }

    pub fn new() -> (r: Self)
        ensures
            r.wf(),
            r.dot == 0,
            r.vcount == 0,
            r.state == LcdState::Visible,
            r.lcd_control == 0,
            r.lcd_status == 0,
    {
        let obj = ObjectAttributeInfo::new();
        let rot = ObjectRotationScalingInfo { a: 0, b: 0, c: 0, d: 0 };
        let obj_attributes = vec![obj; OAM_OBJECT_COUNT];
        assert(forall|i: int| 0 <= i < OAM_OBJECT_COUNT ==> obj_attributes@[i] == obj);
        Lcd {
            dot: 0,
            vcount: 0,
            lcd_control: 0,
            lcd_status: 0,
            mosaic_size: 0,
            color_effects_selection: 0,
            alpha_coefficients: 0,
            brightness_coefficient: 0,
            window_0_horizontal: 0,
            window_1_horizontal: 0,
            window_0_vertical: 0,
            window_1_vertical: 0,
            window_in_control: 0,
            window_out_control: 0,
            state: LcdState::Visible,
            bg_palette_ram: vec![Rgb555(0); PALETTE_COLORS],
            obj_palette_ram: vec![Rgb555(0); PALETTE_COLORS],
            vram: vec![0u8; VRAM_SIZE],
            obj_attributes,
            obj_rotations: vec![rot; OAM_ROTATION_COUNT],
            buffer: vec![Rgb555(0); LCD_WIDTH * LCD_HEIGHT],
            back_buffer: vec![Rgb555(0); LCD_WIDTH * LCD_HEIGHT],
            layer_0: BackgroundLayer::new(),
            layer_1: BackgroundLayer::new(),
            layer_2: BackgroundLayer::new(),
            layer_3: BackgroundLayer::new(),
        }
    }

    /// The scanline compare value (LCD status bits 8-15).
    pub open spec fn vcount_setting(&self) -> u16 {
        self.lcd_status >> 8u16
    }

    /// The dot and line after `self`'s.
    pub open spec fn next_position(&self) -> (u16, u16) {
        if self.dot + 1 >= DOTS_PER_LINE {
            (0u16, if self.vcount + 1 >= LINES_PER_FRAME {
                0u16
            } else {
                (self.vcount + 1) as u16
            })
        } else {
            ((self.dot + 1) as u16, self.vcount)
        }
    }

    /// Whether `after` is the display one dot on from this one, `r` reporting
    /// the state changes of the step (see `step`).
    pub open spec fn stepped_to(self, after: Lcd, r: LcdStateChangeInfo) -> bool {
        &&& (after.dot, after.vcount) == self.next_position()
        &&& r.hblank_entered == (self.vcount < 160 && self.dot == 240)
        &&& r.vblank_entered == (self.vcount == 160 && self.dot == 0)
        &&& r.vcount_matched == (self.dot == DOTS_PER_LINE - 1 && after.vcount
            == self.vcount_setting())
        &&& r.vblank_entered ==> after.buffer == self.back_buffer
            && after.state == LcdState::VBlank
            && bit_of_u16(after.lcd_status, 0)
        &&& !r.vblank_entered ==> after.buffer == self.buffer
        &&& r.hblank_entered ==> after.state == LcdState::HBlank && bit_of_u16(after.lcd_status, 1)
        &&& self.vcount < 160 && self.dot == 0 ==> after.state == LcdState::Visible
            && !bit_of_u16(after.lcd_status, 0) && !bit_of_u16(after.lcd_status, 1)
        &&& after.lcd_status == if self.vcount < 160 && self.dot == 0 {
            with_bit_u16(with_bit_u16(self.lcd_status, 0, false), 1, false)
        } else if self.vcount < 160 && self.dot == 240 {
            with_bit_u16(self.lcd_status, 1, true)
        } else if self.vcount == 160 && self.dot == 0 {
            with_bit_u16(self.lcd_status, 0, true)
        } else {
            self.lcd_status
        }
        &&& after.state == if self.vcount < 160 && self.dot == 0 {
            LcdState::Visible
        } else if self.vcount < 160 && self.dot == 240 {
            LcdState::HBlank
        } else if self.vcount == 160 && self.dot == 0 {
            LcdState::VBlank
        } else {
            self.state
        }
        &&& after == Lcd {
            lcd_status: after.lcd_status,
            state: after.state,
            buffer: after.buffer,
            back_buffer: after.back_buffer,
            dot: after.dot,
            vcount: after.vcount,
            ..self
        }
        &&& after.lcd_control == self.lcd_control
        &&& after.vram == self.vram
        &&& after.bg_palette_ram == self.bg_palette_ram
        &&& after.obj_palette_ram == self.obj_palette_ram
        &&& after.obj_attributes == self.obj_attributes
        &&& after.obj_rotations == self.obj_rotations
        &&& forall|i: int|
            0 <= i < LCD_WIDTH * LCD_HEIGHT && !(self.vcount < 160 && self.dot < 240
                && i == self.vcount * 240 + self.dot) && !r.vblank_entered
                ==> after.back_buffer@[i] == self.back_buffer@[i]
        &&& self.draws() ==> after.back_buffer@[self.vcount * 240 + self.dot]
            == self.spec_compose_pixel(self.dot, self.vcount)
    }

    /// Advances the display by one dot: enters the horizontal blank at dot 240
    /// of a visible line, the vertical blank at line 160 (presenting the frame
    /// just drawn), draws the current dot while visible, and reports whether
    /// the new line matches the compare value.
    pub fn step(&mut self) -> (r: LcdStateChangeInfo)
        requires
            old(self).wf(),
        ensures
            final(self).wf(),
            old(self).stepped_to(*final(self), r),
    {
        let mut vblank_entered = false;
        let mut hblank_entered = false;
        let mut vcount_matched = false;
        let drawn: Option<Rgb555> = if self.vcount < 160 && (self.dot == 0 || (self.dot != 240 && self.state
            == LcdState::Visible)) {
            Some(self.compose_pixel(self.dot, self.vcount))
        } else {
            None
        };
        let ghost old_status = self.lcd_status;
        if self.vcount < 160 {
            if self.dot == 0 {
                self.set_vblank_flag(false);
                self.set_hblank_flag(false);
                proof {
                    lemma_with_bit_u16(with_bit_u16(old_status, 0, false), 1, false);
                }
                self.state = LcdState::Visible;
            } else if self.dot == 240 {
                hblank_entered = true;
                self.set_hblank_flag(true);
                self.state = LcdState::HBlank;
            }
        } else if self.vcount == 160 && self.dot == 0 {
            vblank_entered = true;
            self.set_vblank_flag(true);
            self.state = LcdState::VBlank;
            std::mem::swap(&mut self.buffer, &mut self.back_buffer);
        }
        if self.state == LcdState::Visible {
            let pixel_x = self.dot;
            let pixel_y = self.vcount;
            let drawn_pixel = match drawn {
                Some(pixel) => pixel,
                None => self.compose_pixel(pixel_x, pixel_y),
            };
            let index = (pixel_y as usize) * LCD_WIDTH + (pixel_x as usize);
            self.back_buffer.set(index, drawn_pixel);
        }
        self.dot = self.dot + 1;
        if self.dot >= DOTS_PER_LINE {
            self.dot = 0;
            self.vcount = self.vcount + 1;
            if self.vcount >= LINES_PER_FRAME {
                self.vcount = 0;
            }
            if self.vcount == self.get_vcount_setting() {
                vcount_matched = true;
            }
        }
        LcdStateChangeInfo { hblank_entered, vblank_entered, vcount_matched }
    }

    /// The color the display shows at (`pixel_x`, `pixel_y`): the sprite and
    /// background pixels that the windows let through, ordered by priority,
    /// with the selected color special effect applied.
    /// A background layer's pixel at a position, when the layer shows there.
    pub open spec fn layer_info(&self, layer: u8, shown: bool, priority: u16, pixel_type: PixelType, x: u16, y: u16) -> Option<PixelInfo> {
        if shown {
            match self.spec_layer_pixel(layer, x, y) {
                Some(color) => Some(PixelInfo { color, priority, pixel_type }),
                None => None,
            }
        } else {
            None
        }
    }

    /// The color of the screen pixel at a position: the sprite and layer
    /// pixels that the windows let through, resolved by priority and the
    /// special effects.
    pub open spec fn spec_compose_pixel(&self, x: u16, y: u16) -> Rgb555 {
        let sprite = self.sprite_scan(x, y, self.mosaic(8), self.mosaic(12), OAM_OBJECT_COUNT as nat);
        let shown = self.spec_displayed_selection(x, y, sprite.obj_window);
        let sprite_info = if shown.obj_displayed {
            match sprite.sprite_pixel_info {
                Some(info) => Some(info.pixel_info),
                None => None,
            }
        } else {
            None
        };
        self.spec_resolve_pixel(
            shown.effects_displayed,
            sprite_info,
            self.layer_info(0, shown.bg0_displayed, self.layer_0.bg_control & 3u16, PixelType::Layer0, x, y),
            self.layer_info(1, shown.bg1_displayed, self.layer_1.bg_control & 3u16, PixelType::Layer1, x, y),
            self.layer_info(2, shown.bg2_displayed, self.layer_2.bg_control & 3u16, PixelType::Layer2, x, y),
            self.layer_info(3, shown.bg3_displayed, self.layer_3.bg_control & 3u16, PixelType::Layer3, x, y),
        )
    }

    /// Whether a step draws the pixel at the current position: inside the
    /// visible lines, from the start of the line until the horizontal
    /// blank.
    pub open spec fn draws(&self) -> bool {
        self.vcount < 160 && (self.dot == 0 || (self.dot != 240 && self.state == LcdState::Visible))
    }

    fn compose_pixel(&self, pixel_x: u16, pixel_y: u16) -> (r: Rgb555)
        requires
            self.wf(),
            pixel_x < 240,
            pixel_y < 160,
        ensures
            r == self.spec_compose_pixel(pixel_x, pixel_y),
    {
        let obj_mosaic_horizontal = self.get_obj_mosaic_horizontal();
        let obj_mosaic_vertical = self.get_obj_mosaic_vertical();
        let sprite_pixel_query_info = self.get_sprite_pixel(
            pixel_x,
            pixel_y,
            obj_mosaic_horizontal,
            obj_mosaic_vertical,
        );
        let displayed_selection = self.get_displayed_selection(
            pixel_x,
            pixel_y,
            sprite_pixel_query_info.obj_window,
        );
        let layer_0_pixel_info = if displayed_selection.bg0_displayed {
            match self.layer_pixel(0, pixel_x, pixel_y) {
                Some(color) => Some(
                    PixelInfo {
                        color,
                        priority: self.layer_0.get_priority(),
                        pixel_type: PixelType::Layer0,
                    },
                ),
                None => None,
            }
        } else {
            None
        };
        let layer_1_pixel_info = if displayed_selection.bg1_displayed {
            match self.layer_pixel(1, pixel_x, pixel_y) {
                Some(color) => Some(
                    PixelInfo {
                        color,
                        priority: self.layer_1.get_priority(),
                        pixel_type: PixelType::Layer1,
                    },
                ),
                None => None,
            }
        } else {
            None
        };
        let layer_2_pixel_info = if displayed_selection.bg2_displayed {
            match self.layer_pixel(2, pixel_x, pixel_y) {
                Some(color) => Some(
                    PixelInfo {
                        color,
                        priority: self.layer_2.get_priority(),
                        pixel_type: PixelType::Layer2,
                    },
                ),
                None => None,
            }
        } else {
            None
        };
        let layer_3_pixel_info = if displayed_selection.bg3_displayed {
            match self.layer_pixel(3, pixel_x, pixel_y) {
                Some(color) => Some(
                    PixelInfo {
                        color,
                        priority: self.layer_3.get_priority(),
                        pixel_type: PixelType::Layer3,
                    },
                ),
                None => None,
            }
        } else {
            None
        };
        let sprite_pixel_info = if displayed_selection.obj_displayed {
            match sprite_pixel_query_info.sprite_pixel_info {
                Some(info) => Some(info.pixel_info),
                None => None,
            }
        } else {
            None
        };
        self.resolve_pixel(
            displayed_selection.effects_displayed,
            sprite_pixel_info,
            layer_0_pixel_info,
            layer_1_pixel_info,
            layer_2_pixel_info,
            layer_3_pixel_info,
        )
    }

    /// The color drawn from the visible sprite and layer pixels: the top one by
    /// priority (the sprite first among equals, then layers 0 to 3), or the
    /// backdrop; with special effects enabled here, blended with the second
    /// one, or brightened or darkened, when the pixels are selected as targets.
    pub open spec fn spec_resolve_pixel(
        &self,
        effects_displayed: bool,
        sprite: Option<PixelInfo>,
        l0: Option<PixelInfo>,
        l1: Option<PixelInfo>,
        l2: Option<PixelInfo>,
        l3: Option<PixelInfo>,
    ) -> Rgb555 {
        let (first, second) = top_two(seq![sprite, l0, l1, l2, l3]);
        let backdrop = self.bg_palette_ram@[0];
        let (c1, t1) = with_backdrop(first, backdrop);
        let (c2, t2) = with_backdrop(second, backdrop);
        let effect = (self.color_effects_selection >> 6u16) & 3u16;
        if !effects_displayed || effect == 0 {
            c1
        } else if effect == 1 {
            if self.first_target(t1) && self.second_target(t2) {
                Rgb555(
                    rgb555_value(
                        blend_component(c1.spec_red(), self.alpha_first(), c2.spec_red(), self.alpha_second()),
                        blend_component(c1.spec_green(), self.alpha_first(), c2.spec_green(), self.alpha_second()),
                        blend_component(c1.spec_blue(), self.alpha_first(), c2.spec_blue(), self.alpha_second()),
                    ),
                )
            } else {
                c1
            }
        } else if effect == 2 {
            if self.first_target(t1) {
                Rgb555(
                    rgb555_value(
                        brighten_component(c1.spec_red(), self.brightness()),
                        brighten_component(c1.spec_green(), self.brightness()),
                        brighten_component(c1.spec_blue(), self.brightness()),
                    ),
                )
            } else {
                c1
            }
        } else {
            if self.first_target(t1) {
                Rgb555(
                    rgb555_value(
                        darken_component(c1.spec_red(), self.brightness()),
                        darken_component(c1.spec_green(), self.brightness()),
                        darken_component(c1.spec_blue(), self.brightness()),
                    ),
                )
            } else {
                c1
            }
        }
    }

    fn resolve_pixel(
        &self,
        effects_displayed: bool,
        sprite: Option<PixelInfo>,
        l0: Option<PixelInfo>,
        l1: Option<PixelInfo>,
        l2: Option<PixelInfo>,
        l3: Option<PixelInfo>,
    ) -> (r: Rgb555)
        requires
            self.wf(),
        ensures
            r == self.spec_resolve_pixel(effects_displayed, sprite, l0, l1, l2, l3),
    {
        let ghost s = seq![sprite, l0, l1, l2, l3];
        proof {
            assert(s.drop_last().drop_last().drop_last().drop_last().drop_last() =~= Seq::<Option<PixelInfo>>::empty());
            assert(s.drop_last().drop_last().drop_last().drop_last() =~= seq![sprite]);
            assert(s.drop_last().drop_last().drop_last() =~= seq![sprite, l0]);
            assert(s.drop_last().drop_last() =~= seq![sprite, l0, l1]);
            assert(s.drop_last() =~= seq![sprite, l0, l1, l2]);
            reveal_with_fuel(top_two, 6);
        }
        let mut acc: (Option<PixelInfo>, Option<PixelInfo>) = (None, None);
        acc = insert_candidate_exec(acc, sprite);
        acc = insert_candidate_exec(acc, l0);
        acc = insert_candidate_exec(acc, l1);
        acc = insert_candidate_exec(acc, l2);
        acc = insert_candidate_exec(acc, l3);
        assert(acc == top_two(s));
        let backdrop = self.bg_palette_ram[0];
        let (c1, t1) = match acc.0 {
            Some(p) => (p.color, p.pixel_type),
            None => (backdrop, PixelType::Backdrop),
        };
        let (c2, t2) = match acc.1 {
            Some(p) => (p.color, p.pixel_type),
            None => (backdrop, PixelType::Backdrop),
        };
        assert((c1, t1) == with_backdrop(top_two(s).0, self.bg_palette_ram@[0]));
        assert((c2, t2) == with_backdrop(top_two(s).1, self.bg_palette_ram@[0]));
        let effect = self.get_color_special_effect();
        if !effects_displayed {
            return c1;
        }
        match effect {
            ColorSpecialEffect::NoEffect => {
                c1
            },
            ColorSpecialEffect::AlphaBlending => {
                if self.special_effect_first_pixel(t1) && self.special_effect_second_pixel(t2) {
                    c1.blend(
                        self.get_alpha_first_target_coefficient(),
                        c2,
                        self.get_alpha_second_target_coefficient(),
                    )
                } else {
                    c1
                }
            },
            ColorSpecialEffect::BrightnessIncrease => {
                if self.special_effect_first_pixel(t1) {
                    let coeff = self.get_brightness_coefficient();
                    let red = brighten_component_exec(c1.red(), coeff);
                    let green = brighten_component_exec(c1.green(), coeff);
                    let blue = brighten_component_exec(c1.blue(), coeff);
                    Rgb555::new(red, green, blue)
                } else {
                    c1
                }
            },
            ColorSpecialEffect::BrightnessDecrease => {
                if self.special_effect_first_pixel(t1) {
                    let coeff = self.get_brightness_coefficient();
                    let red = darken_component_exec(c1.red(), coeff);
                    let green = darken_component_exec(c1.green(), coeff);
                    let blue = darken_component_exec(c1.blue(), coeff);
                    Rgb555::new(red, green, blue)
                } else {
                    c1
                }
            },
        }
    }

    /// The bit of the blend control register that selects a pixel type as the
    /// first target of a special effect.
    pub open spec fn first_target(&self, pixel_type: PixelType) -> bool {
        bit_of_u16(self.color_effects_selection, pixel_type_bit(pixel_type))
    }

    /// The bit of the blend control register that selects a pixel type as the
    /// second target of alpha blending.
    pub open spec fn second_target(&self, pixel_type: PixelType) -> bool {
        bit_of_u16(self.color_effects_selection, (pixel_type_bit(pixel_type) + 8) as u16)
    }

    pub open spec fn alpha_first(&self) -> u8 {
        clamp_coefficient(self.alpha_coefficients & 0x1Fu16)
    }

    pub open spec fn alpha_second(&self) -> u8 {
        clamp_coefficient((self.alpha_coefficients >> 8u16) & 0x1Fu16)
    }

    pub open spec fn brightness(&self) -> u8 {
        clamp_coefficient(self.brightness_coefficient & 0x1Fu16)
    }

    fn special_effect_first_pixel(&self, pixel_type: PixelType) -> (r: bool)
        ensures
            r == self.first_target(pixel_type),
    {
        get_bit_u16(self.color_effects_selection, pixel_type_bit_exec(pixel_type))
    }

    fn special_effect_second_pixel(&self, pixel_type: PixelType) -> (r: bool)
        ensures
            r == self.second_target(pixel_type),
    {
        get_bit_u16(self.color_effects_selection, pixel_type_bit_exec(pixel_type) + 8)
    }

    fn get_color_special_effect(&self) -> (r: ColorSpecialEffect)
        ensures
            (r == ColorSpecialEffect::NoEffect) == ((self.color_effects_selection >> 6u16) & 3u16 == 0),
            (r == ColorSpecialEffect::AlphaBlending) == ((self.color_effects_selection >> 6u16) & 3u16
                == 1),
            (r == ColorSpecialEffect::BrightnessIncrease) == ((self.color_effects_selection >> 6u16)
                & 3u16 == 2),
            (r == ColorSpecialEffect::BrightnessDecrease) == ((self.color_effects_selection >> 6u16)
                & 3u16 == 3),
    {
        let v = self.color_effects_selection;
        assert((v >> 6u16) & 3u16 <= 3) by {
            crate::bits::lemma_u16_fields(v);
        }
        match (self.color_effects_selection >> 6u16) & 3 {
            0 => ColorSpecialEffect::NoEffect,
            1 => ColorSpecialEffect::AlphaBlending,
            2 => ColorSpecialEffect::BrightnessIncrease,
            _ => ColorSpecialEffect::BrightnessDecrease,
        }
    }

    fn get_alpha_first_target_coefficient(&self) -> (r: u8)
        ensures
            r == self.alpha_first(),
            r <= 16,
    {
        coefficient(self.alpha_coefficients & 0x1F)
    }

    fn get_alpha_second_target_coefficient(&self) -> (r: u8)
        ensures
            r == self.alpha_second(),
            r <= 16,
    {
        coefficient((self.alpha_coefficients >> 8u16) & 0x1F)
    }

    fn get_brightness_coefficient(&self) -> (r: u8)
        ensures
            r == self.brightness(),
            r <= 16,
    {
        coefficient(self.brightness_coefficient & 0x1F)
    }

    /// The background mode (LCD control bits 0-2).
    pub open spec fn spec_bg_mode(&self) -> BgMode {
        let m = self.lcd_control & 7u16;
        if m == 0 {
            BgMode::Mode0
        } else if m == 1 {
            BgMode::Mode1
        } else if m == 2 {
            BgMode::Mode2
        } else if m == 3 {
            BgMode::Mode3
        } else if m == 4 {
            BgMode::Mode4
        } else if m == 5 {
            BgMode::Mode5
        } else {
            BgMode::Invalid
        }
    }

    pub fn get_bg_mode(&self) -> (r: BgMode)
        ensures
            r == self.spec_bg_mode(),
    {
        let m = self.lcd_control & 7;
        if m == 0 {
            BgMode::Mode0
        } else if m == 1 {
            BgMode::Mode1
        } else if m == 2 {
            BgMode::Mode2
        } else if m == 3 {
            BgMode::Mode3
        } else if m == 4 {
            BgMode::Mode4
        } else if m == 5 {
            BgMode::Mode5
        } else {
            BgMode::Invalid
        }
    }

    /// The VRAM offset of the displayed bitmap frame (LCD control bit 4).
    pub open spec fn frame_base(&self) -> int {
        if bit_of_u16(self.lcd_control, 4) {
            0xA000
        } else {
            0
        }
    }

    /// The little-endian halfword of VRAM at `offset`.
    pub open spec fn vram_hword(&self, offset: int) -> u16 {
        (self.vram@[offset] as u16) | ((self.vram@[offset + 1] as u16) << 8u16)
    }

    /// The color of background layer `layer` at a position, when that layer
    /// shows an opaque pixel there: layer 2 in the bitmap modes (3: one
    /// full-screen 15-bit frame; 4: two paletted frames, index 0 transparent;
    /// 5: two 160x128 15-bit frames). Tile-mode layers show no pixel.
    pub open spec fn spec_layer_pixel(&self, layer: u8, x: u16, y: u16) -> Option<Rgb555> {
        if layer != 2 {
            None
        } else {
            match self.spec_bg_mode() {
                BgMode::Mode3 => Some(Rgb555(self.vram_hword((y * 240 + x) * 2))),
                BgMode::Mode4 => {
                    let index = self.vram@[self.frame_base() + y * 240 + x];
                    if index == 0 {
                        None
                    } else {
                        Some(self.bg_palette_ram@[index as int])
                    }
                },
                BgMode::Mode5 => if x < 160 && y < 128 {
                    Some(Rgb555(self.vram_hword(self.frame_base() + (y * 160 + x) * 2)))
                } else {
                    None
                },
                _ => None,
            }
        }
    }

    fn layer_pixel(&self, layer: u8, x: u16, y: u16) -> (r: Option<Rgb555>)
        requires
            self.wf(),
            x < 240,
            y < 160,
        ensures
            r == self.spec_layer_pixel(layer, x, y),
    {
        if layer != 2 {
            return None;
        }
        let frame_base: usize = if get_bit_u16(self.lcd_control, 4) {
            0xA000
        } else {
            0
        };
        match self.get_bg_mode() {
            BgMode::Mode3 => {
                let offset = ((y as usize) * 240 + (x as usize)) * 2;
                let low = self.vram[offset];
                let high = self.vram[offset + 1];
                Some(Rgb555((low as u16) | ((high as u16) << 8u16)))
            },
            BgMode::Mode4 => {
                let index = self.vram[frame_base + (y as usize) * 240 + (x as usize)];
                if index == 0 {
                    None
                } else {
                    Some(self.bg_palette_ram[index as usize])
                }
            },
            BgMode::Mode5 => {
                if x < 160 && y < 128 {
                    let offset = frame_base + ((y as usize) * 160 + (x as usize)) * 2;
                    let low = self.vram[offset];
                    let high = self.vram[offset + 1];
                    Some(Rgb555((low as u16) | ((high as u16) << 8u16)))
                } else {
                    None
                }
            },
            _ => None,
        }
    }

    fn get_obj_tile_mapping(&self) -> (r: ObjectTileMapping)
        ensures
            (r == ObjectTileMapping::OneDimensional) == bit_of_u16(self.lcd_control, 6),
    {
        if get_bit_u16(self.lcd_control, 6) {
            ObjectTileMapping::OneDimensional
        } else {
            ObjectTileMapping::TwoDimensional
        }
    }

    fn set_vblank_flag(&mut self, set: bool)
        ensures
            *final(self) == (Lcd { lcd_status: with_bit_u16(old(self).lcd_status, 0, set), ..*old(self) }),
            bit_of_u16(final(self).lcd_status, 0) == set,
    {
        self.lcd_status = set_bit_u16(self.lcd_status, 0, set);
    }

    fn set_hblank_flag(&mut self, set: bool)
        ensures
            *final(self) == (Lcd { lcd_status: with_bit_u16(old(self).lcd_status, 1, set), ..*old(self) }),
            bit_of_u16(final(self).lcd_status, 1) == set,
    {
        self.lcd_status = set_bit_u16(self.lcd_status, 1, set);
    }

    pub fn get_vblank_irq_enable(&self) -> (r: bool)
        ensures
            r == bit_of_u16(self.lcd_status, 3),
    {
        get_bit_u16(self.lcd_status, 3)
    }

    pub fn get_hblank_irq_enable(&self) -> (r: bool)
        ensures
            r == bit_of_u16(self.lcd_status, 4),
    {
        get_bit_u16(self.lcd_status, 4)
    }

    pub fn get_vcount_irq_enable(&self) -> (r: bool)
        ensures
            r == bit_of_u16(self.lcd_status, 5),
    {
        get_bit_u16(self.lcd_status, 5)
    }

    fn get_vcount_setting(&self) -> (r: u16)
        ensures
            r == self.vcount_setting(),
    {
        self.lcd_status >> 8u16
    }

    /// A mosaic size field (4 bits at `low` of the mosaic register) plus one.
    pub open spec fn mosaic(&self, low: u32) -> u16 {
        (((self.mosaic_size >> low) & 0xFu32) + 1) as u16
    }

    fn mosaic_field(&self, low: u32) -> (r: u16)
        requires
            low < 32,
        ensures
            r == self.mosaic(low),
            1 <= r <= 16,
    {
        let v = self.mosaic_size;
        assert((v >> low) & 0xFu32 <= 15) by (bit_vector);
        (((self.mosaic_size >> low) & 0xF) + 1) as u16
    }

    fn get_bg_mosaic_horizontal(&self) -> (r: u16)
        ensures
            r == self.mosaic(0),
            1 <= r <= 16,
    {
        self.mosaic_field(0)
    }

    fn get_bg_mosaic_vertical(&self) -> (r: u16)
        ensures
            r == self.mosaic(4),
            1 <= r <= 16,
    {
        self.mosaic_field(4)
    }

    fn get_obj_mosaic_horizontal(&self) -> (r: u16)
        ensures
            r == self.mosaic(8),
            1 <= r <= 16,
    {
        self.mosaic_field(8)
    }

    fn get_obj_mosaic_vertical(&self) -> (r: u16)
        ensures
            r == self.mosaic(12),
            1 <= r <= 16,
    {
        self.mosaic_field(12)
    }

    /// Which layers (and whether the special effects) show at a position:
    /// the display enable bits, narrowed by window 0, else window 1, else the
    /// object window, else the outside-window control, when any window is on.
    pub open spec fn spec_displayed_selection(&self, x: u16, y: u16, in_obj_window: bool) -> DisplayedSelectionInfo {
        let c = self.lcd_control;
        let base = DisplayedSelectionInfo {
            bg0_displayed: bit_of_u16(c, 8),
            bg1_displayed: bit_of_u16(c, 9),
            bg2_displayed: bit_of_u16(c, 10),
            bg3_displayed: bit_of_u16(c, 11),
            obj_displayed: bit_of_u16(c, 12),
            effects_displayed: true,
        };
        if !(bit_of_u16(c, 13) || bit_of_u16(c, 14) || bit_of_u16(c, 15)) {
            base
        } else {
            let in_0 = bit_of_u16(c, 13) && in_window(self.window_0_horizontal, self.window_0_vertical, x, y);
            let in_1 = bit_of_u16(c, 14) && in_window(self.window_1_horizontal, self.window_1_vertical, x, y);
            let (reg, low) = if in_0 {
                (self.window_in_control, 0u16)
            } else if in_1 {
                (self.window_in_control, 8u16)
            } else if in_obj_window {
                (self.window_out_control, 8u16)
            } else {
                (self.window_out_control, 0u16)
            };
            DisplayedSelectionInfo {
                bg0_displayed: base.bg0_displayed && bit_of_u16(reg, low),
                bg1_displayed: base.bg1_displayed && bit_of_u16(reg, (low + 1) as u16),
                bg2_displayed: base.bg2_displayed && bit_of_u16(reg, (low + 2) as u16),
                bg3_displayed: base.bg3_displayed && bit_of_u16(reg, (low + 3) as u16),
                obj_displayed: base.obj_displayed && bit_of_u16(reg, (low + 4) as u16),
                effects_displayed: bit_of_u16(reg, (low + 5) as u16),
            }
        }
    }

    fn get_displayed_selection(&self, pixel_x: u16, pixel_y: u16, in_obj_window: bool) -> (r:
        DisplayedSelectionInfo)
        ensures
            r == self.spec_displayed_selection(pixel_x, pixel_y, in_obj_window),
    {
        let c = self.lcd_control;
        let mut bg0_displayed = get_bit_u16(c, 8);
        let mut bg1_displayed = get_bit_u16(c, 9);
        let mut bg2_displayed = get_bit_u16(c, 10);
        let mut bg3_displayed = get_bit_u16(c, 11);
        let mut obj_displayed = get_bit_u16(c, 12);
        let mut effects_displayed = true;
        let window_0 = get_bit_u16(c, 13);
        let window_1 = get_bit_u16(c, 14);
        let obj_window = get_bit_u16(c, 15);
        if window_0 || window_1 || obj_window {
            let in_window_0 = window_0 && in_window_exec(
                self.window_0_horizontal,
                self.window_0_vertical,
                pixel_x,
                pixel_y,
            );
            let in_window_1 = window_1 && in_window_exec(
                self.window_1_horizontal,
                self.window_1_vertical,
                pixel_x,
                pixel_y,
            );
            let (reg, low): (u16, u16) = if in_window_0 {
                (self.window_in_control, 0)
            } else if in_window_1 {
                (self.window_in_control, 8)
            } else if in_obj_window {
                (self.window_out_control, 8)
            } else {
                (self.window_out_control, 0)
            };
            bg0_displayed = bg0_displayed && get_bit_u16(reg, low);
            bg1_displayed = bg1_displayed && get_bit_u16(reg, low + 1);
            bg2_displayed = bg2_displayed && get_bit_u16(reg, low + 2);
            bg3_displayed = bg3_displayed && get_bit_u16(reg, low + 3);
            obj_displayed = obj_displayed && get_bit_u16(reg, low + 4);
            effects_displayed = get_bit_u16(reg, low + 5);
        }
        DisplayedSelectionInfo {
            bg0_displayed,
            bg1_displayed,
            bg2_displayed,
            bg3_displayed,
            obj_displayed,
            effects_displayed,
        }
    }

    /// The texel of `obj` that covers a screen position: its offset from
    /// the sprite's top-left corner and the sprite's width in tiles. An
    /// affine sprite maps the position through its rotation/scaling group
    /// (8.8 fixed point, about the sprite's centre); a plain one applies
    /// the mosaic and the flips.
    pub open spec fn object_texel_spec(
        self,
        obj: ObjectAttributeInfo,
        pixel_x: u16,
        pixel_y: u16,
        obj_mosaic_horizontal: u16,
        obj_mosaic_vertical: u16,
    ) -> Option<(u16, u16, u16)> {
        match obj.tile_dims_cache {
            None => None,
            Some((tile_width, tile_height)) => {
                let w: int = tile_width * 8;
                let h: int = tile_height * 8;
                let base_x: int = (pixel_x + 512 - (obj.attribute_1 & 0x1FFu16)) % 512;
                let base_y: int = (pixel_y + 256 - (obj.attribute_0 & 0xFFu16)) % 256;
                let rotation = bit_of_u16(obj.attribute_0, 8);
                let double_size = bit_of_u16(obj.attribute_0, 9);
                if base_x >= 2 * w || base_y >= 2 * h || ((!rotation || !double_size) && (base_x >= w || base_y >= h)) {
                    None
                } else if rotation {
                    let info = self.obj_rotations@[((obj.attribute_1 >> 9u16) & 0x1Fu16) as int];
                    let center_x: int = if double_size {
                        base_x - w
                    } else {
                        base_x - w / 2
                    };
                    let center_y: int = if double_size {
                        base_y - h
                    } else {
                        base_y - h / 2
                    };
                    let corner_x = center_x * (info.a as i16) + center_y * (info.b as i16) + (w / 2) * 256;
                    let corner_y = center_x * (info.c as i16) + center_y * (info.d as i16) + (h / 2) * 256;
                    if corner_x < 0 || corner_x >= w * 256 || corner_y < 0 || corner_y >= h * 256 {
                        None
                    } else {
                        Some(((corner_x / 256) as u16, (corner_y / 256) as u16, tile_width))
                    }
                } else if double_size {
                    None
                } else {
                    let mosaic = bit_of_u16(obj.attribute_0, 12);
                    let mx = if mosaic {
                        base_x - base_x % (obj_mosaic_horizontal as int)
                    } else {
                        base_x
                    };
                    let my = if mosaic {
                        base_y - base_y % (obj_mosaic_vertical as int)
                    } else {
                        base_y
                    };
                    let ox = if bit_of_u16(obj.attribute_1, 12) {
                        w - 1 - mx
                    } else {
                        mx
                    };
                    let oy = if bit_of_u16(obj.attribute_1, 13) {
                        h - 1 - my
                    } else {
                        my
                    };
                    Some((ox as u16, oy as u16, tile_width))
                }
            },
        }
    }

    /// What `obj` shows at a screen position: its texel's color index in
    /// sprite palette RAM (8-bit tiles, or 4-bit tiles in the object's
    /// 16-color bank; index 0 is transparent), tiles laid out one- or
    /// two-dimensionally; an object-window sprite shows only the window.
    pub open spec fn object_pixel_spec(
        self,
        obj: ObjectAttributeInfo,
        pixel_x: u16,
        pixel_y: u16,
        obj_mosaic_horizontal: u16,
        obj_mosaic_vertical: u16,
    ) -> ObjectPixel {
        match self.object_texel_spec(obj, pixel_x, pixel_y, obj_mosaic_horizontal, obj_mosaic_vertical) {
            None => ObjectPixel::Transparent,
            Some((offset_x, offset_y, tile_width)) => {
                let tile_x: int = (offset_x / 8) as int;
                let tile_y: int = (offset_y / 8) as int;
                let in_x: int = (offset_x % 8) as int;
                let in_y: int = (offset_y % 8) as int;
                let base_tile: int = (obj.attribute_2 & 0x3FFu16) as int;
                let one_dimensional = bit_of_u16(self.lcd_control, 6);
                let color: Option<int> = if bit_of_u16(obj.attribute_0, 13) {
                    let tile_number = if one_dimensional {
                        base_tile + tile_y * tile_width * 2 + tile_x * 2
                    } else {
                        base_tile + tile_y * 32 + tile_x * 2
                    };
                    let index = 0x10000 + tile_number * 32 + in_y * 8 + in_x;
                    if index >= VRAM_SIZE || self.vram@[index] == 0 {
                        None
                    } else {
                        Some(self.vram@[index] as int)
                    }
                } else {
                    let tile_number = if one_dimensional {
                        base_tile + tile_y * tile_width + tile_x
                    } else {
                        base_tile + tile_y * 32 + tile_x
                    };
                    let index = 0x10000 + tile_number * 32 + in_y * 4 + in_x / 2;
                    if index >= VRAM_SIZE {
                        None
                    } else {
                        let data = self.vram@[index];
                        let low: u8 = if in_x % 2 == 0 {
                            data & 0xFu8
                        } else {
                            data >> 4u8
                        };
                        if low == 0 {
                            None
                        } else {
                            Some(low + ((obj.attribute_2 >> 12u16) as u8) * 16)
                        }
                    }
                };
                match color {
                    None => ObjectPixel::Transparent,
                    Some(c) => {
                        let mode = (obj.attribute_0 >> 10u16) & 3u16;
                        if mode == 0 {
                            ObjectPixel::Opaque { palette_index: c as usize, semi_transparent: false }
                        } else if mode == 1 {
                            ObjectPixel::Opaque { palette_index: c as usize, semi_transparent: true }
                        } else if mode == 2 {
                            ObjectPixel::Window
                        } else {
                            ObjectPixel::Transparent
                        }
                    },
                }
            },
        }
    }

    /// The sprite query after the first `n` objects: an opaque pixel
    /// replaces the one found so far only with a strictly lower priority
    /// value, and any object-window pixel sets the window flag.
    pub open spec fn sprite_scan(
        self,
        pixel_x: u16,
        pixel_y: u16,
        obj_mosaic_horizontal: u16,
        obj_mosaic_vertical: u16,
        n: nat,
    ) -> SpritePixelQueryInfo
        decreases n,
    {
        if n == 0 {
            SpritePixelQueryInfo { sprite_pixel_info: None, obj_window: false }
        } else {
            let prev = self.sprite_scan(pixel_x, pixel_y, obj_mosaic_horizontal, obj_mosaic_vertical, (n - 1) as nat);
            let obj = self.obj_attributes@[n - 1];
            match self.object_pixel_spec(obj, pixel_x, pixel_y, obj_mosaic_horizontal, obj_mosaic_vertical) {
                ObjectPixel::Transparent => prev,
                ObjectPixel::Window => SpritePixelQueryInfo { obj_window: true, ..prev },
                ObjectPixel::Opaque { palette_index, semi_transparent } => {
                    let priority = (obj.attribute_2 >> 10u16) & 3u16;
                    if prev.sprite_pixel_info matches Some(info) && info.pixel_info.priority <= priority {
                        prev
                    } else {
                        SpritePixelQueryInfo {
                            sprite_pixel_info: Some(
                                SpritePixelInfo {
                                    pixel_info: PixelInfo {
                                        color: self.obj_palette_ram@[palette_index as int],
                                        priority,
                                        pixel_type: PixelType::Sprite,
                                    },
                                    semi_transparent,
                                },
                            ),
                            ..prev
                        }
                    }
                },
            }
        }
    }

    /// The texel of `obj` that covers the screen position, as an offset in
    /// pixels from the sprite's top-left corner, together with the sprite's
    /// width in tiles; `None` where the sprite does not cover the position.
    fn object_texel(
        &self,
        obj: ObjectAttributeInfo,
        pixel_x: u16,
        pixel_y: u16,
        obj_mosaic_horizontal: u16,
        obj_mosaic_vertical: u16,
    ) -> (r: Option<(u16, u16, u16)>)
        requires
            self.wf(),
            obj.wf(),
            pixel_x < 240,
            pixel_y < 160,
            1 <= obj_mosaic_horizontal <= 16,
            1 <= obj_mosaic_vertical <= 16,
        ensures
            r matches Some((x, y, w)) ==> 1 <= w <= 8 && x < 8 * w && y < 64,
            r == self.object_texel_spec(obj, pixel_x, pixel_y, obj_mosaic_horizontal, obj_mosaic_vertical),
    {
        let (tile_width, tile_height) = match obj.get_obj_tile_dims() {
            Some(dims) => dims,
            None => return None,
        };
        assert(tile_width <= 8 && tile_height <= 8 && tile_width >= 1 && tile_height >= 1);
        let sprite_width: u16 = tile_width * 8;
        let sprite_height: u16 = tile_height * 8;
        let sprite_x = obj.get_x_coordinate();
        let sprite_y = obj.get_y_coordinate();
        let mut base_x: u16 = (pixel_x + 512 - sprite_x) % 512;
        let mut base_y: u16 = (pixel_y + 256 - sprite_y) % 256;
        let rotation = obj.get_rotation_scaling_flag();
        let double_size = obj.get_double_size_flag();
        if base_x >= sprite_width * 2 || base_y >= sprite_height * 2 || ((!rotation || !double_size)
            && (base_x >= sprite_width || base_y >= sprite_height)) {
            return None;
        }
        let (offset_x, offset_y): (u16, u16) = if rotation {
            let rotation_index = obj.get_rotation_scaling_index();
            let info = self.obj_rotations[rotation_index as usize];
            let a = info.a as i16 as i32;
            let b = info.b as i16 as i32;
            let c = info.c as i16 as i32;
            let d = info.d as i16 as i32;
            let (center_x, center_y): (i32, i32) = if double_size {
                (base_x as i32 - sprite_width as i32, base_y as i32 - sprite_height as i32)
            } else {
                (
                    base_x as i32 - (sprite_width / 2) as i32,
                    base_y as i32 - (sprite_height / 2) as i32,
                )
            };
            assert(-128 <= center_x <= 128 && -128 <= center_y <= 128);
            assert(-128 * 32768 <= center_x * a <= 128 * 32768) by (nonlinear_arith)
                requires
                    -128 <= center_x <= 128,
                    -32768 <= a <= 32767,
            ;
            assert(-128 * 32768 <= center_y * b <= 128 * 32768) by (nonlinear_arith)
                requires
                    -128 <= center_y <= 128,
                    -32768 <= b <= 32767,
            ;
            assert(-128 * 32768 <= center_x * c <= 128 * 32768) by (nonlinear_arith)
                requires
                    -128 <= center_x <= 128,
                    -32768 <= c <= 32767,
            ;
            assert(-128 * 32768 <= center_y * d <= 128 * 32768) by (nonlinear_arith)
                requires
                    -128 <= center_y <= 128,
                    -32768 <= d <= 32767,
            ;
            let corner_x: i32 = center_x * a + center_y * b + (sprite_width / 2) as i32 * 256;
            let corner_y: i32 = center_x * c + center_y * d + (sprite_height / 2) as i32 * 256;
            if corner_x < 0 || corner_x >= sprite_width as i32 * 256 || corner_y < 0 || corner_y
                >= sprite_height as i32 * 256 {
                return None;
            }
            ((corner_x / 256) as u16, (corner_y / 256) as u16)
        } else {
            if double_size {
                return None;
            }
            if obj.get_obj_mosaic() {
                assert(base_x % obj_mosaic_horizontal <= base_x) by (nonlinear_arith)
                    requires
                        obj_mosaic_horizontal >= 1,
                ;
                assert(base_y % obj_mosaic_vertical <= base_y) by (nonlinear_arith)
                    requires
                        obj_mosaic_vertical >= 1,
                ;
                base_x = base_x - base_x % obj_mosaic_horizontal;
                base_y = base_y - base_y % obj_mosaic_vertical;
            }
            let ox = if obj.get_horizontal_flip() {
                sprite_width - 1 - base_x
            } else {
                base_x
            };
            let oy = if obj.get_vertical_flip() {
                sprite_height - 1 - base_y
            } else {
                base_y
            };
            (ox, oy)
        };
        Some((offset_x, offset_y, tile_width))
    }

    /// What `obj` shows at the screen position: nothing, an object-window
    /// mask, or a color given by its index into sprite palette RAM.
    fn object_pixel(
        &self,
        obj: ObjectAttributeInfo,
        pixel_x: u16,
        pixel_y: u16,
        obj_mosaic_horizontal: u16,
        obj_mosaic_vertical: u16,
    ) -> (r: ObjectPixel)
        requires
            self.wf(),
            obj.wf(),
            pixel_x < 240,
            pixel_y < 160,
            1 <= obj_mosaic_horizontal <= 16,
            1 <= obj_mosaic_vertical <= 16,
        ensures
            r matches ObjectPixel::Opaque { palette_index, .. } ==> palette_index < PALETTE_COLORS,
            r == self.object_pixel_spec(obj, pixel_x, pixel_y, obj_mosaic_horizontal, obj_mosaic_vertical),
    {
        let (offset_x, offset_y, tile_width) = match self.object_texel(
            obj,
            pixel_x,
            pixel_y,
            obj_mosaic_horizontal,
            obj_mosaic_vertical,
        ) {
            Some(t) => t,
            None => return ObjectPixel::Transparent,
        };
        let sprite_tile_x = offset_x / 8;
        let sprite_tile_y = offset_y / 8;
        let tile_offset_x = offset_x % 8;
        let tile_offset_y = offset_y % 8;
        let base_tile_number = obj.get_tile_number();
        assert(sprite_tile_y as int * tile_width as int <= 8192 * 8) by (nonlinear_arith)
            requires
                sprite_tile_y < 8192,
                tile_width <= 8,
        ;
        let palette_index: usize = match obj.get_palette_depth() {
            PaletteDepth::EightBit => {
                let tile_number: usize = match self.get_obj_tile_mapping() {
                    ObjectTileMapping::OneDimensional => base_tile_number as usize + (
                    sprite_tile_y as usize) * (tile_width as usize) * 2 + (sprite_tile_x
                        as usize) * 2,
                    ObjectTileMapping::TwoDimensional => base_tile_number as usize + (
                    sprite_tile_y as usize) * 32 + (sprite_tile_x as usize) * 2,
                };
                let tile_index = 0x10000 + tile_number * 32 + (tile_offset_y as usize) * 8 + (
                tile_offset_x as usize);
                if tile_index >= VRAM_SIZE {
                    return ObjectPixel::Transparent;
                }
                let palette_index = self.vram[tile_index];
                if palette_index == 0 {
                    return ObjectPixel::Transparent;
                }
                palette_index as usize
            },
            PaletteDepth::FourBit => {
                let tile_number: usize = match self.get_obj_tile_mapping() {
                    ObjectTileMapping::OneDimensional => base_tile_number as usize + (
                    sprite_tile_y as usize) * (tile_width as usize) + sprite_tile_x as usize,
                    ObjectTileMapping::TwoDimensional => base_tile_number as usize + (
                    sprite_tile_y as usize) * 32 + sprite_tile_x as usize,
                };
                let tile_index = 0x10000 + tile_number * 32 + (tile_offset_y as usize) * 4 + (
                tile_offset_x as usize) / 2;
                if tile_index >= VRAM_SIZE {
                    return ObjectPixel::Transparent;
                }
                let tile_data = self.vram[tile_index];
                let low: u8 = if tile_offset_x % 2 == 0 {
                    tile_data & 0xF
                } else {
                    tile_data >> 4u8
                };
                if low == 0 {
                    return ObjectPixel::Transparent;
                }
                let palette_number = obj.get_palette_number();
                assert(low < 16) by {
                    let t = tile_data;
                    assert(t & 0xFu8 < 16 && t >> 4u8 < 16) by {
            crate::bits::lemma_u8_nibbles(t);
        }
                }
                (low as usize) + (palette_number as usize) * 16
            },
        };
        let semi_transparent = match obj.get_obj_mode() {
            ObjMode::Normal => false,
            ObjMode::SemiTransparent => true,
            ObjMode::ObjWindow => {
                return ObjectPixel::Window;
            },
            ObjMode::Prohibited => return ObjectPixel::Transparent,
        };
        ObjectPixel::Opaque { palette_index, semi_transparent }
    }

    /// The sprite pixel at a position, found by scanning all 128 objects: the
    /// first opaque pixel of highest priority (lower value wins), and whether
    /// any object-window sprite covers the position.
    fn get_sprite_pixel(
        &self,
        pixel_x: u16,
        pixel_y: u16,
        obj_mosaic_horizontal: u16,
        obj_mosaic_vertical: u16,
    ) -> (r: SpritePixelQueryInfo)
        requires
            self.wf(),
            pixel_x < 240,
            pixel_y < 160,
            1 <= obj_mosaic_horizontal <= 16,
            1 <= obj_mosaic_vertical <= 16,
        ensures
            r == self.sprite_scan(pixel_x, pixel_y, obj_mosaic_horizontal, obj_mosaic_vertical, OAM_OBJECT_COUNT as nat),
            r.sprite_pixel_info matches Some(info) ==> info.pixel_info.pixel_type == PixelType::Sprite
                && info.pixel_info.priority < 4,
    {
        let mut sprite_pixel_info: Option<SpritePixelInfo> = None;
        let mut obj_window = false;
        let mut i: usize = 0;
        while i < OAM_OBJECT_COUNT
            invariant
                self.wf(),
                i <= OAM_OBJECT_COUNT,
                pixel_x < 240,
                pixel_y < 160,
                1 <= obj_mosaic_horizontal <= 16,
                1 <= obj_mosaic_vertical <= 16,
                (SpritePixelQueryInfo { sprite_pixel_info, obj_window }) == self.sprite_scan(
                    pixel_x,
                    pixel_y,
                    obj_mosaic_horizontal,
                    obj_mosaic_vertical,
                    i as nat,
                ),
                sprite_pixel_info matches Some(info) ==> info.pixel_info.pixel_type == PixelType::Sprite
                    && info.pixel_info.priority < 4,
            decreases OAM_OBJECT_COUNT - i,
        {
            let obj = self.obj_attributes[i];
            assert(obj.wf());
            i = i + 1;
            let (palette_index, semi_transparent) = match self.object_pixel(
                obj,
                pixel_x,
                pixel_y,
                obj_mosaic_horizontal,
                obj_mosaic_vertical,
            ) {
                ObjectPixel::Transparent => continue,
                ObjectPixel::Window => {
                    obj_window = true;
                    continue;
                },
                ObjectPixel::Opaque { palette_index, semi_transparent } => (palette_index, semi_transparent),
            };
            let priority = obj.get_bg_priority();
            if let Some(info) = sprite_pixel_info {
                if info.pixel_info.priority <= priority {
                    continue ;
                }
            }
            let new_pixel_info = PixelInfo {
                color: self.obj_palette_ram[palette_index],
                priority,
                pixel_type: PixelType::Sprite,
            };
            sprite_pixel_info = Some(SpritePixelInfo { pixel_info: new_pixel_info, semi_transparent });
        }
        SpritePixelQueryInfo { sprite_pixel_info, obj_window }
    }

    pub fn read_vcount<T>(&self, index: u32) -> (r: T) where
        u16: DataAccess<T>,

        requires
            index < <u16 as DataAccess<T>>::lanes(),
        ensures
            r == self.vcount.spec_get_data(index),
    {
        self.vcount.get_data(index)
    }

    /// The halfword of palette RAM at an even `offset` (background colors
    /// below 0x200, sprite colors from 0x200).
    pub open spec fn palette_hword(&self, offset: u32) -> u16 {
        if offset < 0x200 {
            self.bg_palette_ram@[(offset / 2) as int].0
        } else {
            self.obj_palette_ram@[((offset - 0x200) / 2) as int].0
        }
    }

    pub fn read_palette_ram_byte(&self, offset: u32) -> (r: u8)
        requires
            self.wf(),
            offset < 0x400,
        ensures
            r == <u16 as DataAccess<u8>>::spec_get_data(self.palette_hword(offset & !1u32), offset & 1u32),
    {
        assert((offset & !1u32) < 0x400 && (offset & !1u32) & 1u32 == 0) by {
            crate::bits::lemma_u32_address(offset);
        }
        let hword = self.read_palette_ram_hword(offset & !1u32);
        assert((offset & 1u32) < 2) by {
            crate::bits::lemma_u32_address(offset);
        }
        hword.get_data(offset & 1u32)
    }

    pub fn read_palette_ram_hword(&self, offset: u32) -> (r: u16)
        requires
            self.wf(),
            offset < 0x400,
            offset & 1 == 0,
        ensures
            r == self.palette_hword(offset),
    {
        if offset < 0x200 {
            self.bg_palette_ram[(offset / 2) as usize].0
        } else {
            self.obj_palette_ram[((offset - 0x200) / 2) as usize].0
        }
    }

    pub fn read_palette_ram_word(&self, offset: u32) -> (r: u32)
        requires
            self.wf(),
            offset < 0x400,
            offset & 3 == 0,
        ensures
            r == (self.palette_hword(offset) as u32) | ((self.palette_hword((offset + 2) as u32) as u32)
                << 16u32),
    {
        assert(offset & 3 == 0 ==> (offset & 1 == 0 && ((offset + 2) as u32) & 1 == 0)) by {
            crate::bits::lemma_u32_address(offset);
        }
        assert(offset & 3 == 0 && offset < 0x400 ==> offset + 2 < 0x400) by {
            crate::bits::lemma_u32_address(offset);
        }
        let low = self.read_palette_ram_hword(offset);
        let high = self.read_palette_ram_hword(offset + 2);
        (low as u32) | ((high as u32) << 16u32)
    }

    /// A byte write to palette RAM stores the byte in both halves of the
    /// addressed halfword.
    pub fn write_palette_ram_byte(&mut self, value: u8, offset: u32)
        requires
            old(self).wf(),
            offset < 0x400,
        ensures
            final(self).wf(),
            forall|o: u32|
                #![trigger final(self).palette_hword(o)]
                o < 0x400 && o & 1 == 0 ==> final(self).palette_hword(o) == if o == offset & !1u32 {
                    (value as u16) | ((value as u16) << 8u16)
                } else {
                    old(self).palette_hword(o)
                },
            final(self).vram == old(self).vram,
            final(self).obj_attributes == old(self).obj_attributes,
            *final(self) == (Lcd { bg_palette_ram: final(self).bg_palette_ram, obj_palette_ram: final(self).obj_palette_ram, ..*old(self) }),
    {
        assert((offset & !1u32) & 1 == 0 && (offset & !1u32) <= offset) by {
            crate::bits::lemma_u32_address(offset);
        }
        self.write_palette_ram_hword((value as u16) | ((value as u16) << 8u16), offset & !1u32);
    }

    pub fn write_palette_ram_hword(&mut self, value: u16, offset: u32)
        requires
            old(self).wf(),
            offset < 0x400,
            offset & 1 == 0,
        ensures
            final(self).wf(),
            forall|o: u32|
                #![trigger final(self).palette_hword(o)]
                o < 0x400 && o & 1 == 0 ==> final(self).palette_hword(o) == if o == offset {
                    value
                } else {
                    old(self).palette_hword(o)
                },
            final(self).vram == old(self).vram,
            final(self).obj_attributes == old(self).obj_attributes,
            final(self).obj_rotations == old(self).obj_rotations,
            final(self).lcd_control == old(self).lcd_control,
            *final(self) == (Lcd { bg_palette_ram: final(self).bg_palette_ram, obj_palette_ram: final(self).obj_palette_ram, ..*old(self) }),
    {
        if offset < 0x200 {
            self.bg_palette_ram.set((offset / 2) as usize, Rgb555(value));
        } else {
            self.obj_palette_ram.set(((offset - 0x200) / 2) as usize, Rgb555(value));
        }
        proof {
            assert forall|o: u32| o < 0x400 && o & 1 == 0 && o != offset implies (o < 0x200 ==> o / 2
                != offset / 2 || offset >= 0x200) && (o >= 0x200 && offset >= 0x200 ==> (o - 0x200)
                / 2 != (offset - 0x200) / 2) by {
                assert(o & 1 == 0 && offset & 1 == 0 && o != offset ==> o / 2 != offset / 2) by {
            crate::bits::lemma_even_offsets_distinct(o, offset);
        }
            }
        }
    }

    pub fn write_palette_ram_word(&mut self, value: u32, offset: u32)
        requires
            old(self).wf(),
            offset < 0x400,
            offset & 3 == 0,
        ensures
            final(self).wf(),
            final(self).palette_hword(offset) == value as u16,
            final(self).palette_hword((offset + 2) as u32) == (value >> 16u32) as u16,
            forall|o: u32|
                #![trigger final(self).palette_hword(o)]
                o < 0x400 && o & 1 == 0 && o != offset && o != offset + 2 ==> final(self).palette_hword(o)
                    == old(self).palette_hword(o),
            *final(self) == (Lcd { bg_palette_ram: final(self).bg_palette_ram, obj_palette_ram: final(self).obj_palette_ram, ..*old(self) }),
    {
        assert(offset & 3 == 0 ==> (offset & 1 == 0 && ((offset + 2) as u32) & 1 == 0)) by {
            crate::bits::lemma_u32_address(offset);
        }
        assert(offset & 3 == 0 && offset < 0x400 ==> offset + 2 < 0x400) by {
            crate::bits::lemma_u32_address(offset);
        }
        self.write_palette_ram_hword(value as u16, offset);
        self.write_palette_ram_hword((value >> 16u32) as u16, offset + 2);
    }

    pub fn read_vram_byte(&self, offset: u32) -> (r: u8)
        requires
            self.wf(),
            offset < VRAM_SIZE,
        ensures
            r == self.vram@[offset as int],
    {
        self.vram[offset as usize]
    }

    pub fn read_vram_hword(&self, offset: u32) -> (r: u16)
        requires
            self.wf(),
            offset < VRAM_SIZE,
            offset & 1 == 0,
        ensures
            r == self.vram_hword(offset as int),
    {
        assert(offset & 1 == 0 && offset < 0x18000 ==> offset + 1 < 0x18000) by {
            crate::bits::lemma_u32_address(offset);
        }
        let low = self.vram[offset as usize];
        let high = self.vram[(offset + 1) as usize];
        (low as u16) | ((high as u16) << 8u16)
    }

    pub fn read_vram_word(&self, offset: u32) -> (r: u32)
        requires
            self.wf(),
            offset < VRAM_SIZE,
            offset & 3 == 0,
        ensures
            r == (self.vram@[offset as int] as u32) | ((self.vram@[offset + 1] as u32) << 8u32) | ((
            self.vram@[offset + 2] as u32) << 16u32) | ((self.vram@[offset + 3] as u32) << 24u32),
    {
        assert(offset & 3 == 0 && offset < 0x18000 ==> offset + 3 < 0x18000) by {
            crate::bits::lemma_u32_address(offset);
        }
        let b0 = self.vram[offset as usize];
        let b1 = self.vram[(offset + 1) as usize];
        let b2 = self.vram[(offset + 2) as usize];
        let b3 = self.vram[(offset + 3) as usize];
        (b0 as u32) | ((b1 as u32) << 8u32) | ((b2 as u32) << 16u32) | ((b3 as u32) << 24u32)
    }

    /// Whether a byte write at `offset` reaches VRAM: byte writes into the
    /// sprite tile area are ignored (from 0x10000 in tile modes, from 0x14000
    /// in bitmap modes).
    pub open spec fn vram_byte_write_applies(&self, offset: u32) -> bool {
        if self.spec_bg_mode().spec_type() == BgModeType::BitmapMode {
            offset < 0x14000
        } else {
            offset < 0x10000
        }
    }

    /// A byte write to VRAM stores the byte in both halves of the addressed
    /// halfword, unless it targets the sprite tile area.
    pub fn write_vram_byte(&mut self, value: u8, offset: u32)
        requires
            old(self).wf(),
            offset < VRAM_SIZE,
        ensures
            final(self).wf(),
            old(self).vram_byte_write_applies(offset) ==> final(self).vram@ == old(self).vram@.update(
                (offset & !1u32) as int,
                value,
            ).update((offset & !1u32) + 1, value),
            !old(self).vram_byte_write_applies(offset) ==> final(self).vram@ == old(self).vram@,
            final(self).lcd_control == old(self).lcd_control,
            final(self).bg_palette_ram == old(self).bg_palette_ram,
            final(self).obj_attributes == old(self).obj_attributes,
            *final(self) == (Lcd { vram: final(self).vram, ..*old(self) }),
    {
        let applies = match self.get_bg_mode().get_type() {
            BgModeType::TileMode | BgModeType::Invalid => offset < 0x10000,
            BgModeType::BitmapMode => offset < 0x14000,
        };
        if applies {
            assert((offset & !1u32) & 1 == 0 && (offset & !1u32) <= offset) by {
            crate::bits::lemma_u32_address(offset);
        }
            self.write_vram_hword((value as u16) | ((value as u16) << 8u16), offset & !1u32);
            proof {
                let v = value;
                assert(((v as u16) | ((v as u16) << 8u16)) as u8 == v && (((v as u16) | ((v as u16)
                    << 8u16)) >> 8u16) as u8 == v) by (bit_vector);
            }
        }
    }

    pub fn write_vram_hword(&mut self, value: u16, offset: u32)
        requires
            old(self).wf(),
            offset < VRAM_SIZE,
            offset & 1 == 0,
        ensures
            final(self).wf(),
            final(self).vram@ == old(self).vram@.update(offset as int, value as u8).update(
                offset + 1,
                (value >> 8u16) as u8,
            ),
            final(self).lcd_control == old(self).lcd_control,
            final(self).bg_palette_ram == old(self).bg_palette_ram,
            final(self).obj_attributes == old(self).obj_attributes,
            *final(self) == (Lcd { vram: final(self).vram, ..*old(self) }),
    {
        assert(offset & 1 == 0 && offset < 0x18000 ==> offset + 1 < 0x18000) by {
            crate::bits::lemma_u32_address(offset);
        }
        self.vram.set(offset as usize, value as u8);
        self.vram.set((offset + 1) as usize, (value >> 8u16) as u8);
    }

    pub fn write_vram_word(&mut self, value: u32, offset: u32)
        requires
            old(self).wf(),
            offset < VRAM_SIZE,
            offset & 3 == 0,
        ensures
            final(self).wf(),
            final(self).vram@ == old(self).vram@.update(offset as int, value as u8).update(
                offset + 1,
                (value >> 8u32) as u8,
            ).update(offset + 2, (value >> 16u32) as u8).update(offset + 3, (value >> 24u32) as u8),
            final(self).lcd_control == old(self).lcd_control,
            final(self).bg_palette_ram == old(self).bg_palette_ram,
            final(self).obj_attributes == old(self).obj_attributes,
            *final(self) == (Lcd { vram: final(self).vram, ..*old(self) }),
    {
        assert(offset & 3 == 0 && offset < 0x18000 ==> offset + 3 < 0x18000) by {
            crate::bits::lemma_u32_address(offset);
        }
        self.vram.set(offset as usize, value as u8);
        self.vram.set((offset + 1) as usize, (value >> 8u32) as u8);
        self.vram.set((offset + 2) as usize, (value >> 16u32) as u8);
        self.vram.set((offset + 3) as usize, (value >> 24u32) as u8);
    }

    /// The halfword of OAM at an even `offset`: every fourth halfword is a
    /// rotation/scaling parameter, the other three are an object's attributes.
    pub open spec fn oam_hword(&self, offset: u32) -> u16 {
        let h = offset / 2;
        let obj = self.obj_attributes@[(h / 4) as int];
        let rot = self.obj_rotations@[(h / 16) as int];
        if h % 4 == 0 {
            obj.attribute_0
        } else if h % 4 == 1 {
            obj.attribute_1
        } else if h % 4 == 2 {
            obj.attribute_2
        } else if (h / 4) % 4 == 0 {
            rot.a
        } else if (h / 4) % 4 == 1 {
            rot.b
        } else if (h / 4) % 4 == 2 {
            rot.c
        } else {
            rot.d
        }
    }

    pub fn read_oam_byte(&self, offset: u32) -> (r: u8)
        requires
            self.wf(),
            offset < 0x400,
        ensures
            r == <u16 as DataAccess<u8>>::spec_get_data(self.oam_hword(offset & !1u32), offset % 2),
    {
        assert((offset & !1u32) & 1 == 0 && (offset & !1u32) <= offset) by {
            crate::bits::lemma_u32_address(offset);
        }
        let hword = self.read_oam_hword(offset & !1u32);
        hword.get_data(offset % 2)
    }

    pub fn read_oam_hword(&self, offset: u32) -> (r: u16)
        requires
            self.wf(),
            offset < 0x400,
            offset & 1 == 0,
        ensures
            r == self.oam_hword(offset),
    {
        let hword_offset = offset / 2;
        let oam_index = (hword_offset / 4) as usize;
        let oam_offset = hword_offset % 4;
        let rotation_group_index = (hword_offset / 16) as usize;
        let rotation_group_offset = (hword_offset / 4) % 4;
        if oam_offset == 0 {
            self.obj_attributes[oam_index].attribute_0
        } else if oam_offset == 1 {
            self.obj_attributes[oam_index].attribute_1
        } else if oam_offset == 2 {
            self.obj_attributes[oam_index].attribute_2
        } else if rotation_group_offset == 0 {
            self.obj_rotations[rotation_group_index].a
        } else if rotation_group_offset == 1 {
            self.obj_rotations[rotation_group_index].b
        } else if rotation_group_offset == 2 {
            self.obj_rotations[rotation_group_index].c
        } else {
            self.obj_rotations[rotation_group_index].d
        }
    }

    pub fn read_oam_word(&self, offset: u32) -> (r: u32)
        requires
            self.wf(),
            offset < 0x400,
            offset & 3 == 0,
        ensures
            r == (self.oam_hword(offset) as u32) | ((self.oam_hword((offset + 2) as u32) as u32)
                << 16u32),
    {
        assert(offset & 3 == 0 ==> (offset & 1 == 0 && ((offset + 2) as u32) & 1 == 0)) by {
            crate::bits::lemma_u32_address(offset);
        }
        assert(offset & 3 == 0 && offset < 0x400 ==> offset + 2 < 0x400) by {
            crate::bits::lemma_u32_address(offset);
        }
        let low = self.read_oam_hword(offset);
        let high = self.read_oam_hword(offset + 2);
        (low as u32) | ((high as u32) << 16u32)
    }

    /// Byte writes to OAM are ignored.
    pub fn write_oam_byte(&mut self, value: u8, offset: u32)
        ensures
            *final(self) == *old(self),
    {
    }

    pub fn write_oam_hword(&mut self, value: u16, offset: u32)
        requires
            old(self).wf(),
            offset < 0x400,
            offset & 1 == 0,
        ensures
            final(self).wf(),
            final(self).oam_hword(offset) == value,
            forall|o: u32|
                #![trigger final(self).oam_hword(o)]
                o < 0x400 && o & 1 == 0 && o != offset ==> final(self).oam_hword(o) == old(self).oam_hword(o),
            final(self).vram == old(self).vram,
            final(self).bg_palette_ram == old(self).bg_palette_ram,
            final(self).obj_palette_ram == old(self).obj_palette_ram,
            final(self).lcd_control == old(self).lcd_control,
            *final(self) == (Lcd { obj_attributes: final(self).obj_attributes, obj_rotations: final(self).obj_rotations, ..*old(self) }),
    {
        let hword_offset = offset / 2;
        let oam_index = (hword_offset / 4) as usize;
        let oam_offset = hword_offset % 4;
        let rotation_group_index = (hword_offset / 16) as usize;
        let rotation_group_offset = (hword_offset / 4) % 4;
        if oam_offset < 3 {
            let mut obj = self.obj_attributes[oam_index];
            if oam_offset == 0 {
                obj.write_attribute_0(value);
            } else if oam_offset == 1 {
                obj.write_attribute_1(value);
            } else {
                obj.write_attribute_2(value);
            }
            self.obj_attributes.set(oam_index, obj);
        } else {
            let mut rot = self.obj_rotations[rotation_group_index];
            if rotation_group_offset == 0 {
                rot.a = value;
            } else if rotation_group_offset == 1 {
                rot.b = value;
            } else if rotation_group_offset == 2 {
                rot.c = value;
            } else {
                rot.d = value;
            }
            self.obj_rotations.set(rotation_group_index, rot);
        }
        proof {
            assert forall|o: u32|
                #![trigger self.oam_hword(o)]
                o < 0x400 && o & 1 == 0 && o != offset implies self.oam_hword(o) == old(self).oam_hword(o) by {
                let h = o / 2;
                assert(o & 1 == 0 && offset & 1 == 0 && o != offset ==> o / 2 != offset / 2) by {
            crate::bits::lemma_even_offsets_distinct(o, offset);
        }
                assert(h != hword_offset);
                if h % 4 == 3 && oam_offset == 3 {
                    assert(h / 16 != hword_offset / 16 || (h / 4) % 4 != (hword_offset / 4) % 4);
                }
            }
        }
    }

    pub fn write_oam_word(&mut self, value: u32, offset: u32)
        requires
            old(self).wf(),
            offset < 0x400,
            offset & 3 == 0,
        ensures
            final(self).wf(),
            final(self).oam_hword(offset) == value as u16,
            final(self).oam_hword((offset + 2) as u32) == (value >> 16u32) as u16,
            forall|o: u32|
                #![trigger final(self).oam_hword(o)]
                o < 0x400 && o & 1 == 0 && o != offset && o != offset + 2 ==> final(self).oam_hword(o)
                    == old(self).oam_hword(o),
            *final(self) == (Lcd { obj_attributes: final(self).obj_attributes, obj_rotations: final(self).obj_rotations, ..*old(self) }),
    {
        assert(offset & 3 == 0 ==> (offset & 1 == 0 && ((offset + 2) as u32) & 1 == 0)) by {
            crate::bits::lemma_u32_address(offset);
        }
        assert(offset & 3 == 0 && offset < 0x400 ==> offset + 2 < 0x400) by {
            crate::bits::lemma_u32_address(offset);
        }
        self.write_oam_hword(value as u16, offset);
        self.write_oam_hword((value >> 16u32) as u16, offset + 2);
    }

    /// The frame last completed, row-major (index `y * 240 + x`).
    pub fn get_buffer(&self) -> (r: &Vec<Rgb555>)
        ensures
            r == &self.buffer,
    {
        &self.buffer
    }

    pub fn read_lcd_control<T>(&self, index: u32) -> (r: T) where
        u16: DataAccess<T>,

        requires
            index < <u16 as DataAccess<T>>::lanes(),
        ensures
            r == self.lcd_control.spec_get_data(index),
    {
        self.lcd_control.get_data(index)
    }

    pub fn write_lcd_control<T>(&mut self, value: T, index: u32) where
        u16: DataAccess<T>,

        requires
            index < <u16 as DataAccess<T>>::lanes(),
        ensures
            *final(self) == (Lcd { lcd_control: old(self).lcd_control.spec_set_data(value, index), ..*old(self) }),
    {
        self.lcd_control = self.lcd_control.set_data(value, index);
    }

    pub fn read_lcd_status<T>(&self, index: u32) -> (r: T) where
        u16: DataAccess<T>,

        requires
            index < <u16 as DataAccess<T>>::lanes(),
        ensures
            r == self.lcd_status.spec_get_data(index),
    {
        self.lcd_status.get_data(index)
    }

    pub fn write_lcd_status<T>(&mut self, value: T, index: u32) where
        u16: DataAccess<T>,

        requires
            index < <u16 as DataAccess<T>>::lanes(),
        ensures
            *final(self) == (Lcd { lcd_status: old(self).lcd_status.spec_set_data(value, index), ..*old(self) }),
    {
        self.lcd_status = self.lcd_status.set_data(value, index);
    }

    pub fn read_mosaic_size<T>(&self, index: u32) -> (r: T) where
        u32: DataAccess<T>,

        requires
            index < <u32 as DataAccess<T>>::lanes(),
        ensures
            r == self.mosaic_size.spec_get_data(index),
    {
        self.mosaic_size.get_data(index)
    }

    pub fn write_mosaic_size<T>(&mut self, value: T, index: u32) where
        u32: DataAccess<T>,

        requires
            index < <u32 as DataAccess<T>>::lanes(),
        ensures
            *final(self) == (Lcd { mosaic_size: old(self).mosaic_size.spec_set_data(value, index), ..*old(self) }),
    {
        self.mosaic_size = self.mosaic_size.set_data(value, index);
    }

    pub fn read_color_effects_selection<T>(&self, index: u32) -> (r: T) where
        u16: DataAccess<T>,

        requires
            index < <u16 as DataAccess<T>>::lanes(),
        ensures
            r == self.color_effects_selection.spec_get_data(index),
    {
        self.color_effects_selection.get_data(index)
    }

    pub fn write_color_effects_selection<T>(&mut self, value: T, index: u32) where
        u16: DataAccess<T>,

        requires
            index < <u16 as DataAccess<T>>::lanes(),
        ensures
            *final(self) == (Lcd { color_effects_selection: old(self).color_effects_selection.spec_set_data(value, index) & 0x3FFFu16, ..*old(self) }),
    {
        self.color_effects_selection = self.color_effects_selection.set_data(value, index) & 0x3FFFu16;
    }

    pub fn read_alpha_blending_coefficients<T>(&self, index: u32) -> (r: T) where
        u16: DataAccess<T>,

        requires
            index < <u16 as DataAccess<T>>::lanes(),
        ensures
            r == self.alpha_coefficients.spec_get_data(index),
    {
        self.alpha_coefficients.get_data(index)
    }

    pub fn write_alpha_blending_coefficients<T>(&mut self, value: T, index: u32) where
        u16: DataAccess<T>,

        requires
            index < <u16 as DataAccess<T>>::lanes(),
        ensures
            *final(self) == (Lcd { alpha_coefficients: old(self).alpha_coefficients.spec_set_data(value, index) & 0x1F1Fu16, ..*old(self) }),
    {
        self.alpha_coefficients = self.alpha_coefficients.set_data(value, index) & 0x1F1Fu16;
    }

    pub fn read_brightness_coefficient<T>(&self, index: u32) -> (r: T) where
        u16: DataAccess<T>,

        requires
            index < <u16 as DataAccess<T>>::lanes(),
        ensures
            r == self.brightness_coefficient.spec_get_data(index),
    {
        self.brightness_coefficient.get_data(index)
    }

    pub fn write_brightness_coefficient<T>(&mut self, value: T, index: u32) where
        u16: DataAccess<T>,

        requires
            index < <u16 as DataAccess<T>>::lanes(),
        ensures
            *final(self) == (Lcd { brightness_coefficient: old(self).brightness_coefficient.spec_set_data(value, index), ..*old(self) }),
    {
        self.brightness_coefficient = self.brightness_coefficient.set_data(value, index);
    }

    pub fn read_window_0_horizontal<T>(&self, index: u32) -> (r: T) where
        u16: DataAccess<T>,

        requires
            index < <u16 as DataAccess<T>>::lanes(),
        ensures
            r == self.window_0_horizontal.spec_get_data(index),
    {
        self.window_0_horizontal.get_data(index)
    }

    pub fn write_window_0_horizontal<T>(&mut self, value: T, index: u32) where
        u16: DataAccess<T>,

        requires
            index < <u16 as DataAccess<T>>::lanes(),
        ensures
            *final(self) == (Lcd { window_0_horizontal: old(self).window_0_horizontal.spec_set_data(value, index), ..*old(self) }),
    {
        self.window_0_horizontal = self.window_0_horizontal.set_data(value, index);
    }

    pub fn read_window_1_horizontal<T>(&self, index: u32) -> (r: T) where
        u16: DataAccess<T>,

        requires
            index < <u16 as DataAccess<T>>::lanes(),
        ensures
            r == self.window_1_horizontal.spec_get_data(index),
    {
        self.window_1_horizontal.get_data(index)
    }

    pub fn write_window_1_horizontal<T>(&mut self, value: T, index: u32) where
        u16: DataAccess<T>,

        requires
            index < <u16 as DataAccess<T>>::lanes(),
        ensures
            *final(self) == (Lcd { window_1_horizontal: old(self).window_1_horizontal.spec_set_data(value, index), ..*old(self) }),
    {
        self.window_1_horizontal = self.window_1_horizontal.set_data(value, index);
    }

    pub fn read_window_0_vertical<T>(&self, index: u32) -> (r: T) where
        u16: DataAccess<T>,

        requires
            index < <u16 as DataAccess<T>>::lanes(),
        ensures
            r == self.window_0_vertical.spec_get_data(index),
    {
        self.window_0_vertical.get_data(index)
    }

    pub fn write_window_0_vertical<T>(&mut self, value: T, index: u32) where
        u16: DataAccess<T>,

        requires
            index < <u16 as DataAccess<T>>::lanes(),
        ensures
            *final(self) == (Lcd { window_0_vertical: old(self).window_0_vertical.spec_set_data(value, index), ..*old(self) }),
    {
        self.window_0_vertical = self.window_0_vertical.set_data(value, index);
    }

    pub fn read_window_1_vertical<T>(&self, index: u32) -> (r: T) where
        u16: DataAccess<T>,

        requires
            index < <u16 as DataAccess<T>>::lanes(),
        ensures
            r == self.window_1_vertical.spec_get_data(index),
    {
        self.window_1_vertical.get_data(index)
    }

    pub fn write_window_1_vertical<T>(&mut self, value: T, index: u32) where
        u16: DataAccess<T>,

        requires
            index < <u16 as DataAccess<T>>::lanes(),
        ensures
            *final(self) == (Lcd { window_1_vertical: old(self).window_1_vertical.spec_set_data(value, index), ..*old(self) }),
    {
        self.window_1_vertical = self.window_1_vertical.set_data(value, index);
    }

    pub fn read_window_in_control<T>(&self, index: u32) -> (r: T) where
        u16: DataAccess<T>,

        requires
            index < <u16 as DataAccess<T>>::lanes(),
        ensures
            r == self.window_in_control.spec_get_data(index),
    {
        self.window_in_control.get_data(index)
    }

    pub fn write_window_in_control<T>(&mut self, value: T, index: u32) where
        u16: DataAccess<T>,

        requires
            index < <u16 as DataAccess<T>>::lanes(),
        ensures
            *final(self) == (Lcd { window_in_control: old(self).window_in_control.spec_set_data(value, index) & 0x3F3Fu16, ..*old(self) }),
    {
        self.window_in_control = self.window_in_control.set_data(value, index) & 0x3F3Fu16;
    }

    pub fn read_window_out_control<T>(&self, index: u32) -> (r: T) where
        u16: DataAccess<T>,

        requires
            index < <u16 as DataAccess<T>>::lanes(),
        ensures
            r == self.window_out_control.spec_get_data(index),
    {
        self.window_out_control.get_data(index)
    }

    pub fn write_window_out_control<T>(&mut self, value: T, index: u32) where
        u16: DataAccess<T>,

        requires
            index < <u16 as DataAccess<T>>::lanes(),
        ensures
            *final(self) == (Lcd { window_out_control: old(self).window_out_control.spec_set_data(value, index) & 0x3F3Fu16, ..*old(self) }),
    {
        self.window_out_control = self.window_out_control.set_data(value, index) & 0x3F3Fu16;
    }

    pub fn read_layer0_bg_control<T>(&self, index: u32) -> (r: T) where
        u16: DataAccess<T>,

        requires
            index < <u16 as DataAccess<T>>::lanes(),
        ensures
            r == self.layer_0.bg_control.spec_get_data(index),
    {
        self.layer_0.bg_control.get_data(index)
    }

    pub fn write_layer0_bg_control<T>(&mut self, value: T, index: u32) where
        u16: DataAccess<T>,

        requires
            index < <u16 as DataAccess<T>>::lanes(),
        ensures
            *final(self) == (Lcd { layer_0: BackgroundLayer { bg_control: old(self).layer_0.bg_control.spec_set_data(value, index), ..old(self).layer_0 }, ..*old(self) }),
    {
        self.layer_0.bg_control = self.layer_0.bg_control.set_data(value, index);
    }

    pub fn read_layer0_x_offset<T>(&self, index: u32) -> (r: T) where
        u16: DataAccess<T>,

        requires
            index < <u16 as DataAccess<T>>::lanes(),
        ensures
            r == self.layer_0.x_offset.spec_get_data(index),
    {
        self.layer_0.x_offset.get_data(index)
    }

    pub fn write_layer0_x_offset<T>(&mut self, value: T, index: u32) where
        u16: DataAccess<T>,

        requires
            index < <u16 as DataAccess<T>>::lanes(),
        ensures
            *final(self) == (Lcd { layer_0: BackgroundLayer { x_offset: old(self).layer_0.x_offset.spec_set_data(value, index), ..old(self).layer_0 }, ..*old(self) }),
    {
        self.layer_0.x_offset = self.layer_0.x_offset.set_data(value, index);
    }

    pub fn read_layer0_y_offset<T>(&self, index: u32) -> (r: T) where
        u16: DataAccess<T>,

        requires
            index < <u16 as DataAccess<T>>::lanes(),
        ensures
            r == self.layer_0.y_offset.spec_get_data(index),
    {
        self.layer_0.y_offset.get_data(index)
    }

    pub fn write_layer0_y_offset<T>(&mut self, value: T, index: u32) where
        u16: DataAccess<T>,

        requires
            index < <u16 as DataAccess<T>>::lanes(),
        ensures
            *final(self) == (Lcd { layer_0: BackgroundLayer { y_offset: old(self).layer_0.y_offset.spec_set_data(value, index), ..old(self).layer_0 }, ..*old(self) }),
    {
        self.layer_0.y_offset = self.layer_0.y_offset.set_data(value, index);
    }

    pub fn read_layer1_bg_control<T>(&self, index: u32) -> (r: T) where
        u16: DataAccess<T>,

        requires
            index < <u16 as DataAccess<T>>::lanes(),
        ensures
            r == self.layer_1.bg_control.spec_get_data(index),
    {
        self.layer_1.bg_control.get_data(index)
    }

    pub fn write_layer1_bg_control<T>(&mut self, value: T, index: u32) where
        u16: DataAccess<T>,

        requires
            index < <u16 as DataAccess<T>>::lanes(),
        ensures
            *final(self) == (Lcd { layer_1: BackgroundLayer { bg_control: old(self).layer_1.bg_control.spec_set_data(value, index), ..old(self).layer_1 }, ..*old(self) }),
    {
        self.layer_1.bg_control = self.layer_1.bg_control.set_data(value, index);
    }

    pub fn read_layer1_x_offset<T>(&self, index: u32) -> (r: T) where
        u16: DataAccess<T>,

        requires
            index < <u16 as DataAccess<T>>::lanes(),
        ensures
            r == self.layer_1.x_offset.spec_get_data(index),
    {
        self.layer_1.x_offset.get_data(index)
    }

    pub fn write_layer1_x_offset<T>(&mut self, value: T, index: u32) where
        u16: DataAccess<T>,

        requires
            index < <u16 as DataAccess<T>>::lanes(),
        ensures
            *final(self) == (Lcd { layer_1: BackgroundLayer { x_offset: old(self).layer_1.x_offset.spec_set_data(value, index), ..old(self).layer_1 }, ..*old(self) }),
    {
        self.layer_1.x_offset = self.layer_1.x_offset.set_data(value, index);
    }

    pub fn read_layer1_y_offset<T>(&self, index: u32) -> (r: T) where
        u16: DataAccess<T>,

        requires
            index < <u16 as DataAccess<T>>::lanes(),
        ensures
            r == self.layer_1.y_offset.spec_get_data(index),
    {
        self.layer_1.y_offset.get_data(index)
    }

    pub fn write_layer1_y_offset<T>(&mut self, value: T, index: u32) where
        u16: DataAccess<T>,

        requires
            index < <u16 as DataAccess<T>>::lanes(),
        ensures
            *final(self) == (Lcd { layer_1: BackgroundLayer { y_offset: old(self).layer_1.y_offset.spec_set_data(value, index), ..old(self).layer_1 }, ..*old(self) }),
    {
        self.layer_1.y_offset = self.layer_1.y_offset.set_data(value, index);
    }

    pub fn read_layer2_bg_control<T>(&self, index: u32) -> (r: T) where
        u16: DataAccess<T>,

        requires
            index < <u16 as DataAccess<T>>::lanes(),
        ensures
            r == self.layer_2.bg_control.spec_get_data(index),
    {
        self.layer_2.bg_control.get_data(index)
    }

    pub fn write_layer2_bg_control<T>(&mut self, value: T, index: u32) where
        u16: DataAccess<T>,

        requires
            index < <u16 as DataAccess<T>>::lanes(),
        ensures
            *final(self) == (Lcd { layer_2: BackgroundLayer { bg_control: old(self).layer_2.bg_control.spec_set_data(value, index), ..old(self).layer_2 }, ..*old(self) }),
    {
        self.layer_2.bg_control = self.layer_2.bg_control.set_data(value, index);
    }

    pub fn read_layer2_text_x_offset<T>(&self, index: u32) -> (r: T) where
        u16: DataAccess<T>,

        requires
            index < <u16 as DataAccess<T>>::lanes(),
        ensures
            r == self.layer_2.x_offset.spec_get_data(index),
    {
        self.layer_2.x_offset.get_data(index)
    }

    pub fn write_layer2_text_x_offset<T>(&mut self, value: T, index: u32) where
        u16: DataAccess<T>,

        requires
            index < <u16 as DataAccess<T>>::lanes(),
        ensures
            *final(self) == (Lcd { layer_2: BackgroundLayer { x_offset: old(self).layer_2.x_offset.spec_set_data(value, index), ..old(self).layer_2 }, ..*old(self) }),
    {
        self.layer_2.x_offset = self.layer_2.x_offset.set_data(value, index);
    }

    pub fn read_layer2_text_y_offset<T>(&self, index: u32) -> (r: T) where
        u16: DataAccess<T>,

        requires
            index < <u16 as DataAccess<T>>::lanes(),
        ensures
            r == self.layer_2.y_offset.spec_get_data(index),
    {
        self.layer_2.y_offset.get_data(index)
    }

    pub fn write_layer2_text_y_offset<T>(&mut self, value: T, index: u32) where
        u16: DataAccess<T>,

        requires
            index < <u16 as DataAccess<T>>::lanes(),
        ensures
            *final(self) == (Lcd { layer_2: BackgroundLayer { y_offset: old(self).layer_2.y_offset.spec_set_data(value, index), ..old(self).layer_2 }, ..*old(self) }),
    {
        self.layer_2.y_offset = self.layer_2.y_offset.set_data(value, index);
    }

    pub fn read_layer2_affine_x_offset<T>(&self, index: u32) -> (r: T) where
        u32: DataAccess<T>,

        requires
            index < <u32 as DataAccess<T>>::lanes(),
        ensures
            r == self.layer_2.affine_x_offset.spec_get_data(index),
    {
        self.layer_2.affine_x_offset.get_data(index)
    }

    pub fn write_layer2_affine_x_offset<T>(&mut self, value: T, index: u32) where
        u32: DataAccess<T>,

        requires
            index < <u32 as DataAccess<T>>::lanes(),
        ensures
            *final(self) == (Lcd { layer_2: BackgroundLayer { affine_x_offset: old(self).layer_2.affine_x_offset.spec_set_data(value, index), ..old(self).layer_2 }, ..*old(self) }),
    {
        self.layer_2.affine_x_offset = self.layer_2.affine_x_offset.set_data(value, index);
    }

    pub fn read_layer2_affine_y_offset<T>(&self, index: u32) -> (r: T) where
        u32: DataAccess<T>,

        requires
            index < <u32 as DataAccess<T>>::lanes(),
        ensures
            r == self.layer_2.affine_y_offset.spec_get_data(index),
    {
        self.layer_2.affine_y_offset.get_data(index)
    }

    pub fn write_layer2_affine_y_offset<T>(&mut self, value: T, index: u32) where
        u32: DataAccess<T>,

        requires
            index < <u32 as DataAccess<T>>::lanes(),
        ensures
            *final(self) == (Lcd { layer_2: BackgroundLayer { affine_y_offset: old(self).layer_2.affine_y_offset.spec_set_data(value, index), ..old(self).layer_2 }, ..*old(self) }),
    {
        self.layer_2.affine_y_offset = self.layer_2.affine_y_offset.set_data(value, index);
    }

    pub fn read_layer2_affine_param_a<T>(&self, index: u32) -> (r: T) where
        u16: DataAccess<T>,

        requires
            index < <u16 as DataAccess<T>>::lanes(),
        ensures
            r == self.layer_2.affine_param_a.spec_get_data(index),
    {
        self.layer_2.affine_param_a.get_data(index)
    }

    pub fn write_layer2_affine_param_a<T>(&mut self, value: T, index: u32) where
        u16: DataAccess<T>,

        requires
            index < <u16 as DataAccess<T>>::lanes(),
        ensures
            *final(self) == (Lcd { layer_2: BackgroundLayer { affine_param_a: old(self).layer_2.affine_param_a.spec_set_data(value, index), ..old(self).layer_2 }, ..*old(self) }),
    {
        self.layer_2.affine_param_a = self.layer_2.affine_param_a.set_data(value, index);
    }

    pub fn read_layer2_affine_param_b<T>(&self, index: u32) -> (r: T) where
        u16: DataAccess<T>,

        requires
            index < <u16 as DataAccess<T>>::lanes(),
        ensures
            r == self.layer_2.affine_param_b.spec_get_data(index),
    {
        self.layer_2.affine_param_b.get_data(index)
    }

    pub fn write_layer2_affine_param_b<T>(&mut self, value: T, index: u32) where
        u16: DataAccess<T>,

        requires
            index < <u16 as DataAccess<T>>::lanes(),
        ensures
            *final(self) == (Lcd { layer_2: BackgroundLayer { affine_param_b: old(self).layer_2.affine_param_b.spec_set_data(value, index), ..old(self).layer_2 }, ..*old(self) }),
    {
        self.layer_2.affine_param_b = self.layer_2.affine_param_b.set_data(value, index);
    }

    pub fn read_layer2_affine_param_c<T>(&self, index: u32) -> (r: T) where
        u16: DataAccess<T>,

        requires
            index < <u16 as DataAccess<T>>::lanes(),
        ensures
            r == self.layer_2.affine_param_c.spec_get_data(index),
    {
        self.layer_2.affine_param_c.get_data(index)
    }

    pub fn write_layer2_affine_param_c<T>(&mut self, value: T, index: u32) where
        u16: DataAccess<T>,

        requires
            index < <u16 as DataAccess<T>>::lanes(),
        ensures
            *final(self) == (Lcd { layer_2: BackgroundLayer { affine_param_c: old(self).layer_2.affine_param_c.spec_set_data(value, index), ..old(self).layer_2 }, ..*old(self) }),
    {
        self.layer_2.affine_param_c = self.layer_2.affine_param_c.set_data(value, index);
    }

    pub fn read_layer2_affine_param_d<T>(&self, index: u32) -> (r: T) where
        u16: DataAccess<T>,

        requires
            index < <u16 as DataAccess<T>>::lanes(),
        ensures
            r == self.layer_2.affine_param_d.spec_get_data(index),
    {
        self.layer_2.affine_param_d.get_data(index)
    }

    pub fn write_layer2_affine_param_d<T>(&mut self, value: T, index: u32) where
        u16: DataAccess<T>,

        requires
            index < <u16 as DataAccess<T>>::lanes(),
        ensures
            *final(self) == (Lcd { layer_2: BackgroundLayer { affine_param_d: old(self).layer_2.affine_param_d.spec_set_data(value, index), ..old(self).layer_2 }, ..*old(self) }),
    {
        self.layer_2.affine_param_d = self.layer_2.affine_param_d.set_data(value, index);
    }

    pub fn read_layer3_bg_control<T>(&self, index: u32) -> (r: T) where
        u16: DataAccess<T>,

        requires
            index < <u16 as DataAccess<T>>::lanes(),
        ensures
            r == self.layer_3.bg_control.spec_get_data(index),
    {
        self.layer_3.bg_control.get_data(index)
    }

    pub fn write_layer3_bg_control<T>(&mut self, value: T, index: u32) where
        u16: DataAccess<T>,

        requires
            index < <u16 as DataAccess<T>>::lanes(),
        ensures
            *final(self) == (Lcd { layer_3: BackgroundLayer { bg_control: old(self).layer_3.bg_control.spec_set_data(value, index), ..old(self).layer_3 }, ..*old(self) }),
    {
        self.layer_3.bg_control = self.layer_3.bg_control.set_data(value, index);
    }

    pub fn read_layer3_text_x_offset<T>(&self, index: u32) -> (r: T) where
        u16: DataAccess<T>,

        requires
            index < <u16 as DataAccess<T>>::lanes(),
        ensures
            r == self.layer_3.x_offset.spec_get_data(index),
    {
        self.layer_3.x_offset.get_data(index)
    }

    pub fn write_layer3_text_x_offset<T>(&mut self, value: T, index: u32) where
        u16: DataAccess<T>,

        requires
            index < <u16 as DataAccess<T>>::lanes(),
        ensures
            *final(self) == (Lcd { layer_3: BackgroundLayer { x_offset: old(self).layer_3.x_offset.spec_set_data(value, index), ..old(self).layer_3 }, ..*old(self) }),
    {
        self.layer_3.x_offset = self.layer_3.x_offset.set_data(value, index);
    }

    pub fn read_layer3_text_y_offset<T>(&self, index: u32) -> (r: T) where
        u16: DataAccess<T>,

        requires
            index < <u16 as DataAccess<T>>::lanes(),
        ensures
            r == self.layer_3.y_offset.spec_get_data(index),
    {
        self.layer_3.y_offset.get_data(index)
    }

    pub fn write_layer3_text_y_offset<T>(&mut self, value: T, index: u32) where
        u16: DataAccess<T>,

        requires
            index < <u16 as DataAccess<T>>::lanes(),
        ensures
            *final(self) == (Lcd { layer_3: BackgroundLayer { y_offset: old(self).layer_3.y_offset.spec_set_data(value, index), ..old(self).layer_3 }, ..*old(self) }),
    {
        self.layer_3.y_offset = self.layer_3.y_offset.set_data(value, index);
    }

    pub fn read_layer3_affine_x_offset<T>(&self, index: u32) -> (r: T) where
        u32: DataAccess<T>,

        requires
            index < <u32 as DataAccess<T>>::lanes(),
        ensures
            r == self.layer_3.affine_x_offset.spec_get_data(index),
    {
        self.layer_3.affine_x_offset.get_data(index)
    }

    pub fn write_layer3_affine_x_offset<T>(&mut self, value: T, index: u32) where
        u32: DataAccess<T>,

        requires
            index < <u32 as DataAccess<T>>::lanes(),
        ensures
            *final(self) == (Lcd { layer_3: BackgroundLayer { affine_x_offset: old(self).layer_3.affine_x_offset.spec_set_data(value, index), ..old(self).layer_3 }, ..*old(self) }),
    {
        self.layer_3.affine_x_offset = self.layer_3.affine_x_offset.set_data(value, index);
    }

    pub fn read_layer3_affine_y_offset<T>(&self, index: u32) -> (r: T) where
        u32: DataAccess<T>,

        requires
            index < <u32 as DataAccess<T>>::lanes(),
        ensures
            r == self.layer_3.affine_y_offset.spec_get_data(index),
    {
        self.layer_3.affine_y_offset.get_data(index)
    }

    pub fn write_layer3_affine_y_offset<T>(&mut self, value: T, index: u32) where
        u32: DataAccess<T>,

        requires
            index < <u32 as DataAccess<T>>::lanes(),
        ensures
            *final(self) == (Lcd { layer_3: BackgroundLayer { affine_y_offset: old(self).layer_3.affine_y_offset.spec_set_data(value, index), ..old(self).layer_3 }, ..*old(self) }),
    {
        self.layer_3.affine_y_offset = self.layer_3.affine_y_offset.set_data(value, index);
    }

    pub fn read_layer3_affine_param_a<T>(&self, index: u32) -> (r: T) where
        u16: DataAccess<T>,

        requires
            index < <u16 as DataAccess<T>>::lanes(),
        ensures
            r == self.layer_3.affine_param_a.spec_get_data(index),
    {
        self.layer_3.affine_param_a.get_data(index)
    }

    pub fn write_layer3_affine_param_a<T>(&mut self, value: T, index: u32) where
        u16: DataAccess<T>,

        requires
            index < <u16 as DataAccess<T>>::lanes(),
        ensures
            *final(self) == (Lcd { layer_3: BackgroundLayer { affine_param_a: old(self).layer_3.affine_param_a.spec_set_data(value, index), ..old(self).layer_3 }, ..*old(self) }),
    {
        self.layer_3.affine_param_a = self.layer_3.affine_param_a.set_data(value, index);
    }

    pub fn read_layer3_affine_param_b<T>(&self, index: u32) -> (r: T) where
        u16: DataAccess<T>,

        requires
            index < <u16 as DataAccess<T>>::lanes(),
        ensures
            r == self.layer_3.affine_param_b.spec_get_data(index),
    {
        self.layer_3.affine_param_b.get_data(index)
    }

    pub fn write_layer3_affine_param_b<T>(&mut self, value: T, index: u32) where
        u16: DataAccess<T>,

        requires
            index < <u16 as DataAccess<T>>::lanes(),
        ensures
            *final(self) == (Lcd { layer_3: BackgroundLayer { affine_param_b: old(self).layer_3.affine_param_b.spec_set_data(value, index), ..old(self).layer_3 }, ..*old(self) }),
    {
        self.layer_3.affine_param_b = self.layer_3.affine_param_b.set_data(value, index);
    }

    pub fn read_layer3_affine_param_c<T>(&self, index: u32) -> (r: T) where
        u16: DataAccess<T>,

        requires
            index < <u16 as DataAccess<T>>::lanes(),
        ensures
            r == self.layer_3.affine_param_c.spec_get_data(index),
    {
        self.layer_3.affine_param_c.get_data(index)
    }

    pub fn write_layer3_affine_param_c<T>(&mut self, value: T, index: u32) where
        u16: DataAccess<T>,

        requires
            index < <u16 as DataAccess<T>>::lanes(),
        ensures
            *final(self) == (Lcd { layer_3: BackgroundLayer { affine_param_c: old(self).layer_3.affine_param_c.spec_set_data(value, index), ..old(self).layer_3 }, ..*old(self) }),
    {
        self.layer_3.affine_param_c = self.layer_3.affine_param_c.set_data(value, index);
    }

    pub fn read_layer3_affine_param_d<T>(&self, index: u32) -> (r: T) where
        u16: DataAccess<T>,

        requires
            index < <u16 as DataAccess<T>>::lanes(),
        ensures
            r == self.layer_3.affine_param_d.spec_get_data(index),
    {
        self.layer_3.affine_param_d.get_data(index)
    }

    pub fn write_layer3_affine_param_d<T>(&mut self, value: T, index: u32) where
        u16: DataAccess<T>,

        requires
            index < <u16 as DataAccess<T>>::lanes(),
        ensures
            *final(self) == (Lcd { layer_3: BackgroundLayer { affine_param_d: old(self).layer_3.affine_param_d.spec_set_data(value, index), ..old(self).layer_3 }, ..*old(self) }),
    {
        self.layer_3.affine_param_d = self.layer_3.affine_param_d.set_data(value, index);
    }

}

impl Default for Lcd {
    fn default() -> (r: Self)
        ensures
            r.wf(),
            r.dot == 0,
            r.vcount == 0,
    {
        Lcd::new()
    }
}

/// The blend control bit (0-5) of a pixel type.
pub open spec fn pixel_type_bit(pixel_type: PixelType) -> u16 {
    match pixel_type {
        PixelType::Layer0 => 0,
        PixelType::Layer1 => 1,
        PixelType::Layer2 => 2,
        PixelType::Layer3 => 3,
        PixelType::Sprite => 4,
        PixelType::Backdrop => 5,
    }
}

fn pixel_type_bit_exec(pixel_type: PixelType) -> (r: u16)
    ensures
        r == pixel_type_bit(pixel_type),
        r < 6,
{
    match pixel_type {
        PixelType::Layer0 => 0,
        PixelType::Layer1 => 1,
        PixelType::Layer2 => 2,
        PixelType::Layer3 => 3,
        PixelType::Sprite => 4,
        PixelType::Backdrop => 5,
    }
}

fn coefficient(base: u16) -> (r: u8)
    ensures
        r == clamp_coefficient(base),
        r <= 16,
{
    if base > 16 {
        16
    } else {
        base as u8
    }
}

/// Whether (x, y) lies inside a window: left <= x < right and top <= y < bottom,
/// with left/top in the high byte and right/bottom in the low byte.
pub open spec fn in_window(horizontal: u16, vertical: u16, x: u16, y: u16) -> bool {
    x >= (horizontal >> 8u16) && x < (horizontal & 0xFFu16) && y >= (vertical >> 8u16) && y < (
    vertical & 0xFFu16)
}

fn in_window_exec(horizontal: u16, vertical: u16, x: u16, y: u16) -> (r: bool)
    ensures
        r == in_window(horizontal, vertical, x, y),
{
    x >= (horizontal >> 8u16) && x < (horizontal & 0xFF) && y >= (vertical >> 8u16) && y < (vertical
        & 0xFF)
}

/// Writing a palette halfword and reading it back gives the value written.
pub proof fn lemma_palette_read_after_write(before: Lcd, after: Lcd, offset: u32, value: u16)
    requires
        offset < 0x400,
        offset & 1 == 0,
        forall|o: u32|
            #![trigger after.palette_hword(o)]
            o < 0x400 && o & 1 == 0 ==> after.palette_hword(o) == if o == offset {
                value
            } else {
                before.palette_hword(o)
            },
    ensures
        after.palette_hword(offset) == value,
{
}

} // verus!
