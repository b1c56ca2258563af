//! Appearance: semantic colours, presets, density and the background image.

use vstd::prelude::*;
use vstd::string::*;

verus! {

/// A colour with its channels multiplied by its opacity.
#[derive(Debug, Clone, Copy, PartialEq, Eq, Structural)]
pub struct Rgba {
    pub r: u8,
    pub g: u8,
    pub b: u8,
    pub a: u8,
}

/// A channel weighted by an opacity: `v * a / 255`, rounded to the nearest integer.
pub open spec fn weighted(v: u8, a: u8) -> u8 {
    ((2 * v * a + 255) / 510) as u8
}

/// The colour `(r, g, b)` at opacity `a`.
pub open spec fn tinted(r: u8, g: u8, b: u8, a: u8) -> Rgba {
    Rgba { r: weighted(r, a), g: weighted(g, a), b: weighted(b, a), a }
}

/// An opaque colour.
pub open spec fn opaque(r: u8, g: u8, b: u8) -> Rgba {
    Rgba { r, g, b, a: 255 }
}

/// `egui::Color32::from_rgba_unmultiplied`: stores the three channels weighted by the
/// opacity, each rounded to the nearest integer, beside the opacity itself.
#[verifier::external_body]
fn color32_unmultiplied(r: u8, g: u8, b: u8, a: u8) -> (c: Rgba)
    ensures
        c == tinted(r, g, b, a),
{
    let c = egui::Color32::from_rgba_unmultiplied(r, g, b, a);
    Rgba { r: c.r(), g: c.g(), b: c.b(), a: c.a() }
}

fn rgb(r: u8, g: u8, b: u8) -> (c: Rgba)
    ensures
        c == opaque(r, g, b),
{
    Rgba { r, g, b, a: 255 }
}

/// The colour's stored channels at another opacity.
pub fn with_alpha(c: Rgba, a: u8) -> (r: Rgba)
    ensures
        r == tinted(c.r, c.g, c.b, a),
{
    color32_unmultiplied(c.r, c.g, c.b, a)
}

/// Full opacity keeps a colour's channels, no opacity clears them.
pub proof fn alpha_extremes(c: Rgba)
    ensures
        tinted(c.r, c.g, c.b, 255) == opaque(c.r, c.g, c.b),
        tinted(c.r, c.g, c.b, 0) == (Rgba { r: 0, g: 0, b: 0, a: 0 }),
{
}

/// Colours by meaning; code asks for these and never for a fixed colour.
#[derive(Debug, Clone, Copy, PartialEq, Eq, Structural)]
pub struct Theme {
    /// Ready, connected.
    pub ok: Rgba,
    /// Needs attention or input.
    pub warn: Rgba,
    /// Broken or unavailable.
    pub danger: Rgba,
    /// Secondary text.
    pub muted: Rgba,
    /// Links and selection.
    pub accent: Rgba,
    pub key_tap: Rgba,
    pub key_tap_fill: Rgba,
    pub key_hold: Rgba,
    pub key_hold_fill: Rgba,
    /// The key whose range is being changed.
    pub key_resize: Rgba,
    pub key_resize_fill: Rgba,
    /// The key that is being added.
    pub draft: Rgba,
    pub swipe: Rgba,
    pub wheel_perm: Rgba,
    pub wheel_temp: Rgba,
    pub aim: Rgba,
}

pub open spec fn dark_theme() -> Theme {
    Theme {
        ok: opaque(0x90, 0xEE, 0x90),
        warn: opaque(255, 170, 0),
        danger: opaque(255, 120, 120),
        muted: opaque(160, 160, 160),
        accent: opaque(120, 170, 255),
        key_tap: opaque(0, 255, 0),
        key_tap_fill: tinted(0, 200, 0, 60),
        key_hold: opaque(255, 165, 0),
        key_hold_fill: tinted(255, 165, 0, 60),
        key_resize: opaque(255, 255, 0),
        key_resize_fill: tinted(255, 230, 0, 70),
        draft: opaque(255, 255, 0),
        swipe: opaque(0xAD, 0xD8, 0xE6),
        wheel_perm: opaque(0, 200, 255),
        wheel_temp: opaque(255, 90, 220),
        aim: opaque(255, 96, 0),
    }
}

pub open spec fn light_theme() -> Theme {
    Theme {
        ok: opaque(0, 130, 60),
        warn: opaque(180, 105, 0),
        danger: opaque(190, 40, 40),
        muted: opaque(110, 110, 110),
        accent: opaque(30, 100, 200),
        key_tap: opaque(0, 140, 60),
        key_tap_fill: tinted(0, 170, 70, 60),
        key_hold: opaque(200, 110, 0),
        key_hold_fill: tinted(230, 140, 0, 70),
        key_resize: opaque(180, 150, 0),
        key_resize_fill: tinted(220, 190, 0, 80),
        draft: opaque(150, 120, 0),
        swipe: opaque(0, 110, 200),
        wheel_perm: opaque(0, 140, 180),
        wheel_temp: opaque(180, 30, 150),
        aim: opaque(210, 70, 0),
    }
}

pub open spec fn nord_theme() -> Theme {
    Theme {
        ok: opaque(163, 190, 140),
        warn: opaque(235, 203, 139),
        danger: opaque(191, 97, 106),
        muted: opaque(129, 161, 193),
        accent: opaque(136, 192, 208),
        key_tap: opaque(163, 190, 140),
        key_tap_fill: tinted(163, 190, 140, 64),
        key_hold: opaque(208, 135, 112),
        key_hold_fill: tinted(208, 135, 112, 64),
        key_resize: opaque(235, 203, 139),
        key_resize_fill: tinted(235, 203, 139, 76),
        draft: opaque(235, 203, 139),
        swipe: opaque(136, 192, 208),
        wheel_perm: opaque(143, 188, 187),
        wheel_temp: opaque(180, 142, 173),
        aim: opaque(208, 135, 112),
    }
}

pub open spec fn catppuccin_theme() -> Theme {
    Theme {
        ok: opaque(166, 227, 161),
        warn: opaque(249, 226, 175),
        danger: opaque(243, 139, 168),
        muted: opaque(166, 173, 200),
        accent: opaque(137, 180, 250),
        key_tap: opaque(166, 227, 161),
        key_tap_fill: tinted(166, 227, 161, 64),
        key_hold: opaque(250, 179, 135),
        key_hold_fill: tinted(250, 179, 135, 64),
        key_resize: opaque(249, 226, 175),
        key_resize_fill: tinted(249, 226, 175, 76),
        draft: opaque(249, 226, 175),
        swipe: opaque(137, 220, 235),
        wheel_perm: opaque(137, 220, 235),
        wheel_temp: opaque(245, 194, 231),
        aim: opaque(250, 179, 135),
    }
}

impl Theme {
    /// The default colours.
    pub fn dark() -> (t: Self)
        ensures
            t == dark_theme(),
    {
        Theme {
            ok: rgb(0x90, 0xEE, 0x90),
            warn: rgb(255, 170, 0),
            danger: rgb(255, 120, 120),
            muted: rgb(160, 160, 160),
            accent: rgb(120, 170, 255),
            key_tap: rgb(0, 255, 0),
            key_tap_fill: color32_unmultiplied(0, 200, 0, 60),
            key_hold: rgb(255, 165, 0),
            key_hold_fill: color32_unmultiplied(255, 165, 0, 60),
            key_resize: rgb(255, 255, 0),
            key_resize_fill: color32_unmultiplied(255, 230, 0, 70),
            draft: rgb(255, 255, 0),
            swipe: rgb(0xAD, 0xD8, 0xE6),
            wheel_perm: rgb(0, 200, 255),
            wheel_temp: rgb(255, 90, 220),
            aim: rgb(255, 96, 0),
        }
    }

    /// Darker semantic colours for white panels.
    pub fn light() -> (t: Self)
        ensures
            t == light_theme(),
    {
        Theme {
            ok: rgb(0, 130, 60),
            warn: rgb(180, 105, 0),
            danger: rgb(190, 40, 40),
            muted: rgb(110, 110, 110),
            accent: rgb(30, 100, 200),
            key_tap: rgb(0, 140, 60),
            key_tap_fill: color32_unmultiplied(0, 170, 70, 60),
            key_hold: rgb(200, 110, 0),
            key_hold_fill: color32_unmultiplied(230, 140, 0, 70),
            key_resize: rgb(180, 150, 0),
            key_resize_fill: color32_unmultiplied(220, 190, 0, 80),
            draft: rgb(150, 120, 0),
            swipe: rgb(0, 110, 200),
            wheel_perm: rgb(0, 140, 180),
            wheel_temp: rgb(180, 30, 150),
            aim: rgb(210, 70, 0),
        }
    }

    pub fn nord() -> (t: Self)
        ensures
            t == nord_theme(),
    {
        Theme {
            ok: rgb(163, 190, 140),
            warn: rgb(235, 203, 139),
            danger: rgb(191, 97, 106),
            muted: rgb(129, 161, 193),
            accent: rgb(136, 192, 208),
            key_tap: rgb(163, 190, 140),
            key_tap_fill: color32_unmultiplied(163, 190, 140, 64),
            key_hold: rgb(208, 135, 112),
            key_hold_fill: color32_unmultiplied(208, 135, 112, 64),
            key_resize: rgb(235, 203, 139),
            key_resize_fill: color32_unmultiplied(235, 203, 139, 76),
            draft: rgb(235, 203, 139),
            swipe: rgb(136, 192, 208),
            wheel_perm: rgb(143, 188, 187),
            wheel_temp: rgb(180, 142, 173),
            aim: rgb(208, 135, 112),
        }
    }

    pub fn catppuccin() -> (t: Self)
        ensures
            t == catppuccin_theme(),
    {
        Theme {
            ok: rgb(166, 227, 161),
            warn: rgb(249, 226, 175),
            danger: rgb(243, 139, 168),
            muted: rgb(166, 173, 200),
            accent: rgb(137, 180, 250),
            key_tap: rgb(166, 227, 161),
            key_tap_fill: color32_unmultiplied(166, 227, 161, 64),
            key_hold: rgb(250, 179, 135),
            key_hold_fill: color32_unmultiplied(250, 179, 135, 64),
            key_resize: rgb(249, 226, 175),
            key_resize_fill: color32_unmultiplied(249, 226, 175, 76),
            draft: rgb(249, 226, 175),
            swipe: rgb(137, 220, 235),
            wheel_perm: rgb(137, 220, 235),
            wheel_temp: rgb(245, 194, 231),
            aim: rgb(250, 179, 135),
        }
    }
}

/// The colour presets.
#[derive(Debug, Clone, Copy, PartialEq, Eq, Structural)]
pub enum Preset {
    Dark,
    Light,
    Nord,
    Catppuccin,
}

impl Default for Preset {
    fn default() -> (r: Self)
        ensures
            r == Preset::Dark,
    {
        Preset::Dark
    }
}

impl Preset {
    pub open spec fn theme_spec(self) -> Theme {
        match self {
            Preset::Dark => dark_theme(),
            Preset::Light => light_theme(),
            Preset::Nord => nord_theme(),
            Preset::Catppuccin => catppuccin_theme(),
        }
    }

    pub fn label(self) -> (r: &'static str)
        ensures
            r@ == match self {
                Preset::Dark => "深色(默认)"@,
                Preset::Light => "浅色"@,
                Preset::Nord => "Nord"@,
                Preset::Catppuccin => "Catppuccin"@,
            },
    {
        match self {
            Preset::Dark => "深色(默认)",
            Preset::Light => "浅色",
            Preset::Nord => "Nord",
            Preset::Catppuccin => "Catppuccin",
        }
    }

    pub fn theme(self) -> (t: Theme)
        ensures
            t == self.theme_spec(),
    {
        match self {
            Preset::Dark => Theme::dark(),
            Preset::Light => Theme::light(),
            Preset::Nord => Theme::nord(),
            Preset::Catppuccin => Theme::catppuccin(),
        }
    }

    pub fn is_dark(self) -> (r: bool)
        ensures
            r == (self != Preset::Light),
    {
        !matches!(self, Preset::Light)
    }

    pub open spec fn panel_spec(self) -> Rgba {
        match self {
            Preset::Dark => opaque(27, 27, 27),
            Preset::Light => opaque(248, 248, 248),
            Preset::Nord => opaque(46, 52, 64),
            Preset::Catppuccin => opaque(30, 30, 46),
        }
    }

    pub open spec fn window_spec(self) -> Rgba {
        match self {
            Preset::Dark => opaque(32, 32, 32),
            Preset::Light => opaque(255, 255, 255),
            Preset::Nord => opaque(59, 66, 82),
            Preset::Catppuccin => opaque(24, 24, 37),
        }
    }

    /// Panel background.
    pub fn panel(self) -> (c: Rgba)
        ensures
            c == self.panel_spec(),
    {
        match self {
            Preset::Dark => rgb(27, 27, 27),
            Preset::Light => rgb(248, 248, 248),
            Preset::Nord => rgb(46, 52, 64),
            Preset::Catppuccin => rgb(30, 30, 46),
        }
    }

    /// Window background.
    pub fn window(self) -> (c: Rgba)
        ensures
            c == self.window_spec(),
    {
        match self {
            Preset::Dark => rgb(32, 32, 32),
            Preset::Light => rgb(255, 255, 255),
            Preset::Nord => rgb(59, 66, 82),
            Preset::Catppuccin => rgb(24, 24, 37),
        }
    }
}

/// How tightly controls are packed.
#[derive(Debug, Clone, Copy, PartialEq, Eq, Structural)]
pub enum Density {
    Compact,
    Standard,
    Loose,
}

impl Default for Density {
    fn default() -> (r: Self)
        ensures
            r == Density::Standard,
    {
        Density::Standard
    }
}

impl Density {
    pub fn label(self) -> (r: &'static str)
        ensures
            r@ == match self {
                Density::Compact => "紧凑"@,
                Density::Standard => "标准"@,
                Density::Loose => "宽松"@,
            },
    {
        match self {
            Density::Compact => "紧凑",
            Density::Standard => "标准",
            Density::Loose => "宽松",
        }
    }

    /// Row height and control spacing, each in percent of the standard.
    pub fn factors(self) -> (r: (u32, u32))
        ensures
            r == match self {
                Density::Compact => (88u32, 70u32),
                Density::Standard => (100u32, 100u32),
                Density::Loose => (112u32, 135u32),
            },
    {
        match self {
            Density::Compact => (88, 70),
            Density::Standard => (100, 100),
            Density::Loose => (112, 135),
        }
    }

    /// Corner radius of controls and of windows.
    pub fn corners(self) -> (r: (u8, u8))
        ensures
            r == if self == Density::Compact {
                (2u8, 4u8)
            } else {
                (4u8, 6u8)
            },
    {
        if self == Density::Compact {
            (2, 4)
        } else {
            (4, 6)
        }
    }
}

/// How the background image fills the window.
#[derive(Debug, Clone, Copy, PartialEq, Eq, Structural)]
pub enum BgFit {
    Cover,
    Contain,
    Tile,
}

impl Default for BgFit {
    fn default() -> (r: Self)
        ensures
            r == BgFit::Cover,
    {
        BgFit::Cover
    }
}

impl BgFit {
    pub fn label(self) -> (r: &'static str)
        ensures
            r@ == match self {
                BgFit::Cover => "铺满(裁切)"@,
                BgFit::Contain => "完整显示"@,
                BgFit::Tile => "平铺"@,
            },
    {
        match self {
            BgFit::Cover => "铺满(裁切)",
            BgFit::Contain => "完整显示",
            BgFit::Tile => "平铺",
        }
    }
}

/// Opacity of the dark veil over the background image unless set otherwise.
pub const DEFAULT_BG_DIM: u8 = 120;

/// Opacity of panels over a background image unless set otherwise.
pub const DEFAULT_PANEL_ALPHA: u8 = 150;

/// The appearance settings, stored with a profile.
pub struct Look<C> {
    pub preset: Preset,
    pub density: Density,
    /// Path of the background image; empty for none.
    pub bg_path: String,
    pub bg_fit: BgFit,
    /// Opacity of the dark veil over the background image.
    pub bg_dim: u8,
    /// Opacity of panels while a background image shows.
    pub panel_alpha: u8,
    /// Brightness of the key overlay; the neutral value leaves colours as they are.
    pub overlay_tone: C,
}

/// The appearance settings as mathematical values.
#[verifier::ext_equal]
pub struct LookView<C> {
    pub preset: Preset,
    pub density: Density,
    pub bg_path: Seq<char>,
    pub bg_fit: BgFit,
    pub bg_dim: u8,
    pub panel_alpha: u8,
    pub overlay_tone: C,
}

impl<C> View for Look<C> {
    type V = LookView<C>;

    open spec fn view(&self) -> LookView<C> {
        LookView {
            preset: self.preset,
            density: self.density,
            bg_path: self.bg_path@,
            bg_fit: self.bg_fit,
            bg_dim: self.bg_dim,
            panel_alpha: self.panel_alpha,
            overlay_tone: self.overlay_tone,
        }
    }
}

impl<C: Copy> Clone for Look<C> {
    fn clone(&self) -> (r: Self)
        ensures
            r@ == self@,
    {
        Look {
            preset: self.preset,
            density: self.density,
            bg_path: self.bg_path.clone(),
            bg_fit: self.bg_fit,
            bg_dim: self.bg_dim,
            panel_alpha: self.panel_alpha,
            overlay_tone: self.overlay_tone,
        }
    }
}

/// Whether less than a fifth of the background image would show through the panels and
/// the veil.
pub open spec fn bg_hidden(panel_alpha: u8, bg_dim: u8) -> bool {
    5 * (255 - panel_alpha) * (255 - bg_dim) < 255 * 255
}

impl<C> Look<C> {
    /// Whether this is the appearance of a fresh profile.
    pub open spec fn is_standard(self, overlay_tone: C) -> bool {
        &&& self.preset == Preset::Dark
        &&& self.density == Density::Standard
        &&& self.bg_path@ == Seq::<char>::empty()
        &&& self.bg_fit == BgFit::Cover
        &&& self.bg_dim == DEFAULT_BG_DIM
        &&& self.panel_alpha == DEFAULT_PANEL_ALPHA
        &&& self.overlay_tone == overlay_tone
    }

    /// The appearance of a fresh profile with the given overlay brightness.
    pub fn standard(overlay_tone: C) -> (l: Self)
        ensures
            l.is_standard(overlay_tone),
    {
        Look {
            preset: Preset::default(),
            density: Density::default(),
            bg_path: String::new(),
            bg_fit: BgFit::default(),
            bg_dim: DEFAULT_BG_DIM,
            panel_alpha: DEFAULT_PANEL_ALPHA,
            overlay_tone,
        }
    }

    pub fn theme(&self) -> (t: Theme)
        ensures
            t == self.preset.theme_spec(),
    {
        self.preset.theme()
    }

    /// Whether a background image is set.
    pub fn has_bg(&self) -> (r: bool)
        ensures
            r == (self.bg_path@.len() > 0),
    {
        !self.bg_path.as_str().is_empty()
    }

    /// Two looks that agree in everything but the background path.
    pub open spec fn same_but_bg_path(self, other: Self) -> bool {
        &&& self.preset == other.preset
        &&& self.density == other.density
        &&& self.bg_fit == other.bg_fit
        &&& self.bg_dim == other.bg_dim
        &&& self.panel_alpha == other.panel_alpha
        &&& self.overlay_tone == other.overlay_tone
    }

    /// Drops the background image and keeps the rest.
    pub fn clear_bg(&mut self)
        ensures
            final(self).bg_path@ == Seq::<char>::empty(),
            final(self).same_but_bg_path(*old(self)),
    {
        self.bg_path = String::new();
    }

    /// Sets the background image. Where panels and veil would hide it almost entirely, each
    /// of the two that is above its default returns to it; the result holds the values that
    /// were replaced.
    pub fn set_bg(&mut self, path: String) -> (replaced: (Option<u8>, Option<u8>))
        ensures
            replaced.0 == (if bg_hidden(old(self).panel_alpha, old(self).bg_dim)
                && old(self).panel_alpha > DEFAULT_PANEL_ALPHA {
                Some(old(self).panel_alpha)
            } else {
                None
            }),
            replaced.1 == (if bg_hidden(old(self).panel_alpha, old(self).bg_dim)
                && old(self).bg_dim > DEFAULT_BG_DIM {
                Some(old(self).bg_dim)
            } else {
                None
            }),
            final(self).panel_alpha == (if replaced.0 is Some {
                DEFAULT_PANEL_ALPHA
            } else {
                old(self).panel_alpha
            }),
            final(self).bg_dim == (if replaced.1 is Some {
                DEFAULT_BG_DIM
            } else {
                old(self).bg_dim
            }),
            !bg_hidden(final(self).panel_alpha, final(self).bg_dim),
            final(self).bg_path@ == path@,
            final(self).preset == old(self).preset,
            final(self).density == old(self).density,
            final(self).bg_fit == old(self).bg_fit,
            final(self).overlay_tone == old(self).overlay_tone,
    {
        self.bg_path = path;
        let a: u32 = 255 - self.panel_alpha as u32;
        let d: u32 = 255 - self.bg_dim as u32;
        assert(a * d <= 255 * 255) by (nonlinear_arith)
            requires
                a <= 255,
                d <= 255,
        ;
        assert(5 * (a as int) * (d as int) == 5 * (a * d)) by (nonlinear_arith);
        let mut replaced: (Option<u8>, Option<u8>) = (None, None);
        if 5 * (a * d) < 255 * 255 {
            if self.panel_alpha > DEFAULT_PANEL_ALPHA {
                replaced.0 = Some(self.panel_alpha);
                self.panel_alpha = DEFAULT_PANEL_ALPHA;
            }
            if self.bg_dim > DEFAULT_BG_DIM {
                replaced.1 = Some(self.bg_dim);
                self.bg_dim = DEFAULT_BG_DIM;
            }
            assert(5 * (255 - self.panel_alpha) * (255 - self.bg_dim) >= 5 * 105 * 135)
                by (nonlinear_arith)
                requires
                    self.panel_alpha <= 150,
                    self.bg_dim <= 120,
            ;
        }
        replaced
    }

    /// Panel and window fill: see-through only while a background image is shown.
    pub fn fills(&self, bg_active: bool) -> (r: (Rgba, Rgba))
        ensures
            r == ({
                let p = self.preset.panel_spec();
                let w = self.preset.window_spec();
                if bg_active {
                    (
                        tinted(p.r, p.g, p.b, self.panel_alpha),
                        tinted(w.r, w.g, w.b, self.panel_alpha),
                    )
                } else {
                    (p, w)
                }
            }),
    {
        let p = self.preset.panel();
        let w = self.preset.window();
        if bg_active {
            (with_alpha(p, self.panel_alpha), with_alpha(w, self.panel_alpha))
        } else {
            (p, w)
        }
    }
}

/// A weighted channel is the nearest whole number to its share: never more than half a step off.
pub proof fn weights_are_nearest(v: u8, a: u8)
    ensures
        -255 <= 510 * weighted(v, a) - 2 * v * a <= 255,
        weighted(v, a) <= v,
        weighted(v, a) <= a,
{
    assert(0 <= v * a <= 255 * v && v * a <= 255 * a) by (nonlinear_arith)
        requires
            0 <= v <= 255,
            0 <= a <= 255,
    ;
    assert(2 * v * a == 2 * (v * a)) by (nonlinear_arith);
}

/// The more opaque the panels or the veil, the less of a background shows: what hides it still
/// does when either grows. Opaque panels always hide it, and clear ones without a veil never do.
pub proof fn hiding_grows(alpha: u8, dim: u8, more_alpha: u8, more_dim: u8)
    requires
        alpha <= more_alpha,
        dim <= more_dim,
    ensures
        bg_hidden(alpha, dim) ==> bg_hidden(more_alpha, more_dim),
        bg_hidden(255, dim),
        bg_hidden(alpha, 255),
        !bg_hidden(0, 0),
        !bg_hidden(150, 120),
{
    assert(5 * (255 - more_alpha) * (255 - more_dim) <= 5 * (255 - alpha) * (255 - dim))
        by (nonlinear_arith)
        requires
            0 <= alpha <= more_alpha <= 255,
            0 <= dim <= more_dim <= 255,
    ;
    assert(5 * (255 - alpha) * (255 - 255) == 0) by (nonlinear_arith);
    assert(5 * (255 - 255) * (255 - dim) == 0) by (nonlinear_arith);
}

/// Colours say what they mean in every preset. Taps and what is ready are green, holds, warnings
/// and the aim anchor orange, what is broken red, swipes and links blue, permanent wheels cyan and
/// temporary ones magenta, and a key whose range is changed is yellow. All of them are opaque.
pub proof fn colours_say_what_they_mean(p: Preset)
    ensures
        ({
            let t = p.theme_spec();
            let green = |c: Rgba| c.g > c.r && c.g > c.b && c.a == 255;
            let orange = |c: Rgba| c.r > c.g > c.b && c.a == 255;
            let red = |c: Rgba| c.r > c.g && c.r > c.b && c.a == 255;
            let blue = |c: Rgba| c.b > c.g > c.r && c.a == 255;
            let cyan = |c: Rgba| c.r < c.g && c.r < c.b && c.a == 255;
            let magenta = |c: Rgba| c.g < c.r && c.g < c.b && c.a == 255;
            let yellow = |c: Rgba| c.b < c.g <= c.r && c.a == 255;
            &&& green(t.key_tap) && green(t.ok)
            &&& orange(t.key_hold) && orange(t.warn) && orange(t.aim)
            &&& red(t.danger)
            &&& blue(t.swipe) && blue(t.accent)
            &&& cyan(t.wheel_perm)
            &&& magenta(t.wheel_temp)
            &&& yellow(t.key_resize) && yellow(t.draft)
            &&& t.key_tap_fill.a < 128 && t.key_hold_fill.a < 128 && t.key_resize_fill.a < 128
        }),
{
}

} // verus!
