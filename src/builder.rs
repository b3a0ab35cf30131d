use vstd::prelude::*;
use crate::font::RogueFontData;

verus! {

/// The font that a window is set up with.
enum RogueFont {
    Default,
    Custom(RogueFontData),
}

/// Start-up settings: the window's inner size in pixels, its title, and a
/// custom font (else the built-in one).
pub struct RogueBuilder {
    inner_size: (usize, usize),
    title: String,
    font: RogueFont,
}

/// The smallest window side, in glyphs.
pub const MIN_GLYPHS: u32 = 20;

impl RogueBuilder {
    /// The requested inner size of the window, in pixels.
    pub closed spec fn spec_inner_size(&self) -> (usize, usize) {
        self.inner_size
    }

    /// The requested window title.
    pub closed spec fn spec_title(&self) -> Seq<char> {
        self.title@
    }

    /// The custom font, or `None` for the built-in one.
    pub closed spec fn spec_font(&self) -> Option<RogueFontData> {
        match self.font {
            RogueFont::Default => None,
            RogueFont::Custom(f) => Some(f),
        }
    }

    /// Settings of a 100 × 100 window titled "md-rogue window" with the
    /// built-in font.
    pub fn new() -> (r: Self)
        ensures
            r.spec_inner_size() == (100usize, 100usize),
            r.spec_title() == "md-rogue window"@,
            r.spec_font() is None,
    {
        RogueBuilder {
            inner_size: (100, 100),
            title: "md-rogue window".to_owned(),
            font: RogueFont::Default,
        }
    }

    pub fn with_inner_size(&mut self, width: usize, height: usize) -> (r: &mut Self)
        ensures
            r.spec_inner_size() == (width, height),
            r.spec_title() == old(self).spec_title(),
            r.spec_font() == old(self).spec_font(),
            *final(self) == *final(r),
    {
        self.inner_size = (width, height);
        self
    }

    pub fn with_title(&mut self, title: &str) -> (r: &mut Self)
        ensures
            r.spec_inner_size() == old(self).spec_inner_size(),
            r.spec_title() == title@,
            r.spec_font() == old(self).spec_font(),
            *final(self) == *final(r),
    {
        self.title = title.to_owned();
        self
    }

    pub fn with_font(&mut self, font: RogueFontData) -> (r: &mut Self)
        ensures
            r.spec_inner_size() == old(self).spec_inner_size(),
            r.spec_title() == old(self).spec_title(),
            r.spec_font() == Some(font),
            *final(self) == *final(r),
    {
        self.font = RogueFont::Custom(font);
        self
    }

    /// Hands out the settings; the font moves out, leaving the built-in one here.
    pub fn build(&mut self) -> (r: Self)
        ensures
            r.spec_inner_size() == old(self).spec_inner_size(),
            r.spec_title() == old(self).spec_title(),
            r.spec_font() == old(self).spec_font(),
            final(self).spec_inner_size() == old(self).spec_inner_size(),
            final(self).spec_title() == old(self).spec_title(),
            final(self).spec_font() is None,
    {
        let mut font = RogueFont::Default;
        std::mem::swap(&mut font, &mut self.font);
        RogueBuilder { inner_size: self.inner_size, title: self.title.clone(), font }
    }

    /// The settings' parts: inner size, title and custom font.
    pub fn into_parts(self) -> (r: ((usize, usize), String, Option<RogueFontData>))
        ensures
            r.0 == self.spec_inner_size(),
            r.1@ == self.spec_title(),
            r.2 == self.spec_font(),
    {
        let font = match self.font {
            RogueFont::Default => None,
            RogueFont::Custom(f) => Some(f),
        };
        (self.inner_size, self.title, font)
    }
}

impl Default for RogueBuilder {
    fn default() -> (r: Self)
        ensures
            r.spec_inner_size() == (100usize, 100usize),
            r.spec_title() == "md-rogue window"@,
            r.spec_font() is None,
    {
        Self::new()
    }
}

/// The side of a window of `requested` pixels: at least `MIN_GLYPHS` pixels,
/// rounded down to whole glyphs of `glyph` pixels.
pub open spec fn window_side(requested: usize, glyph: u32) -> u32 {
    let r = requested as u32;
    let r = if r < MIN_GLYPHS { MIN_GLYPHS } else { r };
    ((r / glyph) * glyph) as u32
}

/// `MIN_GLYPHS` glyphs of `glyph` pixels, or `u32::MAX` where that does not fit.
pub open spec fn min_window_side(glyph: u32) -> u32 {
    if MIN_GLYPHS * glyph <= u32::MAX {
        (MIN_GLYPHS * glyph) as u32
    } else {
        u32::MAX
    }
}

/// The window's inner size in pixels for the requested size and a font.
pub fn window_size(inner_size: (usize, usize), font: &RogueFontData) -> (r: (u32, u32))
    ensures
        r == (window_side(inner_size.0, font.spec_width()), window_side(
            inner_size.1,
            font.spec_height(),
        )),
{
    (side_for(inner_size.0, font.width()), side_for(inner_size.1, font.height()))
}

/// The smallest inner size the window may be given, in pixels.
pub fn min_window_size(font: &RogueFontData) -> (r: (u32, u32))
    ensures
        r == (min_window_side(font.spec_width()), min_window_side(font.spec_height())),
{
    (min_side_for(font.width()), min_side_for(font.height()))
}

fn side_for(requested: usize, glyph: u32) -> (r: u32)
    requires
        glyph > 0,
    ensures
        r == window_side(requested, glyph),
{
    #[verifier::truncate]
    let r: u32 = requested as u32;
    let r: u32 = if r < MIN_GLYPHS {
        MIN_GLYPHS
    } else {
        r
    };
    assert((r / glyph) * glyph <= r) by (nonlinear_arith)
        requires
            glyph > 0,
    ;
    (r / glyph) * glyph
}

fn min_side_for(glyph: u32) -> (r: u32)
    ensures
        r == min_window_side(glyph),
{
    match glyph.checked_mul(MIN_GLYPHS) {
        Some(v) => v,
        None => u32::MAX,
    }
}

} // verus!
