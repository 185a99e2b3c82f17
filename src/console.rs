//! The capability set of a console surface, and the plain values it is drawn with.
use vstd::prelude::*;

verus! {

/// A colour with one byte per channel.
#[derive(Clone, Copy, Debug, PartialEq, Eq, Structural)]
pub struct RGB {
    pub r: u8,
    pub g: u8,
    pub b: u8,
}

impl RGB {
    /// Builds a colour from its three channels.
    pub fn from_u8(r: u8, g: u8, b: u8) -> (c: RGB)
        ensures
            c == (RGB { r, g, b }),
    {
        RGB { r, g, b }
    }
}

/// A glyph atlas that the renderer has uploaded: its texture handle and tile size.
#[derive(Clone, Copy, Debug, PartialEq, Eq, Structural)]
pub struct Font {
    pub texture_id: u32,
    pub tile_width: u32,
    pub tile_height: u32,
}

/// A compiled shader program, known by its handle.
#[derive(Clone, Copy, Debug, PartialEq, Eq, Structural)]
pub struct Shader {
    pub program_id: u32,
}

/// A renderable text grid. Each operation is described by a relation between
/// the surface before and after it, which the host's own contracts speak of.
pub trait Console: Sized {
    /// The glyph code at a cell, or `None` where the cell lies outside the grid.
    spec fn glyph_at(&self, x: i32, y: i32) -> Option<usize>;

    /// Whether the surface's geometry must be regenerated before it is drawn.
    spec fn dirty(&self) -> bool;

    /// `after` is `before` cleared.
    spec fn cleared(before: Self, after: Self) -> bool;

    /// `after` is `before` cleared to `background`.
    spec fn cleared_bg(before: Self, after: Self, background: RGB) -> bool;

    /// `after` is `before` with `text` printed from (x, y) in the default colours.
    spec fn printed(before: Self, after: Self, x: i32, y: i32, text: Seq<char>) -> bool;

    /// `after` is `before` with `text` printed from (x, y) in `fg` on `bg`.
    spec fn printed_color(
        before: Self,
        after: Self,
        x: i32,
        y: i32,
        fg: RGB,
        bg: RGB,
        text: Seq<char>,
    ) -> bool;

    /// `after` is `before` with its geometry regenerated.
    spec fn rebuilt(before: Self, after: Self) -> bool;

    /// `after` is `before` once drawn with `font` and `shader`.
    spec fn drawn(before: Self, after: Self, font: Font, shader: Shader) -> bool;

    fn at(&self, x: i32, y: i32) -> (r: Option<usize>)
        ensures
            r == self.glyph_at(x, y),
    ;

    fn cls(&mut self)
        ensures
            Self::cleared(*old(self), *final(self)),
    ;

    fn cls_bg(&mut self, background: RGB)
        ensures
            Self::cleared_bg(*old(self), *final(self), background),
    ;

    fn print(&mut self, x: i32, y: i32, output: &str)
        ensures
            Self::printed(*old(self), *final(self), x, y, output@),
    ;

    fn print_color(&mut self, x: i32, y: i32, fg: RGB, bg: RGB, output: &str)
        ensures
            Self::printed_color(*old(self), *final(self), x, y, fg, bg, output@),
    ;

    fn is_dirty(&self) -> (r: bool)
        ensures
            r == self.dirty(),
    ;

    fn rebuild_geometry(&mut self)
        ensures
            Self::rebuilt(*old(self), *final(self)),
            !final(self).dirty(),
    ;

    fn draw(&mut self, font: &Font, shader: &Shader)
        ensures
            Self::drawn(*old(self), *final(self), *font, *shader),
    ;
}

} // verus!
