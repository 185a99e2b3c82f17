//! A console surface held as a grid of cells in memory.
use vstd::prelude::*;
use crate::console::{Console, Font, Shader, RGB};

verus! {

/// One cell of a grid: a glyph code and its colours.
#[derive(Clone, Copy, Debug, PartialEq, Eq, Structural)]
pub struct Tile {
    pub glyph: u8,
    pub fg: RGB,
    pub bg: RGB,
}

/// A grid of `width` by `height` cells, row by row, with a flag that says
/// whether the cells changed since the geometry was last rebuilt.
pub struct SimpleConsole {
    pub width: u32,
    pub height: u32,
    pub tiles: Vec<Tile>,
    pub dirty: bool,
}

/// The default foreground colour: white.
pub open spec fn white() -> RGB {
    RGB { r: 255, g: 255, b: 255 }
}

/// The default background colour: black.
pub open spec fn black() -> RGB {
    RGB { r: 0, g: 0, b: 0 }
}

/// The glyph code of a blank cell.
pub const SPACE: u8 = 32;

/// The glyph code a character is printed as: ASCII as itself, anything else as `?`.
pub open spec fn glyph_of(c: char) -> u8 {
    if (c as u32) < 128 {
        c as u32 as u8
    } else {
        63
    }
}

fn glyph_for(c: char) -> (r: u8)
    ensures
        r == glyph_of(c),
{
    let code = c as u32;
    if code < 128 {
        code as u8
    } else {
        63
    }
}

proof fn lemma_cell_index_injective(w: int, cx: int, cy: int, px: int, py: int)
    requires
        0 <= cx < w,
        0 <= px < w,
        0 <= cy,
        0 <= py,
        cy * w + cx == py * w + px,
    ensures
        cx == px,
        cy == py,
{
    if cy < py {
        assert(cy * w + w <= py * w) by (nonlinear_arith)
            requires
                cy < py,
                0 <= w,
        ;
    } else if cy > py {
        assert(py * w + w <= cy * w) by (nonlinear_arith)
            requires
                py < cy,
                0 <= w,
        ;
    }
}

impl SimpleConsole {
    /// Where cell (x, y) is held, if it lies in the grid.
    pub open spec fn cell_index(self, x: int, y: int) -> Option<int> {
        if 0 <= x < self.width && 0 <= y < self.height && y * self.width + x < self.tiles@.len() {
            Some(y * self.width + x)
        } else {
            None
        }
    }

    /// The cell at (x, y), if it lies in the grid.
    pub open spec fn tile_at(self, x: int, y: int) -> Option<Tile> {
        match self.cell_index(x, y) {
            Some(i) => Some(self.tiles@[i]),
            None => None,
        }
    }

    /// Same size and the same cells as `other`.
    pub open spec fn same_grid(self, other: Self) -> bool {
        &&& self.width == other.width
        &&& self.height == other.height
        &&& self.tiles@ == other.tiles@
    }

    /// `after` is `before` with every cell set to `t` and marked dirty.
    pub open spec fn filled(before: Self, after: Self, t: Tile) -> bool {
        &&& after.width == before.width
        &&& after.height == before.height
        &&& after.tiles@ == Seq::new(before.tiles@.len(), |i: int| t)
        &&& after.dirty
    }

    /// `after` is `before` with `text` written from (x, y) rightwards in the
    /// given colours, one character per cell, cells outside the grid skipped.
    pub open spec fn written(
        before: Self,
        after: Self,
        x: i32,
        y: i32,
        fg: RGB,
        bg: RGB,
        text: Seq<char>,
    ) -> bool {
        &&& after.width == before.width
        &&& after.height == before.height
        &&& after.tiles@.len() == before.tiles@.len()
        &&& after.dirty
        &&& forall|cx: int, cy: int|
            #[trigger] after.tile_at(cx, cy) == if cy == y && x <= cx < x + text.len()
                && before.tile_at(cx, cy) is Some {
                Some(Tile { glyph: glyph_of(text[cx - x]), fg, bg })
            } else {
                before.tile_at(cx, cy)
            }
    }

    /// A blank grid of `width` by `height` cells, white on black, marked dirty.
    pub fn init(width: u32, height: u32) -> (r: SimpleConsole)
        requires
            width * height <= usize::MAX,
        ensures
            r.width == width,
            r.height == height,
            r.tiles@ == Seq::new(
                (width * height) as nat,
                |i: int| Tile { glyph: SPACE, fg: white(), bg: black() },
            ),
            r.dirty,
    {
        let n = width as usize * height as usize;
        let blank = Tile {
            glyph: SPACE,
            fg: RGB { r: 255, g: 255, b: 255 },
            bg: RGB { r: 0, g: 0, b: 0 },
        };
        let mut tiles: Vec<Tile> = Vec::new();
        let mut i: usize = 0;
        while i < n
            invariant
                0 <= i <= n,
                tiles@ == Seq::new(i as nat, |k: int| blank),
            decreases n - i,
        {
            tiles.push(blank);
            i += 1;
            assert(tiles@ =~= Seq::new(i as nat, |k: int| blank));
        }
        SimpleConsole { width, height, tiles, dirty: true }
    }

    fn index_of(&self, x: i64, y: i64) -> (r: Option<usize>)
        ensures
            r matches Some(i) ==> self.cell_index(x as int, y as int) == Some(i as int),
            r is None ==> self.cell_index(x as int, y as int) is None,
    {
        if x < 0 || y < 0 || x >= self.width as i64 || y >= self.height as i64 {
            return None;
        }
        let xu = x as u64;
        let yu = y as u64;
        let w = self.width as u64;
        assert(yu * w <= 0xffff_ffff * 0xffff_ffff) by (nonlinear_arith)
            requires
                yu <= 0xffff_ffff,
                w <= 0xffff_ffff,
        ;
        let idx = yu * w + xu;
        if idx < self.tiles.len() as u64 {
            Some(idx as usize)
        } else {
            None
        }
    }

    /// The cell at (x, y), if it lies in the grid.
    pub fn tile(&self, x: i32, y: i32) -> (r: Option<Tile>)
        ensures
            r == self.tile_at(x as int, y as int),
    {
        match self.index_of(x as i64, y as i64) {
            Some(i) => Some(self.tiles[i]),
            None => None,
        }
    }

    fn fill(&mut self, t: Tile)
        ensures
            SimpleConsole::filled(*old(self), *final(self), t),
    {
        let n = self.tiles.len();
        let mut i: usize = 0;
        while i < n
            invariant
                0 <= i <= n,
                n == self.tiles@.len(),
                self.width == old(self).width,
                self.height == old(self).height,
                self.tiles@.len() == old(self).tiles@.len(),
                forall|k: int| 0 <= k < i ==> #[trigger] self.tiles@[k] == t,
            decreases n - i,
        {
            self.tiles[i] = t;
            i += 1;
        }
        self.dirty = true;
        assert(self.tiles@ =~= Seq::new(old(self).tiles@.len(), |i: int| t));
    }

    fn write(&mut self, x: i32, y: i32, fg: RGB, bg: RGB, output: &str)
        ensures
            SimpleConsole::written(*old(self), *final(self), x, y, fg, bg, output@),
    {
        let ghost before = *self;
        let n = output.unicode_len();
        let mut i: usize = 0;
        while i < n
            invariant
                0 <= i <= n,
                n == output@.len(),
                self.width == before.width,
                self.height == before.height,
                self.tiles@.len() == before.tiles@.len(),
                forall|cx: int, cy: int|
                    #[trigger] self.tile_at(cx, cy) == if cy == y && x <= cx < x + i
                        && before.tile_at(cx, cy) is Some {
                        Some(Tile { glyph: glyph_of(output@[cx - x]), fg, bg })
                    } else {
                        before.tile_at(cx, cy)
                    },
            decreases n - i,
        {
            if (i as u64) < 0x100_0000_0000 {
                let px: i64 = x as i64 + i as i64;
                match self.index_of(px, y as i64) {
                    Some(idx) => {
                        let t = Tile { glyph: glyph_for(output.get_char(i)), fg, bg };
                        let ghost prev = *self;
                        self.tiles[idx] = t;
                        assert forall|cx: int, cy: int|
                            #[trigger] self.tile_at(cx, cy) == if cy == y && x <= cx < x + i + 1
                                && before.tile_at(cx, cy) is Some {
                                Some(Tile { glyph: glyph_of(output@[cx - x]), fg, bg })
                            } else {
                                before.tile_at(cx, cy)
                            } by {
                            assert(prev.tile_at(cx, cy) == if cy == y && x <= cx < x + i
                                && before.tile_at(cx, cy) is Some {
                                Some(Tile { glyph: glyph_of(output@[cx - x]), fg, bg })
                            } else {
                                before.tile_at(cx, cy)
                            });
                            if self.cell_index(cx, cy) is Some && !(cx == px && cy == y) {
                                if cy * self.width + cx == idx {
                                    lemma_cell_index_injective(
                                        self.width as int,
                                        cx,
                                        cy,
                                        px as int,
                                        y as int,
                                    );
                                }
                            }
                            assert(prev.tile_at(px as int, y as int) == before.tile_at(
                                px as int,
                                y as int,
                            ));
                        }
                    },
                    None => {
                        assert forall|cx: int, cy: int|
                            #[trigger] self.tile_at(cx, cy) == if cy == y && x <= cx < x + i + 1
                                && before.tile_at(cx, cy) is Some {
                                Some(Tile { glyph: glyph_of(output@[cx - x]), fg, bg })
                            } else {
                                before.tile_at(cx, cy)
                            } by {
                            assert(self.tile_at(px as int, y as int) == before.tile_at(
                                px as int,
                                y as int,
                            ));
                        }
                    },
                }
            } else {
                assert forall|cx: int, cy: int|
                    #[trigger] self.tile_at(cx, cy) == if cy == y && x <= cx < x + i + 1
                        && before.tile_at(cx, cy) is Some {
                        Some(Tile { glyph: glyph_of(output@[cx - x]), fg, bg })
                    } else {
                        before.tile_at(cx, cy)
                    } by {
                    assert(before.tile_at(x + i, cy) is None);
                }
            }
            i += 1;
        }
        let ghost mid = *self;
        self.dirty = true;
        assert forall|cx: int, cy: int| #[trigger] self.tile_at(cx, cy) == mid.tile_at(cx, cy) by {}
    }
}

impl Console for SimpleConsole {
    open spec fn glyph_at(&self, x: i32, y: i32) -> Option<usize> {
        match self.tile_at(x as int, y as int) {
            Some(t) => Some(t.glyph as usize),
            None => None,
        }
    }

    open spec fn dirty(&self) -> bool {
        self.dirty
    }

    open spec fn cleared(before: Self, after: Self) -> bool {
        SimpleConsole::filled(before, after, Tile { glyph: SPACE, fg: white(), bg: black() })
    }

    open spec fn cleared_bg(before: Self, after: Self, background: RGB) -> bool {
        SimpleConsole::filled(before, after, Tile { glyph: SPACE, fg: white(), bg: background })
    }

    open spec fn printed(before: Self, after: Self, x: i32, y: i32, text: Seq<char>) -> bool {
        SimpleConsole::written(before, after, x, y, white(), black(), text)
    }

    open spec fn printed_color(
        before: Self,
        after: Self,
        x: i32,
        y: i32,
        fg: RGB,
        bg: RGB,
        text: Seq<char>,
    ) -> bool {
        SimpleConsole::written(before, after, x, y, fg, bg, text)
    }

    open spec fn rebuilt(before: Self, after: Self) -> bool {
        after.same_grid(before)
    }

    open spec fn drawn(before: Self, after: Self, font: Font, shader: Shader) -> bool {
        after.same_grid(before) && after.dirty == before.dirty
    }

    fn at(&self, x: i32, y: i32) -> (r: Option<usize>) {
        match self.tile(x, y) {
            Some(t) => Some(t.glyph as usize),
            None => None,
        }
    }

    fn cls(&mut self) {
        self.fill(
            Tile { glyph: SPACE, fg: RGB { r: 255, g: 255, b: 255 }, bg: RGB { r: 0, g: 0, b: 0 } },
        );
    }

    fn cls_bg(&mut self, background: RGB) {
        self.fill(Tile { glyph: SPACE, fg: RGB { r: 255, g: 255, b: 255 }, bg: background });
    }

    fn print(&mut self, x: i32, y: i32, output: &str) {
        self.write(x, y, RGB { r: 255, g: 255, b: 255 }, RGB { r: 0, g: 0, b: 0 }, output);
    }

    fn print_color(&mut self, x: i32, y: i32, fg: RGB, bg: RGB, output: &str) {
        self.write(x, y, fg, bg, output);
    }

    fn is_dirty(&self) -> (r: bool) {
        self.dirty
    }

    /// The cells carry no geometry of their own: rebuilding marks them current.
    fn rebuild_geometry(&mut self) {
        self.dirty = false;
    }

    /// Drawing is the renderer's part; the cells are left as they are.
    fn draw(&mut self, _font: &Font, _shader: &Shader) {
    }
}

} // verus!
