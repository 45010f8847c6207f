//! The clipped drawing surface.
//!
//! A [`Frame`] is the in-memory character grid for one draw pass: one cell
//! per terminal column, each holding the grapheme cluster shown there.  A
//! [`Printer`] is a cheap clipped view onto a frame: an offset, a size, a
//! focus flag and a theme snapshot.  Sub-printers clip further without
//! copying the grid.

use vstd::prelude::*;

use crate::theme::Theme;
use crate::xy::Vec2;

verus! {

/// The grapheme clusters of the text, in order.  The segmentation depends on
/// the characters alone.
pub uninterp spec fn graphemes_of(text: Seq<char>) -> Seq<String>;

/// Relies on `unicode_segmentation`'s `UnicodeSegmentation::graphemes`: it
/// splits the text into extended grapheme clusters, which depend on the
/// characters alone; empty text has no clusters.
#[verifier::external_body]
fn graphemes(text: &str) -> (r: Vec<String>)
    ensures
        r@ == graphemes_of(text@),
        text@.len() == 0 ==> r@.len() == 0,
{
    unicode_segmentation::UnicodeSegmentation::graphemes(text, true)
        .map(|g| g.to_owned())
        .collect()
}

/// The number of terminal columns the text occupies.  The width depends on
/// the characters alone.
pub uninterp spec fn grapheme_width(g: Seq<char>) -> usize;

/// Relies on `unicode_width`'s `UnicodeWidthStr::width`: the number of
/// terminal columns the text occupies, which depends on the characters
/// alone; one printable ASCII character occupies exactly one column.
#[verifier::external_body]
fn display_width(g: &str) -> (r: usize)
    ensures
        r == grapheme_width(g@),
        (g@.len() == 1 && ' ' <= g@[0] && g@[0] <= '~') ==> r == 1,
{
    unicode_width::UnicodeWidthStr::width(g)
}

/// The clusters of the first `n` graphemes that occupy at least one column.
pub open spec fn spec_visible_prefix(gs: Seq<String>, n: int) -> Seq<Seq<char>>
    decreases n,
{
    if n <= 0 {
        Seq::empty()
    } else {
        let p = spec_visible_prefix(gs, n - 1);
        if grapheme_width(gs[n - 1]@) >= 1 {
            p.push(gs[n - 1]@)
        } else {
            p
        }
    }
}

/// The visible cell contents of a text: its grapheme clusters, those of zero
/// display width left out.  Each remaining cluster occupies one cell.
pub open spec fn spec_visible(text: Seq<char>) -> Seq<Seq<char>> {
    spec_visible_prefix(graphemes_of(text), graphemes_of(text).len() as int)
}

/// Splits a text into the cell contents it will occupy: one entry per
/// grapheme cluster of nonzero display width.
pub fn visible_cells(text: &str) -> (r: Vec<String>)
    ensures
        r@.map_values(|g: String| g@) == spec_visible(text@),
{
    let gs = graphemes(text);
    let mut r: Vec<String> = Vec::new();
    let n = gs.len();
    let mut i: usize = 0;
    while i < n
        invariant
            n == gs@.len(),
            i <= n,
            gs@ == graphemes_of(text@),
            r@.map_values(|g: String| g@) == spec_visible_prefix(gs@, i as int),
        decreases n - i,
    {
        let w = display_width(gs[i].as_str());
        if w >= 1 {
            let g = gs[i].clone();
            r.push(g);
            proof {
                assert(r@.map_values(|g: String| g@) =~= spec_visible_prefix(
                    gs@,
                    i + 1,
                ));
            }
        } else {
            proof {
                assert(r@.map_values(|g: String| g@) =~= spec_visible_prefix(
                    gs@,
                    i + 1,
                ));
            }
        }
        i = i + 1;
    }
    r
}

/// The character grid of one draw pass.
///
/// Cells are stored row-major: the cell at column `x` of row `y` sits at
/// index `y * size.x + x`.
#[derive(Debug)]
pub struct Frame {
    /// The grid size, in cells.
    pub size: Vec2,
    /// The cell contents, row-major; one grapheme cluster per cell.
    pub cells: Vec<String>,
}

impl Frame {
    /// A frame is well formed when its cell store matches its size and the
    /// size is small enough for index arithmetic.
    pub open spec fn wf(self) -> bool {
        &&& self.size.x <= 32767
        &&& self.size.y <= 32767
        &&& self.cells@.len() == self.size.x * self.size.y
    }

    /// The cell contents as sequences of characters.
    pub open spec fn grid(self) -> Seq<Seq<char>> {
        self.cells@.map_values(|g: String| g@)
    }

    /// The content of the cell at column `x` of row `y`.
    pub open spec fn spec_cell(self, x: int, y: int) -> Seq<char> {
        self.grid()[y * self.size.x + x]
    }

    /// Builds a blank frame of the given size: every cell holds one space.
    pub fn new(size: Vec2) -> (r: Frame)
        requires
            size.x <= 32767,
            size.y <= 32767,
        ensures
            r.wf(),
            r.size == size,
            forall|i: int| 0 <= i < r.grid().len() ==> #[trigger] r.grid()[i] == " "@,
    {
        proof {
            assert(size.x * size.y <= 32767 * 32767) by (nonlinear_arith)
                requires
                    size.x <= 32767,
                    size.y <= 32767,
            ;
        }
        let n: usize = size.x * size.y;
        let mut cells: Vec<String> = Vec::new();
        let mut i: usize = 0;
        while i < n
            invariant
                i <= n,
                cells@.len() == i,
                forall|j: int| 0 <= j < i ==> #[trigger] cells@[j]@ == " "@,
            decreases n - i,
        {
            cells.push(" ".to_owned());
            i = i + 1;
        }
        Frame { size, cells }
    }

    /// Reads the cell at column `x` of row `y`.
    pub fn cell(&self, x: usize, y: usize) -> (r: &String)
        requires
            self.wf(),
            x < self.size.x,
            y < self.size.y,
        ensures
            r@ == self.spec_cell(x as int, y as int),
    {
        proof {
            assert(y * self.size.x + x < self.size.x * self.size.y && self.size.x * self.size.y
                <= 32767 * 32767) by (nonlinear_arith)
                requires
                    x < self.size.x,
                    y < self.size.y,
                    self.size.x <= 32767,
                    self.size.y <= 32767,
            ;
        }
        &self.cells[y * self.size.x + x]
    }
}

/// A clipped, offset view onto a frame, carrying the focus flag and the
/// theme snapshot that views draw with.
#[derive(Clone, Copy, Debug, PartialEq, Eq, Structural)]
pub struct Printer {
    /// Where this printer's region starts on the frame.
    pub offset: Vec2,
    /// The size of the region drawing is clipped to.
    pub size: Vec2,
    /// Whether the view drawn through this printer has input focus.
    pub focused: bool,
    /// The theme snapshot for this draw pass.
    pub theme: Theme,
}

impl Printer {
    /// Bounded offsets keep all clipping arithmetic free of overflow.
    pub open spec fn wf(self) -> bool {
        &&& self.offset.x + self.size.x <= 0x7fff_ffff
        &&& self.offset.y + self.size.y <= 0x7fff_ffff
    }

    /// A printer covering a whole frame of the given size.
    pub fn new(size: Vec2, theme: Theme) -> (r: Printer)
        requires
            size.x <= 32767,
            size.y <= 32767,
        ensures
            r == (Printer { offset: (Vec2 { x: 0usize, y: 0usize }), size, focused: true, theme }),
            r.wf(),
    {
        Printer { offset: Vec2 { x: 0, y: 0 }, size, focused: true, theme }
    }

    /// The printer derived by moving `offset` into this printer's region and
    /// clipping `size` to what remains of it.
    pub open spec fn spec_sub_printer(self, offset: Vec2, size: Vec2, focused: bool) -> Printer {
        let dx = if offset.x < self.size.x { offset.x } else { self.size.x };
        let dy = if offset.y < self.size.y { offset.y } else { self.size.y };
        let w = if size.x < self.size.x - dx { size.x } else { (self.size.x - dx) as usize };
        let h = if size.y < self.size.y - dy { size.y } else { (self.size.y - dy) as usize };
        Printer {
            offset: (Vec2 { x: (self.offset.x + dx) as usize, y: (self.offset.y + dy) as usize }),
            size: (Vec2 { x: w, y: h }),
            focused,
            theme: self.theme,
        }
    }

    /// Derives a printer clipped to `offset..offset+size` of this one, with
    /// its own focus flag.
    pub fn sub_printer(&self, offset: Vec2, size: Vec2, focused: bool) -> (r: Printer)
        requires
            self.wf(),
        ensures
            r == self.spec_sub_printer(offset, size, focused),
            r.wf(),
    {
        let dx = if offset.x < self.size.x { offset.x } else { self.size.x };
        let dy = if offset.y < self.size.y { offset.y } else { self.size.y };
        let w = if size.x < self.size.x - dx { size.x } else { self.size.x - dx };
        let h = if size.y < self.size.y - dy { size.y } else { self.size.y - dy };
        Printer {
            offset: Vec2 { x: self.offset.x + dx, y: self.offset.y + dy },
            size: Vec2 { x: w, y: h },
            focused,
            theme: self.theme,
        }
    }
}

/// The grid after printing `text` at `pos` of printer `p`: the visible cells
/// of the text land on one row, clipped to the printer's region and to the
/// frame; everything else keeps its content.
pub open spec fn spec_print(
    grid: Seq<Seq<char>>,
    fsize: Vec2,
    p: Printer,
    pos: Vec2,
    text: Seq<char>,
) -> Seq<Seq<char>> {
    if pos.x >= p.size.x || pos.y >= p.size.y {
        grid
    } else {
        let row = p.offset.y + pos.y;
        let sx = p.offset.x + pos.x;
        let vis = spec_visible(text);
        Seq::new(
            grid.len(),
            |i: int|
                {
                    let y = i / (fsize.x as int);
                    let x = i % (fsize.x as int);
                    if y == row && sx <= x && x - sx < vis.len() && x < p.offset.x + p.size.x {
                        vis[x - sx]
                    } else {
                        grid[i]
                    }
                },
        )
    }
}

impl Printer {
    /// Prints a text starting at `pos` (relative to this printer), clipped
    /// to the printer's region and to the frame.
    pub fn print(&self, frame: &mut Frame, pos: Vec2, text: &str)
        requires
            old(frame).wf(),
            self.wf(),
        ensures
            final(frame).wf(),
            final(frame).size == old(frame).size,
            final(frame).grid() == spec_print(old(frame).grid(), old(frame).size, *self, pos, text@),
    {
        let ghost grid0 = frame.grid();
        if pos.x >= self.size.x || pos.y >= self.size.y {
            return ;
        }
        let row = self.offset.y + pos.y;
        let sx = self.offset.x + pos.x;
        let fw = frame.size.x;
        let fh = frame.size.y;
        let ghost vis_s = spec_visible(text@);
        if row >= fh {
            proof {
                lemma_print_out_of_frame(grid0, frame.size, *self, pos, text@);
            }
            return ;
        }
        // the rightmost column (exclusive) that may be written
        let right_p = self.offset.x + self.size.x;
        let right = if right_p < fw { right_p } else { fw };
        let vis = visible_cells(text);
        let count = if sx >= right {
            0
        } else if vis.len() < right - sx {
            vis.len()
        } else {
            right - sx
        };
        proof {
            assert(row * fw + fw <= fw * fh && fw * fh <= 32767 * 32767) by (nonlinear_arith)
                requires
                    row < fh,
                    0 <= row,
                    0 <= fw,
                    fw <= 32767,
                    fh <= 32767,
            ;
            assert(fw * fh == frame.size.x * frame.size.y);
        }
        let base = row * fw;
        let mut k: usize = 0;
        while k < count
            invariant
                frame.size == old(frame).size,
                frame.wf(),
                fw == frame.size.x,
                fh == frame.size.y,
                row < fh,
                base == row * fw,
                base + fw <= 0x4000_0000,
                count == 0 || sx + count <= right,
                right <= fw,
                right <= self.offset.x + self.size.x,
                count <= vis@.len(),
                base + fw <= frame.grid().len(),
                vis@.map_values(|g: String| g@) == vis_s,
                k <= count,
                frame.grid().len() == grid0.len(),
                forall|i: int|
                    0 <= i < grid0.len() && !(base + sx <= i < base + sx + k)
                        ==> #[trigger] frame.grid()[i] == grid0[i],
                forall|j: int| 0 <= j < k ==> #[trigger] frame.grid()[base + sx + j] == vis_s[j],
            decreases count - k,
        {
            let g = vis[k].clone();
            let idx = base + sx + k;
            let ghost before = frame.grid();
            frame.cells.set(idx, g);
            proof {
                assert(frame.grid() =~= before.update(idx as int, vis_s[k as int]));
            }
            k = k + 1;
        }
        proof {
            lemma_print_done(grid0, frame.grid(), old(frame).size, *self, pos, text@, count as int);
        }
    }
}

/// When the target row lies below the frame, printing changes nothing.
proof fn lemma_print_out_of_frame(grid: Seq<Seq<char>>, fsize: Vec2, p: Printer, pos: Vec2, text: Seq<char>)
    requires
        pos.x < p.size.x,
        pos.y < p.size.y,
        p.offset.y + pos.y >= fsize.y,
        grid.len() == fsize.x * fsize.y,
    ensures
        spec_print(grid, fsize, p, pos, text) == grid,
{
    let row = p.offset.y + pos.y;
    assert forall|i: int| #![trigger grid[i]] 0 <= i < grid.len() implies i / (fsize.x as int)
        != row by {
        assert(0 < fsize.x && 0 < fsize.y) by (nonlinear_arith)
            requires
                0 <= i,
                i < fsize.x * fsize.y,
        ;
        assert(fsize.x * fsize.y <= fsize.x * row) by (nonlinear_arith)
            requires
                fsize.y <= row,
                0 <= fsize.x,
        ;
        assert(i / (fsize.x as int) < row) by (nonlinear_arith)
            requires
                0 <= i,
                i < fsize.x * row,
                0 < fsize.x,
        ;
    }
    assert(spec_print(grid, fsize, p, pos, text) =~= grid);
}

/// After the write loop, the pointwise description of the cells matches the
/// closed form of `spec_print`.
proof fn lemma_print_done(
    grid0: Seq<Seq<char>>,
    grid1: Seq<Seq<char>>,
    fsize: Vec2,
    p: Printer,
    pos: Vec2,
    text: Seq<char>,
    count: int,
)
    requires
        pos.x < p.size.x,
        pos.y < p.size.y,
        p.offset.y + pos.y < fsize.y,
        fsize.x <= 32767,
        fsize.y <= 32767,
        grid0.len() == fsize.x * fsize.y,
        grid1.len() == grid0.len(),
        count == spec_print_count(fsize, p, pos, text),
        forall|i: int|
            0 <= i < grid0.len() && !((p.offset.y + pos.y) * fsize.x + p.offset.x + pos.x <= i
                < (p.offset.y + pos.y) * fsize.x + p.offset.x + pos.x + count)
                ==> #[trigger] grid1[i] == grid0[i],
        forall|j: int|
            0 <= j < count
                ==> #[trigger] grid1[(p.offset.y + pos.y) * fsize.x + p.offset.x + pos.x + j]
                == spec_visible(text)[j],
    ensures
        grid1 == spec_print(grid0, fsize, p, pos, text),
{
    let row = p.offset.y + pos.y;
    let sx = p.offset.x + pos.x;
    let vis = spec_visible(text);
    let base = row * fsize.x;
    assert(base + fsize.x <= grid0.len()) by (nonlinear_arith)
        requires
            row < fsize.y,
            base == row * fsize.x,
            grid0.len() == fsize.x * fsize.y,
            0 <= fsize.x,
    ;
    assert forall|i: int| 0 <= i < grid0.len() implies #[trigger] grid1[i] == spec_print(
        grid0,
        fsize,
        p,
        pos,
        text,
    )[i] by {
        let y = i / (fsize.x as int);
        let x = i % (fsize.x as int);
        if fsize.x == 0 {
            assert(grid0.len() == 0) by (nonlinear_arith)
                requires
                    grid0.len() == fsize.x * fsize.y,
                    fsize.x == 0,
            ;
        } else {
            vstd::arithmetic::div_mod::lemma_fundamental_div_mod(i, fsize.x as int);
            vstd::arithmetic::div_mod::lemma_mod_bound(i, fsize.x as int);
            assert(i == y * fsize.x + x && 0 <= x < fsize.x) by (nonlinear_arith)
                requires
                    i == fsize.x * (i / (fsize.x as int)) + (i % (fsize.x as int)),
                    0 <= i % (fsize.x as int) < fsize.x,
                    y == i / (fsize.x as int),
                    x == i % (fsize.x as int),
            ;
            if y == row && sx <= x && x - sx < vis.len() && x < p.offset.x + p.size.x {
                assert(y * fsize.x == base) by (nonlinear_arith)
                    requires
                        y == row,
                        base == row * fsize.x,
                ;
                assert(i == base + sx + (x - sx));
                assert(x - sx < count);
            } else {
                if base + sx <= i < base + sx + count {
                    let j = i - base - sx;
                    assert(sx + count <= fsize.x);
                    vstd::arithmetic::div_mod::lemma_fundamental_div_mod_converse_div(
                        i,
                        fsize.x as int,
                        row,
                        sx + j,
                    );
                    vstd::arithmetic::div_mod::lemma_fundamental_div_mod_converse_mod(
                        i,
                        fsize.x as int,
                        row,
                        sx + j,
                    );
                    assert(y == row && x == sx + j);
                }
            }
        }
    }
    assert(grid1 =~= spec_print(grid0, fsize, p, pos, text));
}

/// How many cells a print writes: the visible cells, clipped to the
/// printer's right edge and the frame's.
pub open spec fn spec_print_count(fsize: Vec2, p: Printer, pos: Vec2, text: Seq<char>) -> int {
    let sx = p.offset.x + pos.x;
    let right_p = p.offset.x + p.size.x;
    let right = if right_p < fsize.x { right_p } else { fsize.x as int };
    let vis = spec_visible(text);
    if sx >= right {
        0
    } else if vis.len() < right - sx {
        vis.len() as int
    } else {
        right - sx
    }
}

} // verus!
