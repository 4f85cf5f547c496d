//! The terminal screen as a grid of styled cells.

use vstd::prelude::*;

verus! {

/// A terminal colour, as a cell's foreground, background or underline.
#[derive(Clone, Copy, Debug, PartialEq, Eq, Structural)]
pub enum Color {
    Reset,
    Black,
    Red,
    Green,
    Yellow,
    Blue,
    Magenta,
    Cyan,
    Gray,
    DarkGray,
    LightRed,
    LightGreen,
    LightYellow,
    LightBlue,
    LightMagenta,
    LightCyan,
    White,
    Rgb(u8, u8, u8),
    Indexed(u8),
}

/// What one grid position shows: a grapheme and its style attributes.
#[derive(Debug, PartialEq, Eq)]
pub struct Cell {
    pub symbol: String,
    pub fg: Color,
    pub bg: Color,
    pub underline_color: Color,
    /// The text modifiers (bold, italic, ...) as a bit set.
    pub modifier: u16,
    /// Whether the terminal backend leaves this position alone.
    pub skip: bool,
}

/// The mathematical content of a [`Cell`].
pub struct CellView {
    pub symbol: Seq<char>,
    pub fg: Color,
    pub bg: Color,
    pub underline_color: Color,
    pub modifier: u16,
    pub skip: bool,
}

impl View for Cell {
    type V = CellView;

    open spec fn view(&self) -> CellView {
        CellView {
            symbol: self.symbol@,
            fg: self.fg,
            bg: self.bg,
            underline_color: self.underline_color,
            modifier: self.modifier,
            skip: self.skip,
        }
    }
}

impl DeepView for Cell {
    type V = CellView;

    open spec fn deep_view(&self) -> CellView {
        self@
    }
}

impl Clone for Cell {
    fn clone(&self) -> (c: Self)
        ensures
            c@ == self@,
    {
        Cell {
            symbol: self.symbol.clone(),
            fg: self.fg,
            bg: self.bg,
            underline_color: self.underline_color,
            modifier: self.modifier,
            skip: self.skip,
        }
    }
}

impl Cell {
    /// A blank cell: one space in the terminal's default colours.
    pub fn blank() -> (c: Self)
        ensures
            c@ == (CellView {
                symbol: " "@,
                fg: Color::Reset,
                bg: Color::Reset,
                underline_color: Color::Reset,
                modifier: 0,
                skip: false,
            }),
    {
        Cell {
            symbol: " ".to_owned(),
            fg: Color::Reset,
            bg: Color::Reset,
            underline_color: Color::Reset,
            modifier: 0,
            skip: false,
        }
    }

    /// Whether two cells show the same thing: symbol and every attribute.
    pub fn same_as(&self, other: &Cell) -> (same: bool)
        ensures
            same == (self@ == other@),
    {
        self.symbol == other.symbol && self.fg == other.fg && self.bg == other.bg
            && self.underline_color == other.underline_color && self.modifier == other.modifier
            && self.skip == other.skip
    }
}

/// One write to the terminal: the cell to show at column `x`, row `y`.
#[derive(Debug, PartialEq, Eq)]
pub struct CellWrite {
    pub x: u16,
    pub y: u16,
    pub cell: Cell,
}

/// The mathematical content of a [`CellWrite`].
pub struct CellWriteView {
    pub x: int,
    pub y: int,
    pub cell: CellView,
}

impl View for CellWrite {
    type V = CellWriteView;

    open spec fn view(&self) -> CellWriteView {
        CellWriteView { x: self.x as int, y: self.y as int, cell: self.cell@ }
    }
}

impl DeepView for CellWrite {
    type V = CellWriteView;

    open spec fn deep_view(&self) -> CellWriteView {
        self@
    }
}

/// A full screen of cells, `width` columns by `height` rows, stored row by row.
#[derive(Debug, PartialEq, Eq)]
pub struct FrameGrid {
    width: u16,
    height: u16,
    cells: Vec<Cell>,
}

/// The mathematical content of a [`FrameGrid`]: its size and its cells in
/// row-major order.
pub struct FrameGridView {
    pub width: nat,
    pub height: nat,
    pub cells: Seq<CellView>,
}

impl FrameGridView {
    /// The grid holds exactly one cell per position, and its sides fit a
    /// terminal's 16-bit coordinates.
    pub open spec fn wf(self) -> bool {
        &&& self.width <= u16::MAX
        &&& self.height <= u16::MAX
        &&& self.cells.len() == self.width * self.height
    }

    /// The cell at column `x`, row `y`.
    pub open spec fn cell_at(self, x: int, y: int) -> CellView
        recommends
            0 <= x < self.width,
            0 <= y < self.height,
    {
        self.cells[y * self.width + x]
    }

    /// Whether two grids have the same number of columns and of rows.
    pub open spec fn same_size(self, other: FrameGridView) -> bool {
        self.width == other.width && self.height == other.height
    }
}

impl View for FrameGrid {
    type V = FrameGridView;

    closed spec fn view(&self) -> FrameGridView {
        FrameGridView {
            width: self.width as nat,
            height: self.height as nat,
            cells: self.cells.deep_view(),
        }
    }
}

impl FrameGrid {
    #[verifier::type_invariant]
    spec fn inv(self) -> bool {
        self.cells.len() == self.width * self.height
    }

    /// The grid of no cells: zero columns, zero rows.
    pub fn empty() -> (grid: Self)
        ensures
            grid@.wf(),
            grid@.width == 0,
            grid@.height == 0,
    {
        FrameGrid { width: 0, height: 0, cells: Vec::new() }
    }

    /// The grid of the given size whose cells are `cells`, row by row; `None`
    /// unless `cells` holds exactly `width * height` cells.
    pub fn from_cells(width: u16, height: u16, cells: Vec<Cell>) -> (grid: Option<Self>)
        ensures
            grid is Some <==> cells.len() == width * height,
            grid matches Some(g) ==> g@.wf() && g@ == (FrameGridView {
                width: width as nat,
                height: height as nat,
                cells: cells.deep_view(),
            }),
    {
        assert(width * height <= 0xffff * 0xffff) by (nonlinear_arith)
            requires
                width <= 0xffff,
                height <= 0xffff,
        ;
        let total: u32 = width as u32 * height as u32;
        if cells.len() == total as usize {
            Some(FrameGrid { width, height, cells })
        } else {
            None
        }
    }

    /// The number of columns.
    pub fn width(&self) -> (w: u16)
        ensures
            w == self@.width,
            self@.wf(),
    {
        proof {
            use_type_invariant(self);
        }
        self.width
    }

    /// The number of rows.
    pub fn height(&self) -> (h: u16)
        ensures
            h == self@.height,
            self@.wf(),
    {
        proof {
            use_type_invariant(self);
        }
        self.height
    }

    /// The number of cells, `width * height`.
    pub fn len(&self) -> (n: usize)
        ensures
            n == self@.cells.len(),
            self@.wf(),
    {
        proof {
            use_type_invariant(self);
        }
        self.cells.len()
    }

    /// The cell at row-major position `i`.
    pub(crate) fn cell(&self, i: usize) -> (c: &Cell)
        requires
            i < self@.cells.len(),
        ensures
            c@ == self@.cells[i as int],
    {
        &self.cells[i]
    }

    /// The cell at column `x`, row `y`; `None` outside the grid.
    pub fn get(&self, x: u16, y: u16) -> (c: Option<&Cell>)
        ensures
            c is Some <==> x < self@.width && y < self@.height,
            c matches Some(cell) ==> cell@ == self@.cell_at(x as int, y as int),
    {
        proof {
            use_type_invariant(self);
        }
        if x < self.width && y < self.height {
            assert(y * self.width + x < self.width * self.height) by (nonlinear_arith)
                requires
                    x < self.width,
                    y < self.height,
            ;
            assert(self.width * self.height <= 0xffff * 0xffff) by (nonlinear_arith)
                requires
                    self.width <= 0xffff,
                    self.height <= 0xffff,
            ;
            let i: u32 = y as u32 * self.width as u32 + x as u32;
            Some(&self.cells[i as usize])
        } else {
            None
        }
    }
}

impl Clone for FrameGrid {
    fn clone(&self) -> (grid: Self)
        ensures
            grid@ == self@,
    {
        proof {
            use_type_invariant(self);
        }
        let mut cells: Vec<Cell> = Vec::new();
        let mut i: usize = 0;
        while i < self.cells.len()
            invariant
                i <= self.cells.len(),
                cells.len() == i,
                forall|j: int| 0 <= j < i ==> cells[j]@ == self.cells[j]@,
            decreases self.cells.len() - i,
        {
            cells.push(self.cells[i].clone());
            i += 1;
        }
        assert(cells.deep_view() =~= self.cells.deep_view());
        FrameGrid { width: self.width, height: self.height, cells }
    }
}

} // verus!
