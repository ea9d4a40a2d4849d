//! The cell grid: `BUFFER_HEIGHT` rows of `BUFFER_WIDTH` cells, two bytes each,
//! in memory that the display hardware reads on its own.
//!
//! Every access to a cell goes through [`volatile::Volatile`], so that the
//! compiler can neither drop nor reorder it. What `Volatile` does is taken on
//! trust here; everything above it is proved.

use vstd::prelude::*;
use volatile::Volatile;
use super::color::ColorCode;

verus! {

/// The number of rows on the screen.
pub const BUFFER_HEIGHT: usize = 25;

/// The number of cells in a row.
pub const BUFFER_WIDTH: usize = 80;

/// The character code of a blank cell: a space.
pub const BLANK: u8 = 0x20;

/// One cell of the screen: a character code and the colours it is drawn in.
#[derive(Debug, Clone, Copy, PartialEq, Eq, Structural)]
pub struct ScreenChar {
    pub ascii_character: u8,
    pub color_code: ColorCode,
}

impl ScreenChar {
    /// A space in the given colours.
    pub open spec fn spec_blank(color_code: ColorCode) -> ScreenChar {
        ScreenChar { ascii_character: BLANK, color_code }
    }

    /// The cell as the hardware stores it: the character code in the byte at the
    /// lower address, the attribute in the byte above it.
    pub open spec fn spec_to_bytes(self) -> Seq<u8> {
        seq![self.ascii_character, self.color_code.0]
    }

    /// The cell that two stored bytes stand for.
    pub open spec fn spec_from_bytes(bytes: Seq<u8>) -> ScreenChar {
        ScreenChar { ascii_character: bytes[0], color_code: ColorCode(bytes[1]) }
    }

    /// A space in the given colours.
    #[verifier::when_used_as_spec(spec_blank)]
    pub fn blank(color_code: ColorCode) -> (cell: ScreenChar)
        ensures
            cell == ScreenChar::spec_blank(color_code),
    {
        ScreenChar { ascii_character: BLANK, color_code }
    }

    /// The two bytes that the hardware stores for this cell.
    pub fn to_bytes(self) -> (bytes: [u8; 2])
        ensures
            bytes@ == self.spec_to_bytes(),
        no_unwind
    {
        let bytes: [u8; 2] = [self.ascii_character, self.color_code.0];
        assert(bytes@ =~= self.spec_to_bytes());
        bytes
    }

    /// The cell that two stored bytes stand for.
    pub fn from_bytes(bytes: [u8; 2]) -> (cell: ScreenChar)
        ensures
            cell == ScreenChar::spec_from_bytes(bytes@),
    {
        ScreenChar { ascii_character: bytes[0], color_code: ColorCode(bytes[1]) }
    }
}

/// Storing a cell and decoding the stored bytes gives the cell back.
pub proof fn lemma_cell_bytes_round_trip(cell: ScreenChar)
    ensures
        cell.spec_to_bytes().len() == 2,
        ScreenChar::spec_from_bytes(cell.spec_to_bytes()) == cell,
{
}

/// `volatile::Volatile`: a value that is only ever loaded and stored with
/// volatile accesses. The verifier sees nothing inside it.
#[verifier::external_type_specification]
#[verifier::external_body]
#[verifier::reject_recursive_types(T)]
pub struct ExVolatile<T: Copy>(Volatile<T>);

/// The memory of the screen: each cell is a pair of bytes behind a volatile wrapper.
/// An array of arrays of byte pairs has no padding and keeps its elements in
/// order, so this type has exactly the layout the hardware expects.
pub type Cells = [[Volatile<[u8; 2]>; BUFFER_WIDTH]; BUFFER_HEIGHT];

/// The two bytes that a volatile cell holds: what its last store put there.
pub uninterp spec fn cell_value(cell: Volatile<[u8; 2]>) -> Seq<u8>;

/// `Volatile::read`: a volatile load of the wrapped value. The contract claims
/// that the load returns the bytes the cell holds, which is to say that nothing
/// but a store through the wrapper changes them. That is so for memory of the
/// program's own and for the text buffer of a display, which keeps what is
/// written to it.
#[verifier::external_body]
fn cell_read(cell: &Volatile<[u8; 2]>) -> (bytes: [u8; 2])
    ensures
        bytes@ == cell_value(*cell),
{
    cell.read()
}

/// `Volatile::write`: a volatile store of `bytes` into the wrapped value. The
/// contract claims that the cell holds `bytes` afterwards, and that the call
/// does not panic.
#[verifier::external_body]
fn cell_write(cell: &mut Volatile<[u8; 2]>, bytes: [u8; 2])
    ensures
        cell_value(*final(cell)) == bytes@,
    no_unwind
{
    cell.write(bytes)
}

/// The grid of cells that a block of screen memory holds, row by row.
pub open spec fn cells_view(cells: Cells) -> Seq<Seq<ScreenChar>> {
    Seq::new(
        BUFFER_HEIGHT as nat,
        |row: int|
            Seq::new(
                BUFFER_WIDTH as nat,
                |col: int| ScreenChar::spec_from_bytes(cell_value(cells[row][col])),
            ),
    )
}

/// Whether `grid` has the shape of the screen: `BUFFER_HEIGHT` rows of
/// `BUFFER_WIDTH` cells.
pub open spec fn grid_wf(grid: Seq<Seq<ScreenChar>>) -> bool {
    &&& grid.len() == BUFFER_HEIGHT
    &&& forall|row: int| 0 <= row < BUFFER_HEIGHT ==> (#[trigger] grid[row]).len() == BUFFER_WIDTH
}

/// `grid` with the cell at (`row`, `col`) replaced by `cell`.
pub open spec fn grid_put(grid: Seq<Seq<ScreenChar>>, row: int, col: int, cell: ScreenChar) -> Seq<
    Seq<ScreenChar>,
> {
    grid.update(row, grid[row].update(col, cell))
}

/// The screen memory. It is not allocated by this library: it is handed in once,
/// as an exclusive reference that lives as long as the program, and never moves.
pub struct Buffer {
    chars: &'static mut Cells,
}

impl View for Buffer {
    type V = Seq<Seq<ScreenChar>>;

    /// The cells on the screen, row by row.
    closed spec fn view(&self) -> Seq<Seq<ScreenChar>> {
        cells_view(*self.chars)
    }
}

impl Buffer {
    /// Takes charge of a block of screen memory.
    pub fn new(chars: &'static mut Cells) -> (buffer: Buffer)
        ensures
            buffer@ == cells_view(*old(chars)),
            grid_wf(buffer@),
    {
        Buffer { chars }
    }

    /// A buffer always has the shape of the screen.
    pub proof fn lemma_wf(&self)
        ensures
            grid_wf(self@),
    {
    }

    /// The cell at (`row`, `col`), as the hardware holds it now.
    pub fn read(&self, row: usize, col: usize) -> (cell: ScreenChar)
        requires
            row < BUFFER_HEIGHT,
            col < BUFFER_WIDTH,
        ensures
            cell == self@[row as int][col as int],
    {
        ScreenChar::from_bytes(cell_read(&self.chars[row][col]))
    }

    /// Stores `cell` at (`row`, `col`); no other cell changes.
    pub fn write(&mut self, row: usize, col: usize, cell: ScreenChar)
        requires
            row < BUFFER_HEIGHT,
            col < BUFFER_WIDTH,
        ensures
            final(self)@ == grid_put(old(self)@, row as int, col as int, cell),
        no_unwind
    {
        cell_write(&mut self.chars[row][col], cell.to_bytes());
        assert(self@ =~~= grid_put(old(self)@, row as int, col as int, cell));
    }
}

} // verus!
