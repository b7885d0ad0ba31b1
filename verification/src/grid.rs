//! The grid engine: a `width x height` toroidal grid of live/dead cells,
//! bit-packed row-major in a `FixedBitSet`.

use vstd::prelude::*;
use fixedbitset::FixedBitSet;
use crate::bits::{bit_seq, bitset_clone, bitset_get, bitset_new, bitset_set};
use crate::entropy::random_sample_bits;
use crate::rules::{cell_index, lemma_grid_lookup, live_neighbours, step_cells};

verus! {

/// What a `Universe` stands for: its dimensions and the row-major sequence
/// of cell states, `true` for live. The cell in column `x`, row `y` is
/// `cells[x + y * width]`.
#[verifier::ext_equal]
pub ghost struct GridView {
    pub width: int,
    pub height: int,
    pub cells: Seq<bool>,
}

impl GridView {
    /// The grid's invariant: the bit storage covers exactly `width * height`
    /// cells, and the derived pixel buffer's length fits a `usize`.
    pub open spec fn wf(self) -> bool {
        &&& 0 <= self.width <= u32::MAX
        &&& 0 <= self.height <= u32::MAX
        &&& self.cells.len() == self.width * self.height
        &&& self.width * self.height * 4 <= usize::MAX
    }

    /// The same dimensions with every cell dead.
    pub open spec fn cleared(self) -> GridView {
        GridView {
            width: self.width,
            height: self.height,
            cells: Seq::new((self.width * self.height) as nat, |i: int| false),
        }
    }

    /// The next generation of this grid.
    pub open spec fn stepped(self) -> GridView {
        GridView {
            width: self.width,
            height: self.height,
            cells: step_cells(self.cells, self.width, self.height),
        }
    }
}

/// Clearing is idempotent: clearing a grid that was just cleared gives the
/// very state the first clearing gave, so `clear` twice is `clear` once.
pub proof fn lemma_clear_idempotent(g: GridView)
    ensures
        g.cleared().cleared() == g.cleared(),
{
    assert(g.cleared().cleared() =~= g.cleared());
}

/// The value of a texel's red, green and blue byte: black for a live cell,
/// white for a dead one.
pub open spec fn channel(alive: bool) -> u8 {
    if alive {
        0
    } else {
        255
    }
}

/// The IEEE 754 bit pattern of one half.
const HALF_BITS: u64 = 0x3FE0_0000_0000_0000;

/// A toroidal Game-of-Life grid.
pub struct Universe {
    width: u32,
    height: u32,
    cells: FixedBitSet,
}

impl View for Universe {
    type V = GridView;

    closed spec fn view(&self) -> GridView {
        GridView {
            width: self.width as int,
            height: self.height as int,
            cells: bit_seq(self.cells),
        }
    }
}

impl Universe {
    pub open spec fn wf(&self) -> bool {
        self@.wf()
    }

    /// A `width x height` grid with every cell dead.
    pub fn new(width: u32, height: u32) -> (u: Universe)
        requires
            width as int * height as int * 4 <= usize::MAX,
        ensures
            u.wf(),
            u@.width == width as int,
            u@.height == height as int,
            u@ == u@.cleared(),
    {
        let size: usize = (width as usize) * (height as usize);
        let cells = bitset_new(size);
        let u = Universe { width, height, cells };
        proof {
            assert(u@.cells =~= u@.cleared().cells);
            assert(u@ =~= u@.cleared());
        }
        u
    }

    /// The row-major bit index of the cell in column `x`, row `y`.
    fn get_index(&self, x: u32, y: u32) -> (i: usize)
        requires
            self.wf(),
            x < self@.width,
            y < self@.height,
        ensures
            i == cell_index(x as int, y as int, self@.width),
            i < self@.cells.len(),
    {
        proof {
            lemma_grid_lookup(x as int, y as int, self@.width, self@.height);
        }
        (x as usize) + (y as usize) * (self.width as usize)
    }

    /// The number of live cells among the eight toroidal neighbours of
    /// `(x, y)`: the offsets `{-1, 0, 1} x {-1, 0, 1}` without `(0, 0)`,
    /// each coordinate wrapped around its axis.
    fn live_neighbour_count(&self, x: u32, y: u32) -> (n: u8)
        requires
            self.wf(),
            x < self@.width,
            y < self@.height,
        ensures
            n as int == live_neighbours(self@.cells, self@.width, self@.height, x as int, y as int),
            n <= 8,
    {
        let xl: u32 = if x == 0 { self.width - 1 } else { x - 1 };
        let xr: u32 = if x + 1 == self.width { 0 } else { x + 1 };
        let yu: u32 = if y == 0 { self.height - 1 } else { y - 1 };
        let yd: u32 = if y + 1 == self.height { 0 } else { y + 1 };
        let mut n: u8 = 0;
        if bitset_get(&self.cells, self.get_index(xl, yu)) {
            n = n + 1;
        }
        if bitset_get(&self.cells, self.get_index(x, yu)) {
            n = n + 1;
        }
        if bitset_get(&self.cells, self.get_index(xr, yu)) {
            n = n + 1;
        }
        if bitset_get(&self.cells, self.get_index(xl, y)) {
            n = n + 1;
        }
        if bitset_get(&self.cells, self.get_index(xr, y)) {
            n = n + 1;
        }
        if bitset_get(&self.cells, self.get_index(xl, yd)) {
            n = n + 1;
        }
        if bitset_get(&self.cells, self.get_index(x, yd)) {
            n = n + 1;
        }
        if bitset_get(&self.cells, self.get_index(xr, yd)) {
            n = n + 1;
        }
        n
    }

    /// Advance the grid by exactly one generation. The next generation is
    /// built in a scratch buffer from a snapshot of the current one, so no
    /// cell's rule ever reads an already-updated neighbour; the scratch
    /// buffer then becomes the grid in one assignment.
    pub fn tick(&mut self)
        requires
            old(self).wf(),
        ensures
            final(self).wf(),
            final(self)@ == old(self)@.stepped(),
    {
        let ghost w = self@.width;
        let ghost h = self@.height;
        let ghost prev = self@.cells;
        let ghost next_gen = step_cells(prev, w, h);
        let mut next = bitset_clone(&self.cells);
        let mut y: u32 = 0;
        while y < self.height
            invariant
                self == old(self),
                self.wf(),
                w == self@.width,
                h == self@.height,
                prev == self@.cells,
                next_gen == step_cells(prev, w, h),
                (y as int) <= h,
                bit_seq(next).len() == prev.len(),
                forall|j: int| 0 <= j < y as int * w ==> bit_seq(next)[j] == next_gen[j],
            decreases h - y as int,
        {
            let mut x: u32 = 0;
            while x < self.width
                invariant
                    self == old(self),
                    self.wf(),
                    w == self@.width,
                    h == self@.height,
                    prev == self@.cells,
                    next_gen == step_cells(prev, w, h),
                    (y as int) < h,
                    (x as int) <= w,
                    bit_seq(next).len() == prev.len(),
                    forall|j: int| 0 <= j < y as int * w + x as int ==> bit_seq(next)[j]
                        == next_gen[j],
                decreases w - x as int,
            {
                let i = self.get_index(x, y);
                let cell = bitset_get(&self.cells, i);
                let live = self.live_neighbour_count(x, y);
                let alive_next = if cell {
                    live == 2 || live == 3
                } else {
                    live == 3
                };
                bitset_set(&mut next, i, alive_next);
                proof {
                    lemma_grid_lookup(x as int, y as int, w, h);
                    assert(next_gen[i as int] == alive_next);
                }
                x = x + 1;
            }
            proof {
                assert(y as int * w + w == (y + 1) as int * w) by (nonlinear_arith);
            }
            y = y + 1;
        }
        proof {
            assert(h * w == w * h) by (nonlinear_arith);
            assert(bit_seq(next) =~= next_gen);
        }
        self.cells = next;
    }

    /// An RGBA8 snapshot of the grid, four bytes per cell in row-major
    /// order: opaque black (`0, 0, 0, 255`) for a live cell, opaque white
    /// (`255, 255, 255, 255`) for a dead one. The grid is not changed.
    pub fn get_image_data(&self) -> (data: Vec<u8>)
        requires
            self.wf(),
        ensures
            data@.len() == self@.width * self@.height * 4,
            forall|i: int|
                0 <= i < self@.width * self@.height ==> {
                    &&& data@[4 * i] == channel(self@.cells[i])
                    &&& data@[4 * i + 1] == channel(self@.cells[i])
                    &&& data@[4 * i + 2] == channel(self@.cells[i])
                    &&& data@[4 * i + 3] == 255
                },
    {
        let size: usize = (self.width as usize) * (self.height as usize);
        let mut data: Vec<u8> = Vec::new();
        let mut i: usize = 0;
        while i < size
            invariant
                self.wf(),
                size == self@.width * self@.height,
                i <= size,
                data@.len() == 4 * i,
                forall|j: int|
                    0 <= j < i ==> {
                        &&& data@[4 * j] == channel(self@.cells[j])
                        &&& data@[4 * j + 1] == channel(self@.cells[j])
                        &&& data@[4 * j + 2] == channel(self@.cells[j])
                        &&& data@[4 * j + 3] == 255
                    },
            decreases size - i,
        {
            let rgb: u8 = if bitset_get(&self.cells, i) {
                0
            } else {
                255
            };
            data.push(rgb);
            data.push(rgb);
            data.push(rgb);
            data.push(255);
            i = i + 1;
        }
        data
    }

    /// Reseed every cell independently: alive with probability one half,
    /// drawn from the host's random source. The dimensions stay; nothing is
    /// promised of the new pattern.
    pub fn random(&mut self)
        requires
            old(self).wf(),
        ensures
            final(self).wf(),
            final(self)@.width == old(self)@.width,
            final(self)@.height == old(self)@.height,
    {
        let size: usize = (self.width as usize) * (self.height as usize);
        self.cells = bitset_new(size);
        let ghost w = self@.width;
        let ghost h = self@.height;
        let mut i: usize = 0;
        while i < size
            invariant
                w == self@.width,
                h == self@.height,
                i <= size,
                self@.cells.len() == size,
            decreases size - i,
        {
            // `random_sample_bits` hands back the IEEE 754 bit pattern of a
            // nonnegative sample below one; over such values the order of
            // the bit patterns is the order of the numbers, so comparing
            // against the pattern of one half draws alive with probability
            // one half, as the sample is uniform.
            let alive = random_sample_bits() < HALF_BITS;
            bitset_set(&mut self.cells, i, alive);
            i = i + 1;
        }
    }

    /// Reset every cell to dead. The dimensions stay.
    pub fn clear(&mut self)
        requires
            old(self).wf(),
        ensures
            final(self).wf(),
            final(self)@ == old(self)@.cleared(),
    {
        let size: usize = (self.width as usize) * (self.height as usize);
        self.cells = bitset_new(size);
        proof {
            assert(self@.cells =~= old(self)@.cleared().cells);
            assert(self@ =~= old(self)@.cleared());
        }
    }

    /// Set the grid's width. A resize is a hard reset: the storage is
    /// reallocated at the new size and every cell reads dead.
    pub fn set_width(&mut self, width: u32)
        requires
            old(self).wf(),
            width as int * old(self)@.height * 4 <= usize::MAX,
        ensures
            final(self).wf(),
            final(self)@.width == width as int,
            final(self)@.height == old(self)@.height,
            final(self)@ == final(self)@.cleared(),
    {
        self.width = width;
        let size: usize = (self.width as usize) * (self.height as usize);
        self.cells = bitset_new(size);
        proof {
            assert(self@ =~= self@.cleared());
        }
    }

    /// Set the grid's height. A resize is a hard reset: the storage is
    /// reallocated at the new size and every cell reads dead.
    pub fn set_height(&mut self, height: u32)
        requires
            old(self).wf(),
            old(self)@.width * height as int * 4 <= usize::MAX,
        ensures
            final(self).wf(),
            final(self)@.width == old(self)@.width,
            final(self)@.height == height as int,
            final(self)@ == final(self)@.cleared(),
    {
        self.height = height;
        let size: usize = (self.width as usize) * (self.height as usize);
        self.cells = bitset_new(size);
        proof {
            assert(self@ =~= self@.cleared());
        }
    }

    /// Set the one cell at `(x, y)` to `value`, leaving every other cell as
    /// it was.
    pub fn set_cell(&mut self, x: u32, y: u32, value: bool)
        requires
            old(self).wf(),
            x < old(self)@.width,
            y < old(self)@.height,
        ensures
            final(self).wf(),
            final(self)@.width == old(self)@.width,
            final(self)@.height == old(self)@.height,
            final(self)@.cells == old(self)@.cells.update(
                cell_index(x as int, y as int, old(self)@.width),
                value,
            ),
    {
        let i = self.get_index(x, y);
        bitset_set(&mut self.cells, i, value);
    }

    /// The grid's width in cells.
    pub fn width(&self) -> (w: u32)
        ensures
            w as int == self@.width,
    {
        self.width
    }

    /// The grid's height in cells.
    pub fn height(&self) -> (h: u32)
        ensures
            h as int == self@.height,
    {
        self.height
    }

    /// A read-only view of the packed bit storage, for zero-copy inspection
    /// by a renderer.
    pub fn cells(&self) -> (c: &FixedBitSet)
        ensures
            bit_seq(*c) == self@.cells,
    {
        &self.cells
    }
}

} // verus!
