//! The display engine: two bit-planes, a plane-selection mask and a
//! resolution mode.

use vstd::prelude::*;
use super::raster::{
    bits_in, blank, is_grid, lemma_collisions_bounded, lemma_draw_collisions_bounded,
    lemma_same_place, plane_bytes, plot, plot_collides, Grid, ScreenState, Sprite, HEIGHT, WIDTH,
};

verus! {

/// Whether the cell in column `x` of a row is lit: column 0 is the most
/// significant bit.
spec fn lit(row: u128, x: int) -> bool {
    row & (1u128 << ((127 - x) as u128)) != 0
}

/// Toggling bit `i` of a row changes that bit and no other.
proof fn lemma_toggle(row: u128, i: u128, j: u128)
    by (bit_vector)
    requires
        i < 128,
        j < 128,
    ensures
        ((row ^ (1u128 << i)) & (1u128 << j) != 0) == ((row & (1u128 << j) != 0) != (i == j)),
        row ^ 0 == row,
        row & 0 == 0,
        0u128 & (1u128 << j) == 0,
{
}

/// One drawable layer of the display: 64 rows of 128 cells, a row in each
/// `u128`. Drawing only ever toggles cells.
#[derive(Copy, Clone, Debug, PartialEq, Eq, Hash)]
pub struct BitPlane {
    rows: [u128; HEIGHT],
}

impl BitPlane {
    /// The cells of the plane.
    pub closed spec fn view(&self) -> Grid {
        Seq::new(
            HEIGHT as nat,
            |y: int| Seq::new(WIDTH as nat, |x: int| lit(self.rows@[y], x)),
        )
    }

    /// The view of a plane is a grid of 64 rows of 128 cells.
    pub proof fn lemma_view_is_grid(&self)
        ensures
            is_grid(self@),
    {
    }

    /// A plane with no cell lit.
    pub fn new() -> (plane: Self)
        ensures
            plane@ == blank(),
    {
        let plane = Self { rows: [0; HEIGHT] };
        proof {
            assert forall|y: int, x: int| 0 <= y < HEIGHT && 0 <= x < WIDTH implies !#[trigger] lit(
                plane.rows@[y],
                x,
            ) by {
                lemma_toggle(0, 0, (127 - x) as u128);
            }
            assert(plane@ =~~= blank());
        }
        plane
    }

    /// Turns every cell off.
    pub fn clear(&mut self)
        ensures
            final(self)@ == blank(),
    {
        self.rows = [0; HEIGHT];
        proof {
            assert forall|y: int, x: int| 0 <= y < HEIGHT && 0 <= x < WIDTH implies !#[trigger] lit(
                self.rows@[y],
                x,
            ) by {
                lemma_toggle(0, 0, (127 - x) as u128);
            }
            assert(self@ =~~= blank());
        }
    }

    /// Whether the cell `(x, y)` is lit.
    fn is_lit(&self, x: usize, y: usize) -> (lit: bool)
        requires
            x < WIDTH,
            y < HEIGHT,
        ensures
            lit == self@[y as int][x as int],
    {
        let row = self.rows[y];
        let column_mask = 1u128 << (WIDTH - 1 - x);
        row & column_mask != 0
    }

    /// Toggles the cell `(x, y)` if `on` is set, and tells whether that hit
    /// a lit cell.
    fn flip(&mut self, x: usize, y: usize, on: bool) -> (hit: bool)
        requires
            x < WIDTH,
            y < HEIGHT,
        ensures
            hit == (on && old(self)@[y as int][x as int]),
            final(self)@ == Seq::new(
                HEIGHT as nat,
                |py: int|
                    Seq::new(
                        WIDTH as nat,
                        |px: int| old(self)@[py][px] != (on && px == x && py == y),
                    ),
            ),
    {
        let row = self.rows[y];
        let mask: u128 = if on {
            1u128 << (WIDTH - 1 - x)
        } else {
            0
        };
        let hit = row & mask != 0;
        self.rows[y] = row ^ mask;
        proof {
            lemma_toggle(row, (127 - x) as u128, (127 - x) as u128);
            assert forall|px: int| 0 <= px < WIDTH implies #[trigger] lit(self.rows@[y as int], px)
                == (lit(row, px) != (on && px == x)) by {
                lemma_toggle(row, (127 - x) as u128, (127 - px) as u128);
            }
            assert(self@ =~~= Seq::new(
                HEIGHT as nat,
                |py: int|
                    Seq::new(
                        WIDTH as nat,
                        |px: int| old(self)@[py][px] != (on && px == x && py == y),
                    ),
            ));
        }
        hit
    }

    /// Draws one sprite bit at `(x, y)` and tells whether it collided.
    fn draw_pixel(&mut self, x: usize, y: usize, pixel: bool, lores: bool) -> (collision: bool)
        ensures
            final(self)@ == plot(old(self)@, lores, x as int, y as int, pixel),
            collision == plot_collides(old(self)@, lores, x as int, y as int, pixel),
    {
        let mut collision = false;
        if lores {
            let x = (x % (WIDTH / 2)) * 2;
            let y = (y % (HEIGHT / 2)) * 2;
            if self.flip(x, y, pixel) {
                collision = true;
            }
            if self.flip(x + 1, y, pixel) {
                collision = true;
            }
            if self.flip(x, y + 1, pixel) {
                collision = true;
            }
            if self.flip(x + 1, y + 1, pixel) {
                collision = true;
            }
        } else if x >= WIDTH || y >= HEIGHT {
            collision = true;
        } else {
            collision = self.flip(x, y, pixel);
        }
        proof {
            assert(self@ =~~= plot(old(self)@, lores, x as int, y as int, pixel));
        }
        collision
    }
}

/// The character that the text dump shows for a colour index: a space for
/// an unlit cell, `O` for the first plane, `+` for the second, `@` for both.
pub open spec fn glyph(value: u8) -> u8 {
    if value == 0 {
        0x20
    } else if value == 1 {
        0x4F
    } else if value == 2 {
        0x2B
    } else {
        0x40
    }
}

/// The number of bytes in a line of the text dump: a character for each cell
/// of a row, and the line feed.
pub const LINE_LEN: usize = 129;

/// The text dump of a display: a line for each row of the grid, a character
/// for each cell, each line ended by a line feed.
pub open spec fn text(screen: ScreenState) -> Seq<u8> {
    Seq::new(
        (HEIGHT * LINE_LEN) as nat,
        |i: int|
            if i % (LINE_LEN as int) == WIDTH {
                0x0Au8
            } else {
                glyph(screen.pixel(i % (LINE_LEN as int), i / (LINE_LEN as int)))
            },
    )
}

/// The colour of a colour index as red, green, blue and alpha: black for an
/// unlit cell, white for the first plane, green for the second, pale green
/// where both are lit.
pub open spec fn rgba(value: u8) -> Seq<u8> {
    if value == 0 {
        seq![0u8, 0u8, 0u8, 0xFFu8]
    } else if value == 1 {
        seq![255u8, 255u8, 255u8, 0xFFu8]
    } else if value == 2 {
        seq![0u8, 255u8, 0u8, 0xFFu8]
    } else {
        seq![128u8, 240u8, 128u8, 0xFFu8]
    }
}

/// The number of pixels that a buffer of `len` bytes receives: one for each
/// complete group of four bytes, and no more than the grid has cells.
pub open spec fn pixels_rendered(len: int) -> int {
    if len / 4 < WIDTH * HEIGHT {
        len / 4
    } else {
        WIDTH * HEIGHT
    }
}

/// A pixel buffer after the display was rendered into it, row after row:
/// the bytes behind the last pixel rendered keep their value.
pub open spec fn rendered(screen: ScreenState, buffer: Seq<u8>) -> Seq<u8> {
    Seq::new(
        buffer.len(),
        |i: int|
            if i / 4 < pixels_rendered(buffer.len() as int) {
                rgba(screen.pixel((i / 4) % (WIDTH as int), (i / 4) / (WIDTH as int)))[i % 4]
            } else {
                buffer[i]
            },
    )
}

const PLANES: usize = 2;

/// The resolution of the display.
#[derive(Copy, Clone, Debug, PartialEq, Eq, Hash, Structural)]
pub enum ScreenMode {
    HighRes,
    LowRes,
}

/// The display: two bit-planes, the plane-selection mask and the resolution.
/// Changing the resolution clears nothing.
#[derive(Copy, Clone, Debug, PartialEq, Eq, Hash)]
pub struct Screen {
    planes: [BitPlane; PLANES],
    plane_selected: [bool; PLANES],
    mode: ScreenMode,
}

impl Screen {
    /// The state of the display.
    pub closed spec fn view(&self) -> ScreenState {
        ScreenState {
            planes: seq![self.planes@[0]@, self.planes@[1]@],
            selected: self.plane_selected@,
            lores: self.mode == ScreenMode::LowRes,
        }
    }

    /// The state of a display is well-formed.
    pub proof fn lemma_view_well_formed(&self)
        ensures
            self@.well_formed(),
    {
        self.planes@[0].lemma_view_is_grid();
        self.planes@[1].lemma_view_is_grid();
    }

    /// A new display is blank and in low resolution; only its first plane is
    /// selected.
    pub fn new() -> (screen: Self)
        ensures
            screen@ == (ScreenState {
                planes: seq![blank(), blank()],
                selected: seq![true, false],
                lores: true,
            }),
    {
        Self { planes: [BitPlane::new(); 2], plane_selected: [true, false], mode: ScreenMode::LowRes }
    }

    pub fn disable_hires(&mut self)
        ensures
            final(self)@ == (ScreenState { lores: true, ..old(self)@ }),
    {
        self.mode = ScreenMode::LowRes;
    }

    pub fn enable_hires(&mut self)
        ensures
            final(self)@ == (ScreenState { lores: false, ..old(self)@ }),
    {
        self.mode = ScreenMode::HighRes
    }

    /// Selects the planes that draws and clears reach from now on.
    pub fn select_planes(&mut self, first: bool, second: bool)
        ensures
            final(self)@ == (ScreenState { selected: seq![first, second], ..old(self)@ }),
    {
        self.plane_selected = [first, second];
    }

    /// Clears the selected planes and leaves the others untouched.
    pub fn clear(&mut self)
        ensures
            final(self)@ == old(self)@.cleared(),
    {
        let mut i: usize = 0;
        while i < PLANES
            invariant
                i <= PLANES,
                self.plane_selected == old(self).plane_selected,
                self.mode == old(self).mode,
                forall|p: int|
                    0 <= p < PLANES ==> (#[trigger] self.planes@[p])@ == if p < i
                        && self.plane_selected@[p] {
                        blank()
                    } else {
                        old(self).planes@[p]@
                    },
            decreases PLANES - i,
        {
            if self.plane_selected[i] {
                self.planes[i].clear();
            }
            i += 1;
        }
    }

    pub fn is_lowres(&self) -> (lores: bool)
        ensures
            lores == self@.lores,
    {
        self.mode == ScreenMode::LowRes
    }

    /// Appends the text dump of the display to `out`.
    pub fn write(&self, out: &mut Vec<u8>)
        ensures
            final(out)@ == old(out)@ + text(self@),
    {
        let mut row: usize = 0;
        while row < HEIGHT
            invariant
                row <= HEIGHT,
                out@ == old(out)@ + text(self@).take(row * LINE_LEN),
            decreases HEIGHT - row,
        {
            let mut column: usize = 0;
            while column < WIDTH
                invariant
                    row < HEIGHT,
                    column <= WIDTH,
                    out@ == old(out)@ + text(self@).take(row * LINE_LEN + column),
                decreases WIDTH - column,
            {
                let bit0 = self.planes[0].is_lit(column, row);
                let bit1 = self.planes[1].is_lit(column, row);
                let c: u8 = match (bit0, bit1) {
                    (false, false) => 0x20,
                    (true, false) => 0x4F,
                    (false, true) => 0x2B,
                    (true, true) => 0x40,
                };

                out.push(c);
                column += 1;
            }
            out.push(0x0A);
            row += 1;
        }
    }

    /// Renders the display into a buffer of pixels of four bytes each: the
    /// first pixels of `buffer`, row after row of the grid.
    pub fn render_to_pixel_buffer(&self, buffer: &mut [u8])
        ensures
            final(buffer)@ == rendered(self@, old(buffer)@),
    {
        let there = buffer.len() / 4;
        let count = if there < WIDTH * HEIGHT {
            there
        } else {
            WIDTH * HEIGHT
        };
        let mut i: usize = 0;
        while i < count
            invariant
                i <= count,
                count == pixels_rendered(old(buffer)@.len() as int),
                buffer@.len() == old(buffer)@.len(),
                forall|j: int|
                    0 <= j < buffer@.len() ==> #[trigger] buffer@[j] == if j / 4 < i {
                        rendered(self@, old(buffer)@)[j]
                    } else {
                        old(buffer)@[j]
                    },
            decreases count - i,
        {
            let y = i / WIDTH;
            let x = i % WIDTH;
            let value = self.get_pixel(x, y);
            let color: [u8; 3] = match value {
                0 => [0, 0, 0],
                1 => [255, 255, 255],
                2 => [0, 255, 0],
                _ => [128, 240, 128],
            };

            buffer[4 * i] = color[0];
            buffer[4 * i + 1] = color[1];
            buffer[4 * i + 2] = color[2];
            buffer[4 * i + 3] = 0xFF;
            i += 1;
        }
    }

    /// The colour index of the cell `(x, y)`.
    pub fn get_pixel(&self, x: usize, y: usize) -> (value: u8)
        requires
            x < WIDTH,
            y < HEIGHT,
        ensures
            value == self@.pixel(x as int, y as int),
    {
        let mut value: u8 = 0;
        if self.planes[0].is_lit(x, y) {
            value += 1;
        }
        if self.planes[1].is_lit(x, y) {
            value += 2;
        }
        value
    }

    /// Draws `sprite` at `(x, y)` on every selected plane and returns the
    /// number of collisions, summed over the planes.
    ///
    /// A `height` of 0 asks for the large sprite: 16 rows, of one byte each in
    /// low resolution and of two bytes each in high resolution. Any other
    /// `height` asks for that many rows of one byte. The selected planes
    /// consume the sprite one after the other. Where the sprite holds fewer
    /// bytes than a plane asks for, the plane draws the complete rows that are
    /// there.
    pub fn draw_sprite(&mut self, sprite: &[u8], x: usize, y: usize, height: usize) -> (collisions:
        usize)
        requires
            8 * sprite@.len() <= usize::MAX,
        ensures
            final(self)@ == old(self)@.draw(sprite@, x as int, y as int, height as int),
            collisions == old(self)@.draw_collisions(
                sprite@,
                x as int,
                y as int,
                height as int,
            ),
    {
        let mut collisions: usize = 0;

        let sprite_size = if height == 0 {
            if self.is_lowres() {
                16
            } else {
                32
            }
        } else {
            height
        };

        proof {
            lemma_draw_collisions_bounded(old(self)@, sprite@, x as int, y as int, height as int);
        }
        let mut offset: usize = 0;
        let mut i: usize = 0;
        while i < PLANES
            invariant
                i <= PLANES,
                8 * sprite@.len() <= usize::MAX,
                old(self)@.draw_collisions(sprite@, x as int, y as int, height as int) <= 8
                    * sprite@.len(),
                sprite_size == plane_bytes(height as int, old(self)@.lores),
                self.plane_selected == old(self).plane_selected,
                self.mode == old(self).mode,
                i == 0 ==> offset == 0,
                i == 1 ==> offset == if self.plane_selected@[0] {
                    1usize
                } else {
                    0usize
                },
                forall|p: int|
                    0 <= p < PLANES ==> (#[trigger] self.planes@[p])@ == if p < i {
                        old(self)@.plane_after(sprite@, p, x as int, y as int, height as int)
                    } else {
                        old(self)@.planes[p]
                    },
                collisions == if i == 0 {
                    0
                } else if i == 1 {
                    old(self)@.plane_collisions(sprite@, 0, x as int, y as int, height as int)
                } else {
                    old(self)@.draw_collisions(sprite@, x as int, y as int, height as int)
                },
            decreases PLANES - i,
        {
            if self.plane_selected[i] {
                assert(offset * sprite_size == if offset == 1 {
                    sprite_size as int
                } else {
                    0
                }) by (nonlinear_arith)
                    requires
                        offset == 0 || offset == 1,
                ;
                let start = offset * sprite_size;
                offset += 1;
                let hits = self.draw_to_plane(i, sprite, start, x, y, height);
                collisions += hits;
            }
            i += 1;
        }

        collisions
    }

    /// Draws on plane `plane` its share of `sprite`, which starts at byte
    /// `start`, and returns the number of collisions.
    fn draw_to_plane(
        &mut self,
        plane: usize,
        sprite: &[u8],
        start: usize,
        x: usize,
        y: usize,
        height: usize,
    ) -> (collisions: usize)
        requires
            plane < PLANES,
            8 * sprite@.len() <= usize::MAX,
            start == old(self)@.share_start(plane as int, height as int),
        ensures
            final(self)@ == (ScreenState {
                planes: old(self)@.planes.update(
                    plane as int,
                    old(self)@.share(sprite@, plane as int, x as int, y as int, height as int).drawn(
                        old(self)@.planes[plane as int],
                        old(self)@.share_bits(sprite@, plane as int, height as int),
                    ),
                ),
                ..old(self)@
            }),
            collisions == old(self)@.share(
                sprite@,
                plane as int,
                x as int,
                y as int,
                height as int,
            ).collisions(
                old(self)@.planes[plane as int],
                old(self)@.share_bits(sprite@, plane as int, height as int),
            ),
    {
        let mut collisions: usize = 0;

        let lores = self.is_lowres();
        let bytes_per_row: usize = if height == 0 {
            if lores {
                1
            } else {
                2
            }
        } else {
            1
        };
        let wanted = if height == 0 {
            16
        } else {
            height
        };
        let there = if start > sprite.len() {
            0
        } else {
            (sprite.len() - start) / bytes_per_row
        };
        let rows = if there < wanted {
            there
        } else {
            wanted
        };
        // Only the cells that the origin addresses matter: bring it close.
        let left = if lores {
            x % (WIDTH / 2)
        } else if x < WIDTH {
            x
        } else {
            WIDTH
        };
        let top = if lores {
            y % (HEIGHT / 2)
        } else if y < HEIGHT {
            y
        } else {
            HEIGHT
        };

        let ghost wide = bytes_per_row == 2;
        let ghost grid = self@.planes[plane as int];
        let ghost share = self@.share(
            sprite@,
            plane as int,
            x as int,
            y as int,
            height as int,
        );
        let ghost near = Sprite { x: left as int, y: top as int, ..share };
        let ghost bits = self@.share_bits(sprite@, plane as int, height as int);

        let mut row: usize = 0;
        while row < rows
            invariant
                row <= rows,
                plane < PLANES,
                8 * sprite@.len() <= usize::MAX,
                bytes_per_row == if wide {
                    2usize
                } else {
                    1usize
                },
                rows > 0 ==> start + rows * bytes_per_row <= sprite@.len(),
                left <= WIDTH,
                top <= HEIGHT,
                lores == self@.lores,
                near.data == sprite@.skip(start as int),
                near.wide == wide,
                near.x == left,
                near.y == top,
                near.lores == lores,
                self.plane_selected == old(self).plane_selected,
                self.mode == old(self).mode,
                forall|p: int|
                    0 <= p < PLANES && p != plane ==> (#[trigger] self.planes@[p]) == old(
                        self,
                    ).planes@[p],
                self.planes@[plane as int]@ == near.drawn(grid, bits_in(row as int, wide)),
                collisions == near.collisions(grid, bits_in(row as int, wide)),
            decreases rows - row,
        {
            let mut byte: usize = 0;
            while byte < bytes_per_row
                invariant
                    row < rows,
                    byte <= bytes_per_row,
                    plane < PLANES,
                    8 * sprite@.len() <= usize::MAX,
                    bytes_per_row == if wide {
                        2usize
                    } else {
                        1usize
                    },
                    start + rows * bytes_per_row <= sprite@.len(),
                    left <= WIDTH,
                    top <= HEIGHT,
                    lores == self@.lores,
                    near.data == sprite@.skip(start as int),
                    near.wide == wide,
                    near.x == left,
                    near.y == top,
                    near.lores == lores,
                    self.plane_selected == old(self).plane_selected,
                    self.mode == old(self).mode,
                    forall|p: int|
                        0 <= p < PLANES && p != plane ==> (#[trigger] self.planes@[p]) == old(
                            self,
                        ).planes@[p],
                    self.planes@[plane as int]@ == near.drawn(
                        grid,
                        bits_in(row as int, wide) + 8 * byte as nat,
                    ),
                    collisions == near.collisions(
                        grid,
                        bits_in(row as int, wide) + 8 * byte as nat,
                    ),
                decreases bytes_per_row - byte,
            {
                assert(row * bytes_per_row == if wide {
                    2 * row
                } else {
                    row as int
                }) by (nonlinear_arith)
                    requires
                        bytes_per_row == if wide {
                            2usize
                        } else {
                            1usize
                        },
                ;
                assert(rows * bytes_per_row == if wide {
                    2 * rows
                } else {
                    rows as int
                }) by (nonlinear_arith)
                    requires
                        bytes_per_row == if wide {
                            2usize
                        } else {
                            1usize
                        },
                ;
                let sprite_byte = sprite[start + row * bytes_per_row + byte];
                let mut column: usize = 0;
                while column < 8
                    invariant
                        row < rows,
                        byte < bytes_per_row,
                        column <= 8,
                        plane < PLANES,
                        8 * sprite@.len() <= usize::MAX,
                        bytes_per_row == if wide {
                            2usize
                        } else {
                            1usize
                        },
                        if wide {
                            start + 2 * rows <= sprite@.len()
                        } else {
                            start + rows <= sprite@.len()
                        },
                        sprite_byte == near.data[if wide {
                            2 * row + byte
                        } else {
                            row as int
                        }],
                        left <= WIDTH,
                        top <= HEIGHT,
                        lores == self@.lores,
                        near.wide == wide,
                        near.x == left,
                        near.y == top,
                        near.lores == lores,
                        self.plane_selected == old(self).plane_selected,
                        self.mode == old(self).mode,
                        forall|p: int|
                            0 <= p < PLANES && p != plane ==> (#[trigger] self.planes@[p]) == old(
                                self,
                            ).planes@[p],
                        self.planes@[plane as int]@ == near.drawn(
                            grid,
                            bits_in(row as int, wide) + 8 * byte as nat + column as nat,
                        ),
                        collisions == near.collisions(
                            grid,
                            bits_in(row as int, wide) + 8 * byte as nat + column as nat,
                        ),
                    decreases 8 - column,
                {
                    let ghost k = bits_in(row as int, wide) + 8 * byte as nat + column as nat;
                    let x = left + column + byte * 8;
                    let y = top + row;
                    let mask = 1u8 << (7 - column);
                    let bit = (sprite_byte & mask) != 0;
                    proof {
                        lemma_collisions_bounded(near, grid, k);
                    }
                    if self.planes[plane].draw_pixel(x, y, bit, lores) {
                        collisions += 1;
                    }
                    column += 1;
                }
                byte += 1;
            }
            row += 1;
        }

        proof {
            lemma_same_place(near, share, grid, bits);
            assert(self@.planes =~= old(self)@.planes.update(
                plane as int,
                share.drawn(grid, bits),
            ));
        }
        collisions
    }
}

} // verus!
