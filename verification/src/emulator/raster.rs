//! The mathematical model of a bit-plane and of drawing on it.
//!
//! A plane is a grid of 64 rows of 128 cells. In high resolution a sprite
//! bit addresses one cell, and a bit that falls outside the grid is clipped.
//! In low resolution the grid shows 32 rows of 64 logical pixels: a sprite bit
//! addresses a block of 2 by 2 cells, and its coordinates wrap around.
//!
//! A sprite is drawn bit by bit, most significant bit first and row after
//! row; each bit that is set toggles the cells that it addresses.

use vstd::prelude::*;

verus! {

/// The number of cells in a row of a plane.
pub const WIDTH: usize = 128;

/// The number of rows of a plane.
pub const HEIGHT: usize = 64;

/// The cells of a plane: `grid[y][x]` tells whether the cell in row `y`,
/// column `x` is lit.
pub type Grid = Seq<Seq<bool>>;

/// A grid has 64 rows of 128 cells.
pub open spec fn is_grid(grid: Grid) -> bool {
    &&& grid.len() == HEIGHT
    &&& forall|y: int| 0 <= y < HEIGHT ==> (#[trigger] grid[y]).len() == WIDTH
}

/// The grid with no cell lit.
pub open spec fn blank() -> Grid {
    Seq::new(HEIGHT as nat, |y: int| Seq::new(WIDTH as nat, |x: int| false))
}

/// Whether a sprite bit at `(x, y)` addresses the cell `(px, py)`.
pub open spec fn covers(lores: bool, x: int, y: int, px: int, py: int) -> bool {
    if lores {
        px / 2 == x % 64 && py / 2 == y % 32
    } else {
        px == x && py == y
    }
}

/// Whether a sprite bit at `(x, y)` falls outside the grid. Only a
/// high-resolution bit can: low-resolution coordinates wrap.
pub open spec fn clipped(lores: bool, x: int, y: int) -> bool {
    !lores && (x >= WIDTH || y >= HEIGHT)
}

/// The grid after one sprite bit was drawn at `(x, y)`: a bit that is set
/// toggles each cell that it addresses; a clear bit changes nothing.
pub open spec fn plot(grid: Grid, lores: bool, x: int, y: int, on: bool) -> Grid {
    Seq::new(
        HEIGHT as nat,
        |py: int|
            Seq::new(WIDTH as nat, |px: int| grid[py][px] != (on && covers(lores, x, y, px, py))),
    )
}

/// Whether drawing one sprite bit at `(x, y)` collides: a bit that is clipped
/// always does; another one does if it is set and a cell that it addresses
/// is lit.
pub open spec fn plot_collides(grid: Grid, lores: bool, x: int, y: int, on: bool) -> bool {
    if lores {
        let cx = 2 * (x % 64);
        let cy = 2 * (y % 32);
        on && (grid[cy][cx] || grid[cy][cx + 1] || grid[cy + 1][cx] || grid[cy + 1][cx + 1])
    } else if clipped(lores, x, y) {
        true
    } else {
        on && grid[y][x]
    }
}

/// Bit `k` of a byte stream, counted from the most significant bit of the
/// first byte.
pub open spec fn stream_bit(data: Seq<u8>, k: int) -> bool {
    data[k / 8] & (1u8 << (7 - k % 8) as u8) != 0
}

/// One plane's share of a draw: the bytes that the plane consumes, whether a
/// sprite row has two bytes (16 bits) or one (8 bits), the origin, and the
/// resolution.
pub struct Sprite {
    pub data: Seq<u8>,
    pub wide: bool,
    pub x: int,
    pub y: int,
    pub lores: bool,
}

impl Sprite {
    /// The column that bit `k` of the sprite is drawn at.
    pub open spec fn column(self, k: int) -> int {
        if self.wide {
            self.x + k % 16
        } else {
            self.x + k % 8
        }
    }

    /// The row that bit `k` of the sprite is drawn at.
    pub open spec fn row(self, k: int) -> int {
        if self.wide {
            self.y + k / 16
        } else {
            self.y + k / 8
        }
    }

    /// Whether bit `k` of the sprite is set.
    pub open spec fn ink(self, k: int) -> bool {
        stream_bit(self.data, k)
    }

    /// The grid after the first `n` bits of the sprite were drawn on `grid`.
    pub open spec fn drawn(self, grid: Grid, n: nat) -> Grid
        decreases n,
    {
        if n == 0 {
            grid
        } else {
            plot(
                self.drawn(grid, (n - 1) as nat),
                self.lores,
                self.column(n - 1),
                self.row(n - 1),
                self.ink(n - 1),
            )
        }
    }

    /// The number of bits among the first `n` that collided while they were
    /// drawn on `grid`, one after the other.
    pub open spec fn collisions(self, grid: Grid, n: nat) -> nat
        decreases n,
    {
        if n == 0 {
            0
        } else {
            let before = self.drawn(grid, (n - 1) as nat);
            let hit = plot_collides(
                before,
                self.lores,
                self.column(n - 1),
                self.row(n - 1),
                self.ink(n - 1),
            );
            self.collisions(grid, (n - 1) as nat) + if hit {
                1nat
            } else {
                0nat
            }
        }
    }

    /// Whether the first `n` bits of the sprite, taken together, toggle the
    /// cell `(px, py)`: whether an odd number of them is set and addresses
    /// it.
    pub open spec fn toggles(self, n: nat, px: int, py: int) -> bool
        decreases n,
    {
        if n == 0 {
            false
        } else {
            self.toggles((n - 1) as nat, px, py) != (self.ink(n - 1) && covers(
                self.lores,
                self.column(n - 1),
                self.row(n - 1),
                px,
                py,
            ))
        }
    }

    /// The number of bits among the first `n` that are set or clipped: the
    /// bits that leave a mark, be it on the grid or in the count of
    /// collisions.
    pub open spec fn marks(self, n: nat) -> nat
        decreases n,
    {
        if n == 0 {
            0
        } else {
            let marked = self.ink(n - 1) || clipped(
                self.lores,
                self.column(n - 1),
                self.row(n - 1),
            );
            self.marks((n - 1) as nat) + if marked {
                1nat
            } else {
                0nat
            }
        }
    }

    /// Whether no two of the first `n` bits address the same cell: in high
    /// resolution none do; in low resolution they do once the sprite has
    /// more rows than the logical grid.
    pub open spec fn spread(self, n: nat) -> bool {
        self.lores ==> n <= bits_in(32, self.wide)
    }
}

/// The number of rows that a draw of height `height` asks for: 0 stands for
/// the large sprite of 16 rows.
pub open spec fn sprite_rows(height: int) -> int {
    if height == 0 {
        16
    } else {
        height
    }
}

/// Whether a sprite row has two bytes: only the large sprite in high
/// resolution has.
pub open spec fn is_wide(height: int, lores: bool) -> bool {
    height == 0 && !lores
}

/// The number of bytes that one plane consumes of a sprite.
pub open spec fn plane_bytes(height: int, lores: bool) -> int {
    if is_wide(height, lores) {
        32
    } else {
        sprite_rows(height)
    }
}

/// The number of rows drawn from the `len` bytes of a sprite on a plane whose
/// share starts at byte `start`: the complete rows that are there, and no more
/// than the draw asks for.
pub open spec fn rows_drawn(len: int, start: int, height: int, lores: bool) -> int {
    let there = if start > len {
        0
    } else if is_wide(height, lores) {
        (len - start) / 2
    } else {
        len - start
    };
    if there < sprite_rows(height) {
        there
    } else {
        sprite_rows(height)
    }
}

/// The number of bits in `rows` rows of a sprite.
pub open spec fn bits_in(rows: int, wide: bool) -> nat {
    if wide {
        (16 * rows) as nat
    } else {
        (8 * rows) as nat
    }
}

/// Whether two origins address the same cells with every sprite: in low
/// resolution where they agree modulo the logical grid, in high resolution
/// where they agree or are both outside the grid.
pub open spec fn same_place(lores: bool, x1: int, y1: int, x2: int, y2: int) -> bool {
    if lores {
        x1 % 64 == x2 % 64 && y1 % 32 == y2 % 32
    } else {
        (x1 == x2 || (x1 >= WIDTH && x2 >= WIDTH)) && (y1 == y2 || (y1 >= HEIGHT && y2 >= HEIGHT))
    }
}

/// Origins that address the same cells still do so when both are moved by
/// the same offset.
proof fn lemma_same_place_moved(
    lores: bool,
    x1: int,
    y1: int,
    x2: int,
    y2: int,
    dx: int,
    dy: int,
)
    requires
        same_place(lores, x1, y1, x2, y2),
        0 <= dx,
        0 <= dy,
    ensures
        same_place(lores, x1 + dx, y1 + dy, x2 + dx, y2 + dy),
{
}

/// A bit drawn at either of two places that address the same cells leaves
/// the same grid and collides alike.
proof fn lemma_plot_same_place(
    grid: Grid,
    lores: bool,
    x1: int,
    y1: int,
    x2: int,
    y2: int,
    on: bool,
)
    requires
        same_place(lores, x1, y1, x2, y2),
    ensures
        plot(grid, lores, x1, y1, on) == plot(grid, lores, x2, y2, on),
        plot_collides(grid, lores, x1, y1, on) == plot_collides(grid, lores, x2, y2, on),
{
    assert forall|px: int, py: int| 0 <= px < WIDTH && 0 <= py < HEIGHT implies covers(
        lores,
        x1,
        y1,
        px,
        py,
    ) == covers(lores, x2, y2, px, py) by {}
    assert(plot(grid, lores, x1, y1, on) =~~= plot(grid, lores, x2, y2, on));
}

/// A sprite drawn from either of two origins that address the same cells
/// leaves the same grid and collides as often.
pub proof fn lemma_same_place(s: Sprite, t: Sprite, grid: Grid, n: nat)
    requires
        s.data == t.data,
        s.wide == t.wide,
        s.lores == t.lores,
        same_place(s.lores, s.x, s.y, t.x, t.y),
    ensures
        s.drawn(grid, n) == t.drawn(grid, n),
        s.collisions(grid, n) == t.collisions(grid, n),
    decreases n,
{
    if n > 0 {
        lemma_same_place(s, t, grid, (n - 1) as nat);
        let k = n - 1;
        let dx = if s.wide {
            k % 16
        } else {
            k % 8
        };
        let dy = if s.wide {
            k / 16
        } else {
            k / 8
        };
        lemma_same_place_moved(s.lores, s.x, s.y, t.x, t.y, dx, dy);
        lemma_plot_same_place(
            s.drawn(grid, k as nat),
            s.lores,
            s.column(k),
            s.row(k),
            t.column(k),
            t.row(k),
            s.ink(k),
        );
    }
}

/// No more bits collide than are drawn.
pub proof fn lemma_collisions_bounded(s: Sprite, grid: Grid, n: nat)
    ensures
        s.collisions(grid, n) <= n,
    decreases n,
{
    if n > 0 {
        lemma_collisions_bounded(s, grid, (n - 1) as nat);
    }
}

/// The display as the machine sees it: two planes, the mask that tells which
/// of them draws and clears reach, and the resolution.
pub struct ScreenState {
    pub planes: Seq<Grid>,
    pub selected: Seq<bool>,
    pub lores: bool,
}

impl ScreenState {
    /// There are two planes, each a grid, and a mask entry for each.
    pub open spec fn well_formed(self) -> bool {
        &&& self.planes.len() == 2
        &&& self.selected.len() == 2
        &&& is_grid(self.planes[0])
        &&& is_grid(self.planes[1])
    }

    /// The byte of the sprite at which the share of plane `plane` starts: the
    /// selected planes consume the sprite one after the other.
    pub open spec fn share_start(self, plane: int, height: int) -> int {
        if plane == 1 && self.selected[0] {
            plane_bytes(height, self.lores)
        } else {
            0
        }
    }

    /// The share of plane `plane` in a draw of `sprite` at `(x, y)`.
    pub open spec fn share(self, sprite: Seq<u8>, plane: int, x: int, y: int, height: int) -> Sprite {
        Sprite {
            data: sprite.skip(self.share_start(plane, height)),
            wide: is_wide(height, self.lores),
            x,
            y,
            lores: self.lores,
        }
    }

    /// The number of bits that plane `plane` draws of `sprite`.
    pub open spec fn share_bits(self, sprite: Seq<u8>, plane: int, height: int) -> nat {
        bits_in(
            rows_drawn(sprite.len() as int, self.share_start(plane, height), height, self.lores),
            is_wide(height, self.lores),
        )
    }

    /// Plane `plane` after a draw of `sprite` at `(x, y)`: an unselected
    /// plane is left as it is.
    pub open spec fn plane_after(self, sprite: Seq<u8>, plane: int, x: int, y: int, height: int) -> Grid {
        if self.selected[plane] {
            self.share(sprite, plane, x, y, height).drawn(
                self.planes[plane],
                self.share_bits(sprite, plane, height),
            )
        } else {
            self.planes[plane]
        }
    }

    /// The number of collisions on plane `plane` in a draw of `sprite` at
    /// `(x, y)`.
    pub open spec fn plane_collisions(
        self,
        sprite: Seq<u8>,
        plane: int,
        x: int,
        y: int,
        height: int,
    ) -> nat {
        if self.selected[plane] {
            self.share(sprite, plane, x, y, height).collisions(
                self.planes[plane],
                self.share_bits(sprite, plane, height),
            )
        } else {
            0
        }
    }

    /// The screen after a draw of `sprite` at `(x, y)`.
    pub open spec fn draw(self, sprite: Seq<u8>, x: int, y: int, height: int) -> ScreenState {
        ScreenState {
            planes: seq![
                self.plane_after(sprite, 0, x, y, height),
                self.plane_after(sprite, 1, x, y, height),
            ],
            ..self
        }
    }

    /// The number of collisions in a draw of `sprite` at `(x, y)`, summed
    /// over the planes.
    pub open spec fn draw_collisions(self, sprite: Seq<u8>, x: int, y: int, height: int) -> nat {
        self.plane_collisions(sprite, 0, x, y, height) + self.plane_collisions(
            sprite,
            1,
            x,
            y,
            height,
        )
    }

    /// The screen after its selected planes were cleared.
    pub open spec fn cleared(self) -> ScreenState {
        ScreenState {
            planes: seq![
                if self.selected[0] {
                    blank()
                } else {
                    self.planes[0]
                },
                if self.selected[1] {
                    blank()
                } else {
                    self.planes[1]
                },
            ],
            ..self
        }
    }

    /// The colour index of the cell `(x, y)`: 1 for a cell lit on the first
    /// plane, 2 for one lit on the second, their sum where both are lit.
    pub open spec fn pixel(self, x: int, y: int) -> u8 {
        let first: u8 = if self.planes[0][y][x] {
            1
        } else {
            0
        };
        let second: u8 = if self.planes[1][y][x] {
            2
        } else {
            0
        };
        (first + second) as u8
    }
}

/// A draw yields at most eight collisions for each byte of the sprite.
pub proof fn lemma_draw_collisions_bounded(
    screen: ScreenState,
    sprite: Seq<u8>,
    x: int,
    y: int,
    height: int,
)
    requires
        0 <= height,
    ensures
        screen.draw_collisions(sprite, x, y, height) <= 8 * sprite.len(),
{
    lemma_collisions_bounded(
        screen.share(sprite, 0, x, y, height),
        screen.planes[0],
        screen.share_bits(sprite, 0, height),
    );
    lemma_collisions_bounded(
        screen.share(sprite, 1, x, y, height),
        screen.planes[1],
        screen.share_bits(sprite, 1, height),
    );
}

/// What a draw does to one cell: the cell ends up toggled exactly if the
/// bits drawn, taken together, toggle it.
pub proof fn lemma_drawn_cell(s: Sprite, grid: Grid, n: nat, px: int, py: int)
    requires
        0 <= px < WIDTH,
        0 <= py < HEIGHT,
    ensures
        s.drawn(grid, n)[py][px] == (grid[py][px] != s.toggles(n, px, py)),
    decreases n,
{
    if n > 0 {
        lemma_drawn_cell(s, grid, (n - 1) as nat, px, py);
    }
}

/// A draw on a grid leaves a grid.
pub proof fn lemma_drawn_is_grid(s: Sprite, grid: Grid, n: nat)
    requires
        is_grid(grid),
    ensures
        is_grid(s.drawn(grid, n)),
    decreases n,
{
    if n > 0 {
        lemma_drawn_is_grid(s, grid, (n - 1) as nat);
    }
}

/// Drawing is an involution: a sprite drawn twice at one place leaves the
/// grid as it was.
pub proof fn lemma_drawn_twice(s: Sprite, grid: Grid, n: nat)
    requires
        is_grid(grid),
    ensures
        s.drawn(s.drawn(grid, n), n) == grid,
{
    let once = s.drawn(grid, n);
    let twice = s.drawn(once, n);
    lemma_drawn_is_grid(s, grid, n);
    lemma_drawn_is_grid(s, once, n);
    assert forall|py: int, px: int| 0 <= py < HEIGHT && 0 <= px < WIDTH implies #[trigger] twice[py][px]
        == grid[py][px] by {
        lemma_drawn_cell(s, grid, n, px, py);
        lemma_drawn_cell(s, once, n, px, py);
    }
    assert(twice =~~= grid);
}

/// Two different bits of a spread sprite address no common cell.
proof fn lemma_places_differ(s: Sprite, n: nat, j: int, k: int, px: int, py: int)
    requires
        s.spread(n),
        0 <= j < n,
        0 <= k < n,
        j != k,
        covers(s.lores, s.column(k), s.row(k), px, py),
    ensures
        !covers(s.lores, s.column(j), s.row(j), px, py),
{
    // The bits differ in their column or in their row within the sprite, and
    // neither wraps far enough to meet the other.
    if s.wide {
        assert(j % 16 != k % 16 || j / 16 != k / 16);
    } else {
        assert(j % 8 != k % 8 || j / 8 != k / 8);
    }
}

/// In a spread sprite the cells that bit `k` addresses are toggled by that
/// bit alone: the first `m` bits toggle such a cell exactly if bit `k` is
/// among them and is set.
proof fn lemma_sole_cover(s: Sprite, n: nat, m: nat, k: int, px: int, py: int)
    requires
        s.spread(n),
        m <= n,
        0 <= k < n,
        covers(s.lores, s.column(k), s.row(k), px, py),
    ensures
        s.toggles(m, px, py) == (k < m && s.ink(k)),
    decreases m,
{
    if m > 0 {
        lemma_sole_cover(s, n, (m - 1) as nat, k, px, py);
        if m - 1 != k {
            lemma_places_differ(s, n, m - 1, k, px, py);
        }
    }
}

/// On the grid that a spread sprite left on a blank grid, drawing its first
/// `m` bits again collides with every mark among them.
proof fn lemma_redrawn_collisions(s: Sprite, n: nat, m: nat)
    requires
        s.spread(n),
        m <= n,
        0 <= s.x,
        0 <= s.y,
    ensures
        s.collisions(s.drawn(blank(), n), m) == s.marks(m),
    decreases m,
{
    if m > 0 {
        let k = m - 1;
        lemma_redrawn_collisions(s, n, k as nat);
        let once = s.drawn(blank(), n);
        let before = s.drawn(once, k as nat);
        let x = s.column(k);
        let y = s.row(k);
        if s.lores {
            let cx = 2 * (x % 64);
            let cy = 2 * (y % 32);
            assert forall|px: int, py: int|
                (px == cx || px == cx + 1) && (py == cy || py == cy + 1) implies #[trigger] before[py][px]
                == s.ink(k) by {
                lemma_drawn_cell(s, blank(), n, px, py);
                lemma_drawn_cell(s, once, k as nat, px, py);
                lemma_sole_cover(s, n, n, k, px, py);
                lemma_sole_cover(s, n, k as nat, k, px, py);
            }
        } else if !clipped(s.lores, x, y) {
            lemma_drawn_cell(s, blank(), n, x, y);
            lemma_drawn_cell(s, once, k as nat, x, y);
            lemma_sole_cover(s, n, n, k, x, y);
            lemma_sole_cover(s, n, k as nat, k, x, y);
        }
    }
}

impl ScreenState {
    /// The number of bits of `sprite` that leave a mark when it is drawn at
    /// `(x, y)`: those that are set or clipped, counted on each selected
    /// plane.
    pub open spec fn marks(self, sprite: Seq<u8>, x: int, y: int, height: int) -> nat {
        let first = if self.selected[0] {
            self.share(sprite, 0, x, y, height).marks(self.share_bits(sprite, 0, height))
        } else {
            0
        };
        let second = if self.selected[1] {
            self.share(sprite, 1, x, y, height).marks(self.share_bits(sprite, 1, height))
        } else {
            0
        };
        first + second
    }

    /// Whether the selected planes are blank.
    pub open spec fn selected_blank(self) -> bool {
        &&& self.selected[0] ==> self.planes[0] == blank()
        &&& self.selected[1] ==> self.planes[1] == blank()
    }
}

/// A draw of a well-formed screen leaves a well-formed screen.
pub proof fn lemma_draw_well_formed(
    screen: ScreenState,
    sprite: Seq<u8>,
    x: int,
    y: int,
    height: int,
)
    requires
        screen.well_formed(),
    ensures
        screen.draw(sprite, x, y, height).well_formed(),
{
    lemma_drawn_is_grid(
        screen.share(sprite, 0, x, y, height),
        screen.planes[0],
        screen.share_bits(sprite, 0, height),
    );
    lemma_drawn_is_grid(
        screen.share(sprite, 1, x, y, height),
        screen.planes[1],
        screen.share_bits(sprite, 1, height),
    );
}

/// Drawing toggles: the same sprite drawn twice at the same place leaves the
/// screen as it was, whatever it showed.
pub proof fn lemma_redraw_restores(
    screen: ScreenState,
    sprite: Seq<u8>,
    x: int,
    y: int,
    height: int,
)
    requires
        screen.well_formed(),
    ensures
        screen.draw(sprite, x, y, height).draw(sprite, x, y, height) == screen,
{
    let once = screen.draw(sprite, x, y, height);
    let twice = once.draw(sprite, x, y, height);
    lemma_drawn_twice(
        screen.share(sprite, 0, x, y, height),
        screen.planes[0],
        screen.share_bits(sprite, 0, height),
    );
    lemma_drawn_twice(
        screen.share(sprite, 1, x, y, height),
        screen.planes[1],
        screen.share_bits(sprite, 1, height),
    );
    assert(twice.planes =~= screen.planes);
}

/// On planes that were blank, the second of two draws of the same sprite at
/// the same place collides with every bit that left a mark: each bit that is
/// set, and each that is clipped. In low resolution this holds of sprites of
/// at most 32 rows, whose bits address different cells.
pub proof fn lemma_redraw_collides(
    screen: ScreenState,
    sprite: Seq<u8>,
    x: int,
    y: int,
    height: int,
)
    requires
        screen.well_formed(),
        screen.selected_blank(),
        0 <= x,
        0 <= y,
        0 <= height,
        screen.lores ==> sprite_rows(height) <= 32,
    ensures
        screen.draw(sprite, x, y, height).draw_collisions(sprite, x, y, height) == screen.marks(
            sprite,
            x,
            y,
            height,
        ),
{
    let once = screen.draw(sprite, x, y, height);
    if screen.selected[0] {
        let n = screen.share_bits(sprite, 0, height);
        lemma_redrawn_collisions(screen.share(sprite, 0, x, y, height), n, n);
    }
    if screen.selected[1] {
        let n = screen.share_bits(sprite, 1, height);
        lemma_redrawn_collisions(screen.share(sprite, 1, x, y, height), n, n);
    }
}

/// In low resolution a draw wraps around both axes: drawing at `(x, y)` is,
/// bit for bit, drawing at `(x % 64, y % 32)`.
pub proof fn lemma_lores_draw_wraps(
    screen: ScreenState,
    sprite: Seq<u8>,
    x: int,
    y: int,
    height: int,
)
    requires
        screen.lores,
    ensures
        screen.draw(sprite, x, y, height) == screen.draw(sprite, x % 64, y % 32, height),
        screen.draw_collisions(sprite, x, y, height) == screen.draw_collisions(
            sprite,
            x % 64,
            y % 32,
            height,
        ),
{
    lemma_same_place(
        screen.share(sprite, 0, x, y, height),
        screen.share(sprite, 0, x % 64, y % 32, height),
        screen.planes[0],
        screen.share_bits(sprite, 0, height),
    );
    lemma_same_place(
        screen.share(sprite, 1, x, y, height),
        screen.share(sprite, 1, x % 64, y % 32, height),
        screen.planes[1],
        screen.share_bits(sprite, 1, height),
    );
}

} // verus!
