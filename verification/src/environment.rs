use rand::Rng;
use rand_pcg::Mcg128Xsl64;
use rand_seeder::Seeder;
use vstd::prelude::*;

verus! {

/// The random generator the world is generated with (`rand_pcg::Pcg64Mcg`).
#[verifier::external_type_specification]
#[verifier::external_body]
pub struct ExMcg128Xsl64(Mcg128Xsl64);

/// The byte that `rand::Rng::gen::<u8>` draws from the `Pcg64Mcg` generator seeded
/// from `state.0` by `rand_seeder::Seeder`, after `state.1` earlier draws.
pub uninterp spec fn seeded_byte(state: (Seq<char>, nat)) -> u8;

/// A `Pcg64Mcg` generator seeded from a string, with the seed and the number of bytes
/// drawn from it so far.
pub struct SeededRng {
    rng: Mcg128Xsl64,
    seed: Ghost<Seq<char>>,
    drawn: Ghost<nat>,
}

impl View for SeededRng {
    type V = (Seq<char>, nat);

    closed spec fn view(&self) -> (Seq<char>, nat) {
        (self.seed@, self.drawn@)
    }
}

/// A generator seeded from `seed`, nothing drawn yet.
///
/// Calls `rand_seeder::Seeder::from(seed).make_rng()`. The crate documents the seeding
/// as portable and reproducible, and the generator is deterministic, so what it draws
/// is a function of the seed and of the number of earlier draws: `seeded_byte`.
#[verifier::external_body]
fn seeded_rng(seed: &str) -> (r: SeededRng)
    ensures
        r@ == (seed@, 0nat),
{
    SeededRng { rng: Seeder::from(seed).make_rng(), seed: Ghost(seed@), drawn: Ghost(0) }
}

/// The next random byte of `rng`.
///
/// Calls `rand::Rng::gen::<u8>` (the low byte of the generator's next 32-bit output):
/// the byte is `seeded_byte` of the generator's seed and draw count, and the count grows
/// by one.
#[verifier::external_body]
fn random_byte(rng: &mut SeededRng) -> (b: u8)
    ensures
        b == seeded_byte(old(rng)@),
        final(rng)@ == (old(rng)@.0, old(rng)@.1 + 1),
{
    rng.rng.gen::<u8>()
}

/// The first `count` bytes drawn from the generator seeded from `seed`.
pub open spec fn seeded_bytes(seed: Seq<char>, count: nat) -> Seq<u8> {
    Seq::new(count, |i: int| seeded_byte((seed, i as nat)))
}

/// The first `count` random bytes of the generator seeded from `seed`.
pub fn random_bytes(seed: &str, count: usize) -> (bytes: Vec<u8>)
    ensures
        bytes@ == seeded_bytes(seed@, count as nat),
{
    let mut rng = seeded_rng(seed);
    let mut bytes: Vec<u8> = Vec::new();
    let mut i: usize = 0;
    while i < count
        invariant
            i <= count,
            bytes@.len() == i,
            rng@ == (seed@, i as nat),
            forall|j: int| 0 <= j < i ==> #[trigger] bytes@[j] == seeded_byte((seed@, j as nat)),
        decreases count - i,
    {
        bytes.push(random_byte(&mut rng));
        i = i + 1;
    }
    assert(bytes@ =~= seeded_bytes(seed@, count as nat));
    bytes
}

/// A random byte gives grass 70% of the time.
pub open spec fn is_grass(b: u8) -> bool {
    b % 10 > 2
}

/// The grass grid made from `bytes`, row by row.
pub open spec fn spec_grass_grid(bytes: Seq<u8>, max_row: int, max_col: int) -> Seq<Seq<bool>> {
    Seq::new(
        max_row as nat,
        |r: int| Seq::new(max_col as nat, |c: int| is_grass(bytes[r * max_col + c])),
    )
}

/// `grid` is the grass grid of a `max_row` x `max_col` patch made from `bytes`.
pub open spec fn grid_from_bytes(grid: Seq<Vec<bool>>, bytes: Seq<u8>, max_row: int, max_col: int) -> bool {
    &&& bytes.len() == max_row * max_col
    &&& grid.len() == max_row
    &&& forall|r: int| 0 <= r < max_row ==> #[trigger] grid[r]@ == spec_grass_grid(bytes, max_row, max_col)[r]
}

/// The grid of a `max_row` x `max_col` patch of grass: each cell has grass when its
/// byte (taken row by row from `bytes`) modulo 10 is above 2.
pub fn grass_grid_from_bytes(bytes: &Vec<u8>, max_row: usize, max_col: usize) -> (grid: Vec<Vec<bool>>)
    requires
        bytes@.len() == max_row * max_col,
    ensures
        grid_from_bytes(grid@, bytes@, max_row as int, max_col as int),
{
    let n = bytes.len();
    let mut grid: Vec<Vec<bool>> = Vec::new();
    let mut row: usize = 0;
    while row < max_row
        invariant
            n == max_row * max_col,
            row <= max_row,
            bytes@.len() == max_row * max_col,
            grid@.len() == row,
            forall|r: int| 0 <= r < row ==> #[trigger] grid@[r]@ == spec_grass_grid(bytes@, max_row as int, max_col as int)[r],
        decreases max_row - row,
    {
        let mut line: Vec<bool> = Vec::new();
        let mut col: usize = 0;
        while col < max_col
            invariant
                n == max_row * max_col,
                col <= max_col,
                row < max_row,
                bytes@.len() == max_row * max_col,
                line@.len() == col,
                forall|c: int| 0 <= c < col ==> #[trigger] line@[c] == is_grass(bytes@[row * max_col + c]),
            decreases max_col - col,
        {
            assert(row * max_col + col < max_row * max_col) by (nonlinear_arith)
                requires
                    row < max_row,
                    col < max_col,
            ;
            line.push(bytes[row * max_col + col] % 10 > 2);
            col = col + 1;
        }
        assert(line@ =~= spec_grass_grid(bytes@, max_row as int, max_col as int)[row as int]);
        grid.push(line);
        row = row + 1;
    }
    grid
}

/// The grass grid of a `max_row` x `max_col` patch seeded from `seed`.
pub fn generate_grass_grid(seed: &str, max_row: usize, max_col: usize) -> (grid: Vec<Vec<bool>>)
    requires
        max_row * max_col <= usize::MAX,
    ensures
        grid_from_bytes(
            grid@,
            seeded_bytes(seed@, (max_row * max_col) as nat),
            max_row as int,
            max_col as int,
        ),
{
    let bytes = random_bytes(seed, max_row * max_col);
    let grid = grass_grid_from_bytes(&bytes, max_row, max_col);
    assert(grid_from_bytes(grid@, bytes@, max_row as int, max_col as int));
    grid
}

/// The same seed always gives the same grass: two grids generated for the same seed and
/// size hold the same cells.
pub proof fn lemma_same_seed_same_grass(
    a: Seq<Vec<bool>>,
    b: Seq<Vec<bool>>,
    seed: Seq<char>,
    max_row: int,
    max_col: int,
)
    requires
        0 <= max_row,
        0 <= max_col,
        grid_from_bytes(a, seeded_bytes(seed, (max_row * max_col) as nat), max_row, max_col),
        grid_from_bytes(b, seeded_bytes(seed, (max_row * max_col) as nat), max_row, max_col),
    ensures
        a.len() == b.len(),
        forall|r: int| 0 <= r < a.len() ==> #[trigger] a[r]@ == b[r]@,
{
    assert forall|r: int| 0 <= r < a.len() implies #[trigger] a[r]@ == b[r]@ by {
        assert(a[r]@ == spec_grass_grid(seeded_bytes(seed, (max_row * max_col) as nat), max_row, max_col)[r]);
        assert(b[r]@ == spec_grass_grid(seeded_bytes(seed, (max_row * max_col) as nat), max_row, max_col)[r]);
    }
}

/// One grass sprite: its cell and its sprite in the grass atlas.
#[derive(Clone, Copy, PartialEq, Eq, Debug, Structural)]
pub struct GrassTile {
    pub row: usize,
    pub col: usize,
    pub index: usize,
}

/// The number of cells with grass among the first `k` of `line`.
pub open spec fn count_grass(line: Seq<bool>, k: int) -> int
    decreases k,
{
    if k <= 0 {
        0
    } else {
        count_grass(line, k - 1) + if line[k - 1] {
            1int
        } else {
            0int
        }
    }
}

/// The sprite of the `nb`-th grass cell of a row: one of five tufts, in turn, taken
/// from the row of the atlas with a bottom edge when no grass grows below.
pub open spec fn grass_index(nb: int, has_grass_below: bool) -> int {
    if has_grass_below {
        nb % 5
    } else {
        nb % 5 + 5
    }
}

/// The grass sprites of the first `k` cells of row `r` of `grid`.
pub open spec fn row_tiles(grid: Seq<Seq<bool>>, r: int, k: int) -> Seq<GrassTile>
    decreases k,
{
    if k <= 0 {
        Seq::empty()
    } else {
        let prev = row_tiles(grid, r, k - 1);
        if grid[r][k - 1] {
            let below = r + 1 < grid.len() && grid[r + 1][k - 1];
            prev.push(
                GrassTile {
                    row: r as usize,
                    col: (k - 1) as usize,
                    index: grass_index(count_grass(grid[r], k - 1), below) as usize,
                },
            )
        } else {
            prev
        }
    }
}

/// The grass sprites of the first `n` rows of `grid`, row by row.
pub open spec fn grid_tiles(grid: Seq<Seq<bool>>, n: int) -> Seq<GrassTile>
    decreases n,
{
    if n <= 0 {
        Seq::empty()
    } else {
        grid_tiles(grid, n - 1) + row_tiles(grid, n - 1, grid[n - 1].len() as int)
    }
}

/// Every row below another is at least as long.
pub open spec fn rows_cover(grid: Seq<Seq<bool>>) -> bool {
    forall|r: int| 0 <= r < grid.len() - 1 ==> grid[r].len() <= #[trigger] grid[r + 1].len()
}

proof fn lemma_count_grass_bound(line: Seq<bool>, k: int)
    requires
        0 <= k,
    ensures
        0 <= count_grass(line, k) <= k,
    decreases k,
{
    if k > 0 {
        lemma_count_grass_bound(line, k - 1);
    }
}

/// The grass sprites of a grid: every cell with grass, row by row, with its sprite.
pub fn grass_tiles(grid: &Vec<Vec<bool>>) -> (tiles: Vec<GrassTile>)
    requires
        rows_cover(grid@.map_values(|l: Vec<bool>| l@)),
    ensures
        tiles@ == grid_tiles(grid@.map_values(|l: Vec<bool>| l@), grid@.len() as int),
{
    let ghost g = grid@.map_values(|l: Vec<bool>| l@);
    let nrows = grid.len();
    let mut tiles: Vec<GrassTile> = Vec::new();
    let mut row: usize = 0;
    while row < nrows
        invariant
            nrows == grid@.len(),
            row <= grid@.len(),
            g == grid@.map_values(|l: Vec<bool>| l@),
            rows_cover(g),
            tiles@ == grid_tiles(g, row as int),
        decreases grid@.len() - row,
    {
        let ghost before = tiles@;
        let line = &grid[row];
        let mut nb: usize = 0;
        let mut pos: usize = 0;
        while pos < line.len()
            invariant
                nrows == grid@.len(),
                pos <= line@.len(),
                row < grid@.len(),
                g == grid@.map_values(|l: Vec<bool>| l@),
                rows_cover(g),
                line@ == g[row as int],
                nb == count_grass(g[row as int], pos as int),
                tiles@ == before + row_tiles(g, row as int, pos as int),
            decreases line@.len() - pos,
        {
            proof {
                lemma_count_grass_bound(g[row as int], pos as int);
            }
            if line[pos] {
                let has_grass_below = if row + 1 < nrows {
                    proof {
                        assert(g[row as int].len() <= g[row + 1].len());
                    }
                    grid[row + 1][pos]
                } else {
                    false
                };
                let index = if has_grass_below {
                    nb % 5
                } else {
                    nb % 5 + 5
                };
                tiles.push(GrassTile { row, col: pos, index });
                nb = nb + 1;
            }
            pos = pos + 1;
        }
        row = row + 1;
    }
    tiles
}

/// The kinds of trees.
#[derive(Clone, Copy, PartialEq, Eq, Debug, Structural)]
pub enum Tree {
    Normal,
    Sapin,
    Scary,
    Dead,
}

impl Tree {
    pub open spec fn spec_from(nb: int) -> Tree {
        if nb == 0 {
            Tree::Normal
        } else if nb == 1 {
            Tree::Sapin
        } else if nb == 2 {
            Tree::Scary
        } else {
            Tree::Dead
        }
    }

    /// The tree whose sprite is at position `nb` of the trees' atlas.
    pub fn from(nb: usize) -> (t: Tree)
        requires
            nb < 4,
        ensures
            t == Self::spec_from(nb as int),
    {
        if nb == 0 {
            Tree::Normal
        } else if nb == 1 {
            Tree::Sapin
        } else if nb == 2 {
            Tree::Scary
        } else {
            Tree::Dead
        }
    }

    /// The position of the tree's sprite in the trees' atlas.
    pub fn index(self) -> (r: usize)
        ensures
            Self::spec_from(r as int) == self,
            r < 4,
    {
        match self {
            Tree::Normal => 0,
            Tree::Sapin => 1,
            Tree::Scary => 2,
            Tree::Dead => 3,
        }
    }
}

/// The `nb`-th tree of the forest (out of six): three per row, 100 pixels apart, rows
/// 100 pixels apart starting at y = 380, the kinds cycling through the atlas.
pub open spec fn spec_forest_tree(nb: int) -> (Tree, i32, i32) {
    (Tree::spec_from(nb % 4), (-100 + 100 * (nb % 3)) as i32, (280 + 100 * (nb / 3 + 1)) as i32)
}

/// The six trees of the forest, with their positions.
pub fn forest_layout() -> (trees: Vec<(Tree, i32, i32)>)
    ensures
        trees@.len() == 6,
        forall|i: int| 0 <= i < 6 ==> #[trigger] trees@[i] == spec_forest_tree(i),
{
    let mut trees: Vec<(Tree, i32, i32)> = Vec::new();
    let mut x: i32 = -100;
    let mut y: i32 = 280;
    let mut nb: usize = 0;
    while nb < 6
        invariant
            nb <= 6,
            trees@.len() == nb,
            nb % 3 != 0 ==> x == -100 + 100 * (nb % 3) && y == 280 + 100 * (nb / 3 + 1),
            nb % 3 == 0 ==> y == 280 + 100 * (nb / 3),
            forall|i: int| 0 <= i < nb ==> #[trigger] trees@[i] == spec_forest_tree(i),
        decreases 6 - nb,
    {
        if nb % 3 == 0 {
            x = -100;
            y = y + 100;
        }
        trees.push((Tree::from(nb % 4), x, y));
        x = x + 100;
        nb = nb + 1;
    }
    trees
}

/// The eight bushes, on a diagonal 40 pixels apart.
pub fn bush_positions() -> (bushes: Vec<(i32, i32)>)
    ensures
        bushes@.len() == 8,
        forall|i: int| 0 <= i < 8 ==> #[trigger] bushes@[i] == ((i * 40) as i32, (i * 40 + 100) as i32),
{
    let mut bushes: Vec<(i32, i32)> = Vec::new();
    let mut nb: i32 = 0;
    while nb < 8
        invariant
            0 <= nb <= 8,
            bushes@.len() == nb,
            forall|i: int| 0 <= i < nb ==> #[trigger] bushes@[i] == ((i * 40) as i32, (i * 40 + 100) as i32),
        decreases 8 - nb,
    {
        bushes.push((nb * 40, nb * 40 + 100));
        nb = nb + 1;
    }
    bushes
}

} // verus!
