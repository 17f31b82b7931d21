use vstd::prelude::*;

verus! {

/// The buildings of the town.
#[derive(Clone, Copy, PartialEq, Eq, Debug, Structural)]
pub enum Building {
    House,
    GeneralShop,
    WeaponShop,
}

impl Building {
    /// The first sprite of a shop in the shops' texture atlas (its upper part; the
    /// lower part follows). Houses have their own texture.
    pub fn get_start_index(&self) -> (r: usize)
        requires
            *self != Building::House,
        ensures
            *self == Building::GeneralShop ==> r == 0,
            *self == Building::WeaponShop ==> r == 2,
    {
        match *self {
            Building::GeneralShop => 0,
            _ => 2,
        }
    }

    /// Whether the building is a shop (its inside has a vendor).
    pub fn is_shop(&self) -> (r: bool)
        ensures
            r == (*self != Building::House),
    {
        match *self {
            Building::House => false,
            _ => true,
        }
    }
}

/// The kinds of building drawn from the buildings' sprite sheet.
#[derive(Clone, Copy, PartialEq, Eq, Debug, Structural)]
pub enum BuildingKind {
    WeaponShop,
}

impl BuildingKind {
    /// The size of the building's sprite, in pixels (width, height).
    pub fn sprite_size(&self) -> (r: (u32, u32))
        ensures
            *self == BuildingKind::WeaponShop ==> r == (108u32, 110u32),
    {
        match *self {
            BuildingKind::WeaponShop => (108, 110),
        }
    }
}

/// The furniture placed inside buildings.
#[derive(Clone, Copy, PartialEq, Eq, Debug, Structural)]
pub enum Furniture {
    Desk,
    SmallTable,
    LongTable,
    Stool,
    Crate,
    Bed,
    Carpet,
    DoorCarpet,
    MuralSwords,
    MuralTools,
}

/// A rectangle of the furniture sprite sheet, by its corners (the smaller coordinates
/// first).
#[derive(Clone, Copy, PartialEq, Eq, Debug, Structural)]
pub struct SheetRect {
    pub min_x: i32,
    pub min_y: i32,
    pub max_x: i32,
    pub max_y: i32,
}

impl Furniture {
    /// Where the piece is in the furniture sprite sheet, from two opposite corners.
    pub open spec fn sheet_corners(self) -> (int, int, int, int) {
        match self {
            Furniture::Desk => (0, 0, 80, 24),
            Furniture::SmallTable => (220, 0, 260, 30),
            Furniture::LongTable => (219, 227, 267, 63),
            Furniture::Stool => (132, 0, 148, 16),
            Furniture::Crate => (132, 17, 148, 39),
            Furniture::Bed => (183, 0, 215, 48),
            Furniture::DoorCarpet => (0, 121, 48, 136),
            Furniture::MuralSwords => (150, 0, 164, 33),
            _ => (167, 0, 180, 29),
        }
    }

    /// Where the piece is in the furniture sprite sheet. Carpets are made of several
    /// parts (see `carpet_tiles`) and have no single place.
    pub fn pos_in_image(self) -> (r: SheetRect)
        requires
            self != Furniture::Carpet,
        ensures
            ({
                let (x0, y0, x1, y1) = self.sheet_corners();
                &&& r.min_x == (if x0 <= x1 { x0 } else { x1 })
                &&& r.max_x == (if x0 <= x1 { x1 } else { x0 })
                &&& r.min_y == (if y0 <= y1 { y0 } else { y1 })
                &&& r.max_y == (if y0 <= y1 { y1 } else { y0 })
            }),
    {
        let (x0, y0, x1, y1): (i32, i32, i32, i32) = match self {
            Furniture::Desk => (0, 0, 80, 24),
            Furniture::SmallTable => (220, 0, 260, 30),
            Furniture::LongTable => (219, 227, 267, 63),
            Furniture::Stool => (132, 0, 148, 16),
            Furniture::Crate => (132, 17, 148, 39),
            Furniture::Bed => (183, 0, 215, 48),
            Furniture::DoorCarpet => (0, 121, 48, 136),
            Furniture::MuralSwords => (150, 0, 164, 33),
            _ => (167, 0, 180, 29),
        };
        SheetRect {
            min_x: if x0 <= x1 { x0 } else { x1 },
            min_y: if y0 <= y1 { y0 } else { y1 },
            max_x: if x0 <= x1 { x1 } else { x0 },
            max_y: if y0 <= y1 { y1 } else { y0 },
        }
    }

    /// The half extents of the piece's collider, in pixels: half its width, and half
    /// its height less the 3 pixels of its top that can be walked behind. Carpets and
    /// wall decorations have none.
    pub fn get_collider(self) -> (r: Option<(i32, i32)>)
        ensures
            (self == Furniture::Carpet || self == Furniture::DoorCarpet || self == Furniture::MuralSwords
                || self == Furniture::MuralTools) ==> r is None,
            !(self == Furniture::Carpet || self == Furniture::DoorCarpet || self == Furniture::MuralSwords
                || self == Furniture::MuralTools) ==> ({
                let (x0, y0, x1, y1) = self.sheet_corners();
                let w = if x0 <= x1 { x1 - x0 } else { x0 - x1 };
                let h = if y0 <= y1 { y1 - y0 } else { y0 - y1 };
                r == Some(((w / 2) as i32, (h / 2 - 3) as i32)) && w % 2 == 0 && h % 2 == 0
            }),
    {
        match self {
            Furniture::Carpet | Furniture::DoorCarpet | Furniture::MuralSwords
            | Furniture::MuralTools => None,
            _ => {
                let size = self.pos_in_image();
                Some(((size.max_x - size.min_x) / 2, (size.max_y - size.min_y) / 2 - 3))
            },
        }
    }
}

/// A piece of furniture inside a building: its place relative to the centre of the
/// room, in half pixels (x to the right, y upward), and whether it is drawn mirrored.
#[derive(Clone, Copy, PartialEq, Eq, Debug, Structural)]
pub struct FurniturePlacement {
    pub furniture: Furniture,
    pub x_halves: i32,
    pub y_halves: i32,
    pub flip: bool,
}

/// The furniture of the inside of `building` (a room of 237 x 160 pixels): shops have
/// their desk, and the weapon shop two sword racks on its back wall, the right one
/// mirrored; houses have a bed and a carpet at the door.
pub open spec fn spec_inside_furniture(building: Building) -> Seq<FurniturePlacement> {
    match building {
        Building::House => seq![
            FurniturePlacement { furniture: Furniture::Bed, x_halves: -146i32, y_halves: -40i32, flip: false },
            FurniturePlacement { furniture: Furniture::DoorCarpet, x_halves: 0, y_halves: -82i32, flip: false },
        ],
        Building::GeneralShop => seq![
            FurniturePlacement { furniture: Furniture::Desk, x_halves: 0, y_halves: 10, flip: false },
        ],
        Building::WeaponShop => seq![
            FurniturePlacement { furniture: Furniture::Desk, x_halves: 0, y_halves: 10, flip: false },
            FurniturePlacement { furniture: Furniture::MuralSwords, x_halves: 205, y_halves: 14, flip: false },
            FurniturePlacement { furniture: Furniture::MuralSwords, x_halves: -213i32, y_halves: 14, flip: true },
        ],
    }
}

impl Building {
    /// The furniture inside the building.
    pub fn inside_furniture(&self) -> (r: Vec<FurniturePlacement>)
        ensures
            r@ == spec_inside_furniture(*self),
    {
        let mut r: Vec<FurniturePlacement> = Vec::new();
        match *self {
            Building::House => {
                r.push(FurniturePlacement { furniture: Furniture::Bed, x_halves: -146, y_halves: -40, flip: false });
                r.push(FurniturePlacement { furniture: Furniture::DoorCarpet, x_halves: 0, y_halves: -82, flip: false });
            },
            Building::GeneralShop => {
                r.push(FurniturePlacement { furniture: Furniture::Desk, x_halves: 0, y_halves: 10, flip: false });
            },
            Building::WeaponShop => {
                r.push(FurniturePlacement { furniture: Furniture::Desk, x_halves: 0, y_halves: 10, flip: false });
                let dim = Furniture::MuralSwords.pos_in_image();
                let w = dim.max_x - dim.min_x;
                let h = dim.max_y - dim.min_y;
                r.push(FurniturePlacement { furniture: Furniture::MuralSwords, x_halves: 237 - 2 * w - 4, y_halves: 80 - 2 * h, flip: false });
                r.push(FurniturePlacement { furniture: Furniture::MuralSwords, x_halves: -237 + 2 * w - 4, y_halves: 80 - 2 * h, flip: true });
            },
        }
        r
    }

    /// Where the vendor stands in a shop, relative to the centre of the room, in half
    /// pixels: behind the desk. Houses have none.
    pub fn vendor_position(&self) -> (r: Option<(i32, i32)>)
        ensures
            *self == Building::House ==> r is None,
            *self != Building::House ==> r == Some((0i32, 58i32)),
    {
        match *self {
            Building::House => None,
            _ => {
                let desk = Furniture::Desk.pos_in_image();
                Some((0, 10 + 2 * (desk.max_y - desk.min_y)))
            },
        }
    }
}

/// The statues of the town square.
#[derive(Clone, Copy, PartialEq, Eq, Debug, Structural)]
pub enum Statue {
    Magus,
    Knight,
    Archer,
}

impl Statue {
    pub open spec fn spec_index(self) -> int {
        match self {
            Statue::Magus => 0,
            Statue::Knight => 1,
            Statue::Archer => 2,
        }
    }

    /// The sprites of the statue in the statues' atlas: its top and its base.
    pub fn atlas_indices(&self) -> (r: (usize, usize))
        ensures
            r.0 == 2 * self.spec_index(),
            r.1 == 2 * self.spec_index() + 1,
    {
        let index: usize = match *self {
            Statue::Magus => 0,
            Statue::Knight => 1,
            Statue::Archer => 2,
        };
        (index * 2, index * 2 + 1)
    }

    /// The statue's width and the horizontal offset of its collider, in pixels.
    pub fn dimensions(&self) -> (r: (u32, i32))
        ensures
            *self == Statue::Magus ==> r == (54u32, -2i32),
            *self != Statue::Magus ==> r == (46u32, 0i32),
    {
        match *self {
            Statue::Magus => (54, -2),
            _ => (46, 0),
        }
    }
}

/// How many border tiles a carpet has along each side.
#[derive(Clone, Copy, PartialEq, Eq, Debug, Structural)]
pub struct CarpetDimension {
    pub width: u8,
    pub height: u8,
}

#[derive(Clone, Copy, PartialEq, Eq, Debug, Structural)]
pub enum CarpetColor {
    Green,
    Red,
    Violet,
}

/// One tile of a carpet: the rectangle of the furniture texture it shows (min x, min y,
/// max x, max y) and where it goes relative to the carpet's top-left corner (y grows
/// upward, so rows go to negative y).
#[derive(Clone, Copy, PartialEq, Eq, Debug)]
pub struct CarpetTile {
    pub source: (i32, i32, i32, i32),
    pub offset: (i32, i32),
}

/// The look of a carpet colour in the furniture texture: where it starts (x, y), the
/// size of its corners (width, height) and the width of its border tiles.
pub open spec fn carpet_style(color: CarpetColor) -> (int, int, int, int, int) {
    match color {
        CarpetColor::Green => (0, 72, 16, 16, 16),
        CarpetColor::Red => (51, 70, 8, 8, 8),
        CarpetColor::Violet => (50, 104, 12, 12, 8),
    }
}

pub open spec fn tile(x0: int, y0: int, x1: int, y1: int, ox: int, oy: int) -> CarpetTile {
    CarpetTile { source: (x0 as i32, y0 as i32, x1 as i32, y1 as i32), offset: (ox as i32, oy as i32) }
}

/// The tiles of one carpet row between two borders: the left border, `w` middle tiles
/// and the right border, for row `pos_y`.
pub open spec fn carpet_row(color: CarpetColor, w: int, pos_y: int) -> Seq<CarpetTile> {
    let (xi, yi, cw, ch, bw) = carpet_style(color);
    let diff = (cw - bw) / 2;
    seq![tile(xi, yi + ch, xi + cw, yi + ch + bw, 0, -(ch - diff + bw * pos_y))] + Seq::new(
        w as nat,
        |pos_x: int|
            tile(
                xi + cw,
                yi + ch,
                xi + cw + bw,
                yi + ch + bw,
                cw - diff + bw * pos_x,
                -(ch - diff + ch * pos_y),
            ),
    ) + seq![
        tile(xi + cw + bw, yi + ch, xi + cw + bw + cw, yi + ch + bw, cw + bw * w, -(ch - diff + bw * pos_y)),
    ]
}

/// The tiles of the first `n` rows between the top and bottom borders.
pub open spec fn carpet_rows(color: CarpetColor, w: int, n: int) -> Seq<CarpetTile>
    decreases n,
{
    if n <= 0 {
        Seq::empty()
    } else {
        carpet_rows(color, w, n - 1) + carpet_row(color, w, n - 1)
    }
}

/// All the tiles of a carpet, in the order they are laid: top-left corner, top border,
/// top-right corner, the rows, bottom-left corner, bottom border, bottom-right corner.
pub open spec fn carpet_layout(dimension: CarpetDimension, color: CarpetColor) -> Seq<CarpetTile> {
    let (xi, yi, cw, ch, bw) = carpet_style(color);
    let diff = (cw - bw) / 2;
    let w = dimension.width as int;
    let h = dimension.height as int;
    seq![tile(xi, yi, xi + cw, yi + ch, 0, 0)] + Seq::new(
        w as nat,
        |pos: int| tile(xi + cw, yi, xi + cw + bw, yi + ch, cw - diff + bw * pos, 0),
    ) + seq![tile(xi + cw + bw, yi, xi + cw * 2 + bw, yi + ch, cw + bw * w, 0)] + carpet_rows(color, w, h)
        + seq![tile(xi, yi + ch + bw, xi + cw, yi + ch * 2 + bw, 0, -(ch + bw * h))] + Seq::new(
        w as nat,
        |pos: int|
            tile(
                xi + cw,
                yi + ch + bw,
                xi + cw + bw,
                yi + ch + bw + ch,
                cw - diff + bw * pos,
                -(ch + bw * h),
            ),
    ) + seq![
        tile(xi + cw + bw, yi + ch + bw, xi + cw * 2 + bw, yi + ch * 2 + bw, cw + bw * w, -(ch + bw * h)),
    ]
}

proof fn lemma_carpet_rows_len(color: CarpetColor, w: int, n: int)
    requires
        w >= 0,
        n >= 0,
    ensures
        carpet_rows(color, w, n).len() == n * (w + 2),
    decreases n,
{
    if n > 0 {
        lemma_carpet_rows_len(color, w, n - 1);
        assert(carpet_row(color, w, n - 1).len() == w + 2);
        assert(carpet_rows(color, w, n) == carpet_rows(color, w, n - 1) + carpet_row(color, w, n - 1));
        assert((n - 1) * (w + 2) + (w + 2) == n * (w + 2)) by (nonlinear_arith);
    } else {
        assert(n == 0);
        assert(n * (w + 2) == 0) by (nonlinear_arith)
            requires
                n == 0,
        ;
    }
}

proof fn lemma_carpet_rows_inner(color: CarpetColor, w: int, n: int, py: int, px: int)
    requires
        w >= 0,
        0 <= py < n,
        0 <= px < w,
    ensures
        py * (w + 2) + 1 + px < carpet_rows(color, w, n).len(),
        carpet_rows(color, w, n)[py * (w + 2) + 1 + px] == carpet_row(color, w, py)[1 + px],
    decreases n,
{
    lemma_carpet_rows_len(color, w, n);
    lemma_carpet_rows_len(color, w, n - 1);
    let k = py * (w + 2) + 1 + px;
    let prev = carpet_rows(color, w, n - 1);
    assert(carpet_rows(color, w, n) == prev + carpet_row(color, w, n - 1));
    if py < n - 1 {
        assert(k < (n - 1) * (w + 2)) by (nonlinear_arith)
            requires
                k == py * (w + 2) + 1 + px,
                0 <= px < w,
                0 <= py < n - 1,
        ;
        lemma_carpet_rows_inner(color, w, n - 1, py, px);
    } else {
        assert(k - prev.len() == 1 + px);
        assert(k < n * (w + 2)) by (nonlinear_arith)
            requires
                k == py * (w + 2) + 1 + px,
                0 <= px < w,
                py == n - 1,
        ;
    }
}

/// The inside of a carpet is drawn with the centre of its colour's sprite: a carpet of
/// `width` x `height` middle tiles has `(width + 2) * (height + 2)` tiles, laid row after
/// row from the top; the middle tile at column `px` of row `py` shows the rectangle of the
/// furniture texture below the corner and top-border band (`yi + ch` to `yi + ch + bw`,
/// from `xi + cw` to `xi + cw + bw`, where `carpet_style` gives `(xi, yi, cw, ch, bw)`),
/// while the top border's tiles show the band itself (`yi` to `yi + ch`).
pub proof fn lemma_carpet_inner_tiles(dimension: CarpetDimension, color: CarpetColor, px: int, py: int)
    requires
        0 <= px < dimension.width,
        0 <= py < dimension.height,
    ensures
        ({
            let (xi, yi, cw, ch, bw) = carpet_style(color);
            let w = dimension.width as int;
            let h = dimension.height as int;
            let layout = carpet_layout(dimension, color);
            &&& layout.len() == (w + 2) * (h + 2)
            &&& layout[(w + 2) * (py + 1) + 1 + px].source == (
                (xi + cw) as i32,
                (yi + ch) as i32,
                (xi + cw + bw) as i32,
                (yi + ch + bw) as i32,
            )
            &&& layout[1 + px].source == ((xi + cw) as i32, yi as i32, (xi + cw + bw) as i32, (yi + ch) as i32)
        }),
{
    let (xi, yi, cw, ch, bw) = carpet_style(color);
    let w = dimension.width as int;
    let h = dimension.height as int;
    let diff = (cw - bw) / 2;
    let rows = carpet_rows(color, w, h);
    lemma_carpet_rows_len(color, w, h);
    lemma_carpet_rows_inner(color, w, h, py, px);
    let top = seq![tile(xi, yi, xi + cw, yi + ch, 0, 0)] + Seq::new(
        w as nat,
        |pos: int| tile(xi + cw, yi, xi + cw + bw, yi + ch, cw - diff + bw * pos, 0),
    ) + seq![tile(xi + cw + bw, yi, xi + cw * 2 + bw, yi + ch, cw + bw * w, 0)];
    let bottom_border = Seq::new(
        w as nat,
        |pos: int|
            tile(
                xi + cw,
                yi + ch + bw,
                xi + cw + bw,
                yi + ch + bw + ch,
                cw - diff + bw * pos,
                -(ch + bw * h),
            ),
    );
    let with_rows = top + rows;
    let layout = carpet_layout(dimension, color);
    assert(top.len() == w + 2);
    assert(layout == with_rows + seq![tile(xi, yi + ch + bw, xi + cw, yi + ch * 2 + bw, 0, -(ch + bw * h))]
        + bottom_border + seq![
        tile(xi + cw + bw, yi + ch + bw, xi + cw * 2 + bw, yi + ch * 2 + bw, cw + bw * w, -(ch + bw * h)),
    ]);
    assert((w + 2) + h * (w + 2) + 1 + w + 1 == (w + 2) * (h + 2)) by (nonlinear_arith);
    let i = (w + 2) * (py + 1) + 1 + px;
    assert(i == (w + 2) + (py * (w + 2) + 1 + px)) by (nonlinear_arith)
        requires
            i == (w + 2) * (py + 1) + 1 + px,
    ;
    assert(layout[i] == with_rows[i]);
    assert(with_rows[i] == rows[py * (w + 2) + 1 + px]);
    assert(layout[1 + px] == top[1 + px]);
}

fn make_tile(x0: i32, y0: i32, x1: i32, y1: i32, ox: i32, oy: i32) -> (t: CarpetTile)
    ensures
        t == tile(x0 as int, y0 as int, x1 as int, y1 as int, ox as int, oy as int),
{
    CarpetTile { source: (x0, y0, x1, y1), offset: (ox, oy) }
}

/// Appends a row of `w` border tiles.
fn push_border(
    tiles: &mut Vec<CarpetTile>,
    w: u8,
    x0: i32,
    y0: i32,
    x1: i32,
    y1: i32,
    start: i32,
    step: i32,
    oy: i32,
)
    requires
        0 <= step <= 16,
        0 <= start <= 16,
    ensures
        final(tiles)@ == old(tiles)@ + Seq::new(
            w as nat,
            |pos: int|
                tile(x0 as int, y0 as int, x1 as int, y1 as int, start + step * pos, oy as int),
        ),
{
    let ghost before = tiles@;
    let mut pos: u8 = 0;
    while pos < w
        invariant
            pos <= w,
            0 <= step <= 16,
            0 <= start <= 16,
            tiles@ == before + Seq::new(
                pos as nat,
                |p: int| tile(x0 as int, y0 as int, x1 as int, y1 as int, start + step * p, oy as int),
            ),
        decreases w - pos,
    {
        assert(step * pos <= 16 * 255) by (nonlinear_arith)
            requires
                0 <= step <= 16,
                pos <= 255,
        ;
        tiles.push(make_tile(x0, y0, x1, y1, start + step * (pos as i32), oy));
        pos = pos + 1;
        assert(tiles@ =~= before + Seq::new(
            pos as nat,
            |p: int| tile(x0 as int, y0 as int, x1 as int, y1 as int, start + step * p, oy as int),
        ));
    }
}

/// The tiles of a carpet of the given size and colour (see `carpet_layout`).
pub fn carpet_tiles(dimension: CarpetDimension, color: CarpetColor) -> (tiles: Vec<CarpetTile>)
    ensures
        tiles@ == carpet_layout(dimension, color),
{
    let (xi, yi, cw, ch, bw): (i32, i32, i32, i32, i32) = match color {
        CarpetColor::Green => (0, 72, 16, 16, 16),
        CarpetColor::Red => (51, 70, 8, 8, 8),
        CarpetColor::Violet => (50, 104, 12, 12, 8),
    };
    let diff = (cw - bw) / 2;
    let w = dimension.width;
    let h = dimension.height;
    let wi = w as i32;
    let hi = h as i32;
    let mut tiles: Vec<CarpetTile> = Vec::new();
    tiles.push(make_tile(xi, yi, xi + cw, yi + ch, 0, 0));
    push_border(&mut tiles, w, xi + cw, yi, xi + cw + bw, yi + ch, cw - diff, bw, 0);
    assert(bw * wi <= 16 * 255) by (nonlinear_arith)
        requires
            0 <= bw <= 16,
            0 <= wi <= 255,
    ;
    assert(bw * hi <= 16 * 255) by (nonlinear_arith)
        requires
            0 <= bw <= 16,
            0 <= hi <= 255,
    ;
    tiles.push(make_tile(xi + cw + bw, yi, xi + cw * 2 + bw, yi + ch, cw + bw * wi, 0));
    let ghost head = tiles@;
    let mut pos_y: u8 = 0;
    while pos_y < h
        invariant
            pos_y <= h,
            h == dimension.height,
            w == dimension.width,
            wi == w as i32,
            (xi as int, yi as int, cw as int, ch as int, bw as int) == carpet_style(color),
            diff == (cw - bw) / 2,
            bw * wi <= 16 * 255,
            tiles@ == head + carpet_rows(color, w as int, pos_y as int),
        decreases h - pos_y,
    {
        let py = pos_y as i32;
        assert(bw * py <= 16 * 255 && ch * py <= 16 * 255) by (nonlinear_arith)
            requires
                0 <= bw <= 16,
                0 <= ch <= 16,
                0 <= py <= 255,
        ;
        let ghost before = tiles@;
        tiles.push(make_tile(xi, yi + ch, xi + cw, yi + ch + bw, 0, -(ch - diff + bw * py)));
        push_border(&mut tiles, w, xi + cw, yi + ch, xi + cw + bw, yi + ch + bw, cw - diff, bw, -(ch - diff + ch * py));
        tiles.push(make_tile(xi + cw + bw, yi + ch, xi + cw + bw + cw, yi + ch + bw, cw + bw * wi, -(ch - diff + bw * py)));
        assert(tiles@ =~= before + carpet_row(color, w as int, py as int));
        pos_y = pos_y + 1;
        assert(tiles@ =~= head + carpet_rows(color, w as int, pos_y as int));
    }
    let ghost middle = tiles@;
    tiles.push(make_tile(xi, yi + ch + bw, xi + cw, yi + ch * 2 + bw, 0, -(ch + bw * hi)));
    push_border(&mut tiles, w, xi + cw, yi + ch + bw, xi + cw + bw, yi + ch + bw + ch, cw - diff, bw, -(ch + bw * hi));
    tiles.push(make_tile(xi + cw + bw, yi + ch + bw, xi + cw * 2 + bw, yi + ch * 2 + bw, cw + bw * wi, -(ch + bw * hi)));
    assert(tiles@ =~= carpet_layout(dimension, color));
    tiles
}

} // verus!
