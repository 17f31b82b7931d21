use vstd::prelude::*;

use vstd::string::StringExecFns;

use crate::geometry::{half_toward_zero, Rect};
use crate::registry::{str_eq, Named};
use crate::texture_holder::TextureHolder;

verus! {

/// A mouse button.
#[derive(Clone, Copy, PartialEq, Eq, Debug, Structural)]
pub enum MouseButton {
    Unknown,
    Left,
    Middle,
    Right,
    X1,
    X2,
}

/// The input events that windows and their widgets react to; every other event is
/// `Other`.
#[derive(Clone, Copy, PartialEq, Eq, Debug, Structural)]
pub enum WindowEvent {
    MouseButtonDown { button: MouseButton, x: i32, y: i32 },
    MouseButtonUp { button: MouseButton, x: i32, y: i32 },
    MouseMotion { x: i32, y: i32 },
    MouseWheel,
    Other,
}

/// What a widget asks of its window after reacting to an event.
#[derive(Clone, Copy, PartialEq, Eq, Debug, Structural)]
pub enum EventAction {
    Nothing,
    Close,
}

/// Something with a width and a height, in pixels.
pub trait GetDimension {
    fn width(&self) -> u32;
    fn height(&self) -> u32;
}

/// Whether the point `px` / `py` lies in the box whose top-left corner is `x0` / `y0`,
/// of `width` x `height` pixels, borders included (the sizes are read as `i32`).
pub open spec fn hit(x0: i32, y0: i32, width: u32, height: u32, px: int, py: int) -> bool {
    !(px < x0 || px > x0 + (width as i32) || py < y0 || py > y0 + (height as i32))
}

/// Whether `px` / `py` lies in the box, borders included.
pub fn hit_test(x0: i32, y0: i32, width: u32, height: u32, px: i64, py: i64) -> (r: bool)
    ensures
        r == hit(x0, y0, width, height, px as int, py as int),
{
    let right = x0 as i64 + (width as i32) as i64;
    let bottom = y0 as i64 + (height as i32) as i64;
    !(px < x0 as i64 || px > right || py < y0 as i64 || py > bottom)
}

/// The close button in the title bar of a window.
pub struct TitleBarButton<T> {
    pub texture: T,
    pub texture_pressed: T,
    pub texture_hovered: T,
    pub texture_hovered_and_pressed: T,
    pub size: u32,
    pub is_hovered: bool,
    pub is_pressed: bool,
    pub x: i32,
    pub y: i32,
}

/// The button after `ev`, and what it answers, when its window is at `x_add` / `y_add`.
pub open spec fn button_after<T>(b: TitleBarButton<T>, ev: WindowEvent, x_add: i32, y_add: i32) -> (
    TitleBarButton<T>,
    Option<EventAction>,
) {
    match ev {
        WindowEvent::MouseButtonDown { button: MouseButton::Left, x, y } => {
            if hit(b.x, b.y, b.size, b.size, x - x_add, y - y_add) {
                (TitleBarButton { is_pressed: true, ..b }, Some(EventAction::Nothing))
            } else {
                (b, None)
            }
        },
        WindowEvent::MouseButtonUp { button: MouseButton::Left, x, y } => {
            if b.is_pressed && hit(b.x, b.y, b.size, b.size, x - x_add, y - y_add) {
                (
                    TitleBarButton { is_pressed: false, is_hovered: true, ..b },
                    Some(EventAction::Close),
                )
            } else {
                (TitleBarButton { is_pressed: false, ..b }, None)
            }
        },
        WindowEvent::MouseMotion { x, y } => {
            let hovered = hit(b.x, b.y, b.size, b.size, x - x_add, y - y_add);
            (
                TitleBarButton { is_hovered: hovered, ..b },
                if hovered {
                    Some(EventAction::Nothing)
                } else {
                    None
                },
            )
        },
        _ => (b, None),
    }
}

impl<T> TitleBarButton<T> {
    /// A button of `size` x `size` pixels at `x` / `y` in its window, neither hovered
    /// nor pressed, drawn with one texture for each of its four looks.
    pub fn new(
        texture: T,
        texture_pressed: T,
        texture_hovered: T,
        texture_hovered_and_pressed: T,
        size: u32,
        x: i32,
        y: i32,
    ) -> (b: TitleBarButton<T>)
        ensures
            b == (TitleBarButton {
                texture,
                texture_pressed,
                texture_hovered,
                texture_hovered_and_pressed,
                size,
                is_hovered: false,
                is_pressed: false,
                x,
                y,
            }),
    {
        TitleBarButton {
            texture,
            texture_pressed,
            texture_hovered,
            texture_hovered_and_pressed,
            size,
            is_hovered: false,
            is_pressed: false,
            x,
            y,
        }
    }

    /// The two strokes of the cross drawn on a button of `size` pixels, as pairs of end
    /// points.
    pub fn cross_lines(size: u32) -> (r: [((i32, i32), (i32, i32)); 2])
        requires
            size <= i32::MAX,
        ensures
            r[0] == ((3i32, 3i32), ((size - 4) as i32, (size - 4) as i32)),
            r[1] == (((size - 4) as i32, 3i32), (3i32, (size - 4) as i32)),
    {
        let far = size as i32 - 4;
        [((3, 3), (far, far)), ((far, 3), (3, far))]
    }

    pub fn x(&self) -> (r: i32)
        ensures
            r == self.x,
    {
        self.x
    }

    pub fn y(&self) -> (r: i32)
        ensures
            r == self.y,
    {
        self.y
    }

    /// Whether the point (relative to the window) is on the button.
    pub fn is_in(&self, x: i64, y: i64) -> (r: bool)
        ensures
            r == hit(self.x, self.y, self.size, self.size, x as int, y as int),
    {
        hit_test(self.x, self.y, self.size, self.size, x, y)
    }

    /// The texture for the button's current look and where it goes on the screen.
    pub fn draw(&self, x_add: i32, y_add: i32) -> (r: (&T, Rect))
        requires
            i32::MIN <= self.x + x_add <= i32::MAX,
            i32::MIN <= self.y + y_add <= i32::MAX,
        ensures
            *r.0 == (if self.is_pressed && self.is_hovered {
                self.texture_hovered_and_pressed
            } else if self.is_pressed {
                self.texture_pressed
            } else if self.is_hovered {
                self.texture_hovered
            } else {
                self.texture
            }),
            r.1 == (Rect {
                x: (self.x + x_add) as i32,
                y: (self.y + y_add) as i32,
                width: self.size,
                height: self.size,
            }),
    {
        let t = if self.is_pressed && self.is_hovered {
            &self.texture_hovered_and_pressed
        } else if self.is_pressed {
            &self.texture_pressed
        } else if self.is_hovered {
            &self.texture_hovered
        } else {
            &self.texture
        };
        (t, Rect::new(self.x + x_add, self.y + y_add, self.size, self.size))
    }

    /// Reacts to `ev`, its window being at `x_add` / `y_add`: a left press on the button
    /// presses it, a left release on the pressed button asks to close the window, a
    /// motion updates whether it is hovered.
    pub fn handle_event(&mut self, ev: &WindowEvent, x_add: i32, y_add: i32) -> (r: Option<
        EventAction,
    >)
        ensures
            (*final(self), r) == button_after(*old(self), *ev, x_add, y_add),
    {
        match *ev {
            WindowEvent::MouseButtonDown { button: MouseButton::Left, x, y } => {
                if self.is_in(x as i64 - x_add as i64, y as i64 - y_add as i64) {
                    self.is_pressed = true;
                    Some(EventAction::Nothing)
                } else {
                    None
                }
            },
            WindowEvent::MouseButtonUp { button: MouseButton::Left, x, y } => {
                let ret = if self.is_pressed && self.is_in(
                    x as i64 - x_add as i64,
                    y as i64 - y_add as i64,
                ) {
                    self.is_hovered = true;
                    Some(EventAction::Close)
                } else {
                    None
                };
                self.is_pressed = false;
                ret
            },
            WindowEvent::MouseMotion { x, y } => {
                self.is_hovered = self.is_in(x as i64 - x_add as i64, y as i64 - y_add as i64);
                if self.is_hovered {
                    Some(EventAction::Nothing)
                } else {
                    None
                }
            },
            _ => None,
        }
    }
}

impl<T> GetDimension for TitleBarButton<T> {
    fn width(&self) -> (r: u32)
        ensures
            r == self.size,
    {
        self.size
    }

    fn height(&self) -> (r: u32)
        ensures
            r == self.size,
    {
        self.size
    }
}

/// One slot of the inventory grid; it lights up while the mouse is over it.
pub struct InventoryCase<'a, T> {
    pub texture_hovered: &'a TextureHolder<T>,
    pub x: i32,
    pub y: i32,
    pub is_hovered: bool,
}

/// The slot after `ev`, and what it answers, when its window is at `x_add` / `y_add`.
pub open spec fn case_after<'a, T>(
    c: InventoryCase<'a, T>,
    ev: WindowEvent,
    x_add: i32,
    y_add: i32,
) -> (InventoryCase<'a, T>, Option<EventAction>) {
    match ev {
        WindowEvent::MouseMotion { x, y } => {
            let hovered = hit(
                c.x,
                c.y,
                c.texture_hovered.width,
                c.texture_hovered.height,
                x - x_add,
                y - y_add,
            );
            (
                InventoryCase { is_hovered: hovered, ..c },
                if hovered {
                    Some(EventAction::Nothing)
                } else {
                    None
                },
            )
        },
        _ => (c, None),
    }
}

/// The number of pixels of one side of an inventory slot when the grid is `width` pixels
/// wide: four slots and their five borders of one pixel fill a line.
pub open spec fn case_size(width: u32) -> u32 {
    ((width - 3) / 4) as u32
}

impl<'a, T> InventoryCase<'a, T> {
    /// Registers the texture drawn over a hovered slot, under `inventory-case-hover`
    /// (replacing the one registered before, if any).
    pub fn init_textures(textures: &mut Named<TextureHolder<T>>, hover: TextureHolder<T>)
        requires
            old(textures).wf(),
        ensures
            final(textures).wf(),
            final(textures).view_map() == old(textures).view_map().insert(
                "inventory-case-hover"@,
                hover,
            ),
    {
        textures.insert("inventory-case-hover", hover);
    }

    /// The side, in pixels, of the texture drawn over a hovered slot of a window
    /// `width` pixels wide inside its borders.
    pub fn hover_size(width: u32) -> (r: u32)
        requires
            width >= 5,
            case_size((width - 2) as u32) >= 4,
        ensures
            r == case_size((width - 2) as u32) - 4,
    {
        InventoryCases::<T>::get_case_size(width - 2) - 4
    }

    /// A slot at `x` / `y` lit with the texture registered as `inventory-case-hover`.
    pub fn new(textures: &'a Named<TextureHolder<T>>, x: i32, y: i32) -> (c: InventoryCase<'a, T>)
        requires
            textures.wf(),
            textures.view_map().dom().contains("inventory-case-hover"@),
        ensures
            *c.texture_hovered == textures.view_map()["inventory-case-hover"@],
            c.x == x,
            c.y == y,
            !c.is_hovered,
    {
        InventoryCase { texture_hovered: textures.get("inventory-case-hover"), x, y, is_hovered: false }
    }

    pub fn x(&self) -> (r: i32)
        ensures
            r == self.x,
    {
        self.x
    }

    pub fn y(&self) -> (r: i32)
        ensures
            r == self.y,
    {
        self.y
    }

    /// Whether the point (relative to the window) is on the slot.
    pub fn is_in(&self, x: i64, y: i64) -> (r: bool)
        ensures
            r == hit(
                self.x,
                self.y,
                self.texture_hovered.width,
                self.texture_hovered.height,
                x as int,
                y as int,
            ),
    {
        hit_test(self.x, self.y, self.texture_hovered.width, self.texture_hovered.height, x, y)
    }

    /// The hover texture and where it goes on the screen, when the slot is hovered.
    pub fn draw(&self, x_add: i32, y_add: i32) -> (r: Option<(&TextureHolder<T>, Rect)>)
        requires
            i32::MIN <= self.x + x_add <= i32::MAX,
            i32::MIN <= self.y + y_add <= i32::MAX,
            i32::MIN <= self.x + x_add + 2 <= i32::MAX,
            i32::MIN <= self.y + y_add + 2 <= i32::MAX,
        ensures
            !self.is_hovered ==> r is None,
            self.is_hovered ==> (r matches Some((t, rect)) && *t == *self.texture_hovered && rect
                == (Rect {
                x: (self.x + x_add + 2) as i32,
                y: (self.y + y_add + 2) as i32,
                width: self.texture_hovered.width,
                height: self.texture_hovered.height,
            })),
    {
        if !self.is_hovered {
            return None;
        }
        Some(
            (
                self.texture_hovered,
                Rect::new(
                    self.x + x_add + 2,
                    self.y + y_add + 2,
                    self.texture_hovered.width,
                    self.texture_hovered.height,
                ),
            ),
        )
    }

    /// Reacts to `ev`: a mouse motion updates whether the slot is hovered.
    pub fn handle_event(&mut self, ev: &WindowEvent, x_add: i32, y_add: i32) -> (r: Option<
        EventAction,
    >)
        ensures
            (*final(self), r) == case_after(*old(self), *ev, x_add, y_add),
    {
        match *ev {
            WindowEvent::MouseMotion { x, y } => {
                self.is_hovered = self.is_in(x as i64 - x_add as i64, y as i64 - y_add as i64);
                if self.is_hovered {
                    Some(EventAction::Nothing)
                } else {
                    None
                }
            },
            _ => None,
        }
    }
}

impl<'a, T> GetDimension for InventoryCase<'a, T> {
    fn width(&self) -> (r: u32)
        ensures
            r == self.texture_hovered.width,
    {
        self.texture_hovered.width
    }

    fn height(&self) -> (r: u32)
        ensures
            r == self.texture_hovered.height,
    {
        self.texture_hovered.height
    }
}

/// The grid of inventory slots: six rows of four.
pub struct InventoryCases<'a, T> {
    pub texture: TextureHolder<T>,
    pub x: i32,
    pub y: i32,
    pub width: u32,
    pub height: u32,
    pub widgets: Vec<InventoryCase<'a, T>>,
}

/// Whether `new` is the grid `old` after `ev`: a mouse-wheel event changes nothing, any
/// other event goes to every slot.
pub open spec fn cases_after<'a, T>(
    old: &InventoryCases<'a, T>,
    new: &InventoryCases<'a, T>,
    ev: WindowEvent,
    x_add: i32,
    y_add: i32,
) -> bool {
    &&& new.texture == old.texture
    &&& new.x == old.x
    &&& new.y == old.y
    &&& new.width == old.width
    &&& new.height == old.height
    &&& new.widgets@.len() == old.widgets@.len()
    &&& forall|i: int|
        0 <= i < old.widgets@.len() ==> #[trigger] new.widgets@[i] == (if ev is MouseWheel {
            old.widgets@[i]
        } else {
            case_after(old.widgets@[i], ev, x_add, y_add).0
        })
}

/// What the grid answers to `ev`: `EventAction::Nothing` when some slot reacted.
pub open spec fn cases_answer<'a, T>(
    cases: Seq<InventoryCase<'a, T>>,
    ev: WindowEvent,
    x_add: i32,
    y_add: i32,
) -> Option<EventAction> {
    if !(ev is MouseWheel) && exists|i: int|
        0 <= i < cases.len() && (#[trigger] case_after(cases[i], ev, x_add, y_add)).1 is Some {
        Some(EventAction::Nothing)
    } else {
        None
    }
}

/// The position of slot `k` of a grid at `x` / `y` whose slots have sides of `size`.
pub open spec fn case_position(x: i32, y: i32, size: u32, k: int) -> (int, int) {
    (x + (k % 4) * (size + 1), y + (k / 4) * (size + 1))
}

/// A new grid at `x` / `y` of `width` x `height` pixels drawn with `texture`, whose 24
/// slots, none hovered, light up with `hover`.
pub open spec fn cases_layout<'a, T>(
    g: InventoryCases<'a, T>,
    hover: TextureHolder<T>,
    texture: TextureHolder<T>,
    x: i32,
    y: i32,
    width: u32,
    height: u32,
) -> bool {
    &&& g.texture == texture
    &&& g.x == x
    &&& g.y == y
    &&& g.width == width
    &&& g.height == height
    &&& g.widgets@.len() == 24
    &&& forall|k: int|
        0 <= k < 24 ==> {
            let c = #[trigger] g.widgets@[k];
            &&& *c.texture_hovered == hover
            &&& (c.x as int, c.y as int) == case_position(x, y, case_size((width - 2) as u32), k)
            &&& !c.is_hovered
        }
}

impl<'a, T> InventoryCases<'a, T> {
    /// The side of a slot when the grid is `width` pixels wide.
    pub fn get_case_size(width: u32) -> (r: u32)
        requires
            width >= 3,
        ensures
            r == case_size(width),
    {
        (width - 3) / 4
    }

    /// A grid at `x` / `y` of `width` x `height` pixels, drawn with `texture` (the six
    /// rows of slots), whose slots light up with the `inventory-case-hover` texture.
    pub fn new(
        textures: &'a Named<TextureHolder<T>>,
        texture: TextureHolder<T>,
        x: i32,
        y: i32,
        width: u32,
        height: u32,
    ) -> (g: InventoryCases<'a, T>)
        requires
            textures.wf(),
            textures.view_map().dom().contains("inventory-case-hover"@),
            width >= 5,
            6 * (case_size((width - 2) as u32) + 1) <= i32::MAX,
            i32::MIN <= x + 3 * (case_size((width - 2) as u32) + 1) <= i32::MAX,
            i32::MIN <= y + 5 * (case_size((width - 2) as u32) + 1) <= i32::MAX,
            i32::MIN <= x,
            i32::MIN <= y,
        ensures
            cases_layout(g, textures.view_map()["inventory-case-hover"@], texture, x, y, width, height),
    {
        let size = Self::get_case_size(width - 2);
        let step: i32 = size as i32 + 1;
        let mut widgets: Vec<InventoryCase<'a, T>> = Vec::new();
        let mut pos_y: i32 = 0;
        let mut row: usize = 0;
        while row < 6
            invariant
                row <= 6,
                size == case_size((width - 2) as u32),
                step == size + 1,
                6 * step <= i32::MAX,
                pos_y == row * step,
                i32::MIN <= x + 3 * step <= i32::MAX,
                i32::MIN <= y + 5 * step <= i32::MAX,
                i32::MIN <= x,
                i32::MIN <= y,
                textures.wf(),
                textures.view_map().dom().contains("inventory-case-hover"@),
                widgets@.len() == 4 * row,
                forall|k: int|
                    0 <= k < 4 * row ==> {
                        let c = #[trigger] widgets@[k];
                        &&& *c.texture_hovered == textures.view_map()["inventory-case-hover"@]
                        &&& (c.x as int, c.y as int) == case_position(x, y, size, k)
                        &&& !c.is_hovered
                    },
            decreases 6 - row,
        {
            let mut pos_x: i32 = 0;
            let mut col: usize = 0;
            while col < 4
                invariant
                    row < 6,
                    col <= 4,
                    size == case_size((width - 2) as u32),
                    step == size + 1,
                    6 * step <= i32::MAX,
                    pos_y == row * step,
                    pos_x == col * step,
                    i32::MIN <= x + 3 * step <= i32::MAX,
                    i32::MIN <= y + 5 * step <= i32::MAX,
                    i32::MIN <= x,
                    i32::MIN <= y,
                    textures.wf(),
                    textures.view_map().dom().contains("inventory-case-hover"@),
                    widgets@.len() == 4 * row + col,
                    forall|k: int|
                        0 <= k < 4 * row + col ==> {
                            let c = #[trigger] widgets@[k];
                            &&& *c.texture_hovered == textures.view_map()["inventory-case-hover"@]
                            &&& (c.x as int, c.y as int) == case_position(x, y, size, k)
                            &&& !c.is_hovered
                        },
                decreases 4 - col,
            {
                assert(pos_x <= 3 * step) by (nonlinear_arith)
                    requires
                        pos_x == col * step,
                        col < 4,
                        step >= 1,
                ;
                assert(pos_y <= 5 * step) by (nonlinear_arith)
                    requires
                        pos_y == row * step,
                        row < 6,
                        step >= 1,
                ;
                assert(pos_x >= 0 && pos_y >= 0) by (nonlinear_arith)
                    requires
                        pos_x == col * step,
                        pos_y == row * step,
                        step >= 1,
                ;
                let c = InventoryCase::new(textures, pos_x + x, pos_y + y);
                proof {
                    let k = 4 * row + col;
                    assert(k % 4 == col && k / 4 == row) by (nonlinear_arith)
                        requires
                            k == 4 * row + col,
                            col < 4,
                    ;
                }
                widgets.push(c);
                assert(pos_x + step <= 4 * step) by (nonlinear_arith)
                    requires
                        pos_x == col * step,
                        col < 4,
                        step >= 1,
                ;
                assert(pos_x + step == (col + 1) * step) by (nonlinear_arith)
                    requires
                        pos_x == col * step,
                ;
                pos_x = pos_x + step;
                col = col + 1;
            }
            assert(pos_y + step <= 6 * step) by (nonlinear_arith)
                requires
                    pos_y == row * step,
                    row < 6,
                    step >= 1,
            ;
            assert(pos_y + step == (row + 1) * step) by (nonlinear_arith)
                requires
                    pos_y == row * step,
            ;
            pos_y = pos_y + step;
            row = row + 1;
        }
        InventoryCases { texture, x, y, height, width, widgets }
    }

    pub fn x(&self) -> (r: i32)
        ensures
            r == self.x,
    {
        self.x
    }

    pub fn y(&self) -> (r: i32)
        ensures
            r == self.y,
    {
        self.y
    }

    /// Which part of the grid texture is drawn and where, the window being at `x_add` /
    /// `y_add`; each slot is then drawn one pixel further right and down.
    pub fn draw(&self, x_add: i32, y_add: i32) -> (r: (Rect, Rect))
        requires
            self.height >= 2,
            i32::MIN <= self.x + x_add <= i32::MAX,
            i32::MIN <= self.y + y_add <= i32::MAX,
            i32::MIN <= self.x + x_add + 1 <= i32::MAX,
            i32::MIN <= self.y + y_add + 1 <= i32::MAX,
        ensures
            r.0 == (Rect { x: 0, y: 0, width: self.texture.width, height: (self.height - 2) as u32 }),
            r.1 == (Rect {
                x: (self.x + x_add + 1) as i32,
                y: (self.y + y_add + 1) as i32,
                width: self.texture.width,
                height: (self.height - 2) as u32,
            }),
    {
        (
            Rect::new(0, 0, self.texture.width, self.height - 2),
            Rect::new(self.x + x_add + 1, self.y + y_add + 1, self.texture.width, self.height - 2),
        )
    }

    /// Hands `ev` to every slot, except a mouse-wheel event, which the grid ignores.
    pub fn handle_event(&mut self, ev: &WindowEvent, x_add: i32, y_add: i32) -> (r: Option<
        EventAction,
    >)
        ensures
            cases_after(old(self), final(self), *ev, x_add, y_add),
            r == cases_answer(old(self).widgets@, *ev, x_add, y_add),
    {
        let ghost old_cases = self.widgets@;
        let ghost start = *self;
        let mut ret: Option<EventAction> = None;
        let n = self.widgets.len();
        let mut i: usize = 0;
        while i < n
            invariant
                n == old_cases.len(),
                i <= n,
                self.widgets@.len() == n,
                self.texture == start.texture,
                self.x == start.x,
                self.y == start.y,
                self.width == start.width,
                self.height == start.height,
                forall|j: int|
                    0 <= j < n ==> #[trigger] self.widgets@[j] == (if j < i && !(*ev is MouseWheel) {
                        case_after(old_cases[j], *ev, x_add, y_add).0
                    } else {
                        old_cases[j]
                    }),
                ret == (if !(*ev is MouseWheel) && exists|j: int|
                    0 <= j < i && (#[trigger] case_after(old_cases[j], *ev, x_add, y_add)).1 is Some {
                    Some(EventAction::Nothing)
                } else {
                    None
                }),
            decreases n - i,
        {
            match *ev {
                WindowEvent::MouseWheel => {},
                e => {
                    let r = self.widgets[i].handle_event(&e, x_add, y_add);
                    if let Some(a) = r {
                        ret = Some(a);
                    }
                },
            }
            proof {
                if !(*ev is MouseWheel) {
                    assert(case_after(old_cases[i as int], *ev, x_add, y_add).1 is Some
                        ==> case_after(old_cases[i as int], *ev, x_add, y_add).1 == Some(
                        EventAction::Nothing,
                    ));
                }
            }
            i = i + 1;
        }
        ret
    }
}

impl<'a, T> GetDimension for InventoryCases<'a, T> {
    fn width(&self) -> (r: u32)
        ensures
            r == self.width,
    {
        self.width
    }

    fn height(&self) -> (r: u32)
        ensures
            r == self.height,
    {
        self.height
    }
}

/// The size of the font labels are written with.
pub const LABEL_FONT_SIZE: u16 = 14;

/// The height of the title bar of a window, in pixels.
pub const TITLE_BAR_HEIGHT: u32 = 22;

/// The character that writes the decimal digit `d`.
pub open spec fn digit_char(d: nat) -> char {
    (48 + d) as char
}

/// The decimal writing of `n`, without sign or leading zeros.
pub open spec fn decimal(n: nat) -> Seq<char>
    decreases n,
{
    if n < 10 {
        seq![digit_char(n)]
    } else {
        decimal(n / 10).push(digit_char(n % 10))
    }
}

/// Writes `v` in decimal, with `format!("{}", v)`.
///
/// std documents `Display` of an unsigned integer as its digits in base ten, without
/// sign, padding or leading zeros; the contract says exactly that.
#[verifier::external_body]
fn decimal_string(v: u64) -> (s: String)
    ensures
        s@ == decimal(v as nat),
{
    format!("{}", v)
}

/// A new value for a label, its maximum, or both.
#[derive(Clone, Copy, PartialEq, Eq, Debug, Structural)]
pub enum UpdateKind {
    Value(u64),
    MaxValue(u64),
    Both(u64, u64),
}

/// A line of text showing a value, and its maximum when it has one.
pub struct Label {
    pub text: String,
    pub current: u64,
    pub max: u64,
    pub has_max: bool,
    pub x: i32,
    pub y: i32,
}

/// The text a label shows for `current` and `max`: `current / max` when it has a
/// maximum, `current` alone otherwise.
pub open spec fn label_text(current: u64, max: u64, has_max: bool) -> Seq<char> {
    if has_max {
        decimal(current as nat) + " / "@ + decimal(max as nat)
    } else {
        decimal(current as nat)
    }
}

/// The value and maximum of a label after `update`, or `None` when they stay as they are.
pub open spec fn updated_values(current: u64, max: u64, update: UpdateKind) -> Option<(u64, u64)> {
    match update {
        UpdateKind::Value(v) => if v == current {
            None
        } else {
            Some((v, max))
        },
        UpdateKind::MaxValue(m) => if m == max {
            None
        } else {
            Some((current, m))
        },
        UpdateKind::Both(v, m) => if v == current && m == max {
            None
        } else {
            Some((v, m))
        },
    }
}

/// Whether `new` is the label `old` after `update`: its text is written anew only when
/// the value or the maximum changed.
pub open spec fn label_updated(old: Label, new: Label, update: UpdateKind) -> bool {
    match updated_values(old.current, old.max, update) {
        None => new == old,
        Some((c, m)) => {
            &&& new.current == c
            &&& new.max == m
            &&& new.text@ == label_text(c, m, old.has_max)
            &&& new.has_max == old.has_max
            &&& new.x == old.x
            &&& new.y == old.y
        },
    }
}

impl Label {
    /// A label at `x` / `y` showing `text`, with value and maximum 0.
    pub fn new(text: &str, x: i32, y: i32, has_max: bool) -> (l: Label)
        ensures
            l.text@ == text@,
            l.current == 0,
            l.max == 0,
            l.has_max == has_max,
            l.x == x,
            l.y == y,
    {
        Label { text: text.to_owned(), current: 0, max: 0, has_max, x, y }
    }

    /// Applies `update`; when the value or the maximum changed, the text shows the new
    /// ones.
    pub fn update_with(&mut self, update: UpdateKind)
        ensures
            label_updated(*old(self), *final(self), update),
    {
        match update {
            UpdateKind::Value(x) => {
                if x == self.current {
                    return ;
                }
                self.current = x;
            },
            UpdateKind::MaxValue(y) => {
                if y == self.max {
                    return ;
                }
                self.max = y;
            },
            UpdateKind::Both(x, y) => {
                if x == self.current && y == self.max {
                    return ;
                }
                self.current = x;
                self.max = y;
            },
        }
        if self.has_max {
            let mut text = decimal_string(self.current);
            text.append(" / ");
            let max_text = decimal_string(self.max);
            text.append(max_text.as_str());
            self.text = text;
        } else {
            self.text = decimal_string(self.current);
        }
    }

    pub fn x(&self) -> (r: i32)
        ensures
            r == self.x,
    {
        self.x
    }

    pub fn y(&self) -> (r: i32)
        ensures
            r == self.y,
    {
        self.y
    }

    /// Where the label's text goes on the screen, its window being at `x_add` / `y_add`.
    pub fn draw(&self, x_add: i32, y_add: i32) -> (r: (&str, i32, i32))
        requires
            i32::MIN <= self.x + x_add <= i32::MAX,
            i32::MIN <= self.y + y_add <= i32::MAX,
        ensures
            r.0@ == self.text@,
            r.1 == self.x + x_add,
            r.2 == self.y + y_add,
    {
        (self.text.as_str(), self.x + x_add, self.y + y_add)
    }
}

impl GetDimension for Label {
    fn width(&self) -> (r: u32)
        ensures
            r == 0,
    {
        0
    }

    fn height(&self) -> (r: u32)
        ensures
            r == LABEL_FONT_SIZE,
    {
        LABEL_FONT_SIZE as u32
    }
}

/// The title of line `k` of the character information.
pub open spec fn info_title(k: int) -> Seq<char> {
    if k == 0 {
        "Level"@
    } else if k == 1 {
        "Experience"@
    } else if k == 2 {
        "Health"@
    } else if k == 3 {
        "Stamina"@
    } else {
        "Mana"@
    }
}

/// Line `k` of a character window's information, titles at `border_width`, lines from
/// `y_start`, in a window `width` pixels wide.
pub open spec fn info_line(
    line: (&'static str, Label, Label),
    k: int,
    border_width: i32,
    y_start: i32,
    width: u32,
) -> bool {
    let (title, name, value) = line;
    &&& title@ == info_title(k)
    &&& name.text@ == info_title(k) + ":"@
    &&& name.x == border_width
    &&& name.y == (LABEL_FONT_SIZE + 1) * k + y_start
    &&& !name.has_max
    &&& name.current == 0 && name.max == 0
    &&& value.text@ == ""@
    &&& value.x == half_toward_zero((width as i32) as int)
    &&& value.y == (LABEL_FONT_SIZE + 1) * k + y_start
    &&& value.has_max == (info_title(k) != "Level"@)
    &&& value.current == 0 && value.max == 0
}

/// The five lines of a new character window's information.
pub open spec fn info_layout(info: CharacterInfo, border_width: i32, y_start: i32, width: u32) -> bool {
    &&& info.widgets@.len() == 5
    &&& forall|k: int|
        0 <= k < 5 ==> info_line(#[trigger] info.widgets@[k], k, border_width, y_start, width)
}

/// The lines of a character window: for each title, a label with the title and a label
/// with its value.
pub struct CharacterInfo {
    pub widgets: Vec<(&'static str, Label, Label)>,
}

impl CharacterInfo {
    /// The five lines (level, experience, health, stamina, mana), one under the other
    /// from `y_start`; titles start at `border_width`, values in the middle of a window
    /// `width` pixels wide. Every value but the level shows a maximum.
    pub fn new(border_width: i32, y_start: i32, width: u32) -> (info: CharacterInfo)
        requires
            y_start + 4 * (LABEL_FONT_SIZE + 1) <= i32::MAX,
        ensures
            info_layout(info, border_width, y_start, width),
    {
        let titles: [&'static str; 5] = ["Level", "Experience", "Health", "Stamina", "Mana"];
        let mut widgets: Vec<(&'static str, Label, Label)> = Vec::new();
        let mut pos: usize = 0;
        while pos < 5
            invariant
                pos <= 5,
                LABEL_FONT_SIZE == 14,
                y_start + 4 * (LABEL_FONT_SIZE + 1) <= i32::MAX,
                titles@ == seq!["Level", "Experience", "Health", "Stamina", "Mana"],
                widgets@.len() == pos,
                forall|k: int|
                    0 <= k < pos ==> info_line(#[trigger] widgets@[k], k, border_width, y_start, width),
            decreases 5 - pos,
        {
            let title = titles[pos];
            assert(title@ == info_title(pos as int));
            let line: i32 = (LABEL_FONT_SIZE + 1) as i32;
            let p: i32 = pos as i32;
            assert(line == 15 && p == pos);
            assert(line * p <= 60);
            let y: i32 = line * p + y_start;
            let name_text = title.to_owned().concat(":");
            let name = Label::new(name_text.as_str(), border_width, y, false);
            let value = Label::new("", width as i32 / 2, y, !str_eq(title, "Level"));
            widgets.push((title, name, value));
            pos = pos + 1;
        }
        CharacterInfo { widgets }
    }

    /// Applies `kind` to the value of the first line titled `update_id`; returns whether
    /// there is such a line (when there is none, nothing changes).
    pub fn update_label(&mut self, update_id: &str, kind: UpdateKind) -> (found: bool)
        ensures
            found == exists|k: int|
                0 <= k < old(self).widgets@.len() && (#[trigger] old(self).widgets@[k]).0@
                    == update_id@,
            !found ==> final(self).widgets@ == old(self).widgets@,
            found ==> exists|k: int|
                {
                    &&& 0 <= k < old(self).widgets@.len()
                    &&& (#[trigger] old(self).widgets@[k]).0@ == update_id@
                    &&& forall|j: int| 0 <= j < k ==> (#[trigger] old(self).widgets@[j]).0@ != update_id@
                    &&& final(self).widgets@.len() == old(self).widgets@.len()
                    &&& final(self).widgets@[k].0 == old(self).widgets@[k].0
                    &&& final(self).widgets@[k].1 == old(self).widgets@[k].1
                    &&& label_updated(old(self).widgets@[k].2, final(self).widgets@[k].2, kind)
                    &&& forall|j: int|
                        0 <= j < old(self).widgets@.len() && j != k ==> final(self).widgets@[j]
                            == old(self).widgets@[j]
                },
    {
        let n = self.widgets.len();
        let mut i: usize = 0;
        while i < n
            invariant
                i <= n,
                n == self.widgets@.len(),
                self.widgets@ == old(self).widgets@,
                forall|j: int| 0 <= j < i ==> (#[trigger] self.widgets@[j]).0@ != update_id@,
            decreases n - i,
        {
            if str_eq(self.widgets[i].0, update_id) {
                self.widgets[i].2.update_with(kind);
                assert(forall|j: int| 0 <= j < i ==> (#[trigger] old(self).widgets@[j]).0@ != update_id@);
                return true;
            }
            i = i + 1;
        }
        false
    }

    pub fn x(&self) -> (r: i32)
        ensures
            r == 0,
    {
        0
    }

    pub fn y(&self) -> (r: i32)
        ensures
            r == 0,
    {
        0
    }
}

impl CharacterInfo {
    pub fn width(&self) -> (r: u32)
        ensures
            r == 0,
    {
        0
    }

    /// The height of all the lines together.
    pub fn height(&self) -> (r: u32)
        requires
            self.widgets@.len() * (LABEL_FONT_SIZE + 1) <= u32::MAX,
        ensures
            r == self.widgets@.len() * (LABEL_FONT_SIZE + 1),
    {
        let n = self.widgets.len();
        assert(n <= u32::MAX) by (nonlinear_arith)
            requires
                n * 15 <= u32::MAX,
        ;
        n as u32 * (LABEL_FONT_SIZE as u32 + 1)
    }
}

/// Any of the widgets a window can hold.
pub enum AnyWidget<'a, T> {
    TitleBarButton(TitleBarButton<T>),
    InventoryCase(InventoryCase<'a, T>),
    InventoryCases(InventoryCases<'a, T>),
    Label(Label),
    CharacterInfo(CharacterInfo),
}

/// Whether `new` is the widget `old` after `ev`, its window being at `x_add` / `y_add`.
pub open spec fn widget_after<'a, T>(
    old: AnyWidget<'a, T>,
    new: AnyWidget<'a, T>,
    ev: WindowEvent,
    x_add: i32,
    y_add: i32,
) -> bool {
    match old {
        AnyWidget::TitleBarButton(b) => new == AnyWidget::<'a, T>::TitleBarButton(
            button_after(b, ev, x_add, y_add).0,
        ),
        AnyWidget::InventoryCase(c) => new == AnyWidget::<'a, T>::InventoryCase(
            case_after(c, ev, x_add, y_add).0,
        ),
        AnyWidget::InventoryCases(g) => new matches AnyWidget::InventoryCases(g2) && cases_after(
            &g,
            &g2,
            ev,
            x_add,
            y_add,
        ),
        _ => new == old,
    }
}

/// What the widget answers to `ev`, its window being at `x_add` / `y_add`.
pub open spec fn widget_answer<'a, T>(
    w: AnyWidget<'a, T>,
    ev: WindowEvent,
    x_add: i32,
    y_add: i32,
) -> Option<EventAction> {
    match w {
        AnyWidget::TitleBarButton(b) => button_after(b, ev, x_add, y_add).1,
        AnyWidget::InventoryCase(c) => case_after(c, ev, x_add, y_add).1,
        AnyWidget::InventoryCases(g) => cases_answer(g.widgets@, ev, x_add, y_add),
        _ => None,
    }
}

/// All the widgets of all the windows; a window refers to its widgets by their index.
pub struct Widgets<'a, T> {
    pub widgets: Vec<AnyWidget<'a, T>>,
}

impl<'a, T> Widgets<'a, T> {
    pub fn new() -> (w: Widgets<'a, T>)
        ensures
            w.widgets@ == Seq::<AnyWidget<'a, T>>::empty(),
    {
        Widgets { widgets: Vec::new() }
    }

    /// Stores `widget` and returns its index.
    pub fn push(&mut self, widget: AnyWidget<'a, T>) -> (id: usize)
        ensures
            id == old(self).widgets@.len(),
            final(self).widgets@ == old(self).widgets@.push(widget),
    {
        let ret = self.widgets.len();
        self.widgets.push(widget);
        ret
    }

    /// The widget stored at `id`.
    pub fn index(&self, id: usize) -> (w: &AnyWidget<'a, T>)
        requires
            id < self.widgets@.len(),
        ensures
            *w == self.widgets@[id as int],
    {
        &self.widgets[id]
    }

    /// Hands `ev` to the widget stored at `id`, its window being at `x_add` / `y_add`,
    /// and returns its answer.
    pub fn handle_event_at(&mut self, id: usize, ev: &WindowEvent, x_add: i32, y_add: i32) -> (r:
        Option<EventAction>)
        requires
            id < old(self).widgets@.len(),
        ensures
            final(self).widgets@.len() == old(self).widgets@.len(),
            widget_after(old(self).widgets@[id as int], final(self).widgets@[id as int], *ev, x_add, y_add),
            forall|j: int|
                0 <= j < old(self).widgets@.len() && j != id ==> final(self).widgets@[j] == old(
                    self,
                ).widgets@[j],
            r == widget_answer(old(self).widgets@[id as int], *ev, x_add, y_add),
    {
        match &mut self.widgets[id] {
            AnyWidget::TitleBarButton(b) => b.handle_event(ev, x_add, y_add),
            AnyWidget::InventoryCase(c) => c.handle_event(ev, x_add, y_add),
            AnyWidget::InventoryCases(g) => g.handle_event(ev, x_add, y_add),
            AnyWidget::Label(_) => None,
            AnyWidget::CharacterInfo(_) => None,
        }
    }
}

/// A movable window with a title bar, a close button and widgets.
pub struct Window<T> {
    pub title_bar_height: u32,
    pub title: &'static str,
    pub border_width: u32,
    pub texture: TextureHolder<T>,
    pub x: i32,
    pub y: i32,
    pub is_hidden: bool,
    /// While the window is dragged by its title bar: where the mouse holds it, relative
    /// to its top-left corner.
    pub is_dragging_window: Option<(i32, i32)>,
    pub widgets: Vec<usize>,
}

/// Whether the point `px` / `py` is on the window, borders included.
pub open spec fn in_window<T>(w: Window<T>, px: int, py: int) -> bool {
    &&& px >= w.x
    &&& px <= w.x + (w.texture.width as i32)
    &&& py >= w.y
    &&& py <= w.y + (w.texture.height as i32)
}

/// Whether the point `px` / `py` is on the title bar of the window.
pub open spec fn in_title_bar<T>(w: Window<T>, px: int, py: int) -> bool {
    in_window(w, px, py) && py <= w.y + (w.title_bar_height as i32)
}

/// No widget appears twice in `ids`.
pub open spec fn ids_distinct(ids: Seq<usize>) -> bool {
    forall|i: int, j: int| 0 <= i < ids.len() && 0 <= j < ids.len() && i != j ==> ids[i] != ids[j]
}

/// Whether `new` holds the widgets of `old` after `ev` went to each widget of `ids`.
pub open spec fn dispatched<'a, T>(
    old: Seq<AnyWidget<'a, T>>,
    new: Seq<AnyWidget<'a, T>>,
    ids: Seq<usize>,
    ev: WindowEvent,
    x_add: i32,
    y_add: i32,
) -> bool {
    &&& new.len() == old.len()
    &&& forall|j: int|
        0 <= j < old.len() ==> if ids.contains(j as usize) {
            widget_after(old[j], #[trigger] new[j], ev, x_add, y_add)
        } else {
            new[j] == old[j]
        }
}

/// Whether some widget of `ids` answers `ev` with `action` (with anything, when `action`
/// is `None`).
pub open spec fn some_answer<'a, T>(
    ws: Seq<AnyWidget<'a, T>>,
    ids: Seq<usize>,
    ev: WindowEvent,
    x_add: i32,
    y_add: i32,
    action: Option<EventAction>,
) -> bool {
    exists|k: int|
        0 <= k < ids.len() && {
            let a = #[trigger] widget_answer(ws[ids[k] as int], ev, x_add, y_add);
            a is Some && (action is None || a == action)
        }
}

/// Whether the window hands `ev` to its widgets.
pub open spec fn reaches_widgets<T>(w: Window<T>, ev: WindowEvent) -> bool {
    !w.is_hidden && match ev {
        WindowEvent::MouseButtonDown { button: MouseButton::Left, x, y } => in_window(w, x as int, y as int),
        WindowEvent::MouseButtonUp { button: MouseButton::Left, x, y } => in_window(w, x as int, y as int),
        WindowEvent::MouseMotion { x, y } => w.is_dragging_window is None && in_window(w, x as int, y as int),
        _ => false,
    }
}

/// Whether the window handles `ev`: it affects the window or one of its widgets.
pub open spec fn window_answer<'a, T>(w: Window<T>, ws: Seq<AnyWidget<'a, T>>, ev: WindowEvent) -> bool {
    !w.is_hidden && match ev {
        WindowEvent::MouseButtonDown { button: MouseButton::Left, x, y } => in_window(w, x as int, y as int),
        WindowEvent::MouseButtonUp { button: MouseButton::Left, x, y } => w.is_dragging_window is Some || (
        in_window(w, x as int, y as int) && some_answer(ws, w.widgets@, ev, w.x, w.y, None)),
        WindowEvent::MouseMotion { x, y } => w.is_dragging_window is Some || in_window(w, x as int, y as int),
        _ => false,
    }
}

/// The window after `ev`: a left press on the title bar that no widget took starts a
/// drag, a left release ends it (and closes the window when a widget asks so), a motion
/// during a drag moves the window.
pub open spec fn window_after<'a, T>(w: Window<T>, ws: Seq<AnyWidget<'a, T>>, ev: WindowEvent) -> Window<T> {
    if w.is_hidden {
        w
    } else {
        match ev {
            WindowEvent::MouseButtonDown { button: MouseButton::Left, x, y } => {
                if in_window(w, x as int, y as int) && !some_answer(ws, w.widgets@, ev, w.x, w.y, None)
                    && in_title_bar(w, x as int, y as int) {
                    Window { is_dragging_window: Some(((x - w.x) as i32, (y - w.y) as i32)), ..w }
                } else {
                    w
                }
            },
            WindowEvent::MouseButtonUp { button: MouseButton::Left, x, y } => Window {
                is_dragging_window: None,
                is_hidden: in_window(w, x as int, y as int) && some_answer(
                    ws,
                    w.widgets@,
                    ev,
                    w.x,
                    w.y,
                    Some(EventAction::Close),
                ),
                ..w
            },
            WindowEvent::MouseMotion { x, y } => match w.is_dragging_window {
                Some((dx, dy)) => Window { x: (x - dx) as i32, y: (y - dy) as i32, ..w },
                None => w,
            },
            _ => w,
        }
    }
}

/// The machine arithmetic that handling `ev` does fits in `i32`.
pub open spec fn event_fits<T>(w: Window<T>, ev: WindowEvent) -> bool {
    match ev {
        WindowEvent::MouseButtonDown { x, y, .. } => i32::MIN <= x - w.x <= i32::MAX && i32::MIN <= y
            - w.y <= i32::MAX,
        WindowEvent::MouseMotion { x, y } => match w.is_dragging_window {
            Some((dx, dy)) => i32::MIN <= x - dx <= i32::MAX && i32::MIN <= y - dy <= i32::MAX,
            None => true,
        },
        _ => true,
    }
}

/// A new window at `x` / `y` drawn with `texture`: hidden, not dragged, with the usual
/// title bar.
pub open spec fn fresh_window<T>(
    w: Window<T>,
    texture: TextureHolder<T>,
    x: i32,
    y: i32,
    title: &'static str,
    border_width: u32,
) -> bool {
    &&& w.title_bar_height == TITLE_BAR_HEIGHT
    &&& w.title == title
    &&& w.border_width == border_width
    &&& w.texture == texture
    &&& w.x == x
    &&& w.y == y
    &&& w.is_hidden
    &&& w.is_dragging_window is None
}

/// The close button of a new window `width` pixels wide, with the given looks: in the
/// right corner of the title bar.
pub open spec fn close_button<T>(
    width: u32,
    button_texture: T,
    button_texture_pressed: T,
    button_texture_hovered: T,
    button_texture_hovered_and_pressed: T,
) -> TitleBarButton<T> {
    TitleBarButton {
        texture: button_texture,
        texture_pressed: button_texture_pressed,
        texture_hovered: button_texture_hovered,
        texture_hovered_and_pressed: button_texture_hovered_and_pressed,
        size: (TITLE_BAR_HEIGHT - 6) as u32,
        is_hovered: false,
        is_pressed: false,
        x: ((width as i32) - TITLE_BAR_HEIGHT + 3) as i32,
        y: 3,
    }
}

/// `w` once shown.
pub open spec fn shown<T>(w: Window<T>) -> Window<T> {
    Window { is_hidden: false, ..w }
}

/// `w` once hidden: hiding also ends a drag.
pub open spec fn hidden<T>(w: Window<T>) -> Window<T> {
    Window { is_hidden: true, is_dragging_window: None, ..w }
}

/// Whether a window reports itself hidden is decided by the last of `show` and
/// `hide_window` called on it: a shown window is not hidden, a hidden one is, showing
/// or hiding twice is doing it once, neither touches anything but visibility (and, for
/// hiding, a drag), and a new window starts hidden.
pub proof fn lemma_last_visibility_call_decides<T>(
    w: Window<T>,
    texture: TextureHolder<T>,
    x: i32,
    y: i32,
    title: &'static str,
    border_width: u32,
)
    ensures
        !shown(w).is_hidden,
        hidden(w).is_hidden,
        !shown(hidden(w)).is_hidden,
        hidden(shown(w)) == hidden(w),
        shown(shown(w)) == shown(w),
        hidden(hidden(w)) == hidden(w),
        shown(w) == (Window { is_hidden: false, ..w }),
        hidden(w) == (Window { is_hidden: true, is_dragging_window: None, ..w }),
        fresh_window(w, texture, x, y, title, border_width) ==> w.is_hidden,
{
}

impl<T> Window<T> {
    /// The window's widgets are distinct and stored in `widgets`.
    pub open spec fn wf<'a>(&self, widgets: &Widgets<'a, T>) -> bool {
        &&& ids_distinct(self.widgets@)
        &&& forall|k: int| 0 <= k < self.widgets@.len() ==> #[trigger] self.widgets@[k] < widgets.widgets@.len()
    }

    /// The part of a window of `width` x `height` pixels that is painted with its
    /// background colour: all but the borders and the title bar.
    pub fn background_rect(width: u32, height: u32, border_width: u32) -> (r: Rect)
        requires
            border_width <= i32::MAX,
            2 * border_width <= width,
            border_width + TITLE_BAR_HEIGHT <= height,
        ensures
            r == (Rect {
                x: border_width as i32,
                y: TITLE_BAR_HEIGHT as i32,
                width: (width - 2 * border_width) as u32,
                height: (height - border_width - TITLE_BAR_HEIGHT) as u32,
            }),
    {
        let title_bar_height: u32 = TITLE_BAR_HEIGHT;
        Rect::new(
            border_width as i32,
            title_bar_height as i32,
            width - border_width * 2,
            height - border_width - title_bar_height,
        )
    }

    /// A hidden window at `x` / `y`, drawn with `texture` (whose size is the window's),
    /// with its close button, whose four looks are the given textures, stored in
    /// `widgets`.
    pub fn new<'a>(
        texture: TextureHolder<T>,
        button_texture: T,
        button_texture_pressed: T,
        button_texture_hovered: T,
        button_texture_hovered_and_pressed: T,
        x: i32,
        y: i32,
        title: &'static str,
        border_width: u32,
        widgets: &mut Widgets<'a, T>,
    ) -> (w: Window<T>)
        requires
            (texture.width as i32) - TITLE_BAR_HEIGHT >= i32::MIN,
        ensures
            w.wf(final(widgets)),
            fresh_window(w, texture, x, y, title, border_width),
            w.widgets@ == seq![old(widgets).widgets@.len() as usize],
            final(widgets).widgets@ == old(widgets).widgets@.push(
                AnyWidget::TitleBarButton(
                    close_button(
                        texture.width,
                        button_texture,
                        button_texture_pressed,
                        button_texture_hovered,
                        button_texture_hovered_and_pressed,
                    ),
                ),
            ),
    {
        let title_bar_height: u32 = TITLE_BAR_HEIGHT;
        let button = TitleBarButton::new(
            button_texture,
            button_texture_pressed,
            button_texture_hovered,
            button_texture_hovered_and_pressed,
            title_bar_height - 6,
            texture.width as i32 - title_bar_height as i32 + 3,
            3,
        );
        let id = widgets.push(AnyWidget::TitleBarButton(button));
        let mut ids: Vec<usize> = Vec::new();
        ids.push(id);
        Window {
            title_bar_height,
            border_width,
            texture,
            x,
            y,
            is_hidden: true,
            is_dragging_window: None,
            widgets: ids,
            title,
        }
    }

    /// Registers the texture lighting a hovered inventory slot; for a window `width`
    /// pixels wide with borders of `border_width`, its side is
    /// `InventoryCase::hover_size(width - 2 * border_width)`.
    pub fn init_textures(textures: &mut Named<TextureHolder<T>>, hover: TextureHolder<T>)
        requires
            old(textures).wf(),
        ensures
            final(textures).wf(),
            final(textures).view_map() == old(textures).view_map().insert(
                "inventory-case-hover"@,
                hover,
            ),
    {
        InventoryCase::<T>::init_textures(textures, hover);
    }

    /// Stores `widget` in `widgets` and adds it to the window; returns its index.
    pub fn add_widget<'a>(&mut self, widgets: &mut Widgets<'a, T>, widget: AnyWidget<'a, T>) -> (id: usize)
        requires
            old(self).wf(old(widgets)),
        ensures
            final(self).wf(final(widgets)),
            id == old(widgets).widgets@.len(),
            final(widgets).widgets@ == old(widgets).widgets@.push(widget),
            final(self).widgets@ == old(self).widgets@.push(id),
            *final(self) == (Window { widgets: final(self).widgets, ..*old(self) }),
    {
        let id = widgets.push(widget);
        self.widgets.push(id);
        id
    }

    /// Shows the window.
    pub fn show(&mut self)
        ensures
            *final(self) == shown(*old(self)),
    {
        self.is_hidden = false;
    }

    /// Hides the window, which also ends a drag.
    pub fn hide_window(&mut self)
        ensures
            *final(self) == hidden(*old(self)),
    {
        self.is_hidden = true;
        self.is_dragging_window = None;
    }

    pub fn is_hidden(&self) -> (r: bool)
        ensures
            r == self.is_hidden,
    {
        self.is_hidden
    }

    pub fn width(&self) -> (r: u32)
        ensures
            r == self.texture.width,
    {
        self.texture.width
    }

    pub fn height(&self) -> (r: u32)
        ensures
            r == self.texture.height,
    {
        self.texture.height
    }

    /// Whether the point is on the window, borders included.
    pub fn is_in(&self, x: i32, y: i32) -> (r: bool)
        ensures
            r == in_window(*self, x as int, y as int),
    {
        let right = self.x as i64 + (self.texture.width as i32) as i64;
        let bottom = self.y as i64 + (self.texture.height as i32) as i64;
        x as i64 >= self.x as i64 && x as i64 <= right && y as i64 >= self.y as i64 && y as i64
            <= bottom
    }

    /// Whether the point is on the title bar.
    pub fn is_in_title_bar(&self, x: i32, y: i32) -> (r: bool)
        ensures
            r == in_title_bar(*self, x as int, y as int),
    {
        self.is_in(x, y) && y as i64 <= self.y as i64 + (self.title_bar_height as i32) as i64
    }

    /// Where the window's texture goes and where its title is centred, when it is shown.
    pub fn draw(&self) -> (r: Option<(Rect, i32, i32)>)
        requires
            i32::MIN <= self.x + half_toward_zero((self.texture.width as i32) as int) <= i32::MAX,
            i32::MIN <= self.y + half_toward_zero((self.title_bar_height as i32) as int) <= i32::MAX,
        ensures
            self.is_hidden ==> r is None,
            !self.is_hidden ==> r == Some(
                (
                    Rect { x: self.x, y: self.y, width: self.texture.width, height: self.texture.height },
                    (self.x + half_toward_zero((self.texture.width as i32) as int)) as i32,
                    (self.y + half_toward_zero((self.title_bar_height as i32) as int)) as i32,
                ),
            ),
    {
        if self.is_hidden() {
            return None;
        }
        Some(
            (
                Rect::new(self.x, self.y, self.texture.width, self.texture.height),
                self.x + self.texture.width as i32 / 2,
                self.y + self.title_bar_height as i32 / 2,
            ),
        )
    }

    /// Hands `ev` to each of the window's widgets; returns whether some widget answered,
    /// and whether one asked to close the window.
    fn dispatch<'a>(&self, widgets: &mut Widgets<'a, T>, ev: &WindowEvent) -> (r: (bool, bool))
        requires
            self.wf(old(widgets)),
        ensures
            dispatched(old(widgets).widgets@, final(widgets).widgets@, self.widgets@, *ev, self.x, self.y),
            r.0 == some_answer(old(widgets).widgets@, self.widgets@, *ev, self.x, self.y, None),
            r.1 == some_answer(
                old(widgets).widgets@,
                self.widgets@,
                *ev,
                self.x,
                self.y,
                Some(EventAction::Close),
            ),
    {
        let ghost start = widgets.widgets@;
        let total = widgets.widgets.len();
        let ids = &self.widgets;
        let n = ids.len();
        let mut answered = false;
        let mut closes = false;
        let mut k: usize = 0;
        while k < n
            invariant
                k <= n,
                n == ids@.len(),
                ids@ == self.widgets@,
                ids_distinct(ids@),
                start.len() == total,
                forall|i: int| 0 <= i < n ==> #[trigger] ids@[i] < start.len(),
                widgets.widgets@.len() == start.len(),
                forall|j: int|
                    0 <= j < start.len() ==> if ids@.subrange(0, k as int).contains(j as usize) {
                        widget_after(start[j], #[trigger] widgets.widgets@[j], *ev, self.x, self.y)
                    } else {
                        widgets.widgets@[j] == start[j]
                    },
                answered == some_answer(start, ids@.subrange(0, k as int), *ev, self.x, self.y, None),
                closes == some_answer(
                    start,
                    ids@.subrange(0, k as int),
                    *ev,
                    self.x,
                    self.y,
                    Some(EventAction::Close),
                ),
            decreases n - k,
        {
            let id = ids[k];
            proof {
                assert(!ids@.subrange(0, k as int).contains(id)) by {
                    if ids@.subrange(0, k as int).contains(id) {
                        let i = choose|i: int| 0 <= i < k && ids@.subrange(0, k as int)[i] == id;
                        assert(ids@[i] == ids@[k as int]);
                    }
                }
            }
            let a = widgets.handle_event_at(id, ev, self.x, self.y);
            let ghost prefix = ids@.subrange(0, k as int);
            let ghost next = ids@.subrange(0, k + 1);
            proof {
                assert(next == prefix.push(id));
                assert forall|j: int| 0 <= j < start.len() implies if next.contains(j as usize) {
                    widget_after(start[j], #[trigger] widgets.widgets@[j], *ev, self.x, self.y)
                } else {
                    widgets.widgets@[j] == start[j]
                } by {
                    if j == id {
                        assert(next.contains(j as usize));
                    } else {
                        if next.contains(j as usize) {
                            let i = choose|i: int| 0 <= i < next.len() && next[i] == j as usize;
                            if i < k {
                                assert(prefix[i] == next[i]);
                            }
                        }
                        if prefix.contains(j as usize) {
                            let i = choose|i: int| 0 <= i < prefix.len() && prefix[i] == j as usize;
                            assert(next[i] == prefix[i]);
                        }
                        assert(next.contains(j as usize) == prefix.contains(j as usize));
                    }
                }
                assert(a == widget_answer(start[id as int], *ev, self.x, self.y));
                if a is Some {
                    assert(widget_answer(start[next[k as int] as int], *ev, self.x, self.y) == a);
                }
                if some_answer(start, prefix, *ev, self.x, self.y, None) {
                    let i = choose|i: int|
                        0 <= i < prefix.len() && {
                            let b = #[trigger] widget_answer(start[prefix[i] as int], *ev, self.x, self.y);
                            b is Some
                        };
                    assert(next[i] == prefix[i]);
                }
                if some_answer(start, prefix, *ev, self.x, self.y, Some(EventAction::Close)) {
                    let i = choose|i: int|
                        0 <= i < prefix.len() && {
                            let b = #[trigger] widget_answer(start[prefix[i] as int], *ev, self.x, self.y);
                            b is Some && b == Some(EventAction::Close)
                        };
                    assert(next[i] == prefix[i]);
                }
                if some_answer(start, next, *ev, self.x, self.y, None) {
                    let i = choose|i: int|
                        0 <= i < next.len() && {
                            let b = #[trigger] widget_answer(start[next[i] as int], *ev, self.x, self.y);
                            b is Some
                        };
                    if i < k {
                        assert(prefix[i] == next[i]);
                    }
                }
                if some_answer(start, next, *ev, self.x, self.y, Some(EventAction::Close)) {
                    let i = choose|i: int|
                        0 <= i < next.len() && {
                            let b = #[trigger] widget_answer(start[next[i] as int], *ev, self.x, self.y);
                            b is Some && b == Some(EventAction::Close)
                        };
                    if i < k {
                        assert(prefix[i] == next[i]);
                    }
                }
            }
            match a {
                Some(e) => {
                    answered = true;
                    if e == EventAction::Close {
                        closes = true;
                    }
                },
                None => {},
            }
            k = k + 1;
        }
        proof {
            assert(ids@.subrange(0, n as int) == ids@);
        }
        (answered, closes)
    }

    /// Reacts to `ev`; returns whether it affected the window or one of its widgets.
    ///
    /// A hidden window ignores everything. A left press on the window goes to its
    /// widgets, and starts a drag when it is on the title bar and no widget took it. A
    /// left release ends the drag and, on the window, goes to the widgets; the window
    /// hides when one asks to close it. A motion moves the window while it is dragged,
    /// and otherwise goes to the widgets when it is on the window.
    pub fn handle_event<'a>(&mut self, widgets: &mut Widgets<'a, T>, ev: &WindowEvent) -> (handled: bool)
        requires
            old(self).wf(old(widgets)),
            event_fits(*old(self), *ev),
        ensures
            final(self).wf(final(widgets)),
            handled == window_answer(*old(self), old(widgets).widgets@, *ev),
            *final(self) == window_after(*old(self), old(widgets).widgets@, *ev),
            reaches_widgets(*old(self), *ev) ==> dispatched(
                old(widgets).widgets@,
                final(widgets).widgets@,
                old(self).widgets@,
                *ev,
                old(self).x,
                old(self).y,
            ),
            !reaches_widgets(*old(self), *ev) ==> final(widgets).widgets@ == old(widgets).widgets@,
    {
        if self.is_hidden {
            return false;
        }
        match *ev {
            WindowEvent::MouseButtonDown { button: MouseButton::Left, x: mouse_x, y: mouse_y } => {
                if !self.is_in(mouse_x, mouse_y) {
                    return false;
                }
                let (actions, _) = self.dispatch(widgets, ev);
                if !actions && self.is_in_title_bar(mouse_x, mouse_y) {
                    self.is_dragging_window = Some((mouse_x - self.x, mouse_y - self.y));
                }
                true
            },
            WindowEvent::MouseButtonUp { button: MouseButton::Left, x: mouse_x, y: mouse_y } => {
                let mut was_handled = self.is_dragging_window.is_some();
                self.is_dragging_window = None;
                if self.is_in(mouse_x, mouse_y) {
                    let (answered, closes) = self.dispatch(widgets, ev);
                    if closes {
                        self.is_hidden = true;
                    }
                    if answered {
                        was_handled = true;
                    }
                }
                was_handled
            },
            WindowEvent::MouseMotion { x: mouse_x, y: mouse_y } => match self.is_dragging_window {
                Some((x_add, y_add)) => {
                    self.x = mouse_x - x_add;
                    self.y = mouse_y - y_add;
                    true
                },
                None => {
                    if self.is_in(mouse_x, mouse_y) {
                        self.dispatch(widgets, ev);
                        true
                    } else {
                        false
                    }
                },
            },
            _ => false,
        }
    }
}

/// A character window: a window on a dark background (painted by whoever builds
/// `texture`) holding the character information under its title bar. Returns the window
/// and the index of the information widget.
pub fn create_character_window<'a, T>(
    texture: TextureHolder<T>,
    button_texture: T,
    button_texture_pressed: T,
    button_texture_hovered: T,
    button_texture_hovered_and_pressed: T,
    x: i32,
    y: i32,
    border_width: u32,
    widgets: &mut Widgets<'a, T>,
) -> (r: (Window<T>, usize))
    requires
        (texture.width as i32) - TITLE_BAR_HEIGHT >= i32::MIN,
    ensures
        r.0.wf(final(widgets)),
        r.1 == old(widgets).widgets@.len() + 1,
        final(widgets).widgets@.len() == old(widgets).widgets@.len() + 2,
        r.0.widgets@ == seq![(r.1 - 1) as usize, r.1],
        fresh_window(r.0, texture, x, y, "Character", border_width),
        final(widgets).widgets@.subrange(0, r.1 as int) == old(widgets).widgets@.push(
            AnyWidget::TitleBarButton(
                close_button(
                    texture.width,
                    button_texture,
                    button_texture_pressed,
                    button_texture_hovered,
                    button_texture_hovered_and_pressed,
                ),
            ),
        ),
        final(widgets).widgets@[r.1 as int] matches AnyWidget::CharacterInfo(info) && info_layout(
            info,
            border_width as i32,
            TITLE_BAR_HEIGHT as i32,
            texture.width,
        ),
{
    let width = texture.width;
    let mut w = Window::new(
        texture,
        button_texture,
        button_texture_pressed,
        button_texture_hovered,
        button_texture_hovered_and_pressed,
        x,
        y,
        "Character",
        border_width,
        widgets,
    );
    let info = CharacterInfo::new(border_width as i32, w.title_bar_height as i32, width);
    let id = w.add_widget(widgets, AnyWidget::CharacterInfo(info));
    (w, id)
}

/// An inventory window: a window holding the grid of inventory slots (drawn with
/// `cases_texture`) inside its borders, under its title bar.
pub fn create_inventory_window<'a, T>(
    texture: TextureHolder<T>,
    button_texture: T,
    button_texture_pressed: T,
    button_texture_hovered: T,
    button_texture_hovered_and_pressed: T,
    textures: &'a Named<TextureHolder<T>>,
    cases_texture: TextureHolder<T>,
    x: i32,
    y: i32,
    border_width: u32,
    widgets: &mut Widgets<'a, T>,
) -> (w: Window<T>)
    requires
        (texture.width as i32) - TITLE_BAR_HEIGHT >= i32::MIN,
        textures.wf(),
        textures.view_map().dom().contains("inventory-case-hover"@),
        border_width <= i32::MAX,
        2 * border_width + 5 <= texture.width,
        border_width + TITLE_BAR_HEIGHT <= texture.height,
        6 * (case_size((texture.width - 2 * border_width - 2) as u32) + 1) <= i32::MAX,
        border_width + 3 * (case_size((texture.width - 2 * border_width - 2) as u32) + 1)
            <= i32::MAX,
    ensures
        w.wf(final(widgets)),
        fresh_window(w, texture, x, y, "Inventory", border_width),
        w.widgets@ == seq![old(widgets).widgets@.len() as usize, (old(widgets).widgets@.len() + 1) as usize],
        final(widgets).widgets@.len() == old(widgets).widgets@.len() + 2,
        final(widgets).widgets@.subrange(0, old(widgets).widgets@.len() + 1int) == old(
            widgets,
        ).widgets@.push(
            AnyWidget::TitleBarButton(
                close_button(
                    texture.width,
                    button_texture,
                    button_texture_pressed,
                    button_texture_hovered,
                    button_texture_hovered_and_pressed,
                ),
            ),
        ),
        final(widgets).widgets@[old(widgets).widgets@.len() + 1int] matches AnyWidget::InventoryCases(g)
            && cases_layout(
            g,
            textures.view_map()["inventory-case-hover"@],
            cases_texture,
            border_width as i32,
            TITLE_BAR_HEIGHT as i32,
            (texture.width - 2 * border_width) as u32,
            (texture.height - TITLE_BAR_HEIGHT - border_width) as u32,
        ),
{
    let width = texture.width;
    let height = texture.height;
    let mut w = Window::new(
        texture,
        button_texture,
        button_texture_pressed,
        button_texture_hovered,
        button_texture_hovered_and_pressed,
        x,
        y,
        "Inventory",
        border_width,
        widgets,
    );
    let cases = InventoryCases::new(
        textures,
        cases_texture,
        border_width as i32,
        w.title_bar_height as i32,
        width - border_width * 2,
        height - w.title_bar_height - border_width,
    );
    w.add_widget(widgets, AnyWidget::InventoryCases(cases));
    w
}

/// A hidden window ignores every event: it handles none and stays as it is.
pub proof fn lemma_hidden_window_ignores<'a, T>(w: Window<T>, ws: Seq<AnyWidget<'a, T>>, ev: WindowEvent)
    requires
        w.is_hidden,
    ensures
        !window_answer(w, ws, ev),
        window_after(w, ws, ev) == w,
        !reaches_widgets(w, ev),
{
}

/// Dragging keeps the grab point under the mouse: once a left press on the title bar
/// that no widget took has started a drag, a motion to `px` / `py` moves the window by
/// the mouse's displacement.
pub proof fn lemma_drag_follows_mouse<'a, T>(
    w: Window<T>,
    ws: Seq<AnyWidget<'a, T>>,
    button: MouseButton,
    x: i32,
    y: i32,
    px: i32,
    py: i32,
)
    requires
        !w.is_hidden,
        button == MouseButton::Left,
        in_title_bar(w, x as int, y as int),
        !some_answer(
            ws,
            w.widgets@,
            WindowEvent::MouseButtonDown { button, x, y },
            w.x,
            w.y,
            None,
        ),
        i32::MIN <= x - w.x <= i32::MAX,
        i32::MIN <= y - w.y <= i32::MAX,
        i32::MIN <= w.x + (px - x) <= i32::MAX,
        i32::MIN <= w.y + (py - y) <= i32::MAX,
    ensures
        ({
            let pressed = window_after(w, ws, WindowEvent::MouseButtonDown { button, x, y });
            let moved = window_after(pressed, ws, WindowEvent::MouseMotion { x: px, y: py });
            &&& moved.x == w.x + (px - x)
            &&& moved.y == w.y + (py - y)
            &&& moved.is_dragging_window == pressed.is_dragging_window
        }),
{
}

/// An update makes the label show what it asks for: after `Value(v)` the label holds
/// `v` and keeps its maximum, after `MaxValue(m)` it keeps its value and holds `m`, after
/// `Both(v, m)` it holds `v` and `m`. Whenever that changes its value or its maximum, its
/// text is rewritten for the new numbers; only an update that changes neither leaves the
/// label exactly as it was.
pub proof fn lemma_label_shows_update(a: Label, b: Label, update: UpdateKind)
    requires
        label_updated(a, b, update),
    ensures
        update matches UpdateKind::Value(v) ==> b.current == v && b.max == a.max,
        update matches UpdateKind::MaxValue(m) ==> b.current == a.current && b.max == m,
        update matches UpdateKind::Both(v, m) ==> b.current == v && b.max == m,
        b.has_max == a.has_max && b.x == a.x && b.y == a.y,
        (b.current != a.current || b.max != a.max) ==> b.text@ == label_text(b.current, b.max, a.has_max),
        (b.current == a.current && b.max == a.max) ==> b == a,
{
}

/// Applying the same update to a label twice changes it no more than applying it once.
pub proof fn lemma_label_update_idempotent(a: Label, b: Label, c: Label, update: UpdateKind)
    requires
        label_updated(a, b, update),
        label_updated(b, c, update),
    ensures
        c == b,
{
}

} // verus!
