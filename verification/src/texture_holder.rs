use vstd::prelude::*;

use crate::geometry::Rect;
use crate::registry::Named;
use crate::system::System;

verus! {

/// A texture together with its size in pixels.
pub struct TextureHolder<T> {
    pub texture: T,
    pub width: u32,
    pub height: u32,
}

/// Where a sprite of `width` x `height` pixels, whose top-left corner is `dx` / `dy`
/// pixels away from the top-left corner of a `screen_width` x `screen_height` screen,
/// lands on it; `None` when it cannot be seen at all.
pub open spec fn screen_rect(
    width: u32,
    height: u32,
    dx: i32,
    dy: i32,
    screen_width: i32,
    screen_height: i32,
) -> Option<Rect> {
    if (width as i32) + dx < 0 || dx > screen_width || (height as i32) + dy < 0 || dy
        > screen_height {
        None
    } else {
        Some(Rect { x: dx, y: dy, width, height })
    }
}

/// The sprite of the given size can be placed at `dx` / `dy` without integer overflow.
pub open spec fn placement_fits(width: u32, height: u32, dx: i32, dy: i32) -> bool {
    i32::MIN <= (width as i32) + dx <= i32::MAX && i32::MIN <= (height as i32) + dy <= i32::MAX
}

/// Where a sprite at world position `x` / `y` lands on the screen of `system`.
pub fn visible_rect<C, F>(
    system: &System<C, F>,
    width: u32,
    height: u32,
    x: i64,
    y: i64,
) -> (r: Option<Rect>)
    requires
        i64::MIN <= x - system.x <= i64::MAX,
        i64::MIN <= y - system.y <= i64::MAX,
        placement_fits(width, height, (x - system.x) as i32, (y - system.y) as i32),
    ensures
        r == screen_rect(
            width,
            height,
            (x - system.x) as i32,
            (y - system.y) as i32,
            system.width as i32,
            system.height as i32,
        ),
{
    let dx = (x - system.x()) as i32;
    let dy = (y - system.y()) as i32;
    if width as i32 + dx < 0 || dx > system.width() || height as i32 + dy < 0 || dy
        > system.height() {
        None
    } else {
        Some(Rect::new(dx, dy, width, height))
    }
}

impl<T> TextureHolder<T> {
    /// Pairs a texture made from a surface with the size of that surface.
    pub fn surface_to_texture(texture: T, surface_width: u32, surface_height: u32) -> (r:
        TextureHolder<T>)
        ensures
            r.texture == texture,
            r.width == surface_width,
            r.height == surface_height,
    {
        TextureHolder { texture, width: surface_width, height: surface_height }
    }

    /// Shrinks the size so that its longest side is `max_size`, dividing the other side
    /// by the same (integer) factor, and clamping it to `max_size` too.
    pub fn with_max_size(self, max_size: u32) -> (r: TextureHolder<T>)
        requires
            max_size > 0,
            self.width > self.height ==> self.width >= max_size,
            self.width <= self.height ==> self.height >= max_size,
        ensures
            r.texture == self.texture,
            self.width > self.height ==> {
                &&& r.width == max_size
                &&& r.height == (if self.height / (self.width / max_size) > max_size {
                    max_size
                } else {
                    self.height / (self.width / max_size)
                })
            },
            self.width <= self.height ==> {
                &&& r.height == max_size
                &&& r.width == (if self.width / (self.height / max_size) > max_size {
                    max_size
                } else {
                    self.width / (self.height / max_size)
                })
            },
            r.width <= max_size,
            r.height <= max_size,
    {
        let mut s = self;
        if s.width > s.height {
            let div = s.width / max_size;
            assert(div > 0) by (nonlinear_arith)
                requires
                    s.width >= max_size,
                    max_size > 0,
                    div == s.width / max_size,
            ;
            s.width = max_size;
            s.height = s.height / div;
            if s.height > max_size {
                s.height = max_size;
            }
        } else {
            let div = s.height / max_size;
            assert(div > 0) by (nonlinear_arith)
                requires
                    s.height >= max_size,
                    max_size > 0,
                    div == s.height / max_size,
            ;
            s.height = max_size;
            s.width = s.width / div;
            if s.width > max_size {
                s.width = max_size;
            }
        }
        s
    }

    /// Where this texture, drawn at world position `x` / `y`, lands on the screen;
    /// `None` when it is out of sight.
    pub fn draw<C, F>(&self, system: &System<C, F>, x: i64, y: i64) -> (r: Option<Rect>)
        requires
            i64::MIN <= x - system.x <= i64::MAX,
            i64::MIN <= y - system.y <= i64::MAX,
            placement_fits(self.width, self.height, (x - system.x) as i32, (y - system.y) as i32),
        ensures
            r == screen_rect(
                self.width,
                self.height,
                (x - system.x) as i32,
                (y - system.y) as i32,
                system.width as i32,
                system.height as i32,
            ),
    {
        visible_rect(system, self.width, self.height, x, y)
    }
}

/// A handle on a texture stored in `Textures`, with the texture's size.
#[derive(Clone, Copy, PartialEq, Eq, Debug, Structural)]
pub struct TextureId {
    pub id: usize,
    pub height: u16,
    pub width: u16,
}

impl TextureId {
    /// The position of the texture in its `Textures`.
    pub open spec fn index(self) -> usize {
        self.id
    }

    /// A handle; the sizes are truncated to 16 bits.
    fn new(id: usize, height: u32, width: u32) -> (r: Self)
        ensures
            r.index() == id,
            r.height == height as u16,
            r.width == width as u16,
    {
        Self { id, height: height as u16, width: width as u16 }
    }

    /// The position of the texture in its `Textures`.
    pub fn id(self) -> (r: usize)
        ensures
            r == self.index(),
    {
        self.id
    }

    /// Where the texture, drawn at world position `x` / `y`, lands on the screen;
    /// `None` when it is out of sight.
    pub fn draw<C, F>(self, system: &System<C, F>, x: i64, y: i64) -> (r: Option<Rect>)
        requires
            i64::MIN <= x - system.x <= i64::MAX,
            i64::MIN <= y - system.y <= i64::MAX,
            placement_fits(
                self.width as u32,
                self.height as u32,
                (x - system.x) as i32,
                (y - system.y) as i32,
            ),
        ensures
            r == screen_rect(
                self.width as u32,
                self.height as u32,
                (x - system.x) as i32,
                (y - system.y) as i32,
                system.width as i32,
                system.height as i32,
            ),
    {
        visible_rect(system, self.width as u32, self.height as u32, x, y)
    }
}

/// All loaded textures, some of them under a name, with named pixel masks and surfaces.
pub struct Textures<T, S> {
    textures: Vec<TextureHolder<T>>,
    named_textures: Named<TextureId>,
    surface_data: Named<Vec<u8>>,
    surfaces: Named<S>,
}

impl<T, S> Textures<T, S> {
    pub closed spec fn wf(&self) -> bool {
        &&& self.named_textures.wf()
        &&& self.surface_data.wf()
        &&& self.surfaces.wf()
    }

    /// The stored textures, in the order they were added.
    pub closed spec fn holders(&self) -> Seq<TextureHolder<T>> {
        self.textures@
    }

    /// The texture handles, by name.
    pub closed spec fn named(&self) -> Map<Seq<char>, TextureId> {
        self.named_textures.view_map()
    }

    /// The pixel masks, by name.
    pub closed spec fn data(&self) -> Map<Seq<char>, Seq<u8>> {
        self.surface_data.view_map().map_values(|v: Vec<u8>| v@)
    }

    /// The surfaces, by name.
    pub closed spec fn surface_map(&self) -> Map<Seq<char>, S> {
        self.surfaces.view_map()
    }

    pub fn new() -> (r: Self)
        ensures
            r.wf(),
            r.holders() == Seq::<TextureHolder<T>>::empty(),
            r.named() == Map::<Seq<char>, TextureId>::empty(),
            r.data() == Map::<Seq<char>, Seq<u8>>::empty(),
            r.surface_map() == Map::<Seq<char>, S>::empty(),
    {
        let r = Self {
            textures: Vec::new(),
            named_textures: Named::new(),
            surface_data: Named::new(),
            surfaces: Named::new(),
        };
        assert(r.data() =~= Map::<Seq<char>, Seq<u8>>::empty());
        r
    }

    /// Stores `texture` and returns its handle, which records its size.
    pub fn add_texture(&mut self, texture: TextureHolder<T>) -> (id: TextureId)
        requires
            old(self).holders().len() < usize::MAX,
        ensures
            final(self).wf() == old(self).wf(),
            id.index() == old(self).holders().len(),
            id.width == texture.width as u16,
            id.height == texture.height as u16,
            final(self).holders() == old(self).holders().push(texture),
            final(self).named() == old(self).named(),
            final(self).data() == old(self).data(),
            final(self).surface_map() == old(self).surface_map(),
    {
        let width = texture.width;
        let height = texture.height;
        self.textures.push(texture);
        TextureId::new(self.textures.len() - 1, height, width)
    }

    /// Stores `texture` and registers its handle under `name`, which must be unused.
    pub fn add_named_texture(&mut self, name: &'static str, texture: TextureHolder<T>)
        requires
            old(self).wf(),
            old(self).holders().len() < usize::MAX,
            !old(self).named().dom().contains(name@),
        ensures
            final(self).wf(),
            final(self).holders() == old(self).holders().push(texture),
            final(self).named().dom().contains(name@),
            final(self).named() == old(self).named().insert(
                name@,
                final(self).named()[name@],
            ),
            final(self).named()[name@].index() == old(self).holders().len(),
            final(self).named()[name@].width == texture.width as u16,
            final(self).named()[name@].height == texture.height as u16,
            final(self).data() == old(self).data(),
            final(self).surface_map() == old(self).surface_map(),
    {
        let ghost w = texture.width;
        let ghost h = texture.height;
        let id = self.add_texture(texture);
        self.create_named_texture_id(name, id);
    }

    /// Registers the handle `id` under `name`, which must be unused.
    pub fn create_named_texture_id(&mut self, name: &'static str, id: TextureId)
        requires
            old(self).wf(),
            !old(self).named().dom().contains(name@),
        ensures
            final(self).wf(),
            final(self).named() == old(self).named().insert(name@, id),
            final(self).holders() == old(self).holders(),
            final(self).data() == old(self).data(),
            final(self).surface_map() == old(self).surface_map(),
    {
        self.named_textures.insert_new(name, id);
    }

    /// The handle registered under `name`, which must exist.
    pub fn get_texture_id_from_name(&self, name: &str) -> (id: TextureId)
        requires
            self.wf(),
            self.named().dom().contains(name@),
        ensures
            id == self.named()[name@],
    {
        *self.named_textures.get(name)
    }

    /// The stored texture that `id` designates.
    pub fn get(&self, id: TextureId) -> (r: &TextureHolder<T>)
        requires
            id.index() < self.holders().len(),
        ensures
            *r == self.holders()[id.index() as int],
    {
        &self.textures[id.id]
    }

    /// Registers the pixel mask `data` under `name`, which must be unused.
    pub fn add_surface_data(&mut self, name: &'static str, data: Vec<u8>)
        requires
            old(self).wf(),
            !old(self).data().dom().contains(name@),
        ensures
            final(self).wf(),
            final(self).data() == old(self).data().insert(name@, data@),
            final(self).holders() == old(self).holders(),
            final(self).named() == old(self).named(),
            final(self).surface_map() == old(self).surface_map(),
    {
        let ghost d = data@;
        self.surface_data.insert_new(name, data);
        assert(self.data() =~= old(self).data().insert(name@, d));
    }

    /// The pixel mask registered under `name`, which must exist.
    pub fn get_data(&self, name: &'static str) -> (r: &[u8])
        requires
            self.wf(),
            self.data().dom().contains(name@),
        ensures
            r@ == self.data()[name@],
    {
        self.surface_data.get(name).as_slice()
    }

    /// Registers `surface` under `name`, which must be unused.
    pub fn add_surface(&mut self, name: &'static str, surface: S)
        requires
            old(self).wf(),
            !old(self).surface_map().dom().contains(name@),
        ensures
            final(self).wf(),
            final(self).surface_map() == old(self).surface_map().insert(name@, surface),
            final(self).holders() == old(self).holders(),
            final(self).named() == old(self).named(),
            final(self).data() == old(self).data(),
    {
        self.surfaces.insert_new(name, surface);
    }

    /// The surface registered under `name`, which must exist.
    pub fn get_surface(&self, name: &'static str) -> (r: &S)
        requires
            self.wf(),
            self.surface_map().dom().contains(name@),
        ensures
            *r == self.surface_map()[name@],
    {
        self.surfaces.get(name)
    }
}

} // verus!
