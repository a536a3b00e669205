//! Entities: rectangles on the grid with something to show for themselves.

use vstd::prelude::*;
use crate::geometry::{clamp_coordinate, Point, Rect, Size};

verus! {

/// Width and height of the player's ship and of every enemy.
pub const SHIP_EXTENT: u32 = 30;

/// Width of a bullet.
pub const BULLET_WIDTH: u32 = 2;

/// Height of a bullet.
pub const BULLET_HEIGHT: u32 = 30;

/// A colour as red, green, blue and opacity, each from 0 to 255.
#[derive(Clone, Copy, Debug, PartialEq, Eq, Structural)]
pub struct Color {
    pub r: u8,
    pub g: u8,
    pub b: u8,
    pub a: u8,
}

impl Color {
    /// Fully opaque pure green.
    pub open spec fn spec_green() -> Color {
        Color { r: 0, g: 255, b: 0, a: 255 }
    }

    /// Fully opaque pure green.
    #[verifier::when_used_as_spec(spec_green)]
    pub fn green() -> (c: Color)
        ensures
            c == Color::spec_green(),
    {
        Color { r: 0, g: 255, b: 0, a: 255 }
    }
}

/// Stands for an image that the host has loaded. The host hands these out and
/// is the only one to know what picture lies behind an `id`; any number of
/// entities may carry the same handle.
#[derive(Clone, Copy, Debug, PartialEq, Eq, Structural)]
pub struct ImageHandle {
    pub id: u64,
}

/// What an entity looks like.
#[derive(Clone, Copy, Debug, PartialEq, Eq, Structural)]
pub enum EntityView {
    /// Nothing is drawn.
    Blank,
    /// The image is drawn into the entity's rectangle.
    Image(ImageHandle),
    /// The entity's rectangle is filled with the colour.
    Color(Color),
}

/// One instruction for the host's renderer.
#[derive(Clone, Copy, Debug, PartialEq, Eq, Structural)]
pub enum DrawCommand {
    /// Draw `image` scaled into `region`.
    Image { image: ImageHandle, region: Rect },
    /// Fill `region` with `color`.
    Fill { region: Rect, color: Color },
}

/// What an entity is, as plain data: where it is and what it looks like.
#[derive(Clone, Copy, Debug, PartialEq, Eq, Structural)]
pub struct EntityState {
    pub rect: Rect,
    pub view: EntityView,
}

impl EntityState {
    /// The entity of the given size and look whose centre is `(x, y)`.
    pub open spec fn centered_at(x: int, y: int, size: Size, view: EntityView) -> EntityState {
        EntityState { rect: Rect::centered_at(x, y, size), view }
    }

    /// A ship-sized entity whose centre is `(x, y)`.
    pub open spec fn ship_at(x: int, y: int, view: EntityView) -> EntityState {
        EntityState::centered_at(x, y, Size { width: SHIP_EXTENT, height: SHIP_EXTENT }, view)
    }

    /// A bullet-sized entity whose centre is `(x, y)`.
    pub open spec fn bullet_at(x: int, y: int, view: EntityView) -> EntityState {
        EntityState::centered_at(x, y, Size { width: BULLET_WIDTH, height: BULLET_HEIGHT }, view)
    }

    /// This entity displaced by `(dx, dy)`. Nothing but the position changes.
    pub open spec fn moved(self, dx: int, dy: int) -> EntityState {
        EntityState { rect: self.rect.shifted(dx, dy), view: self.view }
    }

    /// This entity with another look. Nothing but the look changes.
    pub open spec fn with_view(self, view: EntityView) -> EntityState {
        EntityState { rect: self.rect, view }
    }

    /// The instruction that draws this entity, if it has anything to show.
    pub open spec fn drawing(self) -> Option<DrawCommand> {
        match self.view {
            EntityView::Blank => None,
            EntityView::Image(image) => Some(DrawCommand::Image { image, region: self.rect }),
            EntityView::Color(color) => Some(DrawCommand::Fill { region: self.rect, color }),
        }
    }
}

/// A rectangle on the grid together with its look. The size is fixed when the
/// entity is made; afterwards only the four moves change the rectangle.
#[derive(Clone, Copy, Debug)]
pub struct Entity {
    rect: Rect,
    view: EntityView,
}

impl View for Entity {
    type V = EntityState;

    closed spec fn view(&self) -> EntityState {
        EntityState { rect: self.rect, view: self.view }
    }
}

impl Entity {
    /// The player's ship, centred on `(x, y)`.
    pub fn new_player(x: i64, y: i64, view: EntityView) -> (entity: Entity)
        ensures
            entity@ == EntityState::ship_at(x as int, y as int, view),
    {
        Entity::new(x, y, SHIP_EXTENT, SHIP_EXTENT, view)
    }

    /// An enemy, centred on `(x, y)`.
    pub fn new_enemy(x: i64, y: i64, view: EntityView) -> (entity: Entity)
        ensures
            entity@ == EntityState::ship_at(x as int, y as int, view),
    {
        Entity::new(x, y, SHIP_EXTENT, SHIP_EXTENT, view)
    }

    /// A bullet, centred on `(x, y)`.
    pub fn new_bullet(x: i64, y: i64, view: EntityView) -> (entity: Entity)
        ensures
            entity@ == EntityState::bullet_at(x as int, y as int, view),
    {
        Entity::new(x, y, BULLET_WIDTH, BULLET_HEIGHT, view)
    }

    /// An entity of the given width and height, centred on `(x, y)`.
    pub fn new(x: i64, y: i64, width: u32, height: u32, view: EntityView) -> (entity: Entity)
        ensures
            entity@ == EntityState::centered_at(x as int, y as int, Size { width, height }, view),
    {
        Entity { rect: Rect::around(x, y, Size { width, height }), view }
    }

    /// Tells whether this entity's rectangle and the other's share any area.
    pub fn hit_test(&self, entity: &Entity) -> (hit: bool)
        ensures
            hit == self@.rect.overlaps(entity@.rect),
    {
        self.rect.overlaps_rect(&entity.rect)
    }

    /// Moves the entity `amount` units to the left.
    pub fn move_left(&mut self, amount: i64)
        ensures
            final(self)@ == old(self)@.moved(-amount, 0),
    {
        self.rect.pos.x = clamp_coordinate(self.rect.pos.x as i128 - amount as i128);
    }

    /// Moves the entity `amount` units to the right.
    pub fn move_right(&mut self, amount: i64)
        ensures
            final(self)@ == old(self)@.moved(amount as int, 0),
    {
        self.rect.pos.x = clamp_coordinate(self.rect.pos.x as i128 + amount as i128);
    }

    /// Moves the entity `amount` units down the screen.
    pub fn move_down(&mut self, amount: i64)
        ensures
            final(self)@ == old(self)@.moved(0, amount as int),
    {
        self.rect.pos.y = clamp_coordinate(self.rect.pos.y as i128 + amount as i128);
    }

    /// Moves the entity `amount` units up the screen.
    pub fn move_up(&mut self, amount: i64)
        ensures
            final(self)@ == old(self)@.moved(0, -amount),
    {
        self.rect.pos.y = clamp_coordinate(self.rect.pos.y as i128 - amount as i128);
    }

    /// The centre of the entity's rectangle.
    pub fn center(&self) -> (c: Point)
        ensures
            c == self@.rect.center_point(),
    {
        self.rect.center()
    }

    /// Replaces the entity's look.
    pub fn set_view(&mut self, view: EntityView)
        ensures
            final(self)@ == old(self)@.with_view(view),
    {
        self.view = view;
    }

    /// The instruction that draws the entity: none for an entity without a
    /// look, the image drawn into the entity's rectangle, or the rectangle
    /// filled with the entity's colour.
    pub fn render(&self) -> (command: Option<DrawCommand>)
        ensures
            command == self@.drawing(),
    {
        match self.view {
            EntityView::Blank => None,
            EntityView::Image(image) => Some(DrawCommand::Image { image, region: self.rect }),
            EntityView::Color(color) => Some(DrawCommand::Fill { region: self.rect, color }),
        }
    }

    /// The entity's rectangle.
    pub fn rect(&self) -> (rect: Rect)
        ensures
            rect == self@.rect,
    {
        self.rect
    }

    /// The entity's look.
    pub fn visual(&self) -> (view: EntityView)
        ensures
            view == self@.view,
    {
        self.view
    }
}

} // verus!
