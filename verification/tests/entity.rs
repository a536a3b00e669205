use space_invaders::entity::{
    Color, DrawCommand, Entity, EntityView, ImageHandle, BULLET_HEIGHT, BULLET_WIDTH, SHIP_EXTENT,
};
use space_invaders::geometry::{Point, Rect, Size};

fn rect(x: i64, y: i64, width: u32, height: u32) -> Rect {
    Rect { pos: Point { x, y }, size: Size { width, height } }
}

#[test]
fn sizes_of_ships_and_bullets() {
    assert_eq!(SHIP_EXTENT, 30);
    assert_eq!(BULLET_WIDTH, 2);
    assert_eq!(BULLET_HEIGHT, 30);
}

#[test]
fn green_is_green() {
    assert_eq!(Color::green(), Color { r: 0, g: 255, b: 0, a: 255 });
}

#[test]
fn player_is_centred_and_ship_sized() {
    let player = Entity::new_player(400, 550, EntityView::Blank);
    assert_eq!(player.rect(), rect(385, 535, 30, 30));
    assert_eq!(player.center(), Point { x: 400, y: 550 });
    assert_eq!(player.visual(), EntityView::Blank);
}

#[test]
fn enemy_is_centred_and_ship_sized() {
    let image = ImageHandle { id: 7 };
    let enemy = Entity::new_enemy(200, 20, EntityView::Image(image));
    assert_eq!(enemy.rect(), rect(185, 5, 30, 30));
    assert_eq!(enemy.center(), Point { x: 200, y: 20 });
    assert_eq!(enemy.visual(), EntityView::Image(image));
}

#[test]
fn bullet_is_centred_and_bullet_sized() {
    let bullet = Entity::new_bullet(400, 550, EntityView::Color(Color::green()));
    assert_eq!(bullet.rect(), rect(399, 535, 2, 30));
    assert_eq!(bullet.center(), Point { x: 400, y: 550 });
    assert_eq!(bullet.visual(), EntityView::Color(Color { r: 0, g: 255, b: 0, a: 255 }));
}

#[test]
fn entity_of_any_size() {
    let entity = Entity::new(-10, 7, 8, 3, EntityView::Blank);
    assert_eq!(entity.rect(), rect(-14, 6, 8, 3));
    assert_eq!(entity.center(), Point { x: -10, y: 7 });
}

#[test]
fn entity_without_extent() {
    let entity = Entity::new(5, 5, 0, 0, EntityView::Blank);
    assert_eq!(entity.rect(), rect(5, 5, 0, 0));
    assert_eq!(entity.center(), Point { x: 5, y: 5 });
}

#[test]
fn moves_change_one_coordinate() {
    let mut entity = Entity::new(100, 100, 30, 30, EntityView::Blank);
    entity.move_left(10);
    assert_eq!(entity.rect(), rect(75, 85, 30, 30));
    entity.move_right(25);
    assert_eq!(entity.rect(), rect(100, 85, 30, 30));
    entity.move_down(1);
    assert_eq!(entity.rect(), rect(100, 86, 30, 30));
    entity.move_up(20);
    assert_eq!(entity.rect(), rect(100, 66, 30, 30));
}

#[test]
fn moves_by_negative_amounts_go_the_other_way() {
    let mut entity = Entity::new(100, 100, 30, 30, EntityView::Blank);
    entity.move_left(-10);
    assert_eq!(entity.rect().pos, Point { x: 95, y: 85 });
    entity.move_up(-5);
    assert_eq!(entity.rect().pos, Point { x: 95, y: 90 });
    entity.move_right(-95);
    assert_eq!(entity.rect().pos, Point { x: 0, y: 90 });
    entity.move_down(-90);
    assert_eq!(entity.rect().pos, Point { x: 0, y: 0 });
}

#[test]
fn moves_by_nothing_change_nothing() {
    let mut entity = Entity::new(100, 100, 30, 30, EntityView::Blank);
    entity.move_left(0);
    entity.move_right(0);
    entity.move_up(0);
    entity.move_down(0);
    assert_eq!(entity.rect(), rect(85, 85, 30, 30));
}

#[test]
fn moves_keep_the_look() {
    let image = ImageHandle { id: 3 };
    let mut entity = Entity::new(0, 0, 30, 30, EntityView::Image(image));
    entity.move_left(1);
    entity.move_down(1);
    assert_eq!(entity.visual(), EntityView::Image(image));
}

#[test]
fn moves_saturate_at_the_ends_of_the_range() {
    let mut entity = Entity::new(0, 0, 2, 2, EntityView::Blank);
    entity.move_left(i64::MAX);
    entity.move_left(i64::MAX);
    assert_eq!(entity.rect().pos, Point { x: i64::MIN, y: -1 });
    entity.move_left(10);
    assert_eq!(entity.rect().pos, Point { x: i64::MIN, y: -1 });
    entity.move_right(i64::MAX);
    entity.move_right(i64::MAX);
    entity.move_right(i64::MAX);
    assert_eq!(entity.rect().pos, Point { x: i64::MAX, y: -1 });
    entity.move_down(i64::MAX);
    entity.move_down(i64::MAX);
    assert_eq!(entity.rect().pos, Point { x: i64::MAX, y: i64::MAX });
    entity.move_up(i64::MIN);
    assert_eq!(entity.rect().pos, Point { x: i64::MAX, y: i64::MAX });
    entity.move_up(i64::MAX);
    entity.move_up(i64::MAX);
    entity.move_up(i64::MAX);
    assert_eq!(entity.rect().pos, Point { x: i64::MAX, y: i64::MIN });
    assert_eq!(entity.rect().size, Size { width: 2, height: 2 });
}

#[test]
fn move_left_by_the_least_amount_goes_right() {
    let mut entity = Entity::new(0, 0, 0, 0, EntityView::Blank);
    entity.move_left(i64::MIN);
    assert_eq!(entity.rect().pos, Point { x: i64::MAX, y: 0 });
}

#[test]
fn hit_test_of_overlapping_entities() {
    let bullet = Entity::new_bullet(400, 60, EntityView::Blank);
    let enemy = Entity::new_enemy(400, 40, EntityView::Blank);
    assert!(bullet.hit_test(&enemy));
    assert!(enemy.hit_test(&bullet));
}

#[test]
fn hit_test_of_entities_apart() {
    let bullet = Entity::new_bullet(400, 550, EntityView::Blank);
    let enemy = Entity::new_enemy(400, 20, EntityView::Blank);
    assert!(!bullet.hit_test(&enemy));
    let beside = Entity::new_enemy(450, 550, EntityView::Blank);
    assert!(!bullet.hit_test(&beside));
}

#[test]
fn hit_test_of_touching_entities() {
    let enemy = Entity::new_enemy(400, 20, EntityView::Blank);
    let below = Entity::new_bullet(400, 50, EntityView::Blank);
    assert_eq!(enemy.rect(), rect(385, 5, 30, 30));
    assert_eq!(below.rect(), rect(399, 35, 2, 30));
    assert!(!below.hit_test(&enemy));
    let beside = Entity::new_bullet(416, 20, EntityView::Blank);
    assert_eq!(beside.rect(), rect(415, 5, 2, 30));
    assert!(!beside.hit_test(&enemy));
    let inside = Entity::new_bullet(415, 20, EntityView::Blank);
    assert!(inside.hit_test(&enemy));
}

#[test]
fn hit_test_ignores_the_look() {
    let a = Entity::new(0, 0, 10, 10, EntityView::Blank);
    let b = Entity::new(5, 5, 10, 10, EntityView::Color(Color::green()));
    assert!(a.hit_test(&b));
}

#[test]
fn set_view_replaces_the_look_only() {
    let mut entity = Entity::new_player(400, 550, EntityView::Blank);
    entity.set_view(EntityView::Image(ImageHandle { id: 1 }));
    assert_eq!(entity.visual(), EntityView::Image(ImageHandle { id: 1 }));
    assert_eq!(entity.rect(), rect(385, 535, 30, 30));
    entity.set_view(EntityView::Color(Color { r: 1, g: 2, b: 3, a: 4 }));
    assert_eq!(entity.visual(), EntityView::Color(Color { r: 1, g: 2, b: 3, a: 4 }));
    entity.set_view(EntityView::Blank);
    assert_eq!(entity.visual(), EntityView::Blank);
}

#[test]
fn blank_entity_draws_nothing() {
    let entity = Entity::new_player(400, 550, EntityView::Blank);
    assert_eq!(entity.render(), None);
}

#[test]
fn image_entity_draws_its_image_into_its_rectangle() {
    let image = ImageHandle { id: 9 };
    let mut entity = Entity::new_enemy(200, 20, EntityView::Image(image));
    entity.move_down(3);
    assert_eq!(
        entity.render(),
        Some(DrawCommand::Image { image, region: rect(185, 8, 30, 30) })
    );
}

#[test]
fn coloured_entity_fills_its_rectangle() {
    let entity = Entity::new_bullet(400, 550, EntityView::Color(Color::green()));
    assert_eq!(
        entity.render(),
        Some(DrawCommand::Fill {
            region: rect(399, 535, 2, 30),
            color: Color { r: 0, g: 255, b: 0, a: 255 },
        })
    );
}
