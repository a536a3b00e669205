//! What follows from the rules of the game.

use vstd::prelude::*;
use crate::entity::{
    Color, EntityState, EntityView, ImageHandle, BULLET_HEIGHT, BULLET_WIDTH, SHIP_EXTENT,
};
use crate::game::{
    descended, formation, hit_by_any, missed_by_all, risen, GameState, BULLET_SPEED,
    ENEMY_SPEED, FORMATION_ORIGIN_X, FORMATION_SIZE, FORMATION_SPACING, FORMATION_Y,
};
use crate::geometry::{Point, Size};
use crate::input::{pressed, released, Key, KeyEvent, Movement, PLAYER_SPEED};

verus! {

/// One update moves the ship by exactly `PLAYER_SPEED` to the left while Left
/// is held, by as much to the right while Right is held, and not at all while
/// nothing is held, as long as the ship stays within the coordinate range. It
/// never changes the ship's height on the screen, its size or its look.
pub proof fn lemma_update_moves_ship(game: GameState)
    requires
        i64::MIN <= game.player.rect.pos.x + game.movement.drift() <= i64::MAX,
    ensures
        game.movement == Movement::Left ==> game.after_update().player.rect.pos.x
            == game.player.rect.pos.x - PLAYER_SPEED,
        game.movement == Movement::Right ==> game.after_update().player.rect.pos.x
            == game.player.rect.pos.x + PLAYER_SPEED,
        game.movement == Movement::Idle ==> game.after_update().player.rect.pos.x
            == game.player.rect.pos.x,
        game.after_update().player.rect.pos.y == game.player.rect.pos.y,
        game.after_update().player.rect.size == game.player.rect.size,
        game.after_update().player.view == game.player.view,
        game.after_update().movement == game.movement,
{
}

/// Every enemy that is there after an update was there before it, exactly
/// `ENEMY_SPEED` further down the screen now, whatever bullets there are; its
/// x, its size and its look are as they were. This holds as long as no enemy
/// has reached the bottom of the coordinate range.
pub proof fn lemma_update_lowers_enemies(game: GameState, j: int)
    requires
        forall|i: int|
            0 <= i < game.enemies.len() ==> (#[trigger] game.enemies[i]).rect.pos.y + ENEMY_SPEED
                <= i64::MAX,
        0 <= j < game.after_update().enemies.len(),
    ensures
        exists|i: int|
            0 <= i < game.enemies.len() && game.after_update().enemies[j].rect.pos.y == (
            #[trigger] game.enemies[i]).rect.pos.y + ENEMY_SPEED
                && game.after_update().enemies[j].rect.pos.x == game.enemies[i].rect.pos.x
                && game.after_update().enemies[j].rect.size == game.enemies[i].rect.size
                && game.after_update().enemies[j].view == game.enemies[i].view,
{
    let lowered = descended(game.enemies);
    let test = missed_by_all(risen(game.bullets));
    let enemy = game.after_update().enemies[j];
    assert(lowered.filter(test).contains(enemy));
    lowered.lemma_filter_contains_rev(test, enemy);
    let i = choose|i: int| 0 <= i < lowered.len() && lowered[i] == enemy;
    assert(enemy == game.enemies[i].moved(0, ENEMY_SPEED as int));
}

/// An update never adds an enemy, and without bullets it removes none.
pub proof fn lemma_update_keeps_or_removes(game: GameState)
    ensures
        game.after_update().enemies.len() <= game.enemies.len(),
        game.bullets.len() == 0 ==> game.after_update().enemies == descended(game.enemies),
{
    let lowered = descended(game.enemies);
    let test = missed_by_all(risen(game.bullets));
    lowered.lemma_filter_len(test);
    if game.bullets.len() == 0 {
        assert forall|i: int| 0 <= i < lowered.len() implies test(#[trigger] lowered[i]) by {}
        lemma_filter_keeps_all(lowered, test);
    }
}

/// A filter that every element passes changes nothing.
proof fn lemma_filter_keeps_all<A>(s: Seq<A>, test: spec_fn(A) -> bool)
    requires
        forall|i: int| 0 <= i < s.len() ==> test(#[trigger] s[i]),
    ensures
        s.filter(test) == s,
    decreases s.len(),
{
    reveal(Seq::filter);
    if s.len() > 0 {
        lemma_filter_keeps_all(s.drop_last(), test);
        assert(s.drop_last().push(s.last()) =~= s);
    }
}

/// An enemy that some bullet overlaps, once the enemy has descended and the
/// bullet has risen, is gone after the update.
pub proof fn lemma_hit_enemy_is_removed(game: GameState, i: int, j: int)
    requires
        0 <= i < game.enemies.len(),
        0 <= j < game.bullets.len(),
        game.bullets[j].moved(0, -BULLET_SPEED).rect.overlaps(
            game.enemies[i].moved(0, ENEMY_SPEED as int).rect,
        ),
    ensures
        !game.after_update().enemies.contains(game.enemies[i].moved(0, ENEMY_SPEED as int)),
{
    let lowered = descended(game.enemies);
    let raised = risen(game.bullets);
    let test = missed_by_all(raised);
    let enemy = game.enemies[i].moved(0, ENEMY_SPEED as int);
    let left = lowered.filter(test);
    if left.contains(enemy) {
        let k = choose|k: int| 0 <= k < left.len() && left[k] == enemy;
        lowered.lemma_filter_pred(test, k);
        assert(raised[j].rect.overlaps(enemy.rect));
    }
}

/// An enemy that no bullet overlaps, once the enemy has descended and the
/// bullets have risen, is still there after the update.
pub proof fn lemma_missed_enemy_remains(game: GameState, i: int)
    requires
        0 <= i < game.enemies.len(),
        forall|j: int|
            0 <= j < game.bullets.len() ==> !(#[trigger] game.bullets[j]).moved(
                0,
                -BULLET_SPEED,
            ).rect.overlaps(game.enemies[i].moved(0, ENEMY_SPEED as int).rect),
    ensures
        game.after_update().enemies.contains(game.enemies[i].moved(0, ENEMY_SPEED as int)),
{
    let lowered = descended(game.enemies);
    let raised = risen(game.bullets);
    let test = missed_by_all(raised);
    let enemy = game.enemies[i].moved(0, ENEMY_SPEED as int);
    assert(lowered[i] == enemy);
    if hit_by_any(enemy, raised) {
        let j = choose|j: int|
            0 <= j < raised.len() && (#[trigger] raised[j]).rect.overlaps(enemy.rect);
        assert(game.bullets[j].moved(0, -BULLET_SPEED) == raised[j]);
    }
    lowered.lemma_filter_contains(test, i);
}

/// A bullet that overlaps an enemy before an update still overlaps it once
/// both have moved, provided that the bullet reaches further down into the
/// enemy than the two together travel, and that neither leaves the coordinate
/// range. Such an enemy is gone after the update.
pub proof fn lemma_deep_overlap_removes(game: GameState, i: int, j: int)
    requires
        0 <= i < game.enemies.len(),
        0 <= j < game.bullets.len(),
        game.bullets[j].rect.overlaps(game.enemies[i].rect),
        game.bullets[j].rect.bottom() - game.enemies[i].rect.pos.y > BULLET_SPEED + ENEMY_SPEED,
        game.bullets[j].rect.pos.y - BULLET_SPEED >= i64::MIN,
        game.enemies[i].rect.pos.y + ENEMY_SPEED <= i64::MAX,
    ensures
        !game.after_update().enemies.contains(game.enemies[i].moved(0, ENEMY_SPEED as int)),
{
    lemma_hit_enemy_is_removed(game, i, j);
}

/// The opening formation is a row of `FORMATION_SIZE` ship-sized enemies, all
/// with the given image. Counting from one, the centre of the i-th lies at
/// `FORMATION_ORIGIN_X + i * FORMATION_SPACING` on the row `FORMATION_Y`.
pub proof fn lemma_opening_formation(image: ImageHandle)
    ensures
        formation(image).len() == FORMATION_SIZE,
        forall|i: int|
            0 <= i < FORMATION_SIZE ==> (#[trigger] formation(image)[i]).rect.center_point() == (
            Point { x: (FORMATION_ORIGIN_X + (i + 1) * FORMATION_SPACING) as i64, y: FORMATION_Y }),
        forall|i: int|
            0 <= i < FORMATION_SIZE ==> (#[trigger] formation(image)[i]).rect.size == (Size {
                width: SHIP_EXTENT,
                height: SHIP_EXTENT,
            }),
        forall|i: int|
            0 <= i < FORMATION_SIZE ==> (#[trigger] formation(image)[i]).view == EntityView::Image(
                image,
            ),
{
}

/// A new game that is given its images has the opening formation for its
/// enemies and nothing else.
pub proof fn lemma_first_enemies(player_image: ImageHandle, enemy_image: ImageHandle)
    ensures
        GameState::initial().after_init(player_image, enemy_image).enemies == formation(
            enemy_image,
        ),
        GameState::initial().after_init(player_image, enemy_image).bullets.len() == 0,
{
    assert(Seq::<EntityState>::empty() + formation(enemy_image) =~= formation(enemy_image));
}

/// Space going down adds exactly one bullet behind those that are there and
/// changes nothing else. The new bullet is green and bullet-sized, and its
/// centre is the centre of the ship, as long as the bullet's top-left corner
/// fits in the coordinate range.
pub proof fn lemma_fire_adds_one_bullet(game: GameState)
    requires
        game.player.rect.center_point().x - BULLET_WIDTH / 2 >= i64::MIN,
        game.player.rect.center_point().y - BULLET_HEIGHT / 2 >= i64::MIN,
    ensures
        game.after_key(pressed(Key::Space)).bullets.len() == game.bullets.len() + 1,
        game.after_key(pressed(Key::Space)).bullets.drop_last() == game.bullets,
        game.after_key(pressed(Key::Space)).bullets.last().rect.center_point()
            == game.player.rect.center_point(),
        game.after_key(pressed(Key::Space)).bullets.last().rect.size == (Size {
            width: BULLET_WIDTH,
            height: BULLET_HEIGHT,
        }),
        game.after_key(pressed(Key::Space)).bullets.last().view == EntityView::Color(
            Color::spec_green(),
        ),
        game.after_key(pressed(Key::Space)).player == game.player,
        game.after_key(pressed(Key::Space)).enemies == game.enemies,
        game.after_key(pressed(Key::Space)).movement == game.movement,
{
    assert(game.bullets.push(game.fired_bullet()).drop_last() =~= game.bullets);
}

/// Firing again keeps the bullets fired before: two presses of Space leave
/// the old bullets in place and two new ones behind them.
pub proof fn lemma_fire_twice(game: GameState)
    ensures
        game.after_key(pressed(Key::Space)).after_key(pressed(Key::Space)).bullets
            == game.bullets.push(game.fired_bullet()).push(game.fired_bullet()),
{
}

/// Space coming up fires nothing.
pub proof fn lemma_release_does_not_fire(game: GameState)
    ensures
        game.after_key(released(Key::Space)) == game,
{
}

/// No bullet is ever removed: an update keeps their number, and a key event
/// keeps every bullet where it is in the list.
pub proof fn lemma_bullets_are_kept(game: GameState, event: KeyEvent)
    ensures
        game.after_update().bullets.len() == game.bullets.len(),
        game.after_key(event).bullets.len() >= game.bullets.len(),
        game.after_key(event).bullets.take(game.bullets.len() as int) == game.bullets,
{
    assert(game.after_key(event).bullets.take(game.bullets.len() as int) =~= game.bullets);
}

/// The images on record are only read once they are there: neither a key
/// event nor any number of updates changes them, and the same holds of the
/// ship's look.
pub proof fn lemma_images_are_kept(game: GameState, event: KeyEvent, count: nat)
    ensures
        game.after_key(event).images == game.images,
        game.after_key(event).player.view == game.player.view,
        game.after_updates(count).images == game.images,
        game.after_updates(count).player.view == game.player.view,
    decreases count,
{
    if count > 0 {
        lemma_images_are_kept(game, event, (count - 1) as nat);
    }
}

/// Every bullet rises by exactly `BULLET_SPEED` in an update, as long as it
/// stays within the coordinate range, and keeps its x, its size and its look.
pub proof fn lemma_update_raises_bullets(game: GameState, j: int)
    requires
        0 <= j < game.bullets.len(),
        game.bullets[j].rect.pos.y - BULLET_SPEED >= i64::MIN,
    ensures
        game.after_update().bullets[j].rect.pos.y == game.bullets[j].rect.pos.y - BULLET_SPEED,
        game.after_update().bullets[j].rect.pos.x == game.bullets[j].rect.pos.x,
        game.after_update().bullets[j].rect.size == game.bullets[j].rect.size,
        game.after_update().bullets[j].view == game.bullets[j].view,
{
}

} // verus!
