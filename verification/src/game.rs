//! The game: one ship, its enemies and its bullets, and the rules by which a
//! key event or a tick of the clock changes them.

use vstd::prelude::*;
use crate::assets::{Asset, ImageTable};
use crate::entity::{Color, DrawCommand, Entity, EntityState, EntityView, ImageHandle};
use crate::input::{Key, KeyEvent, Movement, PLAYER_SPEED};

verus! {

/// Centre of the player's ship at the start of a game.
pub const PLAYER_START_X: i64 = 400;

/// Centre of the player's ship at the start of a game.
pub const PLAYER_START_Y: i64 = 550;

/// Distance that every enemy descends in one update.
pub const ENEMY_SPEED: i64 = 1;

/// Distance that every bullet rises in one update.
pub const BULLET_SPEED: i64 = 20;

/// Number of enemies in the opening formation.
pub const FORMATION_SIZE: i64 = 9;

/// The opening formation starts one spacing to the right of this x.
pub const FORMATION_ORIGIN_X: i64 = 150;

/// Distance between the centres of two neighbours in the opening formation.
pub const FORMATION_SPACING: i64 = 50;

/// The y on which every enemy of the opening formation is centred.
pub const FORMATION_Y: i64 = 20;

/// The entities of a list as plain data, in the same order.
pub open spec fn states(entities: Seq<Entity>) -> Seq<EntityState> {
    entities.map_values(|entity: Entity| entity@)
}

/// The bullets after each has risen by one update's distance.
pub open spec fn risen(bullets: Seq<EntityState>) -> Seq<EntityState> {
    bullets.map_values(|bullet: EntityState| bullet.moved(0, -BULLET_SPEED))
}

/// The enemies after each has descended by one update's distance.
pub open spec fn descended(enemies: Seq<EntityState>) -> Seq<EntityState> {
    enemies.map_values(|enemy: EntityState| enemy.moved(0, ENEMY_SPEED as int))
}

/// Whether any of the bullets overlaps the enemy.
pub open spec fn hit_by_any(enemy: EntityState, bullets: Seq<EntityState>) -> bool {
    exists|j: int| 0 <= j < bullets.len() && (#[trigger] bullets[j]).rect.overlaps(enemy.rect)
}

/// The test that an enemy passes when the bullet does not overlap it.
pub open spec fn missed_by(bullet: EntityState) -> spec_fn(EntityState) -> bool {
    |enemy: EntityState| !bullet.rect.overlaps(enemy.rect)
}

/// The test that an enemy passes when none of the bullets overlaps it.
pub open spec fn missed_by_all(bullets: Seq<EntityState>) -> spec_fn(EntityState) -> bool {
    |enemy: EntityState| !hit_by_any(enemy, bullets)
}

/// The enemies that none of the bullets overlaps, in their old order.
pub open spec fn survivors(
    enemies: Seq<EntityState>,
    bullets: Seq<EntityState>,
) -> Seq<EntityState> {
    enemies.filter(missed_by_all(bullets))
}

/// The enemies that are left when the bullets take their turns one after the
/// other, each removing the enemies that it overlaps from those that the
/// bullets before it have left.
pub open spec fn swept(enemies: Seq<EntityState>, bullets: Seq<EntityState>) -> Seq<EntityState>
    decreases bullets.len(),
{
    if bullets.len() == 0 {
        enemies
    } else {
        swept(enemies, bullets.drop_last()).filter(missed_by(bullets.last()))
    }
}

/// The drawing of an entity, if it has one.
pub open spec fn drawing_of() -> spec_fn(EntityState) -> Option<DrawCommand> {
    |entity: EntityState| entity.drawing()
}

/// The drawings of the entities that have one, in the order of the entities.
pub open spec fn drawings(entities: Seq<EntityState>) -> Seq<DrawCommand> {
    entities.filter_map(drawing_of())
}

/// The opening formation: a row of enemies, all showing `image`, centred on
/// `FORMATION_Y` and spaced `FORMATION_SPACING` apart, the first of them one
/// spacing right of `FORMATION_ORIGIN_X`.
pub open spec fn formation(image: ImageHandle) -> Seq<EntityState> {
    Seq::new(
        FORMATION_SIZE as nat,
        |i: int|
            EntityState::ship_at(
                FORMATION_ORIGIN_X + (i + 1) * FORMATION_SPACING,
                FORMATION_Y as int,
                EntityView::Image(image),
            ),
    )
}

/// What a game is, as plain data.
pub struct GameState {
    pub player: EntityState,
    pub enemies: Seq<EntityState>,
    pub bullets: Seq<EntityState>,
    pub movement: Movement,
    pub images: Map<Asset, ImageHandle>,
}

impl GameState {
    /// A game before anything has happened: the ship at its starting place
    /// with nothing to show yet, no enemy, no bullet, no key held, no image
    /// loaded.
    pub open spec fn initial() -> GameState {
        GameState {
            player: EntityState::ship_at(
                PLAYER_START_X as int,
                PLAYER_START_Y as int,
                EntityView::Blank,
            ),
            enemies: Seq::empty(),
            bullets: Seq::empty(),
            movement: Movement::Idle,
            images: Map::empty(),
        }
    }

    /// The game once the two images are loaded: both are on record, the ship
    /// shows its image, and the opening formation has joined the enemies.
    pub open spec fn after_init(
        self,
        player_image: ImageHandle,
        enemy_image: ImageHandle,
    ) -> GameState {
        GameState {
            player: self.player.with_view(EntityView::Image(player_image)),
            enemies: self.enemies + formation(enemy_image),
            bullets: self.bullets,
            movement: self.movement,
            images: self.images.insert(Asset::Player, player_image).insert(
                Asset::Enemy,
                enemy_image,
            ),
        }
    }

    /// The bullet that the ship fires: green, and centred on the ship's centre.
    pub open spec fn fired_bullet(self) -> EntityState {
        let center = self.player.rect.center_point();
        EntityState::bullet_at(
            center.x as int,
            center.y as int,
            EntityView::Color(Color::spec_green()),
        )
    }

    /// The game after a key event. Left and Right steer the movement intent.
    /// Space going down fires one bullet, which joins the bullets at the end.
    /// Nothing else changes.
    pub open spec fn after_key(self, event: KeyEvent) -> GameState {
        GameState {
            player: self.player,
            enemies: self.enemies,
            bullets: if event.key == Key::Space && event.is_down {
                self.bullets.push(self.fired_bullet())
            } else {
                self.bullets
            },
            movement: self.movement.after(event),
            images: self.images,
        }
    }

    /// The game after one update. The ship moves with the intent, every enemy
    /// descends, every bullet rises, and then every enemy that a bullet
    /// overlaps is gone. The bullets all stay.
    pub open spec fn after_update(self) -> GameState {
        GameState {
            player: self.player.moved(self.movement.drift(), 0),
            enemies: survivors(descended(self.enemies), risen(self.bullets)),
            bullets: risen(self.bullets),
            movement: self.movement,
            images: self.images,
        }
    }

    /// The game after `count` updates in a row.
    pub open spec fn after_updates(self, count: nat) -> GameState
        decreases count,
    {
        if count == 0 {
            self
        } else {
            self.after_updates((count - 1) as nat).after_update()
        }
    }

    /// What there is to draw: the ship first, then the enemies, then the
    /// bullets, each group in its own order. What comes later is drawn over
    /// what came before.
    pub open spec fn frame(self) -> Seq<DrawCommand> {
        drawings(seq![self.player]) + drawings(self.enemies) + drawings(self.bullets)
    }
}

/// The whole state of one game.
pub struct Game {
    player: Entity,
    enemies: Vec<Entity>,
    bullets: Vec<Entity>,
    player_movement: Movement,
    images: ImageTable,
}

impl View for Game {
    type V = GameState;

    closed spec fn view(&self) -> GameState {
        GameState {
            player: self.player@,
            enemies: states(self.enemies@),
            bullets: states(self.bullets@),
            movement: self.player_movement,
            images: self.images@,
        }
    }
}

/// Filtering twice is filtering once by both tests.
proof fn lemma_filter_twice<A>(
    s: Seq<A>,
    first: spec_fn(A) -> bool,
    second: spec_fn(A) -> bool,
    both: spec_fn(A) -> bool,
)
    requires
        forall|x: A| #[trigger] both(x) == (first(x) && second(x)),
    ensures
        s.filter(first).filter(second) == s.filter(both),
    decreases s.len(),
{
    reveal(Seq::filter);
    if s.len() > 0 {
        let rest = s.drop_last();
        lemma_filter_twice(rest, first, second, both);
        assert(both(s.last()) == (first(s.last()) && second(s.last())));
        if first(s.last()) {
            rest.filter(first).lemma_filter_push(s.last(), second);
        }
    }
}

/// A bullet more in the list hits whatever the list hit before, and whatever
/// the new bullet overlaps.
proof fn lemma_one_more_bullet(bullets: Seq<EntityState>, bullet: EntityState)
    ensures
        forall|enemy: EntityState| #[trigger]
            missed_by_all(bullets.push(bullet))(enemy) == (missed_by_all(bullets)(enemy)
                && missed_by(bullet)(enemy)),
{
    assert forall|enemy: EntityState| #[trigger]
        missed_by_all(bullets.push(bullet))(enemy) == (missed_by_all(bullets)(enemy) && missed_by(
            bullet,
        )(enemy)) by {
        let longer = bullets.push(bullet);
        if hit_by_any(enemy, longer) {
            let j = choose|j: int|
                0 <= j < longer.len() && (#[trigger] longer[j]).rect.overlaps(enemy.rect);
            if j < bullets.len() {
                assert(bullets[j].rect.overlaps(enemy.rect));
            }
        }
        if hit_by_any(enemy, bullets) {
            let j = choose|j: int|
                0 <= j < bullets.len() && (#[trigger] bullets[j]).rect.overlaps(enemy.rect);
            assert(longer[j].rect.overlaps(enemy.rect));
        }
        if bullet.rect.overlaps(enemy.rect) {
            assert(longer[bullets.len() as int].rect.overlaps(enemy.rect));
        }
    }
}

/// No bullet, no hit: every enemy survives an empty list of bullets.
proof fn lemma_no_bullets(enemies: Seq<EntityState>)
    ensures
        survivors(enemies, Seq::empty()) == enemies,
    decreases enemies.len(),
{
    reveal(Seq::filter);
    if enemies.len() > 0 {
        lemma_no_bullets(enemies.drop_last());
        assert(enemies.drop_last().push(enemies.last()) =~= enemies);
    }
}

/// It makes no difference whether the bullets take their turns one after the
/// other, each seeing only the enemies that the earlier ones have left, or
/// whether every enemy is tested against all of the bullets at once: the same
/// enemies are left, in the same order.
pub proof fn lemma_bullet_by_bullet(enemies: Seq<EntityState>, bullets: Seq<EntityState>)
    ensures
        swept(enemies, bullets) == survivors(enemies, bullets),
    decreases bullets.len(),
{
    if bullets.len() == 0 {
        lemma_no_bullets(enemies);
        assert(bullets =~= Seq::<EntityState>::empty());
    } else {
        let earlier = bullets.drop_last();
        lemma_bullet_by_bullet(enemies, earlier);
        lemma_one_more_bullet(earlier, bullets.last());
        assert(earlier.push(bullets.last()) =~= bullets);
        lemma_filter_twice(
            enemies,
            missed_by_all(earlier),
            missed_by(bullets.last()),
            missed_by_all(bullets),
        );
    }
}

/// Lowers every enemy of the list by one update's distance.
fn lower_all(enemies: &mut Vec<Entity>)
    ensures
        states(final(enemies)@) == descended(states(old(enemies)@)),
{
    let ghost before = enemies@;
    let mut i: usize = 0;
    while i < enemies.len()
        invariant
            i <= enemies.len(),
            enemies.len() == before.len(),
            forall|k: int|
                0 <= k < i ==> (#[trigger] enemies@[k])@ == before[k]@.moved(
                    0,
                    ENEMY_SPEED as int,
                ),
            forall|k: int| i <= k < enemies.len() ==> #[trigger] enemies@[k] == before[k],
        decreases enemies.len() - i,
    {
        let mut enemy = enemies[i];
        enemy.move_down(ENEMY_SPEED);
        enemies.set(i, enemy);
        i += 1;
    }
    assert(states(enemies@) =~= descended(states(before)));
}

/// Keeps the enemies that the bullet does not overlap, in their old order.
fn retain_missed(enemies: &mut Vec<Entity>, bullet: &Entity)
    ensures
        states(final(enemies)@) == states(old(enemies)@).filter(missed_by(bullet@)),
{
    let ghost before = states(enemies@);
    let mut kept: Vec<Entity> = Vec::new();
    let mut i: usize = 0;
    proof {
        reveal(Seq::filter);
        assert(before.take(0) =~= Seq::<EntityState>::empty());
        assert(states(kept@) =~= before.take(0).filter(missed_by(bullet@)));
    }
    while i < enemies.len()
        invariant
            i <= enemies.len(),
            before == states(enemies@),
            states(kept@) == before.take(i as int).filter(missed_by(bullet@)),
        decreases enemies.len() - i,
    {
        let enemy = enemies[i];
        proof {
            before.take(i as int).lemma_filter_push(enemy@, missed_by(bullet@));
            assert(before.take(i as int).push(enemy@) =~= before.take(i + 1));
        }
        if !bullet.hit_test(&enemy) {
            let ghost shorter = kept@;
            kept.push(enemy);
            assert(states(kept@) =~= states(shorter).push(enemy@));
        }
        i += 1;
    }
    assert(before.take(enemies.len() as int) =~= before);
    *enemies = kept;
}

/// Appends the drawings of the entities to the end of `commands`.
fn render_all(entities: &Vec<Entity>, commands: &mut Vec<DrawCommand>)
    ensures
        final(commands)@ == old(commands)@ + drawings(states(entities@)),
{
    let ghost before = commands@;
    let ghost all = states(entities@);
    let mut i: usize = 0;
    assert(all.take(0) =~= Seq::<EntityState>::empty());
    assert(commands@ =~= before + drawings(all.take(0)));
    while i < entities.len()
        invariant
            i <= entities.len(),
            all == states(entities@),
            commands@ == before + drawings(all.take(i as int)),
        decreases entities.len() - i,
    {
        proof {
            all.lemma_filter_map_take_succ(drawing_of(), i as int);
        }
        match entities[i].render() {
            Some(command) => {
                commands.push(command);
                assert(commands@ =~= before + drawings(all.take(i + 1)));
            },
            None => {
                assert(commands@ =~= before + drawings(all.take(i + 1)));
            },
        }
        i += 1;
    }
    assert(all.take(entities.len() as int) =~= all);
}

impl Game {
    /// A new game: the ship at its starting place with nothing to show yet,
    /// no enemy, no bullet, no key held, no image loaded.
    pub fn new() -> (game: Game)
        ensures
            game@ == GameState::initial(),
    {
        let game = Game {
            player: Entity::new_player(PLAYER_START_X, PLAYER_START_Y, EntityView::Blank),
            enemies: Vec::new(),
            bullets: Vec::new(),
            player_movement: Movement::Idle,
            images: ImageTable::new(),
        };
        assert(game@.enemies =~= Seq::<EntityState>::empty());
        assert(game@.bullets =~= Seq::<EntityState>::empty());
        game
    }

    /// Takes the two images that the host has loaded: records them, gives the
    /// ship its image and lines up the opening formation behind any enemies
    /// that are already there.
    pub fn init(&mut self, player_image: ImageHandle, enemy_image: ImageHandle)
        ensures
            final(self)@ == old(self)@.after_init(player_image, enemy_image),
    {
        let ghost before = self@;
        self.images.insert(Asset::Player, player_image);
        self.images.insert(Asset::Enemy, enemy_image);
        self.player.set_view(EntityView::Image(player_image));
        let mut i: i64 = 1;
        assert(states(self.enemies@) =~= before.enemies + formation(enemy_image).take(0));
        while i <= FORMATION_SIZE
            invariant
                1 <= i <= FORMATION_SIZE + 1,
                states(self.enemies@) == before.enemies + formation(enemy_image).take(i - 1),
                self.player@ == before.player.with_view(EntityView::Image(player_image)),
                states(self.bullets@) == before.bullets,
                self.player_movement == before.movement,
                self.images@ == before.images.insert(Asset::Player, player_image).insert(
                    Asset::Enemy,
                    enemy_image,
                ),
            decreases FORMATION_SIZE + 1 - i,
        {
            let ghost shorter = self.enemies@;
            let x: i64 = FORMATION_ORIGIN_X + i * FORMATION_SPACING;
            let enemy = Entity::new_enemy(x, FORMATION_Y, EntityView::Image(enemy_image));
            self.enemies.push(enemy);
            proof {
                let row = formation(enemy_image);
                assert(enemy@ == row[i - 1]);
                assert(row.take(i as int) =~= row.take(i - 1).push(row[i - 1]));
                assert(states(self.enemies@) =~= states(shorter).push(enemy@));
            }
            i += 1;
        }
        assert(formation(enemy_image).take(FORMATION_SIZE as int) =~= formation(enemy_image));
    }

    /// Advances the game by one tick. The ship moves by `PLAYER_SPEED` in the
    /// direction held, if any, with nothing to stop it at the screen's edge.
    /// Every enemy descends by `ENEMY_SPEED`. Every bullet in turn rises by
    /// `BULLET_SPEED` and removes the enemies that it then overlaps; no bullet
    /// is ever removed.
    pub fn update(&mut self)
        ensures
            final(self)@ == old(self)@.after_update(),
    {
        let ghost before = self@;
        match self.player_movement {
            Movement::Left => self.player.move_left(PLAYER_SPEED),
            Movement::Right => self.player.move_right(PLAYER_SPEED),
            Movement::Idle => {},
        }
        lower_all(&mut self.enemies);
        let ghost lowered = descended(before.enemies);
        let ghost raised = risen(before.bullets);
        let mut j: usize = 0;
        assert(raised.take(0) =~= Seq::<EntityState>::empty());
        while j < self.bullets.len()
            invariant
                j <= self.bullets.len(),
                self.bullets.len() == before.bullets.len(),
                raised == risen(before.bullets),
                forall|k: int| 0 <= k < j ==> (#[trigger] self.bullets@[k])@ == raised[k],
                forall|k: int|
                    j <= k < self.bullets.len() ==> (#[trigger] self.bullets@[k])@
                        == before.bullets[k],
                states(self.enemies@) == swept(lowered, raised.take(j as int)),
                self.player@ == before.player.moved(before.movement.drift(), 0),
                self.player_movement == before.movement,
                self.images@ == before.images,
            decreases self.bullets.len() - j,
        {
            let mut bullet = self.bullets[j];
            bullet.move_up(BULLET_SPEED);
            self.bullets.set(j, bullet);
            retain_missed(&mut self.enemies, &bullet);
            assert(raised.take(j + 1).drop_last() =~= raised.take(j as int));
            j += 1;
        }
        assert(raised.take(self.bullets.len() as int) =~= raised);
        proof {
            lemma_bullet_by_bullet(lowered, raised);
        }
        assert(states(self.bullets@) =~= raised);
    }

    /// Takes a key event. Left and Right going down set the movement intent;
    /// coming up they clear it if it is still theirs. Space going down fires a
    /// green bullet from the centre of the ship.
    pub fn handle_key(&mut self, event: KeyEvent)
        ensures
            final(self)@ == old(self)@.after_key(event),
    {
        match event.key {
            Key::Left | Key::Right => {
                self.player_movement = self.player_movement.on_key(event);
            },
            Key::Space => {
                if event.is_down {
                    let center = self.player.center();
                    let ghost shorter = self.bullets@;
                    let bullet = Entity::new_bullet(
                        center.x,
                        center.y,
                        EntityView::Color(Color::green()),
                    );
                    self.bullets.push(bullet);
                    assert(states(self.bullets@) =~= states(shorter).push(bullet@));
                }
            },
            Key::Other => {},
        }
    }

    /// Lists what there is to draw: the ship, then the enemies in their
    /// order, then the bullets in theirs. Entities with nothing to show are
    /// left out.
    pub fn render(&self) -> (commands: Vec<DrawCommand>)
        ensures
            commands@ == self@.frame(),
    {
        let mut commands: Vec<DrawCommand> = Vec::new();
        proof {
            Seq::lemma_filter_map_singleton(self.player@, drawing_of());
        }
        match self.player.render() {
            Some(command) => {
                commands.push(command);
                assert(commands@ =~= drawings(seq![self.player@]));
            },
            None => {
                assert(commands@ =~= drawings(seq![self.player@]));
            },
        }
        render_all(&self.enemies, &mut commands);
        render_all(&self.bullets, &mut commands);
        commands
    }

    /// The player's ship.
    pub fn player(&self) -> (player: Entity)
        ensures
            player@ == self@.player,
    {
        self.player
    }

    /// The enemies, in the order in which they are drawn.
    pub fn enemies(&self) -> (enemies: &Vec<Entity>)
        ensures
            states(enemies@) == self@.enemies,
    {
        &self.enemies
    }

    /// The bullets, in the order in which they were fired.
    pub fn bullets(&self) -> (bullets: &Vec<Entity>)
        ensures
            states(bullets@) == self@.bullets,
    {
        &self.bullets
    }

    /// The direction in which the player currently wants to move.
    pub fn movement(&self) -> (movement: Movement)
        ensures
            movement == self@.movement,
    {
        self.player_movement
    }

    /// The loaded image of `asset`, if there is one.
    pub fn image(&self, asset: Asset) -> (image: Option<ImageHandle>)
        ensures
            image == if self@.images.contains_key(asset) {
                Some(self@.images[asset])
            } else {
                None
            },
    {
        self.images.get(asset)
    }
}

} // verus!
