use vstd::prelude::*;
use vstd::std_specs::convert::FromSpecImpl;
use vstd::string::StringSliceAdditionalSpecFns;
use crate::assets::AnimationID;
use crate::entity::{HumanoidEnemy, HumanoidEnemyView, NonPlayerEntity};
use crate::graphics::{transparent, Color, DrawCall, RenderLayers};
use crate::player::{Input, Player, PlayerView};
use crate::registry::{Enumerated, Registry};
use crate::tilemap::{parsed_map, MapError, Tilemap, TilemapView};
use crate::utils::{div_round, tile_round, Point, Vec2, TILE_SIZE};

verus! {

/// The first of the markers that lead to a linked screen.
pub const PORTAL_FIRST: usize = 4;

/// The last of the markers that lead to a linked screen.
pub const PORTAL_LAST: usize = 7;

/// The marker code of spawn point zero; spawn point `n` has this code plus
/// `n`.
pub const SPAWN_BASE: usize = 7;

/// The marker that sends the player back to spawn point zero.
pub const CHECKPOINT: usize = 12;

/// What a screen and its actors see and may touch during a tick: the
/// player, the layers of the picture, and the keys that are held.
pub struct ScreenUpdateContext<'a> {
    pub player: &'a mut Player,
    pub render_layers: &'a mut RenderLayers,
    pub input: Input,
}

/// The screens of the game.
#[derive(Clone, Copy, Debug, PartialEq, Eq, Hash, Structural)]
pub enum ScreenID {
    Test,
    Level1,
    Level2,
    Level3,
    Level4,
    Level5,
    Level6,
    Level7,
    Level8,
}

/// What a tick of a screen asks of the loop that owns the screens.
#[derive(Clone, Copy, Debug, PartialEq, Eq, Structural)]
pub enum ScreenUpdateResult {
    /// Nothing.
    Pass,
    /// To change to another screen, and to load it at that spawn point.
    ChangeScreen(ScreenID, usize),
}

/// A fault in the making of a level that shows when the player steps on a
/// marker.
#[derive(Clone, Copy, Debug, PartialEq, Eq, Structural)]
pub enum ScreenError {
    /// The player stands on the portal of a slot, the first number, but the
    /// screen has only as many linked screens as the second number says.
    NoLinkedScreen(usize, usize),
    /// The player stands on a checkpoint marker, but the map has no spawn
    /// point zero to return to.
    NoCheckpoint,
}

impl From<ScreenID> for usize {
    fn from(val: ScreenID) -> (index: usize) {
        match val {
            ScreenID::Test => 0,
            ScreenID::Level1 => 1,
            ScreenID::Level2 => 2,
            ScreenID::Level3 => 3,
            ScreenID::Level4 => 4,
            ScreenID::Level5 => 5,
            ScreenID::Level6 => 6,
            ScreenID::Level7 => 7,
            ScreenID::Level8 => 8,
        }
    }
}

impl FromSpecImpl<ScreenID> for usize {
    open spec fn obeys_from_spec() -> bool {
        true
    }

    open spec fn from_spec(val: ScreenID) -> usize {
        match val {
            ScreenID::Test => 0,
            ScreenID::Level1 => 1,
            ScreenID::Level2 => 2,
            ScreenID::Level3 => 3,
            ScreenID::Level4 => 4,
            ScreenID::Level5 => 5,
            ScreenID::Level6 => 6,
            ScreenID::Level7 => 7,
            ScreenID::Level8 => 8,
        }
    }
}

impl Enumerated for ScreenID {
    open spec fn count() -> nat {
        9
    }

    open spec fn index_spec(&self) -> nat {
        <usize as vstd::std_specs::convert::FromSpec<ScreenID>>::from_spec(*self) as nat
    }

    fn index(&self) -> (i: usize) {
        usize::from(*self)
    }

    fn all() -> (ids: Vec<ScreenID>) {
        let mut ids: Vec<ScreenID> = Vec::new();
        ids.push(ScreenID::Test);
        ids.push(ScreenID::Level1);
        ids.push(ScreenID::Level2);
        ids.push(ScreenID::Level3);
        ids.push(ScreenID::Level4);
        ids.push(ScreenID::Level5);
        ids.push(ScreenID::Level6);
        ids.push(ScreenID::Level7);
        ids.push(ScreenID::Level8);
        ids
    }
}

/// What clears a layer before it is painted anew.
pub open spec fn clear_call() -> DrawCall {
    DrawCall::Clear(Color { r: 0, g: 0, b: 0, a: 0 })
}

/// One screen of the game: something that can be loaded, moved by a tick,
/// and painted.
pub trait Screen: View {
    /// The screen can take part in a tick.
    spec fn wf(&self) -> bool;

    /// The map of the screen.
    spec fn map(v: Self::V) -> TilemapView;

    /// The player after the screen was loaded at a spawn point.
    spec fn loaded_player(v: Self::V, player: PlayerView, spawn_index: int) -> PlayerView;

    /// What a tick asks of the owner of the screens.
    spec fn outcome(v: Self::V, player: PlayerView, input: Input) -> Result<
        ScreenUpdateResult,
        ScreenError,
    >;

    /// The player after a tick.
    spec fn settled_player(v: Self::V, player: PlayerView, input: Input) -> PlayerView;

    /// The screen after a tick that began with the player as given.
    spec fn stepped(v: Self::V, player: PlayerView) -> Self::V;

    /// What a frame adds to the layer of the actors after clearing it.
    spec fn actor_calls(v: Self::V, player: PlayerView) -> Seq<DrawCall>;

    /// Makes the screen the current one: paints its map onto the layer of
    /// the world and puts the player where the screen wants it.
    fn on_load(&mut self, ctx: ScreenUpdateContext, spawn_index: usize)
        requires
            old(self).wf(),
            old(ctx.player)@.wf(),
        ensures
            final(self).wf(),
            final(self)@ == old(self)@,
            final(ctx.player)@ == Self::loaded_player(
                old(self)@,
                old(ctx.player)@,
                spawn_index as int,
            ),
            final(ctx.player)@.wf(),
            final(ctx.render_layers).world.calls@ == old(ctx.render_layers).world.calls@
                + Self::map(old(self)@).draw_calls(),
            final(ctx.render_layers).world_foreground == old(ctx.render_layers).world_foreground,
            final(ctx.render_layers).entities == old(ctx.render_layers).entities,
            final(ctx.render_layers).ui == old(ctx.render_layers).ui,
    ;

    /// Moves the screen by one tick and says what the owner of the screens
    /// is to do.
    fn update(&mut self, ctx: ScreenUpdateContext) -> (outcome: Result<
        ScreenUpdateResult,
        ScreenError,
    >)
        requires
            old(self).wf(),
            old(ctx.player)@.wf(),
        ensures
            final(self).wf(),
            outcome == Self::outcome(old(self)@, old(ctx.player)@, ctx.input),
            final(ctx.player)@ == Self::settled_player(old(self)@, old(ctx.player)@, ctx.input),
            final(ctx.player)@.wf(),
            final(self)@ == Self::stepped(old(self)@, old(ctx.player)@),
            *final(ctx.render_layers) == *old(ctx.render_layers),
    ;

    /// Clears the layers that are painted anew every frame and adds the
    /// instructions that paint what moves on the screen.
    fn draw(&mut self, ctx: ScreenUpdateContext)
        requires
            old(self).wf(),
            old(ctx.player)@.wf(),
        ensures
            final(self).wf(),
            final(self)@ == old(self)@,
            *final(ctx.player) == *old(ctx.player),
            final(ctx.render_layers).entities.calls@ == old(ctx.render_layers).entities.calls@.push(
                clear_call(),
            ) + Self::actor_calls(old(self)@, old(ctx.player)@),
            final(ctx.render_layers).ui.calls@ == old(ctx.render_layers).ui.calls@.push(
                clear_call(),
            ),
            final(ctx.render_layers).world == old(ctx.render_layers).world,
            final(ctx.render_layers).world_foreground == old(ctx.render_layers).world_foreground,
    ;
}

/// Where the corner of cell (`x`, `y`) lies.
pub open spec fn cell_corner(cell: (int, int)) -> Point {
    Point { x: cell.0 * TILE_SIZE, y: cell.1 * TILE_SIZE }
}

/// The marker under the player: that of the cell whose corner is nearest
/// to it.
pub open spec fn marker_under(map: TilemapView, player: PlayerView) -> usize {
    map.special_at(
        div_round(player.pos.x, TILE_SIZE as int),
        div_round(player.pos.y, TILE_SIZE as int),
    )
}

/// The player after it was put at spawn point `spawn_index` of `map`: on
/// the corner of the cell that holds the marker, or where it was if the map
/// has no such spawn point.
pub open spec fn spawned(map: TilemapView, player: PlayerView, spawn_index: int) -> PlayerView {
    match map.marker_cell(SPAWN_BASE + spawn_index) {
        Some(cell) => PlayerView { pos: cell_corner(cell), ..player },
        None => player,
    }
}

/// The screen that is shown when the game is won: a map and nothing that
/// moves.
pub struct WinScreen {
    map: Tilemap,
}

impl View for WinScreen {
    type V = TilemapView;

    closed spec fn view(&self) -> TilemapView {
        self.map@
    }
}

impl WinScreen {
    /// Reads the screen from the text of its map.
    pub fn new(file: &str) -> (screen: Result<WinScreen, MapError>)
        ensures
            match screen {
                Ok(s) => parsed_map(file.spec_bytes()) == Ok::<TilemapView, MapError>(s@),
                Err(e) => parsed_map(file.spec_bytes()) == Err::<TilemapView, MapError>(e),
            },
    {
        match Tilemap::from_file(file) {
            Ok(map) => Ok(WinScreen { map }),
            Err(e) => Err(e),
        }
    }
}

impl Screen for WinScreen {
    open spec fn wf(&self) -> bool {
        true
    }

    open spec fn map(v: TilemapView) -> TilemapView {
        v
    }

    /// The player stays where it is.
    open spec fn loaded_player(v: TilemapView, player: PlayerView, spawn_index: int) -> PlayerView {
        player
    }

    /// Nothing is ever asked for.
    open spec fn outcome(v: TilemapView, player: PlayerView, input: Input) -> Result<
        ScreenUpdateResult,
        ScreenError,
    > {
        Ok(ScreenUpdateResult::Pass)
    }

    /// The player does not move.
    open spec fn settled_player(v: TilemapView, player: PlayerView, input: Input) -> PlayerView {
        player
    }

    open spec fn stepped(v: TilemapView, player: PlayerView) -> TilemapView {
        v
    }

    /// Nothing moves on this screen.
    open spec fn actor_calls(v: TilemapView, player: PlayerView) -> Seq<DrawCall> {
        Seq::empty()
    }

    fn on_load(&mut self, ctx: ScreenUpdateContext, spawn_index: usize) {
        let mut ctx = ctx;
        self.map.draw(&mut ctx);
    }

    fn update(&mut self, ctx: ScreenUpdateContext) -> (outcome: Result<
        ScreenUpdateResult,
        ScreenError,
    >) {
        Ok(ScreenUpdateResult::Pass)
    }

    fn draw(&mut self, ctx: ScreenUpdateContext) {
        ctx.render_layers.entities.calls.push(DrawCall::Clear(transparent()));
        ctx.render_layers.ui.calls.push(DrawCall::Clear(transparent()));
        assert(ctx.render_layers.entities.calls@ =~= old(ctx.render_layers).entities.calls@.push(
            clear_call(),
        ) + Seq::<DrawCall>::empty());
    }
}

/// A level as the specifications see it.
pub struct TilemapScreenView<V> {
    pub map: TilemapView,
    pub entities: Seq<V>,
    pub linked_screens: Seq<(ScreenID, usize)>,
}

/// A level: a map, the actors that live on it, and the screens that its
/// portals lead to, each with the spawn point at which it is entered.
pub struct TilemapScreen<E: NonPlayerEntity> {
    map: Tilemap,
    entities: Vec<E>,
    linked_screens: Vec<(ScreenID, usize)>,
}

impl<E: NonPlayerEntity> View for TilemapScreen<E> {
    type V = TilemapScreenView<E::V>;

    closed spec fn view(&self) -> TilemapScreenView<E::V> {
        TilemapScreenView {
            map: self.map@,
            entities: Seq::new(self.entities@.len(), |i: int| self.entities@[i]@),
            linked_screens: self.linked_screens@,
        }
    }
}

impl<E: NonPlayerEntity> TilemapScreen<E> {
    /// The player after the first `n` actors have had their tick.
    pub open spec fn struck_player(
        entities: Seq<E::V>,
        map: TilemapView,
        player: PlayerView,
        n: nat,
    ) -> PlayerView
        decreases n,
    {
        if n == 0 {
            player
        } else {
            E::strike(
                entities[n - 1],
                map,
                Self::struck_player(entities, map, player, (n - 1) as nat),
            )
        }
    }

    /// The actors after a tick. They move in order, and each sees the
    /// player as the actors before it have left it.
    pub open spec fn stepped_entities(
        entities: Seq<E::V>,
        map: TilemapView,
        player: PlayerView,
    ) -> Seq<E::V> {
        Seq::new(
            entities.len(),
            |i: int| E::step(entities[i], map, Self::struck_player(entities, map, player, i as nat)),
        )
    }

    /// The player after the actors and then the player itself have moved.
    pub open spec fn moved_player(
        screen: TilemapScreenView<E::V>,
        player: PlayerView,
        input: Input,
    ) -> PlayerView {
        Self::struck_player(screen.entities, screen.map, player, screen.entities.len()).step(
            screen.map,
            input,
        )
    }

    /// The instructions that paint the actors, in their order.
    pub open spec fn entity_calls(entities: Seq<E::V>) -> Seq<DrawCall> {
        Seq::new(entities.len(), |i: int| E::draw_call(entities[i]))
    }

    /// Every actor of the screen can take part in a tick.
    pub open spec fn entities_wf(entities: Seq<E::V>) -> bool {
        forall|i: int| 0 <= i < entities.len() ==> E::wf(#[trigger] entities[i])
    }

    /// Reads the map of a level from its text and puts the actors and the
    /// linked screens with it.
    pub fn new(file: &str, entities: Vec<E>, linked_screens: Vec<(ScreenID, usize)>) -> (screen:
        Result<Self, MapError>)
        ensures
            match screen {
                Ok(s) => {
                    &&& parsed_map(file.spec_bytes()) == Ok::<TilemapView, MapError>(s@.map)
                    &&& s@.entities == Seq::new(entities@.len(), |i: int| entities@[i]@)
                    &&& s@.linked_screens == linked_screens@
                },
                Err(e) => parsed_map(file.spec_bytes()) == Err::<TilemapView, MapError>(e),
            },
    {
        match Tilemap::from_file(file) {
            Ok(map) => Ok(TilemapScreen { map, entities, linked_screens }),
            Err(e) => Err(e),
        }
    }
}

impl<E: NonPlayerEntity> Screen for TilemapScreen<E> {
    open spec fn wf(&self) -> bool {
        Self::entities_wf(self@.entities)
    }

    open spec fn map(v: TilemapScreenView<E::V>) -> TilemapView {
        v.map
    }

    /// The player is put at spawn point `spawn_index`, if the map has it.
    open spec fn loaded_player(
        v: TilemapScreenView<E::V>,
        player: PlayerView,
        spawn_index: int,
    ) -> PlayerView {
        spawned(v.map, player, spawn_index)
    }

    /// What a tick asks of the owner of the screens. A portal marker under
    /// the player asks for the linked screen of its slot, and is an error
    /// if the screen has no such slot; a checkpoint marker is an error if
    /// the map has no spawn point zero; everything else asks for nothing.
    open spec fn outcome(
        screen: TilemapScreenView<E::V>,
        player: PlayerView,
        input: Input,
    ) -> Result<ScreenUpdateResult, ScreenError> {
        let marker = marker_under(screen.map, Self::moved_player(screen, player, input));
        if PORTAL_FIRST <= marker <= PORTAL_LAST {
            if marker - PORTAL_FIRST < screen.linked_screens.len() {
                Ok(
                    ScreenUpdateResult::ChangeScreen(
                        screen.linked_screens[marker - PORTAL_FIRST].0,
                        screen.linked_screens[marker - PORTAL_FIRST].1,
                    ),
                )
            } else {
                Err(
                    ScreenError::NoLinkedScreen(
                        (marker - PORTAL_FIRST) as usize,
                        screen.linked_screens.len() as usize,
                    ),
                )
            }
        } else if marker == CHECKPOINT && screen.map.marker_cell(SPAWN_BASE as int) is None {
            Err(ScreenError::NoCheckpoint)
        } else {
            Ok(ScreenUpdateResult::Pass)
        }
    }

    /// The player at the end of a tick: where its own move has put it, or
    /// at spawn point zero if that move ended on a checkpoint marker.
    open spec fn settled_player(
        screen: TilemapScreenView<E::V>,
        player: PlayerView,
        input: Input,
    ) -> PlayerView {
        let moved = Self::moved_player(screen, player, input);
        if marker_under(screen.map, moved) == CHECKPOINT {
            spawned(screen.map, moved, 0)
        } else {
            moved
        }
    }

    /// The actors move; the map and the links stay.
    open spec fn stepped(v: TilemapScreenView<E::V>, player: PlayerView) -> TilemapScreenView<
        E::V,
    > {
        TilemapScreenView { entities: Self::stepped_entities(v.entities, v.map, player), ..v }
    }

    /// The actors in their order, then the player.
    open spec fn actor_calls(v: TilemapScreenView<E::V>, player: PlayerView) -> Seq<DrawCall> {
        Self::entity_calls(v.entities).push(player.draw_call())
    }

    fn on_load(&mut self, ctx: ScreenUpdateContext, spawn_index: usize) {
        let mut ctx = ctx;
        self.map.draw(&mut ctx);
        if spawn_index <= usize::MAX - SPAWN_BASE {
            if let Some((x, y)) = self.map.find_special_tile(SPAWN_BASE + spawn_index) {
                ctx.player.pos = Vec2::new((x as i64) * TILE_SIZE, (y as i64) * TILE_SIZE);
            }
        } else {
            assert(!self.map@.has_marker(SPAWN_BASE + spawn_index));
        }
    }

    fn update(&mut self, ctx: ScreenUpdateContext) -> (outcome: Result<
        ScreenUpdateResult,
        ScreenError,
    >) {
        let mut context = ctx;
        let ghost before = self@;
        let ghost player = context.player@;
        let ghost end_player = *final(context.player);
        let ghost end_layers = *final(context.render_layers);
        let ghost layers = *context.render_layers;
        assert forall|j: int| 0 <= j < self.entities@.len() implies E::wf(
            (#[trigger] self.entities@[j])@,
        ) by {
            assert(before.entities[j] == self.entities@[j]@);
        }
        let mut i: usize = 0;
        while i < self.entities.len()
            invariant
                i <= self.entities.len(),
                self.entities@.len() == before.entities.len(),
                self.map@ == before.map,
                self.linked_screens@ == before.linked_screens,
                context.player@ == Self::struck_player(before.entities, before.map, player, i as nat),
                context.player@.wf(),
                *context.render_layers == layers,
                context.input == ctx.input,
                *final(context.player) == end_player,
                *final(context.render_layers) == end_layers,
                forall|j: int|
                    0 <= j < i ==> (#[trigger] self.entities@[j])@ == E::step(
                        before.entities[j],
                        before.map,
                        Self::struck_player(before.entities, before.map, player, j as nat),
                    ),
                forall|j: int|
                    i <= j < self.entities@.len() ==> (#[trigger] self.entities@[j])@
                        == before.entities[j],
                forall|j: int| 0 <= j < self.entities@.len() ==> E::wf((#[trigger] self.entities@[j])@),
            decreases self.entities.len() - i,
        {
            self.entities[i].update(&self.map, &mut context);
            i += 1;
        }
        context.player.update(&self.map, context.input);
        assert(context.player@ == Self::moved_player(before, player, context.input));
        assert(self@.entities =~= Self::stepped_entities(before.entities, before.map, player));

        let tile = self.map.get_special_tile(
            tile_round(context.player.pos.x),
            tile_round(context.player.pos.y),
        );
        if tile >= PORTAL_FIRST && tile <= PORTAL_LAST {
            let slot: usize = tile - PORTAL_FIRST;
            let count = self.linked_screens.len();
            if count <= slot {
                return Err(ScreenError::NoLinkedScreen(slot, count));
            }
            let target = self.linked_screens[slot];
            return Ok(ScreenUpdateResult::ChangeScreen(target.0, target.1));
        }
        if tile == CHECKPOINT {
            match self.map.find_special_tile(SPAWN_BASE) {
                Some((x, y)) => {
                    context.player.pos = Vec2::new((x as i64) * TILE_SIZE, (y as i64) * TILE_SIZE);
                },
                None => {
                    return Err(ScreenError::NoCheckpoint);
                },
            }
        }
        Ok(ScreenUpdateResult::Pass)
    }

    fn draw(&mut self, ctx: ScreenUpdateContext) {
        let mut ctx = ctx;
        ctx.render_layers.entities.calls.push(DrawCall::Clear(transparent()));
        ctx.render_layers.ui.calls.push(DrawCall::Clear(transparent()));
        let ghost start = ctx.render_layers.entities.calls@;
        let ghost layers = *ctx.render_layers;
        let ghost player = *ctx.player;
        let ghost end_player = *final(ctx.player);
        let ghost end_layers = *final(ctx.render_layers);
        let ghost views = self@.entities;
        let mut i: usize = 0;
        while i < self.entities.len()
            invariant
                i <= self.entities.len(),
                views == self@.entities,
                views.len() == self.entities@.len(),
                Self::entities_wf(views),
                ctx.render_layers.entities.calls@ == start + Self::entity_calls(views).take(
                    i as int,
                ),
                ctx.render_layers.world == layers.world,
                ctx.render_layers.world_foreground == layers.world_foreground,
                ctx.render_layers.ui == layers.ui,
                *ctx.player == player,
                *final(ctx.player) == end_player,
                *final(ctx.render_layers) == end_layers,
            decreases self.entities.len() - i,
        {
            assert(self.entities@[i as int]@ == views[i as int]);
            self.entities[i].draw(&mut ctx);
            assert(Self::entity_calls(views).take(i + 1) =~= Self::entity_calls(views).take(
                i as int,
            ).push(E::draw_call(views[i as int])));
            i += 1;
        }
        assert(Self::entity_calls(views).take(i as int) =~= Self::entity_calls(views));
        ctx.player.draw(&mut ctx.render_layers.entities);
        assert(ctx.render_layers.entities.calls@ =~= start + Self::entity_calls(views).push(
            player@.draw_call(),
        ));
    }
}

/// Any screen of the game as the specifications see it.
pub enum AnyScreenView {
    Tilemap(TilemapScreenView<HumanoidEnemyView>),
    Win(TilemapView),
}

/// Any screen of the game: a level or the screen of the win.
pub enum AnyScreen {
    Tilemap(TilemapScreen<HumanoidEnemy>),
    Win(WinScreen),
}

impl View for AnyScreen {
    type V = AnyScreenView;

    open spec fn view(&self) -> AnyScreenView {
        match self {
            AnyScreen::Tilemap(screen) => AnyScreenView::Tilemap(screen@),
            AnyScreen::Win(screen) => AnyScreenView::Win(screen@),
        }
    }
}

impl Screen for AnyScreen {
    open spec fn wf(&self) -> bool {
        match self {
            AnyScreen::Tilemap(screen) => screen.wf(),
            AnyScreen::Win(screen) => screen.wf(),
        }
    }

    open spec fn map(v: AnyScreenView) -> TilemapView {
        match v {
            AnyScreenView::Tilemap(screen) => screen.map,
            AnyScreenView::Win(map) => map,
        }
    }

    open spec fn loaded_player(v: AnyScreenView, player: PlayerView, spawn_index: int) -> PlayerView {
        match v {
            AnyScreenView::Tilemap(screen) => TilemapScreen::<HumanoidEnemy>::loaded_player(
                screen,
                player,
                spawn_index,
            ),
            AnyScreenView::Win(map) => WinScreen::loaded_player(map, player, spawn_index),
        }
    }

    open spec fn outcome(v: AnyScreenView, player: PlayerView, input: Input) -> Result<
        ScreenUpdateResult,
        ScreenError,
    > {
        match v {
            AnyScreenView::Tilemap(screen) => TilemapScreen::<HumanoidEnemy>::outcome(
                screen,
                player,
                input,
            ),
            AnyScreenView::Win(map) => WinScreen::outcome(map, player, input),
        }
    }

    open spec fn settled_player(v: AnyScreenView, player: PlayerView, input: Input) -> PlayerView {
        match v {
            AnyScreenView::Tilemap(screen) => TilemapScreen::<HumanoidEnemy>::settled_player(
                screen,
                player,
                input,
            ),
            AnyScreenView::Win(map) => WinScreen::settled_player(map, player, input),
        }
    }

    open spec fn stepped(v: AnyScreenView, player: PlayerView) -> AnyScreenView {
        match v {
            AnyScreenView::Tilemap(screen) => AnyScreenView::Tilemap(
                TilemapScreen::<HumanoidEnemy>::stepped(screen, player),
            ),
            AnyScreenView::Win(map) => AnyScreenView::Win(WinScreen::stepped(map, player)),
        }
    }

    open spec fn actor_calls(v: AnyScreenView, player: PlayerView) -> Seq<DrawCall> {
        match v {
            AnyScreenView::Tilemap(screen) => TilemapScreen::<HumanoidEnemy>::actor_calls(
                screen,
                player,
            ),
            AnyScreenView::Win(map) => WinScreen::actor_calls(map, player),
        }
    }

    fn on_load(&mut self, ctx: ScreenUpdateContext, spawn_index: usize) {
        match self {
            AnyScreen::Tilemap(screen) => screen.on_load(ctx, spawn_index),
            AnyScreen::Win(screen) => screen.on_load(ctx, spawn_index),
        }
    }

    fn update(&mut self, ctx: ScreenUpdateContext) -> (outcome: Result<
        ScreenUpdateResult,
        ScreenError,
    >) {
        match self {
            AnyScreen::Tilemap(screen) => screen.update(ctx),
            AnyScreen::Win(screen) => screen.update(ctx),
        }
    }

    fn draw(&mut self, ctx: ScreenUpdateContext) {
        match self {
            AnyScreen::Tilemap(screen) => screen.draw(ctx),
            AnyScreen::Win(screen) => screen.draw(ctx),
        }
    }
}

/// Why the screens could not be made: the screen whose map could not be
/// read, and what was wrong with the map.
#[derive(Clone, Copy, Debug, PartialEq, Eq, Structural)]
pub struct RegistryError {
    pub screen: ScreenID,
    pub error: MapError,
}

/// The screens that the portals of a screen lead to, slot by slot, each
/// with the spawn point at which it is entered.
pub open spec fn screen_links(id: ScreenID) -> Seq<(ScreenID, usize)> {
    match id {
        ScreenID::Test => seq![(ScreenID::Level1, 1usize), (ScreenID::Level1, 0usize)],
        ScreenID::Level1 => seq![(ScreenID::Level2, 0usize)],
        ScreenID::Level2 => seq![(ScreenID::Level1, 1usize), (ScreenID::Level3, 0usize)],
        ScreenID::Level3 => seq![(ScreenID::Level2, 1usize), (ScreenID::Level4, 0usize)],
        ScreenID::Level4 => seq![(ScreenID::Level3, 1usize), (ScreenID::Level5, 0usize)],
        ScreenID::Level5 => seq![(ScreenID::Level4, 1usize), (ScreenID::Level6, 0usize)],
        ScreenID::Level6 => seq![(ScreenID::Level5, 1usize), (ScreenID::Level7, 0usize)],
        ScreenID::Level7 => seq![(ScreenID::Level6, 1usize), (ScreenID::Level8, 0usize)],
        ScreenID::Level8 => Seq::empty(),
    }
}

/// The enemies that live on a screen: one slow pursuer on the test
/// screen, none elsewhere.
pub open spec fn screen_enemies(id: ScreenID) -> Seq<HumanoidEnemyView> {
    match id {
        ScreenID::Test => seq![
            HumanoidEnemyView {
                pos: Point { x: 25 * TILE_SIZE, y: 17 * TILE_SIZE },
                velocity: Point { x: 0, y: 0 },
                anim_frame: 0,
                animation: AnimationID::PlayerSprint,
                on_ground: false,
                speed: 400,
            },
        ],
        _ => Seq::empty(),
    }
}

/// The screen that an identifier stands for, made from the text of its
/// map: the last screen is the screen of the win, every other a level with
/// its enemies and links.
pub open spec fn built_screen(id: ScreenID, text: Seq<u8>) -> Result<AnyScreenView, MapError> {
    match parsed_map(text) {
        Err(e) => Err(e),
        Ok(map) => Ok(
            if id == ScreenID::Level8 {
                AnyScreenView::Win(map)
            } else {
                AnyScreenView::Tilemap(
                    TilemapScreenView {
                        map,
                        entities: screen_enemies(id),
                        linked_screens: screen_links(id),
                    },
                )
            },
        ),
    }
}

/// The linked screens of screen `id`.
fn links_of(id: ScreenID) -> (links: Vec<(ScreenID, usize)>)
    ensures
        links@ == screen_links(id),
{
    let mut links: Vec<(ScreenID, usize)> = Vec::new();
    match id {
        ScreenID::Test => {
            links.push((ScreenID::Level1, 1));
            links.push((ScreenID::Level1, 0));
        },
        ScreenID::Level1 => {
            links.push((ScreenID::Level2, 0));
        },
        ScreenID::Level2 => {
            links.push((ScreenID::Level1, 1));
            links.push((ScreenID::Level3, 0));
        },
        ScreenID::Level3 => {
            links.push((ScreenID::Level2, 1));
            links.push((ScreenID::Level4, 0));
        },
        ScreenID::Level4 => {
            links.push((ScreenID::Level3, 1));
            links.push((ScreenID::Level5, 0));
        },
        ScreenID::Level5 => {
            links.push((ScreenID::Level4, 1));
            links.push((ScreenID::Level6, 0));
        },
        ScreenID::Level6 => {
            links.push((ScreenID::Level5, 1));
            links.push((ScreenID::Level7, 0));
        },
        ScreenID::Level7 => {
            links.push((ScreenID::Level6, 1));
            links.push((ScreenID::Level8, 0));
        },
        ScreenID::Level8 => {},
    }
    assert(links@ =~= screen_links(id));
    links
}

/// Makes the screen that `id` stands for from the text of its map.
pub fn create_screen(id: ScreenID, source: &str) -> (screen: Result<AnyScreen, MapError>)
    ensures
        match screen {
            Ok(s) => built_screen(id, source.spec_bytes()) == Ok::<AnyScreenView, MapError>(s@)
                && s.wf(),
            Err(e) => built_screen(id, source.spec_bytes()) == Err::<AnyScreenView, MapError>(e),
        },
{
    match id {
        ScreenID::Level8 => match WinScreen::new(source) {
            Ok(screen) => Ok(AnyScreen::Win(screen)),
            Err(e) => Err(e),
        },
        _ => {
            let mut enemies: Vec<HumanoidEnemy> = Vec::new();
            if let ScreenID::Test = id {
                enemies.push(
                    HumanoidEnemy::new(
                        Vec2::new(25 * TILE_SIZE, 17 * TILE_SIZE),
                        AnimationID::PlayerSprint,
                        400,
                    ),
                );
            }
            let ghost views = Seq::new(enemies@.len(), |i: int| enemies@[i]@);
            assert(views =~= screen_enemies(id));
            match TilemapScreen::new(source, enemies, links_of(id)) {
                Ok(screen) => {
                    assert(screen.wf());
                    Ok(AnyScreen::Tilemap(screen))
                },
                Err(e) => Err(e),
            }
        },
    }
}

/// Makes every screen of the game from the texts of their maps, which are
/// given in the order of the screens. The first map that cannot be read
/// decides the error.
pub fn create_screen_registry(sources: &[&str; 9]) -> (registry: Result<
    Registry<ScreenID, AnyScreen>,
    RegistryError,
>)
    ensures
        match registry {
            Ok(r) => forall|id: ScreenID| #[trigger]
                built_screen(id, sources[id.index_spec() as int].spec_bytes()) == Ok::<
                    AnyScreenView,
                    MapError,
                >(r@[id.index_spec() as int]@) && r@[id.index_spec() as int].wf(),
            Err(e) => {
                &&& built_screen(e.screen, sources[e.screen.index_spec() as int].spec_bytes())
                    == Err::<AnyScreenView, MapError>(e.error)
                &&& forall|id: ScreenID|
                    id.index_spec() < e.screen.index_spec() ==> (#[trigger] built_screen(
                        id,
                        sources[id.index_spec() as int].spec_bytes(),
                    )) is Ok
            },
        },
{
    let ids = ScreenID::all();
    let mut screens: Vec<AnyScreen> = Vec::new();
    let mut k: usize = 0;
    while k < 9
        invariant
            k <= 9,
            ids@.len() == 9,
            listed(ids@),
            forall|i: int| 0 <= i < 9 ==> (#[trigger] ids@[i]).index_spec() == i,
            screens@.len() == k,
            forall|j: int|
                0 <= j < k ==> built_screen(ids@[j], sources[j].spec_bytes()) == Ok::<
                    AnyScreenView,
                    MapError,
                >((#[trigger] screens@[j])@) && screens@[j].wf(),
        decreases 9 - k,
    {
        let id = ids[k];
        match create_screen(id, sources[k]) {
            Ok(screen) => {
                screens.push(screen);
            },
            Err(error) => {
                assert forall|other: ScreenID| other.index_spec() < id.index_spec() implies (
                #[trigger] built_screen(other, sources[other.index_spec() as int].spec_bytes()))
                    is Ok by {
                    assert(ids@[other.index_spec() as int] == other);
                    assert(screens@[other.index_spec() as int].wf());
                }
                return Err(RegistryError { screen: id, error });
            },
        }
        k += 1;
    }
    let ghost made = screens@;
    let registry = Registry::from_values(screens).unwrap();
    assert forall|id: ScreenID| #[trigger]
        built_screen(id, sources[id.index_spec() as int].spec_bytes()) == Ok::<
            AnyScreenView,
            MapError,
        >(registry@[id.index_spec() as int]@) && registry@[id.index_spec() as int].wf() by {
        assert(ids@[id.index_spec() as int] == id);
        assert(made[id.index_spec() as int].wf());
    }
    Ok(registry)
}

/// Every screen stands in `ids` at its own place.
spec fn listed(ids: Seq<ScreenID>) -> bool {
    forall|id: ScreenID| #[trigger] id.index_spec() < 9 && ids[id.index_spec() as int] == id
}

} // verus!
