//! The simulation of the example core: a player that walks over the screen
//! and drops objects, which then chase the player.
//!
//! Positions are kept in 256ths of a pixel. The simulation advances by
//! `core_run`, one logic tick at a time, and hands the renderer a copy of
//! what it needs by `snapshot_video`.

use vstd::prelude::*;
use crate::config::{AV_SCREEN_HEIGHT, AV_SCREEN_WIDTH};
use crate::input::{ControllerButton, InputState};

verus! {

/// How far the player walks in one tick.
pub const PLAYER_STEP: u32 = 48;

/// The number of places for objects.
pub const OBJECT_SLOTS: usize = 256;

/// The number of objects that move and can be drawn: the last place holds an
/// object that does neither.
pub const LIVE_OBJECTS: usize = 255;

/// The position from which the player walks no further right.
pub open spec fn walk_limit_x() -> int {
    AV_SCREEN_WIDTH * 256 - 256
}

/// The position from which the player walks no further down.
pub open spec fn walk_limit_y() -> int {
    AV_SCREEN_HEIGHT * 256 - 256
}

/// The rightmost position that the player reaches.
pub open spec fn player_max_x() -> int {
    81696
}

/// The lowest position that the player reaches.
pub open spec fn player_max_y() -> int {
    61200
}

/// An object: where it is and how fast it moves, along both axes. Every
/// object keeps to its band.
#[derive(Clone, Copy, Debug, PartialEq, Eq)]
pub struct GObj {
    x: i32,
    y: i32,
    dx: i32,
    dy: i32,
}

/// An object as the contracts see it.
pub struct Body {
    pub x: int,
    pub y: int,
    pub dx: int,
    pub dy: int,
}

impl View for GObj {
    type V = Body;

    closed spec fn view(&self) -> Body {
        Body { x: self.x as int, y: self.y as int, dx: self.dx as int, dy: self.dy as int }
    }
}

/// The simulation as the contracts see it.
pub struct GameModel {
    /// The number of ticks so far, which wraps around.
    pub frame: usize,
    /// Where the player is.
    pub x: int,
    pub y: int,
    /// The place that the next object takes.
    pub gobj_idx: int,
    /// Whether button A was held at the last tick.
    pub old_a: bool,
    /// The objects, one for each place.
    pub gobj: Seq<Body>,
}

/// The velocity of an object after it has steered towards its target.
pub open spec fn steered(position: int, velocity: int, target: int) -> int {
    if position > target {
        velocity - 1
    } else if position < target {
        velocity + 1
    } else {
        velocity
    }
}

/// A velocity held to the speed limit.
pub open spec fn limited(velocity: int) -> int {
    if velocity > 256 {
        256
    } else if velocity < -255 {
        -255
    } else {
        velocity
    }
}

/// An object after one tick: it steers towards the target along each axis,
/// moves by its velocity, and is then held to the speed limit.
pub open spec fn chased(body: Body, target_x: int, target_y: int) -> Body {
    let dx = steered(body.x, body.dx, target_x);
    let dy = steered(body.y, body.dy, target_y);
    Body { x: body.x + dx, y: body.y + dy, dx: limited(dx), dy: limited(dy) }
}

/// The player's position along one axis after one tick: a step back while
/// the button for it is held and the position is positive, then a step forth
/// while the button for it is held and the position is below the limit.
pub open spec fn walked(position: int, back: bool, forth: bool, limit: int) -> int {
    let stepped_back = if back && position > 0 {
        position - PLAYER_STEP
    } else {
        position
    };
    if forth && stepped_back < limit {
        stepped_back + PLAYER_STEP
    } else {
        stepped_back
    }
}

/// Whether a button is held.
pub open spec fn held(input: InputState, button: ControllerButton) -> bool {
    input.button[button.id() as int].pressed
}

/// Whether a tick drops an object: button A is held and was not before.
pub open spec fn drops(model: GameModel, input: InputState) -> bool {
    held(input, ControllerButton::PadA) && !model.old_a
}

/// The objects after a tick has dropped what there is to drop: a new object
/// rests where the player stands, at the next place.
pub open spec fn dropped(model: GameModel, input: InputState) -> Seq<Body> {
    if drops(model, input) {
        model.gobj.update(model.gobj_idx, Body { x: model.x, y: model.y, dx: 0, dy: 0 })
    } else {
        model.gobj
    }
}

/// The place that the next object takes after a tick: one further where an
/// object was dropped, but never past the last place.
pub open spec fn next_slot(model: GameModel, input: InputState) -> int {
    if drops(model, input) && model.gobj_idx + 1 < OBJECT_SLOTS {
        model.gobj_idx + 1
    } else {
        model.gobj_idx
    }
}

/// The simulation after one tick.
pub open spec fn ticked(model: GameModel, input: InputState) -> GameModel {
    let x = walked(
        model.x,
        held(input, ControllerButton::PadLeft),
        held(input, ControllerButton::PadRight),
        walk_limit_x(),
    );
    let y = walked(
        model.y,
        held(input, ControllerButton::PadUp),
        held(input, ControllerButton::PadDown),
        walk_limit_y(),
    );
    let placed = dropped(model, input);
    GameModel {
        frame: if model.frame == usize::MAX {
            0
        } else {
            (model.frame + 1) as usize
        },
        x,
        y,
        gobj_idx: next_slot(model, input),
        old_a: held(input, ControllerButton::PadA),
        gobj: Seq::new(
            OBJECT_SLOTS as nat,
            |i: int|
                if i < LIVE_OBJECTS {
                    chased(placed[i], x, y)
                } else {
                    placed[i]
                },
        ),
    }
}

/// The simulation after `count` ticks with the same input.
pub open spec fn ticked_times(model: GameModel, input: InputState, count: nat) -> GameModel
    decreases count,
{
    if count == 0 {
        model
    } else {
        ticked(ticked_times(model, input, (count - 1) as nat), input)
    }
}

/// Twice the way that an object still goes before a steady pull has brought
/// it to rest from the given speed, the tick in which it comes to rest
/// counted in.
pub open spec fn coasting(speed: int) -> int {
    speed * (speed + 1)
}

/// The speed of an object in the direction that `sign` gives, or zero where
/// it moves the other way.
pub open spec fn speed_towards(velocity: int, sign: int) -> int {
    if velocity * sign > 0 {
        velocity * sign
    } else {
        0
    }
}

/// Whether an object keeps to its band along one axis, on which its target
/// stays between zero and `limit`: its velocity is within the speed limit,
/// and where it is beyond the ends of the target's range it has not more
/// way to go outwards than an object that left the range at full speed.
pub open spec fn in_band(position: int, velocity: int, limit: int) -> bool {
    &&& -255 <= velocity <= 256
    &&& position > limit ==> 2 * (position - limit) + coasting(speed_towards(velocity, 1)) <= 2
        * 257 + coasting(256)
    &&& position < 0 ==> 2 * (0 - position) + coasting(speed_towards(velocity, -1)) <= 2 * 256
        + coasting(255)
}

/// Whether an object keeps to its band along both axes.
pub open spec fn body_in_band(body: Body) -> bool {
    in_band(body.x, body.dx, player_max_x()) && in_band(body.y, body.dy, player_max_y())
}

/// Whether the player stands on the grid of its steps and on the screen, and
/// the place for the next object is one of the places.
pub open spec fn player_in_place(model: GameModel) -> bool {
    &&& 0 <= model.x <= player_max_x()
    &&& model.x % (PLAYER_STEP as int) == 0
    &&& 0 <= model.y <= player_max_y()
    &&& model.y % (PLAYER_STEP as int) == 0
    &&& 0 <= model.gobj_idx < OBJECT_SLOTS
    &&& model.gobj.len() == OBJECT_SLOTS
}

/// Whether a simulation can be played on: the player is in place, and every
/// object keeps to its band.
pub open spec fn playable(model: GameModel) -> bool {
    &&& player_in_place(model)
    &&& forall|i: int| 0 <= i < OBJECT_SLOTS ==> body_in_band(#[trigger] model.gobj[i])
}

/// An object in its band is never further out than this.
pub open spec fn within_reach(position: int, limit: int) -> bool {
    -32896 <= position <= limit + 33153
}

proof fn lemma_coasting(speed: int)
    ensures
        speed >= 1 ==> coasting(speed - 1) + 2 * speed == coasting(speed),
        0 <= speed <= 255 ==> 0 <= coasting(speed) <= coasting(255),
        0 <= speed <= 256 ==> 0 <= coasting(speed) <= coasting(256),
        coasting(0) == 0,
        coasting(255) == 65280,
        coasting(256) == 65792,
{
    assert(speed >= 1 ==> (speed - 1) * speed + 2 * speed == speed * (speed + 1))
        by (nonlinear_arith);
    assert(0 <= speed <= 255 ==> 0 <= speed * (speed + 1) <= 255 * 256) by (nonlinear_arith);
    assert(0 <= speed <= 256 ==> 0 <= speed * (speed + 1) <= 256 * 257) by (nonlinear_arith);
}

/// An object in its band is within reach.
pub proof fn lemma_band_is_within_reach(position: int, velocity: int, limit: int)
    requires
        in_band(position, velocity, limit),
    ensures
        within_reach(position, limit),
{
    lemma_coasting(speed_towards(velocity, 1));
    lemma_coasting(speed_towards(velocity, -1));
}

/// An object that keeps to its band still does so after a tick, wherever in
/// its range the target is.
pub proof fn lemma_chase_keeps_band(position: int, velocity: int, target: int, limit: int)
    requires
        in_band(position, velocity, limit),
        0 <= target <= limit,
        limit >= 256,
    ensures
        in_band(
            position + steered(position, velocity, target),
            limited(steered(position, velocity, target)),
            limit,
        ),
{
    let v = steered(position, velocity, target);
    let after = position + v;
    let w = limited(v);
    lemma_coasting(speed_towards(velocity, 1));
    lemma_coasting(speed_towards(velocity, -1));
    lemma_coasting(speed_towards(w, 1));
    lemma_coasting(speed_towards(w, -1));
    if position > limit {
        if velocity >= 1 {
            assert(speed_towards(velocity, 1) == velocity);
            assert(speed_towards(w, 1) == velocity - 1);
        } else {
            assert(speed_towards(w, 1) == 0);
        }
    } else if position < 0 {
        if velocity <= -1 {
            assert(speed_towards(velocity, -1) == -velocity);
            assert(speed_towards(w, -1) == -velocity - 1);
        } else {
            assert(speed_towards(w, -1) == 0);
        }
    } else {
        if after > limit {
            assert(v >= 1);
            assert(speed_towards(w, 1) == w);
        }
        if after < 0 {
            assert(v <= -1);
            assert(speed_towards(w, -1) == -w);
        }
    }
}

/// A tick leads from a simulation that can be played on to one that can be
/// played on.
pub proof fn lemma_tick_keeps_playable(model: GameModel, input: InputState)
    requires
        playable(model),
    ensures
        playable(ticked(model, input)),
{
    let after = ticked(model, input);
    let placed = dropped(model, input);
    assert forall|i: int| 0 <= i < OBJECT_SLOTS implies body_in_band(#[trigger] placed[i]) by {
        lemma_coasting(0);
        if drops(model, input) && i == model.gobj_idx {
            assert(placed[i] == (Body { x: model.x, y: model.y, dx: 0, dy: 0 }));
        } else {
            assert(placed[i] == model.gobj[i]);
        }
    }
    assert forall|i: int| 0 <= i < OBJECT_SLOTS implies body_in_band(#[trigger] after.gobj[i]) by {
        if i < LIVE_OBJECTS {
            lemma_chase_keeps_band(placed[i].x, placed[i].dx, after.x, player_max_x());
            lemma_chase_keeps_band(placed[i].y, placed[i].dy, after.y, player_max_y());
        }
    }
}

/// Ticks lead from a simulation that can be played on to one that can be
/// played on.
pub proof fn lemma_ticks_keep_playable(game: GameModel, input: InputState, count: nat)
    requires
        playable(game),
    ensures
        playable(ticked_times(game, input, count)),
    decreases count,
{
    if count > 0 {
        lemma_ticks_keep_playable(game, input, (count - 1) as nat);
        lemma_tick_keeps_playable(ticked_times(game, input, (count - 1) as nat), input);
    }
}

/// Each tick counts: as long as the count of ticks does not wrap around, it
/// has grown by the number of ticks run.
pub proof fn lemma_ticks_are_counted(game: GameModel, input: InputState, count: nat)
    requires
        game.frame + count <= usize::MAX,
    ensures
        ticked_times(game, input, count).frame == game.frame + count,
    decreases count,
{
    if count > 0 {
        lemma_ticks_are_counted(game, input, (count - 1) as nat);
    }
}

/// The player's last step to the right and its last step down lead to the
/// first places on the grid of its steps that are not before the limit, and
/// these are still on the screen.
pub proof fn lemma_player_stays_on_screen()
    ensures
        player_max_x() % (PLAYER_STEP as int) == 0,
        walk_limit_x() <= player_max_x() < walk_limit_x() + PLAYER_STEP,
        player_max_x() < AV_SCREEN_WIDTH * 256,
        player_max_y() % (PLAYER_STEP as int) == 0,
        walk_limit_y() <= player_max_y() < walk_limit_y() + PLAYER_STEP,
        player_max_y() < AV_SCREEN_HEIGHT * 256,
{
}

/// The simulation with which the core starts: the player in the corner, no
/// tick run, and an object at rest in the corner at every place.
pub open spec fn initial_model() -> GameModel {
    GameModel {
        frame: 0,
        x: 0,
        y: 0,
        gobj_idx: 0,
        old_a: false,
        gobj: Seq::new(OBJECT_SLOTS as nat, |i: int| Body { x: 0, y: 0, dx: 0, dy: 0 }),
    }
}

/// The simulation with which the core starts can be played on.
pub proof fn lemma_initial_is_playable()
    ensures
        playable(initial_model()),
{
    lemma_coasting(0);
}

impl GObj {
    #[verifier::type_invariant]
    closed spec fn well_formed(&self) -> bool {
        body_in_band(self@)
    }

    /// Where the object is, from the left edge.
    pub fn x(&self) -> (x: i32)
        ensures
            x == self@.x,
            body_in_band(self@),
    {
        proof {
            use_type_invariant(self);
        }
        self.x
    }

    /// Where the object is, from the top edge.
    pub fn y(&self) -> (y: i32)
        ensures
            y == self@.y,
            body_in_band(self@),
    {
        proof {
            use_type_invariant(self);
        }
        self.y
    }

    /// How far the object moves to the right in a tick.
    pub fn dx(&self) -> (dx: i32)
        ensures
            dx == self@.dx,
            body_in_band(self@),
    {
        proof {
            use_type_invariant(self);
        }
        self.dx
    }

    /// How far the object moves down in a tick.
    pub fn dy(&self) -> (dy: i32)
        ensures
            dy == self@.dy,
            body_in_band(self@),
    {
        proof {
            use_type_invariant(self);
        }
        self.dy
    }

    /// An object at rest where the player can stand.
    fn at_rest(x: u32, y: u32) -> (object: GObj)
        requires
            x <= player_max_x(),
            y <= player_max_y(),
        ensures
            object@ == (Body { x: x as int, y: y as int, dx: 0, dy: 0 }),
    {
        proof {
            lemma_coasting(0);
        }
        GObj { x: x as i32, y: y as i32, dx: 0, dy: 0 }
    }

    /// The object after one tick in which it chases a target that is where
    /// the player can stand.
    fn chase(self, target_x: i32, target_y: i32) -> (moved: GObj)
        requires
            0 <= target_x <= player_max_x(),
            0 <= target_y <= player_max_y(),
        ensures
            moved@ == chased(self@, target_x as int, target_y as int),
    {
        proof {
            use_type_invariant(&self);
            lemma_band_is_within_reach(self.x as int, self.dx as int, player_max_x());
            lemma_band_is_within_reach(self.y as int, self.dy as int, player_max_y());
            lemma_chase_keeps_band(
                self.x as int,
                self.dx as int,
                target_x as int,
                player_max_x(),
            );
            lemma_chase_keeps_band(
                self.y as int,
                self.dy as int,
                target_y as int,
                player_max_y(),
            );
        }
        let dx = steer(self.x, self.dx, target_x);
        let dy = steer(self.y, self.dy, target_y);
        GObj { x: self.x + dx, y: self.y + dy, dx: limit(dx), dy: limit(dy) }
    }
}

/// The state of the simulation.
pub struct GState {
    frame: usize,
    x: u32,
    y: u32,
    gobj_idx: u32,
    old_a: bool,
    gobj: Vec<GObj>,
}

impl View for GState {
    type V = GameModel;

    closed spec fn view(&self) -> GameModel {
        GameModel {
            frame: self.frame,
            x: self.x as int,
            y: self.y as int,
            gobj_idx: self.gobj_idx as int,
            old_a: self.old_a,
            gobj: self.gobj@.map_values(|object: GObj| object@),
        }
    }
}

impl GState {
    #[verifier::type_invariant]
    closed spec fn well_formed(&self) -> bool {
        player_in_place(self@)
    }

    /// The simulation with which the core starts.
    pub fn new() -> (state: GState)
        ensures
            state@ == initial_model(),
    {
        let mut gobj: Vec<GObj> = Vec::new();
        let mut i: usize = 0;
        while i < OBJECT_SLOTS
            invariant
                i <= OBJECT_SLOTS,
                gobj.len() == i,
                forall|j: int| 0 <= j < i ==> gobj[j]@ == (Body { x: 0, y: 0, dx: 0, dy: 0 }),
            decreases OBJECT_SLOTS - i,
        {
            gobj.push(GObj::at_rest(0, 0));
            i += 1;
        }
        assert(gobj@.map_values(|object: GObj| object@) =~= initial_model().gobj);
        GState { frame: 0, x: 0, y: 0, gobj_idx: 0, old_a: false, gobj }
    }

    /// The number of ticks so far, which wraps around.
    pub fn frame(&self) -> (frame: usize)
        ensures
            frame == self@.frame,
    {
        self.frame
    }

    /// Where the player is, from the left edge.
    pub fn x(&self) -> (x: u32)
        ensures
            x == self@.x,
            player_in_place(self@),
    {
        proof {
            use_type_invariant(self);
        }
        self.x
    }

    /// Where the player is, from the top edge.
    pub fn y(&self) -> (y: u32)
        ensures
            y == self@.y,
            player_in_place(self@),
    {
        proof {
            use_type_invariant(self);
        }
        self.y
    }

    /// The place that the next object takes.
    pub fn gobj_idx(&self) -> (slot: u32)
        ensures
            slot == self@.gobj_idx,
            player_in_place(self@),
    {
        proof {
            use_type_invariant(self);
        }
        self.gobj_idx
    }

    /// The object at a place, or `None` where there is no such place.
    pub fn object(&self, slot: usize) -> (object: Option<GObj>)
        ensures
            match object {
                Some(found) => slot < OBJECT_SLOTS && found@ == self@.gobj[slot as int],
                None => slot >= OBJECT_SLOTS,
            },
    {
        proof {
            use_type_invariant(self);
        }
        if slot < self.gobj.len() {
            Some(self.gobj[slot])
        } else {
            None
        }
    }
}

fn steer(position: i32, velocity: i32, target: i32) -> (steered_velocity: i32)
    requires
        -255 <= velocity <= 256,
    ensures
        steered_velocity == steered(position as int, velocity as int, target as int),
{
    if position > target {
        velocity - 1
    } else if position < target {
        velocity + 1
    } else {
        velocity
    }
}

fn limit(velocity: i32) -> (limited_velocity: i32)
    ensures
        limited_velocity == limited(velocity as int),
{
    if velocity > 256 {
        256
    } else if velocity < -255 {
        -255
    } else {
        velocity
    }
}

fn walk(position: u32, back: bool, forth: bool, bound: u32) -> (stepped: u32)
    requires
        position % PLAYER_STEP == 0,
        position as int + PLAYER_STEP <= u32::MAX,
    ensures
        stepped == walked(position as int, back, forth, bound as int),
{
    let mut stepped = position;
    if back && stepped > 0 {
        stepped = stepped - PLAYER_STEP;
    }
    if forth && stepped < bound {
        stepped = stepped + PLAYER_STEP;
    }
    stepped
}

/// Runs one logic tick: drops an object where button A has just been
/// pressed, walks the player as the direction buttons say, and lets every
/// object chase the player.
pub fn core_run(g: &mut GState, input: &InputState)
    ensures
        final(g)@ == ticked(old(g)@, *input),
{
    let ghost before = g@;
    let ghost placed = dropped(before, *input);
    let ghost after = ticked(before, *input);
    proof {
        use_type_invariant(&*g);
    }
    g.frame = if g.frame == usize::MAX {
        0
    } else {
        g.frame + 1
    };
    let a_held = input.index(ControllerButton::PadA).pressed;
    if a_held && !g.old_a {
        let slot = g.gobj_idx as usize;
        g.gobj[slot] = GObj::at_rest(g.x, g.y);
        if g.gobj_idx + 1 < OBJECT_SLOTS as u32 {
            g.gobj_idx = g.gobj_idx + 1;
        }
    }
    g.old_a = a_held;
    g.y = walk(
        g.y,
        input.index(ControllerButton::PadUp).pressed,
        input.index(ControllerButton::PadDown).pressed,
        AV_SCREEN_HEIGHT * 256 - 256,
    );
    g.x = walk(
        g.x,
        input.index(ControllerButton::PadLeft).pressed,
        input.index(ControllerButton::PadRight).pressed,
        AV_SCREEN_WIDTH * 256 - 256,
    );
    let target_x = g.x as i32;
    let target_y = g.y as i32;
    assert(g@.gobj =~= placed);
    let mut i: usize = 0;
    while i < LIVE_OBJECTS
        invariant
            i <= LIVE_OBJECTS,
            g.gobj.len() == OBJECT_SLOTS,
            placed.len() == OBJECT_SLOTS,
            g.frame == after.frame,
            g.x == after.x,
            g.y == after.y,
            g.gobj_idx == after.gobj_idx,
            g.old_a == after.old_a,
            target_x == after.x,
            target_y == after.y,
            player_in_place(g@),
            forall|j: int| 0 <= j < i ==> (#[trigger] g.gobj[j])@ == chased(placed[j], after.x, after.y),
            forall|j: int| i <= j < OBJECT_SLOTS ==> (#[trigger] g.gobj[j])@ == placed[j],
        decreases LIVE_OBJECTS - i,
    {
        let object = g.gobj[i];
        g.gobj[i] = object.chase(target_x, target_y);
        i += 1;
    }
    assert(g@.gobj =~= after.gobj);
}

/// What the renderer needs of the simulation, as the contracts see it.
pub struct SnapshotModel {
    /// Where the player is.
    pub x: int,
    pub y: int,
    /// The number of objects to draw.
    pub gobj_idx: int,
    /// The objects that can be drawn.
    pub gobj: Seq<Body>,
}

/// What the renderer needs of a simulation.
pub open spec fn snapshot_of(model: GameModel) -> SnapshotModel {
    SnapshotModel {
        x: model.x,
        y: model.y,
        gobj_idx: model.gobj_idx,
        gobj: model.gobj.take(LIVE_OBJECTS as int),
    }
}

/// Whether a snapshot can be drawn: the player stands on the screen, and
/// each of the objects to draw is there.
pub open spec fn drawable(snapshot: SnapshotModel) -> bool {
    &&& 0 <= snapshot.x <= player_max_x()
    &&& 0 <= snapshot.y <= player_max_y()
    &&& 0 <= snapshot.gobj_idx <= snapshot.gobj.len()
    &&& snapshot.gobj.len() == LIVE_OBJECTS
}

/// The snapshot of a simulation in which the player is in place can be
/// drawn.
pub proof fn lemma_snapshot_is_drawable(model: GameModel)
    requires
        player_in_place(model),
    ensures
        drawable(snapshot_of(model)),
{
}

/// A copy of what the renderer needs of the simulation. It is made by
/// `snapshot_video` and never changes.
pub struct Snapshot {
    x: u32,
    y: u32,
    gobj_idx: u32,
    gobj: Vec<GObj>,
}

impl View for Snapshot {
    type V = SnapshotModel;

    closed spec fn view(&self) -> SnapshotModel {
        SnapshotModel {
            x: self.x as int,
            y: self.y as int,
            gobj_idx: self.gobj_idx as int,
            gobj: self.gobj@.map_values(|object: GObj| object@),
        }
    }
}

impl Snapshot {
    #[verifier::type_invariant]
    closed spec fn well_formed(&self) -> bool {
        drawable(self@)
    }

    /// Where the player is, from the left edge.
    pub fn x(&self) -> (x: u32)
        ensures
            x == self@.x,
            drawable(self@),
    {
        proof {
            use_type_invariant(self);
        }
        self.x
    }

    /// Where the player is, from the top edge.
    pub fn y(&self) -> (y: u32)
        ensures
            y == self@.y,
            drawable(self@),
    {
        proof {
            use_type_invariant(self);
        }
        self.y
    }

    /// The number of objects to draw.
    pub fn gobj_idx(&self) -> (count: u32)
        ensures
            count == self@.gobj_idx,
            drawable(self@),
    {
        proof {
            use_type_invariant(self);
        }
        self.gobj_idx
    }

    /// One of the objects that can be drawn.
    pub fn object(&self, slot: usize) -> (object: GObj)
        requires
            slot < LIVE_OBJECTS,
        ensures
            object@ == self@.gobj[slot as int],
    {
        proof {
            use_type_invariant(self);
        }
        self.gobj[slot]
    }
}

/// Copies what the renderer needs of the simulation.
pub fn snapshot_video(g: &GState) -> (snapshot: Snapshot)
    ensures
        snapshot@ == snapshot_of(g@),
{
    proof {
        use_type_invariant(g);
    }
    let mut gobj: Vec<GObj> = Vec::new();
    let mut i: usize = 0;
    while i < LIVE_OBJECTS
        invariant
            i <= LIVE_OBJECTS,
            g.gobj.len() == OBJECT_SLOTS,
            gobj.len() == i,
            forall|j: int| 0 <= j < i ==> gobj[j] == g.gobj[j],
        decreases LIVE_OBJECTS - i,
    {
        gobj.push(g.gobj[i]);
        i += 1;
    }
    assert(gobj@.map_values(|object: GObj| object@) =~= snapshot_of(g@).gobj);
    Snapshot { x: g.x, y: g.y, gobj_idx: g.gobj_idx, gobj }
}

/// The size in bytes of the saved state of the core, which saves nothing.
pub fn get_serialize_size() -> (size: usize)
    ensures
        size == 0,
{
    0
}

/// Saves the state of the core: nothing.
pub fn serialize_core_state() {
}

/// Restores the state of the core: nothing.
pub fn unserialize_core_state() {
}

} // verus!
