use rust_libretro::game::{
    core_run, get_serialize_size, serialize_core_state, snapshot_video, unserialize_core_state,
    GObj, GState, LIVE_OBJECTS, OBJECT_SLOTS, PLAYER_STEP,
};
use rust_libretro::input::InputState;

const UP: usize = 4;
const DOWN: usize = 5;
const LEFT: usize = 6;
const RIGHT: usize = 7;
const A: usize = 8;

fn input(held: &[usize]) -> InputState {
    let mut answers = [0i16; 16];
    for id in held {
        answers[*id] = 1;
    }
    InputState::poll(&answers)
}

/// Place and velocity of an object.
type Parts = (i32, i32, i32, i32);

fn parts(object: Option<GObj>) -> Option<Parts> {
    object.map(|object| (object.x(), object.y(), object.dx(), object.dy()))
}

fn rest(x: i32, y: i32) -> Parts {
    (x, y, 0, 0)
}

/// The simulation written out once more, with arithmetic that wraps.
struct Reference {
    frame: usize,
    x: u32,
    y: u32,
    gobj_idx: u32,
    old_a: bool,
    gobj: Vec<Parts>,
}

impl Reference {
    fn new() -> Reference {
        Reference {
            frame: 0,
            x: 0,
            y: 0,
            gobj_idx: 0,
            old_a: false,
            gobj: vec![rest(0, 0); 256],
        }
    }

    fn tick(&mut self, held: &[usize]) {
        let pressed = |id: usize| held.contains(&id);
        self.frame = self.frame.wrapping_add(1);
        if pressed(A) && !self.old_a {
            self.gobj[self.gobj_idx as usize] = rest(self.x as i32, self.y as i32);
            self.gobj_idx += 1;
        }
        if self.gobj_idx == 256 {
            self.gobj_idx = 255;
        }
        self.old_a = pressed(A);
        if pressed(UP) && self.y > 0 {
            self.y = self.y.wrapping_sub(48);
        }
        if pressed(DOWN) && self.y < 240 * 256 - 256 {
            self.y = self.y.wrapping_add(48);
        }
        if pressed(LEFT) && self.x > 0 {
            self.x = self.x.wrapping_sub(48);
        }
        if pressed(RIGHT) && self.x < 320 * 256 - 256 {
            self.x = self.x.wrapping_add(48);
        }
        for i in 0..255 {
            let x = self.x as i32;
            let y = self.y as i32;
            let (mut ox, mut oy, mut dx, mut dy) = self.gobj[i];
            if ox > x {
                dx -= 1;
            }
            if ox < x {
                dx += 1;
            }
            if oy > y {
                dy -= 1;
            }
            if oy < y {
                dy += 1;
            }
            ox = ox.wrapping_add(dx);
            oy = oy.wrapping_add(dy);
            if dx > 256 {
                dx = 256;
            }
            if dx < -255 {
                dx = -255;
            }
            if dy > 256 {
                dy = 256;
            }
            if dy < -255 {
                dy = -255;
            }
            self.gobj[i] = (ox, oy, dx, dy);
        }
    }

    fn check(&self, state: &GState) {
        assert_eq!(state.frame(), self.frame);
        assert_eq!(state.x(), self.x);
        assert_eq!(state.y(), self.y);
        assert_eq!(state.gobj_idx(), self.gobj_idx);
        for slot in 0..256 {
            assert_eq!(parts(state.object(slot)), Some(self.gobj[slot]), "slot {}", slot);
        }
    }
}

#[test]
fn constants_of_the_simulation() {
    assert_eq!(PLAYER_STEP, 48);
    assert_eq!(OBJECT_SLOTS, 256);
    assert_eq!(LIVE_OBJECTS, 255);
}

#[test]
fn starts_in_the_corner() {
    let state = GState::new();
    assert_eq!(state.frame(), 0);
    assert_eq!(state.x(), 0);
    assert_eq!(state.y(), 0);
    assert_eq!(state.gobj_idx(), 0);
    for slot in 0..256 {
        assert_eq!(parts(state.object(slot)), Some(rest(0, 0)));
    }
    assert_eq!(state.object(256), None);
    assert_eq!(state.object(usize::MAX), None);
    Reference::new().check(&state);
}

#[test]
fn player_walks_a_step_per_tick() {
    let mut state = GState::new();
    core_run(&mut state, &input(&[RIGHT]));
    assert_eq!((state.x(), state.y(), state.frame()), (48, 0, 1));
    core_run(&mut state, &input(&[RIGHT, DOWN]));
    assert_eq!((state.x(), state.y(), state.frame()), (96, 48, 2));
    core_run(&mut state, &input(&[LEFT]));
    assert_eq!((state.x(), state.y()), (48, 48));
    core_run(&mut state, &input(&[UP]));
    assert_eq!((state.x(), state.y()), (48, 0));
    core_run(&mut state, &input(&[]));
    assert_eq!((state.x(), state.y(), state.frame()), (48, 0, 5));
}

#[test]
fn player_stays_on_the_screen() {
    let mut state = GState::new();
    core_run(&mut state, &input(&[LEFT, UP]));
    assert_eq!((state.x(), state.y()), (0, 0));
    core_run(&mut state, &input(&[LEFT, RIGHT, UP, DOWN]));
    assert_eq!((state.x(), state.y()), (48, 48));
    core_run(&mut state, &input(&[LEFT, RIGHT, UP, DOWN]));
    assert_eq!((state.x(), state.y()), (48, 48));
    for _ in 0..2000 {
        core_run(&mut state, &input(&[RIGHT, DOWN]));
    }
    assert_eq!((state.x(), state.y()), (81696, 61200));
    assert_eq!(state.x() / 256, 319);
    assert_eq!(state.y() / 256, 239);
    core_run(&mut state, &input(&[LEFT, RIGHT, UP, DOWN]));
    assert_eq!((state.x(), state.y()), (81696, 61200));
    core_run(&mut state, &input(&[LEFT, UP]));
    assert_eq!((state.x(), state.y()), (81648, 61152));
    core_run(&mut state, &input(&[RIGHT, DOWN]));
    assert_eq!((state.x(), state.y()), (81696, 61200));
}

#[test]
fn objects_chase_the_player() {
    let mut state = GState::new();
    core_run(&mut state, &input(&[RIGHT]));
    assert_eq!(parts(state.object(0)), Some((1, 0, 1, 0)));
    assert_eq!(parts(state.object(254)), Some((1, 0, 1, 0)));
    assert_eq!(parts(state.object(255)), Some(rest(0, 0)));
    core_run(&mut state, &input(&[RIGHT, DOWN]));
    assert_eq!(parts(state.object(0)), Some((3, 1, 2, 1)));
    core_run(&mut state, &input(&[]));
    assert_eq!(parts(state.object(0)), Some((6, 3, 3, 2)));
}

#[test]
fn button_a_drops_an_object_where_the_player_stood() {
    let mut state = GState::new();
    core_run(&mut state, &input(&[RIGHT, DOWN]));
    core_run(&mut state, &input(&[A, RIGHT]));
    assert_eq!(state.gobj_idx(), 1);
    assert_eq!((state.x(), state.y()), (96, 48));
    assert_eq!(parts(state.object(0)), Some((49, 48, 1, 0)));
    core_run(&mut state, &input(&[A]));
    assert_eq!(state.gobj_idx(), 1);
    core_run(&mut state, &input(&[]));
    core_run(&mut state, &input(&[A]));
    assert_eq!(state.gobj_idx(), 2);
}

#[test]
fn last_place_is_taken_over_and_over() {
    let mut state = GState::new();
    let mut reference = Reference::new();
    for tick in 0..600 {
        let held: &[usize] = if tick % 2 == 0 { &[A, RIGHT] } else { &[] };
        core_run(&mut state, &input(held));
        reference.tick(held);
    }
    assert_eq!(state.gobj_idx(), 255);
    reference.check(&state);
    let x_before = state.x() as i32;
    core_run(&mut state, &input(&[A]));
    assert_eq!(state.gobj_idx(), 255);
    assert_eq!(parts(state.object(255)), Some(rest(x_before, 0)));
    core_run(&mut state, &input(&[LEFT]));
    assert_eq!(parts(state.object(255)), Some(rest(x_before, 0)));
}

#[test]
fn speed_is_limited() {
    let mut state = GState::new();
    let mut reference = Reference::new();
    let mut fastest = (0, 0);
    let mut slowest = (0, 0);
    for _ in 0..5000 {
        let object = state.object(0).unwrap();
        let mut held = Vec::new();
        held.push(if object.x() > state.x() as i32 { LEFT } else { RIGHT });
        held.push(if object.y() > state.y() as i32 { UP } else { DOWN });
        core_run(&mut state, &input(&held));
        reference.tick(&held);
        let object = state.object(0).unwrap();
        fastest = (fastest.0.max(object.dx()), fastest.1.max(object.dy()));
        slowest = (slowest.0.min(object.dx()), slowest.1.min(object.dy()));
        assert!(-32896 <= object.x() && object.x() <= 81696 + 33153);
        assert!(-32896 <= object.y() && object.y() <= 61200 + 33153);
    }
    assert_eq!(fastest, (256, 256));
    assert_eq!(slowest, (-255, -255));
    reference.check(&state);
}

#[test]
fn follows_the_simulation_written_out() {
    let script: [&[usize]; 12] = [
        &[RIGHT],
        &[RIGHT, A],
        &[DOWN],
        &[DOWN, A],
        &[],
        &[A, LEFT],
        &[A, LEFT, UP],
        &[RIGHT, DOWN],
        &[LEFT, RIGHT],
        &[UP, DOWN, A],
        &[UP],
        &[A],
    ];
    let mut state = GState::new();
    let mut reference = Reference::new();
    for round in 0..400 {
        for (at, held) in script.iter().enumerate() {
            if (round + at) % 5 == 0 {
                continue;
            }
            core_run(&mut state, &input(held));
            reference.tick(held);
        }
        if round % 50 == 0 {
            reference.check(&state);
        }
    }
    reference.check(&state);
}

#[test]
fn snapshot_copies_what_is_drawn() {
    let mut state = GState::new();
    core_run(&mut state, &input(&[RIGHT, DOWN, A]));
    core_run(&mut state, &input(&[RIGHT]));
    core_run(&mut state, &input(&[RIGHT, A]));
    let snapshot = snapshot_video(&state);
    assert_eq!(snapshot.x(), 144);
    assert_eq!(snapshot.y(), 48);
    assert_eq!(snapshot.gobj_idx(), 2);
    for slot in 0..255 {
        assert_eq!(Some(snapshot.object(slot)), state.object(slot));
    }
    core_run(&mut state, &input(&[RIGHT, A]));
    core_run(&mut state, &input(&[LEFT]));
    assert_eq!(snapshot.x(), 144);
    assert_eq!(snapshot.gobj_idx(), 2);
    assert_ne!(Some(snapshot.object(0)), state.object(0));
}

#[test]
fn nothing_is_serialized() {
    assert_eq!(get_serialize_size(), 0);
    serialize_core_state();
    unserialize_core_state();
    assert_eq!(get_serialize_size(), 0);
}
