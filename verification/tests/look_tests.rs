use scene_control::look::{
    apply, drain, rotation, Motion, Orientation, Rotation, Window, TICKS_PER_DEGREE,
};
use scene_control::mode::Mode;

fn window() -> Window {
    Window { width: 800, height: 600 }
}

#[test]
fn sensitivity_is_one_ten_thousandth_of_a_degree() {
    assert_eq!(TICKS_PER_DEGREE, 10_000);
    let r = rotation(&Motion { dx: 1, dy: 1 }, &Window { width: 1, height: 1 });
    assert_eq!(r, Rotation { yaw: -1, pitch: -1 });
}

#[test]
fn pause_drains_an_empty_queue() {
    let mut queue: Vec<Motion> = Vec::new();
    let rotations = drain(Mode::Pause, &mut queue, &window());
    assert!(rotations.is_empty());
    assert!(queue.is_empty());
}

#[test]
fn pause_drains_one_motion_without_turning() {
    let mut queue = vec![Motion { dx: 100, dy: -40 }];
    let rotations = drain(Mode::Pause, &mut queue, &window());
    assert!(rotations.is_empty());
    assert!(queue.is_empty());
}

#[test]
fn pause_drains_many_motions_without_turning() {
    let mut queue: Vec<Motion> = Vec::new();
    for i in 0..1000 {
        queue.push(Motion { dx: i, dy: -i });
    }
    let rotations = drain(Mode::Pause, &mut queue, &window());
    assert!(rotations.is_empty());
    assert!(queue.is_empty());
}

#[test]
fn motions_of_a_paused_frame_do_not_leak_into_play() {
    let mut queue = vec![Motion { dx: 500, dy: 500 }];
    drain(Mode::Pause, &mut queue, &window());
    queue.push(Motion { dx: 1, dy: 0 });
    let rotations = drain(Mode::Play, &mut queue, &window());
    assert_eq!(rotations, vec![Rotation { yaw: -800, pitch: 0 }]);
}

#[test]
fn play_turns_by_yaw_only_for_horizontal_motion() {
    let mut queue = vec![Motion { dx: 100, dy: 0 }];
    let rotations = drain(Mode::Play, &mut queue, &window());
    assert_eq!(rotations, vec![Rotation { yaw: -80_000, pitch: 0 }]);
    assert_eq!(rotations[0].yaw, -8 * TICKS_PER_DEGREE);
    assert!(queue.is_empty());
}

#[test]
fn play_turns_by_pitch_only_for_vertical_motion() {
    let mut queue = vec![Motion { dx: 0, dy: 50 }];
    let rotations = drain(Mode::Play, &mut queue, &window());
    assert_eq!(rotations, vec![Rotation { yaw: 0, pitch: -30_000 }]);
}

#[test]
fn play_keeps_each_motion_in_arrival_order() {
    let mut queue = vec![
        Motion { dx: 1, dy: 2 },
        Motion { dx: -3, dy: 4 },
        Motion { dx: 0, dy: 0 },
        Motion { dx: 1, dy: 2 },
    ];
    let rotations = drain(Mode::Play, &mut queue, &window());
    assert_eq!(
        rotations,
        vec![
            Rotation { yaw: -800, pitch: -1200 },
            Rotation { yaw: 2400, pitch: -2400 },
            Rotation { yaw: 0, pitch: 0 },
            Rotation { yaw: -800, pitch: -1200 },
        ]
    );
    assert!(queue.is_empty());
}

#[test]
fn play_drains_an_empty_queue() {
    let mut queue: Vec<Motion> = Vec::new();
    let rotations = drain(Mode::Play, &mut queue, &window());
    assert!(rotations.is_empty());
    assert!(queue.is_empty());
}

#[test]
fn extreme_motion_fits() {
    let w = Window { width: u32::MAX, height: u32::MAX };
    let r = rotation(&Motion { dx: i32::MIN, dy: i32::MAX }, &w);
    assert_eq!(r.yaw, (1i64 << 31) * (u32::MAX as i64));
    assert_eq!(r.pitch, -((i32::MAX as i64) * (u32::MAX as i64)));
}

#[test]
fn zero_sized_window_never_turns() {
    let w = Window { width: 0, height: 0 };
    assert_eq!(rotation(&Motion { dx: 123, dy: -456 }, &w), Rotation { yaw: 0, pitch: 0 });
}

fn turned_entities() -> Vec<Orientation> {
    vec![
        Orientation::new(),
        Orientation { turns: vec![Rotation { yaw: 5, pitch: -5 }] },
        Orientation { turns: vec![Rotation { yaw: 1, pitch: 2 }, Rotation { yaw: 3, pitch: 4 }] },
    ]
}

#[test]
fn new_orientation_has_no_turns() {
    assert_eq!(Orientation::new(), Orientation { turns: Vec::new() });
}

#[test]
fn turn_appends_in_order() {
    let mut o = Orientation { turns: vec![Rotation { yaw: 5, pitch: -5 }] };
    o.turn(&vec![Rotation { yaw: 1, pitch: 0 }, Rotation { yaw: 0, pitch: 1 }]);
    assert_eq!(
        o.turns,
        vec![
            Rotation { yaw: 5, pitch: -5 },
            Rotation { yaw: 1, pitch: 0 },
            Rotation { yaw: 0, pitch: 1 },
        ]
    );
    o.turn(&Vec::new());
    assert_eq!(o.turns.len(), 3);
}

#[test]
fn pause_leaves_every_orientation_unchanged() {
    for n in [0usize, 1, 250] {
        let mut entities = turned_entities();
        let mut queue: Vec<Motion> = Vec::new();
        for i in 0..n {
            queue.push(Motion { dx: 100 + i as i32, dy: -7 });
        }
        apply(&mut entities, &mut queue, &window(), Mode::Pause);
        assert_eq!(entities, turned_entities());
        assert!(queue.is_empty());
    }
}

#[test]
fn play_turns_every_entity_by_every_motion() {
    let mut entities = turned_entities();
    let mut queue = vec![Motion { dx: 100, dy: 0 }, Motion { dx: 0, dy: -1 }];
    apply(&mut entities, &mut queue, &window(), Mode::Play);
    let added = vec![Rotation { yaw: -80_000, pitch: 0 }, Rotation { yaw: 0, pitch: 600 }];
    let before = turned_entities();
    assert_eq!(entities.len(), 3);
    for (entity, old) in entities.iter().zip(before.iter()) {
        let mut expected = old.turns.clone();
        expected.extend(added.iter().copied());
        assert_eq!(entity.turns, expected);
    }
    assert!(queue.is_empty());
}

#[test]
fn play_without_entities_still_drains() {
    let mut entities: Vec<Orientation> = Vec::new();
    let mut queue = vec![Motion { dx: 3, dy: 4 }];
    apply(&mut entities, &mut queue, &window(), Mode::Play);
    assert!(entities.is_empty());
    assert!(queue.is_empty());
}

#[test]
fn single_horizontal_motion_yaws_an_entity_by_eight_degrees() {
    let mut entities = vec![Orientation::new()];
    let mut queue = vec![Motion { dx: 100, dy: 0 }];
    apply(&mut entities, &mut queue, &window(), Mode::Play);
    assert_eq!(entities[0].turns, vec![Rotation { yaw: -8 * TICKS_PER_DEGREE, pitch: 0 }]);
}
