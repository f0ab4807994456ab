use first_person_camera::actions::{Action, Actions};
use first_person_camera::first_person::{
    FirstPerson, FirstPersonSettings, Vec3, HALF_PI_BITS, TWO_PI_BITS,
};
use first_person_camera::fixed::{floor_rem, Fx, FX_SCALE};

const ALL_ACTIONS: [Action; 7] = [
    Action::MoveForward,
    Action::MoveBackward,
    Action::StrafeLeft,
    Action::StrafeRight,
    Action::FlyUp,
    Action::FlyDown,
    Action::MoveFaster,
];

fn origin() -> Vec3 {
    Vec3 {
        x: Fx::zero(),
        y: Fx::zero(),
        z: Fx::zero(),
    }
}

fn fresh_camera() -> FirstPerson {
    FirstPerson::new(origin(), FirstPersonSettings::default())
}

#[test]
fn default_settings_are_all_one() {
    let s = FirstPersonSettings::default();
    assert_eq!(s.speed_horizontal.bits, FX_SCALE);
    assert_eq!(s.speed_vertical.bits, FX_SCALE);
    assert_eq!(s.mouse_sensitivity_horizontal.bits, FX_SCALE);
    assert_eq!(s.mouse_sensitivity_vertical.bits, FX_SCALE);
}

#[test]
fn new_camera_initial_state() {
    let pos = Vec3 {
        x: Fx::from_bits(5_000_000),
        y: Fx::from_bits(-2_000_000),
        z: Fx::from_bits(750_000),
    };
    let cam = FirstPerson::new(pos, FirstPersonSettings::default());
    assert_eq!(cam.yaw.bits, 0);
    assert_eq!(cam.pitch.bits, 0);
    assert_eq!(cam.velocity.bits, FX_SCALE);
    assert_eq!(cam.actions.bits, 0);
    assert_eq!(cam.position, pos);
}

#[test]
fn opposing_pairs_cancel_in_either_enable_order() {
    let pairs = [
        (Action::MoveForward, Action::MoveBackward),
        (Action::StrafeLeft, Action::StrafeRight),
        (Action::FlyUp, Action::FlyDown),
    ];
    for (pos, neg) in pairs {
        for order in 0..2 {
            let mut cam = fresh_camera();
            let (first, second) = if order == 0 { (pos, neg) } else { (neg, pos) };
            cam.enable_actions(Actions::single(first));
            cam.enable_actions(Actions::single(second));
            let (dx, dy, dz) = cam.movement_direction();
            match pos {
                Action::StrafeLeft => assert_eq!(dx.bits, 0),
                Action::FlyUp => assert_eq!(dy.bits, 0),
                _ => assert_eq!(dz.bits, 0),
            }
        }
    }
}

#[test]
fn single_flags_give_signed_directions() {
    let cases = [
        (Action::StrafeLeft, (FX_SCALE, 0, 0)),
        (Action::StrafeRight, (-FX_SCALE, 0, 0)),
        (Action::FlyUp, (0, FX_SCALE, 0)),
        (Action::FlyDown, (0, -FX_SCALE, 0)),
        (Action::MoveForward, (0, 0, FX_SCALE)),
        (Action::MoveBackward, (0, 0, -FX_SCALE)),
        (Action::MoveFaster, (0, 0, 0)),
    ];
    for (flag, (ex, ey, ez)) in cases {
        let mut cam = fresh_camera();
        cam.enable_actions(Actions::single(flag));
        let (dx, dy, dz) = cam.movement_direction();
        assert_eq!((dx.bits, dy.bits, dz.bits), (ex, ey, ez));
    }
}

#[test]
fn yaw_after_one_unit_sweep() {
    let mut cam = fresh_camera();
    cam.update_mouse(Fx::from_bits(1_440_000), Fx::zero());
    assert_eq!(cam.yaw.bits, 6_280_043);
    assert_eq!(cam.pitch.bits, 0);
}

#[test]
fn yaw_wraps_large_magnitudes_into_range() {
    let mut cam = fresh_camera();
    cam.update_mouse(Fx::from_bits(1_000_000_000_000), Fx::zero());
    assert_eq!(cam.yaw.bits, 4_886_921);
    assert!(0 <= cam.yaw.bits && cam.yaw.bits < TWO_PI_BITS);
    cam.update_mouse(Fx::from_bits(i64::MAX), Fx::zero());
    assert!(0 <= cam.yaw.bits && cam.yaw.bits < TWO_PI_BITS);
    cam.update_mouse(Fx::from_bits(i64::MIN), Fx::zero());
    assert!(0 <= cam.yaw.bits && cam.yaw.bits < TWO_PI_BITS);
}

#[test]
fn yaw_negative_delta_wraps_upward() {
    let mut cam = fresh_camera();
    cam.update_mouse(Fx::from_bits(-1_440_000), Fx::zero());
    assert_eq!(cam.yaw.bits, 3_141);
}

#[test]
fn halved_sensitivity_halves_the_sweep() {
    let mut settings = FirstPersonSettings::default();
    settings.mouse_sensitivity_horizontal = Fx::from_bits(500_000);
    let mut cam = FirstPerson::new(origin(), settings);
    cam.update_mouse(Fx::from_bits(2_880_000), Fx::zero());
    assert_eq!(cam.yaw.bits, 6_280_043);
}

#[test]
fn pitch_saturates_at_the_top_and_stays() {
    let mut cam = fresh_camera();
    cam.update_mouse(Fx::zero(), Fx::from_bits(1_000_000_000_000));
    assert_eq!(cam.pitch.bits, HALF_PI_BITS);
    cam.update_mouse(Fx::zero(), Fx::from_bits(1_000_000_000_000));
    assert_eq!(cam.pitch.bits, HALF_PI_BITS);
    cam.update_mouse(Fx::zero(), Fx::from_bits(1));
    assert_eq!(cam.pitch.bits, HALF_PI_BITS);
}

#[test]
fn pitch_clamps_at_the_bottom() {
    let mut cam = fresh_camera();
    cam.update_mouse(Fx::zero(), Fx::from_bits(-1_000_000_000_000));
    assert_eq!(cam.pitch.bits, -HALF_PI_BITS);
    cam.update_mouse(Fx::zero(), Fx::from_bits(-1_000_000_000_000));
    assert_eq!(cam.pitch.bits, -HALF_PI_BITS);
}

#[test]
fn idle_update_leaves_position_unchanged() {
    let start = Vec3 {
        x: Fx::from_bits(123),
        y: Fx::from_bits(-456),
        z: Fx::from_bits(789),
    };
    let dts: [i64; 4] = [0, FX_SCALE, 50 * FX_SCALE, -3 * FX_SCALE];
    for dt in dts {
        let mut cam = FirstPerson::new(start, FirstPersonSettings::default());
        cam.update(Fx::from_bits(dt), Fx::zero(), Fx::one());
        assert_eq!(cam.position, start);
    }
}

#[test]
fn forward_step_at_yaw_zero_follows_the_rotation_formula() {
    // At yaw 0 the yaw rotation gives world_x = sin*dx - cos*dz = -dh and
    // world_z = sin*dz + cos*dx = 0, so a pure forward step of one second
    // moves one unit along -X in this camera's convention.
    let mut cam = fresh_camera();
    cam.enable_actions(Actions::single(Action::MoveForward));
    cam.update(Fx::one(), Fx::zero(), Fx::one());
    assert_eq!(cam.position.x.bits, -FX_SCALE);
    assert_eq!(cam.position.y.bits, 0);
    assert_eq!(cam.position.z.bits, 0);
}

#[test]
fn diagonal_step_is_not_normalized() {
    let mut cam = fresh_camera();
    cam.enable_actions(Actions::single(Action::MoveForward));
    cam.enable_actions(Actions::single(Action::StrafeLeft));
    cam.update(Fx::one(), Fx::zero(), Fx::one());
    let dh: i64 = FX_SCALE;
    assert_eq!(cam.position.x.bits, -dh);
    assert_eq!(cam.position.y.bits, 0);
    assert_eq!(cam.position.z.bits, dh);
    let wx = cam.position.x.bits as i128;
    let wz = cam.position.z.bits as i128;
    assert_eq!(wx * wx + wz * wz, 2 * (dh as i128) * (dh as i128));
}

#[test]
fn vertical_movement_ignores_yaw() {
    let mut cam = fresh_camera();
    cam.enable_actions(Actions::single(Action::FlyUp));
    cam.update(Fx::one(), Fx::from_bits(437_281), Fx::from_bits(-899_342));
    assert_eq!(cam.position.x.bits, 0);
    assert_eq!(cam.position.y.bits, FX_SCALE);
    assert_eq!(cam.position.z.bits, 0);
}

#[test]
fn disable_action_is_idempotent_on_inactive_flags() {
    for flag in ALL_ACTIONS {
        let mut cam = fresh_camera();
        cam.enable_actions(Actions::single(Action::MoveForward));
        cam.enable_actions(Actions::single(Action::FlyDown));
        if cam.actions.contains(Actions::single(flag)) {
            continue;
        }
        let before = cam.actions.bits;
        cam.disable_action(Actions::single(flag));
        assert_eq!(cam.actions.bits, before);
        cam.disable_action(Actions::single(flag));
        assert_eq!(cam.actions.bits, before);
    }
}

#[test]
fn enable_two_then_disable_first_leaves_exactly_the_second() {
    for a in ALL_ACTIONS {
        for b in ALL_ACTIONS {
            if a == b {
                continue;
            }
            let mut cam = fresh_camera();
            cam.enable_actions(Actions::single(a));
            cam.enable_actions(Actions::single(b));
            cam.disable_action(Actions::single(a));
            assert_eq!(cam.actions.bits, Actions::single(b).bits);
        }
    }
}

#[test]
fn flag_set_operations_behave_as_masks() {
    let fwd = Actions::single(Action::MoveForward);
    let up = Actions::single(Action::FlyUp);
    let both = fwd.union(up);
    assert!(both.contains(fwd));
    assert!(both.contains(up));
    assert!(both.contains(both));
    assert!(!fwd.contains(both));
    assert_eq!(both.without(fwd).bits, up.bits);
    assert!(Actions::empty().bits == 0);
    assert!(both.is_active(Action::MoveForward));
    assert!(!both.is_active(Action::StrafeLeft));
}

#[test]
fn camera_derives_a_pose_without_mutating() {
    let mut cam = fresh_camera();
    cam.update_mouse(Fx::from_bits(1_440_000), Fx::from_bits(720_000));
    cam.enable_actions(Actions::single(Action::MoveBackward));
    let before = cam;
    let pose = cam.camera(Fx::one(), Fx::from_bits(-3_141), Fx::from_bits(999_995));
    assert_eq!(pose.yaw.bits, cam.yaw.bits);
    assert_eq!(pose.pitch.bits, cam.pitch.bits);
    assert_eq!(cam, before);
    let mut moved = cam;
    moved.update(Fx::one(), Fx::from_bits(-3_141), Fx::from_bits(999_995));
    assert_eq!(moved.position, pose.position);
    assert_eq!(moved.yaw.bits, cam.yaw.bits);
    assert_eq!(moved.pitch.bits, cam.pitch.bits);
}

#[test]
fn fixed_point_ops_saturate_and_truncate() {
    let max = Fx::from_bits(i64::MAX);
    assert_eq!(max.sat_add(Fx::one()).bits, i64::MAX);
    assert_eq!(Fx::from_bits(i64::MIN).sat_sub(Fx::one()).bits, i64::MIN);
    let one_and_half = Fx::from_bits(1_500_000);
    assert_eq!(one_and_half.sat_mul(one_and_half).bits, 2_250_000);
    assert_eq!(
        Fx::from_bits(-1_500_000).sat_mul(one_and_half).bits,
        -2_250_000
    );
    assert_eq!(Fx::from_bits(3).sat_mul(Fx::from_bits(3)).bits, 0);
    assert_eq!(Fx::from_bits(-3).sat_mul(Fx::from_bits(3)).bits, 0);
    assert_eq!(max.sat_mul(max).bits, i64::MAX);
    assert_eq!(floor_rem(-7, 3), 2);
    assert_eq!(floor_rem(7, 3), 1);
    assert_eq!(floor_rem(-6, 3), 0);
}
