use rust_pong::game::kinematics::{CollisionWall, MotionObject, MotionPhysics};

/// Pixels, as the renderer counts them, to the units of the library.
fn px(pixels: f64) -> i64 {
    (pixels * 1e12).round() as i64
}

#[test]
fn kinematics_test_has_collided_left() {
    let obj1 = MotionObject::new([px(0.0), px(0.0)], px(10.0), px(10.0));
    let obj2 = MotionObject::new([px(5.0), px(2.0)], px(10.0), px(10.0));

    let result = obj1.has_collided(&obj2);

    assert_eq!(true, result);
}

#[test]
fn kinematics_test_has_collided_right() {
    let obj1 = MotionObject::new([px(15.0), px(0.0)], px(10.0), px(10.0));
    let obj2 = MotionObject::new([px(5.0), px(2.0)], px(10.0), px(10.0));

    let result = obj1.has_collided(&obj2);

    assert_eq!(true, result);
}

#[test]
fn kinematics_test_has_not_collided() {
    let obj1 = MotionObject::new([px(0.0), px(0.0)], px(10.0), px(10.0));
    let obj2 = MotionObject::new([px(11.0), px(2.0)], px(10.0), px(10.0));

    let result = obj1.has_collided(&obj2);

    assert_eq!(false, result);
}

#[test]
fn kinematics_test_get_x() {
    let obj = MotionObject::new([px(1.0), px(10.0)], px(5.0), px(5.0));
    let result = obj.get_x();
    assert_eq!(px(1.0), result);
}

#[test]
fn kinematics_test_get_height() {
    let obj = MotionObject::new([px(1.0), px(10.0)], px(5.0), px(5.0));
    let result = obj.get_height();
    assert_eq!(px(5.0), result);
}

#[test]
fn kinematics_test_get_width() {
    let obj = MotionObject::new([px(1.0), px(10.0)], px(5.0), px(5.0));
    let result = obj.get_width();
    assert_eq!(px(5.0), result);
}

#[test]
fn kinematics_test_get_size() {
    let obj = MotionObject::new([px(1.0), px(10.0)], px(5.0), px(5.0));
    let result = obj.get_size();
    assert_eq!([px(1.0), px(10.0), px(5.0), px(5.0)], result);
}

#[test]
fn test_update_with_bounds_vertical_wall_bottom() {
    let mut motion_p = MotionPhysics::new([px(10.0), px(20.0)], px(5.0), px(5.0));
    let result = motion_p.update_with_bounds(px(24.0), px(100.0));
    assert_eq!(result, Some(CollisionWall::Vertical));
}

#[test]
fn test_update_with_bounds_vertical_wall_top() {
    let mut motion_p = MotionPhysics::new([px(5.0), px(-1.0)], px(5.0), px(5.0));
    let result = motion_p.update_with_bounds(px(24.0), px(100.0));
    assert_eq!(result, Some(CollisionWall::Vertical));
}

#[test]
fn test_update_with_bounds_horizontal_wall_right() {
    let mut motion_p = MotionPhysics::new([px(10.0), px(20.0)], px(5.0), px(5.0));
    let result = motion_p.update_with_bounds(px(100.0), px(14.0));
    assert_eq!(result, Some(CollisionWall::Horizontal));
}

#[test]
fn test_update_with_bounds_horizontal_wall_left() {
    let mut motion_p = MotionPhysics::new([px(-0.01), px(20.0)], px(5.0), px(5.0));
    let result = motion_p.update_with_bounds(px(100.0), px(14.0));
    assert_eq!(result, Some(CollisionWall::Horizontal));
}

#[test]
fn test_update_with_bounds_no_collision() {
    let mut motion_p = MotionPhysics::new([px(10.0), px(20.0)], px(5.0), px(5.0));
    let result = motion_p.update_with_bounds(px(100.0), px(100.0));
    assert_eq!(result, None);
}

#[test]
fn test_set_velocity() {
    let mut motion = MotionPhysics::new([px(0.0), px(0.0)], px(10.0), px(10.0));
    assert_eq!([px(0.0), px(0.0)], motion.get_velocity());

    motion.set_velocity([px(1.0), px(1.0)]);

    assert_eq!([px(1.0), px(1.0)], motion.get_velocity());
}

#[test]
fn test_motion_physics_set_x() {
    let mut motion = MotionPhysics::new([px(0.0), px(0.0)], px(10.0), px(10.0));
    motion.set_x(px(4.0));
    assert_eq!(motion.get_motion_object().get_x(), px(4.0));
}

#[test]
fn test_motion_physics_set_coords() {
    let mut obj = MotionPhysics::new([px(0.0), px(0.0)], px(10.0), px(10.0));
    obj.set_coords([px(10.0), px(-10.0)]);
    let size = obj.get_motion_object().get_size();
    assert_eq!([px(10.0), px(-10.0)], [size[0], size[1]]);
}

#[test]
fn test_motion_physics_get_motion_object() {
    let obj = MotionPhysics::new([px(0.0), px(10.0)], px(5.0), px(5.0));
    let motion_obj = obj.get_motion_object();
    assert_eq!(MotionObject::new([px(0.0), px(10.0)], px(5.0), px(5.0)), *motion_obj);
}

#[test]
fn test_motion_physics_set_velocity() {
    let mut obj = MotionPhysics::new([px(10.0), px(10.0)], px(8.0), px(8.0));
    obj.set_velocity([px(2.0), px(-1.0)]);
    assert_eq!([px(2.0), px(-1.0)], obj.get_velocity());
}

#[test]
fn test_motion_physics_set_acceleration() {
    let mut obj = MotionPhysics::new([px(10.0), px(10.0)], px(8.0), px(8.0));
    obj.set_acceleration([px(1.0), px(-2.0)]);

    // The first tick moves by the old velocity, which is zero, and then
    // picks up the acceleration.
    assert_eq!(obj.update_with_bounds(px(100.0), px(100.0)), None);
    assert_eq!([px(1.0), px(-2.0)], obj.get_velocity());
    assert_eq!([px(10.0), px(10.0), px(8.0), px(8.0)], obj.get_motion_object().get_size());

    assert_eq!(obj.update_with_bounds(px(100.0), px(100.0)), None);
    assert_eq!([px(2.0), px(-4.0)], obj.get_velocity());
    assert_eq!([px(11.0), px(8.0), px(8.0), px(8.0)], obj.get_motion_object().get_size());
}

#[test]
fn update_moves_by_the_velocity() {
    let mut motion = MotionPhysics::new([px(10.0), px(20.0)], px(5.0), px(5.0));
    motion.set_velocity([px(3.0), px(-4.5)]);
    assert_eq!(motion.update_with_bounds(px(100.0), px(100.0)), None);
    assert_eq!([px(13.0), px(15.5), px(5.0), px(5.0)], motion.get_motion_object().get_size());
    assert_eq!([px(3.0), px(-4.5)], motion.get_velocity());
}

#[test]
fn update_stops_at_each_wall_exactly() {
    let mut motion = MotionPhysics::new([px(10.0), px(20.0)], px(5.0), px(6.0));
    motion.set_velocity([px(-30.0), px(0.0)]);
    assert_eq!(motion.update_with_bounds(px(50.0), px(80.0)), Some(CollisionWall::Horizontal));
    assert_eq!([0, px(20.0)], [motion.get_motion_object().get_size()[0], motion.get_motion_object().get_size()[1]]);

    motion.set_velocity([px(500.0), px(0.0)]);
    assert_eq!(motion.update_with_bounds(px(50.0), px(80.0)), Some(CollisionWall::Horizontal));
    assert_eq!(px(80.0) - px(6.0), motion.get_motion_object().get_x());

    motion.set_velocity([px(0.0), px(-21.0)]);
    assert_eq!(motion.update_with_bounds(px(50.0), px(80.0)), Some(CollisionWall::Vertical));
    assert_eq!(0, motion.get_motion_object().get_size()[1]);

    motion.set_velocity([px(0.0), px(45.001)]);
    assert_eq!(motion.update_with_bounds(px(50.0), px(80.0)), Some(CollisionWall::Vertical));
    assert_eq!(px(50.0) - px(5.0), motion.get_motion_object().get_size()[1]);
}

#[test]
fn a_move_onto_the_last_free_place_meets_no_wall() {
    let mut motion = MotionPhysics::new([px(10.0), px(20.0)], px(5.0), px(5.0));
    motion.set_velocity([px(85.0), px(75.0)]);
    assert_eq!(motion.update_with_bounds(px(100.0), px(100.0)), None);
    assert_eq!([px(95.0), px(95.0), px(5.0), px(5.0)], motion.get_motion_object().get_size());

    let mut back = MotionPhysics::new([px(10.0), px(20.0)], px(5.0), px(5.0));
    back.set_velocity([px(-10.0), px(-20.0)]);
    assert_eq!(back.update_with_bounds(px(100.0), px(100.0)), None);
    assert_eq!([0, 0, px(5.0), px(5.0)], back.get_motion_object().get_size());
}

#[test]
fn a_corner_reports_the_vertical_wall() {
    let mut motion = MotionPhysics::new([px(1.0), px(1.0)], px(5.0), px(5.0));
    motion.set_velocity([px(-2.0), px(-2.0)]);
    assert_eq!(motion.update_with_bounds(px(100.0), px(100.0)), Some(CollisionWall::Vertical));
    assert_eq!([0, 0, px(5.0), px(5.0)], motion.get_motion_object().get_size());
}

#[test]
fn a_box_at_rest_inside_the_arena_never_moves() {
    let mut motion = MotionPhysics::new([px(10.0), px(20.0)], px(5.0), px(5.0));
    for _ in 0..1000 {
        assert_eq!(motion.update_with_bounds(px(100.0), px(100.0)), None);
        assert_eq!([px(10.0), px(20.0), px(5.0), px(5.0)], motion.get_motion_object().get_size());
        assert_eq!([0, 0], motion.get_velocity());
    }
    // The edges of the arena are inside it.
    let mut corner = MotionPhysics::new([px(95.0), 0], px(5.0), px(5.0));
    for _ in 0..10 {
        assert_eq!(corner.update_with_bounds(px(100.0), px(100.0)), None);
        assert_eq!([px(95.0), 0, px(5.0), px(5.0)], corner.get_motion_object().get_size());
    }
}

#[test]
fn a_box_outside_the_arena_is_brought_in_once() {
    let mut motion = MotionPhysics::new([px(-3.0), px(400.0)], px(5.0), px(5.0));
    assert_eq!(motion.update_with_bounds(px(100.0), px(100.0)), Some(CollisionWall::Vertical));
    assert_eq!([0, px(95.0), px(5.0), px(5.0)], motion.get_motion_object().get_size());
    assert_eq!(motion.update_with_bounds(px(100.0), px(100.0)), None);
    assert_eq!([0, px(95.0), px(5.0), px(5.0)], motion.get_motion_object().get_size());
}

#[test]
fn a_box_larger_than_the_arena_rests_at_the_upper_bound() {
    let mut motion = MotionPhysics::new([px(1.0), px(1.0)], px(5.0), px(30.0));
    assert_eq!(motion.update_with_bounds(px(100.0), px(20.0)), Some(CollisionWall::Horizontal));
    assert_eq!([px(-10.0), px(1.0), px(30.0), px(5.0)], motion.get_motion_object().get_size());
}

#[test]
fn arithmetic_stops_at_the_ends_of_the_number_range() {
    let mut motion = MotionPhysics::new([i64::MAX - 1, 0], 5, 5);
    motion.set_velocity([i64::MAX, i64::MIN]);
    motion.set_acceleration([i64::MAX, i64::MIN]);
    assert_eq!(motion.update_with_bounds(100, 100), Some(CollisionWall::Vertical));
    assert_eq!([95, 0, 5, 5], motion.get_motion_object().get_size());
    assert_eq!([i64::MAX, i64::MIN], motion.get_velocity());

    let mut sunk = MotionPhysics::new([0, 0], 5, 5);
    assert_eq!(sunk.update_with_bounds(i64::MIN, i64::MIN), Some(CollisionWall::Vertical));
    assert_eq!([i64::MIN, i64::MIN, 5, 5], sunk.get_motion_object().get_size());
}
