use game_ecs::error::SystemError;
use game_ecs::position::Position;
use game_ecs::velocity::Velocity;

#[test]
fn default_position_is_origin_with_empty_description() {
    let p = Position::default();
    assert_eq!(p.x, 0);
    assert_eq!(p.y, 0);
    assert_eq!(p.z, 0);
    assert_eq!(p.description, String::new());
}

#[test]
fn default_velocity_is_at_rest() {
    let v = Velocity::default();
    assert_eq!(v.vx, 0);
    assert_eq!(v.vy, 0);
}

#[test]
fn description_of_twenty_units_is_accepted() {
    let mut p = Position::default();
    let twenty = "abcdefghijklmnopqrst".to_string();
    assert_eq!(twenty.chars().count(), 20);
    assert_eq!(p.set_description(twenty.clone()), Ok(()));
    assert_eq!(p.description, twenty);
}

#[test]
fn description_of_twenty_one_units_is_rejected() {
    let mut p = Position::default();
    p.set_description("kept".to_string()).unwrap();
    let twenty_one = "abcdefghijklmnopqrstu".to_string();
    assert_eq!(twenty_one.chars().count(), 21);
    assert_eq!(
        p.set_description(twenty_one),
        Err(SystemError::ValidationError)
    );
    // The rejected write left the position untouched.
    assert_eq!(p.description, "kept".to_string());
    assert_eq!(p.x, 0);
    assert_eq!(p.y, 0);
    assert_eq!(p.z, 0);
}
