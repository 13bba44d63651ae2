use glodget::physics::{
    contact_reported, Body, BodyForce, CollisionFilters, CollisionMemberships, ForceProfile,
    TorqueDirection, FULL_TURN, HALF_TURN, UNIT,
};
use glodget::physics::CollisionFilters as F;
use glodget::physics::CollisionMemberships as M;
use glodget::unit::{beyond_map_edge, enemy_movement, unit_force_profile, unit_movement, EnemyState};

#[test]
fn layers_report_the_listed_pairs() {
    assert!(contact_reported(M::KineticWeapon, F::KineticWeapon, M::Friend, F::Friend));
    assert!(contact_reported(M::KineticWeapon, F::KineticWeapon, M::Enemy, F::Enemy));
    assert!(contact_reported(M::KineticWeapon, F::KineticWeapon, M::InertWeapon, F::InertWeapon));
    assert!(!contact_reported(M::KineticWeapon, F::KineticWeapon, M::KineticWeapon, F::KineticWeapon));
    assert!(contact_reported(M::Glod, F::WithFriend, M::Friend, F::Friend));
    assert!(!contact_reported(M::Glod, F::WithFriend, M::Enemy, F::Enemy));
    assert!(contact_reported(M::FriendlyBase, F::WithFriend, M::Friend, F::Friend));
    assert!(!contact_reported(M::FriendlyBase, F::WithFriend, M::Glod, F::WithFriend));
    assert!(contact_reported(M::Enemy, F::Enemy, M::Friend, F::Friend));
}

#[test]
fn layer_bits_are_distinct() {
    let all = [M::FriendlyBase, M::Friend, M::Enemy, M::InertWeapon, M::KineticWeapon, M::Glod];
    let mut seen = 0u32;
    for m in all.iter() {
        let b = m.bits();
        assert_eq!(b.count_ones(), 1);
        assert_eq!(seen & b, 0);
        seen |= b;
    }
    assert_eq!(CollisionFilters::Friend.bits(), 0b110101);
    assert_eq!(CollisionFilters::KineticWeapon.bits(), 0b1110);
}

#[test]
fn torque_direction_signs() {
    assert_eq!(TorqueDirection::from(-1), TorqueDirection::Right);
    assert_eq!(TorqueDirection::from(0), TorqueDirection::Left);
    assert_eq!(TorqueDirection::Left.mul(5), 5);
    assert_eq!(TorqueDirection::Right.mul(5), -5);
}

#[test]
fn bearing_straight_quarter_turn() {
    let b = Body::new(0, 0, 0, None);
    assert_eq!(b.bearing_of(1_570_796), (TorqueDirection::Left, 1_570_796));
    assert_eq!(b.bearing_of(-1_570_796), (TorqueDirection::Right, 1_570_796));
}

#[test]
fn bearing_reflects_across_full_turn() {
    let b = Body::new(10, 20, 3_000_000, Some((1, 2, 3)));
    assert_eq!((b.vx, b.vy, b.angvel), (1, 2, 3));
    // target - heading = -6_000_000, more than half a turn to the right:
    // the short way is 283_186 to the left.
    assert_eq!(b.bearing_of(-3_000_000), (TorqueDirection::Left, 283_186));
    let c = Body::new(0, 0, -3_000_000, None);
    assert_eq!(c.bearing_of(3_000_000), (TorqueDirection::Right, 283_186));
}

#[test]
fn bearing_is_normalized_on_a_grid() {
    let mut heading = -FULL_TURN;
    while heading <= FULL_TURN {
        let mut target = -HALF_TURN;
        while target <= HALF_TURN {
            let (dir, mag) = Body::new(0, 0, heading, None).bearing_of(target);
            assert!((0..=HALF_TURN).contains(&mag));
            let signed = dir.mul(mag);
            assert_eq!((signed - (target - heading)).rem_euclid(FULL_TURN), 0);
            target += 97_531;
        }
        heading += 123_457;
    }
}

#[test]
fn distance_is_squared() {
    let a = Body::new(0, 0, 0, None);
    let b = Body::new(3, -4, 0, None);
    assert_eq!(a.distance_sq(&b), 25);
}

#[test]
fn force_validation_bounds() {
    assert!(!BodyForce::valid(1_500_000, 0));
    assert!(!BodyForce::valid(0, -100_000));
    assert!(BodyForce::valid(-UNIT, 0));
    assert!(BodyForce::valid(UNIT, UNIT));
}

#[test]
fn force_scales_by_profile() {
    let fp = unit_force_profile();
    assert_eq!(fp, ForceProfile { forward: 150, torque: 3000 });
    let a = BodyForce::new(-UNIT, 0, fp);
    assert_eq!(a, BodyForce { torque: -3000 * UNIT, forward: 0 });
    let b = BodyForce::new(UNIT, UNIT, fp);
    assert_eq!(b, BodyForce { torque: 3000 * UNIT, forward: 150 * UNIT });
    let c = BodyForce::new(250_000, 500_000, ForceProfile { forward: 10, torque: 4 });
    assert_eq!(c, BodyForce { torque: 1_000_000, forward: 5_000_000 });
}

#[test]
fn player_keys_left_wins() {
    assert_eq!(unit_movement(true, true, false), BodyForce { torque: 3000 * UNIT, forward: 0 });
    assert_eq!(unit_movement(false, true, true), BodyForce { torque: -3000 * UNIT, forward: 150 * UNIT });
    assert_eq!(unit_movement(false, false, false), BodyForce { torque: 0, forward: 0 });
}

#[test]
fn enemy_thrusts_only_when_released() {
    let held = enemy_movement((TorqueDirection::Right, 1_000_000), 300_000, EnemyState::PreStart);
    assert_eq!(held, BodyForce { torque: -400_000 * 3000, forward: 0 });
    let free = enemy_movement((TorqueDirection::Left, 100_000), 300_000, EnemyState::Released);
    assert_eq!(free, BodyForce { torque: 100_000 * 3000, forward: 300_000 * 150 });
}

#[test]
fn map_edge_tolerance() {
    assert!(!beyond_map_edge(342, -342));
    assert!(beyond_map_edge(343, 0));
    assert!(beyond_map_edge(0, -343));
}
