use glodget::physics::{BodyForce, Point};
use glodget::weapon::{
    explosion_impact, torpedo_impact, weapon_movement, Explosion, Torpedo, TorpedoOrder,
};

fn standard() -> Explosion {
    Torpedo::new(0).explode()
}

#[test]
fn torpedo_flies_then_explodes_on_fuse() {
    let mut t = Torpedo::new(1);
    assert_eq!(
        weapon_movement(&mut t, 1000),
        TorpedoOrder::Thrust(BodyForce { torque: 0, forward: 15_000_000 })
    );
    assert_eq!(t.explosion_elapsed, 1000);
    assert_eq!(weapon_movement(&mut t, 1499), TorpedoOrder::Thrust(BodyForce { torque: 0, forward: 15_000_000 }));
    assert_eq!(
        weapon_movement(&mut t, 1),
        TorpedoOrder::Explode(Explosion { radius: 50, origin_impulse: 3500 })
    );
    assert_eq!(t.explosion_elapsed, 2500);
    t.tick(u64::MAX);
    assert_eq!(t.explosion_elapsed, 2500);
}

#[test]
fn torpedo_armed_at_once() {
    let t = Torpedo::new(0);
    assert!(t.can_explode());
    assert_eq!(torpedo_impact(&t), Some(Explosion { radius: 50, origin_impulse: 3500 }));
}

#[test]
fn impulse_at_centre_and_at_sixteen() {
    let e = standard();
    let o = Point { x: 0, y: 0 };
    assert_eq!(e.impulse_magnitude(o, o), Some(3_500_000_000));
    // sqrt(16) = 4: 3500 / (1 + 4) = 700.
    assert_eq!(e.impulse_magnitude(o, Point { x: 16, y: 0 }), Some(700_000_000));
    // distance 1: 3500 / 2.
    assert_eq!(e.impulse_magnitude(o, Point { x: 0, y: -1 }), Some(1_750_000_000));
}

#[test]
fn no_impulse_at_or_beyond_radius() {
    let e = standard();
    let o = Point { x: 5, y: 5 };
    assert_eq!(e.impulse_magnitude(o, Point { x: 55, y: 5 }), None);
    assert_eq!(e.impulse_magnitude(o, Point { x: 35, y: 45 }), None);
    assert!(e.impulse_magnitude(o, Point { x: 54, y: 5 }).is_some());
}

#[test]
fn nearer_target_gets_more() {
    let e = standard();
    let o = Point { x: 0, y: 0 };
    let mut last = u64::MAX;
    for d in 0..50 {
        let m = e.impulse_magnitude(o, Point { x: d, y: 0 }).unwrap();
        assert!(m < last);
        last = m;
    }
    let a = e.impulse_magnitude(o, Point { x: 34, y: 35 }).unwrap();
    let b = e.impulse_magnitude(o, Point { x: 35, y: 35 }).unwrap();
    assert!(a > b);
}

#[test]
fn last_explosion_in_reach_wins() {
    let e = standard();
    let explosions = vec![(e, Point { x: 0, y: 0 }), (e, Point { x: 16, y: 0 }), (e, Point { x: 500, y: 0 })];
    let targets = vec![Point { x: 0, y: 0 }, Point { x: 200, y: 0 }, Point { x: 520, y: 0 }];
    let r = explosion_impact(&explosions, &targets);
    // The first target is reached by the first two: the second, 16 away, counts.
    let third = e.impulse_magnitude(Point { x: 500, y: 0 }, Point { x: 520, y: 0 }).unwrap();
    assert_eq!(r, vec![Some((1, 700_000_000)), None, Some((2, third))]);
    assert_eq!(explosion_impact(&vec![], &targets), vec![None, None, None]);
}
