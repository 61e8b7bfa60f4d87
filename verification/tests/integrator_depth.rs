use pathtracer::integrator::{
    cast, color, trace, Action, Bounce, Radiance, Terminal, FAR_LIMIT, MAX_DEPTH, NEAR_LIMIT,
};
use pathtracer::scene::{Crossing, Hit};

#[test]
fn limits_are_the_patterns_of_their_numbers() {
    assert_eq!(NEAR_LIMIT, 0.001f32.to_bits());
    assert_eq!(FAR_LIMIT, f32::INFINITY.to_bits());
    assert_eq!(MAX_DEPTH, 50);
}

#[test]
fn a_miss_is_the_sky_at_every_depth() {
    for depth in 0..=255u8 {
        assert_eq!(color(false, depth), Action::Sky);
    }
}

#[test]
fn a_hit_scatters_below_the_limit_and_is_black_from_it_on() {
    assert_eq!(color(true, 0), Action::Scatter(1));
    assert_eq!(color(true, 17), Action::Scatter(18));
    assert_eq!(color(true, 49), Action::Scatter(50));
    assert_eq!(color(true, 50), Action::Black);
    assert_eq!(color(true, 51), Action::Black);
    assert_eq!(color(true, 255), Action::Black);
}

#[test]
fn trace_of_an_empty_record_is_unfinished() {
    assert_eq!(trace(&vec![], 0), None);
    assert_eq!(trace(&vec![Bounce::Scattered, Bounce::Scattered], 0), None);
}

#[test]
fn trace_ends_at_the_first_miss_or_absorption() {
    assert_eq!(
        trace(&vec![Bounce::Miss, Bounce::Scattered], 0),
        Some(Radiance { terminal: Terminal::Sky, bounces: 0 })
    );
    assert_eq!(
        trace(&vec![Bounce::Scattered, Bounce::Scattered, Bounce::Miss], 0),
        Some(Radiance { terminal: Terminal::Sky, bounces: 2 })
    );
    assert_eq!(
        trace(&vec![Bounce::Scattered, Bounce::Absorbed, Bounce::Miss], 3),
        Some(Radiance { terminal: Terminal::Black, bounces: 1 })
    );
    assert_eq!(
        trace(&vec![Bounce::Absorbed], 50),
        Some(Radiance { terminal: Terminal::Black, bounces: 0 })
    );
}

#[test]
fn a_miss_is_the_sky_in_trace_at_every_depth() {
    for depth in 0..=255u8 {
        assert_eq!(
            trace(&vec![Bounce::Miss], depth),
            Some(Radiance { terminal: Terminal::Sky, bounces: 0 })
        );
    }
}

#[test]
fn facing_mirrors_end_black_after_fifty_bounces() {
    let endless = vec![Bounce::Scattered; 1000];
    assert_eq!(trace(&endless, 0), Some(Radiance { terminal: Terminal::Black, bounces: 50 }));
    assert_eq!(trace(&endless, 20), Some(Radiance { terminal: Terminal::Black, bounces: 30 }));
    assert_eq!(trace(&endless, 50), Some(Radiance { terminal: Terminal::Black, bounces: 0 }));
    assert_eq!(trace(&endless, 200), Some(Radiance { terminal: Terminal::Black, bounces: 0 }));
}

#[test]
fn the_fiftieth_surface_still_scatters() {
    let mut path = vec![Bounce::Scattered; 50];
    path.push(Bounce::Miss);
    assert_eq!(trace(&path, 0), Some(Radiance { terminal: Terminal::Sky, bounces: 50 }));
    assert_eq!(trace(&path, 1), Some(Radiance { terminal: Terminal::Black, bounces: 49 }));
}

#[test]
fn cast_into_an_empty_scene_sees_the_sky() {
    for depth in [0u8, 1, 49, 50, 51, 255] {
        assert_eq!(cast(&vec![], depth), (None, Action::Sky));
    }
}

#[test]
fn cast_ignores_what_lies_below_the_near_limit() {
    let touching = Crossing {
        discriminant: 1.0f32.to_bits(),
        near: 0.0005f32.to_bits(),
        far: 2.0f32.to_bits(),
    };
    let behind = Crossing {
        discriminant: 1.0f32.to_bits(),
        near: (-3.0f32).to_bits(),
        far: (-1.0f32).to_bits(),
    };
    assert_eq!(
        cast(&vec![behind, touching], 0),
        (Some(Hit { index: 1, t: 2.0f32.to_bits() }), Action::Scatter(1))
    );
    assert_eq!(cast(&vec![behind], 0), (None, Action::Sky));
    assert_eq!(
        cast(&vec![touching], 50),
        (Some(Hit { index: 0, t: 2.0f32.to_bits() }), Action::Black)
    );
}

#[test]
fn cast_reaches_every_finite_distance() {
    let farthest = Crossing {
        discriminant: 1.0f32.to_bits(),
        near: f32::MAX.to_bits(),
        far: f32::INFINITY.to_bits(),
    };
    assert_eq!(
        cast(&vec![farthest], 0),
        (Some(Hit { index: 0, t: f32::MAX.to_bits() }), Action::Scatter(1))
    );
    assert_eq!(
        cast(&vec![farthest], 50),
        (Some(Hit { index: 0, t: f32::MAX.to_bits() }), Action::Black)
    );
    let nearer = Crossing {
        discriminant: 1.0f32.to_bits(),
        near: 1.0e30f32.to_bits(),
        far: f32::MAX.to_bits(),
    };
    assert_eq!(
        cast(&vec![farthest, nearer], 0),
        (Some(Hit { index: 1, t: 1.0e30f32.to_bits() }), Action::Scatter(1))
    );
}

#[test]
fn cast_does_not_strike_at_infinity() {
    let unbounded = Crossing {
        discriminant: 1.0f32.to_bits(),
        near: f32::INFINITY.to_bits(),
        far: f32::INFINITY.to_bits(),
    };
    assert_eq!(cast(&vec![unbounded], 0), (None, Action::Sky));
    let behind = Crossing {
        discriminant: 1.0f32.to_bits(),
        near: f32::NEG_INFINITY.to_bits(),
        far: f32::INFINITY.to_bits(),
    };
    assert_eq!(cast(&vec![behind], 0), (None, Action::Sky));
    let broken = Crossing {
        discriminant: 1.0f32.to_bits(),
        near: f32::NAN.to_bits(),
        far: f32::NAN.to_bits(),
    };
    assert_eq!(cast(&vec![broken], 0), (None, Action::Sky));
}
