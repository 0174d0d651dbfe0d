use compass::classify::classify;
use compass::direction::Direction;
use compass::display::{show, LedStates};
use compass::fault::Fault;
use compass::heartbeat::{next_schedule, Heartbeat, HEARTBEAT_PERIOD_CYCLES};
use compass::resources::{ResourceCell, SharedResources};
use compass::sensor::RawField;

use std::f64::consts::PI;

/// A floating-point comparison chain over the same boundary angles: an
/// independent reference that the exact integer classifier is held against
/// away from the boundaries.
fn float_reference(theta: f64) -> Direction {
    if theta < -7.0 * PI / 8.0 {
        Direction::North
    } else if theta < -5.0 * PI / 8.0 {
        Direction::Northwest
    } else if theta < -3.0 * PI / 8.0 {
        Direction::West
    } else if theta < -PI / 8.0 {
        Direction::Southwest
    } else if theta < PI / 8.0 {
        Direction::South
    } else if theta < 3.0 * PI / 8.0 {
        Direction::Southeast
    } else if theta < 5.0 * PI / 8.0 {
        Direction::East
    } else if theta < 7.0 * PI / 8.0 {
        Direction::Northeast
    } else {
        Direction::North
    }
}

fn classify_angle(theta: f64) -> Direction {
    let x = (theta.cos() * 100000.0).round() as i32;
    let y = (theta.sin() * 100000.0).round() as i32;
    classify(x, y)
}

#[test]
fn classify_axes() {
    assert_eq!(classify(100, 0), Direction::South);
    assert_eq!(classify(0, 100), Direction::East);
    assert_eq!(classify(-100, 0), Direction::North);
    assert_eq!(classify(0, -100), Direction::West);
}

#[test]
fn classify_diagonals() {
    assert_eq!(classify(100, 100), Direction::Southeast);
    assert_eq!(classify(-100, 100), Direction::Northeast);
    assert_eq!(classify(-100, -100), Direction::Northwest);
    assert_eq!(classify(100, -100), Direction::Southwest);
}

#[test]
fn classify_origin_is_south() {
    // atan2(0, 0) == 0 by convention, and 0 lies in the South arc
    assert_eq!(classify(0, 0), Direction::South);
}

#[test]
fn classify_extreme_magnitudes() {
    assert_eq!(classify(i32::MAX, 0), Direction::South);
    assert_eq!(classify(i32::MIN, 0), Direction::North);
    assert_eq!(classify(i32::MIN, i32::MIN), Direction::Northwest);
    assert_eq!(classify(i32::MAX, i32::MIN), Direction::Southwest);
}

#[test]
fn boundary_west_southwest() {
    // the boundary at -3pi/8 separates West (below) from Southwest (at and
    // above); a small epsilon to either side must land on opposite sides
    let eps = 0.01;
    assert_eq!(classify_angle(-3.0 * PI / 8.0 + eps), Direction::Southwest);
    assert_eq!(classify_angle(-3.0 * PI / 8.0 - eps), Direction::West);
}

#[test]
fn boundary_south_southeast() {
    let eps = 0.01;
    assert_eq!(classify_angle(PI / 8.0 + eps), Direction::Southeast);
    assert_eq!(classify_angle(PI / 8.0 - eps), Direction::South);
}

#[test]
fn wraparound_is_north() {
    assert_eq!(classify_angle(PI - 0.01), Direction::North);
    assert_eq!(classify_angle(-PI + 0.01), Direction::North);
}

#[test]
fn classify_agrees_with_float_chain() {
    // sweep the circle in half-degree steps, offset a quarter degree so no
    // sample sits near a sector boundary
    for k in 0..720 {
        let theta = -PI + (k as f64 + 0.5) * (2.0 * PI / 720.0);
        assert_eq!(
            classify_angle(theta),
            float_reference(theta),
            "disagree at theta = {}",
            theta
        );
    }
}

#[test]
fn arcs_have_equal_width() {
    // in an even sweep that avoids the boundaries, each of the eight sectors
    // takes exactly one eighth of the circle
    let mut counts = [0usize; 8];
    for k in 0..720 {
        let theta = -PI + (k as f64 + 0.5) * (2.0 * PI / 720.0);
        counts[classify_angle(theta).index()] += 1;
    }
    assert_eq!(counts, [90; 8]);
}

#[test]
fn classify_symmetries() {
    let samples = [
        (100, 7),
        (70, 71),
        (-3, 100),
        (-99, 41),
        (-100, -1),
        (-64, -80),
        (5, -100),
        (88, -36),
    ];
    for (x, y) in samples {
        // a quarter turn of the field vector turns the sector a quarter turn
        let rotated = classify(y, -x);
        let expected = match classify(x, y) {
            Direction::North => Direction::East,
            Direction::Northeast => Direction::Southeast,
            Direction::East => Direction::South,
            Direction::Southeast => Direction::Southwest,
            Direction::South => Direction::West,
            Direction::Southwest => Direction::Northwest,
            Direction::West => Direction::North,
            Direction::Northwest => Direction::Northeast,
        };
        assert_eq!(rotated, expected);
        // mirroring the field vector mirrors the sector
        let mirrored = classify(x, -y);
        let expected = match classify(x, y) {
            Direction::North => Direction::North,
            Direction::Northeast => Direction::Northwest,
            Direction::East => Direction::West,
            Direction::Southeast => Direction::Southwest,
            Direction::South => Direction::South,
            Direction::Southwest => Direction::Southeast,
            Direction::West => Direction::East,
            Direction::Northwest => Direction::Northeast,
        };
        assert_eq!(mirrored, expected);
    }
}

#[test]
fn classify_ignores_magnitude() {
    let samples = [(100, 7), (70, 71), (-3, 100), (-99, 41), (-100, -1), (5, -100)];
    for (x, y) in samples {
        assert_eq!(classify(3 * x, 3 * y), classify(x, y));
        assert_eq!(classify(1000 * x, 1000 * y), classify(x, y));
    }
    assert_eq!(classify(1, 2), classify(1000, 2000));
}

#[test]
fn direction_led_indices() {
    let order = [
        Direction::North,
        Direction::Northeast,
        Direction::East,
        Direction::Southeast,
        Direction::South,
        Direction::Southwest,
        Direction::West,
        Direction::Northwest,
    ];
    for (i, d) in order.iter().enumerate() {
        assert_eq!(d.index(), i);
    }
}

#[test]
fn direction_names() {
    assert_eq!(Direction::North.name(), "North");
    assert_eq!(Direction::Southwest.name(), "Southwest");
    assert_eq!(Direction::East.name(), "East");
}

#[test]
fn new_display_all_off() {
    let leds = LedStates::new();
    for i in 0..8 {
        assert!(!leds.is_on(i));
    }
    assert_eq!(leds.count_on(), 0);
}

#[test]
fn show_lights_exactly_one() {
    let dirs = [
        Direction::North,
        Direction::Northeast,
        Direction::East,
        Direction::Southeast,
        Direction::South,
        Direction::Southwest,
        Direction::West,
        Direction::Northwest,
    ];
    for d in dirs {
        let mut leds = LedStates::new();
        show(d, &mut leds);
        assert_eq!(leds.count_on(), 1);
        for i in 0..8 {
            assert_eq!(leds.is_on(i), i == d.index());
        }
    }
}

#[test]
fn show_is_idempotent() {
    let mut leds = LedStates::new();
    show(Direction::Northeast, &mut leds);
    let first: Vec<bool> = (0..8).map(|i| leds.is_on(i)).collect();
    show(Direction::Northeast, &mut leds);
    let second: Vec<bool> = (0..8).map(|i| leds.is_on(i)).collect();
    assert_eq!(first, second);
    assert_eq!(leds.count_on(), 1);
    assert!(leds.is_on(Direction::Northeast.index()));
}

#[test]
fn show_does_not_accumulate() {
    let mut leds = LedStates::new();
    show(Direction::South, &mut leds);
    show(Direction::East, &mut leds);
    assert!(!leds.is_on(Direction::South.index()));
    assert!(leds.is_on(Direction::East.index()));
    assert_eq!(leds.count_on(), 1);
}

#[test]
fn end_to_end_south() {
    // raw field (100, 0): theta = 0, which lies in [-pi/8, pi/8) -> South
    let mut cell = ResourceCell::new();
    assert!(cell.install(SharedResources::new()).is_ok());
    let out = cell.trigger(Ok(RawField::new(100, 0, 25)));
    assert_eq!(out, Ok(Direction::South));
    for i in 0..8 {
        assert_eq!(cell.led_is_on(i), i == Direction::South.index());
    }
    assert!(!cell.timer_pending());
}

#[test]
fn end_to_end_east() {
    // raw field (0, 100): theta = pi/2, which lies in [3pi/8, 5pi/8) -> East
    let mut cell = ResourceCell::new();
    assert!(cell.install(SharedResources::new()).is_ok());
    let out = cell.trigger(Ok(RawField::new(0, 100, -3)));
    assert_eq!(out, Ok(Direction::East));
    for i in 0..8 {
        assert_eq!(cell.led_is_on(i), i == Direction::East.index());
    }
}

#[test]
fn sensor_fault_keeps_previous_display() {
    let mut cell = ResourceCell::new();
    assert!(cell.install(SharedResources::new()).is_ok());
    let out = cell.trigger(Ok(RawField::new(100, 100, 0)));
    assert_eq!(out, Ok(Direction::Southeast));
    let faulted = cell.trigger(Err(Fault::SensorFault));
    assert_eq!(faulted, Err(Fault::SensorFault));
    // the cycle was skipped: the previously shown sector stays lit, unchanged
    for i in 0..8 {
        assert_eq!(cell.led_is_on(i), i == Direction::Southeast.index());
    }
}

#[test]
fn install_twice_is_init_fault() {
    let mut cell = ResourceCell::new();
    assert!(!cell.is_installed());
    assert_eq!(cell.install(SharedResources::new()), Ok(()));
    assert!(cell.is_installed());
    assert_eq!(cell.install(SharedResources::new()), Err(Fault::InitFault));
    assert!(cell.is_installed());
}

#[test]
fn heartbeat_counts_up() {
    let mut hb = Heartbeat::new();
    assert_eq!(hb.tick(), 0);
    assert_eq!(hb.tick(), 1);
    assert_eq!(hb.tick(), 2);
}

#[test]
fn heartbeat_wraps_around() {
    let mut hb = Heartbeat::new();
    hb.count = u32::MAX;
    assert_eq!(hb.tick(), u32::MAX);
    assert_eq!(hb.tick(), 0);
}

#[test]
fn heartbeat_schedule_advances_by_period() {
    assert_eq!(next_schedule(0), HEARTBEAT_PERIOD_CYCLES);
    assert_eq!(next_schedule(1000), HEARTBEAT_PERIOD_CYCLES + 1000);
}

#[test]
fn heartbeat_schedule_wraps() {
    // (2^32 - 1) + period == period - 1 (mod 2^32)
    assert_eq!(next_schedule(u32::MAX), HEARTBEAT_PERIOD_CYCLES - 1);
}
