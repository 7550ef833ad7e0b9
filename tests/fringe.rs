use noptica::{FringeCounter, FringeError, FringeEvent, FringeMeasurement, TURN};

fn feed_all(
    c: &mut FringeCounter,
    events: &[FringeEvent],
) -> Vec<Option<Result<FringeMeasurement, FringeError>>> {
    events.iter().map(|e| c.feed(*e)).collect()
}

fn ramp(positions: &[i64]) -> Vec<FringeEvent> {
    let mut v = vec![FringeEvent::Start];
    v.extend(positions.iter().map(|p| FringeEvent::Fringe(*p)));
    v.push(FringeEvent::End);
    v
}

const SEVEN: [i64; 7] = [0, 10, 20, 30, 40, 50, 60];

#[test]
fn fringe_single_ramp_wavelength() {
    let mut c = FringeCounter::new(1, 3, TURN as u64 / 10);
    let out = feed_all(&mut c, &ramp(&SEVEN));
    let (last, rest) = out.split_last().unwrap();
    assert!(rest.iter().all(|o| o.is_none()));
    assert_eq!(
        *last,
        Some(Ok(FringeMeasurement { first: 10, last: 50, fringes: 5, wavelength: 10 }))
    );
    let again = feed_all(&mut c, &ramp(&[100, 110, 120, 130, 140, 150, 160]));
    assert_eq!(
        *again.last().unwrap(),
        Some(Ok(FringeMeasurement { first: 110, last: 150, fringes: 5, wavelength: 10 }))
    );
}

#[test]
fn fringe_ignores_events_before_start() {
    let mut c = FringeCounter::new(1, 3, 0);
    assert_eq!(c.feed(FringeEvent::Fringe(5)), None);
    assert_eq!(c.feed(FringeEvent::End), None);
    let out = feed_all(&mut c, &ramp(&SEVEN));
    assert!(matches!(out.last().unwrap(), Some(Ok(_))));
}

#[test]
fn fringe_two_ramps_are_averaged() {
    let mut c = FringeCounter::new(2, 3, TURN as u64 / 10);
    let first = feed_all(&mut c, &ramp(&SEVEN));
    assert!(first.iter().all(|o| o.is_none()));
    assert_eq!(c.feed(FringeEvent::Fringe(3)), None);
    let second = feed_all(&mut c, &ramp(&[2, 12, 22, 32, 42, 52, 62]));
    let (last, rest) = second.split_last().unwrap();
    assert!(rest.iter().all(|o| o.is_none()));
    assert_eq!(
        *last,
        Some(Ok(FringeMeasurement { first: 11, last: 51, fringes: 5, wavelength: 10 }))
    );
}

#[test]
fn fringe_boundary_interrupted() {
    let mut c = FringeCounter::new(1, 3, 0);
    assert_eq!(c.feed(FringeEvent::Start), None);
    assert_eq!(c.feed(FringeEvent::Fringe(0)), None);
    assert_eq!(c.feed(FringeEvent::End), Some(Err(FringeError::BoundaryInterrupted)));
    assert!(matches!(feed_all(&mut c, &ramp(&SEVEN)).last().unwrap(), Some(Ok(_))));
}

#[test]
fn fringe_counting_interrupted() {
    let mut c = FringeCounter::new(1, 3, 0);
    let mut events = vec![FringeEvent::Start];
    events.extend([0, 10, 20, 30, 40].iter().map(|p| FringeEvent::Fringe(*p)));
    feed_all(&mut c, &events);
    assert_eq!(c.feed(FringeEvent::Start), Some(Err(FringeError::CountingInterrupted)));
    assert_eq!(c.feed(FringeEvent::Fringe(50)), None);
}

#[test]
fn fringe_insufficient_fringes() {
    let mut c = FringeCounter::new(1, 3, 0);
    let out = feed_all(&mut c, &ramp(&[0, 10, 20, 30, 40]));
    assert_eq!(*out.last().unwrap(), Some(Err(FringeError::InsufficientFringes(1))));
}

#[test]
fn fringe_secondary_interrupted() {
    let mut c = FringeCounter::new(2, 3, TURN as u64);
    feed_all(&mut c, &ramp(&SEVEN));
    assert_eq!(c.feed(FringeEvent::Start), None);
    assert_eq!(c.feed(FringeEvent::Fringe(10)), None);
    assert_eq!(c.feed(FringeEvent::Start), Some(Err(FringeError::SecondaryInterrupted)));
}

#[test]
fn fringe_jitter_exceeded() {
    let mut c = FringeCounter::new(2, 3, 0);
    feed_all(&mut c, &ramp(&SEVEN));
    assert_eq!(c.feed(FringeEvent::Start), None);
    assert_eq!(c.feed(FringeEvent::Fringe(10)), None);
    assert_eq!(
        c.feed(FringeEvent::Fringe(21)),
        Some(Err(FringeError::JitterExceeded { distance: 11, nominal: 10 }))
    );
}

#[test]
fn fringe_jitter_within_tolerance() {
    let mut c = FringeCounter::new(2, 3, TURN as u64 / 2);
    feed_all(&mut c, &ramp(&SEVEN));
    let out = feed_all(&mut c, &ramp(&[0, 10, 22, 30, 41, 50, 60]));
    assert_eq!(
        *out.last().unwrap(),
        Some(Ok(FringeMeasurement { first: 10, last: 50, fringes: 5, wavelength: 10 }))
    );
}

#[test]
fn fringe_count_mismatch() {
    let mut c = FringeCounter::new(2, 3, TURN as u64);
    feed_all(&mut c, &ramp(&SEVEN));
    let out = feed_all(&mut c, &ramp(&[0, 10, 20, 30, 40, 60]));
    assert_eq!(
        *out.last().unwrap(),
        Some(Err(FringeError::CountMismatch { got: 4, expected: 5 }))
    );
}

#[test]
fn fringe_reset_drops_group() {
    let mut c = FringeCounter::new(1, 3, 0);
    assert_eq!(c.feed(FringeEvent::Start), None);
    assert_eq!(c.feed(FringeEvent::Fringe(0)), None);
    c.reset();
    assert_eq!(c.feed(FringeEvent::End), None);
    assert!(matches!(feed_all(&mut c, &ramp(&SEVEN)).last().unwrap(), Some(Ok(_))));
}

#[test]
fn fringe_falling_positions_use_symmetric_window() {
    let mut c = FringeCounter::new(2, 3, 0);
    let down = [60, 50, 40, 30, 20, 10, 0];
    feed_all(&mut c, &ramp(&down));
    let out = feed_all(&mut c, &ramp(&down));
    assert_eq!(
        *out.last().unwrap(),
        Some(Ok(FringeMeasurement { first: 50, last: 10, fringes: 5, wavelength: 10 }))
    );
}
