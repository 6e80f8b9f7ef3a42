use adrt::path::{next, start, PathStep, Surface};

#[test]
fn no_budget_is_black() {
    assert_eq!(start(0), PathStep::Black);
    assert_eq!(start(10), PathStep::Trace { remaining: 10 });
}

#[test]
fn miss_shows_sky() {
    assert_eq!(next(3, Surface::Missed), PathStep::Sky);
    assert_eq!(next(1, Surface::Missed), PathStep::Sky);
}

#[test]
fn absorption_is_black() {
    assert_eq!(next(5, Surface::Absorbed), PathStep::Black);
}

#[test]
fn scattering_spends_budget() {
    assert_eq!(next(5, Surface::Scattered), PathStep::Trace { remaining: 4 });
    assert_eq!(next(2, Surface::Scattered), PathStep::Trace { remaining: 1 });
    assert_eq!(next(1, Surface::Scattered), PathStep::Black);
}

#[test]
fn endless_scattering_stops_at_budget() {
    let mut step = start(4);
    let mut traced = 0;
    while let PathStep::Trace { remaining } = step {
        traced += 1;
        step = next(remaining, Surface::Scattered);
    }
    assert_eq!(traced, 4);
    assert_eq!(step, PathStep::Black);
}
