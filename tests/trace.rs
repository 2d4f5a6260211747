use ray_tracer::trace::{first_step, next_step, Outcome, Step};

#[test]
fn no_budget_is_black() {
    assert_eq!(first_step(0), Step::Black);
    assert_eq!(first_step(50), Step::Trace { remaining_bounces: 50 });
}

#[test]
fn miss_shows_sky() {
    assert_eq!(next_step(1, Outcome::Missed), Step::Sky);
    assert_eq!(next_step(50, Outcome::Missed), Step::Sky);
}

#[test]
fn absorbed_is_black() {
    assert_eq!(next_step(7, Outcome::Absorbed), Step::Black);
}

#[test]
fn scattered_spends_a_bounce() {
    assert_eq!(next_step(7, Outcome::Scattered), Step::Trace { remaining_bounces: 6 });
    assert_eq!(next_step(1, Outcome::Scattered), Step::Black);
}

#[test]
fn path_never_traces_more_than_budget() {
    let mut traced = 0u32;
    let mut step = first_step(3);
    while let Step::Trace { remaining_bounces } = step {
        traced += 1;
        step = next_step(remaining_bounces, Outcome::Scattered);
    }
    assert_eq!(traced, 3);
    assert_eq!(step, Step::Black);
}
