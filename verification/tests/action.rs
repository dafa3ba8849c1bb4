use action_queue::action::ActionBody;
use action_queue::action::Animation;
use action_queue::action::Goal;
use action_queue::action::Lane;
use action_queue::action::Order;
use action_queue::action::Part;
use action_queue::action::Phase;
use action_queue::action::Run;
use action_queue::action::Stage;

fn op(part: Part, millis: u64) -> Animation {
    Animation { part, goal: Goal::Rest, millis }
}

fn phase(ops: Vec<Animation>) -> Phase {
    Phase { ops }
}

fn four_unequal() -> Vec<Animation> {
    vec![
        op(Part::LeftArm, 100),
        op(Part::RightArm, 400),
        op(Part::LeftLeg, 200),
        op(Part::RightLeg, 300),
    ]
}

/// A body of one stage: a phase of four operations, the change, a last phase.
fn small_body() -> ActionBody {
    ActionBody {
        stages: vec![Stage {
            whole: vec![],
            phases: vec![phase(four_unequal()), phase(vec![op(Part::Rotation, 50)])],
        }],
        strike_stage: 0,
        strike_phase: 1,
    }
}

/// Runs a body against a clock: every operation completes when its time is
/// up. Returns each order with the time at which it was given.
fn play(body: ActionBody) -> Vec<(u64, Order)> {
    let mut run = Run::new(body);
    let mut clock = 0u64;
    let mut flying: Vec<(u64, Lane)> = Vec::new();
    let mut log = Vec::new();
    loop {
        let order = run.next();
        log.push((clock, order));
        match order {
            Order::Animate(lane, animation) => flying.push((clock + animation.millis, lane)),
            Order::Wait => {
                let first = (0..flying.len()).min_by_key(|&i| flying[i].0).unwrap();
                let (at, lane) = flying.remove(first);
                clock = at;
                run.completed(lane);
            }
            Order::Done => break,
            Order::Mutate | Order::PhaseEnded | Order::StageEnded => {}
        }
    }
    assert!(flying.is_empty());
    assert!(run.is_done());
    log
}

fn time_of(log: &[(u64, Order)], order: Order) -> Vec<u64> {
    log.iter().filter(|e| e.1 == order).map(|e| e.0).collect()
}

#[test]
fn empty_body_is_done_at_once() {
    let mut run = Run::new(ActionBody { stages: vec![], strike_stage: 0, strike_phase: 0 });
    assert!(run.is_done());
    assert_eq!(run.next(), Order::Done);
    assert_eq!(run.next(), Order::Done);
    assert!(!run.has_struck());
}

#[test]
fn valid_body_strikes_midway() {
    assert!(small_body().is_valid());
    let mut at_start = small_body();
    at_start.strike_phase = 0;
    assert!(!at_start.is_valid());
    let mut at_end = small_body();
    at_end.strike_phase = 2;
    assert!(!at_end.is_valid());
    let mut no_stage = small_body();
    no_stage.strike_stage = 1;
    assert!(!no_stage.is_valid());
}

#[test]
fn phase_starts_all_its_operations_before_it_waits() {
    let mut run = Run::new(small_body());
    let ops = four_unequal();
    for expected in ops {
        assert_eq!(run.next(), Order::Animate(Lane::Phase, expected));
    }
    assert_eq!(run.next(), Order::Wait);
}

#[test]
fn phase_of_four_waits_for_the_last_completion() {
    let mut run = Run::new(small_body());
    for _ in 0..4 {
        run.next();
    }
    for _ in 0..3 {
        assert_eq!(run.next(), Order::Wait);
        run.completed(Lane::Phase);
    }
    assert_eq!(run.next(), Order::Wait);
    // A completion on the other lane does not count for the phase.
    run.completed(Lane::Whole);
    assert_eq!(run.next(), Order::Wait);
    assert!(!run.has_struck());
    run.completed(Lane::Phase);
    assert_eq!(run.next(), Order::PhaseEnded);
    assert_eq!(run.next(), Order::Mutate);
    assert!(run.has_struck());
}

#[test]
fn phase_of_four_ends_with_its_slowest_operation() {
    let log = play(small_body());
    assert_eq!(time_of(&log, Order::PhaseEnded), vec![400, 450]);
    assert_eq!(time_of(&log, Order::Mutate), vec![400]);
    assert_eq!(time_of(&log, Order::Done), vec![450]);
}

#[test]
fn change_is_ordered_exactly_once() {
    let log = play(small_body());
    let orders: Vec<Order> = log.iter().map(|e| e.1).collect();
    assert_eq!(orders.iter().filter(|o| **o == Order::Mutate).count(), 1);
    let ops = four_unequal();
    assert_eq!(
        orders,
        vec![
            Order::Animate(Lane::Phase, ops[0]),
            Order::Animate(Lane::Phase, ops[1]),
            Order::Animate(Lane::Phase, ops[2]),
            Order::Animate(Lane::Phase, ops[3]),
            Order::Wait,
            Order::Wait,
            Order::Wait,
            Order::Wait,
            Order::PhaseEnded,
            Order::Mutate,
            Order::Animate(Lane::Phase, op(Part::Rotation, 50)),
            Order::Wait,
            Order::PhaseEnded,
            Order::StageEnded,
            Order::Done,
        ]
    );
}

#[test]
fn stage_waits_for_its_own_operations() {
    let body = ActionBody {
        stages: vec![
            Stage {
                whole: vec![op(Part::Position, 1000)],
                phases: vec![phase(vec![op(Part::LeftArm, 100)]), phase(vec![op(Part::LeftArm, 100)])],
            },
            Stage { whole: vec![], phases: vec![phase(vec![op(Part::Rotation, 10)])] },
        ],
        strike_stage: 0,
        strike_phase: 1,
    };
    let log = play(body);
    assert_eq!(time_of(&log, Order::PhaseEnded), vec![100, 200, 1010]);
    assert_eq!(time_of(&log, Order::Mutate), vec![100]);
    assert_eq!(time_of(&log, Order::StageEnded), vec![1000, 1010]);
    assert_eq!(time_of(&log, Order::Done), vec![1010]);
}

#[test]
fn stage_waits_for_its_phases() {
    let body = ActionBody {
        stages: vec![Stage {
            whole: vec![op(Part::Position, 100)],
            phases: vec![phase(vec![op(Part::LeftArm, 300)]), phase(vec![op(Part::LeftArm, 300)])],
        }],
        strike_stage: 0,
        strike_phase: 1,
    };
    let log = play(body);
    assert_eq!(time_of(&log, Order::StageEnded), vec![600]);
    assert_eq!(time_of(&log, Order::Mutate), vec![300]);
}

#[test]
fn completion_that_nothing_waits_for_is_ignored() {
    let mut run = Run::new(small_body());
    run.completed(Lane::Phase);
    run.completed(Lane::Whole);
    let ops = four_unequal();
    assert_eq!(run.next(), Order::Animate(Lane::Phase, ops[0]));
    run.completed(Lane::Phase);
    run.completed(Lane::Phase);
    assert_eq!(run.next(), Order::Animate(Lane::Phase, ops[1]));
}

#[test]
fn body_that_strikes_nowhere_in_reach_never_strikes() {
    let mut body = small_body();
    body.strike_stage = 3;
    assert!(!body.is_valid());
    let log = play(body);
    assert_eq!(time_of(&log, Order::Mutate), Vec::<u64>::new());
}

#[test]
fn phase_without_operations_ends_at_once() {
    let body = ActionBody {
        stages: vec![Stage { whole: vec![], phases: vec![phase(vec![]), phase(vec![]), phase(vec![])] }],
        strike_stage: 0,
        strike_phase: 1,
    };
    let mut run = Run::new(body);
    assert_eq!(run.next(), Order::PhaseEnded);
    assert_eq!(run.next(), Order::Mutate);
    assert_eq!(run.next(), Order::PhaseEnded);
    assert_eq!(run.next(), Order::PhaseEnded);
    assert_eq!(run.next(), Order::StageEnded);
    assert_eq!(run.next(), Order::Done);
}
