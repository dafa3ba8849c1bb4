use action_queue::action::Lane;
use action_queue::action::Order;
use action_queue::action::Run;
use action_queue::character::CharacterState;
use action_queue::queue::use_queue_provider;
use action_queue::queue::use_queued;
use action_queue::queue::Queue;
use action_queue::queue::SourceState;
use action_queue::queue::UseQueued;
use action_queue::skill::ice_shard::IceShard;

/// What was seen of one body: when its first operation started, when the
/// change was made, when it ended.
#[derive(Debug, PartialEq)]
struct Seen {
    source: UseQueued,
    first_start: u64,
    strike: u64,
    end: u64,
}

/// Plays every queued body against one clock. `late` is triggered as soon as
/// the clock has passed `late_at`, whatever is running then.
fn session(queue: &mut Queue, late: UseQueued, late_at: u64) -> Vec<Seen> {
    let shard = IceShard { player_idx: 0, target_idx: 1, turn: 0, is_turn_done: false };
    let mut characters = vec![CharacterState::new(), CharacterState::new()];
    let mut clock = 0u64;
    let mut late_sent = false;
    let mut seen = Vec::new();
    while let Some(source) = queue.dispatch() {
        let mut run = Run::new(IceShard::body());
        let mut flying: Vec<(u64, Lane)> = Vec::new();
        let mut first_start = None;
        let mut strike = None;
        loop {
            match run.next() {
                Order::Animate(lane, animation) => {
                    first_start.get_or_insert(clock);
                    flying.push((clock + animation.millis, lane));
                }
                Order::Mutate => {
                    assert_eq!(strike, None);
                    strike = Some(clock);
                    assert_eq!(shard.strike(&mut characters), Ok(()));
                }
                Order::Wait => {
                    let first = (0..flying.len()).min_by_key(|&i| flying[i].0).unwrap();
                    let (at, lane) = flying.remove(first);
                    clock = at;
                    run.completed(lane);
                    if !late_sent && clock >= late_at {
                        late_sent = true;
                        late.queue(queue);
                        // The trigger arrives in the middle of a body: no go-ahead.
                        assert!(!run.is_done());
                        assert_eq!(queue.dispatch(), None);
                        assert_eq!(queue.state(source), Some(SourceState::Running));
                    }
                }
                Order::PhaseEnded | Order::StageEnded => {}
                Order::Done => break,
            }
        }
        assert_eq!(queue.finish(), Some(source));
        seen.push(Seen {
            source,
            first_start: first_start.unwrap(),
            strike: strike.unwrap(),
            end: clock,
        });
    }
    let bodies = seen.len() as u32;
    assert_eq!(characters[0], CharacterState { health: 100, energy: 10 - bodies });
    assert_eq!(characters[1], CharacterState { health: 100 - bodies, energy: 10 });
    seen
}

#[test]
fn second_body_starts_after_the_first_has_ended() {
    let (mut queue, _wake) = use_queue_provider();
    let a = use_queued(&mut queue);
    let b = use_queued(&mut queue);
    // A is triggered at the start, B a moment later, while the body of A runs.
    a.queue(&mut queue);
    let seen = session(&mut queue, b, 1);
    assert_eq!(
        seen,
        vec![
            Seen { source: a, first_start: 0, strike: 1700, end: 3900 },
            Seen { source: b, first_start: 3900, strike: 5600, end: 7800 },
        ]
    );
    assert!(queue.is_idle());
}

#[test]
fn source_triggered_during_its_own_body_runs_again_afterwards() {
    let (mut queue, _wake) = use_queue_provider();
    let a = use_queued(&mut queue);
    a.queue(&mut queue);
    let seen = session(&mut queue, a, 2000);
    assert_eq!(
        seen,
        vec![
            Seen { source: a, first_start: 0, strike: 1700, end: 3900 },
            Seen { source: a, first_start: 3900, strike: 5600, end: 7800 },
        ]
    );
}
