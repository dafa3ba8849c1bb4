use action_queue::queue::use_queue_provider;
use action_queue::queue::use_queued;
use action_queue::queue::SourceState;
use action_queue::ui::Ui;

#[test]
fn game_starts_at_turn_zero() {
    let (mut queue, _wake) = use_queue_provider();
    let ui = Ui::new(&mut queue);
    assert_eq!(ui.turn, 0);
    assert!(!ui.is_turn_done);
    assert_eq!(queue.state(ui.on_click), Some(SourceState::Idle));
    assert!(queue.is_idle());
}

#[test]
fn end_turn_sets_the_latch_and_queues() {
    let (mut queue, _wake) = use_queue_provider();
    let mut ui = Ui::new(&mut queue);
    ui.end_turn(&mut queue);
    assert!(ui.is_turn_done);
    assert_eq!(ui.turn, 0);
    assert_eq!(queue.pending(), 1);
    assert_eq!(queue.dispatch(), Some(ui.on_click));
    ui.finish_turn();
    assert_eq!(queue.finish(), Some(ui.on_click));
    assert_eq!(ui.turn, 1);
    assert!(!ui.is_turn_done);
    assert!(queue.is_idle());
}

#[test]
fn end_turn_queues_behind_a_running_skill() {
    let (mut queue, _wake) = use_queue_provider();
    let skill = use_queued(&mut queue);
    let mut ui = Ui::new(&mut queue);
    skill.queue(&mut queue);
    assert_eq!(queue.dispatch(), Some(skill));
    ui.end_turn(&mut queue);
    // The skill's body keeps running; the turn has not moved.
    assert_eq!(queue.dispatch(), None);
    assert_eq!(queue.running(), Some(skill));
    assert_eq!(ui.turn, 0);
    assert!(ui.is_turn_done);
    assert_eq!(queue.finish(), Some(skill));
    assert_eq!(queue.dispatch(), Some(ui.on_click));
    ui.finish_turn();
    assert_eq!(queue.finish(), Some(ui.on_click));
    assert_eq!(ui.turn, 1);
    assert!(!ui.is_turn_done);
}

#[test]
fn each_end_turn_moves_the_counter_by_one() {
    let (mut queue, _wake) = use_queue_provider();
    let mut ui = Ui::new(&mut queue);
    for expected in 1..=5u32 {
        ui.end_turn(&mut queue);
        assert_eq!(queue.dispatch(), Some(ui.on_click));
        ui.finish_turn();
        queue.finish();
        assert_eq!(ui.turn, expected);
        assert!(!ui.is_turn_done);
    }
}

#[test]
fn finish_turn_clears_a_clear_latch_too() {
    let (mut queue, _wake) = use_queue_provider();
    let mut ui = Ui::new(&mut queue);
    ui.turn = u32::MAX - 1;
    ui.finish_turn();
    assert_eq!(ui.turn, u32::MAX);
    assert!(!ui.is_turn_done);
}
