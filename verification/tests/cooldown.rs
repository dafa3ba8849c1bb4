use action_queue::cooldown::SkillCooldownRecord;

#[test]
fn unused_skill_is_enabled() {
    let record = SkillCooldownRecord::new();
    assert_eq!(record.last_used, None);
    assert!(record.is_enabled(false, 0, 2));
    assert!(record.is_enabled(false, 17, 2));
    assert_eq!(record.remaining(0, 2), None);
}

#[test]
fn pending_end_of_turn_disables_every_skill() {
    let mut record = SkillCooldownRecord::new();
    assert!(!record.is_enabled(true, 0, 2));
    record.record_use(3);
    assert!(!record.is_enabled(true, 5, 2));
    assert!(record.is_enabled(false, 5, 2));
}

#[test]
fn cooldown_of_two_turns() {
    let turn = 5;
    let mut record = SkillCooldownRecord::new();
    record.record_use(turn);
    assert_eq!(record.last_used, Some(5));
    assert!(!record.is_enabled(false, turn, 2));
    assert!(!record.is_enabled(false, turn + 1, 2));
    assert!(record.is_enabled(false, turn + 2, 2));
    assert!(record.is_enabled(false, turn + 3, 2));
}

#[test]
fn remaining_counts_down_to_nothing() {
    let mut record = SkillCooldownRecord::new();
    record.record_use(5);
    assert_eq!(record.remaining(5, 2), Some(2));
    assert_eq!(record.remaining(6, 2), Some(1));
    assert_eq!(record.remaining(7, 2), None);
    assert_eq!(record.remaining(8, 2), None);
    assert_eq!(record.remaining(5, 255), Some(255));
    assert_eq!(record.remaining(200, 255), Some(60));
}

#[test]
fn cooldown_of_zero_turns_never_disables() {
    let mut record = SkillCooldownRecord::new();
    record.record_use(9);
    assert!(record.is_enabled(false, 9, 0));
    assert_eq!(record.remaining(9, 0), None);
}

#[test]
fn cooldown_near_the_last_turn_does_not_wrap() {
    let mut record = SkillCooldownRecord::new();
    record.record_use(u32::MAX - 1);
    assert!(!record.is_enabled(false, u32::MAX - 1, 2));
    assert!(!record.is_enabled(false, u32::MAX, 2));
    assert_eq!(record.remaining(u32::MAX - 1, 2), Some(2));
    assert_eq!(record.remaining(u32::MAX, 2), Some(1));
}

#[test]
fn skills_cool_down_independently() {
    let mut first = SkillCooldownRecord::new();
    let mut second = SkillCooldownRecord::new();
    first.record_use(4);
    assert!(!first.is_enabled(false, 5, 2));
    assert!(second.is_enabled(false, 5, 2));
    second.record_use(5);
    assert!(first.is_enabled(false, 6, 2));
    assert!(!second.is_enabled(false, 6, 2));
    assert_eq!(first.remaining(5, 2), Some(1));
    assert_eq!(second.remaining(5, 2), Some(2));
}

#[test]
fn a_later_use_restarts_the_cooldown() {
    let mut record = SkillCooldownRecord::new();
    record.record_use(1);
    record.record_use(3);
    assert_eq!(record.last_used, Some(3));
    assert!(!record.is_enabled(false, 4, 2));
    assert!(record.is_enabled(false, 5, 2));
}
