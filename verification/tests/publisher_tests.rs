use rusty_vinnie::publisher::{
    outcome_commits, plan_publish, publish_step, DeliveryOutcome, PublishEvent, PublishState,
};

#[test]
fn short_body_has_no_overflow() {
    let plan = plan_publish("a short announcement", 1000, 4096);
    assert_eq!(plan.summary, "a short announcement");
    assert!(plan.overflow.is_empty());
    assert_eq!(plan.word_count, 3);
}

#[test]
fn long_body_is_truncated_and_split() {
    let body: String = "C".repeat(5000);
    let plan = plan_publish(&body, 1000, 4096);
    assert_eq!(plan.summary.chars().count(), 1000);
    assert_eq!(plan.summary, "C".repeat(1000));
    assert_eq!(plan.overflow.len(), 2);
    assert_eq!(plan.overflow[0].chars().count(), 4096);
    assert_eq!(plan.overflow[1].chars().count(), 904);
}

#[test]
fn word_count_follows_the_body() {
    let plan = plan_publish("Faster than a Zerg rush, StarCraft storms into Sanctuary", 100, 4096);
    assert_eq!(plan.word_count, 9);
    let empty = plan_publish("", 100, 4096);
    assert_eq!(empty.word_count, 0);
}

#[test]
fn failed_primary_send_aborts_without_commit() {
    let state = PublishState::SendingPrimary;
    let next = publish_step(&state, PublishEvent::Failed, 3);
    assert_eq!(next, PublishState::Done { outcome: DeliveryOutcome::PrimaryFailed });
    assert!(!outcome_commits(&DeliveryOutcome::PrimaryFailed));
    assert!(outcome_commits(&DeliveryOutcome::Delivered));
}

#[test]
fn no_overflow_means_delivered_after_primary() {
    let next = publish_step(&PublishState::SendingPrimary, PublishEvent::Succeeded, 0);
    assert_eq!(next, PublishState::Done { outcome: DeliveryOutcome::Delivered });
}

#[test]
fn failed_thread_creation_is_lossy_but_delivered() {
    let next = publish_step(&PublishState::SendingPrimary, PublishEvent::Succeeded, 2);
    assert_eq!(next, PublishState::CreatingThread);
    let next = publish_step(&next, PublishEvent::Failed, 2);
    assert_eq!(next, PublishState::Done { outcome: DeliveryOutcome::Delivered });
}

#[test]
fn chunk_failure_does_not_block_later_chunks() {
    // Three chunks, the middle send fails: the walk still reaches chunk 2
    // and the item ends delivered.
    let mut state = publish_step(&PublishState::SendingPrimary, PublishEvent::Succeeded, 3);
    state = publish_step(&state, PublishEvent::Succeeded, 3); // thread created
    assert_eq!(state, PublishState::SendingChunk { index: 0 });
    state = publish_step(&state, PublishEvent::Succeeded, 3);
    assert_eq!(state, PublishState::SendingChunk { index: 1 });
    state = publish_step(&state, PublishEvent::Failed, 3); // chunk 1 fails
    assert_eq!(state, PublishState::SendingChunk { index: 2 });
    state = publish_step(&state, PublishEvent::Failed, 3);
    assert_eq!(state, PublishState::Done { outcome: DeliveryOutcome::Delivered });
}

#[test]
fn done_state_is_terminal() {
    let done = PublishState::Done { outcome: DeliveryOutcome::PrimaryFailed };
    assert_eq!(publish_step(&done, PublishEvent::Succeeded, 5), done);
}
