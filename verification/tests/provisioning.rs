//! Idempotent topic provisioning against the directory model, and the
//! interpretation of create-topic outcomes.

use taskdist::provision::{
    ensure_topic, interpret_create_outcome, topic_listed, CreateOutcome, ProvisionStatus,
    TopicDirectory,
};

#[test]
fn ensure_topic_twice_never_errors_the_second_time() {
    let mut dir = TopicDirectory::new();

    let first = ensure_topic(&mut dir, "tasks", 1);
    assert_eq!(first, ProvisionStatus::CreatedFresh);
    assert_eq!(dir.partitions_of("tasks"), Some(1));

    let second = ensure_topic(&mut dir, "tasks", 1);
    assert_eq!(second, ProvisionStatus::AlreadyPresent);
    assert_eq!(dir.partitions_of("tasks"), Some(1), "the original partition count stays");
}

#[test]
fn ensure_topic_keeps_a_preexisting_partition_count() {
    let mut dir = TopicDirectory::new();
    assert_eq!(ensure_topic(&mut dir, "tasks", 4), ProvisionStatus::CreatedFresh);

    // A later request with another count is idempotent success, not a resize.
    assert_eq!(ensure_topic(&mut dir, "tasks", 1), ProvisionStatus::AlreadyPresent);
    assert_eq!(dir.partitions_of("tasks"), Some(4));
}

#[test]
fn create_topic_reports_already_exists() {
    let mut dir = TopicDirectory::new();
    assert_eq!(dir.create_topic("tasks", 1), CreateOutcome::Created);
    assert_eq!(dir.create_topic("tasks", 1), CreateOutcome::AlreadyExists);
    assert!(dir.contains("tasks"));
    assert!(!dir.contains("other"));
}

#[test]
fn interpretation_of_create_outcomes() {
    assert_eq!(interpret_create_outcome(CreateOutcome::Created), ProvisionStatus::CreatedFresh);
    assert_eq!(
        interpret_create_outcome(CreateOutcome::AlreadyExists),
        ProvisionStatus::AlreadyPresent
    );
    assert_eq!(
        interpret_create_outcome(CreateOutcome::Failed("broker unreachable".to_string())),
        ProvisionStatus::Fatal("broker unreachable".to_string())
    );
}

#[test]
fn topic_listed_finds_the_name() {
    let names = vec!["one".to_string(), "tasks".to_string()];
    assert!(topic_listed(&names, "tasks"));
    assert!(!topic_listed(&names, "missing"));
    assert!(!topic_listed(&Vec::new(), "tasks"));
}
