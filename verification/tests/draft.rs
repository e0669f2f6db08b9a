use shadowrocket::draft::ConfigDraft;

#[derive(Debug, Clone, PartialEq)]
struct Ports {
    mixed_port: u16,
}

#[test]
fn discard_leaves_latest_unchanged() {
    let mut store = ConfigDraft::new(Ports { mixed_port: 7890 });
    store.draft().mixed_port = 7891;
    store.draft().mixed_port = 7892;
    assert_eq!(store.latest().mixed_port, 7890);
    assert!(store.has_draft());
    assert_eq!(store.pending(), Some(&Ports { mixed_port: 7892 }));
    assert_eq!(store.discard(), Some(Ports { mixed_port: 7892 }));
    assert_eq!(store.latest().mixed_port, 7890);
    assert!(!store.has_draft());
}

#[test]
fn apply_commits_the_last_pending_value() {
    let mut store = ConfigDraft::new(Ports { mixed_port: 7890 });
    store.draft().mixed_port = 7891;
    store.draft().mixed_port = 7893;
    assert_eq!(store.apply(), Some(Ports { mixed_port: 7890 }));
    assert_eq!(store.latest(), &Ports { mixed_port: 7893 });
    assert!(!store.has_draft());
}

#[test]
fn second_draft_reuses_the_pending_copy() {
    let mut store = ConfigDraft::new(Ports { mixed_port: 1 });
    store.draft().mixed_port = 2;
    assert_eq!(store.draft().mixed_port, 2);
    *store.draft() = Ports { mixed_port: store.draft().mixed_port + 1 };
    assert_eq!(store.draft().mixed_port, 3);
    assert_eq!(store.latest().mixed_port, 1);
}

#[test]
fn apply_and_discard_without_draft_do_nothing() {
    let mut store = ConfigDraft::new(String::from("committed"));
    assert_eq!(store.apply(), None);
    assert_eq!(store.discard(), None);
    assert_eq!(store.latest(), "committed");
    assert!(!store.has_draft());
    assert_eq!(store.pending(), None);
}

#[test]
fn draft_starts_as_a_copy_of_the_committed_value() {
    let mut store = ConfigDraft::new(vec![1u8, 2, 3]);
    assert_eq!(store.draft(), &vec![1u8, 2, 3]);
    store.draft().push(4);
    assert_eq!(store.latest(), &vec![1u8, 2, 3]);
    store.apply();
    assert_eq!(store.latest(), &vec![1u8, 2, 3, 4]);
}

#[test]
fn two_stores_commit_and_roll_back_independently() {
    let mut settings = ConfigDraft::new(1u32);
    let mut runtime = ConfigDraft::new(10u32);
    *settings.draft() = 2;
    *runtime.draft() = 20;
    runtime.discard();
    settings.apply();
    assert_eq!(*settings.latest(), 2);
    assert_eq!(*runtime.latest(), 10);
}

#[test]
fn failed_validation_discards_the_drafted_port() {
    let mut config = ConfigDraft::new(Ports { mixed_port: 7890 });
    config.draft().mixed_port = 7891;
    let validation_passed = false;
    if validation_passed {
        config.apply();
    } else {
        config.discard();
    }
    assert_eq!(config.latest().mixed_port, 7890);
}
