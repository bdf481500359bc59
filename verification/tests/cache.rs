use token_metadata::cache::{ReadOutcome, WriteOutcome};

#[test]
fn found_text_is_the_entry() {
    assert_eq!(
        ReadOutcome::Found(String::from("{\"name\":\"Dai\"}")).entry(),
        Some(String::from("{\"name\":\"Dai\"}"))
    );
    assert_eq!(ReadOutcome::Found(String::new()).entry(), Some(String::new()));
}

#[test]
fn unreachable_store_is_a_miss() {
    assert_eq!(ReadOutcome::Unreachable.entry(), None);
}

#[test]
fn failed_read_is_a_miss() {
    assert_eq!(ReadOutcome::Failed.entry(), None);
}

#[test]
fn write_is_stored_where_the_store_says_so() {
    assert!(WriteOutcome::Answered(true).stored());
    assert!(!WriteOutcome::Answered(false).stored());
}

#[test]
fn unreachable_store_stores_nothing() {
    assert!(!WriteOutcome::Unreachable.stored());
}

#[test]
fn failed_write_stores_nothing() {
    assert!(!WriteOutcome::Failed.stored());
}
