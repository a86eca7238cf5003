use file_bridge::bridge::FileBridge;
use file_bridge::outcome::DialogOutcome;

#[test]
fn save_as_then_open_round_trips_the_bytes() {
    let mut b = FileBridge::new();
    let data = vec![1u8, 2, 3, 4, 5];
    let r = b.save_database_as(DialogOutcome::Chosen("/tmp/a.db".to_owned()), data.clone());
    assert!(r.success);
    let opened = b.open_database(DialogOutcome::Chosen("/tmp/a.db".to_owned()));
    assert_eq!(opened, Ok(data));
    assert_eq!(
        b.get_current_db_path().path,
        Some("/tmp/a.db".to_owned())
    );
}

#[test]
fn round_trips_the_empty_buffer_too() {
    let mut b = FileBridge::new();
    let r = b.save_database_as(DialogOutcome::Chosen("/tmp/empty.db".to_owned()), vec![]);
    assert!(r.success);
    let opened = b.open_database(DialogOutcome::Chosen("/tmp/empty.db".to_owned()));
    assert_eq!(opened, Ok(vec![]));
}

#[test]
fn save_before_any_save_as_fails_and_writes_nothing() {
    let mut b = FileBridge::new();
    let r = b.save_database(vec![9u8, 9, 9]);
    assert!(!r.success);
    assert_eq!(r.path, None);
    assert_eq!(
        r.error,
        Some("No database path set. Use 'Save As' first.".to_owned())
    );
    assert!(!b.check_db_exists());
    assert_eq!(b.get_current_db_path().path, None);
}

#[test]
fn save_after_save_as_writes_to_the_path_of_record() {
    let mut b = FileBridge::new();
    b.save_database_as(DialogOutcome::Chosen("/tmp/a.db".to_owned()), vec![1u8]);
    let r = b.save_database(vec![2u8, 2]);
    assert!(r.success);
    assert_eq!(r.path, Some("/tmp/a.db".to_owned()));
    let opened = b.open_database(DialogOutcome::Chosen("/tmp/a.db".to_owned()));
    assert_eq!(opened, Ok(vec![2u8, 2]));
}

#[test]
fn a_second_save_as_overwrites_in_full() {
    let mut b = FileBridge::new();
    b.save_database_as(DialogOutcome::Chosen("/tmp/a.db".to_owned()), vec![1u8, 1, 1, 1]);
    b.save_database_as(DialogOutcome::Chosen("/tmp/a.db".to_owned()), vec![7u8]);
    let opened = b.open_database(DialogOutcome::Chosen("/tmp/a.db".to_owned()));
    assert_eq!(opened, Ok(vec![7u8]));
}

#[test]
fn export_never_touches_the_path_of_record() {
    let mut b = FileBridge::new();
    let r = b.export_database(DialogOutcome::Chosen("/tmp/copy.db".to_owned()), vec![5u8]);
    assert!(r.success);
    assert_eq!(b.get_current_db_path().path, None);

    b.save_database_as(DialogOutcome::Chosen("/tmp/a.db".to_owned()), vec![1u8]);
    let r2 = b.export_database(DialogOutcome::Chosen("/tmp/other.db".to_owned()), vec![6u8]);
    assert!(r2.success);
    assert_eq!(b.get_current_db_path().path, Some("/tmp/a.db".to_owned()));

    let r3 = b.export_database(DialogOutcome::Cancelled, vec![6u8]);
    assert!(!r3.success);
    assert_eq!(b.get_current_db_path().path, Some("/tmp/a.db".to_owned()));
}

#[test]
fn exported_copy_can_be_opened_and_changes_the_path_of_record_only_then() {
    let mut b = FileBridge::new();
    b.save_database_as(DialogOutcome::Chosen("/tmp/a.db".to_owned()), vec![1u8, 2]);
    b.export_database(DialogOutcome::Chosen("/tmp/copy.db".to_owned()), vec![1u8, 2]);
    let opened = b.open_database(DialogOutcome::Chosen("/tmp/copy.db".to_owned()));
    assert_eq!(opened, Ok(vec![1u8, 2]));
    assert_eq!(b.get_current_db_path().path, Some("/tmp/copy.db".to_owned()));
}

#[test]
fn check_db_exists_follows_the_file_lifecycle() {
    let mut b = FileBridge::new();
    assert!(!b.check_db_exists());
    b.save_database_as(DialogOutcome::Chosen("/tmp/a.db".to_owned()), vec![1u8]);
    assert!(b.check_db_exists());
    b.delete_file("/tmp/a.db".to_owned());
    assert!(!b.check_db_exists());
}

#[test]
fn open_of_a_missing_file_keeps_the_session() {
    let mut b = FileBridge::new();
    b.save_database_as(DialogOutcome::Chosen("/tmp/a.db".to_owned()), vec![1u8]);
    let opened = b.open_database(DialogOutcome::Chosen("/tmp/nowhere.db".to_owned()));
    assert_eq!(
        opened,
        Err("Failed to read file: file not found".to_owned())
    );
    assert_eq!(b.get_current_db_path().path, Some("/tmp/a.db".to_owned()));
}

#[test]
fn cancellation_leaves_the_bridge_unchanged() {
    let mut b = FileBridge::new();
    b.save_database_as(DialogOutcome::Chosen("/tmp/a.db".to_owned()), vec![1u8]);

    let r = b.save_database_as(DialogOutcome::Cancelled, vec![9u8]);
    assert_eq!(r.error, Some("Save cancelled".to_owned()));
    let r2 = b.open_database(DialogOutcome::Cancelled);
    assert_eq!(r2, Err("Open cancelled".to_owned()));
    let r3 = b.export_database(DialogOutcome::Cancelled, vec![9u8]);
    assert_eq!(r3.error, Some("Export cancelled".to_owned()));

    assert_eq!(b.get_current_db_path().path, Some("/tmp/a.db".to_owned()));
    let opened = b.open_database(DialogOutcome::Chosen("/tmp/a.db".to_owned()));
    assert_eq!(opened, Ok(vec![1u8]));
}
