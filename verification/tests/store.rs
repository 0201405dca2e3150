use note_coordinator::errors::CoordinatorError;
use note_coordinator::store::DataDir;

#[test]
fn fresh_read_returns_empty_and_creates_no_file() {
    let mut dir = DataDir::fresh();
    let r = dir.read_all();
    assert_eq!(r, Ok(String::from("[]")));
    assert!(dir.dir_exists);
    assert_eq!(dir.notes_file, None);
    let again = dir.read_all();
    assert_eq!(again, Ok(String::from("[]")));
    assert_eq!(dir.notes_file, None);
}

#[test]
fn write_twice_then_three_reads_round_trip() {
    let notes = String::from("[{\"title\":\"a\"},{\"title\":\"b\"}]");
    let mut dir = DataDir::fresh();
    assert_eq!(dir.write_all(notes.clone()), Ok(()));
    assert_eq!(dir.write_all(notes.clone()), Ok(()));
    assert_eq!(dir.read_all(), Ok(notes.clone()));
    assert_eq!(dir.read_all(), Ok(notes.clone()));
    assert_eq!(dir.read_all(), Ok(notes.clone()));
    assert_eq!(dir.notes_file, Some(notes));
}

#[test]
fn write_replaces_whole_collection() {
    let mut dir = DataDir::fresh();
    assert_eq!(dir.write_all(String::from("[1]")), Ok(()));
    assert_eq!(dir.write_all(String::from("[2]")), Ok(()));
    assert_eq!(dir.read_all(), Ok(String::from("[2]")));
}

#[test]
fn read_fails_when_directory_cannot_be_created() {
    let mut dir = DataDir::fresh();
    dir.dir_creatable = false;
    assert_eq!(dir.read_all(), Err(CoordinatorError::IoError));
    assert!(!dir.dir_exists);
}

#[test]
fn read_fails_when_existing_file_is_unreadable() {
    let mut dir = DataDir::fresh();
    assert_eq!(dir.write_all(String::from("[]")), Ok(()));
    dir.file_readable = false;
    assert_eq!(dir.read_all(), Err(CoordinatorError::IoError));
}

#[test]
fn write_fails_when_file_is_unwritable() {
    let mut dir = DataDir::fresh();
    dir.file_writable = false;
    assert_eq!(dir.write_all(String::from("[]")), Err(CoordinatorError::IoError));
    assert_eq!(dir.notes_file, None);
}
