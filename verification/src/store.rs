//! Flat-file persistence of the note collection.
//!
//! The note collection is one serialized blob in a `notes.json` file under
//! the application-private data directory. It is read and replaced wholesale.
//! The directory and file are modelled by what the rules read of them:
//! whether the directory exists or can be created, whether the file can be
//! read and written, and the file's content when present. The host performs
//! the file-system calls these decisions call for.

use vstd::prelude::*;
use crate::errors::CoordinatorError;

verus! {

/// The serialized form of an empty note collection.
pub open spec fn empty_collection() -> Seq<char> {
    "[]"@
}

/// The mathematical state of the application data directory.
pub struct StoreModel {
    /// The data directory exists.
    pub dir_exists: bool,
    /// The data directory could be created if absent.
    pub dir_creatable: bool,
    /// An existing notes file could be read.
    pub file_readable: bool,
    /// The notes file could be written.
    pub file_writable: bool,
    /// The notes file's content, when the file exists.
    pub notes_file: Option<Seq<char>>,
}

/// Whether the data directory exists or can be brought into existence.
pub open spec fn dir_available(m: StoreModel) -> bool {
    m.dir_exists || m.dir_creatable
}

/// How reading changes the directory: at most it creates the directory; it
/// never creates or alters the notes file.
pub open spec fn read_step(m: StoreModel) -> StoreModel {
    if dir_available(m) {
        StoreModel { dir_exists: true, ..m }
    } else {
        m
    }
}

/// What reading the collection returns: the file's content when it exists
/// and can be read, the empty collection when there is no file, and an I/O
/// error when the directory cannot be created or the file cannot be read.
pub open spec fn read_result(m: StoreModel) -> Result<Seq<char>, CoordinatorError> {
    if !dir_available(m) {
        Err(CoordinatorError::IoError)
    } else {
        match m.notes_file {
            None => Ok(empty_collection()),
            Some(content) => if m.file_readable {
                Ok(content)
            } else {
                Err(CoordinatorError::IoError)
            },
        }
    }
}

/// How writing the collection changes the directory: the directory is
/// brought into existence, and on success the file holds exactly the written
/// blob.
pub open spec fn write_step(m: StoreModel, notes: Seq<char>) -> StoreModel {
    if !dir_available(m) {
        m
    } else if m.file_writable {
        StoreModel { dir_exists: true, notes_file: Some(notes), ..m }
    } else {
        StoreModel { dir_exists: true, ..m }
    }
}

/// What writing the collection reports: an I/O error when the directory
/// cannot be created or the file cannot be written, success otherwise.
pub open spec fn write_result(m: StoreModel) -> Result<(), CoordinatorError> {
    if !dir_available(m) || !m.file_writable {
        Err(CoordinatorError::IoError)
    } else {
        Ok(())
    }
}

/// The application data directory the note store works against.
pub struct DataDir {
    /// The data directory exists.
    pub dir_exists: bool,
    /// The data directory could be created if absent.
    pub dir_creatable: bool,
    /// An existing notes file could be read.
    pub file_readable: bool,
    /// The notes file could be written.
    pub file_writable: bool,
    /// The notes file's content, when the file exists.
    pub notes_file: Option<String>,
}

impl View for DataDir {
    type V = StoreModel;

    open spec fn view(&self) -> StoreModel {
        StoreModel {
            dir_exists: self.dir_exists,
            dir_creatable: self.dir_creatable,
            file_readable: self.file_readable,
            file_writable: self.file_writable,
            notes_file: match self.notes_file {
                Some(s) => Some(s@),
                None => None,
            },
        }
    }
}

impl DataDir {
    /// A fresh, fully accessible data directory that was never written: no
    /// directory on disk yet and no notes file.
    pub fn fresh() -> (r: DataDir)
        ensures
            r@ == (StoreModel {
                dir_exists: false,
                dir_creatable: true,
                file_readable: true,
                file_writable: true,
                notes_file: None,
            }),
    {
        DataDir {
            dir_exists: false,
            dir_creatable: true,
            file_readable: true,
            file_writable: true,
            notes_file: None,
        }
    }

    /// Reads the whole note collection: creates the data directory if
    /// absent, returns the file's content when it exists, and returns the
    /// empty collection — without creating the file — when it does not.
    pub fn read_all(&mut self) -> (r: Result<String, CoordinatorError>)
        ensures
            final(self)@ == read_step(old(self)@),
            (match r {
                Ok(s) => read_result(old(self)@) == Ok::<Seq<char>, CoordinatorError>(s@),
                Err(e) => read_result(old(self)@) == Err::<Seq<char>, CoordinatorError>(e),
            }),
    {
        if !self.dir_exists {
            if !self.dir_creatable {
                return Err(CoordinatorError::IoError);
            }
            self.dir_exists = true;
        }
        match &self.notes_file {
            None => Ok(String::from_str("[]")),
            Some(content) => {
                if self.file_readable {
                    Ok(content.clone())
                } else {
                    Err(CoordinatorError::IoError)
                }
            },
        }
    }

    /// Replaces the whole note collection: creates the data directory if
    /// absent, then overwrites the notes file with the given blob.
    pub fn write_all(&mut self, notes: String) -> (r: Result<(), CoordinatorError>)
        ensures
            final(self)@ == write_step(old(self)@, notes@),
            r == write_result(old(self)@),
    {
        if !self.dir_exists {
            if !self.dir_creatable {
                return Err(CoordinatorError::IoError);
            }
            self.dir_exists = true;
        }
        if !self.file_writable {
            return Err(CoordinatorError::IoError);
        }
        self.notes_file = Some(notes);
        Ok(())
    }
}

/// Round-trip law: writing a collection is idempotent — a second write of
/// the same blob changes nothing — and once written, every read returns
/// exactly the written collection, however often it is repeated, since
/// reading never changes the directory it finds.
pub proof fn lemma_write_read_round_trip(m: StoreModel, notes: Seq<char>)
    requires
        write_result(m) is Ok,
        m.file_readable,
    ensures
        write_step(write_step(m, notes), notes) == write_step(m, notes),
        read_result(write_step(m, notes)) == Ok::<Seq<char>, CoordinatorError>(notes),
        read_step(write_step(m, notes)) == write_step(m, notes),
{
}

/// A fresh data directory reads as the empty collection, and the read leaves
/// no notes file behind.
pub proof fn lemma_read_fresh_is_empty(m: StoreModel)
    requires
        m.notes_file is None,
        dir_available(m),
    ensures
        read_result(m) == Ok::<Seq<char>, CoordinatorError>(empty_collection()),
        read_step(m).notes_file is None,
{
}

} // verus!
