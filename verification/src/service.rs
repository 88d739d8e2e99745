use vstd::prelude::*;
use crate::error::NotesError;
use crate::repository::{Note, Repository, is_database_id};

verus! {

/// The store as other front ends use it.
pub struct NoteService {
    repository: Repository,
}

impl NoteService {
    /// Opens the database at `db_path`, creating the file if there is none.
    pub fn new(db_path: &str) -> (res: Result<NoteService, NotesError>)
        ensures
            db_path@.contains('\0') ==> res is Err,
            res matches Err(e) ==> e is Store,
    {
        match Repository::new(db_path) {
            Ok(repository) => Ok(NoteService { repository }),
            Err(e) => Err(e),
        }
    }

    /// Creates the notes table unless it is there already.
    pub fn initialize_notes_service(&self) -> (res: Result<(), NotesError>)
        ensures
            res matches Err(e) ==> e is Store,
    {
        self.repository.initialize_db()
    }

    /// Stores all of `notes`, or none of them.
    pub fn create_notes(&mut self, notes: Vec<Note>) -> (res: Result<(), NotesError>)
        ensures
            res matches Err(e) ==> e is Store,
    {
        self.repository.add(notes)
    }

    pub fn list_all_notes(&self) -> (res: Result<Vec<Note>, NotesError>)
        ensures
            res matches Err(e) ==> e is Store,
    {
        self.repository.get_notes()
    }

    /// Reads the note with the given id; an id that is no database
    /// integer is `NotFound`.
    pub fn fetch_note_by_id(&self, note_id: usize) -> (res: Result<Note, NotesError>)
        ensures
            !is_database_id(note_id) ==> res == Err::<Note, NotesError>(NotesError::NotFound),
            res matches Err(e) ==> e is Store || e is NotFound,
    {
        self.repository.get_note(note_id)
    }

    /// Reserved for editing a note in place. It does nothing yet, and
    /// always succeeds.
    pub fn update_note(&self, note_id: usize, new_note: Note) -> (res: Result<(), NotesError>)
        ensures
            res is Ok,
    {
        self.repository.update(note_id, new_note)
    }

    /// Removes the note with the given id and returns what it held; an id
    /// that is no database integer is `NotFound`.
    pub fn delete_note(&self, note_id: usize) -> (res: Result<Note, NotesError>)
        ensures
            !is_database_id(note_id) ==> res == Err::<Note, NotesError>(NotesError::NotFound),
            res matches Err(e) ==> e is Store || e is NotFound,
    {
        self.repository.delete(note_id)
    }
}

} // verus!
