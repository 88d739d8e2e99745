use vstd::prelude::*;

verus! {

/// Why a store operation or a command did not go through.
#[derive(Debug)]
pub enum NotesError {
    /// The database could not be reached, or refused a statement.
    Store(rusqlite::Error),
    /// No note has the id that was asked for.
    NotFound,
    /// The external editor could not be started, or ended in failure.
    Editor(String),
    /// A command met a state it cannot act on, such as a delete with
    /// nothing selected.
    InvariantViolation,
}

impl NotesError {
    /// What a call into the database comes to for the library: the value
    /// it gave, or its failure as a `Store` error.
    pub fn store<T>(outcome: Result<T, rusqlite::Error>) -> (res: Result<T, NotesError>)
        ensures
            match outcome {
                Ok(value) => res == Ok::<T, NotesError>(value),
                Err(failure) => res == Err::<T, NotesError>(NotesError::Store(failure)),
            },
    {
        match outcome {
            Ok(value) => Ok(value),
            Err(failure) => Err(NotesError::Store(failure)),
        }
    }

    /// Whether the session has to end on this error. A failing store is
    /// fatal; the other errors only end the command that met them.
    pub fn is_fatal(&self) -> (fatal: bool)
        ensures
            fatal == (self is Store),
    {
        match self {
            NotesError::Store(_) => true,
            _ => false,
        }
    }
}

} // verus!
