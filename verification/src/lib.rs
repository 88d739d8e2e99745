//! An interactive note-taking session: the state of the screen, the rules
//! by which key presses change it, the pacing of the input poller, and the
//! SQLite store the notes are kept in.

use vstd::prelude::*;

pub mod app;
pub mod error;
pub mod handler;
pub mod key;
pub mod poller;
pub mod repository;
pub mod service;
pub mod sqlite;
pub mod text;

pub use app::{App, AppState};
pub use error::NotesError;
pub use handler::{AppHandler, Event, LoopStep};
pub use key::{KeyCode, KeyEvent};
pub use poller::Poller;
pub use repository::{Note, Repository};
pub use service::NoteService;

verus! {

/// Opens the notes database in the working directory, makes sure its
/// table exists, and starts a session on the home screen.
pub fn get_handler() -> (res: Result<AppHandler, NotesError>)
    ensures
        match res {
            Ok(handler) => handler.inv() && handler@ == app::AppView::initial(),
            Err(e) => e is Store,
        },
{
    let db = match Repository::new("./notes.db") {
        Ok(db) => db,
        Err(e) => { return Err(e); },
    };
    match db.initialize_db() {
        Ok(()) => {},
        Err(e) => { return Err(e); },
    }
    let app = App::new();
    Ok(AppHandler::new(app, db))
}

/// Opens the notes database in the working directory for a front end that
/// only uses the store.
pub fn get_note_service() -> (res: Result<NoteService, NotesError>)
    ensures
        res matches Err(e) ==> e is Store,
{
    NoteService::new("./notes.db")
}

} // verus!
