use vstd::prelude::*;
use crate::app::{App, AppState, AppView, Move};
use crate::error::NotesError;
use crate::key::{KeyCode, KeyEvent};
use crate::repository::{Note, NoteView, Repository};

verus! {

/// What the input pipeline delivers: a key press, or the periodic tick.
pub enum Event<T> {
    Input(T),
    Tick,
}

/// What the foreground loop is to do once a frame is drawn.
#[derive(Clone, Copy, Debug, PartialEq, Eq)]
pub enum LoopStep {
    /// Leave the loop: the session has been asked to end.
    Exit,
    /// Hand the terminal to the editor, then end the session of the editor
    /// with [`AppHandler::handle_edit`].
    EditorSession,
    /// Wait for the next event and hand it to [`AppHandler::handle_event`].
    AwaitEvent,
}

/// What a key asks for, once the screen it was pressed on is known.
pub enum Command {
    Quit,
    GoHome,
    OpenNotes,
    NewNote,
    DeleteSelected,
    Next,
    Previous,
    Type(char),
    Erase,
    Cancel,
    BeginBody,
    Nothing,
}

/// How an event is read on every screen but the one for a new note.
/// "Delete" is only read on the notes screen.
pub open spec fn normal_command(state: AppState, event: Event<KeyEvent>) -> Command {
    match event {
        Event::Input(key) => match key.code {
            KeyCode::Char(c) => if c == 'q' {
                Command::Quit
            } else if c == 'h' {
                Command::GoHome
            } else if c == 'n' {
                Command::OpenNotes
            } else if c == 'a' {
                Command::NewNote
            } else if c == 'd' && state == AppState::Note {
                Command::DeleteSelected
            } else {
                Command::Nothing
            },
            KeyCode::Down => Command::Next,
            KeyCode::Up => Command::Previous,
            _ => Command::Nothing,
        },
        Event::Tick => Command::Nothing,
    }
}

/// How an event is read while a title is typed: a character with Control
/// starts the entry of the body, any other character joins the title.
pub open spec fn adding_command(event: Event<KeyEvent>) -> Command {
    match event {
        Event::Input(key) => match key.code {
            KeyCode::Char(c) => if key.control {
                Command::BeginBody
            } else {
                Command::Type(c)
            },
            KeyCode::Backspace => Command::Erase,
            KeyCode::Esc => Command::Cancel,
            _ => Command::Nothing,
        },
        Event::Tick => Command::Nothing,
    }
}

/// How an event is read on the given screen.
pub open spec fn command_of(state: AppState, event: Event<KeyEvent>) -> Command {
    if state == AppState::Add {
        adding_command(event)
    } else {
        normal_command(state, event)
    }
}

impl AppView {
    /// What a command does to the state before the store is asked anything.
    /// For "open notes" this is the change of screen; "delete" changes
    /// nothing by itself.
    pub open spec fn applied(self, command: Command) -> AppView {
        match command {
            Command::Quit => AppView { exit_requested: true, ..self },
            Command::GoHome => AppView { state: AppState::Home, ..self },
            Command::OpenNotes => AppView { state: AppState::Note, ..self },
            Command::NewNote => AppView {
                state: AppState::Add,
                draft_title: Seq::empty(),
                ..self
            },
            Command::DeleteSelected => self,
            Command::Next => self.moved(Move::Next),
            Command::Previous => self.moved(Move::Previous),
            Command::Type(c) => AppView { draft_title: self.draft_title.push(c), ..self },
            Command::Erase => AppView {
                draft_title: if self.draft_title.len() > 0 {
                    self.draft_title.drop_last()
                } else {
                    self.draft_title
                },
                ..self
            },
            Command::Cancel => AppView {
                state: AppState::Home,
                draft_title: Seq::empty(),
                ..self
            },
            Command::BeginBody => AppView { editor_active: true, ..self },
            Command::Nothing => self,
        }
    }

    /// What the foreground loop does in this state. A request to end comes
    /// before everything else, and no event is awaited while the editor is
    /// open.
    pub open spec fn next_step(self) -> LoopStep {
        if self.exit_requested {
            LoopStep::Exit
        } else if self.editor_active {
            LoopStep::EditorSession
        } else {
            LoopStep::AwaitEvent
        }
    }

    /// The state in which an editor session ends: on the notes screen, the
    /// editor closed and the title buffer empty.
    pub open spec fn editing_ended(self) -> AppView {
        AppView {
            state: AppState::Note,
            editor_active: false,
            draft_title: Seq::empty(),
            ..self
        }
    }
}

/// A snapshot refresh either installs what the store listed, or fails on
/// the store and leaves the state as it was.
pub open spec fn refresh_outcome(before: AppView, after: AppView, res: Result<(), NotesError>) -> bool {
    match res {
        Ok(()) => exists|listed: Seq<NoteView>| after == #[trigger] before.refreshed(listed),
        Err(e) => e is Store && after == before,
    }
}

/// A move of the selection needs a loaded snapshot; without one it is
/// refused and changes nothing.
pub open spec fn move_outcome(before: AppView, step: Move, after: AppView, res: Result<(), NotesError>) -> bool {
    &&& after == before.moved(step)
    &&& before.notes is Some ==> res is Ok
    &&& before.notes is None ==> res == Err::<(), NotesError>(NotesError::InvariantViolation)
}

/// A delete needs a selected note that the store knows by an id; without
/// one it is refused and changes nothing. Otherwise the state is what a
/// snapshot refresh makes of it, or unchanged where the store fails.
pub open spec fn delete_outcome(before: AppView, after: AppView, res: Result<(), NotesError>) -> bool {
    if before.selected_id() is None {
        res == Err::<(), NotesError>(NotesError::InvariantViolation) && after == before
    } else {
        refresh_outcome(before, after, res)
    }
}

/// What the end of an editor session leaves behind. The session always
/// ends on the notes screen with the editor closed and the title buffer
/// empty, with the snapshot read anew where the store could list it. A
/// failure of the editor is handed on as it is; with text from the editor,
/// success means that the store took the note and listed its notes, and
/// the only failure is one of the store.
pub open spec fn edit_outcome(
    before: AppView,
    edited: Result<String, String>,
    after: AppView,
    res: Result<(), NotesError>,
) -> bool {
    let ended = before.editing_ended();
    let relisted = exists|listed: Seq<NoteView>| after == #[trigger] ended.refreshed(listed);
    &&& after == ended || relisted
    &&& match edited {
        Err(message) => res == Err::<(), NotesError>(NotesError::Editor(message)),
        Ok(_) => match res {
            Ok(()) => relisted,
            Err(e) => e is Store,
        },
    }
}

/// What a command leaves behind, for every answer the store may give.
pub open spec fn command_outcome(before: AppView, command: Command, after: AppView, res: Result<(), NotesError>) -> bool {
    match command {
        Command::OpenNotes => match res {
            Ok(()) => refresh_outcome(before.applied(command), after, res),
            Err(e) => e is Store && after == before.applied(command),
        },
        Command::DeleteSelected => delete_outcome(before, after, res),
        Command::Next => move_outcome(before, Move::Next, after, res),
        Command::Previous => move_outcome(before, Move::Previous, after, res),
        _ => res is Ok && after == before.applied(command),
    }
}

/// The command processor: the session state, and the store it reads and
/// writes.
pub struct AppHandler {
    app: App,
    db: Repository,
}

impl View for AppHandler {
    type V = AppView;

    closed spec fn view(&self) -> AppView {
        self.app@
    }
}

impl AppHandler {
    /// The invariant of the session: the selection is in bounds.
    pub open spec fn inv(&self) -> bool {
        self@.selection_in_bounds()
    }

    pub fn new(app: App, db: Repository) -> (handler: AppHandler)
        requires
            app.inv(),
        ensures
            handler@ == app@,
            handler.inv(),
    {
        AppHandler { app, db }
    }

    /// The session state, to read.
    pub fn app(&self) -> (app: &App)
        ensures
            app@ == self@,
    {
        &self.app
    }

    /// Replaces the snapshot by what the store lists now.
    pub fn set_notes(&mut self) -> (res: Result<(), NotesError>)
        ensures
            refresh_outcome(old(self)@, final(self)@, res),
            res is Ok ==> final(self).inv(),
    {
        match self.db.get_notes() {
            Ok(listed) => {
                self.app.set_notes(listed);
                Ok(())
            },
            Err(e) => Err(e),
        }
    }

    pub fn should_exit(&self) -> (exit: bool)
        ensures
            exit == self@.exit_requested,
    {
        self.app.should_exit
    }

    pub fn is_editor_mode(&self) -> (editing: bool)
        ensures
            editing == self@.editor_active,
    {
        self.app.editor_mode
    }

    /// What the foreground loop is to do next.
    pub fn next_step(&self) -> (step: LoopStep)
        ensures
            step == self@.next_step(),
    {
        if self.app.should_exit {
            LoopStep::Exit
        } else if self.app.editor_mode {
            LoopStep::EditorSession
        } else {
            LoopStep::AwaitEvent
        }
    }

    /// Takes one event. While the editor is open, or once the session has
    /// been asked to end, the event is dropped and nothing changes.
    /// Otherwise it is read as a command of the current screen and carried
    /// out.
    pub fn handle_event(&mut self, event: Event<KeyEvent>) -> (res: Result<(), NotesError>)
        requires
            old(self).inv(),
        ensures
            final(self).inv(),
            old(self)@.exit_requested ==> final(self)@.exit_requested,
            old(self)@.editor_active || old(self)@.exit_requested ==> res is Ok && final(self)@
                == old(self)@,
            !old(self)@.editor_active && !old(self)@.exit_requested ==> command_outcome(
                old(self)@,
                command_of(old(self)@.state, event),
                final(self)@,
                res,
            ),
    {
        if self.app.editor_mode || self.app.should_exit {
            return Ok(());
        }
        match self.app.state() {
            AppState::Add => self.handle_adding(event),
            _ => self.handle_normal_input(event),
        }
    }

    /// Ends an editor session with what the editor returned. The typed
    /// title is taken out of the buffer, the editor is marked closed and
    /// the notes screen is shown, whatever follows. Text from the editor
    /// is stored as the body of a new note under that title; a failure of
    /// the editor stores nothing. Then the snapshot is read anew.
    ///
    /// The result is the editor's failure, else the store's first failure,
    /// else success.
    pub fn handle_edit(&mut self, edited: Result<String, String>) -> (res: Result<(), NotesError>)
        requires
            old(self).inv(),
        ensures
            final(self).inv(),
            edit_outcome(old(self)@, edited, final(self)@, res),
    {
        let title = self.app.end_editing();
        let stored = match edited {
            Ok(text) => self.db.add(Self::drafted(title, text)),
            Err(message) => Err(NotesError::Editor(message)),
        };
        let refreshed = self.set_notes();
        Self::edit_result(stored, refreshed)
    }

    /// The batch that an editor session hands to the store: one note that
    /// has no id yet, with the typed title and the editor's text.
    pub fn drafted(title: String, text: String) -> (batch: Vec<Note>)
        ensures
            batch@.len() == 1,
            batch@[0]@ == (NoteView { id: None, title: title@, text: text@ }),
    {
        let mut batch: Vec<Note> = Vec::new();
        batch.push(Note::new(None, title, text));
        batch
    }

    /// What an editor session comes to, from how the storing of its note
    /// went and how the reading of the snapshot went after it: a failure
    /// of the first is the result, whatever the second did, and otherwise
    /// the second is.
    pub fn edit_result(stored: Result<(), NotesError>, refreshed: Result<(), NotesError>) -> (res:
        Result<(), NotesError>)
        ensures
            res == (match stored {
                Ok(_) => refreshed,
                Err(e) => Err::<(), NotesError>(e),
            }),
    {
        match stored {
            Ok(()) => refreshed,
            Err(e) => Err(e),
        }
    }

    /// Reads an event as a command of the home, notes and delete screens
    /// and carries it out.
    pub fn handle_normal_input(&mut self, event: Event<KeyEvent>) -> (res: Result<(), NotesError>)
        requires
            old(self).inv(),
        ensures
            final(self).inv(),
            command_outcome(
                old(self)@,
                normal_command(old(self)@.state, event),
                final(self)@,
                res,
            ),
    {
        match event {
            Event::Input(key) => match key.code {
                KeyCode::Char('q') => {
                    self.app.should_exit = true;
                    Ok(())
                },
                KeyCode::Char('h') => {
                    self.app.set_state(AppState::Home);
                    Ok(())
                },
                KeyCode::Char('n') => {
                    self.app.set_state(AppState::Note);
                    self.set_notes()
                },
                KeyCode::Char('a') => {
                    self.app.set_state(AppState::Add);
                    self.app.buffer.clear();
                    Ok(())
                },
                KeyCode::Char('d') => {
                    if self.app.is_state(AppState::Note) {
                        self.handle_delete()
                    } else {
                        Ok(())
                    }
                },
                KeyCode::Down => self.handle_down(),
                KeyCode::Up => self.handle_up(),
                _ => Ok(()),
            },
            Event::Tick => Ok(()),
        }
    }

    /// Deletes the selected note from the store and reads the snapshot
    /// anew. A note that the store no longer has counts as deleted.
    pub fn handle_delete(&mut self) -> (res: Result<(), NotesError>)
        requires
            old(self).inv(),
        ensures
            final(self).inv(),
            delete_outcome(old(self)@, final(self)@, res),
    {
        let note_id = match self.app.selected_id() {
            Some(id) => id,
            None => { return Err(NotesError::InvariantViolation); },
        };
        Self::delete_settled(self.db.delete(note_id))?;
        self.set_notes()
    }

    /// Whether a delete goes on to read the snapshot anew, from what the
    /// store answered: it does when the note was removed, and also when
    /// the store had no such note any more; any other failure ends the
    /// command and is its result.
    pub fn delete_settled(outcome: Result<Note, NotesError>) -> (go_on: Result<(), NotesError>)
        ensures
            match outcome {
                Ok(_) => go_on is Ok,
                Err(e) => if e is NotFound {
                    go_on is Ok
                } else {
                    go_on == Err::<(), NotesError>(e)
                },
            },
    {
        match outcome {
            Ok(_) => Ok(()),
            Err(NotesError::NotFound) => Ok(()),
            Err(e) => Err(e),
        }
    }

    /// Reads an event as a command of the screen for a new note and
    /// carries it out.
    pub fn handle_adding(&mut self, event: Event<KeyEvent>) -> (res: Result<(), NotesError>)
        ensures
            res is Ok,
            final(self)@ == old(self)@.applied(adding_command(event)),
    {
        match event {
            Event::Input(key) => match key.code {
                KeyCode::Char(c) => {
                    if key.control {
                        self.app.editor_mode = true;
                    } else {
                        self.app.buffer.push(c);
                    }
                },
                KeyCode::Backspace => {
                    self.app.buffer.pop();
                },
                KeyCode::Esc => {
                    self.app.set_state(AppState::Home);
                    self.app.buffer.clear();
                },
                _ => (),
            },
            _ => (),
        };
        Ok(())
    }

    /// Moves the selection one note up, and from the first note to the
    /// last.
    pub fn handle_up(&mut self) -> (res: Result<(), NotesError>)
        requires
            old(self).inv(),
        ensures
            final(self).inv(),
            move_outcome(old(self)@, Move::Previous, final(self)@, res),
    {
        let selected = self.app.note_state();
        let num_notes = match &self.app.notes {
            Some(notes) => notes.len(),
            None => { return Err(NotesError::InvariantViolation); },
        };
        if num_notes == 0 {
            self.app.set_note_state(0);
            return Ok(());
        }
        if selected > 0 {
            self.app.set_note_state(selected - 1);
        } else {
            self.app.set_note_state(num_notes - 1);
        }
        Ok(())
    }

    /// Moves the selection one note down, and from the last note to the
    /// first.
    pub fn handle_down(&mut self) -> (res: Result<(), NotesError>)
        requires
            old(self).inv(),
        ensures
            final(self).inv(),
            move_outcome(old(self)@, Move::Next, final(self)@, res),
    {
        let selected = self.app.note_state();
        let num_notes = match &self.app.notes {
            Some(notes) => notes.len(),
            None => { return Err(NotesError::InvariantViolation); },
        };
        if num_notes == 0 {
            self.app.set_note_state(0);
            return Ok(());
        }
        if selected >= num_notes - 1 {
            self.app.set_note_state(0);
        } else {
            self.app.set_note_state(selected + 1);
        }
        Ok(())
    }
}

} // verus!
