use vstd::prelude::*;
use crate::repository::{Note, NoteView, note_views};

verus! {

/// The screen the session shows, which also decides how keys are read.
#[derive(Clone, Copy, Debug, PartialEq, Eq, Structural)]
pub enum AppState {
    Home,
    Note,
    Add,
    Delete,
}

impl AppState {
    /// The position of the screen's tab in the menu.
    pub open spec fn tab_index(self) -> usize {
        match self {
            AppState::Home => 0,
            AppState::Note => 1,
            AppState::Add => 2,
            AppState::Delete => 3,
        }
    }
}

impl From<AppState> for usize {
    fn from(value: AppState) -> (index: usize) {
        match value {
            AppState::Home => 0,
            AppState::Note => 1,
            AppState::Add => 2,
            AppState::Delete => 3,
        }
    }
}

impl vstd::std_specs::convert::FromSpecImpl<AppState> for usize {
    open spec fn obeys_from_spec() -> bool {
        true
    }

    open spec fn from_spec(value: AppState) -> usize {
        value.tab_index()
    }
}

/// The session state as plain mathematical values.
pub struct AppView {
    pub state: AppState,
    pub exit_requested: bool,
    pub selection: nat,
    pub draft_title: Seq<char>,
    pub editor_active: bool,
    /// `None` until a snapshot was loaded; an empty snapshot is `Some`.
    pub notes: Option<Seq<NoteView>>,
}

impl AppView {
    /// The state a session starts in: the home screen, nothing typed,
    /// nothing loaded.
    pub open spec fn initial() -> AppView {
        AppView {
            state: AppState::Home,
            exit_requested: false,
            selection: 0,
            draft_title: Seq::empty(),
            editor_active: false,
            notes: None,
        }
    }

    /// How many notes the snapshot holds; none while nothing was loaded.
    pub open spec fn note_count(self) -> nat {
        match self.notes {
            Some(notes) => notes.len(),
            None => 0,
        }
    }

    /// The selection points into the snapshot, or is 0 where that is empty.
    pub open spec fn selection_in_bounds(self) -> bool {
        self.selection == 0 || self.selection < self.note_count()
    }

    /// The note under the selection, if the snapshot has one there.
    pub open spec fn selected(self) -> Option<NoteView> {
        match self.notes {
            Some(notes) => if self.selection < notes.len() {
                Some(notes[self.selection as int])
            } else {
                None
            },
            None => None,
        }
    }

    /// The id of the note under the selection, if there is such a note and
    /// the store has given it an id.
    pub open spec fn selected_id(self) -> Option<usize> {
        match self.selected() {
            Some(note) => note.id,
            None => None,
        }
    }

    /// The state once `listed` has replaced the snapshot: a selection that
    /// would point past the end moves to the last note, or to 0 where
    /// there is none.
    pub open spec fn refreshed(self, listed: Seq<NoteView>) -> AppView {
        AppView {
            notes: Some(listed),
            selection: if self.selection < listed.len() {
                self.selection
            } else if listed.len() == 0 {
                0
            } else {
                (listed.len() - 1) as nat
            },
            ..self
        }
    }

    /// The state after "next": one note down, and from the last note to
    /// the first.
    pub open spec fn moved_down(self) -> AppView {
        AppView {
            selection: if self.selection + 1 < self.note_count() {
                self.selection + 1
            } else {
                0
            },
            ..self
        }
    }

    /// The state after "previous": one note up, and from the first note to
    /// the last.
    pub open spec fn moved_up(self) -> AppView {
        AppView {
            selection: if self.note_count() == 0 {
                0
            } else if self.selection > 0 {
                (self.selection - 1) as nat
            } else {
                (self.note_count() - 1) as nat
            },
            ..self
        }
    }
}

/// One step of the selection.
pub enum Move {
    Next,
    Previous,
}

impl AppView {
    /// The state after one move of the selection. Before a snapshot was
    /// loaded there is nothing to move in, and the state stays as it is.
    pub open spec fn moved(self, step: Move) -> AppView {
        if self.notes is None {
            self
        } else {
            match step {
                Move::Next => self.moved_down(),
                Move::Previous => self.moved_up(),
            }
        }
    }
}

/// The state after a run of selection moves, taken from left to right.
pub open spec fn after_moves(start: AppView, moves: Seq<Move>) -> AppView
    decreases moves.len(),
{
    if moves.len() == 0 {
        start
    } else {
        after_moves(start, moves.drop_last()).moved(moves.last())
    }
}

/// However often and in whatever order the selection is moved, it stays
/// inside the snapshot, or at 0 where the snapshot is empty, and nothing
/// but the selection changes.
pub proof fn lemma_moves_keep_selection_in_bounds(start: AppView, moves: Seq<Move>)
    requires
        start.selection_in_bounds(),
    ensures
        after_moves(start, moves).selection_in_bounds(),
        after_moves(start, moves) == (AppView {
            selection: after_moves(start, moves).selection,
            ..start
        }),
    decreases moves.len(),
{
    if moves.len() > 0 {
        lemma_moves_keep_selection_in_bounds(start, moves.drop_last());
    }
}

/// A run of `n` moves in one direction: where the selection stands after
/// it, for every `n` up to the number of notes.
proof fn lemma_run_of_moves(start: AppView, n: nat)
    requires
        start.selection_in_bounds(),
        start.notes is Some,
        n <= start.note_count(),
    ensures
        after_moves(start, Seq::new(n, |i: int| Move::Next)).selection == (if start.selection + n
            < start.note_count() {
            start.selection + n
        } else if start.note_count() == 0 {
            0
        } else {
            (start.selection + n - start.note_count()) as nat
        }),
        after_moves(start, Seq::new(n, |i: int| Move::Previous)).selection == (if n
            <= start.selection {
            (start.selection - n) as nat
        } else {
            (start.selection + start.note_count() - n) as nat
        }),
    decreases n,
{
    let downs = Seq::new(n, |i: int| Move::Next);
    let ups = Seq::new(n, |i: int| Move::Previous);
    if n > 0 {
        assert(downs.drop_last() =~= Seq::new((n - 1) as nat, |i: int| Move::Next));
        assert(ups.drop_last() =~= Seq::new((n - 1) as nat, |i: int| Move::Previous));
        lemma_run_of_moves(start, (n - 1) as nat);
        lemma_moves_keep_selection_in_bounds(start, downs.drop_last());
        lemma_moves_keep_selection_in_bounds(start, ups.drop_last());
    } else {
        assert(downs.len() == 0);
        assert(ups.len() == 0);
    }
}

/// As many moves down as there are notes lead back to the note they
/// started from, and so do as many moves up.
pub proof fn lemma_full_round_returns(start: AppView)
    requires
        start.selection_in_bounds(),
        start.notes is Some,
    ensures
        after_moves(start, Seq::new(start.note_count(), |i: int| Move::Next)) == start,
        after_moves(start, Seq::new(start.note_count(), |i: int| Move::Previous)) == start,
{
    lemma_run_of_moves(start, start.note_count());
    lemma_moves_keep_selection_in_bounds(
        start,
        Seq::new(start.note_count(), |i: int| Move::Next),
    );
    lemma_moves_keep_selection_in_bounds(
        start,
        Seq::new(start.note_count(), |i: int| Move::Previous),
    );
}

/// A snapshot refresh leaves the selection inside the new snapshot,
/// whatever it was before.
pub proof fn lemma_refresh_keeps_selection_in_bounds(before: AppView, listed: Seq<NoteView>)
    ensures
        before.refreshed(listed).selection_in_bounds(),
        before.refreshed(listed).selection <= before.selection,
{
}

/// With the last of several notes selected, a refresh that brings one note
/// fewer, as after that note's deletion, selects the new last note.
pub proof fn lemma_refresh_after_deleting_last(before: AppView, listed: Seq<NoteView>)
    requires
        before.note_count() > 1,
        before.selection == before.note_count() - 1,
        listed.len() == before.note_count() - 1,
    ensures
        before.refreshed(listed).selection == before.note_count() - 2,
        before.refreshed(listed).selected() == Some(listed.last()),
{
}

/// With a single note, a refresh that brings none, as after that note's
/// deletion, leaves an empty snapshot and the selection at 0.
pub proof fn lemma_refresh_after_deleting_only(before: AppView, listed: Seq<NoteView>)
    requires
        before.selection_in_bounds(),
        before.note_count() == 1,
        listed.len() == 0,
    ensures
        before.refreshed(listed).notes == Some(Seq::<NoteView>::empty()),
        before.refreshed(listed).selection == 0,
{
    assert(listed =~= Seq::<NoteView>::empty());
}

/// The state of one interactive session.
pub struct App {
    pub(crate) page_state: AppState,
    pub(crate) should_exit: bool,
    pub(crate) selection: usize,
    pub(crate) buffer: String,
    pub(crate) editor_mode: bool,
    pub(crate) notes: Option<Vec<Note>>,
}

impl View for App {
    type V = AppView;

    open(crate) spec fn view(&self) -> AppView {
        AppView {
            state: self.page_state,
            exit_requested: self.should_exit,
            selection: self.selection as nat,
            draft_title: self.buffer@,
            editor_active: self.editor_mode,
            notes: match self.notes {
                Some(notes) => Some(note_views(notes@)),
                None => None,
            },
        }
    }
}

impl App {
    /// The invariant of the session state: the selection is in bounds.
    pub open spec fn inv(&self) -> bool {
        self@.selection_in_bounds()
    }

    /// A session on the home screen, with nothing loaded or typed.
    pub fn new() -> (app: App)
        ensures
            app.inv(),
            app@ == AppView::initial(),
    {
        App {
            page_state: AppState::Home,
            should_exit: false,
            selection: 0,
            buffer: String::new(),
            editor_mode: false,
            notes: None,
        }
    }

    pub fn state(&self) -> (state: &AppState)
        ensures
            *state == self@.state,
    {
        &self.page_state
    }

    pub fn is_state(&self, state: AppState) -> (same: bool)
        ensures
            same == (self@.state == state),
    {
        self.page_state == state
    }

    pub fn set_state(&mut self, app_state: AppState)
        ensures
            final(self)@ == (AppView { state: app_state, ..old(self)@ }),
    {
        self.page_state = app_state;
    }

    /// The index of the selected note.
    pub fn note_state(&self) -> (selection: usize)
        ensures
            selection == self@.selection,
    {
        self.selection
    }

    /// Selects the note at `state`, which has to be in bounds.
    pub fn set_note_state(&mut self, state: usize)
        requires
            state == 0 || state < old(self)@.note_count(),
        ensures
            final(self)@ == (AppView { selection: state as nat, ..old(self)@ }),
            final(self).inv(),
    {
        self.selection = state;
    }

    /// The title typed so far.
    pub fn buffer(&self) -> (buffer: &String)
        ensures
            buffer@ == self@.draft_title,
    {
        &self.buffer
    }

    /// The snapshot of the store's notes, once one was loaded.
    pub fn notes(&self) -> (notes: &Option<Vec<Note>>)
        ensures
            match *notes {
                Some(list) => self@.notes == Some(note_views(list@)),
                None => self@.notes is None,
            },
    {
        &self.notes
    }

    /// The note under the selection, if the snapshot has one there.
    pub fn selected_note(&self) -> (note: Option<&Note>)
        ensures
            match note {
                Some(n) => self@.selected() == Some(n@),
                None => self@.selected() is None,
            },
    {
        match &self.notes {
            Some(notes) => {
                if self.selection < notes.len() {
                    Some(&notes[self.selection])
                } else {
                    None
                }
            },
            None => None,
        }
    }

    /// The id of the note under the selection, if there is such a note and
    /// the store has given it an id.
    pub fn selected_id(&self) -> (id: Option<usize>)
        ensures
            id == self@.selected_id(),
    {
        match self.selected_note() {
            Some(note) => note.id,
            None => None,
        }
    }

    /// Closes an editor session: hands out the title typed so far and
    /// leaves the buffer empty, the editor closed and the notes screen
    /// shown.
    pub fn end_editing(&mut self) -> (title: String)
        ensures
            title@ == old(self)@.draft_title,
            final(self)@ == (AppView {
                state: AppState::Note,
                editor_active: false,
                draft_title: Seq::empty(),
                ..old(self)@
            }),
    {
        let title = self.buffer.clone();
        self.buffer.clear();
        self.editor_mode = false;
        self.page_state = AppState::Note;
        title
    }

    /// Replaces the snapshot by `listed` and pulls a selection that would
    /// point past its end back to the last note.
    pub fn set_notes(&mut self, listed: Vec<Note>)
        ensures
            final(self)@ == old(self)@.refreshed(note_views(listed@)),
            final(self).inv(),
    {
        let count = listed.len();
        if self.selection >= count {
            self.selection = if count == 0 { 0 } else { count - 1 };
        }
        self.notes = Some(listed);
    }
}

} // verus!
