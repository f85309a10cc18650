//! The transitions from screen to screen.
//!
//! `dispatch` looks a key up on the window that is shown. A key that the
//! window does not bind leaves everything as it is. A bound key gives an
//! action, and an action may need something from outside first: `request`
//! says what. The program around the library carries that out and hands the
//! reply to `perform`, which changes the state and says what comes next: a
//! window to show, the end of the program, or another action to run in the
//! same way.

use crate::chooser::choose_paragraph;
use crate::clock::now_millis;
use crate::history::{log_addition, log_entry, new_log};
use crate::keys::{bound, Action, Key};
use crate::paragraph::{AppParagraph, CharStatus, ParagraphView};
use crate::record::run_of;
use crate::session::{
    law_correction_restores, lemma_count_wrong_bound, lemma_press_keeps_wf, State, StateView,
};
use crate::text::decode;
use crate::windows::{
    create_error_window, made, main_menu, practice, results, statistics, user_entry, Screen,
    Window,
};
use vstd::prelude::*;
use vstd::string::StringExecFns;
use vstd::utf8::{decode_utf8, valid_utf8};

verus! {

/// What an action needs from outside before it can be performed.
#[derive(Debug)]
pub enum Request {
    Nothing,
    /// The bytes of the file that keeps the typist's name.
    ReadUserName,
    /// Keep this name in that file.
    WriteUserName(String),
    /// The paragraphs of the corpus.
    LoadParagraphs,
    /// Add a run to the log: `appended` to the log that exists, or else
    /// `created` as a new log.
    AppendRun { created: String, appended: String },
}

/// What came back from outside.
#[derive(Debug)]
pub enum Reply {
    Nothing,
    /// The bytes of the name file, or `None` where it could not be read.
    UserName(Option<Vec<u8>>),
    /// Whether the writing was done, and if not, why.
    Written(Result<(), String>),
    /// The corpus, or why it could not be had.
    Paragraphs(Result<Vec<AppParagraph>, String>),
}

/// What comes after an action.
#[derive(Debug)]
pub enum Outcome {
    /// This window is shown and waits for a key.
    Show(Window),
    /// The program ends.
    Exit,
    /// This action is run next, before any key is read.
    Then(Action),
}

impl Outcome {
    /// The window that is shown next, if one is.
    pub open spec fn window(self) -> Option<Window> {
        match self {
            Outcome::Show(w) => Some(w),
            _ => None,
        }
    }

    /// The action that is run next, if one is.
    pub open spec fn next_action(self) -> Option<Action> {
        match self {
            Outcome::Then(action) => Some(action),
            _ => None,
        }
    }

    /// The window of `screen` is shown next, without a message.
    pub open spec fn shows(self, screen: Screen) -> bool {
        made(self.window(), screen, Seq::empty(), Action::Exit)
    }
}

impl Reply {
    /// The name that the reply carries: the text of the name file, where it
    /// was read and is valid UTF-8.
    pub open spec fn user_name(self) -> Option<Seq<char>> {
        match self {
            Reply::UserName(Some(bytes)) => if valid_utf8(bytes@) {
                Some(decode_utf8(bytes@))
            } else {
                None
            },
            _ => None,
        }
    }

    /// The corpus that the reply carries, or why there is none.
    pub open spec fn corpus(self) -> Result<Seq<ParagraphView>, Seq<char>> {
        match self {
            Reply::Paragraphs(Ok(list)) => Ok(list@.map_values(|p: AppParagraph| p@)),
            Reply::Paragraphs(Err(detail)) => Err(detail@),
            _ => Err(Seq::empty()),
        }
    }

    /// The complaint that the reply carries about a writing that failed.
    pub open spec fn complaint(self) -> Option<Seq<char>> {
        match self {
            Reply::Written(Err(detail)) => Some(detail@),
            _ => None,
        }
    }

    /// What the reply says against a writing; nothing where it is no
    /// complaint.
    pub open spec fn complaint_text(self) -> Seq<char> {
        match self.complaint() {
            Some(detail) => detail,
            None => Seq::empty(),
        }
    }

    /// The reply says that the writing was done.
    pub open spec fn done(self) -> bool {
        self matches Reply::Written(Ok(_))
    }
}

/// The message of the error screen where the corpus could not be had.
pub open spec fn corpus_error(detail: Seq<char>) -> Seq<char> {
    "Sorry an error ocurred while retrieving the database.csv\n"@ + detail
}

/// What is wrong with a corpus that has no paragraph.
pub open spec fn no_paragraph() -> Seq<char> {
    "Couldn't get a random paragraph!"@
}

/// The main menu was asked for. With a stored name the name is taken over
/// and the main menu shown; without one the name entry is shown.
pub open spec fn main_menu_opened(
    old: StateView,
    name: Option<Seq<char>>,
    new: StateView,
    window: Option<Window>,
) -> bool {
    match name {
        Some(n) => new == (StateView { user_name: n, ..old }) && made(
            window,
            Screen::MainMenu,
            Seq::empty(),
            Action::Exit,
        ),
        None => new == old && made(window, Screen::User, Seq::empty(), Action::Exit),
    }
}

/// A practice was asked for. With a corpus that has a paragraph, a fresh
/// attempt at one of its paragraphs begins at `now` and the typing screen is
/// shown. Otherwise nothing changes and the error screen says why; Escape
/// leads from there to the main menu.
pub open spec fn practice_started(
    old: StateView,
    corpus: Result<Seq<ParagraphView>, Seq<char>>,
    now: int,
    new: StateView,
    window: Option<Window>,
) -> bool {
    match corpus {
        Ok(list) => if list.len() > 0 {
            &&& exists|i: int| 0 <= i < list.len() && new == old.begin(#[trigger] list[i], now)
            &&& made(window, Screen::Practice, Seq::empty(), Action::Exit)
        } else {
            &&& new == old
            &&& made(window, Screen::Error, corpus_error(no_paragraph()), Action::OpenMainMenu)
        },
        Err(detail) => {
            &&& new == old
            &&& made(window, Screen::Error, corpus_error(detail), Action::OpenMainMenu)
        },
    }
}

/// A character was typed on the typing screen at `now`. Where a cell is
/// left, it is scored; if that completes the paragraph the run is saved
/// next, and else the typing goes on. Where no cell is left, the key is
/// passed over.
pub open spec fn char_pressed(old: StateView, c: char, now: int, new: StateView, outcome: Outcome) -> bool {
    if 0 <= old.index < old.cells.len() {
        &&& new == old.press_at(c, now)
        &&& if new.complete() {
            outcome.next_action() == Some(Action::SaveRun)
        } else {
            outcome.shows(Screen::Practice)
        }
    } else {
        new == old && outcome.shows(Screen::Practice)
    }
}

/// A typed character leaves a well-formed session well-formed, whatever the
/// character and also when no cell is left: the cursor stays within the
/// cells, and their number and the paragraph are kept.
pub proof fn law_typing_keeps_the_cursor_in_range(
    old: StateView,
    c: char,
    now: int,
    new: StateView,
    outcome: Outcome,
)
    requires
        old.wf(),
        char_pressed(old, c, now, new, outcome),
    ensures
        new.wf(),
        0 <= new.index <= new.cells.len(),
        new.cells.len() == old.cells.len(),
        new.paragraph == old.paragraph,
{
    if old.index < old.cells.len() {
        lemma_press_keeps_wf(old, c, now);
    }
}

/// The character of the cell under the cursor, typed on the typing screen,
/// marks the cell `Correct`, moves the cursor on by exactly one and changes
/// neither error counter.
pub proof fn law_right_key_typed(old: StateView, c: char, now: int, new: StateView, outcome: Outcome)
    requires
        0 <= old.index < old.cells.len(),
        old.cells[old.index].character == c,
        char_pressed(old, c, now, new, outcome),
    ensures
        new.index == old.index + 1,
        new.cells[old.index].status == CharStatus::Correct,
        new.total_error_count == old.total_error_count,
        new.current_error_count == old.current_error_count,
{
}

/// Any other character, typed on the typing screen, marks the cell `Wrong`,
/// moves the cursor on by exactly one and adds one to both error counters.
pub proof fn law_wrong_key_typed(old: StateView, c: char, now: int, new: StateView, outcome: Outcome)
    requires
        0 <= old.index < old.cells.len(),
        old.cells[old.index].character != c,
        char_pressed(old, c, now, new, outcome),
    ensures
        new.index == old.index + 1,
        new.cells[old.index].status == CharStatus::Wrong,
        new.total_error_count == old.total_error_count + 1,
        new.current_error_count == old.current_error_count + 1,
{
}

/// A wrong key, then backspace, then the cell's own character: the current
/// error count is what it was before the error, the total is one higher
/// (neither backspace nor the right key changed it), the cursor is one cell
/// further and the cell is `Correct`.
pub proof fn law_error_corrected(
    start: StateView,
    wrong: char,
    t0: int,
    missed: StateView,
    first: Outcome,
    t1: int,
    mended: StateView,
    second: Outcome,
)
    requires
        start.wf(),
        start.index < start.cells.len(),
        start.cells[start.index].character != wrong,
        char_pressed(start, wrong, t0, missed, first),
        char_pressed(missed.backspace(), start.cells[start.index].character, t1, mended, second),
    ensures
        missed.backspace().index == start.index,
        missed.backspace().current_error_count == start.current_error_count,
        missed.backspace().total_error_count == start.total_error_count + 1,
        mended.current_error_count == start.current_error_count,
        mended.total_error_count == start.total_error_count + 1,
        mended.index == start.index + 1,
        mended.cells[start.index].status == CharStatus::Correct,
{
    law_correction_restores(start, wrong, t0, t1);
    let back = missed.backspace();
    assert(back.cells[start.index].character == start.cells[start.index].character);
}

/// A typed character leads to the saving of the run exactly when it leaves
/// the cursor behind the last cell with no error outstanding, and only then
/// is the end time set, to the moment of the key; otherwise the typing
/// screen stays and the end time is as it was.
pub proof fn law_run_saved_on_completion(
    old: StateView,
    c: char,
    now: int,
    new: StateView,
    outcome: Outcome,
)
    requires
        char_pressed(old, c, now, new, outcome),
        0 <= old.index <= old.cells.len(),
    ensures
        outcome.next_action() == Some(Action::SaveRun) <==> old.index < old.cells.len()
            && new.index == new.cells.len() && new.current_error_count == 0,
        outcome.next_action() == Some(Action::SaveRun) ==> new.end_time == now,
        outcome.next_action() != Some(Action::SaveRun) ==> outcome.shows(Screen::Practice)
            && new.end_time == old.end_time,
{
}

/// On the last cell, with an error outstanding or with a wrong key, the
/// cursor reaches the end but the paragraph is not completed: the typing
/// screen stays, no run is to be saved and the end time is as it was.
pub proof fn law_open_error_blocks_completion(
    old: StateView,
    c: char,
    now: int,
    new: StateView,
    outcome: Outcome,
)
    requires
        old.wf(),
        old.index == old.cells.len() - 1,
        old.current_error_count > 0 || old.cells[old.index].character != c,
        char_pressed(old, c, now, new, outcome),
    ensures
        new.index == new.cells.len(),
        new.current_error_count > 0,
        outcome.shows(Screen::Practice),
        outcome.next_action() is None,
        new.end_time == old.end_time,
{
    lemma_count_wrong_bound(old.cells, old.index);
}

/// Nothing is added to the log but by the action that saves a run, and by
/// that one only where the session has a record.
pub proof fn law_only_saving_appends(action: Action, s: StateView, request: Request)
    requires
        requested(action, s, request),
        request is AppendRun,
    ensures
        action is SaveRun,
        run_of(
            s.cells.len() as int,
            s.total_error_count,
            s.word_count,
            s.end_time - s.initial_time,
        ) is Some,
{
}

/// Only typing, backspace and the start of a practice touch the session:
/// every other action leaves the paragraph, its cells, the cursor, the
/// counters and the clock readings as they were.
pub proof fn law_session_kept(
    action: Action,
    old: StateView,
    reply: Reply,
    now: int,
    new: StateView,
    outcome: Outcome,
)
    requires
        performed(action, old, reply, now, new, outcome),
        !(action is TypeChar),
        !(action is EraseChar),
        !(action is StartPractice),
    ensures
        new.cells == old.cells,
        new.index == old.index,
        new.current_error_count == old.current_error_count,
        new.total_error_count == old.total_error_count,
        new.word_count == old.word_count,
        new.initial_time == old.initial_time,
        new.end_time == old.end_time,
        new.paragraph == old.paragraph,
{
}

/// The program ends on the action `Exit` and on no other.
pub proof fn law_exit_by_exit_only(
    action: Action,
    old: StateView,
    reply: Reply,
    now: int,
    new: StateView,
    outcome: Outcome,
)
    requires
        performed(action, old, reply, now, new, outcome),
    ensures
        outcome is Exit <==> action is Exit,
{
}

/// The name after backspace.
pub open spec fn name_erased(name: Seq<char>) -> Seq<char> {
    if name.len() > 0 {
        name.drop_last()
    } else {
        name
    }
}

/// The state has room for what `action` counts: where it types a key that
/// misses the cell under the cursor, the total error count can take one
/// more. Every other action needs no room.
pub open spec fn room_for(action: Action, s: StateView) -> bool {
    match action {
        Action::TypeChar(c) => s.countable(c),
        _ => true,
    }
}

/// Whether the state has room for what `action` counts.
pub fn has_room_for(action: Action, state: &State) -> (room: bool)
    ensures
        room == room_for(action, state@),
{
    match action {
        Action::TypeChar(c) => {
            let index = state.player.index;
            let miss = index < state.chars.len() && state.chars[index].character != c;
            !miss || state.player.statistics.total_error_count < usize::MAX
        },
        _ => true,
    }
}

/// What `action` does: how the state `new` and the `outcome` follow from the
/// state `old`, the `reply` from outside and the moment `now`.
pub open spec fn performed(
    action: Action,
    old: StateView,
    reply: Reply,
    now: int,
    new: StateView,
    outcome: Outcome,
) -> bool {
    match action {
        Action::Exit => new == old && outcome is Exit,
        Action::OpenMainMenu => main_menu_opened(old, reply.user_name(), new, outcome.window()),
        Action::StartPractice => practice_started(old, reply.corpus(), now, new, outcome.window()),
        Action::OpenStatistics => new == old && outcome.shows(Screen::Statistics),
        Action::ToggleCharts => new == (StateView { show_bar_charts: !old.show_bar_charts, ..old })
            && outcome.shows(Screen::Statistics),
        Action::TypeChar(c) => char_pressed(old, c, now, new, outcome),
        Action::EraseChar => new == old.backspace() && outcome.shows(Screen::Practice),
        Action::SaveRun => new == old && match reply.complaint() {
            Some(detail) => made(outcome.window(), Screen::Error, detail, Action::ShowResults),
            None => outcome.shows(Screen::End),
        },
        Action::ShowResults => new == old && outcome.shows(Screen::End),
        Action::NameChar(c) => new == (StateView { user_name: old.user_name.push(c), ..old })
            && outcome.shows(Screen::User),
        Action::NameErase => new == (StateView { user_name: name_erased(old.user_name), ..old })
            && outcome.shows(Screen::User),
        Action::OpenUser => new == old && outcome.shows(Screen::User),
        Action::SubmitName => new == old && if reply.done() {
            outcome.next_action() == Some(Action::OpenMainMenu)
        } else {
            made(outcome.window(), Screen::Error, reply.complaint_text(), Action::OpenUser)
        },
    }
}

/// What `action` asks from outside in the state `s`.
pub open spec fn requested(action: Action, s: StateView, request: Request) -> bool {
    match action {
        Action::OpenMainMenu => request is ReadUserName,
        Action::StartPractice => request is LoadParagraphs,
        Action::SubmitName => match request {
            Request::WriteUserName(name) => name@ == s.user_name,
            _ => false,
        },
        Action::SaveRun => match run_of(
            s.cells.len() as int,
            s.total_error_count,
            s.word_count,
            s.end_time - s.initial_time,
        ) {
            Some(run) => match request {
                Request::AppendRun { created, appended } => created@ == new_log(run) && appended@
                    == log_entry(run),
                _ => false,
            },
            None => request is Nothing,
        },
        _ => request is Nothing,
    }
}

/// What the action needs from outside before `perform` can run it.
pub fn request(action: Action, state: &State) -> (request: Request)
    ensures
        requested(action, state@, request),
{
    match action {
        Action::OpenMainMenu => Request::ReadUserName,
        Action::StartPractice => Request::LoadParagraphs,
        Action::SubmitName => Request::WriteUserName(state.player.user_name.clone()),
        Action::SaveRun => match state.create_run() {
            Some(run) => Request::AppendRun {
                created: log_addition(&run, false),
                appended: log_addition(&run, true),
            },
            None => Request::Nothing,
        },
        _ => Request::Nothing,
    }
}

/// What a key leads to.
#[derive(Debug)]
pub enum Step {
    /// The window does not bind the key: it stays as it is.
    Stay(Window),
    /// The key is bound to this action, which asks this from outside.
    Run(Action, Request),
}

/// A key on a window: where the window does not bind it, the same window
/// stays and nothing else happens; where it does, the bound action is run,
/// after what it asks for in the state `s`.
pub open spec fn dispatched(window: Window, key: Key, s: StateView, step: Step) -> bool {
    match bound(window@.commands, key) {
        None => match step {
            Step::Stay(same) => same == window,
            _ => false,
        },
        Some(action) => match step {
            Step::Run(run, request) => run == action && requested(action, s, request),
            _ => false,
        },
    }
}

/// Looks the key up on the window that is shown.
pub fn dispatch(window: Window, key: Key, state: &State) -> (step: Step)
    ensures
        dispatched(window, key, state@, step),
{
    match window.action_for(key) {
        None => Step::Stay(window),
        Some(action) => Step::Run(action, request(action, state)),
    }
}

/// The name entry.
pub fn create_user_window(state: &mut State) -> (window: Option<Window>)
    ensures
        *final(state) == *old(state),
        made(window, Screen::User, Seq::empty(), Action::Exit),
{
    Some(user_entry())
}

/// The main menu, given what was read from the name file: with a readable
/// name in UTF-8 the state takes the name over; without one the name entry
/// comes first.
pub fn create_main_menu_window(state: &mut State, user_file: Option<Vec<u8>>) -> (window: Option<
    Window,
>)
    ensures
        main_menu_opened(
            old(state)@,
            Reply::UserName(user_file).user_name(),
            final(state)@,
            window,
        ),
        old(state).wf() ==> final(state).wf(),
{
    let name = match user_file {
        Some(bytes) => decode(bytes),
        None => None,
    };
    match name {
        Some(user_name) => {
            state.player.user_name = user_name;
            Some(main_menu())
        },
        None => create_user_window(state),
    }
}

/// The typing screen.
pub fn create_practice_window(state: &mut State) -> (window: Option<Window>)
    ensures
        *final(state) == *old(state),
        made(window, Screen::Practice, Seq::empty(), Action::Exit),
{
    Some(practice())
}

/// Begins a fresh attempt at `paragraph` at `now` and shows the typing
/// screen.
pub fn begin_practice(state: &mut State, paragraph: AppParagraph, now: i64) -> (window: Option<
    Window,
>)
    ensures
        final(state).wf(),
        final(state)@ == old(state)@.begin(paragraph@, now as int),
        made(window, Screen::Practice, Seq::empty(), Action::Exit),
{
    state.begin(paragraph, now);
    create_practice_window(state)
}

/// The error screen for a corpus that could not be had.
fn corpus_failed(detail: &str) -> (window: Option<Window>)
    ensures
        made(window, Screen::Error, corpus_error(detail@), Action::OpenMainMenu),
{
    let mut message = String::from_str("Sorry an error ocurred while retrieving the database.csv\n");
    message.append(detail);
    create_error_window(message, Action::OpenMainMenu)
}

/// A fresh attempt at a paragraph picked at random from the corpus, or the
/// error screen where there is no corpus to pick from.
pub fn create_empty_practice_window(
    state: &mut State,
    corpus: Result<Vec<AppParagraph>, String>,
    now: i64,
) -> (window: Option<Window>)
    ensures
        practice_started(
            old(state)@,
            Reply::Paragraphs(corpus).corpus(),
            now as int,
            final(state)@,
            window,
        ),
        old(state).wf() ==> final(state).wf(),
{
    match corpus {
        Ok(paragraphs) => match choose_paragraph(&paragraphs) {
            Some(chosen) => {
                let paragraph = chosen.clone();
                proof {
                    let list = paragraphs@.map_values(|p: AppParagraph| p@);
                    let i = choose|i: int|
                        0 <= i < paragraphs@.len() && #[trigger] paragraphs@[i] == *chosen;
                    assert(list[i] == paragraph@);
                }
                begin_practice(state, paragraph, now)
            },
            None => corpus_failed("Couldn't get a random paragraph!"),
        },
        Err(detail) => corpus_failed(detail.as_str()),
    }
}

/// The results screen.
pub fn create_end_window(state: &mut State) -> (window: Option<Window>)
    ensures
        *final(state) == *old(state),
        made(window, Screen::End, Seq::empty(), Action::Exit),
{
    Some(results())
}

/// The statistics screen.
pub fn create_statistics_window(state: &mut State) -> (window: Option<Window>)
    ensures
        *final(state) == *old(state),
        made(window, Screen::Statistics, Seq::empty(), Action::Exit),
{
    Some(statistics())
}

/// A character typed on the typing screen at `now`.
pub fn handle_char_press(state: &mut State, pressed_character: char, now: i64) -> (outcome: Outcome)
    requires
        old(state).wf(),
        old(state)@.countable(pressed_character),
    ensures
        final(state).wf(),
        char_pressed(old(state)@, pressed_character, now as int, final(state)@, outcome),
{
    if state.player.index >= state.chars.len() {
        return Outcome::Show(practice());
    }
    if state.press_char(pressed_character, now) {
        Outcome::Then(Action::SaveRun)
    } else {
        Outcome::Show(practice())
    }
}

/// Backspace on the typing screen.
pub fn handle_backspace_press(state: &mut State) -> (window: Option<Window>)
    requires
        old(state).wf(),
    ensures
        final(state).wf(),
        final(state)@ == old(state)@.backspace(),
        made(window, Screen::Practice, Seq::empty(), Action::Exit),
{
    state.press_backspace();
    create_practice_window(state)
}

/// The outcome that shows a window, where one was made.
fn show(window: Option<Window>) -> (outcome: Outcome)
    requires
        window is Some,
    ensures
        outcome.window() == window,
{
    match window {
        Some(w) => Outcome::Show(w),
        None => Outcome::Exit,
    }
}

/// Performs `action` at the moment `now`, with the reply to what it asked
/// for. A reply of another kind counts as a reading or writing that failed.
pub fn perform_at(action: Action, state: &mut State, reply: Reply, now: i64) -> (outcome: Outcome)
    requires
        old(state).wf(),
        room_for(action, old(state)@),
    ensures
        final(state).wf(),
        performed(action, old(state)@, reply, now as int, final(state)@, outcome),
{
    match action {
        Action::Exit => Outcome::Exit,
        Action::OpenMainMenu => {
            let user_file = match reply {
                Reply::UserName(file) => file,
                _ => None,
            };
            show(create_main_menu_window(state, user_file))
        },
        Action::StartPractice => match reply {
            Reply::Paragraphs(corpus) => show(create_empty_practice_window(state, corpus, now)),
            _ => {
                proof {
                    reveal_strlit("");
                    assert(""@ =~= Seq::<char>::empty());
                }
                show(corpus_failed(""))
            },
        },
        Action::OpenStatistics => show(create_statistics_window(state)),
        Action::ToggleCharts => {
            state.show_bar_charts = !state.show_bar_charts;
            show(create_statistics_window(state))
        },
        Action::TypeChar(c) => handle_char_press(state, c, now),
        Action::EraseChar => show(handle_backspace_press(state)),
        Action::SaveRun => match reply {
            Reply::Written(Err(detail)) => show(create_error_window(detail, Action::ShowResults)),
            _ => show(create_end_window(state)),
        },
        Action::ShowResults => show(create_end_window(state)),
        Action::NameChar(c) => {
            state.player.user_name.push(c);
            show(create_user_window(state))
        },
        Action::NameErase => {
            let _ = state.player.user_name.pop();
            show(create_user_window(state))
        },
        Action::OpenUser => show(create_user_window(state)),
        Action::SubmitName => match reply {
            Reply::Written(Ok(_)) => Outcome::Then(Action::OpenMainMenu),
            Reply::Written(Err(detail)) => show(create_error_window(detail, Action::OpenUser)),
            _ => show(create_error_window(String::new(), Action::OpenUser)),
        },
    }
}

/// Performs `action` at the moment of the call.
pub fn perform(action: Action, state: &mut State, reply: Reply) -> (outcome: Outcome)
    requires
        old(state).wf(),
        room_for(action, old(state)@),
    ensures
        final(state).wf(),
        exists|now: i64| #[trigger]
            performed(action, old(state)@, reply, now as int, final(state)@, outcome),
{
    let now = now_millis();
    perform_at(action, state, reply, now)
}

} // verus!
