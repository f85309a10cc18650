//! The screens, the keys that each of them binds, and the windows made of
//! the two.

use crate::keys::{add_to_commands, bound, find_command, Action, CharCommand, Key, WindowCommand};
use crate::keys::lemma_bound_push;
use vstd::prelude::*;

verus! {

/// The screens of the program.
#[derive(Clone, Copy, Debug, PartialEq, Eq, Structural)]
pub enum Screen {
    MainMenu,
    /// The entry of the typist's name.
    User,
    /// The typing session.
    Practice,
    /// The results of a finished run.
    End,
    Statistics,
    /// A message about something that went wrong, and the way back.
    Error,
}

/// A screen with its bindings. The message is what the error screen says; on
/// the other screens it is empty.
#[derive(Debug)]
pub struct Window {
    pub screen: Screen,
    pub commands: Vec<WindowCommand>,
    pub message: String,
}

/// A `Window` as plain values.
pub struct WindowView {
    pub screen: Screen,
    pub commands: Seq<WindowCommand>,
    pub message: Seq<char>,
}

impl View for Window {
    type V = WindowView;

    open spec fn view(&self) -> WindowView {
        WindowView { screen: self.screen, commands: self.commands@, message: self.message@ }
    }
}

/// The small letters.
pub open spec fn lower_letters() -> Seq<char> {
    seq![
        'a', 'b', 'c', 'd', 'e', 'f', 'g', 'h', 'i', 'j', 'k', 'l', 'm', 'n', 'o', 'p', 'q', 'r',
        's', 't', 'u', 'v', 'w', 'x', 'y', 'z',
    ]
}

/// The capital letters.
pub open spec fn upper_letters() -> Seq<char> {
    seq![
        'A', 'B', 'C', 'D', 'E', 'F', 'G', 'H', 'I', 'J', 'K', 'L', 'M', 'N', 'O', 'P', 'Q', 'R',
        'S', 'T', 'U', 'V', 'W', 'X', 'Y', 'Z',
    ]
}

/// The space and the punctuation marks.
pub open spec fn punctuation() -> Seq<char> {
    seq![
        ' ', ',', '.', ':', '"', '-', '@', ';', '<', '>', '+', '-', '_', '(', ')', '=', '*', '/',
        '\u{a1}', '!', '\u{bf}', '?', '#', '$', '%', '&', '\u{b0}', '\'', '^', '~', '[', ']', '{',
        '}',
    ]
}

/// The digits, zero last.
pub open spec fn numbers() -> Seq<char> {
    seq!['1', '2', '3', '4', '5', '6', '7', '8', '9', '0']
}

/// The accented letters.
pub open spec fn accented_letters() -> Seq<char> {
    seq![
        '\u{e1}', '\u{c1}', '\u{e9}', '\u{c9}', '\u{ed}', '\u{cd}', '\u{f3}', '\u{d3}', '\u{fa}',
        '\u{da}', '\u{e4}', '\u{c4}', '\u{eb}', '\u{cb}', '\u{ef}', '\u{cf}', '\u{f6}', '\u{d6}',
        '\u{fc}', '\u{dc}', '\u{e7}', '\u{f1}', '\u{d1}',
    ]
}

/// Every character that can be typed: letters, punctuation, digits and
/// accented letters, in this order.
pub open spec fn all_chars() -> Seq<char> {
    lower_letters() + upper_letters() + punctuation() + numbers() + accented_letters()
}

/// The characters that can be typed.
pub fn generate_all_chars() -> (chars: Vec<char>)
    ensures
        chars@ == all_chars(),
{
    let mut chars = vec![
        'a', 'b', 'c', 'd', 'e', 'f', 'g', 'h', 'i', 'j', 'k', 'l', 'm', 'n', 'o', 'p', 'q', 'r',
        's', 't', 'u', 'v', 'w', 'x', 'y', 'z',
    ];
    let mut upper_chars = vec![
        'A', 'B', 'C', 'D', 'E', 'F', 'G', 'H', 'I', 'J', 'K', 'L', 'M', 'N', 'O', 'P', 'Q', 'R',
        'S', 'T', 'U', 'V', 'W', 'X', 'Y', 'Z',
    ];
    let mut punctuation = vec![
        ' ', ',', '.', ':', '"', '-', '@', ';', '<', '>', '+', '-', '_', '(', ')', '=', '*', '/',
        '\u{a1}', '!', '\u{bf}', '?', '#', '$', '%', '&', '\u{b0}', '\'', '^', '~', '[', ']', '{',
        '}',
    ];
    let mut numbers = vec!['1', '2', '3', '4', '5', '6', '7', '8', '9', '0'];
    let mut extras = vec![
        '\u{e1}', '\u{c1}', '\u{e9}', '\u{c9}', '\u{ed}', '\u{cd}', '\u{f3}', '\u{d3}', '\u{fa}',
        '\u{da}', '\u{e4}', '\u{c4}', '\u{eb}', '\u{cb}', '\u{ef}', '\u{cf}', '\u{f6}', '\u{d6}',
        '\u{fc}', '\u{dc}', '\u{e7}', '\u{f1}', '\u{d1}',
    ];
    assert(chars@ =~= lower_letters());
    assert(upper_chars@ =~= upper_letters());
    assert(punctuation@ =~= self::punctuation());
    assert(numbers@ =~= self::numbers());
    assert(extras@ =~= accented_letters());
    chars.append(&mut upper_chars);
    chars.append(&mut punctuation);
    chars.append(&mut numbers);
    chars.append(&mut extras);
    chars
}

/// Whether `c` is `small` or `capital`.
pub open spec fn letter(c: char, small: char, capital: char) -> bool {
    c == small || c == capital
}

/// What `key` does on `screen`, if anything. `back` is what Escape does on
/// the error screen; the other screens do not look at it.
pub open spec fn binding(screen: Screen, key: Key, back: Action) -> Option<Action> {
    match screen {
        Screen::MainMenu => match key {
            Key::Esc => Some(Action::Exit),
            Key::Char(c) => if letter(c, 'e', 'E') {
                Some(Action::Exit)
            } else if letter(c, 'p', 'P') {
                Some(Action::StartPractice)
            } else if letter(c, 's', 'S') {
                Some(Action::OpenStatistics)
            } else {
                None
            },
            _ => None,
        },
        Screen::User => match key {
            Key::Char(c) => if all_chars().contains(c) {
                Some(Action::NameChar(c))
            } else {
                None
            },
            Key::Backspace => Some(Action::NameErase),
            Key::Enter => Some(Action::SubmitName),
            _ => None,
        },
        Screen::Practice => match key {
            Key::Char(c) => if all_chars().contains(c) {
                Some(Action::TypeChar(c))
            } else {
                None
            },
            Key::Backspace => Some(Action::EraseChar),
            Key::Esc => Some(Action::OpenMainMenu),
            _ => None,
        },
        Screen::End => match key {
            Key::Esc => Some(Action::OpenMainMenu),
            Key::Char(c) => if c == 'r' {
                Some(Action::StartPractice)
            } else if c == 'm' {
                Some(Action::OpenMainMenu)
            } else if c == 's' {
                Some(Action::OpenStatistics)
            } else {
                None
            },
            _ => None,
        },
        Screen::Statistics => match key {
            Key::Esc => Some(Action::OpenMainMenu),
            Key::Tab => Some(Action::ToggleCharts),
            _ => None,
        },
        Screen::Error => match key {
            Key::Esc => Some(back),
            _ => None,
        },
    }
}

impl WindowView {
    /// The window shows `screen` with `message`, and its keys do what the
    /// screen binds them to.
    pub open spec fn shows(self, screen: Screen, message: Seq<char>, back: Action) -> bool {
        &&& self.screen == screen
        &&& self.message == message
        &&& forall|key: Key| #[trigger] bound(self.commands, key) == binding(screen, key, back)
    }
}

/// A window was made, and it is the one described.
pub open spec fn made(window: Option<Window>, screen: Screen, message: Seq<char>, back: Action) -> bool {
    match window {
        Some(w) => w@.shows(screen, message, back),
        None => false,
    }
}

/// No key ends the program but on the main menu, or on an error screen
/// that was made to lead there.
pub proof fn law_exit_from_main_menu_only(screen: Screen, key: Key, back: Action)
    requires
        binding(screen, key, back) == Some(Action::Exit),
    ensures
        screen == Screen::MainMenu || (screen == Screen::Error && back == Action::Exit),
{
}

/// A key that a screen does not bind does nothing, and the keys that no
/// screen tells from one another are bound nowhere.
pub proof fn law_other_keys_unbound(screen: Screen, back: Action)
    ensures
        binding(screen, Key::Other, back) is None,
{
}

impl Window {
    /// What `key` does on this window; `None` where the window does not bind
    /// it, and nothing is to change.
    pub fn action_for(&self, key: Key) -> (action: Option<Action>)
        ensures
            action == bound(self@.commands, key),
    {
        find_command(&self.commands, key)
    }
}

/// Adds one binding to a table.
fn bind(commands: &mut Vec<WindowCommand>, key: Key, action: Action)
    ensures
        forall|k: Key| #[trigger]
            bound(final(commands)@, k) == if k == key {
                Some(action)
            } else {
                bound(old(commands)@, k)
            },
{
    let extra = WindowCommand { activator_key: key, action };
    commands.push(extra);
    proof {
        assert forall|k: Key| #[trigger]
            bound(commands@, k) == if k == key {
                Some(action)
            } else {
                bound(old(commands)@, k)
            } by {
            lemma_bound_push(old(commands)@, extra, k);
        }
    }
}

/// The window of the main menu.
pub fn main_menu() -> (window: Window)
    ensures
        window@.shows(Screen::MainMenu, Seq::empty(), Action::Exit),
{
    let mut commands: Vec<WindowCommand> = Vec::new();
    bind(&mut commands, Key::Char('e'), Action::Exit);
    bind(&mut commands, Key::Char('E'), Action::Exit);
    bind(&mut commands, Key::Esc, Action::Exit);
    bind(&mut commands, Key::Char('p'), Action::StartPractice);
    bind(&mut commands, Key::Char('P'), Action::StartPractice);
    bind(&mut commands, Key::Char('s'), Action::OpenStatistics);
    bind(&mut commands, Key::Char('S'), Action::OpenStatistics);
    Window { screen: Screen::MainMenu, commands, message: String::new() }
}

/// The window of the name entry.
pub fn user_entry() -> (window: Window)
    ensures
        window@.shows(Screen::User, Seq::empty(), Action::Exit),
{
    let chars = generate_all_chars();
    let mut commands: Vec<WindowCommand> = Vec::new();
    add_to_commands(&mut commands, &chars, CharCommand::Name);
    bind(&mut commands, Key::Backspace, Action::NameErase);
    bind(&mut commands, Key::Enter, Action::SubmitName);
    Window { screen: Screen::User, commands, message: String::new() }
}

/// The window of the typing session.
pub fn practice() -> (window: Window)
    ensures
        window@.shows(Screen::Practice, Seq::empty(), Action::Exit),
{
    let mut commands: Vec<WindowCommand> = Vec::new();
    bind(&mut commands, Key::Esc, Action::OpenMainMenu);
    bind(&mut commands, Key::Backspace, Action::EraseChar);
    let chars = generate_all_chars();
    add_to_commands(&mut commands, &chars, CharCommand::Type);
    Window { screen: Screen::Practice, commands, message: String::new() }
}

/// The window of the results.
pub fn results() -> (window: Window)
    ensures
        window@.shows(Screen::End, Seq::empty(), Action::Exit),
{
    let mut commands: Vec<WindowCommand> = Vec::new();
    bind(&mut commands, Key::Esc, Action::OpenMainMenu);
    bind(&mut commands, Key::Char('r'), Action::StartPractice);
    bind(&mut commands, Key::Char('m'), Action::OpenMainMenu);
    bind(&mut commands, Key::Char('s'), Action::OpenStatistics);
    Window { screen: Screen::End, commands, message: String::new() }
}

/// The window of the statistics.
pub fn statistics() -> (window: Window)
    ensures
        window@.shows(Screen::Statistics, Seq::empty(), Action::Exit),
{
    let mut commands: Vec<WindowCommand> = Vec::new();
    bind(&mut commands, Key::Esc, Action::OpenMainMenu);
    bind(&mut commands, Key::Tab, Action::ToggleCharts);
    Window { screen: Screen::Statistics, commands, message: String::new() }
}

/// The error screen with its message; Escape does `return_window`.
pub fn create_error_window(error: String, return_window: Action) -> (window: Option<Window>)
    ensures
        made(window, Screen::Error, error@, return_window),
{
    let mut commands: Vec<WindowCommand> = Vec::new();
    bind(&mut commands, Key::Esc, return_window);
    Some(Window { screen: Screen::Error, commands, message: error })
}

} // verus!
