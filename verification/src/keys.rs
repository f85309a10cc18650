//! Keys, and the table that binds keys to what they do on a screen.

use vstd::prelude::*;

verus! {

/// A key of the keyboard, as far as the screens tell keys apart.
#[derive(Clone, Copy, Debug, PartialEq, Eq, Structural)]
pub enum Key {
    Char(char),
    Backspace,
    Enter,
    Tab,
    Esc,
    /// Any other key; no screen binds it.
    Other,
}

/// What a bound key does.
#[derive(Clone, Copy, Debug, PartialEq, Eq, Structural)]
pub enum Action {
    /// Leave the program.
    Exit,
    /// Go to the main menu, or to the name entry where no name is stored.
    OpenMainMenu,
    /// Begin a fresh attempt at a paragraph picked at random.
    StartPractice,
    /// Go to the statistics.
    OpenStatistics,
    /// Switch the statistics between line chart and bar charts.
    ToggleCharts,
    /// Type the character on the cell under the cursor.
    TypeChar(char),
    /// Take back the last typed key.
    EraseChar,
    /// Store the finished run, then show the results.
    SaveRun,
    /// Show the results of the finished run.
    ShowResults,
    /// Go to the name entry.
    OpenUser,
    /// Add the character to the name being entered.
    NameChar(char),
    /// Drop the last character of the name being entered.
    NameErase,
    /// Store the name, then go to the main menu.
    SubmitName,
}

/// What the character keys of a screen do with their character.
#[derive(Clone, Copy, Debug, PartialEq, Eq, Structural)]
pub enum CharCommand {
    /// Type it into the paragraph.
    Type,
    /// Add it to the name.
    Name,
}

impl CharCommand {
    /// What the key of `c` does.
    pub open spec fn spec_action(self, c: char) -> Action {
        match self {
            CharCommand::Type => Action::TypeChar(c),
            CharCommand::Name => Action::NameChar(c),
        }
    }

    /// What the key of `c` does.
    #[verifier::when_used_as_spec(spec_action)]
    pub fn action(self, c: char) -> (action: Action)
        ensures
            action == self.spec_action(c),
    {
        match self {
            CharCommand::Type => Action::TypeChar(c),
            CharCommand::Name => Action::NameChar(c),
        }
    }
}

/// One binding of a key.
#[derive(Clone, Copy, Debug, PartialEq, Eq, Structural)]
pub struct WindowCommand {
    pub activator_key: Key,
    pub action: Action,
}

impl WindowCommand {
    /// The binding of the key of one character.
    pub open spec fn spec_new_char_command(activator: char, command: Action) -> WindowCommand {
        WindowCommand { activator_key: Key::Char(activator), action: command }
    }

    /// Binds the key of one character.
    #[verifier::when_used_as_spec(spec_new_char_command)]
    pub fn new_char_command(activator: char, command: Action) -> (bound: WindowCommand)
        ensures
            bound == Self::spec_new_char_command(activator, command),
    {
        WindowCommand { activator_key: Key::Char(activator), action: command }
    }
}

/// What `key` does by the first `n` bindings of a table. Where several bind
/// the key, the last one holds, as with a map that was filled in that order.
pub open spec fn bound_in(commands: Seq<WindowCommand>, key: Key, n: int) -> Option<Action>
    decreases n,
{
    if n <= 0 {
        None
    } else if commands[n - 1].activator_key == key {
        Some(commands[n - 1].action)
    } else {
        bound_in(commands, key, n - 1)
    }
}

/// What `key` does by a table of bindings, if it is bound at all.
pub open spec fn bound(commands: Seq<WindowCommand>, key: Key) -> Option<Action> {
    bound_in(commands, key, commands.len() as int)
}

/// What a key does by the first `n` bindings depends on those alone.
pub proof fn lemma_bound_in_prefix(a: Seq<WindowCommand>, b: Seq<WindowCommand>, key: Key, n: int)
    requires
        n <= a.len(),
        n <= b.len(),
        forall|i: int| 0 <= i < n ==> a[i] == b[i],
    ensures
        bound_in(a, key, n) == bound_in(b, key, n),
    decreases n,
{
    if n > 0 {
        lemma_bound_in_prefix(a, b, key, n - 1);
    }
}

/// One more binding at the end of a table rebinds its key and leaves every
/// other key as it was.
pub proof fn lemma_bound_push(commands: Seq<WindowCommand>, extra: WindowCommand, key: Key)
    ensures
        bound(commands.push(extra), key) == if extra.activator_key == key {
            Some(extra.action)
        } else {
            bound(commands, key)
        },
{
    lemma_bound_in_prefix(commands.push(extra), commands, key, commands.len() as int);
}

/// Looks `key` up in a table of bindings.
pub fn find_command(commands: &Vec<WindowCommand>, key: Key) -> (action: Option<Action>)
    ensures
        action == bound(commands@, key),
{
    let mut n = commands.len();
    while n > 0
        invariant
            n <= commands@.len(),
            bound(commands@, key) == bound_in(commands@, key, n as int),
        decreases n,
    {
        if commands[n - 1].activator_key == key {
            return Some(commands[n - 1].action);
        }
        n -= 1;
    }
    None
}

/// Binds the key of every character of `char_array` to what `cmd` makes of
/// the character. Keys that were bound before are bound anew; all other keys
/// keep their binding.
pub fn add_to_commands(commands: &mut Vec<WindowCommand>, char_array: &Vec<char>, cmd: CharCommand)
    ensures
        forall|key: Key| #[trigger]
            bound(final(commands)@, key) == match key {
                Key::Char(c) if char_array@.contains(c) => Some(cmd.action(c)),
                _ => bound(old(commands)@, key),
            },
{
    let mut i: usize = 0;
    while i < char_array.len()
        invariant
            i <= char_array@.len(),
            forall|key: Key| #[trigger]
                bound(commands@, key) == match key {
                    Key::Char(c) if char_array@.take(i as int).contains(c) => Some(cmd.action(c)),
                    _ => bound(old(commands)@, key),
                },
        decreases char_array@.len() - i,
    {
        let c = char_array[i];
        let ghost before = commands@;
        let extra = WindowCommand { activator_key: Key::Char(c), action: cmd.action(c) };
        commands.push(extra);
        proof {
            assert(commands@ == before.push(extra));
            let done = char_array@.take(i as int);
            let more = char_array@.take(i + 1);
            assert(more =~= done.push(c));
            assert forall|key: Key| #[trigger]
                bound(commands@, key) == match key {
                    Key::Char(d) if more.contains(d) => Some(cmd.action(d)),
                    _ => bound(old(commands)@, key),
                } by {
                lemma_bound_push(before, extra, key);
                match key {
                    Key::Char(d) => {
                        if d == c {
                            assert(more[i as int] == c);
                        } else if more.contains(d) {
                            let j = choose|j: int| 0 <= j < more.len() && more[j] == d;
                            assert(done[j] == d);
                        } else if done.contains(d) {
                            let j = choose|j: int| 0 <= j < done.len() && done[j] == d;
                            assert(more[j] == d);
                        }
                    },
                    _ => {},
                }
            }
        }
        i += 1;
    }
    assert(char_array@.take(char_array@.len() as int) =~= char_array@);
}

} // verus!
