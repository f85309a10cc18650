//! The typing session: which cell the next key is held against, how each
//! cell was typed, and the two error counters.

use crate::clock::now_millis;
use crate::paragraph::{
    cell_chars, empty_paragraph, fresh_cells, word_count, AppParagraph, CharStatus, ParagraphChar, ParagraphView,
};
use vstd::prelude::*;

verus! {

/// The clock readings and counters of one attempt.
#[derive(Clone, Copy, Debug)]
pub struct PlayerStatistics {
    /// When the attempt began, in milliseconds since the Unix epoch.
    pub initial_time: i64,
    /// When the paragraph was completed, in milliseconds since the Unix epoch.
    pub end_time: i64,
    /// Cells typed wrong and not yet corrected.
    pub current_error_count: usize,
    /// Every wrong key of the attempt.
    pub total_error_count: usize,
    pub word_count: usize,
}

/// The statistics of an attempt that begins at `now`: both clock readings are
/// `now` and every counter is zero.
pub open spec fn fresh_statistics(now: i64) -> PlayerStatistics {
    PlayerStatistics {
        initial_time: now,
        end_time: now,
        current_error_count: 0,
        total_error_count: 0,
        word_count: 0,
    }
}

impl PlayerStatistics {
    /// The statistics of an attempt that begins at `now`.
    pub fn starting_at(now: i64) -> (statistics: PlayerStatistics)
        ensures
            statistics == fresh_statistics(now),
    {
        PlayerStatistics {
            initial_time: now,
            end_time: now,
            current_error_count: 0,
            total_error_count: 0,
            word_count: 0,
        }
    }
}

impl Default for PlayerStatistics {
    /// The statistics of an attempt that begins at the moment of the call.
    fn default() -> (statistics: PlayerStatistics)
        ensures
            statistics == fresh_statistics(statistics.initial_time),
    {
        PlayerStatistics::starting_at(now_millis())
    }
}

/// The typist: name, statistics and the index of the next cell to type.
#[derive(Debug)]
pub struct Player {
    pub user_name: String,
    pub statistics: PlayerStatistics,
    pub index: usize,
}

impl Clone for Player {
    fn clone(&self) -> (copy: Player)
        ensures
            copy.user_name@ == self.user_name@,
            copy.statistics == self.statistics,
            copy.index == self.index,
    {
        Player {
            user_name: self.user_name.clone(),
            statistics: self.statistics,
            index: self.index,
        }
    }
}

impl Default for Player {
    /// A typist without a name at the first cell, at the moment of the call.
    fn default() -> (player: Player)
        ensures
            player.user_name@.len() == 0,
            player.index == 0,
            player.statistics == fresh_statistics(player.statistics.initial_time),
    {
        Player { user_name: String::new(), statistics: PlayerStatistics::default(), index: 0 }
    }
}

impl Player {
    /// Goes back to the first cell with fresh statistics that begin at `now`.
    /// The name stays.
    pub fn reset(&mut self, now: i64)
        ensures
            final(self).index == 0,
            final(self).statistics == fresh_statistics(now),
            final(self).user_name@ == old(self).user_name@,
    {
        self.index = 0;
        self.statistics = PlayerStatistics::starting_at(now);
    }
}

/// Everything that the screens share: the typist, the cells of the paragraph
/// in play, the paragraph itself and the chart mode of the statistics screen.
#[derive(Debug)]
pub struct State {
    pub player: Player,
    pub chars: Vec<ParagraphChar>,
    pub show_bar_charts: bool,
    pub paragraph: AppParagraph,
}

/// A `State` as plain values.
pub struct StateView {
    pub user_name: Seq<char>,
    pub cells: Seq<ParagraphChar>,
    /// The cursor: the index of the next cell to type.
    pub index: int,
    pub current_error_count: int,
    pub total_error_count: int,
    pub word_count: int,
    pub initial_time: int,
    pub end_time: int,
    pub show_bar_charts: bool,
    pub paragraph: ParagraphView,
}

/// One key of the typing screen: a character typed at a moment, or backspace.
#[derive(Clone, Copy, Debug)]
pub enum Stroke {
    Type(char, i64),
    Erase,
}

/// The cell with another status.
pub open spec fn marked(cell: ParagraphChar, status: CharStatus) -> ParagraphChar {
    ParagraphChar { character: cell.character, status }
}

/// The cell after `c` was typed on it.
pub open spec fn scored(cell: ParagraphChar, c: char) -> ParagraphChar {
    marked(
        cell,
        if cell.character == c {
            CharStatus::Correct
        } else {
            CharStatus::Wrong
        },
    )
}

/// How many of the first `n` cells are `Wrong`.
pub open spec fn count_wrong(cells: Seq<ParagraphChar>, n: int) -> int
    decreases n,
{
    if n <= 0 {
        0
    } else {
        count_wrong(cells, n - 1) + if cells[n - 1].status == CharStatus::Wrong {
            1int
        } else {
            0int
        }
    }
}

/// The status of cell `j` suits a cursor at `index`: typed before the cursor,
/// open under it, untouched behind it.
pub open spec fn placed(cells: Seq<ParagraphChar>, index: int, j: int) -> bool {
    if j < index {
        cells[j].status == CharStatus::Correct || cells[j].status == CharStatus::Wrong
    } else if j == index {
        cells[j].status == CharStatus::Default || cells[j].status == CharStatus::Current
    } else {
        cells[j].status == CharStatus::Default
    }
}

impl StateView {
    /// The cursor is within the cells; the cells before it are typed, the one
    /// under it is open, those behind it untouched; the cells spell the
    /// paragraph; and the current error count is the number of `Wrong` cells.
    pub open spec fn wf(self) -> bool {
        &&& 0 <= self.index <= self.cells.len()
        &&& cell_chars(self.cells) == self.paragraph.content
        &&& forall|i: int|
            0 <= i < self.index ==> (#[trigger] self.cells[i]).status == CharStatus::Correct
                || self.cells[i].status == CharStatus::Wrong
        &&& self.index < self.cells.len() ==> self.cells[self.index].status == CharStatus::Default
            || self.cells[self.index].status == CharStatus::Current
        &&& forall|i: int|
            self.index < i < self.cells.len() ==> (#[trigger] self.cells[i]).status
                == CharStatus::Default
        &&& self.current_error_count == count_wrong(self.cells, self.index)
    }

    /// The key `c` can be counted: it hits the cell under the cursor, or no
    /// cell is left, or the total error count has room for one more.
    pub open spec fn countable(self, c: char) -> bool {
        0 <= self.index < self.cells.len() && self.cells[self.index].character != c
            ==> self.total_error_count < usize::MAX
    }

    /// The key can be counted.
    pub open spec fn countable_key(self, key: Stroke) -> bool {
        match key {
            Stroke::Type(c, _) => self.countable(c),
            Stroke::Erase => true,
        }
    }

    /// No cell is left to type.
    pub open spec fn exhausted(self) -> bool {
        self.index == self.cells.len()
    }

    /// The paragraph is typed to its end and no error stands uncorrected.
    pub open spec fn complete(self) -> bool {
        self.exhausted() && self.current_error_count == 0
    }

    /// The session after `c` was typed on the cell under the cursor: the cell
    /// is scored, a miss counts in both counters, the cursor moves on and the
    /// cell it reaches, if there is one, becomes `Current`.
    pub open spec fn press(self, c: char) -> StateView
        recommends
            0 <= self.index < self.cells.len(),
    {
        let hit = self.cells[self.index].character == c;
        let typed = self.cells.update(self.index, scored(self.cells[self.index], c));
        let next = self.index + 1;
        StateView {
            cells: if next < self.cells.len() {
                typed.update(next, marked(self.cells[next], CharStatus::Current))
            } else {
                typed
            },
            index: next,
            current_error_count: if hit {
                self.current_error_count
            } else {
                self.current_error_count + 1
            },
            total_error_count: if hit {
                self.total_error_count
            } else {
                self.total_error_count + 1
            },
            ..self
        }
    }

    /// `press`, and the end time set to `now` if that completed the paragraph.
    pub open spec fn press_at(self, c: char, now: int) -> StateView
        recommends
            0 <= self.index < self.cells.len(),
    {
        let pressed = self.press(c);
        if pressed.complete() {
            StateView { end_time: now, ..pressed }
        } else {
            pressed
        }
    }

    /// The session after backspace. With the cursor on the first cell, and no
    /// error marked on that cell, nothing changes. Otherwise the cell under
    /// the cursor, if there is one, goes back to `Default`, the cursor steps
    /// back unless it is on the first cell, an error on the cell it reaches
    /// is taken off the current count (never off the total, and never below
    /// zero), and that cell becomes `Current`.
    pub open spec fn backspace(self) -> StateView
        recommends
            0 <= self.index <= self.cells.len(),
    {
        if self.index <= 0 && !(0 < self.cells.len() && self.cells[0].status
            == CharStatus::Wrong) {
            self
        } else {
            let cleared = if 0 <= self.index < self.cells.len() {
                self.cells.update(self.index, marked(self.cells[self.index], CharStatus::Default))
            } else {
                self.cells
            };
            let back = if self.index > 0 {
                self.index - 1
            } else {
                0
            };
            StateView {
                cells: cleared.update(back, marked(cleared[back], CharStatus::Current)),
                index: back,
                current_error_count: if cleared[back].status == CharStatus::Wrong
                    && self.current_error_count > 0 {
                    self.current_error_count - 1
                } else {
                    self.current_error_count
                },
                ..self
            }
        }
    }

    /// The session after one key. A character typed when no cell is left
    /// changes nothing.
    pub open spec fn stroke(self, key: Stroke) -> StateView {
        match key {
            Stroke::Type(c, now) => if 0 <= self.index < self.cells.len() {
                self.press_at(c, now as int)
            } else {
                self
            },
            Stroke::Erase => self.backspace(),
        }
    }

    /// The session after the first `n` of `keys`, in order.
    pub open spec fn replay(self, keys: Seq<Stroke>, n: int) -> StateView
        decreases n,
    {
        if n <= 0 {
            self
        } else {
            self.replay(keys, n - 1).stroke(keys[n - 1])
        }
    }

    /// A fresh attempt at `paragraph` that begins at `now`, for the same
    /// typist and with the chart mode as it was.
    pub open spec fn begin(self, paragraph: ParagraphView, now: int) -> StateView {
        StateView {
            user_name: self.user_name,
            cells: fresh_cells(paragraph.content),
            index: 0,
            current_error_count: 0,
            total_error_count: 0,
            word_count: word_count(paragraph.content),
            initial_time: now,
            end_time: now,
            show_bar_charts: self.show_bar_charts,
            paragraph,
        }
    }
}

impl View for State {
    type V = StateView;

    open spec fn view(&self) -> StateView {
        StateView {
            user_name: self.player.user_name@,
            cells: self.chars@,
            index: self.player.index as int,
            current_error_count: self.player.statistics.current_error_count as int,
            total_error_count: self.player.statistics.total_error_count as int,
            word_count: self.player.statistics.word_count as int,
            initial_time: self.player.statistics.initial_time as int,
            end_time: self.player.statistics.end_time as int,
            show_bar_charts: self.show_bar_charts,
            paragraph: self.paragraph@,
        }
    }
}

impl Clone for State {
    fn clone(&self) -> (copy: State)
        ensures
            copy@ == self@,
    {
        let mut chars: Vec<ParagraphChar> = Vec::new();
        let mut i: usize = 0;
        while i < self.chars.len()
            invariant
                i <= self.chars@.len(),
                chars@ == self.chars@.take(i as int),
            decreases self.chars@.len() - i,
        {
            chars.push(self.chars[i]);
            assert(self.chars@.take(i + 1) =~= self.chars@.take(i as int).push(self.chars@[i as int]));
            i += 1;
        }
        assert(self.chars@.take(self.chars@.len() as int) =~= self.chars@);
        State {
            player: self.player.clone(),
            chars,
            show_bar_charts: self.show_bar_charts,
            paragraph: self.paragraph.clone(),
        }
    }
}

impl Default for State {
    /// A state with no paragraph loaded and no name, at the moment of the
    /// call.
    fn default() -> (state: State)
        ensures
            state.wf(),
            state@.cells.len() == 0,
            state@.index == 0,
            state@.user_name.len() == 0,
            state@.paragraph == empty_paragraph(),
    {
        State::new()
    }
}

impl State {
    /// The invariant of the session, on the state's plain values.
    pub open spec fn wf(&self) -> bool {
        self@.wf()
    }

    /// Whether the invariant of the session holds.
    pub fn is_well_formed(&self) -> (ok: bool)
        ensures
            ok == self.wf(),
    {
        let n = self.chars.len();
        let index = self.player.index;
        if index > n {
            return false;
        }
        let mut i: usize = 0;
        let mut wrong: usize = 0;
        let mut fine = true;
        while i < n
            invariant
                n == self.chars@.len(),
                index == self.player.index,
                index <= n,
                i <= n,
                wrong <= i,
                wrong == count_wrong(self.chars@, if i < index { i as int } else { index as int }),
                fine == (forall|j: int| 0 <= j < i ==> placed(self.chars@, index as int, j)),
            decreases n - i,
        {
            let status = self.chars[i].status;
            let here = if i < index {
                status == CharStatus::Correct || status == CharStatus::Wrong
            } else if i == index {
                status == CharStatus::Default || status == CharStatus::Current
            } else {
                status == CharStatus::Default
            };
            assert(here == placed(self.chars@, index as int, i as int));
            if i < index && status == CharStatus::Wrong {
                wrong += 1;
            }
            fine = fine && here;
            i += 1;
        }
        let text = self.paragraph.content.as_str();
        let mut same = true;
        let mut k: usize = 0;
        for c in it: text.chars()
            invariant
                it.seq() == text@,
                n == self.chars@.len(),
                k <= it.index(),
                k <= n,
                same ==> k == it.index(),
                same == (it.index() <= n && forall|j: int|
                    0 <= j < it.index() ==> (#[trigger] self.chars@[j]).character == text@[j]),
        {
            if same && k < n && self.chars[k].character == c {
                k += 1;
            } else {
                same = false;
            }
        }
        let ok = fine && same && k == n && wrong == self.player.statistics.current_error_count;
        proof {
            let v = self@;
            if same && k == n {
                assert(cell_chars(v.cells) =~= v.paragraph.content);
            } else {
                if cell_chars(v.cells) == v.paragraph.content {
                    assert(v.cells.len() == text@.len());
                    assert forall|j: int| 0 <= j < text@.len() implies (#[trigger] v.cells[j]).character
                        == text@[j] by {
                        assert(cell_chars(v.cells)[j] == v.cells[j].character);
                    }
                    assert(false);
                }
            }
            if fine {
                assert forall|j: int| 0 <= j < v.index implies (#[trigger] v.cells[j]).status
                    == CharStatus::Correct || v.cells[j].status == CharStatus::Wrong by {
                    assert(placed(v.cells, v.index, j));
                }
                assert forall|j: int| v.index < j < v.cells.len() implies (#[trigger] v.cells[j]).status
                    == CharStatus::Default by {
                    assert(placed(v.cells, v.index, j));
                }
                if v.index < v.cells.len() {
                    assert(placed(v.cells, v.index, v.index));
                }
            } else {
                let j = choose|j: int| 0 <= j < n && !placed(self.chars@, index as int, j);
                assert(!placed(v.cells, v.index, j));
            }
        }
        ok
    }

    /// A state with no paragraph loaded and no name, at the moment of the call.
    pub fn new() -> (state: State)
        ensures
            state.wf(),
            state@.cells.len() == 0,
            state@.index == 0,
            state@.user_name.len() == 0,
            state@.current_error_count == 0,
            state@.total_error_count == 0,
            state@.word_count == 0,
            state@.end_time == state@.initial_time,
            !state@.show_bar_charts,
            state@.paragraph == empty_paragraph(),
    {
        let state = State {
            player: Player {
                user_name: String::new(),
                statistics: PlayerStatistics::default(),
                index: 0,
            },
            chars: Vec::new(),
            show_bar_charts: false,
            paragraph: AppParagraph::new(),
        };
        assert(cell_chars(state.chars@) =~= state.paragraph@.content);
        state
    }

    /// Drops the paragraph and its cells, puts the cursor back on the first
    /// cell with no error outstanding, and goes back to the line chart.
    pub fn reset(&mut self)
        ensures
            final(self).wf(),
            final(self)@ == (StateView {
                cells: Seq::empty(),
                index: 0,
                current_error_count: 0,
                show_bar_charts: false,
                paragraph: empty_paragraph(),
                ..old(self)@
            }),
    {
        self.chars = Vec::new();
        self.paragraph = AppParagraph::new();
        self.show_bar_charts = false;
        self.player.index = 0;
        self.player.statistics.current_error_count = 0;
        assert(cell_chars(self.chars@) =~= self.paragraph@.content);
    }

    /// Begins a fresh attempt at `paragraph` at the moment `now`.
    pub fn begin(&mut self, paragraph: AppParagraph, now: i64)
        ensures
            final(self).wf(),
            final(self)@ == old(self)@.begin(paragraph@, now as int),
    {
        self.player.reset(now);
        self.player.statistics.word_count = paragraph.get_word_count();
        self.chars = paragraph.get_paragraph_chars();
        self.paragraph = paragraph;
        assert(cell_chars(self.chars@) =~= self.paragraph@.content);
    }

    /// Types `c` on the cell under the cursor at the moment `now`, and says
    /// whether that completed the paragraph.
    pub fn press_char(&mut self, c: char, now: i64) -> (completed: bool)
        requires
            old(self).wf(),
            old(self)@.index < old(self)@.cells.len(),
            old(self)@.countable(c),
        ensures
            final(self).wf(),
            final(self)@ == old(self)@.press_at(c, now as int),
            completed == final(self)@.complete(),
    {
        let index = self.player.index;
        proof {
            lemma_count_wrong_bound(self@.cells, index as int);
        }
        assert(index < self.chars.len());
        let cell = self.chars[index];
        let hit = cell.character == c;
        let status = if hit {
            CharStatus::Correct
        } else {
            CharStatus::Wrong
        };
        self.chars.set(index, ParagraphChar::new(cell.character, status));
        self.player.index = index + 1;
        if !hit {
            self.player.statistics.current_error_count += 1;
            self.player.statistics.total_error_count += 1;
        }
        let end_of_paragraph = self.player.index == self.chars.len();
        let completed = end_of_paragraph && self.player.statistics.current_error_count == 0;
        if completed {
            self.player.statistics.end_time = now;
        } else if !end_of_paragraph {
            let next = self.chars[index + 1];
            self.chars.set(index + 1, ParagraphChar::new(next.character, CharStatus::Current));
        }
        proof {
            lemma_press_keeps_wf(old(self)@, c, now as int);
            assert(self@.cells =~= old(self)@.press_at(c, now as int).cells);
        }
        completed
    }

    /// Applies one key of the typing screen. A character typed when no cell
    /// is left changes nothing.
    pub fn stroke(&mut self, key: Stroke)
        requires
            old(self).wf(),
            old(self)@.countable_key(key),
        ensures
            final(self).wf(),
            final(self)@ == old(self)@.stroke(key),
    {
        match key {
            Stroke::Type(c, now) => {
                if self.player.index < self.chars.len() {
                    let _ = self.press_char(c, now);
                }
            },
            Stroke::Erase => {
                self.press_backspace();
            },
        }
    }

    /// Takes back the last key.
    pub fn press_backspace(&mut self)
        requires
            old(self).wf(),
        ensures
            final(self).wf(),
            final(self)@ == old(self)@.backspace(),
    {
        let index = self.player.index;
        if index == 0 {
            return ;
        }
        if index != self.chars.len() {
            let open = self.chars[index];
            self.chars.set(index, ParagraphChar::new(open.character, CharStatus::Default));
        }
        let back = index - 1;
        self.player.index = back;
        let cell = self.chars[back];
        match cell.status {
            CharStatus::Wrong => {
                if self.player.statistics.current_error_count > 0 {
                    self.player.statistics.current_error_count -= 1;
                }
            },
            _ => {},
        }
        self.chars.set(back, ParagraphChar::new(cell.character, CharStatus::Current));
        proof {
            lemma_backspace_keeps_wf(old(self)@);
            assert(self@.cells =~= old(self)@.backspace().cells);
        }
    }
}

/// The count of `Wrong` cells looks at the status of the first `n` cells only.
pub proof fn lemma_count_wrong_same(a: Seq<ParagraphChar>, b: Seq<ParagraphChar>, n: int)
    requires
        n <= a.len(),
        n <= b.len(),
        forall|i: int| 0 <= i < n ==> (#[trigger] a[i]).status == b[i].status,
    ensures
        count_wrong(a, n) == count_wrong(b, n),
    decreases n,
{
    if n > 0 {
        lemma_count_wrong_same(a, b, n - 1);
        assert(a[n - 1].status == b[n - 1].status);
    }
}

/// Of `n` cells at most `n` are `Wrong`.
pub proof fn lemma_count_wrong_bound(cells: Seq<ParagraphChar>, n: int)
    requires
        0 <= n,
    ensures
        0 <= count_wrong(cells, n) <= n,
    decreases n,
{
    if n > 0 {
        lemma_count_wrong_bound(cells, n - 1);
    }
}

/// A key typed on a well-formed session that has a cell left leaves it
/// well-formed, with the cursor one cell further.
pub proof fn lemma_press_keeps_wf(s: StateView, c: char, now: int)
    requires
        s.wf(),
        s.index < s.cells.len(),
    ensures
        s.press(c).wf(),
        s.press_at(c, now).wf(),
        s.press(c).index == s.index + 1,
{
    let p = s.press(c);
    assert(cell_chars(p.cells) =~= cell_chars(s.cells));
    lemma_count_wrong_same(s.cells, p.cells, s.index);
    assert(p.cells[s.index] == scored(s.cells[s.index], c));
    let q = s.press_at(c, now);
    assert(q.cells == p.cells);
}

/// Backspace leaves a well-formed session well-formed.
pub proof fn lemma_backspace_keeps_wf(s: StateView)
    requires
        s.wf(),
    ensures
        s.backspace().wf(),
{
    let b = s.backspace();
    if s.index > 0 {
        assert(cell_chars(b.cells) =~= cell_chars(s.cells));
        lemma_count_wrong_same(s.cells, b.cells, s.index - 1);
        lemma_count_wrong_bound(s.cells, s.index - 1);
        assert(s.cells[s.index - 1].status == CharStatus::Correct || s.cells[s.index - 1].status
            == CharStatus::Wrong);
    }
}

/// Whatever keys are typed on a well-formed session, in whatever order, the
/// session stays well-formed: the cursor never leaves the range from zero to
/// the number of cells, and the cells still spell the same paragraph.
pub proof fn law_cursor_stays_in_range(s: StateView, keys: Seq<Stroke>, n: int)
    requires
        s.wf(),
        0 <= n <= keys.len(),
    ensures
        s.replay(keys, n).wf(),
        0 <= s.replay(keys, n).index <= s.replay(keys, n).cells.len(),
        s.replay(keys, n).cells.len() == s.cells.len(),
        s.replay(keys, n).paragraph == s.paragraph,
    decreases n,
{
    if n > 0 {
        law_cursor_stays_in_range(s, keys, n - 1);
        let before = s.replay(keys, n - 1);
        match keys[n - 1] {
            Stroke::Type(c, now) => {
                if 0 <= before.index < before.cells.len() {
                    lemma_press_keeps_wf(before, c, now as int);
                }
            },
            Stroke::Erase => {
                lemma_backspace_keeps_wf(before);
            },
        }
    }
}

/// Typing the character of the cell under the cursor moves the cursor on by
/// exactly one and changes neither error counter.
pub proof fn law_hit_advances(s: StateView, c: char, now: int)
    requires
        0 <= s.index < s.cells.len(),
        s.cells[s.index].character == c,
    ensures
        s.press_at(c, now).index == s.index + 1,
        s.press_at(c, now).total_error_count == s.total_error_count,
        s.press_at(c, now).current_error_count == s.current_error_count,
        s.press_at(c, now).cells[s.index].status == CharStatus::Correct,
{
}

/// Typing any other character adds one to both error counters and moves the
/// cursor on by one.
pub proof fn law_miss_counts(s: StateView, c: char, now: int)
    requires
        0 <= s.index < s.cells.len(),
        s.cells[s.index].character != c,
    ensures
        s.press_at(c, now).index == s.index + 1,
        s.press_at(c, now).total_error_count == s.total_error_count + 1,
        s.press_at(c, now).current_error_count == s.current_error_count + 1,
        s.press_at(c, now).cells[s.index].status == CharStatus::Wrong,
{
}

/// After a wrong key, backspace brings the current error count back to what
/// it was before the error and the cursor back to the cell, and typing the
/// cell's own character then keeps both: the total keeps the one error.
pub proof fn law_correction_restores(s: StateView, wrong: char, t0: int, t1: int)
    requires
        s.wf(),
        s.index < s.cells.len(),
        s.cells[s.index].character != wrong,
    ensures
        s.press_at(wrong, t0).backspace().index == s.index,
        s.press_at(wrong, t0).backspace().current_error_count == s.current_error_count,
        s.press_at(wrong, t0).backspace().total_error_count == s.total_error_count + 1,
        s.press_at(wrong, t0).backspace().press_at(
            s.cells[s.index].character,
            t1,
        ).current_error_count == s.current_error_count,
        s.press_at(wrong, t0).backspace().press_at(
            s.cells[s.index].character,
            t1,
        ).total_error_count == s.total_error_count + 1,
        s.press_at(wrong, t0).backspace().press_at(s.cells[s.index].character, t1).index
            == s.index + 1,
{
    lemma_count_wrong_bound(s.cells, s.index);
    let p = s.press_at(wrong, t0);
    assert(p.cells[s.index].status == CharStatus::Wrong);
}

/// In a well-formed session no cell but the one under the cursor is
/// `Current`.
pub proof fn law_one_current_cell(s: StateView, i: int)
    requires
        s.wf(),
        0 <= i < s.cells.len(),
        s.cells[i].status == CharStatus::Current,
    ensures
        i == s.index,
{
}

/// No key changes a character of the paragraph or the number of its cells.
pub proof fn law_characters_stay(s: StateView, key: Stroke)
    requires
        0 <= s.index <= s.cells.len(),
    ensures
        cell_chars(s.stroke(key).cells) == cell_chars(s.cells),
        s.stroke(key).paragraph == s.paragraph,
        s.stroke(key).word_count == s.word_count,
        s.stroke(key).initial_time == s.initial_time,
{
    assert(cell_chars(s.stroke(key).cells) =~= cell_chars(s.cells));
}

/// The total error count never falls, whatever the key.
pub proof fn law_total_never_falls(s: StateView, key: Stroke)
    ensures
        s.stroke(key).total_error_count >= s.total_error_count,
{
}

/// Backspace never changes the total error count, and never raises the
/// current one.
pub proof fn law_backspace_keeps_total(s: StateView)
    ensures
        s.backspace().total_error_count == s.total_error_count,
        s.backspace().current_error_count <= s.current_error_count,
{
}

/// A key completes the paragraph exactly when it leaves the cursor behind
/// the last cell with no error outstanding, and only then is the end time
/// set.
pub proof fn law_completion(s: StateView, c: char, now: int)
    requires
        0 <= s.index < s.cells.len(),
    ensures
        s.press_at(c, now).complete() <==> s.press(c).index == s.cells.len() && s.press(
            c,
        ).current_error_count == 0,
        s.press_at(c, now).complete() ==> s.press_at(c, now).end_time == now,
        !s.press_at(c, now).complete() ==> s.press_at(c, now).end_time == s.end_time,
{
}

} // verus!
