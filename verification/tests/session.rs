use trace::paragraph::{AppParagraph, CharStatus, Color, ParagraphChar, Style};
use trace::record::TraceRun;
use trace::session::{Player, PlayerStatistics, State, Stroke};
use trace::convert_string_to_chars;

fn paragraph(content: &str) -> AppParagraph {
    AppParagraph {
        content: content.to_string(),
        title: "Title".to_string(),
        author: "Author".to_string(),
        date: "1999".to_string(),
    }
}

fn session(content: &str, now: i64) -> State {
    let mut state = State::new();
    state.begin(paragraph(content), now);
    state
}

fn statuses(state: &State) -> Vec<CharStatus> {
    state.chars.iter().map(|c| c.status).collect()
}

#[test]
fn new_state_is_empty() {
    let state = State::new();
    assert_eq!(state.chars.len(), 0);
    assert_eq!(state.player.index, 0);
    assert_eq!(state.player.user_name, "");
    assert_eq!(state.player.statistics.current_error_count, 0);
    assert_eq!(state.player.statistics.total_error_count, 0);
    assert!(!state.show_bar_charts);
    assert_eq!(state.paragraph.content, "");
}

#[test]
fn default_statistics_start_at_zero() {
    let statistics = PlayerStatistics::default();
    assert_eq!(statistics.current_error_count, 0);
    assert_eq!(statistics.total_error_count, 0);
    assert_eq!(statistics.word_count, 0);
    assert_eq!(statistics.initial_time, statistics.end_time);
}

#[test]
fn player_reset_keeps_the_name() {
    let mut player = Player {
        user_name: "ann".to_string(),
        statistics: PlayerStatistics::starting_at(5),
        index: 7,
    };
    player.statistics.total_error_count = 3;
    player.reset(42);
    assert_eq!(player.index, 0);
    assert_eq!(player.user_name, "ann");
    assert_eq!(player.statistics.initial_time, 42);
    assert_eq!(player.statistics.end_time, 42);
    assert_eq!(player.statistics.total_error_count, 0);
}

#[test]
fn cells_of_a_string() {
    let cells = convert_string_to_chars("h\u{e9}".to_string());
    assert_eq!(cells.len(), 2);
    assert_eq!(cells[0].character, 'h');
    assert_eq!(cells[1].character, '\u{e9}');
    assert_eq!(cells[0].status, CharStatus::Default);
    assert_eq!(cells[1].status, CharStatus::Default);
    assert_eq!(convert_string_to_chars(String::new()).len(), 0);
}

#[test]
fn paragraph_cells_and_words() {
    let p = paragraph("ab cd");
    let cells = p.get_paragraph_chars();
    assert_eq!(cells.len(), 5);
    assert_eq!(cells[2].character, ' ');
    assert_eq!(p.get_word_count(), 2);
    assert_eq!(paragraph("ab").get_word_count(), 1);
    assert_eq!(paragraph("").get_word_count(), 0);
    assert_eq!(paragraph("   ").get_word_count(), 0);
    assert_eq!(paragraph("a  b").get_word_count(), 2);
    assert_eq!(paragraph("a\tb").get_word_count(), 2);
    assert_eq!(paragraph(" a\nb c ").get_word_count(), 3);
    assert_eq!(paragraph("a\u{a0}b\u{3000}c\u{2003}d").get_word_count(), 4);
    assert_eq!(paragraph("a\u{200b}b").get_word_count(), 1);
    for text in ["", " ", "a b", "  a   b  ", "one\ttwo\r\nthree", "\u{85}x\u{1680}y"] {
        assert_eq!(paragraph(text).get_word_count(), text.split_whitespace().count());
    }
    assert_eq!(AppParagraph::new().content, "");
    let cell = ParagraphChar::new('x', CharStatus::Wrong);
    assert_eq!(cell.character, 'x');
    assert_eq!(cell.status, CharStatus::Wrong);
}

#[test]
fn paragraph_clone_keeps_every_field() {
    let p = paragraph("ab");
    let q = p.clone();
    assert_eq!(q.content, "ab");
    assert_eq!(q.title, "Title");
    assert_eq!(q.author, "Author");
    assert_eq!(q.date, "1999");
}

#[test]
fn begin_sets_up_the_attempt() {
    let mut state = State::new();
    state.player.user_name = "ann".to_string();
    state.show_bar_charts = true;
    state.begin(paragraph("to be"), 1000);
    assert_eq!(state.chars.len(), 5);
    assert_eq!(state.player.index, 0);
    assert_eq!(state.player.statistics.word_count, 2);
    assert_eq!(state.player.statistics.initial_time, 1000);
    assert_eq!(state.player.statistics.end_time, 1000);
    assert_eq!(state.player.user_name, "ann");
    assert!(state.show_bar_charts);
    assert_eq!(state.paragraph.title, "Title");
    assert!(statuses(&state).iter().all(|s| *s == CharStatus::Default));
}

#[test]
fn reset_drops_the_paragraph() {
    let mut state = session("ab", 0);
    state.show_bar_charts = true;
    state.press_char('x', 1);
    state.reset();
    assert_eq!(state.chars.len(), 0);
    assert_eq!(state.paragraph.content, "");
    assert!(!state.show_bar_charts);
    assert_eq!(state.player.index, 0);
    assert_eq!(state.player.statistics.current_error_count, 0);
    assert_eq!(state.player.statistics.total_error_count, 1);
}

#[test]
fn correct_key_advances_without_error() {
    let mut state = session("abc", 0);
    let done = state.press_char('a', 10);
    assert!(!done);
    assert_eq!(state.player.index, 1);
    assert_eq!(state.player.statistics.total_error_count, 0);
    assert_eq!(state.player.statistics.current_error_count, 0);
    assert_eq!(
        statuses(&state),
        vec![CharStatus::Correct, CharStatus::Current, CharStatus::Default]
    );
}

#[test]
fn wrong_key_counts_twice_and_advances() {
    let mut state = session("abc", 0);
    let done = state.press_char('z', 10);
    assert!(!done);
    assert_eq!(state.player.index, 1);
    assert_eq!(state.player.statistics.total_error_count, 1);
    assert_eq!(state.player.statistics.current_error_count, 1);
    assert_eq!(
        statuses(&state),
        vec![CharStatus::Wrong, CharStatus::Current, CharStatus::Default]
    );
    assert_eq!(state.chars[0].character, 'a');
}

#[test]
fn cursor_stays_in_range_over_a_mixed_sequence() {
    let mut state = session("abc", 0);
    let keys = ['a', 'x', '\u{8}', '\u{8}', '\u{8}', 'a', 'b', 'x', '\u{8}', 'c'];
    for (i, k) in keys.iter().enumerate() {
        if *k == '\u{8}' {
            state.press_backspace();
        } else if state.player.index < state.chars.len() {
            state.press_char(*k, i as i64);
        }
        assert!(state.player.index <= state.chars.len());
        assert_eq!(state.chars.len(), 3);
    }
    assert_eq!(state.player.index, 3);
    assert_eq!(state.player.statistics.current_error_count, 0);
    assert_eq!(state.player.statistics.total_error_count, 2);
}

#[test]
fn backspace_at_the_first_cell_changes_nothing() {
    let mut state = session("ab", 0);
    state.press_backspace();
    assert_eq!(state.player.index, 0);
    assert_eq!(statuses(&state), vec![CharStatus::Default, CharStatus::Default]);
    assert_eq!(state.player.statistics.current_error_count, 0);
    let mut empty = State::new();
    empty.press_backspace();
    assert_eq!(empty.player.index, 0);
}

#[test]
fn backspace_reopens_the_previous_cell() {
    let mut state = session("abc", 0);
    state.press_char('a', 1);
    state.press_char('x', 2);
    assert_eq!(state.player.statistics.current_error_count, 1);
    state.press_backspace();
    assert_eq!(state.player.index, 1);
    assert_eq!(state.player.statistics.current_error_count, 0);
    assert_eq!(state.player.statistics.total_error_count, 1);
    assert_eq!(
        statuses(&state),
        vec![CharStatus::Correct, CharStatus::Current, CharStatus::Default]
    );
    state.press_backspace();
    assert_eq!(state.player.index, 0);
    assert_eq!(state.player.statistics.current_error_count, 0);
    assert_eq!(
        statuses(&state),
        vec![CharStatus::Current, CharStatus::Default, CharStatus::Default]
    );
}

#[test]
fn backspace_then_the_right_key_restores_the_current_count() {
    let mut state = session("abc", 0);
    state.press_char('a', 1);
    let before = state.player.statistics.current_error_count;
    state.press_char('x', 2);
    let total = state.player.statistics.total_error_count;
    state.press_backspace();
    state.press_char('b', 3);
    assert_eq!(state.player.statistics.current_error_count, before);
    assert_eq!(state.player.statistics.total_error_count, total);
    assert_eq!(state.player.index, 2);
}

#[test]
fn completion_needs_the_end_and_no_open_error() {
    let mut state = session("ab", 0);
    assert!(!state.press_char('a', 100));
    assert!(state.press_char('b', 200));
    assert_eq!(state.player.statistics.end_time, 200);

    let mut state = session("ab", 0);
    assert!(!state.press_char('x', 100));
    assert!(!state.press_char('b', 200));
    assert_eq!(state.player.index, 2);
    assert_eq!(state.player.statistics.end_time, 0);
    state.press_backspace();
    state.press_backspace();
    assert!(!state.press_char('a', 300));
    assert!(state.press_char('b', 400));
    assert_eq!(state.player.statistics.end_time, 400);
}

#[test]
fn backspace_behind_the_last_cell() {
    let mut state = session("ab", 0);
    state.press_char('a', 1);
    state.press_char('x', 2);
    state.press_backspace();
    assert_eq!(state.player.index, 1);
    assert_eq!(statuses(&state), vec![CharStatus::Correct, CharStatus::Current]);
    assert_eq!(state.player.statistics.current_error_count, 0);
}

#[test]
fn two_correct_keys_in_one_second() {
    let mut state = session("ab", 5_000);
    assert_eq!(state.player.statistics.word_count, 1);
    assert!(!state.press_char('a', 5_400));
    assert!(state.press_char('b', 6_000));
    let run = state.create_run().unwrap();
    assert_eq!(
        run,
        TraceRun {
            wpm: 60_000_000,
            accuracy: 1_000_000,
            total_points: 60_000_000,
            seconds: 1_000_000
        }
    );
    assert_eq!(run.wpm as f64 / 1e6, 60.0);
    assert_eq!(run.accuracy as f64 / 1e6, 1.0);
    assert_eq!(run.total_points as f64 / 1e6, 60.0);
}

#[test]
fn one_error_corrected() {
    let mut state = session("ab", 0);
    assert!(!state.press_char('x', 100));
    state.press_backspace();
    assert!(!state.press_char('a', 200));
    assert!(state.press_char('b', 1_000));
    assert_eq!(state.player.statistics.total_error_count, 1);
    assert_eq!(state.player.statistics.current_error_count, 0);
    let run = state.create_run().unwrap();
    assert_eq!(run.accuracy, 500_000);
    assert_eq!(run.accuracy as f64 / 1e6, 0.5);
    assert_eq!(run.wpm, 60_000_000);
    assert_eq!(run.total_points, 45_000_000);
}

#[test]
fn well_formed_states_and_broken_ones() {
    let mut state = session("abc", 0);
    assert!(state.is_well_formed());
    state.press_char('a', 1);
    state.press_char('x', 2);
    assert!(state.is_well_formed());
    state.press_backspace();
    assert!(state.is_well_formed());
    assert!(State::new().is_well_formed());

    let mut broken = session("abc", 0);
    broken.player.index = 4;
    assert!(!broken.is_well_formed());
    let mut broken = session("abc", 0);
    broken.player.statistics.current_error_count = 1;
    assert!(!broken.is_well_formed());
    let mut broken = session("abc", 0);
    broken.chars[2].status = CharStatus::Wrong;
    assert!(!broken.is_well_formed());
    let mut broken = session("abc", 0);
    broken.chars[1].character = 'z';
    assert!(!broken.is_well_formed());
    let mut broken = session("abc", 0);
    broken.chars.pop();
    assert!(!broken.is_well_formed());
    let mut broken = session("abc", 0);
    broken.paragraph.content.push('d');
    assert!(!broken.is_well_formed());
    let mut broken = session("abc", 0);
    broken.player.index = 1;
    assert!(!broken.is_well_formed());
}

#[test]
fn progress_in_whole_percent() {
    let mut state = session("abc", 0);
    assert_eq!(state.progress_percent(), 0);
    state.press_char('a', 1);
    assert_eq!(state.progress_percent(), 33);
    state.press_char('b', 2);
    assert_eq!(state.progress_percent(), 66);
    state.press_char('c', 3);
    assert_eq!(state.progress_percent(), 100);
    assert_eq!(State::new().progress_percent(), 0);
}

#[test]
fn colours_of_a_cell() {
    let span = ParagraphChar::new('a', CharStatus::Correct).to_span();
    assert_eq!(span.content, "a");
    assert_eq!(span.style, Style { fg: Some(Color::Green), bg: None });
    let span = ParagraphChar::new('\u{e9}', CharStatus::Current).to_span();
    assert_eq!(span.content, "\u{e9}");
    assert_eq!(span.style, Style { fg: Some(Color::White), bg: Some(Color::DarkGray) });
    let span = ParagraphChar::new('a', CharStatus::Wrong).to_span();
    assert_eq!(span.style, Style { fg: Some(Color::Red), bg: None });
    let span = ParagraphChar::new(' ', CharStatus::Wrong).to_span();
    assert_eq!(span.content, " ");
    assert_eq!(span.style, Style { fg: None, bg: Some(Color::Red) });
    let span = ParagraphChar::new(' ', CharStatus::Default).to_span();
    assert_eq!(span.style, Style { fg: Some(Color::DarkGray), bg: None });
}

#[test]
fn strokes_one_by_one() {
    let mut state = session("ab", 0);
    state.stroke(Stroke::Type('x', 1));
    state.stroke(Stroke::Erase);
    state.stroke(Stroke::Type('a', 2));
    state.stroke(Stroke::Type('b', 3));
    assert_eq!(state.player.index, 2);
    assert_eq!(state.player.statistics.end_time, 3);
    state.stroke(Stroke::Type('c', 4));
    assert_eq!(state.player.index, 2);
    assert_eq!(state.player.statistics.end_time, 3);
    assert_eq!(state.player.statistics.total_error_count, 1);
    assert!(state.is_well_formed());
}

#[test]
fn copies_and_defaults() {
    let mut state = session("ab", 7);
    state.player.user_name = "ann".to_string();
    state.press_char('x', 8);
    let copy = state.clone();
    assert_eq!(copy.player.user_name, "ann");
    assert_eq!(copy.player.index, 1);
    assert_eq!(copy.player.statistics.total_error_count, 1);
    assert_eq!(copy.player.statistics.initial_time, 7);
    assert_eq!(copy.chars.len(), 2);
    assert_eq!(copy.chars[0].status, CharStatus::Wrong);
    assert_eq!(copy.chars[1].status, CharStatus::Current);
    assert_eq!(copy.paragraph.content, "ab");
    assert!(copy.is_well_formed());
    let fresh = State::default();
    assert!(fresh.is_well_formed());
    assert_eq!(fresh.chars.len(), 0);
    let player = Player::default();
    assert_eq!(player.user_name, "");
    assert_eq!(player.index, 0);
    assert_eq!(player.clone().index, 0);
    assert_eq!(AppParagraph::default().content, "");
}
