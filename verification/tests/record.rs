use trace::paragraph::AppParagraph;
use trace::record::{measure, TraceRun, MICROS};
use trace::session::State;

fn text(content: &str) -> AppParagraph {
    AppParagraph {
        content: content.to_string(),
        title: String::new(),
        author: String::new(),
        date: String::new(),
    }
}

#[test]
fn measure_exact_values() {
    assert_eq!(MICROS, 1_000_000);
    let run = measure(2, 0, 1, 1000).unwrap();
    assert_eq!(run.wpm, 60 * MICROS);
    assert_eq!(run.accuracy, MICROS);
    assert_eq!(run.total_points, 60 * MICROS);
    assert_eq!(run.seconds, MICROS);
    let run = measure(3, 1, 10, 7_000).unwrap();
    assert_eq!(run.accuracy, 666_666);
    assert_eq!(run.wpm, 85_714_285);
    assert_eq!(run.seconds, 7_000_000);
    assert_eq!(run.total_points, 71_428_542);
}

#[test]
fn measure_negative_accuracy() {
    let run = measure(2, 5, 1, 60_000).unwrap();
    assert_eq!(run.accuracy, -1_500_000);
    assert_eq!(run.wpm, 1_000_000);
    assert_eq!(run.total_points, -250_000);
    let run = measure(3, 4, 1, 60_000).unwrap();
    assert_eq!(run.accuracy, -333_333);
}

#[test]
fn measure_without_a_record() {
    assert_eq!(measure(0, 0, 1, 1000), None);
    assert_eq!(measure(2, 0, 1, 0), None);
    assert_eq!(measure(2, 0, 1, -5), None);
    assert_eq!(measure(1, usize::MAX, 1, 1000), None);
    assert_eq!(measure(2, 0, usize::MAX, 1), None);
    assert_eq!(measure(2, 0, 1, i64::MAX as i128), None);
}

#[test]
fn live_figures_use_the_given_moment() {
    let mut state = State::new();
    state.begin(text("ab cd"), 1_000);
    state.press_char('a', 1_500);
    let live = state.metrics_at(31_000).unwrap();
    assert_eq!(live.seconds, 30_000_000);
    assert_eq!(live.wpm, 4_000_000);
    assert_eq!(live.accuracy, 1_000_000);
    assert_eq!(state.metrics_at(1_000), None);
    assert_eq!(state.create_run(), None);
}

#[test]
fn run_of_an_untouched_state() {
    let state = State::new();
    assert_eq!(state.create_run(), None);
    let run = TraceRun { wpm: 1, accuracy: 2, total_points: 3, seconds: 4 };
    assert_eq!(run.clone(), run);
}
