//! A typing-practice engine: the typing session that scores each keystroke,
//! the screens and the keys that lead from one to the next, and the history of
//! finished runs with the series drawn from it.
//!
//! Everything here works on plain values. Reading keys, drawing and the files
//! on disk belong to the program around the library, which hands over what it
//! read and carries out what the library asks for.

pub mod chooser;
pub mod clock;
pub mod decimal;
pub mod history;
pub mod keys;
pub mod machine;
pub mod paragraph;
pub mod record;
pub mod rows;
pub mod session;
pub mod text;
pub mod windows;

pub use paragraph::{
    convert_string_to_chars, AppParagraph, CharStatus, Color, ParagraphChar, Span, Style,
};
pub use session::{Player, PlayerStatistics, State, StateView, Stroke};
pub use record::{measure, TraceRun, MICROS};
pub use keys::{add_to_commands, Action, CharCommand, Key, WindowCommand};
pub use history::{
    axis_labels, bar_height, get_track_record, label_step, log_addition, read_columns, read_run,
    runs_from_rows, series, Columns, Metric,
};
pub use windows::{create_error_window, generate_all_chars, Screen, Window};
pub use machine::{
    begin_practice, create_empty_practice_window, create_end_window, create_main_menu_window,
    create_practice_window, create_statistics_window, create_user_window, dispatch,
    handle_backspace_press, handle_char_press, has_room_for, perform, perform_at, request,
    Outcome, Reply,
    Request, Step,
};
