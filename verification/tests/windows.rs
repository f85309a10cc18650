use trace::keys::{add_to_commands, find_command, Action, CharCommand, Key, WindowCommand};
use trace::machine::{
    begin_practice, create_empty_practice_window, create_end_window, create_main_menu_window,
    create_practice_window, create_statistics_window, create_user_window, handle_backspace_press,
    dispatch, handle_char_press, perform, perform_at, request, Outcome, Reply, Request, Step,
};
use trace::paragraph::AppParagraph;
use trace::session::State;
use trace::windows::{
    create_error_window, generate_all_chars, main_menu, practice, results, statistics, user_entry,
    Screen, Window,
};

fn paragraph(content: &str) -> AppParagraph {
    AppParagraph {
        content: content.to_string(),
        title: "T".to_string(),
        author: "A".to_string(),
        date: "D".to_string(),
    }
}

fn shown(outcome: Outcome) -> Window {
    match outcome {
        Outcome::Show(w) => w,
        other => panic!("no window: {:?}", other),
    }
}

#[test]
fn every_typed_character() {
    let chars = generate_all_chars();
    assert_eq!(chars.len(), 119);
    assert_eq!(chars[0], 'a');
    assert_eq!(chars[26], 'A');
    assert_eq!(chars[52], ' ');
    assert_eq!(chars[86], '1');
    assert_eq!(chars[95], '0');
    assert_eq!(chars[96], '\u{e1}');
    assert_eq!(chars[118], '\u{d1}');
    assert!(chars.contains(&'\u{bf}'));
    assert!(!chars.contains(&'\n'));
}

#[test]
fn commands_later_binding_wins() {
    let mut commands = vec![WindowCommand { activator_key: Key::Esc, action: Action::Exit }];
    add_to_commands(&mut commands, &vec!['a', 'b', 'a'], CharCommand::Name);
    assert_eq!(find_command(&commands, Key::Char('a')), Some(Action::NameChar('a')));
    assert_eq!(find_command(&commands, Key::Char('b')), Some(Action::NameChar('b')));
    assert_eq!(find_command(&commands, Key::Char('c')), None);
    assert_eq!(find_command(&commands, Key::Esc), Some(Action::Exit));
    add_to_commands(&mut commands, &vec!['a'], CharCommand::Type);
    assert_eq!(find_command(&commands, Key::Char('a')), Some(Action::TypeChar('a')));
    assert_eq!(find_command(&commands, Key::Char('b')), Some(Action::NameChar('b')));
    let bound = WindowCommand::new_char_command('q', Action::Exit);
    assert_eq!(bound.activator_key, Key::Char('q'));
    assert_eq!(bound.action, Action::Exit);
    assert_eq!(CharCommand::Type.action('x'), Action::TypeChar('x'));
    assert_eq!(CharCommand::Name.action('x'), Action::NameChar('x'));
}

#[test]
fn main_menu_keys() {
    let w = main_menu();
    assert_eq!(w.screen, Screen::MainMenu);
    assert_eq!(w.message, "");
    for k in ['e', 'E'] {
        assert_eq!(w.action_for(Key::Char(k)), Some(Action::Exit));
    }
    assert_eq!(w.action_for(Key::Esc), Some(Action::Exit));
    for k in ['p', 'P'] {
        assert_eq!(w.action_for(Key::Char(k)), Some(Action::StartPractice));
    }
    for k in ['s', 'S'] {
        assert_eq!(w.action_for(Key::Char(k)), Some(Action::OpenStatistics));
    }
    assert_eq!(w.action_for(Key::Char('x')), None);
    assert_eq!(w.action_for(Key::Enter), None);
    assert_eq!(w.action_for(Key::Tab), None);
    assert_eq!(w.action_for(Key::Backspace), None);
    assert_eq!(w.action_for(Key::Other), None);
}

#[test]
fn practice_keys() {
    let w = practice();
    assert_eq!(w.screen, Screen::Practice);
    assert_eq!(w.action_for(Key::Esc), Some(Action::OpenMainMenu));
    assert_eq!(w.action_for(Key::Backspace), Some(Action::EraseChar));
    for c in generate_all_chars() {
        assert_eq!(w.action_for(Key::Char(c)), Some(Action::TypeChar(c)));
    }
    assert_eq!(w.action_for(Key::Char('\n')), None);
    assert_eq!(w.action_for(Key::Enter), None);
    assert_eq!(w.action_for(Key::Tab), None);
}

#[test]
fn other_screens_keys() {
    let w = results();
    assert_eq!(w.screen, Screen::End);
    assert_eq!(w.action_for(Key::Char('e')), None);
    assert_eq!(w.action_for(Key::Esc), Some(Action::OpenMainMenu));
    assert_eq!(w.action_for(Key::Char('r')), Some(Action::StartPractice));
    assert_eq!(w.action_for(Key::Char('m')), Some(Action::OpenMainMenu));
    assert_eq!(w.action_for(Key::Char('s')), Some(Action::OpenStatistics));
    assert_eq!(w.action_for(Key::Char('E')), None);
    let w = statistics();
    assert_eq!(w.screen, Screen::Statistics);
    assert_eq!(w.action_for(Key::Esc), Some(Action::OpenMainMenu));
    assert_eq!(w.action_for(Key::Tab), Some(Action::ToggleCharts));
    assert_eq!(w.action_for(Key::Char('e')), None);
    let w = user_entry();
    assert_eq!(w.screen, Screen::User);
    assert_eq!(w.action_for(Key::Char('a')), Some(Action::NameChar('a')));
    assert_eq!(w.action_for(Key::Char('\u{f1}')), Some(Action::NameChar('\u{f1}')));
    assert_eq!(w.action_for(Key::Backspace), Some(Action::NameErase));
    assert_eq!(w.action_for(Key::Enter), Some(Action::SubmitName));
    assert_eq!(w.action_for(Key::Esc), None);
    let w = create_error_window("broken".to_string(), Action::StartPractice).unwrap();
    assert_eq!(w.screen, Screen::Error);
    assert_eq!(w.message, "broken");
    assert_eq!(w.action_for(Key::Esc), Some(Action::StartPractice));
    assert_eq!(w.action_for(Key::Enter), None);
    assert_eq!(w.action_for(Key::Char('e')), None);
}

#[test]
fn main_menu_needs_a_stored_name() {
    let mut state = State::new();
    assert!(matches!(request(Action::OpenMainMenu, &state), Request::ReadUserName));
    let w = create_main_menu_window(&mut state, Some("ann".as_bytes().to_vec())).unwrap();
    assert_eq!(w.screen, Screen::MainMenu);
    assert_eq!(state.player.user_name, "ann");
    let w = create_main_menu_window(&mut state, None).unwrap();
    assert_eq!(w.screen, Screen::User);
    assert_eq!(state.player.user_name, "ann");
    let w = create_main_menu_window(&mut state, Some(vec![0xff, 0xfe])).unwrap();
    assert_eq!(w.screen, Screen::User);
    let w = shown(perform_at(Action::OpenMainMenu, &mut state, Reply::UserName(Some("\u{f1}u".as_bytes().to_vec())), 0));
    assert_eq!(w.screen, Screen::MainMenu);
    assert_eq!(state.player.user_name, "\u{f1}u");
    let w = shown(perform_at(Action::OpenMainMenu, &mut state, Reply::Nothing, 0));
    assert_eq!(w.screen, Screen::User);
}

#[test]
fn name_entry() {
    let mut state = State::new();
    let w = create_user_window(&mut state).unwrap();
    assert_eq!(w.screen, Screen::User);
    shown(perform_at(Action::NameChar('a'), &mut state, Reply::Nothing, 0));
    let w = shown(perform_at(Action::NameChar('b'), &mut state, Reply::Nothing, 0));
    assert_eq!(w.screen, Screen::User);
    assert_eq!(state.player.user_name, "ab");
    shown(perform_at(Action::NameErase, &mut state, Reply::Nothing, 0));
    assert_eq!(state.player.user_name, "a");
    shown(perform_at(Action::NameErase, &mut state, Reply::Nothing, 0));
    shown(perform_at(Action::NameErase, &mut state, Reply::Nothing, 0));
    assert_eq!(state.player.user_name, "");
    state.player.user_name = "ann".to_string();
    match request(Action::SubmitName, &state) {
        Request::WriteUserName(name) => assert_eq!(name, "ann"),
        other => panic!("{:?}", other),
    }
    let out = perform_at(Action::SubmitName, &mut state, Reply::Written(Ok(())), 0);
    assert!(matches!(out, Outcome::Then(Action::OpenMainMenu)));
    let w = shown(perform_at(Action::SubmitName, &mut state, Reply::Written(Err("full".to_string())), 0));
    assert_eq!(w.screen, Screen::Error);
    assert_eq!(w.message, "full");
    assert_eq!(w.action_for(Key::Esc), Some(Action::OpenUser));
    let w = shown(perform_at(Action::SubmitName, &mut state, Reply::Nothing, 0));
    assert_eq!(w.screen, Screen::Error);
    assert_eq!(w.message, "");
    let w = shown(perform_at(Action::OpenUser, &mut state, Reply::Nothing, 0));
    assert_eq!(w.screen, Screen::User);
    assert_eq!(state.player.user_name, "ann");
}

#[test]
fn only_the_main_menu_binds_exit() {
    let keys = [Key::Esc, Key::Enter, Key::Tab, Key::Backspace, Key::Other, Key::Char('e'), Key::Char('E')];
    for w in [practice(), results(), statistics(), user_entry()] {
        for k in keys {
            assert_ne!(w.action_for(k), Some(Action::Exit));
        }
        for c in generate_all_chars() {
            assert_ne!(w.action_for(Key::Char(c)), Some(Action::Exit));
        }
    }
}

#[test]
fn practice_starts_with_a_paragraph_of_the_corpus() {
    let mut state = State::new();
    state.player.user_name = "ann".to_string();
    assert!(matches!(request(Action::StartPractice, &state), Request::LoadParagraphs));
    let corpus = vec![paragraph("ab"), paragraph("cd ef"), paragraph("g h i")];
    for _ in 0..20 {
        let w = create_empty_practice_window(&mut state, Ok(corpus.clone()), 77).unwrap();
        assert_eq!(w.screen, Screen::Practice);
        let content = state.paragraph.content.clone();
        assert!(corpus.iter().any(|p| p.content == content));
        assert_eq!(state.chars.len(), content.chars().count());
        assert_eq!(state.player.statistics.word_count, content.split_whitespace().count());
        assert_eq!(state.player.statistics.initial_time, 77);
        assert_eq!(state.player.index, 0);
        assert_eq!(state.player.user_name, "ann");
        assert_eq!(state.paragraph.title, "T");
    }
    let w = shown(perform_at(Action::StartPractice, &mut state, Reply::Paragraphs(Ok(vec![paragraph("xyz")])), 5));
    assert_eq!(w.screen, Screen::Practice);
    assert_eq!(state.paragraph.content, "xyz");
    let w = begin_practice(&mut state, paragraph("q"), 9).unwrap();
    assert_eq!(w.screen, Screen::Practice);
    assert_eq!(state.paragraph.content, "q");
    assert_eq!(state.player.statistics.initial_time, 9);
}

#[test]
fn practice_without_a_corpus_shows_the_error() {
    let mut state = State::new();
    state.begin(paragraph("ab"), 1);
    state.press_char('a', 2);
    let w = create_empty_practice_window(&mut state, Err("no such file".to_string()), 3).unwrap();
    assert_eq!(w.screen, Screen::Error);
    assert_eq!(
        w.message,
        "Sorry an error ocurred while retrieving the database.csv\nno such file"
    );
    assert_eq!(w.action_for(Key::Esc), Some(Action::OpenMainMenu));
    assert_eq!(state.player.index, 1);
    assert_eq!(state.paragraph.content, "ab");
    let w = create_empty_practice_window(&mut state, Ok(Vec::new()), 3).unwrap();
    assert_eq!(w.screen, Screen::Error);
    assert_eq!(
        w.message,
        "Sorry an error ocurred while retrieving the database.csv\nCouldn't get a random paragraph!"
    );
    let w = shown(perform_at(Action::StartPractice, &mut state, Reply::Nothing, 3));
    assert_eq!(w.screen, Screen::Error);
    assert_eq!(w.message, "Sorry an error ocurred while retrieving the database.csv\n");
}

#[test]
fn typing_until_the_run_is_saved() {
    let mut state = State::new();
    state.begin(paragraph("ab"), 0);
    let w = create_practice_window(&mut state).unwrap();
    assert_eq!(w.screen, Screen::Practice);
    let out = handle_char_press(&mut state, 'a', 400);
    assert_eq!(shown(out).screen, Screen::Practice);
    let out = perform_at(Action::TypeChar('b'), &mut state, Reply::Nothing, 1000);
    assert!(matches!(out, Outcome::Then(Action::SaveRun)));
    assert_eq!(state.player.statistics.end_time, 1000);
    match request(Action::SaveRun, &state) {
        Request::AppendRun { created, appended } => {
            assert_eq!(appended, "60,1,60,1\n");
            assert_eq!(
                created,
                "wpm,accuracy,total_points,seconds\n60,1,60,1\n"
            );
        }
        other => panic!("{:?}", other),
    }
    let w = shown(perform_at(Action::SaveRun, &mut state, Reply::Written(Ok(())), 1001));
    assert_eq!(w.screen, Screen::End);
    let w = shown(perform_at(Action::SaveRun, &mut state, Reply::Written(Err("disk full".to_string())), 1001));
    assert_eq!(w.screen, Screen::Error);
    assert_eq!(w.message, "disk full");
    assert_eq!(w.action_for(Key::Esc), Some(Action::ShowResults));
    let w = shown(perform_at(Action::ShowResults, &mut state, Reply::Nothing, 1002));
    assert_eq!(w.screen, Screen::End);
    let w = create_end_window(&mut state).unwrap();
    assert_eq!(w.screen, Screen::End);
    assert_eq!(state.player.statistics.end_time, 1000);
}

#[test]
fn run_without_a_measure_is_not_saved() {
    let mut state = State::new();
    state.begin(paragraph("a"), 50);
    let out = handle_char_press(&mut state, 'a', 50);
    assert!(matches!(out, Outcome::Then(Action::SaveRun)));
    assert!(matches!(request(Action::SaveRun, &state), Request::Nothing));
    let w = shown(perform_at(Action::SaveRun, &mut state, Reply::Nothing, 51));
    assert_eq!(w.screen, Screen::End);
}

#[test]
fn key_behind_the_last_cell_is_passed_over() {
    let mut state = State::new();
    state.begin(paragraph("ab"), 0);
    handle_char_press(&mut state, 'x', 1);
    let out = handle_char_press(&mut state, 'b', 2);
    assert_eq!(shown(out).screen, Screen::Practice);
    assert_eq!(state.player.index, 2);
    let out = handle_char_press(&mut state, 'c', 3);
    assert_eq!(shown(out).screen, Screen::Practice);
    assert_eq!(state.player.index, 2);
    assert_eq!(state.player.statistics.total_error_count, 1);
    assert_eq!(state.player.statistics.current_error_count, 1);
    let w = handle_backspace_press(&mut state).unwrap();
    assert_eq!(w.screen, Screen::Practice);
    assert_eq!(state.player.index, 1);
    let w = shown(perform_at(Action::EraseChar, &mut state, Reply::Nothing, 4));
    assert_eq!(w.screen, Screen::Practice);
    assert_eq!(state.player.index, 0);
    assert_eq!(state.player.statistics.current_error_count, 0);
    let mut empty = State::new();
    let out = handle_char_press(&mut empty, 'a', 1);
    assert_eq!(shown(out).screen, Screen::Practice);
    assert_eq!(empty.player.index, 0);
}

#[test]
fn statistics_and_exit() {
    let mut state = State::new();
    let w = create_statistics_window(&mut state).unwrap();
    assert_eq!(w.screen, Screen::Statistics);
    let w = shown(perform_at(Action::OpenStatistics, &mut state, Reply::Nothing, 0));
    assert_eq!(w.screen, Screen::Statistics);
    assert!(!state.show_bar_charts);
    let w = shown(perform_at(Action::ToggleCharts, &mut state, Reply::Nothing, 0));
    assert_eq!(w.screen, Screen::Statistics);
    assert!(state.show_bar_charts);
    shown(perform_at(Action::ToggleCharts, &mut state, Reply::Nothing, 0));
    assert!(!state.show_bar_charts);
    assert!(matches!(perform_at(Action::Exit, &mut state, Reply::Nothing, 0), Outcome::Exit));
    assert!(matches!(request(Action::Exit, &state), Request::Nothing));
    assert!(matches!(request(Action::TypeChar('a'), &state), Request::Nothing));
}

#[test]
fn perform_stamps_the_end_with_the_clock() {
    let mut state = State::new();
    state.begin(paragraph("a"), 0);
    let out = perform(Action::TypeChar('a'), &mut state, Reply::Nothing);
    assert!(matches!(out, Outcome::Then(Action::SaveRun)));
    assert!(state.player.statistics.end_time > 1_600_000_000_000);
    assert!(state.create_run().is_some());
}

#[test]
fn unbound_key_leaves_the_window() {
    let state = State::new();
    match dispatch(main_menu(), Key::Char('x'), &state) {
        Step::Stay(w) => {
            assert_eq!(w.screen, Screen::MainMenu);
            assert_eq!(w.action_for(Key::Char('p')), Some(Action::StartPractice));
        }
        other => panic!("{:?}", other),
    }
    let error = create_error_window("gone".to_string(), Action::OpenMainMenu).unwrap();
    match dispatch(error, Key::Enter, &state) {
        Step::Stay(w) => {
            assert_eq!(w.screen, Screen::Error);
            assert_eq!(w.message, "gone");
        }
        other => panic!("{:?}", other),
    }
}

#[test]
fn bound_key_runs_its_action() {
    let mut state = State::new();
    state.player.user_name = "ann".to_string();
    match dispatch(main_menu(), Key::Char('P'), &state) {
        Step::Run(Action::StartPractice, Request::LoadParagraphs) => {}
        other => panic!("{:?}", other),
    }
    match dispatch(user_entry(), Key::Enter, &state) {
        Step::Run(Action::SubmitName, Request::WriteUserName(name)) => assert_eq!(name, "ann"),
        other => panic!("{:?}", other),
    }
    match dispatch(practice(), Key::Char('a'), &state) {
        Step::Run(Action::TypeChar('a'), Request::Nothing) => {}
        other => panic!("{:?}", other),
    }
    match dispatch(main_menu(), Key::Esc, &state) {
        Step::Run(Action::Exit, Request::Nothing) => {}
        other => panic!("{:?}", other),
    }
}

#[test]
fn right_key_needs_no_room_in_the_total() {
    let mut state = State::new();
    state.begin(paragraph("ab"), 0);
    state.player.statistics.total_error_count = usize::MAX;
    let out = handle_char_press(&mut state, 'a', 1);
    assert_eq!(shown(out).screen, Screen::Practice);
    assert_eq!(state.player.index, 1);
    assert_eq!(state.player.statistics.total_error_count, usize::MAX);
    assert!(trace::has_room_for(Action::TypeChar('b'), &state));
    assert!(!trace::has_room_for(Action::TypeChar('x'), &state));
    assert!(trace::has_room_for(Action::EraseChar, &state));
    let out = perform_at(Action::TypeChar('b'), &mut state, Reply::Nothing, 2);
    assert!(matches!(out, Outcome::Then(Action::SaveRun)));
    let out = handle_char_press(&mut state, 'z', 3);
    assert_eq!(shown(out).screen, Screen::Practice);
    assert_eq!(state.player.index, 2);
    assert_eq!(state.player.statistics.total_error_count, usize::MAX);
    assert!(trace::has_room_for(Action::TypeChar('z'), &state));
}

#[test]
fn open_error_on_the_last_cell_blocks_completion() {
    let mut state = State::new();
    state.begin(paragraph("ab"), 0);
    handle_char_press(&mut state, 'x', 1);
    let out = handle_char_press(&mut state, 'b', 2);
    assert_eq!(shown(out).screen, Screen::Practice);
    assert_eq!(state.player.index, 2);
    assert_eq!(state.player.statistics.end_time, 0);
    assert!(matches!(request(Action::TypeChar('b'), &state), Request::Nothing));

    let mut state = State::new();
    state.begin(paragraph("ab"), 0);
    handle_char_press(&mut state, 'a', 1);
    let out = handle_char_press(&mut state, 'x', 2);
    assert_eq!(shown(out).screen, Screen::Practice);
    assert_eq!(state.player.index, 2);
    assert_eq!(state.player.statistics.current_error_count, 1);
    assert_eq!(state.player.statistics.end_time, 0);
}

#[test]
fn error_corrected_at_the_handler() {
    let mut state = State::new();
    state.begin(paragraph("abc"), 0);
    handle_char_press(&mut state, 'a', 1);
    let current = state.player.statistics.current_error_count;
    let total = state.player.statistics.total_error_count;
    handle_char_press(&mut state, 'x', 2);
    handle_backspace_press(&mut state);
    assert_eq!(state.player.statistics.current_error_count, current);
    assert_eq!(state.player.statistics.total_error_count, total + 1);
    handle_char_press(&mut state, 'b', 3);
    assert_eq!(state.player.statistics.current_error_count, current);
    assert_eq!(state.player.statistics.total_error_count, total + 1);
    assert_eq!(state.player.index, 2);
    assert_eq!(state.chars[1].status, trace::CharStatus::Correct);
}
