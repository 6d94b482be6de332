use viz::app::App;
use viz::app::CurrentTab;
use viz::data::HeapStep;
use viz::input::command_for_key;
use viz::input::Command;
use viz::input::Key;

fn steps(count: usize) -> Vec<HeapStep> {
    (0..count)
        .map(|index| HeapStep {
            step: index,
            algo: "next_fit".to_string(),
            op: "free".to_string(),
            highlight: String::new(),
            blocks: Vec::new(),
        })
        .collect()
}

#[test]
fn keys_ask_for_their_commands() {
    assert_eq!(command_for_key(Key::Char('n')), Some(Command::NextStep));
    assert_eq!(command_for_key(Key::Char('p')), Some(Command::PrevStep));
    assert_eq!(command_for_key(Key::Tab), Some(Command::ToggleView));
    assert_eq!(command_for_key(Key::Char('q')), Some(Command::Quit));
}

#[test]
fn other_keys_ask_for_nothing() {
    assert_eq!(command_for_key(Key::Other), None);
    assert_eq!(command_for_key(Key::Char('x')), None);
    assert_eq!(command_for_key(Key::Char('\t')), None);
    assert_eq!(command_for_key(Key::Char(' ')), None);
}

#[test]
fn keys_are_case_sensitive() {
    assert_eq!(command_for_key(Key::Char('N')), None);
    assert_eq!(command_for_key(Key::Char('P')), None);
    assert_eq!(command_for_key(Key::Char('Q')), None);
}

#[test]
fn apply_makes_one_move() {
    let mut app = App::new(steps(3), Vec::new());
    assert!(!app.apply(Command::NextStep));
    assert_eq!(app.current_step_index, 1);
    assert!(!app.apply(Command::ToggleView));
    assert_eq!(app.current_tab, CurrentTab::Statistics);
    assert_eq!(app.current_step_index, 1);
    assert!(!app.apply(Command::PrevStep));
    assert_eq!(app.current_step_index, 0);
    assert_eq!(app.current_tab, CurrentTab::Statistics);
}

#[test]
fn quit_ends_and_changes_nothing() {
    let mut app = App::new(steps(3), Vec::new());
    app.next_step();
    assert!(app.apply(Command::Quit));
    assert_eq!(app.current_step_index, 1);
    assert_eq!(app.current_tab, CurrentTab::Visualizer);
    assert!(app.handle_key(Key::Char('q')));
    assert_eq!(app.current_step_index, 1);
}

#[test]
fn handle_key_drives_the_navigation() {
    let mut app = App::new(steps(2), Vec::new());
    assert!(!app.handle_key(Key::Char('n')));
    assert_eq!(app.current_step_index, 1);
    assert!(!app.handle_key(Key::Char('n')));
    assert_eq!(app.current_step_index, 1);
    assert!(!app.handle_key(Key::Tab));
    assert_eq!(app.current_tab, CurrentTab::Statistics);
    assert!(!app.handle_key(Key::Char('p')));
    assert_eq!(app.current_step_index, 0);
    assert!(!app.handle_key(Key::Char('p')));
    assert_eq!(app.current_step_index, 0);
    assert!(!app.handle_key(Key::Tab));
    assert_eq!(app.current_tab, CurrentTab::Visualizer);
}

#[test]
fn an_ignored_key_changes_nothing() {
    let mut app = App::new(steps(3), Vec::new());
    app.next_step();
    assert!(!app.handle_key(Key::Other));
    assert!(!app.handle_key(Key::Char('N')));
    assert!(!app.handle_key(Key::Char('z')));
    assert_eq!(app.current_step_index, 1);
    assert_eq!(app.current_tab, CurrentTab::Visualizer);
    assert_eq!(app.steps.len(), 3);
}
