use tui_todo::geometry::{centered_percents, centered_rect, Area};
use tui_todo::keys::{command_for, Command, Key, Outcome};
use tui_todo::state::TodoApp;
use tui_todo::view::project;

fn strings(items: &[&str]) -> Vec<String> {
    items.iter().map(|s| s.to_string()).collect()
}

fn type_text(app: &mut TodoApp, text: &str) {
    for c in text.chars() {
        assert_eq!(app.handle_key(Key::Char(c)), Outcome::Continue);
    }
}

fn assert_selection_in_range(app: &TodoApp) {
    let len = app.active_collection().len();
    if len > 0 {
        assert!(app.selection() < len);
    } else {
        assert_eq!(app.selection(), 0);
    }
}

#[test]
fn start_state_holds_samples() {
    let app = TodoApp::new();
    assert_eq!(*app.todos(), strings(&["make a todo tui app", "learning rust", "make a cup of tea"]));
    assert_eq!(*app.dones(), strings(&["read a rust manual", "read arch linux wiki"]));
    assert_eq!(app.active_tab(), 0);
    assert_eq!(app.selection(), 0);
    assert!(!app.is_input_mode());
    assert_eq!(app.draft(), "");
    assert_eq!(app.selected_item().map(|s| s.as_str()), Some("make a todo tui app"));
}

#[test]
fn move_first_todo_to_done() {
    let mut app = TodoApp::new();
    assert_eq!(app.handle_key(Key::Char(' ')), Outcome::Continue);
    assert_eq!(*app.todos(), strings(&["learning rust", "make a cup of tea"]));
    assert_eq!(
        *app.dones(),
        strings(&["read a rust manual", "read arch linux wiki", "make a todo tui app"])
    );
    assert_eq!(app.selection(), 0);
    assert_eq!(app.selected_item().map(|s| s.as_str()), Some("learning rust"));
}

#[test]
fn delete_last_done_clamps_selection() {
    let mut app = TodoApp::new();
    app.handle_key(Key::Tab);
    assert_eq!(app.active_tab(), 1);
    app.handle_key(Key::Char('e'));
    assert_eq!(app.selection(), 1);
    app.handle_key(Key::Backspace);
    assert_eq!(*app.dones(), strings(&["read a rust manual"]));
    assert_eq!(app.selection(), 0);
    app.handle_key(Key::Backspace);
    assert!(app.dones().is_empty());
    assert_eq!(app.selection(), 0);
    assert!(app.selected_item().is_none());
    app.handle_key(Key::Backspace);
    assert!(app.dones().is_empty());
    assert_eq!(app.todos().len(), 3);
    assert_eq!(app.selection(), 0);
}

#[test]
fn add_item_from_done_tab_goes_to_todo() {
    let mut app = TodoApp::new();
    app.handle_key(Key::Tab);
    app.handle_key(Key::Char('a'));
    assert!(app.is_input_mode());
    type_text(&mut app, "buy milk");
    assert_eq!(app.draft(), "buy milk");
    app.handle_key(Key::Enter);
    assert_eq!(
        *app.todos(),
        strings(&["make a todo tui app", "learning rust", "make a cup of tea", "buy milk"])
    );
    assert_eq!(app.dones().len(), 2);
    assert_eq!(app.draft(), "");
    assert!(!app.is_input_mode());
    assert_eq!(app.active_tab(), 1);
}

#[test]
fn add_item_from_todo_tab() {
    let mut app = TodoApp::new();
    app.handle_key(Key::Char('a'));
    type_text(&mut app, "buy milk");
    app.handle_key(Key::Enter);
    assert_eq!(app.todos().last().map(|s| s.as_str()), Some("buy milk"));
    assert_eq!(app.todos().len(), 4);
    assert!(!app.is_input_mode());
}

#[test]
fn tab_twice_returns() {
    let mut app = TodoApp::new();
    app.handle_key(Key::Tab);
    assert_eq!(app.active_tab(), 1);
    app.handle_key(Key::Tab);
    assert_eq!(app.active_tab(), 0);
    app.handle_key(Key::BackTab);
    assert_eq!(app.active_tab(), 1);
    app.handle_key(Key::BackTab);
    assert_eq!(app.active_tab(), 0);
}

#[test]
fn tab_switch_clamps_selection() {
    let mut app = TodoApp::new();
    app.handle_key(Key::Char('u'));
    assert_eq!(app.selection(), 2);
    app.handle_key(Key::Tab);
    assert_eq!(app.selection(), 1);
    assert_selection_in_range(&app);
}

#[test]
fn input_mode_isolates_commands() {
    let mut app = TodoApp::new();
    app.handle_key(Key::Char('a'));
    for key in [Key::Tab, Key::BackTab, Key::Char('e'), Key::Char('u'), Key::Char(' '), Key::Char('q'), Key::Char('c')] {
        assert_eq!(app.handle_key(key), Outcome::Continue);
    }
    assert_eq!(app.draft(), "eu qc");
    assert_eq!(app.active_tab(), 0);
    assert_eq!(app.selection(), 0);
    assert_eq!(app.todos().len(), 3);
    assert_eq!(app.dones().len(), 2);
    app.handle_key(Key::Backspace);
    assert_eq!(app.draft(), "eu q");
    assert_eq!(app.todos().len(), 3);
    app.handle_key(Key::Other);
    assert_eq!(app.draft(), "eu q");
    assert!(app.is_input_mode());
}

#[test]
fn escape_discards_text() {
    let mut app = TodoApp::new();
    app.handle_key(Key::Char('a'));
    type_text(&mut app, "tea");
    app.handle_key(Key::Esc);
    assert!(!app.is_input_mode());
    assert_eq!(app.draft(), "");
    assert_eq!(app.todos().len(), 3);
    app.handle_key(Key::Char('a'));
    assert_eq!(app.draft(), "");
}

#[test]
fn backspace_on_empty_text_is_harmless() {
    let mut app = TodoApp::new();
    app.handle_key(Key::Char('a'));
    app.handle_key(Key::Backspace);
    assert_eq!(app.draft(), "");
    assert!(app.is_input_mode());
    assert_eq!(app.todos().len(), 3);
}

#[test]
fn quit_and_clear_keys() {
    let mut app = TodoApp::new();
    assert_eq!(app.handle_key(Key::Char('q')), Outcome::Quit);
    assert_eq!(app.handle_key(Key::Char('c')), Outcome::ClearScreen);
    assert_eq!(app.handle_key(Key::Char('z')), Outcome::Continue);
    assert_eq!(app.handle_key(Key::Enter), Outcome::Continue);
    assert_eq!(app.handle_key(Key::Esc), Outcome::Continue);
    assert_eq!(app.todos().len(), 3);
    assert_eq!(app.selection(), 0);
}

#[test]
fn selection_wraps_both_ways() {
    let mut app = TodoApp::new();
    app.handle_key(Key::Char('e'));
    app.handle_key(Key::Char('e'));
    assert_eq!(app.selection(), 2);
    app.handle_key(Key::Char('e'));
    assert_eq!(app.selection(), 0);
    app.handle_key(Key::Char('u'));
    assert_eq!(app.selection(), 2);
    app.handle_key(Key::Char('u'));
    assert_eq!(app.selection(), 1);
}

#[test]
fn empty_lists_ignore_commands() {
    let mut app = TodoApp::with_lists(Vec::new(), Vec::new());
    for key in [Key::Char('e'), Key::Char('u'), Key::Char(' '), Key::Backspace, Key::Tab, Key::Char(' ')] {
        assert_eq!(app.handle_key(key), Outcome::Continue);
        assert!(app.todos().is_empty());
        assert!(app.dones().is_empty());
        assert_eq!(app.selection(), 0);
    }
}

#[test]
fn moves_and_deletes_keep_selection_in_range() {
    let mut app = TodoApp::new();
    let keys = [
        Key::Char('u'), Key::Char(' '), Key::Char(' '), Key::Tab, Key::Char('u'), Key::Backspace,
        Key::Char(' '), Key::BackTab, Key::Char(' '), Key::Backspace, Key::Backspace, Key::Tab,
        Key::Char(' '), Key::Char(' '), Key::Backspace, Key::Backspace, Key::Char(' '),
    ];
    for key in keys {
        app.handle_key(key);
        assert_selection_in_range(&app);
    }
}

#[test]
fn move_keeps_item_count_and_text() {
    let mut app = TodoApp::new();
    app.handle_key(Key::Char('e'));
    app.handle_key(Key::Char(' '));
    assert_eq!(app.todos().len() + app.dones().len(), 5);
    assert_eq!(app.dones().last().map(|s| s.as_str()), Some("learning rust"));
    assert_eq!(app.selection(), 1);
    app.handle_key(Key::Tab);
    app.handle_key(Key::Char('e'));
    app.handle_key(Key::Char(' '));
    assert_eq!(app.todos().len() + app.dones().len(), 5);
    assert_eq!(app.todos().last().map(|s| s.as_str()), Some("learning rust"));
}

#[test]
fn delete_shrinks_by_one() {
    let mut app = TodoApp::new();
    app.handle_key(Key::Char('e'));
    app.handle_key(Key::Backspace);
    assert_eq!(*app.todos(), strings(&["make a todo tui app", "make a cup of tea"]));
    assert_eq!(app.dones().len(), 2);
    assert_eq!(app.selection(), 1);
}

#[test]
fn selection_clamps_after_removing_last() {
    let mut app = TodoApp::new();
    app.handle_key(Key::Char('u'));
    app.handle_key(Key::Char(' '));
    assert_eq!(*app.todos(), strings(&["make a todo tui app", "learning rust"]));
    assert_eq!(app.selection(), 1);
}

#[test]
fn operations_called_directly() {
    let mut app = TodoApp::new();
    app.select_next();
    app.select_prev();
    app.select_prev();
    assert_eq!(app.selection(), 2);
    app.move_item();
    app.next_tab();
    assert_eq!(app.active_tab(), 1);
    assert_eq!(app.selection(), 1);
    app.delete_item();
    assert_eq!(app.selection(), 1);
    app.prev_tab();
    app.enter_input();
    app.type_char('x');
    app.erase_char();
    app.type_char('y');
    app.confirm_input();
    assert_eq!(app.todos().last().map(|s| s.as_str()), Some("y"));
    app.enter_input();
    app.cancel_input();
    assert!(!app.is_input_mode());
}

#[test]
fn key_bindings() {
    assert_eq!(command_for(Key::Char('q')), Command::Quit);
    assert_eq!(command_for(Key::Char('a')), Command::EnterInput);
    assert_eq!(command_for(Key::Char('c')), Command::ClearScreen);
    assert_eq!(command_for(Key::Char('e')), Command::SelectNext);
    assert_eq!(command_for(Key::Char('u')), Command::SelectPrev);
    assert_eq!(command_for(Key::Char(' ')), Command::MoveItem);
    assert_eq!(command_for(Key::Backspace), Command::DeleteItem);
    assert_eq!(command_for(Key::Tab), Command::NextTab);
    assert_eq!(command_for(Key::BackTab), Command::PrevTab);
    assert_eq!(command_for(Key::Char('x')), Command::Ignore);
    assert_eq!(command_for(Key::Other), Command::Ignore);
}

#[test]
fn screen_of_done_tab() {
    let mut app = TodoApp::new();
    app.handle_key(Key::Tab);
    app.handle_key(Key::Char('e'));
    let screen = project(&app);
    assert_eq!(screen.tab_labels, strings(&["Todo", "Done"]));
    assert_eq!(screen.active_tab, 1);
    assert_eq!(screen.title, "Done");
    assert_eq!(screen.items.len(), 2);
    assert_eq!(screen.items[0].text, "read a rust manual");
    assert!(screen.items[0].crossed_out);
    assert!(!screen.items[0].highlighted);
    assert!(screen.items[1].highlighted);
    assert!(screen.input_box.is_none());
}

#[test]
fn screen_with_input_box() {
    let mut app = TodoApp::new();
    app.handle_key(Key::Char('a'));
    type_text(&mut app, "buy");
    let screen = project(&app);
    assert_eq!(screen.title, "Todo");
    assert_eq!(screen.input_box.as_deref(), Some("buy|"));
    assert!(!screen.items[0].crossed_out);
    assert!(screen.items[0].highlighted);
    assert!(!screen.items[1].highlighted);
    let again = project(&app);
    assert_eq!(again.input_box, screen.input_box);
}

#[test]
fn centered_percentages() {
    assert_eq!(centered_percents(60), vec![20, 60, 20]);
    assert_eq!(centered_percents(10), vec![45, 10, 45]);
    assert_eq!(centered_percents(100), vec![0, 100, 0]);
}

#[test]
fn centered_rect_in_middle() {
    let area = Area { x: 0, y: 0, width: 100, height: 40 };
    let c = centered_rect(50, 50, area);
    assert_eq!(c, Area { x: 25, y: 10, width: 50, height: 20 });
}

#[test]
fn centered_rect_inside_offset_area() {
    let area = Area { x: 7, y: 3, width: 120, height: 40 };
    let c = centered_rect(60, 10, area);
    assert!(area.x <= c.x && c.x + c.width <= area.x + area.width);
    assert!(area.y <= c.y && c.y + c.height <= area.y + area.height);
    assert!(c.width < area.width);
    assert!(c.height < area.height);
}
