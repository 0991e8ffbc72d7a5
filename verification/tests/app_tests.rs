use zenith::app::{App, CurrentView, InputMode};
use zenith::models::{TaskPriority, TaskStatus};
use zenith::router::Key;

fn fresh_app() -> App {
    let mut app = App::new();
    // leave the splash screen
    let quit = app.handle_key(Key::Enter);
    assert!(!quit);
    assert_eq!(app.current_view, CurrentView::Dashboard);
    app
}

fn type_text(app: &mut App, text: &str) {
    for c in text.chars() {
        app.handle_key(Key::Char(c));
    }
}

fn create_task(app: &mut App, title: &str) {
    app.handle_key(Key::Char('n'));
    assert_eq!(app.input_mode, InputMode::Editing);
    type_text(app, title);
    app.handle_key(Key::Enter);
    assert_eq!(app.input_mode, InputMode::Normal);
}

#[test]
fn create_task_appears_at_top_with_defaults() {
    let mut app = fresh_app();
    create_task(&mut app, "Buy milk");
    assert_eq!(app.tasks.len(), 1);
    assert_eq!(app.tasks[0].title, "Buy milk");
    assert_eq!(app.tasks[0].status, TaskStatus::Todo);
    assert_eq!(app.tasks[0].priority, TaskPriority::Medium);
    assert_eq!(app.tasks[0].xp_reward, 10);
    assert_eq!(app.tasks[0].id.len(), 36);
    assert_eq!(app.tasks[0].due_date, None);
    assert_eq!(app.tasks[0].completed_at, None);
    assert_eq!(app.table_sel, Some(0));

    create_task(&mut app, "Walk dog");
    assert_eq!(app.tasks.len(), 2);
    assert_eq!(app.tasks[0].title, "Walk dog");
    assert_ne!(app.tasks[0].id, app.tasks[1].id);
}

#[test]
fn toggling_twice_completes_and_awards_xp_once() {
    let mut app = fresh_app();
    create_task(&mut app, "Buy milk");
    assert_eq!(app.user_profile.current_xp, 0);

    app.handle_key(Key::Char(' ')); // Todo -> Doing
    assert_eq!(app.tasks[0].status, TaskStatus::Doing);
    assert_eq!(app.user_profile.current_xp, 0);

    app.handle_key(Key::Char(' ')); // Doing -> Done, award 10
    assert_eq!(app.tasks[0].status, TaskStatus::Done);
    assert_eq!(app.user_profile.current_xp, 10);
    assert!(app.tasks[0].completed_at.is_some());
    assert_eq!(app.stats.len(), 1);
    assert_eq!(app.stats[0].1, 1);

    app.handle_key(Key::Char(' ')); // Done -> Todo, no award, stamp cleared
    assert_eq!(app.tasks[0].status, TaskStatus::Todo);
    assert_eq!(app.user_profile.current_xp, 10);
    assert_eq!(app.tasks[0].completed_at, None);
    assert_eq!(app.stats.len(), 0);
}

#[test]
fn deleting_completed_task_updates_stats_and_list() {
    let mut app = fresh_app();
    create_task(&mut app, "Buy milk");
    app.handle_key(Key::Char(' '));
    app.handle_key(Key::Char(' '));
    assert_eq!(app.stats.len(), 1);

    app.handle_key(Key::Char('d'));
    assert_eq!(app.tasks.len(), 0);
    assert_eq!(app.table_sel, None);
    assert_eq!(app.stats.len(), 0);
    assert_eq!(app.user_profile.current_xp, 10);
}

#[test]
fn blank_title_save_keeps_form_open() {
    let mut app = fresh_app();
    app.handle_key(Key::Char('n'));
    type_text(&mut app, "   ");
    app.handle_key(Key::Enter);
    assert_eq!(app.input_mode, InputMode::Editing);
    assert_eq!(app.tasks.len(), 0);
    app.handle_key(Key::Esc);
    assert_eq!(app.input_mode, InputMode::Normal);
}

#[test]
fn search_filters_and_clearing_restores() {
    let mut app = fresh_app();
    create_task(&mut app, "Buy milk");
    create_task(&mut app, "Walk dog");
    assert_eq!(app.tasks.len(), 2);

    app.handle_key(Key::Char('/'));
    assert_eq!(app.input_mode, InputMode::Search);
    type_text(&mut app, "mil");
    assert_eq!(app.tasks.len(), 1);
    assert_eq!(app.tasks[0].title, "Buy milk");
    app.handle_key(Key::Enter);
    assert_eq!(app.input_mode, InputMode::Normal);
    assert_eq!(app.search_query, "mil");
    assert_eq!(app.tasks.len(), 1);

    app.handle_key(Key::Char('/'));
    app.handle_key(Key::Backspace);
    app.handle_key(Key::Backspace);
    app.handle_key(Key::Backspace);
    app.handle_key(Key::Esc);
    assert_eq!(app.tasks.len(), 2);
}

#[test]
fn search_is_case_insensitive_both_ways() {
    let mut app = fresh_app();
    create_task(&mut app, "BUY MILK");
    create_task(&mut app, "walk dog");

    app.handle_key(Key::Char('/'));
    type_text(&mut app, "Milk");
    assert_eq!(app.tasks.len(), 1);
    assert_eq!(app.tasks[0].title, "BUY MILK");
}

#[test]
fn cursor_clamps_after_deleting_last_task() {
    let mut app = fresh_app();
    create_task(&mut app, "one");
    create_task(&mut app, "two");
    create_task(&mut app, "three");
    // move the cursor to the last row
    app.handle_key(Key::Char('j'));
    app.handle_key(Key::Char('j'));
    assert_eq!(app.table_sel, Some(2));

    app.handle_key(Key::Char('d'));
    assert_eq!(app.tasks.len(), 2);
    assert_eq!(app.table_sel, Some(1));

    app.handle_key(Key::Char('d'));
    assert_eq!(app.table_sel, Some(0));
    app.handle_key(Key::Char('d'));
    assert_eq!(app.tasks.len(), 0);
    assert_eq!(app.table_sel, None);
}

#[test]
fn navigation_wraps_circularly() {
    let mut app = fresh_app();
    create_task(&mut app, "one");
    create_task(&mut app, "two");
    create_task(&mut app, "three");
    assert_eq!(app.table_sel, Some(0));
    app.handle_key(Key::Char('k'));
    assert_eq!(app.table_sel, Some(2));
    app.handle_key(Key::Char('j'));
    assert_eq!(app.table_sel, Some(0));
    app.handle_key(Key::Down);
    app.handle_key(Key::Down);
    app.handle_key(Key::Down);
    assert_eq!(app.table_sel, Some(0));
}

#[test]
fn navigation_is_a_no_op_on_empty_list() {
    let mut app = fresh_app();
    assert_eq!(app.table_sel, None);
    app.handle_key(Key::Char('j'));
    assert_eq!(app.table_sel, None);
    app.handle_key(Key::Char('k'));
    assert_eq!(app.table_sel, None);
}

#[test]
fn view_cycle_skips_splash() {
    let mut app = fresh_app();
    app.handle_key(Key::Tab);
    assert_eq!(app.current_view, CurrentView::Kanban);
    app.handle_key(Key::Tab);
    assert_eq!(app.current_view, CurrentView::Focus);
    app.handle_key(Key::Tab);
    assert_eq!(app.current_view, CurrentView::Analytics);
    app.handle_key(Key::Tab);
    assert_eq!(app.current_view, CurrentView::Dashboard);
}

#[test]
fn splash_exits_on_any_key_and_quits_on_q() {
    let mut app = App::new();
    assert_eq!(app.current_view, CurrentView::Splash);
    let quit = app.handle_key(Key::Char('x'));
    assert!(!quit);
    assert_eq!(app.current_view, CurrentView::Dashboard);

    let mut app2 = App::new();
    assert!(app2.handle_key(Key::Char('q')));

    let mut app3 = fresh_app();
    assert!(app3.handle_key(Key::Char('q')));
}

#[test]
fn kanban_column_focus_wraps() {
    let mut app = fresh_app();
    assert_eq!(app.kanban_state.focused_col, 0);
    app.handle_key(Key::Char('l'));
    app.handle_key(Key::Char('l'));
    assert_eq!(app.kanban_state.focused_col, 2);
    app.handle_key(Key::Char('l'));
    assert_eq!(app.kanban_state.focused_col, 0);
    app.handle_key(Key::Char('h'));
    assert_eq!(app.kanban_state.focused_col, 2);
}

#[test]
fn kanban_cursors_follow_their_columns() {
    let mut app = fresh_app();
    create_task(&mut app, "one");
    create_task(&mut app, "two");
    // both Todo; move one to Doing
    app.handle_key(Key::Char(' '));
    assert_eq!(app.kanban_state.todo_sel, Some(0));
    assert_eq!(app.kanban_state.doing_sel, Some(0));
    assert_eq!(app.kanban_state.done_sel, None);

    app.handle_key(Key::Tab); // Kanban view
    assert_eq!(app.current_view, CurrentView::Kanban);
    app.handle_key(Key::Char('j')); // todo column has 1 entry, wraps to itself
    assert_eq!(app.kanban_state.todo_sel, Some(0));
}

#[test]
fn inspector_only_opens_with_tasks() {
    let mut app = fresh_app();
    app.handle_key(Key::Enter);
    assert!(!app.is_inspecting);
    create_task(&mut app, "one");
    app.handle_key(Key::Enter);
    assert!(app.is_inspecting);
    app.handle_key(Key::Esc);
    assert!(!app.is_inspecting);
}

#[test]
fn help_overlay_toggles() {
    let mut app = fresh_app();
    assert!(!app.show_help);
    app.handle_key(Key::Char('?'));
    assert!(app.show_help);
    app.handle_key(Key::Char('?'));
    assert!(!app.show_help);
}
