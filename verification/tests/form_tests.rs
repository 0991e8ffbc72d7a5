use zenith::app::{App, CurrentView, InputMode};
use zenith::form::FormField;
use zenith::glyphs::{get_big_colon, get_big_digit};
use zenith::models::{Date, Task, TaskPriority, TaskStatus};
use zenith::store::Store;
use zenith::theme::ThemeType;
use zenith::timer::FocusState;
use zenith::router::Key;

fn fresh_app() -> App {
    let mut app = App::new();
    app.handle_key(Key::Enter);
    app
}

fn type_text(app: &mut App, text: &str) {
    for c in text.chars() {
        app.handle_key(Key::Char(c));
    }
}

#[test]
fn field_focus_cycles_both_ways() {
    let mut app = fresh_app();
    app.handle_key(Key::Char('n'));
    assert_eq!(app.task_form.active_field, FormField::Title);
    app.handle_key(Key::Tab);
    assert_eq!(app.task_form.active_field, FormField::Priority);
    app.handle_key(Key::Tab);
    assert_eq!(app.task_form.active_field, FormField::XP);
    app.handle_key(Key::Tab);
    assert_eq!(app.task_form.active_field, FormField::DueDate);
    app.handle_key(Key::Tab);
    assert_eq!(app.task_form.active_field, FormField::Description);
    app.handle_key(Key::Tab);
    assert_eq!(app.task_form.active_field, FormField::Title);
    app.handle_key(Key::BackTab);
    assert_eq!(app.task_form.active_field, FormField::Description);
}

#[test]
fn priority_rotations_are_distinct_three_cycles() {
    let mut app = fresh_app();
    app.handle_key(Key::Char('n'));
    app.handle_key(Key::Tab); // Priority field
    assert_eq!(app.task_form.priority, TaskPriority::Medium);

    app.handle_key(Key::Right); // increment: Medium -> High
    assert_eq!(app.task_form.priority, TaskPriority::High);
    app.handle_key(Key::Right); // High -> Low
    assert_eq!(app.task_form.priority, TaskPriority::Low);
    app.handle_key(Key::Right); // Low -> Medium
    assert_eq!(app.task_form.priority, TaskPriority::Medium);

    app.handle_key(Key::Left); // decrement: Medium -> Low
    assert_eq!(app.task_form.priority, TaskPriority::Low);
    app.handle_key(Key::Char('h')); // Low -> High
    assert_eq!(app.task_form.priority, TaskPriority::High);
    app.handle_key(Key::Char('l')); // increment: High -> Low
    assert_eq!(app.task_form.priority, TaskPriority::Low);
}

#[test]
fn xp_field_accepts_only_digits() {
    let mut app = fresh_app();
    app.handle_key(Key::Char('n'));
    app.handle_key(Key::Tab);
    app.handle_key(Key::Tab); // XP field
    assert_eq!(app.task_form.xp, vec!['1', '0']);
    app.handle_key(Key::Backspace);
    app.handle_key(Key::Backspace);
    assert!(app.task_form.xp.is_empty());
    type_text(&mut app, "2a5!x");
    assert_eq!(app.task_form.xp, vec!['2', '5']);
}

#[test]
fn saved_task_carries_form_fields() {
    let mut app = fresh_app();
    app.handle_key(Key::Char('n'));
    type_text(&mut app, "  Ship crate  ");
    app.handle_key(Key::Tab); // Priority
    app.handle_key(Key::Right); // Medium -> High
    app.handle_key(Key::Tab); // XP
    app.handle_key(Key::Backspace);
    app.handle_key(Key::Backspace);
    type_text(&mut app, "40");
    app.handle_key(Key::Tab); // DueDate
    type_text(&mut app, "2025-12-31");
    app.handle_key(Key::Tab); // Description
    type_text(&mut app, "first line");
    app.handle_key(Key::Enter); // newline inside the description
    type_text(&mut app, "second line");
    app.handle_key(Key::Tab); // back to Title so Enter saves
    app.handle_key(Key::Enter);

    assert_eq!(app.input_mode, InputMode::Normal);
    assert_eq!(app.tasks.len(), 1);
    let t = &app.tasks[0];
    assert_eq!(t.title, "Ship crate");
    assert_eq!(t.description, "first line\nsecond line");
    assert_eq!(t.priority, TaskPriority::High);
    assert_eq!(t.xp_reward, 40);
    assert_eq!(t.due_date, Some(Date { year: 2025, month: 12, day: 31 }));
    // the form is reset afterwards
    assert!(app.task_form.title.is_empty());
    assert_eq!(app.task_form.xp, vec!['1', '0']);
    assert_eq!(app.editing_task_id, None);
}

#[test]
fn malformed_due_date_and_xp_degrade_silently() {
    let mut app = fresh_app();
    app.handle_key(Key::Char('n'));
    type_text(&mut app, "Task");
    app.handle_key(Key::Tab);
    app.handle_key(Key::Tab); // XP
    app.handle_key(Key::Backspace);
    app.handle_key(Key::Backspace);
    app.handle_key(Key::Tab); // DueDate, XP left empty
    type_text(&mut app, "tomorrow");
    app.handle_key(Key::Enter);

    let t = &app.tasks[0];
    assert_eq!(t.xp_reward, 10);
    assert_eq!(t.due_date, None);
}

#[test]
fn multiline_title_collapses_to_one_line() {
    let mut app = fresh_app();
    app.handle_key(Key::Char('n'));
    // a newline cannot be typed into the title, but an edited task could
    // carry one in its buffer; feed it directly
    app.task_form.title = "one\ntwo".chars().collect();
    app.handle_key(Key::Enter);
    assert_eq!(app.tasks[0].title, "one two");
}

#[test]
fn editing_prefills_and_updates_in_place() {
    let mut app = fresh_app();
    app.handle_key(Key::Char('n'));
    type_text(&mut app, "Original");
    app.handle_key(Key::Tab);
    app.handle_key(Key::Tab); // XP
    app.handle_key(Key::Backspace);
    app.handle_key(Key::Backspace);
    type_text(&mut app, "33");
    app.handle_key(Key::Tab); // DueDate
    type_text(&mut app, "2026-01-05");
    app.handle_key(Key::Enter);
    let id = app.tasks[0].id.clone();

    app.handle_key(Key::Char('e'));
    assert_eq!(app.input_mode, InputMode::Editing);
    assert_eq!(app.editing_task_id, Some(id.clone()));
    let title: String = app.task_form.title.iter().collect();
    assert_eq!(title, "Original");
    let xp: String = app.task_form.xp.iter().collect();
    assert_eq!(xp, "33");
    let due: String = app.task_form.due_date.iter().collect();
    assert_eq!(due, "2026-01-05");

    type_text(&mut app, " v2");
    app.handle_key(Key::Enter);
    assert_eq!(app.tasks.len(), 1);
    assert_eq!(app.tasks[0].id, id);
    assert_eq!(app.tasks[0].title, "Original v2");
    // the reward is not part of the content update
    assert_eq!(app.tasks[0].xp_reward, 33);
    assert_eq!(app.editing_task_id, None);
}

#[test]
fn escape_cancels_editing_and_clears_target() {
    let mut app = fresh_app();
    app.handle_key(Key::Char('n'));
    type_text(&mut app, "Keep me out");
    app.handle_key(Key::Esc);
    assert_eq!(app.input_mode, InputMode::Normal);
    assert_eq!(app.tasks.len(), 0);
    assert_eq!(app.editing_task_id, None);
}

#[test]
fn edit_key_does_nothing_off_dashboard() {
    let mut app = fresh_app();
    app.handle_key(Key::Tab); // Kanban
    assert_eq!(app.current_view, CurrentView::Kanban);
    app.handle_key(Key::Char('e'));
    assert_eq!(app.input_mode, InputMode::Normal);
}

#[test]
fn timer_reset_and_subsecond_tick() {
    let mut app = fresh_app();
    assert!(!app.focus_state.is_running);
    assert_eq!(app.focus_state.remaining_sec, 1500);
    assert_eq!(app.focus_state.duration_sec, 1500);

    app.handle_key(Key::Char('t'));
    assert!(app.focus_state.is_running);
    assert!(app.focus_state.last_tick.is_some());

    // a tick in the very second of the anchor leaves the countdown alone
    let anchor = app.focus_state.last_tick.unwrap();
    app.focus_state.tick_at(anchor);
    assert_eq!(app.focus_state.remaining_sec, 1500);

    app.handle_key(Key::Char('r'));
    assert!(!app.focus_state.is_running);
    assert_eq!(app.focus_state.remaining_sec, 1500);
    assert_eq!(app.focus_state.last_tick, None);
}

#[test]
fn timer_counts_down_from_a_back_dated_anchor() {
    let mut fs = FocusState::default();
    fs.toggle_at(1000);
    fs.tick_at(1007);
    assert_eq!(fs.remaining_sec, 1493);
    assert!(fs.is_running);
    fs.tick_at(1007);
    assert_eq!(fs.remaining_sec, 1493);
    // a tick past the session floor stops it at zero
    fs.tick_at(1000000);
    assert_eq!(fs.remaining_sec, 0);
    assert!(!fs.is_running);
    fs.reset();
    assert_eq!(fs.remaining_sec, fs.duration_sec);
    assert!(!fs.is_running);
}

#[test]
fn theme_cycle_returns_after_four_steps() {
    let t = ThemeType::Horizon;
    assert_eq!(t.next(), ThemeType::Nebula);
    assert_eq!(t.next().next().next().next(), ThemeType::Horizon);
}

#[test]
fn big_glyphs_are_five_rows() {
    for n in 0..10 {
        assert_eq!(get_big_digit(n).len(), 5);
    }
    assert_eq!(
        get_big_digit(1),
        vec!["  ██  ", "████  ", "  ██  ", "  ██  ", "██████"]
    );
    assert_eq!(get_big_digit(42), vec![""; 5]);
    assert_eq!(get_big_digit(-3), vec![""; 5]);
    assert_eq!(
        get_big_colon(),
        vec!["      ", "  ██  ", "      ", "  ██  ", "      "]
    );
}

#[test]
fn store_orders_newest_first() {
    let mut store = Store::new();
    store.create_task(Task::new(
        String::from("a"),
        String::new(),
        TaskPriority::Low,
        5,
        None,
    ));
    store.create_task(Task::new(
        String::from("b"),
        String::new(),
        TaskPriority::Low,
        5,
        None,
    ));
    let tasks = store.get_all_tasks();
    assert_eq!(tasks.len(), 2);
    assert_eq!(tasks[0].title, "b");
    assert_eq!(tasks[1].title, "a");
    assert!(tasks[0].created_at >= tasks[1].created_at);
    assert_eq!(tasks[0].status, TaskStatus::Todo);
}

#[test]
fn weekly_stats_group_completions_by_day() {
    let mut store = Store::new();
    for title in ["a", "b", "c"] {
        store.create_task(Task::new(
            String::from(title),
            String::new(),
            TaskPriority::Medium,
            10,
            None,
        ));
    }
    let tasks = store.get_all_tasks();
    store.update_task_status(&tasks[0].id, TaskStatus::Done);
    store.update_task_status(&tasks[1].id, TaskStatus::Done);
    let stats = store.get_weekly_stats();
    assert_eq!(stats.len(), 1);
    assert_eq!(stats[0].1, 2);
    let today = stats[0].0;
    assert!(today.month >= 1 && today.month <= 12);
    assert!(today.day >= 1 && today.day <= 31);

    store.update_task_status(&tasks[0].id, TaskStatus::Todo);
    let stats2 = store.get_weekly_stats();
    assert_eq!(stats2.len(), 1);
    assert_eq!(stats2[0].1, 1);
}
