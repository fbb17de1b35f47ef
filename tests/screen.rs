use whisk::db::{read_db, Project};
use whisk::paths::{db_dir, db_path, project_name_of};
use whisk::render::{render, render_projects, Body, Detail};
use whisk::screen::{
    next_index, poll_timeout_ms, prev_index, selection_after_removal, tick_due, Command, Event,
    Key, MenuItem, ScreenState,
};
use whisk::time::Timestamp;

fn on_projects(selected: Option<usize>) -> ScreenState {
    ScreenState { active: MenuItem::Projects, selected }
}

#[test]
fn down_wraps_from_last_to_first() {
    let mut st = on_projects(Some(2));
    let c = st.step(Event::Input(Key::Down), 3);
    assert_eq!(c, Command::Redraw);
    assert_eq!(st.selected, Some(0));
}

#[test]
fn up_wraps_from_first_to_last() {
    let mut st = on_projects(Some(0));
    st.step(Event::Input(Key::Up), 3);
    assert_eq!(st.selected, Some(2));
}

#[test]
fn navigation_steps_and_empty_list() {
    assert_eq!(next_index(0, 3), 1);
    assert_eq!(prev_index(2, 3), 1);
    assert_eq!(prev_index(7, 3), 2);
    let mut st = on_projects(Some(0));
    st.step(Event::Input(Key::Down), 0);
    assert_eq!(st.selected, Some(0));
    st.step(Event::Input(Key::Up), 0);
    assert_eq!(st.selected, Some(0));
    let mut home = ScreenState::new();
    home.step(Event::Input(Key::Down), 3);
    assert_eq!(home.selected, Some(0));
}

#[test]
fn tabs_quit_add_and_tick() {
    let mut st = ScreenState::new();
    assert_eq!(st.active, MenuItem::Home);
    assert_eq!(st.step(Event::Input(Key::Projects), 2), Command::Redraw);
    assert_eq!(st.active, MenuItem::Projects);
    assert_eq!(st.step(Event::Input(Key::Home), 2), Command::Redraw);
    assert_eq!(st.active, MenuItem::Home);
    assert_eq!(st.step(Event::Input(Key::Add), 2), Command::PickDirectory);
    assert_eq!(st.step(Event::Input(Key::Quit), 2), Command::Quit);
    let before = st;
    assert_eq!(st.step(Event::Tick, 2), Command::Redraw);
    assert_eq!(st, before);
    assert_eq!(usize::from(MenuItem::Home), 0);
    assert_eq!(usize::from(MenuItem::Projects), 1);
}

#[test]
fn delete_moves_selection_back() {
    let mut st = on_projects(Some(2));
    assert_eq!(st.step(Event::Input(Key::Delete), 3), Command::Remove(2));
    assert_eq!(st.selected, Some(1));
    let mut first = on_projects(Some(0));
    assert_eq!(first.step(Event::Input(Key::Delete), 2), Command::Remove(0));
    assert_eq!(first.selected, Some(0));
    let mut last = on_projects(Some(0));
    assert_eq!(last.step(Event::Input(Key::Delete), 1), Command::Remove(0));
    assert_eq!(last.selected, None);
    let mut empty = on_projects(Some(0));
    assert_eq!(empty.step(Event::Input(Key::Delete), 0), Command::Redraw);
    let mut home = ScreenState::new();
    assert_eq!(home.step(Event::Input(Key::Delete), 3), Command::Redraw);
    assert_eq!(selection_after_removal(4, 2), Some(3));
}

#[test]
fn fit_after_add_and_on_tab_switch() {
    let mut st = on_projects(None);
    st.fit(1);
    assert_eq!(st.selected, Some(0));
    let mut far = ScreenState { active: MenuItem::Home, selected: Some(9) };
    far.step(Event::Input(Key::Projects), 4);
    assert_eq!(far.selected, Some(3));
}

#[test]
fn empty_store_shows_placeholder() {
    let ps: Vec<Project> = Vec::new();
    let panel = render_projects(Some(0), &ps);
    assert!(panel.names.is_empty());
    assert!(matches!(panel.detail, Detail::Placeholder));
    let panel = render_projects(None, &ps);
    assert!(matches!(panel.detail, Detail::Placeholder));
}

#[test]
fn selected_record_is_shown() {
    let ps = read_db("[{\"id\":\"a1\",\"name\":\"one\",\"directory\":\"/p/one\",\"created_at\":\"2015-05-15T00:00:00Z\"}]")
        .ok()
        .unwrap();
    let frame = render(&on_projects(Some(0)), &ps);
    assert_eq!(frame.menu_selected, 1);
    match frame.body {
        Body::Projects(panel) => {
            assert_eq!(panel.names, vec!["one".to_string()]);
            assert_eq!(panel.highlighted, Some(0));
            match panel.detail {
                Detail::Record { id, name, directory, created_at } => {
                    assert_eq!(id, "a1");
                    assert_eq!(name, "one");
                    assert_eq!(directory, "/p/one");
                    assert_eq!(created_at, "2015-05-15 00:00:00 UTC");
                }
                Detail::Placeholder => panic!("expected the record"),
            }
        }
        Body::Home => panic!("expected the project tab"),
    }
    let out_of_range = render_projects(Some(3), &ps);
    assert!(matches!(out_of_range.detail, Detail::Placeholder));
    let home = render(&ScreenState::new(), &ps);
    assert_eq!(home.menu_selected, 0);
    assert!(matches!(home.body, Body::Home));
}

#[test]
fn timestamps_read_and_written() {
    let t = Timestamp::parse("2024-01-02T03:04:05.250+01:00").unwrap();
    assert_eq!(t.secs(), 1704161045);
    assert_eq!(t.nanos(), 250_000_000);
    assert_eq!(t.to_rfc3339(), "2024-01-02T02:04:05.250Z");
    assert_eq!(t.to_display(), "2024-01-02 02:04:05.250 UTC");
    assert!(Timestamp::parse("2024-13-01T00:00:00Z").is_none());
    let u = Timestamp::from_parts(1431648000, 0).unwrap();
    assert_eq!(u.to_rfc3339(), "2015-05-15T00:00:00Z");
    assert!(Timestamp::from_parts(i64::MAX, 0).is_none());
    let now = Timestamp::now();
    assert!(now.secs() > 1_600_000_000);
    assert!(now.nanos() < 1_000_000_000);
}

#[test]
fn names_and_paths() {
    assert_eq!(project_name_of("/tmp/demo"), "demo");
    assert_eq!(project_name_of("demo"), "demo");
    assert_eq!(project_name_of("/a/b/"), "");
    assert_eq!(project_name_of(""), "");
    assert_eq!(db_dir("/home/u"), "/home/u/.config/whisk");
    assert_eq!(db_path("/home/u"), "/home/u/.config/whisk/db.json");
}

#[test]
fn tick_timing() {
    assert_eq!(poll_timeout_ms(200, 50), 150);
    assert_eq!(poll_timeout_ms(200, 250), 0);
    assert!(tick_due(200, 200));
    assert!(!tick_due(200, 199));
}
