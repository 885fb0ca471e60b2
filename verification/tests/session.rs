use namey::branch::{build_command_context, build_command_line};
use namey::context::PaneContext;
use namey::session::{Action, Event, Pane, State, Tab};
use std::collections::BTreeMap;

fn terminal(title: &str) -> Pane {
    Pane { title: title.to_string(), is_focused: true, is_plugin: false }
}

fn tab(position: usize, name: &str, active: bool) -> Tab {
    Tab { position, name: name.to_string(), active }
}

fn lookup_for(path: &str) -> Action {
    Action::RunCommand { args: build_command_line(path), context: build_command_context(path) }
}

fn rename(index: usize, name: &str) -> Action {
    Action::RenameTab { index, name: name.to_string() }
}

fn tracking(path: &str) -> State {
    let mut state = State::default();
    assert_eq!(state.handle_title(path), lookup_for(path));
    state
}

#[test]
fn state_starts_empty() {
    let state = State::default();
    assert_eq!(state.config.folder_max_len, 10);
    assert_eq!(state.config.separator, ":");
    assert_eq!(state.current_cwd, None);
    assert_eq!(state.current_tab_index, 0);
    assert_eq!(state.current_tab_name, "");
}

#[test]
fn load_replaces_the_configuration_only() {
    let mut state = tracking("/a");
    state.current_tab_index = 3;
    state.current_tab_name = "x".to_string();
    let options = BTreeMap::from([
        ("separator".to_string(), " @ ".to_string()),
        ("folder_max_len".to_string(), "4".to_string()),
    ]);
    state.load(&options);
    assert_eq!(state.config.separator, " @ ");
    assert_eq!(state.config.folder_max_len, 4);
    assert_eq!(state.config.branch_max_len, 5);
    assert_eq!(state.current_cwd, Some("/a".to_string()));
    assert_eq!(state.current_tab_index, 3);
    assert_eq!(state.current_tab_name, "x");
}

#[test]
fn tab_update_takes_the_first_active_tab() {
    let mut state = State::default();
    state.handle_tab_update(&vec![tab(0, "a", false), tab(4, "b", true), tab(2, "c", true)]);
    assert_eq!(state.current_tab_index, 4);
    assert_eq!(state.current_tab_name, "b");
}

#[test]
fn tab_update_without_active_tab_changes_nothing() {
    let mut state = State::default();
    state.current_tab_index = 7;
    state.current_tab_name = "kept".to_string();
    state.handle_tab_update(&vec![tab(0, "a", false), tab(1, "b", false)]);
    assert_eq!(state.current_tab_index, 7);
    assert_eq!(state.current_tab_name, "kept");
    state.handle_tab_update(&vec![]);
    assert_eq!(state.current_tab_index, 7);
    assert_eq!(state.current_tab_name, "kept");
}

#[test]
fn new_path_in_title_asks_for_the_branch() {
    let mut state = State::default();
    let action = state.handle_pane_update(&vec![terminal("bash: /home/me/project")]);
    assert_eq!(action, lookup_for("/home/me/project"));
    assert_eq!(state.current_cwd, Some("/home/me/project".to_string()));
    assert_eq!(state.current_tab_name, "");
}

#[test]
fn same_path_in_title_asks_nothing() {
    let mut state = tracking("/home/me/project");
    let action = state.handle_pane_update(&vec![terminal("zsh: /home/me/project")]);
    assert_eq!(action, Action::Nothing);
    assert_eq!(state.current_cwd, Some("/home/me/project".to_string()));
}

#[test]
fn other_path_in_title_replaces_the_tracked_one() {
    let mut state = tracking("/a");
    let action = state.handle_title("me@host:/b");
    assert_eq!(action, lookup_for("/b"));
    assert_eq!(state.current_cwd, Some("/b".to_string()));
}

#[test]
fn pane_update_looks_at_the_first_focused_terminal() {
    let mut state = State::default();
    let panes = vec![
        Pane { title: "/unfocused".to_string(), is_focused: false, is_plugin: false },
        Pane { title: "/plugin".to_string(), is_focused: true, is_plugin: true },
        Pane { title: "/first".to_string(), is_focused: true, is_plugin: false },
        Pane { title: "/second".to_string(), is_focused: true, is_plugin: false },
    ];
    assert_eq!(state.handle_pane_update(&panes), lookup_for("/first"));
}

#[test]
fn pane_update_without_focused_terminal_does_nothing() {
    let mut state = tracking("/a");
    let panes = vec![
        Pane { title: "/b".to_string(), is_focused: false, is_plugin: false },
        Pane { title: "/c".to_string(), is_focused: true, is_plugin: true },
    ];
    assert_eq!(state.handle_pane_update(&panes), Action::Nothing);
    assert_eq!(state.handle_pane_update(&vec![]), Action::Nothing);
    assert_eq!(state.current_cwd, Some("/a".to_string()));
}

#[test]
fn title_without_path_names_the_tab() {
    let mut state = State::default();
    state.handle_tab_update(&vec![tab(2, "Tab #3", true)]);
    let action = state.handle_title("  htop  ");
    assert_eq!(action, rename(2, "htop"));
    assert_eq!(state.current_tab_name, "htop");
    assert_eq!(state.current_cwd, None);
}

#[test]
fn title_without_path_is_truncated_as_a_folder() {
    let mut state = State::default();
    let action = state.handle_title("cargo test --workspace");
    assert_eq!(action, rename(0, "cargo…pace"));
}

#[test]
fn title_without_path_keeps_the_tracked_directory() {
    let mut state = tracking("/a");
    assert_eq!(state.handle_title("vim"), rename(0, "vim"));
    assert_eq!(state.current_cwd, Some("/a".to_string()));
}

#[test]
fn title_equal_to_tab_name_renames_nothing() {
    let mut state = State::default();
    state.handle_tab_update(&vec![tab(0, "htop", true)]);
    assert_eq!(state.handle_title("htop"), Action::Nothing);
    assert_eq!(state.current_tab_name, "htop");
}

#[test]
fn blank_title_does_nothing() {
    let mut state = State::default();
    state.current_tab_name = "kept".to_string();
    assert_eq!(state.handle_title(""), Action::Nothing);
    assert_eq!(state.handle_title(" \t\n"), Action::Nothing);
    assert_eq!(state.current_tab_name, "kept");
}

#[test]
fn answered_lookup_renames_the_tab() {
    let mut state = tracking("/home/me/myproject");
    state.handle_tab_update(&vec![tab(1, "Tab #2", true)]);
    let context = build_command_context("/home/me/myproject");
    let action = state.handle_command_result(Some(0), b"main\n", &context);
    assert_eq!(action, rename(1, "myproject:main"));
    assert_eq!(state.current_tab_name, "myproject:main");
    assert_eq!(state.current_cwd, Some("/home/me/myproject".to_string()));
}

#[test]
fn answered_lookup_with_same_name_renames_nothing() {
    let mut state = tracking("/home/me/myproject");
    let context = build_command_context("/home/me/myproject");
    assert_eq!(state.handle_command_result(Some(0), b"main\n", &context), rename(0, "myproject:main"));
    assert_eq!(state.handle_command_result(Some(0), b"main\n", &context), Action::Nothing);
    assert_eq!(state.current_tab_name, "myproject:main");
}

#[test]
fn failed_lookup_means_no_branch() {
    for exit_code in [Some(1), Some(128), Some(-1), None] {
        let mut state = tracking("/home/me/myproject");
        let context = build_command_context("/home/me/myproject");
        let action = state.handle_command_result(exit_code, b"main\n", &context);
        assert_eq!(action, rename(0, "myproject"), "exit code {:?}", exit_code);
    }
}

#[test]
fn lookup_with_blank_output_means_no_branch() {
    let mut state = tracking("/home/me/myproject");
    let context = build_command_context("/home/me/myproject");
    assert_eq!(state.handle_command_result(Some(0), b"\n", &context), rename(0, "myproject"));
}

#[test]
fn stale_result_is_dropped() {
    let mut state = tracking("/old");
    assert_eq!(state.handle_title("/new"), lookup_for("/new"));
    state.handle_tab_update(&vec![tab(0, "before", true)]);
    let stale = build_command_context("/old");
    assert_eq!(state.handle_command_result(Some(0), b"main\n", &stale), Action::Nothing);
    assert_eq!(state.current_tab_name, "before");
    assert_eq!(state.current_cwd, Some("/new".to_string()));
    let fresh = build_command_context("/new");
    assert_eq!(state.handle_command_result(Some(0), b"dev\n", &fresh), rename(0, "new:dev"));
}

#[test]
fn result_without_tracked_directory_is_dropped() {
    let mut state = State::default();
    let context = build_command_context("/a");
    assert_eq!(state.handle_command_result(Some(0), b"main\n", &context), Action::Nothing);
    assert_eq!(state.current_tab_name, "");
}

#[test]
fn foreign_result_is_dropped() {
    let mut state = tracking("/a");
    let foreign = BTreeMap::from([
        ("source".to_string(), "other".to_string()),
        ("path".to_string(), "/a".to_string()),
    ]);
    assert_eq!(state.handle_command_result(Some(0), b"main\n", &foreign), Action::Nothing);
    let untagged = BTreeMap::from([("path".to_string(), "/a".to_string())]);
    assert_eq!(state.handle_command_result(Some(0), b"main\n", &untagged), Action::Nothing);
    assert_eq!(state.current_tab_name, "");
}

#[test]
fn result_without_path_is_dropped() {
    let mut state = tracking("/a");
    let context = BTreeMap::from([("source".to_string(), "namey".to_string())]);
    assert_eq!(state.handle_command_result(Some(0), b"main\n", &context), Action::Nothing);
    assert_eq!(state.current_tab_name, "");
}

#[test]
fn apply_lookup_names_the_tab() {
    let mut state = State::default();
    let context = PaneContext {
        cwd: "/home/me/my_long_project_name".to_string(),
        branch: Some("feature-branch-name".to_string()),
    };
    assert_eq!(state.apply_lookup(context), rename(0, "my_lo…name:featu"));
    assert_eq!(state.current_tab_name, "my_lo…name:featu");
    let root = PaneContext { cwd: "/".to_string(), branch: None };
    assert_eq!(state.apply_lookup(root), rename(0, "/"));
}

#[test]
fn request_git_branch_builds_the_lookup() {
    let state = State::default();
    assert_eq!(state.request_git_branch("/a"), lookup_for("/a"));
}

#[test]
fn update_dispatches_each_event() {
    let mut state = State::default();
    assert_eq!(state.update(Event::Other), Action::Nothing);
    assert_eq!(state.update(Event::TabUpdate(vec![tab(5, "five", true)])), Action::Nothing);
    assert_eq!(state.current_tab_index, 5);
    assert_eq!(state.current_tab_name, "five");
    assert_eq!(
        state.update(Event::PaneUpdate(vec![terminal("bash: ~/code/namey")])),
        lookup_for("~/code/namey")
    );
    let answer = Event::CommandResult {
        exit_code: Some(0),
        stdout: b"main\n".to_vec(),
        context: build_command_context("~/code/namey"),
    };
    assert_eq!(state.update(answer), rename(5, "namey:main"));
    assert_eq!(state.current_tab_name, "namey:main");
}

#[test]
fn configuration_shapes_the_name() {
    let mut state = tracking("/home/me/myproject");
    let options = BTreeMap::from([("show_branch".to_string(), "false".to_string())]);
    state.load(&options);
    let context = build_command_context("/home/me/myproject");
    assert_eq!(state.handle_command_result(Some(0), b"main\n", &context), rename(0, "myproject"));
}
