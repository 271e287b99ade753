use rusty_console::application::container_dto::{ContainerDto, ContainerLogsDto};
use rusty_console::application::volume_dto::VolumeDto;
use rusty_console::domain::container::ContainerState;
use rusty_console::presentation::container_presenter::{filter_containers, ContainerPresenter};
use rusty_console::presentation::filter::FilterState;
use rusty_console::presentation::keys::{map_key_to_action, AppAction, KeyCode, KeyInput};
use rusty_console::presentation::resources::{
    filter_prompt_title, logs_title, prune_result_message, stack_containers_title, FILTER_CURSOR,
};
use rusty_console::presentation::selection::TableSelection;
use rusty_console::presentation::volume_presenter::{filter_volumes, VolumePresenter};
use rusty_console::presentation::widgets::{centered_rect, truncate_text, PopupMessage, Rect};

fn key_event(code: KeyCode) -> KeyInput {
    KeyInput::plain(code)
}

fn key_event_with_control(code: KeyCode) -> KeyInput {
    KeyInput::with_control(code)
}

#[test]
fn test_quit() {
    assert_eq!(map_key_to_action(key_event(KeyCode::Char('q'))), Some(AppAction::Quit));
}

#[test]
fn test_back_esc() {
    assert_eq!(map_key_to_action(key_event(KeyCode::Esc)), Some(AppAction::Back));
}

#[test]
fn test_navigate_up_k() {
    assert_eq!(map_key_to_action(key_event(KeyCode::Char('k'))), Some(AppAction::NavigateUp));
}

#[test]
fn test_navigate_up_arrow() {
    assert_eq!(map_key_to_action(key_event(KeyCode::Up)), Some(AppAction::NavigateUp));
}

#[test]
fn test_navigate_down_j() {
    assert_eq!(map_key_to_action(key_event(KeyCode::Char('j'))), Some(AppAction::NavigateDown));
}

#[test]
fn test_navigate_down_arrow() {
    assert_eq!(map_key_to_action(key_event(KeyCode::Down)), Some(AppAction::NavigateDown));
}

#[test]
fn test_select_enter() {
    assert_eq!(map_key_to_action(key_event(KeyCode::Enter)), Some(AppAction::Select));
}

#[test]
fn test_page_up() {
    assert_eq!(map_key_to_action(key_event(KeyCode::PageUp)), Some(AppAction::PageUp));
}

#[test]
fn test_page_down() {
    assert_eq!(map_key_to_action(key_event(KeyCode::PageDown)), Some(AppAction::PageDown));
}

#[test]
fn test_view_logs() {
    assert_eq!(map_key_to_action(key_event(KeyCode::Char('l'))), Some(AppAction::ViewLogs));
}

#[test]
fn test_start_stop() {
    assert_eq!(map_key_to_action(key_event(KeyCode::Char('s'))), Some(AppAction::StartStop));
}

#[test]
fn test_delete() {
    assert_eq!(map_key_to_action(key_event(KeyCode::Char('d'))), Some(AppAction::Delete));
}

#[test]
fn test_view_details() {
    assert_eq!(map_key_to_action(key_event(KeyCode::Char('c'))), Some(AppAction::ViewDetails));
}

#[test]
fn test_refresh() {
    assert_eq!(map_key_to_action(key_event(KeyCode::Char('r'))), Some(AppAction::Refresh));
}

#[test]
fn test_pause_unpause() {
    assert_eq!(map_key_to_action(key_event(KeyCode::Char('p'))), Some(AppAction::PauseUnpause));
}

#[test]
fn test_scroll_down_ctrl_d() {
    assert_eq!(
        map_key_to_action(key_event_with_control(KeyCode::Char('d'))),
        Some(AppAction::ScrollDown)
    );
}

#[test]
fn test_scroll_up_ctrl_u() {
    assert_eq!(
        map_key_to_action(key_event_with_control(KeyCode::Char('u'))),
        Some(AppAction::ScrollUp)
    );
}

#[test]
fn test_restart() {
    assert_eq!(map_key_to_action(key_event(KeyCode::Char('R'))), Some(AppAction::Restart));
}

#[test]
fn test_prune() {
    assert_eq!(map_key_to_action(key_event(KeyCode::Char('X'))), Some(AppAction::Prune));
}

#[test]
fn test_activate_filter() {
    assert_eq!(
        map_key_to_action(key_event(KeyCode::Char('/'))),
        Some(AppAction::ActivateFilter)
    );
}

#[test]
fn test_exec() {
    assert_eq!(map_key_to_action(key_event(KeyCode::Char('e'))), Some(AppAction::Exec));
}

#[test]
fn test_stop_all() {
    assert_eq!(map_key_to_action(key_event(KeyCode::Char('S'))), Some(AppAction::StopAll));
}

#[test]
fn test_start_all_ctrl_s() {
    assert_eq!(
        map_key_to_action(key_event_with_control(KeyCode::Char('s'))),
        Some(AppAction::StartAll)
    );
}

#[test]
fn test_remove_all() {
    assert_eq!(map_key_to_action(key_event(KeyCode::Char('D'))), Some(AppAction::RemoveAll));
}

#[test]
fn test_unknown_key_returns_none() {
    assert_eq!(map_key_to_action(key_event(KeyCode::Other)), None);
}

#[test]
fn control_leaves_other_keys_as_they_are() {
    assert_eq!(map_key_to_action(key_event_with_control(KeyCode::Char('q'))), Some(AppAction::Quit));
    assert_eq!(map_key_to_action(key_event_with_control(KeyCode::Char('x'))), None);
}

#[test]
fn test_active_value_only_when_filter_is_active() {
    let mut filter = FilterState::new();
    filter.push_char('a');
    assert_eq!(filter.active_value(), None);

    filter.activate();
    assert_eq!(filter.active_value(), Some("a"));
}

#[test]
fn test_deactivate_clears_value() {
    let mut filter = FilterState::new();
    filter.activate();
    filter.push_char('a');
    filter.push_char('b');

    filter.deactivate();

    assert!(!filter.is_active());
    assert!(filter.value().is_empty());
}

#[test]
fn filter_push_then_pop_restores_text() {
    let mut filter = FilterState::default();
    filter.push_char('x');
    filter.push_char('é');
    filter.pop_char();
    assert_eq!(filter.value(), "x");
    filter.pop_char();
    filter.pop_char();
    assert_eq!(filter.value(), "");
}

#[test]
fn test_filter_prompt_title_without_filter() {
    assert_eq!(filter_prompt_title("Images", None), " Images ");
}

#[test]
fn test_filter_prompt_title_with_filter() {
    assert_eq!(
        filter_prompt_title("Volumes", Some("data")),
        format!(" Volumes [/: data{FILTER_CURSOR}] ")
    );
}

#[test]
fn test_logs_title_formats_name() {
    assert_eq!(logs_title("web"), " Logs: web ");
}

#[test]
fn test_stack_containers_title_formats_name() {
    assert_eq!(stack_containers_title("compose-app"), " Stack: compose-app ");
}

#[test]
fn test_prune_result_message_formats_result() {
    assert_eq!(prune_result_message("image", 3, "5.0 MB"), "Pruned 3 image(s), freed 5.0 MB");
}

#[test]
fn test_truncate_text_handles_utf8_boundaries() {
    assert_eq!(truncate_text("ééééé", 4), "é...");
    assert_eq!(truncate_text("🦀🦀🦀🦀🦀", 4), "🦀...");
}

#[test]
fn truncate_text_keeps_short_texts_and_tiny_limits() {
    assert_eq!(truncate_text("abc", 4), "abc");
    assert_eq!(truncate_text("abc", 3), "...");
    assert_eq!(truncate_text("abcdef", 2), "..");
    assert_eq!(truncate_text("abcdef", 0), "");
}

#[test]
fn test_table_selection_select_clamps_to_last_item() {
    let mut selection = TableSelection::new();
    selection.set_items(2);

    selection.select(Some(99));

    assert_eq!(selection.selected(), Some(1));
}

#[test]
fn table_selection_next_previous_wrap_and_empty_lists() {
    let mut selection = TableSelection::default();
    selection.next();
    assert_eq!(selection.selected(), None);
    selection.set_items(3);
    assert_eq!(selection.selected(), Some(0));
    selection.previous();
    assert_eq!(selection.selected(), Some(2));
    selection.next();
    assert_eq!(selection.selected(), Some(0));
    selection.set_items(0);
    assert_eq!(selection.selected(), None);
}

#[test]
fn test_popup_message_as_str_returns_inner_text() {
    let error = PopupMessage::Error("oops".to_string());
    assert_eq!(error.as_str(), "oops");

    let info = PopupMessage::Info("done".to_string());
    assert_eq!(info.as_str(), "done");
}

#[test]
fn test_popup_message_variants_are_distinct() {
    let error = PopupMessage::Error("msg".to_string());
    let info = PopupMessage::Info("msg".to_string());
    assert!(matches!(error, PopupMessage::Error(_)));
    assert!(matches!(info, PopupMessage::Info(_)));
}

#[test]
fn centered_rect_centres_within_the_area() {
    let area = Rect { x: 0, y: 0, width: 100, height: 50 };
    let c = centered_rect(60, 20, area);
    assert_eq!((c.width, c.height), (60, 10));
    assert_eq!((c.x, c.y), (20, 20));
}

fn make_container(name: &str, image: &str) -> ContainerDto {
    ContainerDto {
        id: format!("id_{name}"),
        short_id: format!("id_{name}"),
        name: name.to_string(),
        image: image.to_string(),
        state: ContainerState::Running,
        status: "Up 5 minutes".to_string(),
        created: "2024-01-01".to_string(),
        ports: String::new(),
        networks: "bridge".to_string(),
        can_start: false,
        can_stop: true,
        can_delete: false,
        can_restart: true,
        can_pause: true,
        can_unpause: false,
        env_vars: vec![],
        runtime_stats: None,
    }
}

fn three_containers() -> Vec<ContainerDto> {
    vec![
        make_container("alpha", "nginx:latest"),
        make_container("beta", "redis:7"),
        make_container("gamma", "nginx:alpine"),
    ]
}

#[test]
fn test_new_creates_empty_state() {
    let p = ContainerPresenter::new();
    assert!(p.containers.is_empty());
    assert!(p.logs.is_none());
    assert_eq!(p.logs_scroll, 0);
    assert!(p.selected_container.is_none());
    assert!(!p.loading);
    assert!(p.error.is_none());
    assert!(p.filter.value().is_empty());
    assert!(!p.filter.is_active());
    assert!(p.selection.selected().is_none());
}

#[test]
fn test_set_containers_updates_list_and_selection() {
    let mut p = ContainerPresenter::new();
    p.set_containers(three_containers());
    assert_eq!(p.containers.len(), 3);
    assert_eq!(p.selection.selected(), Some(0));
}

#[test]
fn test_set_containers_clears_error() {
    let mut p = ContainerPresenter::new();
    p.set_error("something failed".to_string());
    assert!(p.error.is_some());
    p.set_containers(three_containers());
    assert!(p.error.is_none());
}

#[test]
fn test_filtered_containers_no_filter() {
    let mut p = ContainerPresenter::new();
    p.set_containers(three_containers());
    assert_eq!(p.filtered_containers().len(), 3);
}

#[test]
fn test_filtered_containers_by_name() {
    let mut p = ContainerPresenter::new();
    p.set_containers(three_containers());
    p.push_filter_char('A');
    p.push_filter_char('l');
    p.push_filter_char('p');
    p.push_filter_char('h');
    let filtered = p.filtered_containers();
    assert_eq!(filtered.len(), 1);
    assert_eq!(filtered[0].name, "alpha");
}

#[test]
fn test_filtered_containers_by_image() {
    let mut p = ContainerPresenter::new();
    p.set_containers(three_containers());
    p.push_filter_char('n');
    p.push_filter_char('g');
    p.push_filter_char('i');
    p.push_filter_char('n');
    p.push_filter_char('x');
    let filtered = p.filtered_containers();
    assert_eq!(filtered.len(), 2);
}

#[test]
fn test_filtered_containers_no_match() {
    let mut p = ContainerPresenter::new();
    p.set_containers(three_containers());
    for c in "zzzzz".chars() {
        p.push_filter_char(c);
    }
    assert!(p.filtered_containers().is_empty());
}

#[test]
fn test_selected_container_from_filtered_list() {
    let mut p = ContainerPresenter::new();
    p.set_containers(three_containers());
    for c in "redis".chars() {
        p.push_filter_char(c);
    }
    let selected = p.selected_container();
    assert!(selected.is_some());
    assert_eq!(selected.unwrap().name, "beta");
}

#[test]
fn presenter_test_activate_deactivate_filter() {
    let mut p = ContainerPresenter::new();
    p.set_containers(three_containers());
    p.activate_filter();
    assert!(p.filter.is_active());
    p.push_filter_char('a');
    assert_eq!(p.filter.value(), "a");
    p.deactivate_filter();
    assert!(!p.filter.is_active());
    assert!(p.filter.value().is_empty());
}

#[test]
fn test_push_pop_filter_char() {
    let mut p = ContainerPresenter::new();
    p.set_containers(three_containers());
    p.push_filter_char('a');
    p.push_filter_char('b');
    assert_eq!(p.filter.value(), "ab");
    p.pop_filter_char();
    assert_eq!(p.filter.value(), "a");
    p.pop_filter_char();
    assert!(p.filter.value().is_empty());
}

#[test]
fn test_filter_updates_selection_bounds() {
    let mut p = ContainerPresenter::new();
    p.set_containers(three_containers());
    p.navigate_down();
    p.navigate_down();
    assert_eq!(p.selection.selected(), Some(2));
    for c in "beta".chars() {
        p.push_filter_char(c);
    }
    assert_eq!(p.filtered_containers().len(), 1);
    assert_eq!(p.selection.selected(), Some(0));
}

#[test]
fn test_navigate_up_down() {
    let mut p = ContainerPresenter::new();
    p.set_containers(three_containers());
    assert_eq!(p.selection.selected(), Some(0));
    p.navigate_down();
    assert_eq!(p.selection.selected(), Some(1));
    p.navigate_down();
    assert_eq!(p.selection.selected(), Some(2));
    p.navigate_down();
    assert_eq!(p.selection.selected(), Some(0));
    p.navigate_up();
    assert_eq!(p.selection.selected(), Some(2));
}

#[test]
fn test_set_logs_and_clear() {
    let mut p = ContainerPresenter::new();
    let logs = ContainerLogsDto {
        container_id: "c1".to_string(),
        container_name: "alpha".to_string(),
        logs: "line1\nline2".to_string(),
    };
    p.set_logs(logs);
    assert!(p.logs.is_some());
    assert_eq!(p.logs_scroll, 0);
    p.clear_logs();
    assert!(p.logs.is_none());
    assert_eq!(p.logs_scroll, 0);
}

#[test]
fn test_scroll_logs() {
    let mut p = ContainerPresenter::new();
    p.scroll_logs_down(5);
    assert_eq!(p.logs_scroll, 5);
    p.scroll_logs_down(3);
    assert_eq!(p.logs_scroll, 8);
    p.scroll_logs_up(2);
    assert_eq!(p.logs_scroll, 6);
    p.scroll_logs_up(100);
    assert_eq!(p.logs_scroll, 0);
    p.scroll_logs_down(u16::MAX);
    assert_eq!(p.logs_scroll, u16::MAX);
}

#[test]
fn filter_containers_function_matches_name_or_image() {
    let containers = three_containers();
    assert_eq!(filter_containers(&containers, "").len(), 3);
    assert_eq!(filter_containers(&containers, "ALPINE").len(), 1);
    assert_eq!(filter_containers(&containers, "ALPINE")[0].name, "gamma");
}

fn make_volume(name: &str) -> VolumeDto {
    VolumeDto {
        id: format!("id_{name}"),
        name: name.to_string(),
        driver: "local".to_string(),
        mountpoint: format!("/var/lib/docker/volumes/{name}/_data"),
        size: "10 MB".to_string(),
        created: "2024-01-01".to_string(),
        in_use: false,
        linked_containers: Vec::new(),
        can_delete: true,
    }
}

fn three_volumes() -> Vec<VolumeDto> {
    vec![make_volume("pgdata"), make_volume("redis-cache"), make_volume("app-logs")]
}

#[test]
fn test_set_volumes_updates_list() {
    let mut p = VolumePresenter::new();
    p.set_volumes(three_volumes());
    assert_eq!(p.volumes.len(), 3);
    assert_eq!(p.selection.selected(), Some(0));
    assert!(p.error.is_none());
}

#[test]
fn test_filtered_volumes_by_name() {
    let mut p = VolumePresenter::new();
    p.set_volumes(three_volumes());
    for c in "REDIS".chars() {
        p.push_filter_char(c);
    }
    let filtered = p.filtered_volumes();
    assert_eq!(filtered.len(), 1);
    assert_eq!(filtered[0].name, "redis-cache");
}

#[test]
fn test_selected_volume_from_filtered_list() {
    let mut p = VolumePresenter::new();
    p.set_volumes(three_volumes());
    for c in "app".chars() {
        p.push_filter_char(c);
    }
    let selected = p.selected_volume();
    assert!(selected.is_some());
    assert_eq!(selected.unwrap().name, "app-logs");
}

#[test]
fn test_set_details_and_clear() {
    let mut p = VolumePresenter::new();
    let volume = make_volume("db-data");

    p.set_details(volume.clone());
    assert_eq!(p.selected_volume.as_ref().map(|v| v.name.as_str()), Some("db-data"));

    p.clear_details();
    assert!(p.selected_volume.is_none());
}

#[test]
fn test_activate_deactivate_filter() {
    let mut p = VolumePresenter::new();
    p.set_volumes(three_volumes());
    p.activate_filter();
    assert!(p.filter.is_active());
    p.push_filter_char('x');
    p.deactivate_filter();
    assert!(!p.filter.is_active());
    assert!(p.filter.value().is_empty());
    assert_eq!(p.filtered_volumes().len(), 3);
}

#[test]
fn test_filter_narrows_selection() {
    let mut p = VolumePresenter::new();
    p.set_volumes(three_volumes());
    p.navigate_down();
    p.navigate_down();
    assert_eq!(p.selection.selected(), Some(2));
    for c in "pgdata".chars() {
        p.push_filter_char(c);
    }
    assert_eq!(p.filtered_volumes().len(), 1);
    assert_eq!(p.selection.selected(), Some(0));
}

#[test]
fn test_navigate_wraps() {
    let mut p = VolumePresenter::new();
    p.set_volumes(three_volumes());
    assert_eq!(p.selection.selected(), Some(0));
    p.navigate_up();
    assert_eq!(p.selection.selected(), Some(2));
    p.navigate_down();
    assert_eq!(p.selection.selected(), Some(0));
}

#[test]
fn filter_volumes_function_ignores_case() {
    let volumes = three_volumes();
    assert_eq!(filter_volumes(&volumes, "PG").len(), 1);
    assert_eq!(filter_volumes(&volumes, "").len(), 3);
}
