use rusty_console::application::container_dto::{
    ContainerDto, ContainerLogsDto, ContainerRuntimeStatsDto, ContainerStatsEvent,
    ContainerStatsUpdate,
};
use rusty_console::application::error::AppError;
use rusty_console::application::image_dto::ImageDto;
use rusty_console::application::prune::PruneResultDto;
use rusty_console::application::stack_dto::{StackContainerDto, StackDto};
use rusty_console::application::volume_dto::VolumeDto;
use rusty_console::domain::byte_size::ByteSize;
use rusty_console::domain::container::ContainerState;
use rusty_console::domain::stack::StackContainerState;
use rusty_console::failure::{IoFailure, IoFailureKind};
use rusty_console::presentation::app::{
    confirm_message, container_ids, exec_reload, ids_where, App, AppEffect, ConfirmAction,
    ContainerOperation, Operation, PruneTarget, Reload, Screen, StackOperation,
};
use rusty_console::presentation::exec::{
    build_exec_args, exec_outcome_message, finalize_exec_command_result, finalize_run_result,
    format_exec_error, record_cleanup_error, ExecCommandConfig, ExecCommandResult,
    ExecRefreshTarget, ExecShell, ExecShellDialog, ExitStatusReport, PendingExec,
};
use rusty_console::presentation::keys::{AppAction, KeyCode, KeyInput};
use rusty_console::presentation::resources::{
    CONTAINER_NOT_FOUND_MESSAGE, DELETE_CONTAINER_MESSAGE, DELETE_VOLUME_MESSAGE,
    FORCE_DELETE_CONTAINER_MESSAGE, MAIN_MENU_ITEMS, REMOVE_ALL_STACK_CONTAINERS_MESSAGE,
    VOLUME_IN_USE_DELETE_MESSAGE,
};
use rusty_console::presentation::widgets::PopupMessage;

fn make_stats(cpu_delta: u64) -> ContainerRuntimeStatsDto {
    ContainerRuntimeStatsDto {
        cpu_delta,
        system_delta: 100,
        online_cpus: 1,
        memory_used: 256,
        memory_cap: 512,
        memory_usage: ByteSize::new(256),
        memory_limit: ByteSize::new(512),
        network_rx: ByteSize::new(64),
        network_tx: ByteSize::new(32),
    }
}

fn make_container_dto() -> ContainerDto {
    ContainerDto {
        id: "abc123".to_string(),
        short_id: "abc123".to_string(),
        name: "web".to_string(),
        image: "nginx:latest".to_string(),
        state: ContainerState::Running,
        status: "Up 5 minutes".to_string(),
        created: "2024-01-01".to_string(),
        ports: "80:80".to_string(),
        networks: "bridge".to_string(),
        can_start: false,
        can_stop: true,
        can_delete: true,
        can_restart: true,
        can_pause: true,
        can_unpause: false,
        env_vars: vec!["RUST_LOG=info".to_string()],
        runtime_stats: Some(make_stats(12)),
    }
}

fn make_stopped_container_dto() -> ContainerDto {
    ContainerDto {
        id: "def456".to_string(),
        can_start: true,
        can_stop: false,
        can_pause: false,
        can_unpause: false,
        can_restart: false,
        state: ContainerState::Stopped,
        status: "Exited".to_string(),
        ..make_container_dto()
    }
}

fn make_volume_dto(in_use: bool, can_delete: bool) -> VolumeDto {
    VolumeDto {
        id: "vol-1".to_string(),
        name: "db-data".to_string(),
        driver: "local".to_string(),
        mountpoint: "/var/lib/docker/volumes/db-data/_data".to_string(),
        size: "10 MB".to_string(),
        created: "2024-01-01".to_string(),
        in_use,
        linked_containers: Vec::new(),
        can_delete,
    }
}

fn make_image_dto(in_use: bool) -> ImageDto {
    ImageDto {
        id: "sha256:abc".to_string(),
        short_id: "abc".to_string(),
        repository: "nginx".to_string(),
        tag: "latest".to_string(),
        full_name: "nginx:latest".to_string(),
        size: "12 MB".to_string(),
        created: "2024-01-01".to_string(),
        in_use,
        is_dangling: false,
        can_delete: !in_use,
    }
}

fn make_stack_container(id: &str, can_start: bool, can_stop: bool) -> StackContainerDto {
    StackContainerDto {
        id: id.to_string(),
        name: "web".to_string(),
        image: "nginx:latest".to_string(),
        state: if can_stop { StackContainerState::Running } else { StackContainerState::Stopped },
        status: if can_stop { "Up".to_string() } else { "Exited".to_string() },
        ports: "80/tcp".to_string(),
        can_start,
        can_stop,
    }
}

fn make_stack_dto(name: &str, containers: Vec<StackContainerDto>) -> StackDto {
    StackDto {
        name: name.to_string(),
        container_count: containers.len(),
        running_count: containers.iter().filter(|c| c.can_stop).count(),
        containers,
    }
}

fn empty_app() -> App {
    App::new(ExecCommandConfig::new("unix:///var/run/docker.sock"))
}

fn popup_text(app: &App) -> String {
    app.popup_message.as_ref().map(|m| m.as_str().to_string()).unwrap_or_default()
}

fn container_op(effect: &AppEffect) -> Option<(ContainerOperation, String, Reload)> {
    match effect {
        AppEffect::Perform { operation: Operation::Container { op, container_id }, then } => {
            Some((*op, container_id.clone(), *then))
        }
        _ => None,
    }
}

fn stack_op(effect: &AppEffect) -> Option<(StackOperation, Vec<String>, Reload)> {
    match effect {
        AppEffect::Perform { operation: Operation::Stack { op, container_ids }, then } => {
            Some((*op, container_ids.clone(), *then))
        }
        _ => None,
    }
}

#[test]
fn test_new_render_confirm_message_and_format_bytes() {
    let app = empty_app();
    assert_eq!(app.screen, Screen::MainMenu);
    assert_eq!(app.menu_selected, Some(0));

    assert_eq!(confirm_message(ConfirmAction::DeleteContainer(false)), DELETE_CONTAINER_MESSAGE);
    assert_eq!(
        confirm_message(ConfirmAction::DeleteContainer(true)),
        FORCE_DELETE_CONTAINER_MESSAGE
    );
    assert_eq!(
        confirm_message(ConfirmAction::RemoveAllStackContainers),
        REMOVE_ALL_STACK_CONTAINERS_MESSAGE
    );
    assert_eq!(confirm_message(ConfirmAction::DeleteVolume), DELETE_VOLUME_MESSAGE);
}

#[test]
fn test_finalize_run_result_returns_cleanup_error_after_success() {
    let err = finalize_run_result(Ok(()), Some(IoFailure::new(IoFailureKind::Other, "show_cursor failed")))
        .unwrap_err();

    assert_eq!(err.kind(), IoFailureKind::Other);
    assert_eq!(err.to_text(), "show_cursor failed");
}

#[test]
fn test_finalize_run_result_preserves_run_error_and_attaches_cleanup_error() {
    let err = finalize_run_result(
        Err(IoFailure::new(IoFailureKind::Other, "event loop failed")),
        Some(IoFailure::new(IoFailureKind::Other, "disable_raw_mode failed")),
    )
    .unwrap_err();

    assert_eq!(err.kind(), IoFailureKind::Other);
    assert_eq!(err.to_text(), "event loop failed; cleanup also failed: disable_raw_mode failed");
}

#[test]
fn finalize_run_result_passes_success_and_lone_errors_through() {
    assert!(finalize_run_result(Ok(()), None).is_ok());
    let err = finalize_run_result(Err(IoFailure::new(IoFailureKind::NotFound, "gone")), None)
        .unwrap_err();
    assert_eq!(err.kind(), IoFailureKind::NotFound);
    assert_eq!(err.to_text(), "gone");
}

#[test]
fn record_cleanup_error_keeps_the_first_failure() {
    let mut cleanup = None;
    record_cleanup_error(&mut cleanup, Ok(()));
    assert!(cleanup.is_none());
    record_cleanup_error(&mut cleanup, Err(IoFailure::new(IoFailureKind::Other, "first")));
    record_cleanup_error(&mut cleanup, Err(IoFailure::new(IoFailureKind::Other, "second")));
    assert_eq!(cleanup.unwrap().to_text(), "first");
}

#[test]
fn test_handle_action_clears_popup_and_handles_confirm_dialog() {
    let mut app = empty_app();
    app.popup_message = Some(PopupMessage::Error("boom".to_string()));
    let effect = app.handle_action(AppAction::Quit);
    assert!(matches!(effect, AppEffect::Nothing));
    assert!(app.popup_message.is_none());
    assert!(!app.should_quit);

    app.confirm_dialog = Some((ConfirmAction::DeleteVolume, true));
    app.handle_action(AppAction::NavigateDown);
    assert_eq!(app.confirm_dialog, Some((ConfirmAction::DeleteVolume, false)));

    app.handle_action(AppAction::Back);
    assert!(app.confirm_dialog.is_none());

    app.confirm_dialog = Some((ConfirmAction::DeleteVolume, false));
    let effect = app.handle_action(AppAction::Select);
    assert!(app.confirm_dialog.is_none());
    assert!(matches!(effect, AppEffect::Nothing));
}

#[test]
fn test_handle_main_menu_navigation_and_quit() {
    let mut app = empty_app();

    app.handle_main_menu_action(AppAction::NavigateUp);
    assert_eq!(app.menu_selected, Some(MAIN_MENU_ITEMS.len() - 1));

    app.handle_main_menu_action(AppAction::NavigateDown);
    assert_eq!(app.menu_selected, Some(0));

    app.handle_main_menu_action(AppAction::Quit);
    assert!(app.should_quit);
}

#[test]
fn test_handle_main_menu_select_loads_each_screen() {
    let mut app = empty_app();
    let expected = [
        (Screen::ContainerList, Reload::Containers),
        (Screen::VolumeList, Reload::Volumes),
        (Screen::ImageList, Reload::Images),
        (Screen::StackList, Reload::Stacks),
    ];
    for (row, (screen, reload)) in expected.iter().enumerate() {
        app.screen = Screen::MainMenu;
        app.menu_selected = Some(row);
        let effect = app.handle_main_menu_action(AppAction::Select);
        assert_eq!(app.screen, *screen);
        assert!(matches!(effect, AppEffect::Reload(r) if r == *reload));
    }
    app.screen = Screen::MainMenu;
    app.menu_selected = Some(4);
    app.handle_main_menu_action(AppAction::Select);
    assert!(app.should_quit);
}

#[test]
fn test_handle_container_list_actions_cover_navigation_and_mutations() {
    let mut app = empty_app();
    app.screen = Screen::ContainerList;
    app.container_presenter.set_containers(vec![make_container_dto()]);

    app.handle_container_list_action(AppAction::NavigateDown);
    app.handle_container_list_action(AppAction::NavigateUp);
    app.handle_container_list_action(AppAction::ActivateFilter);
    assert!(app.container_presenter.is_filter_active());

    match app.handle_container_list_action(AppAction::ViewLogs) {
        AppEffect::LoadLogs { container_id, container_name } => {
            assert_eq!(container_id, "abc123");
            assert_eq!(container_name, "web");
        }
        other => panic!("unexpected {other:?}"),
    }
    app.finish_logs_load(Ok(ContainerLogsDto {
        container_id: "abc123".to_string(),
        container_name: "web".to_string(),
        logs: "line1\nline2".to_string(),
    }));
    assert_eq!(app.screen, Screen::ContainerLogs);

    app.screen = Screen::ContainerList;
    match app.handle_container_list_action(AppAction::ViewDetails) {
        AppEffect::LoadDetails { container_id } => assert_eq!(container_id, "abc123"),
        other => panic!("unexpected {other:?}"),
    }
    app.finish_details_load(Ok(Some(make_container_dto())));
    assert_eq!(app.screen, Screen::ContainerDetails);

    app.screen = Screen::ContainerList;
    let stop = app.handle_container_list_action(AppAction::StartStop);
    assert_eq!(
        container_op(&stop),
        Some((ContainerOperation::Stop, "abc123".to_string(), Reload::Containers))
    );
    let pause = app.handle_container_list_action(AppAction::PauseUnpause);
    assert_eq!(container_op(&pause).unwrap().0, ContainerOperation::Pause);
    let restart = app.handle_container_list_action(AppAction::Restart);
    assert_eq!(container_op(&restart).unwrap().0, ContainerOperation::Restart);
    assert!(matches!(
        app.handle_container_list_action(AppAction::Refresh),
        AppEffect::Reload(Reload::Containers)
    ));

    app.handle_container_list_action(AppAction::Delete);
    assert_eq!(app.confirm_dialog, Some((ConfirmAction::DeleteContainer(true), true)));

    app.confirm_dialog = None;
    app.handle_container_list_action(AppAction::Prune);
    assert_eq!(app.confirm_dialog, Some((ConfirmAction::PruneContainers, true)));

    app.confirm_dialog = None;
    app.handle_container_list_action(AppAction::Exec);
    assert!(app.exec_shell_dialog.is_some());

    let back = app.handle_container_list_action(AppAction::Back);
    assert!(matches!(back, AppEffect::StopStats));
    assert_eq!(app.screen, Screen::MainMenu);
    assert!(app
        .container_presenter
        .containers
        .iter()
        .all(|container| container.runtime_stats.is_none()));
}

#[test]
fn test_handle_container_log_and_details_actions() {
    let mut app = empty_app();
    app.screen = Screen::ContainerLogs;
    app.container_presenter.set_logs(ContainerLogsDto {
        container_id: "abc123".to_string(),
        container_name: "web".to_string(),
        logs: "line1".to_string(),
    });
    app.handle_container_logs_action(AppAction::ScrollDown);
    assert_eq!(app.container_presenter.logs_scroll, 10);
    app.handle_container_logs_action(AppAction::ScrollUp);
    assert_eq!(app.container_presenter.logs_scroll, 0);
    app.handle_container_logs_action(AppAction::Back);
    assert_eq!(app.screen, Screen::ContainerList);
    assert!(app.container_presenter.logs.is_none());

    app.screen = Screen::ContainerDetails;
    app.container_presenter.set_details(make_container_dto());
    app.handle_details_action(AppAction::Quit);
    assert_eq!(app.screen, Screen::ContainerList);
    assert!(app.container_presenter.selected_container.is_none());

    app.screen = Screen::ImageDetails;
    app.image_presenter.set_details(make_image_dto(true));
    app.handle_details_action(AppAction::Back);
    assert_eq!(app.screen, Screen::ImageList);
    assert!(app.image_presenter.selected_image.is_none());
}

#[test]
fn test_volume_and_image_list_actions() {
    let mut app = empty_app();

    app.screen = Screen::VolumeList;
    app.volume_presenter.set_volumes(vec![make_volume_dto(true, false)]);
    app.handle_volume_list_action(AppAction::Delete);
    assert!(matches!(app.popup_message, Some(PopupMessage::Error(_))));
    assert!(popup_text(&app).contains(VOLUME_IN_USE_DELETE_MESSAGE));
    assert!(app.confirm_dialog.is_none());
    app.popup_message = None;
    app.volume_presenter.set_volumes(vec![make_volume_dto(false, true)]);
    app.handle_volume_list_action(AppAction::Delete);
    assert_eq!(app.confirm_dialog, Some((ConfirmAction::DeleteVolume, true)));
    app.confirm_dialog = None;
    app.handle_volume_list_action(AppAction::Prune);
    assert_eq!(app.confirm_dialog, Some((ConfirmAction::PruneVolumes, true)));
    app.confirm_dialog = None;
    app.handle_volume_list_action(AppAction::ActivateFilter);
    assert!(app.volume_presenter.is_filter_active());
    assert!(matches!(
        app.handle_volume_list_action(AppAction::Refresh),
        AppEffect::Reload(Reload::Volumes)
    ));

    app.screen = Screen::ImageList;
    app.image_presenter.set_images(vec![make_image_dto(true)]);
    app.handle_image_list_action(AppAction::ViewDetails);
    assert_eq!(app.screen, Screen::ImageDetails);
    assert_eq!(app.image_presenter.selected_image.as_ref().unwrap().full_name, "nginx:latest");
    app.screen = Screen::ImageList;
    app.handle_image_list_action(AppAction::Delete);
    assert_eq!(app.confirm_dialog, Some((ConfirmAction::DeleteImage(true), true)));
    app.confirm_dialog = None;
    app.handle_image_list_action(AppAction::Prune);
    assert_eq!(app.confirm_dialog, Some((ConfirmAction::PruneImages, true)));
    app.confirm_dialog = None;
    app.handle_image_list_action(AppAction::ActivateFilter);
    assert!(app.image_presenter.is_filter_active());
    assert!(matches!(
        app.handle_image_list_action(AppAction::Refresh),
        AppEffect::Reload(Reload::Images)
    ));
}

#[test]
fn test_selected_exec_target_uses_current_screen_selection() {
    let mut app = empty_app();
    app.screen = Screen::ContainerList;
    app.container_presenter.set_containers(vec![make_container_dto()]);

    let (id, target) = app.selected_exec_target().unwrap();
    assert_eq!(id, "abc123");
    assert_eq!(target, ExecRefreshTarget::Containers);

    app.screen = Screen::StackContainers;
    app.stack_presenter.set_stack_containers(vec![make_stack_container("stack-1", false, true)]);

    let (id, target) = app.selected_exec_target().unwrap();
    assert_eq!(id, "stack-1");
    assert_eq!(target, ExecRefreshTarget::StackContainers);

    app.screen = Screen::VolumeList;
    assert!(app.selected_exec_target().is_none());
}

#[test]
fn test_drain_container_stats_applies_updates_and_surfaces_errors() {
    let mut app = empty_app();
    app.container_presenter.set_containers(vec![make_container_dto()]);
    app.apply_stats_event(ContainerStatsEvent::Update(ContainerStatsUpdate {
        container_id: "abc123".to_string(),
        stats: make_stats(80),
    }));
    app.apply_stats_event(ContainerStatsEvent::Error {
        container_id: "abc123".to_string(),
        message: "boom".to_string(),
    });

    assert_eq!(app.container_presenter.containers[0].runtime_stats, Some(make_stats(80)));
    assert!(matches!(app.popup_message, Some(PopupMessage::Error(_))));
    assert_eq!(popup_text(&app), "Stats stream failed for abc123: boom");
}

#[test]
fn stats_for_other_containers_change_nothing() {
    let mut app = empty_app();
    app.container_presenter.set_containers(vec![make_container_dto()]);
    app.apply_stats_event(ContainerStatsEvent::Update(ContainerStatsUpdate {
        container_id: "other".to_string(),
        stats: make_stats(99),
    }));
    assert_eq!(app.container_presenter.containers[0].runtime_stats, Some(make_stats(12)));
}

#[test]
fn test_handle_exec_shell_action_navigates_selects_and_cancels() {
    let mut app = empty_app();
    app.exec_shell_dialog = Some(ExecShellDialog::new(
        "abc123".to_string(),
        ExecRefreshTarget::Containers,
    ));

    app.handle_action(AppAction::NavigateDown);
    app.handle_action(AppAction::Select);

    assert!(app.exec_shell_dialog.is_none());
    let pending = app.take_pending_exec().unwrap();
    assert_eq!(pending.container_id, "abc123");
    assert_eq!(pending.shell, ExecShell::Bash);
    assert_eq!(pending.refresh_target, ExecRefreshTarget::Containers);
    assert!(app.pending_exec.is_none());

    app.exec_shell_dialog = Some(ExecShellDialog::new(
        "abc123".to_string(),
        ExecRefreshTarget::Containers,
    ));
    app.handle_action(AppAction::Quit);
    assert!(app.exec_shell_dialog.is_none());
    assert!(app.pending_exec.is_none());
    assert!(!app.should_quit);
}

#[test]
fn exec_dialog_rows_wrap_both_ways() {
    let mut dialog = ExecShellDialog::new("c".to_string(), ExecRefreshTarget::StackContainers);
    dialog.navigate_up();
    assert_eq!(dialog.selected, Some(1));
    dialog.navigate_down();
    assert_eq!(dialog.selected, Some(0));
    dialog.select_next();
    dialog.select_next();
    assert_eq!(dialog.selected, Some(0));
    assert_eq!(dialog.build_request().shell, ExecShell::Sh);
    assert_eq!(ExecShell::from_index(7), ExecShell::Sh);
    assert_eq!(ExecShell::Bash.as_str(), "bash");
}

#[test]
fn test_build_exec_command_uses_configured_host_and_shell() {
    let config = ExecCommandConfig::new("unix:///var/run/docker.sock");
    let request = PendingExec {
        container_id: "abc123".to_string(),
        shell: ExecShell::Bash,
        refresh_target: ExecRefreshTarget::Containers,
    };

    let args = build_exec_args(&config, &request);

    assert_eq!(config.docker_host(), "unix:///var/run/docker.sock");
    assert_eq!(
        args,
        vec!["--host", "unix:///var/run/docker.sock", "exec", "-it", "abc123", "bash"]
    );
}

#[test]
fn test_format_exec_error_for_missing_docker_binary() {
    let error = IoFailure::new(IoFailureKind::NotFound, "missing");

    assert_eq!(
        format_exec_error(&error),
        "Docker CLI not found on PATH. Install the `docker` binary to use Exec. Raw error: missing"
    );
}

#[test]
fn test_format_exec_error_for_non_executable_docker_binary() {
    let error = IoFailure::new(IoFailureKind::PermissionDenied, "permission denied");

    assert_eq!(
        format_exec_error(&error),
        "Docker CLI exists but is not executable. Check the `docker` binary permissions to use Exec. Raw error: permission denied"
    );
}

#[test]
fn test_format_exec_error_for_other_startup_failure() {
    let error = IoFailure::new(IoFailureKind::Other, "spawn failed");

    assert_eq!(format_exec_error(&error), "Failed to start `docker exec`. Raw error: spawn failed");
}

#[test]
fn test_finalize_exec_command_result_treats_spawn_error_as_non_fatal() {
    let result = finalize_exec_command_result(
        Err(IoFailure::new(IoFailureKind::NotFound, "missing")),
        Ok(()),
    )
    .unwrap();

    assert!(matches!(result, ExecCommandResult::SpawnError(_)));
}

#[test]
fn test_finalize_exec_command_result_treats_resume_error_as_fatal() {
    let result = finalize_exec_command_result(
        Ok(ExitStatusReport { success: true, text: "exit status: 0".to_string() }),
        Err(IoFailure::new(IoFailureKind::Other, "resume failed")),
    );

    assert!(result.is_err());
    assert_eq!(result.unwrap_err().to_text(), "resume failed");
}

#[test]
fn test_finalize_exec_command_result_prefers_resume_failure_when_both_fail() {
    let result = finalize_exec_command_result(
        Err(IoFailure::new(IoFailureKind::NotFound, "docker missing")),
        Err(IoFailure::new(IoFailureKind::Other, "resume failed")),
    );

    assert!(result.is_err());
    assert_eq!(
        result.unwrap_err().to_text(),
        "resume failed; docker exec also failed: docker missing"
    );
}

#[test]
fn exec_outcome_reports_failures_only() {
    let ok = ExecCommandResult::Status(ExitStatusReport { success: true, text: "exit status: 0".to_string() });
    assert!(exec_outcome_message(&ok).is_none());
    let failed = ExecCommandResult::Status(ExitStatusReport {
        success: false,
        text: "exit status: 130".to_string(),
    });
    assert_eq!(
        exec_outcome_message(&failed).unwrap(),
        "`docker exec` exited with status exit status: 130"
    );

    let mut app = empty_app();
    app.finish_exec(&ok);
    assert!(app.popup_message.is_none());
    app.finish_exec(&ExecCommandResult::SpawnError(IoFailure::new(IoFailureKind::NotFound, "x")));
    assert!(popup_text(&app).starts_with("Docker CLI not found on PATH."));
    assert!(matches!(exec_reload(ExecRefreshTarget::StackContainers), Reload::StackContainers));
}

#[test]
fn test_execute_confirm_action_delete_and_prune_paths() {
    let mut app = empty_app();
    app.container_presenter.set_containers(vec![make_container_dto()]);
    app.volume_presenter.set_volumes(vec![make_volume_dto(false, true)]);
    app.image_presenter.set_images(vec![make_image_dto(true)]);
    app.stack_presenter.set_stacks(vec![make_stack_dto(
        "compose-app",
        vec![make_stack_container("stack-1", false, true)],
    )]);
    app.stack_presenter.set_stack_containers(vec![make_stack_container("stack-1", false, true)]);

    let delete = app.execute_confirm_action(ConfirmAction::DeleteContainer(true));
    assert_eq!(
        container_op(&delete),
        Some((ContainerOperation::Delete(true), "abc123".to_string(), Reload::Containers))
    );
    let prune = app.execute_confirm_action(ConfirmAction::PruneContainers);
    assert!(matches!(prune, AppEffect::Prune(PruneTarget::Containers)));
    let after = app.finish_prune(
        PruneTarget::Containers,
        Ok(PruneResultDto { deleted_count: 2, space_freed: 1024 }),
        "1.0 KB",
    );
    assert!(matches!(after, AppEffect::Reload(Reload::Containers)));
    assert!(matches!(app.popup_message, Some(PopupMessage::Info(_))));
    assert!(popup_text(&app).contains("Pruned 2 container(s)"));

    match app.execute_confirm_action(ConfirmAction::DeleteVolume) {
        AppEffect::Perform { operation: Operation::DeleteVolume { name }, then } => {
            assert_eq!(name, "db-data");
            assert_eq!(then, Reload::Volumes);
        }
        other => panic!("unexpected {other:?}"),
    }
    app.finish_prune(
        PruneTarget::Volumes,
        Ok(PruneResultDto { deleted_count: 1, space_freed: 256 }),
        "256 B",
    );
    assert!(popup_text(&app).contains("Pruned 1 volume(s)"));

    match app.execute_confirm_action(ConfirmAction::DeleteImage(true)) {
        AppEffect::Perform { operation: Operation::DeleteImage { image_id, force }, then } => {
            assert_eq!(image_id, "sha256:abc");
            assert!(force);
            assert_eq!(then, Reload::Images);
        }
        other => panic!("unexpected {other:?}"),
    }
    app.finish_prune(
        PruneTarget::Images,
        Ok(PruneResultDto { deleted_count: 3, space_freed: 2048 }),
        "2.0 KB",
    );
    assert!(popup_text(&app).contains("Pruned 3 image(s)"));

    app.screen = Screen::StackContainers;
    let delete = app.execute_confirm_action(ConfirmAction::DeleteContainer(true));
    assert_eq!(
        container_op(&delete),
        Some((ContainerOperation::Delete(true), "stack-1".to_string(), Reload::StackContainers))
    );
    let remove = app.execute_confirm_action(ConfirmAction::RemoveAllStackContainers);
    assert_eq!(
        stack_op(&remove),
        Some((StackOperation::RemoveAll, vec!["stack-1".to_string()], Reload::ShowStacks))
    );
    let next = app.finish_operation(Ok(()), Reload::ShowStacks);
    assert!(matches!(next, AppEffect::Reload(Reload::Stacks)));
    assert_eq!(app.screen, Screen::StackList);
}

#[test]
fn failed_work_is_reported_and_nothing_reloads() {
    let mut app = empty_app();
    let next = app.finish_operation(Err(AppError::operation_failed("boom")), Reload::Containers);
    assert!(matches!(next, AppEffect::Nothing));
    assert_eq!(popup_text(&app), "Operation failed: boom");
    let next = app.finish_prune(PruneTarget::Images, Err(AppError::connection("down")), "");
    assert!(matches!(next, AppEffect::Nothing));
    assert_eq!(popup_text(&app), "Connection error: down");
    app.finish_stats_subscription(Err(AppError::repository("no stream")));
    assert_eq!(popup_text(&app), "Repository error: no stream");
}

#[test]
fn test_filter_key_and_load_helpers() {
    let mut app = empty_app();

    app.screen = Screen::ContainerList;
    app.container_presenter.activate_filter();
    assert!(app.handle_filter_key(KeyCode::Char('a')));
    assert_eq!(app.container_presenter.filter.value(), "a");
    assert!(app.handle_filter_key(KeyCode::Backspace));
    assert!(app.container_presenter.filter.value().is_empty());
    assert!(app.handle_filter_key(KeyCode::Esc));
    assert!(!app.container_presenter.is_filter_active());
    assert!(!app.handle_filter_key(KeyCode::Enter));

    let watch = app.finish_containers_load(Ok(vec![make_container_dto(), make_stopped_container_dto()]));
    match watch {
        AppEffect::WatchStats { container_ids } => assert_eq!(container_ids, vec!["abc123".to_string()]),
        other => panic!("unexpected {other:?}"),
    }
    assert_eq!(app.container_presenter.containers.len(), 2);
    assert!(app.container_presenter.containers[0].runtime_stats.is_some());
    assert!(app.container_presenter.containers[1].runtime_stats.is_none());
    app.finish_volumes_load(Ok(vec![]));
    app.finish_images_load(Ok(vec![make_image_dto(false)]));
    assert_eq!(app.image_presenter.images.len(), 1);
    app.finish_stacks_load(Ok(vec![make_stack_dto("app", vec![])]));
    assert_eq!(app.stack_presenter.stacks.len(), 1);
    app.finish_details_load(Ok(None));
    assert!(matches!(app.popup_message, Some(PopupMessage::Error(_))));
    assert!(popup_text(&app).contains(CONTAINER_NOT_FOUND_MESSAGE));
    assert_eq!(app.screen, Screen::ContainerList);
}

#[test]
fn keys_type_into_an_open_filter_until_escape() {
    let mut app = empty_app();
    app.screen = Screen::VolumeList;
    app.volume_presenter.set_volumes(vec![make_volume_dto(false, true)]);
    app.handle_key(KeyInput::plain(KeyCode::Char('/')));
    assert!(app.volume_presenter.is_filter_active());
    app.handle_key(KeyInput::plain(KeyCode::Char('q')));
    assert!(!app.should_quit);
    assert_eq!(app.volume_presenter.filter.value(), "q");
    assert_eq!(app.volume_presenter.selection.selected(), None);
    app.handle_key(KeyInput::plain(KeyCode::Esc));
    assert!(!app.volume_presenter.is_filter_active());
    assert_eq!(app.volume_presenter.selection.selected(), Some(0));
    app.handle_key(KeyInput::plain(KeyCode::Char('q')));
    assert!(app.should_quit);
}

#[test]
fn keys_on_a_popup_only_dismiss_it() {
    let mut app = empty_app();
    app.screen = Screen::ContainerList;
    app.container_presenter.set_containers(vec![make_container_dto()]);
    app.popup_message = Some(PopupMessage::Info("done".to_string()));
    let effect = app.handle_key(KeyInput::plain(KeyCode::Char('d')));
    assert!(matches!(effect, AppEffect::Nothing));
    assert!(app.popup_message.is_none());
    assert!(app.confirm_dialog.is_none());
    assert!(app.has_modal_overlay() == false);
}

#[test]
fn deleting_needs_a_confirmed_dialog() {
    let mut app = empty_app();
    app.screen = Screen::ContainerList;
    app.container_presenter.set_containers(vec![make_stopped_container_dto()]);
    let first = app.handle_key(KeyInput::plain(KeyCode::Char('d')));
    assert!(matches!(first, AppEffect::Nothing));
    assert_eq!(app.confirm_dialog, Some((ConfirmAction::DeleteContainer(false), true)));
    let confirmed = app.handle_key(KeyInput::plain(KeyCode::Enter));
    assert_eq!(
        container_op(&confirmed),
        Some((ContainerOperation::Delete(false), "def456".to_string(), Reload::Containers))
    );
    assert!(app.confirm_dialog.is_none());
}

#[test]
fn test_toggle_pause_restart_and_stack_actions() {
    let mut app = empty_app();
    app.screen = Screen::ContainerList;
    app.container_presenter.set_containers(vec![make_stopped_container_dto()]);
    let start = app.handle_container_list_action(AppAction::StartStop);
    assert_eq!(container_op(&start).unwrap().0, ContainerOperation::Start);
    assert!(matches!(app.handle_container_list_action(AppAction::PauseUnpause), AppEffect::Nothing));
    assert!(matches!(app.handle_container_list_action(AppAction::Restart), AppEffect::Nothing));
    let mut unpause = make_stopped_container_dto();
    unpause.can_unpause = true;
    app.container_presenter.set_containers(vec![unpause]);
    let effect = app.handle_container_list_action(AppAction::PauseUnpause);
    assert_eq!(container_op(&effect).unwrap().0, ContainerOperation::Unpause);

    let stack = make_stack_dto(
        "compose-app",
        vec![make_stack_container("s1", true, false), make_stack_container("s2", false, true)],
    );
    app.stack_presenter.set_stacks(vec![stack]);
    app.screen = Screen::StackList;
    app.handle_stack_list_action(AppAction::Select);
    assert_eq!(app.screen, Screen::StackContainers);
    assert_eq!(app.stack_presenter.stack_containers.len(), 2);

    app.screen = Screen::StackList;
    let start_all = app.handle_stack_list_action(AppAction::StartStop);
    assert_eq!(
        stack_op(&start_all),
        Some((StackOperation::StartAll, vec!["s1".to_string()], Reload::Stacks))
    );
    let stop_all = app.handle_stack_list_action(AppAction::StopAll);
    assert_eq!(
        stack_op(&stop_all),
        Some((StackOperation::StopAll, vec!["s2".to_string()], Reload::Stacks))
    );
    app.handle_stack_list_action(AppAction::ActivateFilter);
    assert!(app.stack_presenter.is_filter_active());

    app.screen = Screen::StackContainers;
    let start = app.handle_stack_containers_action(AppAction::StartStop);
    assert_eq!(
        container_op(&start),
        Some((ContainerOperation::Start, "s1".to_string(), Reload::StackContainers))
    );
    app.handle_stack_containers_action(AppAction::Delete);
    assert_eq!(app.confirm_dialog, Some((ConfirmAction::DeleteContainer(false), true)));
    app.confirm_dialog = None;
    let stop_all = app.handle_stack_containers_action(AppAction::StopAll);
    assert_eq!(stack_op(&stop_all).unwrap().2, Reload::StackContainers);
    let start_all = app.handle_stack_containers_action(AppAction::StartAll);
    assert_eq!(stack_op(&start_all).unwrap().1, vec!["s1".to_string()]);
    app.handle_stack_containers_action(AppAction::RemoveAll);
    assert_eq!(app.confirm_dialog, Some((ConfirmAction::RemoveAllStackContainers, true)));
    app.confirm_dialog = None;
    let back = app.handle_stack_containers_action(AppAction::Back);
    assert!(matches!(back, AppEffect::Reload(Reload::Stacks)));
    assert_eq!(app.screen, Screen::StackList);
    assert!(app.stack_presenter.stack_containers.is_empty());
}

#[test]
fn stack_refresh_keeps_the_shown_stack_by_name() {
    let mut app = empty_app();
    app.stack_presenter.set_stacks(vec![
        make_stack_dto("alpha", vec![make_stack_container("a1", true, false)]),
        make_stack_dto("beta", vec![make_stack_container("b1", false, true)]),
    ]);
    app.stack_presenter.navigate_down();
    app.finish_stack_containers_refresh(Ok(vec![
        make_stack_dto("aardvark", vec![]),
        make_stack_dto("alpha", vec![]),
        make_stack_dto("beta", vec![make_stack_container("b1", false, true), make_stack_container("b2", true, false)]),
    ]));
    assert_eq!(app.stack_presenter.selection.selected(), Some(2));
    assert_eq!(app.stack_presenter.stack_containers.len(), 2);
    assert_eq!(app.stack_presenter.stack_containers[1].id, "b2");
}

#[test]
fn identifier_lists_follow_capabilities() {
    let cs = vec![
        make_stack_container("a", true, false),
        make_stack_container("b", false, true),
        make_stack_container("c", true, false),
    ];
    assert_eq!(ids_where(&cs, true), vec!["a".to_string(), "c".to_string()]);
    assert_eq!(ids_where(&cs, false), vec!["b".to_string()]);
    assert_eq!(container_ids(&cs), vec!["a".to_string(), "b".to_string(), "c".to_string()]);
}
