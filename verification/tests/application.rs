use rusty_console::application::error::AppError;
use rusty_console::application::image_mapper::ImageMapper;
use rusty_console::application::stack_dto::{copy_stack_containers, StackMapper};
use rusty_console::domain::error::DomainError;
use rusty_console::domain::image::{Image, ImageId, ImageSize};
use rusty_console::domain::stack::{Stack, StackContainer, StackContainerState, StackName};
use rusty_console::failure::{IoFailure, IoFailureKind};
use rusty_console::infrastructure::engine_support::{
    container_failure, log_tail_option, logs_failure, prune_result,
};
use rusty_console::infrastructure::error::InfraError;
use rusty_console::infrastructure::stack_support::{
    container_operation_error, image_pull_spawn_error, image_pull_status_error,
    unique_image_refs,
};

fn make_container(state: StackContainerState) -> StackContainer {
    StackContainer::new("abc123", "/web", "nginx:latest", state, "Up", "80/tcp")
}

#[test]
fn test_to_dto_counts() {
    let stack = Stack::new(
        StackName::new("my-app").unwrap(),
        vec![
            make_container(StackContainerState::Running),
            make_container(StackContainerState::Stopped),
        ],
    );
    let dto = StackMapper::to_dto(&stack);
    assert_eq!(dto.name, "my-app");
    assert_eq!(dto.container_count, 2);
    assert_eq!(dto.running_count, 1);
    assert_eq!(dto.containers.len(), 2);
    assert_eq!(dto.containers[0].name, "web");
    assert!(!dto.containers[0].can_start);
    assert!(dto.containers[0].can_stop);
}

#[test]
fn test_to_dto_list() {
    let stacks = vec![
        Stack::new(StackName::new("app-a").unwrap(), vec![]),
        Stack::new(StackName::new("app-b").unwrap(), vec![]),
    ];
    let dtos = StackMapper::to_dto_list(&stacks);
    assert_eq!(dtos.len(), 2);
    assert_eq!(dtos[0].name, "app-a");
    assert_eq!(dtos[1].name, "app-b");
}

#[test]
fn stack_container_copies_keep_every_value() {
    let dto = StackMapper::to_dto(&Stack::new(
        StackName::new("app").unwrap(),
        vec![make_container(StackContainerState::Paused)],
    ));
    let copies = copy_stack_containers(&dto.containers);
    assert_eq!(copies.len(), 1);
    assert_eq!(copies[0].id, "abc123");
    assert_eq!(copies[0].name, "web");
    assert_eq!(copies[0].state, StackContainerState::Paused);
    assert_eq!(copies[0].state_display(), "Paused");
}

fn create_test_image() -> Image {
    Image::new(
        ImageId::new("sha256:abcdef1234567890fedcba").unwrap(),
        "nginx",
        "latest",
        ImageSize::new(142_000_000),
        1_710_072_000,
    )
}

#[test]
fn to_dto_maps_basic_fields() {
    let image = create_test_image();
    let dto = ImageMapper::to_dto(&image, "135.42 MB").unwrap();

    assert_eq!(dto.id, "sha256:abcdef1234567890fedcba");
    assert_eq!(dto.short_id, "abcdef123456");
    assert_eq!(dto.repository, "nginx");
    assert_eq!(dto.tag, "latest");
    assert_eq!(dto.full_name, "nginx:latest");
    assert_eq!(dto.size, "135.42 MB");
    assert_eq!(dto.created, "2024-03-10 12:00:00");
}

#[test]
fn to_dto_not_in_use_can_delete() {
    let image = create_test_image().with_in_use(false);
    let dto = ImageMapper::to_dto(&image, "1 B").unwrap();

    assert!(!dto.in_use);
    assert!(dto.can_delete);
}

#[test]
fn to_dto_in_use_cannot_delete() {
    let image = create_test_image().with_in_use(true);
    let dto = ImageMapper::to_dto(&image, "1 B").unwrap();

    assert!(dto.in_use);
    assert!(!dto.can_delete);
}

#[test]
fn to_dto_dangling_image() {
    let image = Image::new(
        ImageId::new("sha256:deadbeef1234567890ab").unwrap(),
        "<none>",
        "<none>",
        ImageSize::new(50_000_000),
        0,
    );
    let dto = ImageMapper::to_dto(&image, "47.68 MB").unwrap();

    assert!(dto.is_dangling);
    assert_eq!(dto.full_name, "<none>");
}

#[test]
fn to_dto_non_dangling_image() {
    let dto = ImageMapper::to_dto(&create_test_image(), "1 B").unwrap();
    assert!(!dto.is_dangling);
}

#[test]
fn to_dto_list_maps_multiple_images() {
    let images = vec![
        create_test_image(),
        Image::new(
            ImageId::new("sha256:second123456789012").unwrap(),
            "redis",
            "7-alpine",
            ImageSize::new(30_000_000),
            0,
        ),
    ];
    let dtos = ImageMapper::to_dto_list(&images, &["135.42 MB".to_string(), "28.61 MB".to_string()])
        .unwrap();

    assert_eq!(dtos.len(), 2);
    assert_eq!(dtos[0].repository, "nginx");
    assert_eq!(dtos[1].repository, "redis");
    assert_eq!(dtos[1].full_name, "redis:7-alpine");
}

#[test]
fn to_dto_list_empty_input() {
    let dtos = ImageMapper::to_dto_list(&[], &[]).unwrap();
    assert!(dtos.is_empty());
}

#[test]
fn to_dto_list_refuses_mismatched_sizes() {
    assert!(ImageMapper::to_dto_list(&[create_test_image()], &[]).is_none());
}

#[test]
fn to_dto_refuses_a_time_the_calendar_cannot_hold() {
    let image = Image::new(
        ImageId::new("abc").unwrap(),
        "nginx",
        "latest",
        ImageSize::new(1),
        i64::MAX,
    );
    assert!(ImageMapper::to_dto(&image, "1 B").is_none());
}

#[test]
fn test_docker_error_maps_to_repository() {
    let err = InfraError::Docker("timeout".to_string());
    let app_err = AppError::from(err);
    assert!(matches!(app_err, AppError::Repository(_)));
    assert!(app_err.to_text().contains("timeout"));
}

#[test]
fn test_connection_error_maps_to_connection() {
    let err = InfraError::Connection("refused".to_string());
    let app_err = AppError::from(err);
    assert!(matches!(app_err, AppError::Connection(_)));
    assert!(app_err.to_text().contains("refused"));
}

#[test]
fn test_serialization_error_maps_to_repository() {
    let err = InfraError::Serialization("bad json".to_string());
    let app_err = AppError::from(err);
    assert!(matches!(app_err, AppError::Repository(_)));
    assert!(app_err.to_text().contains("bad json"));
}

#[test]
fn infra_error_messages_name_their_kind() {
    assert_eq!(InfraError::Docker("x".to_string()).to_text(), "Docker API error: x");
    assert_eq!(InfraError::Connection("y".to_string()).to_text(), "Connection error: y");
    assert_eq!(
        InfraError::Serialization("z".to_string()).to_text(),
        "Serialization error: z"
    );
}

#[test]
fn app_error_messages_name_their_kind() {
    assert_eq!(AppError::repository("a").to_text(), "Repository error: a");
    assert_eq!(AppError::not_found("b").to_text(), "Not found: b");
    assert_eq!(AppError::operation_failed("c").to_text(), "Operation failed: c");
    assert_eq!(AppError::connection("d").to_text(), "Connection error: d");
    let domain = AppError::from(DomainError::InvalidImageId("Image ID cannot be empty".to_string()));
    assert!(domain.to_text().starts_with("Domain error: "));
}

#[test]
fn container_operation_error_keeps_container_id_for_repository_errors() {
    let err = container_operation_error("start", "abc123", InfraError::Docker("timeout".into()));

    assert!(matches!(err, AppError::Repository(_)));
    assert_eq!(
        err.to_text(),
        "Repository error: Failed to start container 'abc123': timeout"
    );
}

#[test]
fn container_operation_error_keeps_container_id_for_connection_errors() {
    let err = container_operation_error("stop", "xyz789", InfraError::Connection("refused".into()));

    assert!(matches!(err, AppError::Connection(_)));
    assert_eq!(
        err.to_text(),
        "Connection error: Failed to stop container 'xyz789': refused"
    );
}

#[test]
fn unique_image_refs_sorts_and_deduplicates_pullable_images() {
    let unique = unique_image_refs(&[
        "postgres:16".to_string(),
        "nginx:latest".to_string(),
        "postgres:16".to_string(),
        "".to_string(),
        "unknown".to_string(),
    ]);

    assert_eq!(
        unique,
        vec!["nginx:latest".to_string(), "postgres:16".to_string()]
    );
}

#[test]
fn unique_image_refs_skips_blank_references() {
    let unique = unique_image_refs(&["  ".to_string(), "redis".to_string()]);
    assert_eq!(unique, vec!["redis".to_string()]);
}

#[test]
fn image_pull_spawn_error_explains_missing_docker_cli() {
    let err = image_pull_spawn_error(
        "nginx:latest",
        &IoFailure::new(IoFailureKind::NotFound, "docker"),
    );

    assert!(matches!(err, AppError::OperationFailed(_)));
    assert!(err.to_text().contains("Docker CLI not found"));
}

#[test]
fn image_pull_spawn_error_explains_other_failures() {
    let denied = image_pull_spawn_error(
        "nginx",
        &IoFailure::new(IoFailureKind::PermissionDenied, "denied"),
    );
    assert!(denied.to_text().contains("not executable"));
    let other = image_pull_spawn_error("nginx", &IoFailure::new(IoFailureKind::Other, "boom"));
    assert!(other.to_text().contains("Failed to start `docker pull` for image 'nginx'"));
}

#[test]
fn image_pull_status_error_uses_stderr_output() {
    let err = image_pull_status_error("nginx:latest", b"", b"pull access denied", "exit status: 1");

    assert!(matches!(err, AppError::OperationFailed(_)));
    assert!(err.to_text().contains("pull access denied"));
}

#[test]
fn image_pull_status_error_falls_back_to_stdout_then_status() {
    let from_stdout = image_pull_status_error("nginx", b"  out text \n", b"  ", "exit status: 1");
    assert_eq!(
        from_stdout.to_text(),
        "Operation failed: Failed to pull image 'nginx': out text"
    );
    let from_status = image_pull_status_error("nginx", b"", b"", "exit status: 1");
    assert_eq!(
        from_status.to_text(),
        "Operation failed: Failed to pull image 'nginx': `docker pull` exited with status exit status: 1"
    );
}

#[test]
fn engine_support_messages_and_results() {
    assert_eq!(log_tail_option(Some(500)), "500");
    assert_eq!(log_tail_option(None), "100");
    assert_eq!(
        container_failure("start", "boom").to_text(),
        "Operation failed: Failed to start container: boom"
    );
    assert_eq!(logs_failure("eof").to_text(), "Repository error: Failed to get logs: eof");
    let pruned = prune_result(Some(3), Some(2048));
    assert_eq!(pruned.deleted_count, 3);
    assert_eq!(pruned.space_freed, 2048);
    let empty = prune_result(None, None);
    assert_eq!(empty.deleted_count, 0);
    assert_eq!(empty.space_freed, 0);
}
