use rusty_console::application::container_mapper::ContainerMapper;
use rusty_console::application::image_dto::ImageDto;
use rusty_console::application::image_mapper::repository_and_tag;
use rusty_console::application::stack_dto::StackDto;
use rusty_console::application::volume_dto::VolumeDto;
use rusty_console::domain::container::{
    Container, ContainerId, ContainerState, NetworkInfo, PortMapping, Timestamp,
};
use rusty_console::infrastructure::engine_support::connection_failure;
use rusty_console::infrastructure::error::InfraError;
use rusty_console::presentation::image_presenter::{filter_images, ImagePresenter};
use rusty_console::presentation::stack_presenter::{filter_stacks, StackPresenter};

fn refs(items: &[&str]) -> Vec<String> {
    items.iter().map(|s| s.to_string()).collect()
}

fn image(repository: &str, tag: &str, full_name: &str) -> ImageDto {
    ImageDto {
        id: format!("sha256:{full_name}"),
        short_id: "abcdef123456".to_string(),
        repository: repository.to_string(),
        tag: tag.to_string(),
        full_name: full_name.to_string(),
        size: "1.00 MB".to_string(),
        created: "2024-01-01 00:00:00".to_string(),
        in_use: false,
        is_dangling: false,
        can_delete: true,
    }
}

fn stack(name: &str) -> StackDto {
    StackDto { name: name.to_string(), container_count: 0, running_count: 0, containers: vec![] }
}

#[test]
fn repository_and_tag_splits_at_the_last_colon() {
    let (repository, tag) = repository_and_tag(&refs(&["localhost:5000/app:v1"]));
    assert_eq!(repository, "localhost:5000/app");
    assert_eq!(tag, "v1");
}

#[test]
fn repository_and_tag_uses_the_first_reference() {
    let (repository, tag) = repository_and_tag(&refs(&["nginx:latest", "nginx:1.25"]));
    assert_eq!(repository, "nginx");
    assert_eq!(tag, "latest");
}

#[test]
fn repository_and_tag_without_colon_has_no_tag() {
    let (repository, tag) = repository_and_tag(&refs(&["scratch"]));
    assert_eq!(repository, "scratch");
    assert_eq!(tag, "<none>");
}

#[test]
fn repository_and_tag_without_references_is_unset() {
    let (repository, tag) = repository_and_tag(&refs(&[]));
    assert_eq!(repository, "<none>");
    assert_eq!(tag, "<none>");
}

#[test]
fn volume_dto_without_links_can_be_deleted() {
    let dto = VolumeDto::new("data", "local", "/var/lib/docker/volumes/data", "N/A", "2024", vec![]);
    assert_eq!(dto.id, "data");
    assert_eq!(dto.name, "data");
    assert_eq!(dto.size, "N/A");
    assert!(!dto.in_use);
    assert!(dto.can_delete);
}

#[test]
fn volume_dto_with_links_is_in_use() {
    let dto = VolumeDto::new("data", "local", "/mnt", "1.00 KB", "2024", vec!["/web".to_string()]);
    assert!(dto.in_use);
    assert!(!dto.can_delete);
    assert_eq!(dto.linked_containers, vec!["/web".to_string()]);
}

#[test]
fn container_mapper_formats_time_ports_and_networks() {
    let container = Container::new(
        ContainerId::new("abc123def4567890").unwrap(),
        "web".to_string(),
        "nginx:latest".to_string(),
        ContainerState::Running,
        "Up 5 minutes".to_string(),
        Timestamp { secs: 1_710_072_000, nanos: 0 },
    )
    .with_ports(vec![PortMapping::new(80, Some(8080), "tcp"), PortMapping::new(443, None, "tcp")])
    .with_networks(vec![NetworkInfo::new("bridge", "172.17.0.2"), NetworkInfo::new("host", "")]);
    let dto = ContainerMapper::to_dto(&container).unwrap();
    assert_eq!(dto.id, "abc123def4567890");
    assert_eq!(dto.short_id, "abc123def456");
    assert_eq!(dto.created, "2024-03-10 12:00:00");
    assert_eq!(dto.ports, "8080:80/tcp, 443/tcp");
    assert_eq!(dto.networks, "bridge, host");
    assert!(dto.can_stop);
    assert!(!dto.can_start);
    assert!(dto.runtime_stats.is_none());
}

#[test]
fn container_mapper_refuses_a_time_outside_the_calendar() {
    let container = Container::new(
        ContainerId::new("abc").unwrap(),
        "web".to_string(),
        "nginx".to_string(),
        ContainerState::Exited,
        String::new(),
        Timestamp { secs: i64::MAX, nanos: 0 },
    );
    assert!(ContainerMapper::to_dto(&container).is_none());
}

#[test]
fn connection_failure_names_the_cause() {
    match connection_failure("socket missing") {
        InfraError::Connection(m) => assert_eq!(m, "Failed to connect to Docker: socket missing"),
        other => panic!("unexpected {other:?}"),
    }
}

#[test]
fn filter_images_matches_full_name_ignoring_case() {
    let images = vec![image("nginx", "latest", "nginx:latest"), image("redis", "7", "redis:7")];
    let shown = filter_images(&images, "NGINX");
    assert_eq!(shown.len(), 1);
    assert_eq!(shown[0].full_name, "nginx:latest");
    assert_eq!(filter_images(&images, "").len(), 2);
}

#[test]
fn image_presenter_selects_within_the_filtered_images() {
    let mut presenter = ImagePresenter::new();
    presenter.set_images(vec![image("nginx", "latest", "nginx:latest"), image("redis", "7", "redis:7")]);
    presenter.activate_filter();
    presenter.push_filter_char('r');
    presenter.push_filter_char('e');
    assert_eq!(presenter.filtered_images().len(), 1);
    assert_eq!(presenter.selected_image().unwrap().full_name, "redis:7");
}

#[test]
fn filter_stacks_matches_name_ignoring_case() {
    let stacks = vec![stack("shop"), stack("Monitoring")];
    let shown = filter_stacks(&stacks, "moni");
    assert_eq!(shown.len(), 1);
    assert_eq!(shown[0].name, "Monitoring");
}

#[test]
fn select_stack_by_name_picks_the_named_stack() {
    let mut presenter = StackPresenter::new();
    presenter.set_stacks(vec![stack("a"), stack("b"), stack("c")]);
    presenter.select_stack_by_name("c");
    assert_eq!(presenter.selected_stack().unwrap().name, "c");
    presenter.select_stack_by_name("missing");
    assert_eq!(presenter.selected_stack().unwrap().name, "c");
}
