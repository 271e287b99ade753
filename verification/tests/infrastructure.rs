use rusty_console::domain::container::{ContainerState, Timestamp};
use rusty_console::domain::stack::STANDALONE;
use rusty_console::infrastructure::container_mapper::ContainerInfraMapper;
use rusty_console::infrastructure::records::{
    ContainerInspectRecord, ContainerStatsRecord, ContainerSummaryRecord, LabelRecord,
    MemoryStatRecord, MountRecord, NetworkRecord, NetworkTrafficRecord, PortBindingRecord,
    PortRecord,
};
use rusty_console::infrastructure::stack_mapper::StackInfraMapper;
use rusty_console::infrastructure::volume_links::{links_for, volume_links_by_name};

const NOW: Timestamp = Timestamp { secs: 42, nanos: 7 };

fn empty_summary() -> ContainerSummaryRecord {
    ContainerSummaryRecord {
        id: None,
        names: None,
        image: None,
        state: None,
        status: None,
        created: None,
        labels: None,
        ports: None,
        networks: None,
        mounts: None,
    }
}

fn make_summary(id: &str, name: &str, image: &str, state: &str) -> ContainerSummaryRecord {
    ContainerSummaryRecord {
        id: Some(id.to_string()),
        names: Some(vec![format!("/{name}")]),
        image: Some(image.to_string()),
        state: Some(state.to_string()),
        status: Some("Up 5 minutes".to_string()),
        created: Some(1_700_000_000),
        ..empty_summary()
    }
}

fn port(private_port: u16, public_port: Option<u16>, protocol: &str) -> PortRecord {
    PortRecord { private_port, public_port, protocol: Some(protocol.to_string()) }
}

#[test]
fn from_docker_happy_path() {
    let summary = ContainerSummaryRecord {
        id: Some("abc123def456".to_string()),
        names: Some(vec!["/my-container".to_string()]),
        image: Some("nginx:latest".to_string()),
        state: Some("running".to_string()),
        status: Some("Up 5 minutes".to_string()),
        created: Some(1_700_000_000),
        ports: Some(vec![port(80, Some(8080), "TCP")]),
        ..empty_summary()
    };

    let container = ContainerInfraMapper::from_docker(&summary, NOW).unwrap();
    assert_eq!(container.id().as_str(), "abc123def456");
    assert_eq!(container.name(), "/my-container");
    assert_eq!(container.image(), "nginx:latest");
    assert_eq!(container.state(), ContainerState::Running);
    assert_eq!(container.status(), "Up 5 minutes");
    assert_eq!(container.ports().len(), 1);
    assert_eq!(container.ports()[0].private_port, 80);
    assert_eq!(container.ports()[0].public_port, Some(8080));
    assert_eq!(container.created(), Timestamp { secs: 1_700_000_000, nanos: 0 });
}

#[test]
fn from_docker_missing_id_returns_none() {
    let summary = ContainerSummaryRecord {
        id: None,
        names: Some(vec!["/c".to_string()]),
        ..empty_summary()
    };
    assert!(ContainerInfraMapper::from_docker(&summary, NOW).is_none());
}

#[test]
fn from_docker_empty_id_returns_none() {
    let summary = ContainerSummaryRecord {
        id: Some(String::new()),
        names: Some(vec!["/c".to_string()]),
        ..empty_summary()
    };
    assert!(ContainerInfraMapper::from_docker(&summary, NOW).is_none());
}

#[test]
fn from_docker_missing_names_defaults_to_unknown() {
    let summary = ContainerSummaryRecord {
        id: Some("abc123".to_string()),
        names: None,
        ..empty_summary()
    };
    let container = ContainerInfraMapper::from_docker(&summary, NOW).unwrap();
    assert_eq!(container.name(), "unknown");
    assert_eq!(container.image(), "unknown");
    assert_eq!(container.state(), ContainerState::Stopped);
    assert_eq!(container.status(), "");
    assert_eq!(container.created(), NOW);
}

#[test]
fn from_docker_port_mapping_with_multiple_ports() {
    let summary = ContainerSummaryRecord {
        id: Some("abc123".to_string()),
        names: Some(vec!["/web".to_string()]),
        ports: Some(vec![
            port(80, Some(8080), "TCP"),
            port(443, None, "TCP"),
            port(53, Some(5353), "UDP"),
        ]),
        ..empty_summary()
    };

    let container = ContainerInfraMapper::from_docker(&summary, NOW).unwrap();
    assert_eq!(container.ports().len(), 3);
    assert_eq!(container.ports()[0].public_port, Some(8080));
    assert_eq!(container.ports()[1].public_port, None);
    assert_eq!(container.ports()[2].protocol, "udp");
}

#[test]
fn from_docker_network_extraction() {
    let mut summary = make_summary("abc123", "web", "nginx", "running");
    summary.networks = Some(vec![
        NetworkRecord { name: "bridge".to_string(), ip_address: Some("172.17.0.2".to_string()) },
        NetworkRecord { name: "custom_net".to_string(), ip_address: Some("10.0.0.5".to_string()) },
    ]);

    let container = ContainerInfraMapper::from_docker(&summary, NOW).unwrap();
    assert_eq!(container.networks().len(), 2);
    let net_names: Vec<&str> = container.networks().iter().map(|n| n.name.as_str()).collect();
    assert!(net_names.contains(&"bridge"));
    assert!(net_names.contains(&"custom_net"));
}

#[test]
fn from_docker_mount_extraction() {
    let mut summary = make_summary("abc123", "db", "postgres", "running");
    summary.mounts = Some(vec![
        MountRecord {
            name: Some("pgdata".to_string()),
            source: None,
            destination: Some("/var/lib/postgresql/data".to_string()),
            mode: Some("rw".to_string()),
        },
        MountRecord {
            name: None,
            source: Some("/host/config".to_string()),
            destination: Some("/etc/app".to_string()),
            mode: None,
        },
        MountRecord { name: None, source: None, destination: Some("/x".to_string()), mode: None },
    ]);

    let container = ContainerInfraMapper::from_docker(&summary, NOW).unwrap();
    assert_eq!(container.mounts().len(), 2);
    assert_eq!(container.mounts()[0].source, "pgdata");
    assert_eq!(container.mounts()[0].destination, "/var/lib/postgresql/data");
    assert_eq!(container.mounts()[1].source, "/host/config");
    assert_eq!(container.mounts()[1].mode, "rw");
}

#[test]
fn from_listing_skips_entries_without_identifier() {
    let containers = ContainerInfraMapper::from_listing(
        &vec![
            make_summary("a1", "web", "nginx", "running"),
            empty_summary(),
            make_summary("b2", "db", "postgres", "exited"),
        ],
        NOW,
    );
    assert_eq!(containers.len(), 2);
    assert_eq!(containers[0].id().as_str(), "a1");
    assert_eq!(containers[1].state(), ContainerState::Exited);
}

fn empty_inspect() -> ContainerInspectRecord {
    ContainerInspectRecord {
        id: None,
        name: None,
        image: None,
        status: None,
        created: None,
        env: None,
        ports: None,
        networks: None,
        mounts: None,
    }
}

#[test]
fn from_inspect_happy_path_with_env_vars() {
    let response = ContainerInspectRecord {
        id: Some("abc123def456".to_string()),
        name: Some("/my-app".to_string()),
        created: Some("2024-01-15T10:30:00Z".to_string()),
        status: Some("RUNNING".to_string()),
        image: Some("myapp:v2".to_string()),
        env: Some(vec![
            "DATABASE_URL=postgres://localhost/db".to_string(),
            "RUST_LOG=info".to_string(),
        ]),
        ..empty_inspect()
    };

    let container = ContainerInfraMapper::from_inspect(&response, NOW).unwrap();
    assert_eq!(container.id().as_str(), "abc123def456");
    assert_eq!(container.name(), "/my-app");
    assert_eq!(container.image(), "myapp:v2");
    assert_eq!(container.state(), ContainerState::Running);
    assert_eq!(container.env_vars().len(), 2);
    assert_eq!(container.env_vars()[0], "DATABASE_URL=postgres://localhost/db");
    assert_eq!(container.env_vars()[1], "RUST_LOG=info");
    assert_eq!(container.created(), Timestamp { secs: 1_705_314_600, nanos: 0 });
}

#[test]
fn from_inspect_missing_optional_fields() {
    let response = ContainerInspectRecord { id: Some("def456".to_string()), ..empty_inspect() };

    let container = ContainerInfraMapper::from_inspect(&response, NOW).unwrap();
    assert_eq!(container.name(), "unknown");
    assert_eq!(container.image(), "unknown");
    assert_eq!(container.state(), ContainerState::Stopped);
    assert!(container.env_vars().is_empty());
    assert_eq!(container.created(), NOW);
}

#[test]
fn from_inspect_missing_id_returns_none() {
    let response = empty_inspect();
    assert!(ContainerInfraMapper::from_inspect(&response, NOW).is_none());
}

#[test]
fn from_inspect_falls_back_to_now_for_unreadable_time() {
    let response = ContainerInspectRecord {
        id: Some("abc".to_string()),
        created: Some("yesterday".to_string()),
        ..empty_inspect()
    };
    let container = ContainerInfraMapper::from_inspect(&response, NOW).unwrap();
    assert_eq!(container.created(), NOW);
}

#[test]
fn from_inspect_ports_from_network_settings() {
    let response = ContainerInspectRecord {
        id: Some("abc123".to_string()),
        ports: Some(vec![
            PortBindingRecord {
                key: "80/tcp".to_string(),
                host_ports: Some(vec![Some("8080".to_string())]),
            },
            PortBindingRecord { key: "443/tcp".to_string(), host_ports: None },
        ]),
        ..empty_inspect()
    };

    let container = ContainerInfraMapper::from_inspect(&response, NOW).unwrap();
    assert_eq!(container.ports().len(), 2);
    let has_public_80 = container
        .ports()
        .iter()
        .any(|p| p.private_port == 80 && p.public_port == Some(8080));
    let has_no_public_443 = container
        .ports()
        .iter()
        .any(|p| p.private_port == 443 && p.public_port.is_none());
    assert!(has_public_80);
    assert!(has_no_public_443);
}

#[test]
fn from_inspect_ports_read_protocol_and_reject_bad_numbers() {
    let response = ContainerInspectRecord {
        id: Some("abc123".to_string()),
        ports: Some(vec![
            PortBindingRecord {
                key: "53/udp".to_string(),
                host_ports: Some(vec![Some("5353".to_string()), Some("x".to_string()), None]),
            },
            PortBindingRecord { key: "oops".to_string(), host_ports: None },
        ]),
        ..empty_inspect()
    };
    let container = ContainerInfraMapper::from_inspect(&response, NOW).unwrap();
    let ports = container.ports();
    assert_eq!(ports.len(), 4);
    assert_eq!((ports[0].private_port, ports[0].public_port), (53, Some(5353)));
    assert_eq!(ports[0].protocol, "udp");
    assert_eq!(ports[1].public_port, None);
    assert_eq!(ports[2].public_port, None);
    assert_eq!((ports[3].private_port, ports[3].protocol.as_str()), (0, "tcp"));
}

fn empty_stats() -> ContainerStatsRecord {
    ContainerStatsRecord {
        cpu_total: None,
        precpu_total: None,
        system_cpu: None,
        presystem_cpu: None,
        online_cpus: None,
        percpu_count: None,
        memory_usage: None,
        memory_limit: None,
        memory_stats: None,
        networks: None,
    }
}

fn cpu_percent_text(delta: u64, system: u64, cpus: u64) -> String {
    let percent = if delta == 0 || system == 0 {
        0.0
    } else {
        (delta as f64 / system as f64) * cpus as f64 * 100.0
    };
    format!("{:.1}%", percent)
}

#[test]
fn stats_update_calculates_cpu_memory_and_networks() {
    let stats = ContainerStatsRecord {
        cpu_total: Some(300),
        precpu_total: Some(100),
        system_cpu: Some(1_000),
        presystem_cpu: Some(500),
        online_cpus: Some(2),
        percpu_count: Some(2),
        memory_usage: Some(512 * 1024 * 1024),
        memory_limit: Some(1024 * 1024 * 1024),
        memory_stats: None,
        networks: Some(vec![
            NetworkTrafficRecord { rx_bytes: Some(2_048), tx_bytes: Some(1_024) },
            NetworkTrafficRecord { rx_bytes: Some(1_024), tx_bytes: Some(512) },
        ]),
    };

    let update = ContainerInfraMapper::stats_update("abc123", &stats);

    assert_eq!(update.container_id, "abc123");
    let s = update.stats;
    assert_eq!(cpu_percent_text(s.cpu_delta, s.system_delta, s.online_cpus), "80.0%");
    assert_eq!(s.memory_usage.bytes(), 512 * 1024 * 1024);
    assert_eq!(s.memory_limit.bytes(), 1024 * 1024 * 1024);
    assert_eq!(s.memory_used * 2, s.memory_cap);
    assert_eq!(s.network_rx.bytes(), 3 * 1024);
    assert_eq!(s.network_tx.bytes(), 1536);
}

#[test]
fn stats_update_returns_zero_network_when_no_networks() {
    let stats = ContainerStatsRecord {
        cpu_total: Some(100),
        precpu_total: Some(100),
        system_cpu: Some(100),
        presystem_cpu: Some(100),
        memory_usage: Some(256),
        ..empty_stats()
    };

    let update = ContainerInfraMapper::stats_update("abc123", &stats);
    let s = update.stats;
    assert_eq!(cpu_percent_text(s.cpu_delta, s.system_delta, s.online_cpus), "0.0%");
    assert!(!s.has_cpu_share());
    assert!(!s.has_memory_limit());
    assert_eq!(s.memory_usage.bytes(), 256);
    assert_eq!(s.network_rx.bytes(), 0);
    assert_eq!(s.network_tx.bytes(), 0);
    assert_eq!(s.online_cpus, 1);
}

fn make_base_stats(usage: u64, limit: u64, mem_stats: Option<Vec<MemoryStatRecord>>) -> ContainerStatsRecord {
    ContainerStatsRecord {
        cpu_total: Some(100),
        precpu_total: Some(0),
        system_cpu: Some(1_000),
        presystem_cpu: Some(0),
        online_cpus: Some(1),
        memory_usage: Some(usage),
        memory_limit: Some(limit),
        memory_stats: mem_stats,
        ..empty_stats()
    }
}

#[test]
fn stats_update_subtracts_total_inactive_file_for_cgroups_v1() {
    let mem_stats = vec![MemoryStatRecord {
        key: "total_inactive_file".to_string(),
        value: 128 * 1024 * 1024,
    }];
    let stats = make_base_stats(512 * 1024 * 1024, 1024 * 1024 * 1024, Some(mem_stats));

    let update = ContainerInfraMapper::stats_update("abc123", &stats);

    assert_eq!(update.stats.memory_usage.bytes(), 384 * 1024 * 1024);
    let percent = update.stats.memory_used as f64 / update.stats.memory_cap as f64 * 100.0;
    assert!((percent - 37.5).abs() < 0.1);
}

#[test]
fn stats_update_subtracts_inactive_file_for_cgroups_v2() {
    let mem_stats = vec![MemoryStatRecord { key: "inactive_file".to_string(), value: 64 * 1024 * 1024 }];
    let stats = make_base_stats(256 * 1024 * 1024, 1024 * 1024 * 1024, Some(mem_stats));

    let update = ContainerInfraMapper::stats_update("abc123", &stats);

    assert_eq!(update.stats.memory_usage.bytes(), 192 * 1024 * 1024);
    let percent = update.stats.memory_used as f64 / update.stats.memory_cap as f64 * 100.0;
    assert!((percent - 18.75).abs() < 0.1);
}

#[test]
fn stats_update_uses_raw_usage_when_no_memory_substats() {
    let stats = make_base_stats(300 * 1024 * 1024, 1024 * 1024 * 1024, None);

    let update = ContainerInfraMapper::stats_update("abc123", &stats);

    assert_eq!(update.stats.memory_usage.bytes(), 300 * 1024 * 1024);
}

#[test]
fn stats_totals_stop_at_the_largest_count() {
    let stats = ContainerStatsRecord {
        networks: Some(vec![
            NetworkTrafficRecord { rx_bytes: Some(u64::MAX), tx_bytes: None },
            NetworkTrafficRecord { rx_bytes: Some(5), tx_bytes: Some(7) },
        ]),
        memory_usage: Some(10),
        memory_stats: Some(vec![MemoryStatRecord { key: "inactive_file".to_string(), value: 20 }]),
        percpu_count: Some(4),
        ..empty_stats()
    };
    let update = ContainerInfraMapper::stats_update("x", &stats);
    assert_eq!(update.stats.network_rx.bytes(), i64::MAX);
    assert_eq!(update.stats.network_tx.bytes(), 7);
    assert_eq!(update.stats.memory_used, 0);
    assert_eq!(update.stats.online_cpus, 4);
    assert_eq!(ContainerInfraMapper::to_byte_size(u64::MAX).bytes(), i64::MAX);
    assert_eq!(ContainerInfraMapper::to_byte_size(12).bytes(), 12);
}

fn summary(id: &str, name: &str, stack: Option<&str>) -> ContainerSummaryRecord {
    let labels = stack.map(|stack_name| {
        vec![LabelRecord {
            key: "com.docker.compose.project".to_string(),
            value: stack_name.to_string(),
        }]
    });

    ContainerSummaryRecord {
        id: Some(id.to_string()),
        names: Some(vec![format!("/{name}")]),
        image: Some("nginx:latest".to_string()),
        state: Some("running".to_string()),
        status: Some("Up 5 minutes".to_string()),
        labels,
        ..empty_summary()
    }
}

#[test]
fn groups_compose_containers_into_named_stacks() {
    let stacks = StackInfraMapper::group_into_stacks(vec![
        summary("a1", "web", Some("app")),
        summary("a2", "worker", Some("app")),
        summary("b1", "db", Some("data")),
    ]);

    assert_eq!(stacks.len(), 2);
    assert_eq!(stacks[0].name().as_str(), "app");
    assert_eq!(stacks[0].container_count(), 2);
    assert_eq!(stacks[0].container_ids(), vec!["a1", "a2"]);
    assert_eq!(stacks[1].name().as_str(), "data");
    assert_eq!(stacks[1].container_count(), 1);
}

#[test]
fn groups_missing_compose_labels_under_standalone() {
    let stacks = StackInfraMapper::group_into_stacks(vec![
        summary("a1", "web", None),
        summary("a2", "worker", Some("app")),
    ]);

    assert_eq!(stacks.len(), 2);
    assert_eq!(stacks[0].name().as_str(), "app");
    assert!(stacks[1].name().is_standalone());
    assert_eq!(stacks[1].container_count(), 1);
    assert_eq!(stacks[1].container_ids(), vec!["a1"]);
}

#[test]
fn sorts_stacks_alphabetically_with_standalone_last() {
    let stacks = StackInfraMapper::group_into_stacks(vec![
        summary("z1", "web", Some("zeta")),
        summary("a1", "api", Some("alpha")),
        summary("s1", "misc", None),
        summary("b1", "db", Some("beta")),
    ]);

    let names: Vec<&str> = stacks.iter().map(|stack| stack.name().as_str()).collect();
    assert_eq!(names, vec!["alpha", "beta", "zeta", STANDALONE]);
}

#[test]
fn skips_invalid_container_summaries_when_building_stacks() {
    let invalid = ContainerSummaryRecord {
        id: None,
        names: Some(vec!["/broken".to_string()]),
        labels: Some(vec![LabelRecord {
            key: "com.docker.compose.project".to_string(),
            value: "app".to_string(),
        }]),
        ..empty_summary()
    };

    let stacks = StackInfraMapper::group_into_stacks(vec![summary("a1", "web", Some("app")), invalid]);

    assert_eq!(stacks.len(), 1);
    assert_eq!(stacks[0].name().as_str(), "app");
    assert_eq!(stacks[0].container_count(), 1);
    assert_eq!(stacks[0].containers()[0].display_name(), "web");
}

#[test]
fn formats_container_ports_for_stack_container_display() {
    let mut web = summary("a1", "web", Some("app"));
    web.ports = Some(vec![
        port(80, Some(8080), "TCP"),
        port(53, Some(5353), "UDP"),
        port(443, None, "TCP"),
    ]);

    let stacks = StackInfraMapper::group_into_stacks(vec![web]);
    let container = &stacks[0].containers()[0];

    assert_eq!(container.ports(), "8080:80/tcp, 5353:53/udp, 443/tcp");
}

#[test]
fn uses_dash_when_container_has_no_ports() {
    let stacks = StackInfraMapper::group_into_stacks(vec![summary("a1", "web", Some("app"))]);
    assert_eq!(stacks[0].containers()[0].ports(), "-");
}

fn make_container(name: &str, volumes: &[&str]) -> ContainerSummaryRecord {
    ContainerSummaryRecord {
        names: Some(vec![name.to_string()]),
        mounts: Some(
            volumes
                .iter()
                .map(|volume| MountRecord {
                    name: Some((*volume).to_string()),
                    source: None,
                    destination: None,
                    mode: None,
                })
                .collect(),
        ),
        ..empty_summary()
    }
}

#[test]
fn volume_links_by_name_groups_and_deduplicates_container_names() {
    let links = volume_links_by_name(&vec![
        make_container("/worker", &["shared-data", "cache"]),
        make_container("/web", &["shared-data"]),
        make_container("/web", &["shared-data"]),
    ]);

    assert_eq!(
        links_for(&links, "shared-data"),
        Some(&vec!["/web".to_string(), "/worker".to_string()])
    );
    assert_eq!(links_for(&links, "cache"), Some(&vec!["/worker".to_string()]));
}

#[test]
fn volume_links_ignore_unnamed_mounts_and_name_unknown_containers() {
    let mut anonymous = make_container("/x", &[]);
    anonymous.mounts = Some(vec![MountRecord {
        name: None,
        source: Some("/host".to_string()),
        destination: Some("/data".to_string()),
        mode: None,
    }]);
    let nameless = ContainerSummaryRecord { names: None, ..make_container("/y", &["logs"]) };
    let links = volume_links_by_name(&vec![anonymous, nameless]);
    assert_eq!(links.len(), 1);
    assert_eq!(links_for(&links, "logs"), Some(&vec!["unknown".to_string()]));
    assert_eq!(links_for(&links, "/host"), None);
}

#[test]
fn from_docker_uses_now_for_a_time_outside_the_calendar() {
    let mut summary = empty_summary();
    summary.id = Some("abc123".to_string());
    summary.created = Some(i64::MAX);
    let container = ContainerInfraMapper::from_docker(&summary, NOW).unwrap();
    assert_eq!(container.created(), NOW);
    summary.created = Some(1_700_000_000);
    let container = ContainerInfraMapper::from_docker(&summary, NOW).unwrap();
    assert_eq!(container.created(), Timestamp { secs: 1_700_000_000, nanos: 0 });
}
