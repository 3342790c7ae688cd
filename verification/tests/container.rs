use tempsystem::container::{ContainerConfig, ContainerOptions, Mount};

fn options(work_dir: Option<&str>) -> ContainerOptions {
    ContainerOptions {
        no_network: false,
        privileged: false,
        ro_root: false,
        ro_cwd: false,
        work_dir: work_dir.map(|s| s.to_string()),
    }
}

#[test]
fn config_without_work_dir() {
    let config = ContainerConfig::new(&options(None));
    assert_eq!(config.image, "codeberg.org/land/tempsystem:latest");
    assert_eq!(config.hostname, "tempsystem");
    assert!(config.tty);
    assert!(config.network_enabled);
    assert!(!config.privileged);
    assert!(!config.read_only_root);
    assert!(config.mounts.is_empty());
    assert_eq!(config.dns, vec!["1.1.1.1", "1.0.0.1"]);
    assert!(config.binds().is_empty());
}

#[test]
fn config_with_work_dir() {
    let mut o = options(Some("/home/me/project"));
    o.no_network = true;
    o.privileged = true;
    o.ro_root = true;
    let config = ContainerConfig::new(&o);
    assert!(!config.network_enabled);
    assert!(config.privileged);
    assert!(config.read_only_root);
    assert_eq!(
        config.mounts,
        vec![Mount {
            host_path: "/home/me/project".to_string(),
            container_path: "/home/tempsystem/work".to_string(),
            read_only: false,
        }]
    );
    assert_eq!(config.binds(), vec!["/home/me/project:/home/tempsystem/work"]);
    o.ro_cwd = true;
    let config = ContainerConfig::new(&o);
    assert_eq!(config.binds(), vec!["/home/me/project:/home/tempsystem/work:ro"]);
    assert_eq!(config.clone(), config);
}

#[test]
fn bind_text_of_a_mount() {
    let m = Mount { host_path: "/a".to_string(), container_path: "/b".to_string(), read_only: true };
    assert_eq!(m.bind(), "/a:/b:ro");
    assert_eq!(m.clone(), m);
    let m = Mount { host_path: "".to_string(), container_path: "".to_string(), read_only: false };
    assert_eq!(m.bind(), ":");
}
