use podman_cri::create::build_create_request;
use podman_cri::create::create_response;
use podman_cri::create::create_spec_to_config;
use podman_cri::create::device_to_cri;
use podman_cri::create::envs_to_key_values;
use podman_cri::create::image_volume_to_cri;
use podman_cri::create::plan_sandbox;
use podman_cri::create::sandbox_config_of_list;
use podman_cri::create::select_runtime_handler;
use podman_cri::create::spec_generator_to_config;
use podman_cri::create::spec_mount_to_cri;
use podman_cri::create::split_env;
use podman_cri::create::volume_to_mount;
use podman_cri::create::SandboxChoice;
use podman_cri::cri::ContainerConfig;
use podman_cri::cri::PodSandbox;
use podman_cri::cri::PodSandboxMetadata;
use podman_cri::cri::PodSandboxState;
use podman_cri::error::GatewayError;
use podman_cri::podman::CreateContainerSpec;
use podman_cri::podman::ImageVolume;
use podman_cri::podman::LinuxDevice;
use podman_cri::podman::SpecGenerator;
use podman_cri::podman::SpecMount;

fn empty_spec_generator() -> SpecGenerator {
    SpecGenerator {
        name: None,
        image: None,
        entrypoint: None,
        command: None,
        work_dir: None,
        env: None,
        labels: None,
        annotations: None,
        terminal: None,
        stdin: None,
        mounts: None,
        image_volumes: None,
        devices: None,
        pod: None,
    }
}

fn empty_create_spec() -> CreateContainerSpec {
    CreateContainerSpec {
        name: None,
        image: None,
        entrypoint: None,
        cmd: None,
        working_dir: None,
        env: None,
        labels: None,
        volumes: None,
    }
}

#[test]
fn splits_env_on_first_equals() {
    let kv = split_env("KEY=VALUE").unwrap();
    assert_eq!(kv.key, "KEY");
    assert_eq!(kv.value, "VALUE");
    let kv = split_env("A=b=c=d").unwrap();
    assert_eq!(kv.key, "A");
    assert_eq!(kv.value, "b=c=d");
    let kv = split_env("EMPTY=").unwrap();
    assert_eq!(kv.key, "EMPTY");
    assert_eq!(kv.value, "");
    let kv = split_env("=v").unwrap();
    assert_eq!(kv.key, "");
    assert_eq!(kv.value, "v");
}

#[test]
fn env_without_equals_is_malformed() {
    assert!(matches!(
        split_env("NOVALUE"),
        Err(GatewayError::Translation(_))
    ));
    assert!(matches!(split_env(""), Err(GatewayError::Translation(_))));
}

#[test]
fn env_list_stops_at_first_malformed_entry() {
    let ok = envs_to_key_values(vec!["A=1".to_string(), "B=2".to_string()]).unwrap();
    assert_eq!(ok.len(), 2);
    assert_eq!(ok[1].key, "B");
    let bad = envs_to_key_values(vec!["A=1".to_string(), "broken".to_string()]);
    assert!(matches!(bad, Err(GatewayError::Translation(_))));
}

#[test]
fn translates_mounts() {
    let m = spec_mount_to_cri(SpecMount {
        source: Some("/host".to_string()),
        target: Some("/ctr".to_string()),
        read_only: Some(true),
    })
    .unwrap();
    assert_eq!(m.host_path, "/host");
    assert_eq!(m.container_path, "/ctr");
    assert!(m.readonly);
    assert!(m.image.is_none());

    let missing = spec_mount_to_cri(SpecMount {
        source: None,
        target: Some("/ctr".to_string()),
        read_only: None,
    });
    assert!(matches!(missing, Err(GatewayError::Translation(_))));
}

#[test]
fn translates_image_volumes() {
    let m = image_volume_to_cri(ImageVolume {
        source: Some("quay.io/data".to_string()),
        destination: Some("/data".to_string()),
    })
    .unwrap();
    assert_eq!(m.container_path, "/data");
    assert_eq!(m.image.unwrap().image, "quay.io/data");
    let bad = image_volume_to_cri(ImageVolume {
        source: Some("quay.io/data".to_string()),
        destination: None,
    });
    assert!(matches!(bad, Err(GatewayError::Translation(_))));
}

#[test]
fn translates_devices() {
    let d = device_to_cri(LinuxDevice {
        path: Some("/dev/fuse".to_string()),
    })
    .unwrap();
    assert_eq!(d.container_path, "/dev/fuse");
    assert_eq!(d.host_path, "/dev/fuse");
    assert_eq!(d.permissions, "rw");
    let bad = device_to_cri(LinuxDevice { path: None });
    assert!(matches!(bad, Err(GatewayError::Translation(_))));
}

#[test]
fn translates_volume_keys() {
    let m = volume_to_mount("/host:/ctr").unwrap();
    assert_eq!(m.host_path, "/host");
    assert_eq!(m.container_path, "/ctr");
    let m = volume_to_mount("a:b:c").unwrap();
    assert_eq!(m.host_path, "a");
    assert_eq!(m.container_path, "b");
    assert!(matches!(
        volume_to_mount("nocolon"),
        Err(GatewayError::Translation(_))
    ));
    let m = volume_to_mount("a:").unwrap();
    assert_eq!(m.host_path, "a");
    assert_eq!(m.container_path, "");
}

#[test]
fn builds_config_from_spec_generator() {
    let mut s = empty_spec_generator();
    s.name = Some("web".to_string());
    s.image = Some("sha256:abcd".to_string());
    s.entrypoint = Some(vec!["/bin/sh".to_string()]);
    s.command = Some(vec!["-c".to_string(), "true".to_string()]);
    s.env = Some(vec![("K".to_string(), "V".to_string())]);
    s.mounts = Some(vec![SpecMount {
        source: Some("/host".to_string()),
        target: Some("/ctr".to_string()),
        read_only: None,
    }]);
    s.image_volumes = Some(vec![ImageVolume {
        source: Some("quay.io/data".to_string()),
        destination: Some("/data".to_string()),
    }]);
    s.terminal = Some(true);
    let c = spec_generator_to_config(s, "fallback".to_string()).unwrap();
    assert_eq!(c.metadata.unwrap().name, "web");
    assert_eq!(c.image.unwrap().image, "abcd");
    assert_eq!(c.command, vec!["/bin/sh".to_string()]);
    assert_eq!(c.args, vec!["-c".to_string(), "true".to_string()]);
    assert_eq!(c.working_dir, "/");
    assert_eq!(c.envs.len(), 1);
    assert_eq!(c.envs[0].key, "K");
    assert_eq!(c.mounts.len(), 2);
    assert_eq!(c.mounts[0].host_path, "/host");
    assert_eq!(c.mounts[1].container_path, "/data");
    assert!(c.tty);
    assert!(!c.stdin);
}

#[test]
fn spec_generator_without_image_is_malformed() {
    let s = empty_spec_generator();
    assert!(matches!(
        spec_generator_to_config(s, "fb".to_string()),
        Err(GatewayError::Translation(_))
    ));
}

#[test]
fn spec_generator_uses_fallback_name() {
    let mut s = empty_spec_generator();
    s.image = Some("img".to_string());
    let c = spec_generator_to_config(s, "fb".to_string()).unwrap();
    assert_eq!(c.metadata.unwrap().name, "fb");
}

#[test]
fn builds_config_from_compat_spec() {
    let mut s = empty_create_spec();
    s.image = Some("img:latest".to_string());
    s.entrypoint = Some(vec!["/entry".to_string()]);
    s.cmd = Some(vec!["run".to_string()]);
    s.env = Some(vec!["A=1".to_string(), "B=x=y".to_string()]);
    s.volumes = Some(vec!["/h:/c".to_string()]);
    s.labels = Some(vec![("a".to_string(), "b".to_string())]);
    let c = create_spec_to_config(s, "fb".to_string()).unwrap();
    assert_eq!(c.metadata.unwrap().name, "fb");
    assert_eq!(c.image.unwrap().image, "img:latest");
    assert_eq!(c.command, vec!["/entry".to_string()]);
    assert_eq!(c.args, vec!["run".to_string()]);
    assert_eq!(c.working_dir, "");
    assert_eq!(c.envs[1].value, "x=y");
    assert_eq!(c.mounts[0].container_path, "/c");
    assert!(!c.tty);
    assert!(c.devices.is_empty());
}

#[test]
fn compat_spec_with_bad_env_is_malformed() {
    let mut s = empty_create_spec();
    s.image = Some("img".to_string());
    s.env = Some(vec!["broken".to_string()]);
    assert!(matches!(
        create_spec_to_config(s, "fb".to_string()),
        Err(GatewayError::Translation(_))
    ));
}

#[test]
fn selects_runtime_handler_by_label() {
    let plain = vec![("app".to_string(), "web".to_string())];
    assert_eq!(select_runtime_handler(&plain), "");
    let peer = vec![
        ("app".to_string(), "web".to_string()),
        ("peer-pods-service".to_string(), "yes".to_string()),
    ];
    assert_eq!(select_runtime_handler(&peer), "runc");
}

#[test]
fn plans_the_owning_sandbox() {
    assert_eq!(
        plan_sandbox(Some("p1".to_string())),
        SandboxChoice::Existing("p1".to_string())
    );
    assert_eq!(plan_sandbox(None), SandboxChoice::CreateDefault);
}

#[test]
fn create_request_references_the_planned_sandbox() {
    let config = ContainerConfig {
        metadata: None,
        image: None,
        command: Vec::new(),
        args: Vec::new(),
        working_dir: String::new(),
        envs: Vec::new(),
        mounts: Vec::new(),
        devices: Vec::new(),
        labels: Vec::new(),
        annotations: Vec::new(),
        tty: false,
        stdin: false,
    };
    let sc = sandbox_config_of_list(vec![PodSandbox {
        id: "p-new".to_string(),
        metadata: Some(PodSandboxMetadata {
            name: "p".to_string(),
            uid: "u".to_string(),
            namespace: "default".to_string(),
            attempt: 0,
        }),
        state: PodSandboxState::Ready,
        labels: Vec::new(),
    }])
    .unwrap();
    let req = build_create_request(config, "p-new".to_string(), sc);
    assert_eq!(req.pod_sandbox_id, "p-new");
    assert!(req.config.is_some());
    assert_eq!(
        req.sandbox_config.unwrap().metadata.unwrap().name,
        "p"
    );
}

#[test]
fn sandbox_lookup_must_match() {
    assert_eq!(
        sandbox_config_of_list(Vec::new()).unwrap_err(),
        GatewayError::NotFound
    );
}

#[test]
fn create_response_has_no_warnings() {
    let r = create_response("c-new".to_string());
    assert_eq!(r.id, "c-new");
    assert!(r.warnings.is_empty());
}
