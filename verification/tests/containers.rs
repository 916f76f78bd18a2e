use podman_cri::containers::container_to_compat;
use podman_cri::containers::container_to_list_entry;
use podman_cri::containers::container_to_pod_member;
use podman_cri::containers::containers_to_compat;
use podman_cri::containers::containers_to_list_entries;
use podman_cri::containers::created_secs;
use podman_cri::containers::pod_member_containers;
use podman_cri::containers::status_or_not_found;
use podman_cri::containers::status_to_container_json;
use podman_cri::containers::status_to_inspect_data;
use podman_cri::containers::status_to_inspect_state;
use podman_cri::cri::Container;
use podman_cri::cri::ContainerMetadata;
use podman_cri::cri::ContainerState;
use podman_cri::cri::ContainerStatus;
use podman_cri::cri::ImageSpec;
use podman_cri::error::GatewayError;
use podman_cri::states::state_to_string;

fn sample_container(id: &str, pod: &str, state: ContainerState) -> Container {
    Container {
        id: id.to_string(),
        pod_sandbox_id: pod.to_string(),
        metadata: Some(ContainerMetadata {
            name: format!("{}-name", id),
            attempt: 0,
        }),
        image: Some(ImageSpec {
            image: "quay.io/img:latest".to_string(),
            user_specified_image: String::new(),
        }),
        image_ref: "quay.io/img:latest".to_string(),
        image_id: "img-1".to_string(),
        state,
        labels: vec![("app".to_string(), "web".to_string())],
        created_at: 1_700_000_000_123_456_789,
    }
}

fn sample_status() -> ContainerStatus {
    ContainerStatus {
        id: "c1".to_string(),
        metadata: Some(ContainerMetadata {
            name: "c1-name".to_string(),
            attempt: 0,
        }),
        state: ContainerState::Running,
        created_at: 1_700_000_000_000_000_000,
        started_at: 1_700_000_001_000_000_000,
        finished_at: 0,
        exit_code: 0,
        image: Some(ImageSpec {
            image: "quay.io/img:latest".to_string(),
            user_specified_image: String::new(),
        }),
        image_id: "img-1".to_string(),
        reason: String::new(),
        message: String::new(),
        labels: vec![("app".to_string(), "web".to_string())],
    }
}

#[test]
fn state_phrases() {
    assert_eq!(state_to_string(ContainerState::Created), "container created");
    assert_eq!(state_to_string(ContainerState::Running), "container running");
    assert_eq!(state_to_string(ContainerState::Exited), "container exited");
    assert_eq!(state_to_string(ContainerState::Unknown), "container unknown");
}

#[test]
fn scales_timestamps() {
    assert_eq!(created_secs(1_700_000_000_123_456_789), 1_700_000_000);
    assert_eq!(created_secs(1_000_000_000), 1);
    assert_eq!(created_secs(999_999_999), 0);
    assert_eq!(created_secs(0), 0);
    assert_eq!(created_secs(-2_000_000_001), -2);
    assert_eq!(created_secs(i64::MIN), i64::MIN / 1_000_000_000);
}

#[test]
fn maps_to_compat_shape() {
    let c = container_to_compat(sample_container("c1", "p1", ContainerState::Running));
    assert_eq!(c.id, "c1");
    assert_eq!(c.image, "quay.io/img:latest");
    assert_eq!(c.image_id, "img-1");
    assert_eq!(c.created, 1_700_000_000_123_456_789);
    assert_eq!(c.labels, vec![("app".to_string(), "web".to_string())]);
}

#[test]
fn maps_a_whole_compat_listing() {
    let v = containers_to_compat(vec![
        sample_container("c1", "p1", ContainerState::Running),
        sample_container("c2", "p1", ContainerState::Created),
    ]);
    assert_eq!(v.len(), 2);
    assert_eq!(v[0].id, "c1");
    assert_eq!(v[1].id, "c2");
}

#[test]
fn maps_to_list_entry() {
    let e = container_to_list_entry(sample_container("c1", "p1", ContainerState::Running));
    assert_eq!(e.id, "c1");
    assert_eq!(e.created_secs, 1_700_000_000);
    assert_eq!(e.created_at, "1700000000123456789");
    assert_eq!(e.state, "container running");
}

#[test]
fn maps_a_whole_list() {
    let v = containers_to_list_entries(vec![
        sample_container("c1", "p1", ContainerState::Exited),
        sample_container("c2", "p2", ContainerState::Created),
    ]);
    assert_eq!(v.len(), 2);
    assert_eq!(v[0].state, "container exited");
    assert_eq!(v[1].state, "container created");
}

#[test]
fn maps_to_pod_member() {
    let m = container_to_pod_member(sample_container("c1", "p1", ContainerState::Created));
    assert_eq!(m.id, "c1");
    assert_eq!(m.status, "CONTAINER_CREATED");
    assert_eq!(m.names, "c1");
    assert_eq!(m.restart_count, 0);
}

#[test]
fn filters_members_by_pod() {
    let all = vec![
        sample_container("c1", "p1", ContainerState::Running),
        sample_container("c2", "p2", ContainerState::Running),
        sample_container("c3", "p1", ContainerState::Created),
    ];
    let members = pod_member_containers(all, "p1");
    assert_eq!(members.len(), 2);
    assert_eq!(members[0].id, "c1");
    assert_eq!(members[1].id, "c3");
}

#[test]
fn filters_members_empty_pod() {
    let all = vec![sample_container("c1", "p1", ContainerState::Running)];
    let members = pod_member_containers(all, "other");
    assert!(members.is_empty());
}

#[test]
fn absent_status_is_not_found() {
    assert_eq!(
        status_or_not_found(None).unwrap_err(),
        GatewayError::NotFound
    );
    let s = sample_status();
    assert_eq!(status_or_not_found(Some(s.clone())).unwrap(), s);
}

#[test]
fn inspect_state_flags() {
    let mut s = sample_status();
    let st = status_to_inspect_state(&s);
    assert!(st.running);
    assert!(!st.oom_killed);
    assert_eq!(st.status, "CONTAINER_RUNNING");
    assert_eq!(st.started_at, "1700000001000000000");
    assert_eq!(st.pid, 1234);

    s.state = ContainerState::Exited;
    s.reason = "OOMKilled".to_string();
    s.exit_code = 137;
    let st = status_to_inspect_state(&s);
    assert!(!st.running);
    assert!(st.oom_killed);
    assert_eq!(st.exit_code, 137);
}

#[test]
fn inspect_answer_carries_placeholders_and_real_fields() {
    let j = status_to_container_json(sample_status()).unwrap();
    assert_eq!(j.id, "c1");
    assert_eq!(j.name, "c1-name");
    assert_eq!(j.created, "1700000000000000000");
    assert_eq!(j.image.as_deref(), Some("quay.io/img:latest"));
    assert_eq!(j.config.image, "img-1");
    assert_eq!(j.config.cmd, vec!["cmd".to_string()]);
    assert_eq!(j.config.working_dir, "/");
    assert!(j.state.running);
}

#[test]
fn inspect_answer_needs_metadata() {
    let mut s = sample_status();
    s.metadata = None;
    assert!(matches!(
        status_to_container_json(s),
        Err(GatewayError::Translation(_))
    ));
}

#[test]
fn libpod_inspect_answer() {
    let d = status_to_inspect_data(sample_status());
    assert_eq!(d.id, "c1");
    assert_eq!(d.image.as_deref(), Some("quay.io/img:latest"));
    let mut s = sample_status();
    s.image = None;
    assert_eq!(status_to_inspect_data(s).image, None);
}
