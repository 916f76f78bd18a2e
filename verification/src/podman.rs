//! The Podman-side resource model: the shapes the gateway accepts in
//! request bodies and produces in JSON responses. Fields the upstream
//! schema has but the gateway never fills are left out here; the
//! serving layer emits them as absent. A field that the upstream
//! schema types as a date is carried as the plain seconds value the
//! date is computed from.

use vstd::prelude::*;

verus! {

/// A container in the compatibility listing.
#[derive(Debug, Clone, PartialEq)]
pub struct CompatContainer {
    pub id: String,
    pub image: String,
    pub image_id: String,
    /// Creation timestamp as the backend reported it.
    pub created: i64,
    pub labels: Vec<(String, String)>,
}

/// A container in the pod-aware listing.
#[derive(Debug, Clone, PartialEq)]
pub struct ListContainer {
    pub id: String,
    pub image: String,
    pub image_id: String,
    /// The seconds value handed to the date conversion for the
    /// `Created` field.
    pub created_secs: i64,
    /// The backend timestamp printed in decimal.
    pub created_at: String,
    /// The container state as a lower-case phrase.
    pub state: String,
    pub labels: Vec<(String, String)>,
}

/// A member container inside a pod listing.
#[derive(Debug, Clone, PartialEq)]
pub struct ListPodContainer {
    pub id: String,
    /// The container state's wire name.
    pub status: String,
    pub names: String,
    pub restart_count: i64,
}

/// The answer to a container create call.
#[derive(Debug, Clone, PartialEq)]
pub struct ContainerCreateResponse {
    pub id: String,
    pub warnings: Vec<String>,
}

/// The nested config object of a compatibility inspect answer. Most
/// of it has no CRI source and is filled with fixed placeholder
/// values.
#[derive(Debug, Clone, PartialEq)]
pub struct InspectConfig {
    pub args_escaped: bool,
    pub attach_stderr: bool,
    pub attach_stdin: bool,
    pub attach_stdout: bool,
    pub cmd: Vec<String>,
    pub domainname: String,
    pub entrypoint: Vec<String>,
    pub env: Vec<String>,
    pub hostname: String,
    pub image: String,
    pub labels: Vec<(String, String)>,
    pub network_disabled: bool,
    pub open_stdin: bool,
    pub stdin_once: bool,
    pub tty: bool,
    pub working_dir: String,
}

/// The nested state object of a compatibility inspect answer.
#[derive(Debug, Clone, PartialEq)]
pub struct InspectState {
    pub dead: bool,
    pub error: String,
    pub exit_code: i64,
    /// The backend's finish timestamp printed in decimal.
    pub finished_at: String,
    pub oom_killed: bool,
    pub paused: bool,
    pub pid: i64,
    pub restarting: bool,
    pub running: bool,
    /// The backend's start timestamp printed in decimal.
    pub started_at: String,
    /// The container state's wire name.
    pub status: String,
}

/// A compatibility inspect answer.
#[derive(Debug, Clone, PartialEq)]
pub struct ContainerJson {
    pub config: InspectConfig,
    /// The backend's creation timestamp printed in decimal.
    pub created: String,
    pub id: String,
    pub image: Option<String>,
    pub name: String,
    pub state: InspectState,
}

/// A pod-aware inspect answer. Everything the upstream schema has
/// beyond these two fields has no CRI source.
#[derive(Debug, Clone, PartialEq)]
pub struct InspectContainerData {
    pub id: String,
    pub image: Option<String>,
}

/// One pod in the pod listing.
#[derive(Debug, Clone, PartialEq)]
pub struct ListPodsReport {
    pub id: String,
    pub name: String,
    pub namespace: String,
    /// `"Ready"` or `"NotReady"`, from a fixed table.
    pub status: String,
    pub containers: Option<Vec<ListPodContainer>>,
    pub infra_id: String,
    pub labels: Vec<(String, String)>,
}

/// The answer to starting every container of a pod.
#[derive(Debug, Clone, PartialEq)]
pub struct PodStartReport {
    pub id: String,
    /// One message for each container that failed to start.
    pub errs: Vec<String>,
}

/// The answer to stopping a pod.
#[derive(Debug, Clone, PartialEq)]
pub struct PodStopReport {
    pub id: String,
}

/// The answer to removing a pod.
#[derive(Debug, Clone, PartialEq)]
pub struct PodRmReport {
    pub id: String,
}

/// The answer to an id-yielding call.
#[derive(Debug, Clone, PartialEq)]
pub struct IdResponse {
    pub id: String,
}

/// One image in the pod-aware image listing.
#[derive(Debug, Clone, PartialEq)]
pub struct ImageSummary {
    pub digest: Option<String>,
    pub id: String,
    pub repo_tags: Vec<String>,
    pub repo_digests: Vec<String>,
    pub size: i64,
}

/// A compatibility container create body.
#[derive(Debug, Clone, PartialEq)]
pub struct CreateContainerSpec {
    pub name: Option<String>,
    pub image: Option<String>,
    pub entrypoint: Option<Vec<String>>,
    pub cmd: Option<Vec<String>>,
    pub working_dir: Option<String>,
    /// Environment entries of the form `KEY=VALUE`.
    pub env: Option<Vec<String>>,
    pub labels: Option<Vec<(String, String)>>,
    /// Volume keys of the form `source:target`.
    pub volumes: Option<Vec<String>>,
}

/// A mount in a pod-aware create body.
#[derive(Debug, Clone, PartialEq)]
pub struct SpecMount {
    pub source: Option<String>,
    pub target: Option<String>,
    pub read_only: Option<bool>,
}

/// An image mounted as a volume in a pod-aware create body.
#[derive(Debug, Clone, PartialEq)]
pub struct ImageVolume {
    pub source: Option<String>,
    pub destination: Option<String>,
}

/// A device in a pod-aware create body.
#[derive(Debug, Clone, PartialEq)]
pub struct LinuxDevice {
    pub path: Option<String>,
}

/// A pod-aware container create body.
#[derive(Debug, Clone, PartialEq)]
pub struct SpecGenerator {
    pub name: Option<String>,
    pub image: Option<String>,
    pub entrypoint: Option<Vec<String>>,
    pub command: Option<Vec<String>>,
    pub work_dir: Option<String>,
    pub env: Option<Vec<(String, String)>>,
    pub labels: Option<Vec<(String, String)>>,
    pub annotations: Option<Vec<(String, String)>>,
    pub terminal: Option<bool>,
    pub stdin: Option<bool>,
    pub mounts: Option<Vec<SpecMount>>,
    pub image_volumes: Option<Vec<ImageVolume>>,
    pub devices: Option<Vec<LinuxDevice>>,
    /// The id of the pod the container joins; absent when the gateway
    /// must synthesize one.
    pub pod: Option<String>,
}

/// A pod create body.
#[derive(Debug, Clone, PartialEq)]
pub struct PodSpecGenerator {
    pub name: Option<String>,
    pub hostname: Option<String>,
    pub infra_name: Option<String>,
    pub labels: Option<Vec<(String, String)>>,
}

/// The query parameters of an image create call.
#[derive(Debug, Clone, PartialEq)]
pub struct ImageCreateQuery {
    pub from_image: Option<String>,
    pub tag: Option<String>,
    pub from_src: Option<String>,
}

} // verus!
