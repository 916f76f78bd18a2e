//! The CRI-side resource model, mirroring the wire schema of the
//! runtime and image services. Only the fields the gateway reads or
//! writes are modeled; timestamps are nanoseconds since the epoch, and
//! label or annotation maps are carried as key/value lists in backend
//! order.

use vstd::prelude::*;

verus! {

/// The lifecycle state of a CRI container.
#[derive(Clone, Copy, Debug, PartialEq, Eq, Structural)]
pub enum ContainerState {
    Created,
    Running,
    Exited,
    Unknown,
}

/// The state of a CRI pod sandbox.
#[derive(Clone, Copy, Debug, PartialEq, Eq, Structural)]
pub enum PodSandboxState {
    Ready,
    NotReady,
}

/// Name and attempt count of a container.
#[derive(Debug, Clone, PartialEq)]
pub struct ContainerMetadata {
    pub name: String,
    pub attempt: u32,
}

/// An image reference as the CRI carries it: the reference itself and
/// the form the user originally asked for.
#[derive(Debug, Clone, PartialEq)]
pub struct ImageSpec {
    pub image: String,
    pub user_specified_image: String,
}

/// One environment variable.
#[derive(Debug, Clone, PartialEq)]
pub struct KeyValue {
    pub key: String,
    pub value: String,
}

/// A mount of a host path, or of an image, into a container.
#[derive(Debug, Clone, PartialEq)]
pub struct Mount {
    pub host_path: String,
    pub container_path: String,
    pub readonly: bool,
    pub image: Option<ImageSpec>,
}

/// A device handed through to a container.
#[derive(Debug, Clone, PartialEq)]
pub struct Device {
    pub container_path: String,
    pub host_path: String,
    pub permissions: String,
}

/// The configuration a container is created with.
#[derive(Debug, Clone, PartialEq)]
pub struct ContainerConfig {
    pub metadata: Option<ContainerMetadata>,
    pub image: Option<ImageSpec>,
    pub command: Vec<String>,
    pub args: Vec<String>,
    pub working_dir: String,
    pub envs: Vec<KeyValue>,
    pub mounts: Vec<Mount>,
    pub devices: Vec<Device>,
    pub labels: Vec<(String, String)>,
    pub annotations: Vec<(String, String)>,
    pub tty: bool,
    pub stdin: bool,
}

/// A container as the runtime service lists it.
#[derive(Debug, Clone, PartialEq)]
pub struct Container {
    pub id: String,
    pub pod_sandbox_id: String,
    pub metadata: Option<ContainerMetadata>,
    pub image: Option<ImageSpec>,
    pub image_ref: String,
    pub image_id: String,
    pub state: ContainerState,
    pub labels: Vec<(String, String)>,
    pub created_at: i64,
}

/// The detailed status of one container.
#[derive(Debug, Clone, PartialEq)]
pub struct ContainerStatus {
    pub id: String,
    pub metadata: Option<ContainerMetadata>,
    pub state: ContainerState,
    pub created_at: i64,
    pub started_at: i64,
    pub finished_at: i64,
    pub exit_code: i32,
    pub image: Option<ImageSpec>,
    pub image_id: String,
    pub reason: String,
    pub message: String,
    pub labels: Vec<(String, String)>,
}

/// A state to filter a container listing by.
#[derive(Debug, Clone, PartialEq)]
pub struct ContainerStateValue {
    pub state: ContainerState,
}

/// A filter for listing containers.
#[derive(Debug, Clone, PartialEq)]
pub struct ContainerFilter {
    pub id: String,
    pub state: Option<ContainerStateValue>,
    pub pod_sandbox_id: String,
}

/// Name, uid, namespace and attempt count of a pod sandbox.
#[derive(Debug, Clone, PartialEq)]
pub struct PodSandboxMetadata {
    pub name: String,
    pub uid: String,
    pub namespace: String,
    pub attempt: u32,
}

/// The configuration a pod sandbox is run with.
#[derive(Debug, Clone, PartialEq)]
pub struct PodSandboxConfig {
    pub metadata: Option<PodSandboxMetadata>,
    pub hostname: String,
    pub log_directory: String,
    pub labels: Vec<(String, String)>,
    pub annotations: Vec<(String, String)>,
}

/// A pod sandbox as the runtime service lists it.
#[derive(Debug, Clone, PartialEq)]
pub struct PodSandbox {
    pub id: String,
    pub metadata: Option<PodSandboxMetadata>,
    pub state: PodSandboxState,
    pub labels: Vec<(String, String)>,
}

/// A filter for listing pod sandboxes.
#[derive(Debug, Clone, PartialEq)]
pub struct PodSandboxFilter {
    pub id: String,
}

/// The request that creates a container: the owning sandbox, the
/// container's configuration, and the sandbox configuration echoed
/// back for reference, as the CRI asks.
#[derive(Debug, Clone, PartialEq)]
pub struct CreateContainerRequest {
    pub pod_sandbox_id: String,
    pub config: Option<ContainerConfig>,
    pub sandbox_config: Option<PodSandboxConfig>,
}

/// The request that runs a new pod sandbox: its configuration and
/// the runtime handler it runs under.
#[derive(Debug, Clone, PartialEq)]
pub struct RunPodSandboxRequest {
    pub config: Option<PodSandboxConfig>,
    pub runtime_handler: String,
}

/// An image as the image service lists it.
#[derive(Debug, Clone, PartialEq)]
pub struct Image {
    pub id: String,
    pub repo_tags: Vec<String>,
    pub repo_digests: Vec<String>,
    pub size: u64,
}

/// A filter for listing images.
#[derive(Debug, Clone, PartialEq)]
pub struct ImageFilter {
    pub image: Option<ImageSpec>,
}

} // verus!
