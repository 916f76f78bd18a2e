//! The fixed tables that turn CRI state enums into the strings the
//! Podman API surfaces.

use vstd::prelude::*;

use crate::cri::ContainerState;
use crate::cri::PodSandboxState;

verus! {

/// The wire name of a container state, as the CRI schema spells it.
pub open spec fn state_name(s: ContainerState) -> Seq<char> {
    match s {
        ContainerState::Created => "CONTAINER_CREATED"@,
        ContainerState::Running => "CONTAINER_RUNNING"@,
        ContainerState::Exited => "CONTAINER_EXITED"@,
        ContainerState::Unknown => "CONTAINER_UNKNOWN"@,
    }
}

/// A container state as a lower-case phrase, the wire name with the
/// underscore turned into a space.
pub open spec fn state_phrase(s: ContainerState) -> Seq<char> {
    match s {
        ContainerState::Created => "container created"@,
        ContainerState::Running => "container running"@,
        ContainerState::Exited => "container exited"@,
        ContainerState::Unknown => "container unknown"@,
    }
}

/// The status string of a pod sandbox, a fixed enum-to-string table.
pub open spec fn pod_state_name(s: PodSandboxState) -> Seq<char> {
    match s {
        PodSandboxState::Ready => "Ready"@,
        PodSandboxState::NotReady => "NotReady"@,
    }
}

/// The wire name of a container state.
pub fn state_str_name(state: ContainerState) -> (r: String)
    ensures
        r@ == state_name(state),
{
    match state {
        ContainerState::Created => "CONTAINER_CREATED".to_owned(),
        ContainerState::Running => "CONTAINER_RUNNING".to_owned(),
        ContainerState::Exited => "CONTAINER_EXITED".to_owned(),
        ContainerState::Unknown => "CONTAINER_UNKNOWN".to_owned(),
    }
}

/// A container state as the lower-case phrase the compatibility
/// listing shows.
pub fn state_to_string(state: ContainerState) -> (r: String)
    ensures
        r@ == state_phrase(state),
{
    match state {
        ContainerState::Created => "container created".to_owned(),
        ContainerState::Running => "container running".to_owned(),
        ContainerState::Exited => "container exited".to_owned(),
        ContainerState::Unknown => "container unknown".to_owned(),
    }
}

/// The status string of a pod sandbox.
pub fn pod_state_to_string(state: PodSandboxState) -> (r: String)
    ensures
        r@ == pod_state_name(state),
{
    match state {
        PodSandboxState::Ready => "Ready".to_owned(),
        PodSandboxState::NotReady => "NotReady".to_owned(),
    }
}

} // verus!
