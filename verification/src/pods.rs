//! Pod-sandbox handling: the pod listing, sandbox configuration
//! building with synthesized defaults, and the partial-failure
//! aggregation of a pod-wide container start.
//!
//! The CRI has no operation that starts an already-ready sandbox, so a
//! pod start touches only the pod's member containers; the sandbox
//! itself gets no backend call.

use vstd::prelude::*;

use crate::create::opt_or;
use crate::create::opt_vec;
use crate::cri;
use crate::error::GatewayError;
use crate::ids::get_random_string;
use crate::podman;
use crate::states::pod_state_name;
use crate::states::pod_state_to_string;

verus! {

/// How one pod of the pod listing is made from a CRI sandbox and its
/// member containers: names from the sandbox metadata, the status
/// from the fixed state table, and the member list always populated.
/// The infra id has no CRI source and echoes the namespace.
pub open spec fn pod_report_rel(
    r: podman::ListPodsReport,
    p: cri::PodSandbox,
    containers: Seq<podman::ListPodContainer>,
) -> bool {
    &&& p.metadata matches Some(m) && r.name == m.name && r.namespace == m.namespace && r.infra_id
        == m.namespace
    &&& r.id == p.id
    &&& r.status@ == pod_state_name(p.state)
    &&& r.containers matches Some(cs) && cs@ == containers
    &&& r.labels == p.labels
}

/// Maps one CRI sandbox, with its member containers already mapped,
/// to a pod of the pod listing. A sandbox without metadata cannot be
/// named and is malformed input from the backend.
pub fn sandbox_to_report(p: cri::PodSandbox, containers: Vec<podman::ListPodContainer>) -> (r:
    Result<podman::ListPodsReport, GatewayError>)
    ensures
        p.metadata is Some ==> (r matches Ok(rep) && pod_report_rel(rep, p, containers@)),
        p.metadata is None ==> (r matches Err(e) && e is Translation),
{
    let status = pod_state_to_string(p.state);
    match p.metadata {
        Some(m) => Ok(
            podman::ListPodsReport {
                id: p.id,
                name: m.name,
                namespace: m.namespace.clone(),
                status,
                containers: Some(containers),
                infra_id: m.namespace,
                labels: p.labels,
            },
        ),
        None => Err(GatewayError::Translation("pod sandbox has no metadata".to_owned())),
    }
}

/// The configuration of a synthesized default pod sandbox: a fresh
/// random name and uid, the `default` namespace, and nothing else
/// set.
pub fn default_pod_config() -> (c: cri::PodSandboxConfig)
    ensures
        c.metadata matches Some(m) && m.namespace@ == "default"@ && m.attempt == 0 && m.name@.len()
            == 8 && m.uid@.len() == 8,
        c.hostname@ == Seq::<char>::empty(),
        c.log_directory@ == Seq::<char>::empty(),
        c.labels@ == Seq::<(String, String)>::empty(),
        c.annotations@ == Seq::<(String, String)>::empty(),
{
    let name = get_random_string();
    let uid = get_random_string();
    cri::PodSandboxConfig {
        metadata: Some(
            cri::PodSandboxMetadata { name, uid, namespace: "default".to_owned(), attempt: 0 },
        ),
        hostname: String::new(),
        log_directory: String::new(),
        labels: Vec::new(),
        annotations: Vec::new(),
    }
}

/// How a sandbox configuration is made from a pod create body: the
/// name falls back to a supplied one, the namespace defaults to the
/// pod's name unless overridden, so does the hostname, and the log
/// directory is fixed.
pub open spec fn pod_config_rel(
    c: cri::PodSandboxConfig,
    s: podman::PodSpecGenerator,
    fallback_name: String,
    uid: String,
) -> bool {
    &&& c.metadata matches Some(m) && m.name == opt_or(s.name, fallback_name) && m.uid == uid
        && m.namespace == opt_or(s.infra_name, opt_or(s.name, fallback_name)) && m.attempt == 0
    &&& c.hostname == opt_or(s.hostname, opt_or(s.name, fallback_name))
    &&& c.log_directory@ == "/var/log/pods/"@
    &&& c.labels@ == opt_vec(s.labels)
    &&& c.annotations@ == Seq::<(String, String)>::empty()
}

/// Builds the sandbox configuration of a pod create call.
/// `fallback_name` names the pod when the body does not, and `uid`
/// becomes the sandbox uid; callers draw both at random.
pub fn pod_spec_to_config(s: podman::PodSpecGenerator, fallback_name: String, uid: String) -> (c:
    cri::PodSandboxConfig)
    ensures
        pod_config_rel(c, s, fallback_name, uid),
{
    let name = match s.name {
        Some(n) => n,
        None => fallback_name,
    };
    let namespace = match s.infra_name {
        Some(x) => x,
        None => name.clone(),
    };
    let hostname = match s.hostname {
        Some(h) => h,
        None => name.clone(),
    };
    let labels = match s.labels {
        Some(v) => v,
        None => Vec::new(),
    };
    cri::PodSandboxConfig {
        metadata: Some(cri::PodSandboxMetadata { name, uid, namespace, attempt: 0 }),
        hostname,
        log_directory: "/var/log/pods/".to_owned(),
        labels,
        annotations: Vec::new(),
    }
}

/// Assembles the request that runs a new pod sandbox.
pub fn build_run_sandbox_request(config: cri::PodSandboxConfig, runtime_handler: String) -> (r:
    cri::RunPodSandboxRequest)
    ensures
        r.config == Some(config),
        r.runtime_handler == runtime_handler,
{
    cri::RunPodSandboxRequest { config: Some(config), runtime_handler }
}

/// The filter of a pod-wide start: the containers of that pod that
/// are still only created.
pub fn created_in_pod_filter(pod_id: String) -> (f: cri::ContainerFilter)
    ensures
        f.pod_sandbox_id == pod_id,
        f.state matches Some(sv) && sv.state == cri::ContainerState::Created,
        f.id@ == Seq::<char>::empty(),
{
    cri::ContainerFilter {
        id: String::new(),
        state: Some(cri::ContainerStateValue { state: cri::ContainerState::Created }),
        pod_sandbox_id: pod_id,
    }
}

/// The messages of the failed entries of a batch of start outcomes,
/// in submission order.
pub open spec fn err_messages(rs: Seq<Result<(), String>>) -> Seq<String>
    decreases rs.len(),
{
    if rs.len() == 0 {
        Seq::empty()
    } else {
        let front = err_messages(rs.drop_last());
        match rs.last() {
            Ok(_) => front,
            Err(m) => front.push(m),
        }
    }
}

/// How many entries of a batch of start outcomes failed.
pub open spec fn err_count(rs: Seq<Result<(), String>>) -> nat
    decreases rs.len(),
{
    if rs.len() == 0 {
        0
    } else {
        err_count(rs.drop_last()) + if rs.last() is Err {
            1nat
        } else {
            0nat
        }
    }
}

/// Law: a pod-wide start aggregates partial failures — its error
/// list holds exactly one message per container that failed to start,
/// none for one that started; with a single failure among any number
/// of containers the list holds exactly one message.
pub proof fn lemma_error_aggregation(rs: Seq<Result<(), String>>)
    ensures
        err_messages(rs).len() == err_count(rs),
        err_count(rs) == 1 ==> err_messages(rs).len() == 1,
    decreases rs.len(),
{
    if rs.len() > 0 {
        lemma_error_aggregation(rs.drop_last());
    }
}

/// Collects the error messages of a batch of start outcomes, one per
/// failure, in submission order; one container's failure does not
/// disturb the others' entries.
#[verifier::loop_isolation(false)]
pub fn collect_start_errors(results: Vec<Result<(), String>>) -> (r: Vec<String>)
    ensures
        r@ == err_messages(results@),
{
    let ghost orig = results@;
    let n = results.len();
    proof {
        assert(n == orig.len());
    }
    let mut results = results;
    let mut r: Vec<String> = Vec::new();
    let mut taken: usize = 0;
    while results.len() > 0
        invariant
            taken + results@.len() == orig.len(),
            results@ == orig.skip(taken as int),
            r@ == err_messages(orig.take(taken as int)),
        decreases results@.len(),
    {
        let ghost k = taken as int;
        let outcome = results.remove(0);
        proof {
            assert(orig.skip(k)[0] == orig[k]);
            assert(orig.skip(k).remove(0) =~= orig.skip(k + 1));
            let pre = orig.take(k);
            let cur = orig.take(k + 1);
            assert(cur.drop_last() =~= pre);
            assert(cur.last() == orig[k]);
        }
        match outcome {
            Ok(_) => (),
            Err(m) => r.push(m),
        }
        taken += 1;
    }
    proof {
        assert(orig.take(orig.len() as int) =~= orig);
    }
    r
}

/// The answer to a pod-wide start: the pod's id and the aggregated
/// error messages.
pub fn pod_start_report(id: String, errs: Vec<String>) -> (r: podman::PodStartReport)
    ensures
        r.id == id,
        r.errs == errs,
{
    podman::PodStartReport { id, errs }
}

/// The answer to stopping a pod: a report echoing its id.
pub fn pod_stop_report(id: String) -> (r: podman::PodStopReport)
    ensures
        r.id == id,
{
    podman::PodStopReport { id }
}

/// The answer to removing a pod: a report echoing its id.
pub fn pod_rm_report(id: String) -> (r: podman::PodRmReport)
    ensures
        r.id == id,
{
    podman::PodRmReport { id }
}

/// The answer to a pod create call: the new sandbox's id.
pub fn id_response(id: String) -> (r: podman::IdResponse)
    ensures
        r.id == id,
{
    podman::IdResponse { id }
}

} // verus!
