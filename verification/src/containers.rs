//! Mapping CRI containers into the Podman-shaped answers: the
//! compatibility listing, the pod-aware listing, pod membership, and
//! the two inspect shapes.

use vstd::prelude::*;
use vstd::string::StrSliceExecFns;

use crate::cri;
use crate::error::GatewayError;
use crate::podman;
use crate::states::state_name;
use crate::states::state_phrase;
use crate::states::state_str_name;
use crate::states::state_to_string;
use crate::strutil::dec_rep_signed;
use crate::strutil::i64_to_string;
use crate::strutil::str_eq;

verus! {

/// The seconds value handed to the date conversion for a listed
/// container: the backend timestamp, nanoseconds since the epoch,
/// divided by one billion with the quotient rounded toward zero.
pub open spec fn scaled_secs(n: int) -> int {
    if n >= 0 {
        n / 1_000_000_000
    } else {
        -((-n) / 1_000_000_000)
    }
}

/// Scales a backend timestamp, in nanoseconds, to the seconds value
/// of the date field of a listing entry.
pub fn created_secs(n: i64) -> (r: i64)
    ensures
        r == scaled_secs(n as int),
{
    if n >= 0 {
        ((n as u64) / 1_000_000_000u64) as i64
    } else {
        let mag: u64 = if n == i64::MIN {
            9223372036854775808u64
        } else {
            (-n) as u64
        };
        proof {
            vstd::arithmetic::div_mod::lemma_div_is_ordered(
                mag as int,
                9223372036854775808int,
                1_000_000_000int,
            );
            assert(9223372036854775808int / 1_000_000_000int == 9223372036int) by (nonlinear_arith);
        }
        -((mag / 1_000_000_000u64) as i64)
    }
}

/// A container of the compatibility listing, made from a CRI
/// container by carrying id, image reference, image id, creation
/// timestamp and labels over.
pub open spec fn compat_of(c: cri::Container) -> podman::CompatContainer {
    podman::CompatContainer {
        id: c.id,
        image: c.image_ref,
        image_id: c.image_id,
        created: c.created_at,
        labels: c.labels,
    }
}

/// Maps one CRI container to the compatibility listing shape.
pub fn container_to_compat(c: cri::Container) -> (r: podman::CompatContainer)
    ensures
        r == compat_of(c),
{
    podman::CompatContainer {
        id: c.id,
        image: c.image_ref,
        image_id: c.image_id,
        created: c.created_at,
        labels: c.labels,
    }
}

/// Maps a whole CRI container listing to the compatibility shape,
/// keeping the backend's order.
pub fn containers_to_compat(v: Vec<cri::Container>) -> (r: Vec<podman::CompatContainer>)
    ensures
        r@ == v@.map_values(|c: cri::Container| compat_of(c)),
{
    let ghost orig = v@;
    let mut v = v;
    let mut r: Vec<podman::CompatContainer> = Vec::new();
    while v.len() > 0
        invariant
            r@.len() + v@.len() == orig.len(),
            v@ == orig.skip(r@.len() as int),
            r@ == orig.take(r@.len() as int).map_values(|c: cri::Container| compat_of(c)),
        decreases v@.len(),
    {
        let ghost k = r@.len() as int;
        let c = v.remove(0);
        proof {
            assert(orig.skip(k)[0] == orig[k]);
            assert(orig.skip(k).remove(0) =~= orig.skip(k + 1));
        }
        r.push(container_to_compat(c));
        proof {
            assert(orig.take(k + 1).map_values(|c: cri::Container| compat_of(c)) =~= orig.take(
                k,
            ).map_values(|c: cri::Container| compat_of(c)).push(compat_of(orig[k])));
        }
    }
    proof {
        assert(orig.take(orig.len() as int) =~= orig);
    }
    r
}

/// How an entry of the pod-aware listing is made from a CRI
/// container: ids and image fields carried over, the timestamp both
/// scaled for the date field and printed in decimal, and the state
/// shown as a lower-case phrase.
pub open spec fn list_entry_rel(r: podman::ListContainer, c: cri::Container) -> bool {
    &&& r.id == c.id
    &&& r.image == c.image_ref
    &&& r.image_id == c.image_id
    &&& r.created_secs == scaled_secs(c.created_at as int)
    &&& r.created_at@ == dec_rep_signed(c.created_at as int)
    &&& r.state@ == state_phrase(c.state)
    &&& r.labels == c.labels
}

/// Maps one CRI container to the pod-aware listing shape.
pub fn container_to_list_entry(c: cri::Container) -> (r: podman::ListContainer)
    ensures
        list_entry_rel(r, c),
{
    let secs = created_secs(c.created_at);
    let printed = i64_to_string(c.created_at);
    let phrase = state_to_string(c.state);
    podman::ListContainer {
        id: c.id,
        image: c.image_ref,
        image_id: c.image_id,
        created_secs: secs,
        created_at: printed,
        state: phrase,
        labels: c.labels,
    }
}

/// Maps a whole CRI container listing to the pod-aware listing shape,
/// keeping the backend's order.
pub fn containers_to_list_entries(v: Vec<cri::Container>) -> (r: Vec<podman::ListContainer>)
    ensures
        r@.len() == v@.len(),
        forall|i: int| 0 <= i < v@.len() ==> list_entry_rel(#[trigger] r@[i], v@[i]),
{
    let ghost orig = v@;
    let mut v = v;
    let mut r: Vec<podman::ListContainer> = Vec::new();
    while v.len() > 0
        invariant
            r@.len() + v@.len() == orig.len(),
            v@ == orig.skip(r@.len() as int),
            forall|i: int| 0 <= i < r@.len() ==> list_entry_rel(#[trigger] r@[i], orig[i]),
        decreases v@.len(),
    {
        let ghost k = r@.len() as int;
        let c = v.remove(0);
        proof {
            assert(orig.skip(k)[0] == orig[k]);
            assert(orig.skip(k).remove(0) =~= orig.skip(k + 1));
        }
        r.push(container_to_list_entry(c));
    }
    r
}

/// How a member entry of a pod listing is made from a CRI container:
/// the id doubles as the name, the state is shown under its wire
/// name, and the restart count has no CRI source.
pub open spec fn pod_member_rel(r: podman::ListPodContainer, c: cri::Container) -> bool {
    &&& r.id == c.id
    &&& r.status@ == state_name(c.state)
    &&& r.names == c.id
    &&& r.restart_count == 0
}

/// Maps one CRI container to a pod-member entry.
pub fn container_to_pod_member(c: cri::Container) -> (r: podman::ListPodContainer)
    ensures
        pod_member_rel(r, c),
{
    let status = state_str_name(c.state);
    let names = c.id.clone();
    podman::ListPodContainer { id: c.id, status, names, restart_count: 0 }
}

/// Membership in the sandbox `pod_id`.
pub open spec fn in_pod(pod_id: Seq<char>) -> spec_fn(cri::Container) -> bool {
    |c: cri::Container| c.pod_sandbox_id@ == pod_id
}

/// The containers of `s` that belong to the sandbox `pod_id`.
pub open spec fn members_of(s: Seq<cri::Container>, pod_id: Seq<char>) -> Seq<cri::Container> {
    s.filter(in_pod(pod_id))
}

/// Law: a listing filtered by a pod-sandbox id is sound and complete
/// — it holds only containers whose `pod_sandbox_id` equals that id,
/// and every such container of the unfiltered listing is in it.
pub proof fn lemma_members_of_pod(s: Seq<cri::Container>, pod_id: Seq<char>)
    ensures
        forall|i: int|
            0 <= i < members_of(s, pod_id).len() ==> (#[trigger] members_of(s, pod_id)[i])
                .pod_sandbox_id@ == pod_id,
        forall|i: int|
            0 <= i < s.len() && (#[trigger] s[i]).pod_sandbox_id@ == pod_id ==> members_of(
                s,
                pod_id,
            ).contains(s[i]),
{
    let pred = in_pod(pod_id);
    assert forall|i: int|
        0 <= i < members_of(s, pod_id).len() implies (#[trigger] members_of(s, pod_id)[i])
        .pod_sandbox_id@ == pod_id by {
        s.lemma_filter_pred(pred, i);
    }
    assert forall|i: int|
        0 <= i < s.len() && (#[trigger] s[i]).pod_sandbox_id@ == pod_id implies members_of(
        s,
        pod_id,
    ).contains(s[i]) by {
        s.lemma_filter_contains(pred, i);
    }
}

/// The member entries of one pod: exactly the containers whose
/// `pod_sandbox_id` equals `pod_id`, in the backend's order, each
/// mapped to the pod-member shape.
#[verifier::loop_isolation(false)]
pub fn pod_member_containers(v: Vec<cri::Container>, pod_id: &str) -> (r: Vec<
    podman::ListPodContainer,
>)
    ensures
        r@.len() == members_of(v@, pod_id@).len(),
        forall|i: int|
            0 <= i < r@.len() ==> pod_member_rel(#[trigger] r@[i], members_of(v@, pod_id@)[i]),
{
    let ghost orig = v@;
    let ghost pred = in_pod(pod_id@);
    let n = v.len();
    proof {
        assert(n == orig.len());
    }
    let mut v = v;
    let mut r: Vec<podman::ListPodContainer> = Vec::new();
    let mut taken: usize = 0;
    while v.len() > 0
        invariant
            taken + v@.len() == orig.len(),
            orig.len() <= usize::MAX,
            v@ == orig.skip(taken as int),
            r@.len() == orig.take(taken as int).filter(pred).len(),
            forall|i: int|
                0 <= i < r@.len() ==> pod_member_rel(
                    #[trigger] r@[i],
                    orig.take(taken as int).filter(pred)[i],
                ),
        decreases v@.len(),
    {
        let ghost k = taken as int;
        let c = v.remove(0);
        proof {
            assert(orig.skip(k)[0] == orig[k]);
            assert(orig.skip(k).remove(0) =~= orig.skip(k + 1));
            let pre = orig.take(k);
            let cur = orig.take(k + 1);
            assert(cur.drop_last() =~= pre);
            assert(cur.last() == orig[k]);
            reveal_with_fuel(Seq::<cri::Container>::filter, 2);
            assert(cur.filter(pred) == if pred(orig[k]) {
                pre.filter(pred).push(orig[k])
            } else {
                pre.filter(pred)
            });
        }
        let is_member = str_eq(c.pod_sandbox_id.as_str(), pod_id);
        proof {
            assert(is_member == pred(orig[k]));
        }
        if is_member {
            r.push(container_to_pod_member(c));
            proof {
                assert(r@.len() == orig.take(k + 1).filter(pred).len());
                assert(forall|i: int|
                    0 <= i < r@.len() ==> pod_member_rel(
                        #[trigger] r@[i],
                        orig.take(k + 1).filter(pred)[i],
                    ));
            }
        }
        taken += 1;
    }
    proof {
        assert(orig.take(orig.len() as int) =~= orig);
    }
    r
}

/// Turns an optional container status into a lookup result: an absent
/// status is a missing container.
pub fn status_or_not_found(status: Option<cri::ContainerStatus>) -> (r: Result<
    cri::ContainerStatus,
    GatewayError,
>)
    ensures
        match status {
            Some(s) => r == Ok::<cri::ContainerStatus, GatewayError>(s),
            None => r == Err::<cri::ContainerStatus, GatewayError>(GatewayError::NotFound),
        },
{
    match status {
        Some(s) => Ok(s),
        None => Err(GatewayError::NotFound),
    }
}

/// How the nested state object of a compatibility inspect answer is
/// made from a container status: the running flag comes from the
/// state enum, the out-of-memory flag from the backend's exit reason
/// being exactly `OOMKilled`, and fields with no CRI source are fixed.
pub open spec fn inspect_state_rel(r: podman::InspectState, s: cri::ContainerStatus) -> bool {
    &&& r.dead == false
    &&& r.error == s.message
    &&& r.exit_code == s.exit_code as int
    &&& r.finished_at@ == dec_rep_signed(s.finished_at as int)
    &&& r.oom_killed == (s.reason@ == "OOMKilled"@)
    &&& r.paused == false
    &&& r.pid == 1234
    &&& r.restarting == false
    &&& r.running == (s.state == cri::ContainerState::Running)
    &&& r.started_at@ == dec_rep_signed(s.started_at as int)
    &&& r.status@ == state_name(s.state)
}

/// Maps a container status to the nested state object of a
/// compatibility inspect answer.
pub fn status_to_inspect_state(s: &cri::ContainerStatus) -> (r: podman::InspectState)
    ensures
        inspect_state_rel(r, *s),
{
    podman::InspectState {
        dead: false,
        error: s.message.clone(),
        exit_code: s.exit_code as i64,
        finished_at: i64_to_string(s.finished_at),
        oom_killed: str_eq(s.reason.as_str(), "OOMKilled"),
        paused: false,
        pid: 1234,
        restarting: false,
        running: s.state == cri::ContainerState::Running,
        started_at: i64_to_string(s.started_at),
        status: state_str_name(s.state),
    }
}

/// How the nested config object of a compatibility inspect answer is
/// made from a container status: image and labels carried over,
/// everything else a fixed placeholder.
pub open spec fn inspect_config_rel(r: podman::InspectConfig, s: cri::ContainerStatus) -> bool {
    &&& r.args_escaped == false
    &&& r.attach_stderr == false
    &&& r.attach_stdin == false
    &&& r.attach_stdout == false
    &&& r.cmd@.len() == 1 && r.cmd@[0]@ == "cmd"@
    &&& r.domainname@ == "domainname"@
    &&& r.entrypoint@.len() == 1 && r.entrypoint@[0]@ == "entrypoint"@
    &&& r.env@.len() == 1 && r.env@[0]@ == "env"@
    &&& r.hostname@ == "hostname"@
    &&& r.image == s.image_id
    &&& r.labels == s.labels
    &&& r.network_disabled == false
    &&& r.open_stdin == false
    &&& r.stdin_once == false
    &&& r.tty == false
    &&& r.working_dir@ == "/"@
}

/// How a whole compatibility inspect answer is made from a container
/// status.
pub open spec fn container_json_rel(r: podman::ContainerJson, s: cri::ContainerStatus) -> bool {
    &&& inspect_config_rel(r.config, s)
    &&& r.created@ == dec_rep_signed(s.created_at as int)
    &&& r.id == s.id
    &&& match (r.image, s.image) {
        (Some(i), Some(sp)) => i == sp.image,
        (None, None) => true,
        _ => false,
    }
    &&& s.metadata matches Some(m) && r.name == m.name
    &&& inspect_state_rel(r.state, s)
}

/// Maps a container status to the compatibility inspect answer. A
/// status without metadata cannot name the container and is malformed
/// input from the backend.
pub fn status_to_container_json(s: cri::ContainerStatus) -> (r: Result<
    podman::ContainerJson,
    GatewayError,
>)
    ensures
        match r {
            Ok(j) => s.metadata is Some && container_json_rel(j, s),
            Err(e) => s.metadata is None && e is Translation,
        },
{
    let state = status_to_inspect_state(&s);
    let name = match &s.metadata {
        Some(m) => m.name.clone(),
        None => {
            return Err(GatewayError::Translation("container status has no metadata".to_owned()));
        },
    };
    let mut cmd: Vec<String> = Vec::new();
    cmd.push("cmd".to_owned());
    let mut entrypoint: Vec<String> = Vec::new();
    entrypoint.push("entrypoint".to_owned());
    let mut env: Vec<String> = Vec::new();
    env.push("env".to_owned());
    let config = podman::InspectConfig {
        args_escaped: false,
        attach_stderr: false,
        attach_stdin: false,
        attach_stdout: false,
        cmd,
        domainname: "domainname".to_owned(),
        entrypoint,
        env,
        hostname: "hostname".to_owned(),
        image: s.image_id,
        labels: s.labels,
        network_disabled: false,
        open_stdin: false,
        stdin_once: false,
        tty: false,
        working_dir: "/".to_owned(),
    };
    let image = match s.image {
        Some(sp) => Some(sp.image),
        None => None,
    };
    Ok(
        podman::ContainerJson {
            config,
            created: i64_to_string(s.created_at),
            id: s.id,
            image,
            name,
            state,
        },
    )
}

/// How a pod-aware inspect answer is made from a container status:
/// only the id and the image reference have a CRI source.
pub open spec fn inspect_data_rel(r: podman::InspectContainerData, s: cri::ContainerStatus) -> bool {
    &&& r.id == s.id
    &&& match (r.image, s.image) {
        (Some(i), Some(sp)) => i == sp.image,
        (None, None) => true,
        _ => false,
    }
}

/// Maps a container status to the pod-aware inspect answer.
pub fn status_to_inspect_data(s: cri::ContainerStatus) -> (r: podman::InspectContainerData)
    ensures
        inspect_data_rel(r, s),
{
    let image = match s.image {
        Some(sp) => Some(sp.image),
        None => None,
    };
    podman::InspectContainerData { id: s.id, image }
}

} // verus!
