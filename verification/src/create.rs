//! Building a CRI container-create call out of a Podman-shaped create
//! body: splitting environment entries, translating mounts and
//! devices, assembling the container configuration, choosing the
//! runtime handler, and planning the owning pod sandbox.

use vstd::prelude::*;

use crate::cri;
use crate::error::GatewayError;
use crate::images::clean_image;
use crate::images::clean_image_spec;
use crate::podman;
use crate::strutil::first_index;
use crate::strutil::lemma_first_index;
use crate::strutil::split_first;
use crate::strutil::str_eq;

verus! {

/// The elements of an optional list, an absent list being empty.
pub open spec fn opt_vec<T>(o: Option<Vec<T>>) -> Seq<T> {
    match o {
        Some(v) => v@,
        None => Seq::empty(),
    }
}

/// An optional value, or the given default.
pub open spec fn opt_or<T>(o: Option<T>, d: T) -> T {
    match o {
        Some(x) => x,
        None => d,
    }
}

/// Whether an environment entry holds a `=` at all.
pub open spec fn env_ok(s: Seq<char>) -> bool {
    first_index(s, '=') < s.len()
}

/// The key of an environment entry: everything before the first `=`.
pub open spec fn env_key(s: Seq<char>) -> Seq<char> {
    s.subrange(0, first_index(s, '='))
}

/// The value of an environment entry: the full remainder after the
/// first `=`, further `=` characters included.
pub open spec fn env_value(s: Seq<char>) -> Seq<char> {
    s.subrange(first_index(s, '=') + 1, s.len() as int)
}

/// Splits one `KEY=VALUE` environment entry at its first `=`. An
/// entry without `=` is malformed input, not an empty value.
pub fn split_env(env: &str) -> (r: Result<cri::KeyValue, GatewayError>)
    ensures
        env_ok(env@) ==> (r matches Ok(kv) && kv.key@ == env_key(env@) && kv.value@ == env_value(
            env@,
        )),
        !env_ok(env@) ==> (r matches Err(e) && e is Translation),
{
    match split_first(env, '=') {
        Some((key, value)) => Ok(cri::KeyValue { key, value }),
        None => Err(GatewayError::Translation("environment entry without '='".to_owned())),
    }
}

/// Splits a whole environment list; the first malformed entry fails
/// the call.
#[verifier::loop_isolation(false)]
pub fn envs_to_key_values(envs: Vec<String>) -> (r: Result<Vec<cri::KeyValue>, GatewayError>)
    ensures
        r is Ok <==> (forall|i: int| 0 <= i < envs@.len() ==> env_ok(#[trigger] envs@[i]@)),
        r matches Ok(kvs) ==> kvs@.len() == envs@.len() && (forall|i: int|
            0 <= i < envs@.len() ==> (#[trigger] kvs@[i]).key@ == env_key(envs@[i]@)
                && kvs@[i].value@ == env_value(envs@[i]@)),
        r matches Err(e) ==> e is Translation,
{
    let ghost orig = envs@;
    let mut envs = envs;
    let mut kvs: Vec<cri::KeyValue> = Vec::new();
    while envs.len() > 0
        invariant
            kvs@.len() + envs@.len() == orig.len(),
            envs@ == orig.skip(kvs@.len() as int),
            forall|i: int| 0 <= i < kvs@.len() ==> env_ok(#[trigger] orig[i]@),
            forall|i: int|
                0 <= i < kvs@.len() ==> (#[trigger] kvs@[i]).key@ == env_key(orig[i]@)
                    && kvs@[i].value@ == env_value(orig[i]@),
        decreases envs@.len(),
    {
        let ghost k = kvs@.len() as int;
        let e = envs.remove(0);
        proof {
            assert(orig.skip(k)[0] == orig[k]);
            assert(orig.skip(k).remove(0) =~= orig.skip(k + 1));
        }
        match split_env(e.as_str()) {
            Ok(kv) => kvs.push(kv),
            Err(err) => {
                proof {
                    assert(!env_ok(orig[k]@));
                }
                return Err(err);
            },
        }
    }
    Ok(kvs)
}

/// Turns a list of key/value pairs into CRI environment entries.
pub fn pairs_to_key_values(pairs: Vec<(String, String)>) -> (r: Vec<cri::KeyValue>)
    ensures
        r@.len() == pairs@.len(),
        forall|i: int|
            0 <= i < pairs@.len() ==> (#[trigger] r@[i]).key == pairs@[i].0 && r@[i].value
                == pairs@[i].1,
{
    let ghost orig = pairs@;
    let mut pairs = pairs;
    let mut r: Vec<cri::KeyValue> = Vec::new();
    while pairs.len() > 0
        invariant
            r@.len() + pairs@.len() == orig.len(),
            pairs@ == orig.skip(r@.len() as int),
            forall|i: int|
                0 <= i < r@.len() ==> (#[trigger] r@[i]).key == orig[i].0 && r@[i].value
                    == orig[i].1,
        decreases pairs@.len(),
    {
        let ghost k = r@.len() as int;
        let p = pairs.remove(0);
        proof {
            assert(orig.skip(k)[0] == orig[k]);
            assert(orig.skip(k).remove(0) =~= orig.skip(k + 1));
        }
        r.push(cri::KeyValue { key: p.0, value: p.1 });
    }
    r
}

/// Whether a mount of a create body names both ends.
pub open spec fn spec_mount_ok(m: podman::SpecMount) -> bool {
    m.source is Some && m.target is Some
}

/// How a CRI mount is made from a mount of a create body.
pub open spec fn mount_rel(r: cri::Mount, m: podman::SpecMount) -> bool {
    &&& m.source matches Some(s) && r.host_path == s
    &&& m.target matches Some(t) && r.container_path == t
    &&& r.readonly == opt_or(m.read_only, false)
    &&& r.image is None
}

/// Translates one mount; a mount missing its source or target is
/// malformed.
pub fn spec_mount_to_cri(m: podman::SpecMount) -> (r: Result<cri::Mount, GatewayError>)
    ensures
        spec_mount_ok(m) ==> (r matches Ok(c) && mount_rel(c, m)),
        !spec_mount_ok(m) ==> (r matches Err(e) && e is Translation),
{
    let source = match m.source {
        Some(s) => s,
        None => {
            return Err(GatewayError::Translation("mount without a source".to_owned()));
        },
    };
    let target = match m.target {
        Some(t) => t,
        None => {
            return Err(GatewayError::Translation("mount without a target".to_owned()));
        },
    };
    let readonly = match m.read_only {
        Some(b) => b,
        None => false,
    };
    Ok(cri::Mount { host_path: source, container_path: target, readonly, image: None })
}

/// Whether an image volume of a create body names both the image and
/// the destination.
pub open spec fn image_volume_ok(v: podman::ImageVolume) -> bool {
    v.source is Some && v.destination is Some
}

/// How a CRI image mount is made from an image volume of a create
/// body.
pub open spec fn image_mount_rel(r: cri::Mount, v: podman::ImageVolume) -> bool {
    &&& v.source matches Some(s) && (r.image matches Some(isp) && isp.image == s
        && isp.user_specified_image@ == Seq::<char>::empty())
    &&& v.destination matches Some(d) && r.container_path == d
    &&& r.host_path@ == Seq::<char>::empty()
    &&& r.readonly == false
}

/// Translates one image volume; one missing its image or destination
/// is malformed.
pub fn image_volume_to_cri(v: podman::ImageVolume) -> (r: Result<cri::Mount, GatewayError>)
    ensures
        image_volume_ok(v) ==> (r matches Ok(c) && image_mount_rel(c, v)),
        !image_volume_ok(v) ==> (r matches Err(e) && e is Translation),
{
    let source = match v.source {
        Some(s) => s,
        None => {
            return Err(GatewayError::Translation("image volume without a source".to_owned()));
        },
    };
    let destination = match v.destination {
        Some(d) => d,
        None => {
            return Err(GatewayError::Translation("image volume without a destination".to_owned()));
        },
    };
    let image = cri::ImageSpec { image: source, user_specified_image: String::new() };
    Ok(
        cri::Mount {
            host_path: String::new(),
            container_path: destination,
            readonly: false,
            image: Some(image),
        },
    )
}

/// Whether a device of a create body names its path.
pub open spec fn device_ok(d: podman::LinuxDevice) -> bool {
    d.path is Some
}

/// How a CRI device is made from a device of a create body: the same
/// path on both sides, readable and writable.
pub open spec fn device_rel(r: cri::Device, d: podman::LinuxDevice) -> bool {
    &&& d.path matches Some(p) && r.container_path == p && r.host_path == p
    &&& r.permissions@ == "rw"@
}

/// Translates one device; one without a path is malformed.
pub fn device_to_cri(d: podman::LinuxDevice) -> (r: Result<cri::Device, GatewayError>)
    ensures
        device_ok(d) ==> (r matches Ok(c) && device_rel(c, d)),
        !device_ok(d) ==> (r matches Err(e) && e is Translation),
{
    let path = match d.path {
        Some(p) => p,
        None => {
            return Err(GatewayError::Translation("device without a path".to_owned()));
        },
    };
    let host_path = path.clone();
    Ok(cri::Device { container_path: path, host_path, permissions: "rw".to_owned() })
}

/// Whether a `source:target` volume key holds a `:` at all.
pub open spec fn vol_ok(s: Seq<char>) -> bool {
    first_index(s, ':') < s.len()
}

/// The host side of a volume key: everything before the first `:`.
pub open spec fn vol_host(s: Seq<char>) -> Seq<char> {
    s.subrange(0, first_index(s, ':'))
}

/// The container side of a volume key: the segment between the first
/// `:` and the next one, or the whole remainder when there is no
/// further `:`.
pub open spec fn vol_container(s: Seq<char>) -> Seq<char> {
    let rest = s.subrange(first_index(s, ':') + 1, s.len() as int);
    rest.subrange(0, first_index(rest, ':'))
}

/// Translates one `source:target` volume key into a CRI mount; a key
/// without `:` names no target and is malformed.
pub fn volume_to_mount(s: &str) -> (r: Result<cri::Mount, GatewayError>)
    ensures
        vol_ok(s@) ==> (r matches Ok(m) && m.host_path@ == vol_host(s@) && m.container_path@
            == vol_container(s@) && m.readonly == false && m.image is None),
        !vol_ok(s@) ==> (r matches Err(e) && e is Translation),
{
    match split_first(s, ':') {
        Some((host, rest)) => {
            let container = match split_first(rest.as_str(), ':') {
                Some((c2, _)) => c2,
                None => {
                    proof {
                        lemma_first_index(rest@, ':');
                        assert(rest@.subrange(0, rest@.len() as int) =~= rest@);
                    }
                    rest
                },
            };
            Ok(
                cri::Mount {
                    host_path: host,
                    container_path: container,
                    readonly: false,
                    image: None,
                },
            )
        },
        None => Err(GatewayError::Translation("volume without ':'".to_owned())),
    }
}

/// Translates a whole list of volume keys; the first malformed key
/// fails the call.
#[verifier::loop_isolation(false)]
pub fn volumes_to_mounts(vols: Vec<String>) -> (r: Result<Vec<cri::Mount>, GatewayError>)
    ensures
        r is Ok <==> (forall|i: int| 0 <= i < vols@.len() ==> vol_ok(#[trigger] vols@[i]@)),
        r matches Ok(ms) ==> ms@.len() == vols@.len() && (forall|i: int|
            0 <= i < vols@.len() ==> (#[trigger] ms@[i]).host_path@ == vol_host(vols@[i]@)
                && ms@[i].container_path@ == vol_container(vols@[i]@) && ms@[i].readonly == false
                && ms@[i].image is None),
        r matches Err(e) ==> e is Translation,
{
    let ghost orig = vols@;
    let mut vols = vols;
    let mut ms: Vec<cri::Mount> = Vec::new();
    while vols.len() > 0
        invariant
            ms@.len() + vols@.len() == orig.len(),
            vols@ == orig.skip(ms@.len() as int),
            forall|i: int| 0 <= i < ms@.len() ==> vol_ok(#[trigger] orig[i]@),
            forall|i: int|
                0 <= i < ms@.len() ==> (#[trigger] ms@[i]).host_path@ == vol_host(orig[i]@)
                    && ms@[i].container_path@ == vol_container(orig[i]@) && ms@[i].readonly == false
                    && ms@[i].image is None,
        decreases vols@.len(),
    {
        let ghost k = ms@.len() as int;
        let s = vols.remove(0);
        proof {
            assert(orig.skip(k)[0] == orig[k]);
            assert(orig.skip(k).remove(0) =~= orig.skip(k + 1));
        }
        match volume_to_mount(s.as_str()) {
            Ok(m) => ms.push(m),
            Err(err) => {
                proof {
                    assert(!vol_ok(orig[k]@));
                }
                return Err(err);
            },
        }
    }
    Ok(ms)
}

/// Translates the mounts of a create body; the first incomplete one
/// fails the call.
#[verifier::loop_isolation(false)]
pub fn spec_mounts_to_cri(mounts: Vec<podman::SpecMount>) -> (r: Result<
    Vec<cri::Mount>,
    GatewayError,
>)
    ensures
        r is Ok <==> (forall|i: int| 0 <= i < mounts@.len() ==> spec_mount_ok(#[trigger] mounts@[i])),
        r matches Ok(ms) ==> ms@.len() == mounts@.len() && (forall|i: int|
            0 <= i < mounts@.len() ==> mount_rel(#[trigger] ms@[i], mounts@[i])),
        r matches Err(e) ==> e is Translation,
{
    let ghost orig = mounts@;
    let mut mounts = mounts;
    let mut ms: Vec<cri::Mount> = Vec::new();
    while mounts.len() > 0
        invariant
            ms@.len() + mounts@.len() == orig.len(),
            mounts@ == orig.skip(ms@.len() as int),
            forall|i: int| 0 <= i < ms@.len() ==> spec_mount_ok(#[trigger] orig[i]),
            forall|i: int| 0 <= i < ms@.len() ==> mount_rel(#[trigger] ms@[i], orig[i]),
        decreases mounts@.len(),
    {
        let ghost k = ms@.len() as int;
        let m = mounts.remove(0);
        proof {
            assert(orig.skip(k)[0] == orig[k]);
            assert(orig.skip(k).remove(0) =~= orig.skip(k + 1));
        }
        match spec_mount_to_cri(m) {
            Ok(c) => ms.push(c),
            Err(err) => {
                proof {
                    assert(!spec_mount_ok(orig[k]));
                }
                return Err(err);
            },
        }
    }
    Ok(ms)
}

/// Appends the image volumes of a create body, translated, behind the
/// regular mounts; the first incomplete one fails the call.
#[verifier::loop_isolation(false)]
pub fn append_image_mounts(mounts: Vec<cri::Mount>, ivs: Vec<podman::ImageVolume>) -> (r: Result<
    Vec<cri::Mount>,
    GatewayError,
>)
    ensures
        r is Ok <==> (forall|i: int| 0 <= i < ivs@.len() ==> image_volume_ok(#[trigger] ivs@[i])),
        r matches Ok(ms) ==> ms@.len() == mounts@.len() + ivs@.len() && (forall|i: int|
            0 <= i < mounts@.len() ==> ms@[i] == mounts@[i]) && (forall|j: int|
            0 <= j < ivs@.len() ==> image_mount_rel(
                #[trigger] ms@[mounts@.len() + j],
                ivs@[j],
            )),
        r matches Err(e) ==> e is Translation,
{
    let ghost base = mounts@;
    let ghost orig = ivs@;
    let n = ivs.len();
    proof {
        assert(n == orig.len());
    }
    let mut ivs = ivs;
    let mut ms = mounts;
    let mut done: usize = 0;
    while ivs.len() > 0
        invariant
            done + ivs@.len() == orig.len(),
            orig.len() <= usize::MAX,
            ms@.len() == base.len() + done,
            ivs@ == orig.skip(done as int),
            forall|i: int| 0 <= i < base.len() ==> ms@[i] == base[i],
            forall|i: int| 0 <= i < done ==> image_volume_ok(#[trigger] orig[i]),
            forall|j: int|
                0 <= j < done ==> image_mount_rel(#[trigger] ms@[base.len() + j], orig[j]),
        decreases ivs@.len(),
    {
        let ghost k = done as int;
        let v = ivs.remove(0);
        proof {
            assert(orig.skip(k)[0] == orig[k]);
            assert(orig.skip(k).remove(0) =~= orig.skip(k + 1));
        }
        match image_volume_to_cri(v) {
            Ok(c) => {
                ms.push(c);
                done += 1;
            },
            Err(err) => {
                proof {
                    assert(!image_volume_ok(orig[k]));
                }
                return Err(err);
            },
        }
    }
    Ok(ms)
}

/// Translates the devices of a create body; the first one without a
/// path fails the call.
#[verifier::loop_isolation(false)]
pub fn devices_to_cri(devices: Vec<podman::LinuxDevice>) -> (r: Result<
    Vec<cri::Device>,
    GatewayError,
>)
    ensures
        r is Ok <==> (forall|i: int| 0 <= i < devices@.len() ==> device_ok(#[trigger] devices@[i])),
        r matches Ok(ds) ==> ds@.len() == devices@.len() && (forall|i: int|
            0 <= i < devices@.len() ==> device_rel(#[trigger] ds@[i], devices@[i])),
        r matches Err(e) ==> e is Translation,
{
    let ghost orig = devices@;
    let mut devices = devices;
    let mut ds: Vec<cri::Device> = Vec::new();
    while devices.len() > 0
        invariant
            ds@.len() + devices@.len() == orig.len(),
            devices@ == orig.skip(ds@.len() as int),
            forall|i: int| 0 <= i < ds@.len() ==> device_ok(#[trigger] orig[i]),
            forall|i: int| 0 <= i < ds@.len() ==> device_rel(#[trigger] ds@[i], orig[i]),
        decreases devices@.len(),
    {
        let ghost k = ds@.len() as int;
        let d = devices.remove(0);
        proof {
            assert(orig.skip(k)[0] == orig[k]);
            assert(orig.skip(k).remove(0) =~= orig.skip(k + 1));
        }
        match device_to_cri(d) {
            Ok(c) => ds.push(c),
            Err(err) => {
                proof {
                    assert(!device_ok(orig[k]));
                }
                return Err(err);
            },
        }
    }
    Ok(ds)
}

/// How a CRI container configuration is made from a pod-aware create
/// body: the name falls back to a supplied one, the image reference
/// is cleaned, the environment pairs are carried over, the image
/// volumes follow the regular mounts, and unset flags default to
/// false.
pub open spec fn spec_gen_config_rel(
    c: cri::ContainerConfig,
    s: podman::SpecGenerator,
    fallback_name: String,
) -> bool {
    &&& c.metadata matches Some(m) && m.name == opt_or(s.name, fallback_name) && m.attempt == 0
    &&& s.image matches Some(img) && (c.image matches Some(isp) && isp.image@ == clean_image_spec(
        img@,
    ) && isp.user_specified_image@ == Seq::<char>::empty())
    &&& c.command@ == opt_vec(s.entrypoint)
    &&& c.args@ == opt_vec(s.command)
    &&& match s.work_dir {
        Some(w) => c.working_dir == w,
        None => c.working_dir@ == "/"@,
    }
    &&& c.envs@.len() == opt_vec(s.env).len()
    &&& (forall|i: int|
        0 <= i < opt_vec(s.env).len() ==> (#[trigger] c.envs@[i]).key == opt_vec(s.env)[i].0
            && c.envs@[i].value == opt_vec(s.env)[i].1)
    &&& c.mounts@.len() == opt_vec(s.mounts).len() + opt_vec(s.image_volumes).len()
    &&& (forall|i: int|
        0 <= i < opt_vec(s.mounts).len() ==> mount_rel(#[trigger] c.mounts@[i], opt_vec(s.mounts)[i]))
    &&& (forall|j: int|
        0 <= j < opt_vec(s.image_volumes).len() ==> image_mount_rel(
            #[trigger] c.mounts@[opt_vec(s.mounts).len() + j],
            opt_vec(s.image_volumes)[j],
        ))
    &&& c.devices@.len() == opt_vec(s.devices).len()
    &&& (forall|i: int|
        0 <= i < opt_vec(s.devices).len() ==> device_rel(
            #[trigger] c.devices@[i],
            opt_vec(s.devices)[i],
        ))
    &&& c.labels@ == opt_vec(s.labels)
    &&& c.annotations@ == opt_vec(s.annotations)
    &&& c.tty == opt_or(s.terminal, false)
    &&& c.stdin == opt_or(s.stdin, false)
}

/// Builds a CRI container configuration from a pod-aware create
/// body. `fallback_name` names the container when the body does not.
pub fn spec_generator_to_config(s: podman::SpecGenerator, fallback_name: String) -> (r: Result<
    cri::ContainerConfig,
    GatewayError,
>)
    ensures
        r is Ok <==> (s.image is Some && (forall|i: int|
            0 <= i < opt_vec(s.mounts).len() ==> spec_mount_ok(#[trigger] opt_vec(s.mounts)[i]))
            && (forall|i: int|
            0 <= i < opt_vec(s.image_volumes).len() ==> image_volume_ok(
                #[trigger] opt_vec(s.image_volumes)[i],
            )) && (forall|i: int|
            0 <= i < opt_vec(s.devices).len() ==> device_ok(#[trigger] opt_vec(s.devices)[i]))),
        r matches Ok(c) ==> spec_gen_config_rel(c, s, fallback_name),
        r matches Err(e) ==> e is Translation,
{
    let name = match s.name {
        Some(n) => n,
        None => fallback_name,
    };
    let image_raw = match s.image {
        Some(i) => i,
        None => {
            return Err(GatewayError::Translation("create body without an image".to_owned()));
        },
    };
    let image = clean_image(image_raw);
    let command = match s.entrypoint {
        Some(v) => v,
        None => Vec::new(),
    };
    let args = match s.command {
        Some(v) => v,
        None => Vec::new(),
    };
    let working_dir = match s.work_dir {
        Some(w) => w,
        None => "/".to_owned(),
    };
    let env_vec = match s.env {
        Some(v) => v,
        None => Vec::new(),
    };
    proof {
        assert(env_vec@ == opt_vec(s.env));
    }
    let envs = pairs_to_key_values(env_vec);
    let mount_vec = match s.mounts {
        Some(v) => v,
        None => Vec::new(),
    };
    proof {
        assert(mount_vec@ == opt_vec(s.mounts));
    }
    let base_mounts = match spec_mounts_to_cri(mount_vec) {
        Ok(v) => v,
        Err(e) => {
            return Err(e);
        },
    };
    let iv_vec = match s.image_volumes {
        Some(v) => v,
        None => Vec::new(),
    };
    proof {
        assert(iv_vec@ == opt_vec(s.image_volumes));
    }
    let mounts = match append_image_mounts(base_mounts, iv_vec) {
        Ok(v) => v,
        Err(e) => {
            return Err(e);
        },
    };
    let device_vec = match s.devices {
        Some(v) => v,
        None => Vec::new(),
    };
    proof {
        assert(device_vec@ == opt_vec(s.devices));
    }
    let devices = match devices_to_cri(device_vec) {
        Ok(v) => v,
        Err(e) => {
            return Err(e);
        },
    };
    let labels = match s.labels {
        Some(v) => v,
        None => Vec::new(),
    };
    let annotations = match s.annotations {
        Some(v) => v,
        None => Vec::new(),
    };
    let tty = match s.terminal {
        Some(b) => b,
        None => false,
    };
    let stdin = match s.stdin {
        Some(b) => b,
        None => false,
    };
    Ok(
        cri::ContainerConfig {
            metadata: Some(cri::ContainerMetadata { name, attempt: 0 }),
            image: Some(cri::ImageSpec { image, user_specified_image: String::new() }),
            command,
            args,
            working_dir,
            envs,
            mounts,
            devices,
            labels,
            annotations,
            tty,
            stdin,
        },
    )
}

/// How a CRI container configuration is made from a compatibility
/// create body: `KEY=VALUE` environment entries are split at their
/// first `=`, `source:target` volume keys become mounts, and fields
/// the compatibility body cannot express stay empty.
pub open spec fn create_spec_config_rel(
    c: cri::ContainerConfig,
    s: podman::CreateContainerSpec,
    fallback_name: String,
) -> bool {
    &&& c.metadata matches Some(m) && m.name == opt_or(s.name, fallback_name) && m.attempt == 0
    &&& s.image matches Some(img) && (c.image matches Some(isp) && isp.image@ == clean_image_spec(
        img@,
    ) && isp.user_specified_image@ == Seq::<char>::empty())
    &&& c.command@ == opt_vec(s.entrypoint)
    &&& c.args@ == opt_vec(s.cmd)
    &&& match s.working_dir {
        Some(w) => c.working_dir == w,
        None => c.working_dir@ == Seq::<char>::empty(),
    }
    &&& c.envs@.len() == opt_vec(s.env).len()
    &&& (forall|i: int|
        0 <= i < opt_vec(s.env).len() ==> (#[trigger] c.envs@[i]).key@ == env_key(
            opt_vec(s.env)[i]@,
        ) && c.envs@[i].value@ == env_value(opt_vec(s.env)[i]@))
    &&& c.mounts@.len() == opt_vec(s.volumes).len()
    &&& (forall|i: int|
        0 <= i < opt_vec(s.volumes).len() ==> (#[trigger] c.mounts@[i]).host_path@ == vol_host(
            opt_vec(s.volumes)[i]@,
        ) && c.mounts@[i].container_path@ == vol_container(opt_vec(s.volumes)[i]@)
            && c.mounts@[i].readonly == false && c.mounts@[i].image is None)
    &&& c.labels@ == opt_vec(s.labels)
    &&& c.devices@ == Seq::<cri::Device>::empty()
    &&& c.annotations@ == Seq::<(String, String)>::empty()
    &&& c.tty == false
    &&& c.stdin == false
}

/// Builds a CRI container configuration from a compatibility create
/// body. `fallback_name` names the container when the body does not.
pub fn create_spec_to_config(s: podman::CreateContainerSpec, fallback_name: String) -> (r: Result<
    cri::ContainerConfig,
    GatewayError,
>)
    ensures
        r is Ok <==> (s.image is Some && (forall|i: int|
            0 <= i < opt_vec(s.env).len() ==> env_ok(#[trigger] opt_vec(s.env)[i]@)) && (forall|
            i: int,
        |
            0 <= i < opt_vec(s.volumes).len() ==> vol_ok(#[trigger] opt_vec(s.volumes)[i]@))),
        r matches Ok(c) ==> create_spec_config_rel(c, s, fallback_name),
        r matches Err(e) ==> e is Translation,
{
    let name = match s.name {
        Some(n) => n,
        None => fallback_name,
    };
    let image_raw = match s.image {
        Some(i) => i,
        None => {
            return Err(GatewayError::Translation("create body without an image".to_owned()));
        },
    };
    let image = clean_image(image_raw);
    let command = match s.entrypoint {
        Some(v) => v,
        None => Vec::new(),
    };
    let args = match s.cmd {
        Some(v) => v,
        None => Vec::new(),
    };
    let working_dir = match s.working_dir {
        Some(w) => w,
        None => String::new(),
    };
    let env_vec = match s.env {
        Some(v) => v,
        None => Vec::new(),
    };
    proof {
        assert(env_vec@ == opt_vec(s.env));
    }
    let envs = match envs_to_key_values(env_vec) {
        Ok(v) => v,
        Err(e) => {
            return Err(e);
        },
    };
    let vol_vec = match s.volumes {
        Some(v) => v,
        None => Vec::new(),
    };
    proof {
        assert(vol_vec@ == opt_vec(s.volumes));
    }
    let mounts = match volumes_to_mounts(vol_vec) {
        Ok(v) => v,
        Err(e) => {
            return Err(e);
        },
    };
    let labels = match s.labels {
        Some(v) => v,
        None => Vec::new(),
    };
    Ok(
        cri::ContainerConfig {
            metadata: Some(cri::ContainerMetadata { name, attempt: 0 }),
            image: Some(cri::ImageSpec { image, user_specified_image: String::new() }),
            command,
            args,
            working_dir,
            envs,
            mounts,
            devices: Vec::new(),
            labels,
            annotations: Vec::new(),
            tty: false,
            stdin: false,
        },
    )
}

/// Whether a label list carries the given key.
pub open spec fn labels_have_key(labels: Seq<(String, String)>, key: Seq<char>) -> bool {
    exists|i: int| 0 <= i < labels.len() && labels[i].0@ == key
}

/// Which runtime handler a create request selects: a request carrying
/// the designated label runs under the local handler, every other one
/// under the backend's default.
pub open spec fn runtime_handler_spec(labels: Seq<(String, String)>) -> Seq<char> {
    if labels_have_key(labels, "peer-pods-service"@) {
        "runc"@
    } else {
        ""@
    }
}

/// Selects the runtime handler for a create request from its labels.
#[verifier::loop_isolation(false)]
pub fn select_runtime_handler(labels: &Vec<(String, String)>) -> (r: String)
    ensures
        r@ == runtime_handler_spec(labels@),
{
    let mut i: usize = 0;
    while i < labels.len()
        invariant
            i <= labels@.len(),
            forall|j: int| 0 <= j < i ==> (#[trigger] labels@[j]).0@ != "peer-pods-service"@,
        decreases labels@.len() - i,
    {
        if str_eq(labels[i].0.as_str(), "peer-pods-service") {
            proof {
                assert(labels_have_key(labels@, "peer-pods-service"@));
            }
            return "runc".to_owned();
        }
        i += 1;
    }
    proof {
        assert(!labels_have_key(labels@, "peer-pods-service"@));
        reveal_strlit("");
        assert(""@ =~= Seq::<char>::empty());
    }
    String::new()
}

/// Where a container to be created will live: in the pod its body
/// names, or in a default sandbox the gateway synthesizes first.
#[derive(Debug, Clone, PartialEq)]
pub enum SandboxChoice {
    /// The body named this pod sandbox.
    Existing(String),
    /// The body named none; a default sandbox must be created before
    /// the container.
    CreateDefault,
}

/// The sandbox plan of a create request: an explicit pod is used as
/// it is, and only a request naming none asks for synthesis.
pub open spec fn plan_sandbox_spec(pod: Option<String>) -> SandboxChoice {
    match pod {
        Some(id) => SandboxChoice::Existing(id),
        None => SandboxChoice::CreateDefault,
    }
}

/// Plans the owning sandbox of a container create request.
pub fn plan_sandbox(pod: Option<String>) -> (r: SandboxChoice)
    ensures
        r == plan_sandbox_spec(pod),
{
    match pod {
        Some(id) => SandboxChoice::Existing(id),
        None => SandboxChoice::CreateDefault,
    }
}

/// The container create request: the configuration, the owning
/// sandbox's id, and the sandbox configuration echoed back for
/// reference.
pub open spec fn create_request_spec(
    config: cri::ContainerConfig,
    pod_sandbox_id: String,
    sandbox_config: cri::PodSandboxConfig,
) -> cri::CreateContainerRequest {
    cri::CreateContainerRequest {
        pod_sandbox_id,
        config: Some(config),
        sandbox_config: Some(sandbox_config),
    }
}

/// Assembles the container create request.
pub fn build_create_request(
    config: cri::ContainerConfig,
    pod_sandbox_id: String,
    sandbox_config: cri::PodSandboxConfig,
) -> (r: cri::CreateContainerRequest)
    ensures
        r == create_request_spec(config, pod_sandbox_id, sandbox_config),
{
    cri::CreateContainerRequest {
        pod_sandbox_id,
        config: Some(config),
        sandbox_config: Some(sandbox_config),
    }
}

/// The answer to a successful create call: the new id and an empty
/// warnings list.
pub fn create_response(container_id: String) -> (r: podman::ContainerCreateResponse)
    ensures
        r.id == container_id,
        r.warnings@ == Seq::<String>::empty(),
{
    podman::ContainerCreateResponse { id: container_id, warnings: Vec::new() }
}

/// The sandbox configuration echoed back in a create call: the
/// metadata of the first sandbox the lookup returned, everything else
/// left empty. An empty lookup means the named sandbox is missing.
pub fn sandbox_config_of_list(list: Vec<cri::PodSandbox>) -> (r: Result<
    cri::PodSandboxConfig,
    GatewayError,
>)
    ensures
        list@.len() > 0 ==> (r matches Ok(c) && c.metadata == list@[0].metadata && c.hostname@
            == Seq::<char>::empty() && c.log_directory@ == Seq::<char>::empty() && c.labels@
            == Seq::<(String, String)>::empty() && c.annotations@ == Seq::<
            (String, String),
        >::empty()),
        list@.len() == 0 ==> r == Err::<cri::PodSandboxConfig, GatewayError>(GatewayError::NotFound),
{
    let mut list = list;
    if list.len() > 0 {
        let first = list.remove(0);
        Ok(
            cri::PodSandboxConfig {
                metadata: first.metadata,
                hostname: String::new(),
                log_directory: String::new(),
                labels: Vec::new(),
                annotations: Vec::new(),
            },
        )
    } else {
        Err(GatewayError::NotFound)
    }
}

/// Law: a container create request plans the synthesis of a default
/// sandbox exactly when it names no pod; one naming a pod reuses it
/// unchanged; and the create request sent to the backend references
/// precisely the sandbox id the plan settled on.
pub proof fn lemma_default_sandbox_synthesis(
    pod: Option<String>,
    config: cri::ContainerConfig,
    new_id: String,
    sandbox_config: cri::PodSandboxConfig,
)
    ensures
        plan_sandbox_spec(pod) == SandboxChoice::CreateDefault <==> pod is None,
        pod matches Some(id) ==> plan_sandbox_spec(pod) == SandboxChoice::Existing(id),
        create_request_spec(config, new_id, sandbox_config).pod_sandbox_id == new_id,
{
}

} // verus!
