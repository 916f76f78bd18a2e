//! The request router: a pure dispatch table from an HTTP method and
//! a path to either one of the translated endpoints or the reverse
//! proxy. Any request that matches no known pattern is proxied, so
//! the gateway presents a complete API even though only part of it is
//! natively implemented.

use vstd::prelude::*;
use vstd::string::StrSliceExecFns;

use crate::strutil::first_index;
use crate::strutil::lemma_first_index;
use crate::strutil::split_first;
use crate::strutil::str_eq;

verus! {

/// An HTTP method, as far as the dispatch table distinguishes them.
#[derive(Clone, Copy, Debug, PartialEq, Eq, Structural)]
pub enum Method {
    Get,
    Post,
    Delete,
    Put,
    Patch,
    Head,
    Other,
}

/// Where a request goes: one of the translated endpoints, or the
/// reverse proxy.
#[derive(Clone, Copy, Debug, PartialEq, Eq, Structural)]
pub enum Endpoint {
    ContainerList,
    ContainerCreate,
    ImageCreate,
    ContainerInspect,
    ContainerStart,
    ContainerStop,
    Ping,
    Version,
    ContainerListLibpod,
    ContainerCreateLibpod,
    PodList,
    PodCreate,
    PodStart,
    PodStop,
    PodDelete,
    Proxy,
}

/// A routing decision: the endpoint, and the name captured from the
/// path for the endpoints that take one.
#[derive(Debug, Clone, PartialEq)]
pub struct RouteDecision {
    pub endpoint: Endpoint,
    pub name: Option<String>,
}

/// The pieces of `s` between occurrences of `c`: always one piece
/// more than there are separators, empty pieces kept.
pub open spec fn split_on(s: Seq<char>, c: char) -> Seq<Seq<char>>
    decreases s.len(),
    via split_on_decreases
{
    let i = first_index(s, c);
    if i < s.len() {
        seq![s.subrange(0, i)] + split_on(s.subrange(i + 1, s.len() as int), c)
    } else {
        seq![s]
    }
}

#[via_fn]
proof fn split_on_decreases(s: Seq<char>, c: char) {
    lemma_first_index(s, c);
}

/// Splits a string at every occurrence of `c`.
#[verifier::loop_isolation(false)]
pub fn split_string(s: String, c: char) -> (r: Vec<String>)
    ensures
        r@.map_values(|x: String| x@) == split_on(s@, c),
{
    let ghost orig = s@;
    let mut remaining = s;
    let mut parts: Vec<String> = Vec::new();
    loop
        invariant
            split_on(orig, c) == parts@.map_values(|x: String| x@) + split_on(remaining@, c),
        decreases remaining@.len(),
    {
        match split_first(remaining.as_str(), c) {
            Some((seg, rest)) => {
                proof {
                    let rem = remaining@;
                    let fi = first_index(rem, c);
                    lemma_first_index(rem, c);
                    assert(split_on(rem, c) == seq![rem.subrange(0, fi)] + split_on(
                        rem.subrange(fi + 1, rem.len() as int),
                        c,
                    ));
                    assert(parts@.push(seg).map_values(|x: String| x@) =~= parts@.map_values(
                        |x: String| x@,
                    ).push(seg@));
                    assert(parts@.map_values(|x: String| x@).push(seg@) + split_on(rest@, c)
                        =~= parts@.map_values(|x: String| x@) + (seq![seg@] + split_on(rest@, c)));
                }
                parts.push(seg);
                remaining = rest;
            },
            None => {
                proof {
                    let rem = remaining@;
                    assert(split_on(rem, c) == seq![rem]);
                    assert(parts@.push(remaining).map_values(|x: String| x@) =~= parts@.map_values(
                        |x: String| x@,
                    ).push(remaining@));
                    assert(parts@.map_values(|x: String| x@).push(remaining@) =~= parts@.map_values(
                        |x: String| x@,
                    ) + seq![remaining@]);
                }
                parts.push(remaining);
                return parts;
            },
        }
    }
}

/// The dispatch table over the path's segments. Compatibility routes
/// are un-prefixed; the pod-aware routes sit under a version prefix
/// and `libpod`; everything else is proxied.
pub open spec fn route_table(m: Method, segs: Seq<Seq<char>>) -> Endpoint {
    if segs.len() == 1 {
        if m == Method::Get && segs[0] == "_ping"@ {
            Endpoint::Ping
        } else {
            Endpoint::Proxy
        }
    } else if segs.len() == 2 {
        if m == Method::Get && segs[0] == "containers"@ && segs[1] == "json"@ {
            Endpoint::ContainerList
        } else if m == Method::Post && segs[0] == "containers"@ && segs[1] == "create"@ {
            Endpoint::ContainerCreate
        } else if m == Method::Post && segs[0] == "images"@ && segs[1] == "create"@ {
            Endpoint::ImageCreate
        } else if m == Method::Get && segs[0] == "cri"@ && segs[1] == "_ping"@ {
            Endpoint::Ping
        } else if m == Method::Get && segs[0] == "cri"@ && segs[1] == "version"@ {
            Endpoint::Version
        } else {
            Endpoint::Proxy
        }
    } else if segs.len() == 3 {
        if segs[0] == "containers"@ && segs[1].len() > 0 {
            if m == Method::Get && segs[2] == "json"@ {
                Endpoint::ContainerInspect
            } else if m == Method::Post && segs[2] == "start"@ {
                Endpoint::ContainerStart
            } else if m == Method::Post && segs[2] == "stop"@ {
                Endpoint::ContainerStop
            } else {
                Endpoint::Proxy
            }
        } else {
            Endpoint::Proxy
        }
    } else if segs.len() == 4 && segs[0].len() > 0 && segs[1] == "libpod"@ {
        if segs[2] == "containers"@ {
            if m == Method::Get && segs[3] == "json"@ {
                Endpoint::ContainerListLibpod
            } else if m == Method::Post && segs[3] == "create"@ {
                Endpoint::ContainerCreateLibpod
            } else {
                Endpoint::Proxy
            }
        } else if segs[2] == "pods"@ {
            if m == Method::Get && segs[3] == "json"@ {
                Endpoint::PodList
            } else if m == Method::Post && segs[3] == "create"@ {
                Endpoint::PodCreate
            } else if m == Method::Delete && segs[3].len() > 0 {
                Endpoint::PodDelete
            } else {
                Endpoint::Proxy
            }
        } else {
            Endpoint::Proxy
        }
    } else if segs.len() == 5 && segs[0].len() > 0 && segs[1] == "libpod"@ && segs[2] == "pods"@
        && segs[3].len() > 0 {
        if m == Method::Post && segs[4] == "start"@ {
            Endpoint::PodStart
        } else if m == Method::Post && segs[4] == "stop"@ {
            Endpoint::PodStop
        } else {
            Endpoint::Proxy
        }
    } else {
        Endpoint::Proxy
    }
}

/// The endpoint a method and path dispatch to. A path that does not
/// open with `/` matches nothing.
pub open spec fn endpoint_spec(m: Method, path: Seq<char>) -> Endpoint {
    if path.len() == 0 || path[0] != '/' {
        Endpoint::Proxy
    } else {
        route_table(m, split_on(path.skip(1), '/'))
    }
}

/// The name segment a dispatch captures, for the endpoints that take
/// one.
pub open spec fn endpoint_param_spec(m: Method, path: Seq<char>) -> Option<Seq<char>> {
    if path.len() == 0 || path[0] != '/' {
        None
    } else {
        let segs = split_on(path.skip(1), '/');
        match route_table(m, segs) {
            Endpoint::ContainerInspect => Some(segs[1]),
            Endpoint::ContainerStart => Some(segs[1]),
            Endpoint::ContainerStop => Some(segs[1]),
            Endpoint::PodDelete => Some(segs[3]),
            Endpoint::PodStart => Some(segs[3]),
            Endpoint::PodStop => Some(segs[3]),
            _ => None,
        }
    }
}

/// The registered patterns, spelled out: one disjunct per route of
/// the table.
pub open spec fn matches_registered(m: Method, segs: Seq<Seq<char>>) -> bool {
    ||| (segs.len() == 1 && m == Method::Get && segs[0] == "_ping"@)
    ||| (segs.len() == 2 && m == Method::Get && segs[0] == "containers"@ && segs[1] == "json"@)
    ||| (segs.len() == 2 && m == Method::Post && segs[0] == "containers"@ && segs[1] == "create"@)
    ||| (segs.len() == 2 && m == Method::Post && segs[0] == "images"@ && segs[1] == "create"@)
    ||| (segs.len() == 2 && m == Method::Get && segs[0] == "cri"@ && segs[1] == "_ping"@)
    ||| (segs.len() == 2 && m == Method::Get && segs[0] == "cri"@ && segs[1] == "version"@)
    ||| (segs.len() == 3 && m == Method::Get && segs[0] == "containers"@ && segs[1].len() > 0
        && segs[2] == "json"@)
    ||| (segs.len() == 3 && m == Method::Post && segs[0] == "containers"@ && segs[1].len() > 0
        && segs[2] == "start"@)
    ||| (segs.len() == 3 && m == Method::Post && segs[0] == "containers"@ && segs[1].len() > 0
        && segs[2] == "stop"@)
    ||| (segs.len() == 4 && m == Method::Get && segs[0].len() > 0 && segs[1] == "libpod"@
        && segs[2] == "containers"@ && segs[3] == "json"@)
    ||| (segs.len() == 4 && m == Method::Post && segs[0].len() > 0 && segs[1] == "libpod"@
        && segs[2] == "containers"@ && segs[3] == "create"@)
    ||| (segs.len() == 4 && m == Method::Get && segs[0].len() > 0 && segs[1] == "libpod"@
        && segs[2] == "pods"@ && segs[3] == "json"@)
    ||| (segs.len() == 4 && m == Method::Post && segs[0].len() > 0 && segs[1] == "libpod"@
        && segs[2] == "pods"@ && segs[3] == "create"@)
    ||| (segs.len() == 4 && m == Method::Delete && segs[0].len() > 0 && segs[1] == "libpod"@
        && segs[2] == "pods"@ && segs[3].len() > 0)
    ||| (segs.len() == 5 && m == Method::Post && segs[0].len() > 0 && segs[1] == "libpod"@
        && segs[2] == "pods"@ && segs[3].len() > 0 && segs[4] == "start"@)
    ||| (segs.len() == 5 && m == Method::Post && segs[0].len() > 0 && segs[1] == "libpod"@
        && segs[2] == "pods"@ && segs[3].len() > 0 && segs[4] == "stop"@)
}

/// Law: the table sends a request to the reverse proxy exactly when
/// its method and segments match none of the registered patterns —
/// there is no other fallback, and no registered request is proxied.
pub proof fn lemma_unregistered_is_proxied(m: Method, segs: Seq<Seq<char>>)
    ensures
        route_table(m, segs) == Endpoint::Proxy <==> !matches_registered(m, segs),
{
    broadcast use vstd::string::group_string_axioms;

    reveal_strlit("_ping");
    reveal_strlit("containers");
    reveal_strlit("cri");
    reveal_strlit("json");
    reveal_strlit("create");
    reveal_strlit("version");
    reveal_strlit("start");
    reveal_strlit("stop");
    reveal_strlit("libpod");
    reveal_strlit("pods");
    reveal_strlit("images");
    assert("containers"@.len() == 10);
    assert("pods"@.len() == 4);
    assert("json"@.len() == 4);
    assert("create"@.len() == 6);
    assert("start"@.len() == 5);
    assert("stop"@.len() == 4);
    assert("containers"@ != "pods"@);
    assert("json"@ != "create"@);
    assert("start"@ != "stop"@);
}

/// Dispatches one request: the endpoint from the table, and the name
/// captured from the path where the endpoint takes one.
pub fn route(method: Method, path: &str) -> (r: RouteDecision)
    ensures
        r.endpoint == endpoint_spec(method, path@),
        match endpoint_param_spec(method, path@) {
            Some(p) => r.name matches Some(n) && n@ == p,
            None => r.name is None,
        },
{
    let n = path.unicode_len();
    if n == 0 || path.get_char(0) != '/' {
        return RouteDecision { endpoint: Endpoint::Proxy, name: None };
    }
    let tail = path.substring_char(1, n).to_owned();
    let segs = split_string(tail, '/');
    let ghost sv = split_on(path@.skip(1), '/');
    proof {
        assert(tail@ =~= path@.skip(1));
        assert(segs@.map_values(|x: String| x@) == sv);
        assert(forall|i: int|
            0 <= i < segs@.len() ==> (#[trigger] segs@[i])@ == sv[i]);
    }
    let count = segs.len();
    if count == 1 {
        if matches!(method, Method::Get) && str_eq(segs[0].as_str(), "_ping") {
            return RouteDecision { endpoint: Endpoint::Ping, name: None };
        }
    } else if count == 2 {
        let is_containers = str_eq(segs[0].as_str(), "containers");
        let is_cri = str_eq(segs[0].as_str(), "cri");
        let is_images = str_eq(segs[0].as_str(), "images");
        if matches!(method, Method::Get) && is_containers && str_eq(segs[1].as_str(), "json") {
            return RouteDecision { endpoint: Endpoint::ContainerList, name: None };
        }
        if matches!(method, Method::Post) && is_containers && str_eq(segs[1].as_str(), "create") {
            return RouteDecision { endpoint: Endpoint::ContainerCreate, name: None };
        }
        if matches!(method, Method::Post) && is_images && str_eq(segs[1].as_str(), "create") {
            return RouteDecision { endpoint: Endpoint::ImageCreate, name: None };
        }
        if matches!(method, Method::Get) && is_cri && str_eq(segs[1].as_str(), "_ping") {
            return RouteDecision { endpoint: Endpoint::Ping, name: None };
        }
        if matches!(method, Method::Get) && is_cri && str_eq(segs[1].as_str(), "version") {
            return RouteDecision { endpoint: Endpoint::Version, name: None };
        }
    } else if count == 3 {
        if str_eq(segs[0].as_str(), "containers") && segs[1].as_str().unicode_len() > 0 {
            if matches!(method, Method::Get) && str_eq(segs[2].as_str(), "json") {
                let name = segs[1].clone();
                return RouteDecision { endpoint: Endpoint::ContainerInspect, name: Some(name) };
            }
            if matches!(method, Method::Post) && str_eq(segs[2].as_str(), "start") {
                let name = segs[1].clone();
                return RouteDecision { endpoint: Endpoint::ContainerStart, name: Some(name) };
            }
            if matches!(method, Method::Post) && str_eq(segs[2].as_str(), "stop") {
                let name = segs[1].clone();
                return RouteDecision { endpoint: Endpoint::ContainerStop, name: Some(name) };
            }
        }
    } else if count == 4 {
        if segs[0].as_str().unicode_len() > 0 && str_eq(segs[1].as_str(), "libpod") {
            if str_eq(segs[2].as_str(), "containers") {
                if matches!(method, Method::Get) && str_eq(segs[3].as_str(), "json") {
                    return RouteDecision { endpoint: Endpoint::ContainerListLibpod, name: None };
                }
                if matches!(method, Method::Post) && str_eq(segs[3].as_str(), "create") {
                    return RouteDecision { endpoint: Endpoint::ContainerCreateLibpod, name: None };
                }
            } else if str_eq(segs[2].as_str(), "pods") {
                if matches!(method, Method::Get) && str_eq(segs[3].as_str(), "json") {
                    return RouteDecision { endpoint: Endpoint::PodList, name: None };
                }
                if matches!(method, Method::Post) && str_eq(segs[3].as_str(), "create") {
                    return RouteDecision { endpoint: Endpoint::PodCreate, name: None };
                }
                if matches!(method, Method::Delete) && segs[3].as_str().unicode_len() > 0 {
                    let name = segs[3].clone();
                    return RouteDecision { endpoint: Endpoint::PodDelete, name: Some(name) };
                }
            }
        }
    } else if count == 5 {
        if segs[0].as_str().unicode_len() > 0 && str_eq(segs[1].as_str(), "libpod") && str_eq(
            segs[2].as_str(),
            "pods",
        ) && segs[3].as_str().unicode_len() > 0 {
            if matches!(method, Method::Post) && str_eq(segs[4].as_str(), "start") {
                let name = segs[3].clone();
                return RouteDecision { endpoint: Endpoint::PodStart, name: Some(name) };
            }
            if matches!(method, Method::Post) && str_eq(segs[4].as_str(), "stop") {
                let name = segs[3].clone();
                return RouteDecision { endpoint: Endpoint::PodStop, name: Some(name) };
            }
        }
    }
    RouteDecision { endpoint: Endpoint::Proxy, name: None }
}

} // verus!
