use podman_cri::error::unwrap_infallible;
use podman_cri::error::GatewayError;
use podman_cri::proxy::build_proxy_request;
use podman_cri::proxy::force_content_type;
use podman_cri::proxy::proxy_target;
use podman_cri::proxy::relay_response;
use podman_cri::router::route;
use podman_cri::router::split_string;
use podman_cri::router::Endpoint;
use podman_cri::router::Method;

#[test]
fn splits_paths_into_segments() {
    assert_eq!(
        split_string("containers/json".to_string(), '/'),
        vec!["containers".to_string(), "json".to_string()]
    );
    assert_eq!(split_string("".to_string(), '/'), vec!["".to_string()]);
    assert_eq!(
        split_string("a//b".to_string(), '/'),
        vec!["a".to_string(), "".to_string(), "b".to_string()]
    );
}

#[test]
fn compat_container_routes() {
    let r = route(Method::Get, "/containers/json");
    assert_eq!(r.endpoint, Endpoint::ContainerList);
    assert_eq!(r.name, None);
    let r = route(Method::Post, "/containers/create");
    assert_eq!(r.endpoint, Endpoint::ContainerCreate);
    let r = route(Method::Get, "/containers/c1/json");
    assert_eq!(r.endpoint, Endpoint::ContainerInspect);
    assert_eq!(r.name.as_deref(), Some("c1"));
    let r = route(Method::Post, "/containers/c1/start");
    assert_eq!(r.endpoint, Endpoint::ContainerStart);
    assert_eq!(r.name.as_deref(), Some("c1"));
    let r = route(Method::Post, "/containers/c1/stop");
    assert_eq!(r.endpoint, Endpoint::ContainerStop);
}

#[test]
fn image_create_is_translated() {
    assert_eq!(
        route(Method::Post, "/images/create").endpoint,
        Endpoint::ImageCreate
    );
    assert_eq!(
        route(Method::Get, "/images/create").endpoint,
        Endpoint::Proxy
    );
}

#[test]
fn ping_and_version_routes() {
    assert_eq!(route(Method::Get, "/_ping").endpoint, Endpoint::Ping);
    assert_eq!(route(Method::Get, "/cri/_ping").endpoint, Endpoint::Ping);
    assert_eq!(route(Method::Get, "/cri/version").endpoint, Endpoint::Version);
}

#[test]
fn libpod_routes_sit_under_a_version_prefix() {
    let r = route(Method::Get, "/v4.0.0/libpod/containers/json");
    assert_eq!(r.endpoint, Endpoint::ContainerListLibpod);
    let r = route(Method::Post, "/v4.0.0/libpod/containers/create");
    assert_eq!(r.endpoint, Endpoint::ContainerCreateLibpod);
    let r = route(Method::Get, "/v4.0.0/libpod/pods/json");
    assert_eq!(r.endpoint, Endpoint::PodList);
    let r = route(Method::Post, "/v4.0.0/libpod/pods/create");
    assert_eq!(r.endpoint, Endpoint::PodCreate);
    let r = route(Method::Post, "/v4.0.0/libpod/pods/mypod/start");
    assert_eq!(r.endpoint, Endpoint::PodStart);
    assert_eq!(r.name.as_deref(), Some("mypod"));
    let r = route(Method::Post, "/v4.0.0/libpod/pods/mypod/stop");
    assert_eq!(r.endpoint, Endpoint::PodStop);
    let r = route(Method::Delete, "/v4.0.0/libpod/pods/mypod");
    assert_eq!(r.endpoint, Endpoint::PodDelete);
    assert_eq!(r.name.as_deref(), Some("mypod"));
}

#[test]
fn unregistered_paths_are_proxied() {
    assert_eq!(route(Method::Post, "/build").endpoint, Endpoint::Proxy);
    assert_eq!(
        route(Method::Get, "/images/json").endpoint,
        Endpoint::Proxy
    );
    assert_eq!(route(Method::Get, "/events").endpoint, Endpoint::Proxy);
    assert_eq!(route(Method::Post, "/volumes").endpoint, Endpoint::Proxy);
    assert_eq!(
        route(Method::Get, "/v4.0.0/libpod/info").endpoint,
        Endpoint::Proxy
    );
    assert_eq!(
        route(Method::Get, "/v4.0.0/libpod/images/json").endpoint,
        Endpoint::Proxy
    );
    assert_eq!(
        route(Method::Get, "/some/unknown/path").endpoint,
        Endpoint::Proxy
    );
    assert_eq!(route(Method::Get, "/").endpoint, Endpoint::Proxy);
    assert_eq!(route(Method::Get, "").endpoint, Endpoint::Proxy);
    assert_eq!(
        route(Method::Get, "/containers/json/").endpoint,
        Endpoint::Proxy
    );
    assert_eq!(
        route(Method::Get, "/containers//json").endpoint,
        Endpoint::Proxy
    );
}

#[test]
fn method_mismatch_is_proxied() {
    assert_eq!(
        route(Method::Delete, "/containers/json").endpoint,
        Endpoint::Proxy
    );
    assert_eq!(
        route(Method::Get, "/containers/create").endpoint,
        Endpoint::Proxy
    );
    assert_eq!(
        route(Method::Put, "/v4.0.0/libpod/pods/json").endpoint,
        Endpoint::Proxy
    );
}

#[test]
fn forwarded_request_is_byte_identical() {
    let body = vec![1u8, 2, 3, 0, 255];
    let r = build_proxy_request(Method::Post, "/build?tag=x".to_string(), body.clone());
    assert_eq!(r.method, Method::Post);
    assert_eq!(r.path_and_query, "/build?tag=x");
    assert_eq!(r.body, body);
}

#[test]
fn relayed_response_is_byte_identical() {
    let body = vec![7u8, 8, 9];
    let r = relay_response(502, body.clone());
    assert_eq!(r.status, 502);
    assert_eq!(r.body, body);
}

#[test]
fn proxy_target_prefers_the_query_form() {
    assert_eq!(
        proxy_target("/a".to_string(), Some("/a?q=1".to_string())),
        "/a?q=1"
    );
    assert_eq!(proxy_target("/a".to_string(), None), "/a");
}

#[test]
fn content_type_is_forced_to_json() {
    let hs = vec![
        ("Accept".to_string(), "*/*".to_string()),
        ("Content-Type".to_string(), "text/plain".to_string()),
    ];
    let out = force_content_type(hs);
    assert_eq!(out.len(), 2);
    assert_eq!(out[0].0, "Accept");
    assert_eq!(out[1].0, "Content-Type");
    assert_eq!(out[1].1, "application/json");
}

#[test]
fn content_type_is_added_when_absent() {
    let out = force_content_type(Vec::new());
    assert_eq!(out.len(), 1);
    assert_eq!(out[0].0, "Content-Type");
    assert_eq!(out[0].1, "application/json");
}

#[test]
fn infallible_results_unwrap() {
    let r: Result<u32, std::convert::Infallible> = Ok(7);
    assert_eq!(unwrap_infallible(r), 7);
}

#[test]
fn errors_map_to_http_statuses() {
    assert_eq!(GatewayError::Translation("x".to_string()).http_status(), 400);
    assert_eq!(GatewayError::NotFound.http_status(), 404);
    assert_eq!(GatewayError::UpstreamRpc("x".to_string()).http_status(), 502);
    assert_eq!(
        GatewayError::UpstreamProxy("x".to_string()).http_status(),
        502
    );
    assert_eq!(GatewayError::NotFound.message(), "no such resource");
}
