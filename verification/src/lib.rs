//! A translation gateway between a Podman-style REST surface and the
//! Container Runtime Interface (CRI).
//!
//! The library holds the verified core of the gateway: the router that
//! decides, per method and path, whether a request is translated into a
//! CRI call or reverse-proxied to a real Podman daemon; the mapping
//! functions between the Podman-shaped resource model and the CRI
//! resource model; and the request-independent policies (image
//! resolution, default pod-sandbox synthesis, partial-failure
//! aggregation). The transport around it — Unix sockets, HTTP, gRPC —
//! is unverified plumbing and lives outside the library.

pub mod containers;
pub mod create;
pub mod cri;
pub mod error;
pub mod ids;
pub mod images;
pub mod podman;
pub mod pods;
pub mod proxy;
pub mod router;
pub mod states;
pub mod strutil;
