//! Image handling: cleaning image references, the image listing, and
//! the resolution policy that decides between a local image and a
//! registry pull.

use vstd::prelude::*;

use crate::cri;
use crate::error::GatewayError;
use crate::podman;
use crate::strutil::first_index;
use crate::strutil::split_first;
use crate::strutil::str_eq;
use crate::strutil::str_starts_with;

verus! {

/// Whether a user-specified reference looks like a content digest:
/// it opens with the sha family prefix.
pub open spec fn looks_like_digest(s: Seq<char>) -> bool {
    seq!['s', 'h', 'a'].is_prefix_of(s)
}

/// Whether a reference segment names a content-digest algorithm: one
/// of the sha-family identifiers.
pub open spec fn names_digest_algorithm(p: Seq<char>) -> bool {
    ||| p == "sha1"@
    ||| p == "sha224"@
    ||| p == "sha256"@
    ||| p == "sha384"@
    ||| p == "sha512"@
}

/// Tests a reference segment against the digest-algorithm names.
pub fn is_digest_algorithm(p: &str) -> (r: bool)
    ensures
        r == names_digest_algorithm(p@),
{
    str_eq(p, "sha1") || str_eq(p, "sha224") || str_eq(p, "sha256") || str_eq(p, "sha384")
        || str_eq(p, "sha512")
}

/// What cleaning does to an image reference: when the segment before
/// the first `:` names a digest algorithm, only what follows the `:`
/// is kept; any other reference is returned unchanged.
pub open spec fn clean_image_spec(s: Seq<char>) -> Seq<char> {
    let i = first_index(s, ':');
    if i < s.len() && names_digest_algorithm(s.subrange(0, i)) {
        s.subrange(i + 1, s.len() as int)
    } else {
        s
    }
}

/// Cleans an image reference before it is placed into an image spec.
/// Some clients pass a stray content-digest prefix such as
/// `sha256:`; it is stripped exactly when the prefix segment names a
/// digest algorithm.
pub fn clean_image(image: String) -> (r: String)
    ensures
        r@ == clean_image_spec(image@),
{
    match split_first(image.as_str(), ':') {
        Some((before, after)) => {
            if is_digest_algorithm(before.as_str()) {
                after
            } else {
                image
            }
        },
        None => image,
    }
}

/// The content-digest portion of a repo digest entry: what follows
/// the first `@`, when there is one.
pub open spec fn digest_of(s: Seq<char>) -> Option<Seq<char>> {
    let i = first_index(s, '@');
    if i < s.len() {
        Some(s.subrange(i + 1, s.len() as int))
    } else {
        None
    }
}

/// Parses the content-digest portion out of one repo digest entry.
pub fn repo_digest_suffix(s: &str) -> (r: Option<String>)
    ensures
        match r {
            Some(d) => digest_of(s@) == Some(d@),
            None => digest_of(s@) is None,
        },
{
    match split_first(s, '@') {
        Some((_, after)) => Some(after),
        None => None,
    }
}

/// How an entry of the image listing is made from a CRI image: the
/// digest is parsed out of the first repo-digest entry when one is
/// there, and a size beyond the signed range is reported as zero.
pub open spec fn summary_rel(r: podman::ImageSummary, img: cri::Image) -> bool {
    &&& match r.digest {
        Some(d) => img.repo_digests@.len() > 0 && digest_of(img.repo_digests@[0]@) == Some(d@),
        None => img.repo_digests@.len() == 0 || digest_of(img.repo_digests@[0]@) is None,
    }
    &&& r.id == img.id
    &&& r.repo_tags == img.repo_tags
    &&& r.repo_digests == img.repo_digests
    &&& r.size == if img.size <= i64::MAX {
        img.size as int
    } else {
        0
    }
}

/// Maps one CRI image to the image listing shape.
pub fn image_to_summary(img: cri::Image) -> (r: podman::ImageSummary)
    ensures
        summary_rel(r, img),
{
    let digest = if img.repo_digests.len() > 0 {
        repo_digest_suffix(img.repo_digests[0].as_str())
    } else {
        None
    };
    let size: i64 = if img.size <= 0x7fff_ffff_ffff_ffffu64 {
        img.size as i64
    } else {
        0
    };
    podman::ImageSummary {
        digest,
        id: img.id,
        repo_tags: img.repo_tags,
        repo_digests: img.repo_digests,
        size,
    }
}

/// Maps a whole CRI image listing to the summary shape, keeping the
/// backend's order.
pub fn images_to_summaries(v: Vec<cri::Image>) -> (r: Vec<podman::ImageSummary>)
    ensures
        r@.len() == v@.len(),
        forall|i: int| 0 <= i < v@.len() ==> summary_rel(#[trigger] r@[i], v@[i]),
{
    let ghost orig = v@;
    let mut v = v;
    let mut r: Vec<podman::ImageSummary> = Vec::new();
    while v.len() > 0
        invariant
            r@.len() + v@.len() == orig.len(),
            v@ == orig.skip(r@.len() as int),
            forall|i: int| 0 <= i < r@.len() ==> summary_rel(#[trigger] r@[i], orig[i]),
        decreases v@.len(),
    {
        let ghost k = r@.len() as int;
        let c = v.remove(0);
        proof {
            assert(orig.skip(k)[0] == orig[k]);
            assert(orig.skip(k).remove(0) =~= orig.skip(k + 1));
        }
        r.push(image_to_summary(c));
    }
    r
}

/// The local-lookup outcome: the id of the first image the backend's
/// inventory matched, or a missing-image error.
pub fn local_image_result(images: Vec<cri::Image>) -> (r: Result<String, GatewayError>)
    ensures
        images@.len() > 0 ==> r == Ok::<String, GatewayError>(images@[0].id),
        images@.len() == 0 ==> r == Err::<String, GatewayError>(GatewayError::NotFound),
{
    let mut images = images;
    if images.len() > 0 {
        let first = images.remove(0);
        Ok(first.id)
    } else {
        Err(GatewayError::NotFound)
    }
}

/// The first step of image resolution: answer from the local
/// inventory, or go on to a registry pull.
#[derive(Debug, Clone, PartialEq)]
pub enum PullPlan {
    /// A local image satisfies the request; its id is the answer and
    /// no registry is contacted.
    UseLocal(String),
    /// A registry pull must be attempted.
    AttemptPull,
}

/// The resolution policy's first step: a request that names a
/// content digest and is already satisfied locally is answered
/// locally; every other request goes to the registry first.
pub open spec fn plan_pull_spec(user: Seq<char>, local: Result<String, GatewayError>) -> PullPlan {
    match local {
        Ok(id) => if looks_like_digest(user) {
            PullPlan::UseLocal(id)
        } else {
            PullPlan::AttemptPull
        },
        Err(_) => PullPlan::AttemptPull,
    }
}

/// Decides whether the request is answered from the local inventory
/// or a registry pull is attempted.
pub fn plan_pull(user_specified: &str, local: &Result<String, GatewayError>) -> (r: PullPlan)
    ensures
        r == plan_pull_spec(user_specified@, *local),
{
    let digest_like = str_starts_with(user_specified, "sha");
    proof {
        reveal_strlit("sha");
        assert("sha"@ =~= seq!['s', 'h', 'a']);
    }
    match local {
        Ok(id) => {
            if digest_like {
                PullPlan::UseLocal(id.clone())
            } else {
                PullPlan::AttemptPull
            }
        },
        Err(_) => PullPlan::AttemptPull,
    }
}

/// Law: a pull request whose user-specified reference names a content
/// digest is answered from the local inventory whenever the local
/// lookup succeeded, and the registry is not contacted; a request
/// whose reference does not name a digest always goes to the registry
/// first, whatever the local inventory holds.
pub proof fn lemma_pull_policy(user: Seq<char>, local: Result<String, GatewayError>)
    ensures
        local matches Ok(id) ==> (looks_like_digest(user) ==> plan_pull_spec(user, local)
            == PullPlan::UseLocal(id)),
        !looks_like_digest(user) ==> plan_pull_spec(user, local) == PullPlan::AttemptPull,
{
}

/// What a finished pull attempt resolves to: the pulled reference
/// when the pull succeeded, else the local image as a fallback, and
/// only when both paths failed the pull error itself.
pub open spec fn resolve_pull_spec(
    local: Result<String, GatewayError>,
    pull: Result<String, String>,
) -> Result<String, GatewayError> {
    match pull {
        Ok(id) => Ok(id),
        Err(m) => match local {
            Ok(id) => Ok(id),
            Err(_) => Err(GatewayError::UpstreamRpc(m)),
        },
    }
}

/// Resolves a finished pull attempt against the earlier local lookup.
pub fn resolve_pull_outcome(local: Result<String, GatewayError>, pull: Result<String, String>) -> (r:
    Result<String, GatewayError>)
    ensures
        r == resolve_pull_spec(local, pull),
{
    match pull {
        Ok(id) => Ok(id),
        Err(m) => match local {
            Ok(id) => Ok(id),
            Err(_) => Err(GatewayError::UpstreamRpc(m)),
        },
    }
}

/// Law: a failed pull falls back to the local image when one was
/// found, and surfaces the pull error exactly when both paths failed.
pub proof fn lemma_pull_fallback(local: Result<String, GatewayError>, pull: Result<String, String>)
    ensures
        pull matches Ok(id) ==> resolve_pull_spec(local, pull) == Ok::<String, GatewayError>(id),
        local matches Ok(id) ==> (pull is Err ==> resolve_pull_spec(local, pull) == Ok::<
            String,
            GatewayError,
        >(id)),
        pull matches Err(m) ==> (local is Err ==> resolve_pull_spec(local, pull) == Err::<
            String,
            GatewayError,
        >(GatewayError::UpstreamRpc(m))),
{
}

/// Sorts an image create call into its pull parameters. Building an
/// image from a source archive has no CRI mapping and fails fast; a
/// call naming neither an image nor a source is malformed.
pub fn image_create_params(q: podman::ImageCreateQuery) -> (r: Result<
    (String, String),
    GatewayError,
>)
    ensures
        match r {
            Ok(p) => q.from_image matches Some(img) && q.tag matches Some(t) && p == (img, t),
            Err(e) => e is Translation && (q.from_image is Some ==> q.tag is None),
        },
        r is Ok <==> q.from_image is Some && q.tag is Some,
{
    match q.from_image {
        Some(img) => match q.tag {
            Some(t) => Ok((img, t)),
            None => Err(GatewayError::Translation("missing image tag or digest".to_owned())),
        },
        None => match q.from_src {
            Some(_) => Err(
                GatewayError::Translation("building an image from a source is not supported".to_owned()),
            ),
            None => Err(GatewayError::Translation("missing param from_image or from_src".to_owned())),
        },
    }
}

} // verus!
