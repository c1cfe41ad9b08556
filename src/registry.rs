//! The registry's endpoints and the media types that its documents are asked for in.
use vstd::prelude::*;
use vstd::string::*;

verus! {

/// The anonymous token service, up to the repository name.
pub const TOKEN_ENDPOINT: &'static str = "https://auth.docker.io/token?service=registry.docker.io&scope=repository:library/";

/// The scope suffix that asks for pull access.
pub const PULL_SCOPE: &'static str = ":pull";

/// The registry's repository root for official images.
pub const REPOSITORY_ROOT: &'static str = "https://registry.hub.docker.com/v2/library/";

/// The path segment that leads to a manifest.
pub const MANIFESTS: &'static str = "/manifests/";

/// The path segment that leads to a blob.
pub const BLOBS: &'static str = "/blobs/";

/// The media type of a multi-platform manifest list.
pub const INDEX_MEDIA_TYPE: &'static str = "application/vnd.docker.distribution.manifest.list.v2+json";

/// The media type of a single-platform image manifest.
pub const MANIFEST_MEDIA_TYPE: &'static str = "application/vnd.oci.image.manifest.v1+json";

/// Where a pull token for repository `name` is issued.
pub open spec fn token_url_of(name: Seq<char>) -> Seq<char> {
    TOKEN_ENDPOINT@ + name + PULL_SCOPE@
}

/// Where the manifest named by `reference` (a tag or a digest) of `name` lives.
pub open spec fn manifest_url_of(name: Seq<char>, reference: Seq<char>) -> Seq<char> {
    REPOSITORY_ROOT@ + name + MANIFESTS@ + reference
}

/// Where the blob `digest` of `name` lives.
pub open spec fn blob_url_of(name: Seq<char>, digest: Seq<char>) -> Seq<char> {
    REPOSITORY_ROOT@ + name + BLOBS@ + digest
}

/// The URL that issues a pull token for repository `name`.
pub fn token_url(name: &str) -> (r: String)
    ensures
        r@ == token_url_of(name@),
{
    let mut u = TOKEN_ENDPOINT.to_owned();
    u.append(name);
    u.append(PULL_SCOPE);
    u
}

/// The URL of the manifest `reference` (a tag or a digest) of repository `name`.
pub fn manifest_url(name: &str, reference: &str) -> (r: String)
    ensures
        r@ == manifest_url_of(name@, reference@),
{
    let mut u = REPOSITORY_ROOT.to_owned();
    u.append(name);
    u.append(MANIFESTS);
    u.append(reference);
    u
}

/// The URL of the blob `digest` of repository `name`.
pub fn blob_url(name: &str, digest: &str) -> (r: String)
    ensures
        r@ == blob_url_of(name@, digest@),
{
    let mut u = REPOSITORY_ROOT.to_owned();
    u.append(name);
    u.append(BLOBS);
    u.append(digest);
    u
}

} // verus!
