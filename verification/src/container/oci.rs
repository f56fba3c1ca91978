//! The OCI runtime interface: image references, the image model and the
//! image store layout, for compatibility with Docker and Podman images.
use vstd::prelude::*;
use crate::text;

verus! {

/// The OCI runtime.
pub struct OCIRuntime;

/// Why an OCI operation failed.
#[derive(Debug, PartialEq, Eq, Structural)]
pub enum OciError {
    /// Pulling from a registry is not available.
    PullNotImplemented,
}

#[derive(Debug, Clone)]
pub struct OCIImage {
    pub manifest: OCIManifest,
    pub config: OCIConfig,
    pub layers: Vec<OCILayer>,
}

#[derive(Debug, Clone)]
pub struct OCIManifest {
    pub schema_version: i32,
    pub media_type: String,
    pub config: OCIDescriptor,
    pub layers: Vec<OCIDescriptor>,
}

#[derive(Debug, Clone)]
pub struct OCIDescriptor {
    pub media_type: String,
    pub digest: String,
    pub size: i64,
}

#[derive(Debug, Clone)]
pub struct OCIConfig {
    pub created: Option<String>,
    pub architecture: String,
    pub os: String,
    pub config: OCIConfigInner,
    pub rootfs: OCIRootFS,
    pub history: Vec<OCIHistory>,
}

#[derive(Debug, Clone)]
pub struct OCIConfigInner {
    pub env: Option<Vec<String>>,
    pub cmd: Option<Vec<String>>,
    pub entrypoint: Option<Vec<String>>,
    pub working_dir: Option<String>,
    pub user: Option<String>,
}

#[derive(Debug, Clone)]
pub struct OCIRootFS {
    pub type_: String,
    pub diff_ids: Vec<String>,
}

#[derive(Debug, Clone)]
pub struct OCIHistory {
    pub created: Option<String>,
    pub created_by: Option<String>,
    pub comment: Option<String>,
}

#[derive(Debug, Clone)]
pub struct OCILayer {
    pub data: Vec<u8>,
    pub digest: String,
    pub media_type: String,
}

/// The OCI runtime spec of a container, field by field.
#[derive(Debug, Clone)]
pub struct RuntimeSpec {
    pub oci_version: String,
    pub root_path: String,
    pub hostname: String,
    pub args: Vec<String>,
    pub env: Vec<String>,
    pub cwd: String,
    pub bounding: Vec<String>,
    pub effective: Vec<String>,
    pub permitted: Vec<String>,
    pub namespaces: Vec<String>,
}

/// The runtime spec for configuration `c`: OCI version 1.0.2, the rootfs
/// as root, the hostname, PID 1 as the only argument, the configured
/// environment and work directory, every capability in each set, and
/// PID, mount, network, UTS and IPC namespaces.
pub open spec fn runtime_spec_for(c: crate::Config, r: RuntimeSpec) -> bool {
    &&& r.oci_version@ == "1.0.2"@
    &&& r.root_path@ == c.runtime.rootfs@
    &&& r.hostname@ == c.runtime.hostname@
    &&& text::views(r.args@) == seq![c.engine.pid1@]
    &&& text::views(r.env@) == text::views(c.runtime.env@)
    &&& r.cwd@ == c.runtime.workdir@
    &&& text::views(r.bounding@) == seq!["CAP_ALL"@]
    &&& text::views(r.effective@) == seq!["CAP_ALL"@]
    &&& text::views(r.permitted@) == seq!["CAP_ALL"@]
    &&& text::views(r.namespaces@) == seq!["pid"@, "mount"@, "network"@, "uts"@, "ipc"@]
}

fn one_string(s: &str) -> (r: Vec<String>)
    ensures
        text::views(r@) == seq![s@],
{
    let mut v: Vec<String> = Vec::new();
    v.push(text::owned(s));
    assert(text::views(v@) =~= seq![s@]);
    v
}

/// The image store: a directory of image descriptions.
pub struct ImageStore {
    pub store_path: String,
}

/// Registry, repository and tag of an image reference. Without a '/', the
/// reference is a repository on docker.io; otherwise the registry is what
/// precedes the first '/', and the rest splits at its first ':' into
/// repository and tag, the tag being "latest" when there is no ':'.
pub open spec fn image_ref_parts(r: Seq<char>) -> (Seq<char>, Seq<char>, Seq<char>) {
    match text::first_index_of(r, '/') {
        Some(i) => {
            let rest = r.skip(i + 1);
            match text::first_index_of(rest, ':') {
                Some(j) => (r.take(i), rest.take(j), rest.skip(j + 1)),
                None => (r.take(i), rest, "latest"@),
            }
        },
        None => ("docker.io"@, r, "latest"@),
    }
}

/// The name of the image described by store file `f`: store files end in
/// ".json", and the name is what precedes every trailing ".json".
pub open spec fn stripped_json(f: Seq<char>) -> Seq<char>
    decreases f.len(),
{
    if text::has_suffix(f, ".json"@) && f.len() >= 5 {
        stripped_json(f.take(f.len() - 5))
    } else {
        f
    }
}

impl OCIRuntime {
    pub fn new() -> (r: Self) {
        Self
    }

    /// Pull an image from a registry: the reference is read, but no registry
    /// client exists yet, so the pull fails.
    pub fn pull_image(&self, image_ref: &str) -> (r: Result<OCIImage, OciError>)
        ensures
            r == Err::<OCIImage, OciError>(OciError::PullNotImplemented),
    {
        let _parts = Self::parse_image_ref(image_ref);
        Err(OciError::PullNotImplemented)
    }

    /// Split an image reference into registry, repository and tag.
    pub fn parse_image_ref(image_ref: &str) -> (r: Result<(String, String, String), OciError>)
        ensures
            r matches Ok((registry, repo, tag)) && (registry@, repo@, tag@) == image_ref_parts(
                image_ref@,
            ),
    {
        let n = image_ref.unicode_len();
        match text::find_char(image_ref, '/') {
            Some(i) => {
                let registry = text::substring(image_ref, 0, i);
                let rest = text::substring(image_ref, i + 1, n);
                assert(registry@ =~= image_ref@.take(i as int));
                assert(rest@ =~= image_ref@.skip(i + 1));
                let m = rest.as_str().unicode_len();
                match text::find_char(rest.as_str(), ':') {
                    Some(j) => {
                        let repo = text::substring(rest.as_str(), 0, j);
                        let tag = text::substring(rest.as_str(), j + 1, m);
                        assert(repo@ =~= rest@.take(j as int));
                        assert(tag@ =~= rest@.skip(j + 1));
                        Ok((registry, repo, tag))
                    },
                    None => Ok((registry, rest, text::owned("latest"))),
                }
            },
            None => Ok((text::owned("docker.io"), text::owned(image_ref), text::owned("latest"))),
        }
    }

    /// The OCI runtime spec of a container run with `config`.
    pub fn runtime_spec(&self, config: &crate::Config) -> (r: RuntimeSpec)
        ensures
            runtime_spec_for(*config, r),
    {
        let mut namespaces: Vec<String> = Vec::new();
        namespaces.push(text::owned("pid"));
        namespaces.push(text::owned("mount"));
        namespaces.push(text::owned("network"));
        namespaces.push(text::owned("uts"));
        namespaces.push(text::owned("ipc"));
        assert(text::views(namespaces@) =~= seq!["pid"@, "mount"@, "network"@, "uts"@, "ipc"@]);
        RuntimeSpec {
            oci_version: text::owned("1.0.2"),
            root_path: text::owned(config.runtime.rootfs.as_str()),
            hostname: text::owned(config.runtime.hostname.as_str()),
            args: one_string(config.engine.pid1.as_str()),
            env: text::copy_strings(&config.runtime.env),
            cwd: text::owned(config.runtime.workdir.as_str()),
            bounding: one_string("CAP_ALL"),
            effective: one_string("CAP_ALL"),
            permitted: one_string("CAP_ALL"),
            namespaces,
        }
    }

    /// Where layer `index` of an image is unpacked under `target`.
    pub fn layer_path(target: &str, index: u64) -> (r: String)
        ensures
            r@ == target@ + "/.layers/"@ + text::decimal(index as nat),
    {
        let mut p = text::concat(target, "/.layers/");
        text::append_decimal(&mut p, index);
        p
    }
}

impl ImageStore {
    pub fn new(path: &str) -> (r: Self)
        ensures
            r.store_path@ == path@,
    {
        Self { store_path: text::owned(path) }
    }

    /// The file that describes image `name`.
    pub fn image_path(&self, name: &str) -> (r: String)
        ensures
            r@ == self.store_path@ + "/"@ + name@ + ".json"@,
    {
        let mut p = text::concat3(self.store_path.as_str(), "/", name);
        p.append(".json");
        p
    }

    /// The image that store file `file_name` describes: files ending in
    /// ".json" describe the image named by the rest; other files none.
    pub fn image_name(file_name: &str) -> (r: Option<String>)
        ensures
            match r {
                Some(n) => text::has_suffix(file_name@, ".json"@) && n@ == stripped_json(file_name@),
                None => !text::has_suffix(file_name@, ".json"@),
            },
    {
        if !text::ends_with(file_name, ".json") {
            return None;
        }
        let mut cur = text::owned(file_name);
        proof {
            reveal_strlit(".json");
        }
        loop
            invariant
                stripped_json(cur@) == stripped_json(file_name@),
                text::has_suffix(file_name@, ".json"@),
            decreases cur@.len(),
        {
            let n = cur.as_str().unicode_len();
            if n >= 5 && text::ends_with(cur.as_str(), ".json") {
                let shorter = text::substring(cur.as_str(), 0, n - 5);
                assert(shorter@ =~= cur@.take(cur@.len() - 5));
                cur = shorter;
            } else {
                assert(stripped_json(cur@) == cur@);
                return Some(cur);
            }
        }
    }
}

/// An image reference with a registry is recovered from its parts: the
/// registry holds no '/', the repository no ':', and registry, '/',
/// repository and, when the reference names a tag, ':' and the tag, put
/// back together, give the reference.
pub proof fn law_image_ref_round_trip(r: Seq<char>)
    requires
        r.contains('/'),
    ensures
        ({
            let (registry, repo, tag) = image_ref_parts(r);
            &&& !registry.contains('/')
            &&& !repo.contains(':')
            &&& if r.skip(registry.len() as int + 1).contains(':') {
                r == registry + seq!['/'] + repo + seq![':'] + tag
            } else {
                r == registry + seq!['/'] + repo && tag == "latest"@
            }
        }),
{
    text::lemma_first_index_of(r, '/');
    let i = text::first_index_of(r, '/')->0;
    let rest = r.skip(i + 1);
    text::lemma_first_index_of(rest, ':');
    let (registry, repo, tag) = image_ref_parts(r);
    assert(registry =~= r.take(i));
    assert(!registry.contains('/')) by {
        if registry.contains('/') {
            let k = choose|k: int| 0 <= k < registry.len() && registry[k] == '/';
            assert(r[k] == '/');
        }
    }
    match text::first_index_of(rest, ':') {
        Some(j) => {
            assert(!repo.contains(':')) by {
                if repo.contains(':') {
                    let k = choose|k: int| 0 <= k < repo.len() && repo[k] == ':';
                    assert(rest[k] == ':');
                }
            }
            assert(rest.contains(':')) by { assert(rest[j] == ':'); }
            assert(r =~= registry + seq!['/'] + repo + seq![':'] + tag);
        },
        None => {
            assert(!rest.contains(':'));
            assert(r =~= registry + seq!['/'] + repo);
        },
    }
}

/// The image store lists exactly the ".json" files, and a name is never
/// left ending in ".json".
pub proof fn law_image_names_drop_suffix(f: Seq<char>)
    ensures
        !text::has_suffix(stripped_json(f), ".json"@),
    decreases f.len(),
{
    reveal_strlit(".json");
    if text::has_suffix(f, ".json"@) && f.len() >= 5 {
        law_image_names_drop_suffix(f.take(f.len() - 5));
    }
}

} // verus!
