use vstd::prelude::*;

verus! {

/// The claim class reported when the evidence names none.
pub open spec fn default_tee_class_spec() -> Seq<char> {
    "cpu"@
}

/// Where the registry keeps per-component cache directories unless told otherwise.
pub open spec fn default_component_cache_base_dir_spec() -> Seq<char> {
    ".wasm-verification-component-cache/components"@
}

/// The cache directory handed to a component run when no options are given.
pub open spec fn default_verify_cache_dir_spec() -> Seq<char> {
    ".wasm-verification-component-cache"@
}

/// The directory `name` inside `base`: `name` itself under an empty base, and
/// otherwise `base` and `name` with one `/` between them.
pub open spec fn path_join(base: Seq<char>, name: Seq<char>) -> Seq<char> {
    if base.len() == 0 {
        name
    } else if base.last() == '/' {
        base + name
    } else {
        base + seq!['/'] + name
    }
}

/// The claim class reported when the evidence names none: `cpu`.
pub fn default_tee_class() -> (class: String)
    ensures
        class@ == default_tee_class_spec(),
{
    String::from_str("cpu")
}

/// The default base directory of the component caches.
pub fn default_component_cache_base_dir() -> (dir: String)
    ensures
        dir@ == default_component_cache_base_dir_spec(),
{
    String::from_str(".wasm-verification-component-cache/components")
}

/// The path of `name` inside the directory `base`.
pub fn join_path(base: &str, name: &str) -> (path: String)
    ensures
        path@ == path_join(base@, name@),
{
    let n = base.unicode_len();
    let mut path = String::from_str(base);
    if n == 0 {
        return String::from_str(name);
    }
    if base.get_char(n - 1) != '/' {
        path.append("/");
        proof {
            reveal_strlit("/");
        }
    }
    path.append(name);
    path
}

/// How the component registry behaves: whether components must carry a valid
/// `wasmsign2` signature, and where their cache directories live.
#[derive(Debug)]
pub struct ComponentRegistryConfig {
    pub verify_component_signature: bool,
    pub component_cache_base_dir: String,
}

impl ComponentRegistryConfig {
    /// A copy of this configuration.
    pub fn duplicate(&self) -> (copy: Self)
        ensures
            copy == *self,
    {
        ComponentRegistryConfig {
            verify_component_signature: self.verify_component_signature,
            component_cache_base_dir: self.component_cache_base_dir.clone(),
        }
    }
}

impl Clone for ComponentRegistryConfig {
    fn clone(&self) -> (copy: Self)
        ensures
            copy == *self,
    {
        self.duplicate()
    }
}

impl Default for ComponentRegistryConfig {
    /// Signatures are not checked, and caches live under the default base directory.
    fn default() -> (config: Self)
        ensures
            !config.verify_component_signature,
            config.component_cache_base_dir@ == default_component_cache_base_dir_spec(),
    {
        ComponentRegistryConfig {
            verify_component_signature: false,
            component_cache_base_dir: default_component_cache_base_dir(),
        }
    }
}

/// Options for one run of a verifier component: the directory it sees as
/// `cache/`, and the PCCS URL that TDX verifiers are given.
#[derive(Debug)]
pub struct VerifyOptions {
    pub cache_dir: String,
    pub pccs_url: Option<String>,
}

impl Clone for VerifyOptions {
    fn clone(&self) -> (copy: Self)
        ensures
            copy == *self,
    {
        let pccs_url = match &self.pccs_url {
            Some(url) => Some(url.clone()),
            None => None,
        };
        VerifyOptions { cache_dir: self.cache_dir.clone(), pccs_url }
    }
}

impl Default for VerifyOptions {
    /// The default cache directory and no PCCS URL.
    fn default() -> (options: Self)
        ensures
            options.cache_dir@ == default_verify_cache_dir_spec(),
            options.pccs_url is None,
    {
        VerifyOptions {
            cache_dir: String::from_str(".wasm-verification-component-cache"),
            pccs_url: None,
        }
    }
}

} // verus!
