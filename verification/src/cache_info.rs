//! How each cache location is reported: its description and whether it may
//! be deleted without asking. The caller checks that a location exists and
//! measures it.
use vstd::prelude::*;
use crate::package_manager::{
    AndroidSdkManager, CacheInfo, CargoManager, GitLfsManager, GoModulesManager, GradleManager,
    JetBrainsManager, VsCodeManager, NpmManager, NugetManager, PipManager, PnpmManager,
    PoetryManager, YarnManager,
};
use crate::path::{file_name, file_name_of, push_path, push_path_str};
use crate::path_order::{ends_with_path, path_ends_with};
use crate::text::{contains_seq, push_str, str_contains, to_owned};

verus! {

/// A cache location with its size, description and whether it may be
/// deleted.
pub open spec fn reported(
    info: CacheInfo,
    path: Seq<char>,
    size: u64,
    description: Seq<char>,
    can_delete: bool,
) -> bool {
    &&& info.path@ == path
    &&& info.size_bytes == size
    &&& info.description@ == description
    &&& info.can_delete == can_delete
}

/// The name of the last component, or nothing.
pub open spec fn name_or_empty(path: Seq<char>) -> Seq<char> {
    match file_name(path) {
        Some(n) => n,
        None => Seq::empty(),
    }
}

/// A deletable cache described as `prefix` followed by its folder's name.
fn named_cache(prefix: &str, path: &str, size: u64) -> (r: CacheInfo)
    ensures
        reported(r, path@, size, prefix@ + name_or_empty(path@), true),
{
    let mut d = to_owned(prefix);
    match file_name_of(path) {
        Some(n) => {
            push_str(&mut d, n.as_str());
        },
        None => {
            assert(d@ =~= prefix@ + Seq::<char>::empty());
        },
    }
    CacheInfo { path: to_owned(path), size_bytes: size, description: d, can_delete: true }
}

/// A cache location with a fixed description.
fn fixed_cache(path: &str, size: u64, description: &str, can_delete: bool) -> (r: CacheInfo)
    ensures
        reported(r, path@, size, description@, can_delete),
{
    CacheInfo { path: to_owned(path), size_bytes: size, description: to_owned(description), can_delete }
}

impl PnpmManager {
    /// How a pnpm cache is reported.
    pub fn cache_info(path: &str, size: u64) -> (r: CacheInfo)
        ensures
            reported(r, path@, size, "pnpm cache: "@ + name_or_empty(path@), true),
    {
        named_cache("pnpm cache: ", path, size)
    }
}

impl PoetryManager {
    /// How a Poetry cache is reported.
    pub fn cache_info(path: &str, size: u64) -> (r: CacheInfo)
        ensures
            reported(r, path@, size, "Poetry cache: "@ + name_or_empty(path@), true),
    {
        named_cache("Poetry cache: ", path, size)
    }
}

impl YarnManager {
    /// How a Yarn cache is reported.
    pub fn cache_info(path: &str, size: u64) -> (r: CacheInfo)
        ensures
            reported(r, path@, size, "Yarn cache: "@ + name_or_empty(path@), true),
    {
        named_cache("Yarn cache: ", path, size)
    }
}

impl GoModulesManager {
    /// How a Go modules cache is reported.
    pub fn cache_info(path: &str, size: u64) -> (r: CacheInfo)
        ensures
            reported(r, path@, size, "Go modules cache: "@ + name_or_empty(path@), true),
    {
        named_cache("Go modules cache: ", path, size)
    }
}

/// The description of one of NuGet's global caches, by the folder's name.
pub open spec fn nuget_global_description(path: Seq<char>) -> Seq<char> {
    if path_ends_with(path, "v3-cache"@) {
        "NuGet v3 cache"@
    } else if path_ends_with(path, "packages"@) {
        "NuGet packages"@
    } else if path_ends_with(path, "FallbackCache"@) {
        "NuGet fallback cache"@
    } else if contains_seq(path, "dotnet"@) {
        ".NET package cache"@
    } else if path_ends_with(path, "plugins-cache"@) {
        "NuGet plugin cache"@
    } else {
        "NuGet cache"@
    }
}

impl NugetManager {
    /// How one of NuGet's global caches is reported: the global packages
    /// folder is never deleted without asking.
    pub fn global_cache_info(path: &str, size: u64) -> (r: CacheInfo)
        ensures
            reported(r, path@, size, nuget_global_description(path@), !path_ends_with(path@, "packages"@)),
    {
        let packages = ends_with_path(path, "packages");
        let description = if ends_with_path(path, "v3-cache") {
            "NuGet v3 cache"
        } else if packages {
            "NuGet packages"
        } else if ends_with_path(path, "FallbackCache") {
            "NuGet fallback cache"
        } else if str_contains(path, "dotnet") {
            ".NET package cache"
        } else if ends_with_path(path, "plugins-cache") {
            "NuGet plugin cache"
        } else {
            "NuGet cache"
        };
        fixed_cache(path, size, description, !packages)
    }

    /// How a project's packages or build output is reported: never deleted
    /// without asking.
    pub fn project_cache_info(path: &str, size: u64) -> (r: CacheInfo)
        ensures
            reported(
                r,
                path@,
                size,
                if path_ends_with(path@, "packages"@) {
                    "Project packages"@
                } else {
                    "Project build artifacts"@
                },
                false,
            ),
    {
        let description = if ends_with_path(path, "packages") {
            "Project packages"
        } else {
            "Project build artifacts"
        };
        fixed_cache(path, size, description, false)
    }
}

/// The kinds of Cargo cache.
#[derive(Debug, Clone, Copy, PartialEq, Eq, Structural)]
pub enum CargoCache {
    /// The downloaded crates.
    Registry,
    /// The git checkouts.
    Git,
    /// A build folder.
    Target,
}

impl CargoManager {
    /// How a Cargo cache is reported: build folders are never deleted
    /// without asking.
    pub fn cache_info(kind: CargoCache, path: &str, size: u64) -> (r: CacheInfo)
        ensures
            reported(
                r,
                path@,
                size,
                match kind {
                    CargoCache::Registry => "Cargo registry cache"@,
                    CargoCache::Git => "Cargo git cache"@,
                    CargoCache::Target => "Cargo build artifacts"@,
                },
                kind != CargoCache::Target,
            ),
    {
        match kind {
            CargoCache::Registry => fixed_cache(path, size, "Cargo registry cache", true),
            CargoCache::Git => fixed_cache(path, size, "Cargo git cache", true),
            CargoCache::Target => fixed_cache(path, size, "Cargo build artifacts", false),
        }
    }
}

/// The kinds of npm cache.
#[derive(Debug, Clone, Copy, PartialEq, Eq, Structural)]
pub enum NpmCache {
    /// The download cache.
    Cache,
    /// The globally installed modules.
    GlobalModules,
    /// The logs.
    Logs,
}

impl NpmManager {
    /// How an npm cache is reported; all may be deleted.
    pub fn cache_info(kind: NpmCache, path: &str, size: u64) -> (r: CacheInfo)
        ensures
            reported(
                r,
                path@,
                size,
                match kind {
                    NpmCache::Cache => "npm cache directory"@,
                    NpmCache::GlobalModules => "npm global modules"@,
                    NpmCache::Logs => "npm logs"@,
                },
                true,
            ),
    {
        match kind {
            NpmCache::Cache => fixed_cache(path, size, "npm cache directory", true),
            NpmCache::GlobalModules => fixed_cache(path, size, "npm global modules", true),
            NpmCache::Logs => fixed_cache(path, size, "npm logs", true),
        }
    }
}

/// The kinds of pip cache.
#[derive(Debug, Clone, Copy, PartialEq, Eq, Structural)]
pub enum PipCache {
    /// The cache folder.
    Cache,
    /// The HTTP cache inside it.
    Http,
    /// The built wheels inside it.
    Wheels,
}

impl PipManager {
    /// Where a kind of pip cache is, given the cache folder.
    pub fn cache_location(kind: PipCache, cache: &str) -> (r: String)
        ensures
            r@ == match kind {
                PipCache::Cache => cache@,
                PipCache::Http => push_path(cache@, "http"@),
                PipCache::Wheels => push_path(cache@, "wheels"@),
            },
    {
        match kind {
            PipCache::Cache => to_owned(cache),
            PipCache::Http => push_path_str(cache, "http"),
            PipCache::Wheels => push_path_str(cache, "wheels"),
        }
    }

    /// How a pip cache is reported; all may be deleted.
    pub fn cache_info(kind: PipCache, path: &str, size: u64) -> (r: CacheInfo)
        ensures
            reported(
                r,
                path@,
                size,
                match kind {
                    PipCache::Cache => "pip cache directory"@,
                    PipCache::Http => "pip HTTP cache"@,
                    PipCache::Wheels => "pip wheels cache"@,
                },
                true,
            ),
    {
        match kind {
            PipCache::Cache => fixed_cache(path, size, "pip cache directory", true),
            PipCache::Http => fixed_cache(path, size, "pip HTTP cache", true),
            PipCache::Wheels => fixed_cache(path, size, "pip wheels cache", true),
        }
    }
}

impl GitLfsManager {
    /// How Git LFS's object store is reported: it is cleaned only through
    /// `git lfs prune`, never deleted directly.
    pub fn cache_info(path: &str, size: u64) -> (r: CacheInfo)
        ensures
            reported(r, path@, size, "Git LFS object store (use `git lfs prune` to clean)"@, false),
    {
        fixed_cache(path, size, "Git LFS object store (use `git lfs prune` to clean)", false)
    }
}

impl AndroidSdkManager {
    /// How the SDK's build tools are reported: never deleted without asking.
    pub fn build_tools_info(path: &str, size: u64) -> (r: CacheInfo)
        ensures
            reported(r, path@, size, "Android SDK build-tools"@, false),
    {
        fixed_cache(path, size, "Android SDK build-tools", false)
    }

    /// How the SDK's download cache is reported.
    pub fn download_cache_info(path: &str, size: u64) -> (r: CacheInfo)
        ensures
            reported(r, path@, size, "Android SDK cache (~/.android/cache)"@, true),
    {
        fixed_cache(path, size, "Android SDK cache (~/.android/cache)", true)
    }

    /// How the snapshots of the emulator image `avd_name` are reported.
    pub fn snapshots_info(path: &str, avd_name: &str, size: u64) -> (r: CacheInfo)
        ensures
            reported(r, path@, size, "AVD snapshots: "@ + avd_name@, true),
    {
        let mut d = to_owned("AVD snapshots: ");
        push_str(&mut d, avd_name);
        CacheInfo { path: to_owned(path), size_bytes: size, description: d, can_delete: true }
    }
}

impl JetBrainsManager {
    /// How a JetBrains cache folder is reported: a folder named `log` holds
    /// logs.
    pub fn cache_info(path: &str, size: u64) -> (r: CacheInfo)
        ensures
            reported(
                r,
                path@,
                size,
                if file_name(path@) == Some("log"@) { "JetBrains logs"@ } else { "JetBrains cache"@ },
                true,
            ),
    {
        let logs = match file_name_of(path) {
            Some(n) => crate::text::str_eq(n.as_str(), "log"),
            None => false,
        };
        if logs {
            fixed_cache(path, size, "JetBrains logs", true)
        } else {
            fixed_cache(path, size, "JetBrains cache", true)
        }
    }
}

impl VsCodeManager {
    /// How a VS Code cache folder is reported: a folder named `logs` holds
    /// logs.
    pub fn cache_info(path: &str, size: u64) -> (r: CacheInfo)
        ensures
            reported(
                r,
                path@,
                size,
                if file_name(path@) == Some("logs"@) { "VS Code logs"@ } else { "VS Code cache"@ },
                true,
            ),
    {
        let logs = match file_name_of(path) {
            Some(n) => crate::text::str_eq(n.as_str(), "logs"),
            None => false,
        };
        if logs {
            fixed_cache(path, size, "VS Code logs", true)
        } else {
            fixed_cache(path, size, "VS Code cache", true)
        }
    }
}

impl GradleManager {
    /// The folders under Gradle's home that are reported, with their
    /// descriptions, in order.
    pub fn cache_descriptions() -> (r: Vec<(&'static str, &'static str)>)
        ensures
            r@.len() == 4,
            r@[0].0@ == "caches"@ && r@[0].1@ == "Gradle dependency & build caches"@,
            r@[1].0@ == "daemon"@ && r@[1].1@ == "Gradle daemon log files"@,
            r@[2].0@ == "wrapper/dists"@ && r@[2].1@ == "Gradle wrapper distributions"@,
            r@[3].0@ == "build-scan-data"@ && r@[3].1@ == "Gradle build scan data"@,
    {
        vec![
            ("caches", "Gradle dependency & build caches"),
            ("daemon", "Gradle daemon log files"),
            ("wrapper/dists", "Gradle wrapper distributions"),
            ("build-scan-data", "Gradle build scan data"),
        ]
    }

    /// How one of Gradle's folders is reported: `rel` under Gradle's home,
    /// described as given.
    pub fn cache_info(gradle_home: &str, rel: &str, description: &str, size: u64) -> (r: CacheInfo)
        ensures
            reported(r, push_path(gradle_home@, rel@), size, description@, true),
    {
        let p = push_path_str(gradle_home, rel);
        fixed_cache(p.as_str(), size, description, true)
    }
}

} // verus!
