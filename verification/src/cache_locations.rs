//! Where the remaining cache managers look for their caches. Each function
//! takes what the environment, the `PATH` search and the file system said
//! (variables, command output, whether a candidate exists) and decides.
use vstd::prelude::*;
use crate::package_manager::{
    chromium_cache_dirs, home_string, home_text, texts, CargoManager, ChromeManager, EdgeManager,
    FirefoxManager, GoBuildCacheManager, SbtManager, VcpkgManager,
};
use crate::package_manager::PkgError;
use crate::path::{parent_of, parent_text, push_path, push_path_str};
use crate::path_order::{contains_path, list_contains_path, sorted_unique_of, sorted_unique_paths};
use crate::docker::{find_char, index_of_char};
use crate::package_manager::{
    conda_env_pkgs_dirs, first_existing_from, AndroidSdkManager, BunManager, ConanManager, CondaManager,
    CypressManager, FlutterManager, GoModulesManager, PipManager, PnpmManager, PoetryManager,
    YarnManager,
    GitLfsManager, GradleManager, JetBrainsManager, NpmManager, NugetManager, PlaywrightManager,
    UvManager, VsCodeManager,
};
use crate::text::{
    chars_of, copy_range, has_prefix, lines_chars, lines_of, starts_with, str_trim, string_of, to_owned,
    trim, trim_chars, views,
};
use crate::wsl::opt_text;

verus! {

/// The paths marked as existing, in order: `exists[i]` says whether
/// `paths[i]` exists.
pub open spec fn existing_only(paths: Seq<Seq<char>>, exists: Seq<bool>) -> Seq<Seq<char>>
    decreases paths.len(),
{
    if paths.len() == 0 {
        Seq::empty()
    } else {
        let k = paths.len() - 1;
        let rest = existing_only(paths.drop_last(), exists);
        if k < exists.len() && exists[k] {
            rest.push(paths.last())
        } else {
            rest
        }
    }
}

/// Keep the paths that exist (`Vec::retain` with `Path::exists`).
pub fn keep_existing(paths: &[String], exists: &[bool]) -> (r: Vec<String>)
    ensures
        texts(r@) == existing_only(texts(paths@), exists@),
{
    let ghost all = texts(paths@);
    let mut out: Vec<String> = Vec::new();
    let mut i: usize = 0;
    assert(all.subrange(0, 0) =~= Seq::<Seq<char>>::empty());
    while i < paths.len()
        invariant
            i <= paths@.len(),
            all == texts(paths@),
            texts(out@) == existing_only(all.subrange(0, i as int), exists@),
        decreases paths@.len() - i,
    {
        let ghost before = out@;
        assert(all.subrange(0, i + 1).drop_last() =~= all.subrange(0, i as int));
        assert(all.subrange(0, i + 1).last() == paths@[i as int]@);
        if i < exists.len() && exists[i] {
            out.push(paths[i].clone());
            assert(texts(out@) =~= texts(before).push(paths@[i as int]@));
        }
        i += 1;
    }
    assert(all.subrange(0, all.len() as int) =~= all);
    out
}

impl SbtManager {
    /// The sbt cache manager.
    pub fn new() -> Self {
        SbtManager
    }

    /// Ivy's cache: `cache` under `IVY_HOME`, else `.ivy2\cache` under the
    /// home directory.
    pub fn ivy_cache(env_ivy_home: Option<&str>, home: Option<&str>) -> (r: String)
        ensures
            r@ == match env_ivy_home {
                Some(e) => push_path(e@, "cache"@),
                None => push_path(push_path(home_text(home), ".ivy2"@), "cache"@),
            },
    {
        match env_ivy_home {
            Some(e) => push_path_str(e, "cache"),
            None => {
                let h = home_string(home);
                let a = push_path_str(h.as_str(), ".ivy2");
                push_path_str(a.as_str(), "cache")
            },
        }
    }

    /// Coursier's cache under the local application data folder.
    pub fn local_coursier_cache(local_app_data: &str) -> (r: String)
        ensures
            r@ == push_path(push_path(push_path(local_app_data@, "Coursier"@), "cache"@), "v1"@),
    {
        let a = push_path_str(local_app_data, "Coursier");
        let b = push_path_str(a.as_str(), "cache");
        push_path_str(b.as_str(), "v1")
    }

    /// Coursier's cache: `COURSIER_CACHE`, else `Coursier\cache\v1` under
    /// `LOCALAPPDATA` when it exists, else `.cache\coursier\v1` under the
    /// home directory.
    pub fn coursier_cache(
        env_cache: Option<&str>,
        local_app_data: Option<&str>,
        local_cache_exists: bool,
        home: Option<&str>,
    ) -> (r: String)
        ensures
            r@ == match env_cache {
                Some(e) => e@,
                None => if local_app_data is Some && local_cache_exists {
                    push_path(push_path(push_path(local_app_data.unwrap()@, "Coursier"@), "cache"@), "v1"@)
                } else {
                    push_path(push_path(push_path(home_text(home), ".cache"@), "coursier"@), "v1"@)
                },
            },
    {
        match env_cache {
            Some(e) => {
                return to_owned(e);
            },
            None => {},
        }
        match local_app_data {
            Some(l) => {
                if local_cache_exists {
                    return Self::local_coursier_cache(l);
                }
            },
            None => {},
        }
        let h = home_string(home);
        let a = push_path_str(h.as_str(), ".cache");
        let b = push_path_str(a.as_str(), "coursier");
        push_path_str(b.as_str(), "v1")
    }

    /// The places sbt's caches may be, in order: Ivy's cache, Coursier's
    /// cache and `boot` under sbt's home. The caller keeps those that exist.
    pub fn cache_path_candidates(ivy_cache: &str, coursier_cache: &str, sbt_home: &str) -> (r: Vec<String>)
        ensures
            texts(r@) == seq![ivy_cache@, coursier_cache@, push_path(sbt_home@, "boot"@)],
    {
        let mut v: Vec<String> = Vec::new();
        v.push(to_owned(ivy_cache));
        v.push(to_owned(coursier_cache));
        v.push(push_path_str(sbt_home, "boot"));
        assert(texts(v@) =~= seq![ivy_cache@, coursier_cache@, push_path(sbt_home@, "boot"@)]);
        v
    }
}

impl VcpkgManager {
    /// The vcpkg cache manager.
    pub fn new() -> Self {
        VcpkgManager
    }

    /// Where vcpkg is commonly installed.
    pub fn root_candidates() -> (r: Vec<&'static str>)
        ensures
            r@ == seq![r"C:\vcpkg", r"C:\src\vcpkg", r"C:\tools\vcpkg"],
    {
        vec![r"C:\vcpkg", r"C:\src\vcpkg", r"C:\tools\vcpkg"]
    }

    /// vcpkg's root: `VCPKG_ROOT` when it exists, else the first of the
    /// common install folders that exists (`defaults_exist[i]` for the
    /// `i`th of `root_candidates`), else `vcpkg` under the home directory
    /// when it exists.
    pub fn vcpkg_root(
        env_root: Option<&str>,
        env_root_exists: bool,
        defaults_exist: &[bool],
        home: Option<&str>,
        home_vcpkg_exists: bool,
    ) -> (r: Option<String>)
        ensures
            opt_text(r) == (if env_root is Some && env_root_exists {
                Some(env_root.unwrap()@)
            } else if defaults_exist@.len() > 0 && defaults_exist@[0] {
                Some(r"C:\vcpkg"@)
            } else if defaults_exist@.len() > 1 && defaults_exist@[1] {
                Some(r"C:\src\vcpkg"@)
            } else if defaults_exist@.len() > 2 && defaults_exist@[2] {
                Some(r"C:\tools\vcpkg"@)
            } else if home_vcpkg_exists {
                Some(push_path(home_text(home), "vcpkg"@))
            } else {
                None
            }),
    {
        match env_root {
            Some(e) => {
                if env_root_exists {
                    return Some(to_owned(e));
                }
            },
            None => {},
        }
        if defaults_exist.len() > 0 && defaults_exist[0] {
            return Some(to_owned(r"C:\vcpkg"));
        }
        if defaults_exist.len() > 1 && defaults_exist[1] {
            return Some(to_owned(r"C:\src\vcpkg"));
        }
        if defaults_exist.len() > 2 && defaults_exist[2] {
            return Some(to_owned(r"C:\tools\vcpkg"));
        }
        if home_vcpkg_exists {
            let h = home_string(home);
            Some(push_path_str(h.as_str(), "vcpkg"))
        } else {
            None
        }
    }

    /// The default binary cache: `vcpkg\archives` under `LOCALAPPDATA`, else
    /// `.vcpkg\archives` under the home directory.
    pub fn default_binary_cache(local_app_data: Option<&str>, home: Option<&str>) -> (r: String)
        ensures
            r@ == match local_app_data {
                Some(l) => push_path(push_path(l@, "vcpkg"@), "archives"@),
                None => push_path(push_path(home_text(home), ".vcpkg"@), "archives"@),
            },
    {
        match local_app_data {
            Some(l) => {
                let a = push_path_str(l, "vcpkg");
                push_path_str(a.as_str(), "archives")
            },
            None => {
                let h = home_string(home);
                let a = push_path_str(h.as_str(), ".vcpkg");
                push_path_str(a.as_str(), "archives")
            },
        }
    }

    /// The places vcpkg's caches may be, in order: the binary cache, then,
    /// with a root, its `buildtrees` and `packages`. The caller keeps those
    /// that exist.
    pub fn cache_path_candidates(binary_cache: &str, root: Option<&str>) -> (r: Vec<String>)
        ensures
            texts(r@) == match root {
                Some(t) => seq![binary_cache@, push_path(t@, "buildtrees"@), push_path(t@, "packages"@)],
                None => seq![binary_cache@],
            },
    {
        let mut v: Vec<String> = Vec::new();
        v.push(to_owned(binary_cache));
        match root {
            Some(t) => {
                v.push(push_path_str(t, "buildtrees"));
                v.push(push_path_str(t, "packages"));
                assert(texts(v@) =~= seq![binary_cache@, push_path(t@, "buildtrees"@), push_path(t@, "packages"@)]);
            },
            None => {
                assert(texts(v@) =~= seq![binary_cache@]);
            },
        }
        v
    }
}

impl GoBuildCacheManager {
    /// The Go build cache manager.
    pub fn new() -> Self {
        GoBuildCacheManager
    }

    /// `GOCACHE`: the path printed by `go env GOCACHE` (trimmed) when that
    /// command succeeded and the path exists, else `go-build` under
    /// `LOCALAPPDATA` when it exists, else `.cache\go-build` under the home
    /// directory.
    pub fn resolve_cache_dir(
        go_env_output: Option<&str>,
        go_env_path_exists: bool,
        local_app_data: Option<&str>,
        local_cache_exists: bool,
        home: Option<&str>,
    ) -> (r: String)
        ensures
            r@ == (if go_env_output is Some && go_env_path_exists {
                trim(go_env_output.unwrap()@)
            } else if local_app_data is Some && local_cache_exists {
                push_path(local_app_data.unwrap()@, "go-build"@)
            } else {
                push_path(push_path(home_text(home), ".cache"@), "go-build"@)
            }),
    {
        match go_env_output {
            Some(o) => {
                if go_env_path_exists {
                    return str_trim(o);
                }
            },
            None => {},
        }
        match local_app_data {
            Some(l) => {
                if local_cache_exists {
                    return push_path_str(l, "go-build");
                }
            },
            None => {},
        }
        let h = home_string(home);
        let a = push_path_str(h.as_str(), ".cache");
        push_path_str(a.as_str(), "go-build")
    }
}

/// `target` under each of the paths.
pub open spec fn targets_of(dirs: Seq<Seq<char>>) -> Seq<Seq<char>> {
    dirs.map_values(|d: Seq<char>| push_path(d, "target"@))
}

/// How many of the working directory's ancestors are searched for a
/// `target` folder.
pub open spec fn searched_ancestors(n: nat) -> nat {
    if n < 5 { n } else { 5 }
}

impl CargoManager {
    /// The build folders Cargo may have left: `target` under Cargo's home,
    /// then `target` under each of the first five of `ancestors` (the
    /// working directory and its parents, nearest first) where it exists
    /// (`target_exists[i]` for the `i`th ancestor).
    pub fn target_paths(cargo_home: &str, ancestors: &[String], target_exists: &[bool]) -> (r: Vec<String>)
        ensures
            texts(r@) == seq![push_path(cargo_home@, "target"@)] + existing_only(
                targets_of(texts(ancestors@).take(searched_ancestors(ancestors@.len()) as int)),
                target_exists@,
            ),
    {
        let n: usize = if ancestors.len() < 5 { ancestors.len() } else { 5 };
        let ghost dirs = texts(ancestors@).take(n as int);
        let mut candidates: Vec<String> = Vec::new();
        let mut i: usize = 0;
        while i < n
            invariant
                i <= n,
                n <= ancestors@.len(),
                n == searched_ancestors(ancestors@.len()),
                dirs == texts(ancestors@).take(n as int),
                texts(candidates@) == targets_of(dirs.take(i as int)),
            decreases n - i,
        {
            let ghost before = candidates@;
            candidates.push(push_path_str(ancestors[i].as_str(), "target"));
            assert(dirs.take(i + 1) =~= dirs.take(i as int).push(ancestors@[i as int]@));
            assert(texts(candidates@) =~= texts(before).push(push_path(ancestors@[i as int]@, "target"@)));
            assert(targets_of(dirs.take(i + 1)) =~= targets_of(dirs.take(i as int)).push(
                push_path(ancestors@[i as int]@, "target"@),
            ));
            i += 1;
        }
        assert(dirs.take(n as int) =~= dirs);
        let found = keep_existing(&candidates, target_exists);
        let mut r: Vec<String> = Vec::new();
        r.push(push_path_str(cargo_home, "target"));
        let mut j: usize = 0;
        while j < found.len()
            invariant
                j <= found@.len(),
                texts(r@) == seq![push_path(cargo_home@, "target"@)] + texts(found@).take(j as int),
            decreases found@.len() - j,
        {
            let ghost before = r@;
            r.push(found[j].clone());
            assert(texts(found@).take(j + 1) =~= texts(found@).take(j as int).push(found@[j as int]@));
            assert(texts(r@) =~= texts(before).push(found@[j as int]@));
            j += 1;
        }
        assert(texts(found@).take(found@.len() as int) =~= texts(found@));
        r
    }

    /// The Cargo executable: the one set on the manager, else the one found
    /// on the `PATH` (`cargo.exe`, else `cargo`).
    pub fn cargo_executable(&self, on_path: Option<String>) -> (r: Result<String, PkgError>)
        ensures
            match self.path() {
                Some(p) => r matches Ok(s) && s@ == p@,
                None => match on_path {
                    Some(f) => r matches Ok(s) && s@ == f@,
                    None => r == Err::<String, PkgError>(PkgError::ExecutableNotFound),
                },
            },
    {
        match self.configured_path() {
            Some(p) => Ok(p),
            None => match on_path {
                Some(f) => Ok(f),
                None => Err(PkgError::ExecutableNotFound),
            },
        }
    }
}

/// The local caches followed by each roaming cache that is not the same
/// path as one already listed.
pub open spec fn merged_caches(local: Seq<Seq<char>>, roaming: Seq<Seq<char>>) -> Seq<Seq<char>>
    decreases roaming.len(),
{
    if roaming.len() == 0 {
        local
    } else {
        let before = merged_caches(local, roaming.drop_last());
        if contains_path(before, roaming.last()) {
            before
        } else {
            before.push(roaming.last())
        }
    }
}

/// The cache folders looked for in a Chromium browser profile, in order.
pub fn chromium_profile_candidates(profile: &str) -> (r: Vec<String>)
    ensures
        texts(r@) == seq![
            push_path(profile@, "Cache"@),
            push_path(profile@, "Cache2"@),
            push_path(profile@, "Code Cache"@),
            push_path(profile@, "GPUCache"@),
            push_path(profile@, "ShaderCache"@),
            push_path(profile@, "JumpListIcons"@),
            push_path(profile@, "JumpListIconsOld"@),
        ],
{
    let names = chromium_cache_dirs();
    let ghost expected = seq![
        push_path(profile@, "Cache"@),
        push_path(profile@, "Cache2"@),
        push_path(profile@, "Code Cache"@),
        push_path(profile@, "GPUCache"@),
        push_path(profile@, "ShaderCache"@),
        push_path(profile@, "JumpListIcons"@),
        push_path(profile@, "JumpListIconsOld"@),
    ];
    let mut r: Vec<String> = Vec::new();
    let mut i: usize = 0;
    while i < names.len()
        invariant
            i <= names@.len(),
            names@ == seq!["Cache", "Cache2", "Code Cache", "GPUCache", "ShaderCache", "JumpListIcons", "JumpListIconsOld"],
            expected.len() == names@.len(),
            forall|k: int| 0 <= k < names@.len() ==> expected[k] == push_path(profile@, (#[trigger] names@[k])@),
            texts(r@) == expected.take(i as int),
        decreases names@.len() - i,
    {
        let ghost before = r@;
        r.push(push_path_str(profile, names[i]));
        assert(expected.take(i + 1) =~= expected.take(i as int).push(expected[i as int]));
        assert(texts(r@) =~= texts(before).push(push_path(profile@, names@[i as int]@)));
        i += 1;
    }
    assert(expected.take(7) =~= expected);
    r
}

impl ChromeManager {
    /// The Chrome cache manager.
    pub fn new() -> Self {
        ChromeManager
    }

    /// Chrome's profile folder under the parent of the local application
    /// data folder.
    pub fn user_data_under(appdata: &str) -> (r: String)
        ensures
            r@ == push_path(push_path(push_path(push_path(appdata@, "Local"@), "Google"@), "Chrome"@), "User Data"@),
    {
        let a = push_path_str(appdata, "Local");
        let b = push_path_str(a.as_str(), "Google");
        let c = push_path_str(b.as_str(), "Chrome");
        push_path_str(c.as_str(), "User Data")
    }
}

impl EdgeManager {
    /// The Edge cache manager.
    pub fn new() -> Self {
        EdgeManager
    }

    /// Edge's profile folder under the parent of the local application
    /// data folder.
    pub fn user_data_under(appdata: &str) -> (r: String)
        ensures
            r@ == push_path(push_path(push_path(push_path(appdata@, "Local"@), "Microsoft"@), "Edge"@), "User Data"@),
    {
        let a = push_path_str(appdata, "Local");
        let b = push_path_str(a.as_str(), "Microsoft");
        let c = push_path_str(b.as_str(), "Edge");
        push_path_str(c.as_str(), "User Data")
    }
}

impl FirefoxManager {
    /// The Firefox cache manager.
    pub fn new() -> Self {
        FirefoxManager
    }

    /// Firefox's profiles folder under the parent of the local application
    /// data folder.
    pub fn local_profiles_under(appdata: &str) -> (r: String)
        ensures
            r@ == push_path(push_path(push_path(push_path(appdata@, "Local"@), "Mozilla"@), "Firefox"@), "Profiles"@),
    {
        let a = push_path_str(appdata, "Local");
        let b = push_path_str(a.as_str(), "Mozilla");
        let c = push_path_str(b.as_str(), "Firefox");
        push_path_str(c.as_str(), "Profiles")
    }

    /// Firefox's roaming profiles folder under the configuration folder.
    pub fn roaming_profiles_under(config: &str) -> (r: String)
        ensures
            r@ == push_path(push_path(push_path(config@, "Mozilla"@), "Firefox"@), "Profiles"@),
    {
        let a = push_path_str(config, "Mozilla");
        let b = push_path_str(a.as_str(), "Firefox");
        push_path_str(b.as_str(), "Profiles")
    }

    /// The cache folder of a profile.
    pub fn profile_cache(profile: &str) -> (r: String)
        ensures
            r@ == push_path(profile@, "cache2"@),
    {
        push_path_str(profile, "cache2")
    }

    /// The caches found in local profiles, then those found in roaming
    /// profiles that are not already listed.
    pub fn merge_profile_caches(local: &[String], roaming: &[String]) -> (r: Vec<String>)
        ensures
            texts(r@) == merged_caches(texts(local@), texts(roaming@)),
    {
        let mut out: Vec<String> = Vec::new();
        let mut i: usize = 0;
        while i < local.len()
            invariant
                i <= local@.len(),
                texts(out@) == texts(local@).take(i as int),
            decreases local@.len() - i,
        {
            let ghost before = out@;
            out.push(local[i].clone());
            assert(texts(local@).take(i + 1) =~= texts(local@).take(i as int).push(local@[i as int]@));
            assert(texts(out@) =~= texts(before).push(local@[i as int]@));
            i += 1;
        }
        assert(texts(local@).take(local@.len() as int) =~= texts(local@));
        let mut j: usize = 0;
        while j < roaming.len()
            invariant
                j <= roaming@.len(),
                texts(out@) == merged_caches(texts(local@), texts(roaming@).take(j as int)),
            decreases roaming@.len() - j,
        {
            let ghost rs = texts(roaming@).take(j + 1);
            assert(rs.drop_last() =~= texts(roaming@).take(j as int));
            assert(rs.last() == roaming@[j as int]@);
            if !list_contains_path(&out, roaming[j].as_str()) {
                let ghost before = out@;
                out.push(roaming[j].clone());
                assert(texts(out@) =~= texts(before).push(roaming@[j as int]@));
            }
            j += 1;
        }
        assert(texts(roaming@).take(roaming@.len() as int) =~= texts(roaming@));
        out
    }
}

/// The object store that one line of `git lfs env` names: for a line that
/// starts with `LocalWorkingDir` or `LFS_OBJECT_STORE` and holds a `=`,
/// `objects` under the trimmed text after the first `=`.
pub open spec fn lfs_env_store(line: Seq<char>) -> Option<Seq<char>> {
    if has_prefix(line, "LocalWorkingDir"@) || has_prefix(line, "LFS_OBJECT_STORE"@) {
        match index_of_char(line, '=') {
            Some(i) => Some(push_path(trim(line.subrange(i + 1 as int, line.len() as int)), "objects"@)),
            None => None,
        }
    } else {
        None
    }
}

/// The object stores that the lines name, in order.
pub open spec fn lfs_env_stores(lines: Seq<Seq<char>>) -> Seq<Seq<char>>
    decreases lines.len(),
{
    if lines.len() == 0 {
        Seq::empty()
    } else {
        let rest = lfs_env_stores(lines.drop_last());
        match lfs_env_store(lines.last()) {
            Some(p) => rest.push(p),
            None => rest,
        }
    }
}

/// The object store one line of `git lfs env` names.
fn lfs_line_store(line: &Vec<char>) -> (r: Option<String>)
    ensures
        opt_text(r) == lfs_env_store(line@),
{
    let a = chars_of("LocalWorkingDir");
    let b = chars_of("LFS_OBJECT_STORE");
    if !(starts_with(line, &a) || starts_with(line, &b)) {
        return None;
    }
    let found = find_char(line, '=');
    match found {
        Some(i) => {
            let n = line.len();
            assert(i < n);
            let rest = copy_range(line, i + 1, n);
            let t = string_of(&trim_chars(&rest));
            Some(push_path_str(t.as_str(), "objects"))
        },
        None => None,
    }
}

impl GitLfsManager {
    /// The object store that `git config --get lfs.storage` printed:
    /// `objects` under the trimmed output, unless that is empty.
    pub fn storage_objects(config_output: &str) -> (r: Option<String>)
        ensures
            opt_text(r) == (if trim(config_output@).len() == 0 {
                None
            } else {
                Some(push_path(trim(config_output@), "objects"@))
            }),
    {
        let t = trim_chars(&chars_of(config_output));
        if t.len() == 0 {
            None
        } else {
            let ts = string_of(&t);
            Some(push_path_str(ts.as_str(), "objects"))
        }
    }

    /// The object stores that the output of `git lfs env` names, in order.
    pub fn env_object_stores(output: &str) -> (r: Vec<String>)
        ensures
            texts(r@) == lfs_env_stores(lines_of(output@)),
    {
        let lines = lines_chars(&chars_of(output));
        let ghost ls = views(lines@);
        let mut out: Vec<String> = Vec::new();
        let mut i: usize = 0;
        assert(ls.take(0) =~= Seq::<Seq<char>>::empty());
        while i < lines.len()
            invariant
                i <= lines@.len(),
                ls == views(lines@),
                ls == lines_of(output@),
                texts(out@) == lfs_env_stores(ls.take(i as int)),
            decreases lines@.len() - i,
        {
            assert(ls.take(i + 1).drop_last() =~= ls.take(i as int));
            assert(ls.take(i + 1).last() == lines@[i as int]@);
            match lfs_line_store(&lines[i]) {
                Some(p) => {
                    let ghost before = out@;
                    out.push(p);
                    assert(texts(out@) =~= texts(before).push(out@.last()@));
                },
                None => {},
            }
            i += 1;
        }
        assert(ls.take(ls.len() as int) =~= ls);
        out
    }

    /// Where Git LFS keeps its objects: the `lfs.storage` store when it
    /// exists, else the first store named by `git lfs env` that exists
    /// (`env_exists[i]` for the `i`th), else the usual folder when it
    /// exists, else nowhere.
    pub fn select_cache_paths(
        storage: Option<&str>,
        storage_exists: bool,
        env_stores: &[String],
        env_exists: &[bool],
        fallback: &str,
        fallback_exists: bool,
    ) -> (r: Vec<String>)
        ensures
            texts(r@) == (if storage is Some && storage_exists {
                seq![storage.unwrap()@]
            } else {
                match first_existing_from(env_stores@, env_exists@, 0) {
                    Some(p) => seq![p],
                    None => if fallback_exists {
                        seq![fallback@]
                    } else {
                        Seq::empty()
                    },
                }
            }),
    {
        let mut v: Vec<String> = Vec::new();
        match storage {
            Some(s) => {
                if storage_exists {
                    v.push(to_owned(s));
                    assert(texts(v@) =~= seq![s@]);
                    return v;
                }
            },
            None => {},
        }
        match crate::package_manager::first_existing(env_stores, env_exists) {
            Some(p) => {
                v.push(p);
                assert(texts(v@) =~= seq![v@[0]@]);
                v
            },
            None => {
                if fallback_exists {
                    v.push(to_owned(fallback));
                    assert(texts(v@) =~= seq![fallback@]);
                } else {
                    assert(texts(v@) =~= Seq::<Seq<char>>::empty());
                }
                v
            },
        }
    }
}

impl AndroidSdkManager {
    /// The Android SDK cache manager.
    pub fn new() -> Self {
        AndroidSdkManager
    }

    /// The places the SDK's caches may be, in order: with an SDK root, its
    /// `.gradle` and `build-tools`; then `.android\cache` under the home
    /// directory. The caller keeps those that exist, then adds the
    /// snapshots of each emulator image.
    pub fn cache_path_candidates(sdk_root: Option<&str>, home: Option<&str>) -> (r: Vec<String>)
        ensures
            texts(r@) == match sdk_root {
                Some(s) => seq![push_path(s@, ".gradle"@), push_path(s@, "build-tools"@)],
                None => Seq::<Seq<char>>::empty(),
            } + seq![push_path(push_path(home_text(home), ".android"@), "cache"@)],
    {
        let mut v: Vec<String> = Vec::new();
        match sdk_root {
            Some(s) => {
                v.push(push_path_str(s, ".gradle"));
                v.push(push_path_str(s, "build-tools"));
            },
            None => {},
        }
        let h = home_string(home);
        let a = push_path_str(h.as_str(), ".android");
        let ghost before = v@;
        v.push(push_path_str(a.as_str(), "cache"));
        assert(texts(v@) =~= texts(before).push(push_path(push_path(home_text(home), ".android"@), "cache"@)));
        proof {
            match sdk_root {
                Some(s) => {
                    assert(texts(before) =~= seq![push_path(s@, ".gradle"@), push_path(s@, "build-tools"@)]);
                },
                None => {
                    assert(texts(before) =~= Seq::<Seq<char>>::empty());
                },
            }
        }
        assert(texts(v@) =~= match sdk_root {
            Some(s) => seq![push_path(s@, ".gradle"@), push_path(s@, "build-tools"@)],
            None => Seq::<Seq<char>>::empty(),
        } + seq![push_path(push_path(home_text(home), ".android"@), "cache"@)]);
        v
    }

    /// The snapshots folder of an emulator image.
    pub fn snapshots_dir(avd: &str) -> (r: String)
        ensures
            r@ == push_path(avd@, "snapshots"@),
    {
        push_path_str(avd, "snapshots")
    }
}

impl BunManager {
    /// The Bun cache manager.
    pub fn new() -> Self {
        BunManager
    }
}

impl ConanManager {
    /// The Conan cache manager.
    pub fn new() -> Self {
        ConanManager
    }
}

impl CypressManager {
    /// The Cypress cache manager.
    pub fn new() -> Self {
        CypressManager
    }
}

impl FlutterManager {
    /// The Flutter cache manager.
    pub fn new() -> Self {
        FlutterManager
    }
}

impl GitLfsManager {
    /// The Git LFS cache manager.
    pub fn new() -> Self {
        GitLfsManager
    }
}

impl GradleManager {
    /// The Gradle cache manager.
    pub fn new() -> Self {
        GradleManager
    }
}

impl JetBrainsManager {
    /// The JetBrains IDE cache manager.
    pub fn new() -> Self {
        JetBrainsManager
    }
}

impl NugetManager {
    /// The NuGet cache manager.
    pub fn new() -> Self {
        NugetManager
    }
}

impl PlaywrightManager {
    /// The Playwright cache manager.
    pub fn new() -> Self {
        PlaywrightManager
    }
}

impl UvManager {
    /// The uv cache manager.
    pub fn new() -> Self {
        UvManager
    }
}

impl VsCodeManager {
    /// The VS Code cache manager.
    pub fn new() -> Self {
        VsCodeManager
    }
}

/// `shellexpand::full`, with the empty text when a variable it names is
/// unset. It replaces `$NAME`, `${NAME}` and a leading `~` with values from
/// the environment and the home directory, so what comes back depends on
/// them; the clause states only that text with no `$` that does not start
/// with `~` comes back unchanged.
#[verifier::external_body]
pub(crate) fn shell_expand(input: &str) -> (r: String)
    ensures
        !input@.contains('$') && !(input@.len() > 0 && input@[0] == '~') ==> r@ == input@,
{
    shellexpand::full(input).unwrap_or_default().into_owned()
}

/// The text holds no `$` and does not start with `~`.
pub open spec fn plain_text(s: Seq<char>) -> bool {
    !s.contains('$') && !(s.len() > 0 && s[0] == '~')
}

/// Expand the candidate locations, each with `shell_expand`.
fn expand_all(candidates: &Vec<&str>) -> (r: Vec<String>)
    ensures
        r@.len() == candidates@.len(),
        forall|i: int| 0 <= i < candidates@.len() && plain_text(#[trigger] candidates@[i]@) ==> r@[i]@ == candidates@[i]@,
{
    let mut out: Vec<String> = Vec::new();
    let mut i: usize = 0;
    while i < candidates.len()
        invariant
            i <= candidates@.len(),
            out@.len() == i,
            forall|k: int| 0 <= k < i && plain_text(#[trigger] candidates@[k]@) ==> out@[k]@ == candidates@[k]@,
        decreases candidates@.len() - i,
    {
        out.push(shell_expand(candidates[i]));
        i += 1;
    }
    out
}

impl NpmManager {
    /// Where npm is commonly installed, expanded as the shell would.
    pub fn install_locations() -> (r: Vec<String>)
        ensures
            texts(r@) == seq![
                r"C:\Program Files\nodejs\npm.cmd"@,
                r"C:\Program Files (x86)\nodejs\npm.cmd"@,
                r"%APPDATA%\npm\npm.cmd"@,
            ],
    {
        let c = vec![r"C:\Program Files\nodejs\npm.cmd", r"C:\Program Files (x86)\nodejs\npm.cmd", r"%APPDATA%\npm\npm.cmd"];
        proof {
            reveal_strlit(r"C:\Program Files\nodejs\npm.cmd");
            reveal_strlit(r"C:\Program Files (x86)\nodejs\npm.cmd");
            reveal_strlit(r"%APPDATA%\npm\npm.cmd");
            assert(plain_text(c@[0]@));
            assert(plain_text(c@[1]@));
            assert(plain_text(c@[2]@));
        }
        let r = expand_all(&c);
        assert(texts(r@) =~= seq![
            r"C:\Program Files\nodejs\npm.cmd"@,
            r"C:\Program Files (x86)\nodejs\npm.cmd"@,
            r"%APPDATA%\npm\npm.cmd"@,
        ]);
        r
    }
}

impl NugetManager {
    /// Where NuGet or .NET is commonly installed, expanded as the shell would.
    pub fn install_locations() -> (r: Vec<String>)
        ensures
            texts(r@) == seq![
                r"C:\Program Files\NuGet\nuget.exe"@,
                r"C:\Program Files (x86)\NuGet\nuget.exe"@,
                r"%LOCALAPPDATA%\Microsoft\dotnet\dotnet.exe"@,
            ],
    {
        let c = vec![
            r"C:\Program Files\NuGet\nuget.exe",
            r"C:\Program Files (x86)\NuGet\nuget.exe",
            r"%LOCALAPPDATA%\Microsoft\dotnet\dotnet.exe",
        ];
        proof {
            reveal_strlit(r"C:\Program Files\NuGet\nuget.exe");
            reveal_strlit(r"C:\Program Files (x86)\NuGet\nuget.exe");
            reveal_strlit(r"%LOCALAPPDATA%\Microsoft\dotnet\dotnet.exe");
            assert(plain_text(c@[0]@));
            assert(plain_text(c@[1]@));
            assert(plain_text(c@[2]@));
        }
        let r = expand_all(&c);
        assert(texts(r@) =~= seq![
            r"C:\Program Files\NuGet\nuget.exe"@,
            r"C:\Program Files (x86)\NuGet\nuget.exe"@,
            r"%LOCALAPPDATA%\Microsoft\dotnet\dotnet.exe"@,
        ]);
        r
    }
}

impl CondaManager {
    /// The package folders of the usual Anaconda and Miniconda installs,
    /// expanded as the shell would.
    pub fn install_pkgs_dirs() -> (r: Vec<String>)
        ensures
            texts(r@) == seq![
                r"C:\ProgramData\anaconda3\pkgs"@,
                r"C:\ProgramData\miniconda3\pkgs"@,
                r"C:\Users\%USERNAME%\.conda\pkgs"@,
            ],
    {
        let c = vec![r"C:\ProgramData\anaconda3\pkgs", r"C:\ProgramData\miniconda3\pkgs", r"C:\Users\%USERNAME%\.conda\pkgs"];
        proof {
            reveal_strlit(r"C:\ProgramData\anaconda3\pkgs");
            reveal_strlit(r"C:\ProgramData\miniconda3\pkgs");
            reveal_strlit(r"C:\Users\%USERNAME%\.conda\pkgs");
            assert(plain_text(c@[0]@));
            assert(plain_text(c@[1]@));
            assert(plain_text(c@[2]@));
        }
        let r = expand_all(&c);
        assert(texts(r@) =~= seq![
            r"C:\ProgramData\anaconda3\pkgs"@,
            r"C:\ProgramData\miniconda3\pkgs"@,
            r"C:\Users\%USERNAME%\.conda\pkgs"@,
        ]);
        r
    }

    /// The places conda's package caches may be, in order: the usual
    /// installs, the `;`-separated parts of `CONDA_PKGS_DIRS` (trimmed), and
    /// `.conda\pkgs` under the home directory. The caller keeps those that
    /// exist.
    pub fn pkgs_dir_candidates(env_pkgs_dirs: Option<&str>, home: Option<&str>) -> (r: Vec<String>)
        ensures
            texts(r@) == seq![
                r"C:\ProgramData\anaconda3\pkgs"@,
                r"C:\ProgramData\miniconda3\pkgs"@,
                r"C:\Users\%USERNAME%\.conda\pkgs"@,
            ] + match env_pkgs_dirs {
                Some(v) => crate::text::split_on(v@, ';').map_values(|p: Seq<char>| trim(p)),
                None => Seq::<Seq<char>>::empty(),
            } + match home {
                Some(h) => seq![push_path(push_path(h@, ".conda"@), "pkgs"@)],
                None => Seq::<Seq<char>>::empty(),
            },
    {
        let mut r = Self::install_pkgs_dirs();
        let ghost base = texts(r@);
        let ghost mid = match env_pkgs_dirs {
            Some(v) => crate::text::split_on(v@, ';').map_values(|p: Seq<char>| trim(p)),
            None => Seq::<Seq<char>>::empty(),
        };
        match env_pkgs_dirs {
            Some(v) => {
                let parts = conda_env_pkgs_dirs(v);
                let mut i: usize = 0;
                while i < parts.len()
                    invariant
                        i <= parts@.len(),
                        texts(parts@) == mid,
                        texts(r@) == base + mid.take(i as int),
                    decreases parts@.len() - i,
                {
                    let ghost before = r@;
                    r.push(parts[i].clone());
                    assert(mid.take(i + 1) =~= mid.take(i as int).push(parts@[i as int]@));
                    assert(texts(r@) =~= texts(before).push(parts@[i as int]@));
                    i += 1;
                }
                assert(mid.take(mid.len() as int) =~= mid);
            },
            None => {
                assert(base + mid =~= base);
            },
        }
        let ghost with_env = texts(r@);
        match home {
            Some(h) => {
                let c = push_path_str(h, ".conda");
                r.push(push_path_str(c.as_str(), "pkgs"));
                assert(texts(r@) =~= with_env.push(push_path(push_path(h@, ".conda"@), "pkgs"@)));
            },
            None => {},
        }
        r
    }
}

impl PipManager {
    /// The folders where system-wide Pythons are usually installed, as glob
    /// patterns.
    pub fn system_python_patterns() -> (r: Vec<&'static str>)
        ensures
            r@ == seq![r"C:\Python*", r"C:\Program Files\Python*", r"C:\Program Files (x86)\Python*"],
    {
        vec![r"C:\Python*", r"C:\Program Files\Python*", r"C:\Program Files (x86)\Python*"]
    }

    /// The packages folder of a Python installation.
    pub fn site_packages(python_root: &str) -> (r: String)
        ensures
            r@ == push_path(push_path(python_root@, "Lib"@), "site-packages"@),
    {
        let l = push_path_str(python_root, "Lib");
        push_path_str(l.as_str(), "site-packages")
    }

    /// The Python command: `python3` when `python3.exe` or `python3` is on
    /// the `PATH`, else `python` when `python.exe` or `python` is.
    pub fn python_command(python3_on_path: bool, python_on_path: bool) -> (r: Result<&'static str, PkgError>)
        ensures
            python3_on_path ==> (r matches Ok(s) && s@ == "python3"@),
            !python3_on_path && python_on_path ==> (r matches Ok(s) && s@ == "python"@),
            !python3_on_path && !python_on_path ==> r == Err::<&'static str, PkgError>(PkgError::ExecutableNotFound),
    {
        if python3_on_path {
            Ok("python3")
        } else if python_on_path {
            Ok("python")
        } else {
            Err(PkgError::ExecutableNotFound)
        }
    }
}

/// The trimmed output of a command, when it is not empty.
pub open spec fn output_path(o: Option<&str>) -> Seq<Seq<char>> {
    match o {
        Some(t) => if trim(t@).len() > 0 {
            seq![trim(t@)]
        } else {
            Seq::empty()
        },
        None => Seq::empty(),
    }
}

/// `child` under `base`, when `base` is known.
pub open spec fn opt_under(base: Option<&str>, child: Seq<char>) -> Seq<Seq<char>> {
    match base {
        Some(b) => seq![push_path(b@, child)],
        None => Seq::empty(),
    }
}

/// Add the trimmed output of a command, when it is not empty.
fn push_output_path(v: &mut Vec<String>, o: Option<&str>)
    ensures
        texts(final(v)@) == texts(old(v)@) + output_path(o),
{
    match o {
        Some(t) => {
            let c = trim_chars(&chars_of(t));
            if c.len() > 0 {
                let ghost before = v@;
                v.push(string_of(&c));
                assert(texts(v@) =~= texts(before) + seq![trim(t@)]);
            } else {
                assert(texts(v@) =~= texts(v@) + Seq::<Seq<char>>::empty());
            }
        },
        None => {
            assert(texts(v@) =~= texts(v@) + Seq::<Seq<char>>::empty());
        },
    }
}

/// Add `child` under `base`, when `base` is known.
fn push_under(v: &mut Vec<String>, base: Option<&str>, child: &str)
    ensures
        texts(final(v)@) == texts(old(v)@) + opt_under(base, child@),
{
    match base {
        Some(b) => {
            let ghost before = v@;
            v.push(push_path_str(b, child));
            assert(texts(v@) =~= texts(before) + seq![push_path(b@, child@)]);
        },
        None => {
            assert(texts(v@) =~= texts(v@) + Seq::<Seq<char>>::empty());
        },
    }
}

/// Add `child` under the home directory (or alone without one).
fn push_home(v: &mut Vec<String>, home: Option<&str>, child: &str)
    ensures
        texts(final(v)@) == texts(old(v)@).push(push_path(home_text(home), child@)),
{
    let h = home_string(home);
    let ghost before = v@;
    v.push(push_path_str(h.as_str(), child));
    assert(texts(v@) =~= texts(before).push(push_path(home_text(home), child@)));
}

/// Where pnpm's caches may be: the store `pnpm store path` printed, the
/// global store and cache under the home directory, and `pnpm` under
/// `LOCALAPPDATA` and under `TEMP`.
pub open spec fn pnpm_cache_candidates(
    store_output: Option<&str>,
    home: Option<&str>,
    local_app_data: Option<&str>,
    temp: Option<&str>,
) -> Seq<Seq<char>> {
    output_path(store_output) + seq![
        push_path(home_text(home), ".pnpm-store"@),
        push_path(home_text(home), ".pnpm-cache"@),
    ] + opt_under(local_app_data, "pnpm"@) + opt_under(temp, "pnpm"@)
}

impl PnpmManager {
    /// pnpm's cache paths, sorted and without repeats.
    pub fn cache_paths(
        store_output: Option<&str>,
        home: Option<&str>,
        local_app_data: Option<&str>,
        temp: Option<&str>,
    ) -> (r: Vec<String>)
        ensures
            sorted_unique_of(texts(r@), pnpm_cache_candidates(store_output, home, local_app_data, temp)),
    {
        let mut v: Vec<String> = Vec::new();
        push_output_path(&mut v, store_output);
        push_home(&mut v, home, ".pnpm-store");
        push_home(&mut v, home, ".pnpm-cache");
        push_under(&mut v, local_app_data, "pnpm");
        push_under(&mut v, temp, "pnpm");
        assert(texts(v@) =~= pnpm_cache_candidates(store_output, home, local_app_data, temp));
        sorted_unique_paths(&v)
    }
}

/// Where Poetry's caches may be: the folder `poetry config cache-dir`
/// printed, then `.cache\pypoetry`, `.poetry\cache`, `.poetry\venv` and
/// `.poetry\artifacts` under the home directory.
pub open spec fn poetry_cache_candidates(cache_dir_output: Option<&str>, home: Option<&str>) -> Seq<Seq<char>> {
    output_path(cache_dir_output) + seq![
        push_path(push_path(home_text(home), ".cache"@), "pypoetry"@),
        push_path(push_path(home_text(home), ".poetry"@), "cache"@),
        push_path(push_path(home_text(home), ".poetry"@), "venv"@),
        push_path(push_path(home_text(home), ".poetry"@), "artifacts"@),
    ]
}

impl PoetryManager {
    /// Poetry's cache paths, sorted and without repeats.
    pub fn cache_paths(cache_dir_output: Option<&str>, home: Option<&str>) -> (r: Vec<String>)
        ensures
            sorted_unique_of(texts(r@), poetry_cache_candidates(cache_dir_output, home)),
    {
        let mut v: Vec<String> = Vec::new();
        push_output_path(&mut v, cache_dir_output);
        let h = home_string(home);
        let cache = push_path_str(h.as_str(), ".cache");
        let poetry = push_path_str(h.as_str(), ".poetry");
        let ghost before = v@;
        v.push(push_path_str(cache.as_str(), "pypoetry"));
        v.push(push_path_str(poetry.as_str(), "cache"));
        v.push(push_path_str(poetry.as_str(), "venv"));
        v.push(push_path_str(poetry.as_str(), "artifacts"));
        assert(texts(v@) =~= poetry_cache_candidates(cache_dir_output, home));
        sorted_unique_paths(&v)
    }
}

/// The cache folder `yarn config get cacheFolder` printed (trimmed), unless
/// it is empty or `undefined`.
pub open spec fn berry_folder(o: Option<&str>) -> Seq<Seq<char>> {
    match o {
        Some(t) => if trim(t@).len() > 0 && trim(t@) != "undefined"@ {
            seq![trim(t@)]
        } else {
            Seq::empty()
        },
        None => Seq::empty(),
    }
}

/// Where Yarn's caches may be. Berry: `.yarn/berry/cache` under the home
/// directory, the configured cache folder, `.yarn/berry/linker` and
/// `.yarn/berry/releases`. Classic: `.yarn-cache` under the home directory,
/// `Yarn\Cache` under `LOCALAPPDATA` and `yarn-*` under `TEMP`.
pub open spec fn yarn_cache_candidates(
    berry: bool,
    cache_folder_output: Option<&str>,
    home: Option<&str>,
    local_app_data: Option<&str>,
    temp: Option<&str>,
) -> Seq<Seq<char>> {
    if berry {
        seq![push_path(home_text(home), ".yarn/berry/cache"@)] + berry_folder(cache_folder_output) + seq![
            push_path(home_text(home), ".yarn/berry/linker"@),
            push_path(home_text(home), ".yarn/berry/releases"@),
        ]
    } else {
        seq![push_path(home_text(home), ".yarn-cache"@)] + opt_under(local_app_data, "Yarn\\Cache"@) + opt_under(
            temp,
            "yarn-*"@,
        )
    }
}

impl YarnManager {
    /// Yarn's cache paths, sorted and without repeats.
    pub fn cache_paths(
        &self,
        cache_folder_output: Option<&str>,
        home: Option<&str>,
        local_app_data: Option<&str>,
        temp: Option<&str>,
    ) -> (r: Vec<String>)
        ensures
            sorted_unique_of(
                texts(r@),
                yarn_cache_candidates(self.berry(), cache_folder_output, home, local_app_data, temp),
            ),
    {
        let mut v: Vec<String> = Vec::new();
        if self.uses_berry() {
            push_home(&mut v, home, ".yarn/berry/cache");
            let ghost first = texts(v@);
            match cache_folder_output {
                Some(t) => {
                    let c = trim_chars(&chars_of(t));
                    let undefined = chars_of("undefined");
                    proof {
                        reveal_strlit("undefined");
                    }
                    if c.len() > 0 && !crate::path::vec_eq(&c, &undefined) {
                        v.push(string_of(&c));
                        assert(texts(v@) =~= first + seq![trim(t@)]);
                    } else {
                        assert(texts(v@) =~= first + Seq::<Seq<char>>::empty());
                    }
                },
                None => {
                    assert(texts(v@) =~= first + Seq::<Seq<char>>::empty());
                },
            }
            assert(texts(v@) =~= first + berry_folder(cache_folder_output));
            push_home(&mut v, home, ".yarn/berry/linker");
            push_home(&mut v, home, ".yarn/berry/releases");
        } else {
            push_home(&mut v, home, ".yarn-cache");
            push_under(&mut v, local_app_data, "Yarn\\Cache");
            push_under(&mut v, temp, "yarn-*");
        }
        assert(texts(v@) =~= yarn_cache_candidates(self.berry(), cache_folder_output, home, local_app_data, temp));
        sorted_unique_paths(&v)
    }
}

/// Where the Go caches may be: what `go env GOCACHE` and `go env GOMODCACHE`
/// printed, then `go\pkg\mod` and `go\build` under the home directory.
pub open spec fn go_cache_candidates(gocache: Option<&str>, gomodcache: Option<&str>, home: Option<&str>) -> Seq<Seq<char>> {
    output_path(gocache) + output_path(gomodcache) + seq![
        push_path(push_path(push_path(home_text(home), "go"@), "pkg"@), "mod"@),
        push_path(push_path(home_text(home), "go"@), "build"@),
    ]
}

impl GoModulesManager {
    /// The Go caches, sorted and without repeats.
    pub fn cache_paths(gocache: Option<&str>, gomodcache: Option<&str>, home: Option<&str>) -> (r: Vec<String>)
        ensures
            sorted_unique_of(texts(r@), go_cache_candidates(gocache, gomodcache, home)),
    {
        let v = GoModulesManager::cache_path_candidates(gocache, gomodcache, home);
        assert(texts(v@) =~= go_cache_candidates(gocache, gomodcache, home));
        sorted_unique_paths(&v)
    }
}

/// The parent of a path, or the path itself when it has none.
pub open spec fn parent_or_self(s: Seq<char>) -> Seq<char> {
    match parent_text(s) {
        Some(p) => p,
        None => s,
    }
}

/// The parent of a path, or the path itself when it has none.
fn parent_or_self_of(s: &str) -> (r: String)
    ensures
        r@ == parent_or_self(s@),
{
    match parent_of(s) {
        Some(p) => p,
        None => to_owned(s),
    }
}

impl ChromeManager {
    /// Chrome's profile folder: `Local\Google\Chrome\User Data` under the
    /// parent of the user cache directory (`%LOCALAPPDATA%`).
    pub fn user_data_path(cache_dir: Option<&str>) -> (r: Option<String>)
        ensures
            opt_text(r) == match cache_dir {
                Some(c) => Some(
                    push_path(
                        push_path(push_path(push_path(parent_or_self(c@), "Local"@), "Google"@), "Chrome"@),
                        "User Data"@,
                    ),
                ),
                None => None,
            },
    {
        match cache_dir {
            Some(c) => {
                let base = parent_or_self_of(c);
                Some(Self::user_data_under(base.as_str()))
            },
            None => None,
        }
    }
}

impl EdgeManager {
    /// Edge's profile folder: `Local\Microsoft\Edge\User Data` under the
    /// parent of the user cache directory (`%LOCALAPPDATA%`).
    pub fn user_data_path(cache_dir: Option<&str>) -> (r: Option<String>)
        ensures
            opt_text(r) == match cache_dir {
                Some(c) => Some(
                    push_path(
                        push_path(push_path(push_path(parent_or_self(c@), "Local"@), "Microsoft"@), "Edge"@),
                        "User Data"@,
                    ),
                ),
                None => None,
            },
    {
        match cache_dir {
            Some(c) => {
                let base = parent_or_self_of(c);
                Some(Self::user_data_under(base.as_str()))
            },
            None => None,
        }
    }
}

impl FirefoxManager {
    /// Firefox's local profiles folder: `Local\Mozilla\Firefox\Profiles`
    /// under the parent of the user cache directory.
    pub fn local_profiles_root(cache_dir: Option<&str>) -> (r: Option<String>)
        ensures
            opt_text(r) == match cache_dir {
                Some(c) => Some(
                    push_path(
                        push_path(push_path(push_path(parent_or_self(c@), "Local"@), "Mozilla"@), "Firefox"@),
                        "Profiles"@,
                    ),
                ),
                None => None,
            },
    {
        match cache_dir {
            Some(c) => {
                let base = parent_or_self_of(c);
                Some(Self::local_profiles_under(base.as_str()))
            },
            None => None,
        }
    }

    /// Firefox's roaming profiles folder: `Mozilla\Firefox\Profiles` under
    /// the user configuration directory.
    pub fn roaming_profiles_root(config_dir: Option<&str>) -> (r: Option<String>)
        ensures
            opt_text(r) == match config_dir {
                Some(c) => Some(push_path(push_path(push_path(c@, "Mozilla"@), "Firefox"@), "Profiles"@)),
                None => None,
            },
    {
        match config_dir {
            Some(c) => Some(Self::roaming_profiles_under(c)),
            None => None,
        }
    }
}

} // verus!
