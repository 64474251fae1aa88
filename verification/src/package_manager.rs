//! Package managers and other tools that keep caches: what each is called,
//! where its caches live, and the account of a cleanup. Running the tools,
//! measuring and deleting directories is the caller's part.
use vstd::prelude::*;
use crate::path::{components, is_absolute, path_is_absolute, push_path, push_path_str};
use crate::text::{
    chars_of, concat, has_prefix, has_suffix, lines_chars, lines_of, push_str, replace_all,
    replace_seq, str_eq, str_trim, string_of, to_owned, trim, trim_chars, views,
};
use crate::wsl::opt_text;

verus! {

/// A tool whose caches the cleaner knows.
pub trait PackageManager {
    /// The short name.
    fn name(&self) -> &'static str;

    /// The name shown to people.
    fn display_name(&self) -> &'static str;
}

/// Why a manager could not be set up or a cache located.
#[derive(Debug, Clone, Copy, PartialEq, Eq, Structural)]
pub enum PkgError {
    /// The tool's executable was not found.
    ExecutableNotFound,
    /// The home directory is not known.
    NoHomeDirectory,
    /// None of the places where the cache may be exists.
    CacheNotFound,
}

/// Result of cleaning a manager's caches.
#[derive(Debug, Clone)]
pub struct PackageCleanResult {
    pub package_manager: String,
    pub space_freed: u64,
    pub items_deleted: u64,
    pub errors: Vec<String>,
    pub duration_ms: u64,
}

/// A cache location.
#[derive(Debug, Clone)]
pub struct CacheInfo {
    pub path: String,
    pub size_bytes: u64,
    pub description: String,
    pub can_delete: bool,
}

/// The running account of a cleanup of one manager's caches.
pub struct CleanTally {
    manager: String,
    space_freed: u64,
    items_deleted: u64,
    errors: Vec<String>,
}

/// The texts of a list of strings.
pub open spec fn texts(v: Seq<String>) -> Seq<Seq<char>> {
    v.map_values(|s: String| s@)
}

/// The message recorded when emptying a path fails.
pub open spec fn clean_failure(path: Seq<char>, error: Seq<char>) -> Seq<char> {
    "Failed to clean "@ + path + ": "@ + error
}

/// The message recorded when deleting a path fails.
pub open spec fn delete_failure(path: Seq<char>, error: Seq<char>) -> Seq<char> {
    "Failed to delete "@ + path + ": "@ + error
}

impl CleanTally {
    /// The manager cleaned.
    pub closed spec fn manager(&self) -> Seq<char> {
        self.manager@
    }

    /// Space freed so far.
    pub closed spec fn freed(&self) -> nat {
        self.space_freed as nat
    }

    /// Items deleted so far.
    pub closed spec fn deleted(&self) -> nat {
        self.items_deleted as nat
    }

    /// Errors so far, in order.
    pub closed spec fn errs(&self) -> Seq<Seq<char>> {
        texts(self.errors@)
    }

    /// An empty account for a manager.
    pub fn new(manager: &str) -> (t: Self)
        ensures
            t.manager() == manager@,
            t.freed() == 0,
            t.deleted() == 0,
            t.errs().len() == 0,
    {
        let t = CleanTally { manager: to_owned(manager), space_freed: 0, items_deleted: 0, errors: Vec::new() };
        assert(t.errs() =~= Seq::<Seq<char>>::empty());
        t
    }

    /// Record a deleted cache of the given size.
    pub fn record_deleted(&mut self, size: u64)
        requires
            old(self).freed() + size <= u64::MAX,
            old(self).deleted() + 1 <= u64::MAX,
        ensures
            final(self).manager() == old(self).manager(),
            final(self).freed() == old(self).freed() + size,
            final(self).deleted() == old(self).deleted() + 1,
            final(self).errs() == old(self).errs(),
    {
        self.space_freed = self.space_freed + size;
        self.items_deleted = self.items_deleted + 1;
    }

    /// Record that deleting a path failed.
    pub fn record_failure(&mut self, path: &str, error: &str)
        ensures
            final(self).manager() == old(self).manager(),
            final(self).freed() == old(self).freed(),
            final(self).deleted() == old(self).deleted(),
            final(self).errs() == old(self).errs().push(delete_failure(path@, error@)),
    {
        let mut m = to_owned("Failed to delete ");
        push_str(&mut m, path);
        push_str(&mut m, ": ");
        push_str(&mut m, error);
        let ghost before = self.errs();
        let ghost mv = m@;
        self.errors.push(m);
        assert(mv == delete_failure(path@, error@));
        assert(self.errs() =~= before.push(mv));
    }

    /// Record an error message.
    pub fn record_error(&mut self, message: String)
        ensures
            final(self).manager() == old(self).manager(),
            final(self).freed() == old(self).freed(),
            final(self).deleted() == old(self).deleted(),
            final(self).errs() == old(self).errs().push(message@),
    {
        let ghost before = self.errs();
        let ghost mv = message@;
        self.errors.push(message);
        assert(self.errs() =~= before.push(mv));
    }

    /// Record the outcome of deleting one cache directory: its size when it
    /// was deleted, or the error.
    pub fn record_deletion(&mut self, path: &str, outcome: Result<u64, String>)
        requires
            outcome matches Ok(size) ==> old(self).freed() + size <= u64::MAX && old(self).deleted() + 1
                <= u64::MAX,
        ensures
            final(self).manager() == old(self).manager(),
            match outcome {
                Ok(size) => final(self).freed() == old(self).freed() + size && final(self).deleted()
                    == old(self).deleted() + 1 && final(self).errs() == old(self).errs(),
                Err(e) => final(self).freed() == old(self).freed() && final(self).deleted()
                    == old(self).deleted() && final(self).errs() == old(self).errs().push(
                    delete_failure(path@, e@),
                ),
            },
    {
        match outcome {
            Ok(size) => self.record_deleted(size),
            Err(e) => self.record_failure(path, e.as_str()),
        }
    }

    /// Record the outcome of emptying one cache directory: the files deleted
    /// and the space freed, or the error.
    pub fn record_emptied(&mut self, path: &str, outcome: Result<(u64, u64), String>)
        requires
            outcome matches Ok((files, freed)) ==> old(self).freed() + freed <= u64::MAX
                && old(self).deleted() + files <= u64::MAX,
        ensures
            final(self).manager() == old(self).manager(),
            match outcome {
                Ok((files, freed)) => final(self).freed() == old(self).freed() + freed
                    && final(self).deleted() == old(self).deleted() + files && final(self).errs()
                    == old(self).errs(),
                Err(e) => final(self).freed() == old(self).freed() && final(self).deleted()
                    == old(self).deleted() && final(self).errs() == old(self).errs().push(
                    clean_failure(path@, e@),
                ),
            },
    {
        match outcome {
            Ok((files, freed)) => {
                self.space_freed = self.space_freed + freed;
                self.items_deleted = self.items_deleted + files;
            },
            Err(e) => {
                let mut m = to_owned("Failed to clean ");
                push_str(&mut m, path);
                push_str(&mut m, ": ");
                push_str(&mut m, e.as_str());
                self.record_error(m);
            },
        }
    }

    /// The result of the cleanup.
    pub fn finish(self, duration_ms: u64) -> (r: PackageCleanResult)
        ensures
            r.package_manager@ == self.manager(),
            r.space_freed == self.freed(),
            r.items_deleted == self.deleted(),
            texts(r.errors@) == self.errs(),
            r.duration_ms == duration_ms,
    {
        PackageCleanResult {
            package_manager: self.manager,
            space_freed: self.space_freed,
            items_deleted: self.items_deleted,
            errors: self.errors,
            duration_ms,
        }
    }
}

/// The result recorded for a manager whose cleanup failed outright.
pub fn failed_clean_result(manager: &str, error: String) -> (r: PackageCleanResult)
    ensures
        r.package_manager@ == manager@,
        r.space_freed == 0,
        r.items_deleted == 0,
        texts(r.errors@) == seq![error@],
        r.duration_ms == 0,
{
    let ghost ev = error@;
    let mut errors: Vec<String> = Vec::new();
    errors.push(error);
    assert(texts(errors@) =~= seq![ev]);
    PackageCleanResult { package_manager: to_owned(manager), space_freed: 0, items_deleted: 0, errors, duration_ms: 0 }
}

/// The Android SDK / AVD cache manager.
#[derive(Debug, Default)]
pub struct AndroidSdkManager;

impl PackageManager for AndroidSdkManager {
    fn name(&self) -> (r: &'static str)
        ensures
            r@ == "android_sdk"@,
    {
        "android_sdk"
    }

    fn display_name(&self) -> (r: &'static str)
        ensures
            r@ == "Android SDK / AVD"@,
    {
        "Android SDK / AVD"
    }
}

impl AndroidSdkManager {
    /// How to keep the cache from growing back.
    pub fn prevention_tip(&self) -> (r: &'static str)
        ensures
            r@ == "Delete old AVD snapshots via AVD Manager. Remove obsolete SDK platforms and build-tools with sdkmanager."@,
    {
        "Delete old AVD snapshots via AVD Manager. Remove obsolete SDK platforms and build-tools with sdkmanager."
    }
}

/// The Google Chrome cache manager.
#[derive(Debug)]
pub struct ChromeManager;

impl PackageManager for ChromeManager {
    fn name(&self) -> (r: &'static str)
        ensures
            r@ == "chrome"@,
    {
        "chrome"
    }

    fn display_name(&self) -> (r: &'static str)
        ensures
            r@ == "Google Chrome"@,
    {
        "Google Chrome"
    }
}

impl ChromeManager {
    /// How to keep the cache from growing back.
    pub fn prevention_tip(&self) -> (r: &'static str)
        ensures
            r@ == "Enable 'Clear cookies and site data when you close all windows' in Chrome settings."@,
    {
        "Enable 'Clear cookies and site data when you close all windows' in Chrome settings."
    }
}

/// The Microsoft Edge cache manager.
#[derive(Debug)]
pub struct EdgeManager;

impl PackageManager for EdgeManager {
    fn name(&self) -> (r: &'static str)
        ensures
            r@ == "edge"@,
    {
        "edge"
    }

    fn display_name(&self) -> (r: &'static str)
        ensures
            r@ == "Microsoft Edge"@,
    {
        "Microsoft Edge"
    }
}

impl EdgeManager {
    /// How to keep the cache from growing back.
    pub fn prevention_tip(&self) -> (r: &'static str)
        ensures
            r@ == "Enable 'Clear browsing data on close' in Edge Privacy settings."@,
    {
        "Enable 'Clear browsing data on close' in Edge Privacy settings."
    }
}

/// The Mozilla Firefox cache manager.
#[derive(Debug)]
pub struct FirefoxManager;

impl PackageManager for FirefoxManager {
    fn name(&self) -> (r: &'static str)
        ensures
            r@ == "firefox"@,
    {
        "firefox"
    }

    fn display_name(&self) -> (r: &'static str)
        ensures
            r@ == "Mozilla Firefox"@,
    {
        "Mozilla Firefox"
    }
}

impl FirefoxManager {
    /// How to keep the cache from growing back.
    pub fn prevention_tip(&self) -> (r: &'static str)
        ensures
            r@ == "Use Firefox's 'Delete cookies and site data when Firefox is closed' option in Privacy & Security."@,
    {
        "Use Firefox's 'Delete cookies and site data when Firefox is closed' option in Privacy & Security."
    }
}

/// The Bun cache manager.
#[derive(Debug, Default)]
pub struct BunManager;

impl PackageManager for BunManager {
    fn name(&self) -> (r: &'static str)
        ensures
            r@ == "bun"@,
    {
        "bun"
    }

    fn display_name(&self) -> (r: &'static str)
        ensures
            r@ == "Bun"@,
    {
        "Bun"
    }
}

impl BunManager {
    /// How to keep the cache from growing back.
    pub fn prevention_tip(&self) -> (r: &'static str)
        ensures
            r@ == "Bun's global cache is shared; use 'bun pm cache rm' to prune. Avoid duplicating node_modules across projects."@,
    {
        "Bun's global cache is shared; use 'bun pm cache rm' to prune. Avoid duplicating node_modules across projects."
    }
}

/// The Bundler (Ruby) cache manager.
#[derive(Debug, Default)]
pub struct BundlerManager {
    bundle_path: Option<String>,
}

impl PackageManager for BundlerManager {
    fn name(&self) -> (r: &'static str)
        ensures
            r@ == "bundler"@,
    {
        "bundler"
    }

    fn display_name(&self) -> (r: &'static str)
        ensures
            r@ == "Bundler (Ruby)"@,
    {
        "Bundler (Ruby)"
    }
}

impl BundlerManager {
    /// How to keep the cache from growing back.
    pub fn prevention_tip(&self) -> (r: &'static str)
        ensures
            r@ == "Use 'bundle config set --local path vendor/bundle' to isolate per-project gems. Run 'bundle clean' periodically."@,
    {
        "Use 'bundle config set --local path vendor/bundle' to isolate per-project gems. Run 'bundle clean' periodically."
    }
}

/// The Rust Package Manager (Cargo) cache manager.
#[derive(Debug, Default)]
pub struct CargoManager {
    cargo_path: Option<String>,
    cargo_home: Option<String>,
}

impl PackageManager for CargoManager {
    fn name(&self) -> (r: &'static str)
        ensures
            r@ == "cargo"@,
    {
        "cargo"
    }

    fn display_name(&self) -> (r: &'static str)
        ensures
            r@ == "Rust Package Manager (Cargo)"@,
    {
        "Rust Package Manager (Cargo)"
    }
}

impl CargoManager {
    /// How to keep the cache from growing back.
    pub fn prevention_tip(&self) -> (r: &'static str)
        ensures
            r@ == "Use 'cargo sweep' or set CARGO_TARGET_DIR to a shared directory. Clean old registry versions with 'cargo cache --autoclean'."@,
    {
        "Use 'cargo sweep' or set CARGO_TARGET_DIR to a shared directory. Clean old registry versions with 'cargo cache --autoclean'."
    }
}

/// The Conan (C/C++) cache manager.
#[derive(Debug, Default)]
pub struct ConanManager;

impl PackageManager for ConanManager {
    fn name(&self) -> (r: &'static str)
        ensures
            r@ == "conan"@,
    {
        "conan"
    }

    fn display_name(&self) -> (r: &'static str)
        ensures
            r@ == "Conan (C/C++)"@,
    {
        "Conan (C/C++)"
    }
}

impl ConanManager {
    /// How to keep the cache from growing back.
    pub fn prevention_tip(&self) -> (r: &'static str)
        ensures
            r@ == "Use 'conan remove -c *' to clear old packages. Enable revision_mode=scm to avoid duplicate recipe builds."@,
    {
        "Use 'conan remove -c *' to clear old packages. Enable revision_mode=scm to avoid duplicate recipe builds."
    }
}

/// The conda / mamba cache manager.
#[derive(Debug, Default)]
pub struct CondaManager {
    conda_path: Option<String>,
}

impl PackageManager for CondaManager {
    fn name(&self) -> (r: &'static str)
        ensures
            r@ == "conda"@,
    {
        "conda"
    }

    fn display_name(&self) -> (r: &'static str)
        ensures
            r@ == "conda / mamba"@,
    {
        "conda / mamba"
    }
}

impl CondaManager {
    /// How to keep the cache from growing back.
    pub fn prevention_tip(&self) -> (r: &'static str)
        ensures
            r@ == "Run 'conda clean --all' after environment changes. Pin exact versions in environment.yml to avoid redundant downloads."@,
    {
        "Run 'conda clean --all' after environment changes. Pin exact versions in environment.yml to avoid redundant downloads."
    }
}

/// The Cypress (binary cache) cache manager.
#[derive(Debug, Default)]
pub struct CypressManager;

impl PackageManager for CypressManager {
    fn name(&self) -> (r: &'static str)
        ensures
            r@ == "cypress"@,
    {
        "cypress"
    }

    fn display_name(&self) -> (r: &'static str)
        ensures
            r@ == "Cypress (binary cache)"@,
    {
        "Cypress (binary cache)"
    }
}

impl CypressManager {
    /// How to keep the cache from growing back.
    pub fn prevention_tip(&self) -> (r: &'static str)
        ensures
            r@ == "Set CYPRESS_CACHE_FOLDER to a shared path. Remove old Cypress versions with 'cypress cache clear'."@,
    {
        "Set CYPRESS_CACHE_FOLDER to a shared path. Remove old Cypress versions with 'cypress cache clear'."
    }
}

/// The Flutter / Dart pub cache manager.
#[derive(Debug, Default)]
pub struct FlutterManager;

impl PackageManager for FlutterManager {
    fn name(&self) -> (r: &'static str)
        ensures
            r@ == "flutter"@,
    {
        "flutter"
    }

    fn display_name(&self) -> (r: &'static str)
        ensures
            r@ == "Flutter / Dart pub"@,
    {
        "Flutter / Dart pub"
    }
}

impl FlutterManager {
    /// How to keep the cache from growing back.
    pub fn prevention_tip(&self) -> (r: &'static str)
        ensures
            r@ == "Run 'flutter clean' after builds. Use 'pub cache repair' to consolidate duplicate packages."@,
    {
        "Run 'flutter clean' after builds. Use 'pub cache repair' to consolidate duplicate packages."
    }
}

/// The Git LFS cache manager.
#[derive(Debug, Default)]
pub struct GitLfsManager;

impl PackageManager for GitLfsManager {
    fn name(&self) -> (r: &'static str)
        ensures
            r@ == "git_lfs"@,
    {
        "git_lfs"
    }

    fn display_name(&self) -> (r: &'static str)
        ensures
            r@ == "Git LFS"@,
    {
        "Git LFS"
    }
}

impl GitLfsManager {
    /// How to keep the cache from growing back.
    pub fn prevention_tip(&self) -> (r: &'static str)
        ensures
            r@ == "Run 'git lfs prune' to remove unreferenced objects. Set lfs.fetchrecentrefsdays to a lower value."@,
    {
        "Run 'git lfs prune' to remove unreferenced objects. Set lfs.fetchrecentrefsdays to a lower value."
    }
}

/// The Go Build Cache cache manager.
#[derive(Debug, Default)]
pub struct GoBuildCacheManager;

impl PackageManager for GoBuildCacheManager {
    fn name(&self) -> (r: &'static str)
        ensures
            r@ == "go_build"@,
    {
        "go_build"
    }

    fn display_name(&self) -> (r: &'static str)
        ensures
            r@ == "Go Build Cache"@,
    {
        "Go Build Cache"
    }
}

impl GoBuildCacheManager {
    /// How to keep the cache from growing back.
    pub fn prevention_tip(&self) -> (r: &'static str)
        ensures
            r@ == "Set GOCACHE to a shared directory. Use 'go clean -cache' after toolchain upgrades."@,
    {
        "Set GOCACHE to a shared directory. Use 'go clean -cache' after toolchain upgrades."
    }
}

/// The Go Modules cache manager.
#[derive(Debug)]
pub struct GoModulesManager {
    executable_path: String,
}

impl PackageManager for GoModulesManager {
    fn name(&self) -> (r: &'static str)
        ensures
            r@ == "go"@,
    {
        "go"
    }

    fn display_name(&self) -> (r: &'static str)
        ensures
            r@ == "Go Modules"@,
    {
        "Go Modules"
    }
}

impl GoModulesManager {
    /// How to keep the cache from growing back.
    pub fn prevention_tip(&self) -> (r: &'static str)
        ensures
            r@ == "Use 'go clean -modcache' when switching between major versions. Set GOPROXY=direct to avoid proxy cache duplication."@,
    {
        "Use 'go clean -modcache' when switching between major versions. Set GOPROXY=direct to avoid proxy cache duplication."
    }
}

/// The Gradle cache manager.
#[derive(Debug, Default)]
pub struct GradleManager;

impl PackageManager for GradleManager {
    fn name(&self) -> (r: &'static str)
        ensures
            r@ == "gradle"@,
    {
        "gradle"
    }

    fn display_name(&self) -> (r: &'static str)
        ensures
            r@ == "Gradle"@,
    {
        "Gradle"
    }
}

impl GradleManager {
    /// How to keep the cache from growing back.
    pub fn prevention_tip(&self) -> (r: &'static str)
        ensures
            r@ == "Run 'gradle clean' after builds. Disable build scan uploads in CI to avoid build-scan-data growth."@,
    {
        "Run 'gradle clean' after builds. Disable build scan uploads in CI to avoid build-scan-data growth."
    }
}

/// The JetBrains IDEs cache manager.
#[derive(Debug, Default)]
pub struct JetBrainsManager;

impl PackageManager for JetBrainsManager {
    fn name(&self) -> (r: &'static str)
        ensures
            r@ == "jetbrains"@,
    {
        "jetbrains"
    }

    fn display_name(&self) -> (r: &'static str)
        ensures
            r@ == "JetBrains IDEs"@,
    {
        "JetBrains IDEs"
    }
}

impl JetBrainsManager {
    /// How to keep the cache from growing back.
    pub fn prevention_tip(&self) -> (r: &'static str)
        ensures
            r@ == "Enable 'Help | Delete IDE Logs and Caches' after major updates. Reduce local history retention in Settings | Appearance & Behavior | System Settings."@,
    {
        "Enable 'Help | Delete IDE Logs and Caches' after major updates. Reduce local history retention in Settings | Appearance & Behavior | System Settings."
    }
}

/// The Apache Maven cache manager.
#[derive(Debug, Default)]
pub struct MavenManager;

impl PackageManager for MavenManager {
    fn name(&self) -> (r: &'static str)
        ensures
            r@ == "maven"@,
    {
        "maven"
    }

    fn display_name(&self) -> (r: &'static str)
        ensures
            r@ == "Apache Maven"@,
    {
        "Apache Maven"
    }
}

impl MavenManager {
    /// How to keep the cache from growing back.
    pub fn prevention_tip(&self) -> (r: &'static str)
        ensures
            r@ == "Use 'mvn dependency:purge-local-repository' to remove unused artifacts. Set localRepository to a shared path in settings.xml."@,
    {
        "Use 'mvn dependency:purge-local-repository' to remove unused artifacts. Set localRepository to a shared path in settings.xml."
    }
}

/// The Node Package Manager (npm) cache manager.
#[derive(Debug, Default)]
pub struct NpmManager {
    npm_path: Option<String>,
    cache_path: Option<String>,
}

impl PackageManager for NpmManager {
    fn name(&self) -> (r: &'static str)
        ensures
            r@ == "npm"@,
    {
        "npm"
    }

    fn display_name(&self) -> (r: &'static str)
        ensures
            r@ == "Node Package Manager (npm)"@,
    {
        "Node Package Manager (npm)"
    }
}

impl NpmManager {
    /// How to keep the cache from growing back.
    pub fn prevention_tip(&self) -> (r: &'static str)
        ensures
            r@ == "Use 'npm config set cache-max 86400000' to limit cache TTL. Periodically run 'npm cache clean --force'."@,
    {
        "Use 'npm config set cache-max 86400000' to limit cache TTL. Periodically run 'npm cache clean --force'."
    }
}

/// The .NET Package Manager (NuGet) cache manager.
#[derive(Debug, Default)]
pub struct NugetManager;

impl PackageManager for NugetManager {
    fn name(&self) -> (r: &'static str)
        ensures
            r@ == "nuget"@,
    {
        "nuget"
    }

    fn display_name(&self) -> (r: &'static str)
        ensures
            r@ == ".NET Package Manager (NuGet)"@,
    {
        ".NET Package Manager (NuGet)"
    }
}

impl NugetManager {
    /// How to keep the cache from growing back.
    pub fn prevention_tip(&self) -> (r: &'static str)
        ensures
            r@ == "Use 'dotnet nuget locals all --clear' periodically. Set globalPackagesFolder to a shared path in NuGet.config."@,
    {
        "Use 'dotnet nuget locals all --clear' periodically. Set globalPackagesFolder to a shared path in NuGet.config."
    }
}

/// The Python Package Manager (pip) cache manager.
#[derive(Debug, Default)]
pub struct PipManager {
    pip_path: Option<String>,
    cache_path: Option<String>,
}

impl PackageManager for PipManager {
    fn name(&self) -> (r: &'static str)
        ensures
            r@ == "pip"@,
    {
        "pip"
    }

    fn display_name(&self) -> (r: &'static str)
        ensures
            r@ == "Python Package Manager (pip)"@,
    {
        "Python Package Manager (pip)"
    }
}

impl PipManager {
    /// The pip cache manager: its executable is `pip3` when `pip3.exe` or
    /// `pip3` is on the `PATH`, else `pip` when `pip.exe` or `pip` is, else
    /// none; no cache is set.
    pub fn new(pip3_on_path: bool, pip_on_path: bool) -> (m: Self)
        ensures
            opt_text(m.path()) == (if pip3_on_path {
                Some("pip3"@)
            } else if pip_on_path {
                Some("pip"@)
            } else {
                None
            }),
            m.cache() is None,
    {
        let pip_path = if pip3_on_path {
            Some(to_owned("pip3"))
        } else if pip_on_path {
            Some(to_owned("pip"))
        } else {
            None
        };
        PipManager { pip_path, cache_path: None }
    }

    /// The pip executable.
    pub closed spec fn path(&self) -> Option<String> {
        self.pip_path
    }

    /// The cache set on the manager.
    pub closed spec fn cache(&self) -> Option<String> {
        self.cache_path
    }

    /// The Python used to run `python -m pip`: `python3` when
    /// `python3.exe` is on the `PATH`, else `python` when `python.exe` is.
    pub fn python_for_pip_module(python3_exe: bool, python_exe: bool) -> (r: Option<&'static str>)
        ensures
            python3_exe ==> (r matches Some(s) && s@ == "python3"@),
            !python3_exe && python_exe ==> (r matches Some(s) && s@ == "python"@),
            !python3_exe && !python_exe ==> r is None,
    {
        if python3_exe {
            Some("python3")
        } else if python_exe {
            Some("python")
        } else {
            None
        }
    }

    /// The pip command: the one found when the manager was made; else `pip3`
    /// or `pip` when on the `PATH`; else the Python that ran
    /// `-m pip --version` successfully; else `pip` under the user cache
    /// directory.
    pub fn pip_command(
        &self,
        pip3_on_path: bool,
        pip_on_path: bool,
        python_with_pip: Option<&str>,
        cache_dir: Option<&str>,
    ) -> (r: Result<String, PkgError>)
        ensures
            match self.path() {
                Some(p) => r matches Ok(s) && s@ == p@,
                None => if pip3_on_path {
                    r matches Ok(s) && s@ == "pip3"@
                } else if pip_on_path {
                    r matches Ok(s) && s@ == "pip"@
                } else {
                    match python_with_pip {
                        Some(py) => r matches Ok(s) && s@ == py@,
                        None => match cache_dir {
                            Some(c) => r matches Ok(s) && s@ == push_path(c@, "pip"@),
                            None => r == Err::<String, PkgError>(PkgError::ExecutableNotFound),
                        },
                    }
                },
            },
    {
        match &self.pip_path {
            Some(p) => {
                return Ok(p.clone());
            },
            None => {},
        }
        if pip3_on_path {
            return Ok(to_owned("pip3"));
        }
        if pip_on_path {
            return Ok(to_owned("pip"));
        }
        match python_with_pip {
            Some(py) => Ok(to_owned(py)),
            None => match cache_dir {
                Some(c) => Ok(push_path_str(c, "pip")),
                None => Err(PkgError::ExecutableNotFound),
            },
        }
    }

    /// The usual places of pip's cache, in order: `pip` under the user cache
    /// directory, `.cache\pip` and `AppData\Local\pip\cache` under the home
    /// directory (each only when its base is known).
    pub fn cache_dir_candidates(cache_dir: Option<&str>, home: Option<&str>) -> (r: Vec<String>)
        ensures
            texts(r@) == match cache_dir {
                Some(c) => seq![push_path(c@, "pip"@)],
                None => Seq::<Seq<char>>::empty(),
            } + match home {
                Some(h) => seq![
                    push_path(push_path(h@, ".cache"@), "pip"@),
                    push_path(push_path(push_path(push_path(h@, "AppData"@), "Local"@), "pip"@), "cache"@),
                ],
                None => Seq::<Seq<char>>::empty(),
            },
    {
        let mut v: Vec<String> = Vec::new();
        match cache_dir {
            Some(c) => {
                v.push(push_path_str(c, "pip"));
            },
            None => {},
        }
        let ghost first = texts(v@);
        match home {
            Some(h) => {
                let a = push_path_str(h, ".cache");
                v.push(push_path_str(a.as_str(), "pip"));
                let b = push_path_str(h, "AppData");
                let l = push_path_str(b.as_str(), "Local");
                let pp = push_path_str(l.as_str(), "pip");
                v.push(push_path_str(pp.as_str(), "cache"));
                assert(texts(v@) =~= first + seq![
                    push_path(push_path(h@, ".cache"@), "pip"@),
                    push_path(push_path(push_path(push_path(h@, "AppData"@), "Local"@), "pip"@), "cache"@),
                ]);
            },
            None => {
                assert(texts(v@) =~= first + Seq::<Seq<char>>::empty());
            },
        }
        proof {
            match cache_dir {
                Some(c) => {
                    assert(first =~= seq![push_path(c@, "pip"@)]);
                },
                None => {
                    assert(first =~= Seq::<Seq<char>>::empty());
                },
            }
        }
        v
    }

    /// pip's cache: the folder `pip cache dir` printed (trimmed) when it
    /// succeeded; else the first of the usual places that exists
    /// (`exists[i]` for `candidates[i]`); else `pip` under the user cache
    /// directory.
    pub fn resolve_cache_path(
        cache_dir_output: Option<&str>,
        candidates: &[String],
        exists: &[bool],
        cache_dir: Option<&str>,
    ) -> (r: Result<String, PkgError>)
        ensures
            match cache_dir_output {
                Some(o) => r matches Ok(s) && s@ == trim(o@),
                None => match first_existing_from(candidates@, exists@, 0) {
                    Some(p) => r matches Ok(s) && s@ == p,
                    None => match cache_dir {
                        Some(c) => r matches Ok(s) && s@ == push_path(c@, "pip"@),
                        None => r == Err::<String, PkgError>(PkgError::CacheNotFound),
                    },
                },
            },
    {
        match cache_dir_output {
            Some(o) => {
                return Ok(str_trim(o));
            },
            None => {},
        }
        match first_existing(candidates, exists) {
            Some(p) => Ok(p),
            None => match cache_dir {
                Some(c) => Ok(push_path_str(c, "pip")),
                None => Err(PkgError::CacheNotFound),
            },
        }
    }

    /// The pip executable found when the manager was made.
    pub fn pip_executable(&self) -> (r: Option<String>)
        ensures
            opt_text(r) == opt_text(self.path()),
    {
        match &self.pip_path {
            Some(p) => Some(p.clone()),
            None => None,
        }
    }

    /// How to keep the cache from growing back.
    pub fn prevention_tip(&self) -> (r: &'static str)
        ensures
            r@ == "Use 'pip cache purge' to clear wheel cache. Pin exact versions in requirements.txt to avoid redundant downloads."@,
    {
        "Use 'pip cache purge' to clear wheel cache. Pin exact versions in requirements.txt to avoid redundant downloads."
    }
}

/// The Playwright (browser binaries) cache manager.
#[derive(Debug, Default)]
pub struct PlaywrightManager;

impl PackageManager for PlaywrightManager {
    fn name(&self) -> (r: &'static str)
        ensures
            r@ == "playwright"@,
    {
        "playwright"
    }

    fn display_name(&self) -> (r: &'static str)
        ensures
            r@ == "Playwright (browser binaries)"@,
    {
        "Playwright (browser binaries)"
    }
}

impl PlaywrightManager {
    /// How to keep the cache from growing back.
    pub fn prevention_tip(&self) -> (r: &'static str)
        ensures
            r@ == "Use 'npx playwright uninstall --all' for old browsers. Pin browser versions in CI to avoid redundant installs."@,
    {
        "Use 'npx playwright uninstall --all' for old browsers. Pin browser versions in CI to avoid redundant installs."
    }
}

/// The pnpm cache manager.
#[derive(Debug)]
pub struct PnpmManager {
    executable_path: String,
}

impl PackageManager for PnpmManager {
    fn name(&self) -> (r: &'static str)
        ensures
            r@ == "pnpm"@,
    {
        "pnpm"
    }

    fn display_name(&self) -> (r: &'static str)
        ensures
            r@ == "pnpm"@,
    {
        "pnpm"
    }
}

/// The Poetry cache manager.
#[derive(Debug)]
pub struct PoetryManager {
    executable_path: String,
}

impl PackageManager for PoetryManager {
    fn name(&self) -> (r: &'static str)
        ensures
            r@ == "poetry"@,
    {
        "poetry"
    }

    fn display_name(&self) -> (r: &'static str)
        ensures
            r@ == "Poetry"@,
    {
        "Poetry"
    }
}

impl PoetryManager {
    /// How to keep the cache from growing back.
    pub fn prevention_tip(&self) -> (r: &'static str)
        ensures
            r@ == "Use 'poetry cache clear pypi --all' after environment rebuilds. Pin versions in pyproject.toml to avoid redundant downloads."@,
    {
        "Use 'poetry cache clear pypi --all' after environment rebuilds. Pin versions in pyproject.toml to avoid redundant downloads."
    }
}

/// The Ruby Gems cache manager.
#[derive(Debug, Default)]
pub struct RubyGemsManager {
    gem_path: Option<String>,
    cache_path: Option<String>,
}

impl PackageManager for RubyGemsManager {
    fn name(&self) -> (r: &'static str)
        ensures
            r@ == "ruby_gems"@,
    {
        "ruby_gems"
    }

    fn display_name(&self) -> (r: &'static str)
        ensures
            r@ == "Ruby Gems"@,
    {
        "Ruby Gems"
    }
}

impl RubyGemsManager {
    /// How to keep the cache from growing back.
    pub fn prevention_tip(&self) -> (r: &'static str)
        ensures
            r@ == "Use 'gem cleanup' regularly to remove old gem versions. Set GEM_HOME to a single shared location."@,
    {
        "Use 'gem cleanup' regularly to remove old gem versions. Set GEM_HOME to a single shared location."
    }
}

/// The sbt (Scala Build Tool) cache manager.
#[derive(Debug, Default)]
pub struct SbtManager;

impl PackageManager for SbtManager {
    fn name(&self) -> (r: &'static str)
        ensures
            r@ == "sbt"@,
    {
        "sbt"
    }

    fn display_name(&self) -> (r: &'static str)
        ensures
            r@ == "sbt (Scala Build Tool)"@,
    {
        "sbt (Scala Build Tool)"
    }
}

impl SbtManager {
    /// How to keep the cache from growing back.
    pub fn prevention_tip(&self) -> (r: &'static str)
        ensures
            r@ == "Run 'sbt clean' after builds. Set COURSIER_CACHE to a shared location and use 'coursier gc' periodically."@,
    {
        "Run 'sbt clean' after builds. Set COURSIER_CACHE to a shared location and use 'coursier gc' periodically."
    }
}

/// The uv (Python) cache manager.
#[derive(Debug, Default)]
pub struct UvManager;

impl PackageManager for UvManager {
    fn name(&self) -> (r: &'static str)
        ensures
            r@ == "uv"@,
    {
        "uv"
    }

    fn display_name(&self) -> (r: &'static str)
        ensures
            r@ == "uv (Python)"@,
    {
        "uv (Python)"
    }
}

impl UvManager {
    /// How to keep the cache from growing back.
    pub fn prevention_tip(&self) -> (r: &'static str)
        ensures
            r@ == "Use 'uv cache prune' to remove unused entries. Set UV_CACHE_DIR to a dedicated volume if space is tight."@,
    {
        "Use 'uv cache prune' to remove unused entries. Set UV_CACHE_DIR to a dedicated volume if space is tight."
    }
}

/// The vcpkg (C/C++) cache manager.
#[derive(Debug, Default)]
pub struct VcpkgManager;

impl PackageManager for VcpkgManager {
    fn name(&self) -> (r: &'static str)
        ensures
            r@ == "vcpkg"@,
    {
        "vcpkg"
    }

    fn display_name(&self) -> (r: &'static str)
        ensures
            r@ == "vcpkg (C/C++)"@,
    {
        "vcpkg (C/C++)"
    }
}

impl VcpkgManager {
    /// How to keep the cache from growing back.
    pub fn prevention_tip(&self) -> (r: &'static str)
        ensures
            r@ == "Set VCPKG_BINARY_SOURCES to a shared NuGet or HTTP cache. Clean buildtrees/ directory regularly."@,
    {
        "Set VCPKG_BINARY_SOURCES to a shared NuGet or HTTP cache. Clean buildtrees/ directory regularly."
    }
}

/// The Visual Studio Code cache manager.
#[derive(Debug, Default)]
pub struct VsCodeManager;

impl PackageManager for VsCodeManager {
    fn name(&self) -> (r: &'static str)
        ensures
            r@ == "vscode"@,
    {
        "vscode"
    }

    fn display_name(&self) -> (r: &'static str)
        ensures
            r@ == "Visual Studio Code"@,
    {
        "Visual Studio Code"
    }
}

impl VsCodeManager {
    /// How to keep the cache from growing back.
    pub fn prevention_tip(&self) -> (r: &'static str)
        ensures
            r@ == "Disable unused extensions and set 'workbench.enableExperiments' to false to reduce CachedExtensions growth."@,
    {
        "Disable unused extensions and set 'workbench.enableExperiments' to false to reduce CachedExtensions growth."
    }
}
/// The Yarn cache manager.
#[derive(Debug)]
pub struct YarnManager {
    executable_path: String,
    is_berry: bool,
}

/// A Yarn version text is that of Yarn Berry (version 2 and later).
pub open spec fn berry_version(v: Seq<char>) -> bool {
    v.len() > 0 && (v[0] == '2' || v[0] == '3' || v[0] == '4')
}

/// Whether `yarn --version` printed a Yarn Berry version.
pub fn is_berry_version(v: &str) -> (b: bool)
    ensures
        b == berry_version(v@),
{
    let c = chars_of(v);
    c.len() > 0 && (c[0] == '2' || c[0] == '3' || c[0] == '4')
}

impl YarnManager {
    /// The manager for the Yarn executable found, Berry when its version
    /// output says so.
    pub fn new(executable_path: Option<String>, version_output: Option<&str>) -> (r: Result<Self, PkgError>)
        ensures
            executable_path is None ==> r == Err::<Self, PkgError>(PkgError::ExecutableNotFound),
            executable_path matches Some(p) ==> (r matches Ok(m) && m.executable()@ == p@ && m.berry() == (
            version_output matches Some(v) && berry_version(v@))),
    {
        match executable_path {
            Some(p) => {
                let is_berry = match version_output {
                    Some(v) => is_berry_version(v),
                    None => false,
                };
                Ok(YarnManager { executable_path: p, is_berry })
            },
            None => Err(PkgError::ExecutableNotFound),
        }
    }

    /// The executable.
    pub closed spec fn executable(&self) -> String {
        self.executable_path
    }

    /// It is Yarn Berry.
    pub closed spec fn berry(&self) -> bool {
        self.is_berry
    }

    /// Whether this is Yarn Berry.
    pub fn uses_berry(&self) -> (b: bool)
        ensures
            b == self.berry(),
    {
        self.is_berry
    }
}

impl PackageManager for YarnManager {
    fn name(&self) -> (r: &'static str)
        ensures
            r@ == "yarn"@,
    {
        "yarn"
    }

    fn display_name(&self) -> (r: &'static str)
        ensures
            r@ == (if self.berry() { "Yarn Berry"@ } else { "Yarn Classic"@ }),
    {
        if self.is_berry {
            "Yarn Berry"
        } else {
            "Yarn Classic"
        }
    }
}

impl GoModulesManager {
    /// The manager for the Go executable found.
    pub fn new(executable_path: Option<String>) -> (r: Result<Self, PkgError>)
        ensures
            executable_path is None ==> r == Err::<Self, PkgError>(PkgError::ExecutableNotFound),
            executable_path matches Some(p) ==> (r matches Ok(m) && m.executable()@ == p@),
    {
        match executable_path {
            Some(p) => Ok(GoModulesManager { executable_path: p }),
            None => Err(PkgError::ExecutableNotFound),
        }
    }

    /// The executable.
    pub closed spec fn executable(&self) -> String {
        self.executable_path
    }
}

impl PnpmManager {
    /// The manager for the pnpm executable found.
    pub fn new(executable_path: Option<String>) -> (r: Result<Self, PkgError>)
        ensures
            executable_path is None ==> r == Err::<Self, PkgError>(PkgError::ExecutableNotFound),
            executable_path matches Some(p) ==> (r matches Ok(m) && m.executable()@ == p@),
    {
        match executable_path {
            Some(p) => Ok(PnpmManager { executable_path: p }),
            None => Err(PkgError::ExecutableNotFound),
        }
    }

    /// The executable.
    pub closed spec fn executable(&self) -> String {
        self.executable_path
    }
}

impl PoetryManager {
    /// The manager for the Poetry executable found.
    pub fn new(executable_path: Option<String>) -> (r: Result<Self, PkgError>)
        ensures
            executable_path is None ==> r == Err::<Self, PkgError>(PkgError::ExecutableNotFound),
            executable_path matches Some(p) ==> (r matches Ok(m) && m.executable()@ == p@),
    {
        match executable_path {
            Some(p) => Ok(PoetryManager { executable_path: p }),
            None => Err(PkgError::ExecutableNotFound),
        }
    }

    /// The executable.
    pub closed spec fn executable(&self) -> String {
        self.executable_path
    }
}

// ---------------------------------------------------------------------------
// The registry
// ---------------------------------------------------------------------------

/// The managers the registry holds.
#[derive(Debug, Clone, Copy, PartialEq, Eq, Structural)]
pub enum ManagerKind {
    Npm,
    Pnpm,
    Yarn,
    Pip,
    Poetry,
    Cargo,
    GoModules,
    Nuget,
}

/// The short name of a manager.
pub open spec fn kind_name(k: ManagerKind) -> Seq<char> {
    match k {
        ManagerKind::Npm => "npm"@,
        ManagerKind::Pnpm => "pnpm"@,
        ManagerKind::Yarn => "yarn"@,
        ManagerKind::Pip => "pip"@,
        ManagerKind::Poetry => "poetry"@,
        ManagerKind::Cargo => "cargo"@,
        ManagerKind::GoModules => "go"@,
        ManagerKind::Nuget => "nuget"@,
    }
}

impl ManagerKind {
    /// The short name of the manager.
    pub fn name(&self) -> (r: &'static str)
        ensures
            r@ == kind_name(*self),
    {
        match self {
            ManagerKind::Npm => "npm",
            ManagerKind::Pnpm => "pnpm",
            ManagerKind::Yarn => "yarn",
            ManagerKind::Pip => "pip",
            ManagerKind::Poetry => "poetry",
            ManagerKind::Cargo => "cargo",
            ManagerKind::GoModules => "go",
            ManagerKind::Nuget => "nuget",
        }
    }
}

/// The registered managers, in order.
pub open spec fn registered() -> Seq<ManagerKind> {
    seq![
        ManagerKind::Npm,
        ManagerKind::Pnpm,
        ManagerKind::Yarn,
        ManagerKind::Pip,
        ManagerKind::Poetry,
        ManagerKind::Cargo,
        ManagerKind::GoModules,
        ManagerKind::Nuget,
    ]
}

/// The first manager of `ms` with that name.
pub open spec fn find_kind(ms: Seq<ManagerKind>, n: Seq<char>) -> Option<ManagerKind>
    decreases ms.len(),
{
    if ms.len() == 0 {
        None
    } else if kind_name(ms[0]) == n {
        Some(ms[0])
    } else {
        find_kind(ms.drop_first(), n)
    }
}

/// The registry of package managers.
pub struct PackageManagerRegistry {
    managers: Vec<ManagerKind>,
}

impl PackageManagerRegistry {
    /// The registry of every supported manager: npm, pnpm, Yarn, pip,
    /// Poetry, Cargo, Go modules and NuGet.
    pub fn new() -> (r: Self)
        ensures
            r.kinds() == registered(),
    {
        PackageManagerRegistry {
            managers: vec![
                ManagerKind::Npm,
                ManagerKind::Pnpm,
                ManagerKind::Yarn,
                ManagerKind::Pip,
                ManagerKind::Poetry,
                ManagerKind::Cargo,
                ManagerKind::GoModules,
                ManagerKind::Nuget,
            ],
        }
    }

    /// The managers held, in order.
    pub closed spec fn kinds(&self) -> Seq<ManagerKind> {
        self.managers@
    }

    /// All managers, in order.
    pub fn get_managers(&self) -> (r: &[ManagerKind])
        ensures
            r@ == self.kinds(),
    {
        self.managers.as_slice()
    }

    /// The managers that are installed (`installed[i]` for the `i`th), in
    /// order.
    pub fn get_installed(&self, installed: &[bool]) -> (r: Vec<ManagerKind>)
        ensures
            r@ == installed_of(self.kinds(), installed@),
    {
        let ghost ms = self.managers@;
        let mut out: Vec<ManagerKind> = Vec::new();
        let mut i: usize = 0;
        assert(ms.take(0) =~= Seq::<ManagerKind>::empty());
        while i < self.managers.len()
            invariant
                i <= ms.len(),
                ms == self.managers@,
                out@ == installed_of(ms.take(i as int), installed@),
            decreases ms.len() - i,
        {
            assert(ms.take(i + 1).drop_last() =~= ms.take(i as int));
            assert(ms.take(i + 1).last() == ms[i as int]);
            if i < installed.len() && installed[i] {
                out.push(self.managers[i]);
            }
            i += 1;
        }
        assert(ms.take(ms.len() as int) =~= ms);
        out
    }

    /// The results of cleaning every installed manager's caches, in order:
    /// `outcomes[i]` is what cleaning the `i`th installed manager (see
    /// `get_installed`) gave; a failure becomes a result for that manager
    /// with the error and nothing freed.
    pub fn clean_all(&self, installed: &[bool], outcomes: Vec<Result<PackageCleanResult, String>>) -> (r: Vec<
        PackageCleanResult,
    >)
        requires
            outcomes@.len() == installed_of(self.kinds(), installed@).len(),
        ensures
            r@.len() == outcomes@.len(),
            forall|i: int|
                0 <= i < r@.len() ==> match #[trigger] outcomes@[i] {
                    Ok(res) => r@[i] == res,
                    Err(e) => r@[i].package_manager@ == kind_name(installed_of(self.kinds(), installed@)[i])
                        && r@[i].space_freed == 0 && r@[i].items_deleted == 0 && texts(r@[i].errors@) == seq![e@]
                        && r@[i].duration_ms == 0,
                },
    {
        let kinds = self.get_installed(installed);
        let ghost all = outcomes@;
        let n = outcomes.len();
        let mut rest = outcomes;
        let mut out: Vec<PackageCleanResult> = Vec::new();
        let mut i: usize = 0;
        while rest.len() > 0
            invariant
                kinds@ == installed_of(self.kinds(), installed@),
                all.len() == kinds@.len(),
                all.len() == n,
                i + rest@.len() == all.len(),
                rest@ == all.subrange(i as int, all.len() as int),
                out@.len() == i,
                forall|k: int|
                    0 <= k < i ==> match #[trigger] all[k] {
                        Ok(res) => out@[k] == res,
                        Err(e) => out@[k].package_manager@ == kind_name(kinds@[k]) && out@[k].space_freed == 0
                            && out@[k].items_deleted == 0 && texts(out@[k].errors@) == seq![e@]
                            && out@[k].duration_ms == 0,
                    },
            decreases rest@.len(),
        {
            let ghost before = rest@;
            let o = rest.remove(0);
            assert(rest@ =~= all.subrange(i + 1, all.len() as int));
            assert(o == all[i as int]);
            match o {
                Ok(res) => out.push(res),
                Err(e) => out.push(failed_clean_result(kinds[i].name(), e)),
            }
            i += 1;
        }
        out
    }

    /// The manager of that name.
    pub fn get_by_name(&self, name: &str) -> (r: Option<ManagerKind>)
        ensures
            r == find_kind(self.kinds(), name@),
    {
        let ghost ms = self.managers@;
        let mut i: usize = 0;
        assert(ms.subrange(0, ms.len() as int) =~= ms);
        while i < self.managers.len()
            invariant
                i <= ms.len(),
                ms == self.managers@,
                find_kind(ms, name@) == find_kind(ms.subrange(i as int, ms.len() as int), name@),
            decreases ms.len() - i,
        {
            let ghost rest = ms.subrange(i as int, ms.len() as int);
            assert(rest[0] == ms[i as int]);
            assert(rest.drop_first() =~= ms.subrange(i + 1, ms.len() as int));
            let k = self.managers[i];
            if str_eq(k.name(), name) {
                return Some(k);
            }
            i += 1;
        }
        None
    }
}

/// The sum of the sizes that could be measured.
pub open spec fn sum_known(sizes: Seq<Option<u64>>) -> int
    decreases sizes.len(),
{
    if sizes.len() == 0 {
        0
    } else {
        sum_known(sizes.drop_last()) + match sizes.last() {
            Some(s) => s as int,
            None => 0,
        }
    }
}

/// Partial sums never exceed the whole.
proof fn lemma_sum_known_prefix(sizes: Seq<Option<u64>>, k: int)
    requires
        0 <= k <= sizes.len(),
    ensures
        0 <= sum_known(sizes.subrange(0, k)) <= sum_known(sizes),
    decreases sizes.len(),
{
    if k < sizes.len() {
        assert(sizes.drop_last().subrange(0, k) =~= sizes.subrange(0, k));
        lemma_sum_known_prefix(sizes.drop_last(), k);
    } else {
        assert(sizes.subrange(0, k) =~= sizes);
        if sizes.len() > 0 {
            lemma_sum_known_prefix(sizes.drop_last(), sizes.len() - 1);
            assert(sizes.drop_last().subrange(0, sizes.len() - 1) =~= sizes.drop_last());
        }
    }
}

/// The managers marked installed, in order: `installed[i]` says whether
/// `kinds[i]` is.
pub open spec fn installed_of(kinds: Seq<ManagerKind>, installed: Seq<bool>) -> Seq<ManagerKind>
    decreases kinds.len(),
{
    if kinds.len() == 0 {
        Seq::empty()
    } else {
        let k = kinds.len() - 1;
        let rest = installed_of(kinds.drop_last(), installed);
        if k < installed.len() && installed[k] {
            rest.push(kinds.last())
        } else {
            rest
        }
    }
}

/// The total cache size of the installed managers: the sizes that could be
/// measured, added up (one that could not counts as nothing).
pub fn total_cache_size(sizes: &[Option<u64>]) -> (t: u64)
    requires
        sum_known(sizes@) <= u64::MAX,
    ensures
        t == sum_known(sizes@),
{
    let mut total: u64 = 0;
    let mut i: usize = 0;
    while i < sizes.len()
        invariant
            i <= sizes@.len(),
            sum_known(sizes@) <= u64::MAX,
            total == sum_known(sizes@.subrange(0, i as int)),
        decreases sizes@.len() - i,
    {
        assert(sizes@.subrange(0, i + 1).drop_last() =~= sizes@.subrange(0, i as int));
        assert(sizes@.subrange(0, i + 1).last() == sizes@[i as int]);
        proof {
            lemma_sum_known_prefix(sizes@, i + 1);
        }
        match sizes[i] {
            Some(s) => {
                total = total + s;
            },
            None => {},
        }
        i += 1;
    }
    assert(sizes@.subrange(0, sizes@.len() as int) =~= sizes@);
    total
}

// ---------------------------------------------------------------------------
// Cache locations
// ---------------------------------------------------------------------------

impl CargoManager {
    /// The manager for the Cargo executable found.
    pub fn new(cargo_path: Option<String>) -> (m: Self)
        ensures
            opt_text(m.path()) == opt_text(cargo_path),
            m.home() is None,
    {
        CargoManager { cargo_path, cargo_home: None }
    }

    /// The Cargo executable.
    pub closed spec fn path(&self) -> Option<String> {
        self.cargo_path
    }

    /// The Cargo executable set on the manager.
    pub fn configured_path(&self) -> (r: Option<String>)
        ensures
            opt_text(r) == opt_text(self.path()),
    {
        match &self.cargo_path {
            Some(p) => Some(p.clone()),
            None => None,
        }
    }

    /// The Cargo home set on the manager.
    pub closed spec fn home(&self) -> Option<String> {
        self.cargo_home
    }

    /// Cargo's home: the one set on the manager, else `CARGO_HOME`, else
    /// `.cargo` in the home directory.
    pub fn cargo_home_for(&self, env_cargo_home: Option<&str>, home: Option<&str>) -> (r: Result<String, PkgError>)
        ensures
            match self.home() {
                Some(h) => r matches Ok(s) && s@ == h@,
                None => match env_cargo_home {
                    Some(e) => r matches Ok(s) && s@ == e@,
                    None => match home {
                        Some(h) => r matches Ok(s) && s@ == push_path(h@, ".cargo"@),
                        None => r == Err::<String, PkgError>(PkgError::NoHomeDirectory),
                    },
                },
            },
    {
        match &self.cargo_home {
            Some(h) => Ok(h.clone()),
            None => match env_cargo_home {
                Some(e) => Ok(to_owned(e)),
                None => match home {
                    Some(h) => Ok(push_path_str(h, ".cargo")),
                    None => Err(PkgError::NoHomeDirectory),
                },
            },
        }
    }

    /// The registry cache under Cargo's home.
    pub fn registry_cache_path(cargo_home: &str) -> (r: String)
        ensures
            r@ == push_path(cargo_home@, "registry"@),
    {
        push_path_str(cargo_home, "registry")
    }

    /// The git cache under Cargo's home.
    pub fn git_cache_path(cargo_home: &str) -> (r: String)
        ensures
            r@ == push_path(cargo_home@, "git"@),
    {
        push_path_str(cargo_home, "git")
    }

    /// The shared target directory under Cargo's home.
    pub fn global_target_path(cargo_home: &str) -> (r: String)
        ensures
            r@ == push_path(cargo_home@, "target"@),
    {
        push_path_str(cargo_home, "target")
    }

    /// Whether a path is a build `target` directory, which cleaning paths
    /// skips (`Path::ends_with("target")`).
    pub fn is_target_dir(path: &str) -> (b: bool)
        ensures
            b == (components(path@).len() > 0 && components(path@).last() == "target"@),
    {
        let cs = crate::path::components_chars(&chars_of(path));
        if cs.len() == 0 {
            return false;
        }
        let last = string_of(&cs[cs.len() - 1]);
        assert(views(cs@).last() == cs@[cs@.len() - 1]@);
        str_eq(last.as_str(), "target")
    }
}

impl NpmManager {
    /// The manager for the npm executable found.
    pub fn new(npm_path: Option<String>) -> (m: Self)
        ensures
            opt_text(m.path()) == opt_text(npm_path),
            m.cache() is None,
    {
        NpmManager { npm_path, cache_path: None }
    }

    /// The npm executable.
    pub closed spec fn path(&self) -> Option<String> {
        self.npm_path
    }

    /// The cache path set on the manager.
    pub closed spec fn cache(&self) -> Option<String> {
        self.cache_path
    }

    /// The npm executable found when the manager was made.
    pub fn npm_executable(&self) -> (r: Option<String>)
        ensures
            opt_text(r) == opt_text(self.path()),
    {
        match &self.npm_path {
            Some(p) => Some(p.clone()),
            None => None,
        }
    }

    /// The newer default cache location.
    pub fn new_cache_location(home: &str) -> (r: String)
        ensures
            r@ == push_path(push_path(push_path(home@, "AppData"@), "Local"@), "npm-cache"@),
    {
        let a = push_path_str(home, "AppData");
        let b = push_path_str(a.as_str(), "Local");
        push_path_str(b.as_str(), "npm-cache")
    }

    /// npm's cache: the one set on the manager, else what
    /// `npm config get cache` printed (trimmed, when npm was found and the
    /// command succeeded), else the newer default location when it exists,
    /// else `.npm` in the home directory.
    pub fn cache_path_for(&self, config_output: Option<&str>, home: Option<&str>, new_cache_exists: bool) -> (r: Result<String, PkgError>)
        ensures
            match self.cache() {
                Some(c) => r matches Ok(s) && s@ == c@,
                None => if self.path() is Some && config_output is Some {
                    r matches Ok(s) && s@ == trim(config_output.unwrap()@)
                } else {
                    match home {
                        Some(h) => r matches Ok(s) && s@ == (if new_cache_exists {
                            push_path(push_path(push_path(h@, "AppData"@), "Local"@), "npm-cache"@)
                        } else {
                            push_path(h@, ".npm"@)
                        }),
                        None => r == Err::<String, PkgError>(PkgError::NoHomeDirectory),
                    }
                },
            },
    {
        match &self.cache_path {
            Some(c) => {
                return Ok(c.clone());
            },
            None => {},
        }
        if self.npm_path.is_some() {
            match config_output {
                Some(o) => {
                    return Ok(str_trim(o));
                },
                None => {},
            }
        }
        match home {
            Some(h) => {
                if new_cache_exists {
                    Ok(Self::new_cache_location(h))
                } else {
                    Ok(push_path_str(h, ".npm"))
                }
            },
            None => Err(PkgError::NoHomeDirectory),
        }
    }

    /// npm's global modules: `node_modules` under what
    /// `npm config get prefix` printed (trimmed, when npm was found and the
    /// command succeeded), else under the default prefix; the home directory
    /// must be known either way.
    pub fn global_modules_path_for(&self, prefix_output: Option<&str>, home: Option<&str>) -> (r: Result<String, PkgError>)
        ensures
            match home {
                None => r == Err::<String, PkgError>(PkgError::NoHomeDirectory),
                Some(h) => r matches Ok(s) && s@ == (if self.path() is Some && prefix_output is Some {
                    push_path(trim(prefix_output.unwrap()@), "node_modules"@)
                } else {
                    push_path(push_path(push_path(push_path(h@, "AppData"@), "Roaming"@), "npm"@), "node_modules"@)
                }),
            },
    {
        let h = match home {
            Some(h) => h,
            None => {
                return Err(PkgError::NoHomeDirectory);
            },
        };
        if self.npm_path.is_some() {
            match prefix_output {
                Some(p) => {
                    let t = str_trim(p);
                    return Ok(push_path_str(t.as_str(), "node_modules"));
                },
                None => {},
            }
        }
        let a = push_path_str(h, "AppData");
        let b = push_path_str(a.as_str(), "Roaming");
        let c = push_path_str(b.as_str(), "npm");
        Ok(push_path_str(c.as_str(), "node_modules"))
    }

    /// The log directory of npm under the home directory.
    pub fn log_path(home: &str) -> (r: String)
        ensures
            r@ == push_path(push_path(home@, ".npm"@), "_logs"@),
    {
        let a = push_path_str(home, ".npm");
        push_path_str(a.as_str(), "_logs")
    }
}

/// The repository a `settings.xml` line names: the trimmed text between
/// `<localRepository>` and `</localRepository>` on a trimmed line, when it
/// is not empty.
pub open spec fn settings_repo_line(line: Seq<char>) -> Option<Seq<char>> {
    let t = trim(line);
    let open = "<localRepository>"@;
    let close = "</localRepository>"@;
    if has_prefix(t, open) && has_suffix(t.subrange(open.len() as int, t.len() as int), close) {
        let inner = trim(t.subrange(open.len() as int, t.len() - close.len()));
        if inner.len() > 0 {
            Some(inner)
        } else {
            None
        }
    } else {
        None
    }
}

/// The repository named by the first line of `settings.xml` that names one.
pub open spec fn settings_repo(lines: Seq<Seq<char>>) -> Option<Seq<char>>
    decreases lines.len(),
{
    if lines.len() == 0 {
        None
    } else {
        match settings_repo_line(lines[0]) {
            Some(r) => Some(r),
            None => settings_repo(lines.drop_first()),
        }
    }
}

/// Maven's local repository: an absolute `MAVEN_LOCAL_REPO`, else the one
/// `~/.m2/settings.xml` names (relative to the home directory unless
/// absolute), else `~/.m2/repository` (`.m2\repository` without a home).
pub open spec fn maven_repo(env_repo: Option<Seq<char>>, home: Option<Seq<char>>, settings: Option<Seq<char>>) -> Seq<char> {
    if env_repo matches Some(e) && is_absolute(e) {
        env_repo.unwrap()
    } else {
        match home {
            Some(h) => {
                let named = match settings {
                    Some(c) => settings_repo(lines_of(c)),
                    None => None,
                };
                match named {
                    Some(inner) => if is_absolute(inner) {
                        inner
                    } else {
                        push_path(h, inner)
                    },
                    None => push_path(push_path(h, ".m2"@), "repository"@),
                }
            },
            None => push_path(".m2"@, "repository"@),
        }
    }
}

/// The repository one `settings.xml` line names.
fn settings_line_repo(line: &Vec<char>) -> (r: Option<String>)
    ensures
        opt_text(r) == settings_repo_line(line@),
{
    let t = trim_chars(line);
    let open = chars_of("<localRepository>");
    let close = chars_of("</localRepository>");
    proof {
        reveal_strlit("<localRepository>");
        reveal_strlit("</localRepository>");
    }
    if !crate::text::starts_with(&t, &open) {
        return None;
    }
    let rest = crate::text::copy_range(&t, 17, t.len());
    if !crate::text::ends_with(&rest, &close) {
        return None;
    }
    assert(t@.subrange(17, t@.len() as int) == rest@);
    let inner = crate::text::copy_range(&t, 17, t.len() - 18);
    let it = trim_chars(&inner);
    if it.len() > 0 {
        Some(string_of(&it))
    } else {
        None
    }
}

impl MavenManager {
    /// A Maven manager.
    pub fn new() -> (m: Self) {
        MavenManager
    }

    /// Maven's local repository, from `MAVEN_LOCAL_REPO`, the home directory
    /// and the contents of `~/.m2/settings.xml` when it could be read.
    pub fn resolve_local_repo(env_repo: Option<&str>, home: Option<&str>, settings: Option<&str>) -> (r: String)
        ensures
            r@ == maven_repo(
                match env_repo { Some(e) => Some(e@), None => None },
                match home { Some(h) => Some(h@), None => None },
                match settings { Some(s) => Some(s@), None => None },
            ),
    {
        match env_repo {
            Some(e) => {
                if path_is_absolute(e) {
                    return to_owned(e);
                }
            },
            None => {},
        }
        let h = match home {
            Some(h) => h,
            None => {
                return push_path_str(".m2", "repository");
            },
        };
        match settings {
            Some(c) => {
                let ls = lines_chars(&chars_of(c));
                let ghost all = views(ls@);
                let mut i: usize = 0;
                assert(all.subrange(0, all.len() as int) =~= all);
                while i < ls.len()
                    invariant
                        i <= ls@.len(),
                        all == views(ls@),
                        all == lines_of(c@),
                        home == Some(h),
                        settings == Some(c),
                        !(env_repo matches Some(e) && is_absolute(e@)),
                        settings_repo(all) == settings_repo(all.subrange(i as int, all.len() as int)),
                    decreases ls@.len() - i,
                {
                    let ghost rest = all.subrange(i as int, all.len() as int);
                    assert(rest[0] == ls@[i as int]@);
                    assert(rest.drop_first() =~= all.subrange(i + 1, all.len() as int));
                    match settings_line_repo(&ls[i]) {
                        Some(inner) => {
                            if path_is_absolute(inner.as_str()) {
                                return inner;
                            }
                            return push_path_str(h, inner.as_str());
                        },
                        None => {},
                    }
                    i += 1;
                }
                assert(all.subrange(i as int, all.len() as int) =~= Seq::<Seq<char>>::empty());
            },
            None => {},
        }
        let m2 = push_path_str(h, ".m2");
        push_path_str(m2.as_str(), "repository")
    }
}

// ---------------------------------------------------------------------------
// Environment variables in candidate paths
// ---------------------------------------------------------------------------

/// The values of the environment variables that candidate paths use, empty
/// when unset.
#[derive(Debug, Clone)]
pub struct EnvValues {
    pub local_app_data: String,
    pub app_data: String,
    pub program_files: String,
    pub program_files_x86: String,
    pub user_profile: String,
}

/// A candidate path with `%LOCALAPPDATA%`, optionally `%APPDATA%`,
/// `%ProgramFiles%`, `%ProgramFiles(x86)%` and optionally `%USERPROFILE%`
/// replaced, in that order.
pub open spec fn expanded(path: Seq<char>, env: EnvValues, app_data: bool, user_profile: bool) -> Seq<char> {
    let a = replace_seq(path, "%LOCALAPPDATA%"@, env.local_app_data@);
    let b = if app_data { replace_seq(a, "%APPDATA%"@, env.app_data@) } else { a };
    let c = replace_seq(b, "%ProgramFiles%"@, env.program_files@);
    let d = replace_seq(c, "%ProgramFiles(x86)%"@, env.program_files_x86@);
    if user_profile { replace_seq(d, "%USERPROFILE%"@, env.user_profile@) } else { d }
}

/// Replace the environment variables in a candidate path.
pub fn expand_env(path: &str, env: &EnvValues, app_data: bool, user_profile: bool) -> (r: String)
    ensures
        r@ == expanded(path@, *env, app_data, user_profile),
{
    proof {
        reveal_strlit("%LOCALAPPDATA%");
        reveal_strlit("%APPDATA%");
        reveal_strlit("%ProgramFiles%");
        reveal_strlit("%ProgramFiles(x86)%");
        reveal_strlit("%USERPROFILE%");
    }
    let a = replace_all(path, "%LOCALAPPDATA%", env.local_app_data.as_str());
    let b = if app_data { replace_all(a.as_str(), "%APPDATA%", env.app_data.as_str()) } else { a };
    let c = replace_all(b.as_str(), "%ProgramFiles%", env.program_files.as_str());
    let d = replace_all(c.as_str(), "%ProgramFiles(x86)%", env.program_files_x86.as_str());
    if user_profile {
        replace_all(d.as_str(), "%USERPROFILE%", env.user_profile.as_str())
    } else {
        d
    }
}

/// The first candidate from index `i` on that exists: `exists[k]` says
/// whether `candidates[k]` exists.
pub open spec fn first_existing_from(candidates: Seq<String>, exists: Seq<bool>, i: int) -> Option<Seq<char>>
    decreases candidates.len() - i,
{
    if i < 0 || i >= candidates.len() {
        None
    } else if i < exists.len() && exists[i] {
        Some(candidates[i]@)
    } else {
        first_existing_from(candidates, exists, i + 1)
    }
}

/// The first candidate that exists.
pub fn first_existing(candidates: &[String], exists: &[bool]) -> (r: Option<String>)
    ensures
        opt_text(r) == first_existing_from(candidates@, exists@, 0),
{
    let mut i: usize = 0;
    while i < candidates.len()
        invariant
            i <= candidates@.len(),
            first_existing_from(candidates@, exists@, 0) == first_existing_from(candidates@, exists@, i as int),
        decreases candidates@.len() - i,
    {
        if i < exists.len() && exists[i] {
            return Some(candidates[i].clone());
        }
        i += 1;
    }
    None
}

/// Where the Go executable may be installed.
pub fn go_candidates() -> (r: Vec<&'static str>)
    ensures
        r@ == seq![
            r"%LOCALAPPDATA%\Programs\Go\bin\go.exe",
            r"C:\Go\bin\go.exe",
            r"%ProgramFiles%\Go\bin\go.exe",
            r"%ProgramFiles(x86)%\Go\bin\go.exe",
            r"%USERPROFILE%\go\bin\go.exe",
        ],
{
    vec![
        r"%LOCALAPPDATA%\Programs\Go\bin\go.exe",
        r"C:\Go\bin\go.exe",
        r"%ProgramFiles%\Go\bin\go.exe",
        r"%ProgramFiles(x86)%\Go\bin\go.exe",
        r"%USERPROFILE%\go\bin\go.exe",
    ]
}

/// Where the pnpm executable may be installed.
pub fn pnpm_candidates() -> (r: Vec<&'static str>)
    ensures
        r@ == seq![
            r"%LOCALAPPDATA%\pnpm\pnpm.exe",
            r"%APPDATA%\npm\pnpm.cmd",
            r"%ProgramFiles%\pnpm\pnpm.exe",
            r"%ProgramFiles(x86)%\pnpm\pnpm.exe",
        ],
{
    vec![
        r"%LOCALAPPDATA%\pnpm\pnpm.exe",
        r"%APPDATA%\npm\pnpm.cmd",
        r"%ProgramFiles%\pnpm\pnpm.exe",
        r"%ProgramFiles(x86)%\pnpm\pnpm.exe",
    ]
}

/// Where the Poetry executable may be installed.
pub fn poetry_candidates() -> (r: Vec<&'static str>)
    ensures
        r@ == seq![
            r"%LOCALAPPDATA%\Programs\Python\Scripts\poetry.exe",
            r"%APPDATA%\Python\Scripts\poetry.exe",
            r"%ProgramFiles%\Python\Scripts\poetry.exe",
            r"%ProgramFiles(x86)%\Python\Scripts\poetry.exe",
            r"%USERPROFILE%\.poetry\bin\poetry.exe",
        ],
{
    vec![
        r"%LOCALAPPDATA%\Programs\Python\Scripts\poetry.exe",
        r"%APPDATA%\Python\Scripts\poetry.exe",
        r"%ProgramFiles%\Python\Scripts\poetry.exe",
        r"%ProgramFiles(x86)%\Python\Scripts\poetry.exe",
        r"%USERPROFILE%\.poetry\bin\poetry.exe",
    ]
}

/// Where the Yarn executable may be installed.
pub fn yarn_candidates() -> (r: Vec<&'static str>)
    ensures
        r@ == seq![
            r"%LOCALAPPDATA%\Yarn\bin\yarn.cmd",
            r"%APPDATA%\npm\yarn.cmd",
            r"%ProgramFiles%\Yarn\bin\yarn.cmd",
            r"%ProgramFiles(x86)%\Yarn\bin\yarn.cmd",
        ],
{
    vec![
        r"%LOCALAPPDATA%\Yarn\bin\yarn.cmd",
        r"%APPDATA%\npm\yarn.cmd",
        r"%ProgramFiles%\Yarn\bin\yarn.cmd",
        r"%ProgramFiles(x86)%\Yarn\bin\yarn.cmd",
    ]
}

// ---------------------------------------------------------------------------
// Other cache locations
// ---------------------------------------------------------------------------

/// The package directories listed in `CONDA_PKGS_DIRS`: its `;`-separated
/// parts, trimmed.
pub fn conda_env_pkgs_dirs(value: &str) -> (r: Vec<String>)
    ensures
        texts(r@) == crate::text::split_on(value@, ';').map_values(|p: Seq<char>| trim(p)),
{
    let parts = crate::text::split_chars(&chars_of(value), ';');
    let ghost ps = views(parts@);
    let mut out: Vec<String> = Vec::new();
    let mut i: usize = 0;
    while i < parts.len()
        invariant
            i <= parts@.len(),
            ps == views(parts@),
            ps == crate::text::split_on(value@, ';'),
            texts(out@) == ps.subrange(0, i as int).map_values(|p: Seq<char>| trim(p)),
        decreases parts@.len() - i,
    {
        let t = string_of(&trim_chars(&parts[i]));
        let ghost before = out@;
        out.push(t);
        assert(texts(before.push(t)) =~= texts(before).push(t@));
        assert(ps.subrange(0, i + 1) =~= ps.subrange(0, i as int).push(ps[i as int]));
        assert(ps.subrange(0, i as int).push(ps[i as int]).map_values(|p: Seq<char>| trim(p)) =~= ps.subrange(
            0,
            i as int,
        ).map_values(|p: Seq<char>| trim(p)).push(trim(ps[i as int])));
        assert(ps[i as int] == parts@[i as int]@);
        i += 1;
    }
    assert(ps.subrange(0, ps.len() as int) =~= ps);
    out
}

impl GitLfsManager {
    /// The object store under `%APPDATA%`.
    pub fn appdata_objects_dir(app_data: &str) -> (r: String)
        ensures
            r@ == push_path(push_path(push_path(app_data@, "Git"@), "lfs"@), "objects"@),
    {
        let a = push_path_str(app_data, "Git");
        let b = push_path_str(a.as_str(), "lfs");
        push_path_str(b.as_str(), "objects")
    }

    /// Git LFS's object store: the one under `%APPDATA%` when it exists, else
    /// `.git\lfs\objects` under the home directory (or alone without one).
    pub fn lfs_cache_dir(app_data: Option<&str>, appdata_objects_exist: bool, home: Option<&str>) -> (r: String)
        ensures
            r@ == (if app_data is Some && appdata_objects_exist {
                push_path(push_path(push_path(app_data.unwrap()@, "Git"@), "lfs"@), "objects"@)
            } else {
                push_path(
                    push_path(push_path(match home { Some(h) => h@, None => Seq::empty() }, ".git"@), "lfs"@),
                    "objects"@,
                )
            }),
    {
        match app_data {
            Some(a) => {
                if appdata_objects_exist {
                    return Self::appdata_objects_dir(a);
                }
            },
            None => {},
        }
        let base = match home {
            Some(h) => to_owned(h),
            None => String::new(),
        };
        let a = push_path_str(base.as_str(), ".git");
        let b = push_path_str(a.as_str(), "lfs");
        push_path_str(b.as_str(), "objects")
    }
}

impl UvManager {
    /// uv's cache under the user cache directory.
    pub fn cache_dir(cache_dir: Option<&str>) -> (r: Option<String>)
        ensures
            opt_text(r) == match cache_dir {
                Some(c) => Some(push_path(push_path(c@, "uv"@), "cache"@)),
                None => None,
            },
    {
        match cache_dir {
            Some(c) => {
                let a = push_path_str(c, "uv");
                Some(push_path_str(a.as_str(), "cache"))
            },
            None => None,
        }
    }
}

impl JetBrainsManager {
    /// The JetBrains directory under the user cache directory.
    pub fn base_dir(cache_dir: Option<&str>) -> (r: Option<String>)
        ensures
            opt_text(r) == match cache_dir {
                Some(c) => Some(push_path(c@, "JetBrains"@)),
                None => None,
            },
    {
        match cache_dir {
            Some(c) => Some(push_path_str(c, "JetBrains")),
            None => None,
        }
    }

    /// The cache folders of one product folder.
    pub fn product_cache_dirs(product: &str) -> (r: Vec<String>)
        ensures
            texts(r@) == seq![
                push_path(product@, "log"@),
                push_path(product@, "cache"@),
                push_path(product@, "caches"@),
                push_path(product@, "tmp"@),
            ],
    {
        let mut r: Vec<String> = Vec::new();
        r.push(push_path_str(product, "log"));
        r.push(push_path_str(product, "cache"));
        r.push(push_path_str(product, "caches"));
        r.push(push_path_str(product, "tmp"));
        assert(texts(r@) =~= seq![
            push_path(product@, "log"@),
            push_path(product@, "cache"@),
            push_path(product@, "caches"@),
            push_path(product@, "tmp"@),
        ]);
        r
    }
}

impl VsCodeManager {
    /// The user-data folder of a portable install.
    pub fn portable_user_data(portable: &str) -> (r: String)
        ensures
            r@ == push_path(portable@, "user-data"@),
    {
        push_path_str(portable, "user-data")
    }

    /// VS Code's data folder: the portable user data when `VSCODE_PORTABLE`
    /// is set and it exists, else `Code` under the user config directory.
    pub fn code_dir(portable: Option<&str>, portable_user_data_exists: bool, config_dir: Option<&str>) -> (r: Option<String>)
        ensures
            opt_text(r) == (if portable is Some && portable_user_data_exists {
                Some(push_path(portable.unwrap()@, "user-data"@))
            } else {
                match config_dir {
                    Some(c) => Some(push_path(c@, "Code"@)),
                    None => None,
                }
            }),
    {
        match portable {
            Some(p) => {
                if portable_user_data_exists {
                    return Some(Self::portable_user_data(p));
                }
            },
            None => {},
        }
        match config_dir {
            Some(c) => Some(push_path_str(c, "Code")),
            None => None,
        }
    }

    /// The cache folders of a VS Code data folder.
    pub fn cache_subdirs(base: &str) -> (r: Vec<String>)
        ensures
            texts(r@) == seq![
                push_path(base@, "Cache"@),
                push_path(base@, "CachedData"@),
                push_path(base@, "CachedExtensions"@),
                push_path(base@, "logs"@),
            ],
    {
        let mut r: Vec<String> = Vec::new();
        r.push(push_path_str(base, "Cache"));
        r.push(push_path_str(base, "CachedData"));
        r.push(push_path_str(base, "CachedExtensions"));
        r.push(push_path_str(base, "logs"));
        assert(texts(r@) =~= seq![
            push_path(base@, "Cache"@),
            push_path(base@, "CachedData"@),
            push_path(base@, "CachedExtensions"@),
            push_path(base@, "logs"@),
        ]);
        r
    }
}

// ---------------------------------------------------------------------------
// Cleanup decisions
// ---------------------------------------------------------------------------

/// How running a cleanup command went.
#[derive(Debug, Clone)]
pub enum CommandOutcome {
    /// It ran and succeeded.
    Succeeded,
    /// It ran and failed, with this error output.
    Failed(String),
    /// It could not be run, for this reason.
    CouldNotRun(String),
}

/// The error recorded for a cleanup command: none when it succeeded.
pub open spec fn command_error_spec(command: Seq<char>, o: CommandOutcome) -> Option<Seq<char>> {
    match o {
        CommandOutcome::Succeeded => None,
        CommandOutcome::Failed(stderr) => Some(command + " failed: "@ + stderr@),
        CommandOutcome::CouldNotRun(e) => Some("Failed to run "@ + command + ": "@ + e@),
    }
}

/// The error recorded for a cleanup command.
pub fn command_error(command: &str, o: &CommandOutcome) -> (r: Option<String>)
    ensures
        opt_text(r) == command_error_spec(command@, *o),
{
    match o {
        CommandOutcome::Succeeded => None,
        CommandOutcome::Failed(stderr) => {
            let mut m = to_owned(command);
            push_str(&mut m, " failed: ");
            push_str(&mut m, stderr.as_str());
            Some(m)
        },
        CommandOutcome::CouldNotRun(e) => {
            let mut m = to_owned("Failed to run ");
            push_str(&mut m, command);
            push_str(&mut m, ": ");
            push_str(&mut m, e.as_str());
            Some(m)
        },
    }
}

impl GoModulesManager {
    /// The commands a cache cleanup runs first: `go clean -modcache` and
    /// `go clean -cache`, when Go is installed and it is not a dry run.
    pub fn clean_commands(dry_run: bool, installed: bool) -> (r: Vec<&'static str>)
        ensures
            r@ == (if installed && !dry_run {
                seq!["go clean -modcache", "go clean -cache"]
            } else {
                Seq::empty()
            }),
    {
        if installed && !dry_run {
            vec!["go clean -modcache", "go clean -cache"]
        } else {
            Vec::new()
        }
    }

    /// A cache path holds a glob pattern (`*`): the matching entries of its
    /// parent directory are cleaned instead.
    pub fn is_glob_path(path: &str) -> (b: bool)
        ensures
            b == crate::text::contains_seq(path@, seq!['*']),
    {
        proof {
            reveal_strlit("*");
            assert("*"@ =~= seq!['*']);
        }
        crate::text::str_contains(path, "*")
    }

    /// The directory whose entries stand for a glob path: its parent, for
    /// a path holding `*`.
    pub fn glob_parent(path: &str) -> (r: Option<String>)
        ensures
            opt_text(r) == (if crate::text::contains_seq(path@, seq!['*']) {
                crate::path::parent_text(path@)
            } else {
                None
            }),
    {
        if Self::is_glob_path(path) {
            crate::path::parent_of(path)
        } else {
            None
        }
    }

    /// An entry of such a parent directory is cleaned when its name
    /// contains `go-build`.
    pub fn is_go_build_entry(name: Option<&str>) -> (b: bool)
        ensures
            b == (name matches Some(n) && crate::text::contains_seq(n@, "go-build"@)),
    {
        match name {
            Some(n) => crate::text::str_contains(n, "go-build"),
            None => false,
        }
    }

    /// The candidate cache paths: what `go env GOCACHE` and
    /// `go env GOMODCACHE` printed (trimmed, when they succeeded, printed
    /// UTF-8 and are not empty), then `go\pkg\mod` and `go\build` under the
    /// home directory (or alone without one), before sorting and removing
    /// duplicates.
    pub fn cache_path_candidates(gocache: Option<&str>, gomodcache: Option<&str>, home: Option<&str>) -> (r: Vec<String>)
        ensures
            texts(r@) == (match gocache {
                Some(c) => if trim(c@).len() > 0 { seq![trim(c@)] } else { Seq::empty() },
                None => Seq::empty(),
            }) + (match gomodcache {
                Some(c) => if trim(c@).len() > 0 { seq![trim(c@)] } else { Seq::empty() },
                None => Seq::empty(),
            }) + seq![
                push_path(push_path(push_path(match home { Some(h) => h@, None => Seq::empty() }, "go"@), "pkg"@), "mod"@),
                push_path(push_path(match home { Some(h) => h@, None => Seq::empty() }, "go"@), "build"@),
            ],
    {
        let mut r: Vec<String> = Vec::new();
        let ghost a = match gocache {
            Some(c) => if trim(c@).len() > 0 { seq![trim(c@)] } else { Seq::<Seq<char>>::empty() },
            None => Seq::<Seq<char>>::empty(),
        };
        let ghost b = match gomodcache {
            Some(c) => if trim(c@).len() > 0 { seq![trim(c@)] } else { Seq::<Seq<char>>::empty() },
            None => Seq::<Seq<char>>::empty(),
        };
        match gocache {
            Some(c) => {
                let t = str_trim(c);
                if t.as_str().unicode_len() > 0 {
                    r.push(t);
                }
            },
            None => {},
        }
        assert(texts(r@) =~= a);
        match gomodcache {
            Some(c) => {
                let t = str_trim(c);
                if t.as_str().unicode_len() > 0 {
                    r.push(t);
                }
            },
            None => {},
        }
        assert(texts(r@) =~= a + b);
        let base = match home {
            Some(h) => to_owned(h),
            None => String::new(),
        };
        let go = push_path_str(base.as_str(), "go");
        let pkg = push_path_str(go.as_str(), "pkg");
        r.push(push_path_str(pkg.as_str(), "mod"));
        r.push(push_path_str(go.as_str(), "build"));
        assert(texts(r@) =~= a + b + seq![
            push_path(push_path(push_path(base@, "go"@), "pkg"@), "mod"@),
            push_path(push_path(base@, "go"@), "build"@),
        ]);
        r
    }

    /// `GOPATH`: what `go env GOPATH` printed (trimmed, when it succeeded and
    /// printed UTF-8), else `go` under the home directory (or alone).
    pub fn gopath(go_env_output: Option<&str>, home: Option<&str>) -> (r: String)
        ensures
            r@ == match go_env_output {
                Some(o) => trim(o@),
                None => push_path(match home { Some(h) => h@, None => Seq::empty() }, "go"@),
            },
    {
        match go_env_output {
            Some(o) => str_trim(o),
            None => {
                let base = match home {
                    Some(h) => to_owned(h),
                    None => String::new(),
                };
                push_path_str(base.as_str(), "go")
            },
        }
    }

    /// The folders a global cleanup empties: `bin` and `pkg` under `GOPATH`.
    pub fn global_dirs(gopath: &str) -> (r: (String, String))
        ensures
            r.0@ == push_path(gopath@, "bin"@),
            r.1@ == push_path(gopath@, "pkg"@),
    {
        (push_path_str(gopath, "bin"), push_path_str(gopath, "pkg"))
    }
}

impl CargoManager {
    /// The notice recorded when `cargo-cache` is missing.
    pub fn missing_cargo_cache_notice(has_cargo_cache: bool) -> (r: Option<&'static str>)
        ensures
            has_cargo_cache ==> r is None,
            !has_cargo_cache ==> r == Some(
                "cargo-cache not found — install it with `cargo install cargo-cache` for selective registry cleanup. Falling back to full directory removal.",
            ),
    {
        if has_cargo_cache {
            None
        } else {
            Some(
                "cargo-cache not found — install it with `cargo install cargo-cache` for selective registry cleanup. Falling back to full directory removal.",
            )
        }
    }
}

impl NugetManager {
    /// The local caches cleared with `dotnet nuget locals <type> --clear`.
    pub fn local_cache_types() -> (r: Vec<&'static str>)
        ensures
            r@ == seq!["all", "http-cache", "global-packages", "temp", "plugins-cache"],
    {
        vec!["all", "http-cache", "global-packages", "temp", "plugins-cache"]
    }

    /// A project's `packages` folder, which cleaning all caches leaves alone.
    pub fn is_project_packages_dir(path: &str) -> (b: bool)
        ensures
            b == (components(path@).len() > 0 && components(path@).last() == "packages"@
                && crate::text::contains_seq(path@, "packages"@)),
    {
        let cs = crate::path::components_chars(&chars_of(path));
        if cs.len() == 0 {
            return false;
        }
        let last = string_of(&cs[cs.len() - 1]);
        assert(views(cs@).last() == cs@[cs@.len() - 1]@);
        str_eq(last.as_str(), "packages") && crate::text::str_contains(path, "packages")
    }

    /// The global cache folders under the local application data folder.
    pub fn global_cache_candidates(local_app_data: &str) -> (r: Vec<String>)
        ensures
            texts(r@) == seq![
                push_path(push_path(local_app_data@, "NuGet"@), "v3-cache"@),
                push_path(push_path(local_app_data@, "NuGet"@), "packages"@),
                push_path(push_path(local_app_data@, "NuGet"@), "FallbackCache"@),
                push_path(push_path(push_path(local_app_data@, "Microsoft"@), "dotnet"@), "package-cache"@),
                push_path(push_path(local_app_data@, "NuGet"@), "plugins-cache"@),
            ],
    {
        let nuget = push_path_str(local_app_data, "NuGet");
        let ms = push_path_str(local_app_data, "Microsoft");
        let dotnet = push_path_str(ms.as_str(), "dotnet");
        let mut r: Vec<String> = Vec::new();
        r.push(push_path_str(nuget.as_str(), "v3-cache"));
        r.push(push_path_str(nuget.as_str(), "packages"));
        r.push(push_path_str(nuget.as_str(), "FallbackCache"));
        r.push(push_path_str(dotnet.as_str(), "package-cache"));
        r.push(push_path_str(nuget.as_str(), "plugins-cache"));
        assert(texts(r@) =~= seq![
            push_path(push_path(local_app_data@, "NuGet"@), "v3-cache"@),
            push_path(push_path(local_app_data@, "NuGet"@), "packages"@),
            push_path(push_path(local_app_data@, "NuGet"@), "FallbackCache"@),
            push_path(push_path(push_path(local_app_data@, "Microsoft"@), "dotnet"@), "package-cache"@),
            push_path(push_path(local_app_data@, "NuGet"@), "plugins-cache"@),
        ]);
        r
    }
}

impl PlaywrightManager {
    /// The browsers cache: `PLAYWRIGHT_BROWSERS_PATH`, else `ms-playwright`
    /// under `LOCALAPPDATA`, else `AppData\Local\ms-playwright` under the home
    /// directory (or alone).
    pub fn browsers_cache(env_path: Option<&str>, local_app_data: Option<&str>, home: Option<&str>) -> (r: String)
        ensures
            r@ == match env_path {
                Some(p) => p@,
                None => match local_app_data {
                    Some(l) => push_path(l@, "ms-playwright"@),
                    None => push_path(push_path(push_path(match home { Some(h) => h@, None => Seq::empty() }, "AppData"@), "Local"@), "ms-playwright"@),
                },
            },
    {
        match env_path {
            Some(p) => to_owned(p),
            None => match local_app_data {
                Some(l) => push_path_str(l, "ms-playwright"),
                None => {
                    let base = match home {
                        Some(h) => to_owned(h),
                        None => String::new(),
                    };
                    let a = push_path_str(base.as_str(), "AppData");
                    let b = push_path_str(a.as_str(), "Local");
                    push_path_str(b.as_str(), "ms-playwright")
                },
            },
        }
    }

    /// Account for `npx playwright uninstall --all`: success counts as one
    /// item; a failure is recorded. Returns whether the cache folders must
    /// then be deleted directly.
    pub fn after_uninstall(tally: &mut CleanTally, outcome: &CommandOutcome) -> (fallback: bool)
        requires
            old(tally).deleted() + 1 <= u64::MAX,
        ensures
            final(tally).manager() == old(tally).manager(),
            final(tally).freed() == old(tally).freed(),
            match *outcome {
                CommandOutcome::Succeeded => !fallback && final(tally).deleted() == old(tally).deleted() + 1
                    && final(tally).errs() == old(tally).errs(),
                CommandOutcome::Failed(stderr) => fallback && final(tally).deleted() == old(tally).deleted()
                    && final(tally).errs() == old(tally).errs().push(
                    "playwright uninstall --all failed: "@ + stderr@,
                ),
                CommandOutcome::CouldNotRun(_) => fallback && final(tally).deleted() == old(tally).deleted()
                    && final(tally).errs() == old(tally).errs(),
            },
    {
        match outcome {
            CommandOutcome::Succeeded => {
                tally.record_deleted(0);
                false
            },
            CommandOutcome::Failed(stderr) => {
                let mut m = to_owned("playwright uninstall --all failed: ");
                push_str(&mut m, stderr.as_str());
                tally.record_error(m);
                true
            },
            CommandOutcome::CouldNotRun(_) => true,
        }
    }
}

// ---------------------------------------------------------------------------
// Tool homes from the environment
// ---------------------------------------------------------------------------

/// The home directory's text, empty when it is not known.
pub open spec fn home_text(home: Option<&str>) -> Seq<char> {
    match home {
        Some(h) => h@,
        None => Seq::empty(),
    }
}

/// The home directory, or the empty path.
pub(crate) fn home_string(home: Option<&str>) -> (r: String)
    ensures
        r@ == home_text(home),
{
    match home {
        Some(h) => to_owned(h),
        None => String::new(),
    }
}

/// A variable's value when it is set, else `child` under the home directory.
pub open spec fn env_or_home(env: Option<&str>, home: Option<&str>, child: Seq<char>) -> Seq<char> {
    match env {
        Some(e) => e@,
        None => push_path(home_text(home), child),
    }
}

/// A variable's value when it is set, else `child` under the home directory.
fn env_or_home_str(env: Option<&str>, home: Option<&str>, child: &str) -> (r: String)
    ensures
        r@ == env_or_home(env, home, child@),
{
    match env {
        Some(e) => to_owned(e),
        None => {
            let h = home_string(home);
            push_path_str(h.as_str(), child)
        },
    }
}

impl GradleManager {
    /// Gradle's home: `GRADLE_HOME`, else `.gradle` under the home directory.
    pub fn gradle_home(env_gradle_home: Option<&str>, home: Option<&str>) -> (r: String)
        ensures
            r@ == env_or_home(env_gradle_home, home, ".gradle"@),
    {
        env_or_home_str(env_gradle_home, home, ".gradle")
    }
}

impl SbtManager {
    /// sbt's home: `SBT_HOME`, else `.sbt` under the home directory.
    pub fn sbt_home(env_sbt_home: Option<&str>, home: Option<&str>) -> (r: String)
        ensures
            r@ == env_or_home(env_sbt_home, home, ".sbt"@),
    {
        env_or_home_str(env_sbt_home, home, ".sbt")
    }
}

impl AndroidSdkManager {
    /// The SDK folder under the local application data folder.
    pub fn local_sdk_dir(local_app_data: &str) -> (r: String)
        ensures
            r@ == push_path(push_path(local_app_data@, "Android"@), "Sdk"@),
    {
        let a = push_path_str(local_app_data, "Android");
        push_path_str(a.as_str(), "Sdk")
    }

    /// The SDK root: `ANDROID_HOME` when it exists, else `ANDROID_SDK_ROOT`
    /// when it exists, else `Android\Sdk` under `LOCALAPPDATA` when it
    /// exists; each flag says whether that candidate exists.
    pub fn sdk_root(
        android_home: Option<&str>,
        android_home_exists: bool,
        sdk_root: Option<&str>,
        sdk_root_exists: bool,
        local_app_data: Option<&str>,
        local_sdk_exists: bool,
    ) -> (r: Option<String>)
        ensures
            opt_text(r) == (if android_home is Some && android_home_exists {
                Some(android_home.unwrap()@)
            } else if sdk_root is Some && sdk_root_exists {
                Some(sdk_root.unwrap()@)
            } else if local_app_data is Some && local_sdk_exists {
                Some(push_path(push_path(local_app_data.unwrap()@, "Android"@), "Sdk"@))
            } else {
                None
            }),
    {
        match android_home {
            Some(h) => {
                if android_home_exists {
                    return Some(to_owned(h));
                }
            },
            None => {},
        }
        match sdk_root {
            Some(r) => {
                if sdk_root_exists {
                    return Some(to_owned(r));
                }
            },
            None => {},
        }
        match local_app_data {
            Some(l) => {
                if local_sdk_exists {
                    return Some(Self::local_sdk_dir(l));
                }
            },
            None => {},
        }
        None
    }

    /// The emulator images: `ANDROID_AVD_HOME`, else `.android\avd` under the
    /// home directory.
    pub fn avd_home(env_avd_home: Option<&str>, home: Option<&str>) -> (r: String)
        ensures
            r@ == match env_avd_home {
                Some(e) => e@,
                None => push_path(push_path(home_text(home), ".android"@), "avd"@),
            },
    {
        match env_avd_home {
            Some(e) => to_owned(e),
            None => {
                let h = home_string(home);
                let a = push_path_str(h.as_str(), ".android");
                push_path_str(a.as_str(), "avd")
            },
        }
    }
}

impl BunManager {
    /// The cache under a Bun installation folder.
    pub fn install_cache(base: &str) -> (r: String)
        ensures
            r@ == push_path(push_path(base@, "install"@), "cache"@),
    {
        let a = push_path_str(base, "install");
        push_path_str(a.as_str(), "cache")
    }

    /// Bun's cache: under `BUN_INSTALL` when that cache exists, else under
    /// `.bun` in the home directory.
    pub fn cache_dir(bun_install: Option<&str>, bun_install_cache_exists: bool, home: Option<&str>) -> (r: String)
        ensures
            r@ == (if bun_install is Some && bun_install_cache_exists {
                push_path(push_path(bun_install.unwrap()@, "install"@), "cache"@)
            } else {
                push_path(push_path(push_path(home_text(home), ".bun"@), "install"@), "cache"@)
            }),
    {
        match bun_install {
            Some(b) => {
                if bun_install_cache_exists {
                    return Self::install_cache(b);
                }
            },
            None => {},
        }
        let h = home_string(home);
        let bun = push_path_str(h.as_str(), ".bun");
        Self::install_cache(bun.as_str())
    }
}

impl ConanManager {
    /// Conan's home: `CONAN_HOME`, else `.conan2` under the home directory
    /// when it exists (Conan 2), else `.conan` there (Conan 1).
    pub fn conan_home(env_conan_home: Option<&str>, home: Option<&str>, conan2_exists: bool) -> (r: String)
        ensures
            r@ == match env_conan_home {
                Some(e) => e@,
                None => if conan2_exists {
                    push_path(home_text(home), ".conan2"@)
                } else {
                    push_path(home_text(home), ".conan"@)
                },
            },
    {
        match env_conan_home {
            Some(e) => to_owned(e),
            None => {
                let h = home_string(home);
                if conan2_exists {
                    push_path_str(h.as_str(), ".conan2")
                } else {
                    push_path_str(h.as_str(), ".conan")
                }
            },
        }
    }
}

impl CypressManager {
    /// Cypress's binary cache: `CYPRESS_CACHE_FOLDER`, else `Cypress\Cache`
    /// under `APPDATA`, else `AppData\Roaming\Cypress\Cache` under the home
    /// directory.
    pub fn binary_cache(env_cache: Option<&str>, app_data: Option<&str>, home: Option<&str>) -> (r: String)
        ensures
            r@ == match env_cache {
                Some(e) => e@,
                None => match app_data {
                    Some(a) => push_path(push_path(a@, "Cypress"@), "Cache"@),
                    None => push_path(
                        push_path(push_path(push_path(home_text(home), "AppData"@), "Roaming"@), "Cypress"@),
                        "Cache"@,
                    ),
                },
            },
    {
        match env_cache {
            Some(e) => to_owned(e),
            None => match app_data {
                Some(a) => {
                    let c = push_path_str(a, "Cypress");
                    push_path_str(c.as_str(), "Cache")
                },
                None => {
                    let h = home_string(home);
                    let a = push_path_str(h.as_str(), "AppData");
                    let b = push_path_str(a.as_str(), "Roaming");
                    let c = push_path_str(b.as_str(), "Cypress");
                    push_path_str(c.as_str(), "Cache")
                },
            },
        }
    }
}

impl FlutterManager {
    /// The pub cache under `APPDATA`.
    pub fn appdata_pub_cache(app_data: &str) -> (r: String)
        ensures
            r@ == push_path(push_path(app_data@, "Pub"@), "Cache"@),
    {
        let a = push_path_str(app_data, "Pub");
        push_path_str(a.as_str(), "Cache")
    }

    /// The pub cache: `PUB_CACHE`, else `Pub\Cache` under `APPDATA` when it
    /// exists, else `.pub-cache` under the home directory.
    pub fn pub_cache(env_pub_cache: Option<&str>, app_data: Option<&str>, appdata_cache_exists: bool, home: Option<&str>) -> (r: String)
        ensures
            r@ == match env_pub_cache {
                Some(e) => e@,
                None => if app_data is Some && appdata_cache_exists {
                    push_path(push_path(app_data.unwrap()@, "Pub"@), "Cache"@)
                } else {
                    push_path(home_text(home), ".pub-cache"@)
                },
            },
    {
        match env_pub_cache {
            Some(e) => {
                return to_owned(e);
            },
            None => {},
        }
        match app_data {
            Some(a) => {
                if appdata_cache_exists {
                    return Self::appdata_pub_cache(a);
                }
            },
            None => {},
        }
        let h = home_string(home);
        push_path_str(h.as_str(), ".pub-cache")
    }
}

/// The location column of one line of `pip list -v`: the third column, when
/// the line has at least three.
pub open spec fn pip_location(line: Seq<char>) -> Option<Seq<char>> {
    let w = crate::text::words(line);
    if w.len() >= 3 {
        Some(w[2])
    } else {
        None
    }
}

/// The location columns of lines, in order.
pub open spec fn pip_locations(lines: Seq<Seq<char>>) -> Seq<Seq<char>>
    decreases lines.len(),
{
    if lines.len() == 0 {
        Seq::empty()
    } else {
        let rest = pip_locations(lines.drop_last());
        match pip_location(lines.last()) {
            Some(l) => rest.push(l),
            None => rest,
        }
    }
}

impl PipManager {
    /// The package locations `pip list -v` names: the third column of each
    /// line after the two header lines, in order (before the ones that do not
    /// exist and repeats are dropped).
    pub fn location_candidates(list_output: &str) -> (r: Vec<String>)
        ensures
            texts(r@) == (if lines_of(list_output@).len() >= 2 {
                pip_locations(lines_of(list_output@).subrange(2, lines_of(list_output@).len() as int))
            } else {
                Seq::empty()
            }),
    {
        let ls = lines_chars(&chars_of(list_output));
        let ghost all = views(ls@);
        let mut out: Vec<String> = Vec::new();
        if ls.len() < 2 {
            assert(texts(out@) =~= Seq::<Seq<char>>::empty());
            return out;
        }
        let ghost rest = all.subrange(2, all.len() as int);
        let mut i: usize = 2;
        assert(rest.subrange(0, 0) =~= Seq::<Seq<char>>::empty());
        assert(texts(out@) =~= pip_locations(rest.subrange(0, 0)));
        while i < ls.len()
            invariant
                2 <= i <= ls@.len(),
                all == views(ls@),
                all == lines_of(list_output@),
                rest == all.subrange(2, all.len() as int),
                texts(out@) == pip_locations(rest.subrange(0, i - 2)),
            decreases ls@.len() - i,
        {
            let ghost before = out@;
            assert(rest.subrange(0, i - 1).drop_last() =~= rest.subrange(0, i - 2));
            assert(rest.subrange(0, i - 1).last() == ls@[i as int]@);
            let w = words_chars_of(&ls[i]);
            if w.len() >= 3 {
                assert(views(w@)[2] == w@[2]@);
                let loc = string_of(&w[2]);
                out.push(loc);
                assert(texts(out@) =~= texts(before).push(views(w@)[2]));
            }
            i += 1;
        }
        assert(rest.subrange(0, rest.len() as int) =~= rest);
        out
    }

    /// The usual locations of Python packages under the home directory.
    pub fn default_env_paths(home: &str) -> (r: Vec<String>)
        ensures
            texts(r@) == seq![
                push_path(push_path(push_path(home@, "AppData"@), "Roaming"@), "Python"@),
                push_path(push_path(push_path(push_path(home@, "AppData"@), "Local"@), "Programs"@), "Python"@),
            ],
    {
        let appdata = push_path_str(home, "AppData");
        let roaming = push_path_str(appdata.as_str(), "Roaming");
        let local = push_path_str(appdata.as_str(), "Local");
        let programs = push_path_str(local.as_str(), "Programs");
        let mut r: Vec<String> = Vec::new();
        r.push(push_path_str(roaming.as_str(), "Python"));
        r.push(push_path_str(programs.as_str(), "Python"));
        assert(texts(r@) =~= seq![
            push_path(push_path(push_path(home@, "AppData"@), "Roaming"@), "Python"@),
            push_path(push_path(push_path(push_path(home@, "AppData"@), "Local"@), "Programs"@), "Python"@),
        ]);
        r
    }
}

/// The words of a line.
fn words_chars_of(line: &Vec<char>) -> (r: Vec<Vec<char>>)
    ensures
        views(r@) == crate::text::words(line@),
{
    crate::text::words_chars(line)
}

/// The cache folders looked for in each profile of a Chromium browser.
pub fn chromium_cache_dirs() -> (r: Vec<&'static str>)
    ensures
        r@ == seq!["Cache", "Cache2", "Code Cache", "GPUCache", "ShaderCache", "JumpListIcons", "JumpListIconsOld"],
{
    vec!["Cache", "Cache2", "Code Cache", "GPUCache", "ShaderCache", "JumpListIcons", "JumpListIconsOld"]
}

// ---------------------------------------------------------------------------
// Ruby, Bundler and conda executables and caches
// ---------------------------------------------------------------------------

impl RubyGemsManager {
    /// The Ruby Gems cache manager, with no executable or cache set.
    pub fn new() -> (m: Self)
        ensures
            m.configured_gem() is None,
            m.configured_cache() is None,
    {
        RubyGemsManager { gem_path: None, cache_path: None }
    }

    /// The `gem` executable set on the manager.
    pub closed spec fn configured_gem(&self) -> Option<String> {
        self.gem_path
    }

    /// The cache set on the manager.
    pub closed spec fn configured_cache(&self) -> Option<String> {
        self.cache_path
    }

    /// The `gem` command: the one set on the manager, else `gem` when
    /// `gem.cmd` or `gem` is on the `PATH`.
    pub fn gem_command(&self, on_path: bool) -> (r: Result<String, PkgError>)
        ensures
            match self.configured_gem() {
                Some(p) => r matches Ok(s) && s@ == p@,
                None => if on_path {
                    r matches Ok(s) && s@ == "gem"@
                } else {
                    r == Err::<String, PkgError>(PkgError::ExecutableNotFound)
                },
            },
    {
        match &self.gem_path {
            Some(p) => Ok(p.clone()),
            None => if on_path {
                Ok(to_owned("gem"))
            } else {
                Err(PkgError::ExecutableNotFound)
            },
        }
    }

    /// The gem cache: the one set on the manager; else `cache` under the
    /// folder printed by `gem environment gemdir` (trimmed) when that
    /// folder exists; else `cache` under `GEM_HOME` when it exists; else
    /// `.gem` under the home directory when it exists.
    pub fn resolve_cache_path(
        &self,
        gemdir_output: Option<&str>,
        gemdir_exists: bool,
        gem_home: Option<&str>,
        gem_home_cache_exists: bool,
        home: Option<&str>,
        dot_gem_exists: bool,
    ) -> (r: Result<String, PkgError>)
        ensures
            match self.configured_cache() {
                Some(c) => r matches Ok(s) && s@ == c@,
                None => if gemdir_output is Some && gemdir_exists {
                    r matches Ok(s) && s@ == push_path(trim(gemdir_output.unwrap()@), "cache"@)
                } else if gem_home is Some && gem_home_cache_exists {
                    r matches Ok(s) && s@ == push_path(gem_home.unwrap()@, "cache"@)
                } else if home is Some && dot_gem_exists {
                    r matches Ok(s) && s@ == push_path(home.unwrap()@, ".gem"@)
                } else {
                    r == Err::<String, PkgError>(PkgError::CacheNotFound)
                },
            },
    {
        match &self.cache_path {
            Some(c) => {
                return Ok(c.clone());
            },
            None => {},
        }
        match gemdir_output {
            Some(o) => {
                if gemdir_exists {
                    let dir = str_trim(o);
                    return Ok(push_path_str(dir.as_str(), "cache"));
                }
            },
            None => {},
        }
        match gem_home {
            Some(g) => {
                if gem_home_cache_exists {
                    return Ok(push_path_str(g, "cache"));
                }
            },
            None => {},
        }
        match home {
            Some(h) => {
                if dot_gem_exists {
                    return Ok(push_path_str(h, ".gem"));
                }
            },
            None => {},
        }
        Err(PkgError::CacheNotFound)
    }
}

impl BundlerManager {
    /// The Bundler cache manager, with no executable set.
    pub fn new() -> (m: Self)
        ensures
            m.configured_bundle() is None,
    {
        BundlerManager { bundle_path: None }
    }

    /// The `bundle` executable set on the manager.
    pub closed spec fn configured_bundle(&self) -> Option<String> {
        self.bundle_path
    }

    /// The `bundle` command: the one set on the manager, else `bundle` when
    /// `bundle.cmd` or `bundle` is on the `PATH`.
    pub fn bundle_command(&self, on_path: bool) -> (r: Result<String, PkgError>)
        ensures
            match self.configured_bundle() {
                Some(p) => r matches Ok(s) && s@ == p@,
                None => if on_path {
                    r matches Ok(s) && s@ == "bundle"@
                } else {
                    r == Err::<String, PkgError>(PkgError::ExecutableNotFound)
                },
            },
    {
        match &self.bundle_path {
            Some(p) => Ok(p.clone()),
            None => if on_path {
                Ok(to_owned("bundle"))
            } else {
                Err(PkgError::ExecutableNotFound)
            },
        }
    }

    /// Bundler's gem folder: `BUNDLE_PATH` when it exists, else the folder
    /// printed by `bundle config path` (trimmed) when it exists, else
    /// `.bundle\cache` under the home directory when it exists.
    pub fn resolve_vendor_path(
        env_bundle_path: Option<&str>,
        env_path_exists: bool,
        config_output: Option<&str>,
        config_path_exists: bool,
        home: Option<&str>,
        home_cache_exists: bool,
    ) -> (r: Option<String>)
        ensures
            opt_text(r) == (if env_bundle_path is Some && env_path_exists {
                Some(env_bundle_path.unwrap()@)
            } else if config_output is Some && config_path_exists {
                Some(trim(config_output.unwrap()@))
            } else if home is Some && home_cache_exists {
                Some(push_path(push_path(home.unwrap()@, ".bundle"@), "cache"@))
            } else {
                None
            }),
    {
        match env_bundle_path {
            Some(e) => {
                if env_path_exists {
                    return Some(to_owned(e));
                }
            },
            None => {},
        }
        match config_output {
            Some(o) => {
                if config_path_exists {
                    return Some(str_trim(o));
                }
            },
            None => {},
        }
        match home {
            Some(h) => {
                if home_cache_exists {
                    let b = push_path_str(h, ".bundle");
                    return Some(push_path_str(b.as_str(), "cache"));
                }
            },
            None => {},
        }
        None
    }

    /// The folders searched for projects with a `vendor\bundle`, in order.
    pub fn vendor_bundle_roots(home: &str) -> (r: Vec<String>)
        ensures
            texts(r@) == seq![
                push_path(home@, "projects"@),
                push_path(home@, "src"@),
                push_path(home@, "dev"@),
                push_path(home@, "code"@),
                push_path(home@, "workspace"@),
                push_path(home@, "repos"@),
                home@,
            ],
    {
        let mut v: Vec<String> = Vec::new();
        v.push(push_path_str(home, "projects"));
        v.push(push_path_str(home, "src"));
        v.push(push_path_str(home, "dev"));
        v.push(push_path_str(home, "code"));
        v.push(push_path_str(home, "workspace"));
        v.push(push_path_str(home, "repos"));
        v.push(to_owned(home));
        assert(texts(v@) =~= seq![
            push_path(home@, "projects"@),
            push_path(home@, "src"@),
            push_path(home@, "dev"@),
            push_path(home@, "code"@),
            push_path(home@, "workspace"@),
            push_path(home@, "repos"@),
            home@,
        ]);
        v
    }

    /// The per-project gem folder of a project.
    pub fn vendor_bundle(project: &str) -> (r: String)
        ensures
            r@ == push_path(push_path(project@, "vendor"@), "bundle"@),
    {
        let v = push_path_str(project, "vendor");
        push_path_str(v.as_str(), "bundle")
    }
}

impl CondaManager {
    /// The conda cache manager, with no executable set.
    pub fn new() -> (m: Self)
        ensures
            m.configured_conda() is None,
    {
        CondaManager { conda_path: None }
    }

    /// The executable set on the manager.
    pub closed spec fn configured_conda(&self) -> Option<String> {
        self.conda_path
    }

    /// The commands looked for on the `PATH`, in order.
    pub fn command_names() -> (r: Vec<&'static str>)
        ensures
            r@ == seq!["conda.exe", "conda", "mamba.exe", "mamba"],
    {
        vec!["conda.exe", "conda", "mamba.exe", "mamba"]
    }

    /// The conda command: the one set on the manager, else the first of
    /// `command_names` on the `PATH` (`found[i]` for the `i`th).
    pub fn conda_command(&self, found: &[bool]) -> (r: Result<String, PkgError>)
        ensures
            match self.configured_conda() {
                Some(p) => r matches Ok(s) && s@ == p@,
                None => if found@.len() > 0 && found@[0] {
                    r matches Ok(s) && s@ == "conda.exe"@
                } else if found@.len() > 1 && found@[1] {
                    r matches Ok(s) && s@ == "conda"@
                } else if found@.len() > 2 && found@[2] {
                    r matches Ok(s) && s@ == "mamba.exe"@
                } else if found@.len() > 3 && found@[3] {
                    r matches Ok(s) && s@ == "mamba"@
                } else {
                    r == Err::<String, PkgError>(PkgError::ExecutableNotFound)
                },
            },
    {
        match &self.conda_path {
            Some(p) => {
                return Ok(p.clone());
            },
            None => {},
        }
        if found.len() > 0 && found[0] {
            Ok(to_owned("conda.exe"))
        } else if found.len() > 1 && found[1] {
            Ok(to_owned("conda"))
        } else if found.len() > 2 && found[2] {
            Ok(to_owned("mamba.exe"))
        } else if found.len() > 3 && found[3] {
            Ok(to_owned("mamba"))
        } else {
            Err(PkgError::ExecutableNotFound)
        }
    }
}

} // verus!
