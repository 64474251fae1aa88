//! The decisions of the file-system scan: which entries are reported, which
//! directories are build artifacts reported as one item, and whether an
//! item may be deleted. Walking the disk is the caller's part.
use vstd::prelude::*;
use crate::never_delete::{never_delete, should_never_delete};
use crate::path::{file_name, file_name_of, join_child, join_path};
use crate::text::{chars_of, contains_seq, str_contains, str_eq, to_owned};
use crate::types::{FileType, ProjectType, ScanConfig, ScanResult, Timestamp};
use crate::wsl::opt_text;

verus! {

/// A well-known build-artifact directory: its name, the sibling lock or
/// manifest file whose age stands for the project's last activity (a `*`
/// in it means any such file), and the project type.
#[derive(Debug, Clone, Copy)]
pub struct ArtifactRule {
    pub dir: &'static str,
    pub lock_hint: &'static str,
    pub project_type: ProjectType,
}

/// The artifact rules, in the order they are tried.
pub open spec fn artifact_rule_list() -> Seq<ArtifactRule> {
    seq![
        ArtifactRule { dir: "node_modules", lock_hint: "package-lock.json", project_type: ProjectType::NodeJs },
        ArtifactRule { dir: ".npm", lock_hint: "package.json", project_type: ProjectType::NodeJs },
        ArtifactRule { dir: ".pnpm-store", lock_hint: "pnpm-lock.yaml", project_type: ProjectType::NodeJs },
        ArtifactRule { dir: "target", lock_hint: "Cargo.lock", project_type: ProjectType::Rust },
        ArtifactRule { dir: ".venv", lock_hint: "requirements.txt", project_type: ProjectType::Python },
        ArtifactRule { dir: "venv", lock_hint: "requirements.txt", project_type: ProjectType::Python },
        ArtifactRule { dir: ".tox", lock_hint: "tox.ini", project_type: ProjectType::Python },
        ArtifactRule { dir: "__pycache__", lock_hint: "*.py", project_type: ProjectType::Python },
        ArtifactRule { dir: ".pytest_cache", lock_hint: "pytest.ini", project_type: ProjectType::Python },
        ArtifactRule { dir: ".mypy_cache", lock_hint: "mypy.ini", project_type: ProjectType::Python },
        ArtifactRule { dir: ".gradle", lock_hint: "build.gradle", project_type: ProjectType::Gradle },
        ArtifactRule { dir: "build", lock_hint: "build.gradle", project_type: ProjectType::Gradle },
        ArtifactRule { dir: ".m2", lock_hint: "pom.xml", project_type: ProjectType::Maven },
        ArtifactRule { dir: "target", lock_hint: "pom.xml", project_type: ProjectType::Maven },
        ArtifactRule { dir: ".cache", lock_hint: "go.sum", project_type: ProjectType::Go },
        ArtifactRule { dir: "bin", lock_hint: "*.csproj", project_type: ProjectType::DotNet },
        ArtifactRule { dir: "obj", lock_hint: "*.csproj", project_type: ProjectType::DotNet },
        ArtifactRule { dir: ".nuget", lock_hint: "*.csproj", project_type: ProjectType::DotNet },
        ArtifactRule { dir: ".dart_tool", lock_hint: "pubspec.lock", project_type: ProjectType::Flutter },
        ArtifactRule { dir: "build", lock_hint: "pubspec.yaml", project_type: ProjectType::Flutter },
        ArtifactRule { dir: ".gradle", lock_hint: "settings.gradle", project_type: ProjectType::Android },
        ArtifactRule { dir: "build", lock_hint: "AndroidManifest.xml", project_type: ProjectType::Android },
        ArtifactRule { dir: ".nx", lock_hint: "nx.json", project_type: ProjectType::NodeJs },
        ArtifactRule { dir: ".turbo", lock_hint: "turbo.json", project_type: ProjectType::NodeJs },
        ArtifactRule { dir: "CMakeFiles", lock_hint: "CMakeLists.txt", project_type: ProjectType::CMake },
        ArtifactRule { dir: "Library", lock_hint: "ProjectSettings", project_type: ProjectType::Unity },
        ArtifactRule { dir: "Temp", lock_hint: "ProjectSettings", project_type: ProjectType::Unity },
    ]
}

/// The artifact rules, in the order they are tried.
pub fn artifact_rules() -> (r: Vec<ArtifactRule>)
    ensures
        r@ == artifact_rule_list(),
{
    vec![
        ArtifactRule { dir: "node_modules", lock_hint: "package-lock.json", project_type: ProjectType::NodeJs },
        ArtifactRule { dir: ".npm", lock_hint: "package.json", project_type: ProjectType::NodeJs },
        ArtifactRule { dir: ".pnpm-store", lock_hint: "pnpm-lock.yaml", project_type: ProjectType::NodeJs },
        ArtifactRule { dir: "target", lock_hint: "Cargo.lock", project_type: ProjectType::Rust },
        ArtifactRule { dir: ".venv", lock_hint: "requirements.txt", project_type: ProjectType::Python },
        ArtifactRule { dir: "venv", lock_hint: "requirements.txt", project_type: ProjectType::Python },
        ArtifactRule { dir: ".tox", lock_hint: "tox.ini", project_type: ProjectType::Python },
        ArtifactRule { dir: "__pycache__", lock_hint: "*.py", project_type: ProjectType::Python },
        ArtifactRule { dir: ".pytest_cache", lock_hint: "pytest.ini", project_type: ProjectType::Python },
        ArtifactRule { dir: ".mypy_cache", lock_hint: "mypy.ini", project_type: ProjectType::Python },
        ArtifactRule { dir: ".gradle", lock_hint: "build.gradle", project_type: ProjectType::Gradle },
        ArtifactRule { dir: "build", lock_hint: "build.gradle", project_type: ProjectType::Gradle },
        ArtifactRule { dir: ".m2", lock_hint: "pom.xml", project_type: ProjectType::Maven },
        ArtifactRule { dir: "target", lock_hint: "pom.xml", project_type: ProjectType::Maven },
        ArtifactRule { dir: ".cache", lock_hint: "go.sum", project_type: ProjectType::Go },
        ArtifactRule { dir: "bin", lock_hint: "*.csproj", project_type: ProjectType::DotNet },
        ArtifactRule { dir: "obj", lock_hint: "*.csproj", project_type: ProjectType::DotNet },
        ArtifactRule { dir: ".nuget", lock_hint: "*.csproj", project_type: ProjectType::DotNet },
        ArtifactRule { dir: ".dart_tool", lock_hint: "pubspec.lock", project_type: ProjectType::Flutter },
        ArtifactRule { dir: "build", lock_hint: "pubspec.yaml", project_type: ProjectType::Flutter },
        ArtifactRule { dir: ".gradle", lock_hint: "settings.gradle", project_type: ProjectType::Android },
        ArtifactRule { dir: "build", lock_hint: "AndroidManifest.xml", project_type: ProjectType::Android },
        ArtifactRule { dir: ".nx", lock_hint: "nx.json", project_type: ProjectType::NodeJs },
        ArtifactRule { dir: ".turbo", lock_hint: "turbo.json", project_type: ProjectType::NodeJs },
        ArtifactRule { dir: "CMakeFiles", lock_hint: "CMakeLists.txt", project_type: ProjectType::CMake },
        ArtifactRule { dir: "Library", lock_hint: "ProjectSettings", project_type: ProjectType::Unity },
        ArtifactRule { dir: "Temp", lock_hint: "ProjectSettings", project_type: ProjectType::Unity },
    ]
}

/// How old a lock file is.
#[derive(Debug, Clone, Copy, PartialEq, Eq, Structural)]
pub enum FileAge {
    /// Its modification time could not be read.
    Unknown,
    /// It was last modified this many whole seconds ago.
    Secs(u64),
    /// Its modification time lies in the future; it counts as brand new.
    Future,
}

/// What the scan does with one directory entry.
#[derive(Debug, Clone, Copy, PartialEq, Eq, Structural)]
pub enum EntryAction {
    /// Leave it out.
    Skip,
    /// Report the link itself, without following it.
    ReportLink(FileType),
    /// Report it as one artifact item if a rule matches, else walk into it.
    TryArtifact,
    /// Report it as a file.
    ReportFile,
}

/// The file scanner.
pub struct Scanner {
    config: ScanConfig,
}

/// The reason given for an item that may not be deleted.
pub open spec fn never_delete_reason() -> Seq<char> {
    "In NEVER_DELETE list"@
}

/// Some rule names the directory `name`.
pub open spec fn known_artifact_name(name: Seq<char>) -> bool {
    exists|i: int| 0 <= i < artifact_rule_list().len() && artifact_rule_list()[i].dir@ == name
}

/// Rule `i` matches a directory named `name`: the name is the rule's, and
/// its lock hint is a pattern or the sibling file exists.
pub open spec fn rule_applies(i: int, name: Seq<char>, sibling_exists: Seq<bool>) -> bool {
    let r = artifact_rule_list()[i];
    &&& 0 <= i < artifact_rule_list().len()
    &&& r.dir@ == name
    &&& (contains_seq(r.lock_hint@, seq!['*']) || (i < sibling_exists.len() && sibling_exists[i]))
}

/// The first rule that matches, if any.
pub open spec fn first_rule(name: Seq<char>, sibling_exists: Seq<bool>) -> Option<ArtifactRule> {
    if exists|i: int| rule_applies(i, name, sibling_exists) {
        let i = choose|i: int|
            rule_applies(i, name, sibling_exists) && forall|j: int|
                0 <= j < i ==> !rule_applies(j, name, sibling_exists);
        Some(artifact_rule_list()[i])
    } else {
        None
    }
}

/// The lock file is younger than the minimum age (a lock file with a
/// future time counts as new; an unreadable one never filters).
pub open spec fn too_recent(min_age_days: Option<u32>, age: FileAge) -> bool {
    match min_age_days {
        Some(d) => match age {
            FileAge::Unknown => false,
            FileAge::Secs(s) => s < d * 86400,
            FileAge::Future => 0 < d * 86400,
        },
        None => false,
    }
}

/// Whether an item may be deleted, and the reason when it may not.
pub open spec fn safety_of(path: Seq<char>) -> (bool, Option<Seq<char>>) {
    if never_delete(path) {
        (false, Some(never_delete_reason()))
    } else {
        (true, None)
    }
}

/// The type of an item that is not a directory.
pub open spec fn file_type_of(is_dir: bool, is_reparse: bool, is_junction: bool) -> FileType {
    if is_dir {
        FileType::Directory
    } else if is_reparse {
        if is_junction {
            FileType::Junction
        } else {
            FileType::Symlink
        }
    } else {
        FileType::File
    }
}

/// What the scan does with an entry.
pub open spec fn entry_action_spec(
    config: ScanConfig,
    hidden: bool,
    known_artifact: bool,
    is_reparse: bool,
    is_junction: bool,
    is_dir: bool,
) -> EntryAction {
    if !config.include_hidden && hidden && !known_artifact {
        EntryAction::Skip
    } else if is_reparse {
        if !is_junction && !config.follow_symlinks {
            EntryAction::Skip
        } else {
            EntryAction::ReportLink(if is_junction { FileType::Junction } else { FileType::Symlink })
        }
    } else if is_dir {
        EntryAction::TryArtifact
    } else {
        EntryAction::ReportFile
    }
}

/// Safety fields of an item describe its path.
pub open spec fn safety_fields(r: ScanResult) -> bool {
    r.is_safe_to_delete == safety_of(r.path@).0 && opt_text(r.deletion_reason) == safety_of(r.path@).1
}

/// Whether a path's name is one of the artifact directory names.
pub fn is_known_artifact_dir(path: &str) -> (b: bool)
    ensures
        b == (file_name(path@) matches Some(n) && known_artifact_name(n)),
{
    match file_name_of(path) {
        Some(name) => {
            let rules = artifact_rules();
            let mut i: usize = 0;
            while i < rules.len()
                invariant
                    i <= rules@.len(),
                    rules@ == artifact_rule_list(),
                    file_name(path@) == Some(name@),
                    forall|j: int| 0 <= j < i ==> artifact_rule_list()[j].dir@ != name@,
                decreases rules@.len() - i,
            {
                if str_eq(rules[i].dir, name.as_str()) {
                    assert(artifact_rule_list()[i as int].dir@ == name@);
                    return true;
                }
                i += 1;
            }
            false
        },
        None => false,
    }
}

/// The first rule matching a directory named `name`: `sibling_exists[i]`
/// says whether the lock file of rule `i` exists beside the directory.
pub fn match_artifact_rule(name: &str, sibling_exists: &[bool]) -> (r: Option<ArtifactRule>)
    ensures
        r == first_rule(name@, sibling_exists@),
{
    let rules = artifact_rules();
    let mut i: usize = 0;
    while i < rules.len()
        invariant
            i <= rules@.len(),
            rules@ == artifact_rule_list(),
            forall|j: int| 0 <= j < i ==> !rule_applies(j, name@, sibling_exists@),
        decreases rules@.len() - i,
    {
        let rule = rules[i];
        assert(rule == artifact_rule_list()[i as int]);
        proof {
            reveal_strlit("*");
            assert("*"@ =~= seq!['*']);
        }
        if str_eq(rule.dir, name) {
            let star = str_contains(rule.lock_hint, "*");
            if star || (i < sibling_exists.len() && sibling_exists[i]) {
                proof {
                    assert(rule_applies(i as int, name@, sibling_exists@));
                    let k = choose|k: int|
                        rule_applies(k, name@, sibling_exists@) && forall|j: int|
                            0 <= j < k ==> !rule_applies(j, name@, sibling_exists@);
                    assert(rule_applies(k, name@, sibling_exists@));
                    if k < i {
                        assert(!rule_applies(k, name@, sibling_exists@));
                    }
                    if i < k {
                        assert(!rule_applies(i as int, name@, sibling_exists@));
                    }
                    assert(k == i);
                }
                return Some(rule);
            }
        }
        i += 1;
    }
    None
}

/// The lock file whose age is compared: the directory itself when the hint
/// is a pattern, else the hinted file beside it.
pub fn lock_path(path: &str, parent: &str, rule: &ArtifactRule) -> (r: String)
    ensures
        r@ == (if contains_seq(rule.lock_hint@, seq!['*']) {
            path@
        } else {
            join_child(parent@, rule.lock_hint@)
        }),
{
    proof {
        reveal_strlit("*");
        assert("*"@ =~= seq!['*']);
    }
    if str_contains(rule.lock_hint, "*") {
        to_owned(path)
    } else {
        join_path(parent, rule.lock_hint)
    }
}

/// Whether a lock file of that age is younger than the minimum age.
pub fn is_too_recent(min_age_days: Option<u32>, age: FileAge) -> (b: bool)
    ensures
        b == too_recent(min_age_days, age),
{
    match min_age_days {
        Some(d) => {
            let threshold: u64 = d as u64 * 86400;
            match age {
                FileAge::Unknown => false,
                FileAge::Secs(s) => s < threshold,
                FileAge::Future => 0 < threshold,
            }
        },
        None => false,
    }
}

/// Whether a path is hidden: its attributes carry the hidden flag, or its
/// name starts with a dot.
pub fn is_hidden(path: &str, attributes: Option<u32>) -> (b: bool)
    ensures
        b == ((attributes matches Some(a) && a & 2 != 0) || (file_name(path@) matches Some(n) && n.len()
            > 0 && n[0] == '.')),
{
    match attributes {
        Some(a) => {
            if a & 2 != 0 {
                return true;
            }
        },
        None => {},
    }
    match file_name_of(path) {
        Some(n) => {
            let v = chars_of(n.as_str());
            v.len() > 0 && v[0] == '.'
        },
        None => false,
    }
}

/// The type of a scanned item.
pub fn classify(is_dir: bool, is_reparse: bool, is_junction: bool) -> (t: FileType)
    ensures
        t == file_type_of(is_dir, is_reparse, is_junction),
{
    if is_dir {
        FileType::Directory
    } else if is_reparse {
        if is_junction {
            FileType::Junction
        } else {
            FileType::Symlink
        }
    } else {
        FileType::File
    }
}

/// Whether an item may be deleted, and the reason when it may not.
pub fn safety(path: &str) -> (r: (bool, Option<String>))
    ensures
        r.0 == safety_of(path@).0,
        opt_text(r.1) == safety_of(path@).1,
{
    if should_never_delete(path) {
        proof {
            reveal_strlit("In NEVER_DELETE list");
        }
        (false, Some(to_owned("In NEVER_DELETE list")))
    } else {
        (true, None)
    }
}

impl Scanner {
    /// A scanner for the given configuration.
    pub fn new(config: ScanConfig) -> (s: Self)
        ensures
            s.config() == config,
    {
        Scanner { config }
    }

    /// The configuration.
    pub closed spec fn config(&self) -> ScanConfig {
        self.config
    }

    /// The configuration.
    pub fn get_config(&self) -> (c: &ScanConfig)
        ensures
            *c == self.config(),
    {
        &self.config
    }

    /// The number of parallel workers: the configured number, else the
    /// available parallelism, else four.
    pub fn parallelism(&self, available: Option<usize>) -> (n: usize)
        ensures
            n == match self.config().parallel_jobs {
                Some(j) => j,
                None => match available {
                    Some(a) => a,
                    None => 4,
                },
            },
    {
        match self.config.parallel_jobs {
            Some(j) => j,
            None => match available {
                Some(a) => a,
                None => 4,
            },
        }
    }

    /// What the scan does with a directory entry, from what is known of it.
    pub fn entry_action(
        &self,
        hidden: bool,
        known_artifact: bool,
        is_reparse: bool,
        is_junction: bool,
        is_dir: bool,
    ) -> (a: EntryAction)
        ensures
            a == entry_action_spec(self.config(), hidden, known_artifact, is_reparse, is_junction, is_dir),
    {
        if !self.config.include_hidden && hidden && !known_artifact {
            EntryAction::Skip
        } else if is_reparse {
            if !is_junction && !self.config.follow_symlinks {
                EntryAction::Skip
            } else {
                EntryAction::ReportLink(if is_junction { FileType::Junction } else { FileType::Symlink })
            }
        } else if is_dir {
            EntryAction::TryArtifact
        } else {
            EntryAction::ReportFile
        }
    }

    /// The artifact rule under which a directory is reported as one item:
    /// none when its name matches no rule, when its lock file is too recent,
    /// or when it is a reparse point.
    pub fn artifact_rule_for(
        &self,
        path: &str,
        sibling_exists: &[bool],
        lock_age: FileAge,
        is_reparse: bool,
    ) -> (r: Option<ArtifactRule>)
        ensures
            r == match file_name(path@) {
                Some(n) => match first_rule(n, sibling_exists@) {
                    Some(rule) => if too_recent(self.config().min_age_days, lock_age) || is_reparse {
                        None
                    } else {
                        Some(rule)
                    },
                    None => None,
                },
                None => None,
            },
    {
        let name = match file_name_of(path) {
            Some(n) => n,
            None => {
                return None;
            },
        };
        let rule = match match_artifact_rule(name.as_str(), sibling_exists) {
            Some(r) => r,
            None => {
                return None;
            },
        };
        if is_too_recent(self.config.min_age_days, lock_age) {
            return None;
        }
        if is_reparse {
            return None;
        }
        Some(rule)
    }
}

/// The single item an artifact directory is reported as.
pub fn artifact_result(
    id: u128,
    path: &str,
    size_bytes: u64,
    last_modified: Timestamp,
    rule: &ArtifactRule,
) -> (r: ScanResult)
    ensures
        r.id == id,
        r.path@ == path@,
        r.size_bytes == size_bytes,
        r.file_type == FileType::Directory,
        r.project_type == Some(rule.project_type),
        r.last_modified == last_modified,
        safety_fields(r),
{
    let (safe, reason) = safety(path);
    ScanResult {
        id,
        path: to_owned(path),
        size_bytes,
        file_type: FileType::Directory,
        project_type: Some(rule.project_type),
        last_modified,
        is_safe_to_delete: safe,
        deletion_reason: reason,
    }
}

/// The item a scanned file or directory is reported as; the project type
/// found for a directory is kept only for directories.
pub fn file_result(
    id: u128,
    path: &str,
    size_bytes: u64,
    last_modified: Timestamp,
    file_type: FileType,
    detected_project: Option<ProjectType>,
) -> (r: ScanResult)
    ensures
        r.id == id,
        r.path@ == path@,
        r.size_bytes == size_bytes,
        r.file_type == file_type,
        r.project_type == (if file_type == FileType::Directory { detected_project } else { None }),
        r.last_modified == last_modified,
        safety_fields(r),
{
    let (safe, reason) = safety(path);
    ScanResult {
        id,
        path: to_owned(path),
        size_bytes,
        file_type,
        project_type: if file_type == FileType::Directory { detected_project } else { None },
        last_modified,
        is_safe_to_delete: safe,
        deletion_reason: reason,
    }
}

/// Every item the scan reports is marked safe exactly when it is not on the
/// never-delete list.
pub proof fn law_reported_safety(r: ScanResult)
    requires
        safety_fields(r),
    ensures
        r.is_safe_to_delete <==> !never_delete(r.path@),
        !r.is_safe_to_delete ==> opt_text(r.deletion_reason) == Some(never_delete_reason()),
{
}


/// What the scan does with an entry, over all entries:
/// - being hidden matters only when hidden entries are excluded, and then
///   only for entries that are not known build-artifact folders: those are
///   skipped, and nothing else is skipped for being hidden;
/// - a plain file is reported, a plain directory is tried as a build
///   artifact;
/// - a junction is reported as a junction; a symbolic link is reported as
///   one when links are followed, and skipped otherwise.
pub proof fn law_entry_action(
    config: ScanConfig,
    hidden: bool,
    known_artifact: bool,
    is_reparse: bool,
    is_junction: bool,
    is_dir: bool,
)
    ensures
        config.include_hidden || known_artifact ==> entry_action_spec(
            config,
            true,
            known_artifact,
            is_reparse,
            is_junction,
            is_dir,
        ) == entry_action_spec(config, false, known_artifact, is_reparse, is_junction, is_dir),
        !config.include_hidden && hidden && !known_artifact ==> entry_action_spec(
            config,
            hidden,
            known_artifact,
            is_reparse,
            is_junction,
            is_dir,
        ) == EntryAction::Skip,
        !(!config.include_hidden && hidden && !known_artifact) ==> {
            let a = entry_action_spec(config, hidden, known_artifact, is_reparse, is_junction, is_dir);
            &&& !is_reparse && !is_dir ==> a == EntryAction::ReportFile
            &&& !is_reparse && is_dir ==> a == EntryAction::TryArtifact
            &&& is_reparse && is_junction ==> a == EntryAction::ReportLink(FileType::Junction)
            &&& is_reparse && !is_junction && config.follow_symlinks ==> a == EntryAction::ReportLink(FileType::Symlink)
            &&& is_reparse && !is_junction && !config.follow_symlinks ==> a == EntryAction::Skip
        },
{
}

} // verus!
