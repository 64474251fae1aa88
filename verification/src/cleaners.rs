//! Whole cleanups of package-manager caches. A cleanup is planned here: the
//! folders it deletes, empties or measures, in order. The caller carries the
//! plan out and reports back, for each folder, the files and bytes it removed
//! (or counted) or the error; the account of the cleanup is computed here
//! from those reports.
use vstd::prelude::*;
use crate::package_manager::{
    clean_failure, command_error, command_error_spec, delete_failure, texts, CargoManager, CleanTally,
    CommandOutcome, GoModulesManager, NugetManager, PackageCleanResult, PlaywrightManager,
};
use crate::path::{components, file_name, file_name_of, parent_text, push_path, push_path_str};
use crate::text::{contains_seq, push_str, str_trim, to_owned, trim};

verus! {

/// What is done to a cache folder.
#[derive(Debug, Clone, Copy, PartialEq, Eq, Structural)]
pub enum PathWork {
    /// The folder is removed; success counts as one item.
    Delete,
    /// The folder's contents are removed; success counts the files removed.
    Empty,
    /// A dry run: the folder's files and bytes are counted, nothing is removed.
    Measure,
}

/// One folder of a cleanup and what is done to it.
#[derive(Debug, Clone)]
pub struct CleanAction {
    /// The folder.
    pub path: String,
    /// How the folder is named in an error message.
    pub label: String,
    /// What is done to it.
    pub work: PathWork,
}

/// An action as plain values: folder, label, work.
pub open spec fn action_view(a: CleanAction) -> (Seq<char>, Seq<char>, PathWork) {
    (a.path@, a.label@, a.work)
}

/// The actions of a plan as plain values.
pub open spec fn actions_view(v: Seq<CleanAction>) -> Seq<(Seq<char>, Seq<char>, PathWork)> {
    v.map_values(|a: CleanAction| action_view(a))
}

/// The same work on each folder, each named by its own path.
pub open spec fn work_on(targets: Seq<Seq<char>>, work: PathWork) -> Seq<(Seq<char>, Seq<char>, PathWork)> {
    targets.map_values(|t: Seq<char>| (t, t, work))
}

/// Items a reported action counts: one for a deleted folder, the files
/// removed or counted otherwise, none on an error.
pub open spec fn action_items(a: CleanAction, o: Result<(u64, u64), String>) -> nat {
    match o {
        Ok((files, _)) => if a.work == PathWork::Delete { 1 } else { files as nat },
        Err(_) => 0,
    }
}

/// Bytes a reported action counts.
pub open spec fn action_bytes(o: Result<(u64, u64), String>) -> nat {
    match o {
        Ok((_, bytes)) => bytes as nat,
        Err(_) => 0,
    }
}

/// The error a reported action records. A failed measurement of a dry run
/// records none.
pub open spec fn action_error(a: CleanAction, o: Result<(u64, u64), String>) -> Option<Seq<char>> {
    match o {
        Ok(_) => None,
        Err(e) => match a.work {
            PathWork::Delete => Some(delete_failure(a.path@, e@)),
            PathWork::Empty => Some(clean_failure(a.label@, e@)),
            PathWork::Measure => None,
        },
    }
}

/// An optional message as a list of zero or one.
pub open spec fn opt_seq(m: Option<Seq<char>>) -> Seq<Seq<char>> {
    match m {
        Some(x) => seq![x],
        None => Seq::empty(),
    }
}

/// Items counted by the first `n` reports.
pub open spec fn items_upto(acts: Seq<CleanAction>, outs: Seq<Result<(u64, u64), String>>, n: int) -> nat
    decreases n,
{
    if n <= 0 {
        0
    } else {
        items_upto(acts, outs, n - 1) + action_items(acts[n - 1], outs[n - 1])
    }
}

/// Bytes counted by the first `n` reports.
pub open spec fn bytes_upto(outs: Seq<Result<(u64, u64), String>>, n: int) -> nat
    decreases n,
{
    if n <= 0 {
        0
    } else {
        bytes_upto(outs, n - 1) + action_bytes(outs[n - 1])
    }
}

/// Errors recorded by the first `n` reports, in order.
pub open spec fn errors_upto(acts: Seq<CleanAction>, outs: Seq<Result<(u64, u64), String>>, n: int) -> Seq<Seq<char>>
    decreases n,
{
    if n <= 0 {
        Seq::empty()
    } else {
        errors_upto(acts, outs, n - 1) + opt_seq(action_error(acts[n - 1], outs[n - 1]))
    }
}

proof fn lemma_totals_grow(acts: Seq<CleanAction>, outs: Seq<Result<(u64, u64), String>>, i: int, n: int)
    requires
        0 <= i <= n,
    ensures
        items_upto(acts, outs, i) <= items_upto(acts, outs, n),
        bytes_upto(outs, i) <= bytes_upto(outs, n),
    decreases n - i,
{
    if i < n {
        lemma_totals_grow(acts, outs, i, n - 1);
    }
}

/// Add one report to the account of a cleanup.
pub fn record_action(tally: &mut CleanTally, a: &CleanAction, o: &Result<(u64, u64), String>)
    requires
        old(tally).freed() + action_bytes(*o) <= u64::MAX,
        old(tally).deleted() + action_items(*a, *o) <= u64::MAX,
    ensures
        final(tally).manager() == old(tally).manager(),
        final(tally).freed() == old(tally).freed() + action_bytes(*o),
        final(tally).deleted() == old(tally).deleted() + action_items(*a, *o),
        final(tally).errs() == old(tally).errs() + opt_seq(action_error(*a, *o)),
{
    let ghost e0 = tally.errs();
    match o {
        Ok((files, bytes)) => {
            match a.work {
                PathWork::Delete => tally.record_deleted(*bytes),
                _ => tally.record_emptied(a.label.as_str(), Ok((*files, *bytes))),
            }
            assert(e0 + Seq::<Seq<char>>::empty() =~= e0);
        },
        Err(e) => match a.work {
            PathWork::Delete => {
                tally.record_failure(a.path.as_str(), e.as_str());
                assert(e0.push(delete_failure(a.path@, e@)) =~= e0 + seq![delete_failure(a.path@, e@)]);
            },
            PathWork::Empty => {
                let mut m = to_owned("Failed to clean ");
                push_str(&mut m, a.label.as_str());
                push_str(&mut m, ": ");
                push_str(&mut m, e.as_str());
                assert(m@ =~= clean_failure(a.label@, e@));
                tally.record_error(m);
                assert(e0.push(clean_failure(a.label@, e@)) =~= e0 + seq![clean_failure(a.label@, e@)]);
            },
            PathWork::Measure => {
                assert(e0 + Seq::<Seq<char>>::empty() =~= e0);
            },
        },
    }
}

/// Add the reports of a whole plan, in order, to the account of a cleanup.
pub fn record_actions(tally: &mut CleanTally, acts: &[CleanAction], outs: &[Result<(u64, u64), String>])
    requires
        acts@.len() == outs@.len(),
        old(tally).freed() + bytes_upto(outs@, outs@.len() as int) <= u64::MAX,
        old(tally).deleted() + items_upto(acts@, outs@, acts@.len() as int) <= u64::MAX,
    ensures
        final(tally).manager() == old(tally).manager(),
        final(tally).freed() == old(tally).freed() + bytes_upto(outs@, outs@.len() as int),
        final(tally).deleted() == old(tally).deleted() + items_upto(acts@, outs@, acts@.len() as int),
        final(tally).errs() == old(tally).errs() + errors_upto(acts@, outs@, acts@.len() as int),
{
    let ghost m0 = tally.manager();
    let ghost f0 = tally.freed();
    let ghost d0 = tally.deleted();
    let ghost e0 = tally.errs();
    let n = acts.len();
    let mut i: usize = 0;
    while i < n
        invariant
            n == acts@.len(),
            n == outs@.len(),
            0 <= i <= n,
            tally.manager() == m0,
            tally.freed() == f0 + bytes_upto(outs@, i as int),
            tally.deleted() == d0 + items_upto(acts@, outs@, i as int),
            tally.errs() == e0 + errors_upto(acts@, outs@, i as int),
            f0 + bytes_upto(outs@, n as int) <= u64::MAX,
            d0 + items_upto(acts@, outs@, n as int) <= u64::MAX,
        decreases n - i,
    {
        proof {
            lemma_totals_grow(acts@, outs@, i as int + 1, n as int);
        }
        let ghost before = tally.errs();
        record_action(tally, &acts[i], &outs[i]);
        proof {
            let step = opt_seq(action_error(acts@[i as int], outs@[i as int]));
            assert(errors_upto(acts@, outs@, i as int + 1) == errors_upto(acts@, outs@, i as int) + step);
            assert(e0 + errors_upto(acts@, outs@, i as int) + step =~= e0 + (errors_upto(acts@, outs@, i as int)
                + step));
        }
        i += 1;
    }
}

/// The result of a cleanup: the notes recorded before any folder (in
/// order), then what the reports of the plan add up to.
pub fn clean_result(
    manager: &str,
    notes: Vec<String>,
    acts: &[CleanAction],
    outs: &[Result<(u64, u64), String>],
    duration_ms: u64,
) -> (r: PackageCleanResult)
    requires
        acts@.len() == outs@.len(),
        bytes_upto(outs@, outs@.len() as int) <= u64::MAX,
        items_upto(acts@, outs@, acts@.len() as int) <= u64::MAX,
    ensures
        r.package_manager@ == manager@,
        r.space_freed == bytes_upto(outs@, outs@.len() as int),
        r.items_deleted == items_upto(acts@, outs@, acts@.len() as int),
        texts(r.errors@) == texts(notes@) + errors_upto(acts@, outs@, acts@.len() as int),
        r.duration_ms == duration_ms,
{
    let mut tally = CleanTally::new(manager);
    let mut i: usize = 0;
    while i < notes.len()
        invariant
            0 <= i <= notes@.len(),
            tally.manager() == manager@,
            tally.freed() == 0,
            tally.deleted() == 0,
            tally.errs() == texts(notes@.subrange(0, i as int)),
        decreases notes@.len() - i,
    {
        tally.record_error(to_owned(notes[i].as_str()));
        assert(texts(notes@.subrange(0, i as int + 1)) =~= texts(notes@.subrange(0, i as int)).push(
            notes@[i as int]@,
        ));
        i += 1;
    }
    assert(notes@.subrange(0, notes@.len() as int) =~= notes@);
    record_actions(&mut tally, acts, outs);
    tally.finish(duration_ms)
}

// ---------------------------------------------------------------------------
// Plans that delete whole cache folders
// ---------------------------------------------------------------------------

/// Which existing cache folders a deleting cleanup leaves alone.
#[derive(Debug, Clone, Copy, PartialEq, Eq, Structural)]
pub enum SkipRule {
    /// None.
    Nothing,
    /// Build `target` folders (Cargo).
    TargetDirs,
    /// A project's `packages` folder (NuGet).
    ProjectPackages,
}

/// The folder is left alone under the rule.
pub open spec fn skipped(rule: SkipRule, p: Seq<char>) -> bool {
    match rule {
        SkipRule::Nothing => false,
        SkipRule::TargetDirs => components(p).len() > 0 && components(p).last() == "target"@,
        SkipRule::ProjectPackages => components(p).len() > 0 && components(p).last() == "packages"@
            && contains_seq(p, "packages"@),
    }
}

/// The folders, among the first `n`, that exist and are not left alone.
pub open spec fn kept(paths: Seq<String>, exists: Seq<bool>, rule: SkipRule, n: int) -> Seq<Seq<char>>
    decreases n,
{
    if n <= 0 {
        Seq::empty()
    } else {
        kept(paths, exists, rule, n - 1) + (if exists[n - 1] && !skipped(rule, paths[n - 1]@) {
            seq![paths[n - 1]@]
        } else {
            Seq::empty()
        })
    }
}

fn push_action(v: &mut Vec<CleanAction>, path: &str, label: &str, work: PathWork)
    ensures
        actions_view(final(v)@) == actions_view(old(v)@).push((path@, label@, work)),
{
    let ghost before = actions_view(v@);
    v.push(CleanAction { path: to_owned(path), label: to_owned(label), work });
    assert(actions_view(v@) =~= before.push((path@, label@, work)));
}

fn skip_applies(rule: SkipRule, path: &str) -> (b: bool)
    ensures
        b == skipped(rule, path@),
{
    match rule {
        SkipRule::Nothing => false,
        SkipRule::TargetDirs => CargoManager::is_target_dir(path),
        SkipRule::ProjectPackages => NugetManager::is_project_packages_dir(path),
    }
}

/// The plan of a cleanup that deletes each existing cache folder, in order,
/// except those the rule leaves alone (npm, pip: none; Cargo: `target`
/// folders; NuGet: project `packages` folders).
pub fn deletion_plan(paths: &[String], exists: &[bool], rule: SkipRule) -> (r: Vec<CleanAction>)
    requires
        exists@.len() == paths@.len(),
    ensures
        actions_view(r@) == work_on(kept(paths@, exists@, rule, paths@.len() as int), PathWork::Delete),
{
    let mut r: Vec<CleanAction> = Vec::new();
    let mut i: usize = 0;
    while i < paths.len()
        invariant
            exists@.len() == paths@.len(),
            0 <= i <= paths@.len(),
            actions_view(r@) == work_on(kept(paths@, exists@, rule, i as int), PathWork::Delete),
        decreases paths@.len() - i,
    {
        let p = paths[i].as_str();
        if exists[i] && !skip_applies(rule, p) {
            push_action(&mut r, p, p, PathWork::Delete);
        }
        assert(work_on(kept(paths@, exists@, rule, i as int + 1), PathWork::Delete) =~= actions_view(r@));
        i += 1;
    }
    r
}

/// The result of a Cargo cleanup: the notice that `cargo-cache` is missing
/// when it is, then what the reports add up to.
pub fn cargo_clean_result(
    has_cargo_cache: bool,
    acts: &[CleanAction],
    outs: &[Result<(u64, u64), String>],
    duration_ms: u64,
) -> (r: PackageCleanResult)
    requires
        acts@.len() == outs@.len(),
        bytes_upto(outs@, outs@.len() as int) <= u64::MAX,
        items_upto(acts@, outs@, acts@.len() as int) <= u64::MAX,
    ensures
        r.package_manager@ == "cargo"@,
        r.space_freed == bytes_upto(outs@, outs@.len() as int),
        r.items_deleted == items_upto(acts@, outs@, acts@.len() as int),
        texts(r.errors@) == (if has_cargo_cache {
            Seq::empty()
        } else {
            seq![
                "cargo-cache not found — install it with `cargo install cargo-cache` for selective registry cleanup. Falling back to full directory removal."@,
            ]
        }) + errors_upto(acts@, outs@, acts@.len() as int),
        r.duration_ms == duration_ms,
{
    let mut notes: Vec<String> = Vec::new();
    match CargoManager::missing_cargo_cache_notice(has_cargo_cache) {
        Some(n) => notes.push(to_owned(n)),
        None => {},
    }
    proof {
        if has_cargo_cache {
            assert(texts(notes@) =~= Seq::<Seq<char>>::empty());
        } else {
            assert(texts(notes@) =~= seq![
                "cargo-cache not found — install it with `cargo install cargo-cache` for selective registry cleanup. Falling back to full directory removal."@,
            ]);
        }
    }
    clean_result("cargo", notes, acts, outs, duration_ms)
}

// ---------------------------------------------------------------------------
// Go
// ---------------------------------------------------------------------------

/// The names of the Go cleanup commands that are run: `go clean -modcache`
/// and `go clean -cache` when Go is installed and it is not a dry run.
pub open spec fn go_commands(dry_run: bool, installed: bool) -> Seq<Seq<char>> {
    if installed && !dry_run {
        seq!["go clean -modcache"@, "go clean -cache"@]
    } else {
        Seq::empty()
    }
}

/// The errors recorded for the first `n` commands run.
pub open spec fn command_errors_upto(names: Seq<Seq<char>>, outs: Seq<CommandOutcome>, n: int) -> Seq<Seq<char>>
    decreases n,
{
    if n <= 0 {
        Seq::empty()
    } else {
        command_errors_upto(names, outs, n - 1) + opt_seq(command_error_spec(names[n - 1], outs[n - 1]))
    }
}

/// The errors recorded for commands that were run, in order.
pub fn command_errors(names: &[&str], outs: &[CommandOutcome]) -> (r: Vec<String>)
    requires
        names@.len() == outs@.len(),
    ensures
        texts(r@) == command_errors_upto(names@.map_values(|s: &str| s@), outs@, outs@.len() as int),
{
    let ghost nv = names@.map_values(|s: &str| s@);
    let mut r: Vec<String> = Vec::new();
    let mut i: usize = 0;
    while i < outs.len()
        invariant
            names@.len() == outs@.len(),
            nv == names@.map_values(|s: &str| s@),
            0 <= i <= outs@.len(),
            texts(r@) == command_errors_upto(nv, outs@, i as int),
        decreases outs@.len() - i,
    {
        let ghost before = texts(r@);
        match command_error(names[i], &outs[i]) {
            Some(m) => r.push(m),
            None => {},
        }
        assert(nv[i as int] == names@[i as int]@);
        assert(texts(r@) =~= before + opt_seq(command_error_spec(nv[i as int], outs@[i as int])));
        i += 1;
    }
    r
}

/// A folder stands for Go's build cache when its name contains `go-build`.
pub open spec fn go_build_entry(p: Seq<char>) -> bool {
    file_name(p) matches Some(n) && contains_seq(n, "go-build"@)
}

/// The `go-build` folders among the first `k` entries.
pub open spec fn go_entries(es: Seq<String>, k: int) -> Seq<Seq<char>>
    decreases k,
{
    if k <= 0 {
        Seq::empty()
    } else {
        go_entries(es, k - 1) + (if go_build_entry(es[k - 1]@) { seq![es[k - 1]@] } else { Seq::empty() })
    }
}

/// The folders one cache path stands for: for a glob path (holding `*`)
/// with a parent, the `go-build` entries of that parent; otherwise the path
/// itself when it exists.
pub open spec fn go_targets_of(p: Seq<char>, exists: bool, entries: Seq<String>) -> Seq<Seq<char>> {
    if contains_seq(p, seq!['*']) {
        if parent_text(p) is Some {
            go_entries(entries, entries.len() as int)
        } else {
            Seq::empty()
        }
    } else if exists {
        seq![p]
    } else {
        Seq::empty()
    }
}

/// The folders the first `n` cache paths stand for, in order.
pub open spec fn go_targets(paths: Seq<String>, exists: Seq<bool>, entries: Seq<Vec<String>>, n: int) -> Seq<
    Seq<char>,
>
    decreases n,
{
    if n <= 0 {
        Seq::empty()
    } else {
        go_targets(paths, exists, entries, n - 1) + go_targets_of(paths[n - 1]@, exists[n - 1], entries[n - 1]@)
    }
}

/// The work done on a folder that is emptied: emptied, or only measured in
/// a dry run.
pub open spec fn empty_or_measure(dry_run: bool) -> PathWork {
    if dry_run {
        PathWork::Measure
    } else {
        PathWork::Empty
    }
}

fn push_go_entries(r: &mut Vec<CleanAction>, entries: &Vec<String>, work: PathWork)
    ensures
        actions_view(final(r)@) == actions_view(old(r)@) + work_on(go_entries(entries@, entries@.len() as int), work),
{
    let ghost start = actions_view(r@);
    let mut k: usize = 0;
    while k < entries.len()
        invariant
            0 <= k <= entries@.len(),
            actions_view(r@) == start + work_on(go_entries(entries@, k as int), work),
        decreases entries@.len() - k,
    {
        let e = entries[k].as_str();
        let name = file_name_of(e);
        let is_build = match &name {
            Some(n) => GoModulesManager::is_go_build_entry(Some(n.as_str())),
            None => false,
        };
        if is_build {
            push_action(r, e, e, work);
        }
        assert(actions_view(r@) =~= start + work_on(go_entries(entries@, k as int + 1), work));
        k += 1;
    }
}

/// The plan of a Go cache cleanup over its cache paths. `exists[i]` tells
/// whether `cache_paths[i]` exists; for a glob path, `glob_entries[i]` lists
/// the entries of its parent folder (empty when it cannot be read). Each
/// folder is emptied, or in a dry run only measured: a dry run removes
/// nothing.
pub fn go_clean_plan(dry_run: bool, cache_paths: &[String], exists: &[bool], glob_entries: &[Vec<String>]) -> (r: Vec<
    CleanAction,
>)
    requires
        exists@.len() == cache_paths@.len(),
        glob_entries@.len() == cache_paths@.len(),
    ensures
        actions_view(r@) == work_on(
            go_targets(cache_paths@, exists@, glob_entries@, cache_paths@.len() as int),
            empty_or_measure(dry_run),
        ),
{
    let work = if dry_run {
        PathWork::Measure
    } else {
        PathWork::Empty
    };
    let mut r: Vec<CleanAction> = Vec::new();
    let mut i: usize = 0;
    while i < cache_paths.len()
        invariant
            exists@.len() == cache_paths@.len(),
            glob_entries@.len() == cache_paths@.len(),
            work == empty_or_measure(dry_run),
            0 <= i <= cache_paths@.len(),
            actions_view(r@) == work_on(go_targets(cache_paths@, exists@, glob_entries@, i as int), work),
        decreases cache_paths@.len() - i,
    {
        let ghost before = actions_view(r@);
        let p = cache_paths[i].as_str();
        if GoModulesManager::is_glob_path(p) {
            match GoModulesManager::glob_parent(p) {
                Some(_) => push_go_entries(&mut r, &glob_entries[i], work),
                None => {},
            }
        } else if exists[i] {
            push_action(&mut r, p, p, work);
        }
        proof {
            let t = go_targets_of(cache_paths@[i as int]@, exists@[i as int], glob_entries@[i as int]@);
            assert(go_targets(cache_paths@, exists@, glob_entries@, i as int + 1) == go_targets(
                cache_paths@,
                exists@,
                glob_entries@,
                i as int,
            ) + t);
            assert(actions_view(r@) =~= work_on(go_targets(cache_paths@, exists@, glob_entries@, i as int + 1), work));
        }
        i += 1;
    }
    r
}

/// A dry run of the Go cleanup runs no command and removes nothing: every
/// folder of its plan is only measured.
pub proof fn law_go_dry_run(installed: bool, paths: Seq<String>, exists: Seq<bool>, entries: Seq<Vec<String>>)
    ensures
        go_commands(true, installed).len() == 0,
        forall|i: int|
            0 <= i < work_on(go_targets(paths, exists, entries, paths.len() as int), empty_or_measure(true)).len() ==> (
            #[trigger] work_on(go_targets(paths, exists, entries, paths.len() as int), empty_or_measure(true))[i]).2
                == PathWork::Measure,
{
}

/// The result of a Go cache cleanup: the errors of the commands run (see
/// `GoModulesManager::clean_commands`), then what the reports of the plan
/// add up to.
pub fn go_clean_result(
    dry_run: bool,
    installed: bool,
    commands: &[CommandOutcome],
    acts: &[CleanAction],
    outs: &[Result<(u64, u64), String>],
    duration_ms: u64,
) -> (r: PackageCleanResult)
    requires
        commands@.len() == go_commands(dry_run, installed).len(),
        acts@.len() == outs@.len(),
        bytes_upto(outs@, outs@.len() as int) <= u64::MAX,
        items_upto(acts@, outs@, acts@.len() as int) <= u64::MAX,
    ensures
        r.package_manager@ == "go"@,
        r.space_freed == bytes_upto(outs@, outs@.len() as int),
        r.items_deleted == items_upto(acts@, outs@, acts@.len() as int),
        texts(r.errors@) == command_errors_upto(go_commands(dry_run, installed), commands@, commands@.len() as int)
            + errors_upto(acts@, outs@, acts@.len() as int),
        r.duration_ms == duration_ms,
{
    let names = GoModulesManager::clean_commands(dry_run, installed);
    proof {
        assert(names@.map_values(|s: &str| s@) =~= go_commands(dry_run, installed));
    }
    let notes = command_errors(names.as_slice(), commands);
    clean_result("go", notes, acts, outs, duration_ms)
}

/// The plan of a cleanup of Go's global packages: `bin` and then `pkg`
/// under `GOPATH`, each when it exists, emptied or (dry run) measured, and
/// named `GOPATH/bin` and `GOPATH/pkg` in errors.
pub fn go_global_plan(dry_run: bool, gopath: &str, bin_exists: bool, pkg_exists: bool) -> (r: Vec<CleanAction>)
    ensures
        actions_view(r@) == (if bin_exists {
            seq![(push_path(gopath@, "bin"@), "GOPATH/bin"@, empty_or_measure(dry_run))]
        } else {
            Seq::empty()
        }) + (if pkg_exists {
            seq![(push_path(gopath@, "pkg"@), "GOPATH/pkg"@, empty_or_measure(dry_run))]
        } else {
            Seq::empty()
        }),
{
    let work = if dry_run {
        PathWork::Measure
    } else {
        PathWork::Empty
    };
    let mut r: Vec<CleanAction> = Vec::new();
    if bin_exists {
        let bin = push_path_str(gopath, "bin");
        push_action(&mut r, bin.as_str(), "GOPATH/bin", work);
    }
    let ghost mid = actions_view(r@);
    if pkg_exists {
        let pkg = push_path_str(gopath, "pkg");
        push_action(&mut r, pkg.as_str(), "GOPATH/pkg", work);
    }
    proof {
        let a: Seq<(Seq<char>, Seq<char>, PathWork)> = if bin_exists {
            seq![(push_path(gopath@, "bin"@), "GOPATH/bin"@, empty_or_measure(dry_run))]
        } else {
            Seq::empty()
        };
        let b: Seq<(Seq<char>, Seq<char>, PathWork)> = if pkg_exists {
            seq![(push_path(gopath@, "pkg"@), "GOPATH/pkg"@, empty_or_measure(dry_run))]
        } else {
            Seq::empty()
        };
        assert(mid =~= a);
        assert(actions_view(r@) =~= a + b);
    }
    r
}

// ---------------------------------------------------------------------------
// Yarn and pnpm
// ---------------------------------------------------------------------------

/// The plan of a cleanup that empties each existing cache folder (or, in a
/// dry run, only measures it), in order.
pub fn emptying_plan(dry_run: bool, paths: &[String], exists: &[bool]) -> (r: Vec<CleanAction>)
    requires
        exists@.len() == paths@.len(),
    ensures
        actions_view(r@) == work_on(kept(paths@, exists@, SkipRule::Nothing, paths@.len() as int), empty_or_measure(dry_run)),
{
    let work = if dry_run {
        PathWork::Measure
    } else {
        PathWork::Empty
    };
    let mut r: Vec<CleanAction> = Vec::new();
    let mut i: usize = 0;
    while i < paths.len()
        invariant
            exists@.len() == paths@.len(),
            work == empty_or_measure(dry_run),
            0 <= i <= paths@.len(),
            actions_view(r@) == work_on(kept(paths@, exists@, SkipRule::Nothing, i as int), work),
        decreases paths@.len() - i,
    {
        let p = paths[i].as_str();
        if exists[i] {
            push_action(&mut r, p, p, work);
        }
        assert(work_on(kept(paths@, exists@, SkipRule::Nothing, i as int + 1), work) =~= actions_view(r@));
        i += 1;
    }
    r
}

/// The plan of a pnpm cache cleanup: in a dry run with pnpm installed,
/// every cache path is measured first; then each existing cache folder is
/// emptied, or measured in a dry run.
pub fn pnpm_clean_plan(dry_run: bool, installed: bool, paths: &[String], exists: &[bool]) -> (r: Vec<CleanAction>)
    requires
        exists@.len() == paths@.len(),
    ensures
        actions_view(r@) == (if installed && dry_run {
            work_on(texts(paths@), PathWork::Measure)
        } else {
            Seq::empty()
        }) + work_on(kept(paths@, exists@, SkipRule::Nothing, paths@.len() as int), empty_or_measure(dry_run)),
{
    let mut r: Vec<CleanAction> = Vec::new();
    if installed && dry_run {
        let mut i: usize = 0;
        while i < paths.len()
            invariant
                0 <= i <= paths@.len(),
                actions_view(r@) == work_on(texts(paths@.subrange(0, i as int)), PathWork::Measure),
            decreases paths@.len() - i,
        {
            let p = paths[i].as_str();
            push_action(&mut r, p, p, PathWork::Measure);
            assert(actions_view(r@) =~= work_on(texts(paths@.subrange(0, i as int + 1)), PathWork::Measure));
            i += 1;
        }
        assert(paths@.subrange(0, paths@.len() as int) =~= paths@);
    }
    let ghost first = actions_view(r@);
    let rest = emptying_plan(dry_run, paths, exists);
    let mut k: usize = 0;
    while k < rest.len()
        invariant
            0 <= k <= rest@.len(),
            actions_view(r@) == first + actions_view(rest@).subrange(0, k as int),
        decreases rest@.len() - k,
    {
        let a = &rest[k];
        push_action(&mut r, a.path.as_str(), a.label.as_str(), a.work);
        assert(actions_view(r@) =~= first + actions_view(rest@).subrange(0, k as int + 1));
        k += 1;
    }
    assert(actions_view(rest@).subrange(0, rest@.len() as int) =~= actions_view(rest@));
    r
}

/// The plan of a cleanup of a tool's global packages folder: emptied when
/// it exists (or measured in a dry run), named `global packages` in errors.
pub fn global_packages_plan(dry_run: bool, folder: &str, exists: bool) -> (r: Vec<CleanAction>)
    ensures
        actions_view(r@) == (if exists {
            seq![(folder@, "global packages"@, empty_or_measure(dry_run))]
        } else {
            Seq::empty()
        }),
{
    let mut r: Vec<CleanAction> = Vec::new();
    if exists {
        let work = if dry_run {
            PathWork::Measure
        } else {
            PathWork::Empty
        };
        push_action(&mut r, folder, "global packages", work);
    }
    assert(actions_view(r@) =~= (if exists {
        seq![(folder@, "global packages"@, empty_or_measure(dry_run))]
    } else {
        Seq::empty()
    }));
    r
}

/// Yarn's global packages folder under the home folder: `.yarn/berry/global`
/// for Yarn Berry, `.config/yarn/global` for Yarn Classic.
pub fn yarn_global_folder(berry: bool, home: &str) -> (r: String)
    ensures
        r@ == push_path(home@, if berry { ".yarn/berry/global"@ } else { ".config/yarn/global"@ }),
{
    if berry {
        push_path_str(home, ".yarn/berry/global")
    } else {
        push_path_str(home, ".config/yarn/global")
    }
}

/// pnpm's global packages folder: `node_modules` under the root that
/// `pnpm root -g` printed (trimmed).
pub fn pnpm_global_folder(root_output: &str) -> (r: String)
    ensures
        r@ == push_path(trim(root_output@), "node_modules"@),
{
    let root = str_trim(root_output);
    push_path_str(root.as_str(), "node_modules")
}

/// The commands a Yarn cache cleanup runs: `Yarn cache clean`, unless it is
/// a dry run.
pub fn yarn_commands(dry_run: bool) -> (r: Vec<&'static str>)
    ensures
        r@.map_values(|s: &str| s@) == (if dry_run { Seq::empty() } else { seq!["Yarn cache clean"@] }),
{
    let r: Vec<&'static str> = if dry_run {
        Vec::new()
    } else {
        vec!["Yarn cache clean"]
    };
    assert(r@.map_values(|s: &str| s@) =~= (if dry_run { Seq::empty() } else { seq!["Yarn cache clean"@] }));
    r
}

/// The commands a pnpm cache cleanup runs: `pnpm store prune`, when pnpm is
/// installed and it is not a dry run.
pub fn pnpm_commands(dry_run: bool, installed: bool) -> (r: Vec<&'static str>)
    ensures
        r@.map_values(|s: &str| s@) == (if installed && !dry_run { seq!["pnpm store prune"@] } else { Seq::empty() }),
{
    let r: Vec<&'static str> = if installed && !dry_run {
        vec!["pnpm store prune"]
    } else {
        Vec::new()
    };
    assert(r@.map_values(|s: &str| s@) =~= (if installed && !dry_run {
        seq!["pnpm store prune"@]
    } else {
        Seq::empty()
    }));
    r
}

/// The result of a cleanup that runs commands first: the errors of the
/// commands run (`names[i]` gave `commands[i]`), then what the reports of
/// the plan add up to.
pub fn commands_clean_result(
    manager: &str,
    names: &[&str],
    commands: &[CommandOutcome],
    acts: &[CleanAction],
    outs: &[Result<(u64, u64), String>],
    duration_ms: u64,
) -> (r: PackageCleanResult)
    requires
        names@.len() == commands@.len(),
        acts@.len() == outs@.len(),
        bytes_upto(outs@, outs@.len() as int) <= u64::MAX,
        items_upto(acts@, outs@, acts@.len() as int) <= u64::MAX,
    ensures
        r.package_manager@ == manager@,
        r.space_freed == bytes_upto(outs@, outs@.len() as int),
        r.items_deleted == items_upto(acts@, outs@, acts@.len() as int),
        texts(r.errors@) == command_errors_upto(names@.map_values(|s: &str| s@), commands@, commands@.len() as int)
            + errors_upto(acts@, outs@, acts@.len() as int),
        r.duration_ms == duration_ms,
{
    let notes = command_errors(names, commands);
    clean_result(manager, notes, acts, outs, duration_ms)
}

// ---------------------------------------------------------------------------
// Playwright
// ---------------------------------------------------------------------------

/// The plan of a Playwright cleanup, after `npx playwright uninstall --all`:
/// nothing when it succeeded; otherwise every browsers cache folder is
/// deleted directly.
pub fn playwright_clean_plan(uninstall: &CommandOutcome, cache_paths: &[String]) -> (r: Vec<CleanAction>)
    ensures
        actions_view(r@) == (if *uninstall is Succeeded {
            Seq::empty()
        } else {
            work_on(texts(cache_paths@), PathWork::Delete)
        }),
{
    let mut r: Vec<CleanAction> = Vec::new();
    match uninstall {
        CommandOutcome::Succeeded => {
            assert(actions_view(r@) =~= Seq::<(Seq<char>, Seq<char>, PathWork)>::empty());
        },
        _ => {
            let mut i: usize = 0;
            while i < cache_paths.len()
                invariant
                    0 <= i <= cache_paths@.len(),
                    actions_view(r@) == work_on(texts(cache_paths@.subrange(0, i as int)), PathWork::Delete),
                decreases cache_paths@.len() - i,
            {
                let p = cache_paths[i].as_str();
                push_action(&mut r, p, p, PathWork::Delete);
                assert(actions_view(r@) =~= work_on(
                    texts(cache_paths@.subrange(0, i as int + 1)),
                    PathWork::Delete,
                ));
                i += 1;
            }
            assert(cache_paths@.subrange(0, cache_paths@.len() as int) =~= cache_paths@);
        },
    }
    r
}

/// The result of a Playwright cleanup: a successful uninstall counts one
/// item, a failed one records its error; then what the reports of the plan
/// add up to.
pub fn playwright_clean_result(
    uninstall: &CommandOutcome,
    acts: &[CleanAction],
    outs: &[Result<(u64, u64), String>],
    duration_ms: u64,
) -> (r: PackageCleanResult)
    requires
        acts@.len() == outs@.len(),
        bytes_upto(outs@, outs@.len() as int) <= u64::MAX,
        items_upto(acts@, outs@, acts@.len() as int) + 1 <= u64::MAX,
    ensures
        r.package_manager@ == "playwright"@,
        r.space_freed == bytes_upto(outs@, outs@.len() as int),
        r.items_deleted == (if *uninstall is Succeeded { 1nat } else { 0nat }) + items_upto(
            acts@,
            outs@,
            acts@.len() as int,
        ),
        texts(r.errors@) == (match *uninstall {
            CommandOutcome::Failed(stderr) => seq!["playwright uninstall --all failed: "@ + stderr@],
            _ => Seq::empty(),
        }) + errors_upto(acts@, outs@, acts@.len() as int),
        r.duration_ms == duration_ms,
{
    let mut tally = CleanTally::new("playwright");
    let _fallback = PlaywrightManager::after_uninstall(&mut tally, uninstall);
    proof {
        match uninstall {
            CommandOutcome::Failed(stderr) => {
                assert(tally.errs() =~= seq!["playwright uninstall --all failed: "@ + stderr@]);
            },
            _ => {
                assert(tally.errs() =~= Seq::<Seq<char>>::empty());
            },
        }
    }
    record_actions(&mut tally, acts, outs);
    tally.finish(duration_ms)
}

// ---------------------------------------------------------------------------
// Browsers
// ---------------------------------------------------------------------------

/// Bytes freed by the first `n` deletions of browser cache folders.
pub open spec fn freed_upto(outs: Seq<Result<u64, String>>, n: int) -> nat
    decreases n,
{
    if n <= 0 {
        0
    } else {
        freed_upto(outs, n - 1) + match outs[n - 1] {
            Ok(b) => b as nat,
            Err(_) => 0nat,
        }
    }
}

/// Errors of the first `n` deletions: the folder, `": "` and the error.
pub open spec fn browser_errors_upto(paths: Seq<String>, outs: Seq<Result<u64, String>>, n: int) -> Seq<Seq<char>>
    decreases n,
{
    if n <= 0 {
        Seq::empty()
    } else {
        browser_errors_upto(paths, outs, n - 1) + match outs[n - 1] {
            Ok(_) => Seq::empty(),
            Err(e) => seq![paths[n - 1]@ + ": "@ + e@],
        }
    }
}

proof fn lemma_freed_grows(outs: Seq<Result<u64, String>>, i: int, n: int)
    requires
        0 <= i <= n,
    ensures
        freed_upto(outs, i) <= freed_upto(outs, n),
    decreases n - i,
{
    if i < n {
        lemma_freed_grows(outs, i, n - 1);
    }
}

/// The result of a browser cache cleanup, which deletes every cache folder
/// found (`outs[i]` is the bytes deleting `paths[i]` freed, or its error):
/// every folder counts as an item, whether its deletion succeeded or not.
pub fn browser_clean_result(
    manager: &str,
    paths: &[String],
    outs: &[Result<u64, String>],
    duration_ms: u64,
) -> (r: PackageCleanResult)
    requires
        paths@.len() == outs@.len(),
        freed_upto(outs@, outs@.len() as int) <= u64::MAX,
    ensures
        r.package_manager@ == manager@,
        r.space_freed == freed_upto(outs@, outs@.len() as int),
        r.items_deleted == paths@.len(),
        texts(r.errors@) == browser_errors_upto(paths@, outs@, outs@.len() as int),
        r.duration_ms == duration_ms,
{
    let mut freed: u64 = 0;
    let mut errors: Vec<String> = Vec::new();
    let n = outs.len();
    let mut i: usize = 0;
    while i < n
        invariant
            n == outs@.len(),
            n == paths@.len(),
            0 <= i <= n,
            freed == freed_upto(outs@, i as int),
            freed_upto(outs@, n as int) <= u64::MAX,
            texts(errors@) == browser_errors_upto(paths@, outs@, i as int),
        decreases n - i,
    {
        proof {
            lemma_freed_grows(outs@, i as int + 1, n as int);
        }
        let ghost before = texts(errors@);
        match &outs[i] {
            Ok(b) => {
                freed = freed + *b;
            },
            Err(e) => {
                let mut m = to_owned(paths[i].as_str());
                push_str(&mut m, ": ");
                push_str(&mut m, e.as_str());
                errors.push(m);
            },
        }
        assert(texts(errors@) =~= browser_errors_upto(paths@, outs@, i as int + 1));
        i += 1;
    }
    let items: u64 = n as u64;
    PackageCleanResult { package_manager: to_owned(manager), space_freed: freed, items_deleted: items, errors, duration_ms }
}

} // verus!
