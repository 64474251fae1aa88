//! The decisions of a cleanup run: which items may be deleted, and the
//! running account of what was deleted, what failed and how much space was
//! freed. Deleting, lock checks and audit writes are the caller's part.
use vstd::prelude::*;
use crate::never_delete::{never_delete, should_never_delete};
use crate::scanner::never_delete_reason;
use crate::text::{concat, push_str, to_owned};
use crate::types::{CleanupResult, ScanResult};
use crate::path::{file_name, file_name_of, parent_of, parent_text};

verus! {

/// Manager for cleanup operations.
pub struct CleanupManager {
    use_recycle_bin: bool,
    require_confirmation: bool,
}

/// What to do with one item before touching it.
#[derive(Debug, Clone, Copy, PartialEq, Eq, Structural)]
pub enum ItemAction {
    /// It is on the never-delete list: record it as failed, touch nothing.
    Refuse,
    /// The scan marked it unsafe to delete: record it as failed with the
    /// scan's reason, touch nothing.
    RefuseUnsafe,
    /// Check whether it is locked, and delete it if not, to the recycle bin
    /// or for good.
    CheckLockThenDelete { use_recycle_bin: bool },
}

/// What happened to an item whose deletion was attempted.
#[derive(Debug, Clone)]
pub enum ItemOutcome {
    /// It was locked; it was left alone.
    Locked,
    /// It was deleted.
    Deleted,
    /// Deleting it failed with this message.
    Failed(String),
}

/// The account of a cleanup run so far.
pub struct CleanupRun {
    items_deleted: Vec<String>,
    items_failed: Vec<(String, String)>,
    space_freed: u64,
    deleted_sizes: Ghost<Seq<u64>>,
}

/// The sum of the sizes.
pub open spec fn total(sizes: Seq<u64>) -> int
    decreases sizes.len(),
{
    if sizes.len() == 0 {
        0
    } else {
        total(sizes.drop_last()) + sizes.last()
    }
}

/// The text of a failure entry.
pub open spec fn failure_view(f: (String, String)) -> (Seq<char>, Seq<char>) {
    (f.0@, f.1@)
}

/// The reason given for a locked item.
pub open spec fn locked_reason() -> Seq<char> {
    "File is locked"@
}

impl CleanupManager {
    /// A cleanup manager.
    pub fn new(use_recycle_bin: bool, require_confirmation: bool) -> (m: Self)
        ensures
            m.recycle() == use_recycle_bin,
            m.confirmation() == require_confirmation,
    {
        CleanupManager { use_recycle_bin, require_confirmation }
    }

    /// Items go to the recycle bin.
    pub closed spec fn recycle(&self) -> bool {
        self.use_recycle_bin
    }

    /// A confirmation is asked for.
    pub closed spec fn confirmation(&self) -> bool {
        self.require_confirmation
    }

    /// Whether items go to the recycle bin.
    pub fn uses_recycle_bin(&self) -> (b: bool)
        ensures
            b == self.recycle(),
    {
        self.use_recycle_bin
    }

    /// Whether a confirmation is asked for.
    pub fn requires_confirmation(&self) -> (b: bool)
        ensures
            b == self.confirmation(),
    {
        self.require_confirmation
    }

    /// What to do with a scanned item: refuse it when it is on the
    /// never-delete list (checked again, whatever the scan said) or when the
    /// scan marked it unsafe to delete, else check its lock and delete it.
    pub fn plan_item(&self, item: &ScanResult) -> (a: ItemAction)
        ensures
            a == (if never_delete(item.path@) {
                ItemAction::Refuse
            } else if !item.is_safe_to_delete {
                ItemAction::RefuseUnsafe
            } else {
                ItemAction::CheckLockThenDelete { use_recycle_bin: self.recycle() }
            }),
    {
        if should_never_delete(item.path.as_str()) {
            ItemAction::Refuse
        } else if !item.is_safe_to_delete {
            ItemAction::RefuseUnsafe
        } else {
            ItemAction::CheckLockThenDelete { use_recycle_bin: self.use_recycle_bin }
        }
    }
}

/// The reason recorded for an item the scan marked unsafe: the scan's own
/// reason, or a general one when it gave none.
pub open spec fn unsafe_reason(reason: Option<String>) -> Seq<char> {
    match reason {
        Some(r) => r@,
        None => "Not safe to delete"@,
    }
}

impl CleanupRun {
    /// The deleted items, in order.
    pub closed spec fn deleted(&self) -> Seq<Seq<char>> {
        self.items_deleted@.map_values(|p: String| p@)
    }

    /// The sizes of the deleted items, in order.
    pub closed spec fn deleted_sizes(&self) -> Seq<u64> {
        self.deleted_sizes@
    }

    /// The failed items with their reasons, in order.
    pub closed spec fn failed(&self) -> Seq<(Seq<char>, Seq<char>)> {
        self.items_failed@.map_values(|f: (String, String)| failure_view(f))
    }

    /// The space freed so far.
    pub closed spec fn freed(&self) -> nat {
        self.space_freed as nat
    }

    /// The account is consistent: one size per deleted item, the space freed
    /// is their sum, and no deleted item is on the never-delete list.
    pub closed spec fn wf(&self) -> bool {
        &&& self.deleted_sizes@.len() == self.items_deleted@.len()
        &&& self.space_freed == total(self.deleted_sizes@)
        &&& forall|i: int| 0 <= i < self.items_deleted@.len() ==> !never_delete(#[trigger] self.items_deleted@[i]@)
    }

    /// An empty account.
    pub fn new() -> (r: Self)
        ensures
            r.wf(),
            r.deleted().len() == 0,
            r.failed().len() == 0,
            r.freed() == 0,
    {
        let r = CleanupRun {
            items_deleted: Vec::new(),
            items_failed: Vec::new(),
            space_freed: 0,
            deleted_sizes: Ghost(Seq::empty()),
        };
        assert(r.deleted() =~= Seq::<Seq<char>>::empty());
        assert(r.failed() =~= Seq::<(Seq<char>, Seq<char>)>::empty());
        r
    }

    /// Record an item that was refused because it is on the never-delete list.
    pub fn record_refused(&mut self, path: &str)
        requires
            old(self).wf(),
        ensures
            final(self).wf(),
            final(self).deleted() == old(self).deleted(),
            final(self).deleted_sizes() == old(self).deleted_sizes(),
            final(self).freed() == old(self).freed(),
            final(self).failed() == old(self).failed().push((path@, never_delete_reason())),
    {
        proof {
            reveal_strlit("In NEVER_DELETE list");
        }
        let ghost before = self.failed();
        self.items_failed.push((to_owned(path), to_owned("In NEVER_DELETE list")));
        assert(self.failed() =~= before.push((path@, never_delete_reason())));
    }

    /// Record an item that was refused because the scan marked it unsafe.
    pub fn record_unsafe(&mut self, item: &ScanResult)
        requires
            old(self).wf(),
        ensures
            final(self).wf(),
            final(self).deleted() == old(self).deleted(),
            final(self).deleted_sizes() == old(self).deleted_sizes(),
            final(self).freed() == old(self).freed(),
            final(self).failed() == old(self).failed().push((item.path@, unsafe_reason(item.deletion_reason))),
    {
        let reason = match &item.deletion_reason {
            Some(r) => to_owned(r.as_str()),
            None => to_owned("Not safe to delete"),
        };
        let ghost before = self.failed();
        self.items_failed.push((to_owned(item.path.as_str()), reason));
        assert(self.failed() =~= before.push((item.path@, unsafe_reason(item.deletion_reason))));
    }

    /// Record what happened to an item whose deletion was attempted. A
    /// deleted item must not be on the never-delete list (it was planned),
    /// and its size must fit in the total.
    pub fn record(&mut self, path: &str, size_bytes: u64, outcome: ItemOutcome)
        requires
            old(self).wf(),
            outcome is Deleted ==> !never_delete(path@),
            outcome is Deleted ==> old(self).freed() + size_bytes <= u64::MAX,
        ensures
            final(self).wf(),
            match outcome {
                ItemOutcome::Deleted => {
                    &&& final(self).deleted() == old(self).deleted().push(path@)
                    &&& final(self).deleted_sizes() == old(self).deleted_sizes().push(size_bytes)
                    &&& final(self).freed() == old(self).freed() + size_bytes
                    &&& final(self).failed() == old(self).failed()
                },
                ItemOutcome::Locked => {
                    &&& final(self).deleted() == old(self).deleted()
                    &&& final(self).deleted_sizes() == old(self).deleted_sizes()
                    &&& final(self).freed() == old(self).freed()
                    &&& final(self).failed() == old(self).failed().push((path@, locked_reason()))
                },
                ItemOutcome::Failed(m) => {
                    &&& final(self).deleted() == old(self).deleted()
                    &&& final(self).deleted_sizes() == old(self).deleted_sizes()
                    &&& final(self).freed() == old(self).freed()
                    &&& final(self).failed() == old(self).failed().push((path@, m@))
                },
            },
    {
        let ghost failed_before = self.failed();
        let ghost deleted_before = self.deleted();
        match outcome {
            ItemOutcome::Deleted => {
                let ghost sizes = self.deleted_sizes@;
                self.items_deleted.push(to_owned(path));
                self.space_freed = self.space_freed + size_bytes;
                self.deleted_sizes = Ghost(sizes.push(size_bytes));
                assert(sizes.push(size_bytes).drop_last() =~= sizes);
                assert(self.deleted() =~= deleted_before.push(path@));
                assert(self.failed() =~= failed_before);
            },
            ItemOutcome::Locked => {
                proof {
                    reveal_strlit("File is locked");
                }
                self.items_failed.push((to_owned(path), to_owned("File is locked")));
                assert(self.failed() =~= failed_before.push((path@, locked_reason())));
            },
            ItemOutcome::Failed(m) => {
                let ghost mv = m@;
                self.items_failed.push((to_owned(path), m));
                assert(self.failed() =~= failed_before.push((path@, mv)));
            },
        }
    }

    /// The result of the run.
    pub fn finish(self, scan_id: u128, duration_ms: u64) -> (r: CleanupResult)
        ensures
            r.scan_id == scan_id,
            r.duration_ms == duration_ms,
            r.items_deleted@.map_values(|p: String| p@) == self.deleted(),
            r.items_failed@.map_values(|f: (String, String)| failure_view(f)) == self.failed(),
            r.space_freed_bytes == self.freed(),
    {
        CleanupResult {
            scan_id,
            items_deleted: self.items_deleted,
            items_failed: self.items_failed,
            space_freed_bytes: self.space_freed,
            duration_ms,
        }
    }
}

/// A cleanup never deletes an item on the never-delete list, and the space
/// it reports freed is the sum of the sizes of the items it deleted.
pub proof fn law_cleanup_account(run: &CleanupRun)
    requires
        run.wf(),
    ensures
        forall|i: int| 0 <= i < run.deleted().len() ==> !never_delete(#[trigger] run.deleted()[i]),
        run.deleted_sizes().len() == run.deleted().len(),
        run.freed() == total(run.deleted_sizes()),
{
    assert forall|i: int| 0 <= i < run.deleted().len() implies !never_delete(#[trigger] run.deleted()[i]) by {
        assert(run.deleted()[i] == run.items_deleted@[i]@);
    }
}

/// Why an item is refused before it is touched: it is on the never-delete
/// list, or the scan marked it unsafe; none when it may be deleted.
pub open spec fn refusal(item: ScanResult) -> Option<Seq<char>> {
    if never_delete(item.path@) {
        Some(never_delete_reason())
    } else if !item.is_safe_to_delete {
        Some(unsafe_reason(item.deletion_reason))
    } else {
        None
    }
}

/// The reason an attempted deletion failed, if it did.
pub open spec fn outcome_failure(o: ItemOutcome) -> Option<Seq<char>> {
    match o {
        ItemOutcome::Deleted => None,
        ItemOutcome::Locked => Some(locked_reason()),
        ItemOutcome::Failed(m) => Some(m@),
    }
}

/// The item was deleted: it was not refused and its deletion succeeded.
pub open spec fn item_deleted(item: ScanResult, o: ItemOutcome) -> bool {
    refusal(item) is None && o is Deleted
}

/// The items deleted among the first `n`, in order.
pub open spec fn run_deleted(items: Seq<ScanResult>, outs: Seq<ItemOutcome>, n: int) -> Seq<Seq<char>>
    decreases n,
{
    if n <= 0 {
        Seq::empty()
    } else {
        run_deleted(items, outs, n - 1) + (if item_deleted(items[n - 1], outs[n - 1]) {
            seq![items[n - 1].path@]
        } else {
            Seq::empty()
        })
    }
}

/// The sizes of the items deleted among the first `n`, in order.
pub open spec fn run_sizes(items: Seq<ScanResult>, outs: Seq<ItemOutcome>, n: int) -> Seq<u64>
    decreases n,
{
    if n <= 0 {
        Seq::empty()
    } else if item_deleted(items[n - 1], outs[n - 1]) {
        run_sizes(items, outs, n - 1).push(items[n - 1].size_bytes)
    } else {
        run_sizes(items, outs, n - 1)
    }
}

/// The items that failed among the first `n`, with their reasons, in order.
pub open spec fn run_failed(items: Seq<ScanResult>, outs: Seq<ItemOutcome>, n: int) -> Seq<(Seq<char>, Seq<char>)>
    decreases n,
{
    if n <= 0 {
        Seq::empty()
    } else {
        run_failed(items, outs, n - 1) + match refusal(items[n - 1]) {
            Some(r) => seq![(items[n - 1].path@, r)],
            None => match outcome_failure(outs[n - 1]) {
                Some(m) => seq![(items[n - 1].path@, m)],
                None => Seq::empty(),
            },
        }
    }
}

proof fn lemma_run_sizes_grow(items: Seq<ScanResult>, outs: Seq<ItemOutcome>, i: int, n: int)
    requires
        0 <= i <= n,
    ensures
        total(run_sizes(items, outs, i)) <= total(run_sizes(items, outs, n)),
    decreases n - i,
{
    if i < n {
        lemma_run_sizes_grow(items, outs, i, n - 1);
        let s = run_sizes(items, outs, n - 1);
        if item_deleted(items[n - 1], outs[n - 1]) {
            assert(s.push(items[n - 1].size_bytes).drop_last() =~= s);
        }
    }
}

/// A cleanup run accounts for every item exactly once: each of the first
/// `n` items is either deleted or failed, never both, and no deleted item is
/// on the never-delete list or was marked unsafe by the scan.
pub proof fn law_run_accounts_every_item(items: Seq<ScanResult>, outs: Seq<ItemOutcome>, n: int)
    requires
        0 <= n <= items.len(),
        n <= outs.len(),
    ensures
        run_deleted(items, outs, n).len() + run_failed(items, outs, n).len() == n,
        forall|i: int| 0 <= i < n ==> (#[trigger] item_deleted(items[i], outs[i]) ==> !never_delete(items[i].path@)
            && items[i].is_safe_to_delete),
    decreases n,
{
    if n > 0 {
        law_run_accounts_every_item(items, outs, n - 1);
    }
}

fn copy_outcome(o: &ItemOutcome) -> (r: ItemOutcome)
    ensures
        outcome_failure(r) == outcome_failure(*o),
        r is Deleted <==> *o is Deleted,
{
    match o {
        ItemOutcome::Deleted => ItemOutcome::Deleted,
        ItemOutcome::Locked => ItemOutcome::Locked,
        ItemOutcome::Failed(m) => ItemOutcome::Failed(to_owned(m.as_str())),
    }
}

impl CleanupManager {
    /// A whole cleanup run over the scanned items, in order: each item is
    /// planned with `plan_item`; a refused one is recorded as failed with its
    /// reason, and for the others `outcomes[i]` is what checking the lock
    /// and deleting `items[i]` gave (for a refused item it is not looked
    /// at). The space freed must fit in 64 bits.
    pub fn run_cleanup(&self, items: &[ScanResult], outcomes: &[ItemOutcome], scan_id: u128, duration_ms: u64) -> (r:
        CleanupResult)
        requires
            items@.len() == outcomes@.len(),
            total(run_sizes(items@, outcomes@, items@.len() as int)) <= u64::MAX,
        ensures
            r.items_deleted@.map_values(|p: String| p@) == run_deleted(items@, outcomes@, items@.len() as int),
            r.items_failed@.map_values(|f: (String, String)| failure_view(f)) == run_failed(
                items@,
                outcomes@,
                items@.len() as int,
            ),
            r.space_freed_bytes == total(run_sizes(items@, outcomes@, items@.len() as int)),
            r.scan_id == scan_id,
            r.duration_ms == duration_ms,
    {
        let mut run = CleanupRun::new();
        let n = items.len();
        let mut i: usize = 0;
        assert(run.deleted() =~= run_deleted(items@, outcomes@, 0));
        assert(run.failed() =~= run_failed(items@, outcomes@, 0));
        while i < n
            invariant
                n == items@.len(),
                n == outcomes@.len(),
                0 <= i <= n,
                run.wf(),
                run.deleted() == run_deleted(items@, outcomes@, i as int),
                run.deleted_sizes() == run_sizes(items@, outcomes@, i as int),
                run.failed() == run_failed(items@, outcomes@, i as int),
                total(run_sizes(items@, outcomes@, n as int)) <= u64::MAX,
            decreases n - i,
        {
            proof {
                lemma_run_sizes_grow(items@, outcomes@, i as int + 1, n as int);
            }
            let item = &items[i];
            let ghost d0 = run.deleted();
            let ghost f0 = run.failed();
            let ghost s0 = run.deleted_sizes();
            match self.plan_item(item) {
                ItemAction::Refuse => {
                    run.record_refused(item.path.as_str());
                },
                ItemAction::RefuseUnsafe => {
                    run.record_unsafe(item);
                },
                ItemAction::CheckLockThenDelete { .. } => {
                    let o = copy_outcome(&outcomes[i]);
                    proof {
                        let s = run_sizes(items@, outcomes@, i as int);
                        if o is Deleted {
                            assert(s.push(item.size_bytes).drop_last() =~= s);
                        }
                    }
                    run.record(item.path.as_str(), item.size_bytes, o);
                },
            }
            assert(run.deleted() =~= run_deleted(items@, outcomes@, i as int + 1));
            assert(run.failed() =~= run_failed(items@, outcomes@, i as int + 1));
            assert(run.deleted_sizes() =~= run_sizes(items@, outcomes@, i as int + 1));
            i += 1;
        }
        run.finish(scan_id, duration_ms)
    }
}

/// The items that still exist after deletion: `exists[i]` says whether
/// `items[i]` still exists.
pub fn not_deleted(items: &[String], exists: &[bool]) -> (r: Vec<String>)
    ensures
        r@.map_values(|p: String| p@) == still_there(items@, exists@),
{
    let mut out: Vec<String> = Vec::new();
    let mut i: usize = 0;
    assert(still_there(items@.subrange(0, 0), exists@) =~= Seq::<Seq<char>>::empty());
    while i < items.len()
        invariant
            i <= items@.len(),
            out@.map_values(|p: String| p@) == still_there(items@.subrange(0, i as int), exists@),
        decreases items@.len() - i,
    {
        let ghost before = out@.map_values(|p: String| p@);
        assert(items@.subrange(0, i + 1).drop_last() =~= items@.subrange(0, i as int));
        assert(items@.subrange(0, i + 1).last() == items@[i as int]);
        if i < exists.len() && exists[i] {
            out.push(items[i].clone());
            assert(out@.map_values(|p: String| p@) =~= before.push(items@[i as int]@));
        }
        i += 1;
    }
    assert(items@.subrange(0, items@.len() as int) =~= items@);
    out
}

/// The items marked as still existing, in order.
pub open spec fn still_there(items: Seq<String>, exists: Seq<bool>) -> Seq<Seq<char>>
    decreases items.len(),
{
    if items.len() == 0 {
        Seq::empty()
    } else {
        let k = items.len() - 1;
        let rest = still_there(items.drop_last(), exists);
        if k < exists.len() && exists[k] {
            rest.push(items.last()@)
        } else {
            rest
        }
    }
}

/// The start of the PowerShell script that sends an item to the recycle bin.
pub open spec fn recycle_script_head() -> Seq<char> {
    "Add-Type -AssemblyName System.Windows.Forms; [Windows.Forms.SendKeys]::SendWait('{}'); $shell = New-Object -ComObject Shell.Application; $item = $shell.Namespace('"@
}

/// The PowerShell script that sends the item `name` in folder `parent` to
/// the recycle bin.
pub fn recycle_script(parent: &str, name: &str) -> (s: String)
    ensures
        s@ == recycle_script_head() + parent@ + "').ParseName('"@ + name@ + "'); $item.InvokeVerb('Delete')"@,
{
    let mut s = to_owned(
        "Add-Type -AssemblyName System.Windows.Forms; [Windows.Forms.SendKeys]::SendWait('{}'); $shell = New-Object -ComObject Shell.Application; $item = $shell.Namespace('",
    );
    push_str(&mut s, parent);
    push_str(&mut s, "').ParseName('");
    push_str(&mut s, name);
    push_str(&mut s, "'); $item.InvokeVerb('Delete')");
    s
}

/// The PowerShell script that sends `path` to the recycle bin: its parent
/// folder (empty without one) and its file name (empty without one).
pub fn recycle_script_for(path: &str) -> (s: String)
    ensures
        s@ == recycle_script_head() + (match parent_text(path@) {
            Some(p) => p,
            None => Seq::empty(),
        }) + "').ParseName('"@ + (match file_name(path@) {
            Some(n) => n,
            None => Seq::empty(),
        }) + "'); $item.InvokeVerb('Delete')"@,
{
    let parent = match parent_of(path) {
        Some(p) => p,
        None => String::new(),
    };
    let name = match file_name_of(path) {
        Some(n) => n,
        None => String::new(),
    };
    recycle_script(parent.as_str(), name.as_str())
}

/// The PowerShell script that creates a system restore point.
pub fn restore_point_script(description: &str) -> (s: String)
    ensures
        s@ == "Checkpoint-Computer -Description '"@ + description@ + "' -RestorePointType 'MODIFY_SETTINGS'"@,
{
    let mut s = to_owned("Checkpoint-Computer -Description '");
    push_str(&mut s, description);
    push_str(&mut s, "' -RestorePointType 'MODIFY_SETTINGS'");
    s
}

} // verus!
