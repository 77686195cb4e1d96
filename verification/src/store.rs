//! Where the artifacts of a benchmark live, and how a finished run becomes
//! the base of the next.
//!
//! Every benchmark has a directory of its own under the root, named by its
//! id, with up to two run directories in it: `new`, the run in progress or
//! last finished, and `base`, the run before it.

use vstd::prelude::*;
use vstd::string::*;
use crate::text::{join2, join3};

verus! {

/// The directory of the benchmark `id`.
pub open spec fn benchmark_path(id: Seq<char>) -> Seq<char> {
    ".criterion/"@ + id
}

/// The directory of the previous run of `id`.
pub open spec fn base_path(id: Seq<char>) -> Seq<char> {
    benchmark_path(id) + "/base"@
}

/// The directory of the current run of `id`.
pub open spec fn new_path(id: Seq<char>) -> Seq<char> {
    benchmark_path(id) + "/new"@
}

/// The file with the measurements of the current run.
pub open spec fn sample_path(id: Seq<char>) -> Seq<char> {
    new_path(id) + "/sample.json"@
}

/// The file with the estimates of the current run.
pub open spec fn estimates_path(id: Seq<char>) -> Seq<char> {
    new_path(id) + "/estimates.json"@
}

/// The file with the fences of the current run.
pub open spec fn fences_path(id: Seq<char>) -> Seq<char> {
    new_path(id) + "/tukey.json"@
}

/// The directory with the comparison of the current run against the base.
pub open spec fn change_path(id: Seq<char>) -> Seq<char> {
    new_path(id) + "/change"@
}

/// The file with the relative estimates of the current run.
pub open spec fn change_estimates_path(id: Seq<char>) -> Seq<char> {
    change_path(id) + "/estimates.json"@
}

/// The file with the measurements of the previous run.
pub open spec fn base_sample_path(id: Seq<char>) -> Seq<char> {
    base_path(id) + "/sample.json"@
}

/// The directory of the benchmark `id`.
pub fn benchmark_dir(id: &str) -> (p: String)
    ensures
        p@ == benchmark_path(id@),
{
    join2(".criterion/", id)
}

/// The directory of the previous run of `id`.
pub fn base_dir(id: &str) -> (p: String)
    ensures
        p@ == base_path(id@),
{
    join3(".criterion/", id, "/base")
}

/// The directory of the current run of `id`.
pub fn new_dir(id: &str) -> (p: String)
    ensures
        p@ == new_path(id@),
{
    join3(".criterion/", id, "/new")
}

/// The file with the measurements of the current run.
pub fn sample_file(id: &str) -> (p: String)
    ensures
        p@ == sample_path(id@),
{
    let mut p = new_dir(id);
    p.append("/sample.json");
    p
}

/// The file with the estimates of the current run.
pub fn estimates_file(id: &str) -> (p: String)
    ensures
        p@ == estimates_path(id@),
{
    let mut p = new_dir(id);
    p.append("/estimates.json");
    p
}

/// The file with the fences of the current run.
pub fn fences_file(id: &str) -> (p: String)
    ensures
        p@ == fences_path(id@),
{
    let mut p = new_dir(id);
    p.append("/tukey.json");
    p
}

/// The directory with the comparison of the current run against the base.
pub fn change_dir(id: &str) -> (p: String)
    ensures
        p@ == change_path(id@),
{
    let mut p = new_dir(id);
    p.append("/change");
    p
}

/// The file with the relative estimates of the current run.
pub fn change_estimates_file(id: &str) -> (p: String)
    ensures
        p@ == change_estimates_path(id@),
{
    let mut p = change_dir(id);
    p.append("/estimates.json");
    p
}

/// The file with the measurements of the previous run.
pub fn base_sample_file(id: &str) -> (p: String)
    ensures
        p@ == base_sample_path(id@),
{
    let mut p = base_dir(id);
    p.append("/sample.json");
    p
}

/// The id of a member of a group: the group's id, a slash, the member's name.
pub open spec fn member_id(group: Seq<char>, name: Seq<char>) -> Seq<char> {
    group + "/"@ + name
}

/// The id of a member of a group.
pub fn group_member(group: &str, name: &str) -> (id: String)
    ensures
        id@ == member_id(group@, name@),
{
    join3(group, "/", name)
}

/// The slash of a group nests directories: a member's directory is the
/// directory named after it inside the directory of its group.
pub proof fn lemma_member_lives_in_its_group(group: Seq<char>, name: Seq<char>)
    ensures
        benchmark_path(member_id(group, name)) == benchmark_path(group) + "/"@ + name,
        new_path(member_id(group, name)) == benchmark_path(group) + "/"@ + name + "/new"@,
        base_path(member_id(group, name)) == benchmark_path(group) + "/"@ + name + "/base"@,
{
    assert(benchmark_path(member_id(group, name)) =~= benchmark_path(group) + "/"@ + name);
}

/// A change to the store.
#[derive(Clone, Debug, PartialEq, Eq)]
pub enum StoreOp {
    /// Deletes the directory at `path` with all that is in it.
    RemoveTree { path: String },
    /// Renames the directory `from` to `to`. Nothing may exist at `to`.
    MoveDir { from: String, to: String },
}

/// A [`StoreOp`] with its paths as sequences of characters.
pub enum Change {
    RemoveTree { path: Seq<char> },
    MoveDir { from: Seq<char>, to: Seq<char> },
}

impl DeepView for StoreOp {
    type V = Change;

    open spec fn deep_view(&self) -> Change {
        match *self {
            StoreOp::RemoveTree { path } => Change::RemoveTree { path: path@ },
            StoreOp::MoveDir { from, to } => Change::MoveDir { from: from@, to: to@ },
        }
    }
}

/// The changes that make the current run of `id` the base of the next: an
/// existing base is removed, then an existing `new` is moved to `base`.
pub open spec fn promotion(id: Seq<char>, base_exists: bool, new_exists: bool) -> Seq<Change> {
    (if base_exists {
        seq![Change::RemoveTree { path: base_path(id) }]
    } else {
        Seq::empty()
    }) + (if new_exists {
        seq![Change::MoveDir { from: new_path(id), to: base_path(id) }]
    } else {
        Seq::empty()
    })
}

/// Plans the promotion of `id`, given which of its two run directories exist.
pub fn rename_new_dir_to_base(id: &str, base_exists: bool, new_exists: bool) -> (ops: Vec<StoreOp>)
    ensures
        ops.deep_view() == promotion(id@, base_exists, new_exists),
{
    let mut ops: Vec<StoreOp> = Vec::new();
    if base_exists {
        ops.push(StoreOp::RemoveTree { path: base_dir(id) });
    }
    if new_exists {
        ops.push(StoreOp::MoveDir { from: new_dir(id), to: base_dir(id) });
    }
    assert(ops.deep_view() =~= promotion(id@, base_exists, new_exists));
    ops
}

/// One of the two run directories of a benchmark.
pub enum Slot {
    Base,
    New,
}

/// The two run directories of one benchmark: for each, what it holds, or
/// `None` where it does not exist.
pub struct Runs<T> {
    pub base: Option<T>,
    pub new: Option<T>,
}

impl<T> Runs<T> {
    /// What the directory `slot` holds.
    pub open spec fn at(self, slot: Slot) -> Option<T> {
        match slot {
            Slot::Base => self.base,
            Slot::New => self.new,
        }
    }

    /// The same directories, but with `content` at `slot`.
    pub open spec fn with(self, slot: Slot, content: Option<T>) -> Runs<T> {
        match slot {
            Slot::Base => Runs { base: content, new: self.new },
            Slot::New => Runs { base: self.base, new: content },
        }
    }

    /// The directories after the current run was promoted.
    pub open spec fn promoted(self) -> Runs<T> {
        Runs { base: self.new, new: None }
    }

    /// The directories after a run that left `output`: the run before it was
    /// promoted first.
    pub open spec fn after_run(self, output: T) -> Runs<T> {
        Runs { base: self.new, new: Some(output) }
    }
}

/// The run directory of `id` that `path` names, if it names one.
pub open spec fn slot_at(id: Seq<char>, path: Seq<char>) -> Option<Slot> {
    if path == base_path(id) {
        Some(Slot::Base)
    } else if path == new_path(id) {
        Some(Slot::New)
    } else {
        None
    }
}

/// The run directories of `id` after one change. Removing a directory that
/// does not exist changes nothing. `None` where the change names another
/// path than a run directory of `id`, moves a directory that does not
/// exist, or moves one onto a directory that exists.
pub open spec fn changed<T>(runs: Runs<T>, id: Seq<char>, change: Change) -> Option<Runs<T>> {
    match change {
        Change::RemoveTree { path } => match slot_at(id, path) {
            Some(slot) => Some(runs.with(slot, None)),
            None => None,
        },
        Change::MoveDir { from, to } => match (slot_at(id, from), slot_at(id, to)) {
            (Some(source), Some(target)) => if runs.at(source) is Some && runs.at(target) is None {
                Some(runs.with(target, runs.at(source)).with(source, None))
            } else {
                None
            },
            _ => None,
        },
    }
}

/// The run directories of `id` after a row of changes, applied in order.
pub open spec fn changed_by<T>(runs: Runs<T>, id: Seq<char>, changes: Seq<Change>) -> Option<
    Runs<T>,
>
    decreases changes.len(),
{
    if changes.len() == 0 {
        Some(runs)
    } else {
        match changed(runs, id, changes.first()) {
            Some(next) => changed_by(next, id, changes.drop_first()),
            None => None,
        }
    }
}

/// The two run directories of a benchmark have different paths.
pub proof fn lemma_run_paths_differ(id: Seq<char>)
    ensures
        base_path(id) != new_path(id),
        slot_at(id, base_path(id)) == Some(Slot::Base),
        slot_at(id, new_path(id)) == Some(Slot::New),
{
    reveal_strlit("/base");
    reveal_strlit("/new");
    assert(base_path(id).len() == benchmark_path(id).len() + 5);
    assert(new_path(id).len() == benchmark_path(id).len() + 4);
}

/// Promotion moves the current run to the base: whatever the two
/// directories held, after the planned changes `base` holds exactly what
/// `new` held and `new` does not exist. Every change of the plan is
/// defined where it is applied, so no directory is moved onto an
/// existing one.
pub proof fn lemma_promotion<T>(runs: Runs<T>, id: Seq<char>)
    ensures
        changed_by(runs, id, promotion(id, runs.base is Some, runs.new is Some)) == Some(
            runs.promoted(),
        ),
        runs.promoted().base == runs.new,
        runs.promoted().new is None,
{
    lemma_run_paths_differ(id);
    let plan = promotion(id, runs.base is Some, runs.new is Some);
    let cleared = Runs { base: None, new: runs.new };
    let remove = Change::RemoveTree { path: base_path(id) };
    let rename = Change::MoveDir { from: new_path(id), to: base_path(id) };
    assert(changed(runs, id, remove) == Some(cleared));
    assert(runs.new is Some ==> changed(cleared, id, rename) == Some(runs.promoted()));
    assert(runs.new is None ==> cleared == runs.promoted());
    reveal_with_fuel(changed_by, 3);
    if runs.base is Some {
        if runs.new is Some {
            assert(plan =~= seq![remove, rename]);
            assert(plan.drop_first() =~= seq![rename]);
            assert(plan.drop_first().drop_first() =~= Seq::<Change>::empty());
        } else {
            assert(plan =~= seq![remove]);
            assert(plan.drop_first() =~= Seq::<Change>::empty());
        }
    } else {
        if runs.new is Some {
            assert(plan =~= seq![rename]);
            assert(plan.drop_first() =~= Seq::<Change>::empty());
            assert(runs == cleared);
        } else {
            assert(plan =~= Seq::<Change>::empty());
        }
    }
}

/// Without a current run, promotion leaves no run at all: a base that is
/// there is removed all the same. So promotion changes nothing exactly
/// where there is no current run and no base either, and then the plan is
/// empty.
pub proof fn lemma_promotion_without_a_run<T>(runs: Runs<T>, id: Seq<char>)
    requires
        runs.new is None,
    ensures
        runs.promoted() == (Runs::<T> { base: None, new: None }),
        runs.promoted() == runs <==> runs.base is None,
        promotion(id, false, false) == Seq::<Change>::empty(),
{
}

/// After two runs in a row `base` holds what the first left and `new` what
/// the second left, whatever was there before; after any run, `base` holds
/// the run before it, or does not exist where there was none.
pub proof fn lemma_consecutive_runs<T>(runs: Runs<T>, first: T, second: T)
    ensures
        runs.after_run(first).after_run(second) == (Runs {
            base: Some(first),
            new: Some(second),
        }),
        runs.after_run(first).new == Some(first),
        runs.after_run(first).base == runs.new,
        runs.after_run(first) == runs.promoted().with(Slot::New, Some(first)),
{
}

} // verus!
