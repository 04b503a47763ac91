//! The rules of the task board.
use vstd::hash_set::StringHashSet;
use vstd::prelude::*;

use crate::project_configs::model::ProjectConfig;
use crate::providers::model::{
    IntegrationBoard, IntegrationBoardColumn, IntegrationColumn, IntegrationLabel, IntegrationTask,
    UpdateIntegrationTaskInput,
};
use crate::task_board::errors::TaskBoardError;
use crate::task_board::model::{
    TaskBoardRelatedWorkRun, TaskBoardRelatedWorkRunRow, TaskBoardTaskRelatedRuns, TaskProviderProject,
};
use crate::text::{clone_opt, owned, str_eq, trim_str, trim_ws};

verus! {

/// The status a task gets when its project has no columns.
pub const FALLBACK_STATUS: &'static str = "planned";

/// The priority a task gets when none is given.
pub const DEFAULT_PRIORITY: &'static str = "low";

/// How many recent work runs are shown per task.
pub const RELATED_RUN_LIMIT: i64 = 3;

/// A configuration can be shown on the board when it names its provider; it
/// is shown under its name, or its external project id when it has none.
pub fn project_config_to_provider_project(config: ProjectConfig) -> (r: Option<TaskProviderProject>)
    ensures
        config.provider_id is None ==> r is None,
        config.provider_id matches Some(p) ==> (r matches Some(t) && t.provider_id == p
            && t.provider_type == config.integration_type && t.workspace_id == config.external_workspace_id
            && t.external_project_id == config.external_project_id && t.slug@ == config.external_project_id@
            && t.name@ == (if config.name@.len() == 0 {
            config.external_project_id@
        } else {
            config.name@
        })),
{
    let provider_id = match config.provider_id {
        Some(p) => p,
        None => return None,
    };
    let fallback_name = config.external_project_id.clone();
    let name = if config.name.as_str().is_empty() {
        fallback_name.clone()
    } else {
        config.name
    };
    Some(
        TaskProviderProject {
            provider_id,
            provider_type: config.integration_type,
            workspace_id: config.external_workspace_id,
            external_project_id: config.external_project_id,
            name,
            slug: fallback_name,
        },
    )
}

/// The ids of the tasks of the columns, column after column.
pub open spec fn board_task_refs_all(columns: Seq<IntegrationBoardColumn>) -> Seq<Seq<char>>
    decreases columns.len(),
{
    if columns.len() == 0 {
        seq![]
    } else {
        board_task_refs_all(columns.drop_last()) + columns.last().tasks@.map_values(|t: IntegrationTask| t.id@)
    }
}

/// The elements of `s` in order, each kept at its first occurrence only.
pub open spec fn first_occurrences(s: Seq<Seq<char>>) -> Seq<Seq<char>>
    decreases s.len(),
{
    if s.len() == 0 {
        seq![]
    } else if first_occurrences(s.drop_last()).contains(s.last()) {
        first_occurrences(s.drop_last())
    } else {
        first_occurrences(s.drop_last()).push(s.last())
    }
}

/// The first occurrences hold each element once, and exactly the elements
/// of the sequence.
pub proof fn lemma_first_occurrences(s: Seq<Seq<char>>)
    ensures
        first_occurrences(s).no_duplicates(),
        forall|x: Seq<char>| first_occurrences(s).contains(x) <==> s.contains(x),
    decreases s.len(),
{
    if s.len() > 0 {
        let p = s.drop_last();
        lemma_first_occurrences(p);
        let f = first_occurrences(p);
        assert forall|x: Seq<char>| s.contains(x) <==> p.contains(x) || x == s.last() by {
            if s.contains(x) {
                let i = choose|i: int| 0 <= i < s.len() && s[i] == x;
                if i < s.len() - 1 {
                    assert(p[i] == x);
                }
            }
            if p.contains(x) {
                let i = choose|i: int| 0 <= i < p.len() && p[i] == x;
                assert(s[i] == x);
            }
            if x == s.last() {
                assert(s[s.len() - 1] == x);
            }
        }
        if !f.contains(s.last()) {
            let g = f.push(s.last());
            assert forall|x: Seq<char>| g.contains(x) <==> f.contains(x) || x == s.last() by {
                if g.contains(x) {
                    let i = choose|i: int| 0 <= i < g.len() && g[i] == x;
                    if i < f.len() {
                        assert(f[i] == x);
                    }
                }
                if f.contains(x) {
                    let i = choose|i: int| 0 <= i < f.len() && f[i] == x;
                    assert(g[i] == x);
                }
                if x == s.last() {
                    assert(g[f.len() as int] == x);
                }
            }
        }
    }
}

/// The texts of a sequence of strings.
pub open spec fn texts(v: Seq<String>) -> Seq<Seq<char>> {
    v.map_values(|s: String| s@)
}

/// Law: an id is among the board's task ids exactly when some column of the
/// board holds a task with that id.
pub proof fn lemma_board_task_refs_members(columns: Seq<IntegrationBoardColumn>, x: Seq<char>)
    ensures
        board_task_refs_all(columns).contains(x) <==> exists|c: int, j: int|
            0 <= c < columns.len() && 0 <= j < columns[c].tasks@.len() && #[trigger] columns[c].tasks@[j].id@ == x,
    decreases columns.len(),
{
    if columns.len() > 0 {
        let pre = columns.drop_last();
        lemma_board_task_refs_members(pre, x);
        let a = board_task_refs_all(pre);
        let b = columns.last().tasks@.map_values(|t: IntegrationTask| t.id@);
        if (a + b).contains(x) {
            let k = choose|k: int| 0 <= k < (a + b).len() && (a + b)[k] == x;
            if k < a.len() {
                assert(a[k] == x);
                let (c, j) = choose|c: int, j: int|
                    0 <= c < pre.len() && 0 <= j < pre[c].tasks@.len() && #[trigger] pre[c].tasks@[j].id@ == x;
                assert(columns[c].tasks@[j].id@ == x);
            } else {
                assert(b[k - a.len()] == x);
                assert(columns[columns.len() - 1].tasks@[k - a.len()].id@ == x);
            }
        }
        if exists|c: int, j: int|
            0 <= c < columns.len() && 0 <= j < columns[c].tasks@.len() && #[trigger] columns[c].tasks@[j].id@ == x {
            let (c, j) = choose|c: int, j: int|
                0 <= c < columns.len() && 0 <= j < columns[c].tasks@.len() && #[trigger] columns[c].tasks@[j].id@ == x;
            if c < columns.len() - 1 {
                assert(pre[c].tasks@[j].id@ == x);
                let k = choose|k: int| 0 <= k < a.len() && a[k] == x;
                assert((a + b)[k] == x);
            } else {
                assert(b[j] == x);
                assert((a + b)[a.len() + j] == x);
            }
        }
    }
}

/// The ids of the tasks on a board, in board order, each once.
pub fn collect_board_task_refs(board: &IntegrationBoard) -> (r: Vec<String>)
    ensures
        r@.map_values(|s: String| s@) == first_occurrences(board_task_refs_all(board.columns@)),
        texts(r@).no_duplicates(),
        forall|x: Seq<char>|
            #[trigger] texts(r@).contains(x) <==> exists|c: int, j: int|
                0 <= c < board.columns@.len() && 0 <= j < board.columns@[c].tasks@.len()
                    && #[trigger] board.columns@[c].tasks@[j].id@ == x,
{
    proof {
        lemma_first_occurrences(board_task_refs_all(board.columns@));
        assert forall|x: Seq<char>| #[trigger] first_occurrences(board_task_refs_all(board.columns@)).contains(x) <==> exists|c: int, j: int|
            0 <= c < board.columns@.len() && 0 <= j < board.columns@[c].tasks@.len()
                && #[trigger] board.columns@[c].tasks@[j].id@ == x by {
            lemma_board_task_refs_members(board.columns@, x);
        }
    }
    let mut seen = StringHashSet::new();
    let mut task_refs: Vec<String> = Vec::new();
    let ghost cols = board.columns@;
    let mut i: usize = 0;
    while i < board.columns.len()
        invariant
            i <= cols.len(),
            cols == board.columns@,
            task_refs@.map_values(|s: String| s@) == first_occurrences(board_task_refs_all(cols.take(i as int))),
            forall|x: Seq<char>| seen@.contains(x) <==> task_refs@.map_values(|s: String| s@).contains(x),
        decreases cols.len() - i,
    {
        let ghost before = board_task_refs_all(cols.take(i as int));
        assert(cols.take(i + 1).drop_last() =~= cols.take(i as int));
        let tasks = &board.columns[i].tasks;
        let ghost ids = tasks@.map_values(|t: IntegrationTask| t.id@);
        let mut j: usize = 0;
        assert(before + ids.take(0) =~= before);
        while j < tasks.len()
            invariant
                j <= tasks@.len(),
                ids == tasks@.map_values(|t: IntegrationTask| t.id@),
                task_refs@.map_values(|s: String| s@) == first_occurrences(before + ids.take(j as int)),
                forall|x: Seq<char>| seen@.contains(x) <==> task_refs@.map_values(|s: String| s@).contains(x),
            decreases tasks.len() - j,
        {
            let task_ref = tasks[j].id.clone();
            let ghost old_refs = task_refs@.map_values(|s: String| s@);
            assert((before + ids.take(j + 1)).drop_last() =~= before + ids.take(j as int));
            assert((before + ids.take(j + 1)).last() == task_ref@);
            if seen.insert(task_ref.clone()) {
                task_refs.push(task_ref);
                assert(task_refs@.map_values(|s: String| s@) =~= old_refs.push(tasks@[j as int].id@));
                assert forall|x: Seq<char>| seen@.contains(x) <==> task_refs@.map_values(|s: String| s@).contains(x) by {
                    let n = task_refs@.map_values(|s: String| s@);
                    if n.contains(x) {
                        let k = choose|k: int| 0 <= k < n.len() && n[k] == x;
                        if k < old_refs.len() {
                            assert(old_refs[k] == x);
                        }
                    }
                    if old_refs.contains(x) {
                        let k = choose|k: int| 0 <= k < old_refs.len() && old_refs[k] == x;
                        assert(n[k] == x);
                    }
                    if x == task_ref@ {
                        assert(n[old_refs.len() as int] == x);
                    }
                }
            }
            j += 1;
        }
        assert(ids.take(tasks@.len() as int) =~= ids);
        i += 1;
    }
    assert(cols.take(cols.len() as int) =~= cols);
    task_refs
}

/// Law: the task ids collected from a board hold each id once, and exactly
/// the ids of the board's tasks.
pub proof fn lemma_board_task_refs_unique(board: IntegrationBoard)
    ensures
        first_occurrences(board_task_refs_all(board.columns@)).no_duplicates(),
        forall|x: Seq<char>|
            first_occurrences(board_task_refs_all(board.columns@)).contains(x) <==> board_task_refs_all(
                board.columns@,
            ).contains(x),
{
    lemma_first_occurrences(board_task_refs_all(board.columns@));
}

/// The rows about one task, in order.
pub open spec fn rows_for(rows: Seq<TaskBoardRelatedWorkRunRow>, task_ref: Seq<char>) -> Seq<TaskBoardRelatedWorkRunRow>
    decreases rows.len(),
{
    if rows.len() == 0 {
        seq![]
    } else if rows.last().external_task_ref@ == task_ref {
        rows_for(rows.drop_last(), task_ref).push(rows.last())
    } else {
        rows_for(rows.drop_last(), task_ref)
    }
}

/// Whether a work-run row is about the given task.
pub open spec fn about_task(task_ref: Seq<char>) -> spec_fn(TaskBoardRelatedWorkRunRow) -> bool {
    |w: TaskBoardRelatedWorkRunRow| w.external_task_ref@ == task_ref
}

/// Law: the rows about a task are the rows filtered by that task: every row
/// whose reference is the task's appears, in row order, and no other.
pub proof fn lemma_rows_for_is_filter(rows: Seq<TaskBoardRelatedWorkRunRow>, task_ref: Seq<char>)
    ensures
        rows_for(rows, task_ref) == rows.filter(about_task(task_ref)),
        forall|i: int|
            0 <= i < rows.len() && rows[i].external_task_ref@ == task_ref ==> #[trigger] rows_for(
                rows,
                task_ref,
            ).contains(rows[i]),
        forall|w: TaskBoardRelatedWorkRunRow|
            #[trigger] rows_for(rows, task_ref).contains(w) ==> rows.contains(w) && w.external_task_ref@ == task_ref,
    decreases rows.len(),
{
    reveal(Seq::filter);
    if rows.len() > 0 {
        lemma_rows_for_is_filter(rows.drop_last(), task_ref);
    }
    let p = about_task(task_ref);
    assert forall|i: int| 0 <= i < rows.len() && rows[i].external_task_ref@ == task_ref implies #[trigger] rows_for(
        rows,
        task_ref,
    ).contains(rows[i]) by {
        rows.lemma_filter_contains(p, i);
    }
    assert forall|w: TaskBoardRelatedWorkRunRow| #[trigger] rows_for(rows, task_ref).contains(w) implies rows.contains(w)
        && w.external_task_ref@ == task_ref by {
        rows.lemma_filter_contains_rev(p, w);
        let k = choose|k: int| 0 <= k < rows.filter(p).len() && rows.filter(p)[k] == w;
        rows.lemma_filter_pred(p, k);
    }
}

/// `r` is the work run of row `w`.
pub open spec fn run_of(r: TaskBoardRelatedWorkRun, w: TaskBoardRelatedWorkRunRow) -> bool {
    &&& r.id == w.id
    &&& r.status == w.status
    &&& r.work_type == w.work_type
    &&& r.tokens_used == w.tokens_used
    &&& r.input_tokens == w.input_tokens
    &&& r.output_tokens == w.output_tokens
    &&& r.cache_read_tokens == w.cache_read_tokens
    &&& r.cache_write_tokens == w.cache_write_tokens
    &&& r.model_used == w.model_used
    &&& r.created_at == w.created_at
}

/// `runs` are the work runs of `rows`, one for one.
pub open spec fn runs_of(runs: Seq<TaskBoardRelatedWorkRun>, rows: Seq<TaskBoardRelatedWorkRunRow>) -> bool {
    &&& runs.len() == rows.len()
    &&& forall|i: int| 0 <= i < rows.len() ==> run_of(#[trigger] runs[i], rows[i])
}

/// The task references that get a group: each at its first occurrence, when
/// some row is about it.
pub open spec fn grouped_refs(refs: Seq<Seq<char>>, rows: Seq<TaskBoardRelatedWorkRunRow>) -> Seq<Seq<char>>
    decreases refs.len(),
{
    if refs.len() == 0 {
        seq![]
    } else {
        let prev = grouped_refs(refs.drop_last(), rows);
        let r = refs.last();
        if refs.drop_last().contains(r) || rows_for(rows, r).len() == 0 {
            prev
        } else {
            prev.push(r)
        }
    }
}

/// Law: the task references that get a group are each reference that some
/// row is about, once, and no other.
pub proof fn lemma_grouped_refs(refs: Seq<Seq<char>>, rows: Seq<TaskBoardRelatedWorkRunRow>)
    ensures
        grouped_refs(refs, rows).no_duplicates(),
        forall|x: Seq<char>|
            #[trigger] grouped_refs(refs, rows).contains(x) <==> refs.contains(x) && exists|k: int|
                0 <= k < rows.len() && #[trigger] rows[k].external_task_ref@ == x,
    decreases refs.len(),
{
    if refs.len() > 0 {
        let pre = refs.drop_last();
        lemma_grouped_refs(pre, rows);
        let prev = grouped_refs(pre, rows);
        let r = refs.last();
        lemma_rows_for_is_filter(rows, r);
        reveal(Seq::filter);
        rows.lemma_filter_len(about_task(r));
        let has_rows = exists|k: int| 0 <= k < rows.len() && #[trigger] rows[k].external_task_ref@ == r;
        if has_rows {
            let k = choose|k: int| 0 <= k < rows.len() && #[trigger] rows[k].external_task_ref@ == r;
            assert(rows_for(rows, r).contains(rows[k]));
        }
        if rows_for(rows, r).len() > 0 {
            assert(rows_for(rows, r).contains(rows_for(rows, r)[0]));
        }
        assert forall|x: Seq<char>| refs.contains(x) <==> pre.contains(x) || x == r by {
            if refs.contains(x) {
                let i = choose|i: int| 0 <= i < refs.len() && refs[i] == x;
                if i < pre.len() {
                    assert(pre[i] == x);
                }
            }
            if pre.contains(x) {
                let i = choose|i: int| 0 <= i < pre.len() && pre[i] == x;
                assert(refs[i] == x);
            }
            if x == r {
                assert(refs[refs.len() - 1] == x);
            }
        }
        if !(pre.contains(r) || rows_for(rows, r).len() == 0) {
            let g = prev.push(r);
            assert(!prev.contains(r));
            assert forall|x: Seq<char>| g.contains(x) <==> prev.contains(x) || x == r by {
                if g.contains(x) {
                    let i = choose|i: int| 0 <= i < g.len() && g[i] == x;
                    if i < prev.len() {
                        assert(prev[i] == x);
                    }
                }
                if prev.contains(x) {
                    let i = choose|i: int| 0 <= i < prev.len() && prev[i] == x;
                    assert(g[i] == x);
                }
                if x == r {
                    assert(g[prev.len() as int] == x);
                }
            }
            assert forall|i: int, j: int| 0 <= i < g.len() && 0 <= j < g.len() && i != j implies g[i] != g[j] by {
                if i < prev.len() && j < prev.len() {
                } else if i < prev.len() {
                    assert(prev.contains(g[i]));
                } else if j < prev.len() {
                    assert(prev.contains(g[j]));
                }
            }
        }
    }
}

fn run_from_row(w: &TaskBoardRelatedWorkRunRow) -> (r: TaskBoardRelatedWorkRun)
    ensures
        run_of(r, *w),
{
    TaskBoardRelatedWorkRun {
        id: w.id,
        status: w.status.clone(),
        work_type: w.work_type.clone(),
        tokens_used: w.tokens_used,
        input_tokens: w.input_tokens,
        output_tokens: w.output_tokens,
        cache_read_tokens: w.cache_read_tokens,
        cache_write_tokens: w.cache_write_tokens,
        model_used: clone_opt(&w.model_used),
        created_at: w.created_at,
    }
}

fn runs_for(rows: &Vec<TaskBoardRelatedWorkRunRow>, task_ref: &String) -> (r: Vec<TaskBoardRelatedWorkRun>)
    ensures
        runs_of(r@, rows_for(rows@, task_ref@)),
{
    let mut out: Vec<TaskBoardRelatedWorkRun> = Vec::new();
    let mut i: usize = 0;
    while i < rows.len()
        invariant
            i <= rows@.len(),
            runs_of(out@, rows_for(rows@.take(i as int), task_ref@)),
        decreases rows.len() - i,
    {
        assert(rows@.take(i + 1).drop_last() =~= rows@.take(i as int));
        if rows[i].external_task_ref == *task_ref {
            out.push(run_from_row(&rows[i]));
        }
        i += 1;
    }
    assert(rows@.take(rows@.len() as int) =~= rows@);
    out
}

/// Groups work runs by task, in the order of the task references: each
/// reference, at its first occurrence, gets the runs of its rows in row
/// order; references without rows get no group.
pub fn group_related_runs(task_refs: Vec<String>, rows: Vec<TaskBoardRelatedWorkRunRow>) -> (r: Vec<TaskBoardTaskRelatedRuns>)
    ensures
        r@.len() == grouped_refs(task_refs@.map_values(|s: String| s@), rows@).len(),
        forall|i: int|
            0 <= i < r@.len() ==> (#[trigger] r@[i]).external_task_ref@ == grouped_refs(
                task_refs@.map_values(|s: String| s@),
                rows@,
            )[i] && runs_of(r@[i].runs@, rows_for(rows@, r@[i].external_task_ref@)),
        forall|i: int|
            0 <= i < r@.len() ==> runs_of(
                (#[trigger] r@[i]).runs@,
                rows@.filter(about_task(r@[i].external_task_ref@)),
            ),
{
    let ghost refs = task_refs@.map_values(|s: String| s@);
    let mut out: Vec<TaskBoardTaskRelatedRuns> = Vec::new();
    let mut taken = StringHashSet::new();
    let mut i: usize = 0;
    while i < task_refs.len()
        invariant
            i <= task_refs@.len(),
            refs == task_refs@.map_values(|s: String| s@),
            out@.len() == grouped_refs(refs.take(i as int), rows@).len(),
            forall|k: int|
                0 <= k < out@.len() ==> (#[trigger] out@[k]).external_task_ref@ == grouped_refs(
                    refs.take(i as int),
                    rows@,
                )[k] && runs_of(out@[k].runs@, rows_for(rows@, out@[k].external_task_ref@)),
            forall|x: Seq<char>| taken@.contains(x) <==> refs.take(i as int).contains(x),
        decreases task_refs.len() - i,
    {
        let ghost pre = refs.take(i as int);
        assert(refs.take(i + 1).drop_last() =~= pre);
        assert(refs.take(i + 1).last() == task_refs@[i as int]@);
        let task_ref = task_refs[i].clone();
        let fresh = taken.insert(task_ref.clone());
        assert forall|x: Seq<char>| taken@.contains(x) <==> refs.take(i + 1).contains(x) by {
            let n = refs.take(i + 1);
            if n.contains(x) {
                let k = choose|k: int| 0 <= k < n.len() && n[k] == x;
                if k < pre.len() {
                    assert(pre[k] == x);
                }
            }
            if pre.contains(x) {
                let k = choose|k: int| 0 <= k < pre.len() && pre[k] == x;
                assert(n[k] == x);
            }
            if x == task_ref@ {
                assert(n[i as int] == x);
            }
        }
        if fresh {
            let runs = runs_for(&rows, &task_ref);
            if runs.len() > 0 {
                out.push(TaskBoardTaskRelatedRuns { external_task_ref: task_ref, runs });
            }
        }
        i += 1;
    }
    assert(refs.take(refs.len() as int) =~= refs);
    proof {
        assert forall|k: int| 0 <= k < out@.len() implies runs_of(
            (#[trigger] out@[k]).runs@,
            rows@.filter(about_task(out@[k].external_task_ref@)),
        ) by {
            lemma_rows_for_is_filter(rows@, out@[k].external_task_ref@);
        }
    }
    out
}

/// The status for a new task when none is given: the slug of the first
/// column that is not final, else that of the first column, else "planned".
pub fn default_column_status(columns: &Vec<IntegrationColumn>) -> (r: String)
    ensures
        columns@.len() == 0 ==> r@ == FALLBACK_STATUS@,
        forall|i: int|
            0 <= i < columns@.len() && columns@[i].is_final != Some(true) && (forall|j: int|
                0 <= j < i ==> (#[trigger] columns@[j]).is_final == Some(true)) ==> r@ == (
            #[trigger] columns@[i]).slug@,
        columns@.len() > 0 && (forall|j: int| 0 <= j < columns@.len() ==> (#[trigger] columns@[j]).is_final
            == Some(true)) ==> r@ == columns@[0].slug@,
{
    let mut i: usize = 0;
    while i < columns.len()
        invariant
            i <= columns@.len(),
            forall|j: int| 0 <= j < i ==> (#[trigger] columns@[j]).is_final == Some(true),
        decreases columns.len() - i,
    {
        if columns[i].is_final != Some(true) {
            return columns[i].slug.clone();
        }
        i += 1;
    }
    if columns.len() > 0 {
        columns[0].slug.clone()
    } else {
        owned(FALLBACK_STATUS)
    }
}

/// A required text, trimmed; refused with `err` when nothing is left.
pub fn normalized_required(input: &str, err: TaskBoardError) -> (r: Result<String, TaskBoardError>)
    ensures
        trim_ws(input@).len() == 0 ==> r == Err::<String, TaskBoardError>(err),
        trim_ws(input@).len() > 0 ==> (r matches Ok(s) && s@ == trim_ws(input@)),
{
    let value = trim_str(input);
    if value.is_empty() {
        return Err(err);
    }
    Ok(owned(value))
}

/// The status requested for a new task, when one is given that is not
/// blank, trimmed.
pub fn requested_status(status: &Option<String>) -> (r: Option<String>)
    ensures
        match *status {
            Some(s) => if trim_ws(s@).len() > 0 {
                r matches Some(v) && v@ == trim_ws(s@)
            } else {
                r is None
            },
            None => r is None,
        },
{
    match status {
        Some(s) => {
            let v = trim_str(s.as_str());
            if v.is_empty() {
                None
            } else {
                Some(owned(v))
            }
        },
        None => None,
    }
}

/// The priority of a new task: the one requested, trimmed, unless blank or
/// absent, else "low".
pub fn task_priority(priority: &Option<String>) -> (r: String)
    ensures
        match *priority {
            Some(p) => if trim_ws(p@).len() > 0 {
                r@ == trim_ws(p@)
            } else {
                r@ == DEFAULT_PRIORITY@
            },
            None => r@ == DEFAULT_PRIORITY@,
        },
{
    match priority {
        Some(p) => {
            let v = trim_str(p.as_str());
            if v.is_empty() {
                owned(DEFAULT_PRIORITY)
            } else {
                owned(v)
            }
        },
        None => owned(DEFAULT_PRIORITY),
    }
}

/// The full update that edits a task's title and body and keeps every other
/// field as the task holds it; a task without a position is refused, since
/// the update would move it.
pub fn task_update_input(current: IntegrationTask, title: String, body: String) -> (r: Result<
    UpdateIntegrationTaskInput,
    TaskBoardError,
>)
    ensures
        current.position is None ==> r matches Err(TaskBoardError::MissingTaskPosition),
        current.position matches Some(p) ==> (r matches Ok(u) && u.task_id == current.id && u.title == title
            && u.body == body && u.status == current.status && u.priority == current.priority && u.project_id
            == current.project_id && u.position == p && u.due_date@ == or_empty(current.due_date)
            && u.start_date@ == or_empty(current.start_date) && u.user_id@ == or_empty(current.assignee_id)),
{
    let position = match current.position {
        Some(p) => p,
        None => return Err(TaskBoardError::MissingTaskPosition),
    };
    Ok(
        UpdateIntegrationTaskInput {
            task_id: current.id,
            title,
            body,
            status: current.status,
            priority: current.priority,
            project_id: current.project_id,
            position,
            due_date: unwrap_or_empty(current.due_date),
            start_date: unwrap_or_empty(current.start_date),
            user_id: unwrap_or_empty(current.assignee_id),
        },
    )
}

/// The text of an optional string, empty when absent.
pub open spec fn or_empty(o: Option<String>) -> Seq<char> {
    match o {
        Some(s) => s@,
        None => seq![],
    }
}

fn unwrap_or_empty(o: Option<String>) -> (r: String)
    ensures
        r@ == or_empty(o),
{
    match o {
        Some(s) => s,
        None => String::new(),
    }
}

/// The labels of a workspace that are not copies attached to a task, in
/// order.
pub open spec fn workspace_labels_spec(labels: Seq<IntegrationLabel>) -> Seq<IntegrationLabel>
    decreases labels.len(),
{
    if labels.len() == 0 {
        seq![]
    } else if labels.last().task_id is None {
        workspace_labels_spec(labels.drop_last()).push(labels.last())
    } else {
        workspace_labels_spec(labels.drop_last())
    }
}

/// Whether a label is a workspace label, not a copy attached to a task.
pub open spec fn unattached() -> spec_fn(IntegrationLabel) -> bool {
    |l: IntegrationLabel| l.task_id is None
}

/// Law: the workspace labels are the labels filtered to those attached to no
/// task: every such label appears, in order, and no copy of a task does.
pub proof fn lemma_workspace_labels_is_filter(labels: Seq<IntegrationLabel>)
    ensures
        workspace_labels_spec(labels) == labels.filter(unattached()),
        forall|i: int| 0 <= i < labels.len() && labels[i].task_id is None ==> #[trigger] workspace_labels_spec(
            labels,
        ).contains(labels[i]),
        forall|l: IntegrationLabel|
            #[trigger] workspace_labels_spec(labels).contains(l) ==> labels.contains(l) && l.task_id is None,
    decreases labels.len(),
{
    reveal(Seq::filter);
    if labels.len() > 0 {
        lemma_workspace_labels_is_filter(labels.drop_last());
    }
    let p = unattached();
    assert forall|i: int| 0 <= i < labels.len() && labels[i].task_id is None implies #[trigger] workspace_labels_spec(
        labels,
    ).contains(labels[i]) by {
        labels.lemma_filter_contains(p, i);
    }
    assert forall|l: IntegrationLabel| #[trigger] workspace_labels_spec(labels).contains(l) implies labels.contains(l)
        && l.task_id is None by {
        labels.lemma_filter_contains_rev(p, l);
        let k = choose|k: int| 0 <= k < labels.filter(p).len() && labels.filter(p)[k] == l;
        labels.lemma_filter_pred(p, k);
    }
}

/// Keeps the workspace labels, dropping the copies attached to tasks.
pub fn workspace_labels(labels: Vec<IntegrationLabel>) -> (r: Vec<IntegrationLabel>)
    ensures
        r@ == workspace_labels_spec(labels@),
        r@ == labels@.filter(unattached()),
{
    proof {
        lemma_workspace_labels_is_filter(labels@);
    }
    let ghost all = labels@;
    let mut out: Vec<IntegrationLabel> = Vec::new();
    for label in it: labels.into_iter()
        invariant
            it.seq() == all,
            out@ == workspace_labels_spec(all.take(it.index() as int)),
    {
        assert(all.take(it.index() + 1).drop_last() =~= all.take(it.index() as int));
        if label.task_id.is_none() {
            out.push(label);
        }
    }
    assert(all.take(all.len() as int) =~= all);
    out
}

/// Whether some configuration of the team uses the provider.
pub fn provider_configured(configs: &Vec<ProjectConfig>, provider_id: u128) -> (r: bool)
    ensures
        r == exists|i: int| 0 <= i < configs@.len() && (#[trigger] configs@[i]).provider_id == Some(provider_id),
{
    let mut i: usize = 0;
    while i < configs.len()
        invariant
            i <= configs@.len(),
            forall|j: int| 0 <= j < i ==> (#[trigger] configs@[j]).provider_id != Some(provider_id),
        decreases configs.len() - i,
    {
        if configs[i].provider_id == Some(provider_id) {
            return true;
        }
        i += 1;
    }
    false
}

} // verus!
