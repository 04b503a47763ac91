//! Task boards of Kaneo: counting, filtering, and merging the pages of a
//! paginated board without repeating a task.
use vstd::hash_set::StringHashSet;
use vstd::prelude::*;

use crate::kaneo::types::{KaneoBoardColumn, KaneoBoardData, KaneoBoardResponse, KaneoTask};
use crate::text::owned;

verus! {

/// A board column as a value: its tasks as a sequence.
pub struct KaneoBoardColumnView {
    pub id: Seq<char>,
    pub name: Seq<char>,
    pub status: Option<String>,
    pub is_final: Option<bool>,
    pub tasks: Seq<KaneoTask>,
}

/// A board page as a value: its columns and task lists as sequences.
pub struct KaneoBoardDataView {
    pub id: Seq<char>,
    pub name: Seq<char>,
    pub slug: Seq<char>,
    pub columns: Seq<KaneoBoardColumnView>,
    pub planned_tasks: Seq<KaneoTask>,
    pub archived_tasks: Seq<KaneoTask>,
}

impl View for KaneoBoardColumn {
    type V = KaneoBoardColumnView;

    open spec fn view(&self) -> KaneoBoardColumnView {
        KaneoBoardColumnView {
            id: self.id@,
            name: self.name@,
            status: self.status,
            is_final: self.is_final,
            tasks: self.tasks@,
        }
    }
}

/// The views of a sequence of columns.
pub open spec fn column_views(cols: Seq<KaneoBoardColumn>) -> Seq<KaneoBoardColumnView> {
    cols.map_values(|c: KaneoBoardColumn| c@)
}

impl View for KaneoBoardData {
    type V = KaneoBoardDataView;

    open spec fn view(&self) -> KaneoBoardDataView {
        KaneoBoardDataView {
            id: self.id@,
            name: self.name@,
            slug: self.slug@,
            columns: column_views(self.columns@),
            planned_tasks: self.planned_tasks@,
            archived_tasks: self.archived_tasks@,
        }
    }
}

/// Scans `tasks` in order and keeps each task whose id is not yet in `seen`,
/// adding that id to `seen`: the tasks kept, and the ids seen afterwards.
pub open spec fn fresh_tasks(tasks: Seq<KaneoTask>, seen: Set<Seq<char>>) -> (Seq<KaneoTask>, Set<Seq<char>>)
    decreases tasks.len(),
{
    if tasks.len() == 0 {
        (seq![], seen)
    } else {
        let (kept, s) = fresh_tasks(tasks.drop_last(), seen);
        let t = tasks.last();
        if s.contains(t.id@) {
            (kept, s)
        } else {
            (kept.push(t), s.insert(t.id@))
        }
    }
}

/// Moves the tasks of `tasks` whose ids are not in `seen` to the end of
/// `target`, in order, recording their ids; answers how many were moved.
pub fn push_new_tasks(
    target: &mut Vec<KaneoTask>,
    tasks: &mut Vec<KaneoTask>,
    seen: &mut StringHashSet,
) -> (r: usize)
    requires
        old(target)@.len() + old(tasks)@.len() <= usize::MAX,
    ensures
        final(target)@ == old(target)@ + fresh_tasks(old(tasks)@, old(seen)@).0,
        final(seen)@ == fresh_tasks(old(tasks)@, old(seen)@).1,
        final(tasks)@.len() == 0,
        r == fresh_tasks(old(tasks)@, old(seen)@).0.len(),
{
    let mut taken: Vec<KaneoTask> = Vec::new();
    std::mem::swap(&mut taken, tasks);
    let ghost all = taken@;
    let ghost seen0 = seen@;
    let ghost target0 = target@;
    let original_len = target.len();
    for t in it: taken.into_iter()
        invariant
            it.seq() == all,
            target@ == target0 + fresh_tasks(all.take(it.index() as int), seen0).0,
            seen@ == fresh_tasks(all.take(it.index() as int), seen0).1,
            target0.len() == original_len,
            original_len + all.len() <= usize::MAX,
    {
        proof {
            lemma_fresh_tasks_len(all.take(it.index() as int), seen0);
            assert(all.take(it.index() + 1).drop_last() =~= all.take(it.index() as int));
        }
        if seen.insert(t.id.clone()) {
            target.push(t);
        }
    }
    proof {
        assert(all.take(all.len() as int) =~= all);
        lemma_fresh_tasks_len(all, seen0);
    }
    target.len() - original_len
}

/// No more tasks are kept than scanned.
pub proof fn lemma_fresh_tasks_len(tasks: Seq<KaneoTask>, seen: Set<Seq<char>>)
    ensures
        fresh_tasks(tasks, seen).0.len() <= tasks.len(),
    decreases tasks.len(),
{
    if tasks.len() > 0 {
        lemma_fresh_tasks_len(tasks.drop_last(), seen);
    }
}

/// The first position at or after `k` of a column with the given id.
pub open spec fn column_with_id_from(cols: Seq<KaneoBoardColumnView>, id: Seq<char>, k: int) -> Option<int>
    decreases cols.len() - k,
{
    if k < 0 || k >= cols.len() {
        None
    } else if cols[k].id == id {
        Some(k)
    } else {
        column_with_id_from(cols, id, k + 1)
    }
}

/// `cols` with `kept` appended to the tasks of column `j`.
pub open spec fn append_to_column(cols: Seq<KaneoBoardColumnView>, j: int, kept: Seq<KaneoTask>) -> Seq<KaneoBoardColumnView> {
    cols.update(j, KaneoBoardColumnView { tasks: cols[j].tasks + kept, ..cols[j] })
}

/// Merging the columns of a page into a board, column by column: the new
/// tasks of a page column go to the board column with the same id, or to the
/// planned tasks when the board has no such column. Answers the board, the
/// ids seen and how many tasks were added.
pub open spec fn merge_columns(
    m: KaneoBoardDataView,
    page_cols: Seq<KaneoBoardColumnView>,
    seen: Set<Seq<char>>,
) -> (KaneoBoardDataView, Set<Seq<char>>, nat)
    decreases page_cols.len(),
{
    if page_cols.len() == 0 {
        (m, seen, 0)
    } else {
        let (m1, s1, c1) = merge_columns(m, page_cols.drop_last(), seen);
        let pc = page_cols.last();
        let (kept, s2) = fresh_tasks(pc.tasks, s1);
        match column_with_id_from(m1.columns, pc.id, 0) {
            Some(j) => (
                KaneoBoardDataView { columns: append_to_column(m1.columns, j, kept), ..m1 },
                s2,
                c1 + kept.len(),
            ),
            None => (
                KaneoBoardDataView { planned_tasks: m1.planned_tasks + kept, ..m1 },
                s2,
                c1 + kept.len(),
            ),
        }
    }
}

/// Merging a whole page into a board: its columns, then its planned tasks,
/// then its archived tasks; only tasks whose ids were not seen are added.
pub open spec fn merge_page(m: KaneoBoardDataView, p: KaneoBoardDataView, seen: Set<Seq<char>>) -> (
    KaneoBoardDataView,
    Set<Seq<char>>,
    nat,
) {
    let (m1, s1, c1) = merge_columns(m, p.columns, seen);
    let (kp, s2) = fresh_tasks(p.planned_tasks, s1);
    let (ka, s3) = fresh_tasks(p.archived_tasks, s2);
    (
        KaneoBoardDataView {
            planned_tasks: m1.planned_tasks + kp,
            archived_tasks: m1.archived_tasks + ka,
            ..m1
        },
        s3,
        c1 + kp.len() + ka.len(),
    )
}

/// The number of tasks in the columns.
pub open spec fn column_task_total(cols: Seq<KaneoBoardColumnView>) -> nat
    decreases cols.len(),
{
    if cols.len() == 0 {
        0
    } else {
        column_task_total(cols.drop_last()) + cols.last().tasks.len()
    }
}

/// The number of tasks on a board page: in its columns, planned and archived.
pub open spec fn board_task_total(d: KaneoBoardDataView) -> nat {
    column_task_total(d.columns) + d.planned_tasks.len() + d.archived_tasks.len()
}

/// A column without its tasks.
pub open spec fn emptied(c: KaneoBoardColumnView) -> KaneoBoardColumnView {
    KaneoBoardColumnView { tasks: seq![], ..c }
}

/// A page leaves the merge with every task list emptied.
pub open spec fn drained(before: KaneoBoardDataView, after: KaneoBoardDataView) -> bool {
    &&& after.id == before.id
    &&& after.name == before.name
    &&& after.slug == before.slug
    &&& after.columns.len() == before.columns.len()
    &&& forall|i: int|
        0 <= i < before.columns.len() ==> (#[trigger] after.columns[i]) == emptied(before.columns[i])
    &&& after.planned_tasks.len() == 0
    &&& after.archived_tasks.len() == 0
}

/// Merging never adds more tasks than the page holds.
proof fn lemma_merge_columns_count(m: KaneoBoardDataView, page_cols: Seq<KaneoBoardColumnView>, seen: Set<Seq<char>>)
    ensures
        merge_columns(m, page_cols, seen).2 <= column_task_total(page_cols),
        merge_columns(m, page_cols, seen).0.id == m.id,
        merge_columns(m, page_cols, seen).0.name == m.name,
        merge_columns(m, page_cols, seen).0.slug == m.slug,
        merge_columns(m, page_cols, seen).0.archived_tasks == m.archived_tasks,
        merge_columns(m, page_cols, seen).0.columns.len() == m.columns.len(),
        forall|i: int| 0 <= i < m.columns.len() ==> (#[trigger] merge_columns(m, page_cols, seen).0.columns[i]).id == m.columns[i].id,
        board_task_total(merge_columns(m, page_cols, seen).0) == board_task_total(m) + merge_columns(m, page_cols, seen).2,
    decreases page_cols.len(),
{
    if page_cols.len() > 0 {
        let (m1, s1, c1) = merge_columns(m, page_cols.drop_last(), seen);
        lemma_merge_columns_count(m, page_cols.drop_last(), seen);
        let pc = page_cols.last();
        lemma_fresh_tasks_len(pc.tasks, s1);
        let (kept, s2) = fresh_tasks(pc.tasks, s1);
        match column_with_id_from(m1.columns, pc.id, 0) {
            Some(j) => {
                lemma_column_with_id_in_range(m1.columns, pc.id, 0);
                lemma_append_to_column_total(m1.columns, j, kept);
            },
            None => {},
        }
    }
}

proof fn lemma_column_with_id_in_range(cols: Seq<KaneoBoardColumnView>, id: Seq<char>, k: int)
    ensures
        column_with_id_from(cols, id, k) matches Some(j) ==> k <= j < cols.len() && cols[j].id == id,
    decreases cols.len() - k,
{
    if k >= 0 && k < cols.len() && cols[k].id != id {
        lemma_column_with_id_in_range(cols, id, k + 1);
    }
}

proof fn lemma_append_to_column_total(cols: Seq<KaneoBoardColumnView>, j: int, kept: Seq<KaneoTask>)
    requires
        0 <= j < cols.len(),
    ensures
        column_task_total(append_to_column(cols, j, kept)) == column_task_total(cols) + kept.len(),
    decreases cols.len(),
{
    let n = cols.len();
    if j == n - 1 {
        assert(append_to_column(cols, j, kept).drop_last() =~= cols.drop_last());
    } else {
        lemma_append_to_column_total(cols.drop_last(), j, kept);
        assert(append_to_column(cols, j, kept).drop_last() =~= append_to_column(cols.drop_last(), j, kept));
    }
}

proof fn lemma_column_total_take(cols: Seq<KaneoBoardColumnView>, i: int)
    requires
        0 <= i < cols.len(),
    ensures
        column_task_total(cols.take(i + 1)) == column_task_total(cols.take(i)) + cols[i].tasks.len(),
        column_task_total(cols.take(i + 1)) <= column_task_total(cols),
    decreases cols.len(),
{
    assert(cols.take(i + 1).drop_last() =~= cols.take(i));
    if i + 1 < cols.len() {
        lemma_column_total_take(cols.drop_last(), i);
        assert(cols.drop_last().take(i + 1) =~= cols.take(i + 1));
    } else {
        assert(cols.take(i + 1) =~= cols);
    }
}

proof fn lemma_column_le_total(cols: Seq<KaneoBoardColumnView>, j: int)
    requires
        0 <= j < cols.len(),
    ensures
        cols[j].tasks.len() <= column_task_total(cols),
    decreases cols.len(),
{
    if j < cols.len() - 1 {
        lemma_column_le_total(cols.drop_last(), j);
    }
}

/// The position of the first column with the given id.
pub fn find_column(cols: &Vec<KaneoBoardColumn>, id: &String) -> (r: Option<usize>)
    ensures
        match r {
            Some(j) => column_with_id_from(column_views(cols@), id@, 0) == Some(j as int),
            None => column_with_id_from(column_views(cols@), id@, 0) is None,
        },
{
    let ghost v = column_views(cols@);
    let mut j: usize = 0;
    while j < cols.len()
        invariant
            j <= cols@.len(),
            v == column_views(cols@),
            column_with_id_from(v, id@, 0) == column_with_id_from(v, id@, j as int),
        decreases cols.len() - j,
    {
        if cols[j].id == *id {
            return Some(j);
        }
        j += 1;
    }
    None
}

/// Merges one more page of a paginated board into `merged`: each task whose
/// id has not been seen goes to the merged column with the same id (or to
/// the planned tasks when there is none), page planned tasks to the planned
/// tasks and page archived tasks to the archived tasks. Answers how many
/// tasks were added; the page is left without tasks.
pub fn merge_board_page(
    merged: &mut KaneoBoardResponse,
    page: &mut KaneoBoardResponse,
    seen: &mut StringHashSet,
) -> (r: usize)
    requires
        board_task_total(old(merged).data@) + board_task_total(old(page).data@) <= usize::MAX,
    ensures
        final(merged).data@ == merge_page(old(merged).data@, old(page).data@, old(seen)@).0,
        final(seen)@ == merge_page(old(merged).data@, old(page).data@, old(seen)@).1,
        r == merge_page(old(merged).data@, old(page).data@, old(seen)@).2,
        drained(old(page).data@, final(page).data@),
{
    let ghost m0 = merged.data@;
    let ghost p0 = page.data@;
    let ghost s0 = seen@;
    let mut count: usize = 0;
    let mut i: usize = 0;
    assert(p0.columns.take(0) =~= seq![]);
    while i < page.data.columns.len()
        invariant
            i <= p0.columns.len(),
            page.data@.columns.len() == p0.columns.len(),
            page.data.columns@.len() == p0.columns.len(),
            merged.data@ == merge_columns(m0, p0.columns.take(i as int), s0).0,
            seen@ == merge_columns(m0, p0.columns.take(i as int), s0).1,
            count == merge_columns(m0, p0.columns.take(i as int), s0).2,
            forall|k: int| i <= k < p0.columns.len() ==> (#[trigger] page.data@.columns[k]) == p0.columns[k],
            forall|k: int|
                0 <= k < i ==> (#[trigger] page.data@.columns[k]) == emptied(p0.columns[k]),
            page.data@.id == p0.id,
            page.data@.name == p0.name,
            page.data@.slug == p0.slug,
            page.data@.planned_tasks == p0.planned_tasks,
            page.data@.archived_tasks == p0.archived_tasks,
            board_task_total(m0) + board_task_total(p0) <= usize::MAX,
            column_task_total(p0.columns.take(i as int)) <= column_task_total(p0.columns),
        decreases p0.columns.len() - i,
    {
        proof {
            lemma_merge_columns_count(m0, p0.columns.take(i as int), s0);
            lemma_column_total_take(p0.columns, i as int);
            assert(p0.columns.take(i + 1).drop_last() =~= p0.columns.take(i as int));
            assert(p0.columns.take(i + 1).last() == p0.columns[i as int]);
        }
        let ghost m1 = merged.data@;
        let ghost s1 = seen@;
        let ghost pc = p0.columns[i as int];
        assert(page.data@.columns[i as int] == page.data.columns@[i as int]@);
        let ghost pcols = page.data.columns@;
        let pos = find_column(&merged.data.columns, &page.data.columns[i].id);
        proof {
            lemma_fresh_tasks_len(pc.tasks, s1);
        }
        if let Some(j) = pos {
            proof {
                lemma_column_with_id_in_range(m1.columns, pc.id, 0);
                lemma_column_le_total(m1.columns, j as int);
            }
            let added = push_new_tasks(&mut merged.data.columns[j].tasks, &mut page.data.columns[i].tasks, seen);
            count = count + added;
            proof {
                assert(merged.data@.columns =~= append_to_column(m1.columns, j as int, fresh_tasks(pc.tasks, s1).0));
            }
        } else {
            let added = push_new_tasks(&mut merged.data.planned_tasks, &mut page.data.columns[i].tasks, seen);
            count = count + added;
        }
        proof {
            assert(page.data.columns@[i as int].tasks@ =~= Seq::<KaneoTask>::empty());
            assert(page.data@.columns[i as int] == emptied(p0.columns[i as int]));
            assert forall|k: int| 0 <= k < p0.columns.len() && k != i implies
                (#[trigger] page.data@.columns[k]) == column_views(pcols)[k] by {
                assert(page.data.columns@[k] == pcols[k]);
            }
        }
        i += 1;
    }
    proof {
        assert(p0.columns.take(p0.columns.len() as int) =~= p0.columns);
        lemma_merge_columns_count(m0, p0.columns, s0);
        lemma_fresh_tasks_len(p0.planned_tasks, seen@);
    }
    let added = push_new_tasks(&mut merged.data.planned_tasks, &mut page.data.planned_tasks, seen);
    count = count + added;
    proof {
        lemma_fresh_tasks_len(p0.archived_tasks, seen@);
    }
    let added = push_new_tasks(&mut merged.data.archived_tasks, &mut page.data.archived_tasks, seen);
    count = count + added;
    count
}

/// The ids of the tasks, in order.
pub open spec fn task_ids(tasks: Seq<KaneoTask>) -> Seq<Seq<char>> {
    tasks.map_values(|t: KaneoTask| t.id@)
}

/// The ids of the tasks of the columns, column after column.
pub open spec fn column_ids(cols: Seq<KaneoBoardColumnView>) -> Seq<Seq<char>>
    decreases cols.len(),
{
    if cols.len() == 0 {
        seq![]
    } else {
        column_ids(cols.drop_last()) + task_ids(cols.last().tasks)
    }
}

/// The ids of all tasks of a board: its columns, then planned, then archived.
pub open spec fn board_ids(d: KaneoBoardDataView) -> Seq<Seq<char>> {
    column_ids(d.columns) + task_ids(d.planned_tasks) + task_ids(d.archived_tasks)
}

/// `seen` is exactly the set of task ids on the board, and no id occurs on
/// the board twice.
pub open spec fn tracks_seen(d: KaneoBoardDataView, seen: Set<Seq<char>>) -> bool {
    &&& board_ids(d).no_duplicates()
    &&& board_ids(d).to_set() == seen
}

proof fn lemma_contains_concat<T>(a: Seq<T>, b: Seq<T>, x: T)
    ensures
        (a + b).contains(x) <==> a.contains(x) || b.contains(x),
{
    if a.contains(x) {
        let i = choose|i: int| 0 <= i < a.len() && a[i] == x;
        assert((a + b)[i] == x);
    }
    if b.contains(x) {
        let i = choose|i: int| 0 <= i < b.len() && b[i] == x;
        assert((a + b)[a.len() + i] == x);
    }
    if (a + b).contains(x) {
        let i = choose|i: int| 0 <= i < (a + b).len() && (a + b)[i] == x;
        if i < a.len() {
            assert(a[i] == x);
        } else {
            assert(b[i - a.len()] == x);
        }
    }
}

/// Inserting distinct new elements into a duplicate-free sequence keeps it
/// duplicate-free and adds them to its set.
proof fn lemma_insert_fresh<T>(a: Seq<T>, k: Seq<T>, b: Seq<T>)
    requires
        (a + b).no_duplicates(),
        k.no_duplicates(),
        forall|x: T| k.contains(x) ==> !(a + b).contains(x),
    ensures
        (a + k + b).no_duplicates(),
        (a + k + b).to_set() == (a + b).to_set().union(k.to_set()),
{
    let n = a + k + b;
    let ab = a + b;
    assert forall|i: int, j: int| 0 <= i < n.len() && 0 <= j < n.len() && i != j implies n[i] != n[j] by {
        let ai = a.len();
        let ki = a.len() + k.len();
        if i < ai && j < ai {
            assert(ab[i] == n[i] && ab[j] == n[j]);
        } else if i < ai && j >= ki {
            assert(ab[i] == n[i] && ab[j - k.len()] == n[j]);
        } else if i >= ki && j < ai {
            assert(ab[i - k.len()] == n[i] && ab[j] == n[j]);
        } else if i >= ki && j >= ki {
            assert(ab[i - k.len()] == n[i] && ab[j - k.len()] == n[j]);
        } else if ai <= i < ki && ai <= j < ki {
            assert(k[i - ai] == n[i] && k[j - ai] == n[j]);
        } else if ai <= i < ki {
            assert(k[i - ai] == n[i]);
            assert(k.contains(n[i]));
            if j < ai {
                assert(ab[j] == n[j]);
            } else {
                assert(ab[j - k.len()] == n[j]);
            }
        } else {
            assert(k[j - ai] == n[j]);
            assert(k.contains(n[j]));
            if i < ai {
                assert(ab[i] == n[i]);
            } else {
                assert(ab[i - k.len()] == n[i]);
            }
        }
    }
    assert forall|x: T| n.contains(x) <==> ab.contains(x) || k.contains(x) by {
        lemma_contains_concat(a, k, x);
        lemma_contains_concat(a + k, b, x);
        lemma_contains_concat(a, b, x);
    }
    assert(n.to_set() =~= ab.to_set().union(k.to_set()));
}

/// What `fresh_tasks` keeps: distinct ids, none seen before, all now seen.
proof fn lemma_fresh_tasks_ids(tasks: Seq<KaneoTask>, seen: Set<Seq<char>>)
    ensures
        task_ids(fresh_tasks(tasks, seen).0).no_duplicates(),
        forall|x: Seq<char>| task_ids(fresh_tasks(tasks, seen).0).contains(x) ==> !seen.contains(x),
        fresh_tasks(tasks, seen).1 == seen.union(task_ids(fresh_tasks(tasks, seen).0).to_set()),
    decreases tasks.len(),
{
    if tasks.len() > 0 {
        lemma_fresh_tasks_ids(tasks.drop_last(), seen);
        let (kept, s) = fresh_tasks(tasks.drop_last(), seen);
        let t = tasks.last();
        if !s.contains(t.id@) {
            let nk = kept.push(t);
            assert(task_ids(nk) =~= task_ids(kept).push(t.id@));
            assert forall|x: Seq<char>| task_ids(nk).contains(x) <==> task_ids(kept).contains(x) || x == t.id@ by {
                assert(task_ids(nk) =~= task_ids(kept) + seq![t.id@]);
                lemma_contains_concat(task_ids(kept), seq![t.id@], x);
                assert(seq![t.id@][0] == t.id@);
            }
            assert(s.insert(t.id@) =~= seen.union(task_ids(nk).to_set()));
        }
    } else {
        assert(task_ids(seq![]) =~= Seq::<Seq<char>>::empty());
        assert(seen.union(Seq::<Seq<char>>::empty().to_set()) =~= seen);
    }
}

/// The ids of consecutive column runs concatenate.
proof fn lemma_column_ids_split(cols: Seq<KaneoBoardColumnView>, j: int)
    requires
        0 <= j <= cols.len(),
    ensures
        column_ids(cols) == column_ids(cols.take(j)) + column_ids(cols.skip(j)),
    decreases cols.len(),
{
    if j == cols.len() {
        assert(cols.take(j) =~= cols);
        assert(cols.skip(j) =~= Seq::<KaneoBoardColumnView>::empty());
        assert(column_ids(cols) + Seq::<Seq<char>>::empty() =~= column_ids(cols));
    } else {
        lemma_column_ids_split(cols.drop_last(), j);
        assert(cols.drop_last().take(j) =~= cols.take(j));
        assert(cols.skip(j).drop_last() =~= cols.drop_last().skip(j));
        assert(cols.skip(j).last() == cols.last());
    }
}

/// Appending tasks to column `j` inserts their ids right after that
/// column's ids.
proof fn lemma_column_ids_append(cols: Seq<KaneoBoardColumnView>, j: int, kept: Seq<KaneoTask>)
    requires
        0 <= j < cols.len(),
    ensures
        column_ids(append_to_column(cols, j, kept)) == column_ids(cols.take(j + 1)) + task_ids(kept)
            + column_ids(cols.skip(j + 1)),
{
    let nc = append_to_column(cols, j, kept);
    lemma_column_ids_split(nc, j + 1);
    assert(nc.skip(j + 1) =~= cols.skip(j + 1));
    assert(nc.take(j + 1).drop_last() =~= cols.take(j + 1).drop_last());
    assert(task_ids(cols[j].tasks + kept) =~= task_ids(cols[j].tasks) + task_ids(kept));
    assert(cols.take(j + 1).last() == cols[j]);
}

/// Merging page columns keeps the board tracking its seen ids.
proof fn lemma_merge_columns_tracks(m: KaneoBoardDataView, page_cols: Seq<KaneoBoardColumnView>, seen: Set<Seq<char>>)
    requires
        tracks_seen(m, seen),
    ensures
        tracks_seen(merge_columns(m, page_cols, seen).0, merge_columns(m, page_cols, seen).1),
    decreases page_cols.len(),
{
    if page_cols.len() > 0 {
        lemma_merge_columns_tracks(m, page_cols.drop_last(), seen);
        let (m1, s1, c1) = merge_columns(m, page_cols.drop_last(), seen);
        let pc = page_cols.last();
        let (kept, s2) = fresh_tasks(pc.tasks, s1);
        lemma_fresh_tasks_ids(pc.tasks, s1);
        let k = task_ids(kept);
        match column_with_id_from(m1.columns, pc.id, 0) {
            Some(j) => {
                lemma_column_with_id_in_range(m1.columns, pc.id, 0);
                lemma_column_ids_append(m1.columns, j, kept);
                lemma_column_ids_split(m1.columns, j + 1);
                let a = column_ids(m1.columns.take(j + 1));
                let b = column_ids(m1.columns.skip(j + 1)) + task_ids(m1.planned_tasks) + task_ids(m1.archived_tasks);
                assert(board_ids(m1) =~= a + b);
                let m2 = KaneoBoardDataView { columns: append_to_column(m1.columns, j, kept), ..m1 };
                assert(board_ids(m2) =~= a + k + b);
                assert forall|x: Seq<char>| k.contains(x) implies !(a + b).contains(x) by {
                    assert((a + b).to_set().contains(x) == s1.contains(x));
                }
                lemma_insert_fresh(a, k, b);
            },
            None => {
                let a = column_ids(m1.columns) + task_ids(m1.planned_tasks);
                let b = task_ids(m1.archived_tasks);
                assert(board_ids(m1) =~= a + b);
                let m2 = KaneoBoardDataView { planned_tasks: m1.planned_tasks + kept, ..m1 };
                assert(task_ids(m1.planned_tasks + kept) =~= task_ids(m1.planned_tasks) + k);
                assert(board_ids(m2) =~= a + k + b);
                assert forall|x: Seq<char>| k.contains(x) implies !(a + b).contains(x) by {
                    assert((a + b).to_set().contains(x) == s1.contains(x));
                }
                lemma_insert_fresh(a, k, b);
            },
        }
    }
}

/// Law: merging a page into a board whose seen ids are exactly its task ids,
/// with no id repeated, leaves a board of which the same holds. So however
/// many pages are merged, no task appears twice and the seen ids are the
/// board's.
pub proof fn lemma_merge_page_tracks_seen(m: KaneoBoardDataView, p: KaneoBoardDataView, seen: Set<Seq<char>>)
    requires
        tracks_seen(m, seen),
    ensures
        tracks_seen(merge_page(m, p, seen).0, merge_page(m, p, seen).1),
{
    lemma_merge_columns_tracks(m, p.columns, seen);
    let (m1, s1, c1) = merge_columns(m, p.columns, seen);
    let (kp, s2) = fresh_tasks(p.planned_tasks, s1);
    lemma_fresh_tasks_ids(p.planned_tasks, s1);
    let kpi = task_ids(kp);
    let a = column_ids(m1.columns) + task_ids(m1.planned_tasks);
    let b = task_ids(m1.archived_tasks);
    assert(board_ids(m1) =~= a + b);
    assert forall|x: Seq<char>| kpi.contains(x) implies !(a + b).contains(x) by {
        assert((a + b).to_set().contains(x) == s1.contains(x));
    }
    lemma_insert_fresh(a, kpi, b);
    let m2 = KaneoBoardDataView { planned_tasks: m1.planned_tasks + kp, ..m1 };
    assert(task_ids(m1.planned_tasks + kp) =~= task_ids(m1.planned_tasks) + kpi);
    assert(board_ids(m2) =~= a + kpi + b);
    let (ka, s3) = fresh_tasks(p.archived_tasks, s2);
    lemma_fresh_tasks_ids(p.archived_tasks, s2);
    let kai = task_ids(ka);
    let a2 = board_ids(m2);
    let e = Seq::<Seq<char>>::empty();
    assert(a2 + e =~= a2);
    assert forall|x: Seq<char>| kai.contains(x) implies !(a2 + e).contains(x) by {
        assert(a2.to_set().contains(x) == s2.contains(x));
    }
    lemma_insert_fresh(a2, kai, e);
    let m3 = KaneoBoardDataView { archived_tasks: m1.archived_tasks + ka, ..m2 };
    assert(task_ids(m1.archived_tasks + ka) =~= task_ids(m1.archived_tasks) + kai);
    assert(board_ids(m3) =~= a2 + kai + e);
}

/// The set of a concatenation is the union of the sets.
proof fn lemma_to_set_concat<T>(a: Seq<T>, b: Seq<T>)
    ensures
        (a + b).to_set() == a.to_set().union(b.to_set()),
{
    assert forall|x: T| (a + b).to_set().contains(x) <==> a.to_set().union(b.to_set()).contains(x) by {
        lemma_contains_concat(a, b, x);
    }
    assert((a + b).to_set() =~= a.to_set().union(b.to_set()));
}

/// `fresh_tasks` sees every id of the tasks, and the ids it adds to a finite
/// seen set are exactly as many as the tasks it keeps.
proof fn lemma_fresh_tasks_seen(tasks: Seq<KaneoTask>, seen: Set<Seq<char>>)
    requires
        seen.finite(),
    ensures
        fresh_tasks(tasks, seen).1 == seen.union(task_ids(tasks).to_set()),
        fresh_tasks(tasks, seen).1.finite(),
        fresh_tasks(tasks, seen).1.len() == seen.len() + fresh_tasks(tasks, seen).0.len(),
    decreases tasks.len(),
{
    if tasks.len() == 0 {
        assert(task_ids(tasks).to_set() =~= Set::<Seq<char>>::empty());
        assert(seen.union(Set::<Seq<char>>::empty()) =~= seen);
    } else {
        let pre = tasks.drop_last();
        lemma_fresh_tasks_seen(pre, seen);
        let (kept, s1) = fresh_tasks(pre, seen);
        let t = tasks.last();
        assert(task_ids(tasks) =~= task_ids(pre) + seq![t.id@]);
        lemma_to_set_concat(task_ids(pre), seq![t.id@]);
        assert forall|x: Seq<char>| seq![t.id@].to_set().contains(x) <==> x == t.id@ by {
            if x == t.id@ {
                assert(seq![t.id@][0] == x);
            }
        }
        assert(seq![t.id@].to_set() =~= set![t.id@]);
        assert(seen.union(task_ids(tasks).to_set()) =~= s1.insert(t.id@));
        if s1.contains(t.id@) {
            assert(s1.insert(t.id@) =~= s1);
        }
    }
}

/// Merging page columns sees every id of their tasks, adds to a finite seen
/// set as many ids as tasks it adds, and grows the board by that many tasks.
proof fn lemma_merge_columns_seen(m: KaneoBoardDataView, page_cols: Seq<KaneoBoardColumnView>, seen: Set<Seq<char>>)
    requires
        seen.finite(),
    ensures
        merge_columns(m, page_cols, seen).1 == seen.union(column_ids(page_cols).to_set()),
        merge_columns(m, page_cols, seen).1.finite(),
        merge_columns(m, page_cols, seen).1.len() == seen.len() + merge_columns(m, page_cols, seen).2,
    decreases page_cols.len(),
{
    if page_cols.len() == 0 {
        assert(column_ids(page_cols).to_set() =~= Set::<Seq<char>>::empty());
        assert(seen.union(Set::<Seq<char>>::empty()) =~= seen);
    } else {
        let pre = page_cols.drop_last();
        lemma_merge_columns_seen(m, pre, seen);
        let (m1, s1, c1) = merge_columns(m, pre, seen);
        let pc = page_cols.last();
        lemma_fresh_tasks_seen(pc.tasks, s1);
        lemma_to_set_concat(column_ids(pre), task_ids(pc.tasks));
        assert(seen.union(column_ids(page_cols).to_set()) =~= s1.union(task_ids(pc.tasks).to_set()));
    }
}

/// Law: merging a page into a board adds exactly as many tasks to the board
/// as it answers, adds every id of the page to the seen ids, and (for a
/// finite seen set) the seen ids grow by that same number; it never adds
/// more tasks than the page holds.
pub proof fn lemma_merge_page_counts(m: KaneoBoardDataView, p: KaneoBoardDataView, seen: Set<Seq<char>>)
    requires
        seen.finite(),
    ensures
        board_task_total(merge_page(m, p, seen).0) == board_task_total(m) + merge_page(m, p, seen).2,
        merge_page(m, p, seen).1 == seen.union(board_ids(p).to_set()),
        merge_page(m, p, seen).1.finite(),
        merge_page(m, p, seen).1.len() == seen.len() + merge_page(m, p, seen).2,
        merge_page(m, p, seen).2 <= board_task_total(p),
{
    lemma_merge_columns_count(m, p.columns, seen);
    lemma_merge_columns_seen(m, p.columns, seen);
    let (m1, s1, c1) = merge_columns(m, p.columns, seen);
    lemma_fresh_tasks_seen(p.planned_tasks, s1);
    lemma_fresh_tasks_len(p.planned_tasks, s1);
    let (kp, s2) = fresh_tasks(p.planned_tasks, s1);
    lemma_fresh_tasks_seen(p.archived_tasks, s2);
    lemma_fresh_tasks_len(p.archived_tasks, s2);
    lemma_to_set_concat(column_ids(p.columns), task_ids(p.planned_tasks));
    lemma_to_set_concat(column_ids(p.columns) + task_ids(p.planned_tasks), task_ids(p.archived_tasks));
    assert(seen.union(board_ids(p).to_set()) =~= seen.union(column_ids(p.columns).to_set()).union(
        task_ids(p.planned_tasks).to_set(),
    ).union(task_ids(p.archived_tasks).to_set()));
}

/// The tasks of the columns, column after column.
pub open spec fn column_tasks(cols: Seq<KaneoBoardColumnView>) -> Seq<KaneoTask>
    decreases cols.len(),
{
    if cols.len() == 0 {
        seq![]
    } else {
        column_tasks(cols.drop_last()) + cols.last().tasks
    }
}

/// All tasks of a board: its columns in order, then planned, then archived.
pub open spec fn board_tasks(d: KaneoBoardDataView) -> Seq<KaneoTask> {
    column_tasks(d.columns) + d.planned_tasks + d.archived_tasks
}

/// The tasks whose status is `status`, in order.
pub open spec fn tasks_with_status(tasks: Seq<KaneoTask>, status: Seq<char>) -> Seq<KaneoTask>
    decreases tasks.len(),
{
    if tasks.len() == 0 {
        seq![]
    } else if tasks.last().status@ == status {
        tasks_with_status(tasks.drop_last(), status).push(tasks.last())
    } else {
        tasks_with_status(tasks.drop_last(), status)
    }
}

/// Counts the tasks of a board page, when the count fits in a `usize`.
pub fn board_task_count_checked(board: &KaneoBoardResponse) -> (r: Option<usize>)
    ensures
        match r {
            Some(n) => n == board_task_total(board.data@),
            None => board_task_total(board.data@) > usize::MAX,
        },
{
    let ghost cols = board.data@.columns;
    let mut total: usize = 0;
    let mut i: usize = 0;
    while i < board.data.columns.len()
        invariant
            i <= cols.len(),
            cols == column_views(board.data.columns@),
            total == column_task_total(cols.take(i as int)),
        decreases cols.len() - i,
    {
        proof {
            lemma_column_total_take(cols, i as int);
        }
        assert(cols[i as int].tasks == board.data.columns@[i as int].tasks@);
        let n = board.data.columns[i].tasks.len();
        if total > usize::MAX - n {
            proof {
                lemma_column_total_monotone(cols, i as int + 1);
                assert(column_task_total(cols.take(i + 1)) == total + n);
            }
            return None;
        }
        total = total + n;
        i += 1;
    }
    assert(cols.take(cols.len() as int) =~= cols);
    if total > usize::MAX - board.data.planned_tasks.len() {
        return None;
    }
    total = total + board.data.planned_tasks.len();
    if total > usize::MAX - board.data.archived_tasks.len() {
        return None;
    }
    Some(total + board.data.archived_tasks.len())
}

proof fn lemma_column_total_monotone(cols: Seq<KaneoBoardColumnView>, i: int)
    requires
        0 <= i <= cols.len(),
    ensures
        column_task_total(cols.take(i)) <= column_task_total(cols),
    decreases cols.len() - i,
{
    if i < cols.len() {
        lemma_column_total_take(cols, i);
        lemma_column_total_monotone(cols, i + 1);
    } else {
        assert(cols.take(i) =~= cols);
    }
}

/// Counts the tasks of a board page: in its columns, planned and archived.
pub fn board_task_count(board: &KaneoBoardResponse) -> (r: usize)
    requires
        board_task_total(board.data@) <= usize::MAX,
    ensures
        r == board_task_total(board.data@),
{
    match board_task_count_checked(board) {
        Some(n) => n,
        None => 0,
    }
}

/// Adds the ids of the tasks to `seen`.
fn insert_ids(tasks: &Vec<KaneoTask>, seen: &mut StringHashSet)
    ensures
        final(seen)@ == old(seen)@.union(task_ids(tasks@).to_set()),
{
    let ghost s0 = seen@;
    let mut i: usize = 0;
    while i < tasks.len()
        invariant
            i <= tasks@.len(),
            seen@ == s0.union(task_ids(tasks@.take(i as int)).to_set()),
        decreases tasks.len() - i,
    {
        seen.insert(tasks[i].id.clone());
        proof {
            let a = task_ids(tasks@.take(i as int));
            assert(task_ids(tasks@.take(i + 1)) =~= a + seq![tasks@[i as int].id@]);
            assert forall|x: Seq<char>| task_ids(tasks@.take(i + 1)).contains(x) <==> a.contains(x) || x == tasks@[i as int].id@ by {
                lemma_contains_concat(a, seq![tasks@[i as int].id@], x);
                assert(seq![tasks@[i as int].id@][0] == tasks@[i as int].id@);
            }
            assert(seen@ =~= s0.union(task_ids(tasks@.take(i + 1)).to_set()));
        }
        i += 1;
    }
    assert(tasks@.take(tasks@.len() as int) =~= tasks@);
}

/// Records the ids of every task of a board page in `seen`.
pub fn collect_seen_task_ids(board: &KaneoBoardResponse, seen: &mut StringHashSet)
    ensures
        final(seen)@ == old(seen)@.union(board_ids(board.data@).to_set()),
{
    let ghost cols = board.data@.columns;
    let ghost s0 = seen@;
    let mut i: usize = 0;
    assert(cols.take(0) =~= Seq::<KaneoBoardColumnView>::empty());
    assert(s0.union(Seq::<Seq<char>>::empty().to_set()) =~= s0);
    while i < board.data.columns.len()
        invariant
            i <= cols.len(),
            cols == column_views(board.data.columns@),
            seen@ == s0.union(column_ids(cols.take(i as int)).to_set()),
        decreases cols.len() - i,
    {
        assert(cols[i as int].tasks == board.data.columns@[i as int].tasks@);
        let ghost before = seen@;
        insert_ids(&board.data.columns[i].tasks, seen);
        proof {
            let a = column_ids(cols.take(i as int));
            let b = task_ids(cols[i as int].tasks);
            assert(cols.take(i + 1).drop_last() =~= cols.take(i as int));
            assert(column_ids(cols.take(i + 1)) == a + b);
            assert forall|x: Seq<char>| (a + b).contains(x) <==> a.contains(x) || b.contains(x) by {
                lemma_contains_concat(a, b, x);
            }
            assert(seen@ =~= s0.union((a + b).to_set()));
        }
        i += 1;
    }
    assert(cols.take(cols.len() as int) =~= cols);
    insert_ids(&board.data.planned_tasks, seen);
    insert_ids(&board.data.archived_tasks, seen);
    proof {
        let a = column_ids(cols);
        let b = task_ids(board.data.planned_tasks@);
        let c = task_ids(board.data.archived_tasks@);
        assert forall|x: Seq<char>| (a + b + c).contains(x) <==> a.contains(x) || b.contains(x) || c.contains(x) by {
            lemma_contains_concat(a, b, x);
            lemma_contains_concat(a + b, c, x);
        }
        assert(seen@ =~= s0.union(board_ids(board.data@).to_set()));
    }
}

/// Law: a first page with no repeated task id, recorded in an empty seen
/// set, is a board that tracks its seen ids.
pub proof fn lemma_first_page_tracks_seen(d: KaneoBoardDataView)
    requires
        board_ids(d).no_duplicates(),
    ensures
        tracks_seen(d, Set::<Seq<char>>::empty().union(board_ids(d).to_set())),
{
    assert(Set::<Seq<char>>::empty().union(board_ids(d).to_set()) =~= board_ids(d).to_set());
}

/// Whether a task has the given status.
pub open spec fn has_status(status: Seq<char>) -> spec_fn(KaneoTask) -> bool {
    |t: KaneoTask| t.status@ == status
}

/// Law: the tasks with a status are the tasks filtered by that status: every
/// task whose status it is appears, in order, and nothing else does.
pub proof fn lemma_tasks_with_status_is_filter(tasks: Seq<KaneoTask>, status: Seq<char>)
    ensures
        tasks_with_status(tasks, status) == tasks.filter(has_status(status)),
        forall|i: int|
            0 <= i < tasks.len() && tasks[i].status@ == status ==> #[trigger] tasks_with_status(
                tasks,
                status,
            ).contains(tasks[i]),
        forall|t: KaneoTask|
            #[trigger] tasks_with_status(tasks, status).contains(t) ==> tasks.contains(t) && t.status@ == status,
    decreases tasks.len(),
{
    reveal(Seq::filter);
    if tasks.len() > 0 {
        lemma_tasks_with_status_is_filter(tasks.drop_last(), status);
    }
    let p = has_status(status);
    assert forall|i: int| 0 <= i < tasks.len() && tasks[i].status@ == status implies #[trigger] tasks_with_status(
        tasks,
        status,
    ).contains(tasks[i]) by {
        tasks.lemma_filter_contains(p, i);
    }
    assert forall|t: KaneoTask| #[trigger] tasks_with_status(tasks, status).contains(t) implies tasks.contains(t)
        && t.status@ == status by {
        tasks.lemma_filter_contains_rev(p, t);
        let k = choose|k: int| 0 <= k < tasks.filter(p).len() && tasks.filter(p)[k] == t;
        tasks.lemma_filter_pred(p, k);
    }
}

/// Law: a task is a task of the columns exactly when some column holds it.
pub proof fn lemma_column_tasks_members(cols: Seq<KaneoBoardColumnView>, t: KaneoTask)
    ensures
        column_tasks(cols).contains(t) <==> exists|c: int, j: int|
            0 <= c < cols.len() && 0 <= j < cols[c].tasks.len() && #[trigger] cols[c].tasks[j] == t,
    decreases cols.len(),
{
    if cols.len() > 0 {
        let pre = cols.drop_last();
        lemma_column_tasks_members(pre, t);
        lemma_contains_concat(column_tasks(pre), cols.last().tasks, t);
        if exists|c: int, j: int| 0 <= c < cols.len() && 0 <= j < cols[c].tasks.len() && #[trigger] cols[c].tasks[j] == t {
            let (c, j) = choose|c: int, j: int|
                0 <= c < cols.len() && 0 <= j < cols[c].tasks.len() && #[trigger] cols[c].tasks[j] == t;
            if c < cols.len() - 1 {
                assert(pre[c].tasks[j] == t);
            } else {
                assert(cols.last().tasks[j] == t);
            }
        }
        if column_tasks(pre).contains(t) {
            let (c, j) = choose|c: int, j: int|
                0 <= c < pre.len() && 0 <= j < pre[c].tasks.len() && #[trigger] pre[c].tasks[j] == t;
            assert(cols[c].tasks[j] == t);
        }
        if cols.last().tasks.contains(t) {
            let j = choose|j: int| 0 <= j < cols.last().tasks.len() && cols.last().tasks[j] == t;
            assert(cols[cols.len() - 1].tasks[j] == t);
        }
    }
}

/// Law: the tasks a board lists for a column slug are exactly the board's
/// tasks (of any column, planned or archived) whose status is the slug, in
/// board order.
pub proof fn lemma_board_tasks_with_status(d: KaneoBoardDataView, status: Seq<char>, t: KaneoTask)
    ensures
        tasks_with_status(board_tasks(d), status) == board_tasks(d).filter(has_status(status)),
        tasks_with_status(board_tasks(d), status).contains(t) <==> t.status@ == status && ((exists|c: int, j: int|
            0 <= c < d.columns.len() && 0 <= j < d.columns[c].tasks.len() && #[trigger] d.columns[c].tasks[j] == t)
            || d.planned_tasks.contains(t) || d.archived_tasks.contains(t)),
{
    let all = board_tasks(d);
    lemma_tasks_with_status_is_filter(all, status);
    lemma_column_tasks_members(d.columns, t);
    lemma_contains_concat(column_tasks(d.columns), d.planned_tasks, t);
    lemma_contains_concat(column_tasks(d.columns) + d.planned_tasks, d.archived_tasks, t);
    if all.contains(t) && t.status@ == status {
        let i = choose|i: int| 0 <= i < all.len() && all[i] == t;
        assert(tasks_with_status(all, status).contains(all[i]));
    }
}

/// Collects, in board order, the tasks of a board whose status is the given
/// column slug: tasks of the columns, then planned, then archived tasks.
pub fn filter_tasks_in_column(board: KaneoBoardResponse, column_slug: &str) -> (r: Vec<KaneoTask>)
    ensures
        r@ == tasks_with_status(board_tasks(board.data@), column_slug@),
        r@ == board_tasks(board.data@).filter(has_status(column_slug@)),
        forall|t: KaneoTask|
            #[trigger] r@.contains(t) <==> t.status@ == column_slug@ && ((exists|c: int, j: int|
                0 <= c < board.data@.columns.len() && 0 <= j < board.data@.columns[c].tasks.len()
                    && #[trigger] board.data@.columns[c].tasks[j] == t) || board.data@.planned_tasks.contains(t)
                || board.data@.archived_tasks.contains(t)),
{
    proof {
        lemma_tasks_with_status_is_filter(board_tasks(board.data@), column_slug@);
        assert forall|t: KaneoTask| #[trigger] tasks_with_status(board_tasks(board.data@), column_slug@).contains(t) <==> t.status@
            == column_slug@ && ((exists|c: int, j: int|
                0 <= c < board.data@.columns.len() && 0 <= j < board.data@.columns[c].tasks.len()
                    && #[trigger] board.data@.columns[c].tasks[j] == t) || board.data@.planned_tasks.contains(t)
                || board.data@.archived_tasks.contains(t)) by {
            lemma_board_tasks_with_status(board.data@, column_slug@, t);
        }
    }
    let ghost all = board_tasks(board.data@);
    let data = board.data;
    let ghost cols = data@.columns;
    let slug = owned(column_slug);
    let mut out: Vec<KaneoTask> = Vec::new();
    let ghost mut seen_so_far: Seq<KaneoTask> = seq![];
    let mut k: usize = 0;
    for column in it: data.columns.into_iter()
        invariant
            it.seq() == data.columns@,
            cols == column_views(data.columns@),
            seen_so_far == column_tasks(cols.take(it.index() as int)),
            out@ == tasks_with_status(seen_so_far, column_slug@),
            slug@ == column_slug@,
    {
        proof {
            assert(cols.take(it.index() + 1).drop_last() =~= cols.take(it.index() as int));
            assert(cols[it.index() as int].tasks == column.tasks@);
        }
        keep_with_status(&mut out, column.tasks, &slug, Ghost(seen_so_far));
        proof {
            seen_so_far = seen_so_far + column.tasks@;
        }
    }
    assert(cols.take(cols.len() as int) =~= cols);
    let ghost s1 = seen_so_far;
    keep_with_status(&mut out, data.planned_tasks, &slug, Ghost(s1));
    let ghost s2 = s1 + data.planned_tasks@;
    keep_with_status(&mut out, data.archived_tasks, &slug, Ghost(s2));
    out
}

/// Appends to `out` the tasks whose status is `status`, in order.
fn keep_with_status(out: &mut Vec<KaneoTask>, tasks: Vec<KaneoTask>, status: &String, Ghost(before): Ghost<Seq<KaneoTask>>)
    requires
        old(out)@ == tasks_with_status(before, status@),
    ensures
        final(out)@ == tasks_with_status(before + tasks@, status@),
{
    let ghost all = tasks@;
    for t in it: tasks.into_iter()
        invariant
            it.seq() == all,
            out@ == tasks_with_status(before + all.take(it.index() as int), status@),
    {
        proof {
            assert((before + all.take(it.index() + 1)).drop_last() =~= before + all.take(it.index() as int));
            assert((before + all.take(it.index() + 1)).last() == t);
        }
        if t.status == *status {
            out.push(t);
        }
    }
    assert(all.take(all.len() as int) =~= all);
}

} // verus!
