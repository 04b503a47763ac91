//! Labels and task relations: which copies of a label a task carries, and
//! what attaching, detaching or relating needs to send.
use vstd::prelude::*;

use crate::kaneo::errors::KaneoError;
use crate::kaneo::types::{KaneoLabel, KaneoTask, KaneoTaskLabel, KaneoTaskRelation};
use crate::text::{owned, push_str, str_eq, string_of};

verus! {

/// The body that creates a label, attached to a task when `task_id` is set.
#[derive(Clone, Debug)]
pub struct CreateLabelBody {
    pub name: String,
    pub color: String,
    pub workspace_id: String,
    pub task_id: Option<String>,
}

/// The ids of the labels named `name`, in order.
pub open spec fn label_ids_named(labels: Seq<KaneoTaskLabel>, name: Seq<char>) -> Seq<Seq<char>>
    decreases labels.len(),
{
    if labels.len() == 0 {
        seq![]
    } else if labels.last().name@ == name {
        label_ids_named(labels.drop_last(), name).push(labels.last().id@)
    } else {
        label_ids_named(labels.drop_last(), name)
    }
}

/// Whether a label of a task has the given name.
pub open spec fn named(name: Seq<char>) -> spec_fn(KaneoTaskLabel) -> bool {
    |l: KaneoTaskLabel| l.name@ == name
}

/// Law: the ids found for a name are the ids of the task's labels with that
/// name, every one of them, in order, and no other.
pub proof fn lemma_label_ids_named(labels: Seq<KaneoTaskLabel>, name: Seq<char>)
    ensures
        label_ids_named(labels, name) == labels.filter(named(name)).map_values(|l: KaneoTaskLabel| l.id@),
        forall|i: int|
            0 <= i < labels.len() && labels[i].name@ == name ==> #[trigger] label_ids_named(labels, name).contains(
                labels[i].id@,
            ),
        forall|x: Seq<char>|
            #[trigger] label_ids_named(labels, name).contains(x) ==> exists|i: int|
                0 <= i < labels.len() && labels[i].name@ == name && #[trigger] labels[i].id@ == x,
    decreases labels.len(),
{
    reveal(Seq::filter);
    let p = named(name);
    if labels.len() > 0 {
        lemma_label_ids_named(labels.drop_last(), name);
        let f = labels.drop_last().filter(p);
        if p(labels.last()) {
            assert(f.push(labels.last()).map_values(|l: KaneoTaskLabel| l.id@) =~= f.map_values(
                |l: KaneoTaskLabel| l.id@,
            ).push(labels.last().id@));
        }
    }
    let r = labels.filter(p);
    assert forall|i: int| 0 <= i < labels.len() && labels[i].name@ == name implies #[trigger] label_ids_named(
        labels,
        name,
    ).contains(labels[i].id@) by {
        labels.lemma_filter_contains(p, i);
        let k = choose|k: int| 0 <= k < r.len() && r[k] == labels[i];
        assert(r.map_values(|l: KaneoTaskLabel| l.id@)[k] == labels[i].id@);
    }
    assert forall|x: Seq<char>| #[trigger] label_ids_named(labels, name).contains(x) implies exists|i: int|
        0 <= i < labels.len() && labels[i].name@ == name && #[trigger] labels[i].id@ == x by {
        let m = r.map_values(|l: KaneoTaskLabel| l.id@);
        let k = choose|k: int| 0 <= k < m.len() && m[k] == x;
        labels.lemma_filter_pred(p, k);
        assert(r.contains(r[k]));
        labels.lemma_filter_contains_rev(p, r[k]);
        let i = choose|i: int| 0 <= i < labels.len() && labels[i] == r[k];
        assert(labels[i].id@ == x);
    }
}

/// The ids of the labels of `task` named `label_name`: the copies of a
/// workspace label attached to the task.
pub fn task_label_ids_by_name(task: &KaneoTask, label_name: &str) -> (r: Vec<String>)
    ensures
        r@.map_values(|s: String| s@) == label_ids_named(task.labels@, label_name@),
        r@.map_values(|s: String| s@) == task.labels@.filter(named(label_name@)).map_values(|l: KaneoTaskLabel| l.id@),
{
    proof {
        lemma_label_ids_named(task.labels@, label_name@);
    }
    let mut out: Vec<String> = Vec::new();
    let mut i: usize = 0;
    while i < task.labels.len()
        invariant
            i <= task.labels@.len(),
            out@.map_values(|s: String| s@) == label_ids_named(task.labels@.take(i as int), label_name@),
        decreases task.labels.len() - i,
    {
        assert(task.labels@.take(i + 1).drop_last() =~= task.labels@.take(i as int));
        if str_eq(task.labels[i].name.as_str(), label_name) {
            let ghost before = out@;
            out.push(task.labels[i].id.clone());
            assert(out@.map_values(|s: String| s@) =~= before.map_values(|s: String| s@).push(task.labels@[i as int].id@));
        }
        i += 1;
    }
    assert(task.labels@.take(task.labels@.len() as int) =~= task.labels@);
    out
}

/// The body that creates a label in a workspace, attached to a task when one
/// is given.
pub fn create_label_body(workspace_id: &str, name: &str, color: &str, task_id: Option<&str>) -> (r: CreateLabelBody)
    ensures
        r.name@ == name@,
        r.color@ == color@,
        r.workspace_id@ == workspace_id@,
        match task_id {
            Some(t) => r.task_id matches Some(s) && s@ == t@,
            None => r.task_id is None,
        },
{
    CreateLabelBody {
        name: owned(name),
        color: owned(color),
        workspace_id: owned(workspace_id),
        task_id: match task_id {
            Some(t) => Some(owned(t)),
            None => None,
        },
    }
}

/// `label` is itself the copy attached to the task `task_id`.
pub open spec fn attached_to(label: KaneoLabel, task_id: Seq<char>) -> bool {
    label.task_id matches Some(t) && t@ == task_id
}

/// Whether `label` is the copy attached to task `task_id`.
pub fn label_attached_to(label: &KaneoLabel, task_id: &str) -> (r: bool)
    ensures
        r == attached_to(*label, task_id@),
{
    match &label.task_id {
        Some(t) => str_eq(t.as_str(), task_id),
        None => false,
    }
}

/// `b` creates a copy of `label` in workspace `w`, attached to `task_id`.
pub open spec fn copy_body(b: CreateLabelBody, label: KaneoLabel, w: String, task_id: Seq<char>) -> bool {
    &&& b.name == label.name
    &&& b.color == label.color
    &&& b.workspace_id == w
    &&& b.task_id matches Some(t) && t@ == task_id
}

/// What attaching a workspace label to a task sends, once the label is not
/// the task's own copy: nothing when the task already carries a label of that
/// name, else a copy of the label attached to the task, created in the
/// label's workspace; an error when the label has no workspace.
pub fn label_copy_for_task(label: &KaneoLabel, label_id: &str, task: &KaneoTask, task_id: &str) -> (r: Result<
    Option<CreateLabelBody>,
    KaneoError,
>)
    ensures
        label_ids_named(task.labels@, label.name@).len() > 0 ==> r == Ok::<Option<CreateLabelBody>, KaneoError>(None),
        label_ids_named(task.labels@, label.name@).len() == 0 ==> match label.workspace_id {
            Some(w) => r matches Ok(Some(b)) && copy_body(b, *label, w, task_id@),
            None => r matches Err(KaneoError::Api(m)) && m@ == "label "@ + label_id@ + " has no workspace"@,
        },
{
    let copies = task_label_ids_by_name(task, label.name.as_str());
    if copies.len() > 0 {
        return Ok(None);
    }
    match &label.workspace_id {
        Some(w) => Ok(
            Some(
                CreateLabelBody {
                    name: label.name.clone(),
                    color: label.color.clone(),
                    workspace_id: w.clone(),
                    task_id: Some(owned(task_id)),
                },
            ),
        ),
        None => {
            let mut out: Vec<char> = Vec::new();
            push_str(&mut out, "label ");
            push_str(&mut out, label_id);
            push_str(&mut out, " has no workspace");
            Err(KaneoError::Api(string_of(&out)))
        },
    }
}

/// Relation `r` makes one of the two tasks block the other.
pub open spec fn blocks_between(r: KaneoTaskRelation, a: Seq<char>, b: Seq<char>) -> bool {
    &&& r.relation_type@ == "blocks"@
    &&& ((r.source_task_id@ == a && r.target_task_id@ == b) || (r.source_task_id@ == b
        && r.target_task_id@ == a))
}

/// Whether one of the relations already makes `source` block `target` or
/// `target` block `source`.
pub fn has_blocking_relation(relations: &Vec<KaneoTaskRelation>, source: &str, target: &str) -> (r: bool)
    ensures
        r == exists|i: int| 0 <= i < relations@.len() && blocks_between(#[trigger] relations@[i], source@, target@),
{
    let mut i: usize = 0;
    while i < relations.len()
        invariant
            i <= relations@.len(),
            forall|j: int| 0 <= j < i ==> !blocks_between(#[trigger] relations@[j], source@, target@),
        decreases relations.len() - i,
    {
        let rel = &relations[i];
        let s = rel.source_task_id.as_str();
        let t = rel.target_task_id.as_str();
        if str_eq(rel.relation_type.as_str(), "blocks") && ((str_eq(s, source) && str_eq(t, target)) || (
        str_eq(s, target) && str_eq(t, source))) {
            assert(blocks_between(relations@[i as int], source@, target@));
            return true;
        }
        i += 1;
    }
    false
}

/// Some relation blocks between `a` and `b`, in either direction.
pub open spec fn blocked(relations: Seq<KaneoTaskRelation>, a: Seq<char>, b: Seq<char>) -> bool {
    exists|i: int| 0 <= i < relations.len() && blocks_between(#[trigger] relations[i], a, b)
}

/// The blocking relation to record so that `source` blocks `target`: none
/// when one already links them in either direction.
pub fn blocking_relation_to_create(relations: &Vec<KaneoTaskRelation>, source: &str, target: &str) -> (r: Option<
    KaneoTaskRelation,
>)
    ensures
        blocked(relations@, source@, target@) ==> r is None,
        !blocked(relations@, source@, target@) ==> (r matches Some(rel) && rel.source_task_id@ == source@
            && rel.target_task_id@ == target@ && rel.relation_type@ == "blocks"@),
{
    if has_blocking_relation(relations, source, target) {
        None
    } else {
        Some(
            KaneoTaskRelation {
                source_task_id: owned(source),
                target_task_id: owned(target),
                relation_type: owned("blocks"),
            },
        )
    }
}

/// Law: once the relation created for `source` blocking `target` is
/// recorded, the two are blocked, so asking again creates nothing.
pub proof fn lemma_blocks_idempotent(
    relations: Seq<KaneoTaskRelation>,
    created: KaneoTaskRelation,
    source: Seq<char>,
    target: Seq<char>,
)
    requires
        created.source_task_id@ == source,
        created.target_task_id@ == target,
        created.relation_type@ == "blocks"@,
    ensures
        blocked(relations.push(created), source, target),
{
    assert(blocks_between(relations.push(created)[relations.len() as int], source, target));
}

} // verus!
