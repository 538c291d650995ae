//! Keeping the process list view in step with a new snapshot: the cell
//! edits, row additions and row deletions that turn the rows on screen into
//! the rows of the snapshot, and finding the selected process again.

use vstd::prelude::*;
use crate::process::{ProcessItem, ProcessView, process_views};
use crate::text::{chars_of, decimal_string, decimal_text, parse_u32_decimal, u32_from_decimal};

verus! {

/// The texts of one list view row: the process name and the process id.
#[derive(Debug, Clone, PartialEq, Eq)]
pub struct ListViewRow {
    pub name: String,
    pub pid_text: String,
}

/// A row as plain values.
pub type RowView = (Seq<char>, Seq<char>);

impl View for ListViewRow {
    type V = RowView;

    open spec fn view(&self) -> RowView {
        (self.name@, self.pid_text@)
    }
}

/// The views of a list of rows.
pub open spec fn rows_view(rows: Seq<ListViewRow>) -> Seq<RowView> {
    rows.map_values(|r: ListViewRow| r@)
}

/// The row that shows a process: its name and its decimal id.
pub open spec fn process_row(p: ProcessView) -> RowView {
    (p.1, decimal_text(p.0 as nat))
}

/// The rows that show a list of processes, in order.
pub open spec fn target_rows(processes: Seq<ProcessView>) -> Seq<RowView> {
    processes.map_values(|p: ProcessView| process_row(p))
}

/// One change to the list view.
#[derive(Debug, Clone, PartialEq, Eq)]
pub enum ListViewEdit {
    /// Set the name cell of a row.
    SetName { row: usize, text: String },
    /// Set the process id cell of a row.
    SetPidText { row: usize, text: String },
    /// Append a row.
    AddRow { name: String, pid_text: String },
    /// Delete a row.
    DeleteRow { row: usize },
}

/// [`ListViewEdit`] as plain values.
pub enum EditView {
    SetName(int, Seq<char>),
    SetPidText(int, Seq<char>),
    AddRow(Seq<char>, Seq<char>),
    DeleteRow(int),
}

impl View for ListViewEdit {
    type V = EditView;

    open spec fn view(&self) -> EditView {
        match self {
            ListViewEdit::SetName { row, text } => EditView::SetName(*row as int, text@),
            ListViewEdit::SetPidText { row, text } => EditView::SetPidText(*row as int, text@),
            ListViewEdit::AddRow { name, pid_text } => EditView::AddRow(name@, pid_text@),
            ListViewEdit::DeleteRow { row } => EditView::DeleteRow(*row as int),
        }
    }
}

/// The views of a list of edits.
pub open spec fn edits_view(edits: Seq<ListViewEdit>) -> Seq<EditView> {
    edits.map_values(|e: ListViewEdit| e@)
}

/// The effect of one edit on the rows.
pub open spec fn apply_edit(rows: Seq<RowView>, edit: EditView) -> Seq<RowView> {
    match edit {
        EditView::SetName(i, text) => if 0 <= i < rows.len() {
            rows.update(i, (text, rows[i].1))
        } else {
            rows
        },
        EditView::SetPidText(i, text) => if 0 <= i < rows.len() {
            rows.update(i, (rows[i].0, text))
        } else {
            rows
        },
        EditView::AddRow(name, pid_text) => rows.push((name, pid_text)),
        EditView::DeleteRow(i) => if 0 <= i < rows.len() {
            rows.remove(i)
        } else {
            rows
        },
    }
}

/// The effect of a list of edits, applied in order.
pub open spec fn apply_edits(rows: Seq<RowView>, edits: Seq<EditView>) -> Seq<RowView>
    decreases edits.len(),
{
    if edits.len() == 0 {
        rows
    } else {
        apply_edit(apply_edits(rows, edits.drop_last()), edits.last())
    }
}

/// The edits that bring row `i` from `current` to `target`: each cell that
/// differs is set.
pub open spec fn row_edits(current: RowView, target: RowView, i: int) -> Seq<EditView> {
    (if current.0 != target.0 {
        seq![EditView::SetName(i, target.0)]
    } else {
        Seq::empty()
    }) + (if current.1 != target.1 {
        seq![EditView::SetPidText(i, target.1)]
    } else {
        Seq::empty()
    })
}

/// The cell edits for the first `n` rows, in row order.
pub open spec fn update_edits(current: Seq<RowView>, target: Seq<RowView>, n: nat) -> Seq<EditView>
    decreases n,
{
    if n == 0 {
        Seq::empty()
    } else {
        update_edits(current, target, (n - 1) as nat) + row_edits(current[n - 1], target[n - 1], n - 1)
    }
}

/// The rows to append when the target has more rows.
pub open spec fn add_edits(current: Seq<RowView>, target: Seq<RowView>) -> Seq<EditView> {
    if target.len() > current.len() {
        Seq::new(
            (target.len() - current.len()) as nat,
            |k: int| EditView::AddRow(target[current.len() + k].0, target[current.len() + k].1),
        )
    } else {
        Seq::empty()
    }
}

/// The rows to delete, last first, when the target has fewer rows.
pub open spec fn delete_edits(current_len: nat, target_len: nat) -> Seq<EditView> {
    if current_len > target_len {
        Seq::new((current_len - target_len) as nat, |k: int| EditView::DeleteRow(current_len - 1 - k))
    } else {
        Seq::empty()
    }
}

/// The whole plan: cell edits on the rows both have, then appended rows,
/// then deleted rows from the end.
pub open spec fn sync_edits(current: Seq<RowView>, target: Seq<RowView>) -> Seq<EditView> {
    let shared = if current.len() < target.len() { current.len() } else { target.len() };
    update_edits(current, target, shared) + add_edits(current, target) + delete_edits(current.len(), target.len())
}

fn push_row_edits(
    edits: &mut Vec<ListViewEdit>,
    current: &ListViewRow,
    name: &String,
    pid_text: &String,
    i: usize,
)
    ensures
        edits_view(final(edits)@) == edits_view(old(edits)@) + row_edits(current@, (name@, pid_text@), i as int),
{
    let ghost before = edits_view(edits@);
    if current.name != *name {
        edits.push(ListViewEdit::SetName { row: i, text: name.clone() });
    }
    let ghost middle = edits_view(edits@);
    assert(middle =~= before + (if current.name@ != name@ {
        seq![EditView::SetName(i as int, name@)]
    } else {
        Seq::empty()
    }));
    if current.pid_text != *pid_text {
        edits.push(ListViewEdit::SetPidText { row: i, text: pid_text.clone() });
    }
    assert(edits_view(edits@) =~= before + row_edits(current@, (name@, pid_text@), i as int));
}

/// Plans the edits that turn the `current` rows of the list view into the
/// rows of `processes`: rows both have are updated in place where a cell
/// differs, extra processes are appended, and extra rows are deleted from
/// the end.
pub fn plan_listview_sync(current: &Vec<ListViewRow>, processes: &Vec<ProcessItem>) -> (edits: Vec<ListViewEdit>)
    ensures
        edits_view(edits@) == sync_edits(rows_view(current@), target_rows(process_views(processes@))),
{
    let ghost cur = rows_view(current@);
    let ghost tgt = target_rows(process_views(processes@));
    let shared = if current.len() < processes.len() { current.len() } else { processes.len() };
    let mut edits: Vec<ListViewEdit> = Vec::new();
    let mut i: usize = 0;
    while i < shared
        invariant
            i <= shared,
            shared <= current.len(),
            shared <= processes.len(),
            cur == rows_view(current@),
            tgt == target_rows(process_views(processes@)),
            edits_view(edits@) == update_edits(cur, tgt, i as nat),
        decreases shared - i,
    {
        let process = &processes[i];
        let pid_text = decimal_string(process.process_id);
        assert(tgt[i as int] == (process.process_name@, pid_text@));
        assert(cur[i as int] == current@[i as int]@);
        push_row_edits(&mut edits, &current[i], &process.process_name, &pid_text, i);
        i = i + 1;
    }
    let ghost after_updates = edits_view(edits@);
    let mut k: usize = current.len();
    while k < processes.len()
        invariant
            current.len() <= k <= processes.len() || processes.len() < current.len() && k == current.len(),
            cur == rows_view(current@),
            tgt == target_rows(process_views(processes@)),
            edits_view(edits@) == after_updates + add_edits(cur, tgt).take(k - current.len()),
        decreases processes.len() - k,
    {
        let process = &processes[k];
        let pid_text = decimal_string(process.process_id);
        let ghost before = edits_view(edits@);
        edits.push(ListViewEdit::AddRow { name: process.process_name.clone(), pid_text });
        assert(add_edits(cur, tgt).take(k + 1 - current.len()) =~= add_edits(cur, tgt).take(
            k - current.len(),
        ).push(EditView::AddRow(tgt[k as int].0, tgt[k as int].1)));
        assert(edits_view(edits@) =~= before.push(EditView::AddRow(tgt[k as int].0, tgt[k as int].1)));
        k = k + 1;
    }
    proof {
        if processes.len() > current.len() {
            assert(add_edits(cur, tgt).take(processes.len() - current.len()) =~= add_edits(cur, tgt));
        } else {
            assert(add_edits(cur, tgt).take(0) =~= add_edits(cur, tgt));
        }
    }
    let ghost after_adds = edits_view(edits@);
    let mut row: usize = current.len();
    while row > processes.len()
        invariant
            processes.len() <= row <= current.len() || current.len() < processes.len() && row == current.len(),
            cur == rows_view(current@),
            tgt == target_rows(process_views(processes@)),
            edits_view(edits@) == after_adds + delete_edits(cur.len(), tgt.len()).take(current.len() - row),
        decreases row,
    {
        let ghost before = edits_view(edits@);
        edits.push(ListViewEdit::DeleteRow { row: row - 1 });
        assert(delete_edits(cur.len(), tgt.len()).take(current.len() - row + 1) =~= delete_edits(
            cur.len(),
            tgt.len(),
        ).take(current.len() - row).push(EditView::DeleteRow(row - 1)));
        assert(edits_view(edits@) =~= before.push(EditView::DeleteRow(row - 1)));
        row = row - 1;
    }
    proof {
        if current.len() > processes.len() {
            assert(delete_edits(cur.len(), tgt.len()).take(current.len() - processes.len()) =~= delete_edits(
                cur.len(),
                tgt.len(),
            ));
        } else {
            assert(delete_edits(cur.len(), tgt.len()).take(0) =~= delete_edits(cur.len(), tgt.len()));
        }
    }
    edits
}

proof fn lemma_apply_concat(rows: Seq<RowView>, a: Seq<EditView>, b: Seq<EditView>)
    ensures
        apply_edits(rows, a + b) == apply_edits(apply_edits(rows, a), b),
    decreases b.len(),
{
    if b.len() == 0 {
        assert(a + b =~= a);
    } else {
        assert((a + b).drop_last() =~= a + b.drop_last());
        assert((a + b).last() == b.last());
        lemma_apply_concat(rows, a, b.drop_last());
    }
}

proof fn lemma_apply_single(rows: Seq<RowView>, e: EditView)
    ensures
        apply_edits(rows, seq![e]) == apply_edit(rows, e),
{
    assert(seq![e].drop_last() =~= Seq::<EditView>::empty());
    assert(apply_edits(rows, Seq::<EditView>::empty()) == rows);
    assert(seq![e].last() == e);
}

proof fn lemma_apply_row_edits(rows: Seq<RowView>, current: RowView, target: RowView, i: int)
    requires
        0 <= i < rows.len(),
        rows[i] == current,
    ensures
        apply_edits(rows, row_edits(current, target, i)) == rows.update(i, target),
{
    let first: Seq<EditView> = if current.0 != target.0 {
        seq![EditView::SetName(i, target.0)]
    } else {
        Seq::empty()
    };
    let second: Seq<EditView> = if current.1 != target.1 {
        seq![EditView::SetPidText(i, target.1)]
    } else {
        Seq::empty()
    };
    lemma_apply_concat(rows, first, second);
    let middle = apply_edits(rows, first);
    if current.0 != target.0 {
        lemma_apply_single(rows, EditView::SetName(i, target.0));
    }
    assert(middle =~= rows.update(i, (target.0, current.1)));
    if current.1 != target.1 {
        lemma_apply_single(middle, EditView::SetPidText(i, target.1));
    }
    assert(apply_edits(middle, second) =~= rows.update(i, target));
}

proof fn lemma_apply_updates(current: Seq<RowView>, target: Seq<RowView>, n: nat)
    requires
        n <= current.len(),
        n <= target.len(),
    ensures
        apply_edits(current, update_edits(current, target, n)).len() == current.len(),
        forall|j: int| 0 <= j < n ==> #[trigger] apply_edits(current, update_edits(current, target, n))[j]
            == target[j],
        forall|j: int| n <= j < current.len() ==> #[trigger] apply_edits(current, update_edits(current, target, n))[j]
            == current[j],
    decreases n,
{
    if n > 0 {
        let m = (n - 1) as nat;
        lemma_apply_updates(current, target, m);
        let before = apply_edits(current, update_edits(current, target, m));
        lemma_apply_concat(current, update_edits(current, target, m), row_edits(current[m as int], target[m as int], m as int));
        lemma_apply_row_edits(before, current[m as int], target[m as int], m as int);
    } else {
        assert(update_edits(current, target, 0) =~= Seq::<EditView>::empty());
    }
}

proof fn lemma_apply_adds(start: Seq<RowView>, current_len: nat, target: Seq<RowView>, k: nat)
    requires
        current_len < target.len(),
        k <= target.len() - current_len,
        start == target.take(current_len as int),
    ensures
        apply_edits(
            start,
            Seq::new(
                (target.len() - current_len) as nat,
                |i: int| EditView::AddRow(target[current_len + i].0, target[current_len + i].1),
            ).take(k as int),
        ) == target.take((current_len + k) as int),
    decreases k,
{
    let adds = Seq::new(
        (target.len() - current_len) as nat,
        |i: int| EditView::AddRow(target[current_len + i].0, target[current_len + i].1),
    );
    if k > 0 {
        lemma_apply_adds(start, current_len, target, (k - 1) as nat);
        assert(adds.take(k as int).drop_last() =~= adds.take(k - 1));
        assert(target.take((current_len + k) as int) =~= target.take(current_len + k - 1).push(target[current_len + k - 1]));
    } else {
        assert(adds.take(0) =~= Seq::<EditView>::empty());
    }
}

proof fn lemma_apply_deletes(start: Seq<RowView>, target_len: nat, k: nat)
    requires
        start.len() > target_len,
        k <= start.len() - target_len,
    ensures
        apply_edits(start, delete_edits(start.len(), target_len).take(k as int)) == start.take(start.len() - k),
    decreases k,
{
    let deletes = delete_edits(start.len(), target_len);
    if k > 0 {
        lemma_apply_deletes(start, target_len, (k - 1) as nat);
        assert(deletes.take(k as int).drop_last() =~= deletes.take(k - 1));
        assert(start.take(start.len() - k + 1).remove(start.len() - k) =~= start.take(start.len() - k));
    } else {
        assert(deletes.take(0) =~= Seq::<EditView>::empty());
        assert(start.take(start.len() as int) =~= start);
    }
}

/// Applying the planned edits to the rows on screen gives exactly the rows
/// of the new snapshot, whatever the rows were.
pub proof fn lemma_sync_reaches_target(current: Seq<RowView>, target: Seq<RowView>)
    ensures
        apply_edits(current, sync_edits(current, target)) == target,
{
    let shared = if current.len() < target.len() { current.len() } else { target.len() };
    let updates = update_edits(current, target, shared);
    let adds = add_edits(current, target);
    let deletes = delete_edits(current.len(), target.len());
    lemma_apply_concat(current, updates + adds, deletes);
    lemma_apply_concat(current, updates, adds);
    lemma_apply_updates(current, target, shared);
    let r1 = apply_edits(current, updates);
    if current.len() < target.len() {
        assert(r1 =~= target.take(current.len() as int));
        lemma_apply_adds(r1, current.len(), target, (target.len() - current.len()) as nat);
        assert(adds.take(adds.len() as int) =~= adds);
        assert(target.take(target.len() as int) =~= target);
        assert(deletes =~= Seq::<EditView>::empty());
    } else if current.len() > target.len() {
        assert(adds =~= Seq::<EditView>::empty());
        assert(apply_edits(r1, adds) == r1);
        lemma_apply_deletes(r1, target.len(), (current.len() - target.len()) as nat);
        assert(deletes.take(deletes.len() as int) =~= deletes);
        assert(r1.take(target.len() as int) =~= target);
    } else {
        assert(adds =~= Seq::<EditView>::empty());
        assert(deletes =~= Seq::<EditView>::empty());
        assert(r1 =~= target);
    }
}

// ---------------------------------------------------------------------------
// Selection
// ---------------------------------------------------------------------------

/// Finds the row of the process that was selected before a refresh.
pub fn find_process_row(processes: &Vec<ProcessItem>, process_id: u32) -> (result: Option<usize>)
    ensures
        match result {
            Some(i) => i < processes.len() && processes@[i as int].process_id == process_id
                && forall|j: int| 0 <= j < i ==> processes@[j].process_id != process_id,
            None => forall|j: int| 0 <= j < processes.len() ==> processes@[j].process_id != process_id,
        },
{
    let mut i: usize = 0;
    while i < processes.len()
        invariant
            i <= processes.len(),
            forall|j: int| 0 <= j < i ==> processes@[j].process_id != process_id,
        decreases processes.len() - i,
    {
        if processes[i].process_id == process_id {
            return Some(i);
        }
        i = i + 1;
    }
    None
}

/// The process id shown in a row's id cell, as `str::parse::<u32>` reads it.
pub fn selected_process_id(pid_text: &str) -> (result: Option<u32>)
    ensures
        result == u32_from_decimal(pid_text@),
{
    let chars = chars_of(pid_text);
    parse_u32_decimal(&chars)
}

} // verus!
