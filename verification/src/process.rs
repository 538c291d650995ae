//! The process list: the sort configuration that column clicks toggle, the
//! search filter, and the filtered, sorted snapshot of running processes.

use vstd::prelude::*;
use vstd::multiset::Multiset;
use crate::text::{
    chars_equal, chars_of, contains_chars, decimal_chars, decimal_text, has_infix, lemma_text_less_irreflexive,
    lemma_text_less_lexicographic, lemma_text_less_total, lemma_text_less_transitive,
    lexicographically_before, string_from_chars, text_less, text_less_exec,
    to_lowercase, trim_white_space, trimmed, unicode_lowercase,
};

verus! {

// ---------------------------------------------------------------------------
// Sort configuration
// ---------------------------------------------------------------------------

/// The column by which the process list can be sorted.
#[derive(Debug, Clone, Copy, PartialEq, Eq, Structural)]
pub enum SortColumn {
    /// Sort processes by their executable name.
    ProcessName,
    /// Sort processes by their process identifier (PID).
    ProcessId,
}

impl SortColumn {
    /// The column at a list view column index, if any.
    pub open spec fn spec_from_index(column_index: int) -> Option<SortColumn> {
        if column_index == 0 {
            Some(SortColumn::ProcessName)
        } else if column_index == 1 {
            Some(SortColumn::ProcessId)
        } else {
            None
        }
    }

    /// The list view column index of this column.
    pub open spec fn index(self) -> int {
        match self {
            SortColumn::ProcessName => 0,
            SortColumn::ProcessId => 1,
        }
    }

    /// Converts a zero-based column index from a list view header click into
    /// a [`SortColumn`]; `None` when the index is out of bounds.
    pub fn from_column_index(column_index: usize) -> (result: Option<Self>)
        ensures
            result == Self::spec_from_index(column_index as int),
    {
        match column_index {
            0 => Some(SortColumn::ProcessName),
            1 => Some(SortColumn::ProcessId),
            _ => None,
        }
    }

    /// Returns the zero-based column index of this column.
    pub fn to_column_index(&self) -> (result: usize)
        ensures
            result as int == self.index(),
    {
        match self {
            SortColumn::ProcessName => 0,
            SortColumn::ProcessId => 1,
        }
    }
}

/// Each column is found again at its own index.
pub proof fn lemma_column_index_round_trip(column: SortColumn)
    ensures
        SortColumn::spec_from_index(column.index()) == Some(column),
{
}

/// The direction of the sort order.
#[derive(Debug, Clone, Copy, PartialEq, Eq, Structural)]
pub enum SortDirection {
    /// Ascending order (A to Z, or smaller PID to larger PID).
    Ascending,
    /// Descending order (Z to A, or larger PID to smaller PID).
    Descending,
}

impl SortDirection {
    /// The opposite direction.
    pub open spec fn opposite(self) -> SortDirection {
        match self {
            SortDirection::Ascending => SortDirection::Descending,
            SortDirection::Descending => SortDirection::Ascending,
        }
    }

    /// Returns the opposite sort direction.
    pub fn inverted(&self) -> (result: Self)
        ensures
            result == self.opposite(),
    {
        match self {
            SortDirection::Ascending => SortDirection::Descending,
            SortDirection::Descending => SortDirection::Ascending,
        }
    }
}

/// The active sort configuration of the process list.
#[derive(Debug, Clone, Copy, PartialEq, Eq, Structural)]
pub struct ProcessSortConfig {
    pub column: SortColumn,
    pub direction: SortDirection,
}

/// Sorting by name, ascending.
pub open spec fn default_sort_config() -> ProcessSortConfig {
    ProcessSortConfig { column: SortColumn::ProcessName, direction: SortDirection::Ascending }
}

/// The configuration after a click on the header of `clicked`: the same
/// column flips its direction, another column becomes active, ascending.
pub open spec fn toggled(config: ProcessSortConfig, clicked: SortColumn) -> ProcessSortConfig {
    if config.column == clicked {
        ProcessSortConfig { column: config.column, direction: config.direction.opposite() }
    } else {
        ProcessSortConfig { column: clicked, direction: SortDirection::Ascending }
    }
}

impl Default for ProcessSortConfig {
    fn default() -> (result: Self)
        ensures
            result == default_sort_config(),
    {
        ProcessSortConfig { column: SortColumn::ProcessName, direction: SortDirection::Ascending }
    }
}

impl ProcessSortConfig {
    /// Switches or toggles the sort order when a column header is clicked.
    pub fn toggle_column(&mut self, clicked_column: SortColumn)
        ensures
            *final(self) == toggled(*old(self), clicked_column),
    {
        if self.column == clicked_column {
            self.direction = self.direction.inverted();
        } else {
            self.column = clicked_column;
            self.direction = SortDirection::Ascending;
        }
    }
}

/// Inverting a direction twice gives it back.
pub proof fn lemma_inverted_involution(direction: SortDirection)
    ensures
        direction.opposite().opposite() == direction,
{
}

/// Clicking the active column twice restores the configuration; clicking
/// another column sorts by it ascending.
pub proof fn lemma_toggle_laws(config: ProcessSortConfig, clicked: SortColumn)
    ensures
        config.column == clicked ==> toggled(toggled(config, clicked), clicked) == config,
        config.column != clicked ==> toggled(config, clicked) == (ProcessSortConfig {
            column: clicked,
            direction: SortDirection::Ascending,
        }),
        toggled(config, clicked).column == clicked,
{
}

// ---------------------------------------------------------------------------
// Process items and their order
// ---------------------------------------------------------------------------

/// The arrow a column header shows.
#[derive(Debug, Clone, Copy, PartialEq, Eq, Structural)]
pub enum SortArrow {
    /// No arrow: the list is not sorted by this column.
    NoArrow,
    /// An arrow pointing up: sorted by this column in ascending order.
    Up,
    /// An arrow pointing down: sorted by this column in descending order.
    Down,
}

/// The arrow of `column`'s header under `config`.
pub open spec fn header_arrow_of(config: ProcessSortConfig, column: SortColumn) -> SortArrow {
    if config.column != column {
        SortArrow::NoArrow
    } else if config.direction == SortDirection::Ascending {
        SortArrow::Up
    } else {
        SortArrow::Down
    }
}

/// Chooses the arrow that `column`'s header shows: only the sorted column
/// has one, pointing the way of the sort.
pub fn header_arrow(config: ProcessSortConfig, column: SortColumn) -> (result: SortArrow)
    ensures
        result == header_arrow_of(config, column),
{
    if config.column != column {
        SortArrow::NoArrow
    } else {
        match config.direction {
            SortDirection::Ascending => SortArrow::Up,
            SortDirection::Descending => SortArrow::Down,
        }
    }
}

/// A snapshot of a single running process.
#[derive(Debug, Clone, PartialEq, Eq)]
pub struct ProcessItem {
    pub process_id: u32,
    pub process_name: String,
}

/// A process as plain values: its id and its name.
pub type ProcessView = (u32, Seq<char>);

impl View for ProcessItem {
    type V = ProcessView;

    open spec fn view(&self) -> ProcessView {
        (self.process_id, self.process_name@)
    }
}

/// The views of a list of processes.
pub open spec fn process_views(items: Seq<ProcessItem>) -> Seq<ProcessView> {
    items.map_values(|p: ProcessItem| p@)
}

/// Whether `a` comes before `b` by the key of `column`: by case-folded name,
/// then by id; or by id alone.
pub open spec fn key_less(column: SortColumn, a: ProcessView, b: ProcessView) -> bool {
    match column {
        SortColumn::ProcessName => {
            let la = unicode_lowercase(a.1);
            let lb = unicode_lowercase(b.1);
            text_less(la, lb) || (la == lb && a.0 < b.0)
        },
        SortColumn::ProcessId => a.0 < b.0,
    }
}

/// Whether `a` must come before `b` in a list sorted by `config`.
pub open spec fn sorts_before(config: ProcessSortConfig, a: ProcessView, b: ProcessView) -> bool {
    match config.direction {
        SortDirection::Ascending => key_less(config.column, a, b),
        SortDirection::Descending => key_less(config.column, b, a),
    }
}

/// Whether `s` is sorted by `config`: no element must come before an
/// earlier one.
pub open spec fn sorted_by(config: ProcessSortConfig, s: Seq<ProcessView>) -> bool {
    forall|i: int, j: int| 0 <= i < j < s.len() ==> !sorts_before(config, #[trigger] s[j], #[trigger] s[i])
}

proof fn lemma_key_less_order(column: SortColumn, a: ProcessView, b: ProcessView, c: ProcessView)
    ensures
        key_less(column, a, b) ==> !key_less(column, b, a),
        key_less(column, a, b) && key_less(column, b, c) ==> key_less(column, a, c),
        key_less(column, a, c) ==> key_less(column, a, b) || key_less(column, b, c),
{
    let la = unicode_lowercase(a.1);
    let lb = unicode_lowercase(b.1);
    let lc = unicode_lowercase(c.1);
    lemma_text_less_total(la, lb);
    lemma_text_less_total(lb, lc);
    lemma_text_less_total(la, lc);
    lemma_text_less_irreflexive(la);
    lemma_text_less_irreflexive(lb);
    if text_less(la, lb) && text_less(lb, lc) {
        lemma_text_less_transitive(la, lb, lc);
    }
    if text_less(lb, la) && text_less(la, lc) {
        lemma_text_less_transitive(lb, la, lc);
    }
    if text_less(la, lc) && text_less(lc, lb) {
        lemma_text_less_transitive(la, lc, lb);
    }
}

/// `sorts_before` is a strict weak order: asymmetric, transitive, and any
/// third element falls on one side of an ordered pair.
pub proof fn lemma_sorts_before_order(config: ProcessSortConfig, a: ProcessView, b: ProcessView, c: ProcessView)
    ensures
        sorts_before(config, a, b) ==> !sorts_before(config, b, a),
        sorts_before(config, a, b) && sorts_before(config, b, c) ==> sorts_before(config, a, c),
        sorts_before(config, a, c) ==> sorts_before(config, a, b) || sorts_before(config, b, c),
{
    lemma_key_less_order(config.column, a, b, c);
    lemma_key_less_order(config.column, c, b, a);
    lemma_key_less_order(config.column, b, a, c);
    lemma_key_less_order(config.column, c, a, b);
    lemma_key_less_order(config.column, a, c, b);
    lemma_key_less_order(config.column, b, c, a);
}

/// Whether neither of `a` and `b` must come before the other under `config`.
pub open spec fn same_rank(config: ProcessSortConfig, a: ProcessView, b: ProcessView) -> bool {
    !sorts_before(config, a, b) && !sorts_before(config, b, a)
}

/// The elements of `s` that rank the same as `v`, in their order in `s`.
pub open spec fn rank_class(config: ProcessSortConfig, s: Seq<ProcessView>, v: ProcessView) -> Seq<ProcessView> {
    s.filter(|w: ProcessView| same_rank(config, w, v))
}

/// Ranking the same is transitive.
proof fn lemma_same_rank_transitive(config: ProcessSortConfig, a: ProcessView, b: ProcessView, c: ProcessView)
    requires
        same_rank(config, a, b),
        same_rank(config, b, c),
    ensures
        same_rank(config, a, c),
{
    lemma_sorts_before_order(config, a, b, c);
    lemma_sorts_before_order(config, c, b, a);
}

/// A list sorted by name holds processes in the lexicographic order of their
/// lowercase names, the first differing character deciding (ascending or
/// descending as configured), and processes whose lowercase names are equal
/// in the order of their ids.
pub proof fn lemma_sorted_by_name(direction: SortDirection, s: Seq<ProcessView>, i: int, j: int)
    requires
        sorted_by(ProcessSortConfig { column: SortColumn::ProcessName, direction }, s),
        0 <= i < j < s.len(),
    ensures
        ({
            let li = unicode_lowercase(s[i].1);
            let lj = unicode_lowercase(s[j].1);
            &&& li == lj && direction == SortDirection::Ascending ==> s[i].0 <= s[j].0
            &&& li == lj && direction == SortDirection::Descending ==> s[i].0 >= s[j].0
            &&& li != lj && direction == SortDirection::Ascending ==> lexicographically_before(li, lj)
            &&& li != lj && direction == SortDirection::Descending ==> lexicographically_before(lj, li)
        }),
{
    let li = unicode_lowercase(s[i].1);
    let lj = unicode_lowercase(s[j].1);
    lemma_text_less_total(li, lj);
    lemma_text_less_lexicographic(li, lj);
    lemma_text_less_lexicographic(lj, li);
}

/// A list sorted by id holds ids in ascending or descending order as
/// configured.
pub proof fn lemma_sorted_by_id(direction: SortDirection, s: Seq<ProcessView>, i: int, j: int)
    requires
        sorted_by(ProcessSortConfig { column: SortColumn::ProcessId, direction }, s),
        0 <= i < j < s.len(),
    ensures
        direction == SortDirection::Ascending ==> s[i].0 <= s[j].0,
        direction == SortDirection::Descending ==> s[i].0 >= s[j].0,
{
}

// ---------------------------------------------------------------------------
// Filtering
// ---------------------------------------------------------------------------

/// Whether a process is shown under the (trimmed, lowercase) search filter:
/// an empty filter shows everything; otherwise the filter must occur in the
/// case-folded name or in the decimal id.
pub open spec fn matches_filter(filter: Seq<char>, item: ProcessView) -> bool {
    filter.len() == 0 || has_infix(unicode_lowercase(item.1), filter) || has_infix(
        decimal_text(item.0 as nat),
        filter,
    )
}

/// A process together with its case-folded name.
struct KeyedItem {
    item: ProcessItem,
    folded_name: Vec<char>,
}

impl KeyedItem {
    spec fn well_formed(&self) -> bool {
        self.folded_name@ == unicode_lowercase(self.item.process_name@)
    }
}

spec fn keyed_views(s: Seq<KeyedItem>) -> Seq<ProcessView> {
    s.map_values(|k: KeyedItem| k.item@)
}

spec fn all_well_formed(s: Seq<KeyedItem>) -> bool {
    forall|i: int| 0 <= i < s.len() ==> (#[trigger] s[i]).well_formed()
}

fn key_less_exec(column: SortColumn, a: &KeyedItem, b: &KeyedItem) -> (result: bool)
    requires
        a.well_formed(),
        b.well_formed(),
    ensures
        result == key_less(column, a.item@, b.item@),
{
    match column {
        SortColumn::ProcessName => {
            text_less_exec(&a.folded_name, &b.folded_name) || (chars_equal(&a.folded_name, &b.folded_name)
                && a.item.process_id < b.item.process_id)
        },
        SortColumn::ProcessId => a.item.process_id < b.item.process_id,
    }
}

fn sorts_before_exec(config: ProcessSortConfig, a: &KeyedItem, b: &KeyedItem) -> (result: bool)
    requires
        a.well_formed(),
        b.well_formed(),
    ensures
        result == sorts_before(config, a.item@, b.item@),
{
    match config.direction {
        SortDirection::Ascending => key_less_exec(config.column, a, b),
        SortDirection::Descending => key_less_exec(config.column, b, a),
    }
}

/// Inserts `x` into the sorted list `out`, after every element that it does
/// not come before.
fn insert_sorted(out: &mut Vec<KeyedItem>, x: KeyedItem, config: ProcessSortConfig)
    requires
        all_well_formed(old(out)@),
        x.well_formed(),
        sorted_by(config, keyed_views(old(out)@)),
    ensures
        all_well_formed(final(out)@),
        sorted_by(config, keyed_views(final(out)@)),
        keyed_views(final(out)@).to_multiset() == keyed_views(old(out)@).to_multiset().insert(x.item@),
        forall|v: ProcessView|
            #[trigger] rank_class(config, keyed_views(final(out)@), v) == if same_rank(config, x.item@, v) {
                rank_class(config, keyed_views(old(out)@), v).push(x.item@)
            } else {
                rank_class(config, keyed_views(old(out)@), v)
            },
{
    let ghost before = keyed_views(out@);
    let mut p: usize = out.len();
    while p > 0 && sorts_before_exec(config, &x, &out[p - 1])
        invariant
            p <= out.len(),
            out@ == old(out)@,
            all_well_formed(out@),
            x.well_formed(),
            before == keyed_views(out@),
            forall|k: int| p <= k < out.len() ==> sorts_before(config, x.item@, #[trigger] before[k]),
        decreases p,
    {
        assert(out@[p - 1].well_formed());
        p = p - 1;
    }
    let ghost xv = x.item@;
    proof {
        if p > 0 {
            assert(out@[p - 1].well_formed());
        }
    }
    out.insert(p, x);
    let ghost after = keyed_views(out@);
    assert(after =~= before.insert(p as int, xv));
    proof {
        vstd::seq_lib::to_multiset_insert(before, p as int, xv);
        assert forall|i: int| 0 <= i < out@.len() implies (#[trigger] out@[i]).well_formed() by {
            if i < p {
                assert(out@[i] == old(out)@[i]);
            } else if i > p {
                assert(out@[i] == old(out)@[i - 1]);
            }
        }
        assert forall|i: int, j: int| 0 <= i < j < after.len() implies !sorts_before(
            config,
            #[trigger] after[j],
            #[trigger] after[i],
        ) by {
            if j < p {
                assert(after[i] == before[i] && after[j] == before[j]);
            } else if j == p {
                assert(after[i] == before[i]);
                if i < p - 1 {
                    lemma_sorts_before_order(config, xv, before[p - 1], before[i]);
                    assert(!sorts_before(config, before[p - 1], before[i]));
                }
            } else if i == p {
                assert(after[j] == before[j - 1]);
                assert(sorts_before(config, xv, before[j - 1]));
                lemma_sorts_before_order(config, xv, before[j - 1], xv);
            } else if i < p {
                assert(after[i] == before[i] && after[j] == before[j - 1]);
            } else {
                assert(after[i] == before[i - 1] && after[j] == before[j - 1]);
            }
        }
        let head = before.take(p as int);
        let tail = before.skip(p as int);
        assert(before =~= head + tail);
        assert(after =~= head + seq![xv] + tail);
        assert forall|v: ProcessView| #[trigger] rank_class(config, after, v) == if same_rank(config, xv, v) {
            rank_class(config, before, v).push(xv)
        } else {
            rank_class(config, before, v)
        } by {
            let pred = |w: ProcessView| same_rank(config, w, v);
            Seq::filter_distributes_over_add(head, seq![xv], pred);
            Seq::filter_distributes_over_add(head + seq![xv], tail, pred);
            Seq::filter_distributes_over_add(head, tail, pred);
            Seq::<ProcessView>::empty().lemma_filter_push(xv, pred);
            assert(seq![xv] =~= Seq::<ProcessView>::empty().push(xv));
            assert(Seq::<ProcessView>::empty().filter(pred) =~= Seq::<ProcessView>::empty()) by {
                reveal_with_fuel(Seq::filter, 1);
            }
            if same_rank(config, xv, v) {
                assert forall|k: int| 0 <= k < tail.len() implies !pred(#[trigger] tail[k]) by {
                    assert(tail[k] == before[p + k]);
                    assert(sorts_before(config, xv, before[p + k]));
                    if same_rank(config, tail[k], v) {
                        lemma_same_rank_transitive(config, xv, v, tail[k]);
                    }
                }
                assert(tail.all(|w: ProcessView| !pred(w)));
                tail.lemma_all_neg_filter_empty(pred);
                assert(tail.filter(pred) =~= Seq::<ProcessView>::empty());
                assert(head.filter(pred) + seq![xv] + tail.filter(pred) =~= (head.filter(pred)
                    + tail.filter(pred)).push(xv));
            } else {
                assert(head.filter(pred) + Seq::<ProcessView>::empty() =~= head.filter(pred));
            }
        }
    }
}

fn matches_filter_exec(filter: &Vec<char>, folded_name: &Vec<char>, process_id: u32) -> (result: bool)
    ensures
        result == (filter@.len() == 0 || has_infix(folded_name@, filter@) || has_infix(
            decimal_text(process_id as nat),
            filter@,
        )),
{
    if filter.len() == 0 {
        return true;
    }
    if contains_chars(folded_name, filter) {
        return true;
    }
    let digits = decimal_chars(process_id);
    contains_chars(&digits, filter)
}

/// The processes of `snapshot` that the search filter shows, sorted by
/// `config`. Processes that compare equal keep their snapshot order.
pub fn select_processes(snapshot: &Vec<ProcessItem>, filter: &Vec<char>, config: ProcessSortConfig) -> (result:
    Vec<ProcessItem>)
    ensures
        sorted_by(config, process_views(result@)),
        process_views(result@).to_multiset() == process_views(snapshot@).filter(
            |v: ProcessView| matches_filter(filter@, v),
        ).to_multiset(),
        forall|v: ProcessView|
            #[trigger] rank_class(config, process_views(result@), v) == rank_class(
                config,
                process_views(snapshot@).filter(|w: ProcessView| matches_filter(filter@, w)),
                v,
            ),
{
    let ghost pred = |v: ProcessView| matches_filter(filter@, v);
    let ghost all = process_views(snapshot@);
    let mut out: Vec<KeyedItem> = Vec::new();
    let mut i: usize = 0;
    proof {
        reveal_with_fuel(Seq::filter, 1);
        assert(all.take(0).len() == 0);
        assert(keyed_views(out@) =~= Seq::<ProcessView>::empty());
        assert(all.take(0).filter(pred) =~= Seq::<ProcessView>::empty());
    }
    while i < snapshot.len()
        invariant
            i <= snapshot.len(),
            all == process_views(snapshot@),
            pred == (|v: ProcessView| matches_filter(filter@, v)),
            all_well_formed(out@),
            sorted_by(config, keyed_views(out@)),
            keyed_views(out@).to_multiset() == all.take(i as int).filter(pred).to_multiset(),
            forall|v: ProcessView|
                #[trigger] rank_class(config, keyed_views(out@), v) == rank_class(
                    config,
                    all.take(i as int).filter(pred),
                    v,
                ),
        decreases snapshot.len() - i,
    {
        let item = &snapshot[i];
        let folded = to_lowercase(item.process_name.as_str());
        let folded_name = chars_of(folded.as_str());
        let shown = matches_filter_exec(filter, &folded_name, item.process_id);
        proof {
            reveal_with_fuel(Seq::filter, 1);
            assert(all.take(i + 1).drop_last() =~= all.take(i as int));
            assert(all.take(i + 1).last() == item@);
            assert(shown == pred(item@));
        }
        if shown {
            let keyed = KeyedItem {
                item: ProcessItem { process_id: item.process_id, process_name: item.process_name.clone() },
                folded_name,
            };
            let ghost out_before = keyed_views(out@);
            insert_sorted(&mut out, keyed, config);
            proof {
                assert(all.take(i + 1).filter(pred) == all.take(i as int).filter(pred).push(item@));
                vstd::seq_lib::to_multiset_build(all.take(i as int).filter(pred), item@);
                assert forall|v: ProcessView| #[trigger] rank_class(config, keyed_views(out@), v)
                    == rank_class(config, all.take(i + 1).filter(pred), v) by {
                    all.take(i as int).filter(pred).lemma_filter_push(
                        item@,
                        |w: ProcessView| same_rank(config, w, v),
                    );
                    assert(rank_class(config, out_before, v) == rank_class(
                        config,
                        all.take(i as int).filter(pred),
                        v,
                    ));
                }
            }
        } else {
            proof {
                assert(all.take(i + 1).filter(pred) == all.take(i as int).filter(pred));
            }
        }
        i = i + 1;
    }
    assert(all.take(i as int) =~= all);
    assert(all.filter(pred) == process_views(snapshot@).filter(|w: ProcessView| matches_filter(filter@, w)));
    let mut result: Vec<ProcessItem> = Vec::new();
    let mut k: usize = 0;
    while k < out.len()
        invariant
            k <= out.len(),
            process_views(result@) =~= keyed_views(out@).take(k as int),
        decreases out.len() - k,
    {
        let entry = &out[k];
        let ghost old_result = process_views(result@);
        let name = entry.item.process_name.clone();
        result.push(ProcessItem { process_id: entry.item.process_id, process_name: name });
        assert(process_views(result@) =~= old_result.push(out@[k as int].item@));
        assert(keyed_views(out@).take(k + 1) =~= keyed_views(out@).take(k as int).push(out@[k as int].item@));
        k = k + 1;
    }
    assert(keyed_views(out@).take(k as int) =~= keyed_views(out@));
    result
}

// ---------------------------------------------------------------------------
// Process manager
// ---------------------------------------------------------------------------

#[verifier::external_type_specification]
#[verifier::external_body]
pub struct ExSystem(sysinfo::System);

/// The processes a system monitor holds, each as its id (`Pid::as_u32`) and
/// its name (lossily converted to UTF-8), counted without order.
pub uninterp spec fn monitored_processes(system: sysinfo::System) -> Multiset<ProcessView>;

/// `sysinfo::System::new`: a system monitor with nothing loaded yet, so it
/// holds no process.
#[verifier::external_body]
fn new_system_monitor() -> (result: sysinfo::System)
    ensures
        monitored_processes(result) == Multiset::<ProcessView>::empty(),
{
    sysinfo::System::new()
}

/// `sysinfo::System::refresh_processes_specifics` on all processes, removing
/// dead ones and loading no extra process information. What the monitor
/// holds afterwards depends on the machine.
#[verifier::external_body]
fn refresh_process_list(system: &mut sysinfo::System) {
    system.refresh_processes_specifics(
        sysinfo::ProcessesToUpdate::All,
        true,
        sysinfo::ProcessRefreshKind::nothing(),
    );
}

/// `sysinfo::System::processes`: each process the monitor holds, once, with
/// its id (`Pid::as_u32`) and its name (lossily converted to UTF-8). The
/// monitor keys its processes by `Pid` in a map, so no id occurs twice. The
/// order of the list is the map's iteration order and is not stated.
#[verifier::external_body]
fn list_processes(system: &sysinfo::System) -> (result: Vec<ProcessItem>)
    ensures
        process_views(result@).to_multiset() == monitored_processes(*system),
        distinct_ids(process_views(result@)),
{
    system.processes().iter().map(|(process_id, process)| ProcessItem {
        process_id: process_id.as_u32(),
        process_name: process.name().to_string_lossy().to_string(),
    }).collect()
}

/// Whether no process id occurs twice in `s`.
pub open spec fn distinct_ids(s: Seq<ProcessView>) -> bool {
    forall|i: int, j: int| 0 <= i < j < s.len() ==> (#[trigger] s[i]).0 != (#[trigger] s[j]).0
}

/// A sequence that holds each element at most as often as a sequence with
/// distinct ids has distinct ids too.
proof fn lemma_distinct_ids_by_count(a: Seq<ProcessView>, b: Seq<ProcessView>)
    requires
        distinct_ids(b),
        forall|v: ProcessView| a.to_multiset().count(v) <= #[trigger] b.to_multiset().count(v),
    ensures
        distinct_ids(a),
{
    broadcast use vstd::multiset::group_multiset_axioms;
    broadcast use vstd::seq_lib::group_to_multiset_ensures;

    assert(b.no_duplicates()) by {
        assert forall|i: int, j: int| 0 <= i < b.len() && 0 <= j < b.len() && i != j implies b[i] != b[j] by {
            if i < j {
                assert(b[i].0 != b[j].0);
            } else {
                assert(b[j].0 != b[i].0);
            }
        }
    }
    b.lemma_multiset_has_no_duplicates();
    assert forall|x: ProcessView| a.to_multiset().contains(x) implies a.to_multiset().count(x) == 1 by {
        assert(b.to_multiset().count(x) >= 1);
        assert(b.to_multiset().contains(x));
    }
    a.lemma_multiset_has_no_duplicates_conv();
    assert forall|i: int, j: int| 0 <= i < j < a.len() implies (#[trigger] a[i]).0 != (#[trigger] a[j]).0 by {
        if a[i].0 == a[j].0 {
            assert(a[i] != a[j]);
            assert(a.contains(a[i]));
            assert(a.contains(a[j]));
            assert(b.to_multiset().count(a[i]) > 0);
            assert(b.to_multiset().count(a[j]) > 0);
            assert(b.contains(a[i]));
            assert(b.contains(a[j]));
            let k = choose|k: int| 0 <= k < b.len() && b[k] == a[i];
            let l = choose|l: int| 0 <= l < b.len() && b[l] == a[j];
            if k < l {
                assert(b[k].0 != b[l].0);
            } else {
                assert(b[l].0 != b[k].0);
            }
        }
    }
}

/// Whether every element of `s` must come before every later one.
spec fn strictly_sorted_by(config: ProcessSortConfig, s: Seq<ProcessView>) -> bool {
    forall|i: int, j: int| 0 <= i < j < s.len() ==> sorts_before(config, #[trigger] s[i], #[trigger] s[j])
}

/// Processes with different ids are ordered one way or the other.
proof fn lemma_different_ids_ordered(config: ProcessSortConfig, a: ProcessView, b: ProcessView)
    requires
        a.0 != b.0,
    ensures
        sorts_before(config, a, b) || sorts_before(config, b, a),
{
    lemma_text_less_total(unicode_lowercase(a.1), unicode_lowercase(b.1));
}

/// A sorted sequence with distinct ids is strictly sorted.
proof fn lemma_sorted_distinct_is_strict(config: ProcessSortConfig, s: Seq<ProcessView>)
    requires
        sorted_by(config, s),
        distinct_ids(s),
    ensures
        strictly_sorted_by(config, s),
{
    assert forall|i: int, j: int| 0 <= i < j < s.len() implies sorts_before(config, #[trigger] s[i], #[trigger] s[j]) by {
        lemma_different_ids_ordered(config, s[i], s[j]);
    }
}

/// Two strictly sorted sequences with the same elements are equal.
proof fn lemma_strictly_sorted_unique(config: ProcessSortConfig, x: Seq<ProcessView>, y: Seq<ProcessView>)
    requires
        strictly_sorted_by(config, x),
        strictly_sorted_by(config, y),
        x.to_multiset() == y.to_multiset(),
    ensures
        x == y,
    decreases x.len(),
{
    broadcast use vstd::multiset::group_multiset_axioms;
    broadcast use vstd::seq_lib::group_to_multiset_ensures;

    vstd::seq_lib::to_multiset_len(x);
    vstd::seq_lib::to_multiset_len(y);
    if x.len() == 0 {
        assert(y.len() == 0);
        assert(x =~= y);
    } else {
        assert(y.len() > 0);
        assert(x.contains(x[0]));
        assert(y.contains(y[0]));
        vstd::seq_lib::to_multiset_contains(x, x[0]);
        vstd::seq_lib::to_multiset_contains(y, y[0]);
        assert(y.to_multiset().count(x[0]) > 0);
        assert(x.to_multiset().count(y[0]) > 0);
        assert(y.contains(x[0]));
        assert(x.contains(y[0]));
        let m = choose|m: int| 0 <= m < y.len() && y[m] == x[0];
        let n = choose|n: int| 0 <= n < x.len() && x[n] == y[0];
        lemma_sorts_before_order(config, x[0], y[0], x[0]);
        lemma_sorts_before_order(config, y[0], y[0], y[0]);
        if m > 0 {
            assert(sorts_before(config, y[0], y[m]));
            if n > 0 {
                assert(sorts_before(config, x[0], x[n]));
            }
        }
        assert(x[0] == y[0]);
        vstd::seq_lib::to_multiset_remove(x, 0);
        vstd::seq_lib::to_multiset_remove(y, 0);
        assert(x.remove(0) =~= x.drop_first());
        assert(y.remove(0) =~= y.drop_first());
        let xs = x.drop_first();
        let ys = y.drop_first();
        assert forall|i: int, j: int| 0 <= i < j < xs.len() implies sorts_before(config, #[trigger] xs[i], #[trigger] xs[j]) by {
            assert(xs[i] == x[i + 1] && xs[j] == x[j + 1]);
        }
        assert forall|i: int, j: int| 0 <= i < j < ys.len() implies sorts_before(config, #[trigger] ys[i], #[trigger] ys[j]) by {
            assert(ys[i] == y[i + 1] && ys[j] == y[j + 1]);
        }
        lemma_strictly_sorted_unique(config, xs, ys);
        assert(x =~= y) by {
            assert forall|i: int| 0 <= i < x.len() implies x[i] == y[i] by {
                if i > 0 {
                    assert(x[i] == xs[i - 1] && y[i] == ys[i - 1]);
                }
            }
        }
    }
}

/// Sorting by a column in descending order gives the reverse of sorting by
/// it in ascending order, when no process id occurs twice.
pub proof fn lemma_descending_reverses_ascending(
    column: SortColumn,
    items: Seq<ProcessView>,
    ascending: Seq<ProcessView>,
    descending: Seq<ProcessView>,
)
    requires
        distinct_ids(items),
        sorted_by(ProcessSortConfig { column, direction: SortDirection::Ascending }, ascending),
        ascending.to_multiset() == items.to_multiset(),
        sorted_by(ProcessSortConfig { column, direction: SortDirection::Descending }, descending),
        descending.to_multiset() == items.to_multiset(),
    ensures
        descending == ascending.reverse(),
{
    let up = ProcessSortConfig { column, direction: SortDirection::Ascending };
    let down = ProcessSortConfig { column, direction: SortDirection::Descending };
    let reversed = ascending.reverse();
    lemma_distinct_ids_by_count(ascending, items);
    lemma_distinct_ids_by_count(descending, items);
    lemma_sorted_distinct_is_strict(up, ascending);
    lemma_sorted_distinct_is_strict(down, descending);
    ascending.lemma_reverse_to_multiset();
    assert forall|i: int, j: int| 0 <= i < j < reversed.len() implies sorts_before(
        down,
        #[trigger] reversed[i],
        #[trigger] reversed[j],
    ) by {
        let n = ascending.len() as int;
        assert(reversed[i] == ascending[n - 1 - i]);
        assert(reversed[j] == ascending[n - 1 - j]);
        assert(sorts_before(up, ascending[n - 1 - j], ascending[n - 1 - i]));
    }
    lemma_strictly_sorted_unique(down, descending, reversed);
}

/// Filtering a sequence and then counting its elements is counting them and
/// then filtering.
proof fn lemma_filter_to_multiset(s: Seq<ProcessView>, pred: spec_fn(ProcessView) -> bool)
    ensures
        s.filter(pred).to_multiset() =~= s.to_multiset().filter(pred),
    decreases s.len(),
{
    broadcast use vstd::multiset::group_multiset_axioms;
    broadcast use vstd::seq_lib::group_to_multiset_ensures;

    if s.len() == 0 {
        assert(s.filter(pred) =~= Seq::<ProcessView>::empty()) by {
            reveal_with_fuel(Seq::filter, 1);
        }
        assert(s =~= Seq::<ProcessView>::empty());
    } else {
        let init = s.drop_last();
        let x = s.last();
        lemma_filter_to_multiset(init, pred);
        assert(s =~= init.push(x));
        init.lemma_filter_push(x, pred);
        vstd::seq_lib::to_multiset_build(init, x);
        vstd::seq_lib::to_multiset_build(init.filter(pred), x);
    }
}

/// The search text as the filter keeps it: trimmed, then case-folded.
pub open spec fn normalized_filter(query: Seq<char>) -> Seq<char> {
    unicode_lowercase(trimmed(query))
}

/// The search filter is the Unicode lowercase of the query with its
/// surrounding whitespace removed, and a process is shown exactly when that
/// text is empty or occurs in the lowercase of its name or in its decimal id.
pub proof fn lemma_search_filter_law(query: Seq<char>, item: ProcessView)
    ensures
        normalized_filter(query) == unicode_lowercase(trimmed(query)),
        matches_filter(normalized_filter(query), item) <==> (unicode_lowercase(trimmed(query)).len() == 0
            || has_infix(unicode_lowercase(item.1), unicode_lowercase(trimmed(query))) || has_infix(
            decimal_text(item.0 as nat),
            unicode_lowercase(trimmed(query)),
        )),
{
}

/// Queries running processes, keeping the sort configuration and search
/// filter between refreshes.
pub struct ProcessManager {
    system_monitor: sysinfo::System,
    sort_config: ProcessSortConfig,
    search_filter: Vec<char>,
}

impl ProcessManager {
    /// The active sort configuration.
    pub closed spec fn sort_config_spec(&self) -> ProcessSortConfig {
        self.sort_config
    }

    /// The active (normalized) search filter.
    pub closed spec fn search_filter_spec(&self) -> Seq<char> {
        self.search_filter@
    }

    /// The processes the system monitor holds.
    pub closed spec fn monitored(&self) -> Multiset<ProcessView> {
        monitored_processes(self.system_monitor)
    }

    /// A manager with a fresh system monitor, sorting by name ascending and
    /// with no filter.
    pub fn new() -> (result: Self)
        ensures
            result.sort_config_spec() == default_sort_config(),
            result.search_filter_spec() == Seq::<char>::empty(),
            result.monitored() == Multiset::<ProcessView>::empty(),
    {
        ProcessManager {
            system_monitor: new_system_monitor(),
            sort_config: ProcessSortConfig::default(),
            search_filter: Vec::new(),
        }
    }

    /// Returns the current sort configuration.
    pub fn current_sort_config(&self) -> (result: ProcessSortConfig)
        ensures
            result == self.sort_config_spec(),
    {
        self.sort_config
    }

    /// Sets the search filter to the trimmed, case-folded query.
    pub fn set_search_filter(&mut self, search_query: &str)
        ensures
            final(self).search_filter_spec() == normalized_filter(search_query@),
            final(self).search_filter_spec() == unicode_lowercase(trimmed(search_query@)),
            final(self).sort_config_spec() == old(self).sort_config_spec(),
    {
        let query = chars_of(search_query);
        let trimmed_query = trim_white_space(&query);
        let trimmed_text = string_from_chars(&trimmed_query);
        let folded = to_lowercase(trimmed_text.as_str());
        self.search_filter = chars_of(folded.as_str());
    }

    /// Updates the sort configuration for a click on a column header.
    pub fn toggle_sort_by_column(&mut self, clicked_column: SortColumn)
        ensures
            final(self).sort_config_spec() == toggled(old(self).sort_config_spec(), clicked_column),
            final(self).search_filter_spec() == old(self).search_filter_spec(),
    {
        self.sort_config.toggle_column(clicked_column);
    }

    /// Refreshes the process list and returns the processes that the filter
    /// shows, sorted by the active configuration: exactly the refreshed
    /// monitor's processes that match the filter. Which processes run is up
    /// to the machine.
    pub fn fetch_sorted_processes(&mut self) -> (result: Vec<ProcessItem>)
        ensures
            sorted_by(old(self).sort_config_spec(), process_views(result@)),
            forall|i: int| 0 <= i < result@.len() ==> matches_filter(old(self).search_filter_spec(), #[trigger] result@[i]@),
            process_views(result@).to_multiset() == final(self).monitored().filter(
                |v: ProcessView| matches_filter(old(self).search_filter_spec(), v),
            ),
            distinct_ids(process_views(result@)),
            final(self).sort_config_spec() == old(self).sort_config_spec(),
            final(self).search_filter_spec() == old(self).search_filter_spec(),
    {
        refresh_process_list(&mut self.system_monitor);
        let snapshot = list_processes(&self.system_monitor);
        let result = select_processes(&snapshot, &self.search_filter, self.sort_config);
        proof {
            let pred = |v: ProcessView| matches_filter(self.search_filter@, v);
            let filtered = process_views(snapshot@).filter(pred);
            assert forall|i: int| 0 <= i < result@.len() implies matches_filter(
                self.search_filter@,
                #[trigger] result@[i]@,
            ) by {
                let v = result@[i]@;
                assert(process_views(result@)[i] == v);
                vstd::seq_lib::to_multiset_contains(process_views(result@), v);
                vstd::seq_lib::to_multiset_contains(filtered, v);
                let k = choose|k: int| 0 <= k < filtered.len() && filtered[k] == v;
                process_views(snapshot@).lemma_filter_pred(pred, k);
            }
            lemma_filter_to_multiset(process_views(snapshot@), pred);
            assert forall|v: ProcessView| process_views(result@).to_multiset().count(v)
                <= #[trigger] process_views(snapshot@).to_multiset().count(v) by {
                broadcast use vstd::multiset::group_multiset_axioms;
            }
            lemma_distinct_ids_by_count(process_views(result@), process_views(snapshot@));
        }
        result
    }
}

} // verus!
