use toolbox::listview::{ListViewEdit, ListViewRow, find_process_row, plan_listview_sync, selected_process_id};
use toolbox::process::ProcessItem;

fn row(name: &str, pid: &str) -> ListViewRow {
    ListViewRow { name: name.to_string(), pid_text: pid.to_string() }
}

fn item(process_id: u32, name: &str) -> ProcessItem {
    ProcessItem { process_id, process_name: name.to_string() }
}

fn apply(rows: &mut Vec<ListViewRow>, edits: &[ListViewEdit]) {
    for edit in edits {
        match edit {
            ListViewEdit::SetName { row, text } => rows[*row].name = text.clone(),
            ListViewEdit::SetPidText { row, text } => rows[*row].pid_text = text.clone(),
            ListViewEdit::AddRow { name, pid_text } => rows.push(row(name, pid_text)),
            ListViewEdit::DeleteRow { row } => {
                rows.remove(*row);
            },
        }
    }
}

fn expected_rows(processes: &[ProcessItem]) -> Vec<ListViewRow> {
    processes.iter().map(|p| row(&p.process_name, &p.process_id.to_string())).collect()
}

#[test]
fn unchanged_rows_need_no_edits() {
    let processes = vec![item(4, "System"), item(404, "explorer.exe")];
    let current = expected_rows(&processes);
    assert_eq!(plan_listview_sync(&current, &processes), vec![]);
}

#[test]
fn changed_cells_are_set_in_place() {
    let processes = vec![item(4, "System"), item(404, "explorer.exe")];
    let current = vec![row("System", "5"), row("cmd.exe", "404")];
    assert_eq!(
        plan_listview_sync(&current, &processes),
        vec![
            ListViewEdit::SetPidText { row: 0, text: "4".to_string() },
            ListViewEdit::SetName { row: 1, text: "explorer.exe".to_string() },
        ]
    );
}

#[test]
fn new_processes_are_appended() {
    let processes = vec![item(4, "System"), item(404, "explorer.exe"), item(9, "a.exe")];
    let current = vec![row("System", "4")];
    assert_eq!(
        plan_listview_sync(&current, &processes),
        vec![
            ListViewEdit::AddRow { name: "explorer.exe".to_string(), pid_text: "404".to_string() },
            ListViewEdit::AddRow { name: "a.exe".to_string(), pid_text: "9".to_string() },
        ]
    );
}

#[test]
fn exited_processes_are_deleted_from_the_end() {
    let processes = vec![item(4, "System")];
    let current = vec![row("System", "4"), row("x", "1"), row("y", "2")];
    assert_eq!(
        plan_listview_sync(&current, &processes),
        vec![ListViewEdit::DeleteRow { row: 2 }, ListViewEdit::DeleteRow { row: 1 }]
    );
}

#[test]
fn applying_the_plan_gives_the_snapshot() {
    let cases: Vec<(Vec<ListViewRow>, Vec<ProcessItem>)> = vec![
        (vec![], vec![item(1, "a"), item(2, "b")]),
        (vec![row("a", "1"), row("b", "2"), row("c", "3")], vec![]),
        (vec![row("a", "1"), row("q", "9")], vec![item(2, "b"), item(9, "q"), item(7, "z")]),
        (vec![row("x", "x"), row("y", "y"), row("z", "z")], vec![item(5, "y")]),
    ];
    for (current, processes) in cases {
        let mut rows = current.clone();
        let edits = plan_listview_sync(&current, &processes);
        apply(&mut rows, &edits);
        assert_eq!(rows, expected_rows(&processes));
    }
}

#[test]
fn selection_is_found_again() {
    let processes = vec![item(4, "System"), item(404, "explorer.exe"), item(404, "dup")];
    assert_eq!(find_process_row(&processes, 404), Some(1));
    assert_eq!(find_process_row(&processes, 4), Some(0));
    assert_eq!(find_process_row(&processes, 5), None);
}

#[test]
fn selected_process_id_is_read_from_text() {
    assert_eq!(selected_process_id("1145140"), Some(1145140));
    assert_eq!(selected_process_id(""), None);
    assert_eq!(selected_process_id("12a"), None);
}
