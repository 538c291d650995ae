use toolbox::process::{
    ProcessItem, ProcessManager, ProcessSortConfig, SortArrow, SortColumn, SortDirection, header_arrow, select_processes,
};

fn item(process_id: u32, name: &str) -> ProcessItem {
    ProcessItem { process_id, process_name: name.to_string() }
}

fn ids(items: &[ProcessItem]) -> Vec<u32> {
    items.iter().map(|p| p.process_id).collect()
}

fn chars(s: &str) -> Vec<char> {
    s.chars().collect()
}

fn sample() -> Vec<ProcessItem> {
    vec![
        item(404, "explorer.exe"),
        item(1145140, "Taskmgr.exe"),
        item(4, "System"),
        item(12, "explorer.exe"),
        item(77, "svchost.exe"),
    ]
}

#[test]
fn column_indices() {
    assert_eq!(SortColumn::from_column_index(0), Some(SortColumn::ProcessName));
    assert_eq!(SortColumn::from_column_index(1), Some(SortColumn::ProcessId));
    assert_eq!(SortColumn::from_column_index(2), None);
    assert_eq!(SortColumn::ProcessName.to_column_index(), 0);
    assert_eq!(SortColumn::ProcessId.to_column_index(), 1);
    for column in [SortColumn::ProcessName, SortColumn::ProcessId] {
        assert_eq!(SortColumn::from_column_index(column.to_column_index()), Some(column));
    }
}

#[test]
fn directions_invert() {
    assert_eq!(SortDirection::Ascending.inverted(), SortDirection::Descending);
    assert_eq!(SortDirection::Descending.inverted(), SortDirection::Ascending);
    assert_eq!(SortDirection::Ascending.inverted().inverted(), SortDirection::Ascending);
}

#[test]
fn header_clicks_toggle() {
    let mut config = ProcessSortConfig::default();
    assert_eq!(config, ProcessSortConfig { column: SortColumn::ProcessName, direction: SortDirection::Ascending });
    config.toggle_column(SortColumn::ProcessName);
    assert_eq!(config.direction, SortDirection::Descending);
    config.toggle_column(SortColumn::ProcessName);
    assert_eq!(config, ProcessSortConfig::default());
    config.toggle_column(SortColumn::ProcessName);
    config.toggle_column(SortColumn::ProcessId);
    assert_eq!(config, ProcessSortConfig { column: SortColumn::ProcessId, direction: SortDirection::Ascending });
}

#[test]
fn sorts_by_name_then_id() {
    let result = select_processes(&sample(), &vec![], ProcessSortConfig::default());
    assert_eq!(ids(&result), vec![12, 404, 77, 4, 1145140]);
    let descending = ProcessSortConfig { column: SortColumn::ProcessName, direction: SortDirection::Descending };
    let result = select_processes(&sample(), &vec![], descending);
    assert_eq!(ids(&result), vec![1145140, 4, 77, 404, 12]);
}

#[test]
fn sorts_by_id() {
    let ascending = ProcessSortConfig { column: SortColumn::ProcessId, direction: SortDirection::Ascending };
    assert_eq!(ids(&select_processes(&sample(), &vec![], ascending)), vec![4, 12, 77, 404, 1145140]);
    let descending = ProcessSortConfig { column: SortColumn::ProcessId, direction: SortDirection::Descending };
    assert_eq!(ids(&select_processes(&sample(), &vec![], descending)), vec![1145140, 404, 77, 12, 4]);
}

#[test]
fn filters_by_name_or_id() {
    let by_id = ProcessSortConfig { column: SortColumn::ProcessId, direction: SortDirection::Ascending };
    assert_eq!(ids(&select_processes(&sample(), &chars("explorer"), by_id)), vec![12, 404]);
    assert_eq!(ids(&select_processes(&sample(), &chars("task"), by_id)), vec![1145140]);
    assert_eq!(ids(&select_processes(&sample(), &chars("4"), by_id)), vec![4, 404, 1145140]);
    assert_eq!(ids(&select_processes(&sample(), &chars("zzz"), by_id)), Vec::<u32>::new());
}

#[test]
fn equal_keys_keep_snapshot_order() {
    let twins = vec![item(7, "b.exe"), item(7, "a.exe"), item(3, "c.exe")];
    let by_id = ProcessSortConfig { column: SortColumn::ProcessId, direction: SortDirection::Ascending };
    let result = select_processes(&twins, &vec![], by_id);
    assert_eq!(result, vec![item(3, "c.exe"), item(7, "b.exe"), item(7, "a.exe")]);
}

#[test]
fn manager_keeps_filter_and_sort() {
    let mut manager = ProcessManager::new();
    assert_eq!(manager.current_sort_config(), ProcessSortConfig::default());
    manager.toggle_sort_by_column(SortColumn::ProcessId);
    assert_eq!(
        manager.current_sort_config(),
        ProcessSortConfig { column: SortColumn::ProcessId, direction: SortDirection::Ascending }
    );
    manager.set_search_filter("   ");
    let all = manager.fetch_sorted_processes();
    assert!(!all.is_empty());
    assert!(all.windows(2).all(|w| w[0].process_id <= w[1].process_id));
    let own = all[all.len() / 2].process_id;
    manager.set_search_filter(&format!("  {}  ", own));
    let found = manager.fetch_sorted_processes();
    assert!(found.windows(2).all(|w| w[0].process_id <= w[1].process_id));
    assert!(found.iter().all(|p| p.process_id.to_string().contains(&own.to_string())
        || p.process_name.to_lowercase().contains(&own.to_string())));
}

#[test]
fn equal_ranks_keep_snapshot_order_in_both_directions() {
    let snapshot = vec![item(9, "beta"), item(5, "Zed"), item(9, "alpha"), item(5, "zed")];
    let by_id = ProcessSortConfig { column: SortColumn::ProcessId, direction: SortDirection::Ascending };
    let names: Vec<String> =
        select_processes(&snapshot, &chars(""), by_id).into_iter().map(|p| p.process_name).collect();
    assert_eq!(names, vec!["Zed", "zed", "beta", "alpha"]);

    let by_id_descending = ProcessSortConfig { column: SortColumn::ProcessId, direction: SortDirection::Descending };
    let names: Vec<String> =
        select_processes(&snapshot, &chars(""), by_id_descending).into_iter().map(|p| p.process_name).collect();
    assert_eq!(names, vec!["beta", "alpha", "Zed", "zed"]);

    let by_name = ProcessSortConfig { column: SortColumn::ProcessName, direction: SortDirection::Ascending };
    let names: Vec<String> =
        select_processes(&snapshot, &chars(""), by_name).into_iter().map(|p| p.process_name).collect();
    assert_eq!(names, vec!["alpha", "beta", "Zed", "zed"]);
}

#[test]
fn descending_is_reverse_of_ascending_for_distinct_ids() {
    for column in [SortColumn::ProcessName, SortColumn::ProcessId] {
        let up = ProcessSortConfig { column, direction: SortDirection::Ascending };
        let down = ProcessSortConfig { column, direction: SortDirection::Descending };
        let mut ascending = select_processes(&sample(), &chars(""), up);
        let descending = select_processes(&sample(), &chars(""), down);
        ascending.reverse();
        assert_eq!(descending, ascending);
    }
}

#[test]
fn fetched_processes_have_distinct_ids() {
    let mut manager = ProcessManager::new();
    let all = manager.fetch_sorted_processes();
    let mut ids: Vec<u32> = all.iter().map(|p| p.process_id).collect();
    let count = ids.len();
    ids.sort();
    ids.dedup();
    assert_eq!(ids.len(), count);
}

#[test]
fn only_the_sorted_column_shows_an_arrow() {
    let by_name_up = ProcessSortConfig { column: SortColumn::ProcessName, direction: SortDirection::Ascending };
    let by_id_down = ProcessSortConfig { column: SortColumn::ProcessId, direction: SortDirection::Descending };
    assert_eq!(header_arrow(by_name_up, SortColumn::ProcessName), SortArrow::Up);
    assert_eq!(header_arrow(by_name_up, SortColumn::ProcessId), SortArrow::NoArrow);
    assert_eq!(header_arrow(by_id_down, SortColumn::ProcessId), SortArrow::Down);
    assert_eq!(header_arrow(by_id_down, SortColumn::ProcessName), SortArrow::NoArrow);
}
