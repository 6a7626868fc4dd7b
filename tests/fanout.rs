use orchestra::fanout::{fanout_temp_names, finish_fanout, merge_worker_reports, FanoutError, WorkerReport};
use orchestra::model::TaskSpecItem;

fn items(names: &[&str]) -> Vec<TaskSpecItem> {
    names.iter().map(|n| TaskSpecItem { name: n.to_string(), ..TaskSpecItem::default() }).collect()
}

fn names(v: &[TaskSpecItem]) -> Vec<String> {
    v.iter().map(|t| t.name.clone()).collect()
}

#[test]
fn merge_keeps_spawn_order_whatever_finished_first() {
    let reports = vec![
        WorkerReport { index: 2, items: Some(items(&["c1"])) },
        WorkerReport { index: 0, items: Some(items(&["a1", "a2"])) },
        WorkerReport { index: 1, items: Some(items(&[])) },
    ];
    let merged = merge_worker_reports(3, &reports).expect("complete fan-out merges");
    assert_eq!(names(&merged), vec!["a1", "a2", "c1"]);
}

#[test]
fn one_failed_worker_fails_the_job_and_all_files_are_removed() {
    let reports = vec![
        WorkerReport { index: 0, items: Some(items(&["a"])) },
        WorkerReport { index: 1, items: None },
        WorkerReport { index: 2, items: Some(items(&["c"])) },
    ];
    let done = finish_fanout(3, &reports);
    assert_eq!(done.result.unwrap_err(), FanoutError::WorkerFailed(1));
    assert_eq!(done.cleanup, vec![0, 1, 2]);
}

#[test]
fn missing_or_repeated_reports_are_incomplete() {
    let short = vec![WorkerReport { index: 0, items: Some(items(&["a"])) }];
    assert_eq!(merge_worker_reports(2, &short).unwrap_err(), FanoutError::Incomplete { expected: 2, got: 1 });
    let twice = vec![
        WorkerReport { index: 0, items: Some(items(&["a"])) },
        WorkerReport { index: 0, items: Some(items(&["b"])) },
    ];
    assert_eq!(merge_worker_reports(2, &twice).unwrap_err(), FanoutError::Incomplete { expected: 2, got: 2 });
}

#[test]
fn successful_fanout_still_removes_every_file() {
    let reports = vec![WorkerReport { index: 0, items: Some(items(&["a"])) }];
    let done = finish_fanout(1, &reports);
    assert_eq!(names(&done.result.unwrap()), vec!["a"]);
    assert_eq!(done.cleanup, vec![0]);
}

#[test]
fn temp_names_are_indexed_per_run() {
    assert_eq!(
        fanout_temp_names("42_7", 3),
        vec![
            "orchestra_todos_item_42_7_0.yaml".to_string(),
            "orchestra_todos_item_42_7_1.yaml".to_string(),
            "orchestra_todos_item_42_7_2.yaml".to_string(),
        ]
    );
}

#[test]
fn empty_fanout_merges_to_nothing() {
    assert!(merge_worker_reports(0, &vec![]).unwrap().is_empty());
}
