use orchestra::console::{
    plan_file_generated, plan_watch_timed_out, ChatPoll, PlanChatReply, WatchPoll,
    build_working_rows_from_tasks, BackgroundJobKind, ConsoleState, JobOutput, JobPoll, Overlay, PaneAction,
    PaneFocus, PaneKey, RequestPaneFocus, TaskListFocus, TaskSpecMode, WorkingPaneEvent, WorkingStatus,
};
use orchestra::model::{TaskSpecItem, TaskSpecYaml};

fn task(name: &str) -> TaskSpecItem {
    TaskSpecItem { name: name.to_string(), task_type: "action".to_string(), ..TaskSpecItem::default() }
}

fn plan(names: &[&str]) -> TaskSpecYaml {
    TaskSpecYaml {
        name: "demo".to_string(),
        framework: "axum".to_string(),
        rule: vec!["small".to_string()],
        tasks: names.iter().map(|n| task(n)).collect(),
        ..TaskSpecYaml::default()
    }
}

#[test]
fn navigation_moves_across_the_grid() {
    let mut c = ConsoleState::new(plan(&[]), vec![], vec![]);
    assert_eq!(c.focus, PaneFocus::Project);
    c.handle_key(PaneKey::Right);
    assert_eq!(c.focus, PaneFocus::Todos);
    c.handle_key(PaneKey::Down);
    assert_eq!(c.focus, PaneFocus::Working);
    c.handle_key(PaneKey::Left);
    assert_eq!(c.focus, PaneFocus::TaskSpec);
    c.handle_key(PaneKey::Up);
    assert_eq!(c.focus, PaneFocus::Project);
    c.handle_key(PaneKey::Left);
    assert_eq!(c.focus, PaneFocus::Project);
}

#[test]
fn any_key_sequence_leaves_one_focus() {
    let mut c = ConsoleState::new(plan(&["a", "b"]), vec![], vec![]);
    let keys = vec![
        PaneKey::Down, PaneKey::Down, PaneKey::Down, PaneKey::Enter, PaneKey::Down, PaneKey::Esc,
        PaneKey::Right, PaneKey::Up, PaneKey::Left, PaneKey::Left, PaneKey::Up, PaneKey::Up, PaneKey::Other,
    ];
    let actions = c.handle_keys(&keys);
    assert_eq!(actions.len(), keys.len());
    assert!(matches!(c.focus, PaneFocus::Project | PaneFocus::TaskSpec | PaneFocus::Todos | PaneFocus::Working));
}

#[test]
fn empty_task_list_refuses_item_focus() {
    let mut c = ConsoleState::new(plan(&[]), vec![], vec![]);
    c.handle_key(PaneKey::Down);
    assert_eq!(c.focus, PaneFocus::TaskSpec);
    c.handle_key(PaneKey::Down);
    assert_eq!(c.focus, PaneFocus::TaskSpec);
    assert_eq!(c.list_focus, TaskListFocus::Pane);
    assert_eq!(c.mode, TaskSpecMode::List);
    assert_eq!(c.status, "item이 없습니다. Enter로 task를 추가하세요.");
}

#[test]
fn item_focus_and_form_round_trip() {
    let mut c = ConsoleState::new(plan(&["a", "b"]), vec![], vec![]);
    c.handle_key(PaneKey::Down);
    c.handle_key(PaneKey::Down);
    assert_eq!(c.list_focus, TaskListFocus::Item);
    assert_eq!(c.selected_task, 0);
    c.handle_key(PaneKey::Down);
    c.handle_key(PaneKey::Down);
    assert_eq!(c.selected_task, 1);
    c.handle_key(PaneKey::Enter);
    assert_eq!(c.mode, TaskSpecMode::Form);
    c.handle_key(PaneKey::Char('q'));
    assert_eq!(c.mode, TaskSpecMode::List);
    assert_eq!(c.list_focus, TaskListFocus::Item);
    assert!(!c.quit_requested);
    c.handle_key(PaneKey::Up);
    c.handle_key(PaneKey::Up);
    assert_eq!(c.list_focus, TaskListFocus::Pane);
    c.handle_key(PaneKey::Up);
    assert_eq!(c.focus, PaneFocus::Project);
    c.handle_key(PaneKey::Char('q'));
    assert!(c.quit_requested);
}

#[test]
fn form_edit_commits_and_asks_to_save() {
    let mut c = ConsoleState::new(plan(&["a"]), vec![], vec![]);
    c.handle_keys(&vec![PaneKey::Down, PaneKey::Down, PaneKey::Enter, PaneKey::Down, PaneKey::Down, PaneKey::Enter]);
    assert!(c.input_mode);
    assert_eq!(c.input_buffer, "");
    for ch in "src/a.rs ; ; src/b.rs".chars() {
        c.handle_key(PaneKey::Char(ch));
    }
    let a = c.handle_key(PaneKey::Enter);
    assert_eq!(a, PaneAction::SavePlan);
    assert_eq!(c.spec.tasks[0].scope, vec!["src/a.rs".to_string(), "src/b.rs".to_string()]);
    c.handle_key(PaneKey::Enter);
    assert_eq!(c.input_buffer, "src/a.rs; src/b.rs");
    c.handle_key(PaneKey::Esc);
    assert!(!c.input_mode);
}

#[test]
fn request_overlay_appends_parsed_tasks() {
    let mut c = ConsoleState::new(plan(&["a"]), vec![], vec![]);
    c.handle_keys(&vec![PaneKey::Down, PaneKey::Enter]);
    assert_eq!(c.overlay, Overlay::Request);
    for ch in "# beta".chars() {
        c.handle_key(PaneKey::Char(ch));
    }
    c.handle_key(PaneKey::Enter);
    for ch in "> go".chars() {
        c.handle_key(PaneKey::Char(ch));
    }
    c.handle_key(PaneKey::Tab);
    assert_eq!(c.request.focus, RequestPaneFocus::Buttons);
    let a = c.handle_key(PaneKey::Enter);
    assert_eq!(a, PaneAction::SavePlan);
    assert_eq!(c.overlay, Overlay::Closed);
    assert_eq!(c.spec.tasks.len(), 2);
    assert_eq!(c.spec.tasks[1].name, "beta");
    assert_eq!(c.spec.tasks[1].step, vec!["go".to_string()]);
    assert_eq!(c.rows.len(), 2);
    assert_eq!(c.rows[1].request, "# beta\n> go\n- -");
    assert_eq!(c.status, "request parsed and appended: 1");
}

#[test]
fn request_without_header_keeps_overlay_open() {
    let mut c = ConsoleState::new(plan(&[]), vec![], vec![]);
    c.handle_keys(&vec![PaneKey::Down, PaneKey::Enter, PaneKey::Char('x'), PaneKey::Tab, PaneKey::Enter]);
    assert_eq!(c.overlay, Overlay::Request);
    assert_eq!(c.status, "parse failed: '# name' is required");
    assert!(c.spec.tasks.is_empty());
}

#[test]
fn second_job_request_is_refused_while_running() {
    let mut c = ConsoleState::new(plan(&["a"]), vec![], vec![]);
    assert!(c.request_job(BackgroundJobKind::MakeTodos));
    assert!(c.progress.running);
    assert!(!c.request_job(BackgroundJobKind::FillProjectTasks));
    assert_eq!(c.job, Some(BackgroundJobKind::MakeTodos));
    assert_eq!(c.progress.lines.len(), 1);
}

#[test]
fn keys_are_held_while_job_runs() {
    let mut c = ConsoleState::new(plan(&["a"]), vec![], vec![]);
    c.handle_key(PaneKey::Char('f'));
    assert_eq!(c.job, Some(BackgroundJobKind::FillProjectTasks));
    c.handle_key(PaneKey::Esc);
    c.handle_key(PaneKey::Char('q'));
    c.handle_key(PaneKey::Right);
    assert_eq!(c.overlay, Overlay::Progress);
    assert!(!c.quit_requested);
    assert_eq!(c.focus, PaneFocus::Project);
}

#[test]
fn disconnected_channel_frees_slot() {
    let mut c = ConsoleState::new(plan(&["a"]), vec![], vec![]);
    c.request_job(BackgroundJobKind::MakeTodos);
    let o = c.apply_job_poll(JobPoll::Progress("step".to_string()));
    assert!(o.keep_polling);
    let o = c.apply_job_poll(JobPoll::Disconnected);
    assert!(!o.keep_polling);
    assert!(!c.progress.running);
    assert_eq!(c.job, None);
    assert_eq!(c.status, "make_todos_spec failed: channel disconnected");
    assert!(c.request_job(BackgroundJobKind::MakeTodos));
}

#[test]
fn finished_job_appends_checklist() {
    let mut c = ConsoleState::new(plan(&["a"]), vec![task("old")], vec![]);
    c.handle_key(PaneKey::Right);
    let a = c.handle_key(PaneKey::Char('p'));
    assert_eq!(a, PaneAction::StartJob(BackgroundJobKind::MakeTodos));
    let out = JobOutput { updated_spec: plan(&["a"]), generated_todos: vec![task("t1"), task("t2")] };
    let o = c.apply_job_poll(JobPoll::Finished(Ok(out)));
    assert_eq!(o.action, PaneAction::SaveTodos);
    assert_eq!(c.todos.iter().map(|t| t.name.as_str()).collect::<Vec<_>>(), vec!["old", "t1", "t2"]);
    assert_eq!(c.job, None);
    assert_eq!(c.overlay, Overlay::Closed);
    assert_eq!(c.focus, PaneFocus::Todos);
    assert_eq!(c.status, "make_todos_spec appended: 2");
}

#[test]
fn failed_job_reports_message() {
    let mut c = ConsoleState::new(plan(&["a"]), vec![], vec![]);
    c.request_job(BackgroundJobKind::MakeTodos);
    c.apply_job_poll(JobPoll::Finished(Err("boom".to_string())));
    assert_eq!(c.status, "make_todos_spec failed: boom");
    assert!(c.todos.is_empty());
    assert_eq!(c.overlay, Overlay::Progress);
    c.handle_key(PaneKey::Enter);
    assert_eq!(c.overlay, Overlay::Closed);
}

#[test]
fn fill_job_replaces_plan_and_rows() {
    let mut c = ConsoleState::new(plan(&["a"]), vec![], vec![]);
    c.request_job(BackgroundJobKind::FillProjectTasks);
    let out = JobOutput { updated_spec: plan(&["x", "y", "z"]), generated_todos: vec![] };
    let o = c.apply_job_poll(JobPoll::Finished(Ok(out)));
    assert_eq!(o.action, PaneAction::SavePlan);
    assert_eq!(c.spec.tasks.len(), 3);
    assert_eq!(c.rows.len(), 3);
    assert_eq!(c.rows[2].request, "# z\n> -\n- -");
}

#[test]
fn run_needs_a_checklist() {
    let mut c = ConsoleState::new(plan(&["a"]), vec![], vec![]);
    c.handle_keys(&vec![PaneKey::Right, PaneKey::Down]);
    assert_eq!(c.focus, PaneFocus::Working);
    assert_eq!(c.handle_key(PaneKey::Char('p')), PaneAction::Nothing);
    let mut d = ConsoleState::new(plan(&["a"]), vec![task("t")], vec![]);
    d.handle_keys(&vec![PaneKey::Right, PaneKey::Down]);
    assert_eq!(d.handle_key(PaneKey::Char('p')), PaneAction::StartRun);
    assert_eq!(d.handle_key(PaneKey::Char('p')), PaneAction::Nothing);
}

#[test]
fn rows_only_move_forward() {
    let rows = build_working_rows_from_tasks(&vec![task("a"), task("b")]);
    let mut c = ConsoleState::new(plan(&[]), vec![], rows);
    c.apply_row_event(WorkingPaneEvent::SetDone { worker_id: 0, result: "ok".to_string() });
    c.apply_row_event(WorkingPaneEvent::SetRunning { worker_id: 0 });
    c.apply_row_event(WorkingPaneEvent::SetRunning { worker_id: 1 });
    c.apply_row_event(WorkingPaneEvent::SetRunning { worker_id: 9 });
    assert_eq!(c.rows[0].status, WorkingStatus::Done);
    assert_eq!(c.rows[0].result, "ok");
    assert_eq!(c.rows[1].status, WorkingStatus::Running);
    assert!(c.apply_row_event(WorkingPaneEvent::Finish));
}

#[test]
fn plan_chat_opens_on_empty_task_list() {
    let mut c = ConsoleState::new(plan(&[]), vec![], vec![]);
    c.handle_key(PaneKey::Down);
    let a = c.handle_key(PaneKey::Char('P'));
    assert_eq!(a, PaneAction::StartPlanChatAndWatch);
    assert_eq!(c.overlay, Overlay::PlanChat);
    assert!(c.plan_chat.running);
    assert!(c.watch_running);
    assert_eq!(c.plan_chat.history[0].content, "project.yaml을 기반으로 plan-code 방식의 plan.md를 작성해줘.");
    c.handle_key(PaneKey::Char('x'));
    assert_eq!(c.plan_chat.input_text, "");
    c.apply_chat_poll(ChatPoll::Finished(Ok(PlanChatReply { reply: "ok".to_string(), plan_md: "# Plan".to_string() })));
    assert!(!c.plan_chat.running);
    assert_eq!(c.plan_chat.history[1].content, "ok");
    for ch in " more ".chars() {
        c.handle_key(PaneKey::Char(ch));
    }
    assert_eq!(c.handle_key(PaneKey::Enter), PaneAction::StartPlanChat);
    assert_eq!(c.plan_chat.history[2].content, "more");
    c.apply_chat_poll(ChatPoll::Disconnected);
    assert!(!c.plan_chat.running);
    c.apply_watch_poll(WatchPoll::Ready(Ok(vec![task("p1"), task("p2")])));
    assert!(!c.watch_running);
    assert_eq!(c.spec.tasks.len(), 2);
    assert_eq!(c.rows.len(), 2);
    assert_eq!(c.overlay, Overlay::Closed);
    assert_eq!(c.focus, PaneFocus::TaskSpec);
}

#[test]
fn plan_watch_failure_keeps_plan() {
    let mut c = ConsoleState::new(plan(&[]), vec![], vec![]);
    c.handle_keys(&vec![PaneKey::Down, PaneKey::Char('P'), PaneKey::Esc]);
    assert_eq!(c.overlay, Overlay::Closed);
    c.apply_watch_poll(WatchPoll::Ready(Err("plan watcher timeout (30m)".to_string())));
    assert!(!c.watch_running);
    assert_eq!(c.status, "plan watcher failed: plan watcher timeout (30m)");
    assert!(c.spec.tasks.is_empty());
}

#[test]
fn plan_file_counts_once_written_after_baseline() {
    assert!(plan_file_generated(10, Some(5), Some(4)));
    assert!(!plan_file_generated(10, Some(4), Some(4)));
    assert!(!plan_file_generated(0, Some(9), None));
    assert!(plan_file_generated(1, Some(9), None));
    assert!(plan_file_generated(1, None, None));
    assert!(!plan_file_generated(1, None, Some(3)));
    assert!(plan_watch_timed_out(1_800_001));
    assert!(!plan_watch_timed_out(1_800_000));
}

#[test]
fn checklist_entry_matches_by_name_then_position() {
    let mut c = ConsoleState::new(plan(&["a", "b", "c"]), vec![task("b"), task("x"), task("y")], vec![]);
    c.handle_keys(&vec![PaneKey::Down, PaneKey::Down, PaneKey::Down]);
    assert_eq!(c.selected_task, 1);
    assert_eq!(c.matched_todo_index(), Some(0));
    c.handle_key(PaneKey::Up);
    assert_eq!(c.matched_todo_index(), Some(0));
    c.handle_keys(&vec![PaneKey::Down, PaneKey::Down]);
    assert_eq!(c.selected_task, 2);
    assert_eq!(c.matched_todo_index(), Some(2));
    let short = ConsoleState::new(plan(&["a", "b", "c"]), vec![task("z")], vec![]);
    assert_eq!(short.matched_todo_index(), Some(0));
    let empty = ConsoleState::new(plan(&["a"]), vec![], vec![]);
    assert_eq!(empty.matched_todo_index(), None);
}

#[test]
fn keys_during_a_job_do_nothing() {
    let mut c = ConsoleState::new(plan(&["a"]), vec![], vec![]);
    assert!(c.request_job(BackgroundJobKind::MakeTodos));
    for key in [PaneKey::Char('a'), PaneKey::Char('f'), PaneKey::Char('p'), PaneKey::Enter, PaneKey::Esc] {
        assert_eq!(c.handle_key(key), PaneAction::Nothing);
    }
    assert_eq!(c.job, Some(BackgroundJobKind::MakeTodos));
    assert_eq!(c.progress.lines.len(), 1);
}

#[test]
fn disconnect_log_ends_with_failure_and_hint() {
    let mut c = ConsoleState::new(plan(&["a"]), vec![task("t")], vec![]);
    c.request_job(BackgroundJobKind::FillProjectTasks);
    c.apply_job_poll(JobPoll::Progress("one".to_string()));
    c.apply_job_poll(JobPoll::Progress("two".to_string()));
    c.apply_job_poll(JobPoll::Disconnected);
    let n = c.progress.lines.len();
    assert_eq!(&c.progress.lines[n - 4..], &["one", "two", "failed: progress channel disconnected", "Esc/Enter: close"]);
    assert_eq!(c.spec.tasks.len(), 1);
    assert_eq!(c.todos.len(), 1);
}

#[test]
fn finished_job_takes_the_new_plan() {
    let mut c = ConsoleState::new(plan(&["a"]), vec![], vec![]);
    c.request_job(BackgroundJobKind::MakeTodos);
    let out = JobOutput { updated_spec: plan(&["a", "b"]), generated_todos: vec![task("t")] };
    c.apply_job_poll(JobPoll::Finished(Ok(out)));
    assert_eq!(c.spec.tasks.len(), 2);
    let n = c.progress.lines.len();
    assert_eq!(&c.progress.lines[n - 3..], &["done: appended 1 items", "auto-close: success", "Esc/Enter: close"]);
}

#[test]
fn run_blocked_status_without_checklist() {
    let mut c = ConsoleState::new(plan(&["a"]), vec![], vec![]);
    c.handle_keys(&vec![PaneKey::Right, PaneKey::Down]);
    c.handle_key(PaneKey::Char('p'));
    assert_eq!(c.status, "run blocked: generate todos first (todos pane: p)");
    assert!(!c.run_requested);
}

#[test]
fn confirm_without_header_keeps_text() {
    let mut c = ConsoleState::new(plan(&[]), vec![], vec![]);
    c.handle_keys(&vec![PaneKey::Down, PaneKey::Enter, PaneKey::Char('x'), PaneKey::Down, PaneKey::Enter]);
    assert_eq!(c.overlay, Overlay::Request);
    assert_eq!(c.request.text, "x");
    c.handle_key(PaneKey::Up);
    assert_eq!(c.request.focus, RequestPaneFocus::Input);
}

#[test]
fn chat_disconnect_is_logged() {
    let mut c = ConsoleState::new(plan(&[]), vec![], vec![]);
    c.handle_keys(&vec![PaneKey::Down, PaneKey::Char('P')]);
    c.apply_chat_poll(ChatPoll::Disconnected);
    assert!(!c.plan_chat.running);
    assert_eq!(c.plan_chat.lines.last().map(|s| s.as_str()), Some("error> plan-chat channel disconnected"));
}

#[test]
fn console_closes_when_run_is_over() {
    let rows = build_working_rows_from_tasks(&vec![task("a")]);
    let mut c = ConsoleState::new(plan(&[]), vec![], rows);
    assert!(!c.run_finished(true));
    c.apply_row_event(WorkingPaneEvent::SetDone { worker_id: 0, result: "ok".to_string() });
    assert!(!c.run_finished(false));
    assert!(c.run_finished(true));
}
