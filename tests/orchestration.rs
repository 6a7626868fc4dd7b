use orchestra::project::{
    add_request_message, append_features, build_check_last_prompt, domains_from_scalar,
    find_git_root_dir, join_path_text, load_default_todos_template_text, normalize_root_dir,
    plan_parallel_workers, resolve_ai_options, resolve_blueprint_file_path, resolve_project_dir,
    resolve_task_blueprint_file_name, set_default_requset_messages, string_or_list_one, AiConfig,
    ParallelError,
};
use orchestra::prompt::{
    build_post_parallel_review_prompt, build_prompt, build_prompt_with_postpix, build_run_todos_prompt,
    extrac_postpix_lines, extract_result_value_for_ui, extract_yaml_candidate, normalize_server_url,
    parse_todos_prompt_template, quote_shell_single, split_pane_command, task_to_message, ServerInfo,
};
use orchestra::model::TaskSpecItem;

fn ancestors_of(start: &std::path::Path) -> (Vec<String>, Vec<bool>) {
    let mut names = Vec::new();
    let mut has_git = Vec::new();
    for p in start.ancestors() {
        names.push(p.to_string_lossy().to_string());
        has_git.push(p.join(".git").exists());
    }
    (names, has_git)
}

#[test]
fn normalize_server_url_appends_results_path() {
    assert_eq!(
        normalize_server_url("http://127.0.0.1:7878/"),
        "http://127.0.0.1:7878/v1/results"
    );
}

#[test]
fn resolve_ai_options_prefers_cli_model() {
    let options = resolve_ai_options(Some("my-codex".to_string()), None);
    assert_eq!(options.model, "my-codex");
}

#[test]
fn prompt_contains_server_info() {
    let server = ServerInfo {
        protocol: "http+json".to_string(),
        callback_url: "http://127.0.0.1:7878/v1/results".to_string(),
    };
    let prompt = build_prompt(&server, 1, "run test");
    assert!(prompt.contains("http+json"));
    assert!(!prompt.contains("worker #1"));
}

#[test]
fn default_request_messages_has_expected_values() {
    let request_messages = set_default_requset_messages();
    assert_eq!(request_messages.len(), 4);
}

#[test]
fn add_request_message_appends_value() {
    let mut request_messages = vec!["base".to_string()];
    add_request_message(&mut request_messages, "extra");
    assert_eq!(request_messages, vec!["base".to_string(), "extra".to_string()]);
}

#[test]
fn postpix_prompt_is_appended_to_base_prompt() {
    let todos_template = "Step 순서\n{{body}}";
    let postpix = "SUMMARY: ...\nRESULT: ...\nREPORT: task complete - answer=...";
    let combined = build_prompt_with_postpix(
        "base prompt",
        "  - name: sample\n    type: action",
        todos_template,
        postpix,
    );
    assert!(combined.contains("REPORT:"));
    assert_eq!(
        combined,
        "base prompt\n\nStep 순서\n  - name: sample\n    type: action\n\nSUMMARY: ...\nRESULT: ...\nREPORT: task complete - answer=..."
    );
}

#[test]
fn run_todos_prompt_includes_single_item_body() {
    let built = build_run_todos_prompt("Step 순서\n{{body}}\n끝", "  - name: dday-calculation");
    assert!(built.contains("dday-calculation"));
    assert!(!built.contains("{{body}}"));
}

#[test]
fn parse_todos_prompt_template_replaces_placeholder() {
    let prompt = "A\n{{body}}\nB";
    let parsed = parse_todos_prompt_template(prompt, "TODO-BODY");
    assert_eq!(parsed, "A\nTODO-BODY\nB");
}

#[test]
fn template_placeholder_is_replaced_everywhere() {
    assert_eq!(parse_todos_prompt_template("{{body}}-{{body}}", "x"), "x-x");
    assert_eq!(parse_todos_prompt_template("{{bod}}", "x"), "{{bod}}");
}

#[test]
fn find_git_root_dir_does_not_return_home_tree_root() {
    let (names, has_git) = ancestors_of(std::path::Path::new("/home/tree/project/orchestra"));
    let resolved = find_git_root_dir(&names, &has_git);
    assert_ne!(resolved.as_deref(), Some("/home/tree"));
}

#[test]
fn git_root_search_stops_at_limit() {
    let names = vec!["/home/tree/a".to_string(), "/home/tree".to_string(), "/home".to_string()];
    assert_eq!(find_git_root_dir(&names, &vec![false, true, true]), None);
    assert_eq!(find_git_root_dir(&names, &vec![true, true, true]), Some("/home/tree/a".to_string()));
}

#[test]
fn extract_postpix_lines_keeps_only_required_three_lines() {
    let raw = "noise\nSUMMARY: s\nother\nRESULT: r\nREPORT: task complete - answer=a\nextra";
    assert_eq!(
        extrac_postpix_lines(raw),
        "SUMMARY: s\nRESULT: r\nREPORT: task complete - answer=a"
    );
}

#[test]
fn postpix_lines_fall_back_to_trimmed_answer() {
    assert_eq!(extrac_postpix_lines("  SUMMARY: s\nRESULT: r \n"), "SUMMARY: s\nRESULT: r");
}

#[test]
fn extract_result_value_for_ui_prefers_answer_value() {
    let raw = "SUMMARY: s\nRESULT: 제주\nREPORT: task complete - answer=부산";
    assert_eq!(extract_result_value_for_ui(raw), "부산");
}

#[test]
fn result_value_falls_back_to_result_line_then_text() {
    assert_eq!(extract_result_value_for_ui("x\nRESULT:  제주 \nanswer=  "), "제주");
    assert_eq!(extract_result_value_for_ui(" a\nb \n"), "a / b");
}

#[test]
fn quote_shell_single_escapes_single_quote() {
    assert_eq!(quote_shell_single("a'b"), "'a'\"'\"'b'");
}

#[test]
fn split_pane_command_quotes_message() {
    assert_eq!(split_pane_command("it's"), "orc show-ui --add-msg 'it'\"'\"'s'");
}

#[test]
fn yaml_candidate_prefers_fenced_yaml() {
    assert_eq!(extract_yaml_candidate("text\n```yaml\na: 1\n```\nmore"), "a: 1");
    assert_eq!(extract_yaml_candidate("```\nb: 2\n```"), "b: 2");
    assert_eq!(extract_yaml_candidate("  c: 3 \n"), "c: 3");
    assert_eq!(extract_yaml_candidate("```yaml\nd: 4"), "```yaml\nd: 4");
}

#[test]
fn task_message_lists_each_field() {
    let task = TaskSpecItem {
        name: "login".to_string(),
        task_type: "action".to_string(),
        scope: vec!["src/a.rs".to_string()],
        rule: vec![],
        step: vec!["one".to_string(), "two".to_string()],
        ..TaskSpecItem::default()
    };
    assert_eq!(
        task_to_message(&task),
        "  - name: login\n    type: action\n    scope:\n    - src/a.rs\n    rule:\n\n    step:\n    - one\n    - two"
    );
}

#[test]
fn review_prompt_names_domains() {
    let p = build_post_parallel_review_prompt("name: x", &vec!["auth".to_string(), "pay".to_string()]);
    assert!(p.contains("allowed_domains: [auth, pay]\n\nspec.yaml:\nname: x"));
    let q = build_post_parallel_review_prompt("", &vec![]);
    assert!(q.contains("allowed_domains: [(none)]"));
}

#[test]
fn ai_options_fall_back_to_config_and_default() {
    let cfg = AiConfig { model: Some(" gpt ".to_string()), auto: Some(true) };
    let o = resolve_ai_options(Some("  ".to_string()), Some(cfg));
    assert_eq!(o.model, "gpt");
    assert!(o.auto);
    let d = resolve_ai_options(None, None);
    assert_eq!(d.model, "codex");
    assert!(!d.auto);
}

#[test]
fn default_template_used_only_when_bundled_one_has_text() {
    assert_eq!(load_default_todos_template_text(None), "tasks: []\n");
    assert_eq!(load_default_todos_template_text(Some("  \n".to_string())), "tasks: []\n");
    assert_eq!(load_default_todos_template_text(Some("todos: []\n".to_string())), "todos: []\n");
}

#[test]
fn blueprint_name_is_first_existing_candidate() {
    assert_eq!(resolve_task_blueprint_file_name(&vec![false, true, true]), ("tasks.yaml".to_string(), false));
    assert_eq!(resolve_task_blueprint_file_name(&vec![false, false, false]), ("todos.yaml".to_string(), true));
}

#[test]
fn project_paths_are_joined_under_dot_project() {
    assert_eq!(resolve_project_dir("/repo", "test"), "/repo/.project/test");
    assert_eq!(resolve_blueprint_file_path("/repo/", "test", "todos.yaml"), "/repo/.project/test/todos.yaml");
    assert_eq!(join_path_text("/repo", "/abs"), "/abs");
}

#[test]
fn dot_project_root_stands_for_its_parent() {
    assert_eq!(normalize_root_dir("/repo/.project"), "/repo");
    assert_eq!(normalize_root_dir("/repo/.project/"), "/repo");
    assert_eq!(normalize_root_dir("/.project"), "/");
    assert_eq!(normalize_root_dir("/repo/src"), "/repo/src");
}

#[test]
fn parallel_plan_rotates_messages() {
    let msgs = vec!["a".to_string(), "b".to_string()];
    assert_eq!(plan_parallel_workers(3, &msgs), Ok(vec!["a".to_string(), "b".to_string(), "a".to_string()]));
    assert_eq!(plan_parallel_workers(0, &msgs), Err(ParallelError::NoWorkers));
    assert_eq!(plan_parallel_workers(2, &vec![]), Err(ParallelError::NoMessages));
}

#[test]
fn features_are_appended_without_blanks_or_repeats() {
    let existing = vec!["auth.login".to_string()];
    let new = vec![" auth.login ".to_string(), "".to_string(), "pay.send".to_string(), "pay.send".to_string()];
    assert_eq!(append_features(&existing, &new), vec!["auth.login".to_string(), "pay.send".to_string()]);
}

#[test]
fn scalar_domains_are_trimmed_or_dropped() {
    assert_eq!(domains_from_scalar("  auth "), vec!["auth".to_string()]);
    assert!(domains_from_scalar("   ").is_empty());
    assert_eq!(string_or_list_one(" auth ".to_string()), vec![" auth ".to_string()]);
    assert!(string_or_list_one("  ".to_string()).is_empty());
}

#[test]
fn check_last_prompt_adds_rules() {
    let p = build_check_last_prompt(Some("T".to_string()));
    assert!(p.starts_with("T\n\n추가 규칙:"));
    assert!(build_check_last_prompt(None).starts_with("스킬 사용:"));
}

#[test]
fn plan_chat_output_splits_reply_and_plan() {
    let (reply, plan) = orchestra::prompt::parse_plan_chat_output("x [CHAT] hi [/CHAT]\n[PLAN_MD]\n# P\n[/PLAN_MD]");
    assert_eq!(reply, "hi");
    assert_eq!(plan, "# P");
    let (r2, p2) = orchestra::prompt::parse_plan_chat_output("  plain  ");
    assert_eq!(r2, "plain");
    assert_eq!(p2, "plain");
}

#[test]
fn enrichment_prompt_fills_placeholders() {
    let c = orchestra::prompt::extract_domain_candidates(&vec![" ".to_string()]);
    assert_eq!(c, vec!["none".to_string()]);
    let p = orchestra::prompt::build_enrich_spec_prompt("D={{domain_candidates}} S={{spec_yaml}}", "tasks: []", &vec!["a".to_string(), "b".to_string()]);
    assert_eq!(p, "D=a, b S=tasks: []");
    let d = orchestra::prompt::default_enrich_template_text();
    assert!(d.contains("{{domain_candidates}}") && d.contains("{{spec_yaml}}"));
}

#[test]
fn checklist_prompt_ends_with_template_and_plan() {
    let p = orchestra::prompt::build_make_todos_prompt("name: x", "tasks: []", &vec![]);
    assert!(p.ends_with("allowed_domains(from spec.features.domain): [(none)]\n\ntodos.yaml template:\ntasks: []\n\nspec.yaml:\nname: x"));
}

#[test]
fn plan_chat_prompt_lists_history() {
    let turns = vec![
        orchestra::console::PlanChatTurn { role: "user".to_string(), content: "hi".to_string() },
        orchestra::console::PlanChatTurn { role: "assistant".to_string(), content: "yo".to_string() },
    ];
    let p = orchestra::prompt::build_plan_chat_prompt("name: x", &turns, "next");
    assert!(p.ends_with("project.yaml:\nname: x\n\nhistory:\nuser: hi\nassistant: yo\n\nlatest_user_message:\nnext\n"));
}

#[test]
fn append_todos_prompt_lists_domains() {
    let p = orchestra::prompt::build_append_todos_prompt("name: x", "tasks: []", &vec!["auth".to_string()]);
    assert!(p.starts_with("spec.yaml을 기준으로 todos.yaml에 append할 tasks를 작성해줘."));
    assert!(p.ends_with("allowed_domains: [auth]\n\ntodos template:\ntasks: []\n\nspec.yaml:\nname: x"));
}

#[test]
fn tag_block_needs_both_tags_in_order() {
    assert_eq!(orchestra::prompt::extract_tag_block("[/A] x [A]", "[A]", "[/A]"), None);
    assert_eq!(orchestra::prompt::extract_tag_block("[A] x [/A]", "[A]", "[/A]"), Some("x".to_string()));
    assert_eq!(orchestra::prompt::extract_tag_block("abc", "", ""), Some(String::new()));
}
