use vstd::prelude::*;

use crate::model::{copy_strings, text, TaskSpecItem};
use crate::prompt::trim_end_char;
use crate::text::{chars_of, concat, string_of_range, trim, trimmed};

verus! {

/// The model and approval mode the workers run with.
pub struct AiRuntimeOptions {
    pub model: String,
    pub auto: bool,
}

/// The `ai` section of the application's configuration file.
pub struct AiConfig {
    pub model: Option<String>,
    pub auto: Option<bool>,
}

/// The model chosen: a non-blank command-line value, else a non-blank model
/// from the configuration, else `codex`; trimmed.
pub open spec fn chosen_model(cli: Option<Seq<char>>, cfg: Option<Option<Seq<char>>>) -> Seq<char> {
    if cli is Some && trim(cli->0).len() > 0 {
        trim(cli->0)
    } else if cfg is Some && cfg->0 is Some && trim(cfg->0->0).len() > 0 {
        trim(cfg->0->0)
    } else {
        "codex"@
    }
}

/// The model of a configuration section, if the section is there.
pub open spec fn config_model(config: Option<AiConfig>) -> Option<Option<Seq<char>>> {
    match config {
        Some(c) => Some(
            match c.model {
                Some(m) => Some(m@),
                None => None,
            },
        ),
        None => None,
    }
}

/// The value of a `String` that may be absent.
pub open spec fn opt_text(o: Option<String>) -> Option<Seq<char>> {
    match o {
        Some(s) => Some(s@),
        None => None,
    }
}

/// Chooses the workers' model and approval mode from the command line and the
/// configuration: the command line wins for the model; approval bypass is on
/// only where the configuration turns it on.
pub fn resolve_ai_options(cli_value: Option<String>, config: Option<AiConfig>) -> (r: AiRuntimeOptions)
    ensures
        r.model@ == chosen_model(opt_text(cli_value), config_model(config)),
        r.auto == (config is Some && config->0.auto == Some(true)),
{
    let mut model = text("codex");
    let mut auto = false;
    match config {
        Some(cfg) => {
            match cfg.model {
                Some(v) => {
                    let t = trimmed(v.as_str());
                    if !t.as_str().is_empty() {
                        model = t;
                    }
                },
                None => {},
            }
            auto = match cfg.auto {
                Some(b) => b,
                None => false,
            };
        },
        None => {},
    }
    match cli_value {
        Some(v) => {
            let t = trimmed(v.as_str());
            if !t.as_str().is_empty() {
                model = t;
            }
        },
        None => {},
    }
    AiRuntimeOptions { model, auto }
}

/// The request messages the console starts with when a project has none.
pub open spec fn default_request_messages() -> Seq<Seq<char>> {
    seq!["숫자이름 말하기"@, "한국 관광도시 말하기"@, "현재 일본 시각"@, "내일 서울 행사 안내"@]
}

/// Appends one request message.
pub fn add_request_message(request_messages: &mut Vec<String>, message: &str)
    ensures
        final(request_messages).deep_view() == old(request_messages).deep_view().push(message@),
{
    let ghost before = request_messages.deep_view();
    request_messages.push(text(message));
    assert(request_messages.deep_view() =~= before.push(message@));
}

/// The request messages the console starts with when a project has none.
pub fn set_default_requset_messages() -> (r: Vec<String>)
    ensures
        r.deep_view() == default_request_messages(),
{
    let mut request_messages: Vec<String> = Vec::new();
    add_request_message(&mut request_messages, "숫자이름 말하기");
    add_request_message(&mut request_messages, "한국 관광도시 말하기");
    add_request_message(&mut request_messages, "현재 일본 시각");
    add_request_message(&mut request_messages, "내일 서울 행사 안내");
    assert(request_messages.deep_view() =~= default_request_messages());
    request_messages
}

/// The checklist written into a new project: the bundled template where it
/// has text, else an empty task list.
pub open spec fn default_todos_template(embedded: Option<Seq<char>>) -> Seq<char> {
    if embedded is Some && trim(embedded->0).len() > 0 {
        embedded->0
    } else {
        "tasks: []\n"@
    }
}

/// The checklist written into a new project.
pub fn load_default_todos_template_text(embedded: Option<String>) -> (r: String)
    ensures
        r@ == default_todos_template(opt_text(embedded)),
{
    match embedded {
        Some(t) => {
            let tt = trimmed(t.as_str());
            if tt.as_str().is_empty() {
                text("tasks: []\n")
            } else {
                t
            }
        },
        None => text("tasks: []\n"),
    }
}

/// The checklist file names a project may use, in the order they are tried.
pub open spec fn blueprint_candidates() -> Seq<Seq<char>> {
    seq!["todos.yaml"@, "tasks.yaml"@, "tasks.ymal"@]
}

/// The checklist file names a project may use, in the order they are tried.
pub fn blueprint_candidate_names() -> (r: Vec<String>)
    ensures
        r.deep_view() == blueprint_candidates(),
        r.len() == 3,
{
    let mut r: Vec<String> = Vec::new();
    add_request_message(&mut r, "todos.yaml");
    add_request_message(&mut r, "tasks.yaml");
    add_request_message(&mut r, "tasks.ymal");
    assert(r.deep_view() =~= blueprint_candidates());
    r
}

/// The first candidate index whose file exists, from `k` on.
pub open spec fn first_existing(exists: Seq<bool>, k: int) -> Option<int>
    decreases exists.len() - k,
{
    if k < 0 || k >= exists.len() {
        None
    } else if exists[k] {
        Some(k)
    } else {
        first_existing(exists, k + 1)
    }
}

/// Picks the checklist file of a project from which candidates exist: the
/// first that does, or `todos.yaml`, which must then be created first (the
/// second part of the result).
pub fn resolve_task_blueprint_file_name(exists: &Vec<bool>) -> (r: (String, bool))
    requires
        exists.len() == 3,
    ensures
        match first_existing(exists@, 0) {
            Some(i) => r.0@ == blueprint_candidates()[i] && !r.1,
            None => r.0@ == "todos.yaml"@ && r.1,
        },
{
    let names = blueprint_candidate_names();
    let mut i: usize = 0;
    while i < 3
        invariant
            i <= 3,
            exists.len() == 3,
            names.deep_view() == blueprint_candidates(),
            names.len() == 3,
            first_existing(exists@, 0) == first_existing(exists@, i as int),
        decreases 3 - i,
    {
        if exists[i] {
            assert(names.deep_view()[i as int] == names@[i as int]@);
            return (names[i].clone(), false);
        }
        i = i + 1;
    }
    (text("todos.yaml"), true)
}

/// The directory above which no repository is looked for.
pub open spec fn search_limit() -> Seq<char> {
    "/home/tree"@
}

/// The nearest repository root among `ancestors` (the start directory first,
/// then each parent), stopping at the search limit.
pub open spec fn git_root_from(ancestors: Seq<Seq<char>>, has_git: Seq<bool>, k: int) -> Option<int>
    decreases ancestors.len() - k,
{
    if k < 0 || k >= ancestors.len() || ancestors[k] == search_limit() {
        None
    } else if has_git[k] {
        Some(k)
    } else {
        git_root_from(ancestors, has_git, k + 1)
    }
}

/// The nearest directory that holds a repository, walking up from the start
/// directory, never at or above the search limit.
pub fn find_git_root_dir(ancestors: &Vec<String>, has_git: &Vec<bool>) -> (r: Option<String>)
    requires
        has_git.len() == ancestors.len(),
    ensures
        match git_root_from(ancestors.deep_view(), has_git@, 0) {
            Some(i) => r is Some && r->0@ == ancestors.deep_view()[i],
            None => r is None,
        },
{
    let limit = text("/home/tree");
    let mut k: usize = 0;
    while k < ancestors.len()
        invariant
            k <= ancestors.len(),
            has_git.len() == ancestors.len(),
            limit@ == search_limit(),
            git_root_from(ancestors.deep_view(), has_git@, 0) == git_root_from(ancestors.deep_view(), has_git@, k as int),
        decreases ancestors.len() - k,
    {
        if ancestors[k] == limit {
            return None;
        }
        if has_git[k] {
            return Some(ancestors[k].clone());
        }
        k = k + 1;
    }
    None
}

/// The project root: a `.project` directory stands for its parent.
pub open spec fn root_dir(path: Seq<char>) -> Seq<char> {
    let t = trim_end_char(path, '/');
    if t.len() >= 9 && t.subrange(t.len() - 9, t.len() as int) == "/.project"@ {
        if t.len() == 9 {
            "/"@
        } else {
            t.subrange(0, t.len() - 9)
        }
    } else if t == ".project"@ {
        Seq::empty()
    } else {
        path
    }
}

/// The project root of `path`: its parent where it names a `.project` directory.
pub fn normalize_root_dir(path: &str) -> (r: String)
    ensures
        r@ == root_dir(path@),
{
    let v = chars_of(path);
    let mut hi: usize = v.len();
    assert(v@.subrange(0, hi as int) =~= v@);
    while hi > 0 && v[hi - 1] == '/'
        invariant
            hi <= v.len(),
            trim_end_char(v@, '/') == trim_end_char(v@.subrange(0, hi as int), '/'),
        decreases hi,
    {
        assert(v@.subrange(0, hi as int).drop_last() =~= v@.subrange(0, hi - 1));
        hi = hi - 1;
    }
    proof {
        let u = v@.subrange(0, hi as int);
        if u.len() > 0 {
            assert(u.last() == v@[hi - 1]);
        }
        reveal_strlit("/.project");
        reveal_strlit(".project");
    }
    let t = string_of_range(&v, 0, hi);
    let tv = chars_of(t.as_str());
    let suffix = chars_of("/.project");
    if hi >= 9 && crate::prompt::occurs_at(&tv, &suffix, hi - 9) {
        if hi == 9 {
            return text("/");
        }
        return string_of_range(&v, 0, hi - 9);
    }
    let dot = chars_of(".project");
    if hi == 8 && crate::prompt::occurs_at(&tv, &dot, 0) {
        assert(tv@ =~= ".project"@);
        return String::new();
    }
    proof {
        if tv@ == ".project"@ {
            assert(tv@.subrange(0, 8) =~= tv@);
        }
    }
    text(path)
}

/// `name` under `base`, as `Path::join` gives it: an absolute name replaces
/// the base, and one separator stands between the two.
pub open spec fn join_path(base: Seq<char>, name: Seq<char>) -> Seq<char> {
    if name.len() > 0 && name[0] == '/' {
        name
    } else if base.len() == 0 || base.last() == '/' {
        base + name
    } else {
        base + "/"@ + name
    }
}

/// `name` under `base`.
pub fn join_path_text(base: &str, name: &str) -> (r: String)
    ensures
        r@ == join_path(base@, name@),
{
    let n = chars_of(name);
    if n.len() > 0 && n[0] == '/' {
        return text(name);
    }
    let b = chars_of(base);
    if b.len() == 0 || b[b.len() - 1] == '/' {
        concat(base, name)
    } else {
        let mut r = concat(base, "/");
        r.append(name);
        r
    }
}

/// The directory of a project: `.project/<name>` under the root.
pub fn resolve_project_dir(base: &str, project_name: &str) -> (r: String)
    ensures
        r@ == join_path(join_path(base@, ".project"@), project_name@),
{
    let p = join_path_text(base, ".project");
    join_path_text(p.as_str(), project_name)
}

/// A file of a project's directory.
pub fn resolve_blueprint_file_path(base: &str, project_name: &str, file_name: &str) -> (r: String)
    ensures
        r@ == join_path(join_path(join_path(base@, ".project"@), project_name@), file_name@),
{
    let d = resolve_project_dir(base, project_name);
    join_path_text(d.as_str(), file_name)
}

/// Why a parallel run was refused before any worker started.
#[derive(Debug, Clone, Copy, PartialEq, Eq, Structural)]
pub enum ParallelError {
    NoWorkers,
    NoMessages,
}

/// The message each of `n` workers gets: the messages taken in turn.
pub fn plan_parallel_workers(n: usize, msgs: &Vec<String>) -> (r: Result<Vec<String>, ParallelError>)
    ensures
        n == 0 ==> r == Err::<Vec<String>, ParallelError>(ParallelError::NoWorkers),
        n > 0 && msgs.len() == 0 ==> r == Err::<Vec<String>, ParallelError>(ParallelError::NoMessages),
        n > 0 && msgs.len() > 0 ==> r is Ok && r->Ok_0.len() == n && forall|i: int|
            0 <= i < n ==> (#[trigger] r->Ok_0.deep_view()[i]) == msgs.deep_view()[i % msgs.len() as int],
{
    if n == 0 {
        return Err(ParallelError::NoWorkers);
    }
    if msgs.len() == 0 {
        return Err(ParallelError::NoMessages);
    }
    let mut r: Vec<String> = Vec::new();
    let mut i: usize = 0;
    while i < n
        invariant
            i <= n,
            msgs.len() > 0,
            r.len() == i,
            forall|k: int| 0 <= k < i ==> (#[trigger] r.deep_view()[k]) == msgs.deep_view()[k % msgs.len() as int],
        decreases n - i,
    {
        let m = msgs[i % msgs.len()].clone();
        let ghost before = r.deep_view();
        r.push(m);
        assert(r.deep_view() =~= before.push(msgs.deep_view()[i as int % msgs.len() as int]));
        i = i + 1;
    }
    Ok(r)
}

/// A domain list written as one string: none when it is blank, else that string.
pub fn string_or_list_one(v: String) -> (r: Vec<String>)
    ensures
        trim(v@).len() == 0 ==> r.len() == 0,
        trim(v@).len() > 0 ==> r.deep_view() == seq![v@],
{
    let t = trimmed(v.as_str());
    let mut r: Vec<String> = Vec::new();
    if !t.as_str().is_empty() {
        r.push(v);
        assert(r.deep_view() =~= seq![r@[0]@]);
    }
    r
}

/// The domains a plan declares as one string: none when it is blank, else the
/// trimmed string.
pub fn domains_from_scalar(one: &str) -> (r: Vec<String>)
    ensures
        trim(one@).len() == 0 ==> r.len() == 0,
        trim(one@).len() > 0 ==> r.deep_view() == seq![trim(one@)],
{
    let t = trimmed(one);
    let mut r: Vec<String> = Vec::new();
    if !t.as_str().is_empty() {
        r.push(t);
        assert(r.deep_view() =~= seq![r@[0]@]);
    }
    r
}

/// The features after adding `new` to `existing` in order: each trimmed, the
/// blank ones and those already listed left out.
pub open spec fn features_after(existing: Seq<Seq<char>>, new: Seq<Seq<char>>) -> Seq<Seq<char>>
    decreases new.len(),
{
    if new.len() == 0 {
        existing
    } else {
        let acc = features_after(existing, new.drop_last());
        let t = trim(new.last());
        if t.len() == 0 || acc.contains(t) {
            acc
        } else {
            acc.push(t)
        }
    }
}

/// Adds the reviewed features to a plan's feature list, without blanks or repeats.
pub fn append_features(existing: &Vec<String>, new_features: &Vec<String>) -> (r: Vec<String>)
    ensures
        r.deep_view() == features_after(existing.deep_view(), new_features.deep_view()),
{
    let mut acc = copy_strings(existing);
    let mut i: usize = 0;
    while i < new_features.len()
        invariant
            i <= new_features.len(),
            acc.deep_view() == features_after(existing.deep_view(), new_features.deep_view().take(i as int)),
        decreases new_features.len() - i,
    {
        assert(new_features.deep_view().take(i as int + 1).drop_last() =~= new_features.deep_view().take(i as int));
        let t = trimmed(new_features[i].as_str());
        if !t.as_str().is_empty() {
            let mut found = false;
            let mut j: usize = 0;
            while j < acc.len()
                invariant
                    j <= acc.len(),
                    found <==> exists|k: int| 0 <= k < j && (#[trigger] acc.deep_view()[k]) == t@,
                decreases acc.len() - j,
            {
                assert(acc.deep_view()[j as int] == acc@[j as int]@);
                if acc[j] == t {
                    found = true;
                }
                j = j + 1;
            }
            proof {
                if acc.deep_view().contains(t@) {
                    let k = choose|k: int| 0 <= k < acc.deep_view().len() && acc.deep_view()[k] == t@;
                    assert(acc.deep_view()[k] == t@);
                }
            }
            if !found {
                let ghost before = acc.deep_view();
                acc.push(t);
                assert(acc.deep_view() =~= before.push(trim(new_features.deep_view()[i as int])));
            }
        }
        i = i + 1;
    }
    assert(new_features.deep_view().take(new_features.len() as int) =~= new_features.deep_view());
    acc
}

/// The instructions added to the clean-up prompt.
pub open spec fn check_last_rules() -> Seq<char> {
    "\n\n추가 규칙:\n- 현재 작업 트리는 refactor branch에서만 수정한다.\n- 수정 후 핵심 변경 사항을 간단히 요약한다."@
}

/// The clean-up prompt: the bundled template, or the built-in one where none
/// is bundled, and the fixed extra rules.
pub fn build_check_last_prompt(template: Option<String>) -> (r: String)
    ensures
        r@ == (match template {
            Some(t) => t@,
            None => "스킬 사용:\n- /home/tree/ai/skills/functional-code-structure/SKILL.md\n요청:\n코드 개선점이 있으면 수정까지 진행해줘."@,
        }) + check_last_rules(),
{
    let base = match template {
        Some(t) => t,
        None => text(
            "스킬 사용:\n- /home/tree/ai/skills/functional-code-structure/SKILL.md\n요청:\n코드 개선점이 있으면 수정까지 진행해줘.",
        ),
    };
    concat(
        base.as_str(),
        "\n\n추가 규칙:\n- 현재 작업 트리는 refactor branch에서만 수정한다.\n- 수정 후 핵심 변경 사항을 간단히 요약한다.",
    )
}

/// The tasks of a checklist document that may list them under `tasks` or
/// under `todos`: `tasks` unless it is empty.
pub fn select_todo_items(tasks: Vec<TaskSpecItem>, todos: Vec<TaskSpecItem>) -> (r: Vec<TaskSpecItem>)
    ensures
        r == (if tasks.len() == 0 {
            todos
        } else {
            tasks
        }),
{
    if tasks.len() == 0 {
        todos
    } else {
        tasks
    }
}

} // verus!
