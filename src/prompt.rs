use vstd::prelude::*;

use crate::console::PlanChatTurn;
use crate::model::{text, TaskSpecItem, TaskView};
use crate::text::{
    chars_of, concat, join, join_strings, line_bounds, lines_of, ranges_of, string_of_range, trim,
    trim_bounds, trimmed,
};

verus! {

/// `p` occurs in `s` at position `i`.
pub open spec fn matches_at(s: Seq<char>, p: Seq<char>, i: int) -> bool {
    0 <= i && i + p.len() <= s.len() && s.subrange(i, i + p.len()) == p
}

/// The first position at or after `i` where `p` occurs in `s`, as `str::find`
/// reports it.
pub open spec fn find_from(s: Seq<char>, p: Seq<char>, i: int) -> Option<int>
    decreases s.len() - i,
{
    if i < 0 || i + p.len() > s.len() {
        None
    } else if matches_at(s, p, i) {
        Some(i)
    } else if p.len() == 0 {
        None
    } else {
        find_from(s, p, i + 1)
    }
}

/// Whether `p` occurs in `v` at position `i`.
pub fn occurs_at(v: &Vec<char>, p: &Vec<char>, i: usize) -> (r: bool)
    ensures
        r == matches_at(v@, p@, i as int),
{
    if i > v.len() || p.len() > v.len() - i {
        return false;
    }
    let mut k: usize = 0;
    while k < p.len()
        invariant
            k <= p.len(),
            i + p.len() <= v.len(),
            forall|j: int| 0 <= j < k ==> v@[i + j] == #[trigger] p@[j],
        decreases p.len() - k,
    {
        if v[i + k] != p[k] {
            assert(v@.subrange(i as int, i + p.len())[k as int] != p@[k as int]);
            return false;
        }
        k = k + 1;
    }
    assert(v@.subrange(i as int, i + p.len()) =~= p@);
    true
}

/// The first position at or after `from` where `p` occurs in `v`.
pub fn find_text(v: &Vec<char>, p: &Vec<char>, from: usize) -> (r: Option<usize>)
    ensures
        match find_from(v@, p@, from as int) {
            Some(i) => r is Some && r->0 as int == i,
            None => r is None,
        },
        r is Some ==> from <= r->0 && r->0 + p.len() <= v.len(),
{
    if p.len() == 0 {
        if from <= v.len() {
            assert(v@.subrange(from as int, from as int) =~= p@);
            return Some(from);
        }
        return None;
    }
    let mut i: usize = from;
    while i <= v.len() && p.len() <= v.len() - i
        invariant
            from <= i,
            p.len() > 0,
            find_from(v@, p@, from as int) == find_from(v@, p@, i as int),
        decreases v.len() + 1 - i,
    {
        if occurs_at(v, p, i) {
            return Some(i);
        }
        i = i + 1;
    }
    None
}

/// `s` with every occurrence of `pat`, taken from the left without overlap,
/// replaced by `rep`, as `str::replace` gives it.
pub open spec fn replace_all(s: Seq<char>, pat: Seq<char>, rep: Seq<char>) -> Seq<char>
    decreases s.len(),
{
    if pat.len() == 0 || s.len() < pat.len() {
        s
    } else if s.subrange(0, pat.len() as int) == pat {
        rep + replace_all(s.subrange(pat.len() as int, s.len() as int), pat, rep)
    } else {
        seq![s[0]] + replace_all(s.drop_first(), pat, rep)
    }
}

/// `s` with every occurrence of a non-empty `pat` replaced by `rep`; the
/// crate calls it with literal patterns only.
pub(crate) fn replace_text(s: &str, pat: &str, rep: &str) -> (r: String)
    requires
        pat@.len() > 0,
    ensures
        r@ == replace_all(s@, pat@, rep@),
{
    let v = chars_of(s);
    let p = chars_of(pat);
    let n = v.len();
    let mut out = String::new();
    let mut i: usize = 0;
    assert(v@.subrange(0, n as int) =~= v@);
    assert(out@ + replace_all(v@, p@, rep@) =~= replace_all(v@, p@, rep@));
    while i < n
        invariant
            n == v.len(),
            v@ == s@,
            p@ == pat@,
            p.len() > 0,
            i <= n,
            out@ + replace_all(v@.subrange(i as int, n as int), p@, rep@) == replace_all(v@, p@, rep@),
        decreases n - i,
    {
        let ghost rest = v@.subrange(i as int, n as int);
        if p.len() > n - i {
            let tail = string_of_range(&v, i, n);
            out.append(tail.as_str());
            assert(out@ =~= replace_all(v@, p@, rep@));
            i = n;
        } else if occurs_at(&v, &p, i) {
            assert(rest.subrange(0, p@.len() as int) =~= v@.subrange(i as int, i + p.len()));
            assert(rest.subrange(p@.len() as int, rest.len() as int) =~= v@.subrange(i + p.len(), n as int));
            out.append(rep);
            i = i + p.len();
        } else {
            assert(rest.subrange(0, p@.len() as int) =~= v@.subrange(i as int, i + p.len()));
            assert(rest.drop_first() =~= v@.subrange(i + 1, n as int));
            crate::text::push_char(&mut out, v[i]);
            assert(out@ + replace_all(v@.subrange(i + 1, n as int), p@, rep@) =~= (out@.drop_last() + seq![v@[i as int]])
                + replace_all(rest.drop_first(), p@, rep@));
            i = i + 1;
        }
    }
    assert(v@.subrange(n as int, n as int) =~= Seq::<char>::empty());
    assert(v@.subrange(0, n as int) =~= v@);
    out
}

/// The placeholder a checklist prompt template holds for one task's body.
pub open spec fn body_placeholder() -> Seq<char> {
    "{{body}}"@
}

/// The checklist prompt: the template with each placeholder replaced by the body.
pub fn parse_todos_prompt_template(prompt: &str, todos_template: &str) -> (r: String)
    ensures
        r@ == replace_all(prompt@, body_placeholder(), todos_template@),
{
    proof {
        reveal_strlit("{{body}}");
    }
    replace_text(prompt, "{{body}}", todos_template)
}

/// The prompt a worker runs: the base prompt, the checklist prompt built from
/// its template and the task body, and the closing instructions, separated by
/// blank lines.
pub fn build_prompt_with_postpix(base_prompt: &str, todo_item_body: &str, todos_prompt: &str, postpix: &str) -> (r: String)
    ensures
        r@ == base_prompt@ + "\n\n"@ + replace_all(todos_prompt@, body_placeholder(), todo_item_body@) + "\n\n"@
            + postpix@,
{
    let run_todos = build_run_todos_prompt(todos_prompt, todo_item_body);
    let mut r = concat(base_prompt, "\n\n");
    r.append(run_todos.as_str());
    r.append("\n\n");
    r.append(postpix);
    r
}

/// The checklist prompt for one task: the template with the task's body in
/// place of each placeholder.
pub fn build_run_todos_prompt(template: &str, todo_item_body: &str) -> (r: String)
    ensures
        r@ == replace_all(template@, body_placeholder(), todo_item_body@),
{
    parse_todos_prompt_template(template, todo_item_body)
}

/// `s` without the trailing characters `c`.
pub open spec fn trim_end_char(s: Seq<char>, c: char) -> Seq<char>
    decreases s.len(),
{
    if s.len() > 0 && s.last() == c {
        trim_end_char(s.drop_last(), c)
    } else {
        s
    }
}

/// The results endpoint of a callback server: its address without trailing
/// slashes, then `/v1/results`.
pub fn normalize_server_url(input: &str) -> (r: String)
    ensures
        r@ == trim_end_char(input@, '/') + "/v1/results"@,
{
    let v = chars_of(input);
    let mut hi: usize = v.len();
    assert(v@.subrange(0, hi as int) =~= v@);
    while hi > 0 && v[hi - 1] == '/'
        invariant
            hi <= v.len(),
            trim_end_char(v@, '/') == trim_end_char(v@.subrange(0, hi as int), '/'),
        decreases hi,
    {
        assert(v@.subrange(0, hi as int).drop_last() =~= v@.subrange(0, hi - 1));
        hi = hi - 1;
    }
    proof {
        let u = v@.subrange(0, hi as int);
        if u.len() > 0 {
            assert(u.last() == v@[hi - 1]);
        }
    }
    let base = string_of_range(&v, 0, hi);
    concat(base.as_str(), "/v1/results")
}

/// How a worker reaches the callback server.
pub struct ServerInfo {
    pub protocol: String,
    pub callback_url: String,
}

/// The prompt of one worker: where results go, and the task.
pub fn build_prompt(server: &ServerInfo, _worker_id: usize, message: &str) -> (r: String)
    ensures
        r@ == "Server protocol is "@ + server.protocol@ + ". Callback URL is "@ + server.callback_url@
            + ". Do not perform network calls yourself; only return the requested formatted output. Task: "@
            + message@,
{
    let mut r = concat("Server protocol is ", server.protocol.as_str());
    r.append(". Callback URL is ");
    r.append(server.callback_url.as_str());
    r.append(". Do not perform network calls yourself; only return the requested formatted output. Task: ");
    r.append(message);
    r
}

/// The first trimmed line of `lines` that starts with `p`, from line `k` on.
pub open spec fn first_line_with(lines: Seq<Seq<char>>, p: Seq<char>, k: int) -> Option<Seq<char>>
    decreases lines.len() - k,
{
    if k < 0 || k >= lines.len() {
        None
    } else if matches_at(trim(lines[k]), p, 0) {
        Some(trim(lines[k]))
    } else {
        first_line_with(lines, p, k + 1)
    }
}

/// The three closing lines of a worker's answer, `SUMMARY:`, `RESULT:` and
/// `REPORT:` (the first of each, trimmed), one per line; the trimmed answer
/// where one of them is missing.
pub open spec fn postpix_lines(raw: Seq<char>) -> Seq<char> {
    let lines = lines_of(raw);
    let s = first_line_with(lines, "SUMMARY:"@, 0);
    let r = first_line_with(lines, "RESULT:"@, 0);
    let p = first_line_with(lines, "REPORT:"@, 0);
    if s is Some && r is Some && p is Some {
        s->0 + "\n"@ + r->0 + "\n"@ + p->0
    } else {
        trim(raw)
    }
}

/// The first trimmed line starting with `p`, searched with the bounds of the lines.
fn first_line_starting(v: &Vec<char>, bounds: &Vec<(usize, usize)>, p: &str) -> (r: Option<String>)
    requires
        forall|j: int| 0 <= j < bounds.len() ==> (#[trigger] bounds@[j]).0 <= bounds@[j].1 <= v.len(),
    ensures
        match first_line_with(ranges_of(v@, bounds@), p@, 0) {
            Some(t) => r is Some && r->0@ == t,
            None => r is None,
        },
{
    let pv = chars_of(p);
    let ghost lines = ranges_of(v@, bounds@);
    let mut k: usize = 0;
    while k < bounds.len()
        invariant
            k <= bounds.len(),
            lines == ranges_of(v@, bounds@),
            pv@ == p@,
            forall|j: int| 0 <= j < bounds.len() ==> (#[trigger] bounds@[j]).0 <= bounds@[j].1 <= v.len(),
            first_line_with(lines, p@, 0) == first_line_with(lines, p@, k as int),
        decreases bounds.len() - k,
    {
        let (from, to) = bounds[k];
        assert(lines[k as int] == v@.subrange(from as int, to as int));
        let (lo, hi) = trim_bounds(v, from, to);
        let t = string_of_range(v, lo, hi);
        let tv = chars_of(t.as_str());
        if occurs_at(&tv, &pv, 0) {
            return Some(t);
        }
        k = k + 1;
    }
    None
}

/// Keeps only the closing `SUMMARY:`, `RESULT:` and `REPORT:` lines of a
/// worker's answer, or the whole trimmed answer where one is missing.
pub fn extrac_postpix_lines(raw: &str) -> (r: String)
    ensures
        r@ == postpix_lines(raw@),
{
    let v = chars_of(raw);
    let bounds = line_bounds(&v);
    let s = first_line_starting(&v, &bounds, "SUMMARY:");
    let res = first_line_starting(&v, &bounds, "RESULT:");
    let rep = first_line_starting(&v, &bounds, "REPORT:");
    match (s, res, rep) {
        (Some(s), Some(res), Some(rep)) => {
            let mut out = concat(s.as_str(), "\n");
            out.append(res.as_str());
            out.append("\n");
            out.append(rep.as_str());
            out
        },
        _ => trimmed(raw),
    }
}

/// The value a worker's answer gives for the results column: the first
/// non-empty text after `answer=` on a line, else the first non-empty text
/// after a leading `RESULT:`, else the trimmed answer with its line breaks
/// shown as `" / "`.
pub open spec fn result_value_for_ui(raw: Seq<char>) -> Seq<char> {
    let lines = lines_of(raw);
    match answer_value_from(lines, 0) {
        Some(v) => v,
        None => match result_value_from(lines, 0) {
            Some(v) => v,
            None => replace_all(trim(raw), "\n"@, " / "@),
        },
    }
}

/// The first non-empty value after `answer=` on a trimmed line, from line `k` on.
pub open spec fn answer_value_from(lines: Seq<Seq<char>>, k: int) -> Option<Seq<char>>
    decreases lines.len() - k,
{
    if k < 0 || k >= lines.len() {
        None
    } else {
        let t = trim(lines[k]);
        let found = find_from(t, "answer="@, 0);
        if found is Some && trim(t.subrange(found->0 + 7, t.len() as int)).len() > 0 {
            Some(trim(t.subrange(found->0 + 7, t.len() as int)))
        } else {
            answer_value_from(lines, k + 1)
        }
    }
}

/// The first non-empty value after a leading `RESULT:` on a trimmed line, from
/// line `k` on.
pub open spec fn result_value_from(lines: Seq<Seq<char>>, k: int) -> Option<Seq<char>>
    decreases lines.len() - k,
{
    if k < 0 || k >= lines.len() {
        None
    } else {
        let t = trim(lines[k]);
        if matches_at(t, "RESULT:"@, 0) && trim(t.subrange(7, t.len() as int)).len() > 0 {
            Some(trim(t.subrange(7, t.len() as int)))
        } else {
            result_value_from(lines, k + 1)
        }
    }
}

/// The text the results column shows for a worker's answer.
pub fn extract_result_value_for_ui(raw: &str) -> (r: String)
    ensures
        r@ == result_value_for_ui(raw@),
{
    let v = chars_of(raw);
    let bounds = line_bounds(&v);
    let ghost lines = ranges_of(v@, bounds@);
    let key = chars_of("answer=");
    let res = chars_of("RESULT:");
    proof {
        reveal_strlit("answer=");
        reveal_strlit("RESULT:");
    }
    let mut k: usize = 0;
    while k < bounds.len()
        invariant
            k <= bounds.len(),
            lines == ranges_of(v@, bounds@),
            lines == lines_of(raw@),
            key@ == "answer="@,
            key@.len() == 7,
            forall|j: int| 0 <= j < bounds.len() ==> (#[trigger] bounds@[j]).0 <= bounds@[j].1 <= v.len(),
            answer_value_from(lines, 0) == answer_value_from(lines, k as int),
        decreases bounds.len() - k,
    {
        let (from, to) = bounds[k];
        assert(lines[k as int] == v@.subrange(from as int, to as int));
        let (lo, hi) = trim_bounds(&v, from, to);
        let t = string_of_range(&v, lo, hi);
        let tv = chars_of(t.as_str());
        assert(tv@ == trim(lines[k as int]));
        match find_text(&tv, &key, 0) {
            Some(pos) => {
                let (vlo, vhi) = trim_bounds(&tv, pos + 7, tv.len());
                if vlo < vhi {
                    return string_of_range(&tv, vlo, vhi);
                }
            },
            None => {},
        }
        k = k + 1;
    }
    let mut k2: usize = 0;
    while k2 < bounds.len()
        invariant
            k2 <= bounds.len(),
            lines == ranges_of(v@, bounds@),
            lines == lines_of(raw@),
            answer_value_from(lines, 0) is None,
            res@ == "RESULT:"@,
            res@.len() == 7,
            forall|j: int| 0 <= j < bounds.len() ==> (#[trigger] bounds@[j]).0 <= bounds@[j].1 <= v.len(),
            result_value_from(lines, 0) == result_value_from(lines, k2 as int),
        decreases bounds.len() - k2,
    {
        let (from, to) = bounds[k2];
        assert(lines[k2 as int] == v@.subrange(from as int, to as int));
        let (lo, hi) = trim_bounds(&v, from, to);
        let t = string_of_range(&v, lo, hi);
        let tv = chars_of(t.as_str());
        assert(tv@ == trim(lines[k2 as int]));
        if occurs_at(&tv, &res, 0) {
            let (vlo, vhi) = trim_bounds(&tv, 7, tv.len());
            if vlo < vhi {
                return string_of_range(&tv, vlo, vhi);
            }
        }
        k2 = k2 + 1;
    }
    let t = trimmed(raw);
    proof {
        reveal_strlit("\n");
    }
    replace_text(t.as_str(), "\n", " / ")
}

/// The YAML a worker's answer holds: the inside of the first ```` ```yaml ````
/// fence, else of the first ```` ``` ```` fence, else the whole answer; trimmed.
pub open spec fn yaml_candidate(raw: Seq<char>) -> Seq<char> {
    let a = find_from(raw, "```yaml"@, 0);
    let ae = if a is Some { find_from(raw, "```"@, a->0 + 7) } else { None };
    let b = find_from(raw, "```"@, 0);
    let be = if b is Some { find_from(raw, "```"@, b->0 + 3) } else { None };
    if ae is Some {
        trim(raw.subrange(a->0 + 7, ae->0))
    } else if be is Some {
        trim(raw.subrange(b->0 + 3, be->0))
    } else {
        trim(raw)
    }
}

/// Cuts the YAML out of a worker's answer: fenced first, bare as the fallback.
pub fn extract_yaml_candidate(raw: &str) -> (r: String)
    ensures
        r@ == yaml_candidate(raw@),
{
    let v = chars_of(raw);
    let open_yaml = chars_of("```yaml");
    let fence = chars_of("```");
    proof {
        reveal_strlit("```yaml");
        reveal_strlit("```");
    }
    if let Some(a) = find_text(&v, &open_yaml, 0) {
        if let Some(e) = find_text(&v, &fence, a + 7) {
            let (lo, hi) = trim_bounds(&v, a + 7, e);
            return string_of_range(&v, lo, hi);
        }
    }
    if let Some(b) = find_text(&v, &fence, 0) {
        if let Some(e) = find_text(&v, &fence, b + 3) {
            let (lo, hi) = trim_bounds(&v, b + 3, e);
            return string_of_range(&v, lo, hi);
        }
    }
    trimmed(raw)
}

/// `s` quoted for a POSIX shell: in single quotes, each single quote written
/// as `'"'"'`.
pub fn quote_shell_single(raw: &str) -> (r: String)
    ensures
        r@ == "'"@ + replace_all(raw@, "'"@, "'\"'\"'"@) + "'"@,
{
    proof {
        reveal_strlit("'");
    }
    let escaped = replace_text(raw, "'", "'\"'\"'");
    let mut r = concat("'", escaped.as_str());
    r.append("'");
    r
}

/// The command a new terminal pane runs to show the console with one more
/// request message.
pub fn split_pane_command(message: &str) -> (r: String)
    ensures
        r@ == "orc show-ui --add-msg "@ + "'"@ + replace_all(message@, "'"@, "'\"'\"'"@) + "'"@,
{
    let q = quote_shell_single(message);
    concat("orc show-ui --add-msg ", q.as_str())
}

/// The list lines of a message block: each item as `"    - item"`, one per line.
pub open spec fn bullet_lines(v: Seq<Seq<char>>) -> Seq<char> {
    join(v.map_values(|x: Seq<char>| "    - "@ + x), "\n"@)
}

fn bullets(v: &Vec<String>) -> (r: String)
    ensures
        r@ == bullet_lines(v.deep_view()),
{
    let mut items: Vec<String> = Vec::new();
    let mut i: usize = 0;
    while i < v.len()
        invariant
            i <= v.len(),
            items.deep_view() == v.deep_view().take(i as int).map_values(|x: Seq<char>| "    - "@ + x),
        decreases v.len() - i,
    {
        let line = concat("    - ", v[i].as_str());
        let ghost before = items.deep_view();
        items.push(line);
        assert(items.deep_view() =~= before.push("    - "@ + v.deep_view()[i as int]));
        assert(items.deep_view() =~= v.deep_view().take(i as int + 1).map_values(|x: Seq<char>| "    - "@ + x));
        i = i + 1;
    }
    assert(v.deep_view().take(v.len() as int) =~= v.deep_view());
    join_strings(&items, "\n")
}

/// The message a worker gets for one checklist task, in the checklist's YAML shape.
pub open spec fn task_message(t: TaskView) -> Seq<char> {
    "  - name: "@ + t.name + "\n    type: "@ + t.task_type + "\n    scope:\n"@ + bullet_lines(t.scope)
        + "\n    rule:\n"@ + bullet_lines(t.rule) + "\n    step:\n"@ + bullet_lines(t.step)
}

/// Writes one checklist task as the message its worker gets.
pub fn task_to_message(task: &TaskSpecItem) -> (r: String)
    ensures
        r@ == task_message(task@),
{
    let mut r = concat("  - name: ", task.name.as_str());
    r.append("\n    type: ");
    r.append(task.task_type.as_str());
    r.append("\n    scope:\n");
    let scope = bullets(&task.scope);
    r.append(scope.as_str());
    r.append("\n    rule:\n");
    let rule = bullets(&task.rule);
    r.append(rule.as_str());
    r.append("\n    step:\n");
    let step = bullets(&task.step);
    r.append(step.as_str());
    r
}

/// The opening of the review prompt sent after a parallel run.
pub open spec fn review_prompt_head() -> Seq<char> {
    "병렬 기능 구현이 모두 끝났다. 전체 소스코드를 점검하고 리팩토링 가능성을 평가해줘.\n그리고 spec.yaml의 features.feature에 추가할 기능 목록을 작성해줘.\n규칙:\n- 기능 문자열은 반드시 도메인 아래 기능 형태로 작성(예: message.send_note)\n- domain은 spec.yaml의 features.domain 후보를 우선 사용\n- 중복 기능은 제거\n출력 형식:\n- 순수 YAML만 출력\n- review: string\n- feature: string[]\n\nallowed_domains: ["@
}

/// The review prompt: the fixed instructions, the allowed domains (`(none)`
/// when there are none, else joined by `", "`), and the plan's text.
pub open spec fn review_prompt(spec_text: Seq<char>, domains: Seq<Seq<char>>) -> Seq<char> {
    review_prompt_head() + (if domains.len() == 0 {
        "(none)"@
    } else {
        join(domains, ", "@)
    }) + "]\n\nspec.yaml:\n"@ + spec_text
}

/// Builds the review prompt sent after a parallel run.
pub fn build_post_parallel_review_prompt(spec_text: &str, domains: &Vec<String>) -> (r: String)
    ensures
        r@ == review_prompt(spec_text@, domains.deep_view()),
{
    let domain_text = if domains.len() == 0 {
        text("(none)")
    } else {
        join_strings(domains, ", ")
    };
    let mut r = text(
        "병렬 기능 구현이 모두 끝났다. 전체 소스코드를 점검하고 리팩토링 가능성을 평가해줘.\n그리고 spec.yaml의 features.feature에 추가할 기능 목록을 작성해줘.\n규칙:\n- 기능 문자열은 반드시 도메인 아래 기능 형태로 작성(예: message.send_note)\n- domain은 spec.yaml의 features.domain 후보를 우선 사용\n- 중복 기능은 제거\n출력 형식:\n- 순수 YAML만 출력\n- review: string\n- feature: string[]\n\nallowed_domains: [",
    );
    r.append(domain_text.as_str());
    r.append("]\n\nspec.yaml:\n");
    r.append(spec_text);
    r
}

/// The opening of the checklist prompt, up to the allowed domains.
pub open spec fn make_todos_head() -> Seq<char> {
    "현재 spec.yaml을 보고 각 tasks의 item을 바탕으로 todos.yaml 형식에 따른 todos.yaml 작성해줘.\n스킬 사용:\n- /home/tree/ai/skills/functional-code-structure/SKILL.md를 적용해 todo를 세부적으로 작성할것\n규칙:\n- todo는 \"대상 + 동작\" 형태의 작업 리스트로 작성\n- todo 항목 수량 제한 없음\n- todo step 설계 사고 절차:\n1) 더이상 나눌 수 없는 작은 단위의 도메인을 떠올린다\n2) 도메인이 하는 행동과 그에 따른 대상의 상태 변화를 고려한다\n3) 조건이나 검증 규칙이 있을 경우 조건식을 건다\n4) 도메인과 변화되는 변수들을 생각한다\n5) 한번에 하나의 작업으로 사용되는 변수가 어떻게 변하는지 작성한다\n- 입력이 간단해도 결과 todo는 구체화할 것(검증/대기/직렬화/저장/전송/후처리 단계 포함)\n- rule은 단순 반복이 아니라 실행 가능한 제약으로 확장할 것(권한, 길이 제한, 상태 조건, 취소/수정 가능 여부, 완료 후 저장)\n- step은 UI/도메인 이벤트 순서를 따라 세분화할 것(선택 -> 검증 -> 입력대기 -> 확인/취소 분기 -> 저장/전송 -> 완료 반영)\n- 상태 전이 관점을 반영할 것(예: 선택됨, 입력중, 검증중, 전송대기, 완료)과 각 전이 조건을 step/rule에 드러낼 것\n- scope가 추상 키워드여도 실제 파일 후보로 구체화할 것(예: send message -> message.ts, friend.ts)\n- 각 task의 `rule`, `step`을 반드시 반영해 todo를 작성할 것\n- task의 `scope`가 비어 있으면 rule/step/name을 근거로 합리적인 파일 경로를 추론해 `scope`를 생성할 것\n- 추론한 scope 경로는 프로젝트 루트 기준 상대 경로로 작성할 것(예: src/task3/task3.rs)\n- 어떤 function이 다른 function의 결과/완료를 필요로 하면 해당 function의 `depends_on`에 의존 function 이름을 추가\n- domain은 spec.yaml의 features.domain 목록 중에서 선택해 `domain` 필드(string[])에 기록할 것\n- domain 후보가 여러 개면 현재 기능에 직접 영향 주는 도메인만 최소 집합으로 선택할 것\n- 완료 todos.yaml 파일에 덧붙것일것\n출력 형식:\n- 순수 YAML만 출력\n- 최상위 키는 tasks만 사용\n- 기존 파일 전체를 다시 쓰지 말고 append할 tasks 항목들만 작성\n- todos 항목의 키 이름은 `name,type,domain,depends_on,scope,state,rule,step`를 사용\n- 속성 역할 정의:\n- name: 작업의 목적이 드러나는 기능명(사람이 읽고 이해 가능한 이름)\n- type: 작업 성격(`action`=외부상태 변경/입출력, `calc`=순수 계산)\n- domain: 기능이 영향을 받는 도메인 목록(spec.features.domain 후보 중 선택)\n- depends_on: 선행 완료가 필요한 다른 task의 name 목록(없으면 빈 배열)\n- scope: 수정/생성 대상 파일 경로 목록(프로젝트 루트 기준 상대 경로)\n- state: 기능이 거치는 주요 상태 목록(예: 선택됨, 검증중, 전송대기, 완료)\n- rule: 반드시 지켜야 하는 검증/제약/정책 목록\n- step: 실제 수행 순서대로 쪼갠 작업 단계 목록\n- todos item 스키마:\n- name: string\n- type: action|calc\n- domain: string[]\n- depends_on: string[]\n- scope: string[]\n- state: string[]\n- rule: string[]\n- step: string[]\n\nallowed_domains(from spec.features.domain): ["@
}

/// The checklist prompt for a one-task plan: the fixed instructions, the
/// allowed domains (`(none)` when there are none, else joined by `", "`), the
/// checklist template and the plan's text.
pub open spec fn make_todos_prompt(spec_text: Seq<char>, template: Seq<char>, domains: Seq<Seq<char>>) -> Seq<char> {
    make_todos_head() + (if domains.len() == 0 {
        "(none)"@
    } else {
        join(domains, ", "@)
    }) + "]\n\ntodos.yaml template:\n"@ + template + "\n\nspec.yaml:\n"@ + spec_text
}

/// Builds the checklist prompt for a one-task plan.
pub fn build_make_todos_prompt(spec_text: &str, todos_template: &str, allowed_domains: &Vec<String>) -> (r: String)
    ensures
        r@ == make_todos_prompt(spec_text@, todos_template@, allowed_domains.deep_view()),
{
    let domain_text = if allowed_domains.len() == 0 {
        text("(none)")
    } else {
        join_strings(allowed_domains, ", ")
    };
    let mut r = text(
        "현재 spec.yaml을 보고 각 tasks의 item을 바탕으로 todos.yaml 형식에 따른 todos.yaml 작성해줘.\n스킬 사용:\n- /home/tree/ai/skills/functional-code-structure/SKILL.md를 적용해 todo를 세부적으로 작성할것\n규칙:\n- todo는 \"대상 + 동작\" 형태의 작업 리스트로 작성\n- todo 항목 수량 제한 없음\n- todo step 설계 사고 절차:\n1) 더이상 나눌 수 없는 작은 단위의 도메인을 떠올린다\n2) 도메인이 하는 행동과 그에 따른 대상의 상태 변화를 고려한다\n3) 조건이나 검증 규칙이 있을 경우 조건식을 건다\n4) 도메인과 변화되는 변수들을 생각한다\n5) 한번에 하나의 작업으로 사용되는 변수가 어떻게 변하는지 작성한다\n- 입력이 간단해도 결과 todo는 구체화할 것(검증/대기/직렬화/저장/전송/후처리 단계 포함)\n- rule은 단순 반복이 아니라 실행 가능한 제약으로 확장할 것(권한, 길이 제한, 상태 조건, 취소/수정 가능 여부, 완료 후 저장)\n- step은 UI/도메인 이벤트 순서를 따라 세분화할 것(선택 -> 검증 -> 입력대기 -> 확인/취소 분기 -> 저장/전송 -> 완료 반영)\n- 상태 전이 관점을 반영할 것(예: 선택됨, 입력중, 검증중, 전송대기, 완료)과 각 전이 조건을 step/rule에 드러낼 것\n- scope가 추상 키워드여도 실제 파일 후보로 구체화할 것(예: send message -> message.ts, friend.ts)\n- 각 task의 `rule`, `step`을 반드시 반영해 todo를 작성할 것\n- task의 `scope`가 비어 있으면 rule/step/name을 근거로 합리적인 파일 경로를 추론해 `scope`를 생성할 것\n- 추론한 scope 경로는 프로젝트 루트 기준 상대 경로로 작성할 것(예: src/task3/task3.rs)\n- 어떤 function이 다른 function의 결과/완료를 필요로 하면 해당 function의 `depends_on`에 의존 function 이름을 추가\n- domain은 spec.yaml의 features.domain 목록 중에서 선택해 `domain` 필드(string[])에 기록할 것\n- domain 후보가 여러 개면 현재 기능에 직접 영향 주는 도메인만 최소 집합으로 선택할 것\n- 완료 todos.yaml 파일에 덧붙것일것\n출력 형식:\n- 순수 YAML만 출력\n- 최상위 키는 tasks만 사용\n- 기존 파일 전체를 다시 쓰지 말고 append할 tasks 항목들만 작성\n- todos 항목의 키 이름은 `name,type,domain,depends_on,scope,state,rule,step`를 사용\n- 속성 역할 정의:\n- name: 작업의 목적이 드러나는 기능명(사람이 읽고 이해 가능한 이름)\n- type: 작업 성격(`action`=외부상태 변경/입출력, `calc`=순수 계산)\n- domain: 기능이 영향을 받는 도메인 목록(spec.features.domain 후보 중 선택)\n- depends_on: 선행 완료가 필요한 다른 task의 name 목록(없으면 빈 배열)\n- scope: 수정/생성 대상 파일 경로 목록(프로젝트 루트 기준 상대 경로)\n- state: 기능이 거치는 주요 상태 목록(예: 선택됨, 검증중, 전송대기, 완료)\n- rule: 반드시 지켜야 하는 검증/제약/정책 목록\n- step: 실제 수행 순서대로 쪼갠 작업 단계 목록\n- todos item 스키마:\n- name: string\n- type: action|calc\n- domain: string[]\n- depends_on: string[]\n- scope: string[]\n- state: string[]\n- rule: string[]\n- step: string[]\n\nallowed_domains(from spec.features.domain): [",
    );
    r.append(domain_text.as_str());
    r.append("]\n\ntodos.yaml template:\n");
    r.append(todos_template);
    r.append("\n\nspec.yaml:\n");
    r.append(spec_text);
    r
}

/// The enrichment prompt used when no template file is found.
pub open spec fn default_enrich_template() -> Seq<char> {
    "현재 spec.yaml의 tasks/feature를 전체적으로 검토하고 domain 구성을 보강해줘.\n\n스킬 사용:\n- /home/tree/ai/skills/domain_create/SKILL.md\n\n목표:\n- 모든 기능 추가를 먼저 훑어본 뒤 spec.yaml의 features.domain을 보강\n- 각 task의 type/scope/depends_on을 보강\n\n규칙:\n- 단일 codex 호출로 전체를 처리(병렬 금지)\n- features.domain은 문자열 배열로 유지\n- 도메인은 중복 없이 정규화\n- type은 action|calc만 허용\n- scope는 루트 상대 경로\n- depends_on은 선행 task의 name 배열\n- 기존 값은 가능한 유지하고 부족한 부분만 채움\n\ndomain_candidates:\n{{domain_candidates}}\n\nspec.yaml:\n{{spec_yaml}}\n"@
}

/// The enrichment prompt used when no template file is found.
pub fn default_enrich_template_text() -> (r: String)
    ensures
        r@ == default_enrich_template(),
{
    text(
        "현재 spec.yaml의 tasks/feature를 전체적으로 검토하고 domain 구성을 보강해줘.\n\n스킬 사용:\n- /home/tree/ai/skills/domain_create/SKILL.md\n\n목표:\n- 모든 기능 추가를 먼저 훑어본 뒤 spec.yaml의 features.domain을 보강\n- 각 task의 type/scope/depends_on을 보강\n\n규칙:\n- 단일 codex 호출로 전체를 처리(병렬 금지)\n- features.domain은 문자열 배열로 유지\n- 도메인은 중복 없이 정규화\n- type은 action|calc만 허용\n- scope는 루트 상대 경로\n- depends_on은 선행 task의 name 배열\n- 기존 값은 가능한 유지하고 부족한 부분만 채움\n\ndomain_candidates:\n{{domain_candidates}}\n\nspec.yaml:\n{{spec_yaml}}\n",
    )
}

/// The domains offered to the enrichment step: the plan's domains trimmed,
/// blank ones left out; `none` when nothing is left.
pub open spec fn domain_candidates(domains: Seq<Seq<char>>) -> Seq<Seq<char>> {
    let c = crate::text::nonempty_trimmed(domains);
    if c.len() == 0 {
        seq!["none"@]
    } else {
        c
    }
}

/// The domains offered to the enrichment step.
pub fn extract_domain_candidates(domains: &Vec<String>) -> (r: Vec<String>)
    ensures
        r.deep_view() == domain_candidates(domains.deep_view()),
{
    let mut r: Vec<String> = Vec::new();
    let mut i: usize = 0;
    while i < domains.len()
        invariant
            i <= domains.len(),
            r.deep_view() == crate::text::nonempty_trimmed(domains.deep_view().take(i as int)),
        decreases domains.len() - i,
    {
        assert(domains.deep_view().take(i as int + 1).drop_last() =~= domains.deep_view().take(i as int));
        let t = trimmed(domains[i].as_str());
        if !t.as_str().is_empty() {
            let ghost before = r.deep_view();
            r.push(t);
            assert(r.deep_view() =~= before.push(trim(domains.deep_view()[i as int])));
        }
        i = i + 1;
    }
    assert(domains.deep_view().take(domains.len() as int) =~= domains.deep_view());
    if r.len() == 0 {
        let mut n: Vec<String> = Vec::new();
        n.push(text("none"));
        assert(n.deep_view() =~= seq!["none"@]);
        return n;
    }
    r
}

/// The enrichment prompt: the template with the domain candidates (joined by
/// `", "`) and the plan's text in place of their placeholders.
pub fn build_enrich_spec_prompt(template: &str, spec_text: &str, candidates: &Vec<String>) -> (r: String)
    ensures
        r@ == replace_all(
            replace_all(template@, "{{domain_candidates}}"@, join(candidates.deep_view(), ", "@)),
            "{{spec_yaml}}"@,
            spec_text@,
        ),
{
    let joined = join_strings(candidates, ", ");
    proof {
        reveal_strlit("{{domain_candidates}}");
        reveal_strlit("{{spec_yaml}}");
    }
    let first = replace_text(template, "{{domain_candidates}}", joined.as_str());
    replace_text(first.as_str(), "{{spec_yaml}}", spec_text)
}

/// The text between the first `start` tag and the first `end` tag, trimmed,
/// where both occur and the end tag follows the start tag.
pub open spec fn tag_block(raw: Seq<char>, start: Seq<char>, end: Seq<char>) -> Option<Seq<char>> {
    let s = find_from(raw, start, 0);
    let e = find_from(raw, end, 0);
    if s is Some && e is Some && e->0 >= s->0 + start.len() {
        Some(trim(raw.subrange(s->0 + start.len(), e->0)))
    } else {
        None
    }
}

/// The trimmed text between two tags of a worker's answer, if it has both.
pub fn extract_tag_block(raw: &str, start_tag: &str, end_tag: &str) -> (r: Option<String>)
    ensures
        match tag_block(raw@, start_tag@, end_tag@) {
            Some(t) => r is Some && r->0@ == t,
            None => r is None,
        },
{
    let v = chars_of(raw);
    let sv = chars_of(start_tag);
    let ev = chars_of(end_tag);
    let s = match find_text(&v, &sv, 0) {
        Some(s) => s,
        None => return None,
    };
    let e = match find_text(&v, &ev, 0) {
        Some(e) => e,
        None => return None,
    };
    if e < s + sv.len() {
        return None;
    }
    let (lo, hi) = trim_bounds(&v, s + sv.len(), e);
    Some(string_of_range(&v, lo, hi))
}

/// The reply and the plan of a plan-conversation answer: the `[CHAT]` and
/// `[PLAN_MD]` blocks, each the trimmed answer where it is missing.
pub open spec fn plan_chat_output(raw: Seq<char>) -> (Seq<char>, Seq<char>) {
    let chat = tag_block(raw, "[CHAT]"@, "[/CHAT]"@);
    let plan = tag_block(raw, "[PLAN_MD]"@, "[/PLAN_MD]"@);
    (
        if chat is Some { chat->0 } else { trim(raw) },
        if plan is Some { plan->0 } else { trim(raw) },
    )
}

/// Splits a plan-conversation answer into its reply and its plan.
pub fn parse_plan_chat_output(raw: &str) -> (r: (String, String))
    ensures
        r.0@ == plan_chat_output(raw@).0,
        r.1@ == plan_chat_output(raw@).1,
{
    proof {
        reveal_strlit("[CHAT]");
        reveal_strlit("[/CHAT]");
        reveal_strlit("[PLAN_MD]");
        reveal_strlit("[/PLAN_MD]");
    }
    let chat = extract_tag_block(raw, "[CHAT]", "[/CHAT]");
    let plan = extract_tag_block(raw, "[PLAN_MD]", "[/PLAN_MD]");
    let reply = match chat {
        Some(c) => c,
        None => trimmed(raw),
    };
    let plan_md = match plan {
        Some(p) => p,
        None => trimmed(raw),
    };
    (reply, plan_md)
}

/// The conversation so far, one `role: content` line per turn.
pub open spec fn history_lines(turns: Seq<PlanChatTurn>) -> Seq<char> {
    join(turns.map_values(|t: PlanChatTurn| t.role@ + ": "@ + t.content@), "\n"@)
}

/// The plan-conversation prompt: fixed instructions, the project file, the
/// conversation so far and the latest message.
pub open spec fn plan_chat_prompt(project_yaml: Seq<char>, turns: Seq<PlanChatTurn>, message: Seq<char>) -> Seq<char> {
    "스킬 사용:\n- /home/tree/ai/skills/plan-code/SKILL.md\n\n목표:\n- project.yaml을 바탕으로 plan.md를 작성/갱신한다.\n- 사용자 질문에 짧게 답하고, 항상 plan.md 전체 최신본을 제공한다.\n\n출력 형식(반드시 준수):\n[CHAT]\n사용자에게 보여줄 답변\n[/CHAT]\n[PLAN_MD]\nplan.md 전체 markdown\n[/PLAN_MD]\n\n"@ + "project.yaml:\n"@ + project_yaml + "\n\nhistory:\n"@ + history_lines(turns)
        + "\n\nlatest_user_message:\n"@ + message + "\n"@
}

/// Builds the plan-conversation prompt.
pub fn build_plan_chat_prompt(project_yaml: &str, history: &Vec<PlanChatTurn>, user_message: &str) -> (r: String)
    ensures
        r@ == plan_chat_prompt(project_yaml@, history@, user_message@),
{
    let mut lines: Vec<String> = Vec::new();
    let mut i: usize = 0;
    while i < history.len()
        invariant
            i <= history.len(),
            lines.deep_view() == history@.take(i as int).map_values(
                |t: PlanChatTurn| t.role@ + ": "@ + t.content@,
            ),
        decreases history.len() - i,
    {
        let mut line = concat(history[i].role.as_str(), ": ");
        line.append(history[i].content.as_str());
        let ghost before = lines.deep_view();
        lines.push(line);
        assert(lines.deep_view() =~= before.push(history@[i as int].role@ + ": "@ + history@[i as int].content@));
        assert(lines.deep_view() =~= history@.take(i as int + 1).map_values(
            |t: PlanChatTurn| t.role@ + ": "@ + t.content@,
        ));
        i = i + 1;
    }
    assert(history@.take(history.len() as int) =~= history@);
    let history_text = join_strings(&lines, "\n");
    let mut r = text(
        "스킬 사용:\n- /home/tree/ai/skills/plan-code/SKILL.md\n\n목표:\n- project.yaml을 바탕으로 plan.md를 작성/갱신한다.\n- 사용자 질문에 짧게 답하고, 항상 plan.md 전체 최신본을 제공한다.\n\n출력 형식(반드시 준수):\n[CHAT]\n사용자에게 보여줄 답변\n[/CHAT]\n[PLAN_MD]\nplan.md 전체 markdown\n[/PLAN_MD]\n\n",
    );
    r.append("project.yaml:\n");
    r.append(project_yaml);
    r.append("\n\nhistory:\n");
    r.append(history_text.as_str());
    r.append("\n\nlatest_user_message:\n");
    r.append(user_message);
    r.append("\n");
    r
}

/// The prompt that turns a written plan into plan tasks.
pub open spec fn plan_tasks_prompt(project_yaml: Seq<char>, current_tasks: Seq<char>, plan_md: Seq<char>) -> Seq<char> {
    "스킬 사용:\n- /home/tree/ai/skills/plan-code/SKILL.md\n\n아래 plan.md를 기준으로 tasks.yaml을 생성/갱신해라.\n규칙:\n- tasks.yaml 형식의 순수 YAML만 출력\n- 최상위 키는 tasks\n- 각 item 키는 name,type,domain,depends_on,scope,state,rule,step\n- type은 action|calc\n- 기존 tasks.yaml을 참고하되 plan.md를 우선 반영\n\n"@ + "project.yaml:\n"@ + project_yaml + "\n\ncurrent tasks.yaml:\n"@ + current_tasks
        + "\n\nplan.md:\n"@ + plan_md
}

/// Builds the prompt that turns a written plan into plan tasks.
pub fn build_plan_tasks_prompt(project_yaml: &str, current_tasks: &str, plan_md: &str) -> (r: String)
    ensures
        r@ == plan_tasks_prompt(project_yaml@, current_tasks@, plan_md@),
{
    let mut r = text(
        "스킬 사용:\n- /home/tree/ai/skills/plan-code/SKILL.md\n\n아래 plan.md를 기준으로 tasks.yaml을 생성/갱신해라.\n규칙:\n- tasks.yaml 형식의 순수 YAML만 출력\n- 최상위 키는 tasks\n- 각 item 키는 name,type,domain,depends_on,scope,state,rule,step\n- type은 action|calc\n- 기존 tasks.yaml을 참고하되 plan.md를 우선 반영\n\n",
    );
    r.append("project.yaml:\n");
    r.append(project_yaml);
    r.append("\n\ncurrent tasks.yaml:\n");
    r.append(current_tasks);
    r.append("\n\nplan.md:\n");
    r.append(plan_md);
    r
}

/// The spec-generation prompt: fixed instructions, the operator's answers,
/// and the plan template.
pub open spec fn spec_prompt(
    name: Seq<char>,
    description: Seq<char>,
    framework: Seq<char>,
    libraries: Seq<char>,
    wanted: Seq<char>,
    template: Seq<char>,
) -> Seq<char> {
    "다음 입력을 기반으로 spec.yaml을 작성해줘.\n규칙:\n- templates/spec.yaml 형식을 반드시 따를 것\n- tasks는 최소 3개 이상 채울 것\n- tasks 각 항목은 name,type,domain,depends_on,scope,state,rule,step 키를 포함할 것\n- 순수 YAML만 출력\n\n입력:\n- name: "@
        + name + "\n- description: "@ + description + "\n- framework: "@ + framework + "\n- libraries: "@
        + libraries + "\n- wanted_feature: "@ + wanted + "\n\ntemplate:\n"@ + template
}

/// Builds the spec-generation prompt.
pub fn build_spec_prompt(
    name: &str,
    description: &str,
    framework: &str,
    libraries: &str,
    wanted: &str,
    template: &str,
) -> (r: String)
    ensures
        r@ == spec_prompt(name@, description@, framework@, libraries@, wanted@, template@),
{
    let mut r = text(
        "다음 입력을 기반으로 spec.yaml을 작성해줘.\n규칙:\n- templates/spec.yaml 형식을 반드시 따를 것\n- tasks는 최소 3개 이상 채울 것\n- tasks 각 항목은 name,type,domain,depends_on,scope,state,rule,step 키를 포함할 것\n- 순수 YAML만 출력\n\n입력:\n- name: ",
    );
    r.append(name);
    r.append("\n- description: ");
    r.append(description);
    r.append("\n- framework: ");
    r.append(framework);
    r.append("\n- libraries: ");
    r.append(libraries);
    r.append("\n- wanted_feature: ");
    r.append(wanted);
    r.append("\n\ntemplate:\n");
    r.append(template);
    r
}

/// The prompt of the stand-alone checklist command: fixed instructions, the
/// allowed domains (`(none)` when there are none, else joined by `", "`), the
/// checklist template and the plan's text.
pub open spec fn append_todos_prompt(spec_text: Seq<char>, template: Seq<char>, domains: Seq<Seq<char>>) -> Seq<char> {
    "spec.yaml을 기준으로 todos.yaml에 append할 tasks를 작성해줘.\n규칙:\n- 순수 YAML만 출력\n- 최상위 키는 tasks만 사용\n- todos item 키는 name,type,domain,depends_on,scope,state,rule,step\n- domain은 allowed_domains에서 선택\n- 기존 todos 전체를 재작성하지 말고 append 대상 tasks만 출력\n\nallowed_domains: ["@ + (if domains.len() == 0 {
        "(none)"@
    } else {
        join(domains, ", "@)
    }) + "]\n\ntodos template:\n"@ + template + "\n\nspec.yaml:\n"@ + spec_text
}

/// Builds the prompt of the stand-alone checklist command.
pub fn build_append_todos_prompt(spec_text: &str, template: &str, domains: &Vec<String>) -> (r: String)
    ensures
        r@ == append_todos_prompt(spec_text@, template@, domains.deep_view()),
{
    let domain_text = if domains.len() == 0 {
        text("(none)")
    } else {
        join_strings(domains, ", ")
    };
    let mut r = text(
        "spec.yaml을 기준으로 todos.yaml에 append할 tasks를 작성해줘.\n규칙:\n- 순수 YAML만 출력\n- 최상위 키는 tasks만 사용\n- todos item 키는 name,type,domain,depends_on,scope,state,rule,step\n- domain은 allowed_domains에서 선택\n- 기존 todos 전체를 재작성하지 말고 append 대상 tasks만 출력\n\nallowed_domains: [",
    );
    r.append(domain_text.as_str());
    r.append("]\n\ntodos template:\n");
    r.append(template);
    r.append("\n\nspec.yaml:\n");
    r.append(spec_text);
    r
}

} // verus!
