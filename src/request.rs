use vstd::prelude::*;

use crate::model::{action_item, opt_task_view, tasks_view, TaskSpecItem, TaskView};
use crate::text::{
    line_bounds, lines_of, ranges_of, string_of_range, trim, trim_bounds, chars_of,
};

verus! {

/// The task with one more step.
pub open spec fn with_step(t: TaskView, s: Seq<char>) -> TaskView {
    TaskView { step: t.step.push(s), ..t }
}

/// The task with one more rule.
pub open spec fn with_rule(t: TaskView, s: Seq<char>) -> TaskView {
    TaskView { rule: t.rule.push(s), ..t }
}

/// The tasks already closed and the task still open while free text is read.
pub type RequestScan = (Seq<TaskView>, Option<TaskView>);

/// The tasks closed so far, with the open one closed too.
pub open spec fn close_scan(st: RequestScan) -> Seq<TaskView> {
    match st.1 {
        Some(t) => st.0.push(t),
        None => st.0,
    }
}

/// One line of free text applied to the scan: `#` opens a task named by the
/// rest of the line (none when the name is empty), `>` adds a step and `-` a
/// rule to the open task; blank lines and any other line change nothing.
pub open spec fn read_request_line(st: RequestScan, line: Seq<char>) -> RequestScan {
    let t = trim(line);
    let rest = trim(t.drop_first());
    if t.len() == 0 {
        st
    } else if t[0] == '#' {
        if rest.len() == 0 {
            (close_scan(st), None)
        } else {
            (close_scan(st), Some(action_item(rest)))
        }
    } else if t[0] == '>' {
        if st.1 is Some && rest.len() > 0 {
            (st.0, Some(with_step(st.1->0, rest)))
        } else {
            st
        }
    } else if t[0] == '-' {
        if st.1 is Some && rest.len() > 0 {
            (st.0, Some(with_rule(st.1->0, rest)))
        } else {
            st
        }
    } else {
        st
    }
}

/// The scan after reading `lines` in order.
pub open spec fn read_request_lines(lines: Seq<Seq<char>>) -> RequestScan
    decreases lines.len(),
{
    if lines.len() == 0 {
        (Seq::empty(), None)
    } else {
        read_request_line(read_request_lines(lines.drop_last()), lines.last())
    }
}

/// The tasks that free text describes, in the order of their `#` lines.
pub open spec fn request_items(raw: Seq<char>) -> Seq<TaskView> {
    close_scan(read_request_lines(lines_of(raw)))
}

/// A line whose trimmed text starts with `#`.
pub open spec fn is_header_line(line: Seq<char>) -> bool {
    trim(line).len() > 0 && trim(line)[0] == '#'
}

/// Reads free text into tasks: `# name` opens a task of type `action`,
/// `> text` adds a step and `- text` a rule to the open task. It never fails;
/// text without a `#` line gives no task.
pub fn parsing_request_function(raw: &str) -> (r: Vec<TaskSpecItem>)
    ensures
        tasks_view(r@) == request_items(raw@),
{
    let v = chars_of(raw);
    let bounds = line_bounds(&v);
    let ghost lines = lines_of(raw@);
    let mut tasks: Vec<TaskSpecItem> = Vec::new();
    let mut current: Option<TaskSpecItem> = None;
    let mut k: usize = 0;
    while k < bounds.len()
        invariant
            v@ == raw@,
            ranges_of(v@, bounds@) == lines,
            lines == lines_of(raw@),
            k <= bounds.len(),
            forall|j: int| 0 <= j < bounds.len() ==> (#[trigger] bounds@[j]).0 <= bounds@[j].1 <= v.len(),
            (tasks_view(tasks@), opt_task_view(current)) == read_request_lines(lines.take(k as int)),
        decreases bounds.len() - k,
    {
        let (from, to) = bounds[k];
        let ghost line = lines[k as int];
        assert(line == v@.subrange(from as int, to as int));
        assert(lines.take(k as int + 1).drop_last() =~= lines.take(k as int));
        assert(lines.take(k as int + 1).last() == line);
        let (lo, hi) = trim_bounds(&v, from, to);
        if lo < hi {
            let ghost t = trim(line);
            assert(t == v@.subrange(lo as int, hi as int));
            assert(t[0] == v@[lo as int]);
            let (rlo, rhi) = trim_bounds(&v, lo + 1, hi);
            assert(v@.subrange(lo as int + 1, hi as int) =~= t.drop_first());
            let c = v[lo];
            if c == '#' {
                let ghost before = tasks_view(tasks@);
                match current {
                    Some(item) => {
                        tasks.push(item);
                        assert(tasks_view(tasks@) =~= before.push(item@));
                    },
                    None => {},
                }
                if rlo < rhi {
                    let name = string_of_range(&v, rlo, rhi);
                    current = Some(TaskSpecItem::new_action(name));
                } else {
                    current = None;
                }
            } else if c == '>' || c == '-' {
                match current {
                    Some(item) => {
                        let mut item = item;
                        if rlo < rhi {
                            let s = string_of_range(&v, rlo, rhi);
                            let ghost old_item = item@;
                            if c == '>' {
                                item.step.push(s);
                                assert(item@.step =~= old_item.step.push(trim(t.drop_first())));
                                assert(item@ == with_step(old_item, trim(t.drop_first())));
                            } else {
                                item.rule.push(s);
                                assert(item@.rule =~= old_item.rule.push(trim(t.drop_first())));
                                assert(item@ == with_rule(old_item, trim(t.drop_first())));
                            }
                        }
                        current = Some(item);
                    },
                    None => {},
                }
            }
        }
        k = k + 1;
    }
    assert(lines.take(bounds.len() as int) =~= lines);
    let ghost before = tasks_view(tasks@);
    match current {
        Some(item) => {
            tasks.push(item);
            assert(tasks_view(tasks@) =~= before.push(item@));
        },
        None => {},
    }
    tasks
}

/// Reads a request file of the same free-text form into plan tasks.
pub fn parse_tasks_from_input_txt(raw: &str) -> (r: Vec<TaskSpecItem>)
    ensures
        tasks_view(r@) == request_items(raw@),
{
    parsing_request_function(raw)
}

/// Free text in which no line is a `#` line describes no task.
pub proof fn lemma_no_header_no_items(raw: Seq<char>)
    requires
        forall|i: int| 0 <= i < lines_of(raw).len() ==> !is_header_line(#[trigger] lines_of(raw)[i]),
    ensures
        request_items(raw).len() == 0,
{
    let lines = lines_of(raw);
    lemma_scan_without_headers(lines, lines.len() as int);
    assert(lines.take(lines.len() as int) =~= lines);
}

proof fn lemma_scan_without_headers(lines: Seq<Seq<char>>, n: int)
    requires
        0 <= n <= lines.len(),
        forall|i: int| 0 <= i < lines.len() ==> !is_header_line(#[trigger] lines[i]),
    ensures
        read_request_lines(lines.take(n)) == (Seq::<TaskView>::empty(), None::<TaskView>),
    decreases n,
{
    if n > 0 {
        lemma_scan_without_headers(lines, n - 1);
        assert(lines.take(n).drop_last() =~= lines.take(n - 1));
        assert(!is_header_line(lines[n - 1]));
    } else {
        assert(lines.take(0) =~= Seq::<Seq<char>>::empty());
    }
}

} // verus!
