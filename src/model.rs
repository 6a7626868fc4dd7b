use vstd::prelude::*;

verus! {

/// One task of a plan or of a checklist.
#[derive(Debug, Clone, PartialEq, Eq, Default)]
pub struct TaskSpecItem {
    pub name: String,
    pub task_type: String,
    pub domain: Vec<String>,
    pub depends_on: Vec<String>,
    pub scope: Vec<String>,
    pub state: Vec<String>,
    pub rule: Vec<String>,
    pub step: Vec<String>,
}

/// What a task holds, as character sequences.
pub struct TaskView {
    pub name: Seq<char>,
    pub task_type: Seq<char>,
    pub domain: Seq<Seq<char>>,
    pub depends_on: Seq<Seq<char>>,
    pub scope: Seq<Seq<char>>,
    pub state: Seq<Seq<char>>,
    pub rule: Seq<Seq<char>>,
    pub step: Seq<Seq<char>>,
}

impl View for TaskSpecItem {
    type V = TaskView;

    open spec fn view(&self) -> TaskView {
        TaskView {
            name: self.name@,
            task_type: self.task_type@,
            domain: self.domain.deep_view(),
            depends_on: self.depends_on.deep_view(),
            scope: self.scope.deep_view(),
            state: self.state.deep_view(),
            rule: self.rule.deep_view(),
            step: self.step.deep_view(),
        }
    }
}

/// The views of a list of tasks.
pub open spec fn tasks_view(v: Seq<TaskSpecItem>) -> Seq<TaskView> {
    v.map_values(|t: TaskSpecItem| t@)
}

/// The view of a task that may be absent.
pub open spec fn opt_task_view(o: Option<TaskSpecItem>) -> Option<TaskView> {
    match o {
        Some(t) => Some(t@),
        None => None,
    }
}

/// The type given to a task written by hand.
pub open spec fn action_type() -> Seq<char> {
    seq!['a', 'c', 't', 'i', 'o', 'n']
}

/// A fresh action task named `name`, every list empty.
pub open spec fn action_item(name: Seq<char>) -> TaskView {
    TaskView {
        name: name,
        task_type: action_type(),
        domain: Seq::empty(),
        depends_on: Seq::empty(),
        scope: Seq::empty(),
        state: Seq::empty(),
        rule: Seq::empty(),
        step: Seq::empty(),
    }
}

/// The same strings in a new list.
pub fn copy_strings(v: &Vec<String>) -> (r: Vec<String>)
    ensures
        r.deep_view() == v.deep_view(),
{
    let mut r: Vec<String> = Vec::new();
    let mut i: usize = 0;
    while i < v.len()
        invariant
            i <= v.len(),
            r.deep_view() == v.deep_view().take(i as int),
        decreases v.len() - i,
    {
        let c = v[i].clone();
        let ghost before = r.deep_view();
        r.push(c);
        assert(r.deep_view() =~= before.push(v.deep_view()[i as int]));
        assert(r.deep_view() =~= v.deep_view().take(i as int + 1));
        i = i + 1;
    }
    assert(v.deep_view().take(v.len() as int) =~= v.deep_view());
    r
}

/// A string holding the characters of a literal.
pub fn text(s: &str) -> (r: String)
    ensures
        r@ == s@,
{
    String::from_str(s)
}

impl TaskSpecItem {
    /// A fresh action task named `name`.
    pub fn new_action(name: String) -> (r: TaskSpecItem)
        ensures
            r@ == action_item(name@),
    {
        let t = text("action");
        proof {
            reveal_strlit("action");
            assert(t@ =~= action_type());
        }
        let r = TaskSpecItem {
            name: name,
            task_type: t,
            domain: Vec::new(),
            depends_on: Vec::new(),
            scope: Vec::new(),
            state: Vec::new(),
            rule: Vec::new(),
            step: Vec::new(),
        };
        assert(r@.domain =~= Seq::<Seq<char>>::empty());
        assert(r@.depends_on =~= Seq::<Seq<char>>::empty());
        assert(r@.scope =~= Seq::<Seq<char>>::empty());
        assert(r@.state =~= Seq::<Seq<char>>::empty());
        assert(r@.rule =~= Seq::<Seq<char>>::empty());
        assert(r@.step =~= Seq::<Seq<char>>::empty());
        r
    }

    /// The same task, field by field, in new storage.
    pub fn duplicate(&self) -> (r: TaskSpecItem)
        ensures
            r@ == self@,
    {
        TaskSpecItem {
            name: self.name.clone(),
            task_type: self.task_type.clone(),
            domain: copy_strings(&self.domain),
            depends_on: copy_strings(&self.depends_on),
            scope: copy_strings(&self.scope),
            state: copy_strings(&self.state),
            rule: copy_strings(&self.rule),
            step: copy_strings(&self.step),
        }
    }
}

/// The same tasks in a new list.
pub fn copy_tasks(v: &Vec<TaskSpecItem>) -> (r: Vec<TaskSpecItem>)
    ensures
        tasks_view(r@) == tasks_view(v@),
{
    let mut r: Vec<TaskSpecItem> = Vec::new();
    let mut i: usize = 0;
    while i < v.len()
        invariant
            i <= v.len(),
            tasks_view(r@) == tasks_view(v@).take(i as int),
        decreases v.len() - i,
    {
        let c = v[i].duplicate();
        let ghost before = r@;
        r.push(c);
        assert(r@ =~= before.push(c));
        assert(tasks_view(r@) =~= tasks_view(before).push(v@[i as int]@));
        assert(tasks_view(r@) =~= tasks_view(v@).take(i as int + 1));
        i = i + 1;
    }
    assert(tasks_view(v@).take(v.len() as int) =~= tasks_view(v@));
    r
}

/// Moves the tasks of `more` to the end of `v`.
pub fn append_tasks(v: &mut Vec<TaskSpecItem>, more: Vec<TaskSpecItem>)
    ensures
        tasks_view(final(v)@) == tasks_view(old(v)@) + tasks_view(more@),
        final(v)@.len() == old(v)@.len() + more@.len(),
{
    let mut more = more;
    let ghost start = tasks_view(v@);
    let ghost added = tasks_view(more@);
    v.append(&mut more);
    assert(tasks_view(v@) =~= start + added);
}

/// The features and domains a plan declares.
#[derive(Debug, Clone, PartialEq, Eq, Default)]
pub struct ProjectFeatures {
    pub domain: Vec<String>,
    pub feature: Vec<String>,
}

/// A plan: its name, framework, global rules, features and tasks.
#[derive(Debug, Clone, PartialEq, Eq, Default)]
pub struct TaskSpecYaml {
    pub name: String,
    pub framework: String,
    pub rule: Vec<String>,
    pub features: ProjectFeatures,
    pub tasks: Vec<TaskSpecItem>,
}

} // verus!
