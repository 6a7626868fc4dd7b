use vstd::prelude::*;

use crate::model::{append_tasks, tasks_view, text, TaskSpecItem, TaskSpecYaml, TaskView};
use crate::request::{parsing_request_function, request_items};
use crate::text::{
    concat, decimal, join, join_strings, semicolon_items, split_semicolon_items, trim, trimmed, usize_text,
};

verus! {

/// The pane that owns keyboard input. Project and TaskSpec are stacked in the
/// left column, Todos and Working in the right one.
#[derive(Debug, Clone, Copy, PartialEq, Eq, Structural)]
pub enum PaneFocus {
    Project,
    TaskSpec,
    Todos,
    Working,
}

/// Whether the task pane shows its card list or the form of one task.
#[derive(Debug, Clone, Copy, PartialEq, Eq, Structural)]
pub enum TaskSpecMode {
    List,
    Form,
}

/// Within the card list: the pane itself, or one selected task.
#[derive(Debug, Clone, Copy, PartialEq, Eq, Structural)]
pub enum TaskListFocus {
    Pane,
    Item,
}

/// Within the request overlay: the text area, or its buttons.
#[derive(Debug, Clone, Copy, PartialEq, Eq, Structural)]
pub enum RequestPaneFocus {
    Input,
    Buttons,
}

/// The selected button of the request overlay.
#[derive(Debug, Clone, Copy, PartialEq, Eq, Structural)]
pub enum RequestButton {
    Cancel,
    Confirm,
}

/// The modal overlay that is open, if any; at most one is.
#[derive(Debug, Clone, Copy, PartialEq, Eq, Structural)]
pub enum Overlay {
    Closed,
    Request,
    Progress,
    PlanChat,
}

/// A key press, as the console reads it.
#[derive(Debug, Clone, Copy, PartialEq, Eq, Structural)]
pub enum PaneKey {
    Left,
    Right,
    Up,
    Down,
    Enter,
    Esc,
    Tab,
    Backspace,
    Char(char),
    Other,
}

/// The background jobs that share the single job slot.
#[derive(Debug, Clone, Copy, PartialEq, Eq, Structural)]
pub enum BackgroundJobKind {
    MakeTodos,
    FillProjectTasks,
}

/// What the loop around the console must do after a key or an event.
#[derive(Debug, Clone, Copy, PartialEq, Eq, Structural)]
pub enum PaneAction {
    Nothing,
    SavePlan,
    SaveTodos,
    StartJob(BackgroundJobKind),
    StartRun,
    /// Send the last turn of the plan conversation to the worker tool.
    StartPlanChat,
    /// Send the last turn, and start watching the plan file.
    StartPlanChatAndWatch,
}

/// Progress of one row of the working pane; it only moves forward.
#[derive(Debug, Clone, Copy, PartialEq, Eq, Structural)]
pub enum WorkingStatus {
    Ready,
    Running,
    Done,
}

/// One dispatched unit of work and what came back from it.
pub struct WorkingRow {
    pub request: String,
    pub result: String,
    pub status: WorkingStatus,
}

/// The request overlay: free text that becomes tasks.
pub struct RequestInputPane {
    pub text: String,
    pub focus: RequestPaneFocus,
    pub selected_button: RequestButton,
}

/// The progress overlay of the job in the slot.
pub struct ProgressPane {
    pub running: bool,
    pub kind: BackgroundJobKind,
    pub lines: Vec<String>,
}

/// One turn of the plan conversation.
pub struct PlanChatTurn {
    pub role: String,
    pub content: String,
}

/// The plan-conversation overlay: the text being typed, the log, the turns
/// so far, and whether a turn is out with the worker tool.
pub struct PlanChatPane {
    pub input_text: String,
    pub running: bool,
    pub lines: Vec<String>,
    pub history: Vec<PlanChatTurn>,
}

/// The number of fields of the task form: name, type, scope, rule, step.
pub const FORM_FIELDS: usize = 5;

/// The whole state of the console, owned by its loop.
pub struct ConsoleState {
    pub focus: PaneFocus,
    pub spec: TaskSpecYaml,
    pub todos: Vec<TaskSpecItem>,
    pub selected_task: usize,
    pub list_focus: TaskListFocus,
    pub mode: TaskSpecMode,
    pub selected_field: usize,
    pub input_mode: bool,
    pub input_buffer: String,
    pub status: String,
    pub overlay: Overlay,
    pub request: RequestInputPane,
    pub progress: ProgressPane,
    pub job: Option<BackgroundJobKind>,
    pub plan_chat: PlanChatPane,
    pub watch_running: bool,
    pub rows: Vec<WorkingRow>,
    pub run_requested: bool,
    pub quit_requested: bool,
}

/// The focus after a navigation key in the card list: Left and Right move
/// between the columns, Up and Down within one.
pub open spec fn column_move(f: PaneFocus, k: PaneKey) -> PaneFocus {
    match k {
        PaneKey::Left => match f {
            PaneFocus::Todos => PaneFocus::Project,
            PaneFocus::Working => PaneFocus::TaskSpec,
            _ => f,
        },
        PaneKey::Right => match f {
            PaneFocus::Project => PaneFocus::Todos,
            PaneFocus::TaskSpec => PaneFocus::Working,
            _ => f,
        },
        PaneKey::Up => match f {
            PaneFocus::Working => PaneFocus::Todos,
            PaneFocus::TaskSpec => PaneFocus::Project,
            _ => f,
        },
        PaneKey::Down => match f {
            PaneFocus::Project => PaneFocus::TaskSpec,
            PaneFocus::Todos => PaneFocus::Working,
            _ => f,
        },
        _ => f,
    }
}

/// The status shown when the card list has no task to select.
pub open spec fn no_items_status() -> Seq<char> {
    "item이 없습니다. Enter로 task를 추가하세요."@
}

/// A key that closes an overlay or the form.
pub open spec fn is_quit_key(k: PaneKey) -> bool {
    k == PaneKey::Char('q') || k == PaneKey::Char('Q')
}

/// The text of one form field of a task, lists joined by `"; "`.
pub open spec fn field_text(t: TaskView, field: int) -> Seq<char> {
    if field == 0 {
        t.name
    } else if field == 1 {
        t.task_type
    } else if field == 2 {
        join(t.scope, "; "@)
    } else if field == 3 {
        join(t.rule, "; "@)
    } else if field == 4 {
        join(t.step, "; "@)
    } else {
        Seq::empty()
    }
}

/// The task after committing `buffer` to one of its form fields.
pub open spec fn with_field(t: TaskView, field: int, buffer: Seq<char>) -> TaskView {
    if field == 0 {
        TaskView { name: trim(buffer), ..t }
    } else if field == 1 {
        TaskView { task_type: trim(buffer), ..t }
    } else if field == 2 {
        TaskView { scope: semicolon_items(buffer), ..t }
    } else if field == 3 {
        TaskView { rule: semicolon_items(buffer), ..t }
    } else if field == 4 {
        TaskView { step: semicolon_items(buffer), ..t }
    } else {
        t
    }
}

impl ConsoleState {
    /// The console's invariant: the cursors point into what they select, the
    /// form and its editor are only open on a selected task, and the job slot
    /// is taken exactly while its progress overlay runs.
    pub open spec fn wf(&self) -> bool {
        &&& self.selected_field < FORM_FIELDS
        &&& (self.list_focus == TaskListFocus::Item ==> self.selected_task < self.spec.tasks.len()
            && self.focus == PaneFocus::TaskSpec)
        &&& (self.mode == TaskSpecMode::Form ==> self.list_focus == TaskListFocus::Item)
        &&& (self.input_mode ==> self.mode == TaskSpecMode::Form)
        &&& (self.job is Some <==> self.progress.running)
        &&& (self.job is Some ==> self.job->0 == self.progress.kind)
        &&& (self.progress.running ==> self.overlay == Overlay::Progress)
    }

    /// A console on a loaded plan and checklist, focus on the project pane.
    pub fn new(spec: TaskSpecYaml, todos: Vec<TaskSpecItem>, rows: Vec<WorkingRow>) -> (r: ConsoleState)
        ensures
            r.wf(),
            r.focus == PaneFocus::Project,
            r.overlay == Overlay::Closed,
            r.job is None,
            r.spec == spec,
            r.todos == todos,
            r.rows == rows,
    {
        ConsoleState {
            focus: PaneFocus::Project,
            spec,
            todos,
            selected_task: 0,
            list_focus: TaskListFocus::Pane,
            mode: TaskSpecMode::List,
            selected_field: 0,
            input_mode: false,
            input_buffer: String::new(),
            status: String::new(),
            overlay: Overlay::Closed,
            request: RequestInputPane {
                text: String::new(),
                focus: RequestPaneFocus::Input,
                selected_button: RequestButton::Confirm,
            },
            progress: ProgressPane { running: false, kind: BackgroundJobKind::MakeTodos, lines: Vec::new() },
            job: None,
            plan_chat: PlanChatPane {
                input_text: String::new(),
                running: false,
                lines: Vec::new(),
                history: Vec::new(),
            },
            watch_running: false,
            rows,
            run_requested: false,
            quit_requested: false,
        }
    }

    /// The text of the selected form field of the selected task.
    pub fn get_selected_field_value(&self) -> (r: String)
        requires
            self.selected_task < self.spec.tasks.len(),
        ensures
            r@ == field_text(self.spec.tasks@[self.selected_task as int]@, self.selected_field as int),
    {
        let t = &self.spec.tasks[self.selected_task];
        if self.selected_field == 0 {
            t.name.clone()
        } else if self.selected_field == 1 {
            t.task_type.clone()
        } else if self.selected_field == 2 {
            join_strings(&t.scope, "; ")
        } else if self.selected_field == 3 {
            join_strings(&t.rule, "; ")
        } else if self.selected_field == 4 {
            join_strings(&t.step, "; ")
        } else {
            String::new()
        }
    }

    /// Commits the edit buffer to the selected field of the selected task.
    pub fn apply_form_buffer_to_task(&mut self)
        requires
            old(self).selected_task < old(self).spec.tasks.len(),
        ensures
            final(self).spec.tasks.len() == old(self).spec.tasks.len(),
            tasks_view(final(self).spec.tasks@) == tasks_view(old(self).spec.tasks@).update(
                old(self).selected_task as int,
                with_field(
                    old(self).spec.tasks@[old(self).selected_task as int]@,
                    old(self).selected_field as int,
                    old(self).input_buffer@,
                ),
            ),
            final(self).focus == old(self).focus,
            final(self).mode == old(self).mode,
            final(self).list_focus == old(self).list_focus,
            final(self).selected_task == old(self).selected_task,
            final(self).selected_field == old(self).selected_field,
            final(self).input_mode == old(self).input_mode,
            final(self).overlay == old(self).overlay,
            final(self).job == old(self).job,
            final(self).progress.running == old(self).progress.running,
            final(self).progress.kind == old(self).progress.kind,
            final(self).todos == old(self).todos,
    {
        let i = self.selected_task;
        let f = self.selected_field;
        let ghost before = tasks_view(self.spec.tasks@);
        let mut t = self.spec.tasks.remove(i);
        let ghost old_t = t@;
        if f == 0 {
            t.name = trimmed(self.input_buffer.as_str());
        } else if f == 1 {
            t.task_type = trimmed(self.input_buffer.as_str());
        } else if f == 2 {
            t.scope = split_semicolon_items(self.input_buffer.as_str());
        } else if f == 3 {
            t.rule = split_semicolon_items(self.input_buffer.as_str());
        } else if f == 4 {
            t.step = split_semicolon_items(self.input_buffer.as_str());
        }
        assert(t@ == with_field(old_t, f as int, self.input_buffer@));
        self.spec.tasks.insert(i, t);
        assert(tasks_view(self.spec.tasks@) =~= before.update(i as int, with_field(old_t, f as int, self.input_buffer@)));
    }

    /// A key while a form field is being edited: Esc drops the edit, Enter
    /// commits it and asks for the plan to be saved, Backspace and characters
    /// edit the buffer.
    pub fn edit_key(&mut self, key: PaneKey) -> (r: PaneAction)
        requires
            old(self).wf(),
            old(self).input_mode,
        ensures
            final(self).wf(),
            edit_key_post(*old(self), *final(self), key, r),
    {
        match key {
            PaneKey::Esc => {
                self.input_mode = false;
                self.status = text("input canceled");
                PaneAction::Nothing
            },
            PaneKey::Enter => {
                self.apply_form_buffer_to_task();
                self.input_mode = false;
                PaneAction::SavePlan
            },
            PaneKey::Backspace => {
                crate::text::pop_char(&mut self.input_buffer);
                PaneAction::Nothing
            },
            PaneKey::Char(c) => {
                crate::text::push_char(&mut self.input_buffer, c);
                PaneAction::Nothing
            },
            _ => PaneAction::Nothing,
        }
    }
}

/// The request line of a working row for one task: its name, its steps and
/// its rules, each list joined by `" | "` or `-` when empty.
pub open spec fn row_request(t: TaskView) -> Seq<char> {
    "# "@ + t.name + "\n> "@ + (if t.step.len() == 0 {
        "-"@
    } else {
        join(t.step, " | "@)
    }) + "\n- "@ + (if t.rule.len() == 0 {
        "-"@
    } else {
        join(t.rule, " | "@)
    })
}

/// The rows are one fresh row per task, in order.
pub open spec fn rows_for(rows: Seq<WorkingRow>, tasks: Seq<TaskSpecItem>) -> bool {
    &&& rows.len() == tasks.len()
    &&& forall|i: int| 0 <= i < rows.len() ==> (#[trigger] rows[i]).request@ == row_request(tasks[i]@)
        && rows[i].result@ == Seq::<char>::empty() && rows[i].status == WorkingStatus::Ready
}

fn list_or_dash(v: &Vec<String>) -> (r: String)
    ensures
        r@ == (if v.len() == 0 {
            "-"@
        } else {
            join(v.deep_view(), " | "@)
        }),
{
    if v.len() == 0 {
        text("-")
    } else {
        join_strings(v, " | ")
    }
}

/// One fresh working row per task, in order.
pub fn build_working_rows_from_tasks(tasks: &Vec<TaskSpecItem>) -> (r: Vec<WorkingRow>)
    ensures
        rows_for(r@, tasks@),
{
    let mut r: Vec<WorkingRow> = Vec::new();
    let mut i: usize = 0;
    while i < tasks.len()
        invariant
            i <= tasks.len(),
            r.len() == i,
            forall|k: int| 0 <= k < i ==> (#[trigger] r@[k]).request@ == row_request(tasks@[k]@)
                && r@[k].result@ == Seq::<char>::empty() && r@[k].status == WorkingStatus::Ready,
        decreases tasks.len() - i,
    {
        let t = &tasks[i];
        let mut req = text("# ");
        req.append(t.name.as_str());
        req.append("\n> ");
        let steps = list_or_dash(&t.step);
        req.append(steps.as_str());
        req.append("\n- ");
        let rules = list_or_dash(&t.rule);
        req.append(rules.as_str());
        r.push(WorkingRow { request: req, result: String::new(), status: WorkingStatus::Ready });
        i = i + 1;
    }
    r
}

/// How far a row has come: Ready, then Running, then Done.
pub open spec fn status_rank(s: WorkingStatus) -> int {
    match s {
        WorkingStatus::Ready => 0,
        WorkingStatus::Running => 1,
        WorkingStatus::Done => 2,
    }
}

/// What the batch runner reports about the rows of the working pane.
pub enum WorkingPaneEvent {
    SetRunning { worker_id: usize },
    SetDone { worker_id: usize, result: String },
    Finish,
}

/// What a finished background job hands back.
pub struct JobOutput {
    pub updated_spec: TaskSpecYaml,
    pub generated_todos: Vec<TaskSpecItem>,
}

/// One non-blocking look at a job's channel.
pub enum JobPoll {
    Progress(String),
    Finished(Result<JobOutput, String>),
    Empty,
    Disconnected,
}

/// What a look at the job channel leaves to the loop: whether to look again
/// in this tick, and what to do.
pub struct PollOutcome {
    pub keep_polling: bool,
    pub action: PaneAction,
}

/// The last line of a finished job's log.
pub open spec fn close_hint() -> Seq<char> {
    "Esc/Enter: close"@
}

/// The status shown when a job ended on a failure message.
pub open spec fn job_failed_status(err: Seq<char>) -> Seq<char> {
    "make_todos_spec failed: "@ + err
}

impl ConsoleState {
    /// Opens the request overlay with an empty text.
    pub fn open_set_request_function(&mut self)
        requires
            old(self).wf(),
            !old(self).progress.running,
        ensures
            final(self).wf(),
            final(self).overlay == Overlay::Request,
            final(self).request.text@ == Seq::<char>::empty(),
            final(self).request.focus == RequestPaneFocus::Input,
            final(self).focus == old(self).focus,
            final(self).job == old(self).job,
            final(self).spec == old(self).spec,
            final(self).todos == old(self).todos,
            final(self).run_requested == old(self).run_requested,
    {
        self.overlay = Overlay::Request;
        self.request.text = String::new();
        self.request.focus = RequestPaneFocus::Input;
        self.request.selected_button = RequestButton::Confirm;
        self.status = text("set_request_function opened");
    }

    /// Moves the selection into the task list again after the list changed.
    fn clamp_selection(&mut self)
        requires
            old(self).selected_field < FORM_FIELDS,
            old(self).job is Some <==> old(self).progress.running,
            old(self).job is Some ==> old(self).job->0 == old(self).progress.kind,
            old(self).progress.running ==> old(self).overlay == Overlay::Progress,
            old(self).list_focus == TaskListFocus::Item ==> old(self).focus == PaneFocus::TaskSpec,
            old(self).mode == TaskSpecMode::Form ==> old(self).list_focus == TaskListFocus::Item,
            old(self).input_mode ==> old(self).mode == TaskSpecMode::Form,
        ensures
            final(self).wf(),
            final(self).focus == old(self).focus,
            final(self).overlay == old(self).overlay,
            final(self).job == old(self).job,
            final(self).progress == old(self).progress,
            final(self).spec == old(self).spec,
            final(self).todos == old(self).todos,
            final(self).rows == old(self).rows,
            final(self).status == old(self).status,
            final(self).run_requested == old(self).run_requested,
            final(self).quit_requested == old(self).quit_requested,
            final(self).watch_running == old(self).watch_running,
            final(self).plan_chat == old(self).plan_chat,
    {
        if self.spec.tasks.len() == 0 {
            self.selected_task = 0;
            self.list_focus = TaskListFocus::Pane;
            self.mode = TaskSpecMode::List;
            self.input_mode = false;
        } else if self.selected_task >= self.spec.tasks.len() {
            self.selected_task = self.spec.tasks.len() - 1;
        }
    }

    /// A key while the request overlay is open. Tab switches between text and
    /// buttons, Esc cancels; Confirm parses the text, appends its tasks to the
    /// plan and asks for a save, or keeps the overlay open when no task was found.
    pub fn request_key(&mut self, key: PaneKey) -> (r: PaneAction)
        requires
            old(self).wf(),
            old(self).overlay == Overlay::Request,
        ensures
            final(self).wf(),
            request_key_post(*old(self), *final(self), key, r),
    {
        match key {
            PaneKey::Tab => {
                self.request.focus = match self.request.focus {
                    RequestPaneFocus::Input => RequestPaneFocus::Buttons,
                    RequestPaneFocus::Buttons => RequestPaneFocus::Input,
                };
                return PaneAction::Nothing;
            },
            PaneKey::Esc => {
                self.overlay = Overlay::Closed;
                self.status = text("request input canceled");
                return PaneAction::Nothing;
            },
            _ => {},
        }
        match self.request.focus {
            RequestPaneFocus::Input => {
                match key {
                    PaneKey::Enter => crate::text::push_char(&mut self.request.text, '\n'),
                    PaneKey::Backspace => crate::text::pop_char(&mut self.request.text),
                    PaneKey::Char(c) => crate::text::push_char(&mut self.request.text, c),
                    PaneKey::Down => self.request.focus = RequestPaneFocus::Buttons,
                    _ => {},
                }
                PaneAction::Nothing
            },
            RequestPaneFocus::Buttons => {
                match key {
                    PaneKey::Left => {
                        self.request.selected_button = RequestButton::Cancel;
                        PaneAction::Nothing
                    },
                    PaneKey::Right => {
                        self.request.selected_button = RequestButton::Confirm;
                        PaneAction::Nothing
                    },
                    PaneKey::Up => {
                        self.request.focus = RequestPaneFocus::Input;
                        PaneAction::Nothing
                    },
                    PaneKey::Enter => match self.request.selected_button {
                        RequestButton::Cancel => {
                            self.overlay = Overlay::Closed;
                            self.status = text("request input canceled");
                            PaneAction::Nothing
                        },
                        RequestButton::Confirm => {
                            let parsed = parsing_request_function(self.request.text.as_str());
                            if parsed.len() == 0 {
                                self.status = text("parse failed: '# name' is required");
                                PaneAction::Nothing
                            } else {
                                let added = parsed.len();
                                append_tasks(&mut self.spec.tasks, parsed);
                                self.selected_task = self.spec.tasks.len() - 1;
                                self.list_focus = TaskListFocus::Pane;
                                self.mode = TaskSpecMode::List;
                                self.selected_field = 0;
                                self.input_mode = false;
                                self.rows = build_working_rows_from_tasks(&self.spec.tasks);
                                let count = usize_text(added);
                                self.status = concat("request parsed and appended: ", count.as_str());
                                self.overlay = Overlay::Closed;
                                PaneAction::SavePlan
                            }
                        },
                    },
                    _ => PaneAction::Nothing,
                }
            },
        }
    }

    /// Takes the job slot for a job of `kind`, unless a job already holds it:
    /// a second request while one runs is refused and changes nothing, so the
    /// loop spawns no second worker.
    pub fn request_job(&mut self, kind: BackgroundJobKind) -> (started: bool)
        requires
            old(self).wf(),
        ensures
            final(self).wf(),
            started <==> old(self).job is None,
            !started ==> *final(self) == *old(self),
            started ==> final(self).job == Some(kind) && final(self).progress.running
                && final(self).overlay == Overlay::Progress && final(self).focus == old(self).focus
                && final(self).spec == old(self).spec && final(self).todos == old(self).todos,
    {
        if self.job.is_some() {
            return false;
        }
        self.job = Some(kind);
        let first = match kind {
            BackgroundJobKind::MakeTodos => text("make_todos_spec started"),
            BackgroundJobKind::FillProjectTasks => text("project_spec tasks fill started"),
        };
        let mut lines: Vec<String> = Vec::new();
        lines.push(first);
        self.progress = ProgressPane { running: true, kind, lines };
        self.overlay = Overlay::Progress;
        true
    }

    /// Ends the job in the slot: the slot is freed, the overlay stops running.
    fn free_slot(&mut self, line: String)
        requires
            old(self).wf(),
            old(self).job is Some,
        ensures
            final(self).wf(),
            final(self).job is None,
            !final(self).progress.running,
            final(self).progress.kind == old(self).progress.kind,
            final(self).progress.lines.deep_view() == old(self).progress.lines.deep_view().push(line@).push(
                close_hint(),
            ),
            final(self).overlay == old(self).overlay,
            final(self).focus == old(self).focus,
            final(self).spec == old(self).spec,
            final(self).todos == old(self).todos,
            final(self).rows == old(self).rows,
            final(self).status == old(self).status,
            final(self).selected_task == old(self).selected_task,
            final(self).list_focus == old(self).list_focus,
            final(self).mode == old(self).mode,
            final(self).input_mode == old(self).input_mode,
            final(self).selected_field == old(self).selected_field,
    {
        let ghost before = self.progress.lines.deep_view();
        self.progress.running = false;
        self.progress.lines.push(line);
        self.progress.lines.push(text("Esc/Enter: close"));
        assert(self.progress.lines.deep_view() =~= before.push(line@).push(close_hint()));
        self.job = None;
    }

    /// Applies one look at the job channel. A progress line is logged in the
    /// order it came; the terminal event frees the slot, merges its result (new
    /// checklist tasks are appended, the plan becomes the job's plan, a filled
    /// plan rebuilds the rows), logs how it ended and asks for a save; a
    /// failure keeps the plan and the checklist; a channel that closed without
    /// a terminal event counts as a failure and frees the slot too. The focus
    /// never moves.
    pub fn apply_job_poll(&mut self, poll: JobPoll) -> (r: PollOutcome)
        requires
            old(self).wf(),
        ensures
            final(self).wf(),
            final(self).focus == old(self).focus,
            old(self).job is None ==> *final(self) == *old(self) && !r.keep_polling && r.action == PaneAction::Nothing,
            old(self).job is Some ==> match poll {
                JobPoll::Progress(_) => r.keep_polling && final(self).job == old(self).job,
                JobPoll::Empty => !r.keep_polling && *final(self) == *old(self),
                _ => !r.keep_polling && final(self).job is None && !final(self).progress.running,
            },
            old(self).job is Some && poll is Progress ==> {
                &&& final(self).progress.lines.deep_view() == old(self).progress.lines.deep_view().push(
                    poll->Progress_0@,
                )
                &&& final(self).progress.running
                &&& final(self).spec == old(self).spec
                &&& final(self).todos == old(self).todos
                &&& final(self).overlay == old(self).overlay
                &&& r.action == PaneAction::Nothing
            },
            old(self).job is Some && poll is Finished && poll->Finished_0 is Ok ==> final(self).spec
                == poll->Finished_0->Ok_0.updated_spec,
            old(self).job == Some(BackgroundJobKind::MakeTodos) && poll is Finished && poll->Finished_0 is Ok ==> {
                let out = poll->Finished_0->Ok_0;
                let count = decimal(out.generated_todos.len() as nat);
                if out.generated_todos.len() > 0 {
                    &&& tasks_view(final(self).todos@) == tasks_view(old(self).todos@) + tasks_view(out.generated_todos@)
                    &&& r.action == PaneAction::SaveTodos
                    &&& final(self).overlay == Overlay::Closed
                    &&& final(self).status@ == "make_todos_spec appended: "@ + count
                    &&& final(self).progress.lines.deep_view() == old(self).progress.lines.deep_view().push(
                        "done: appended "@ + count + " items"@,
                    ).push("auto-close: success"@).push(close_hint())
                } else {
                    &&& final(self).todos == old(self).todos
                    &&& r.action == PaneAction::Nothing
                    &&& final(self).overlay == old(self).overlay
                    &&& final(self).status@ == "make_todos_spec failed: generated todos is empty"@
                    &&& final(self).progress.lines.deep_view() == old(self).progress.lines.deep_view().push(
                        "failed: generated todos is empty"@,
                    ).push(close_hint())
                }
            },
            old(self).job == Some(BackgroundJobKind::FillProjectTasks) && poll is Finished && poll->Finished_0 is Ok ==> {
                let count = decimal(final(self).spec.tasks.len() as nat);
                &&& rows_for(final(self).rows@, final(self).spec.tasks@)
                &&& final(self).todos == old(self).todos
                &&& r.action == PaneAction::SavePlan
                &&& final(self).overlay == Overlay::Closed
                &&& final(self).status@ == "project_spec tasks updated: "@ + count
                &&& final(self).progress.lines.deep_view() == old(self).progress.lines.deep_view().push(
                    "done: tasks "@ + count,
                ).push("auto-close: success"@).push(close_hint())
            },
            old(self).job is Some && poll is Finished && poll->Finished_0 is Err ==> {
                &&& final(self).spec == old(self).spec
                &&& final(self).todos == old(self).todos
                &&& final(self).rows == old(self).rows
                &&& final(self).overlay == old(self).overlay
                &&& final(self).status@ == job_failed_status(poll->Finished_0->Err_0@)
                &&& final(self).progress.lines.deep_view() == old(self).progress.lines.deep_view().push(
                    "failed: "@ + poll->Finished_0->Err_0@,
                ).push(close_hint())
                &&& r.action == PaneAction::Nothing
            },
            old(self).job is Some && poll is Disconnected ==> {
                &&& final(self).spec == old(self).spec
                &&& final(self).todos == old(self).todos
                &&& final(self).rows == old(self).rows
                &&& final(self).overlay == old(self).overlay
                &&& final(self).status@ == job_failed_status("channel disconnected"@)
                &&& final(self).progress.lines.deep_view() == old(self).progress.lines.deep_view().push(
                    "failed: progress channel disconnected"@,
                ).push(close_hint())
                &&& r.action == PaneAction::Nothing
            },
    {
        let kind = match self.job {
            Some(k) => k,
            None => {
                return PollOutcome { keep_polling: false, action: PaneAction::Nothing };
            },
        };
        match poll {
            JobPoll::Progress(line) => {
                let ghost before = self.progress.lines.deep_view();
                let ghost l = line@;
                self.progress.lines.push(line);
                assert(self.progress.lines.deep_view() =~= before.push(l));
                PollOutcome { keep_polling: true, action: PaneAction::Nothing }
            },
            JobPoll::Empty => PollOutcome { keep_polling: false, action: PaneAction::Nothing },
            JobPoll::Disconnected => {
                self.free_slot(text("failed: progress channel disconnected"));
                self.status = concat("make_todos_spec failed: ", "channel disconnected");
                PollOutcome { keep_polling: false, action: PaneAction::Nothing }
            },
            JobPoll::Finished(Err(err)) => {
                let line = concat("failed: ", err.as_str());
                self.free_slot(line);
                self.status = concat("make_todos_spec failed: ", err.as_str());
                PollOutcome { keep_polling: false, action: PaneAction::Nothing }
            },
            JobPoll::Finished(Ok(out)) => {
                let JobOutput { updated_spec, generated_todos } = out;
                match kind {
                    BackgroundJobKind::MakeTodos => {
                        self.spec = updated_spec;
                        self.clamp_selection();
                        let appended = generated_todos.len();
                        if appended == 0 {
                            self.free_slot(text("failed: generated todos is empty"));
                            self.status = text("make_todos_spec failed: generated todos is empty");
                            PollOutcome { keep_polling: false, action: PaneAction::Nothing }
                        } else {
                            append_tasks(&mut self.todos, generated_todos);
                            let count = usize_text(appended);
                            let mut done = concat("done: appended ", count.as_str());
                            done.append(" items");
                            let ghost before = self.progress.lines.deep_view();
                            let ghost d = done@;
                            self.progress.lines.push(done);
                            assert(self.progress.lines.deep_view() =~= before.push(d));
                            self.free_slot(text("auto-close: success"));
                            self.status = concat("make_todos_spec appended: ", count.as_str());
                            self.overlay = Overlay::Closed;
                            PollOutcome { keep_polling: false, action: PaneAction::SaveTodos }
                        }
                    },
                    BackgroundJobKind::FillProjectTasks => {
                        self.spec = updated_spec;
                        self.clamp_selection();
                        self.rows = build_working_rows_from_tasks(&self.spec.tasks);
                        let count = usize_text(self.spec.tasks.len());
                        let done = concat("done: tasks ", count.as_str());
                        let ghost before = self.progress.lines.deep_view();
                        let ghost d = done@;
                        self.progress.lines.push(done);
                        assert(self.progress.lines.deep_view() =~= before.push(d));
                        self.free_slot(text("auto-close: success"));
                        self.status = concat("project_spec tasks updated: ", count.as_str());
                        self.overlay = Overlay::Closed;
                        PollOutcome { keep_polling: false, action: PaneAction::SavePlan }
                    },
                }
            },
        }
    }

    /// Applies what the batch runner reports: a row starts or finishes (a row
    /// never moves back), or the whole run is over. Returns whether it is over.
    pub fn apply_row_event(&mut self, event: WorkingPaneEvent) -> (finished: bool)
        requires
            old(self).wf(),
        ensures
            final(self).wf(),
            final(self).focus == old(self).focus,
            final(self).rows.len() == old(self).rows.len(),
            forall|i: int| 0 <= i < final(self).rows.len() ==> status_rank((#[trigger] final(self).rows@[i]).status)
                >= status_rank(old(self).rows@[i].status),
            finished <==> event is Finish,
            event is Finish ==> !final(self).run_requested && final(self).rows == old(self).rows,
            match event {
                WorkingPaneEvent::SetRunning { worker_id } => worker_id < old(self).rows.len()
                    && old(self).rows@[worker_id as int].status == WorkingStatus::Ready
                    ==> final(self).rows@[worker_id as int].status == WorkingStatus::Running,
                WorkingPaneEvent::SetDone { worker_id, result } => worker_id < old(self).rows.len()
                    ==> final(self).rows@[worker_id as int].status == WorkingStatus::Done
                    && final(self).rows@[worker_id as int].result == result,
                WorkingPaneEvent::Finish => true,
            },
    {
        match event {
            WorkingPaneEvent::SetRunning { worker_id } => {
                if worker_id < self.rows.len() && self.rows[worker_id].status == WorkingStatus::Ready {
                    let mut row = self.rows.remove(worker_id);
                    row.status = WorkingStatus::Running;
                    self.rows.insert(worker_id, row);
                }
                false
            },
            WorkingPaneEvent::SetDone { worker_id, result } => {
                if worker_id < self.rows.len() {
                    let mut row = self.rows.remove(worker_id);
                    row.status = WorkingStatus::Done;
                    row.result = result;
                    self.rows.insert(worker_id, row);
                }
                false
            },
            WorkingPaneEvent::Finish => {
                self.run_requested = false;
                true
            },
        }
    }
}

/// The status shown when a run is asked for before there is a checklist.
pub open spec fn run_blocked_status() -> Seq<char> {
    "run blocked: generate todos first (todos pane: p)"@
}

/// The status shown when a checklist is asked for before the plan has tasks.
pub open spec fn make_todos_blocked_status() -> Seq<char> {
    "make_todos blocked: fill tasks first (project/task pane: f)"@
}

/// The status shown when automatic generation lacks the project's base fields.
pub open spec fn auto_blocked_status() -> Seq<char> {
    "auto blocked: project name/framework/rule required"@
}

/// The status shown when confirmed free text holds no task.
pub open spec fn parse_failed_status() -> Seq<char> {
    "parse failed: '# name' is required"@
}

/// `k` is the key `c` in either case.
pub open spec fn is_letter_key(k: PaneKey, lower: char, upper: char) -> bool {
    k == PaneKey::Char(lower) || k == PaneKey::Char(upper)
}

/// A job of `kind` has just taken the slot.
pub open spec fn job_started(o: ConsoleState, n: ConsoleState, kind: BackgroundJobKind) -> bool {
    &&& n.job == Some(kind)
    &&& n.progress.running
    &&& n.overlay == Overlay::Progress
    &&& n.focus == o.focus
}

/// What a key does while the progress overlay is open: nothing while the job
/// runs; afterwards Esc, Enter or `q` close it.
pub open spec fn progress_key_post(o: ConsoleState, n: ConsoleState, key: PaneKey) -> bool {
    &&& (o.progress.running ==> n == o)
    &&& (!o.progress.running && (key == PaneKey::Esc || key == PaneKey::Enter || is_quit_key(key))
        ==> n.overlay == Overlay::Closed)
    &&& n.focus == o.focus
    &&& n.job == o.job
    &&& n.spec == o.spec
    &&& n.todos == o.todos
}

/// What a key does in the task form.
pub open spec fn form_key_post(o: ConsoleState, n: ConsoleState, key: PaneKey) -> bool {
    &&& n.focus == o.focus
    &&& n.overlay == o.overlay
    &&& n.job == o.job
    &&& n.spec == o.spec
    &&& n.todos == o.todos
    &&& ((key == PaneKey::Esc || is_quit_key(key)) ==> n.mode == TaskSpecMode::List
        && n.list_focus == TaskListFocus::Item && n.selected_task == o.selected_task)
    &&& (key == PaneKey::Up ==> n.selected_field == (if o.selected_field == 0 {
        0
    } else {
        o.selected_field - 1
    }))
    &&& (key == PaneKey::Down ==> n.selected_field == (if o.selected_field < 4 {
        o.selected_field + 1
    } else {
        o.selected_field as int
    }))
    &&& (key == PaneKey::Enter ==> n.input_mode && n.input_buffer@ == field_text(
        o.spec.tasks@[o.selected_task as int]@,
        o.selected_field as int,
    ))
}

/// What a key does while a form field is being edited.
pub open spec fn edit_key_post(o: ConsoleState, n: ConsoleState, key: PaneKey, r: PaneAction) -> bool {
    &&& n.focus == o.focus
    &&& n.overlay == o.overlay
    &&& n.job == o.job
    &&& n.todos == o.todos
    &&& (r == PaneAction::Nothing || r == PaneAction::SavePlan)
    &&& (key == PaneKey::Esc ==> !n.input_mode && tasks_view(n.spec.tasks@) == tasks_view(o.spec.tasks@)
        && r == PaneAction::Nothing)
    &&& (key == PaneKey::Enter ==> !n.input_mode && r == PaneAction::SavePlan && tasks_view(n.spec.tasks@)
        == tasks_view(o.spec.tasks@).update(
        o.selected_task as int,
        with_field(o.spec.tasks@[o.selected_task as int]@, o.selected_field as int, o.input_buffer@),
    ))
    &&& (key != PaneKey::Enter ==> tasks_view(n.spec.tasks@) == tasks_view(o.spec.tasks@) && r == PaneAction::Nothing)
    &&& (key is Char ==> n.input_mode && n.input_buffer@ == o.input_buffer@.push(key->Char_0))
    &&& (key == PaneKey::Backspace ==> n.input_mode && n.input_buffer@ == (if o.input_buffer@.len() > 0 {
        o.input_buffer@.drop_last()
    } else {
        o.input_buffer@
    }))
}

/// What a key does while the request overlay is open.
pub open spec fn request_key_post(o: ConsoleState, n: ConsoleState, key: PaneKey, r: PaneAction) -> bool {
    let confirm = o.request.focus == RequestPaneFocus::Buttons && o.request.selected_button == RequestButton::Confirm
        && key == PaneKey::Enter;
    &&& n.focus == o.focus
    &&& n.job == o.job
    &&& n.todos == o.todos
    &&& (n.overlay == Overlay::Request || n.overlay == Overlay::Closed)
    &&& (r == PaneAction::SavePlan || r == PaneAction::Nothing)
    &&& (key == PaneKey::Esc ==> n.overlay == Overlay::Closed && r == PaneAction::Nothing)
    &&& (key == PaneKey::Tab ==> n.overlay == Overlay::Request && n.request.text == o.request.text
        && n.request.focus == (if o.request.focus == RequestPaneFocus::Input {
        RequestPaneFocus::Buttons
    } else {
        RequestPaneFocus::Input
    }))
    &&& (r == PaneAction::SavePlan ==> confirm && n.overlay == Overlay::Closed && tasks_view(n.spec.tasks@)
        == tasks_view(o.spec.tasks@) + request_items(o.request.text@)
        && rows_for(n.rows@, n.spec.tasks@))
    &&& (r != PaneAction::SavePlan ==> n.spec == o.spec && n.rows == o.rows)
    &&& (confirm ==> (r == PaneAction::SavePlan <==> request_items(o.request.text@).len() > 0))
    &&& (confirm && request_items(o.request.text@).len() == 0 ==> n.overlay == Overlay::Request
        && n.request.text == o.request.text && n.status@ == parse_failed_status())
    &&& (o.request.focus == RequestPaneFocus::Buttons && o.request.selected_button == RequestButton::Cancel
        && key == PaneKey::Enter ==> n.overlay == Overlay::Closed)
    &&& (o.request.focus == RequestPaneFocus::Input && key is Char ==> n.overlay == Overlay::Request
        && n.request.text@ == o.request.text@.push(key->Char_0))
    &&& (o.request.focus == RequestPaneFocus::Input && key == PaneKey::Enter ==> n.overlay == Overlay::Request
        && n.request.text@ == o.request.text@.push('\n'))
    &&& (o.request.focus == RequestPaneFocus::Input && key == PaneKey::Down ==> n.overlay == Overlay::Request
        && n.request.focus == RequestPaneFocus::Buttons && n.request.text == o.request.text)
    &&& (o.request.focus == RequestPaneFocus::Buttons && key == PaneKey::Up ==> n.overlay == Overlay::Request
        && n.request.focus == RequestPaneFocus::Input)
    &&& (o.request.focus == RequestPaneFocus::Buttons && key == PaneKey::Left ==> n.request.selected_button
        == RequestButton::Cancel)
    &&& (o.request.focus == RequestPaneFocus::Buttons && key == PaneKey::Right ==> n.request.selected_button
        == RequestButton::Confirm)
}

/// What a key does while the plan conversation is open.
pub open spec fn plan_chat_key_post(o: ConsoleState, n: ConsoleState, key: PaneKey, r: PaneAction) -> bool {
    &&& n.focus == o.focus
    &&& n.job == o.job
    &&& n.spec == o.spec
    &&& n.todos == o.todos
    &&& n.watch_running == o.watch_running
    &&& (r == PaneAction::Nothing || r == PaneAction::StartPlanChat)
    &&& (key == PaneKey::Esc ==> n.overlay == Overlay::Closed && r == PaneAction::Nothing)
    &&& (key != PaneKey::Esc ==> n.overlay == Overlay::PlanChat)
    &&& (key != PaneKey::Esc && o.plan_chat.running ==> n == o && r == PaneAction::Nothing)
    &&& (r == PaneAction::StartPlanChat ==> key == PaneKey::Enter && n.plan_chat.running
        && n.plan_chat.history@.last().content@ == trim(o.plan_chat.input_text@))
    &&& (!o.plan_chat.running && key == PaneKey::Enter ==> (r == PaneAction::StartPlanChat <==> trim(
        o.plan_chat.input_text@,
    ).len() > 0))
    &&& (!o.plan_chat.running && key == PaneKey::Enter && trim(o.plan_chat.input_text@).len() > 0
        ==> n.plan_chat.input_text@ == Seq::<char>::empty())
    &&& (!o.plan_chat.running && key is Char ==> n.plan_chat.input_text@ == o.plan_chat.input_text@.push(
        key->Char_0,
    ))
    &&& (!o.plan_chat.running && key == PaneKey::Backspace ==> n.plan_chat.input_text@ == (if o.plan_chat.input_text@.len()
        > 0 {
        o.plan_chat.input_text@.drop_last()
    } else {
        o.plan_chat.input_text@
    }))
}

/// What a key does in the card list: the moves of the grid and of the task
/// list, and the commands of each pane.
pub open spec fn list_key_post(o: ConsoleState, n: ConsoleState, key: PaneKey, r: PaneAction) -> bool {
    &&& focus_step(o, n, key)
    &&& n.spec == o.spec
    &&& n.todos == o.todos
    &&& ((key == PaneKey::Left || key == PaneKey::Right) ==> n.focus == column_move(o.focus, key)
        && r == PaneAction::Nothing)
    &&& ((key == PaneKey::Up || key == PaneKey::Down) && o.focus != PaneFocus::TaskSpec ==> n.focus == column_move(
        o.focus,
        key,
    ) && r == PaneAction::Nothing)
    &&& (key == PaneKey::Up && o.focus == PaneFocus::TaskSpec ==> r == PaneAction::Nothing && if o.list_focus
        == TaskListFocus::Pane {
        n.focus == PaneFocus::Project
    } else if o.selected_task == 0 {
        n.focus == PaneFocus::TaskSpec && n.list_focus == TaskListFocus::Pane
    } else {
        n.focus == PaneFocus::TaskSpec && n.list_focus == TaskListFocus::Item && n.selected_task == o.selected_task
            - 1
    })
    &&& (key == PaneKey::Down && o.focus == PaneFocus::TaskSpec ==> r == PaneAction::Nothing && if o.spec.tasks.len()
        == 0 {
        &&& n.focus == o.focus
        &&& n.mode == o.mode
        &&& n.list_focus == o.list_focus
        &&& n.selected_task == o.selected_task
        &&& n.status@ == no_items_status()
    } else if o.list_focus == TaskListFocus::Pane {
        n.focus == PaneFocus::TaskSpec && n.list_focus == TaskListFocus::Item && n.selected_task == 0
    } else {
        n.focus == PaneFocus::TaskSpec && n.list_focus == TaskListFocus::Item && n.selected_task == (if o.selected_task
            + 1 < o.spec.tasks.len() {
            o.selected_task + 1
        } else {
            o.selected_task as int
        })
    })
    &&& (key == PaneKey::Enter && o.focus == PaneFocus::TaskSpec ==> r == PaneAction::Nothing && if o.list_focus
        == TaskListFocus::Item {
        n.mode == TaskSpecMode::Form && n.selected_field == 0 && n.selected_task == o.selected_task
    } else {
        n.overlay == Overlay::Request && n.request.text@ == Seq::<char>::empty()
    })
    &&& (is_letter_key(key, 'p', 'P') && o.focus == PaneFocus::Working ==> if o.todos.len() == 0 {
        r == PaneAction::Nothing && n.status@ == run_blocked_status() && n.run_requested == o.run_requested
    } else if !o.run_requested {
        r == PaneAction::StartRun && n.run_requested
    } else {
        r == PaneAction::Nothing
    })
    &&& (is_letter_key(key, 'p', 'P') && o.focus == PaneFocus::Todos ==> if o.spec.tasks.len() == 0 {
        r == PaneAction::Nothing && n.status@ == make_todos_blocked_status() && n.job == o.job
    } else if o.job is None {
        r == PaneAction::StartJob(BackgroundJobKind::MakeTodos) && job_started(o, n, BackgroundJobKind::MakeTodos)
    } else {
        r == PaneAction::Nothing
    })
    &&& (is_letter_key(key, 'f', 'F') && (o.focus == PaneFocus::Project || o.focus == PaneFocus::TaskSpec)
        ==> if o.job is None {
        r == PaneAction::StartJob(BackgroundJobKind::FillProjectTasks) && job_started(
            o,
            n,
            BackgroundJobKind::FillProjectTasks,
        )
    } else {
        r == PaneAction::Nothing
    })
    &&& (is_letter_key(key, 'a', 'A') && o.focus == PaneFocus::Project ==> if !has_base(o.spec) {
        r == PaneAction::Nothing && n.status@ == auto_blocked_status() && n.job == o.job
    } else if o.job is None {
        r == PaneAction::StartJob(BackgroundJobKind::MakeTodos) && job_started(o, n, BackgroundJobKind::MakeTodos)
    } else {
        r == PaneAction::Nothing
    })
    &&& (key == PaneKey::Char('P') && o.focus == PaneFocus::TaskSpec && o.spec.tasks.len() == 0
        ==> n.overlay == Overlay::PlanChat && n.watch_running)
    &&& (r == PaneAction::StartRun ==> o.todos.len() > 0 && !o.run_requested && n.run_requested)
    &&& (r is StartJob ==> o.job is None && job_started(o, n, r->StartJob_0))
    &&& (!(r is StartJob) ==> n.job == o.job)
    &&& (r == PaneAction::Nothing || r == PaneAction::StartRun || r is StartJob || r == PaneAction::StartPlanChat
        || r == PaneAction::StartPlanChatAndWatch)
}

/// What one key does to the console, by the part of it that takes the key.
pub open spec fn key_post(o: ConsoleState, n: ConsoleState, key: PaneKey, r: PaneAction) -> bool {
    &&& n.wf()
    &&& focus_step(o, n, key)
    &&& if o.overlay == Overlay::Progress {
        progress_key_post(o, n, key) && r == PaneAction::Nothing
    } else if o.overlay == Overlay::Request {
        request_key_post(o, n, key, r)
    } else if o.overlay == Overlay::PlanChat {
        plan_chat_key_post(o, n, key, r)
    } else if !o.input_mode && is_quit_key(key) {
        r == PaneAction::Nothing && if o.mode == TaskSpecMode::Form {
            form_key_post(o, n, key)
        } else {
            n == ConsoleState { quit_requested: true, ..o }
        }
    } else if o.input_mode {
        edit_key_post(o, n, key, r)
    } else if o.mode == TaskSpecMode::List {
        list_key_post(o, n, key, r)
    } else {
        form_key_post(o, n, key) && r == PaneAction::Nothing
    }
}

/// `trace` runs from the state before the first key to the state after the
/// last, each step being what `key_post` allows for that key and action.
pub open spec fn keys_trace(trace: Seq<ConsoleState>, keys: Seq<PaneKey>, actions: Seq<PaneAction>) -> bool {
    &&& trace.len() == keys.len() + 1
    &&& actions.len() == keys.len()
    &&& forall|i: int| #![trigger actions[i]] 0 <= i < keys.len() ==> key_post(trace[i], trace[i + 1], keys[i], actions[i])
}

/// The project pane has what a checklist is generated from: a name, a
/// framework and at least one rule.
pub open spec fn has_base(spec: TaskSpecYaml) -> bool {
    trim(spec.name@).len() > 0 && trim(spec.framework@).len() > 0 && spec.rule.len() > 0
}

/// The focus moved only by a navigation key of the card list, and then as the
/// grid says.
pub open spec fn focus_step(old_s: ConsoleState, new_s: ConsoleState, key: PaneKey) -> bool {
    new_s.focus == old_s.focus || (old_s.overlay == Overlay::Closed && !old_s.input_mode && old_s.mode
        == TaskSpecMode::List && new_s.focus == column_move(old_s.focus, key))
}

impl ConsoleState {
    /// A key while the progress overlay is open: while the job runs every key
    /// is held back; after it, Esc, Enter or `q` close the overlay.
    pub fn progress_key(&mut self, key: PaneKey)
        requires
            old(self).wf(),
            old(self).overlay == Overlay::Progress,
        ensures
            final(self).wf(),
            progress_key_post(*old(self), *final(self), key),
    {
        if self.progress.running {
            return;
        }
        match key {
            PaneKey::Esc | PaneKey::Enter | PaneKey::Char('q') | PaneKey::Char('Q') => {
                self.overlay = Overlay::Closed;
            },
            _ => {},
        }
    }

    /// A key in the task form: Esc or `q` return to the card list on the
    /// same task, Up and Down move the field cursor, Enter opens the editor on
    /// the field's text.
    pub fn form_key(&mut self, key: PaneKey)
        requires
            old(self).wf(),
            old(self).mode == TaskSpecMode::Form,
            !old(self).input_mode,
        ensures
            final(self).wf(),
            form_key_post(*old(self), *final(self), key),
    {
        match key {
            PaneKey::Esc | PaneKey::Char('q') | PaneKey::Char('Q') => {
                self.mode = TaskSpecMode::List;
                self.selected_field = 0;
                self.list_focus = TaskListFocus::Item;
                self.status = text("card-list mode");
            },
            PaneKey::Up => {
                if self.selected_field > 0 {
                    self.selected_field = self.selected_field - 1;
                }
            },
            PaneKey::Down => {
                if self.selected_field < 4 {
                    self.selected_field = self.selected_field + 1;
                }
            },
            PaneKey::Enter => {
                self.input_buffer = self.get_selected_field_value();
                self.input_mode = true;
                self.status = text("field editing");
            },
            _ => {},
        }
    }

    /// A key in the card list: navigation between the panes and inside the
    /// task list, and the commands of each pane (run, generate, fill).
    pub fn list_key(&mut self, key: PaneKey) -> (r: PaneAction)
        requires
            old(self).wf(),
            old(self).overlay == Overlay::Closed,
            old(self).mode == TaskSpecMode::List,
            !old(self).input_mode,
        ensures
            final(self).wf(),
            list_key_post(*old(self), *final(self), key, r),
    {
        match key {
            PaneKey::Left => {
                match self.focus {
                    PaneFocus::Todos => self.focus = PaneFocus::Project,
                    PaneFocus::Working => self.focus = PaneFocus::TaskSpec,
                    _ => {},
                }
                PaneAction::Nothing
            },
            PaneKey::Right => {
                match self.focus {
                    PaneFocus::Project => self.focus = PaneFocus::Todos,
                    PaneFocus::TaskSpec => {
                        self.focus = PaneFocus::Working;
                        self.list_focus = TaskListFocus::Pane;
                    },
                    _ => {},
                }
                PaneAction::Nothing
            },
            PaneKey::Up => {
                match self.focus {
                    PaneFocus::Working => self.focus = PaneFocus::Todos,
                    PaneFocus::TaskSpec => match self.list_focus {
                        TaskListFocus::Pane => self.focus = PaneFocus::Project,
                        TaskListFocus::Item => {
                            if self.selected_task == 0 {
                                self.list_focus = TaskListFocus::Pane;
                            } else {
                                self.selected_task = self.selected_task - 1;
                            }
                        },
                    },
                    _ => {},
                }
                PaneAction::Nothing
            },
            PaneKey::Down => {
                match self.focus {
                    PaneFocus::Project => self.focus = PaneFocus::TaskSpec,
                    PaneFocus::Todos => self.focus = PaneFocus::Working,
                    PaneFocus::TaskSpec => {
                        if self.spec.tasks.len() == 0 {
                            self.status = text("item이 없습니다. Enter로 task를 추가하세요.");
                        } else {
                            match self.list_focus {
                                TaskListFocus::Pane => {
                                    self.list_focus = TaskListFocus::Item;
                                    self.selected_task = 0;
                                },
                                TaskListFocus::Item => {
                                    if self.selected_task + 1 < self.spec.tasks.len() {
                                        self.selected_task = self.selected_task + 1;
                                    }
                                },
                            }
                        }
                    },
                    _ => {},
                }
                PaneAction::Nothing
            },
            PaneKey::Enter => {
                if self.focus == PaneFocus::TaskSpec {
                    match self.list_focus {
                        TaskListFocus::Pane => self.open_set_request_function(),
                        TaskListFocus::Item => {
                            self.mode = TaskSpecMode::Form;
                            self.selected_field = 0;
                            self.status = text("form mode");
                        },
                    }
                }
                PaneAction::Nothing
            },
            PaneKey::Char('p') | PaneKey::Char('P') => {
                match self.focus {
                    PaneFocus::Working => {
                        if self.todos.len() == 0 {
                            self.status = text("run blocked: generate todos first (todos pane: p)");
                            PaneAction::Nothing
                        } else if !self.run_requested {
                            self.run_requested = true;
                            self.status = text("run started");
                            PaneAction::StartRun
                        } else {
                            PaneAction::Nothing
                        }
                    },
                    PaneFocus::Todos => {
                        if self.spec.tasks.len() == 0 {
                            self.status = text("make_todos blocked: fill tasks first (project/task pane: f)");
                            PaneAction::Nothing
                        } else if self.request_job(BackgroundJobKind::MakeTodos) {
                            self.status = text("make_todos_spec started");
                            PaneAction::StartJob(BackgroundJobKind::MakeTodos)
                        } else {
                            PaneAction::Nothing
                        }
                    },
                    PaneFocus::TaskSpec => {
                        if key == PaneKey::Char('P') && self.spec.tasks.len() == 0 {
                            self.open_plan_chat()
                        } else {
                            PaneAction::Nothing
                        }
                    },
                    _ => PaneAction::Nothing,
                }
            },
            PaneKey::Char('f') | PaneKey::Char('F') => {
                if self.focus == PaneFocus::Project || self.focus == PaneFocus::TaskSpec {
                    if self.request_job(BackgroundJobKind::FillProjectTasks) {
                        self.status = text("tasks.yaml fill started");
                        return PaneAction::StartJob(BackgroundJobKind::FillProjectTasks);
                    }
                }
                PaneAction::Nothing
            },
            PaneKey::Char('a') | PaneKey::Char('A') => {
                if self.focus == PaneFocus::Project {
                    let name = trimmed(self.spec.name.as_str());
                    let framework = trimmed(self.spec.framework.as_str());
                    if name.as_str().is_empty() || framework.as_str().is_empty() || self.spec.rule.len() == 0 {
                        self.status = text("auto blocked: project name/framework/rule required");
                    } else if self.request_job(BackgroundJobKind::MakeTodos) {
                        self.status = text("auto mode started (run is manual)");
                        return PaneAction::StartJob(BackgroundJobKind::MakeTodos);
                    }
                }
                PaneAction::Nothing
            },
            _ => PaneAction::Nothing,
        }
    }

    /// Dispatches one key: an open overlay takes every key first; then `q`
    /// quits (or leaves the form), the field editor takes its keys, and the
    /// card list or the form the rest.
    pub fn handle_key(&mut self, key: PaneKey) -> (r: PaneAction)
        requires
            old(self).wf(),
        ensures
            final(self).wf(),
            key_post(*old(self), *final(self), key, r),
            old(self).overlay != Overlay::Closed ==> final(self).focus == old(self).focus,
            old(self).overlay == Overlay::Progress ==> r == PaneAction::Nothing,
            old(self).job is Some ==> r == PaneAction::Nothing && *final(self) == *old(self),
    {
        if self.overlay == Overlay::Progress {
            self.progress_key(key);
            return PaneAction::Nothing;
        }
        if self.overlay == Overlay::Request {
            return self.request_key(key);
        }
        if self.overlay == Overlay::PlanChat {
            return self.plan_chat_key(key);
        }
        if !self.input_mode && (key == PaneKey::Char('q') || key == PaneKey::Char('Q')) {
            if self.mode == TaskSpecMode::Form {
                self.form_key(key);
            } else {
                self.quit_requested = true;
            }
            return PaneAction::Nothing;
        }
        if self.input_mode {
            return self.edit_key(key);
        }
        if self.mode == TaskSpecMode::List {
            self.list_key(key)
        } else {
            self.form_key(key);
            PaneAction::Nothing
        }
    }

    /// Dispatches the keys read in one tick, in order; the console stays well
    /// formed after any sequence of keys.
    pub fn handle_keys(&mut self, keys: &Vec<PaneKey>) -> (r: Vec<PaneAction>)
        requires
            old(self).wf(),
        ensures
            final(self).wf(),
            r.len() == keys.len(),
            exists|trace: Seq<ConsoleState>|
                #[trigger] keys_trace(trace, keys@, r@) && trace[0] == *old(self) && trace.last() == *final(self),
    {
        let mut r: Vec<PaneAction> = Vec::new();
        let mut i: usize = 0;
        let ghost trace: Seq<ConsoleState> = seq![*self];
        let ghost start = *self;
        while i < keys.len()
            invariant
                self.wf(),
                i <= keys.len(),
                r.len() == i,
                trace.len() == i + 1,
                trace[0] == start,
                trace.last() == *self,
                forall|j: int| #![trigger r@[j]] 0 <= j < i ==> key_post(trace[j], trace[j + 1], keys@[j], r@[j]),
            decreases keys.len() - i,
        {
            let ghost before = *self;
            let ghost old_trace = trace;
            let a = self.handle_key(keys[i]);
            r.push(a);
            proof {
                trace = trace.push(*self);
                assert forall|j: int| #![trigger r@[j]] 0 <= j < i + 1 implies key_post(
                    trace[j],
                    trace[j + 1],
                    keys@[j],
                    r@[j],
                ) by {
                    if j < i {
                        assert(trace[j] == old_trace[j]);
                        assert(trace[j + 1] == old_trace[j + 1]);
                    }
                }
            }
            i = i + 1;
        }
        assert(keys_trace(trace, keys@, r@));
        r
    }
}

/// The opening request of a plan conversation.
pub open spec fn plan_chat_opening() -> Seq<char> {
    "project.yaml을 기반으로 plan-code 방식의 plan.md를 작성해줘."@
}

/// What the worker tool answered to one plan-conversation turn.
pub struct PlanChatReply {
    pub reply: String,
    pub plan_md: String,
}

/// One non-blocking look at the plan-conversation channel.
pub enum ChatPoll {
    Finished(Result<PlanChatReply, String>),
    Empty,
    Disconnected,
}

/// One non-blocking look at the plan-file watcher's channel: the plan's tasks
/// once the file appeared and was turned into tasks, or the failure.
pub enum WatchPoll {
    Ready(Result<Vec<TaskSpecItem>, String>),
    Empty,
    Disconnected,
}

/// The watched plan file counts as written: it is not empty, and it is newer
/// than it was when the watch began (or it did not exist then).
pub open spec fn plan_written(len: u64, modified: Option<u128>, baseline: Option<u128>) -> bool {
    len > 0 && match modified {
        Some(m) => match baseline {
            Some(b) => m > b,
            None => true,
        },
        None => baseline is None,
    }
}

/// Whether the watched plan file has been written since the watch began.
pub fn plan_file_generated(len: u64, modified: Option<u128>, baseline: Option<u128>) -> (r: bool)
    ensures
        r == plan_written(len, modified, baseline),
{
    if len == 0 {
        return false;
    }
    match modified {
        Some(m) => match baseline {
            Some(b) => m > b,
            None => true,
        },
        None => baseline.is_none(),
    }
}

/// The longest a plan-file watch waits, in milliseconds.
pub const PLAN_WATCH_LIMIT_MS: u128 = 1800000;

/// Whether a plan-file watch has waited too long.
pub fn plan_watch_timed_out(elapsed_ms: u128) -> (r: bool)
    ensures
        r == (elapsed_ms > PLAN_WATCH_LIMIT_MS),
{
    elapsed_ms > PLAN_WATCH_LIMIT_MS
}

impl ConsoleState {
    /// Starts a plan-conversation turn with `message` (trimmed), unless a turn
    /// is already out or the message is blank.
    pub fn start_plan_chat_turn(&mut self, message: &str) -> (started: bool)
        requires
            old(self).wf(),
        ensures
            final(self).wf(),
            started <==> !old(self).plan_chat.running && trim(message@).len() > 0,
            !started ==> *final(self) == *old(self),
            started ==> final(self).plan_chat.running && final(self).plan_chat.history.len()
                == old(self).plan_chat.history.len() + 1 && final(self).plan_chat.history@.last().content@
                == trim(message@),
            final(self).focus == old(self).focus,
            final(self).overlay == old(self).overlay,
            final(self).job == old(self).job,
            final(self).spec == old(self).spec,
            final(self).todos == old(self).todos,
            final(self).run_requested == old(self).run_requested,
            final(self).watch_running == old(self).watch_running,
    {
        if self.plan_chat.running {
            return false;
        }
        let m = trimmed(message);
        if m.as_str().is_empty() {
            return false;
        }
        self.plan_chat.lines.push(concat("user> ", m.as_str()));
        self.plan_chat.history.push(PlanChatTurn { role: text("user"), content: m });
        self.plan_chat.running = true;
        true
    }

    /// Opens the plan conversation: its overlay, the watch of the plan file
    /// (unless one runs), and the opening turn (unless one is out).
    pub fn open_plan_chat(&mut self) -> (r: PaneAction)
        requires
            old(self).wf(),
            !old(self).progress.running,
        ensures
            final(self).wf(),
            final(self).overlay == Overlay::PlanChat,
            final(self).watch_running,
            final(self).focus == old(self).focus,
            final(self).job == old(self).job,
            final(self).spec == old(self).spec,
            final(self).todos == old(self).todos,
            final(self).run_requested == old(self).run_requested,
            r == PaneAction::Nothing || r == PaneAction::StartPlanChat || r == PaneAction::StartPlanChatAndWatch,
            (r == PaneAction::StartPlanChat || r == PaneAction::StartPlanChatAndWatch) ==> final(self).plan_chat.running
                && !old(self).plan_chat.running,
            r == PaneAction::StartPlanChatAndWatch <==> !old(self).watch_running && !old(self).plan_chat.running,
    {
        self.overlay = Overlay::PlanChat;
        if self.plan_chat.lines.len() == 0 {
            self.plan_chat.lines.push(text("plan-chat opened: Enter로 codex에게 설계 질문을 보내고 plan.md를 갱신합니다."));
        }
        let new_watch = !self.watch_running;
        self.watch_running = true;
        proof {
            reveal_strlit("project.yaml을 기반으로 plan-code 방식의 plan.md를 작성해줘.");
        }
        let started = self.start_plan_chat_turn("project.yaml을 기반으로 plan-code 방식의 plan.md를 작성해줘.");
        if started && new_watch {
            PaneAction::StartPlanChatAndWatch
        } else if started {
            PaneAction::StartPlanChat
        } else {
            PaneAction::Nothing
        }
    }

    /// A key while the plan conversation is open: Esc closes it (a turn that
    /// is out goes on); while a turn is out other keys are held back; else the
    /// keys edit the message and Enter sends it.
    pub fn plan_chat_key(&mut self, key: PaneKey) -> (r: PaneAction)
        requires
            old(self).wf(),
            old(self).overlay == Overlay::PlanChat,
        ensures
            final(self).wf(),
            plan_chat_key_post(*old(self), *final(self), key, r),
    {
        if key == PaneKey::Esc {
            self.overlay = Overlay::Closed;
            return PaneAction::Nothing;
        }
        if self.plan_chat.running {
            return PaneAction::Nothing;
        }
        match key {
            PaneKey::Backspace => {
                crate::text::pop_char(&mut self.plan_chat.input_text);
                PaneAction::Nothing
            },
            PaneKey::Char(c) => {
                crate::text::push_char(&mut self.plan_chat.input_text, c);
                PaneAction::Nothing
            },
            PaneKey::Enter => {
                let message = self.plan_chat.input_text.clone();
                if self.start_plan_chat_turn(message.as_str()) {
                    self.status = text("plan-chat request sent");
                    self.plan_chat.input_text = String::new();
                    PaneAction::StartPlanChat
                } else {
                    PaneAction::Nothing
                }
            },
            _ => PaneAction::Nothing,
        }
    }

    /// Applies one look at the plan-conversation channel: the reply or the
    /// failure is logged and the turn is over; a closed channel ends it too.
    pub fn apply_chat_poll(&mut self, poll: ChatPoll)
        requires
            old(self).wf(),
        ensures
            final(self).wf(),
            final(self).focus == old(self).focus,
            final(self).overlay == old(self).overlay,
            final(self).job == old(self).job,
            final(self).spec == old(self).spec,
            final(self).todos == old(self).todos,
            !old(self).plan_chat.running || poll is Empty ==> *final(self) == *old(self),
            old(self).plan_chat.running && !(poll is Empty) ==> !final(self).plan_chat.running,
            old(self).plan_chat.running && poll is Finished && poll->Finished_0 is Ok ==> {
                let out = poll->Finished_0->Ok_0;
                let said = "assistant> "@ + out.reply@;
                &&& final(self).plan_chat.history.len() == old(self).plan_chat.history.len() + 1
                &&& final(self).plan_chat.history@.last().content == out.reply
                &&& final(self).plan_chat.history@.last().role@ == "assistant"@
                &&& final(self).status@ == "plan.md updated"@
                &&& final(self).plan_chat.lines.deep_view() == (if trim(out.plan_md@).len() == 0 {
                    old(self).plan_chat.lines.deep_view().push(said).push("warning: plan.md 내용이 비어 있습니다."@)
                } else {
                    old(self).plan_chat.lines.deep_view().push(said)
                })
            },
            old(self).plan_chat.running && poll is Finished && poll->Finished_0 is Err ==> {
                &&& final(self).plan_chat.history == old(self).plan_chat.history
                &&& final(self).status@ == "plan-chat failed: "@ + poll->Finished_0->Err_0@
                &&& final(self).plan_chat.lines.deep_view() == old(self).plan_chat.lines.deep_view().push(
                    "error> "@ + poll->Finished_0->Err_0@,
                )
            },
            old(self).plan_chat.running && poll is Disconnected ==> {
                &&& final(self).plan_chat.history == old(self).plan_chat.history
                &&& final(self).status == old(self).status
                &&& final(self).plan_chat.lines.deep_view() == old(self).plan_chat.lines.deep_view().push(
                    "error> plan-chat channel disconnected"@,
                )
            },
    {
        if !self.plan_chat.running {
            return;
        }
        match poll {
            ChatPoll::Empty => {},
            ChatPoll::Disconnected => {
                self.plan_chat.running = false;
                let ghost before = self.plan_chat.lines.deep_view();
                self.plan_chat.lines.push(text("error> plan-chat channel disconnected"));
                assert(self.plan_chat.lines.deep_view() =~= before.push("error> plan-chat channel disconnected"@));
            },
            ChatPoll::Finished(Err(err)) => {
                self.plan_chat.running = false;
                let ghost before = self.plan_chat.lines.deep_view();
                let line = concat("error> ", err.as_str());
                let ghost l = line@;
                self.plan_chat.lines.push(line);
                assert(self.plan_chat.lines.deep_view() =~= before.push(l));
                self.status = concat("plan-chat failed: ", err.as_str());
            },
            ChatPoll::Finished(Ok(out)) => {
                self.plan_chat.running = false;
                let ghost before = self.plan_chat.lines.deep_view();
                let said = concat("assistant> ", out.reply.as_str());
                let ghost l = said@;
                self.plan_chat.lines.push(said);
                assert(self.plan_chat.lines.deep_view() =~= before.push(l));
                let empty_plan = trimmed(out.plan_md.as_str());
                if empty_plan.as_str().is_empty() {
                    self.plan_chat.lines.push(text("warning: plan.md 내용이 비어 있습니다."));
                    assert(self.plan_chat.lines.deep_view() =~= before.push(l).push("warning: plan.md 내용이 비어 있습니다."@));
                }
                self.status = text("plan.md updated");
                self.plan_chat.history.push(PlanChatTurn { role: text("assistant"), content: out.reply });
            },
        }
    }

    /// Applies one look at the plan-file watcher's channel: once the plan is
    /// written its tasks replace the plan's, the rows follow and the
    /// conversation closes; a failure or a closed channel is reported. Either
    /// way the watch is over.
    pub fn apply_watch_poll(&mut self, poll: WatchPoll)
        requires
            old(self).wf(),
        ensures
            final(self).wf(),
            final(self).focus == old(self).focus,
            final(self).job == old(self).job,
            final(self).todos == old(self).todos,
            !old(self).watch_running || poll is Empty ==> *final(self) == *old(self),
            old(self).watch_running && !(poll is Empty) ==> !final(self).watch_running,
            old(self).watch_running && poll is Ready && poll->Ready_0 is Ok ==> {
                &&& tasks_view(final(self).spec.tasks@) == tasks_view(poll->Ready_0->Ok_0@)
                &&& rows_for(final(self).rows@, final(self).spec.tasks@)
                &&& final(self).overlay == (if old(self).overlay == Overlay::PlanChat {
                    Overlay::Closed
                } else {
                    old(self).overlay
                })
            },
            !(old(self).watch_running && poll is Ready && poll->Ready_0 is Ok) ==> final(self).spec == old(self).spec
                && final(self).overlay == old(self).overlay,
    {
        if !self.watch_running {
            return;
        }
        match poll {
            WatchPoll::Empty => {},
            WatchPoll::Disconnected => {
                self.watch_running = false;
                self.status = text("plan watcher disconnected");
            },
            WatchPoll::Ready(Err(err)) => {
                self.watch_running = false;
                self.status = concat("plan watcher failed: ", err.as_str());
                self.plan_chat.lines.push(concat("error> ", err.as_str()));
            },
            WatchPoll::Ready(Ok(tasks)) => {
                self.watch_running = false;
                let ghost given = tasks_view(tasks@);
                self.spec.tasks = tasks;
                self.clamp_selection();
                self.rows = build_working_rows_from_tasks(&self.spec.tasks);
                let count = usize_text(self.spec.tasks.len());
                self.status = concat("plan ready -> tasks updated: ", count.as_str());
                self.plan_chat.lines.push(concat("system> plan.md detected. tasks.yaml updated: ", count.as_str()));
                if self.overlay == Overlay::PlanChat {
                    self.overlay = Overlay::Closed;
                }
            },
        }
    }
}

/// The first checklist entry named `name`, from position `k` on.
pub open spec fn first_named(todos: Seq<TaskSpecItem>, name: Seq<char>, k: int) -> Option<int>
    decreases todos.len() - k,
{
    if k < 0 || k >= todos.len() {
        None
    } else if todos[k].name@ == name {
        Some(k)
    } else {
        first_named(todos, name, k + 1)
    }
}

/// The checklist entry shown for the selected plan task: the first entry with
/// the task's name; failing that the entry at the same position; failing that
/// the first entry.
pub open spec fn matched_todo(tasks: Seq<TaskSpecItem>, todos: Seq<TaskSpecItem>, selected: int) -> Option<int> {
    let by_name = if 0 <= selected < tasks.len() {
        first_named(todos, tasks[selected].name@, 0)
    } else {
        None
    };
    if by_name is Some {
        by_name
    } else if 0 <= selected < todos.len() {
        Some(selected)
    } else if todos.len() > 0 {
        Some(0)
    } else {
        None
    }
}

impl ConsoleState {
    /// The checklist entry shown for the selected plan task, matched by name
    /// with a fall back to its position.
    pub fn matched_todo_index(&self) -> (r: Option<usize>)
        ensures
            match matched_todo(self.spec.tasks@, self.todos@, self.selected_task as int) {
                Some(i) => r is Some && r->0 as int == i,
                None => r is None,
            },
    {
        if self.selected_task < self.spec.tasks.len() {
            let name = &self.spec.tasks[self.selected_task].name;
            let mut k: usize = 0;
            while k < self.todos.len()
                invariant
                    k <= self.todos.len(),
                    self.selected_task < self.spec.tasks.len(),
                    *name == self.spec.tasks@[self.selected_task as int].name,
                    first_named(self.todos@, name@, 0) == first_named(self.todos@, name@, k as int),
                decreases self.todos.len() - k,
            {
                if self.todos[k].name == *name {
                    return Some(k);
                }
                k = k + 1;
            }
        }
        if self.selected_task < self.todos.len() {
            Some(self.selected_task)
        } else if self.todos.len() > 0 {
            Some(0)
        } else {
            None
        }
    }
}

/// Every row of the working pane is done.
pub open spec fn all_rows_done(rows: Seq<WorkingRow>) -> bool {
    forall|i: int| 0 <= i < rows.len() ==> (#[trigger] rows[i]).status == WorkingStatus::Done
}

impl ConsoleState {
    /// The console closes by itself once the batch runner reported the end of
    /// the run (or went away) and every row is done.
    pub fn run_finished(&self, finish_seen: bool) -> (r: bool)
        ensures
            r == (finish_seen && all_rows_done(self.rows@)),
    {
        if !finish_seen {
            return false;
        }
        let mut i: usize = 0;
        while i < self.rows.len()
            invariant
                i <= self.rows.len(),
                forall|k: int| 0 <= k < i ==> (#[trigger] self.rows@[k]).status == WorkingStatus::Done,
            decreases self.rows.len() - i,
        {
            if self.rows[i].status != WorkingStatus::Done {
                return false;
            }
            i = i + 1;
        }
        true
    }
}

} // verus!
