//! A tool call carried out: the store operations it asks for, one at a time, and the
//! answer it gives once the store has replied.

use vstd::prelude::*;

use crate::commands::opt_view;
use crate::config::{Config, ConfigView};
use crate::errors::{error_text, AppError, AppErrorView};
use crate::task::model::{Date, Filter, Task, TaskField};
use crate::text::{append_str, owned};
use crate::tools::{
    created_text, created_text_spec, id_text, outcomes_view, update_verdict, update_verdict_spec, updated_text,
    updated_text_spec, ToolPlan, ToolPlanView,
};

verus! {

/// A store operation that a tool call asks for.
#[derive(Debug)]
pub enum ToolRequest {
    List(Filter),
    Get(String),
    Create { title: String, description: String, due: Option<Date> },
    Update { id: String, field: TaskField, value: String },
    Delete(String),
    /// Read the settings file and the `EDITOR` variable.
    Settings,
    /// Write these settings to the settings file.
    SaveSettings(Config),
}

/// The reply to a request: tasks for `List`, a task for `Get`, `Create` and `Update`,
/// nothing for `Delete` and `SaveSettings`, the settings and the `EDITOR` variable for
/// `Settings`.
#[derive(Debug)]
pub enum ToolReply {
    Tasks(Result<Vec<Task>, AppError>),
    Task(Result<Task, AppError>),
    Done(Result<(), AppError>),
    Settings(Result<Config, AppError>, Option<String>),
}

/// What a tool call answers when it succeeds: a text, the tasks listed, the task read, or
/// the help text.
#[derive(Debug)]
pub enum ToolAnswer {
    Text(String),
    Tasks(Vec<Task>),
    Task(Task),
    Help,
}

/// What a tool call does next: ask the store, or answer (an error answer is a text).
#[derive(Debug)]
pub enum ToolStep {
    Ask(ToolRequest),
    Answer(Result<ToolAnswer, String>),
}

pub enum ToolRequestView {
    List(Filter),
    Get(Seq<char>),
    Create { title: Seq<char>, description: Seq<char>, due: Option<Date> },
    Update { id: Seq<char>, field: TaskField, value: Seq<char> },
    Delete(Seq<char>),
    Settings,
    SaveSettings(ConfigView),
}

pub enum ToolAnswerView {
    Text(Seq<char>),
    Tasks(Seq<Task>),
    Task(Task),
    Help,
}

pub enum ToolStepView {
    Ask(ToolRequestView),
    Answer(Result<ToolAnswerView, Seq<char>>),
}

impl View for ToolRequest {
    type V = ToolRequestView;

    open spec fn view(&self) -> ToolRequestView {
        match self {
            ToolRequest::List(f) => ToolRequestView::List(*f),
            ToolRequest::Get(id) => ToolRequestView::Get(id@),
            ToolRequest::Create { title, description, due } => ToolRequestView::Create {
                title: title@,
                description: description@,
                due: *due,
            },
            ToolRequest::Update { id, field, value } => ToolRequestView::Update {
                id: id@,
                field: *field,
                value: value@,
            },
            ToolRequest::Delete(id) => ToolRequestView::Delete(id@),
            ToolRequest::Settings => ToolRequestView::Settings,
            ToolRequest::SaveSettings(c) => ToolRequestView::SaveSettings(c@),
        }
    }
}

impl View for ToolAnswer {
    type V = ToolAnswerView;

    open spec fn view(&self) -> ToolAnswerView {
        match self {
            ToolAnswer::Text(t) => ToolAnswerView::Text(t@),
            ToolAnswer::Tasks(ts) => ToolAnswerView::Tasks(ts@),
            ToolAnswer::Task(t) => ToolAnswerView::Task(*t),
            ToolAnswer::Help => ToolAnswerView::Help,
        }
    }
}

impl View for ToolStep {
    type V = ToolStepView;

    open spec fn view(&self) -> ToolStepView {
        match self {
            ToolStep::Ask(r) => ToolStepView::Ask(r@),
            ToolStep::Answer(Ok(a)) => ToolStepView::Answer(Ok(a@)),
            ToolStep::Answer(Err(m)) => ToolStepView::Answer(Err(m@)),
        }
    }
}

/// A tool call in progress: its plan, the outcomes of the changes of an update made so
/// far (as texts of failure), whether the updated task is being read back, and whether
/// changed settings are being written.
pub struct ToolCall {
    plan: ToolPlan,
    outcomes: Vec<Result<(), String>>,
    reading: bool,
    saving: bool,
}

pub struct ToolCallView {
    pub plan: ToolPlanView,
    pub outcomes: Seq<Result<(), Seq<char>>>,
    pub reading: bool,
    pub saving: bool,
}

impl View for ToolCall {
    type V = ToolCallView;

    closed spec fn view(&self) -> ToolCallView {
        ToolCallView {
            plan: self.plan@,
            outcomes: outcomes_view(self.outcomes@),
            reading: self.reading,
            saving: self.saving,
        }
    }
}

/// Whether `m` is the text of the error `e`, as far as the library knows that text.
pub open spec fn tells(m: Seq<char>, e: AppErrorView) -> bool {
    error_text(e) matches Some(t) ==> m == t
}

/// Whether step `s` answers with the text of the error `e`.
pub open spec fn fails_with(s: ToolStepView, e: AppErrorView) -> bool {
    s matches ToolStepView::Answer(Err(m)) && tells(m, e)
}

/// The request for change `k` of an update of task `id`.
pub open spec fn change_request(id: Seq<char>, changes: Seq<(TaskField, Seq<char>)>, k: int) -> ToolRequestView {
    ToolRequestView::Update { id, field: changes[k].0, value: changes[k].1 }
}

/// What an update does once the outcomes of its first changes are known: asks for the
/// next change; after the last, reads the task back if one change was made, or fails
/// with the verdict.
pub open spec fn after_changes(
    id: Seq<char>,
    changes: Seq<(TaskField, Seq<char>)>,
    outcomes: Seq<Result<(), Seq<char>>>,
) -> ToolStepView {
    if outcomes.len() < changes.len() {
        ToolStepView::Ask(change_request(id, changes, outcomes.len() as int))
    } else {
        match update_verdict_spec(outcomes) {
            Ok(_) => ToolStepView::Ask(ToolRequestView::Get(id)),
            Err(m) => ToolStepView::Answer(Err(m)),
        }
    }
}

/// The first step of a call with plan `p`.
pub open spec fn first_step(p: ToolPlanView) -> ToolStepView {
    match p {
        ToolPlanView::List(f) => ToolStepView::Ask(ToolRequestView::List(f)),
        ToolPlanView::Get(id) => ToolStepView::Ask(ToolRequestView::Get(id)),
        ToolPlanView::Create { title, description, due } => ToolStepView::Ask(
            ToolRequestView::Create { title, description, due },
        ),
        ToolPlanView::Update { id, changes } => after_changes(id, changes, Seq::empty()),
        ToolPlanView::Delete(id) => ToolStepView::Ask(ToolRequestView::Delete(id)),
        ToolPlanView::MarkDone(id) => ToolStepView::Ask(
            ToolRequestView::Update { id, field: TaskField::Status, value: "done"@ },
        ),
        ToolPlanView::MarkOpen(id) => ToolStepView::Ask(
            ToolRequestView::Update { id, field: TaskField::Status, value: "open"@ },
        ),
        ToolPlanView::Help => ToolStepView::Answer(Ok(ToolAnswerView::Help)),
        ToolPlanView::GetConfig(_) => ToolStepView::Ask(ToolRequestView::Settings),
        ToolPlanView::SetConfig { .. } => ToolStepView::Ask(ToolRequestView::Settings),
    }
}

/// Whether `reply` is the kind of reply that call `c` waits for.
pub open spec fn fits(c: ToolCallView, reply: ToolReply) -> bool {
    match c.plan {
        ToolPlanView::List(_) => reply is Tasks,
        ToolPlanView::Delete(_) => reply is Done,
        ToolPlanView::Help => false,
        ToolPlanView::GetConfig(_) => reply is Settings,
        ToolPlanView::SetConfig { .. } => if c.saving {
            reply is Done
        } else {
            reply is Settings
        },
        _ => reply is Task,
    }
}

/// Whether the call went from `before` to `after` with step `s` on the reply `reply`:
/// each change of an update adds its outcome, the other replies end the call.
pub open spec fn resumed(before: ToolCallView, reply: ToolReply, after: ToolCallView, s: ToolStepView) -> bool {
    &&& after.plan == before.plan
    &&& match (before.plan, reply) {
        (ToolPlanView::Update { id, changes }, ToolReply::Task(r)) => if !before.reading {
            &&& after.outcomes.len() == before.outcomes.len() + 1
            &&& after.outcomes.drop_last() == before.outcomes
            &&& match r {
                Ok(_) => after.outcomes.last() is Ok,
                Err(e) => after.outcomes.last() matches Err(m) && tells(m, e@),
            }
            &&& s == after_changes(id, changes, after.outcomes)
            &&& after.reading == (s == ToolStepView::Ask(ToolRequestView::Get(id)))
        } else {
            &&& after.outcomes == before.outcomes
            &&& match r {
                Ok(t) => s == ToolStepView::Answer(Ok(ToolAnswerView::Text(updated_text_spec(t.title@, t.id@)))),
                Err(e) => fails_with(s, e@),
            }
        },
        (_, ToolReply::Tasks(Ok(ts))) => after == before && s == ToolStepView::Answer(
            Ok(ToolAnswerView::Tasks(ts@)),
        ),
        (ToolPlanView::Get(_), ToolReply::Task(Ok(t))) => after == before && s == ToolStepView::Answer(
            Ok(ToolAnswerView::Task(t)),
        ),
        (ToolPlanView::Create { .. }, ToolReply::Task(Ok(t))) => after == before && s == ToolStepView::Answer(
            Ok(ToolAnswerView::Text(created_text_spec(t.title@, t.id@))),
        ),
        (ToolPlanView::Delete(id), ToolReply::Done(Ok(_))) => after == before && s == ToolStepView::Answer(
            Ok(ToolAnswerView::Text("Task deleted: "@ + id)),
        ),
        (ToolPlanView::MarkDone(id), ToolReply::Task(Ok(_))) => after == before && s == ToolStepView::Answer(
            Ok(ToolAnswerView::Text("Task marked as done: "@ + id)),
        ),
        (ToolPlanView::MarkOpen(id), ToolReply::Task(Ok(_))) => after == before && s
            == ToolStepView::Answer(Ok(ToolAnswerView::Text("Task marked as not done: "@ + id))),
        (ToolPlanView::GetConfig(key), ToolReply::Settings(Ok(c), env)) => after == before && s
            == ToolStepView::Answer(
            match c@.get_spec(key, opt_view(env)) {
                Some(v) => Ok(ToolAnswerView::Text(key + " = "@ + v)),
                None => Err("Unknown key: "@ + key),
            },
        ),
        (ToolPlanView::SetConfig { key, value }, ToolReply::Settings(Ok(c), _)) => match c@.set_spec(
            key,
            value,
        ) {
            Ok(c2) => after == (ToolCallView { saving: true, ..before }) && s == ToolStepView::Ask(
                ToolRequestView::SaveSettings(c2),
            ),
            Err(e) => after == before && fails_with(s, e),
        },
        (ToolPlanView::SetConfig { key, value }, ToolReply::Done(Ok(_))) => after == before && s
            == ToolStepView::Answer(Ok(ToolAnswerView::Text(key + " set to "@ + value))),
        (_, ToolReply::Settings(Err(e), _)) => after == before && fails_with(s, e@),
        (_, ToolReply::Tasks(Err(e))) => after == before && fails_with(s, e@),
        (_, ToolReply::Task(Err(e))) => after == before && fails_with(s, e@),
        (_, ToolReply::Done(Err(e))) => after == before && fails_with(s, e@),
        _ => true,
    }
}

/// The text of a failed store operation.
fn failure_text(e: AppError) -> (m: String)
    ensures
        tells(m@, e@),
{
    e.to_string()
}

impl ToolCall {
    /// Starts the call that `plan` describes: its first request, or its answer.
    pub fn start(plan: ToolPlan) -> (r: (ToolCall, ToolStep))
        ensures
            r.0@ == (ToolCallView { plan: plan@, outcomes: Seq::empty(), reading: false, saving: false }),
            r.1@ == first_step(plan@),
    {
        let step = match &plan {
            ToolPlan::List(f) => ToolStep::Ask(ToolRequest::List(*f)),
            ToolPlan::Get(id) => ToolStep::Ask(ToolRequest::Get(id.clone())),
            ToolPlan::Create { title, description, due } => ToolStep::Ask(
                ToolRequest::Create { title: title.clone(), description: description.clone(), due: *due },
            ),
            ToolPlan::Update { id, changes } => {
                if changes.len() > 0 {
                    proof {
                        assert(plan@ matches ToolPlanView::Update { changes: c, .. } && c[0] == (
                            changes@[0].0,
                            changes@[0].1@,
                        ));
                    }
                    ToolStep::Ask(
                        ToolRequest::Update { id: id.clone(), field: changes[0].0, value: changes[0].1.clone() },
                    )
                } else {
                    let empty: Vec<Result<(), String>> = Vec::new();
                    proof {
                        assert(outcomes_view(empty@) =~= Seq::<Result<(), Seq<char>>>::empty());
                    }
                    match update_verdict(&empty) {
                        Ok(_) => ToolStep::Ask(ToolRequest::Get(id.clone())),
                        Err(m) => ToolStep::Answer(Err(m)),
                    }
                }
            },
            ToolPlan::Delete(id) => ToolStep::Ask(ToolRequest::Delete(id.clone())),
            ToolPlan::MarkDone(id) => ToolStep::Ask(
                ToolRequest::Update { id: id.clone(), field: TaskField::Status, value: owned("done") },
            ),
            ToolPlan::MarkOpen(id) => ToolStep::Ask(
                ToolRequest::Update { id: id.clone(), field: TaskField::Status, value: owned("open") },
            ),
            ToolPlan::Help => ToolStep::Answer(Ok(ToolAnswer::Help)),
            ToolPlan::GetConfig(_) => ToolStep::Ask(ToolRequest::Settings),
            ToolPlan::SetConfig { .. } => ToolStep::Ask(ToolRequest::Settings),
        };
        let call = ToolCall { plan, outcomes: Vec::new(), reading: false, saving: false };
        proof {
            assert(outcomes_view(call.outcomes@) =~= Seq::<Result<(), Seq<char>>>::empty());
        }
        (call, step)
    }

    /// Whether `reply` is the kind of reply this call waits for.
    pub fn fits(&self, reply: &ToolReply) -> (r: bool)
        ensures
            r == fits(self@, *reply),
    {
        match (&self.plan, reply) {
            (ToolPlan::List(_), ToolReply::Tasks(_)) => true,
            (ToolPlan::List(_), _) => false,
            (ToolPlan::Delete(_), ToolReply::Done(_)) => true,
            (ToolPlan::Delete(_), _) => false,
            (ToolPlan::Help, _) => false,
            (ToolPlan::GetConfig(_), ToolReply::Settings(..)) => true,
            (ToolPlan::GetConfig(_), _) => false,
            (ToolPlan::SetConfig { .. }, ToolReply::Settings(..)) => !self.saving,
            (ToolPlan::SetConfig { .. }, ToolReply::Done(_)) => self.saving,
            (ToolPlan::SetConfig { .. }, _) => false,
            (_, ToolReply::Task(_)) => true,
            _ => false,
        }
    }

    /// Goes on with the store's reply to the request asked last.
    pub fn resume(&mut self, reply: ToolReply) -> (s: ToolStep)
        requires
            fits(old(self)@, reply),
        ensures
            resumed(old(self)@, reply, final(self)@, s@),
    {
        match reply {
            ToolReply::Tasks(Ok(ts)) => ToolStep::Answer(Ok(ToolAnswer::Tasks(ts))),
            ToolReply::Tasks(Err(e)) => ToolStep::Answer(Err(failure_text(e))),
            ToolReply::Done(Ok(_)) => match &self.plan {
                ToolPlan::Delete(id) => ToolStep::Answer(Ok(ToolAnswer::Text(id_text(&self.plan, id.as_str())))),
                ToolPlan::SetConfig { key, value } => {
                    let mut m = key.clone();
                    append_str(&mut m, " set to ");
                    append_str(&mut m, value.as_str());
                    ToolStep::Answer(Ok(ToolAnswer::Text(m)))
                },
                _ => ToolStep::Answer(Ok(ToolAnswer::Help)),
            },
            ToolReply::Settings(Err(e), _) => ToolStep::Answer(Err(failure_text(e))),
            ToolReply::Settings(Ok(c), env) => self.resume_settings(c, env),
            ToolReply::Done(Err(e)) => ToolStep::Answer(Err(failure_text(e))),
            ToolReply::Task(r) => self.resume_task(r),
        }
    }

    /// Goes on with the settings read and the `EDITOR` variable.
    fn resume_settings(&mut self, c: Config, env: Option<String>) -> (s: ToolStep)
        requires
            fits(old(self)@, ToolReply::Settings(Ok(c), env)),
        ensures
            resumed(old(self)@, ToolReply::Settings(Ok(c), env), final(self)@, s@),
    {
        match &self.plan {
            ToolPlan::GetConfig(key) => match c.get(key.as_str(), env) {
                Some(v) => {
                    let mut m = key.clone();
                    append_str(&mut m, " = ");
                    append_str(&mut m, v.as_str());
                    ToolStep::Answer(Ok(ToolAnswer::Text(m)))
                },
                None => {
                    let mut m = owned("Unknown key: ");
                    append_str(&mut m, key.as_str());
                    ToolStep::Answer(Err(m))
                },
            },
            ToolPlan::SetConfig { key, value } => {
                let mut c = c;
                match c.set(key.as_str(), value.as_str()) {
                    Ok(_) => {
                        self.saving = true;
                        ToolStep::Ask(ToolRequest::SaveSettings(c))
                    },
                    Err(e) => ToolStep::Answer(Err(failure_text(e))),
                }
            },
            _ => ToolStep::Answer(Ok(ToolAnswer::Help)),
        }
    }

    /// Goes on with a task, or the error, that the store replied.
    fn resume_task(&mut self, r: Result<Task, AppError>) -> (s: ToolStep)
        requires
            fits(old(self)@, ToolReply::Task(r)),
        ensures
            resumed(old(self)@, ToolReply::Task(r), final(self)@, s@),
    {
        let updating = match &self.plan {
            ToolPlan::Update { .. } => !self.reading,
            _ => false,
        };
        if updating {
            return self.record_change(r);
        }
        match r {
            Err(e) => ToolStep::Answer(Err(failure_text(e))),
            Ok(t) => match &self.plan {
                ToolPlan::Get(_) => ToolStep::Answer(Ok(ToolAnswer::Task(t))),
                ToolPlan::Create { .. } => ToolStep::Answer(Ok(ToolAnswer::Text(created_text(t.title.as_str(), t.id.as_str())))),
                ToolPlan::Update { .. } => ToolStep::Answer(Ok(ToolAnswer::Text(updated_text(t.title.as_str(), t.id.as_str())))),
                ToolPlan::MarkDone(id) => ToolStep::Answer(Ok(ToolAnswer::Text(id_text(&self.plan, id.as_str())))),
                ToolPlan::MarkOpen(id) => ToolStep::Answer(Ok(ToolAnswer::Text(id_text(&self.plan, id.as_str())))),
                _ => ToolStep::Answer(Ok(ToolAnswer::Help)),
            },
        }
    }

    /// Adds the outcome of the change asked last, and asks for the next, reads the task
    /// back, or fails.
    fn record_change(&mut self, r: Result<Task, AppError>) -> (s: ToolStep)
        requires
            old(self)@.plan is Update,
            !old(self)@.reading,
        ensures
            resumed(old(self)@, ToolReply::Task(r), final(self)@, s@),
    {
        let ghost before = self.outcomes@;
        let outcome = match r {
            Ok(_) => Ok(()),
            Err(e) => Err(failure_text(e)),
        };
        self.outcomes.push(outcome);
        proof {
            assert(outcomes_view(self.outcomes@).drop_last() =~= outcomes_view(before));
        }
        let n = self.outcomes.len();
        match &self.plan {
            ToolPlan::Update { id, changes } => {
                if n < changes.len() {
                    proof {
                        assert(self@.plan matches ToolPlanView::Update { changes: c, .. } && c[n as int] == (
                            changes@[n as int].0,
                            changes@[n as int].1@,
                        ));
                    }
                    ToolStep::Ask(
                        ToolRequest::Update { id: id.clone(), field: changes[n].0, value: changes[n].1.clone() },
                    )
                } else {
                    match update_verdict(&self.outcomes) {
                        Ok(_) => {
                            let id = id.clone();
                            self.reading = true;
                            ToolStep::Ask(ToolRequest::Get(id))
                        },
                        Err(m) => ToolStep::Answer(Err(m)),
                    }
                }
            },
            _ => ToolStep::Answer(Ok(ToolAnswer::Help)),
        }
    }
}

} // verus!
