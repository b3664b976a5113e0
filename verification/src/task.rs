//! Evaluation of a task of the task graph: a task either holds its value, or
//! hands its inputs to the sub-task that computes it.
use vstd::prelude::*;

verus! {

/// A value that a task computes, in its encoded form.
pub enum TaskValue {
    /// A single value.
    Scalar(Vec<u8>),
    /// A table.
    Table(Vec<u8>),
}

/// The value of a task value: whether it is a table, and its encoding.
pub open spec fn task_value_view(v: TaskValue) -> (bool, Seq<u8>) {
    match v {
        TaskValue::Scalar(b) => (false, b@),
        TaskValue::Table(b) => (true, b@),
    }
}

/// The values of a list of task values.
pub open spec fn task_values_view(v: Seq<TaskValue>) -> Seq<(bool, Seq<u8>)> {
    Seq::new(v.len(), |i: int| task_value_view(v[i]))
}

/// The kinds of sub-task that compute a value.
#[derive(Clone, Copy, Debug, PartialEq, Eq, Structural)]
pub enum SubTask {
    DataUrl,
    DataValues,
    DataSource,
    Signal,
}

/// What a task is.
pub enum TaskKind {
    /// A task that holds its value.
    Value(TaskValue),
    /// A task computed by a sub-task of the given kind.
    Computed(SubTask),
}

/// A task of the task graph.
pub struct Task {
    /// What the task is.
    pub task_kind: TaskKind,
}

/// The next thing to do to evaluate a task.
pub enum TaskStep {
    /// The task's value, and the values it makes for other tasks (none).
    Done(TaskValue, Vec<TaskValue>),
    /// Evaluate the sub-task of this kind on these input values.
    Delegate(SubTask, Vec<TaskValue>),
}

/// Evaluating something that the task graph holds.
pub trait TaskCall {
    /// The next step of evaluating `self` on the given input values.
    fn eval(&self, values: &[TaskValue]) -> TaskStep;
}

impl TaskValue {
    /// A copy of this value.
    pub fn copy(&self) -> (res: TaskValue)
        ensures
            task_value_view(res) == task_value_view(*self),
    {
        match self {
            TaskValue::Scalar(b) => TaskValue::Scalar(copy_bytes(b)),
            TaskValue::Table(b) => TaskValue::Table(copy_bytes(b)),
        }
    }
}

fn copy_bytes(b: &Vec<u8>) -> (res: Vec<u8>)
    ensures
        res@ == b@,
{
    let mut res: Vec<u8> = Vec::new();
    let mut i: usize = 0;
    while i < b.len()
        invariant
            i <= b@.len(),
            res@ == b@.take(i as int),
        decreases b@.len() - i,
    {
        res.push(b[i]);
        assert(res@ =~= b@.take(i + 1));
        i = i + 1;
    }
    assert(b@.take(b@.len() as int) =~= b@);
    res
}

/// A copy of a list of values.
pub fn copy_values(values: &[TaskValue]) -> (res: Vec<TaskValue>)
    ensures
        task_values_view(res@) == task_values_view(values@),
{
    let mut res: Vec<TaskValue> = Vec::new();
    let mut i: usize = 0;
    while i < values.len()
        invariant
            i <= values@.len(),
            res@.len() == i,
            forall|j: int| 0 <= j < i ==> #[trigger] task_value_view(res@[j]) == task_value_view(values@[j]),
        decreases values@.len() - i,
    {
        res.push(values[i].copy());
        i = i + 1;
    }
    assert(task_values_view(res@) =~= task_values_view(values@));
    res
}

impl Task {
    /// What the task is.
    pub fn task_kind(&self) -> (k: &TaskKind)
        ensures
            *k == self.task_kind,
    {
        &self.task_kind
    }
}

impl TaskCall for Task {
    /// A task that holds its value is done, with that value and no values for
    /// other tasks; any other task hands all its input values, unchanged, to
    /// its sub-task.
    fn eval(&self, values: &[TaskValue]) -> (step: TaskStep)
        ensures
            match self.task_kind {
                TaskKind::Value(v) => step matches TaskStep::Done(r, others)
                    && task_value_view(r) == task_value_view(v)
                    && others@.len() == 0,
                TaskKind::Computed(sub) => step matches TaskStep::Delegate(s, inputs)
                    && s == sub
                    && task_values_view(inputs@) == task_values_view(values@),
            },
    {
        match self.task_kind() {
            TaskKind::Value(v) => TaskStep::Done(v.copy(), Vec::new()),
            TaskKind::Computed(sub) => TaskStep::Delegate(*sub, copy_values(values)),
        }
    }
}

} // verus!
