//! The records that the store hands out, and the errors it reports.
use crate::time::{Duration, SystemTime};
use crate::util::{dur, stored, ts};
use vstd::prelude::*;

verus! {

/// A stretch of work that a user logged against a project.
#[derive(Clone, Debug)]
pub struct TaskRecord {
    pub id: i64,
    pub username: String,
    pub start_time: SystemTime,
    pub end_time: SystemTime,
    pub project: String,
    pub task: String,
}

/// The work of one user on one task of a project, added up.
#[derive(Clone, Debug)]
pub struct AggregatedTaskRecord {
    pub project: String,
    pub username: String,
    pub task: String,
    pub start_time: SystemTime,
    pub end_time: SystemTime,
    pub duration: Duration,
}

/// A project: who opened it and when, its deadline, the time set aside for
/// it, when it was completed, and its place among meta projects.
#[derive(Clone, Debug)]
pub struct ProjectRecord {
    pub id: i64,
    pub name: String,
    pub username: String,
    pub start_time: SystemTime,
    pub end_time: Option<SystemTime>,
    pub provision: Option<Duration>,
    pub completed: Option<SystemTime>,
    pub is_meta: bool,
    pub parent: Option<i64>,
}

/// A note that a user left on a project.
#[derive(Clone, Debug)]
pub struct NoteRecord {
    pub id: i64,
    pub username: String,
    pub project: String,
    pub created_at: SystemTime,
    pub content: String,
}

/// The time a user means to spend on a project in all, until `end_time` if
/// there is one.
#[derive(Clone, Debug)]
pub struct Intent {
    pub username: String,
    pub project: String,
    pub amount: Duration,
    pub end_time: Option<SystemTime>,
}

/// From `start_time` to `end_time` the user can work at most `weekly` a week.
#[derive(Clone, Debug)]
pub struct Avail {
    pub username: String,
    pub start_time: SystemTime,
    pub end_time: SystemTime,
    pub weekly: Duration,
}

/// What can go wrong with the store.
#[derive(Clone, Debug)]
pub enum StoreError {
    Open(String),
    Connected(String),
    LogRecord,
    Iter,
    Get,
    Lock,
}

/// What the store hands out, or what went wrong.
pub type StoreResult<T> = Result<T, StoreError>;

impl TaskRecord {
    /// The times of the task are times that the store can hold.
    pub open spec fn wf(self) -> bool {
        self.start_time.millis <= i64::MAX && self.end_time.millis <= i64::MAX
    }
}

impl AggregatedTaskRecord {
    /// The times of the work are times that the store can hold.
    pub open spec fn wf(self) -> bool {
        &&& self.start_time.millis <= i64::MAX
        &&& self.end_time.millis <= i64::MAX
        &&& self.duration.millis <= i64::MAX
    }
}

/// The test whether a project is a child of the project with the id `id`.
pub open spec fn child_of(id: i64) -> spec_fn(ProjectRecord) -> bool {
    |p: ProjectRecord| p.parent == Some(id)
}

/// The names of the children of the meta project `project` among `rows`:
/// the projects whose work is the work of the meta project.
pub fn children_names(project: &ProjectRecord, rows: &Vec<ProjectRecord>) -> (names: Vec<String>)
    ensures
        names@.map_values(|s: String| s@) == rows@.filter(child_of(project.id)).map_values(
            |p: ProjectRecord| p.name@,
        ),
{
    let mut names: Vec<String> = Vec::new();
    let mut i: usize = 0;
    proof {
        reveal(Seq::filter);
        assert(names@.map_values(|s: String| s@) =~= rows@.take(0).filter(
            child_of(project.id),
        ).map_values(|p: ProjectRecord| p.name@));
    }
    while i < rows.len()
        invariant
            i <= rows.len(),
            names@.map_values(|s: String| s@) == rows@.take(i as int).filter(
                child_of(project.id),
            ).map_values(|p: ProjectRecord| p.name@),
        decreases rows.len() - i,
    {
        proof {
            reveal(Seq::filter);
            assert(rows@.take(i + 1).drop_last() =~= rows@.take(i as int));
            assert(rows@.take(i + 1).last() == rows@[i as int]);
        }
        let is_child = match rows[i].parent {
            Some(parent_id) => parent_id == project.id,
            None => false,
        };
        if is_child {
            let ghost before = names@.map_values(|s: String| s@);
            names.push(rows[i].name.clone());
            assert(names@.map_values(|s: String| s@) =~= before.push(rows@[i as int].name@));
        }
        assert(names@.map_values(|s: String| s@) =~= rows@.take(i + 1).filter(
            child_of(project.id),
        ).map_values(|p: ProjectRecord| p.name@));
        i = i + 1;
    }
    proof {
        assert(rows@.take(i as int) =~= rows@);
    }
    names
}

/// The number of the migration that brings a store of the version
/// `user_version` one version on; `None` where the store is up to date.
pub fn migrate(user_version: i64) -> (migration: Option<u32>)
    ensures
        migration == if 0 <= user_version <= 3 {
            Some((user_version + 1) as u32)
        } else {
            None
        },
{
    if user_version == 0 {
        Some(1)
    } else if user_version == 1 {
        Some(2)
    } else if user_version == 2 {
        Some(3)
    } else if user_version == 3 {
        Some(4)
    } else {
        None
    }
}

impl StoreError {
    /// What went wrong, in words.
    pub open spec fn message(self) -> Seq<char> {
        match self {
            StoreError::Open(p) => "Failed to open connection to "@ + p@,
            StoreError::Connected(p) => "Failed to get a connection to "@ + p@,
            StoreError::LogRecord => "Failed to log record"@,
            StoreError::Iter => "Failed to iterate"@,
            StoreError::Get => "Failed to get a record"@,
            StoreError::Lock =>
                "Rather obscure, but somewhere we failed to obtain a lock on a mutex..."@,
        }
    }

    /// What went wrong, in words.
    pub fn to_string(&self) -> (text: String)
        ensures
            text@ == self.message(),
    {
        match self {
            StoreError::Open(p) => crate::text::concat("Failed to open connection to ", p.as_str()),
            StoreError::Connected(p) => crate::text::concat(
                "Failed to get a connection to ",
                p.as_str(),
            ),
            StoreError::LogRecord => String::from_str("Failed to log record"),
            StoreError::Iter => String::from_str("Failed to iterate"),
            StoreError::Get => String::from_str("Failed to get a record"),
            StoreError::Lock => String::from_str(
                "Rather obscure, but somewhere we failed to obtain a lock on a mutex...",
            ),
        }
    }
}

/// The statements that the store knows by name.
#[derive(Clone, Copy, Debug, PartialEq, Eq, Structural)]
pub enum Name {
    InsertDo,
    InsertNote,
    InsertNotification,
    InsertProject,
    SelectAllProjectInfo,
    SelectCurrentTask,
    SelectCurrentTaskFor,
    SelectEndingTask,
    SelectLatestTaskFor,
    SelectNotes,
    SelectProject,
    SelectProjectDetail,
    SelectProjectInfo,
    SelectUser,
    UpdateCompleted,
    UpdateDeadline,
    UpdateProvision,
    UpdateTaskEnd,
    UpdateMeta,
    UpdateParent,
    InsertAvail,
    InsertIntent,
    SelectAvailAll,
    SelectIntentAll,
}

/// A value that a statement is run with.
#[derive(Clone, Debug)]
pub enum Value {
    Text(String),
    Int(i64),
    Flag(bool),
}

/// What a [`Value`] says.
pub enum ValueView {
    Text(Seq<char>),
    Int(i64),
    Flag(bool),
}

impl View for Value {
    type V = ValueView;

    open spec fn view(&self) -> ValueView {
        match *self {
            Value::Text(s) => ValueView::Text(s@),
            Value::Int(n) => ValueView::Int(n),
            Value::Flag(b) => ValueView::Flag(b),
        }
    }
}

/// A statement of the store, with the values it is to be run with, each
/// under the name that the statement has for it.
#[derive(Debug)]
pub struct Statement {
    pub name: Name,
    pub params: Vec<(&'static str, Value)>,
}

/// What a [`Statement`] says.
pub struct StatementView {
    pub name: Name,
    pub params: Seq<(Seq<char>, ValueView)>,
}

impl View for Statement {
    type V = StatementView;

    open spec fn view(&self) -> StatementView {
        StatementView {
            name: self.name,
            params: self.params@.map_values(|p: (&'static str, Value)| (p.0@, p.1@)),
        }
    }
}

/// The value that stands for the point in time `t`.
pub open spec fn time_of(t: SystemTime) -> ValueView {
    ValueView::Int(stored(t.millis) as i64)
}

/// The value that stands for the span of time `d`.
pub open spec fn span_of(d: Duration) -> ValueView {
    ValueView::Int(stored(d.millis) as i64)
}

impl Statement {
    /// The statement `name` with the values `params`.
    pub fn new(name: Name, params: Vec<(&'static str, Value)>) -> (st: Statement)
        ensures
            st.name == name,
            st.params == params,
    {
        Statement { name, params }
    }
}

/// The statement that records that `user` works on `task` of `project` from `start` to `end`.
pub open spec fn insert_do_statement(user: Seq<char>, start: SystemTime, end: SystemTime, project: Seq<char>, task: Seq<char>) -> StatementView {
    StatementView {
        name: Name::InsertDo,
        params: seq![
            (":username"@, ValueView::Text(user)),
            (":start"@, time_of(start)),
            (":end"@, time_of(end)),
            (":project"@, ValueView::Text(project)),
            (":task"@, ValueView::Text(task)),
        ],
    }
}

/// Records that `user` works on `task` of `project` from `start` to `end`.
pub fn insert_do(user: String, start: SystemTime, end: SystemTime, project: String, task: String) -> (st: Statement)
    ensures
        st@ == insert_do_statement(user@, start, end, project@, task@),
{
    let st = Statement::new(
        Name::InsertDo,
        vec![
            (":username", Value::Text(user)),
            (":start", Value::Int(ts(&start))),
            (":end", Value::Int(ts(&end))),
            (":project", Value::Text(project)),
            (":task", Value::Text(task)),
        ],
    );
    assert(st@.params =~= insert_do_statement(user@, start, end, project@, task@).params);
    st
}

/// The statement that opens the project `name` for `username` at `start`.
pub open spec fn insert_project_statement(username: Seq<char>, name: Seq<char>, start: SystemTime) -> StatementView {
    StatementView {
        name: Name::InsertProject,
        params: seq![
            (":username"@, ValueView::Text(username)),
            (":name"@, ValueView::Text(name)),
            (":start"@, time_of(start)),
        ],
    }
}

/// Opens the project `name` for `username` at `start`.
pub fn insert_project(username: String, name: String, start: SystemTime) -> (st: Statement)
    ensures
        st@ == insert_project_statement(username@, name@, start),
{
    let st = Statement::new(
        Name::InsertProject,
        vec![
            (":username", Value::Text(username)),
            (":name", Value::Text(name)),
            (":start", Value::Int(ts(&start))),
        ],
    );
    assert(st@.params =~= insert_project_statement(username@, name@, start).params);
    st
}

/// The statement that leaves the note `content` of `username` on `project`, written at `now`.
pub open spec fn insert_note_statement(project: Seq<char>, username: Seq<char>, now: SystemTime, content: Seq<char>) -> StatementView {
    StatementView {
        name: Name::InsertNote,
        params: seq![
            (":project"@, ValueView::Text(project)),
            (":username"@, ValueView::Text(username)),
            (":created_at"@, time_of(now)),
            (":content"@, ValueView::Text(content)),
        ],
    }
}

/// Leaves the note `content` of `username` on `project`, written at `now`.
pub fn insert_note(project: String, username: String, now: SystemTime, content: String) -> (st: Statement)
    ensures
        st@ == insert_note_statement(project@, username@, now, content@),
{
    let st = Statement::new(
        Name::InsertNote,
        vec![
            (":project", Value::Text(project)),
            (":username", Value::Text(username)),
            (":created_at", Value::Int(ts(&now))),
            (":content", Value::Text(content)),
        ],
    );
    assert(st@.params =~= insert_note_statement(project@, username@, now, content@).params);
    st
}

/// The statement that records that `user` can work `weekly` a week from `start` to `end`.
pub open spec fn insert_avail_statement(user: Seq<char>, start: SystemTime, end: SystemTime, weekly: Duration) -> StatementView {
    StatementView {
        name: Name::InsertAvail,
        params: seq![
            (":username"@, ValueView::Text(user)),
            (":start"@, time_of(start)),
            (":end"@, time_of(end)),
            (":weekly"@, span_of(weekly)),
        ],
    }
}

/// Records that `user` can work `weekly` a week from `start` to `end`.
pub fn insert_avail(user: String, start: SystemTime, end: SystemTime, weekly: Duration) -> (st: Statement)
    ensures
        st@ == insert_avail_statement(user@, start, end, weekly),
{
    let st = Statement::new(
        Name::InsertAvail,
        vec![
            (":username", Value::Text(user)),
            (":start", Value::Int(ts(&start))),
            (":end", Value::Int(ts(&end))),
            (":weekly", Value::Int(dur(&weekly))),
        ],
    );
    assert(st@.params =~= insert_avail_statement(user@, start, end, weekly).params);
    st
}

/// The statement that records that `user` means to spend `amount` on `project`.
pub open spec fn insert_intent_statement(user: Seq<char>, project: Seq<char>, amount: Duration) -> StatementView {
    StatementView {
        name: Name::InsertIntent,
        params: seq![
            (":username"@, ValueView::Text(user)),
            (":project"@, ValueView::Text(project)),
            (":amount"@, span_of(amount)),
        ],
    }
}

/// Records that `user` means to spend `amount` on `project`.
pub fn insert_intent(user: String, project: String, amount: Duration) -> (st: Statement)
    ensures
        st@ == insert_intent_statement(user@, project@, amount),
{
    let st = Statement::new(
        Name::InsertIntent,
        vec![
            (":username", Value::Text(user)),
            (":project", Value::Text(project)),
            (":amount", Value::Int(dur(&amount))),
        ],
    );
    assert(st@.params =~= insert_intent_statement(user@, project@, amount).params);
    st
}

/// The statement that sets the deadline of the project `name` to `end`.
pub open spec fn update_deadline_statement(name: Seq<char>, end: SystemTime) -> StatementView {
    StatementView {
        name: Name::UpdateDeadline,
        params: seq![
            (":name"@, ValueView::Text(name)),
            (":end"@, time_of(end)),
        ],
    }
}

/// Sets the deadline of the project `name` to `end`.
pub fn update_deadline(name: String, end: SystemTime) -> (st: Statement)
    ensures
        st@ == update_deadline_statement(name@, end),
{
    let st = Statement::new(
        Name::UpdateDeadline,
        vec![
            (":name", Value::Text(name)),
            (":end", Value::Int(ts(&end))),
        ],
    );
    assert(st@.params =~= update_deadline_statement(name@, end).params);
    st
}

/// The statement that marks the project `name` as completed at `completed`.
pub open spec fn update_completed_statement(name: Seq<char>, completed: SystemTime) -> StatementView {
    StatementView {
        name: Name::UpdateCompleted,
        params: seq![
            (":name"@, ValueView::Text(name)),
            (":completed"@, time_of(completed)),
        ],
    }
}

/// Marks the project `name` as completed at `completed`.
pub fn update_completed(name: String, completed: SystemTime) -> (st: Statement)
    ensures
        st@ == update_completed_statement(name@, completed),
{
    let st = Statement::new(
        Name::UpdateCompleted,
        vec![
            (":name", Value::Text(name)),
            (":completed", Value::Int(ts(&completed))),
        ],
    );
    assert(st@.params =~= update_completed_statement(name@, completed).params);
    st
}

/// The statement that sets the time set aside for the project `name` to `provision`.
pub open spec fn update_provision_statement(name: Seq<char>, provision: Duration) -> StatementView {
    StatementView {
        name: Name::UpdateProvision,
        params: seq![
            (":name"@, ValueView::Text(name)),
            (":provision"@, span_of(provision)),
        ],
    }
}

/// Sets the time set aside for the project `name` to `provision`.
pub fn update_provision(name: String, provision: Duration) -> (st: Statement)
    ensures
        st@ == update_provision_statement(name@, provision),
{
    let st = Statement::new(
        Name::UpdateProvision,
        vec![
            (":name", Value::Text(name)),
            (":provision", Value::Int(dur(&provision))),
        ],
    );
    assert(st@.params =~= update_provision_statement(name@, provision).params);
    st
}

/// The statement that makes the project `name` a meta project, or an ordinary one.
pub open spec fn update_meta_statement(name: Seq<char>, is_meta: bool) -> StatementView {
    StatementView {
        name: Name::UpdateMeta,
        params: seq![
            (":name"@, ValueView::Text(name)),
            (":is_meta"@, ValueView::Flag(is_meta)),
        ],
    }
}

/// Makes the project `name` a meta project, or an ordinary one.
pub fn update_meta(name: String, is_meta: bool) -> (st: Statement)
    ensures
        st@ == update_meta_statement(name@, is_meta),
{
    let st = Statement::new(
        Name::UpdateMeta,
        vec![
            (":name", Value::Text(name)),
            (":is_meta", Value::Flag(is_meta)),
        ],
    );
    assert(st@.params =~= update_meta_statement(name@, is_meta).params);
    st
}

/// The statement that puts the project `name` under the meta project with the id `parent`.
pub open spec fn update_parent_statement(name: Seq<char>, parent: i64) -> StatementView {
    StatementView {
        name: Name::UpdateParent,
        params: seq![
            (":name"@, ValueView::Text(name)),
            (":parent"@, ValueView::Int(parent)),
        ],
    }
}

/// Puts the project `name` under the meta project with the id `parent`.
pub fn update_parent(name: String, parent: i64) -> (st: Statement)
    ensures
        st@ == update_parent_statement(name@, parent),
{
    let st = Statement::new(
        Name::UpdateParent,
        vec![
            (":name", Value::Text(name)),
            (":parent", Value::Int(parent)),
        ],
    );
    assert(st@.params =~= update_parent_statement(name@, parent).params);
    st
}

/// The statement that notes that the user was told that the task `tid` ends at `end`.
pub open spec fn insert_notification_statement(tid: i64, end: SystemTime) -> StatementView {
    StatementView {
        name: Name::InsertNotification,
        params: seq![
            (":tid"@, ValueView::Int(tid)),
            (":end"@, time_of(end)),
        ],
    }
}

/// Notes that the user was told that the task `tid` ends at `end`.
pub fn insert_notification(tid: i64, end: SystemTime) -> (st: Statement)
    ensures
        st@ == insert_notification_statement(tid, end),
{
    let st = Statement::new(
        Name::InsertNotification,
        vec![
            (":tid", Value::Int(tid)),
            (":end", Value::Int(ts(&end))),
        ],
    );
    assert(st@.params =~= insert_notification_statement(tid, end).params);
    st
}

/// The statement that lets the task `id` end at `end`.
pub open spec fn update_task_end_statement(id: i64, end: SystemTime) -> StatementView {
    StatementView {
        name: Name::UpdateTaskEnd,
        params: seq![
            (":id"@, ValueView::Int(id)),
            (":end"@, time_of(end)),
        ],
    }
}

/// Lets the task `id` end at `end`.
pub fn update_task_end(id: i64, end: SystemTime) -> (st: Statement)
    ensures
        st@ == update_task_end_statement(id, end),
{
    let st = Statement::new(
        Name::UpdateTaskEnd,
        vec![
            (":id", Value::Int(id)),
            (":end", Value::Int(ts(&end))),
        ],
    );
    assert(st@.params =~= update_task_end_statement(id, end).params);
    st
}

/// The statement that asks for the tasks that are under way at `now`.
pub open spec fn select_current_task_statement(now: SystemTime) -> StatementView {
    StatementView {
        name: Name::SelectCurrentTask,
        params: seq![
            (":now"@, time_of(now)),
        ],
    }
}

/// Asks for the tasks that are under way at `now`.
pub fn select_current_task(now: SystemTime) -> (st: Statement)
    ensures
        st@ == select_current_task_statement(now),
{
    let st = Statement::new(
        Name::SelectCurrentTask,
        vec![
            (":now", Value::Int(ts(&now))),
        ],
    );
    assert(st@.params =~= select_current_task_statement(now).params);
    st
}

/// The statement that asks for the tasks of `user` that are under way at `now`.
pub open spec fn select_current_task_for_statement(user: Seq<char>, now: SystemTime) -> StatementView {
    StatementView {
        name: Name::SelectCurrentTaskFor,
        params: seq![
            (":user"@, ValueView::Text(user)),
            (":now"@, time_of(now)),
        ],
    }
}

/// Asks for the tasks of `user` that are under way at `now`.
pub fn select_current_task_for(user: String, now: SystemTime) -> (st: Statement)
    ensures
        st@ == select_current_task_for_statement(user@, now),
{
    let st = Statement::new(
        Name::SelectCurrentTaskFor,
        vec![
            (":user", Value::Text(user)),
            (":now", Value::Int(ts(&now))),
        ],
    );
    assert(st@.params =~= select_current_task_for_statement(user@, now).params);
    st
}

/// The statement that asks for the task that `user` logged last.
pub open spec fn select_latest_task_for_statement(user: Seq<char>) -> StatementView {
    StatementView {
        name: Name::SelectLatestTaskFor,
        params: seq![
            (":user"@, ValueView::Text(user)),
        ],
    }
}

/// Asks for the task that `user` logged last.
pub fn select_latest_task_for(user: String) -> (st: Statement)
    ensures
        st@ == select_latest_task_for_statement(user@),
{
    let st = Statement::new(
        Name::SelectLatestTaskFor,
        vec![
            (":user", Value::Text(user)),
        ],
    );
    assert(st@.params =~= select_latest_task_for_statement(user@).params);
    st
}

/// The statement that asks for the project `project`.
pub open spec fn select_project_info_statement(project: Seq<char>) -> StatementView {
    StatementView {
        name: Name::SelectProjectInfo,
        params: seq![
            (":project"@, ValueView::Text(project)),
        ],
    }
}

/// Asks for the project `project`.
pub fn select_project_info(project: String) -> (st: Statement)
    ensures
        st@ == select_project_info_statement(project@),
{
    let st = Statement::new(
        Name::SelectProjectInfo,
        vec![
            (":project", Value::Text(project)),
        ],
    );
    assert(st@.params =~= select_project_info_statement(project@).params);
    st
}

/// The statement that asks for the notes on `project`.
pub open spec fn select_notes_statement(project: Seq<char>) -> StatementView {
    StatementView {
        name: Name::SelectNotes,
        params: seq![
            (":project"@, ValueView::Text(project)),
        ],
    }
}

/// Asks for the notes on `project`.
pub fn select_notes(project: String) -> (st: Statement)
    ensures
        st@ == select_notes_statement(project@),
{
    let st = Statement::new(
        Name::SelectNotes,
        vec![
            (":project", Value::Text(project)),
        ],
    );
    assert(st@.params =~= select_notes_statement(project@).params);
    st
}

/// The statement that asks for the work of `user` since `since`, added up by task.
pub open spec fn select_user_statement(user: Seq<char>, since: SystemTime) -> StatementView {
    StatementView {
        name: Name::SelectUser,
        params: seq![
            (":user"@, ValueView::Text(user)),
            (":since"@, time_of(since)),
        ],
    }
}

/// Asks for the work of `user` since `since`, added up by task.
pub fn select_user(user: String, since: SystemTime) -> (st: Statement)
    ensures
        st@ == select_user_statement(user@, since),
{
    let st = Statement::new(
        Name::SelectUser,
        vec![
            (":user", Value::Text(user)),
            (":since", Value::Int(ts(&since))),
        ],
    );
    assert(st@.params =~= select_user_statement(user@, since).params);
    st
}

/// The statement that asks for the tasks that end soon after `now` and of which nobody was told yet.
pub open spec fn select_ending_tasks_statement(now: SystemTime) -> StatementView {
    StatementView {
        name: Name::SelectEndingTask,
        params: seq![
            (":now"@, time_of(now)),
        ],
    }
}

/// Asks for the tasks that end soon after `now` and of which nobody was told yet.
pub fn select_ending_tasks(now: SystemTime) -> (st: Statement)
    ensures
        st@ == select_ending_tasks_statement(now),
{
    let st = Statement::new(
        Name::SelectEndingTask,
        vec![
            (":now", Value::Int(ts(&now))),
        ],
    );
    assert(st@.params =~= select_ending_tasks_statement(now).params);
    st
}

} // verus!
