//! What the commands share: the steps they take, looking a project up, and
//! what to say when there is no such project.
use crate::html::{
    div, element_text, element_views, group, h4, li, paragraph, text_element, ul, Element,
    ElementView,
};
use crate::store::{
    ProjectRecord, Statement, StatementView, StoreError, StoreResult, TaskRecord,
};
use crate::sorting::{in_order, lemma_insert_at};
use crate::text::{concat, find_char, first_of, join, joined, strings_view};
use vstd::prelude::*;

verus! {

/// What the bot says back: a text and its HTML form, which is empty where
/// the text is all there is. `None` where the bot says nothing.
pub type Reply = Option<(String, String)>;

/// What a [`Reply`] says.
pub type ReplyView = Option<(Seq<char>, Seq<char>)>;

/// What the reply `r` says.
pub open spec fn reply_view(r: Reply) -> ReplyView {
    match r {
        None => None,
        Some(pair) => Some((pair.0@, pair.1@)),
    }
}

/// What to say when the store could not write.
#[derive(Debug)]
pub enum OnFailure {
    /// Say this.
    Say(Reply),
    /// Say `Error: ` and what the store reports.
    Report,
}

/// What to say once the store has answered.
#[derive(Debug)]
pub struct Replies {
    pub written: Reply,
    pub failed: OnFailure,
}

/// What a command does next.
#[derive(Debug)]
pub enum Step {
    /// Nothing is written: the command ends with this reply.
    Done(Reply),
    /// These statements are run, one after the other as long as they
    /// succeed, and the command ends with the reply of `then` that fits.
    Write { statements: Vec<Statement>, then: Replies },
}

/// What an [`OnFailure`] says.
pub enum OnFailureView {
    Say(ReplyView),
    Report,
}

/// What [`Replies`] say.
pub struct RepliesView {
    pub written: ReplyView,
    pub failed: OnFailureView,
}

/// What a [`Step`] says.
pub enum StepView {
    Done(ReplyView),
    Write { statements: Seq<StatementView>, then: RepliesView },
}

impl View for OnFailure {
    type V = OnFailureView;

    open spec fn view(&self) -> OnFailureView {
        match *self {
            OnFailure::Say(r) => OnFailureView::Say(reply_view(r)),
            OnFailure::Report => OnFailureView::Report,
        }
    }
}

impl View for Replies {
    type V = RepliesView;

    open spec fn view(&self) -> RepliesView {
        RepliesView { written: reply_view(self.written), failed: self.failed@ }
    }
}

impl View for Step {
    type V = StepView;

    open spec fn view(&self) -> StepView {
        match *self {
            Step::Done(r) => StepView::Done(reply_view(r)),
            Step::Write { statements, then } => StepView::Write {
                statements: statements@.map_values(|s: Statement| s@),
                then: then@,
            },
        }
    }
}

/// The reply with the text `text` and nothing else.
pub open spec fn plain(text: Seq<char>) -> ReplyView {
    Some((text, Seq::empty()))
}

/// The reply that the store could not save.
pub open spec fn sorry() -> ReplyView {
    Some(("Sorry, Err'd while saving to DB"@, "Sorry, Err'd while saving to DB"@))
}

/// What is said once the store has answered with `result`.
pub open spec fn reply_after(then: RepliesView, result: StoreResult<usize>) -> ReplyView {
    match result {
        Ok(_) => then.written,
        Err(err) => match then.failed {
            OnFailureView::Say(r) => r,
            OnFailureView::Report => plain("Error: "@ + err.message()),
        },
    }
}

/// The reply with the text `text` and nothing else.
pub fn say(text: String) -> (r: Reply)
    ensures
        reply_view(r) == plain(text@),
{
    Some((text, String::new()))
}

/// The reply with the text `text` and the HTML `html`.
pub fn say_both(text: &str, html: &str) -> (r: Reply)
    ensures
        reply_view(r) == Some((text@, html@)),
{
    Some((String::from_str(text), String::from_str(html)))
}

/// The replies of a command that says `text` once the store has written,
/// and that it is sorry where the store could not.
pub fn or_sorry(text: &str) -> (then: Replies)
    ensures
        then@ == (RepliesView { written: plain(text@), failed: OnFailureView::Say(sorry()) }),
{
    Replies {
        written: say(String::from_str(text)),
        failed: OnFailure::Say(
            say_both("Sorry, Err'd while saving to DB", "Sorry, Err'd while saving to DB"),
        ),
    }
}

/// The step that runs the one statement `statement`.
pub fn write_one(statement: Statement, then: Replies) -> (step: Step)
    ensures
        step@ == (StepView::Write { statements: seq![statement@], then: then@ }),
{
    let statements = vec![statement];
    assert(statements@.map_values(|s: Statement| s@) =~= seq![statement@]);
    Step::Write { statements, then }
}

/// The step that runs `first` and, where that succeeds, `second`.
pub fn write_two(first: Statement, second: Statement, then: Replies) -> (step: Step)
    ensures
        step@ == (StepView::Write { statements: seq![first@, second@], then: then@ }),
{
    let statements = vec![first, second];
    assert(statements@.map_values(|s: Statement| s@) =~= seq![first@, second@]);
    Step::Write { statements, then }
}

/// What the command says once the store has answered `result` to what it
/// wrote.
pub fn conclude(then: Replies, result: &StoreResult<usize>) -> (r: Reply)
    ensures
        reply_view(r) == reply_after(then@, *result),
{
    match result {
        Ok(_) => then.written,
        Err(err) => match then.failed {
            OnFailure::Say(r) => r,
            OnFailure::Report => {
                let what = err.to_string();
                say(concat("Error: ", what.as_str()))
            },
        },
    }
}

// ---------------------------------------------------------------------------
// Names of projects

/// The client and the project that the project name `name` is made of:
/// what stands before its first `/`, and what stands between that and the
/// next. `None` where `name` has no `/`.
pub open spec fn name_parts(name: Seq<char>) -> Option<(Seq<char>, Seq<char>)> {
    let slash = first_of(name, '/');
    if slash >= name.len() {
        None
    } else {
        let rest = name.skip(slash + 1);
        Some((name.take(slash), rest.take(first_of(rest, '/'))))
    }
}

/// The client and the project that the project name `project_name` is made of.
pub fn get_project_name_parts(project_name: &str) -> (parts: Option<(String, String)>)
    ensures
        match parts {
            Some(p) => name_parts(project_name@) == Some((p.0@, p.1@)),
            None => name_parts(project_name@) is None,
        },
{
    let n = project_name.unicode_len();
    let slash = find_char(project_name, '/');
    if slash >= n {
        None
    } else {
        let client = project_name.substring_char(0, slash);
        let rest = project_name.substring_char(slash + 1, n);
        assert(rest@ =~= project_name@.skip(slash + 1));
        let end = find_char(rest, '/');
        let project = rest.substring_char(0, end);
        Some((String::from_str(client), String::from_str(project)))
    }
}

/// The number of single-character changes that turn `a` into `b`, as
/// `strsim` counts them.
pub uninterp spec fn edit_distance(a: Seq<char>, b: Seq<char>) -> nat;

/// The least number of insertions, deletions and substitutions of
/// characters that turn `a` into `b`: `strsim::levenshtein`.
#[verifier::external_body]
fn levenshtein(a: &str, b: &str) -> (n: usize)
    ensures
        n == edit_distance(a@, b@),
{
    strsim::levenshtein(a, b)
}

/// A project name and how far it is from the name that was asked for.
pub type ScoredName = (String, u128);

/// How far the project name `name` is from the client `client` and the
/// project `project`: a change in the client's name weighs six times one
/// in the project's. `None` where `name` has no `/`.
pub open spec fn score(client: Seq<char>, project: Seq<char>, name: Seq<char>) -> Option<int> {
    match name_parts(name) {
        None => None,
        Some(parts) => Some(
            (edit_distance(client, parts.0) * 10 * 2 + edit_distance(project, parts.1) * 10 / 3)
                as int,
        ),
    }
}

/// One name is nearer than another: its distance is the smaller one.
pub open spec fn nearer() -> spec_fn((Seq<char>, int), (Seq<char>, int)) -> bool {
    |a: (Seq<char>, int), b: (Seq<char>, int)| a.1 < b.1
}

/// The names of `names` that have a `/`, each with its distance from
/// `client` and `project`, in the order of `names`.
pub open spec fn scored(client: Seq<char>, project: Seq<char>, names: Seq<Seq<char>>) -> Seq<
    (Seq<char>, int),
>
    decreases names.len(),
{
    if names.len() == 0 {
        Seq::empty()
    } else {
        let earlier = scored(client, project, names.drop_last());
        match score(client, project, names.last()) {
            None => earlier,
            Some(far) => earlier.push((names.last(), far)),
        }
    }
}

/// The names of `names` that have a `/`, each with its distance from
/// `client` and `project`, the nearest in front; names that are as far
/// stay in the order in which `names` has them.
pub open spec fn ranked(client: Seq<char>, project: Seq<char>, names: Seq<Seq<char>>) -> Seq<
    (Seq<char>, int),
> {
    in_order(scored(client, project, names), nearer())
}

/// The names of the projects `rows`.
pub open spec fn names_of(rows: Seq<ProjectRecord>) -> Seq<Seq<char>> {
    rows.map_values(|r: ProjectRecord| r.name@)
}

/// What scored names say.
pub open spec fn scored_view(names: Seq<ScoredName>) -> Seq<(Seq<char>, int)> {
    names.map_values(|n: ScoredName| (n.0@, n.1 as int))
}

/// The project names that come near the one that was asked for, the
/// nearest in front, and the name that was asked for.
pub struct Candidates(Vec<ScoredName>, Option<String>);

/// What [`Candidates`] say.
pub struct CandidatesView {
    pub names: Seq<(Seq<char>, int)>,
    pub asked: Option<Seq<char>>,
}

impl View for Candidates {
    type V = CandidatesView;

    closed spec fn view(&self) -> CandidatesView {
        CandidatesView {
            names: scored_view(self.0@),
            asked: match self.1 {
                None => None,
                Some(s) => Some(s@),
            },
        }
    }
}

/// The first `n` names of `names`, or all of them where there are fewer.
pub open spec fn first_names(names: Seq<(Seq<char>, int)>, n: int) -> Seq<Seq<char>> {
    names.take(if n < names.len() {
        n
    } else {
        names.len() as int
    }).map_values(|e: (Seq<char>, int)| e.0)
}

/// The line that says that the project that was asked for does not exist.
pub open spec fn candidates_title(asked: Option<Seq<char>>) -> Seq<char> {
    match asked {
        None => "This project does not exist, similar project names are:"@,
        Some(name) => "Project \""@ + name + "\" does not exist, similar project names are:"@,
    }
}

/// The names `names` as a list: each on a line of its own, behind a dash.
pub open spec fn dashed(names: Seq<Seq<char>>) -> Seq<char>
    decreases names.len(),
{
    if names.len() == 0 {
        Seq::empty()
    } else {
        dashed(names.drop_last()) + "\n  - "@ + names.last()
    }
}

/// What is said in text when there is no project of the name asked for: the
/// title, up to eight names that come near, and `desc`.
pub open spec fn candidates_text(c: CandidatesView, desc: Seq<char>) -> Seq<char> {
    candidates_title(c.asked) + "\n"@ + dashed(first_names(c.names, 8)) + "\n"@ + desc
}

/// The same as [`candidates_text`], as an HTML element.
pub open spec fn candidates_element(c: CandidatesView, desc: Seq<char>) -> ElementView {
    group(
        "div"@,
        seq![
            text_element("h4"@, candidates_title(c.asked)),
            group(
                "ul"@,
                first_names(c.names, 8).map_values(|n: Seq<char>| text_element("li"@, n)),
            ),
            text_element("p"@, desc),
        ],
    )
}

/// What is said when there is no project of the name asked for.
pub open spec fn candidates_reply(c: CandidatesView, desc: Seq<char>) -> ReplyView {
    Some((candidates_text(c, desc), element_text(candidates_element(c, desc))))
}

impl Candidates {
    /// No names at all, for no name in particular.
    fn empty() -> (c: Candidates)
        ensures
            c@ == (CandidatesView { names: Seq::empty(), asked: None }),
    {
        let c = Candidates(Vec::new(), None);
        assert(c@.names =~= Seq::empty());
        c
    }

    /// The first `n` names, or all of them where there are fewer.
    pub fn take(&self, n: usize) -> (names: Vec<String>)
        ensures
            strings_view(names@) == first_names(self@.names, n as int),
    {
        let mut names: Vec<String> = Vec::new();
        let mut i: usize = 0;
        while i < n && i < self.0.len()
            invariant
                i <= n,
                i <= self.0.len(),
                names.len() == i,
                forall|j: int| 0 <= j < i ==> (#[trigger] names@[j])@ == self.0@[j].0@,
            decreases self.0.len() - i,
        {
            names.push(self.0[i].0.clone());
            i = i + 1;
        }
        assert(strings_view(names@) =~= first_names(self@.names, n as int));
        names
    }

    /// The line that says that the project that was asked for does not exist.
    fn title(&self) -> (title: String)
        ensures
            title@ == candidates_title(self@.asked),
    {
        match &self.1 {
            None => String::from_str("This project does not exist, similar project names are:"),
            Some(name) => {
                let mut title = String::from_str("Project \"");
                title.append(name.as_str());
                title.append("\" does not exist, similar project names are:");
                title
            },
        }
    }

    /// What to say in text: the title, up to eight names, and `desc`.
    pub fn as_text(&self, desc: &str) -> (text: String)
        ensures
            text@ == candidates_text(self@, desc@),
    {
        let names = self.take(8);
        let ghost all = strings_view(names@);
        let mut list = String::new();
        let mut i: usize = 0;
        assert(all.take(0) =~= Seq::empty());
        while i < names.len()
            invariant
                i <= names.len(),
                all == strings_view(names@),
                list@ == dashed(all.take(i as int)),
            decreases names.len() - i,
        {
            proof {
                assert(all.take(i + 1).drop_last() =~= all.take(i as int));
                assert(all.take(i + 1).last() == names@[i as int]@);
            }
            let ghost so_far = list@;
            list.append("\n  - ");
            list.append(names[i].as_str());
            assert(list@ =~= so_far + "\n  - "@ + names@[i as int]@);
            i = i + 1;
        }
        proof {
            assert(all.take(i as int) =~= all);
        }
        let mut text = self.title();
        text.append("\n");
        text.append(list.as_str());
        text.append("\n");
        text.append(desc);
        text
    }

    /// What to say in HTML: the title, up to eight names, and `desc`.
    pub fn as_html(&self, desc: &str) -> (html: String)
        ensures
            html@ == element_text(candidates_element(self@, desc@)),
    {
        let title = h4(self.title());
        let names = self.take(8);
        let mut items: Vec<Element> = Vec::new();
        let mut i: usize = 0;
        while i < names.len()
            invariant
                i <= names.len(),
                items.len() == i,
                forall|j: int|
                    0 <= j < i ==> (#[trigger] items@[j])@ == text_element("li"@, names@[j]@),
            decreases names.len() - i,
        {
            items.push(li(&names[i]));
            i = i + 1;
        }
        proof {
            assert(element_views(items@) =~= first_names(self@.names, 8).map_values(
                |n: Seq<char>| text_element("li"@, n),
            ));
        }
        let list = ul(items);
        let all = vec![title, list, paragraph(desc)];
        proof {
            assert(element_views(all@) =~= seq![title@, list@, text_element("p"@, desc@)]);
        }
        div(all).as_string()
    }

    /// What to say when there is no such project, with `desc` at the end.
    pub fn reply(&self, desc: &str) -> (r: Reply)
        ensures
            reply_view(r) == candidates_reply(self@, desc@),
    {
        Some((self.as_text(desc), self.as_html(desc)))
    }
}

/// The names to offer when `project` was asked for and the store has
/// `rows`: those of `rows` by their distance from `project`; none where
/// `project` has no `/` or the store has no answer.
pub open spec fn candidates_for(project: Seq<char>, rows: StoreResult<Vec<ProjectRecord>>) -> CandidatesView {
    match (name_parts(project), rows) {
        (Some(parts), Ok(rows)) => CandidatesView {
            names: ranked(parts.0, parts.1, names_of(rows@)),
            asked: Some(project),
        },
        _ => CandidatesView { names: Seq::empty(), asked: None },
    }
}

/// The names to offer when `project` was asked for and the store has `rows`.
pub fn get_candidates(project: &str, rows: &StoreResult<Vec<ProjectRecord>>) -> (c: Candidates)
    ensures
        c@ == candidates_for(project@, *rows),
{
    match (get_project_name_parts(project), rows) {
        (Some((ref_client, ref_project)), Ok(rows)) => {
            let mut names: Vec<ScoredName> = Vec::new();
            let ghost all = names_of(rows@);
            let mut i: usize = 0;
            assert(scored_view(names@) =~= ranked(ref_client@, ref_project@, all.take(0)));
            while i < rows.len()
                invariant
                    i <= rows.len(),
                    all == names_of(rows@),
                    scored_view(names@) == ranked(ref_client@, ref_project@, all.take(i as int)),
                decreases rows.len() - i,
            {
                let ghost so_far = scored(ref_client@, ref_project@, all.take(i as int));
                proof {
                    assert(all.take(i + 1).drop_last() =~= all.take(i as int));
                    assert(all.take(i + 1).last() == rows@[i as int].name@);
                }
                match get_project_name_parts(rows[i].name.as_str()) {
                    None => {},
                    Some((client_name, project_name)) => {
                        let client_score = levenshtein(ref_client.as_str(), client_name.as_str())
                            as u128 * 10 * 2;
                        let project_score = levenshtein(
                            ref_project.as_str(),
                            project_name.as_str(),
                        ) as u128 * 10 / 3;
                        let far: u128 = client_score + project_score;
                        let ghost sorted = scored_view(names@);
                        let ghost e = (rows@[i as int].name@, far as int);
                        let mut pos: usize = names.len();
                        while pos > 0 && far < names[pos - 1].1
                            invariant
                                pos <= names.len(),
                                sorted == scored_view(names@),
                                forall|k: int| pos <= k < sorted.len() ==> far < (#[trigger] sorted[k]).1,
                            decreases pos,
                        {
                            pos = pos - 1;
                        }
                        proof {
                            assert(so_far.push(e).drop_last() =~= so_far);
                            lemma_insert_at(sorted, e, nearer(), pos as int);
                        }
                        names.insert(pos, (rows[i].name.clone(), far));
                        assert(scored_view(names@) =~= sorted.insert(pos as int, e));
                    },
                }
                i = i + 1;
            }
            proof {
                assert(all.take(i as int) =~= all);
            }
            Candidates(names, Some(String::from_str(project)))
        },
        _ => Candidates::empty(),
    }
}

/// The project that the store found under `name`, or else the names to
/// offer in its place.
pub fn select_project(
    info: StoreResult<ProjectRecord>,
    rows: &StoreResult<Vec<ProjectRecord>>,
    name: &str,
) -> (found: Result<ProjectRecord, Candidates>)
    ensures
        match found {
            Ok(p) => info == Ok::<ProjectRecord, StoreError>(p),
            Err(c) => info is Err && c@ == candidates_for(name@, *rows),
        },
{
    match info {
        Ok(p) => Ok(p),
        Err(_) => Err(get_candidates(name, rows)),
    }
}

// ---------------------------------------------------------------------------
// Tasks under way

/// The first task of `tasks` that is `user`'s.
pub open spec fn first_task_of(tasks: Seq<TaskRecord>, user: Seq<char>) -> Option<TaskRecord>
    decreases tasks.len(),
{
    if tasks.len() == 0 {
        None
    } else if tasks[0].username@ == user {
        Some(tasks[0])
    } else {
        first_task_of(tasks.skip(1), user)
    }
}

/// The first task of `tasks`.
pub open spec fn first_task(tasks: Seq<TaskRecord>) -> Option<TaskRecord> {
    if tasks.len() == 0 {
        None
    } else {
        Some(tasks[0])
    }
}

/// The first task of `tasks` that is `user`'s.
pub fn find_task_of<'a>(tasks: &'a Vec<TaskRecord>, user: &String) -> (found: Option<
    &'a TaskRecord,
>)
    ensures
        match found {
            Some(t) => first_task_of(tasks@, user@) == Some(*t),
            None => first_task_of(tasks@, user@) is None,
        },
{
    let mut i: usize = 0;
    assert(tasks@.skip(0) =~= tasks@);
    while i < tasks.len()
        invariant
            i <= tasks.len(),
            first_task_of(tasks@, user@) == first_task_of(tasks@.skip(i as int), user@),
        decreases tasks.len() - i,
    {
        proof {
            assert(tasks@.skip(i as int)[0] == tasks@[i as int]);
            assert(tasks@.skip(i as int).skip(1) =~= tasks@.skip(i + 1));
        }
        if tasks[i].username == *user {
            return Some(&tasks[i]);
        }
        i = i + 1;
    }
    None
}

// ---------------------------------------------------------------------------
// Meta projects

/// The projects of `rows` whose parent is the project with the id `id`.
pub open spec fn children_of(rows: Seq<ProjectRecord>, id: i64) -> Seq<ProjectRecord> {
    rows.filter(|p: ProjectRecord| p.parent == Some(id))
}

/// The names of `projects`, each on a line of its own, behind an arrow.
pub open spec fn project_list_text(projects: Seq<ProjectRecord>) -> Seq<char> {
    joined(projects.map_values(|p: ProjectRecord| "→ "@ + p.name@), "\n"@)
}

/// The names of `projects`, each on a line of its own, behind an arrow.
fn project_list_string(projects: &Vec<&ProjectRecord>) -> (text: String)
    ensures
        text@ == project_list_text(projects@.map_values(|p: &ProjectRecord| *p)),
{
    let mut lines: Vec<String> = Vec::new();
    let mut i: usize = 0;
    while i < projects.len()
        invariant
            i <= projects.len(),
            lines.len() == i,
            forall|j: int| 0 <= j < i ==> (#[trigger] lines@[j])@ == "→ "@ + projects@[j].name@,
        decreases projects.len() - i,
    {
        lines.push(concat("→ ", projects[i].name.as_str()));
        i = i + 1;
    }
    proof {
        assert(strings_view(lines@) =~= projects@.map_values(|p: &ProjectRecord| *p).map_values(
            |p: ProjectRecord| "→ "@ + p.name@,
        ));
    }
    join(&lines, "\n")
}

/// What is said to someone who wants to work on `project` itself although
/// it is a meta project: that work goes to its child projects, which are
/// listed. Nothing is said where `project` is no meta project, or where the
/// store has no answer.
pub open spec fn meta_reply(project: ProjectRecord, rows: StoreResult<Vec<ProjectRecord>>) -> ReplyView {
    if !project.is_meta {
        None
    } else {
        match rows {
            Err(_) => None,
            Ok(rows) => plain(
                "This is a meta project, you must assign work to its child projects."@ + "\n"@
                    + project_list_text(children_of(rows@, project.id)),
            ),
        }
    }
}

/// What is said to someone who wants to work on `project` itself although
/// it is a meta project.
pub fn check_meta(project: &ProjectRecord, rows: &StoreResult<Vec<ProjectRecord>>) -> (r: Reply)
    ensures
        reply_view(r) == meta_reply(*project, *rows),
{
    if !project.is_meta {
        return None;
    }
    match rows {
        Err(_) => None,
        Ok(rows) => {
            let mut children: Vec<&ProjectRecord> = Vec::new();
            let mut i: usize = 0;
            proof {
                reveal(Seq::filter);
                assert(children@.map_values(|p: &ProjectRecord| *p) =~= children_of(
                    rows@.take(0),
                    project.id,
                ));
            }
            while i < rows.len()
                invariant
                    i <= rows.len(),
                    children@.map_values(|p: &ProjectRecord| *p) == children_of(
                        rows@.take(i as int),
                        project.id,
                    ),
                decreases rows.len() - i,
            {
                proof {
                    reveal(Seq::filter);
                    assert(rows@.take(i + 1).drop_last() =~= rows@.take(i as int));
                    assert(rows@.take(i + 1).last() == rows@[i as int]);
                }
                let is_child = match rows[i].parent {
                    Some(parent) => parent == project.id,
                    None => false,
                };
                if is_child {
                    let ghost before = children@.map_values(|p: &ProjectRecord| *p);
                    children.push(&rows[i]);
                    assert(children@.map_values(|p: &ProjectRecord| *p) =~= before.push(
                        rows@[i as int],
                    ));
                }
                i = i + 1;
            }
            proof {
                assert(rows@.take(i as int) =~= rows@);
            }
            let list = project_list_string(&children);
            let mut text = String::from_str(
                "This is a meta project, you must assign work to its child projects.",
            );
            text.append("\n");
            text.append(list.as_str());
            say(text)
        },
    }
}

} // verus!
