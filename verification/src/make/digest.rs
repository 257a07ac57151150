//! `!digest`: where a project stands.
use super::common::{
    candidates_for, candidates_reply, reply_view, select_project, Reply, ReplyView,
};
use crate::html::{
    code, details, div, element_text, element_views, group, h2, hidden, link, linked, no_display,
    paragraph, table, text_element, wrap, Element, ElementView,
};
use crate::store::{AggregatedTaskRecord, NoteRecord, ProjectRecord, StoreResult};
use crate::text::{
    concat, i64_to_string, join, joined, signed_decimal, strings_view, u128_to_string, decimal,
};
use crate::util::{
    display_username, dur, human_duration, humanized, make_table_row, row_view, shown_name, stored,
};
use vstd::prelude::*;

verus! {

/// The note `note`, written on the day `date`, in text.
pub open spec fn note_text(note: NoteRecord, date: Seq<char>) -> Seq<char> {
    "\n                    "@ + shown_name(note.username@) + " ("@ + date + ")\n                    "@ + note.content@ + "\n                    "@
}

/// The notes `notes`, written on the days `dates`, in text.
pub open spec fn notes_text(notes: Seq<NoteRecord>, dates: Seq<Seq<char>>) -> Seq<char> {
    joined(Seq::new(notes.len(), |i: int| note_text(notes[i], dates[i])), "\n\n"@)
}

/// The note `note`, written on the day `date`, in HTML.
pub open spec fn note_element(note: NoteRecord, date: Seq<char>) -> ElementView {
    group(
        "div"@,
        seq![
            text_element("code"@, "↪ "@ + shown_name(note.username@) + " ("@ + date + ")"@),
            text_element("p"@, note.content@),
        ],
    )
}

/// The notes `notes`, written on the days `dates`, in HTML: folded away,
/// and not shown at all where there are none.
pub open spec fn notes_element(notes: Seq<NoteRecord>, dates: Seq<Seq<char>>) -> ElementView {
    if notes.len() == 0 {
        hidden()
    } else {
        wrap(
            "details"@,
            group("div"@, Seq::new(notes.len(), |i: int| note_element(notes[i], dates[i]))),
        )
    }
}

/// The notes `notes` in text, where `dates` holds the day of each.
pub fn make_notes_string(notes: &Vec<NoteRecord>, dates: &Vec<String>) -> (text: String)
    requires
        notes.len() == dates.len(),
    ensures
        text@ == notes_text(notes@, strings_view(dates@)),
{
    let mut lines: Vec<String> = Vec::new();
    let mut i: usize = 0;
    while i < notes.len()
        invariant
            i <= notes.len(),
            notes.len() == dates.len(),
            lines.len() == i,
            forall|j: int| 0 <= j < i ==> (#[trigger] lines@[j])@ == note_text(notes@[j], dates@[j]@),
        decreases notes.len() - i,
    {
        let note = &notes[i];
        let mut line = String::from_str("\n                    ");
        line.append(display_username(note.username.as_str()).as_str());
        line.append(" (");
        line.append(dates[i].as_str());
        line.append(")\n                    ");
        line.append(note.content.as_str());
        line.append("\n                    ");
        assert(line@ =~= note_text(*note, dates@[i as int]@));
        lines.push(line);
        i = i + 1;
    }
    proof {
        assert(strings_view(lines@) =~= Seq::new(
            notes@.len(),
            |i: int| note_text(notes@[i], strings_view(dates@)[i]),
        ));
    }
    join(&lines, "\n\n")
}

/// The notes `notes` in HTML, where `dates` holds the day of each.
pub fn make_notes_html(notes: &Vec<NoteRecord>, dates: &Vec<String>) -> (e: Element)
    requires
        notes.len() == dates.len(),
    ensures
        e@ == notes_element(notes@, strings_view(dates@)),
{
    if notes.len() == 0 {
        return no_display();
    }
    let mut items: Vec<Element> = Vec::new();
    let mut i: usize = 0;
    while i < notes.len()
        invariant
            i <= notes.len(),
            notes.len() == dates.len(),
            items.len() == i,
            forall|j: int|
                0 <= j < i ==> (#[trigger] items@[j])@ == note_element(notes@[j], dates@[j]@),
        decreases notes.len() - i,
    {
        let note = &notes[i];
        let mut head = concat("↪ ", display_username(note.username.as_str()).as_str());
        head.append(" (");
        head.append(dates[i].as_str());
        head.append(")");
        let parts = vec![code(head), paragraph(note.content.clone())];
        assert(element_views(parts@) =~= seq![
            text_element(
                "code"@,
                "↪ "@ + shown_name(note.username@) + " ("@ + dates@[i as int]@ + ")"@,
            ),
            text_element("p"@, note.content@),
        ]);
        items.push(div(parts));
        i = i + 1;
    }
    proof {
        assert(element_views(items@) =~= Seq::new(
            notes@.len(),
            |i: int| note_element(notes@[i], strings_view(dates@)[i]),
        ));
    }
    details(div(items))
}

/// The milliseconds of the work `recs`, added up.
pub open spec fn total_millis(recs: Seq<AggregatedTaskRecord>) -> int
    decreases recs.len(),
{
    if recs.len() == 0 {
        0
    } else {
        total_millis(recs.drop_last()) + recs.last().duration.millis
    }
}

/// The whole hours of the work `recs`.
pub open spec fn hours_done(recs: Seq<AggregatedTaskRecord>) -> int {
    total_millis(recs) / 1000 / 3600
}

/// The whole hours set aside for the project `p`: none where nothing is.
pub open spec fn hours_provisioned(p: ProjectRecord) -> int {
    match p.provision {
        None => 0,
        Some(d) => stored(d.millis) / 3_600_000,
    }
}

/// The line of `rec`: who did it, the task and how long it took.
pub open spec fn digest_line(rec: AggregatedTaskRecord) -> Seq<char> {
    shown_name(rec.username@) + "\t"@ + rec.task@ + "\t"@ + humanized(rec.duration.millis)
}

/// The table row of `rec`: who did it, the task and how long it took.
pub open spec fn digest_row(rec: AggregatedTaskRecord) -> ElementView {
    row_view(seq![shown_name(rec.username@), rec.task@, humanized(rec.duration.millis)])
}

/// The line on the hours of the project: those set aside and those done,
/// or, where the store does not say what was set aside, those done.
pub open spec fn hours_text(available: StoreResult<ProjectRecord>, done: int) -> Seq<char> {
    match available {
        Ok(p) => signed_decimal(hours_provisioned(p)) + " hours available, "@ + decimal(
            done as nat,
        ) + " hours done\n"@,
        Err(_) => decimal(done as nat) + " done"@,
    }
}

/// The same as [`hours_text`], in HTML.
pub open spec fn hours_element(available: StoreResult<ProjectRecord>, done: int) -> ElementView {
    match available {
        Ok(p) => group(
            "div"@,
            seq![
                wrap(
                    "div"@,
                    text_element(
                        "code"@,
                        "available: "@ + signed_decimal(hours_provisioned(p)) + " hours"@,
                    ),
                ),
                wrap("div"@, text_element("code"@, "done: "@ + decimal(done as nat) + " hours"@)),
            ],
        ),
        Err(_) => text_element("code"@, "done: "@ + decimal(done as nat)),
    }
}

/// Where the calendar of the project `project` is shown.
pub open spec fn calendar_url(base_url: Seq<char>, room_id: Seq<char>, project: Seq<char>) -> Seq<
    char,
> {
    base_url + "/"@ + room_id + "/calendar/"@ + project
}

/// What `!digest` says. Where the store has no project `project`, it
/// offers names that come near; where it does not hand out the work on the
/// project, nothing is said. Else: the project, its hours, its notes, the
/// work on it line by line, and where its calendar is.
pub open spec fn digest_reply(
    project: Seq<char>,
    info: StoreResult<ProjectRecord>,
    rows: StoreResult<Vec<ProjectRecord>>,
    recs: StoreResult<Vec<AggregatedTaskRecord>>,
    available: StoreResult<ProjectRecord>,
    notes: Seq<NoteRecord>,
    dates: Seq<Seq<char>>,
    base_url: Seq<char>,
    room_id: Seq<char>,
) -> ReplyView {
    match info {
        Err(_) => candidates_reply(candidates_for(project, rows), ""@),
        Ok(_) => match recs {
            Err(_) => None,
            Ok(recs) => {
                let done = hours_done(recs@);
                let url = calendar_url(base_url, room_id, project);
                Some(
                    (
                        project + "\n"@ + hours_text(available, done) + "\n"@ + notes_text(
                            notes,
                            dates,
                        ) + "\n"@ + joined(
                            recs@.map_values(|rec: AggregatedTaskRecord| digest_line(rec)),
                            "\n"@,
                        ) + "\n"@ + "calendar: "@ + url,
                        element_text(
                            group(
                                "div"@,
                                seq![
                                    text_element("h2"@, project),
                                    hours_element(available, done),
                                    notes_element(notes, dates),
                                    group(
                                        "table"@,
                                        recs@.map_values(
                                            |rec: AggregatedTaskRecord| digest_row(rec),
                                        ),
                                    ),
                                    wrap("div"@, linked("Calendar Link "@, url)),
                                ],
                            ),
                        ),
                    ),
                )
            },
        },
    }
}

/// What `!digest` says of the project `project`. `info` is what the store
/// has on the project, `rows` all its projects, `recs` the work on the
/// project, `available` the project once more, `notes` its notes and
/// `dates` the day of each; the bot is reached at `base_url` in the room
/// `room_id`.
pub fn digest(
    project: String,
    info: StoreResult<ProjectRecord>,
    rows: &StoreResult<Vec<ProjectRecord>>,
    recs: &StoreResult<Vec<AggregatedTaskRecord>>,
    available: &StoreResult<ProjectRecord>,
    notes: &Vec<NoteRecord>,
    dates: &Vec<String>,
    base_url: &str,
    room_id: &str,
) -> (r: Reply)
    requires
        notes.len() == dates.len(),
        recs matches Ok(recs) ==> forall|i: int| 0 <= i < recs@.len() ==> (#[trigger] recs@[i]).wf(),
    ensures
        reply_view(r) == digest_reply(
            project@,
            info,
            *rows,
            *recs,
            *available,
            notes@,
            strings_view(dates@),
            base_url@,
            room_id@,
        ),
{
    match select_project(info, rows, project.as_str()) {
        Err(candidates) => candidates.reply(""),
        Ok(_) => match recs {
            Err(_) => None,
            Ok(recs) => {
                let text_notes = make_notes_string(notes, dates);
                let html_notes = make_notes_html(notes, dates);
                let mut left: Vec<String> = Vec::new();
                let mut right: Vec<Element> = Vec::new();
                let mut millis: u128 = 0;
                let mut i: usize = 0;
                while i < recs.len()
                    invariant
                        i <= recs.len(),
                        left.len() == i,
                        right.len() == i,
                        forall|j: int| 0 <= j < recs@.len() ==> (#[trigger] recs@[j]).wf(),
                        forall|j: int|
                            0 <= j < i ==> (#[trigger] left@[j])@ == digest_line(recs@[j]),
                        forall|j: int|
                            0 <= j < i ==> (#[trigger] right@[j])@ == digest_row(recs@[j]),
                        millis == total_millis(recs@.take(i as int)),
                        millis <= i * u64::MAX,
                    decreases recs.len() - i,
                {
                    proof {
                        assert(recs@.take(i + 1).drop_last() =~= recs@.take(i as int));
                        assert(recs@.take(i + 1).last() == recs@[i as int]);
                    }
                    let rec = &recs[i];
                    assert(rec.wf());
                    let who = display_username(rec.username.as_str());
                    let took = human_duration(rec.duration);
                    let mut line = who.clone();
                    line.append("\t");
                    line.append(rec.task.as_str());
                    line.append("\t");
                    line.append(took.as_str());
                    assert(line@ =~= digest_line(*rec));
                    left.push(line);
                    let cells = vec![who, rec.task.clone(), took];
                    assert(strings_view(cells@) =~= seq![
                        shown_name(rec.username@),
                        rec.task@,
                        humanized(rec.duration.millis),
                    ]);
                    right.push(make_table_row(cells));
                    millis = millis + rec.duration.millis as u128;
                    i = i + 1;
                }
                proof {
                    assert(recs@.take(i as int) =~= recs@);
                    assert(strings_view(left@) =~= recs@.map_values(
                        |rec: AggregatedTaskRecord| digest_line(rec),
                    ));
                    assert(element_views(right@) =~= recs@.map_values(
                        |rec: AggregatedTaskRecord| digest_row(rec),
                    ));
                }
                let done = u128_to_string(millis / 1000 / 3600);
                let (h0, h1) = match available {
                    Ok(p) => {
                        let hours: i64 = match p.provision {
                            None => 0,
                            Some(d) => dur(&d) / (1000 * 60 * 60),
                        };
                        let provisioned = i64_to_string(hours);
                        let mut h0 = provisioned.clone();
                        h0.append(" hours available, ");
                        h0.append(done.as_str());
                        h0.append(" hours done\n");
                        let mut have = concat("available: ", provisioned.as_str());
                        have.append(" hours");
                        let mut did = concat("done: ", done.as_str());
                        did.append(" hours");
                        let both = vec![div(code(have)), div(code(did))];
                        assert(element_views(both@) =~= seq![
                            wrap(
                                "div"@,
                                text_element(
                                    "code"@,
                                    "available: "@ + signed_decimal(hours_provisioned(*p))
                                        + " hours"@,
                                ),
                            ),
                            wrap(
                                "div"@,
                                text_element(
                                    "code"@,
                                    "done: "@ + decimal(hours_done(recs@) as nat) + " hours"@,
                                ),
                            ),
                        ]);
                        (h0, div(both))
                    },
                    Err(_) => (
                        concat(done.as_str(), " done"),
                        code(concat("done: ", done.as_str())),
                    ),
                };
                let mut cal_url = concat(base_url, "/");
                cal_url.append(room_id);
                cal_url.append("/calendar/");
                cal_url.append(project.as_str());
                let cal_html = div(link("Calendar Link ", cal_url.as_str()));
                let mut text = project.clone();
                text.append("\n");
                text.append(h0.as_str());
                text.append("\n");
                text.append(text_notes.as_str());
                text.append("\n");
                text.append(join(&left, "\n").as_str());
                text.append("\n");
                text.append("calendar: ");
                text.append(cal_url.as_str());
                let parts = vec![h2(&project), h1, html_notes, table(right), cal_html];
                proof {
                    let url = calendar_url(base_url@, room_id@, project@);
                    assert(cal_url@ =~= url);
                    assert(element_views(parts@) =~= seq![
                        text_element("h2"@, project@),
                        hours_element(*available, hours_done(recs@)),
                        notes_element(notes@, strings_view(dates@)),
                        group(
                            "table"@,
                            recs@.map_values(|rec: AggregatedTaskRecord| digest_row(rec)),
                        ),
                        wrap("div"@, linked("Calendar Link "@, url)),
                    ]);
                }
                Some((text, div(parts).as_string()))
            },
        },
    }
}

} // verus!
