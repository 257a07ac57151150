//! `!help`: what the bot can do.
use super::common::{reply_view, Reply, ReplyView};
use crate::html::{
    div, element_text, element_views, em, group, h4, link, linked, paragraph, span, text_element,
    ElementView,
};
use vstd::prelude::*;

verus! {

/// How a date is to be written.
pub const DATE_HELP: &'static str =
    "\n    Date must be formated as YYYY-MM-DD, DD-MM-YYY or DD-MM (for a date within the current year).\n    The separatore can be either '-', '/' or '.'.\n";

/// How a date is to be written.
pub open spec fn date_help() -> Seq<char> {
    DATE_HELP@
}

/// The help in text, for the bot that is reached at `base_url` in the room
/// `room_id`.
pub open spec fn help_text(base_url: Seq<char>, room_id: Seq<char>) -> Seq<char> {
    "\n"@
        + "        !ping\n"@
        + "            check if the bot's still alive\n"@
        + "        !new <project-name>\n"@
        + "            register a new project\n"@
        + "        !deadline <project-name> <date>\n"@
        + "            set a deadline for an existing project\n"@
        + "            "@
        + date_help()
        + "\n"@
        + "        !provision <project-name> <duration>\n"@
        + "            set provisioned time for an existing project\n"@
        + "        !complete  <project-name> <date?> \n"@
        + "            set completion date for an existing project, if\n"@
        + "            date is not provided, it will take the current time instead.\n"@
        + "            "@
        + date_help()
        + "\n"@
        + "        !note <project-name> <text>\n"@
        + "            add a note to a project, free text.\n"@
        + "        !meta <project-name>\n"@
        + "            mark this project as a meta project.\n"@
        + "        !parent <child-project-name> <parent-project-name>\n"@
        + "            attach a project to a meta project.\n"@
        + "        !do <project-name> <task-name> <duration>\n"@
        + "            start a new task that will last for <duration>\n"@
        + "        !done <project-name> <task-name> <duration>\n"@
        + "            register a task that has lasted for <duration> from now\n"@
        + "        !switch <project-name> <task-name>\n"@
        + "            stop your current task and create a new one that has the same end time as the current one\n"@
        + "        !stop\n"@
        + "            stop your current task\n"@
        + "        !more <duration>\n"@
        + "            stop your current task and create a new one with same project and task for <duration>\n"@
        + "        !ls\n"@
        + "            list current tasks\n"@
        + "        !digest <project-name>\n"@
        + "            give stat for a given project\n"@
        + "        !since <date or duration>\n"@
        + "            a summary of your tasks since date\n"@
        + "        !avail <date> <date> <duration>\n"@
        + "            Set your maximum weekly availability during this period\n"@
        + "        !intent <project-name> <duration>\n"@
        + "            Set the amount of time you intend to dedicate to a project\n"@
        + "\n"@
        + "        Timeline is visible at http://"@
        + base_url
        + "/"@
        + room_id
        + "/timeline\n"@
        + "        \n"@
        + "        Workload is visible at http://"@
        + base_url
        + "/"@
        + room_id
        + "/load\n"@
        + "        "@
}

/// The lines of the help in HTML: each command with what goes with it,
/// then what it does, and at the end where the timeline and the workload
/// are shown.
pub open spec fn help_items(base_url: Seq<char>, room_id: Seq<char>) -> Seq<ElementView> {
    seq![
        text_element("h4"@, "!ping"@),
        text_element("p"@, "check if the bot's still alive"@),
        group(
            "h4"@,
            seq![
                text_element("span"@, "!new "@),
                text_element("em"@, "project-name"@),
            ],
        ),
        text_element("p"@, "register a new project"@),
        group(
            "h4"@,
            seq![
                text_element("span"@, "!deadline  "@),
                text_element("em"@, "project-name "@),
                text_element("em"@, "date"@),
            ],
        ),
        text_element("p"@, "set a deadline for an existing project"@),
        text_element("p"@, date_help()),
        group(
            "h4"@,
            seq![
                text_element("span"@, "!provision  "@),
                text_element("em"@, "project-name "@),
                text_element("em"@, "duration"@),
            ],
        ),
        text_element("p"@, "set provisioned time for an existing project"@),
        group(
            "h4"@,
            seq![
                text_element("span"@, "!complete   "@),
                text_element("em"@, "project-name "@),
                text_element("em"@, "date?"@),
            ],
        ),
        text_element("p"@, "set completion date for an existing project, if\n            date is not provided, it will take the current time instead."@),
        text_element("p"@, date_help()),
        group(
            "h4"@,
            seq![
                text_element("span"@, "!note   "@),
                text_element("em"@, "project-name "@),
                text_element("em"@, "text"@),
            ],
        ),
        text_element("p"@, "add a note to a project, free text."@),
        group(
            "h4"@,
            seq![
                text_element("span"@, "!meta   "@),
                text_element("em"@, "project-name "@),
            ],
        ),
        text_element("p"@, "mark this project as a meta project."@),
        group(
            "h4"@,
            seq![
                text_element("span"@, "!parent   "@),
                text_element("em"@, "child-project-name "@),
                text_element("em"@, "parent-project-name "@),
            ],
        ),
        text_element("p"@, "attach a project to a meta project."@),
        group(
            "h4"@,
            seq![
                text_element("span"@, "!do  "@),
                text_element("em"@, "project-name "@),
                text_element("em"@, "task "@),
                text_element("em"@, "duration "@),
            ],
        ),
        text_element("p"@, "start a new task that will last for <em>duration</em>."@),
        group(
            "h4"@,
            seq![
                text_element("span"@, "!done  "@),
                text_element("em"@, "project-name "@),
                text_element("em"@, "task "@),
                text_element("em"@, "duration "@),
            ],
        ),
        text_element("p"@, "register a task that has lasted for <em>duration</em> from now."@),
        group(
            "h4"@,
            seq![
                text_element("span"@, "!switch  "@),
                text_element("em"@, "project-name "@),
                text_element("em"@, "task "@),
            ],
        ),
        text_element("p"@, "stop your current task and create a new one that has the same end time as the current one."@),
        group(
            "h4"@,
            seq![
                text_element("span"@, "!stop  "@),
            ],
        ),
        text_element("p"@, "stop your current task."@),
        group(
            "h4"@,
            seq![
                text_element("span"@, "!more  "@),
                text_element("em"@, "duration "@),
            ],
        ),
        text_element("p"@, "stop your current task and create a new one with same project and task for <em>duration</em>."@),
        group(
            "h4"@,
            seq![
                text_element("span"@, "!ls  "@),
            ],
        ),
        text_element("p"@, "list current tasks."@),
        group(
            "h4"@,
            seq![
                text_element("span"@, "!digest  "@),
                text_element("em"@, "project-name "@),
            ],
        ),
        text_element("p"@, "give stats for a given project."@),
        group(
            "h4"@,
            seq![
                text_element("span"@, "!since  "@),
                text_element("em"@, "duration "@),
            ],
        ),
        text_element("p"@, "a summary of your tasks since date."@),
        group(
            "h4"@,
            seq![
                text_element("span"@, "!avail  "@),
                text_element("em"@, "data "@),
                text_element("em"@, "data "@),
                text_element("em"@, "duration "@),
            ],
        ),
        text_element("p"@, "Set your maximum weekly availability during this period."@),
        group(
            "h4"@,
            seq![
                text_element("span"@, "!intent  "@),
                text_element("em"@, "project-name "@),
                text_element("em"@, "duration "@),
            ],
        ),
        text_element("p"@, "Set the amount of time you intend to dedicate to a project."@),
        group(
            "div"@,
            seq![
                linked("TIMELINE"@, base_url + "/"@ + room_id + "/timeline\n        "@),
            ],
        ),
        group(
            "div"@,
            seq![
                linked("WORLOAD"@, base_url + "/"@ + room_id + "/load\n        "@),
            ],
        ),
    ]
}

/// The help in HTML.
pub open spec fn help_element(base_url: Seq<char>, room_id: Seq<char>) -> ElementView {
    group("div"@, help_items(base_url, room_id))
}

/// The help in text.
fn make_text(base_url: &str, room_id: &str) -> (text: String)
    ensures
        text@ == help_text(base_url@, room_id@),
{
    let mut text = String::from_str("\n");
    text.append("        !ping\n");
    text.append("            check if the bot's still alive\n");
    text.append("        !new <project-name>\n");
    text.append("            register a new project\n");
    text.append("        !deadline <project-name> <date>\n");
    text.append("            set a deadline for an existing project\n");
    text.append("            ");
    text.append(DATE_HELP);
    text.append("\n");
    text.append("        !provision <project-name> <duration>\n");
    text.append("            set provisioned time for an existing project\n");
    text.append("        !complete  <project-name> <date?> \n");
    text.append("            set completion date for an existing project, if\n");
    text.append("            date is not provided, it will take the current time instead.\n");
    text.append("            ");
    text.append(DATE_HELP);
    text.append("\n");
    text.append("        !note <project-name> <text>\n");
    text.append("            add a note to a project, free text.\n");
    text.append("        !meta <project-name>\n");
    text.append("            mark this project as a meta project.\n");
    text.append("        !parent <child-project-name> <parent-project-name>\n");
    text.append("            attach a project to a meta project.\n");
    text.append("        !do <project-name> <task-name> <duration>\n");
    text.append("            start a new task that will last for <duration>\n");
    text.append("        !done <project-name> <task-name> <duration>\n");
    text.append("            register a task that has lasted for <duration> from now\n");
    text.append("        !switch <project-name> <task-name>\n");
    text.append("            stop your current task and create a new one that has the same end time as the current one\n");
    text.append("        !stop\n");
    text.append("            stop your current task\n");
    text.append("        !more <duration>\n");
    text.append("            stop your current task and create a new one with same project and task for <duration>\n");
    text.append("        !ls\n");
    text.append("            list current tasks\n");
    text.append("        !digest <project-name>\n");
    text.append("            give stat for a given project\n");
    text.append("        !since <date or duration>\n");
    text.append("            a summary of your tasks since date\n");
    text.append("        !avail <date> <date> <duration>\n");
    text.append("            Set your maximum weekly availability during this period\n");
    text.append("        !intent <project-name> <duration>\n");
    text.append("            Set the amount of time you intend to dedicate to a project\n");
    text.append("\n");
    text.append("        Timeline is visible at http://");
    text.append(base_url);
    text.append("/");
    text.append(room_id);
    text.append("/timeline\n");
    text.append("        \n");
    text.append("        Workload is visible at http://");
    text.append(base_url);
    text.append("/");
    text.append(room_id);
    text.append("/load\n");
    text.append("        ");
    assert(text@ =~= help_text(base_url@, room_id@));
    text
}

/// The help in HTML.
fn make_html(base_url: &str, room_id: &str) -> (html: String)
    ensures
        html@ == element_text(help_element(base_url@, room_id@)),
{
    let e1 = h4("!ping");
    let e2 = paragraph("check if the bot's still alive");
    let e4 = span("!new ");
    let e5 = em("project-name");
    let e3_kids = vec![e4, e5];
    assert(element_views(e3_kids@) =~= seq![
        text_element("span"@, "!new "@),
        text_element("em"@, "project-name"@),
    ]);
    let e3 = h4(e3_kids);
    let e6 = paragraph("register a new project");
    let e8 = span("!deadline  ");
    let e9 = em("project-name ");
    let e10 = em("date");
    let e7_kids = vec![e8, e9, e10];
    assert(element_views(e7_kids@) =~= seq![
        text_element("span"@, "!deadline  "@),
        text_element("em"@, "project-name "@),
        text_element("em"@, "date"@),
    ]);
    let e7 = h4(e7_kids);
    let e11 = paragraph("set a deadline for an existing project");
    let e12 = paragraph(DATE_HELP);
    let e14 = span("!provision  ");
    let e15 = em("project-name ");
    let e16 = em("duration");
    let e13_kids = vec![e14, e15, e16];
    assert(element_views(e13_kids@) =~= seq![
        text_element("span"@, "!provision  "@),
        text_element("em"@, "project-name "@),
        text_element("em"@, "duration"@),
    ]);
    let e13 = h4(e13_kids);
    let e17 = paragraph("set provisioned time for an existing project");
    let e19 = span("!complete   ");
    let e20 = em("project-name ");
    let e21 = em("date?");
    let e18_kids = vec![e19, e20, e21];
    assert(element_views(e18_kids@) =~= seq![
        text_element("span"@, "!complete   "@),
        text_element("em"@, "project-name "@),
        text_element("em"@, "date?"@),
    ]);
    let e18 = h4(e18_kids);
    let e22 = paragraph("set completion date for an existing project, if\n            date is not provided, it will take the current time instead.");
    let e23 = paragraph(DATE_HELP);
    let e25 = span("!note   ");
    let e26 = em("project-name ");
    let e27 = em("text");
    let e24_kids = vec![e25, e26, e27];
    assert(element_views(e24_kids@) =~= seq![
        text_element("span"@, "!note   "@),
        text_element("em"@, "project-name "@),
        text_element("em"@, "text"@),
    ]);
    let e24 = h4(e24_kids);
    let e28 = paragraph("add a note to a project, free text.");
    let e30 = span("!meta   ");
    let e31 = em("project-name ");
    let e29_kids = vec![e30, e31];
    assert(element_views(e29_kids@) =~= seq![
        text_element("span"@, "!meta   "@),
        text_element("em"@, "project-name "@),
    ]);
    let e29 = h4(e29_kids);
    let e32 = paragraph("mark this project as a meta project.");
    let e34 = span("!parent   ");
    let e35 = em("child-project-name ");
    let e36 = em("parent-project-name ");
    let e33_kids = vec![e34, e35, e36];
    assert(element_views(e33_kids@) =~= seq![
        text_element("span"@, "!parent   "@),
        text_element("em"@, "child-project-name "@),
        text_element("em"@, "parent-project-name "@),
    ]);
    let e33 = h4(e33_kids);
    let e37 = paragraph("attach a project to a meta project.");
    let e39 = span("!do  ");
    let e40 = em("project-name ");
    let e41 = em("task ");
    let e42 = em("duration ");
    let e38_kids = vec![e39, e40, e41, e42];
    assert(element_views(e38_kids@) =~= seq![
        text_element("span"@, "!do  "@),
        text_element("em"@, "project-name "@),
        text_element("em"@, "task "@),
        text_element("em"@, "duration "@),
    ]);
    let e38 = h4(e38_kids);
    let e43 = paragraph("start a new task that will last for <em>duration</em>.");
    let e45 = span("!done  ");
    let e46 = em("project-name ");
    let e47 = em("task ");
    let e48 = em("duration ");
    let e44_kids = vec![e45, e46, e47, e48];
    assert(element_views(e44_kids@) =~= seq![
        text_element("span"@, "!done  "@),
        text_element("em"@, "project-name "@),
        text_element("em"@, "task "@),
        text_element("em"@, "duration "@),
    ]);
    let e44 = h4(e44_kids);
    let e49 = paragraph("register a task that has lasted for <em>duration</em> from now.");
    let e51 = span("!switch  ");
    let e52 = em("project-name ");
    let e53 = em("task ");
    let e50_kids = vec![e51, e52, e53];
    assert(element_views(e50_kids@) =~= seq![
        text_element("span"@, "!switch  "@),
        text_element("em"@, "project-name "@),
        text_element("em"@, "task "@),
    ]);
    let e50 = h4(e50_kids);
    let e54 = paragraph("stop your current task and create a new one that has the same end time as the current one.");
    let e56 = span("!stop  ");
    let e55_kids = vec![e56];
    assert(element_views(e55_kids@) =~= seq![
        text_element("span"@, "!stop  "@),
    ]);
    let e55 = h4(e55_kids);
    let e57 = paragraph("stop your current task.");
    let e59 = span("!more  ");
    let e60 = em("duration ");
    let e58_kids = vec![e59, e60];
    assert(element_views(e58_kids@) =~= seq![
        text_element("span"@, "!more  "@),
        text_element("em"@, "duration "@),
    ]);
    let e58 = h4(e58_kids);
    let e61 = paragraph("stop your current task and create a new one with same project and task for <em>duration</em>.");
    let e63 = span("!ls  ");
    let e62_kids = vec![e63];
    assert(element_views(e62_kids@) =~= seq![
        text_element("span"@, "!ls  "@),
    ]);
    let e62 = h4(e62_kids);
    let e64 = paragraph("list current tasks.");
    let e66 = span("!digest  ");
    let e67 = em("project-name ");
    let e65_kids = vec![e66, e67];
    assert(element_views(e65_kids@) =~= seq![
        text_element("span"@, "!digest  "@),
        text_element("em"@, "project-name "@),
    ]);
    let e65 = h4(e65_kids);
    let e68 = paragraph("give stats for a given project.");
    let e70 = span("!since  ");
    let e71 = em("duration ");
    let e69_kids = vec![e70, e71];
    assert(element_views(e69_kids@) =~= seq![
        text_element("span"@, "!since  "@),
        text_element("em"@, "duration "@),
    ]);
    let e69 = h4(e69_kids);
    let e72 = paragraph("a summary of your tasks since date.");
    let e74 = span("!avail  ");
    let e75 = em("data ");
    let e76 = em("data ");
    let e77 = em("duration ");
    let e73_kids = vec![e74, e75, e76, e77];
    assert(element_views(e73_kids@) =~= seq![
        text_element("span"@, "!avail  "@),
        text_element("em"@, "data "@),
        text_element("em"@, "data "@),
        text_element("em"@, "duration "@),
    ]);
    let e73 = h4(e73_kids);
    let e78 = paragraph("Set your maximum weekly availability during this period.");
    let e80 = span("!intent  ");
    let e81 = em("project-name ");
    let e82 = em("duration ");
    let e79_kids = vec![e80, e81, e82];
    assert(element_views(e79_kids@) =~= seq![
        text_element("span"@, "!intent  "@),
        text_element("em"@, "project-name "@),
        text_element("em"@, "duration "@),
    ]);
    let e79 = h4(e79_kids);
    let e83 = paragraph("Set the amount of time you intend to dedicate to a project.");
    let mut e85_href = String::from_str(base_url);
    e85_href.append("/");
    e85_href.append(room_id);
    e85_href.append("/timeline\n        ");
    let e85 = link("TIMELINE", e85_href.as_str());
    let e84_kids = vec![e85];
    assert(element_views(e84_kids@) =~= seq![
        linked("TIMELINE"@, base_url@ + "/"@ + room_id@ + "/timeline\n        "@),
    ]);
    let e84 = div(e84_kids);
    let mut e87_href = String::from_str(base_url);
    e87_href.append("/");
    e87_href.append(room_id);
    e87_href.append("/load\n        ");
    let e87 = link("WORLOAD", e87_href.as_str());
    let e86_kids = vec![e87];
    assert(element_views(e86_kids@) =~= seq![
        linked("WORLOAD"@, base_url@ + "/"@ + room_id@ + "/load\n        "@),
    ]);
    let e86 = div(e86_kids);
    let e0_kids = vec![
        e1,
        e2,
        e3,
        e6,
        e7,
        e11,
        e12,
        e13,
        e17,
        e18,
        e22,
        e23,
        e24,
        e28,
        e29,
        e32,
        e33,
        e37,
        e38,
        e43,
        e44,
        e49,
        e50,
        e54,
        e55,
        e57,
        e58,
        e61,
        e62,
        e64,
        e65,
        e68,
        e69,
        e72,
        e73,
        e78,
        e79,
        e83,
        e84,
        e86,
    ];
    assert(element_views(e0_kids@) =~= help_items(base_url@, room_id@));
    let e0 = div(e0_kids);
    e0.as_string()
}

/// What `!help` says, for the bot that is reached at `base_url` in the room
/// `room_id`.
pub fn help(base_url: &str, room_id: &str) -> (r: Reply)
    ensures
        reply_view(r) == Some(
            (help_text(base_url@, room_id@), element_text(help_element(base_url@, room_id@))),
        ),
{
    Some((make_text(base_url, room_id), make_html(base_url, room_id)))
}

} // verus!
