//! `!cal`: the calendar of a project.
use super::common::{plain, reply_view, say, Reply, ReplyView};
use crate::calendar::{
    available_hours, cal_page, cal_page_text, cal_project_view, can_show_tasks, hours_available,
};
use crate::html::{anchor, element_text, linked, span, wrap, Element, ElementView};
use crate::store::{ProjectRecord, StoreResult, TaskRecord};
use crate::text::concat;
use vstd::prelude::*;

verus! {

/// The calendar of the tasks `recs` on a clock `offset` seconds ahead of UTC.
pub fn cal_project(recs: &Vec<TaskRecord>, offset: i32) -> (e: Element)
    requires
        -86_400 < offset < 86_400,
        can_show_tasks(recs@),
    ensures
        e@ == cal_project_view(recs@, None, offset),
{
    crate::calendar::cal_project(recs, None, offset)
}

/// What `!cal` makes: the page of the calendar, which is then to be
/// stored, or, where the store does not hand out the tasks, what it
/// reports, which is then the reply.
pub open spec fn cal_made(
    info: StoreResult<ProjectRecord>,
    recs: StoreResult<Vec<TaskRecord>>,
    css: Seq<char>,
    offset: i32,
) -> Result<Seq<char>, ReplyView> {
    match recs {
        Ok(recs) => Ok(cal_page_text(recs@, available_hours(info), css, None, offset)),
        Err(err) => Err(plain(err.message())),
    }
}

/// Makes the page of the calendar of a project. `info` is what the store
/// has on the project, `recs` its tasks.
pub fn cal(
    info: &StoreResult<ProjectRecord>,
    recs: &StoreResult<Vec<TaskRecord>>,
    css: &str,
    offset: i32,
) -> (made: Result<String, Reply>)
    requires
        -86_400 < offset < 86_400,
        recs matches Ok(rs) ==> can_show_tasks(rs@),
    ensures
        match made {
            Ok(page) => cal_made(*info, *recs, css@, offset) == Ok::<Seq<char>, ReplyView>(page@),
            Err(r) => cal_made(*info, *recs, css@, offset) == Err::<Seq<char>, ReplyView>(
                reply_view(r),
            ),
        },
{
    match recs {
        Ok(rs) => Ok(cal_page(rs, hours_available(info), css, None, offset)),
        Err(err) => Err(say(err.to_string())),
    }
}

/// Where the calendar that the store keeps as `uuid` can be seen.
pub open spec fn cal_url(host: Seq<char>, uuid: Seq<char>) -> Seq<char> {
    "http://"@ + host + "/cal/"@ + uuid
}

/// What `!cal` says once the store has kept the page: where it can be
/// seen, or what the store reports.
pub open spec fn cal_reply_view(host: Seq<char>, saved: StoreResult<String>) -> ReplyView {
    match saved {
        Ok(uuid) => Some(
            (
                "can be seen at "@ + cal_url(host, uuid@),
                element_text(wrap("span"@, linked("follow me"@, cal_url(host, uuid@)))),
            ),
        ),
        Err(err) => plain(err.message()),
    }
}

/// What `!cal` says once the store has answered `saved` to keeping the
/// page, for the bot that serves pages at `host`.
pub fn cal_reply(host: &str, saved: &StoreResult<String>) -> (r: Reply)
    ensures
        reply_view(r) == cal_reply_view(host@, *saved),
{
    match saved {
        Ok(uuid) => {
            let mut url = concat("http://", host);
            url.append("/cal/");
            url.append(uuid.as_str());
            let text = concat("can be seen at ", url.as_str());
            let html = span(crate::html::link("follow me", url.as_str())).as_string();
            Some((text, html))
        },
        Err(err) => say(err.to_string()),
    }
}

} // verus!
