//! What is said to a command that could not be read.
use super::common::{Reply, ReplyView, reply_view};
use crate::html::{div, element_of, element_text, ChildrenView, NodeView};
use crate::parser_ext::ParseCommandError;
use crate::text::concat;
use vstd::prelude::*;

verus! {

/// What is said to a command that could not be read because of `err`.
pub open spec fn parse_error_text(err: ParseCommandError) -> Seq<char> {
    "Oops! "@ + err.message()
}

/// What is said in text to a command that could not be read.
fn make_text(err: &ParseCommandError) -> (text: String)
    ensures
        text@ == parse_error_text(*err),
{
    let what = err.to_string();
    concat("Oops! ", what.as_str())
}

/// What is said in HTML to a command that could not be read.
fn make_html(err: &ParseCommandError) -> (html: String)
    ensures
        html@ == element_text(
            element_of("div"@, ChildrenView::One(NodeView::Text(parse_error_text(*err)))),
        ),
{
    div(make_text(err)).as_string()
}

/// What is said to a command that could not be read because of `err`.
pub fn parse_error(err: &ParseCommandError) -> (r: Reply)
    ensures
        reply_view(r) == Some(
            (
                parse_error_text(*err),
                element_text(
                    element_of("div"@, ChildrenView::One(NodeView::Text(parse_error_text(*err)))),
                ),
            ),
        ),
{
    Some((make_text(err), make_html(err)))
}

} // verus!
