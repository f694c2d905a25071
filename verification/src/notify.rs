//! Toast notification payload rendering.
//!
//! Showing a toast goes through the platform's notification service in
//! the unverified shell; the exact XML payload handed to it, and the
//! message logged when showing fails, are verified here.

use vstd::prelude::*;
use vstd::string::*;

use crate::console::spec_toast_title;
use crate::console::toast_title;

verus! {

/// The toast payload: a generic two-line toast with the tool's title and
/// the status message.
pub open spec fn spec_toast_xml(title: Seq<char>, message: Seq<char>) -> Seq<char> {
    "<toast><visual><binding template=\"ToastGeneric\"><text>"@ + title + "</text><text>"@
        + message + "</text></binding></visual></toast>"@
}

/// Render the toast payload for a title and a message.
pub fn toast_xml(title: &str, message: &str) -> (xml: String)
    ensures
        xml@ == spec_toast_xml(title@, message@),
{
    let mut xml = String::from_str("<toast><visual><binding template=\"ToastGeneric\"><text>");
    xml.append(title);
    xml.append("</text><text>");
    xml.append(message);
    xml.append("</text></binding></visual></toast>");
    xml
}

/// Render the toast payload for a status message, titled for this
/// process's elevation state.
pub fn notify(message: &str, elevated: bool) -> (xml: String)
    ensures
        xml@ == spec_toast_xml(spec_toast_title(elevated), message@),
{
    let title = toast_title(elevated);
    toast_xml(title.as_str(), message)
}

/// The message logged when showing a toast fails, carrying the rendered
/// error.
pub fn notify_failure_message(err: &str) -> (m: String)
    ensures
        m@ == "发送通知失败: "@ + err@,
{
    let mut m = String::from_str("发送通知失败: ");
    m.append(err);
    m
}

} // verus!
