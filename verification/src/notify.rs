//! The expiry-notification rule: whether a service's remaining days warrant
//! a notification, and the exact message shown for it. Reading the services
//! and the calendar, and showing the notification, belong to the caller.

use vstd::prelude::*;
use crate::text::{dec_rep, decimal_string};

verus! {

/// A service is flagged when it has expired or expires within its
/// notify-days window.
pub open spec fn should_notify(days: int, notify_days: int) -> bool {
    days < 0 || days <= notify_days
}

/// The notification title: expired, expiring today, or expiring in `days`
/// days.
pub open spec fn notice_title(service_name: Seq<char>, days: int) -> Seq<char> {
    if days < 0 {
        "Истёк: "@ + service_name
    } else if days == 0 {
        "Истекает сегодня: "@ + service_name
    } else {
        "Истекает через "@ + dec_rep(days as nat) + " дн: "@ + service_name
    }
}

/// The notification body: the project and the expiry date.
pub open spec fn notice_body(project_name: Seq<char>, expires_at: Seq<char>) -> Seq<char> {
    project_name + " · "@ + expires_at
}

/// One notification, ready to be shown.
#[derive(Debug, Clone, PartialEq)]
pub struct ExpiryNotice {
    pub title: String,
    pub body: String,
}

/// Decide whether a service warrants a notification, and build it. `days` is
/// how many days remain until the service's expiry date, negative once it
/// has passed.
pub fn expiry_notice(
    service_name: &str,
    project_name: &str,
    expires_at: &str,
    days: i64,
    notify_days: i32,
) -> (r: Option<ExpiryNotice>)
    ensures
        r is Some <==> should_notify(days as int, notify_days as int),
        r matches Some(n) ==> n.title@ == notice_title(service_name@, days as int) && n.body@
            == notice_body(project_name@, expires_at@),
{
    if !(days < 0 || days <= notify_days as i64) {
        return None;
    }
    let mut title: String;
    if days < 0 {
        title = "Истёк: ".to_owned();
    } else if days == 0 {
        title = "Истекает сегодня: ".to_owned();
    } else {
        title = "Истекает через ".to_owned();
        let rendered = decimal_string(days as u64);
        title.append(rendered.as_str());
        title.append(" дн: ");
    }
    title.append(service_name);
    let mut body = project_name.to_owned();
    body.append(" · ");
    body.append(expires_at);
    Some(ExpiryNotice { title, body })
}

} // verus!
