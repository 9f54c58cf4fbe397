//! What the user is told of an available update.

use vstd::prelude::*;

verus! {

/// An available update.
#[derive(Debug, Clone)]
pub struct UpdateInfo {
    pub current_version: String,
    pub latest_version: String,
    pub body: String,
    pub date: String,
}

/// Describes an update: its notes default to the empty text, and its date
/// to `Unknown`.
pub fn update_info(
    current_version: &str,
    latest_version: &str,
    body: Option<String>,
    date: Option<String>,
) -> (info: UpdateInfo)
    ensures
        info.current_version@ == current_version@,
        info.latest_version@ == latest_version@,
        info.body@ == match body {
            Some(b) => b@,
            None => Seq::<char>::empty(),
        },
        info.date@ == match date {
            Some(d) => d@,
            None => "Unknown"@,
        },
{
    UpdateInfo {
        current_version: current_version.to_owned(),
        latest_version: latest_version.to_owned(),
        body: match body {
            Some(b) => b,
            None => String::new(),
        },
        date: match date {
            Some(d) => d,
            None => "Unknown".to_owned(),
        },
    }
}

} // verus!
