//! How a record's priority and status are set off in the table and in the
//! detail view. The colours themselves are the renderer's.

use vstd::prelude::*;
use crate::text::same_text;

verus! {

/// How a priority is set off.
#[derive(Debug, Clone, Copy, PartialEq, Eq, Structural)]
pub enum PriorityTone {
    High,
    Medium,
    Low,
}

/// How a status is set off.
#[derive(Debug, Clone, Copy, PartialEq, Eq, Structural)]
pub enum StatusTone {
    /// Finished.
    Good,
    /// Being worked on.
    Active,
    /// Planned.
    Planned,
    /// Waiting.
    Waiting,
    /// Any other label.
    Plain,
}

/// `s` in lower case, as `str::to_lowercase` writes it.
pub uninterp spec fn lowercased(s: Seq<char>) -> Seq<char>;

/// `str::to_lowercase`: the text with each character replaced by its lower
/// case under Unicode's rules. The result depends on the text alone.
#[verifier::external_body]
fn lowercase(s: &str) -> (res: String)
    ensures
        res@ == lowercased(s@),
{
    s.to_lowercase()
}

/// The tone of a priority that is already in lower case: "high" and "medium"
/// have their own, everything else is low.
pub open spec fn tone_of_lowercase(lower: Seq<char>) -> PriorityTone {
    if lower == "high"@ {
        PriorityTone::High
    } else if lower == "medium"@ {
        PriorityTone::Medium
    } else {
        PriorityTone::Low
    }
}

/// The tone of a status in the table.
pub open spec fn tone_of_status(status: Seq<char>) -> StatusTone {
    if status == "Done"@ || status == "Completed"@ {
        StatusTone::Good
    } else if status == "Ongoing"@ {
        StatusTone::Active
    } else if status == "Planned"@ {
        StatusTone::Planned
    } else if status == "Pending"@ {
        StatusTone::Waiting
    } else {
        StatusTone::Plain
    }
}

/// The tone of a status in the detail view, where work under way is called
/// "In Progress".
pub open spec fn tone_of_detail_status(status: Seq<char>) -> StatusTone {
    if status == "Done"@ || status == "Completed"@ {
        StatusTone::Good
    } else if status == "In Progress"@ {
        StatusTone::Active
    } else if status == "Planned"@ {
        StatusTone::Planned
    } else if status == "Pending"@ {
        StatusTone::Waiting
    } else {
        StatusTone::Plain
    }
}

/// The tone of a priority that is already in lower case.
pub fn lowercase_priority_tone(lower: &str) -> (tone: PriorityTone)
    ensures
        tone == tone_of_lowercase(lower@),
{
    if same_text(lower, "high") {
        PriorityTone::High
    } else if same_text(lower, "medium") {
        PriorityTone::Medium
    } else {
        PriorityTone::Low
    }
}

/// The tone of a priority, whatever its case.
pub fn priority_tone(priority: &str) -> (tone: PriorityTone)
    ensures
        tone == tone_of_lowercase(lowercased(priority@)),
{
    let lower = lowercase(priority);
    lowercase_priority_tone(lower.as_str())
}

/// The tone of a status in the table.
pub fn status_tone(status: &str) -> (tone: StatusTone)
    ensures
        tone == tone_of_status(status@),
{
    if same_text(status, "Done") || same_text(status, "Completed") {
        StatusTone::Good
    } else if same_text(status, "Ongoing") {
        StatusTone::Active
    } else if same_text(status, "Planned") {
        StatusTone::Planned
    } else if same_text(status, "Pending") {
        StatusTone::Waiting
    } else {
        StatusTone::Plain
    }
}

/// The tone of a status in the detail view.
pub fn detail_status_tone(status: &str) -> (tone: StatusTone)
    ensures
        tone == tone_of_detail_status(status@),
{
    if same_text(status, "Done") || same_text(status, "Completed") {
        StatusTone::Good
    } else if same_text(status, "In Progress") {
        StatusTone::Active
    } else if same_text(status, "Planned") {
        StatusTone::Planned
    } else if same_text(status, "Pending") {
        StatusTone::Waiting
    } else {
        StatusTone::Plain
    }
}

/// The three shares, in percent, that set a part of `percent` in the middle
/// of a length.
#[derive(Debug, Clone, Copy, PartialEq, Eq, Structural)]
pub struct Shares {
    pub before: u16,
    pub middle: u16,
    pub after: u16,
}

/// The shares that centre `percent` of a length: half of the rest, rounded
/// down, on either side.
pub open spec fn centered_shares(percent: u16) -> Shares {
    Shares {
        before: ((100 - percent) / 2) as u16,
        middle: percent,
        after: ((100 - percent) / 2) as u16,
    }
}

/// The shares by which to split a rectangle, first from top to bottom and
/// then its middle part from left to right, so that a part of `percent_x` of
/// the width and `percent_y` of the height lies in its centre. There are none
/// for more than a hundred percent.
pub fn centered_rect(percent_x: u16, percent_y: u16) -> (res: Option<(Shares, Shares)>)
    ensures
        res == if percent_x <= 100 && percent_y <= 100 {
            Some((centered_shares(percent_y), centered_shares(percent_x)))
        } else {
            None
        },
{
    if percent_x > 100 || percent_y > 100 {
        return None;
    }
    let side_y: u16 = (100 - percent_y) / 2;
    let side_x: u16 = (100 - percent_x) / 2;
    Some(
        (
            Shares { before: side_y, middle: percent_y, after: side_y },
            Shares { before: side_x, middle: percent_x, after: side_x },
        ),
    )
}

} // verus!
