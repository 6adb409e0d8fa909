//! Records exchanged with the counting sensors and the database.

pub mod count;
pub mod database;
pub mod heartbeat;
pub mod request;

use crate::text::{prefix_before, same_text, text_before};
use vstd::prelude::*;

verus! {

/// Why a sensor event could not be turned into a record.
#[derive(Debug, Clone, Copy, PartialEq)]
pub enum ModelError {
    /// The event time is not an RFC 3339 timestamp; chrono's reason is kept.
    InvalidEventTime(chrono::ParseError),
    /// The rule name is neither `Enter` nor `Exit`.
    InvalidRuleName,
}

/// The location of a sensor channel: the part of its name before the first `;`.
pub open spec fn location_of(channel_name: Seq<char>) -> Seq<char> {
    prefix_before(channel_name, ';')
}

/// The direction a rule name stands for: `Enter` is inwards, `Exit` outwards.
pub open spec fn rule_direction(rule_name: Seq<char>) -> Option<bool> {
    if rule_name == "Enter"@ {
        Some(true)
    } else if rule_name == "Exit"@ {
        Some(false)
    } else {
        None
    }
}

/// The location part of a channel name such as `site;back;door`; every name has one.
pub fn get_location(channel_name: String) -> (r: Result<String, ModelError>)
    ensures
        r matches Ok(location) && location@ == location_of(channel_name@),
{
    Ok(text_before(channel_name.as_str(), ';'))
}

/// Whether a crossing rule counts a person entering (`Enter`) or leaving (`Exit`).
pub fn get_direction(rule_name: &str) -> (r: Result<bool, ModelError>)
    ensures
        match rule_direction(rule_name@) {
            Some(enter) => r == Ok::<bool, ModelError>(enter),
            None => r == Err::<bool, ModelError>(ModelError::InvalidRuleName),
        },
{
    if same_text(rule_name, "Enter") {
        return Ok(true);
    }
    if same_text(rule_name, "Exit") {
        return Ok(false);
    }
    Err(ModelError::InvalidRuleName)
}

/// A location never holds the separator and always starts its channel name;
/// a name without a separator is its own location.
pub proof fn location_is_leading_segment(channel_name: Seq<char>)
    ensures
        !location_of(channel_name).contains(';'),
        location_of(channel_name).is_prefix_of(channel_name),
        !channel_name.contains(';') ==> location_of(channel_name) == channel_name,
{
    crate::text::lemma_prefix_before_shape(channel_name, ';');
}

} // verus!
