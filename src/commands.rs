use vstd::prelude::*;
use crate::error::MoveError;
use crate::link::{captures3_of, link_of, link_pattern, parse_message_link};

verus! {

/// A range of one channel given by message links.
#[derive(Debug, Clone, Copy, PartialEq, Eq, Structural)]
pub struct LinkRange {
    pub channel: u64,
    pub from: u64,
    pub to: Option<u64>,
}

pub open spec fn parsed_link(link: Seq<char>) -> Result<(u64, u64, u64), MoveError> {
    link_of(captures3_of(link_pattern(), link))
}

/// The range that a start link, and optionally an end link, describe: both
/// must parse and lie in the same channel.
pub open spec fn link_range_of(from: Seq<char>, to: Option<Seq<char>>) -> Result<LinkRange, MoveError> {
    match parsed_link(from) {
        Err(e) => Err(e),
        Ok((_, fc, fm)) => match to {
            None => Ok(LinkRange { channel: fc, from: fm, to: None }),
            Some(t) => match parsed_link(t) {
                Err(e) => Err(e),
                Ok((_, tc, tm)) => if tc == fc {
                    Ok(LinkRange { channel: fc, from: fm, to: Some(tm) })
                } else {
                    Err(MoveError::BoundaryNotInSameChannel)
                },
            },
        },
    }
}

pub open spec fn opt_str_view(o: Option<&str>) -> Option<Seq<char>> {
    match o {
        Some(s) => Some(s@),
        None => None,
    }
}

/// Reads the boundaries of a range from message links.
pub fn link_range(from: &str, to: Option<&str>) -> (r: Result<LinkRange, MoveError>)
    ensures
        r == link_range_of(from@, opt_str_view(to)),
{
    let (_, fc, fm) = match parse_message_link(from) {
        Ok(p) => p,
        Err(e) => return Err(e),
    };
    match to {
        None => Ok(LinkRange { channel: fc, from: fm, to: None }),
        Some(t) => match parse_message_link(t) {
            Err(e) => Err(e),
            Ok((_, tc, tm)) => if tc == fc {
                Ok(LinkRange { channel: fc, from: fm, to: Some(tm) })
            } else {
                Err(MoveError::BoundaryNotInSameChannel)
            },
        },
    }
}

/// Where messages go: a channel that exists, or one to create under a name.
pub enum Destination {
    Existing(u64),
    Create(String),
}

/// Exactly one of an existing channel and a name for a new one must be given.
pub fn choose_destination(existing: Option<u64>, name: Option<String>) -> (r: Result<Destination, MoveError>)
    ensures
        match (existing, name) {
            (Some(c), None) => r matches Ok(Destination::Existing(d)) && d == c,
            (None, Some(n)) => r matches Ok(Destination::Create(m)) && m@ == n@,
            _ => r == Err::<Destination, MoveError>(MoveError::AmbiguousDestination),
        },
{
    match (existing, name) {
        (Some(c), None) => Ok(Destination::Existing(c)),
        (None, Some(n)) => Ok(Destination::Create(n)),
        _ => Err(MoveError::AmbiguousDestination),
    }
}

/// Whether the destination is hidden during a relocation: unless told otherwise, it is.
pub fn hide_requested(hide: Option<bool>) -> (r: bool)
    ensures
        r == match hide {
            Some(h) => h,
            None => true,
        },
{
    match hide {
        Some(h) => h,
        None => true,
    }
}

/// What to remove once a channel's messages were relocated.
#[derive(Debug, Clone, Copy, PartialEq, Eq, Structural)]
pub enum Cleanup {
    /// Delete the source channel itself.
    DeleteChannel,
    /// Delete the relocated messages.
    DeleteMessages,
    /// Remove nothing.
    KeepAll,
}

/// Deleting the source channel takes precedence over deleting its messages.
pub fn cleanup_after_move(remove_channel: bool, remove_messages: bool) -> (r: Cleanup)
    ensures
        remove_channel ==> r == Cleanup::DeleteChannel,
        !remove_channel && remove_messages ==> r == Cleanup::DeleteMessages,
        !remove_channel && !remove_messages ==> r == Cleanup::KeepAll,
{
    if remove_channel {
        Cleanup::DeleteChannel
    } else if remove_messages {
        Cleanup::DeleteMessages
    } else {
        Cleanup::KeepAll
    }
}

} // verus!
