//! What a session has done: the requests it made of the operating system
//! and the calls of the caller's functions, in the order in which they
//! happened.
//!
//! The history exists for the contracts only. It says in which order the
//! two ids are set, that a switch stops at the first refusal, and between
//! which switches an operation runs.

use vstd::prelude::*;
use crate::identity::Identity;

verus! {

/// One request to the operating system.
#[derive(Clone, Copy, PartialEq, Eq, Debug, Structural)]
pub enum SetId {
    /// Set the effective group id.
    Group(u32),
    /// Set the effective user id.
    User(u32),
}

/// One thing that a session did.
pub enum Event {
    /// It made this request, and the operating system granted it or not.
    Asked(SetId, bool),
    /// It called a function of the caller, to launch a program or to read
    /// or write a file, while this was the effective identity on record.
    Ran(Identity),
}

/// The requests of a switch to `target` of which the operating system
/// granted the first `granted`, which is 0, 1 or 2.
///
/// The group is asked for first, then the user. A request that is refused
/// is the last one: the user is asked for only after the group was granted.
pub open spec fn switch_events(target: Identity, granted: int) -> Seq<Event> {
    if granted <= 0 {
        seq![Event::Asked(SetId::Group(target.gid), false)]
    } else if granted == 1 {
        seq![
            Event::Asked(SetId::Group(target.gid), true),
            Event::Asked(SetId::User(target.uid), false),
        ]
    } else {
        seq![
            Event::Asked(SetId::Group(target.gid), true),
            Event::Asked(SetId::User(target.uid), true),
        ]
    }
}

/// `whole` is `front` followed by a switch to `target` that succeeded, with
/// both requests granted, or failed, with one of them refused.
pub open spec fn ends_with_switch(
    whole: Seq<Event>,
    front: Seq<Event>,
    target: Identity,
    succeeded: bool,
) -> bool {
    if succeeded {
        whole == front + switch_events(target, 2)
    } else {
        whole == front + switch_events(target, 0) || whole == front + switch_events(target, 1)
    }
}

} // verus!
