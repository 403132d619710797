//! Which events lead to work.

use vstd::prelude::*;

use crate::domain::event::{CommandReceivedEvent, CoreEvent, MessageReceivedEvent};

verus! {

/// Where an event goes.
#[derive(Debug)]
pub enum Route<'a> {
    /// Into the reply pipeline.
    Reply(&'a MessageReceivedEvent),
    /// Nowhere; it is only recorded.
    Record,
}

/// Decides where an event goes: a message that was received goes into the reply
/// pipeline, everything else is only recorded.
pub fn process(event: &CoreEvent) -> (r: Route)
    ensures
        match event {
            CoreEvent::MessageReceived(e) => r == Route::Reply(e),
            _ => r is Record,
        },
{
    match event {
        CoreEvent::MessageReceived(e) => Route::Reply(e),
        _ => Route::Record,
    }
}

/// The command in an event, if it is one.
pub fn command_in(event: &CoreEvent) -> (r: Option<&CommandReceivedEvent>)
    ensures
        match event {
            CoreEvent::CommandReceived(e) => r == Some(e),
            _ => r is None,
        },
{
    match event {
        CoreEvent::CommandReceived(e) => Some(e),
        _ => None,
    }
}

/// Messages that were received, and no other events, go into the reply pipeline;
/// commands, and no other events, are commands.
pub proof fn events_find_their_way(event: CoreEvent, r: Route, c: Option<&CommandReceivedEvent>)
    requires
        call_ensures(process, (&event,), r),
        call_ensures(command_in, (&event,), c),
    ensures
        r is Reply <==> event is MessageReceived,
        event matches CoreEvent::MessageReceived(e) ==> r == Route::Reply(&e),
        c is Some <==> event is CommandReceived,
        event matches CoreEvent::CommandReceived(e) ==> c == Some(&e),
{
}

} // verus!
