//! Whether a loop that passes messages on keeps going.
use vstd::prelude::*;

verus! {

/// What a loop does next.
#[derive(Clone, Copy, Debug, PartialEq, Eq, Structural)]
pub enum Flow {
    Continue,
    Stop,
}

/// A loop that passes messages on goes on as long as they can be sent.
pub fn after_send(sent: bool) -> (flow: Flow)
    ensures
        flow == (if sent {
            Flow::Continue
        } else {
            Flow::Stop
        }),
{
    if sent {
        Flow::Continue
    } else {
        Flow::Stop
    }
}

/// A loop that passes messages on ends exactly with the first that cannot be sent.
pub proof fn law_loop_ends_with_a_failure(sent: bool, flow: Flow)
    requires
        call_ensures(after_send, (sent,), flow),
    ensures
        flow == Flow::Stop <==> !sent,
{
}

} // verus!
