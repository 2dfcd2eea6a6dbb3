//! The consumer loop's decision logic.
//!
//! The loop itself awaits the queue in the program's asynchronous execution
//! context, outside this library; it feeds each receive's result through
//! `consumer_step` and performs the returned action. Rendered events are
//! processed strictly one at a time, in delivery order, and the loop ends
//! cleanly when the queue's send side has closed and drained.

use vstd::prelude::*;

verus! {

/// What the consumer loop does after one receive.
#[derive(Debug)]
pub enum ConsumerAction {
    /// Process (emit) this rendered event, then receive again.
    Emit(String),
    /// The queue reported end-of-stream: stop the loop.
    Stop,
}

/// One step of the consumer loop: a received rendered event is emitted
/// unchanged; end-of-stream ends the loop rather than hanging forever.
pub fn consumer_step(item: Option<String>) -> (action: ConsumerAction)
    ensures
        (item matches Some(s) ==> action matches ConsumerAction::Emit(t) && t@ == s@),
        (item is None ==> action is Stop),
{
    match item {
        Some(s) => ConsumerAction::Emit(s),
        None => ConsumerAction::Stop,
    }
}

} // verus!
