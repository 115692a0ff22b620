//! What the background writer does with each message of its queue.
use vstd::prelude::*;
use crate::events::MeasurementEvent;

verus! {

/// What the writer does next.
#[derive(Debug)]
pub enum WriterStep {
    /// Append the record to the sink and wait for the next message.
    Append(MeasurementEvent),
    /// The queue is drained: flush the sink and end.
    Shutdown,
}

/// The step that answers `message`: a record is appended, the empty message ends the writer.
pub open spec fn step_of(message: Option<MeasurementEvent>) -> WriterStep {
    match message {
        Some(event) => WriterStep::Append(event),
        None => WriterStep::Shutdown,
    }
}

/// Decides what the writer does with `message`.
pub fn writer_step(message: Option<MeasurementEvent>) -> (step: WriterStep)
    ensures
        step == step_of(message),
{
    match message {
        Some(event) => WriterStep::Append(event),
        None => WriterStep::Shutdown,
    }
}

/// Position of the first message at or after `from` that ends the writer; the length of
/// the queue where there is none.
pub open spec fn shutdown_at(messages: Seq<Option<MeasurementEvent>>, from: int) -> int
    decreases messages.len() - from,
{
    if from < 0 || from >= messages.len() {
        messages.len() as int
    } else if step_of(messages[from]) is Shutdown {
        from
    } else {
        shutdown_at(messages, from + 1)
    }
}

/// The records that the writer appends to the sink when it is fed `messages` in order:
/// those before the first message that ends it.
pub open spec fn appended(messages: Seq<Option<MeasurementEvent>>) -> Seq<MeasurementEvent> {
    Seq::new(shutdown_at(messages, 0) as nat, |i: int| step_of(messages[i])->Append_0)
}

/// Where the first `n` messages carry records and the next ends the writer, the writer
/// ends there.
pub proof fn lemma_shutdown_at(messages: Seq<Option<MeasurementEvent>>, from: int, n: int)
    requires
        0 <= from <= n < messages.len(),
        forall|i: int| 0 <= i < n ==> (#[trigger] messages[i]) is Some,
        messages[n] is None,
    ensures
        shutdown_at(messages, from) == n,
    decreases n - from,
{
    if from < n {
        lemma_shutdown_at(messages, from + 1, n);
    }
}

/// Sending any number of records and then the message that ends the writer leaves in
/// the sink exactly those records, in the order in which they were sent.
pub proof fn lemma_writer_keeps_order(events: Seq<MeasurementEvent>)
    ensures
        appended(events.map_values(|event: MeasurementEvent| Some(event)).push(None)) == events,
{
    let messages = events.map_values(|event: MeasurementEvent| Some(event)).push(None);
    lemma_shutdown_at(messages, 0, events.len() as int);
    assert(appended(messages) =~= events);
}

} // verus!
