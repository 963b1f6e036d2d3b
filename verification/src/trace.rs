use crate::traptype::TrapType;
use vstd::prelude::*;

verus! {

/// A record of what a hart did.
#[derive(Clone, Copy, PartialEq, Eq, Structural, Debug)]
pub enum TraceType {
    /// The hart decoded, at this pc, the instruction with this encoding.
    Itrace(u64, u32),
    /// The hart took this trap, with this pc and this trap value.
    Trap(TrapType, u64, u64),
}

/// The sending half of a channel of `crossbeam_channel`. What it holds
/// is not visible to the verifier.
#[verifier::external_type_specification]
#[verifier::external_body]
#[verifier::reject_recursive_types(T)]
pub struct ExSender<T>(crossbeam_channel::Sender<T>);

/// Offers one record to the channel through
/// `crossbeam_channel::Sender::try_send`, which never blocks: it hands
/// the record over if the channel can take it at once, and gives it back
/// if the channel is full or has no receiver left. Returns whether the
/// channel took the record; nothing is claimed of that, since it depends
/// on what the other side of the channel does.
#[verifier::external_body]
fn try_send_record(sender: &crossbeam_channel::Sender<TraceType>, record: TraceType) -> (taken:
    bool) {
    sender.try_send(record).is_ok()
}

/// Offers `record` to the trace sink, if there is one. A record that the
/// sink does not take is dropped.
pub fn emit(sink: &Option<crossbeam_channel::Sender<TraceType>>, record: TraceType) -> (taken:
    bool)
    ensures
        sink is None ==> !taken,
{
    match sink {
        Some(sender) => try_send_record(sender, record),
        None => false,
    }
}

} // verus!
