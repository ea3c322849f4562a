//! The bounded instruction queue between the connection (producer) and the
//! dispatcher (consumer).
//!
//! The queue is an embassy-sync channel; a producer that finds it full
//! waits for a slot rather than dropping the instruction.
use crate::instruction::{AddressablePeripheral, Instruction, PerformFunctionError};
use embassy_sync::blocking_mutex::raw::CriticalSectionRawMutex;
use embassy_sync::channel::Channel;
use vstd::prelude::*;

verus! {

/// Number of instructions the queue holds.
pub const INSTRUCTION_FIFO_SIZE: usize = 4;

/// The channel that carries instructions.
pub type InstructionChannel = Channel<CriticalSectionRawMutex, Instruction, INSTRUCTION_FIFO_SIZE>;

/// A bounded FIFO of instructions, held in an embassy-sync channel.
#[verifier::external_body]
pub struct InstructionQueue {
    channel: InstructionChannel,
}

/// The instructions a queue holds, oldest first.
pub uninterp spec fn queued(queue: InstructionQueue) -> Seq<[u8; 4]>;

impl View for InstructionQueue {
    type V = Seq<Instruction>;

    open spec fn view(&self) -> Seq<Instruction> {
        queued(*self)
    }
}

impl InstructionQueue {
    /// An empty queue.
    ///
    /// Relies on `Channel::new`: a new channel holds nothing.
    #[verifier::external_body]
    pub fn new() -> (r: Self)
        ensures
            queued(r) == Seq::<Instruction>::empty(),
    {
        InstructionQueue { channel: Channel::new() }
    }

    /// Appends `instruction` if a slot is free; a full queue is left as it
    /// is and `false` tells the producer to wait for a slot.
    ///
    /// Relies on `Channel::try_send`: the message goes to the back unless
    /// the channel already holds its capacity, and then nothing changes.
    #[verifier::external_body]
    pub fn try_push(&mut self, instruction: Instruction) -> (r: bool)
        ensures
            r == (queued(*old(self)).len() < INSTRUCTION_FIFO_SIZE),
            r ==> queued(*final(self)) == queued(*old(self)).push(instruction),
            !r ==> queued(*final(self)) == queued(*old(self)),
    {
        self.channel.try_send(instruction).is_ok()
    }

    /// Takes the oldest instruction, if any.
    ///
    /// Relies on `Channel::try_receive`: takes the front message, if any.
    #[verifier::external_body]
    pub fn try_pop(&mut self) -> (r: Option<Instruction>)
        ensures
            queued(*old(self)).len() == 0 ==> r is None && queued(*final(self)) == queued(*old(self)),
            queued(*old(self)).len() > 0 ==> r == Some(queued(*old(self))[0]) && queued(*final(self)) == queued(*old(self)).drop_first(),
    {
        self.channel.try_receive().ok()
    }

    /// The number of instructions waiting.
    ///
    /// Relies on `Channel::len`: the number of messages held.
    #[verifier::external_body]
    pub fn len(&self) -> (r: usize)
        ensures
            r == queued(*self).len(),
    {
        self.channel.len()
    }
}

/// The instructions an optional pending slot holds.
pub open spec fn pending_seq(pending: Option<Instruction>) -> Seq<Instruction> {
    match pending {
        Some(instruction) => seq![instruction],
        None => Seq::empty(),
    }
}

/// Producer step: moves the pending instruction, if any, to the back of the
/// queue when a slot is free. Nothing is dropped and the order is kept: the
/// queue followed by what is still pending holds what it held before. Returns
/// whether nothing is pending any more; `false` tells the producer to wait
/// for the consumer to free a slot and offer again.
pub fn offer(queue: &mut InstructionQueue, pending: &mut Option<Instruction>) -> (r: bool)
    ensures
        final(queue)@ + pending_seq(*final(pending)) == old(queue)@ + pending_seq(*old(pending)),
        r == (*final(pending) is None),
        r == (*old(pending) is None || old(queue)@.len() < INSTRUCTION_FIFO_SIZE),
{
    match *pending {
        None => true,
        Some(instruction) => {
            if queue.try_push(instruction) {
                *pending = None;
                proof {
                    assert(queue@ + pending_seq(*pending) =~= old(queue)@ + pending_seq(
                        *old(pending),
                    ));
                }
                true
            } else {
                false
            }
        },
    }
}

/// Takes the oldest instruction and executes it on `peripheral`. Returns
/// `None`, changing nothing, when the queue is empty.
pub fn dispatch_next<'a, T, P: AddressablePeripheral<'a, T>>(
    queue: &mut InstructionQueue,
    peripheral: &mut P,
) -> (r: Option<Result<T, PerformFunctionError>>)
    requires
        old(peripheral).wf(),
    ensures
        final(peripheral).wf(),
        old(queue)@.len() == 0 ==> {
            &&& r is None
            &&& final(queue)@ == old(queue)@
            &&& *final(peripheral) == *old(peripheral)
        },
        old(queue)@.len() > 0 ==> {
            let instruction = old(queue)@[0];
            &&& final(queue)@ == old(queue)@.drop_first()
            &&& r is Some
            &&& old(peripheral).performs(
                instruction[1],
                instruction[2],
                instruction[3],
                *final(peripheral),
                r->Some_0,
            )
        },
{
    match queue.try_pop() {
        None => None,
        Some(instruction) => {
            let function_code = instruction[1];
            let address = instruction[2];
            let value = instruction[3];
            Some(peripheral.perform_function(function_code, address, value))
        },
    }
}

} // verus!
