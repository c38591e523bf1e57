use vstd::prelude::*;
use std::collections::VecDeque;
use crate::instruction::Instruction;

verus! {

/// The ordered sequence of deferred instructions shared between all threads.
///
/// Enqueueing appends at the tail and dequeueing takes the head, so
/// instructions leave in exactly the order they entered (FIFO); no
/// reordering or priority is ever applied. The unverified runtime wraps one
/// value of this type in a mutex: appends come from any thread, while
/// dequeue-and-execute happens only on the thread that owns the native
/// context.
pub struct InstructionQueue {
    items: VecDeque<Instruction>,
}

impl View for InstructionQueue {
    type V = Seq<Instruction>;

    closed spec fn view(&self) -> Seq<Instruction> {
        self.items@
    }
}

impl InstructionQueue {
    /// An empty queue.
    pub fn new() -> (queue: Self)
        ensures
            queue@ == Seq::<Instruction>::empty(),
    {
        InstructionQueue { items: VecDeque::new() }
    }

    /// Append one instruction at the tail. This never fails and never blocks
    /// beyond the caller's time to acquire the surrounding lock.
    pub fn enqueue(&mut self, instruction: Instruction)
        ensures
            final(self)@ == old(self)@.push(instruction),
    {
        self.items.push_back(instruction);
    }

    /// Take the instruction at the head, if any; the rest keep their order.
    pub fn dequeue(&mut self) -> (head: Option<Instruction>)
        ensures
            match head {
                Some(instruction) => {
                    &&& old(self)@.len() > 0
                    &&& instruction == old(self)@[0]
                    &&& final(self)@ == old(self)@.drop_first()
                },
                None => {
                    &&& old(self)@.len() == 0
                    &&& final(self)@ == old(self)@
                },
            },
    {
        self.items.pop_front()
    }

    /// How many instructions are waiting.
    pub fn len(&self) -> (n: usize)
        ensures
            n == self@.len(),
    {
        self.items.len()
    }

    /// Whether nothing is waiting.
    pub fn is_empty(&self) -> (empty: bool)
        ensures
            empty == (self@.len() == 0),
    {
        self.items.len() == 0
    }
}

} // verus!
