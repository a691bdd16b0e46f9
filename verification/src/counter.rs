//! The state of the counter window: a count that the user increments or resets.

use vstd::prelude::*;

verus! {

/// What the counter's buttons send.
#[derive(Clone, Copy, Debug, PartialEq, Eq, Structural)]
pub enum Message {
    Increment,
    Reset,
}

/// The counter shown in the window.
#[derive(Clone, Copy, Debug)]
pub struct Counter {
    pub count: u32,
}

impl Counter {
    /// A counter at zero.
    pub fn new() -> (r: Self)
        ensures
            r.count == 0,
    {
        Counter { count: 0 }
    }

    /// Applies a message: an increment adds one, stopping at `u32::MAX`; a reset returns to zero.
    pub fn handle_message(&mut self, message: Message)
        ensures
            final(self).count == after(old(self).count, message),
    {
        match message {
            Message::Increment => self.count = self.count.saturating_add(1),
            Message::Reset => self.count = 0,
        }
    }
}


/// The count after one message.
pub open spec fn after(count: u32, message: Message) -> u32 {
    match message {
        Message::Increment => if count == u32::MAX {
            count
        } else {
            (count + 1) as u32
        },
        Message::Reset => 0,
    }
}

/// The count after a run of messages, from `count`.
pub open spec fn after_all(count: u32, messages: Seq<Message>) -> u32
    decreases messages.len(),
{
    if messages.len() == 0 {
        count
    } else {
        after(after_all(count, messages.drop_last()), messages.last())
    }
}

/// From a new counter, `n` increments show `n`, up to `u32::MAX`, and a reset after any
/// messages shows zero.
pub proof fn law_counting(n: nat, messages: Seq<Message>)
    ensures
        after_all(0, Seq::new(n, |i: int| Message::Increment)) == if n <= u32::MAX {
            n as int
        } else {
            u32::MAX as int
        },
        after_all(0, messages.push(Message::Reset)) == 0,
    decreases n,
{
    assert(messages.push(Message::Reset).drop_last() =~= messages);
    if n > 0 {
        law_counting((n - 1) as nat, messages);
        assert(Seq::new(n, |i: int| Message::Increment).drop_last() =~= Seq::new((n - 1) as nat, |i: int| Message::Increment));
    }
}

} // verus!
