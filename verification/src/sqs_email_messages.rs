//! The messages of one receive, and the pointers among them.

use vstd::prelude::*;

use crate::queue::{EmailPointerMessage, RawMessage};

verus! {

/// The messages of one receive, in the order in which they came.
#[derive(Debug)]
pub struct SqsEmailMessages {
    messages: Vec<RawMessage>,
}

impl View for SqsEmailMessages {
    type V = Seq<RawMessage>;

    closed spec fn view(&self) -> Seq<RawMessage> {
        self.messages@
    }
}

/// How many messages at the front of `messages` hold no pointer.
pub open spec fn skipped(messages: Seq<RawMessage>) -> nat
    decreases messages.len(),
{
    if messages.len() == 0 || messages[0].extractable() {
        0
    } else {
        1 + skipped(messages.drop_first())
    }
}

/// The pointers of those of `messages` that hold one, in their order.
pub open spec fn pointers_of(messages: Seq<RawMessage>) -> Seq<EmailPointerMessage>
    decreases messages.len(),
{
    if messages.len() == 0 {
        Seq::empty()
    } else {
        match EmailPointerMessage::of_message(messages.last()) {
            Ok(pointer) => pointers_of(messages.drop_last()).push(pointer),
            Err(_) => pointers_of(messages.drop_last()),
        }
    }
}

/// Those of `messages` that hold no pointer, in their order.
pub open spec fn rejected_of(messages: Seq<RawMessage>) -> Seq<RawMessage>
    decreases messages.len(),
{
    if messages.len() == 0 {
        Seq::empty()
    } else {
        match EmailPointerMessage::of_message(messages.last()) {
            Ok(_) => rejected_of(messages.drop_last()),
            Err(_) => rejected_of(messages.drop_last()).push(messages.last()),
        }
    }
}

impl SqsEmailMessages {
    /// Holds `messages`.
    pub fn new(messages: Vec<RawMessage>) -> (r: SqsEmailMessages)
        ensures
            r@ == messages@,
    {
        SqsEmailMessages { messages }
    }

    /// Takes messages off the front up to the first that holds a pointer,
    /// and gives that pointer. Where none of the messages holds one, all
    /// are taken off and nothing is given: nothing will be given later
    /// either.
    pub fn next(&mut self) -> (r: Option<EmailPointerMessage>)
        ensures
            skipped(old(self)@) < old(self)@.len() ==> ({
                &&& r matches Some(pointer)
                &&& EmailPointerMessage::of_message(old(self)@[skipped(old(self)@) as int]) == Ok::<
                    EmailPointerMessage,
                    &'static str,
                >(pointer)
                &&& final(self)@ == old(self)@.skip(skipped(old(self)@) as int + 1)
            }),
            skipped(old(self)@) >= old(self)@.len() ==> r is None && final(self)@.len() == 0,
    {
        let ghost start = self.messages@;
        let ghost mut taken: nat = 0;
        assert(start.skip(0) =~= start);
        while self.messages.len() > 0
            invariant
                start == old(self)@,
                taken <= start.len(),
                self.messages@ == start.skip(taken as int),
                skipped(start) == taken + skipped(self.messages@),
            decreases self.messages.len(),
        {
            let ghost before = self.messages@;
            let message = self.messages.remove(0);
            proof {
                EmailPointerMessage::lemma_extraction(message);
                assert(message == start[taken as int]);
                assert(self.messages@ =~= before.drop_first());
                assert(self.messages@ =~= start.skip(taken as int + 1));
            }
            match EmailPointerMessage::from_message(message) {
                Some(pointer) => {
                    return Some(pointer);
                },
                None => {
                    proof {
                        taken = taken + 1;
                    }
                },
            }
        }
        None
    }

    /// Parts the messages in two: the pointers of those that hold one, and
    /// the messages that hold none. Both keep the order of the messages.
    pub fn partition(self) -> (r: (Vec<EmailPointerMessage>, Vec<RawMessage>))
        ensures
            r.0@ == pointers_of(self@),
            r.1@ == rejected_of(self@),
    {
        let mut pointers: Vec<EmailPointerMessage> = Vec::new();
        let mut rejected: Vec<RawMessage> = Vec::new();
        let messages = self.messages;
        let mut i: usize = 0;
        while i < messages.len()
            invariant
                i <= messages.len(),
                pointers@ == pointers_of(messages@.take(i as int)),
                rejected@ == rejected_of(messages@.take(i as int)),
            decreases messages.len() - i,
        {
            let message = messages[i].clone();
            assert(messages@.take(i + 1).drop_last() =~= messages@.take(i as int));
            match EmailPointerMessage::try_from(message) {
                Ok(pointer) => {
                    pointers.push(pointer);
                },
                Err(_) => {
                    rejected.push(messages[i].clone());
                },
            }
            i = i + 1;
        }
        assert(messages@.take(i as int) =~= messages@);
        (pointers, rejected)
    }
}

} // verus!
