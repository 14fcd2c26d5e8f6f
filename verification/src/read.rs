//! Reading events: from the outcome of one `read(2)` on the descriptor to the
//! events that the bytes spell.
//!
//! The caller performs the read, into a [`uffd_msg`] for one event or into an
//! [`EventBuffer`] for several, and reports how it ended.

use crate::error::Errno;
use crate::error::Error;
use crate::event::Event;
use crate::raw::uffd_msg;
use crate::raw::MSG_SIZE;
use crate::uffd::Uffd;
use vstd::prelude::*;

verus! {

/// How many whole messages a read delivered that had room for `slots` messages
/// and ended with `outcome`: the number of bytes read, or the error.  `eagain`
/// is the code that the target has for "nothing to read".
///
/// Nothing to read on a non-blocking descriptor is no error: it delivers no
/// message.  No byte at all is the end of the stream.  A count of bytes that is
/// no multiple of the message size leaves a broken message: the error carries
/// the count of bytes that were read, and the size of a message.
pub open spec fn messages_read(outcome: Result<usize, Errno>, slots: nat, eagain: i32) -> Result<
    nat,
    Error,
> {
    match outcome {
        Err(e) => if e.0 == eagain {
            Ok(0nat)
        } else {
            Err(Error::SystemError(e))
        },
        Ok(n) => if n == 0 {
            Err(Error::ReadEof)
        } else if n % MSG_SIZE != 0 {
            Err(Error::IncompleteMsg { read: n, expected: MSG_SIZE })
        } else if n / MSG_SIZE <= slots {
            Ok((n / MSG_SIZE) as nat)
        } else {
            Ok(slots)
        },
    }
}

/// The bytes of message number `i` in a buffer.
pub open spec fn message_at(bytes: Seq<u8>, i: int) -> Seq<u8> {
    bytes.subrange(MSG_SIZE * i, MSG_SIZE * i + MSG_SIZE)
}

/// The events that the first `count` messages in `bytes` spell, each decoded by
/// itself, on the descriptor of `uffd`.
pub open spec fn decoded(bytes: Seq<u8>, count: nat, uffd: Uffd) -> Seq<Result<Event, Error>> {
    Seq::new(count, |i: int| Event::decode(message_at(bytes, i), uffd))
}

/// The event, if any, that a read into the single message `bytes` delivered.
pub open spec fn single_event(bytes: Seq<u8>, outcome: Result<usize, Errno>, uffd: Uffd) -> Result<
    Option<Event>,
    Error,
> {
    match messages_read(outcome, 1, uffd.spec_target().eagain) {
        Err(e) => Err(e),
        Ok(count) => if count == 0 {
            Ok(None)
        } else {
            match Event::decode(bytes, uffd) {
                Ok(event) => Ok(Some(event)),
                Err(e) => Err(e),
            }
        },
    }
}

/// A buffer where the messages of one read are stored.
///
/// It is made for a number of messages and reused from read to read.  What it
/// holds means something only between a read and the next one.
#[derive(Debug)]
pub struct EventBuffer {
    bytes: Vec<u8>,
}

impl View for EventBuffer {
    type V = Seq<u8>;

    closed spec fn view(&self) -> Seq<u8> {
        self.bytes@
    }
}

impl EventBuffer {
    /// Creates a new buffer for `size` number of events, filled with zeros.
    pub fn new(size: usize) -> (buf: EventBuffer)
        requires
            size * MSG_SIZE <= usize::MAX,
        ensures
            buf@.len() == size * MSG_SIZE,
            forall|i: int| 0 <= i < buf@.len() ==> buf@[i] == 0,
    {
        let len: usize = size * MSG_SIZE;
        let mut bytes: Vec<u8> = Vec::new();
        while bytes.len() < len
            invariant
                bytes@.len() <= len,
                forall|i: int| 0 <= i < bytes@.len() ==> bytes@[i] == 0,
            decreases len - bytes@.len(),
        {
            bytes.push(0);
        }
        EventBuffer { bytes }
    }

    /// The number of whole messages that the buffer has room for.
    pub fn capacity(&self) -> (slots: usize)
        ensures
            slots == self@.len() / (MSG_SIZE as nat),
    {
        self.bytes.len() / MSG_SIZE
    }

    /// The bytes of the buffer.
    pub fn as_bytes(&self) -> (bytes: &[u8])
        ensures
            bytes@ == self@,
    {
        self.bytes.as_slice()
    }

    /// The bytes of the buffer, for a read to fill.
    pub fn as_mut_bytes(&mut self) -> (bytes: &mut [u8])
        ensures
            bytes@ == old(self)@,
            final(self)@ == final(bytes)@,
    {
        self.bytes.as_mut_slice()
    }
}

/// The events of one read, in the order in which the kernel wrote them.
///
/// Each call of [`Events::next`] decodes one message and hands its event out;
/// messages that are not asked for are not looked at.  The view is the sequence
/// of what is still to come.
pub struct Events<'a> {
    uffd: &'a Uffd,
    bytes: &'a [u8],
    count: usize,
    next: usize,
}

impl<'a> View for Events<'a> {
    type V = Seq<Result<Event, Error>>;

    closed spec fn view(&self) -> Seq<Result<Event, Error>> {
        decoded(self.bytes@, self.count as nat, *self.uffd).skip(self.next as int)
    }
}

impl<'a> Events<'a> {
    #[verifier::type_invariant]
    spec fn in_bounds(self) -> bool {
        self.next <= self.count && self.count * MSG_SIZE <= self.bytes@.len()
    }

    /// The number of events still to come.
    pub fn len(&self) -> (n: usize)
        ensures
            n == self@.len(),
    {
        proof {
            use_type_invariant(self);
        }
        self.count - self.next
    }

    /// Decodes the next message and returns its event; `None` when the
    /// messages of the read are used up.
    pub fn next(&mut self) -> (r: Option<Result<Event, Error>>)
        ensures
            old(self)@.len() == 0 ==> r is None && final(self)@ == old(self)@,
            old(self)@.len() > 0 ==> r == Some(old(self)@[0]) && final(self)@ == old(
                self,
            )@.drop_first(),
    {
        proof {
            use_type_invariant(&*self);
        }
        let total: usize = self.bytes.len();
        if self.next >= self.count {
            return None;
        }
        assert(self.next * MSG_SIZE + MSG_SIZE <= self.count * MSG_SIZE) by (nonlinear_arith)
            requires
                self.next < self.count,
        ;
        let at: usize = self.next * MSG_SIZE;
        let mut bytes = [0u8;32];
        let mut i: usize = 0;
        while i < MSG_SIZE
            invariant
                i <= MSG_SIZE,
                at + MSG_SIZE <= total,
                total == self.bytes@.len(),
                forall|j: int| 0 <= j < i ==> bytes@[j] == self.bytes@[at + j],
            decreases MSG_SIZE - i,
        {
            bytes[i] = self.bytes[at + i];
            i += 1;
        }
        let msg = uffd_msg { bytes };
        assert(msg.bytes@ =~= message_at(self.bytes@, self.next as int));
        let event = Event::from_uffd_msg(&msg, self.uffd);
        proof {
            let all = decoded(self.bytes@, self.count as nat, *self.uffd);
            assert(all.skip(self.next as int)[0] == all[self.next as int]);
            assert(all.skip(self.next as int + 1) =~= all.skip(self.next as int).drop_first());
        }
        self.next = self.next + 1;
        Some(event)
    }
}

impl Uffd {
    /// The events of a read into `msgs` that ended with `outcome`.
    fn read<'a>(&'a self, msgs: &'a [u8], outcome: Result<usize, Errno>) -> (r: Result<
        Events<'a>,
        Error,
    >)
        ensures
            match messages_read(
                outcome,
                msgs@.len() / (MSG_SIZE as nat),
                self.spec_target().eagain,
            ) {
                Err(e) => r is Err && r->Err_0 == e,
                Ok(count) => r is Ok && r->Ok_0@ == decoded(msgs@, count, *self),
            },
    {
        let slots: usize = msgs.len() / MSG_SIZE;
        let count: usize = match outcome {
            Err(e) => {
                if e.0 == self.target().eagain {
                    0
                } else {
                    return Err(Error::SystemError(e));
                }
            },
            Ok(bytes_read) => {
                if bytes_read == 0 {
                    return Err(Error::ReadEof);
                }
                if bytes_read % MSG_SIZE != 0 {
                    return Err(Error::IncompleteMsg { read: bytes_read, expected: MSG_SIZE });
                }
                if bytes_read / MSG_SIZE <= slots {
                    bytes_read / MSG_SIZE
                } else {
                    slots
                }
            },
        };
        let events = Events { uffd: self, bytes: msgs, count, next: 0 };
        assert(events@ =~= decoded(msgs@, count as nat, *self));
        Ok(events)
    }

    /// The event that a read into `msg` delivered, if it delivered one.
    ///
    /// `outcome` is what the read of the descriptor into the 32 bytes of `msg`
    /// returned: the number of bytes read, or the error.
    ///
    /// On a non-blocking descriptor with no event ready the read fails with
    /// the target's `EAGAIN`, and the result is `Ok(None)`.
    pub fn read_event(&self, msg: &uffd_msg, outcome: Result<usize, Errno>) -> (r: Result<
        Option<Event>,
        Error,
    >)
        ensures
            r == single_event(msg.bytes@, outcome, *self),
    {
        let mut events = match self.read(msg.bytes.as_slice(), outcome) {
            Ok(events) => events,
            Err(e) => {
                return Err(e);
            },
        };
        assert(message_at(msg.bytes@, 0) =~= msg.bytes@);
        match events.next() {
            None => Ok(None),
            Some(Ok(event)) => Ok(Some(event)),
            Some(Err(e)) => Err(e),
        }
    }

    /// The events that a read into `buf` delivered.
    ///
    /// `outcome` is what the read of the descriptor into the bytes of `buf`
    /// returned: the number of bytes read, or the error.
    ///
    /// On a non-blocking descriptor with no event ready the read fails with
    /// the target's `EAGAIN`, and the result holds no event.
    pub fn read_events<'a>(&'a self, buf: &'a EventBuffer, outcome: Result<usize, Errno>) -> (r:
        Result<Events<'a>, Error>)
        ensures
            match messages_read(
                outcome,
                buf@.len() / (MSG_SIZE as nat),
                self.spec_target().eagain,
            ) {
                Err(e) => r is Err && r->Err_0 == e,
                Ok(count) => r is Ok && r->Ok_0@ == decoded(buf@, count, *self),
            },
    {
        self.read(buf.as_bytes(), outcome)
    }
}

/// A read that finds nothing to read on a non-blocking descriptor delivers no
/// event and is no error, whatever the buffers hold and however often it
/// happens: the result depends on nothing but the outcome of the read.
pub proof fn lemma_nothing_pending(bytes: Seq<u8>, slots: nat, uffd: Uffd)
    ensures
        single_event(bytes, Err(Errno(uffd.spec_target().eagain)), uffd) == Ok::<
            Option<Event>,
            Error,
        >(None),
        messages_read(Err(Errno(uffd.spec_target().eagain)), slots, uffd.spec_target().eagain)
            == Ok::<nat, Error>(0),
        decoded(bytes, 0, uffd).len() == 0,
{
}

/// A read of a number of bytes that is no multiple of the message size is an
/// error that carries that number and the message size.  No event is decoded,
/// whatever the bytes are and however much room there was.
pub proof fn lemma_partial_read(bytes: Seq<u8>, n: usize, slots: nat, uffd: Uffd)
    requires
        n % MSG_SIZE != 0,
    ensures
        messages_read(Ok(n), slots, uffd.spec_target().eagain) == Err::<nat, Error>(
            Error::IncompleteMsg { read: n, expected: MSG_SIZE },
        ),
        single_event(bytes, Ok(n), uffd) == Err::<Option<Event>, Error>(
            Error::IncompleteMsg { read: n, expected: MSG_SIZE },
        ),
{
}

/// A read never delivers more events than there was room for, nor more than
/// whole messages were read.
pub proof fn lemma_messages_bounded(outcome: Result<usize, Errno>, slots: nat, eagain: i32)
    requires
        messages_read(outcome, slots, eagain) is Ok,
    ensures
        messages_read(outcome, slots, eagain)->Ok_0 <= slots,
        outcome is Ok ==> messages_read(outcome, slots, eagain)->Ok_0 * MSG_SIZE <= outcome->Ok_0,
{
}

} // verus!
