//! A bounded ring of bounded text records.

use vstd::prelude::*;
use vstd::utf8::*;

verus! {

/// The number of bytes that one record can hold.
pub const MESSAGE_CAPACITY: usize = 128;

/// What a record keeps of `bytes`: its first `MESSAGE_CAPACITY` bytes.
pub open spec fn clip(bytes: Seq<u8>) -> Seq<u8> {
    if bytes.len() <= MESSAGE_CAPACITY {
        bytes
    } else {
        bytes.take(MESSAGE_CAPACITY as int)
    }
}

/// Clipping what was clipped before more bytes arrived changes nothing.
pub proof fn clip_absorbs(first: Seq<u8>, more: Seq<u8>)
    ensures
        clip(clip(first) + more) == clip(first + more),
{
    assert(clip(clip(first) + more) =~= clip(first + more));
}

/// The text that a record shows for the bytes it holds: their decoding where
/// they are well-formed UTF-8, and the empty text otherwise.
pub open spec fn shown_text(bytes: Seq<u8>) -> Seq<char> {
    if valid_utf8(bytes) {
        decode_utf8(bytes)
    } else {
        Seq::empty()
    }
}

/// One text record of at most `MESSAGE_CAPACITY` bytes.
#[derive(Clone, Copy)]
pub struct Message {
    buffer: [u8; MESSAGE_CAPACITY],
    len: usize,
}

impl View for Message {
    type V = Seq<u8>;

    /// The bytes written so far.
    closed spec fn view(&self) -> Seq<u8> {
        self.buffer@.take(self.len as int)
    }
}

/// `core::str::from_utf8`: the bytes as text, exactly where they are
/// well-formed UTF-8. The text is made of the very bytes that were given.
#[verifier::external_body]
fn decode_text(bytes: &[u8]) -> (text: Option<&str>)
    ensures
        text is Some <==> valid_utf8(bytes@),
        text is Some ==> encode_utf8(text.unwrap()@) == bytes@,
{
    match core::str::from_utf8(bytes) {
        Ok(s) => Some(s),
        Err(_) => None,
    }
}

impl Message {
    #[verifier::type_invariant]
    spec fn fits(self) -> bool {
        self.len <= MESSAGE_CAPACITY
    }

    /// An empty record.
    pub fn new() -> (msg: Message)
        ensures
            msg@ == Seq::<u8>::empty(),
    {
        Message { buffer: [0; 128], len: 0 }
    }

    /// Appends the bytes of `s`, dropping what does not fit.
    pub fn write_str(&mut self, s: &str)
        ensures
            final(self)@ == clip(old(self)@ + encode_utf8(s@)),
    {
        proof {
            use_type_invariant(&*self);
        }
        let bytes = s.as_bytes();
        let mut buffer = self.buffer;
        let mut len: usize = self.len;
        let mut i: usize = 0;
        assert(buffer@.take(len as int) =~= old(self)@ + bytes@.take(0));
        while i < bytes.len() && len < MESSAGE_CAPACITY
            invariant
                len <= MESSAGE_CAPACITY,
                i <= bytes.len(),
                len == old(self).len + i,
                buffer@.take(len as int) =~= old(self)@ + bytes@.take(i as int),
            decreases bytes.len() - i,
        {
            let ghost before = buffer@;
            buffer[len] = bytes[i];
            assert(buffer@ == before.update(len as int, bytes@[i as int]));
            assert(buffer@.take(len + 1) =~= before.take(len as int).push(bytes@[i as int]));
            assert(bytes@.take(i + 1) =~= bytes@.take(i as int).push(bytes@[i as int]));
            len += 1;
            i += 1;
        }
        *self = Message { buffer, len };
        assert(self@ =~= clip(old(self)@ + encode_utf8(s@))) by {
            if i == bytes.len() {
                assert(bytes@.take(i as int) =~= bytes@);
            } else {
                assert((old(self)@ + bytes@).take(MESSAGE_CAPACITY as int) =~= old(self)@
                    + bytes@.take(i as int));
            }
        }
    }

    /// The record as text.
    pub fn get_str(&self) -> (text: &str)
        ensures
            text@ == shown_text(self@),
    {
        proof {
            use_type_invariant(self);
        }
        let bytes = &self.buffer[0..self.len];
        assert(bytes@ =~= self@);
        match decode_text(bytes) {
            Some(s) => {
                proof {
                    encode_utf8_decode_utf8(s@);
                }
                s
            },
            None => {
                proof {
                    reveal_strlit("");
                }
                assert(""@ =~= Seq::<char>::empty());
                ""
            },
        }
    }
}

/// The records of a queue of capacity `cap` that held `log`, after one more
/// record arrived: the newest is always taken, and where the queue was full
/// the oldest leaves.
pub open spec fn log_push(log: Seq<Seq<u8>>, record: Seq<u8>, cap: nat) -> Seq<Seq<u8>> {
    if log.len() < cap {
        log.push(record)
    } else {
        log.drop_first().push(record)
    }
}

/// The records of a queue of capacity `cap` that held `log`, after
/// `records` arrived one by one.
pub open spec fn log_extend(log: Seq<Seq<u8>>, records: Seq<Seq<u8>>, cap: nat) -> Seq<Seq<u8>>
    decreases records.len(),
{
    if records.len() == 0 {
        log
    } else {
        log_push(log_extend(log, records.drop_last(), cap), records.last(), cap)
    }
}

/// The last `cap` of `records`, or all of them where they are fewer.
pub open spec fn newest(records: Seq<Seq<u8>>, cap: nat) -> Seq<Seq<u8>> {
    if records.len() <= cap {
        records
    } else {
        records.skip(records.len() - cap)
    }
}

/// However many records arrive, the queue holds the newest of all it was
/// given, as many as fit, in the order in which they arrived.
pub proof fn log_extend_keeps_newest(log: Seq<Seq<u8>>, records: Seq<Seq<u8>>, cap: nat)
    requires
        0 < cap,
        log.len() <= cap,
    ensures
        log_extend(log, records, cap) == newest(log + records, cap),
        log_extend(log, records, cap).len() <= cap,
    decreases records.len(),
{
    if records.len() == 0 {
        assert(log + records =~= log);
    } else {
        let earlier = records.drop_last();
        log_extend_keeps_newest(log, earlier, cap);
        let held = log_extend(log, earlier, cap);
        let all = log + records;
        assert(all =~= (log + earlier).push(records.last()));
        if held.len() < cap {
            assert(held.push(records.last()) =~= newest(all, cap));
        } else {
            assert(held.drop_first().push(records.last()) =~= newest(all, cap));
        }
    }
}

/// The slot that lies `i` places after `tail` in a ring of `n` slots.
spec fn slot(tail: int, i: int, n: int) -> int {
    if tail + i < n {
        tail + i
    } else {
        tail + i - n
    }
}

/// A ring of `N` records. A push is always taken: on a full ring it overwrites
/// the oldest record. Records leave oldest first.
pub struct MessageQueue<const N: usize> {
    messages: [Option<Message>; N],
    head: usize,
    tail: usize,
    count: usize,
}

impl<const N: usize> View for MessageQueue<N> {
    type V = Seq<Seq<u8>>;

    /// The bytes of the records held, oldest first.
    closed spec fn view(&self) -> Seq<Seq<u8>> {
        Seq::new(
            self.count as nat,
            |i: int| self.messages@[slot(self.tail as int, i, N as int)].unwrap()@,
        )
    }
}

/// The index that follows `i` in a ring of `n` slots.
fn next_slot(i: usize, n: usize) -> (j: usize)
    requires
        i < n,
    ensures
        j == slot(i as int, 1, n as int),
        j < n,
{
    if i + 1 == n {
        0
    } else {
        i + 1
    }
}

impl<const N: usize> MessageQueue<N> {
    #[verifier::type_invariant]
    spec fn ring(self) -> bool {
        &&& self.count <= N
        &&& N == 0 ==> self.head == 0 && self.tail == 0
        &&& N > 0 ==> self.tail < N && self.head == slot(self.tail as int, self.count as int, N as int)
        &&& forall|i: int|
            0 <= i < self.count ==> (#[trigger] self.messages@[slot(
                self.tail as int,
                i,
                N as int,
            )]) is Some
    }

    /// An empty queue.
    pub fn new() -> (queue: Self)
        ensures
            queue@ == Seq::<Seq<u8>>::empty(),
    {
        let queue = MessageQueue { messages: [None; N], head: 0, tail: 0, count: 0 };
        assert(queue@ =~= Seq::<Seq<u8>>::empty());
        queue
    }

    /// Takes `msg` as the newest record; a full queue gives up its oldest.
    pub fn push(&mut self, msg: Message)
        requires
            N > 0,
        ensures
            final(self)@ == log_push(old(self)@, msg@, N as nat),
            final(self)@.len() <= N,
    {
        proof {
            use_type_invariant(&*self);
        }
        let mut messages = self.messages;
        messages[self.head] = Some(msg);
        let head = next_slot(self.head, N);
        if self.count == N {
            let tail = next_slot(self.tail, N);
            assert forall|i: int| 0 <= i < N implies (#[trigger] messages@[slot(
                tail as int,
                i,
                N as int,
            )]) is Some by {
                if i < N - 1 {
                    assert(slot(tail as int, i, N as int) == slot(
                        old(self).tail as int,
                        i + 1,
                        N as int,
                    ));
                    assert(old(self).messages@[slot(old(self).tail as int, i + 1, N as int)]
                        is Some);
                }
            }
            *self = MessageQueue { messages, head, tail, count: self.count };
            assert forall|i: int| 0 <= i < N implies self@[i] == old(
                self,
            )@.drop_first().push(msg@)[i] by {
                if i < N - 1 {
                    assert(slot(tail as int, i, N as int) == slot(
                        old(self).tail as int,
                        i + 1,
                        N as int,
                    ));
                }
            }
            assert(self@ =~= old(self)@.drop_first().push(msg@));
        } else {
            *self = MessageQueue { messages, head, tail: self.tail, count: self.count + 1 };
            assert(self@ =~= old(self)@.push(msg@));
        }
    }

    /// Removes the oldest record and returns it, if there is one.
    pub fn pop(&mut self) -> (msg: Option<Message>)
        ensures
            msg is Some <==> old(self)@.len() > 0,
            msg is Some ==> msg.unwrap()@ == old(self)@[0] && final(self)@ == old(
                self,
            )@.drop_first(),
            msg is None ==> final(self)@ == old(self)@,
            final(self)@.len() <= N,
    {
        proof {
            use_type_invariant(&*self);
        }
        if self.count == 0 {
            return None;
        }
        let mut messages = self.messages;
        let msg = messages[self.tail];
        messages[self.tail] = None;
        let tail = next_slot(self.tail, N);
        assert(old(self).messages@[slot(old(self).tail as int, 0, N as int)] is Some);
        assert forall|i: int| 0 <= i < self.count - 1 implies (#[trigger] messages@[slot(
            tail as int,
            i,
            N as int,
        )]) is Some by {
            assert(slot(tail as int, i, N as int) == slot(old(self).tail as int, i + 1, N as int));
            assert(old(self).messages@[slot(old(self).tail as int, i + 1, N as int)] is Some);
        }
        *self = MessageQueue { messages, head: self.head, tail, count: self.count - 1 };
        assert forall|i: int| 0 <= i < self.count implies self@[i] == old(self)@.drop_first()[i] by {
            assert(slot(tail as int, i, N as int) == slot(old(self).tail as int, i + 1, N as int));
        }
        assert(self@ =~= old(self)@.drop_first());
        msg
    }

    /// The oldest record, which stays in the queue.
    pub fn peek(&self) -> (msg: Option<&Message>)
        ensures
            msg is Some <==> self@.len() > 0,
            msg is Some ==> msg.unwrap()@ == self@[0],
    {
        proof {
            use_type_invariant(self);
        }
        if self.count == 0 {
            None
        } else {
            assert(self.messages@[slot(self.tail as int, 0, N as int)] is Some);
            self.messages[self.tail].as_ref()
        }
    }

    /// The number of records held.
    pub fn len(&self) -> (n: usize)
        ensures
            n == self@.len(),
            n <= N,
    {
        proof {
            use_type_invariant(self);
        }
        self.count
    }

    /// Whether the queue holds no record.
    pub fn is_empty(&self) -> (empty: bool)
        ensures
            empty <==> self@.len() == 0,
    {
        self.count == 0
    }

    /// Whether the next push will overwrite the oldest record.
    pub fn is_full(&self) -> (full: bool)
        ensures
            full <==> self@.len() == N,
    {
        self.count == N
    }

    /// Drops every record.
    pub fn clear(&mut self)
        ensures
            final(self)@ == Seq::<Seq<u8>>::empty(),
    {
        *self = MessageQueue { messages: [None; N], head: 0, tail: 0, count: 0 };
        assert(self@ =~= Seq::<Seq<u8>>::empty());
    }
}

} // verus!
