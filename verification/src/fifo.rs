//! The receive FIFO between the pump and the readers.
use vstd::prelude::*;

use crate::error::PortError;

verus! {

/// What the receive pump shares with the readers of a port.
#[derive(Debug)]
pub struct EventsInnerRead {
    /// Bytes that were received and not read yet, oldest first.
    pub in_buffer: Vec<u8>,
    /// Why the pump stopped, once it failed.
    pub stream_error: Option<PortError>,
}

impl EventsInnerRead {
    /// Nothing received, no failure.
    pub fn new() -> (r: Self)
        ensures
            r.in_buffer@ == Seq::<u8>::empty(),
            r.stream_error is None,
    {
        EventsInnerRead { in_buffer: Vec::new(), stream_error: None }
    }

    /// Moves the first `did_read` bytes of `buffer` to the end of the FIFO and empties `buffer`.
    pub fn receive(&mut self, buffer: &mut Vec<u8>, did_read: usize)
        ensures
            final(self).in_buffer@ == old(self).in_buffer@ + received(old(buffer)@, did_read),
            final(self).stream_error == old(self).stream_error,
            final(buffer)@ == Seq::<u8>::empty(),
    {
        buffer.truncate(did_read);
        assert(buffer@ == received(old(buffer)@, did_read));
        self.in_buffer.append(buffer);
    }

    /// Records why the pump stopped.
    pub fn fail(&mut self, error: PortError)
        ensures
            final(self).in_buffer@ == old(self).in_buffer@,
            final(self).stream_error == Some(error),
    {
        self.stream_error = Some(error);
    }

    /// Moves bytes from the front of the FIFO into `buf`, as many as there are or as fit.
    pub fn take_some(&mut self, buf: &mut [u8]) -> (n: usize)
        ensures
            n == taken(old(self).in_buffer@, old(buf)@.len()),
            final(self).in_buffer@ == old(self).in_buffer@.skip(n as int),
            final(self).stream_error == old(self).stream_error,
            final(buf)@ == old(self).in_buffer@.take(n as int) + old(buf)@.skip(n as int),
    {
        let n: usize = if self.in_buffer.len() < buf.len() {
            self.in_buffer.len()
        } else {
            buf.len()
        };
        copy_prefix(buf, &self.in_buffer, n);
        let mut rest: Vec<u8> = self.in_buffer.split_off(n);
        std::mem::swap(&mut self.in_buffer, &mut rest);
        n
    }

    /// Empties the FIFO and returns what was in it.
    pub fn take_all(&mut self) -> (data: Vec<u8>)
        ensures
            data@ == old(self).in_buffer@,
            final(self).in_buffer@ == Seq::<u8>::empty(),
            final(self).stream_error == old(self).stream_error,
    {
        let mut data: Vec<u8> = Vec::new();
        std::mem::swap(&mut self.in_buffer, &mut data);
        data
    }
}

/// The part of `buffer` that a read of `did_read` bytes filled.
pub open spec fn received(buffer: Seq<u8>, did_read: usize) -> Seq<u8> {
    if did_read <= buffer.len() {
        buffer.take(did_read as int)
    } else {
        buffer
    }
}

/// How many bytes a reader with room for `room` bytes takes.
pub open spec fn taken(in_buffer: Seq<u8>, room: nat) -> nat {
    if in_buffer.len() < room {
        in_buffer.len()
    } else {
        room
    }
}

/// Copies the first `n` bytes of `source` over the first `n` bytes of `buf`.
pub fn copy_prefix(buf: &mut [u8], source: &Vec<u8>, n: usize)
    requires
        n <= old(buf)@.len(),
        n <= source@.len(),
    ensures
        final(buf)@ == source@.take(n as int) + old(buf)@.skip(n as int),
{
    let ghost before: Seq<u8> = buf@;
    let mut i: usize = 0;
    while i < n
        invariant
            i <= n,
            n <= before.len(),
            n <= source@.len(),
            buf@ == source@.take(i as int) + before.skip(i as int),
        decreases n - i,
    {
        buf[i] = source[i];
        i += 1;
        assert(buf@ =~= source@.take(i as int) + before.skip(i as int));
    }
    assert(buf@ =~= source@.take(n as int) + before.skip(n as int));
}

/// What is received of a buffer is its front: as many bytes as were read, or the whole buffer if
/// it has no more than that.
pub proof fn law_received_is_the_front(buffer: Seq<u8>, did_read: usize)
    ensures
        received(buffer, did_read).len() <= did_read,
        received(buffer, did_read).len() <= buffer.len(),
        received(buffer, did_read).len() == did_read || received(buffer, did_read) == buffer,
        forall|i: int|
            0 <= i < received(buffer, did_read).len() ==> #[trigger] received(buffer, did_read)[i]
                == buffer[i],
{
}

/// A reader takes no more than there is and no more than fits, and leaves nothing that would fit.
pub proof fn law_taken_is_all_that_fits(in_buffer: Seq<u8>, room: nat)
    ensures
        taken(in_buffer, room) <= room,
        taken(in_buffer, room) <= in_buffer.len(),
        taken(in_buffer, room) == room || taken(in_buffer, room) == in_buffer.len(),
{
}

} // verus!
