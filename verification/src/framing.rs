//! Recognition of command frames in the bytes that arrive while the module
//! sleeps.

use crate::e32_module::{CONF_SIZE, READ_BYTE};
use vstd::prelude::*;

verus! {

/// The three bytes that ask for the parameter record.
pub open spec fn read_frame() -> Seq<u8> {
    seq![READ_BYTE, READ_BYTE, READ_BYTE]
}

/// The collected bytes are a whole frame: the read frame, or as many bytes
/// as a write frame has.
pub open spec fn frame_complete(collected: Seq<u8>) -> bool {
    collected =~= read_frame() || collected.len() >= CONF_SIZE
}

/// The bytes still collected after `byte` arrived: none once it completes a
/// frame.
pub open spec fn scratch_after(collected: Seq<u8>, byte: u8) -> Seq<u8> {
    if frame_complete(collected.push(byte)) {
        Seq::<u8>::empty()
    } else {
        collected.push(byte)
    }
}

/// The frame that `byte` completes, if it completes one.
pub open spec fn frame_of(collected: Seq<u8>, byte: u8) -> Option<Seq<u8>> {
    if frame_complete(collected.push(byte)) {
        Some(collected.push(byte))
    } else {
        None
    }
}

/// The bytes of a frame handed out, if one was.
pub open spec fn frame_view(frame: Option<Vec<u8>>) -> Option<Seq<u8>> {
    match frame {
        Some(bytes) => Some(bytes@),
        None => None,
    }
}

/// A scratch buffer of six bytes that collects a command frame byte by byte.
pub struct CommandScratch {
    bytes: [u8; CONF_SIZE],
    len: usize,
}

impl CommandScratch {
    #[verifier::type_invariant]
    spec fn has_room(self) -> bool {
        self.len < CONF_SIZE
    }

    /// The bytes collected so far.
    pub closed spec fn view(&self) -> Seq<u8> {
        self.bytes@.take(self.len as int)
    }

    /// An empty scratch buffer.
    pub fn new() -> (scratch: CommandScratch)
        ensures
            scratch@ == Seq::<u8>::empty(),
    {
        let scratch = CommandScratch { bytes: [0u8; CONF_SIZE], len: 0 };
        assert(scratch@ =~= Seq::<u8>::empty());
        scratch
    }

    /// The number of bytes collected so far: always short of a write frame.
    pub fn len(&self) -> (n: usize)
        ensures
            n == self@.len(),
            n < CONF_SIZE,
    {
        proof {
            use_type_invariant(self);
        }
        self.len
    }

    /// Forgets what was collected.
    pub fn clear(&mut self)
        ensures
            final(self)@ == Seq::<u8>::empty(),
    {
        self.len = 0;
        assert(self@ =~= Seq::<u8>::empty());
    }

    /// Takes in one byte. When it completes a frame, the frame is handed
    /// out and the buffer starts anew.
    pub fn push(&mut self, byte: u8) -> (frame: Option<Vec<u8>>)
        ensures
            final(self)@ == scratch_after(old(self)@, byte),
            frame_view(frame) == frame_of(old(self)@, byte),
    {
        proof {
            use_type_invariant(&*self);
        }
        let at: usize = self.len;
        let n: usize = at + 1;
        self.bytes[at] = byte;
        let ghost collected = self.bytes@.take(n as int);
        assert(collected =~= old(self)@.push(byte));
        let is_read = n == 3 && self.bytes[0] == READ_BYTE && self.bytes[1] == READ_BYTE
            && self.bytes[2] == READ_BYTE;
        if is_read || n == CONF_SIZE {
            let mut out: Vec<u8> = Vec::with_capacity(n);
            for i in 0..n
                invariant
                    n <= CONF_SIZE,
                    out@ == self.bytes@.take(i as int),
            {
                out.push(self.bytes[i]);
                assert(self.bytes@.take(i as int).push(self.bytes@[i as int])
                    =~= self.bytes@.take(i as int + 1));
            }
            self.len = 0;
            assert(self@ =~= Seq::<u8>::empty());
            Some(out)
        } else {
            self.len = n;
            None
        }
    }
}

} // verus!
