//! The buffer in which the message of a panic is put together before it
//! goes to the log of the frontend.

use vstd::prelude::*;

verus! {

/// The number of bytes that the message of a panic can take.
pub const PANIC_BUFFER_BYTES: usize = 1024;

/// The message does not fit.
#[derive(Clone, Copy, Debug, PartialEq, Eq)]
pub enum WriteError {
    /// The buffer has not as much room left as the bytes take.
    BufferFull,
}

/// A buffer of fixed size that is written from its beginning.
pub struct PanicWriter {
    buffer: [u8; 1024],
    offset: usize,
}

impl View for PanicWriter {
    type V = Seq<u8>;

    /// The bytes written so far.
    closed spec fn view(&self) -> Seq<u8> {
        self.buffer@.take(self.offset as int)
    }
}

impl PanicWriter {
    #[verifier::type_invariant]
    closed spec fn well_formed(&self) -> bool {
        self.offset <= PANIC_BUFFER_BYTES
    }

    /// A buffer into which nothing is written yet.
    pub fn new() -> (writer: PanicWriter)
        ensures
            writer@ == Seq::<u8>::empty(),
    {
        let writer = PanicWriter { buffer: [0u8;1024], offset: 0 };
        assert(writer@ =~= Seq::<u8>::empty());
        writer
    }

    /// Writes the bytes behind those written so far, where all of them fit;
    /// writes nothing where they do not.
    pub fn write(&mut self, bytes: &[u8]) -> (result: Result<(), WriteError>)
        ensures
            old(self)@.len() <= PANIC_BUFFER_BYTES,
            match result {
                Ok(_) => old(self)@.len() + bytes@.len() <= PANIC_BUFFER_BYTES && final(self)@
                    == old(self)@ + bytes@,
                Err(error) => error == WriteError::BufferFull && old(self)@.len() + bytes@.len()
                    > PANIC_BUFFER_BYTES && final(self)@ == old(self)@,
            },
    {
        proof {
            use_type_invariant(&*self);
        }
        let room = PANIC_BUFFER_BYTES - self.offset;
        if bytes.len() > room {
            return Err(WriteError::BufferFull);
        }
        let mut buffer = self.buffer;
        let offset = self.offset;
        let mut i: usize = 0;
        while i < bytes.len()
            invariant
                i <= bytes@.len(),
                offset + bytes@.len() <= PANIC_BUFFER_BYTES,
                forall|j: int| 0 <= j < offset ==> buffer[j] == old(self).buffer[j],
                forall|j: int| 0 <= j < i ==> buffer[offset + j] == bytes[j],
            decreases bytes@.len() - i,
        {
            buffer[offset + i] = bytes[i];
            i += 1;
        }
        *self = PanicWriter { buffer, offset: offset + bytes.len() };
        assert(self@ =~= old(self)@ + bytes@);
        Ok(())
    }

    /// The bytes written so far.
    pub fn written(&self) -> (bytes: Vec<u8>)
        ensures
            bytes@ == self@,
    {
        proof {
            use_type_invariant(self);
        }
        let mut bytes: Vec<u8> = Vec::new();
        let mut i: usize = 0;
        while i < self.offset
            invariant
                i <= self.offset <= PANIC_BUFFER_BYTES,
                bytes@ == self.buffer@.take(i as int),
            decreases self.offset - i,
        {
            bytes.push(self.buffer[i]);
            assert(self.buffer@.take(i + 1) =~= self.buffer@.take(i as int).push(
                self.buffer[i as int],
            ));
            i += 1;
        }
        bytes
    }
}

} // verus!
