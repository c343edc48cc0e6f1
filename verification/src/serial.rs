//! The serial port, as far as programs use it to print: a sink of bytes.

use vstd::prelude::*;

verus! {

/// A sink for the bytes that a program sends over the serial port.
pub trait SerialWrite {
    /// Every byte written so far, oldest first.
    spec fn sent(&self) -> Seq<u8>;

    fn write_byte(&mut self, byte: u8)
        ensures
            final(self).sent() == old(self).sent().push(byte),
    ;
}

/// A sink that keeps what it is sent until the host takes it.
pub struct SerialBuffer {
    pub bytes: Vec<u8>,
}

impl SerialWrite for SerialBuffer {
    open spec fn sent(&self) -> Seq<u8> {
        self.bytes@
    }

    fn write_byte(&mut self, byte: u8) {
        self.bytes.push(byte);
    }
}

impl SerialBuffer {
    pub fn new() -> (buffer: SerialBuffer)
        ensures
            buffer.sent() == Seq::<u8>::empty(),
    {
        SerialBuffer { bytes: Vec::new() }
    }

    /// Hands out the bytes received since the last call and forgets them.
    pub fn take(&mut self) -> (bytes: Vec<u8>)
        ensures
            bytes@ == old(self).sent(),
            final(self).sent() == Seq::<u8>::empty(),
    {
        let mut bytes: Vec<u8> = Vec::new();
        bytes.append(&mut self.bytes);
        assert(bytes@ =~= old(self).sent());
        bytes
    }
}

} // verus!
