//! The transfer buffer of a channel.

use vstd::prelude::*;

verus! {

/// Alignment in bytes to ask of the platform's allocator for a transfer
/// buffer. The hardware needs four; a whole cache line keeps the buffer from
/// sharing one with other data.
pub const BUFFER_ALIGN: usize = 128;

/// Mathematical model of a transfer buffer: the address at which the device
/// sees it, and its bytes.
pub struct DmaBufferModel {
    pub bus_addr: u64,
    pub bytes: Seq<u8>,
}

/// A transfer buffer: the bus address that the platform's allocator gave for
/// it, and its contents.
#[derive(Debug)]
pub struct DmaBuffer {
    bus_addr: u64,
    bytes: Vec<u8>,
}

impl View for DmaBuffer {
    type V = DmaBufferModel;

    closed spec fn view(&self) -> DmaBufferModel {
        DmaBufferModel { bus_addr: self.bus_addr, bytes: self.bytes@ }
    }
}

impl DmaBuffer {
    /// A buffer of `size` zero bytes that the device sees at `bus_addr`.
    pub fn zeros(size: usize, bus_addr: u64) -> (b: DmaBuffer)
        ensures
            b@.bus_addr == bus_addr,
            b@.bytes == Seq::new(size as nat, |i: int| 0u8),
    {
        let mut bytes: Vec<u8> = Vec::new();
        let mut i: usize = 0;
        while i < size
            invariant
                i <= size,
                bytes@ == Seq::new(i as nat, |k: int| 0u8),
            decreases size - i,
        {
            bytes.push(0);
            i += 1;
        }
        DmaBuffer { bus_addr, bytes }
    }

    /// The address at which the device sees the buffer.
    pub fn bus_addr(&self) -> (a: u64)
        ensures
            a == self@.bus_addr,
    {
        self.bus_addr
    }

    /// Number of bytes in the buffer.
    pub fn len(&self) -> (n: usize)
        ensures
            n == self@.bytes.len(),
    {
        self.bytes.len()
    }

    /// Whether the buffer holds no bytes.
    pub fn is_empty(&self) -> (e: bool)
        ensures
            e == (self@.bytes.len() == 0),
    {
        self.bytes.len() == 0
    }

    /// The byte at `index`, or nothing past the end.
    pub fn get(&self, index: usize) -> (b: Option<u8>)
        ensures
            b == if index < self@.bytes.len() {
                Some(self@.bytes[index as int])
            } else {
                None
            },
    {
        if index < self.bytes.len() {
            Some(self.bytes[index])
        } else {
            None
        }
    }

    /// Stores `value` at `index`; every other byte and the bus address stay.
    pub fn set(&mut self, index: usize, value: u8)
        requires
            index < old(self)@.bytes.len(),
        ensures
            final(self)@.bus_addr == old(self)@.bus_addr,
            final(self)@.bytes == old(self)@.bytes.update(index as int, value),
    {
        self.bytes.set(index, value);
    }

    /// Copies `src` into the buffer from `offset` on; every other byte and
    /// the bus address stay.
    pub fn write(&mut self, offset: usize, src: &[u8])
        requires
            offset + src@.len() <= old(self)@.bytes.len(),
        ensures
            final(self)@.bus_addr == old(self)@.bus_addr,
            final(self)@.bytes == spec_written(old(self)@.bytes, offset as int, src@),
    {
        let total = self.bytes.len();
        let mut i: usize = 0;
        while i < src.len()
            invariant
                i <= src@.len(),
                offset + src@.len() <= total,
                total == self.bytes@.len(),
                self.bus_addr == old(self).bus_addr,
                self.bytes@.len() == old(self).bytes@.len(),
                forall|k: int|
                    0 <= k < self.bytes@.len() ==> #[trigger] self.bytes@[k] == if offset <= k
                        < offset + i {
                        src@[k - offset]
                    } else {
                        old(self).bytes@[k]
                    },
            decreases src@.len() - i,
        {
            self.bytes.set(offset + i, src[i]);
            i += 1;
        }
    }

    /// The `len` bytes from `offset` on, in order.
    pub fn read(&self, offset: usize, len: usize) -> (out: Vec<u8>)
        requires
            offset + len <= self@.bytes.len(),
        ensures
            out@ == self@.bytes.subrange(offset as int, offset + len),
    {
        let total = self.bytes.len();
        let mut out: Vec<u8> = Vec::new();
        let mut i: usize = 0;
        while i < len
            invariant
                i <= len,
                offset + len <= total,
                total == self.bytes@.len(),
                out@ == self.bytes@.subrange(offset as int, offset + i),
            decreases len - i,
        {
            out.push(self.bytes[offset + i]);
            i += 1;
        }
        out
    }

    /// The whole contents.
    pub fn as_slice(&self) -> (s: &[u8])
        ensures
            s@ == self@.bytes,
    {
        self.bytes.as_slice()
    }
}

/// `bytes` with `src` copied over it from `offset` on.
pub open spec fn spec_written(bytes: Seq<u8>, offset: int, src: Seq<u8>) -> Seq<u8> {
    Seq::new(
        bytes.len(),
        |k: int|
            if offset <= k < offset + src.len() {
                src[k - offset]
            } else {
                bytes[k]
            },
    )
}

} // verus!
