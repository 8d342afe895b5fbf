use vstd::prelude::*;

verus! {

/// Bytes that one read can deliver: the size of the scratch buffer.
pub const SCRATCH_LEN: usize = 256;

/// Line speed of the serial link.
pub const BAUD_RATE: u32 = 9600;

/// How long one read waits for bytes, in milliseconds.
pub const READ_TIMEOUT_MS: u32 = 100;

/// A fault of the serial transport; `code` is the driver's error code.
#[derive(Debug, Clone, Copy, PartialEq, Eq, Structural)]
pub struct SerialError {
    pub code: i32,
}

/// The receive side of the serial bridge: a fixed scratch buffer that each
/// read overwrites, and how many of its bytes the last read filled.
pub struct SerialBridge {
    scratch: Vec<u8>,
    count: usize,
}

impl View for SerialBridge {
    type V = Seq<u8>;

    /// The bytes of the last read.
    closed spec fn view(&self) -> Seq<u8> {
        self.scratch@.subrange(0, self.count as int)
    }
}

impl SerialBridge {
    pub closed spec fn wf(&self) -> bool {
        &&& self.scratch@.len() == SCRATCH_LEN
        &&& self.count <= SCRATCH_LEN
    }

    pub fn new() -> (r: SerialBridge)
        ensures
            r.wf(),
            r@ == Seq::<u8>::empty(),
    {
        let mut scratch: Vec<u8> = Vec::new();
        let mut i: usize = 0;
        while i < SCRATCH_LEN
            invariant
                i <= SCRATCH_LEN,
                scratch@.len() == i,
            decreases SCRATCH_LEN - i,
        {
            scratch.push(0u8);
            i = i + 1;
        }
        let r = SerialBridge { scratch, count: 0 };
        assert(r@ =~= Seq::<u8>::empty());
        r
    }

    /// Takes the bytes that one read delivered into the scratch buffer. A
    /// chunk longer than the buffer is cut at its size; the count of bytes
    /// kept is returned.
    pub fn receive(&mut self, incoming: &[u8]) -> (n: usize)
        requires
            old(self).wf(),
        ensures
            final(self).wf(),
            n == if incoming@.len() < SCRATCH_LEN {
                incoming@.len()
            } else {
                SCRATCH_LEN as nat
            },
            final(self)@ == incoming@.subrange(0, n as int),
    {
        let n: usize = if incoming.len() < SCRATCH_LEN {
            incoming.len()
        } else {
            SCRATCH_LEN
        };
        let mut i: usize = 0;
        while i < n
            invariant
                self.scratch@.len() == SCRATCH_LEN,
                n <= SCRATCH_LEN,
                n <= incoming@.len(),
                i <= n,
                forall|j: int| 0 <= j < i ==> self.scratch@[j] == incoming@[j],
            decreases n - i,
        {
            self.scratch.set(i, incoming[i]);
            i = i + 1;
        }
        self.count = n;
        assert(self@ =~= incoming@.subrange(0, n as int));
        n
    }

    /// How many bytes the last read delivered.
    pub fn count(&self) -> (r: usize)
        requires
            self.wf(),
        ensures
            r == self@.len(),
    {
        self.count
    }

    /// The bytes to write back: exactly those of the last read, in order.
    pub fn echo(&self) -> (r: Vec<u8>)
        requires
            self.wf(),
        ensures
            r@ == self@,
    {
        let mut out: Vec<u8> = Vec::new();
        let mut i: usize = 0;
        while i < self.count
            invariant
                self.wf(),
                i <= self.count,
                out@ =~= self.scratch@.subrange(0, i as int),
            decreases self.count - i,
        {
            out.push(self.scratch[i]);
            i = i + 1;
        }
        out
    }
}

} // verus!
