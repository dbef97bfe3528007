//! Snapshots of console memory, and the assembler that builds one from the
//! chunks of a read sequence.

use crate::error::ProtocolViolation;
use vstd::prelude::*;

verus! {

/// `n` zero bytes.
pub open spec fn zeros(n: nat) -> Seq<u8> {
    Seq::new(n, |i: int| 0u8)
}

/// `chunk`, followed by as many zero bytes as it takes to reach `pad_to`
/// bytes. A chunk that is long enough stays as it is.
pub open spec fn padded(chunk: Seq<u8>, pad_to: nat) -> Seq<u8> {
    if chunk.len() >= pad_to {
        chunk
    } else {
        chunk + zeros((pad_to - chunk.len()) as nat)
    }
}

/// The byte of `snapshot` at `address`. A snapshot reads as zero beyond its
/// end.
pub open spec fn byte_of(snapshot: Seq<u8>, address: int) -> u8 {
    if 0 <= address < snapshot.len() {
        snapshot[address]
    } else {
        0u8
    }
}

/// An owned image of console memory at one point in time. A byte's index is
/// its address.
#[derive(Debug, Clone, PartialEq, Eq)]
pub struct Snapshot {
    bytes: Vec<u8>,
}

impl View for Snapshot {
    type V = Seq<u8>;

    closed spec fn view(&self) -> Seq<u8> {
        self.bytes@
    }
}

impl Snapshot {
    /// The snapshot that holds exactly `bytes`.
    pub fn from_bytes(bytes: Vec<u8>) -> (snapshot: Self)
        ensures
            snapshot@ == bytes@,
    {
        Snapshot { bytes }
    }

    /// A snapshot of `len` zero bytes.
    pub fn zeroed(len: usize) -> (snapshot: Self)
        ensures
            snapshot@ == zeros(len as nat),
    {
        let mut bytes: Vec<u8> = Vec::new();
        while bytes.len() < len
            invariant
                bytes@.len() <= len,
                forall|i: int| 0 <= i < bytes@.len() ==> bytes@[i] == 0u8,
            decreases len - bytes@.len(),
        {
            bytes.push(0u8);
        }
        Snapshot { bytes }
    }

    /// Number of bytes.
    pub fn len(&self) -> (n: usize)
        ensures
            n == self@.len(),
    {
        self.bytes.len()
    }

    /// The byte at `address`, or `None` where the snapshot ends before it.
    pub fn byte_at(&self, address: u32) -> (byte: Option<u8>)
        ensures
            byte == if (address as int) < self@.len() {
                Some(self@[address as int])
            } else {
                None
            },
    {
        let index: usize = address as usize;
        if index < self.bytes.len() {
            Some(self.bytes[index])
        } else {
            None
        }
    }

    /// The byte at `address`, read as zero where the snapshot ends before
    /// it.
    pub fn read(&self, address: u32) -> (byte: u8)
        ensures
            byte == byte_of(self@, address as int),
    {
        let index: usize = address as usize;
        if index < self.bytes.len() {
            self.bytes[index]
        } else {
            0u8
        }
    }

    /// The bytes of the snapshot.
    pub fn as_bytes(&self) -> (bytes: &Vec<u8>)
        ensures
            bytes@ == self@,
    {
        &self.bytes
    }
}

/// Mathematical model of a [`SnapshotAssembler`].
pub struct AssemblerView {
    /// Address at which the second read of a sequence starts: the first
    /// chunk is padded up to it.
    pub pad_to: nat,
    /// Size that the snapshot under assembly must reach.
    pub expected: nat,
    /// A snapshot has been begun and not yet taken or cleared.
    pub active: bool,
    /// No chunk has arrived since the snapshot was begun.
    pub awaiting_first: bool,
    /// The bytes assembled so far.
    pub bytes: Seq<u8>,
}

impl AssemblerView {
    /// The assembler at rest: nothing begun, nothing buffered.
    pub open spec fn idle(pad_to: nat) -> Self {
        AssemblerView {
            pad_to,
            expected: 0,
            active: false,
            awaiting_first: false,
            bytes: Seq::empty(),
        }
    }

    /// The state after `begin`: whatever was buffered is gone.
    pub open spec fn begin(self, expected: nat) -> Self {
        AssemblerView {
            pad_to: self.pad_to,
            expected,
            active: true,
            awaiting_first: true,
            bytes: Seq::empty(),
        }
    }

    /// A snapshot is under assembly and has reached its expected size.
    pub open spec fn is_complete(self) -> bool {
        self.active && self.bytes.len() >= self.expected
    }

    /// Why a chunk cannot be appended now, if it cannot.
    pub open spec fn append_error(self) -> Option<ProtocolViolation> {
        if !self.active {
            Some(ProtocolViolation::AppendBeforeBegin)
        } else if self.is_complete() {
            Some(ProtocolViolation::AppendAfterComplete)
        } else {
            None
        }
    }

    /// The state after `append`. The first chunk of a snapshot is padded
    /// with zero bytes up to `pad_to`; later chunks follow directly. Where
    /// the chunk is refused, nothing changes.
    pub open spec fn append(self, chunk: Seq<u8>) -> Self {
        if self.append_error() is Some {
            self
        } else {
            AssemblerView {
                pad_to: self.pad_to,
                expected: self.expected,
                active: true,
                awaiting_first: false,
                bytes: if self.awaiting_first {
                    padded(chunk, self.pad_to)
                } else {
                    self.bytes + chunk
                },
            }
        }
    }

    /// The state after a snapshot was taken or the assembly was cancelled.
    pub open spec fn cleared(self) -> Self {
        Self::idle(self.pad_to)
    }
}

/// Accumulates the chunks of one read sequence into a single snapshot.
#[derive(Debug)]
pub struct SnapshotAssembler {
    pad_to: u32,
    expected: u32,
    active: bool,
    awaiting_first: bool,
    buffer: Vec<u8>,
}

impl View for SnapshotAssembler {
    type V = AssemblerView;

    closed spec fn view(&self) -> AssemblerView {
        AssemblerView {
            pad_to: self.pad_to as nat,
            expected: self.expected as nat,
            active: self.active,
            awaiting_first: self.awaiting_first,
            bytes: self.buffer@,
        }
    }
}

impl SnapshotAssembler {
    /// An idle assembler for read sequences whose second read starts at
    /// address `pad_to`.
    pub fn new(pad_to: u32) -> (assembler: Self)
        ensures
            assembler@ == AssemblerView::idle(pad_to as nat),
    {
        SnapshotAssembler {
            pad_to,
            expected: 0,
            active: false,
            awaiting_first: false,
            buffer: Vec::new(),
        }
    }

    /// Begins a snapshot of `expected_total_size` bytes. A snapshot that
    /// was under assembly is dropped.
    pub fn begin(&mut self, expected_total_size: u32)
        ensures
            final(self)@ == old(self)@.begin(expected_total_size as nat),
    {
        self.expected = expected_total_size;
        self.active = true;
        self.awaiting_first = true;
        self.buffer = Vec::new();
    }

    /// Whether the snapshot under assembly has reached its expected size.
    pub fn is_complete(&self) -> (complete: bool)
        ensures
            complete == self@.is_complete(),
    {
        self.active && self.buffer.len() >= self.expected as usize
    }

    /// Appends the next chunk of the read sequence.
    ///
    /// Before `begin` and after completion the chunk is refused and the
    /// assembler stays as it was.
    pub fn append(&mut self, chunk: &[u8]) -> (outcome: Result<(), ProtocolViolation>)
        ensures
            final(self)@ == old(self)@.append(chunk@),
            match outcome {
                Ok(_) => old(self)@.append_error() is None,
                Err(violation) => old(self)@.append_error() == Some(violation),
            },
    {
        if !self.active {
            return Err(ProtocolViolation::AppendBeforeBegin);
        }
        if self.buffer.len() >= self.expected as usize {
            return Err(ProtocolViolation::AppendAfterComplete);
        }
        let first: bool = self.awaiting_first;
        if first {
            // The first chunk starts the buffer afresh.
            self.buffer = Vec::new();
        }
        let ghost before = self.buffer@;
        let mut i: usize = 0;
        while i < chunk.len()
            invariant
                i <= chunk.len(),
                self.buffer@ == before + chunk@.take(i as int),
                self.pad_to == old(self).pad_to,
                self.expected == old(self).expected,
                self.active == old(self).active,
                self.awaiting_first == old(self).awaiting_first,
            decreases chunk.len() - i,
        {
            self.buffer.push(chunk[i]);
            i = i + 1;
        }
        assert(chunk@.take(chunk.len() as int) =~= chunk@);
        if first {
            while self.buffer.len() < self.pad_to as usize
                invariant
                    self.buffer@.len() >= chunk@.len(),
                    self.buffer@.len() <= self.pad_to || self.buffer@.len() == chunk@.len(),
                    self.buffer@ =~= chunk@ + zeros((self.buffer@.len() - chunk@.len()) as nat),
                    self.pad_to == old(self).pad_to,
                    self.expected == old(self).expected,
                    self.active == old(self).active,
                    self.awaiting_first == old(self).awaiting_first,
                decreases self.pad_to - self.buffer@.len(),
            {
                self.buffer.push(0u8);
            }
        }
        self.awaiting_first = false;
        Ok(())
    }

    /// Takes the completed snapshot and returns the assembler to rest.
    ///
    /// While the snapshot is incomplete nothing is taken and the assembler
    /// stays as it was.
    pub fn take(&mut self) -> (outcome: Result<Snapshot, ProtocolViolation>)
        ensures
            match outcome {
                Ok(snapshot) => old(self)@.is_complete() && snapshot@ == old(self)@.bytes
                    && final(self)@ == old(self)@.cleared(),
                Err(violation) => !old(self)@.is_complete() && violation
                    == ProtocolViolation::TakeBeforeComplete && final(self)@ == old(self)@,
            },
    {
        if !self.is_complete() {
            return Err(ProtocolViolation::TakeBeforeComplete);
        }
        let mut bytes: Vec<u8> = Vec::new();
        std::mem::swap(&mut bytes, &mut self.buffer);
        self.expected = 0;
        self.active = false;
        self.awaiting_first = false;
        Ok(Snapshot::from_bytes(bytes))
    }

    /// Cancels the assembly: the partial buffer is dropped.
    pub fn clear(&mut self)
        ensures
            final(self)@ == old(self)@.cleared(),
    {
        self.expected = 0;
        self.active = false;
        self.awaiting_first = false;
        self.buffer = Vec::new();
    }
}

/// Round trip of the assembler. A snapshot of `expected` bytes is begun and
/// two chunks follow, of which the first alone does not complete it and both
/// together do. Then both chunks are accepted, the snapshot is complete and
/// at least `expected` bytes long, the first chunk stands at address zero,
/// the second at the padding boundary (or right behind a first chunk that
/// reaches beyond it), and every byte between them is zero.
pub proof fn lemma_assembler_round_trip(
    start: AssemblerView,
    expected: nat,
    chunk1: Seq<u8>,
    chunk2: Seq<u8>,
)
    requires
        padded(chunk1, start.pad_to).len() < expected,
        padded(chunk1, start.pad_to).len() + chunk2.len() >= expected,
    ensures
        ({
            let begun = start.begin(expected);
            let fed = begun.append(chunk1);
            let done = fed.append(chunk2);
            let base = padded(chunk1, start.pad_to).len() as int;
            &&& begun.append_error() is None
            &&& fed.append_error() is None
            &&& !fed.is_complete()
            &&& done.is_complete()
            &&& done.bytes.len() >= expected
            &&& done.bytes.len() == base + chunk2.len()
            &&& base == if chunk1.len() >= start.pad_to { chunk1.len() } else { start.pad_to }
            &&& forall|i: int| 0 <= i < chunk1.len() ==> done.bytes[i] == chunk1[i]
            &&& forall|i: int| chunk1.len() <= i < base ==> done.bytes[i] == 0u8
            &&& forall|j: int| 0 <= j < chunk2.len() ==> done.bytes[base + j] == chunk2[j]
        }),
{
}

} // verus!
