//! Streaming firmware update into the inactive flash partition.
//!
//! The updater fetches the image over a plain HTTP/1.0 connection and
//! streams it straight into the application partition that is not
//! currently booted: each received chunk is written at the next offset,
//! so the partition fills with exactly the received byte stream. Only
//! after the peer closes the connection with no error is the written
//! partition activated - a single metadata update - and tagged `New`.
//! The booted partition is never written.

use vstd::prelude::*;

verus! {

/// One application partition: a fixed region of flash.
#[derive(Clone, Copy, PartialEq, Eq, Debug, Structural)]
pub struct Partition {
    pub offset: u32,
    pub size: u32,
}

impl Partition {
    /// A partition occupies `[offset, end())`.
    pub open spec fn end(self) -> int {
        self.offset + self.size
    }

    /// A usable partition: non-empty and within the address space.
    pub open spec fn well_formed(self) -> bool {
        &&& self.size >= 1
        &&& self.offset + self.size <= u32::MAX
    }

    /// Whether absolute flash address `addr` lies inside this partition.
    pub open spec fn holds_addr(self, addr: int) -> bool {
        self.offset <= addr < self.end()
    }
}

/// Two partitions that share no flash address.
pub open spec fn disjoint(a: Partition, b: Partition) -> bool {
    a.end() <= b.offset || b.end() <= a.offset
}

/// The validation tag of the freshly flashed image.
#[derive(Clone, Copy, PartialEq, Eq, Debug, Structural)]
pub enum OtaImageState {
    /// Flashed but not yet confirmed good by a post-reboot self-check.
    New,
    /// Confirmed good.
    Valid,
    /// Marked bad.
    Invalid,
}

/// The partition table: the application partitions, which one is
/// currently executing, which one boots next, and the image tag of the
/// next-boot image.
pub struct PartitionTable {
    pub parts: Vec<Partition>,
    pub booted: usize,
    pub boot_target: usize,
    pub image_state: OtaImageState,
}

impl PartitionTable {
    /// At least two application partitions, all usable and pairwise
    /// disjoint, with valid booted and next-boot indices.
    pub open spec fn well_formed(self) -> bool {
        &&& self.parts@.len() >= 2
        &&& self.booted < self.parts@.len()
        &&& self.boot_target < self.parts@.len()
        &&& forall|i: int| 0 <= i < self.parts@.len() ==> (#[trigger] self.parts@[i]).well_formed()
        &&& forall|i: int, j: int|
            0 <= i < self.parts@.len() && 0 <= j < self.parts@.len() && i != j ==> disjoint(
                #[trigger] self.parts@[i],
                #[trigger] self.parts@[j],
            )
    }

    /// The update target: the application partition after the booted one,
    /// wrapping around - never the booted partition itself.
    pub open spec fn spec_update_target(self) -> int {
        if self.booted + 1 < self.parts@.len() {
            self.booted + 1
        } else {
            0
        }
    }

    /// Picks the partition the update may write: the non-booted one.
    pub fn update_target(&self) -> (idx: usize)
        requires
            self.well_formed(),
        ensures
            idx == self.spec_update_target(),
            idx < self.parts@.len(),
            idx != self.booted,
    {
        let n = self.parts.len();
        if self.booted + 1 < n {
            self.booted + 1
        } else {
            0
        }
    }

    /// Activates `target` as the next-boot partition: the one atomic
    /// metadata update of the whole procedure. The partitions themselves
    /// and the booted index are untouched.
    pub fn activate(&mut self, target: usize)
        requires
            old(self).well_formed(),
            target < old(self).parts@.len(),
            target != old(self).booted,
        ensures
            final(self).boot_target == target,
            final(self).parts@ == old(self).parts@,
            final(self).booted == old(self).booted,
            final(self).image_state == old(self).image_state,
            final(self).well_formed(),
    {
        self.boot_target = target;
    }

    /// Tags the next-boot image, e.g. `New` right after activation.
    pub fn set_image_state(&mut self, state: OtaImageState)
        ensures
            final(self).image_state == state,
            final(self).parts@ == old(self).parts@,
            final(self).booted == old(self).booted,
            final(self).boot_target == old(self).boot_target,
    {
        self.image_state = state;
    }
}

/// The updater ran out of room in the target partition.
#[derive(Clone, Copy, PartialEq, Eq, Debug, Structural)]
pub enum OtaError {
    ImageTooLarge,
}

/// One write the driver must issue to flash: `len` bytes at the
/// partition-relative `offset` of partition `partition`.
#[derive(Clone, Copy, PartialEq, Eq, Debug, Structural)]
pub struct FlashWrite {
    pub partition: usize,
    pub offset: u32,
    pub len: u32,
}

/// A firmware download in progress: the chosen target partition and the
/// next write offset. The ghost `image` records every byte accepted so
/// far, in order.
pub struct OtaSession {
    pub target: usize,
    pub part: Partition,
    pub written: u32,
    pub image: Ghost<Seq<u8>>,
}

impl OtaSession {
    /// The bytes accepted so far fill `[0, written)` of the target.
    pub open spec fn well_formed(self) -> bool {
        &&& self.part.well_formed()
        &&& self.written <= self.part.size
        &&& self.image@.len() == self.written
    }

    /// This session writes the update target of `table`, not the booted
    /// partition.
    pub open spec fn matches(self, table: PartitionTable) -> bool {
        &&& self.target == table.spec_update_target()
        &&& self.target < table.parts@.len()
        &&& self.target != table.booted
        &&& self.part == table.parts@[self.target as int]
    }

    /// Opens a download into the non-booted partition of `table`.
    pub fn begin(table: &PartitionTable) -> (s: OtaSession)
        requires
            table.well_formed(),
        ensures
            s.well_formed(),
            s.matches(*table),
            s.written == 0,
            s.image@ == Seq::<u8>::empty(),
    {
        let target = table.update_target();
        let part = table.parts[target];
        OtaSession { target, part, written: 0, image: Ghost(Seq::empty()) }
    }

    /// Accepts the next received chunk: hands back the one flash write it
    /// calls for, at the offset right after everything written so far.
    /// A chunk that would run past the partition is refused whole, and
    /// the session is unchanged.
    pub fn write_chunk(&mut self, chunk: &[u8]) -> (r: Result<FlashWrite, OtaError>)
        requires
            old(self).well_formed(),
            chunk@.len() >= 1,
        ensures
            match r {
                Ok(w) => {
                    &&& w.partition == old(self).target
                    &&& w.offset == old(self).written
                    &&& w.len == chunk@.len()
                    &&& w.offset + w.len <= old(self).part.size
                    &&& final(self).written == old(self).written + chunk@.len()
                    &&& final(self).image@ == old(self).image@ + chunk@
                    &&& old(self).written + chunk@.len() <= old(self).part.size
                },
                Err(e) => {
                    &&& e == OtaError::ImageTooLarge
                    &&& old(self).written + chunk@.len() > old(self).part.size
                    &&& final(self).written == old(self).written
                    &&& final(self).image@ == old(self).image@
                },
            },
            final(self).target == old(self).target,
            final(self).part == old(self).part,
            final(self).well_formed(),
    {
        let room: u32 = self.part.size - self.written;
        if chunk.len() > room as usize {
            return Err(OtaError::ImageTooLarge);
        }
        let w = FlashWrite { partition: self.target, offset: self.written, len: chunk.len() as u32 };
        self.written = self.written + chunk.len() as u32;
        proof {
            self.image@ = self.image@ + chunk@;
        }
        Ok(w)
    }
}

/// The flash content the accepted stream calls for, after feeding every
/// chunk in order: each chunk lands at the end of what came before.
pub open spec fn streamed_image(image: Seq<u8>, chunks: Seq<Seq<u8>>) -> Seq<u8>
    decreases chunks.len(),
{
    if chunks.len() == 0 {
        image
    } else {
        streamed_image(image + chunks[0], chunks.skip(1))
    }
}

/// The total length of a chunked stream.
pub open spec fn total_len(chunks: Seq<Seq<u8>>) -> nat
    decreases chunks.len(),
{
    if chunks.len() == 0 {
        0
    } else {
        chunks[0].len() + total_len(chunks.skip(1))
    }
}

/// Streaming reassembles the image exactly: however an image is split
/// into chunks, feeding the chunks in order appends precisely their
/// concatenation, whose length is the sum of the chunk lengths.
pub proof fn lemma_stream_reassembles(image: Seq<u8>, chunks: Seq<Seq<u8>>)
    ensures
        streamed_image(image, chunks) == image + chunks.flatten(),
        chunks.flatten().len() == total_len(chunks),
    decreases chunks.len(),
{
    if chunks.len() == 0 {
        assert(chunks.flatten() =~= Seq::<u8>::empty());
        assert(streamed_image(image, chunks) =~= image + chunks.flatten());
    } else {
        lemma_stream_reassembles(image + chunks[0], chunks.skip(1));
        assert(chunks.drop_first() =~= chunks.skip(1));
        assert(chunks.flatten() == chunks[0] + chunks.skip(1).flatten());
        assert((image + chunks[0]) + chunks.skip(1).flatten() =~= image + chunks.flatten());
    }
}

/// No write of a session ever touches the booted partition: every
/// absolute flash address a write covers lies in the target partition,
/// which is disjoint from the booted one.
pub proof fn lemma_no_overwrite_of_booted(table: PartitionTable, s: OtaSession, w: FlashWrite)
    requires
        table.well_formed(),
        s.well_formed(),
        s.matches(table),
        w.partition == s.target,
        w.offset + w.len <= s.part.size,
    ensures
        forall|addr: int|
            s.part.offset + w.offset <= addr < s.part.offset + w.offset + w.len
                ==> !(#[trigger] table.parts@[table.booted as int].holds_addr(addr)),
{
    let booted = table.parts@[table.booted as int];
    let target = table.parts@[s.target as int];
    assert(disjoint(target, booted));
    assert forall|addr: int|
        s.part.offset + w.offset <= addr < s.part.offset + w.offset + w.len implies !(
    booted.holds_addr(addr)) by {
        assert(target.holds_addr(addr));
    }
}

} // verus!
