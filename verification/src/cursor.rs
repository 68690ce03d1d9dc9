//! The positions that a download keeps track of, and how each step moves them.

use crate::error::Error;
use vstd::prelude::*;

verus! {

/// Block number of the first chunk of firmware. The numbers below it are
/// kept for commands.
pub const FIRST_BLOCK: u16 = 2;

/// Where a download stands.
pub struct Cursor {
    /// Sizes of the pages that are not erased yet, the next one first.
    pub layout: Seq<u32>,
    /// Address behind the last byte to write.
    pub end_pos: u32,
    /// Address of the next byte to write.
    pub copied_pos: u32,
    /// Address of the next byte to erase.
    pub erased_pos: u32,
    /// Whether the device has been told the address to write to.
    pub address_set: bool,
    /// Number of the next block.
    pub block_num: u16,
    /// Whether the empty chunk that ends the firmware has been sent.
    pub eof: bool,
}

/// The kinds of step that a download is made of.
pub enum StepKind {
    /// The download is complete.
    Break,
    /// A page has to be erased.
    Erase,
    /// The device has to be told the address to write to.
    SetAddress,
    /// A chunk of firmware has to be written.
    DownloadChunk,
}

/// Number of bytes of a chunk that go into one transfer: the whole chunk, or
/// as much as the device accepts at once.
pub open spec fn sent_len(chunk_len: nat, transfer_size: u16) -> nat {
    if chunk_len <= transfer_size {
        chunk_len
    } else {
        transfer_size as nat
    }
}

impl Cursor {
    /// Where a download of the region from `address` up to `end_pos` starts.
    pub open spec fn start(layout: Seq<u32>, address: u32, end_pos: u32) -> Cursor {
        Cursor {
            layout,
            end_pos,
            copied_pos: address,
            erased_pos: address,
            address_set: false,
            block_num: FIRST_BLOCK,
            eof: false,
        }
    }

    /// What holds of a download at every moment: the address is only set once
    /// all is erased, the end comes only after the address is set, block
    /// numbers start at two, and until the address is set no block is written
    /// and nothing lies between the two positions that is not erased.
    pub open spec fn wf(self) -> bool {
        &&& self.address_set ==> self.erased_pos >= self.end_pos
        &&& self.eof ==> self.address_set
        &&& self.block_num >= FIRST_BLOCK
        &&& !self.address_set ==> self.block_num == FIRST_BLOCK && self.copied_pos
            <= self.erased_pos
    }

    /// The step that comes next.
    pub open spec fn step_kind(self) -> StepKind {
        if self.eof {
            StepKind::Break
        } else if self.erased_pos < self.end_pos {
            StepKind::Erase
        } else if !self.address_set {
            StepKind::SetAddress
        } else {
            StepKind::DownloadChunk
        }
    }

    /// Where the download stands once the next page is erased: the page has
    /// left the layout and the erased position has moved on by its size.
    /// There is no such page in an empty layout, and no such position above
    /// the greatest address: the error then names the position, the size of
    /// the page, and that address.
    pub open spec fn erased(self) -> Result<Cursor, Error> {
        if self.layout.len() == 0 {
            Err(Error::NoSpaceLeft)
        } else if self.erased_pos + self.layout[0] > u32::MAX {
            Err(
                Error::EraseLimitReached {
                    erased_pos: self.erased_pos,
                    page_size: self.layout[0],
                    limit: u32::MAX,
                },
            )
        } else {
            Ok(
                Cursor {
                    layout: self.layout.skip(1),
                    erased_pos: (self.erased_pos + self.layout[0]) as u32,
                    address_set: false,
                    eof: false,
                    ..self
                },
            )
        }
    }

    /// Where the download stands once the device knows the address.
    pub open spec fn address_sent(self) -> Cursor {
        Cursor { address_set: true, eof: false, ..self }
    }

    /// Where the download stands once a chunk of `chunk_len` bytes is handed
    /// in: the copied position has moved on by the number of bytes that go
    /// into the transfer, the block number by one, and an empty chunk ends
    /// the firmware. A chunk whose length is above the greatest address is
    /// turned down, and so is a position or a block number above its greatest
    /// value: the error then names what does not fit, and the limit.
    pub open spec fn written(self, chunk_len: nat, transfer_size: u16) -> Result<Cursor, Error> {
        if chunk_len > u32::MAX {
            Err(Error::BufferTooBig { got: chunk_len as usize, expected: 0xffff_ffff })
        } else if self.copied_pos + sent_len(chunk_len, transfer_size) > u32::MAX {
            Err(
                Error::MaximumTransferSizeExceeded {
                    copied_pos: self.copied_pos,
                    len: sent_len(chunk_len, transfer_size) as u32,
                    limit: u32::MAX,
                },
            )
        } else if self.block_num + 1 > u16::MAX {
            Err(Error::MaximumChunksExceeded { block_num: self.block_num, limit: u16::MAX })
        } else {
            Ok(
                Cursor {
                    copied_pos: (self.copied_pos + sent_len(chunk_len, transfer_size)) as u32,
                    block_num: (self.block_num + 1) as u16,
                    address_set: true,
                    eof: chunk_len == 0,
                    ..self
                },
            )
        }
    }

    /// Where the download stands after its next step, if it takes one: none
    /// follows the end, and none follows a step that fails. `chunk_len` is the
    /// length of the chunk that is handed in if the step writes one.
    pub open spec fn advance(self, chunk_len: nat, transfer_size: u16) -> Option<Cursor> {
        match self.step_kind() {
            StepKind::Break => None,
            StepKind::Erase => match self.erased() {
                Ok(next) => Some(next),
                Err(_) => None,
            },
            StepKind::SetAddress => Some(self.address_sent()),
            StepKind::DownloadChunk => match self.written(chunk_len, transfer_size) {
                Ok(next) => Some(next),
                Err(_) => None,
            },
        }
    }

    /// Where the download stands after `n` steps, if it gets that far.
    /// `chunk_lens[i]` is the length of the chunk that is handed in at step
    /// `i`, if that step writes one.
    pub open spec fn after(self, chunk_lens: Seq<nat>, transfer_size: u16, n: nat) -> Option<
        Cursor,
    >
        decreases n,
    {
        if n == 0 {
            Some(self)
        } else {
            match self.after(chunk_lens, transfer_size, (n - 1) as nat) {
                Some(cursor) => cursor.advance(chunk_lens[n - 1], transfer_size),
                None => None,
            }
        }
    }

    /// Whether the first `n` steps of a download are, in this order:
    /// `erasures` erasures, each of which takes the first page from the
    /// layout and moves the erased position on by its size; the setting of
    /// the address; and chunks, of which the last one is empty if
    /// `ended` and no other one is.
    pub open spec fn in_order(
        self,
        chunk_lens: Seq<nat>,
        transfer_size: u16,
        n: nat,
        erasures: nat,
        ended: bool,
    ) -> bool {
        &&& erasures < n
        &&& forall|i: nat|
            i <= n ==> (#[trigger] self.after(chunk_lens, transfer_size, i)) is Some
        &&& forall|i: nat|
            i < erasures ==> {
                let cursor = (#[trigger] self.after(chunk_lens, transfer_size, i))->0;
                let next = self.after(chunk_lens, transfer_size, i + 1)->0;
                &&& cursor.step_kind() is Erase
                &&& cursor.layout.len() > 0
                &&& next.layout == cursor.layout.skip(1)
                &&& next.erased_pos == cursor.erased_pos + cursor.layout[0]
            }
        &&& self.after(chunk_lens, transfer_size, erasures)->0.step_kind() is SetAddress
        &&& forall|i: nat|
            erasures < i < n ==> {
                &&& (#[trigger] self.after(chunk_lens, transfer_size, i))->0.step_kind()
                    is DownloadChunk
                &&& chunk_lens[i as int] == 0 <==> ended && i == n - 1
            }
    }
}

/// A download starts in a state in which the invariant holds.
pub proof fn lemma_start_wf(layout: Seq<u32>, address: u32, end_pos: u32)
    ensures
        Cursor::start(layout, address, end_pos).wf(),
        !(Cursor::start(layout, address, end_pos).step_kind() is Break),
        !(Cursor::start(layout, address, end_pos).step_kind() is DownloadChunk),
{
}

/// Every step keeps the invariant, and leads only where the order of the
/// steps allows: after an erasure another one or the address, after the
/// address a chunk, after a chunk another one or, if it was empty, the end.
pub proof fn lemma_step_keeps_wf(cursor: Cursor, chunk_len: nat, transfer_size: u16)
    requires
        cursor.wf(),
    ensures
        cursor.step_kind() is Erase ==> (cursor.erased() matches Ok(next) ==> next.wf() && (
        next.step_kind() is Erase || next.step_kind() is SetAddress) && next.erased_pos
            >= cursor.erased_pos),
        cursor.step_kind() is SetAddress ==> cursor.address_sent().wf()
            && cursor.address_sent().step_kind() is DownloadChunk,
        cursor.step_kind() is DownloadChunk ==> (cursor.written(chunk_len, transfer_size) matches Ok(
            next,
        ) ==> next.wf() && next.copied_pos >= cursor.copied_pos && next.block_num
            > cursor.block_num && if chunk_len == 0 {
            next.step_kind() is Break
        } else {
            next.step_kind() is DownloadChunk
        }),
{
}

/// No position and no block number wraps: a step that would carry one past
/// its greatest value fails with the error of that position or number, which
/// names the values that do not fit and the limit, and a step that goes
/// through has moved each by exactly what was erased or sent.
pub proof fn lemma_no_wrap(cursor: Cursor, chunk_len: nat, transfer_size: u16)
    ensures
        cursor.erased() == Err::<Cursor, Error>(Error::NoSpaceLeft) <==> cursor.layout.len() == 0,
        cursor.erased() is Err && cursor.erased()->Err_0 is EraseLimitReached
            <==> cursor.layout.len() > 0 && cursor.erased_pos + cursor.layout[0] > u32::MAX,
        cursor.erased() matches Err(Error::EraseLimitReached { erased_pos, page_size, limit })
            ==> erased_pos == cursor.erased_pos && page_size == cursor.layout[0] && limit
            == u32::MAX,
        cursor.erased() matches Ok(next) ==> next.erased_pos == cursor.erased_pos
            + cursor.layout[0],
        cursor.written(chunk_len, transfer_size) is Err && cursor.written(
            chunk_len,
            transfer_size,
        )->Err_0 is BufferTooBig <==> chunk_len > u32::MAX,
        cursor.written(chunk_len, transfer_size) is Err && cursor.written(
            chunk_len,
            transfer_size,
        )->Err_0 is MaximumTransferSizeExceeded <==> chunk_len <= u32::MAX && cursor.copied_pos
            + sent_len(chunk_len, transfer_size) > u32::MAX,
        cursor.written(chunk_len, transfer_size) matches Err(
            Error::MaximumTransferSizeExceeded { copied_pos, len, limit },
        ) ==> copied_pos == cursor.copied_pos && len == sent_len(chunk_len, transfer_size)
            && limit == u32::MAX,
        cursor.written(chunk_len, transfer_size) == Err::<Cursor, Error>(
            Error::MaximumChunksExceeded { block_num: u16::MAX, limit: u16::MAX },
        ) <==> chunk_len <= u32::MAX && cursor.copied_pos + sent_len(chunk_len, transfer_size)
            <= u32::MAX && cursor.block_num == u16::MAX,
        cursor.written(chunk_len, transfer_size) matches Ok(next) ==> next.copied_pos
            == cursor.copied_pos + sent_len(chunk_len, transfer_size) && next.block_num
            == cursor.block_num + 1,
{
}

/// What goes into a transfer is never more than the chunk nor more than the
/// device accepts; and with a device that accepts anything at all, nothing
/// goes into a transfer only if the chunk is empty.
pub proof fn lemma_sent_len(chunk_len: nat, transfer_size: u16)
    ensures
        sent_len(chunk_len, transfer_size) <= chunk_len,
        sent_len(chunk_len, transfer_size) <= transfer_size,
        sent_len(chunk_len, transfer_size) == chunk_len || sent_len(chunk_len, transfer_size)
            == transfer_size,
        transfer_size > 0 ==> (sent_len(chunk_len, transfer_size) == 0 <==> chunk_len == 0),
{
}

/// However far a download gets, the invariant holds there, and the steps
/// that led there came in order: only erasures as long as the address is not
/// set, and from then on erasures, the address, and chunks.
proof fn lemma_steps(start: Cursor, chunk_lens: Seq<nat>, transfer_size: u16, n: nat)
    requires
        start.wf(),
        !start.address_set,
        n <= chunk_lens.len(),
        start.after(chunk_lens, transfer_size, n) is Some,
    ensures
        start.after(chunk_lens, transfer_size, n)->0.wf(),
        forall|i: nat| i <= n ==> (#[trigger] start.after(chunk_lens, transfer_size, i)) is Some,
        !start.after(chunk_lens, transfer_size, n)->0.address_set ==> forall|i: nat|
            i < n ==> {
                let cursor = (#[trigger] start.after(chunk_lens, transfer_size, i))->0;
                let next = start.after(chunk_lens, transfer_size, i + 1)->0;
                &&& cursor.step_kind() is Erase
                &&& cursor.layout.len() > 0
                &&& next.layout == cursor.layout.skip(1)
                &&& next.erased_pos == cursor.erased_pos + cursor.layout[0]
            },
        start.after(chunk_lens, transfer_size, n)->0.address_set ==> exists|erasures: nat|
            start.in_order(
                chunk_lens,
                transfer_size,
                n,
                erasures,
                start.after(chunk_lens, transfer_size, n)->0.eof,
            ),
    decreases n,
{
    if n > 0 {
        let m = (n - 1) as nat;
        let before = start.after(chunk_lens, transfer_size, m);
        assert(before is Some);
        lemma_steps(start, chunk_lens, transfer_size, m);
        let cursor = before->0;
        let next = start.after(chunk_lens, transfer_size, n)->0;
        assert(cursor.advance(chunk_lens[m as int], transfer_size) == Some(next));
        lemma_step_keeps_wf(cursor, chunk_lens[m as int], transfer_size);
        assert forall|i: nat| i <= n implies (#[trigger] start.after(
            chunk_lens,
            transfer_size,
            i,
        )) is Some by {
            if i < n {
                assert(i <= m);
            }
        }
        match cursor.step_kind() {
            StepKind::Break => {},
            StepKind::Erase => {
                assert(!cursor.address_set);
                assert(!next.address_set);
                assert forall|i: nat| i < n implies {
                    let c = (#[trigger] start.after(chunk_lens, transfer_size, i))->0;
                    let d = start.after(chunk_lens, transfer_size, i + 1)->0;
                    &&& c.step_kind() is Erase
                    &&& c.layout.len() > 0
                    &&& d.layout == c.layout.skip(1)
                    &&& d.erased_pos == c.erased_pos + c.layout[0]
                } by {
                    if i < m {
                    } else {
                        assert(i == m);
                        assert((i + 1) as nat == n);
                    }
                }
            },
            StepKind::SetAddress => {
                assert(!cursor.address_set);
                assert(next.address_set && !next.eof);
                assert(start.in_order(chunk_lens, transfer_size, n, m, false));
            },
            StepKind::DownloadChunk => {
                assert(cursor.address_set && !cursor.eof);
                let erasures = choose|erasures: nat|
                    start.in_order(chunk_lens, transfer_size, m, erasures, false);
                assert(start.in_order(chunk_lens, transfer_size, m, erasures, false));
                assert(next.eof <==> chunk_lens[m as int] == 0);
                assert forall|i: nat| erasures < i < n implies {
                    &&& (#[trigger] start.after(chunk_lens, transfer_size, i))->0.step_kind()
                        is DownloadChunk
                    &&& chunk_lens[i as int] == 0 <==> next.eof && i == n - 1
                } by {
                    if i < m {
                    } else {
                        assert(i == m);
                    }
                }
                assert(start.in_order(chunk_lens, transfer_size, n, erasures, next.eof));
            },
        }
    }
}

/// The steps of a download that has come to its end, whatever the memory
/// layout, the region and the chunks: first erasures and nothing else, each
/// of which takes the next page from the layout and moves the erased position
/// on by the size of that page; then the address, once; then chunks, at least
/// one, of which the last is empty and no other is; then the end.
pub proof fn lemma_download_order(
    layout: Seq<u32>,
    address: u32,
    end_pos: u32,
    chunk_lens: Seq<nat>,
    transfer_size: u16,
    n: nat,
)
    requires
        n <= chunk_lens.len(),
        Cursor::start(layout, address, end_pos).after(chunk_lens, transfer_size, n) matches Some(
            last,
        ) && last.step_kind() is Break,
    ensures
        exists|erasures: nat|
            {
                &&& erasures + 2 <= n
                &&& Cursor::start(layout, address, end_pos).in_order(
                    chunk_lens,
                    transfer_size,
                    n,
                    erasures,
                    true,
                )
            },
{
    let start = Cursor::start(layout, address, end_pos);
    lemma_steps(start, chunk_lens, transfer_size, n);
    let last = start.after(chunk_lens, transfer_size, n)->0;
    assert(last.eof && last.address_set);
    let erasures = choose|erasures: nat|
        start.in_order(chunk_lens, transfer_size, n, erasures, true);
    assert(start.in_order(chunk_lens, transfer_size, n, erasures, true));
    if erasures + 1 == n {
        let at = start.after(chunk_lens, transfer_size, erasures)->0;
        assert(at.step_kind() is SetAddress);
        assert(at.advance(chunk_lens[erasures as int], transfer_size) == Some(last));
    }
}

/// A download does not end before its empty chunk: as long as the steps
/// taken are erasures, the address, and chunks that are not empty, another
/// step is due.
pub proof fn lemma_no_early_end(
    layout: Seq<u32>,
    address: u32,
    end_pos: u32,
    chunk_lens: Seq<nat>,
    transfer_size: u16,
    n: nat,
)
    requires
        n <= chunk_lens.len(),
        forall|i: int| 0 <= i < n ==> chunk_lens[i] > 0,
        Cursor::start(layout, address, end_pos).after(chunk_lens, transfer_size, n) is Some,
    ensures
        !(Cursor::start(layout, address, end_pos).after(chunk_lens, transfer_size, n)->0.step_kind()
            is Break),
{
    let start = Cursor::start(layout, address, end_pos);
    lemma_steps(start, chunk_lens, transfer_size, n);
    let last = start.after(chunk_lens, transfer_size, n)->0;
    if last.eof {
        let erasures = choose|erasures: nat|
            start.in_order(chunk_lens, transfer_size, n, erasures, true);
        assert(start.in_order(chunk_lens, transfer_size, n, erasures, true));
        let m = (n - 1) as nat;
        if erasures < m {
            assert(start.after(chunk_lens, transfer_size, m) is Some);
            assert(chunk_lens[m as int] == 0);
        } else {
            let at = start.after(chunk_lens, transfer_size, erasures)->0;
            assert(at.advance(chunk_lens[erasures as int], transfer_size) == Some(last));
        }
    }
}

} // verus!
