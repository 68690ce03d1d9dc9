//! Writing a firmware into the device: erase the pages, set the address,
//! write the chunks. After each request the device is polled until it is
//! back in `DfuDnloadIdle`, and only then does the download move on.

use crate::chained::ChainedCommand;
use crate::command::{
    command_bytes, lemma_command_array, DownloadCommandErase, DownloadCommandSetAddress,
    OPCODE_ERASE, OPCODE_SET_ADDRESS,
};
use crate::cursor::{sent_len, Cursor, FIRST_BLOCK};
use crate::device::DfuSansIo;
use crate::error::Error;
use crate::get_status::WaitState;
use crate::memory_layout::MemoryPage;
use crate::report::GetStatusMessage;
use crate::request::{ControlWrite, DFU_DNLOAD, REQUEST_TYPE};
use crate::status::State;
use vstd::prelude::*;
use vstd::slice::{slice_subrange, slice_to_vec};

verus! {

/// Command that starts the writing of the firmware into the device.
#[must_use]
pub struct Start<'dfu> {
    dfu: &'dfu DfuSansIo,
    memory_layout: &'dfu [MemoryPage],
    address: u32,
    end_pos: u32,
}

/// Command that provides step to write a firmware to the device in a loop fashion.
#[must_use]
pub struct DownloadLoop<'dfu> {
    dfu: &'dfu DfuSansIo,
    memory_layout: &'dfu [MemoryPage],
    end_pos: u32,
    copied_pos: u32,
    erased_pos: u32,
    address_set: bool,
    block_num: u16,
    eof: bool,
}

/// A download step when writing a firmware to the device.
pub enum Step<'dfu> {
    /// End the loop.
    Break,
    /// Erase a memory page.
    Erase(ErasePage<'dfu>),
    /// Set the address before writing to the device.
    SetAddress(SetAddress<'dfu>),
    /// Write a chunk of data into the device.
    DownloadChunk(DownloadChunk<'dfu>),
}

/// Command to erase a memory page.
#[must_use]
pub struct ErasePage<'dfu> {
    dfu: &'dfu DfuSansIo,
    memory_layout: &'dfu [MemoryPage],
    end_pos: u32,
    copied_pos: u32,
    erased_pos: u32,
    block_num: u16,
}

/// Command to set the address before writing to the device.
#[must_use]
pub struct SetAddress<'dfu> {
    dfu: &'dfu DfuSansIo,
    memory_layout: &'dfu [MemoryPage],
    end_pos: u32,
    copied_pos: u32,
    erased_pos: u32,
    block_num: u16,
}

/// Command to write a chunk of data to the device.
#[must_use]
pub struct DownloadChunk<'dfu> {
    dfu: &'dfu DfuSansIo,
    memory_layout: &'dfu [MemoryPage],
    end_pos: u32,
    copied_pos: u32,
    erased_pos: u32,
    block_num: u16,
}

/// Whether `next` waits for the device to be back in `DfuDnloadIdle`, no
/// report taken yet, and then goes on with the download at `cursor`.
pub open spec fn resumes_at(
    next: WaitState<DownloadLoop>,
    dfu: DfuSansIo,
    cursor: Cursor,
) -> bool {
    &&& next@.dfu == dfu
    &&& next@.state == State::DfuDnloadIdle
    &&& next@.chained_command.dfu() == dfu
    &&& next@.chained_command@ == cursor
    &&& !next@.end
    &&& next@.poll_timeout == 0
    &&& !next@.in_manifest
}

/// Number of bytes of a chunk of `chunk_len` bytes that go into one
/// transfer: the whole chunk, or as much as the device accepts at once. A
/// chunk whose length does not fit in an address is turned down.
pub fn transfer_len(chunk_len: usize, transfer_size: u16) -> (r: Result<u32, Error>)
    ensures
        chunk_len > u32::MAX ==> r == Err::<u32, Error>(
            Error::BufferTooBig { got: chunk_len, expected: 0xffff_ffff },
        ),
        chunk_len <= u32::MAX ==> r == Ok::<u32, Error>(
            sent_len(chunk_len as nat, transfer_size) as u32,
        ),
{
    if chunk_len > 0xffff_ffff {
        return Err(Error::BufferTooBig { got: chunk_len, expected: 0xffff_ffff });
    }
    let chunk_len = chunk_len as u32;
    if chunk_len <= transfer_size as u32 {
        Ok(chunk_len)
    } else {
        Ok(transfer_size as u32)
    }
}

impl<'dfu> View for Start<'dfu> {
    type V = Cursor;

    closed spec fn view(&self) -> Cursor {
        Cursor::start(self.memory_layout@, self.address, self.end_pos)
    }
}

impl<'dfu> Start<'dfu> {
    /// The session that the command belongs to.
    pub closed spec fn dfu(self) -> DfuSansIo {
        *self.dfu
    }

    /// Makes the command that starts the download of the region from
    /// `address` up to `end_pos` into a memory of the given layout.
    pub fn new(
        dfu: &'dfu DfuSansIo,
        memory_layout: &'dfu [MemoryPage],
        address: u32,
        end_pos: u32,
    ) -> (command: Self)
        ensures
            command.dfu() == *dfu,
            command@ == Cursor::start(memory_layout@, address, end_pos),
    {
        Start { dfu, memory_layout, address, end_pos }
    }
}

impl<'dfu> ChainedCommand for Start<'dfu> {
    type Arg = GetStatusMessage;

    type Into = Result<DownloadLoop<'dfu>, Error>;

    /// The download begins if the device is in `DfuIdle`. In any other state
    /// it is turned down, with the state that was found and the one that is
    /// needed.
    open spec fn chains_into(
        self,
        arg: GetStatusMessage,
        into: Result<DownloadLoop<'dfu>, Error>,
    ) -> bool {
        match into {
            Ok(download) => {
                &&& arg.2 == State::DfuIdle
                &&& download.dfu() == self.dfu()
                &&& download@ == self@
            },
            Err(error) => {
                &&& arg.2 != State::DfuIdle
                &&& error == (Error::InvalidState { got: arg.2, expected: State::DfuIdle })
            },
        }
    }

    fn chain(self, arg: GetStatusMessage) -> (into: Result<DownloadLoop<'dfu>, Error>) {
        let (_status, _poll_timeout, state, _index) = arg;
        if state == State::DfuIdle {
            Ok(
                DownloadLoop {
                    dfu: self.dfu,
                    memory_layout: self.memory_layout,
                    end_pos: self.end_pos,
                    copied_pos: self.address,
                    erased_pos: self.address,
                    address_set: false,
                    block_num: FIRST_BLOCK,
                    eof: false,
                },
            )
        } else {
            Err(Error::InvalidState { got: state, expected: State::DfuIdle })
        }
    }
}

impl<'dfu> View for DownloadLoop<'dfu> {
    type V = Cursor;

    closed spec fn view(&self) -> Cursor {
        Cursor {
            layout: self.memory_layout@,
            end_pos: self.end_pos,
            copied_pos: self.copied_pos,
            erased_pos: self.erased_pos,
            address_set: self.address_set,
            block_num: self.block_num,
            eof: self.eof,
        }
    }
}

impl<'dfu> DownloadLoop<'dfu> {
    #[verifier::type_invariant]
    spec fn well_formed(self) -> bool {
        self@.wf()
    }

    /// The session that the download belongs to.
    pub closed spec fn dfu(self) -> DfuSansIo {
        *self.dfu
    }

    /// Sizes of the pages that are not erased yet, the next one first.
    pub fn memory_layout(&self) -> (layout: &'dfu [MemoryPage])
        ensures
            layout@ == self@.layout,
    {
        self.memory_layout
    }

    /// Address behind the last byte to write.
    pub fn end_pos(&self) -> (pos: u32)
        ensures
            pos == self@.end_pos,
    {
        self.end_pos
    }

    /// Address of the next byte to write.
    pub fn copied_pos(&self) -> (pos: u32)
        ensures
            pos == self@.copied_pos,
    {
        self.copied_pos
    }

    /// Address of the next byte to erase.
    pub fn erased_pos(&self) -> (pos: u32)
        ensures
            pos == self@.erased_pos,
    {
        self.erased_pos
    }

    /// Whether the device has been told the address to write to.
    pub fn address_set(&self) -> (set: bool)
        ensures
            set == self@.address_set,
    {
        self.address_set
    }

    /// Number of the next block.
    pub fn block_num(&self) -> (num: u16)
        ensures
            num == self@.block_num,
    {
        self.block_num
    }

    /// Whether the empty chunk that ends the firmware has been sent.
    pub fn eof(&self) -> (eof: bool)
        ensures
            eof == self@.eof,
    {
        self.eof
    }

    /// Retrieve the next command to write a firmware to the device. The
    /// command takes the positions of the download along as they are.
    pub fn next(self) -> (step: Step<'dfu>)
        ensures
            self@.wf(),
            match step {
                Step::Break => self@.step_kind() is Break,
                Step::Erase(command) => {
                    &&& self@.step_kind() is Erase
                    &&& command.dfu() == self.dfu()
                    &&& command@ == self@
                },
                Step::SetAddress(command) => {
                    &&& self@.step_kind() is SetAddress
                    &&& command.dfu() == self.dfu()
                    &&& command@ == self@
                },
                Step::DownloadChunk(command) => {
                    &&& self@.step_kind() is DownloadChunk
                    &&& command.dfu() == self.dfu()
                    &&& command@ == self@
                },
            },
    {
        proof {
            use_type_invariant(&self);
        }
        if self.eof {
            Step::Break
        } else {
            if self.erased_pos < self.end_pos {
                Step::Erase(
                    ErasePage {
                        dfu: self.dfu,
                        memory_layout: self.memory_layout,
                        end_pos: self.end_pos,
                        copied_pos: self.copied_pos,
                        erased_pos: self.erased_pos,
                        block_num: self.block_num,
                    },
                )
            } else if !self.address_set {
                Step::SetAddress(
                    SetAddress {
                        dfu: self.dfu,
                        memory_layout: self.memory_layout,
                        end_pos: self.end_pos,
                        copied_pos: self.copied_pos,
                        erased_pos: self.erased_pos,
                        block_num: self.block_num,
                    },
                )
            } else {
                Step::DownloadChunk(
                    DownloadChunk {
                        dfu: self.dfu,
                        memory_layout: self.memory_layout,
                        end_pos: self.end_pos,
                        copied_pos: self.copied_pos,
                        erased_pos: self.erased_pos,
                        block_num: self.block_num,
                    },
                )
            }
        }
    }
}

impl<'dfu> View for ErasePage<'dfu> {
    type V = Cursor;

    closed spec fn view(&self) -> Cursor {
        Cursor {
            layout: self.memory_layout@,
            end_pos: self.end_pos,
            copied_pos: self.copied_pos,
            erased_pos: self.erased_pos,
            address_set: false,
            block_num: self.block_num,
            eof: false,
        }
    }
}

impl<'dfu> ErasePage<'dfu> {
    #[verifier::type_invariant]
    spec fn well_formed(self) -> bool {
        self@.wf() && self@.step_kind() is Erase
    }

    /// The session that the command belongs to.
    pub closed spec fn dfu(self) -> DfuSansIo {
        *self.dfu
    }

    /// Erase a memory page: gives the DNLOAD request that carries the erase
    /// command for the page at the erased position, and the command that
    /// waits for the device before the download goes on behind that page.
    /// Fails if the layout has no page left, or if the end of the page lies
    /// above the greatest address.
    pub fn erase(self) -> (r: Result<(WaitState<'dfu, DownloadLoop<'dfu>>, ControlWrite), Error>)
        ensures
            match r {
                Ok((next, request)) => {
                    &&& self@.erased() matches Ok(cursor) && resumes_at(next, self.dfu(), cursor)
                    &&& request.is_request(
                        DFU_DNLOAD,
                        0,
                        command_bytes(OPCODE_ERASE, self@.erased_pos),
                    )
                },
                Err(error) => self@.erased() == Err::<Cursor, Error>(error),
            },
    {
        proof {
            use_type_invariant(&self);
        }
        if self.memory_layout.len() == 0 {
            return Err(Error::NoSpaceLeft);
        }
        let page_size = self.memory_layout[0];
        let rest_memory_layout = slice_subrange(self.memory_layout, 1, self.memory_layout.len());
        let erased_pos = match self.erased_pos.checked_add(page_size) {
            Some(erased_pos) => erased_pos,
            None => {
                return Err(
                    Error::EraseLimitReached {
                        erased_pos: self.erased_pos,
                        page_size,
                        limit: u32::MAX,
                    },
                );
            },
        };
        assert(rest_memory_layout@ =~= self.memory_layout@.skip(1));

        let next = WaitState::new(
            self.dfu,
            State::DfuDnloadIdle,
            DownloadLoop {
                dfu: self.dfu,
                memory_layout: rest_memory_layout,
                end_pos: self.end_pos,
                copied_pos: self.copied_pos,
                erased_pos,
                block_num: self.block_num,
                address_set: false,
                eof: false,
            },
        );
        let command = <[u8; 5]>::from(DownloadCommandErase::new(self.erased_pos));
        proof {
            lemma_command_array(OPCODE_ERASE, self.erased_pos);
        }
        let request = ControlWrite {
            request_type: REQUEST_TYPE,
            request: DFU_DNLOAD,
            value: 0,
            payload: slice_to_vec(command.as_slice()),
        };

        Ok((next, request))
    }
}

impl<'dfu> View for SetAddress<'dfu> {
    type V = Cursor;

    closed spec fn view(&self) -> Cursor {
        Cursor {
            layout: self.memory_layout@,
            end_pos: self.end_pos,
            copied_pos: self.copied_pos,
            erased_pos: self.erased_pos,
            address_set: false,
            block_num: self.block_num,
            eof: false,
        }
    }
}

impl<'dfu> SetAddress<'dfu> {
    #[verifier::type_invariant]
    spec fn well_formed(self) -> bool {
        self@.wf() && self@.step_kind() is SetAddress
    }

    /// The session that the command belongs to.
    pub closed spec fn dfu(self) -> DfuSansIo {
        *self.dfu
    }

    /// Set the address before writing to the device: gives the DNLOAD
    /// request that carries the command with the copied position, and the
    /// command that waits for the device before the download goes on with
    /// the address set.
    pub fn set_address(self) -> (r: (WaitState<'dfu, DownloadLoop<'dfu>>, ControlWrite))
        ensures
            resumes_at(r.0, self.dfu(), self@.address_sent()),
            r.1.is_request(DFU_DNLOAD, 0, command_bytes(OPCODE_SET_ADDRESS, self@.copied_pos)),
    {
        proof {
            use_type_invariant(&self);
        }
        let next = WaitState::new(
            self.dfu,
            State::DfuDnloadIdle,
            DownloadLoop {
                dfu: self.dfu,
                memory_layout: self.memory_layout,
                end_pos: self.end_pos,
                copied_pos: self.copied_pos,
                erased_pos: self.erased_pos,
                block_num: self.block_num,
                address_set: true,
                eof: false,
            },
        );
        let command = <[u8; 5]>::from(DownloadCommandSetAddress::new(self.copied_pos));
        proof {
            lemma_command_array(OPCODE_SET_ADDRESS, self.copied_pos);
        }
        let request = ControlWrite {
            request_type: REQUEST_TYPE,
            request: DFU_DNLOAD,
            value: 0,
            payload: slice_to_vec(command.as_slice()),
        };

        (next, request)
    }
}

impl<'dfu> View for DownloadChunk<'dfu> {
    type V = Cursor;

    closed spec fn view(&self) -> Cursor {
        Cursor {
            layout: self.memory_layout@,
            end_pos: self.end_pos,
            copied_pos: self.copied_pos,
            erased_pos: self.erased_pos,
            address_set: true,
            block_num: self.block_num,
            eof: false,
        }
    }
}

impl<'dfu> DownloadChunk<'dfu> {
    #[verifier::type_invariant]
    spec fn well_formed(self) -> bool {
        self@.wf() && self@.step_kind() is DownloadChunk
    }

    /// The session that the command belongs to.
    pub closed spec fn dfu(self) -> DfuSansIo {
        *self.dfu
    }

    /// Write a chunk of data to the device: gives the DNLOAD request that
    /// carries, under the current block number, the front of `bytes` as far
    /// as one transfer takes it, and the command that waits for the device
    /// before the download goes on behind the bytes sent. An empty chunk ends
    /// the firmware. Fails if the chunk is longer than an address can say,
    /// or if the position or the block number would pass its greatest value.
    pub fn write(self, bytes: &[u8]) -> (r: Result<
        (WaitState<'dfu, DownloadLoop<'dfu>>, ControlWrite),
        Error,
    >)
        ensures
            match r {
                Ok((next, request)) => {
                    &&& self@.written(bytes@.len(), self.dfu().descriptor().transfer_size)
                        matches Ok(cursor) && resumes_at(next, self.dfu(), cursor)
                    &&& request.is_request(
                        DFU_DNLOAD,
                        self@.block_num,
                        bytes@.take(
                            sent_len(bytes@.len(), self.dfu().descriptor().transfer_size) as int,
                        ),
                    )
                },
                Err(error) => self@.written(
                    bytes@.len(),
                    self.dfu().descriptor().transfer_size,
                ) == Err::<Cursor, Error>(error),
            },
    {
        proof {
            use_type_invariant(&self);
        }
        let transfer_size = self.dfu.functional_descriptor().transfer_size;
        let len = transfer_len(bytes.len(), transfer_size)?;
        let copied_pos = match self.copied_pos.checked_add(len) {
            Some(copied_pos) => copied_pos,
            None => {
                return Err(
                    Error::MaximumTransferSizeExceeded {
                        copied_pos: self.copied_pos,
                        len,
                        limit: u32::MAX,
                    },
                );
            },
        };
        let block_num = match self.block_num.checked_add(1) {
            Some(block_num) => block_num,
            None => {
                return Err(
                    Error::MaximumChunksExceeded { block_num: self.block_num, limit: u16::MAX },
                );
            },
        };

        let next = WaitState::new(
            self.dfu,
            State::DfuDnloadIdle,
            DownloadLoop {
                dfu: self.dfu,
                memory_layout: self.memory_layout,
                end_pos: self.end_pos,
                copied_pos,
                erased_pos: self.erased_pos,
                block_num,
                address_set: true,
                eof: bytes.len() == 0,
            },
        );
        let request = ControlWrite {
            request_type: REQUEST_TYPE,
            request: DFU_DNLOAD,
            value: self.block_num,
            payload: slice_to_vec(slice_subrange(bytes, 0, len as usize)),
        };

        Ok((next, request))
    }
}

} // verus!
