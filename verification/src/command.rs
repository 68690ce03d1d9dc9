//! The commands that travel in the data stage of a DNLOAD request.

use vstd::prelude::*;
use vstd::std_specs::convert::FromSpecImpl;

verus! {

/// Opcode of the command that erases a page.
pub const OPCODE_ERASE: u8 = 0x41;

/// Opcode of the command that sets the address.
pub const OPCODE_SET_ADDRESS: u8 = 0x21;

/// The five bytes of a command: the opcode, then the address with the least
/// significant byte first.
pub open spec fn command_bytes(opcode: u8, address: u32) -> Seq<u8> {
    seq![
        opcode,
        (address % 256) as u8,
        ((address / 256) % 256) as u8,
        ((address / 65536) % 256) as u8,
        (address / 16777216) as u8,
    ]
}

/// The address that the last four bytes of a command stand for.
pub open spec fn command_address(bytes: Seq<u8>) -> int
    recommends
        bytes.len() == 5,
{
    bytes[1] + 256 * bytes[2] + 65536 * bytes[3] + 16777216 * bytes[4]
}

/// The bytes of a command give its address back.
pub proof fn lemma_command_address(opcode: u8, address: u32)
    ensures
        command_bytes(opcode, address).len() == 5,
        command_bytes(opcode, address)[0] == opcode,
        command_address(command_bytes(opcode, address)) == address,
{
}

fn encode(opcode: u8, address: u32) -> (buffer: [u8; 5])
    ensures
        buffer@ == command_bytes(opcode, address),
{
    let buffer: [u8; 5] = [
        opcode,
        (address % 256) as u8,
        ((address / 256) % 256) as u8,
        ((address / 65536) % 256) as u8,
        (address / 16777216) as u8,
    ];
    assert(buffer@ =~= command_bytes(opcode, address));
    buffer
}

/// Download command to erase a memory page.
#[derive(Debug, Clone, Copy)]
pub struct DownloadCommandErase(u32);

impl DownloadCommandErase {
    /// Address of the page to erase.
    pub closed spec fn address(self) -> u32 {
        self.0
    }

    /// Makes the command that erases the page at `address`.
    pub fn new(address: u32) -> (command: Self)
        ensures
            command.address() == address,
    {
        DownloadCommandErase(address)
    }
}

/// Download command to set the address.
#[derive(Debug, Clone, Copy)]
pub struct DownloadCommandSetAddress(u32);

impl DownloadCommandSetAddress {
    /// Address to write to.
    pub closed spec fn address(self) -> u32 {
        self.0
    }

    /// Makes the command that sets the address to `address`.
    pub fn new(address: u32) -> (command: Self)
        ensures
            command.address() == address,
    {
        DownloadCommandSetAddress(address)
    }
}

/// The five bytes of a command as an array.
pub open spec fn command_array(opcode: u8, address: u32) -> [u8; 5] {
    [
        opcode,
        (address % 256) as u8,
        ((address / 256) % 256) as u8,
        ((address / 65536) % 256) as u8,
        (address / 16777216) as u8,
    ]
}

/// The array of a command holds the bytes of the command.
pub proof fn lemma_command_array(opcode: u8, address: u32)
    ensures
        command_array(opcode, address)@ == command_bytes(opcode, address),
{
    assert(command_array(opcode, address)@ =~= command_bytes(opcode, address));
}

impl From<DownloadCommandErase> for [u8; 5] {
    fn from(command: DownloadCommandErase) -> (buffer: Self) {
        let buffer = encode(OPCODE_ERASE, command.0);
        proof {
            lemma_command_array(OPCODE_ERASE, command.address());
            assert(buffer =~= command_array(OPCODE_ERASE, command.address()));
        }
        buffer
    }
}

impl FromSpecImpl<DownloadCommandErase> for [u8; 5] {
    open spec fn obeys_from_spec() -> bool {
        true
    }

    open spec fn from_spec(command: DownloadCommandErase) -> Self {
        command_array(OPCODE_ERASE, command.address())
    }
}

impl From<DownloadCommandSetAddress> for [u8; 5] {
    fn from(command: DownloadCommandSetAddress) -> (buffer: Self) {
        let buffer = encode(OPCODE_SET_ADDRESS, command.0);
        proof {
            lemma_command_array(OPCODE_SET_ADDRESS, command.address());
            assert(buffer =~= command_array(OPCODE_SET_ADDRESS, command.address()));
        }
        buffer
    }
}

impl FromSpecImpl<DownloadCommandSetAddress> for [u8; 5] {
    open spec fn obeys_from_spec() -> bool {
        true
    }

    open spec fn from_spec(command: DownloadCommandSetAddress) -> Self {
        command_array(OPCODE_SET_ADDRESS, command.address())
    }
}

} // verus!
