//! Values exchanged with the cryptographic service engine.

use vstd::prelude::*;

verus! {

/// Represents the result of the execution of a command. Provides one bit for each error code as
/// in the SHE standard.
#[derive(Clone, Copy, Debug, PartialEq, Eq, Structural)]
pub enum CommandResult {
    NoError,
    SequenceError,
    KeyNotAvailable,
    KeyInvalid,
    KeyEmpty,
    NoSecureBoot,
    KeyWriteProtected,
    KeyUpdateError,
    RngSeed,
    NoDebugging,
    MemoryFailure,
    GeneralError,
}

/// The status bit of each command result.
pub open spec fn result_bit(c: CommandResult) -> u16 {
    match c {
        CommandResult::NoError => 0x1,
        CommandResult::SequenceError => 0x2,
        CommandResult::KeyNotAvailable => 0x4,
        CommandResult::KeyInvalid => 0x8,
        CommandResult::KeyEmpty => 0x10,
        CommandResult::NoSecureBoot => 0x20,
        CommandResult::KeyWriteProtected => 0x40,
        CommandResult::KeyUpdateError => 0x80,
        CommandResult::RngSeed => 0x100,
        CommandResult::NoDebugging => 0x200,
        CommandResult::MemoryFailure => 0x400,
        CommandResult::GeneralError => 0x800,
    }
}

/// `value` is exactly one of the twelve status bits.
pub open spec fn status_bit(value: u16) -> bool {
    value == 0x1 || value == 0x2 || value == 0x4 || value == 0x8 || value == 0x10 || value == 0x20
        || value == 0x40 || value == 0x80 || value == 0x100 || value == 0x200 || value == 0x400
        || value == 0x800
}

impl CommandResult {
    /// Whether `value` is exactly one of the twelve status bits.
    pub fn is_status_bit(value: u16) -> (r: bool)
        ensures
            r == status_bit(value),
    {
        value == 0x1 || value == 0x2 || value == 0x4 || value == 0x8 || value == 0x10 || value
            == 0x20 || value == 0x40 || value == 0x80 || value == 0x100 || value == 0x200 || value
            == 0x400 || value == 0x800
    }

    /// The command result whose status bit is `value`; any other value is a
    /// fault of the engine and left out.
    pub fn from_u16(value: u16) -> (r: CommandResult)
        requires
            status_bit(value),
        ensures
            result_bit(r) == value,
    {
        match value {
            0x1 => CommandResult::NoError,
            0x2 => CommandResult::SequenceError,
            0x4 => CommandResult::KeyNotAvailable,
            0x8 => CommandResult::KeyInvalid,
            0x10 => CommandResult::KeyEmpty,
            0x20 => CommandResult::NoSecureBoot,
            0x40 => CommandResult::KeyWriteProtected,
            0x80 => CommandResult::KeyUpdateError,
            0x100 => CommandResult::RngSeed,
            0x200 => CommandResult::NoDebugging,
            0x400 => CommandResult::MemoryFailure,
            _ => CommandResult::GeneralError,
        }
    }

    /// The status bit of this result.
    pub fn to_u16(&self) -> (r: u16)
        ensures
            r == result_bit(*self),
    {
        match self {
            CommandResult::NoError => 0x1,
            CommandResult::SequenceError => 0x2,
            CommandResult::KeyNotAvailable => 0x4,
            CommandResult::KeyInvalid => 0x8,
            CommandResult::KeyEmpty => 0x10,
            CommandResult::NoSecureBoot => 0x20,
            CommandResult::KeyWriteProtected => 0x40,
            CommandResult::KeyUpdateError => 0x80,
            CommandResult::RngSeed => 0x100,
            CommandResult::NoDebugging => 0x200,
            CommandResult::MemoryFailure => 0x400,
            CommandResult::GeneralError => 0x800,
        }
    }
}

/// The four bytes of a word, most significant first.
pub fn u8_be_array_from_u32(x: u32) -> (r: [u8; 4])
    ensures
        r@[0] == ((x >> 24u32) & 0xffu32) as u8,
        r@[1] == ((x >> 16u32) & 0xffu32) as u8,
        r@[2] == ((x >> 8u32) & 0xffu32) as u8,
        r@[3] == (x & 0xffu32) as u8,
        r@[0] as u32 * 0x0100_0000 + r@[1] as u32 * 0x1_0000 + r@[2] as u32 * 0x100 + r@[3] as u32
            == x,
{
    let b0 = ((x >> 24) & 0xff) as u8;
    let b1 = ((x >> 16) & 0xff) as u8;
    let b2 = ((x >> 8) & 0xff) as u8;
    let b3 = (x & 0xff) as u8;
    assert(b0 as u32 * 0x0100_0000 + b1 as u32 * 0x1_0000 + b2 as u32 * 0x100 + b3 as u32 == x)
        by (bit_vector)
        requires
            b0 == ((x >> 24u32) & 0xffu32) as u8,
            b1 == ((x >> 16u32) & 0xffu32) as u8,
            b2 == ((x >> 8u32) & 0xffu32) as u8,
            b3 == (x & 0xffu32) as u8,
    ;
    [b0, b1, b2, b3]
}

/// CSEc commands, numbered as the SHE standard numbers them.
#[derive(Clone, Copy, Debug, PartialEq, Eq, Structural)]
pub enum Command {
    EncEcb,
    EncCbc,
    DecEcb,
    DecCbc,
    GenerateMac,
    VerifyMac,
    LoadKey,
    LoadPlainKey,
    ExportRamKey,
    InitRng,
    ExtendSeed,
    Rng,
    Reserved1,
    BootFailure,
    BootOk,
    GetId,
    BootDefine,
    DbgChal,
    DbgAuth,
    Reserved2,
    Reserved3,
    MPCompress,
}

/// The commands this driver issues.
pub open spec fn implemented(cmd: Command) -> bool {
    matches!(cmd, Command::InitRng | Command::Rng | Command::LoadPlainKey | Command::EncCbc
        | Command::DecCbc | Command::GenerateMac | Command::VerifyMac)
}

pub open spec fn command_code(cmd: Command) -> u8 {
    match cmd {
        Command::EncEcb => 0x01,
        Command::EncCbc => 0x02,
        Command::DecEcb => 0x03,
        Command::DecCbc => 0x04,
        Command::GenerateMac => 0x05,
        Command::VerifyMac => 0x06,
        Command::LoadKey => 0x07,
        Command::LoadPlainKey => 0x08,
        Command::ExportRamKey => 0x09,
        Command::InitRng => 0x0A,
        Command::ExtendSeed => 0x0B,
        Command::Rng => 0x0C,
        Command::Reserved1 => 0x0D,
        Command::BootFailure => 0x0E,
        Command::BootOk => 0x0F,
        Command::GetId => 0x10,
        Command::BootDefine => 0x11,
        Command::DbgChal => 0x12,
        Command::DbgAuth => 0x13,
        Command::Reserved2 => 0x14,
        Command::Reserved3 => 0x15,
        Command::MPCompress => 0x16,
    }
}

impl Command {
    /// Whether this driver issues the command.
    pub fn is_implemented(&self) -> (r: bool)
        ensures
            r == implemented(*self),
    {
        match self {
            Command::InitRng | Command::Rng | Command::LoadPlainKey | Command::EncCbc
            | Command::DecCbc | Command::GenerateMac | Command::VerifyMac => true,
            _ => false,
        }
    }

    pub fn code(&self) -> (r: u8)
        ensures
            r == command_code(*self),
    {
        match self {
            Command::EncEcb => 0x01,
            Command::EncCbc => 0x02,
            Command::DecEcb => 0x03,
            Command::DecCbc => 0x04,
            Command::GenerateMac => 0x05,
            Command::VerifyMac => 0x06,
            Command::LoadKey => 0x07,
            Command::LoadPlainKey => 0x08,
            Command::ExportRamKey => 0x09,
            Command::InitRng => 0x0A,
            Command::ExtendSeed => 0x0B,
            Command::Rng => 0x0C,
            Command::Reserved1 => 0x0D,
            Command::BootFailure => 0x0E,
            Command::BootOk => 0x0F,
            Command::GetId => 0x10,
            Command::BootDefine => 0x11,
            Command::DbgChal => 0x12,
            Command::DbgAuth => 0x13,
            Command::Reserved2 => 0x14,
            Command::Reserved3 => 0x15,
            Command::MPCompress => 0x16,
        }
    }
}

/// Whether the first call of a command sequence, or a following one.
#[derive(Clone, Copy, Debug, PartialEq, Eq, Structural)]
pub enum Sequence {
    First,
    Subsequent,
}

/// Key slots; only the RAM key is used by this driver.
#[derive(Clone, Copy, Debug, PartialEq, Eq, Structural)]
pub enum KeyId {
    SecretKey,
    RamKey,
}

/// The command header, written last to the first PRAM word: command, copy
/// format (0), call sequence and key slot, one byte each.
pub fn command_header(cmd: Command, sequence: Sequence, key: KeyId) -> (r: [u8; 4])
    requires
        implemented(cmd),
    ensures
        r@ == seq![
            command_code(cmd),
            0u8,
            if sequence == Sequence::First { 0u8 } else { 1u8 },
            if key == KeyId::SecretKey { 0u8 } else { 0xFu8 },
        ],
{
    let s: u8 = match sequence {
        Sequence::First => 0,
        Sequence::Subsequent => 1,
    };
    let k: u8 = match key {
        KeyId::SecretKey => 0,
        KeyId::RamKey => 0xF,
    };
    let r = [cmd.code(), 0, s, k];
    assert(r@ =~= seq![command_code(cmd), 0u8, s, k]);
    r
}

pub const PAGE_SIZE_IN_BYTES: usize = 16;
pub const PAGE_1_OFFSET: usize = 16;
pub const PAGE_2_OFFSET: usize = 32;
pub const MAX_PAGES: usize = 7;
pub const PAGE_LENGTH_OFFSET: usize = 14;
pub const ERROR_BITS_OFFSET: usize = 4;
pub const MAC_MESSAGE_LENGTH_OFFSET: usize = 0xc;
pub const MAC_VERIFICATION_BITS_OFFSET: usize = 20;
pub const MAC_LENGTH_OFFSET: usize = 0x8;

/// One command of a sequence: the bytes `start..end` of the data go to the
/// PRAM at `offset`; a MAC to compare goes at `mac_offset`.
#[derive(Clone, Copy, Debug, PartialEq, Eq, Structural)]
pub struct Round {
    pub offset: usize,
    pub start: usize,
    pub end: usize,
    pub sequence: Sequence,
    pub mac_offset: Option<usize>,
}

/// The rounds cover `0..len` in order, the first is the `First` of the
/// sequence and the others `Subsequent`.
pub open spec fn covers(r: Seq<Round>, len: nat) -> bool {
    &&& r.len() >= 1
    &&& r[0].start == 0
    &&& r.last().end == len
    &&& forall|i: int| 0 <= i < r.len() ==> #[trigger] r[i].start <= r[i].end
    &&& forall|i: int| 0 <= i < r.len() - 1 ==> #[trigger] r[i].end == r[i + 1].start
    &&& forall|i: int| 0 <= i < r.len() ==> (#[trigger] r[i].sequence == Sequence::First <==> i == 0)
}

/// Every round but the last is filled to its capacity, and every round but
/// the first carries data.
pub open spec fn greedy(r: Seq<Round>, first_cap: nat, cap: nat) -> bool {
    &&& forall|i: int|
        0 <= i < r.len() ==> #[trigger] r[i].end - r[i].start <= if i == 0 {
            first_cap
        } else {
            cap
        }
    &&& forall|i: int|
        0 <= i < r.len() - 1 ==> #[trigger] r[i].end - r[i].start == if i == 0 {
            first_cap
        } else {
            cap
        }
    &&& forall|i: int| 0 < i < r.len() ==> #[trigger] r[i].start < r[i].end
}

/// The rounds of an AES-CBC encryption or decryption of `len` bytes: the
/// first round shares the PRAM with the initialisation vector and holds six
/// pages at page 2, the others seven pages at page 1. The length must be a
/// whole number of 16-byte blocks, at most 65535 of them.
pub fn cbc_rounds(len: usize) -> (r: Result<Vec<Round>, CommandResult>)
    ensures
        r is Err <==> (len % 16 != 0 || len / 16 > 0xFFFF),
        r is Err ==> r == Err::<Vec<Round>, CommandResult>(CommandResult::GeneralError),
        r is Ok ==> ({
            let rs = r->Ok_0@;
            &&& covers(rs, len as nat)
            &&& greedy(rs, 96, 112)
            &&& forall|i: int|
                0 <= i < rs.len() ==> #[trigger] rs[i].offset == if i == 0 {
                    PAGE_2_OFFSET
                } else {
                    PAGE_1_OFFSET
                }
            &&& forall|i: int| 0 <= i < rs.len() ==> (#[trigger] rs[i]).mac_offset is None
        }),
{
    if len % 16 != 0 || len / 16 > 0xFFFF {
        return Err(CommandResult::GeneralError);
    }
    let mut rounds: Vec<Round> = Vec::new();
    let mut start: usize = 0;
    let first_bytes: usize = if len < 96 {
        len
    } else {
        96
    };
    rounds.push(
        Round {
            offset: PAGE_2_OFFSET,
            start: 0,
            end: first_bytes,
            sequence: Sequence::First,
            mac_offset: None,
        },
    );
    start = first_bytes;
    while start < len
        invariant
            start <= len,
            rounds@.len() >= 1,
            covers(rounds@, start as nat),
            greedy(rounds@, 96, 112),
            start < len ==> rounds@.last().end - rounds@.last().start == if rounds@.len() == 1 {
                96nat
            } else {
                112nat
            },
            forall|i: int|
                0 <= i < rounds@.len() ==> #[trigger] rounds@[i].offset == if i == 0 {
                    PAGE_2_OFFSET
                } else {
                    PAGE_1_OFFSET
                },
            forall|i: int| 0 <= i < rounds@.len() ==> (#[trigger] rounds@[i]).mac_offset is None,
        decreases len - start,
    {
        let bytes: usize = if len - start < 112 {
            len - start
        } else {
            112
        };
        let ghost old_rounds = rounds@;
        rounds.push(
            Round {
                offset: PAGE_1_OFFSET,
                start,
                end: start + bytes,
                sequence: Sequence::Subsequent,
                mac_offset: None,
            },
        );
        start = start + bytes;
        proof {
            assert(rounds@.last() == rounds@[rounds@.len() - 1]);
            assert(old_rounds.last() == old_rounds[old_rounds.len() - 1]);
        }
    }
    Ok(rounds)
}

/// Most message bytes one MAC command takes: seven pages.
pub const MAC_ROUND_BYTES: usize = 112;

/// The rounds of a MAC generation over `len` message bytes: seven pages at
/// page 1 each.
pub fn mac_rounds(len: usize) -> (r: Vec<Round>)
    ensures
        covers(r@, len as nat),
        greedy(r@, 112, 112),
        forall|i: int| 0 <= i < r@.len() ==> #[trigger] r@[i].offset == PAGE_1_OFFSET,
        forall|i: int| 0 <= i < r@.len() ==> (#[trigger] r@[i]).mac_offset is None,
{
    let mut rounds: Vec<Round> = Vec::new();
    let first_bytes: usize = if len < MAC_ROUND_BYTES {
        len
    } else {
        MAC_ROUND_BYTES
    };
    rounds.push(
        Round {
            offset: PAGE_1_OFFSET,
            start: 0,
            end: first_bytes,
            sequence: Sequence::First,
            mac_offset: None,
        },
    );
    let mut start: usize = first_bytes;
    while start < len
        invariant
            start <= len,
            rounds@.len() >= 1,
            covers(rounds@, start as nat),
            greedy(rounds@, 112, 112),
            start < len ==> rounds@.last().end - rounds@.last().start == 112,
            forall|i: int| 0 <= i < rounds@.len() ==> #[trigger] rounds@[i].offset == PAGE_1_OFFSET,
            forall|i: int| 0 <= i < rounds@.len() ==> (#[trigger] rounds@[i]).mac_offset is None,
        decreases len - start,
    {
        let bytes: usize = if len - start < MAC_ROUND_BYTES {
            len - start
        } else {
            MAC_ROUND_BYTES
        };
        let ghost old_rounds = rounds@;
        rounds.push(
            Round {
                offset: PAGE_1_OFFSET,
                start,
                end: start + bytes,
                sequence: Sequence::Subsequent,
                mac_offset: None,
            },
        );
        start = start + bytes;
        proof {
            assert(rounds@.last() == rounds@[rounds@.len() - 1]);
            assert(old_rounds.last() == old_rounds[old_rounds.len() - 1]);
        }
    }
    rounds
}

/// The page after `bytes` message bytes written at page 1, rounded up.
pub open spec fn next_page(bytes: int) -> int {
    (PAGE_1_OFFSET + bytes + PAGE_SIZE_IN_BYTES - 1) / PAGE_SIZE_IN_BYTES as int
}

/// The rounds of a MAC verification over `len` message bytes, `len` from 1.
/// The message goes in seven-page rounds at page 1 as for a generation; the
/// MAC to compare goes on the page after the last message bytes if that is
/// below page 7 (at most 80 bytes in the last round), and otherwise on
/// page 1 of one more round without message bytes.
pub fn verify_mac_rounds(len: usize) -> (r: Vec<Round>)
    requires
        len > 0,
    ensures
        covers(r@, len as nat),
        forall|i: int| 0 <= i < r@.len() ==> #[trigger] r@[i].offset == PAGE_1_OFFSET,
        forall|i: int| 0 <= i < r@.len() - 1 ==> (#[trigger] r@[i]).mac_offset is None,
        forall|i: int| 0 <= i < r@.len() - 2 ==> #[trigger] r@[i].end - r@[i].start == 112,
        ({
            let n = r@.len() as int;
            let last = r@[n - 1];
            let size = last.end - last.start;
            ||| (1 <= size <= 80 && (n == 1 || r@[n - 2].end - r@[n - 2].start == 112)
                && last.mac_offset == Some((next_page(size) * 16) as usize))
            ||| (n >= 2 && size == 0 && 81 <= r@[n - 2].end - r@[n - 2].start <= 112
                && last.mac_offset == Some(PAGE_1_OFFSET))
        }),
{
    let mut rounds = mac_rounds(len);
    let n = rounds.len();
    let last = rounds[n - 1];
    let bytes = last.end - last.start;
    let page = (PAGE_1_OFFSET + bytes + PAGE_SIZE_IN_BYTES - 1) / PAGE_SIZE_IN_BYTES;
    proof {
        assert(rounds@.last() == rounds@[n - 1]);
        if n > 1 {
            assert(rounds@[n - 1].start < rounds@[n - 1].end);
        }
    }
    if page < MAX_PAGES {
        rounds.set(n - 1, Round { mac_offset: Some(page * PAGE_SIZE_IN_BYTES), ..last });
        proof {
            assert(rounds@.last() == rounds@[n - 1]);
        }
    } else {
        rounds.push(
            Round {
                offset: PAGE_1_OFFSET,
                start: len,
                end: len,
                sequence: Sequence::Subsequent,
                mac_offset: Some(PAGE_1_OFFSET),
            },
        );
        proof {
            assert(rounds@.last() == rounds@[n as int]);
        }
    }
    rounds
}

/// The number of pages an AES-CBC command is told to process: the blocks of
/// the buffer, at least one.
pub fn cbc_page_count(len: usize) -> (r: u16)
    requires
        len / 16 <= 0xFFFF,
    ensures
        r == if len / 16 == 0 {
            1
        } else {
            len / 16
        },
{
    if len / 16 == 0 {
        1
    } else {
        (len / 16) as u16
    }
}

/// The length of a message in bits, for a MAC command; longer messages are
/// refused.
pub fn mac_length_bits(len: usize) -> (r: Result<u32, CommandResult>)
    ensures
        r is Ok <==> len * 8 <= u32::MAX,
        r is Ok ==> r->Ok_0 == len * 8,
        r is Err ==> r == Err::<u32, CommandResult>(CommandResult::GeneralError),
{
    if len > (u32::MAX / 8) as usize {
        Err(CommandResult::GeneralError)
    } else {
        Ok((len * 8) as u32)
    }
}

/// The byte at a PRAM byte offset within its page.
pub fn byte_in_page(page: [u8; 4], offset: usize) -> (r: u8)
    ensures
        r == page@[(offset % 4) as int],
{
    page[offset % 4]
}

/// The page with the byte at a PRAM byte offset replaced.
pub fn page_with_byte(page: [u8; 4], offset: usize, byte: u8) -> (r: [u8; 4])
    ensures
        r@ == page@.update((offset % 4) as int, byte),
{
    let mut r = page;
    r.set(offset % 4, byte);
    r
}

/// The big-endian halfword at a 16-bit aligned PRAM offset within its page.
pub fn halfword_in_page(page: [u8; 4], offset: usize) -> (r: u16)
    ensures
        r == page@[if offset % 4 >= 2 { 2int } else { 0int }] as int * 256 + page@[if offset % 4
            >= 2 {
            3int
        } else {
            1int
        }] as int,
{
    let i: usize = if offset % 4 >= 2 {
        2
    } else {
        0
    };
    let hi = page[i] as u16;
    let lo = page[i + 1] as u16;
    assert(hi * 256 + lo <= 0xFFFF) by (nonlinear_arith)
        requires
            hi < 256,
            lo < 256,
    ;
    hi * 256 + lo
}

/// The page with the big-endian halfword at a 16-bit aligned PRAM offset
/// replaced.
pub fn page_with_halfword(page: [u8; 4], offset: usize, halfword: u16) -> (r: [u8; 4])
    ensures
        ({
            let i: int = if offset % 4 >= 2 {
                2
            } else {
                0
            };
            r@ == page@.update(i, (halfword / 256) as u8).update(i + 1, (halfword % 256) as u8)
        }),
{
    let i: usize = if offset % 4 >= 2 {
        2
    } else {
        0
    };
    let mut r = page;
    r.set(i, (halfword / 256) as u8);
    r.set(i + 1, (halfword % 256) as u8);
    r
}

} // verus!
