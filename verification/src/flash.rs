//! A stateful SPI NOR flash emulator.
//!
//! The programmer drives the bus as a write of command bytes followed by a
//! read of the response. Each write decodes the opcode and arms the response
//! that the following reads serve.

use core::convert::Infallible;
use vstd::prelude::*;

verus! {

/// Winbond W25Q128FV JEDEC ID (manufacturer, then the two device bytes).
pub const JEDEC_ID: [u8; 3] = [0xEF, 0x40, 0x18];

/// RDID: read the JEDEC ID.
pub const OP_READ_ID: u8 = 0x9F;

/// RDSR: read the status register.
pub const OP_READ_STATUS: u8 = 0x05;

/// WREN: set the write enable latch.
pub const OP_WRITE_ENABLE: u8 = 0x06;

/// WRDI: clear the write enable latch.
pub const OP_WRITE_DISABLE: u8 = 0x04;

/// READ: read memory.
pub const OP_READ: u8 = 0x03;

/// FAST_READ: read memory; served exactly as READ.
pub const OP_FAST_READ: u8 = 0x0B;

/// PP: program bytes.
pub const OP_PAGE_PROGRAM: u8 = 0x02;

/// SE: erase one sector.
pub const OP_SECTOR_ERASE: u8 = 0x20;

/// CE: erase the whole chip.
pub const OP_CHIP_ERASE: u8 = 0xC7;

/// CE, second encoding.
pub const OP_CHIP_ERASE_ALT: u8 = 0x60;

/// What an erased byte, and a byte that nothing drives, reads as.
pub const ERASED: u8 = 0xFF;

/// Bytes in one erase sector.
pub const SECTOR_SIZE: usize = 4096;

/// Bytes in front of the payload of an addressed command: opcode and address.
pub const HEADER_LEN: usize = 4;

/// Which response the next reads serve, armed by the last write.
#[derive(Clone, Copy)]
pub enum ReadMode {
    /// Nothing drives the bus.
    Idle,
    /// The JEDEC ID.
    Jedec,
    /// The status register, over and over.
    Status,
    /// Memory from this address on.
    Memory(usize),
}

/// A command, as the bytes of one write spell it.
pub enum Command {
    ReadId,
    ReadStatus,
    WriteEnable,
    WriteDisable,
    Read { addr: int },
    Program { addr: int, bytes: Seq<u8> },
    EraseSector { addr: int },
    EraseChip,
    Unknown,
}

/// The three-byte big-endian address behind the opcode.
pub open spec fn address(words: Seq<u8>) -> int {
    words[1] * 0x1_0000 + words[2] * 0x100 + words[3]
}

/// The command that `words` spells.
pub open spec fn decode(words: Seq<u8>) -> Command {
    if words.len() == 0 {
        Command::Unknown
    } else if words[0] == OP_READ_ID {
        Command::ReadId
    } else if words[0] == OP_READ_STATUS {
        Command::ReadStatus
    } else if words[0] == OP_WRITE_ENABLE {
        Command::WriteEnable
    } else if words[0] == OP_WRITE_DISABLE {
        Command::WriteDisable
    } else if words[0] == OP_READ || words[0] == OP_FAST_READ {
        Command::Read { addr: address(words) }
    } else if words[0] == OP_PAGE_PROGRAM {
        Command::Program { addr: address(words), bytes: words.skip(HEADER_LEN as int) }
    } else if words[0] == OP_SECTOR_ERASE {
        Command::EraseSector { addr: address(words) }
    } else if words[0] == OP_CHIP_ERASE || words[0] == OP_CHIP_ERASE_ALT {
        Command::EraseChip
    } else {
        Command::Unknown
    }
}

/// The first address of the sector that `addr` lies in.
pub open spec fn sector_start(addr: int) -> int {
    addr - addr % (SECTOR_SIZE as int)
}

/// `memory` after programming `bytes` at `addr`: flash can only clear bits.
pub open spec fn programmed(memory: Seq<u8>, addr: int, bytes: Seq<u8>) -> Seq<u8> {
    Seq::new(
        memory.len(),
        |i: int|
            if addr <= i < addr + bytes.len() {
                memory[i] & bytes[i - addr]
            } else {
                memory[i]
            },
    )
}

/// `memory` with the bytes from `from` up to `to` erased.
pub open spec fn erased(memory: Seq<u8>, from: int, to: int) -> Seq<u8> {
    Seq::new(
        memory.len(),
        |i: int|
            if from <= i < to {
                ERASED
            } else {
                memory[i]
            },
    )
}

/// The chip as a client of the bus knows it.
#[verifier::ext_equal]
pub struct FlashState {
    /// The memory array.
    pub memory: Seq<u8>,
    /// The status register.
    pub status: u8,
    /// The write enable latch.
    pub write_enabled: bool,
    /// What the next reads serve.
    pub read_mode: ReadMode,
    /// How many bytes were read since the last write.
    pub cursor: nat,
}

impl FlashState {
    /// A chip of `size` erased bytes at power-up.
    pub open spec fn fresh(size: nat) -> FlashState {
        FlashState {
            memory: Seq::new(size, |i: int| ERASED),
            status: 0,
            write_enabled: false,
            read_mode: ReadMode::Idle,
            cursor: 0,
        }
    }

    /// What holds of every state that a chip reaches: it is never busy or
    /// protected, and a memory read starts at a three-byte address.
    pub open spec fn wf(self) -> bool {
        &&& self.status == 0
        &&& self.read_mode matches ReadMode::Memory(base) ==> base < 0x100_0000
    }

    /// The byte at position `k` of the armed response.
    pub open spec fn response_byte(self, k: int) -> u8 {
        match self.read_mode {
            ReadMode::Idle => ERASED,
            ReadMode::Jedec => if k < JEDEC_ID@.len() {
                JEDEC_ID@[k]
            } else {
                ERASED
            },
            ReadMode::Status => self.status,
            ReadMode::Memory(base) => if base + k < self.memory.len() {
                self.memory[base + k]
            } else {
                ERASED
            },
        }
    }

    /// The next `n` bytes of the armed response.
    pub open spec fn response(self, n: nat) -> Seq<u8> {
        Seq::new(n, |i: int| self.response_byte(self.cursor + i))
    }

    /// The chip after a read of `n` bytes.
    pub open spec fn after_read(self, n: nat) -> FlashState {
        FlashState { cursor: self.cursor + n, ..self }
    }

    /// The chip after a write of `words`.
    pub open spec fn after_write(self, words: Seq<u8>) -> FlashState {
        let s = FlashState { cursor: 0, ..self };
        let idle = FlashState { read_mode: ReadMode::Idle, ..s };
        match decode(words) {
            Command::ReadId => FlashState { read_mode: ReadMode::Jedec, ..s },
            Command::ReadStatus => FlashState { read_mode: ReadMode::Status, ..s },
            Command::WriteEnable => FlashState { write_enabled: true, ..s },
            Command::WriteDisable => FlashState { write_enabled: false, ..s },
            Command::Read { addr } => FlashState {
                read_mode: ReadMode::Memory(addr as usize),
                ..s
            },
            Command::Program { addr, bytes } => if self.write_enabled {
                FlashState {
                    memory: programmed(self.memory, addr, bytes),
                    write_enabled: false,
                    ..idle
                }
            } else {
                idle
            },
            Command::EraseSector { addr } => if self.write_enabled {
                FlashState {
                    memory: erased(
                        self.memory,
                        sector_start(addr),
                        sector_start(addr) + SECTOR_SIZE,
                    ),
                    write_enabled: false,
                    ..idle
                }
            } else {
                idle
            },
            Command::EraseChip => if self.write_enabled {
                FlashState {
                    memory: erased(self.memory, 0, self.memory.len() as int),
                    write_enabled: false,
                    ..idle
                }
            } else {
                idle
            },
            Command::Unknown => idle,
        }
    }

    /// Whether a read of `n` bytes keeps every position countable.
    pub open spec fn can_read(self, n: nat) -> bool {
        &&& self.cursor + n <= usize::MAX
        &&& self.read_mode matches ReadMode::Memory(base) ==> n > 0 ==> base + self.cursor + n - 1
            <= usize::MAX
    }

    /// Whether `words` holds what its command needs and stays inside the
    /// memory where the command changes it.
    pub open spec fn can_write(self, words: Seq<u8>) -> bool {
        match decode(words) {
            Command::Read { addr } => words.len() >= HEADER_LEN,
            Command::Program { addr, bytes } => self.write_enabled ==> {
                &&& words.len() >= HEADER_LEN
                &&& bytes.len() > 0 ==> addr + bytes.len() <= self.memory.len()
            },
            Command::EraseSector { addr } => self.write_enabled ==> {
                &&& words.len() >= HEADER_LEN
                &&& sector_start(addr) + SECTOR_SIZE <= self.memory.len()
            },
            _ => true,
        }
    }
}

/// A stateful SPI NOR flash chip.
pub struct FlashChip {
    data: Vec<u8>,
    status: u8,
    write_enabled: bool,
    read_mode: ReadMode,
    read_cursor: usize,
}

impl View for FlashChip {
    type V = FlashState;

    closed spec fn view(&self) -> FlashState {
        FlashState {
            memory: self.data@,
            status: self.status,
            write_enabled: self.write_enabled,
            read_mode: self.read_mode,
            cursor: self.read_cursor as nat,
        }
    }
}

impl FlashChip {
    /// What every chip keeps.
    pub open spec fn wf(&self) -> bool {
        self@.wf()
    }

    /// A chip of `size` erased bytes.
    pub fn new(size: usize) -> (chip: FlashChip)
        ensures
            chip.wf(),
            chip@ == FlashState::fresh(size as nat),
    {
        let chip = FlashChip {
            data: vec![ERASED; size],
            status: 0,
            write_enabled: false,
            read_mode: ReadMode::Idle,
            read_cursor: 0,
        };
        assert(chip@.memory =~= FlashState::fresh(size as nat).memory);
        chip
    }

    /// The three-byte big-endian address behind the opcode.
    pub fn addr3(words: &[u8]) -> (addr: usize)
        requires
            words@.len() >= HEADER_LEN,
        ensures
            addr == address(words@),
            addr < 0x100_0000,
    {
        let (a, b, c): (u8, u8, u8) = (words[1], words[2], words[3]);
        assert(((a as usize) << 16 | (b as usize) << 8 | (c as usize)) == a * 0x1_0000 + b * 0x100
            + c) by (bit_vector);
        (a as usize) << 16 | (b as usize) << 8 | c as usize
    }

    /// Whether a read of `n` bytes keeps every position countable.
    pub fn accepts_read(&self, n: usize) -> (ok: bool)
        ensures
            ok == self@.can_read(n as nat),
    {
        if n > usize::MAX - self.read_cursor {
            return false;
        }
        match self.read_mode {
            ReadMode::Memory(base) => n == 0 || base <= usize::MAX - (self.read_cursor + n - 1),
            _ => true,
        }
    }

    /// Whether `words` holds what its command needs and stays inside the
    /// memory where the command changes it.
    pub fn accepts_write(&self, words: &[u8]) -> (ok: bool)
        ensures
            ok == self@.can_write(words@),
    {
        if words.len() == 0 {
            return true;
        }
        let opcode: u8 = words[0];
        if opcode == OP_READ || opcode == OP_FAST_READ {
            words.len() >= HEADER_LEN
        } else if opcode == OP_PAGE_PROGRAM && self.write_enabled {
            words.len() >= HEADER_LEN && (words.len() == HEADER_LEN || (words.len() - HEADER_LEN
                <= self.data.len() && FlashChip::addr3(words) <= self.data.len() - (words.len()
                - HEADER_LEN)))
        } else if opcode == OP_SECTOR_ERASE && self.write_enabled {
            words.len() >= HEADER_LEN && self.data.len() >= SECTOR_SIZE && FlashChip::addr3(words)
                / SECTOR_SIZE * SECTOR_SIZE <= self.data.len() - SECTOR_SIZE
        } else {
            true
        }
    }

    /// Serves the next `words.len()` bytes of the response that the last
    /// write armed.
    pub fn read(&mut self, words: &mut [u8]) -> (result: Result<(), Infallible>)
        requires
            old(self).wf(),
            old(self)@.can_read(old(words)@.len()),
        ensures
            final(self).wf(),
            result is Ok,
            final(words)@ == old(self)@.response(old(words)@.len()),
            final(self)@ == old(self)@.after_read(old(words)@.len()),
    {
        let ghost start = self@;
        let len: usize = words.len();
        let mut i: usize = 0;
        while i < len
            invariant
                i <= len,
                len == words@.len(),
                start.can_read(len as nat),
                self@ == start.after_read(i as nat),
                forall|j: int| 0 <= j < i ==> words@[j] == start.response_byte(start.cursor + j),
            decreases len - i,
        {
            let word: u8 = match self.read_mode {
                ReadMode::Jedec => if self.read_cursor < JEDEC_ID.len() {
                    JEDEC_ID[self.read_cursor]
                } else {
                    ERASED
                },
                ReadMode::Status => self.status,
                ReadMode::Memory(base) => if base + self.read_cursor < self.data.len() {
                    self.data[base + self.read_cursor]
                } else {
                    ERASED
                },
                ReadMode::Idle => ERASED,
            };
            words[i] = word;
            self.read_cursor = self.read_cursor + 1;
            i = i + 1;
        }
        assert(words@ =~= start.response(len as nat));
        Ok(())
    }

    /// Clears, from `addr` on, every bit that is clear in `words` behind its
    /// header.
    fn program(&mut self, addr: usize, words: &[u8])
        requires
            words@.len() >= HEADER_LEN,
            words@.len() > HEADER_LEN ==> addr + words@.len() - HEADER_LEN
                <= old(self)@.memory.len(),
        ensures
            final(self)@ == (FlashState {
                memory: programmed(old(self)@.memory, addr as int, words@.skip(HEADER_LEN as int)),
                ..old(self)@
            }),
    {
        let ghost start = self@;
        let ghost bytes = words@.skip(HEADER_LEN as int);
        let len: usize = words.len() - HEADER_LEN;
        let mut i: usize = 0;
        assert(self.data.len() == start.memory.len());
        while i < len
            invariant
                i <= len,
                len == bytes.len(),
                words@.len() == len + HEADER_LEN <= usize::MAX,
                start.memory.len() <= usize::MAX,
                bytes == words@.skip(HEADER_LEN as int),
                len > 0 ==> addr + len <= start.memory.len(),
                self@ == (FlashState { memory: self@.memory, ..start }),
                self@.memory =~= programmed(start.memory, addr as int, bytes.take(i as int)),
            decreases len - i,
        {
            let byte: u8 = self.data[addr + i] & words[HEADER_LEN + i];
            self.data.set(addr + i, byte);
            i = i + 1;
        }
        assert(bytes.take(len as int) =~= bytes);
    }

    /// Erases the bytes from `from` up to `to`.
    fn erase(&mut self, from: usize, to: usize)
        requires
            from <= to <= old(self)@.memory.len(),
        ensures
            final(self)@ == (FlashState {
                memory: erased(old(self)@.memory, from as int, to as int),
                ..old(self)@
            }),
    {
        let ghost start = self@;
        let mut i: usize = from;
        while i < to
            invariant
                from <= i <= to <= start.memory.len(),
                self@ == (FlashState { memory: self@.memory, ..start }),
                self@.memory =~= erased(start.memory, from as int, i as int),
            decreases to - i,
        {
            self.data.set(i, ERASED);
            i = i + 1;
        }
    }

    /// Takes one command: carries out what it changes, and arms the response
    /// that the next reads serve.
    pub fn write(&mut self, words: &[u8]) -> (result: Result<(), Infallible>)
        requires
            old(self).wf(),
            old(self)@.can_write(words@),
        ensures
            final(self).wf(),
            result is Ok,
            final(self)@ == old(self)@.after_write(words@),
    {
        self.read_cursor = 0;
        if words.len() == 0 {
            self.read_mode = ReadMode::Idle;
            return Ok(());
        }
        let opcode: u8 = words[0];
        if opcode == OP_READ_ID {
            self.read_mode = ReadMode::Jedec;
        } else if opcode == OP_READ_STATUS {
            self.read_mode = ReadMode::Status;
        } else if opcode == OP_WRITE_ENABLE {
            self.write_enabled = true;
        } else if opcode == OP_WRITE_DISABLE {
            self.write_enabled = false;
        } else if opcode == OP_READ || opcode == OP_FAST_READ {
            self.read_mode = ReadMode::Memory(FlashChip::addr3(words));
        } else if opcode == OP_PAGE_PROGRAM && self.write_enabled {
            let addr: usize = FlashChip::addr3(words);
            self.program(addr, words);
            self.write_enabled = false;
            self.read_mode = ReadMode::Idle;
        } else if opcode == OP_SECTOR_ERASE && self.write_enabled {
            let addr: usize = FlashChip::addr3(words);
            let start: usize = addr & !(SECTOR_SIZE - 1);
            assert(addr & !((4096 - 1) as usize) == addr - addr % 4096) by (bit_vector);
            self.erase(start, start + SECTOR_SIZE);
            self.write_enabled = false;
            self.read_mode = ReadMode::Idle;
        } else if (opcode == OP_CHIP_ERASE || opcode == OP_CHIP_ERASE_ALT) && self.write_enabled {
            let size: usize = self.data.len();
            self.erase(0, size);
            self.write_enabled = false;
            self.read_mode = ReadMode::Idle;
        } else {
            self.read_mode = ReadMode::Idle;
        }
        Ok(())
    }

    /// A write, then a read of the response.
    pub fn transfer(&mut self, read: &mut [u8], write: &[u8]) -> (result: Result<(), Infallible>)
        requires
            old(self).wf(),
            old(self)@.can_write(write@),
            old(self)@.after_write(write@).can_read(old(read)@.len()),
        ensures
            final(self).wf(),
            result is Ok,
            final(read)@ == old(self)@.after_write(write@).response(old(read)@.len()),
            final(self)@ == old(self)@.after_write(write@).after_read(old(read)@.len()),
    {
        self.write(write)?;
        self.read(read)?;
        Ok(())
    }

    /// A read alone: what `words` held is not sent.
    pub fn transfer_in_place(&mut self, words: &mut [u8]) -> (result: Result<(), Infallible>)
        requires
            old(self).wf(),
            old(self)@.can_read(old(words)@.len()),
        ensures
            final(self).wf(),
            result is Ok,
            final(words)@ == old(self)@.response(old(words)@.len()),
            final(self)@ == old(self)@.after_read(old(words)@.len()),
    {
        self.read(words)?;
        Ok(())
    }

    /// Nothing is ever pending.
    pub fn flush(&mut self) -> (result: Result<(), Infallible>)
        ensures
            result is Ok,
            final(self)@ == old(self)@,
    {
        Ok(())
    }

    /// The memory array.
    pub fn data(&self) -> (memory: &[u8])
        ensures
            memory@ == self@.memory,
    {
        self.data.as_slice()
    }
}

} // verus!
