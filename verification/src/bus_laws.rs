//! What the flash chip does, byte for byte on the bus.
//!
//! Every law here speaks of the bytes that are written and read. An address is
//! given as the number whose three base-256 digits, the most significant first,
//! are the bytes behind the opcode.

use crate::flash::{address, FlashState, ReadMode};
use vstd::prelude::*;

verus! {

/// The address of a command is the number whose base-256 digits are the three
/// bytes behind the opcode, the most significant first.
pub proof fn law_address_digits(words: Seq<u8>)
    ensures
        0 <= address(words) < 0x100_0000,
        address(words) / 0x1_0000 == words[1],
        address(words) / 0x100 % 0x100 == words[2],
        address(words) % 0x100 == words[3],
{
}

/// Only one number has given digits.
proof fn lemma_address_is(words: Seq<u8>, addr: int)
    requires
        addr / 0x1_0000 == words[1],
        addr / 0x100 % 0x100 == words[2],
        addr % 0x100 == words[3],
    ensures
        address(words) == addr,
{
}

/// Reads whose address bytes differ are served from different positions, and
/// those whose address bytes agree from the same one, whatever the opcode and
/// whatever follows.
pub proof fn law_reads_are_told_apart_by_address(s: FlashState, a: Seq<u8>, b: Seq<u8>)
    requires
        a.len() >= 4,
        b.len() >= 4,
        a[0] == 0x03 || a[0] == 0x0B,
        b[0] == 0x03 || b[0] == 0x0B,
    ensures
        s.after_write(a).read_mode is Memory,
        s.after_write(b).read_mode is Memory,
        s.after_write(a).read_mode == s.after_write(b).read_mode <==> a[1] == b[1] && a[2] == b[2]
            && a[3] == b[3],
{
    law_address_digits(a);
    law_address_digits(b);
}

/// A new chip has the size asked for. Every byte of it is 0xFF, its latch is
/// clear, its status register is zero, and reads find nothing on the bus.
pub proof fn law_new_chip(size: nat, n: nat)
    ensures
        FlashState::fresh(size).memory.len() == size,
        forall|i: int| 0 <= i < size ==> #[trigger] FlashState::fresh(size).memory[i] == 0xFF,
        !FlashState::fresh(size).write_enabled,
        FlashState::fresh(size).status == 0,
        FlashState::fresh(size).cursor == 0,
        FlashState::fresh(size).read_mode == ReadMode::Idle,
        FlashState::fresh(size).response(n).len() == n,
        forall|i: int|
            0 <= i < n ==> #[trigger] FlashState::fresh(size).response(n)[i] == 0xFF,
{
}

/// A read of `n` bytes gives `n` bytes, moves the position in the response on
/// by as many, and does nothing else.
pub proof fn law_read_moves_on(s: FlashState, n: nat)
    ensures
        s.response(n).len() == n,
        s.after_read(n).cursor == s.cursor + n,
        s.after_read(n).memory == s.memory,
        s.after_read(n).status == s.status,
        s.after_read(n).write_enabled == s.write_enabled,
        s.after_read(n).read_mode == s.read_mode,
{
}

/// 0x02 under the latch: each byte behind the address clears, at its own place
/// from the address on, the bits that are clear in it. However many bytes there
/// are, all of them are programmed, no other byte changes, and the latch is
/// spent.
pub proof fn law_page_program(s: FlashState, words: Seq<u8>, addr: int)
    requires
        s.write_enabled,
        words.len() >= 4,
        words[0] == 0x02,
        addr / 0x1_0000 == words[1],
        addr / 0x100 % 0x100 == words[2],
        addr % 0x100 == words[3],
        words.len() > 4 ==> addr + words.len() - 4 <= s.memory.len(),
    ensures
        s.after_write(words).memory.len() == s.memory.len(),
        forall|i: int|
            0 <= i < words.len() - 4 ==> s.after_write(words).memory[addr + i] == s.memory[addr + i]
                & #[trigger] words[4 + i],
        forall|j: int|
            0 <= j < s.memory.len() && !(addr <= j < addr + words.len() - 4)
                ==> #[trigger] s.after_write(words).memory[j] == s.memory[j],
        !s.after_write(words).write_enabled,
        s.after_write(words).status == s.status,
        s.after_write(words).cursor == 0,
        s.after_write(words).read_mode == ReadMode::Idle,
{
    lemma_address_is(words, addr);
}

/// 0x20 under the latch: the bytes whose address agrees with that of the
/// command but for the last twelve bits turn to 0xFF, no other byte changes,
/// and the latch is spent.
pub proof fn law_sector_erase_on_the_bus(s: FlashState, words: Seq<u8>, addr: int)
    requires
        s.write_enabled,
        words.len() >= 4,
        words[0] == 0x20,
        addr / 0x1_0000 == words[1],
        addr / 0x100 % 0x100 == words[2],
        addr % 0x100 == words[3],
    ensures
        s.after_write(words).memory.len() == s.memory.len(),
        forall|i: int|
            0 <= i < s.memory.len() ==> #[trigger] s.after_write(words).memory[i] == if i / 4096
                == addr / 4096 {
                0xFFu8
            } else {
                s.memory[i]
            },
        !s.after_write(words).write_enabled,
        s.after_write(words).status == s.status,
        s.after_write(words).cursor == 0,
        s.after_write(words).read_mode == ReadMode::Idle,
{
    lemma_address_is(words, addr);
}

/// 0xC7 and 0x60 under the latch: every byte turns to 0xFF, and the latch is
/// spent.
pub proof fn law_chip_erase_on_the_bus(s: FlashState, words: Seq<u8>)
    requires
        s.write_enabled,
        words.len() >= 1,
        words[0] == 0xC7 || words[0] == 0x60,
    ensures
        s.after_write(words).memory.len() == s.memory.len(),
        forall|i: int|
            0 <= i < s.memory.len() ==> #[trigger] s.after_write(words).memory[i] == 0xFF,
        !s.after_write(words).write_enabled,
        s.after_write(words).status == s.status,
        s.after_write(words).cursor == 0,
        s.after_write(words).read_mode == ReadMode::Idle,
{
}

/// 0x02, 0x20, 0xC7 and 0x60 without the latch, every opcode that the chip does
/// not know, and a write of nothing: reads then find 0xFF, and nothing else
/// changes.
pub proof fn law_ignored_write(s: FlashState, words: Seq<u8>, m: nat, n: nat)
    requires
        words.len() == 0 || (words[0] != 0x9F && words[0] != 0x05 && words[0] != 0x06 && words[0]
            != 0x04 && words[0] != 0x03 && words[0] != 0x0B && (s.write_enabled ==> words[0] != 0x02
            && words[0] != 0x20 && words[0] != 0xC7 && words[0] != 0x60)),
    ensures
        s.after_write(words).memory == s.memory,
        s.after_write(words).status == s.status,
        s.after_write(words).write_enabled == s.write_enabled,
        s.after_write(words).cursor == 0,
        s.after_write(words).read_mode == ReadMode::Idle,
        forall|i: int|
            0 <= i < n ==> #[trigger] s.after_write(words).after_read(m).response(n)[i] == 0xFF,
{
}

/// 0x06 sets the latch and 0x04 clears it. Both restart the response that was
/// armed before, and do nothing else.
pub proof fn law_latch_on_the_bus(s: FlashState, words: Seq<u8>)
    requires
        words.len() >= 1,
        words[0] == 0x06 || words[0] == 0x04,
    ensures
        s.after_write(words).write_enabled <==> words[0] == 0x06,
        s.after_write(words).memory == s.memory,
        s.after_write(words).status == s.status,
        s.after_write(words).cursor == 0,
        s.after_write(words).read_mode == s.read_mode,
{
}

/// 0x03 and 0x0B: reads then find the memory from the address on, and 0xFF
/// behind its end, however many bytes were read before. Nothing else changes.
pub proof fn law_read_on_the_bus(s: FlashState, words: Seq<u8>, addr: int, m: nat, n: nat)
    requires
        words.len() >= 4,
        words[0] == 0x03 || words[0] == 0x0B,
        addr / 0x1_0000 == words[1],
        addr / 0x100 % 0x100 == words[2],
        addr % 0x100 == words[3],
    ensures
        forall|i: int|
            0 <= i < n ==> #[trigger] s.after_write(words).after_read(m).response(n)[i] == if addr
                + m + i < s.memory.len() {
                s.memory[addr + m + i]
            } else {
                0xFFu8
            },
        s.after_write(words).read_mode == ReadMode::Memory(addr as usize),
        s.after_write(words).memory == s.memory,
        s.after_write(words).status == s.status,
        s.after_write(words).write_enabled == s.write_enabled,
        s.after_write(words).cursor == 0,
{
    lemma_address_is(words, addr);
}

/// 0x9F: reads then find 0xEF, 0x40, 0x18, and 0xFF from there on, however many
/// bytes were read before. Nothing else changes.
pub proof fn law_read_id_on_the_bus(s: FlashState, words: Seq<u8>, m: nat, n: nat)
    requires
        words.len() >= 1,
        words[0] == 0x9F,
    ensures
        forall|i: int|
            0 <= i < n ==> #[trigger] s.after_write(words).after_read(m).response(n)[i] == if m + i
                == 0 {
                0xEFu8
            } else if m + i == 1 {
                0x40u8
            } else if m + i == 2 {
                0x18u8
            } else {
                0xFFu8
            },
        s.after_write(words).memory == s.memory,
        s.after_write(words).status == s.status,
        s.after_write(words).write_enabled == s.write_enabled,
        s.after_write(words).cursor == 0,
{
}

/// 0x05: reads then find the status register, over and over. Nothing else
/// changes, and no write ever changes the register.
pub proof fn law_read_status_on_the_bus(
    s: FlashState,
    words: Seq<u8>,
    any: Seq<u8>,
    m: nat,
    n: nat,
)
    requires
        words.len() >= 1,
        words[0] == 0x05,
    ensures
        forall|i: int|
            0 <= i < n ==> #[trigger] s.after_write(words).after_read(m).response(n)[i] == s.status,
        s.after_write(words).memory == s.memory,
        s.after_write(words).write_enabled == s.write_enabled,
        s.after_write(words).cursor == 0,
        s.after_write(any).status == s.status,
{
}

/// Bytes that are written behind 0x06 and 0x02 are found by 0x03 and 0x0B at the
/// same address, with the bits clear that were clear before; over memory of 0xFF
/// they are found as they were written. This holds of any number of bytes.
pub proof fn law_written_bytes_are_read_back(
    s: FlashState,
    enable: Seq<u8>,
    program: Seq<u8>,
    read: Seq<u8>,
    addr: int,
    i: int,
)
    requires
        enable.len() >= 1,
        enable[0] == 0x06,
        program.len() > 4,
        program[0] == 0x02,
        addr / 0x1_0000 == program[1],
        addr / 0x100 % 0x100 == program[2],
        addr % 0x100 == program[3],
        addr + program.len() - 4 <= s.memory.len(),
        read.len() >= 4,
        read[0] == 0x03 || read[0] == 0x0B,
        read[1] == program[1],
        read[2] == program[2],
        read[3] == program[3],
        0 <= i < program.len() - 4,
    ensures
        ({
            let found = s.after_write(enable).after_write(program).after_write(read).response(
                (program.len() - 4) as nat,
            );
            &&& found.len() == program.len() - 4
            &&& found[i] == s.memory[addr + i] & program[4 + i]
            &&& s.memory[addr + i] == 0xFF ==> found[i] == program[4 + i]
        }),
{
    let enabled = s.after_write(enable);
    let done = enabled.after_write(program);
    let n = (program.len() - 4) as nat;
    law_latch_on_the_bus(s, enable);
    law_page_program(enabled, program, addr);
    law_read_on_the_bus(done, read, addr, 0, n);
    assert(done.after_write(read).after_read(0) == done.after_write(read));
    assert(done.after_write(read).after_read(0).response(n)[i] == done.memory[addr + i]);
    let b = program[4 + i];
    assert(0xFFu8 & b == b) by (bit_vector);
}

/// Which writes the chip takes: every one but a read that is cut short, and,
/// under the latch, a program or sector erase that is cut short or does not fit
/// the memory.
pub proof fn law_writes_taken(s: FlashState, words: Seq<u8>, addr: int)
    requires
        words.len() >= 4 ==> {
            &&& addr / 0x1_0000 == words[1]
            &&& addr / 0x100 % 0x100 == words[2]
            &&& addr % 0x100 == words[3]
        },
    ensures
        !s.can_write(words) <==> words.len() > 0 && {
            ||| (words[0] == 0x03 || words[0] == 0x0B) && words.len() < 4
            ||| words[0] == 0x02 && s.write_enabled && (words.len() < 4 || (words.len() > 4 && addr
                + words.len() - 4 > s.memory.len()))
            ||| words[0] == 0x20 && s.write_enabled && (words.len() < 4 || addr / 4096 * 4096 + 4096
                > s.memory.len())
        },
{
    if words.len() >= 4 {
        lemma_address_is(words, addr);
    }
}

/// Which reads the chip serves: every one whose positions, in the response and
/// in the memory, can be counted.
pub proof fn law_reads_served(s: FlashState, n: nat)
    ensures
        s.can_read(n) <==> s.cursor + n <= usize::MAX && match s.read_mode {
            ReadMode::Memory(base) => n == 0 || base + s.cursor + (n - 1) <= usize::MAX,
            _ => true,
        },
{
}

} // verus!
