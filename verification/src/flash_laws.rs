//! What holds of every session with the flash chip.

use crate::flash::{
    address, decode, programmed, sector_start, Command, FlashState, ERASED, HEADER_LEN, JEDEC_ID,
    OP_FAST_READ, OP_READ, SECTOR_SIZE,
};
use vstd::prelude::*;

verus! {

/// Whether `command` changes the memory when the latch is set.
pub open spec fn changes_memory(command: Command) -> bool {
    command is Program || command is EraseSector || command is EraseChip
}

/// Every chip starts in a valid state, and every read and every write leads
/// to a valid state with as much memory as before. The status register never
/// leaves zero.
pub proof fn law_states_stay_valid(s: FlashState, words: Seq<u8>, n: nat, size: nat)
    requires
        s.wf(),
    ensures
        FlashState::fresh(size).wf(),
        FlashState::fresh(size).memory.len() == size,
        s.after_write(words).wf(),
        s.after_write(words).memory.len() == s.memory.len(),
        s.after_read(n).wf(),
        s.after_read(n).memory == s.memory,
{
}

/// The bytes of a response do not depend on how the reads are cut, and a read
/// changes nothing but the position in the response.
pub proof fn law_reads_form_one_stream(s: FlashState, m: nat, n: nat)
    ensures
        s.response(m + n) == s.response(m) + s.after_read(m).response(n),
        s.after_read(m).after_read(n) == s.after_read(m + n),
        s.after_read(m) == (FlashState { cursor: s.cursor + m, ..s }),
{
    assert(s.response(m + n) =~= s.response(m) + s.after_read(m).response(n));
}

/// A write restarts the response at its first byte: what was read before does
/// not show in what follows.
pub proof fn law_write_restarts_response(s: FlashState, words: Seq<u8>, n: nat)
    ensures
        s.after_write(words).cursor == 0,
        s.after_read(n).after_write(words) == s.after_write(words),
{
}

/// RDID is answered by the JEDEC ID, and by bytes that nothing drives once
/// the ID is spent.
pub proof fn law_read_id(s: FlashState, words: Seq<u8>, n: nat)
    requires
        decode(words) is ReadId,
    ensures
        ({
            let response = s.after_write(words).response(n);
            &&& response.len() == n
            &&& forall|i: int|
                0 <= i < n ==> #[trigger] response[i] == if i < 3 {
                    JEDEC_ID@[i]
                } else {
                    ERASED
                }
        }),
        s.after_write(words).memory == s.memory,
{
}

/// RDSR is answered by zeros: the chip is never busy and never protected.
pub proof fn law_read_status(s: FlashState, words: Seq<u8>, n: nat)
    requires
        s.wf(),
        decode(words) is ReadStatus,
    ensures
        s.after_write(words).response(n) == Seq::new(n, |i: int| 0u8),
{
    assert(s.after_write(words).response(n) =~= Seq::new(n, |i: int| 0u8));
}

/// READ is answered by the memory from the address on.
pub proof fn law_read_memory(s: FlashState, words: Seq<u8>, n: nat)
    requires
        words.len() >= HEADER_LEN,
        decode(words) is Read,
        address(words) + n <= s.memory.len(),
    ensures
        s.after_write(words).response(n) == s.memory.subrange(address(words), address(words) + n),
        s.after_write(words).memory == s.memory,
{
    assert(s.after_write(words).response(n) =~= s.memory.subrange(
        address(words),
        address(words) + n,
    ));
}

/// Behind the end of the memory nothing drives the bus.
pub proof fn law_read_past_end(s: FlashState, words: Seq<u8>, n: nat, i: int)
    requires
        words.len() >= HEADER_LEN,
        decode(words) is Read,
        0 <= i < n,
        address(words) + i >= s.memory.len(),
    ensures
        s.after_write(words).response(n)[i] == ERASED,
{
}

/// FAST_READ does what READ of the same address does, whatever follows the
/// address.
pub proof fn law_fast_read_is_read(s: FlashState, fast: Seq<u8>, plain: Seq<u8>)
    requires
        fast.len() >= HEADER_LEN,
        plain.len() >= HEADER_LEN,
        fast[0] == OP_FAST_READ,
        plain[0] == OP_READ,
        fast.subrange(1, 4) == plain.subrange(1, 4),
    ensures
        s.after_write(fast) == s.after_write(plain),
{
    assert(fast[1] == fast.subrange(1, 4)[0]);
    assert(fast[2] == fast.subrange(1, 4)[1]);
    assert(fast[3] == fast.subrange(1, 4)[2]);
    assert(plain[1] == plain.subrange(1, 4)[0]);
    assert(plain[2] == plain.subrange(1, 4)[1]);
    assert(plain[3] == plain.subrange(1, 4)[2]);
}

/// While the latch is clear, no write changes the memory.
pub proof fn law_clear_latch_protects(s: FlashState, words: Seq<u8>)
    requires
        !s.write_enabled,
    ensures
        s.after_write(words).memory == s.memory,
{
}

/// Only WREN sets the latch: each program and each erase spends it, and every
/// other write but WREN and WRDI keeps it.
pub proof fn law_latch(s: FlashState, words: Seq<u8>)
    ensures
        s.after_write(words).write_enabled <==> (decode(words) is WriteEnable || (s.write_enabled
            && !(decode(words) is WriteDisable) && !changes_memory(decode(words)))),
{
}

/// A second program or erase without a WREN of its own does nothing.
pub proof fn law_one_change_per_enable(s: FlashState, first: Seq<u8>, second: Seq<u8>)
    requires
        changes_memory(decode(first)),
        !(decode(second) is WriteEnable),
    ensures
        s.after_write(first).after_write(second).memory == s.after_write(first).memory,
{
}

/// WRDI undoes WREN; neither disturbs the memory or the armed response.
pub proof fn law_disable_undoes_enable(s: FlashState, enable: Seq<u8>, disable: Seq<u8>)
    requires
        decode(enable) is WriteEnable,
        decode(disable) is WriteDisable,
    ensures
        s.after_write(enable).after_write(disable) == s.after_write(disable),
        s.after_write(enable) == (FlashState { write_enabled: true, cursor: 0, ..s }),
        s.after_write(disable) == (FlashState { write_enabled: false, cursor: 0, ..s }),
{
}

/// No write but an erase sets a bit that was clear.
pub proof fn law_only_erase_sets_bits(s: FlashState, words: Seq<u8>, i: int)
    requires
        !(decode(words) is EraseSector),
        !(decode(words) is EraseChip),
        0 <= i < s.memory.len(),
    ensures
        s.after_write(words).memory[i] & s.memory[i] == s.after_write(words).memory[i],
{
    let a = s.memory[i];
    assert(a & a == a) by (bit_vector);
    if let Command::Program { addr, bytes } = decode(words) {
        let b = bytes[i - addr];
        assert((a & b) & a == a & b) by (bit_vector);
    }
}

/// What a program command clears: under an enabled latch, a read of the same
/// place gives what was there with the bits cleared that are clear in the
/// payload.
pub proof fn law_program_reads_back_masked(
    s: FlashState,
    enable: Seq<u8>,
    program: Seq<u8>,
    read: Seq<u8>,
)
    requires
        decode(enable) is WriteEnable,
        decode(program) is Program,
        program.len() >= HEADER_LEN,
        address(program) + program.len() - HEADER_LEN <= s.memory.len(),
        decode(read) is Read,
        read.len() >= HEADER_LEN,
        address(read) == address(program),
    ensures
        ({
            let addr = address(program);
            let bytes = program.skip(HEADER_LEN as int);
            let done = s.after_write(enable).after_write(program);
            let response = done.after_write(read).response(bytes.len());
            &&& response == Seq::new(bytes.len(), |i: int| s.memory[addr + i] & bytes[i])
            &&& forall|j: int|
                0 <= j < s.memory.len() && !(addr <= j < addr + bytes.len()) ==> #[trigger] done.memory[j]
                    == s.memory[j]
        }),
{
    let addr = address(program);
    let bytes = program.skip(HEADER_LEN as int);
    let done = s.after_write(enable).after_write(program);
    law_read_memory(done, read, bytes.len());
    assert(done.after_write(read).response(bytes.len()) =~= Seq::new(
        bytes.len(),
        |i: int| s.memory[addr + i] & bytes[i],
    ));
}

/// Bytes programmed over erased memory are read back as they were sent.
pub proof fn law_program_reads_back(
    s: FlashState,
    enable: Seq<u8>,
    program: Seq<u8>,
    read: Seq<u8>,
)
    requires
        decode(enable) is WriteEnable,
        decode(program) is Program,
        program.len() >= HEADER_LEN,
        address(program) + program.len() - HEADER_LEN <= s.memory.len(),
        forall|j: int|
            address(program) <= j < address(program) + program.len() - HEADER_LEN ==> s.memory[j]
                == ERASED,
        decode(read) is Read,
        read.len() >= HEADER_LEN,
        address(read) == address(program),
    ensures
        s.after_write(enable).after_write(program).after_write(read).response(
            (program.len() - HEADER_LEN) as nat,
        ) == program.skip(HEADER_LEN as int),
{
    let addr = address(program);
    let bytes = program.skip(HEADER_LEN as int);
    law_program_reads_back_masked(s, enable, program, read);
    assert forall|i: int| 0 <= i < bytes.len() implies s.memory[addr + i] & bytes[i] == bytes[i] by {
        let b = bytes[i];
        assert(0xFFu8 & b == b) by (bit_vector);
    }
    assert(Seq::new(bytes.len(), |i: int| s.memory[addr + i] & bytes[i]) =~= bytes);
}

/// A sector erase turns the whole sector of the address to erased bytes and
/// leaves every other byte alone.
pub proof fn law_sector_erase(s: FlashState, enable: Seq<u8>, erase: Seq<u8>, i: int)
    requires
        decode(enable) is WriteEnable,
        decode(erase) is EraseSector,
        0 <= i < s.memory.len(),
    ensures
        s.after_write(enable).after_write(erase).memory[i] == if i / (SECTOR_SIZE as int) == address(
            erase,
        ) / (SECTOR_SIZE as int) {
            ERASED
        } else {
            s.memory[i]
        },
{
}

/// What a read inside a sector finds once that sector is erased.
pub proof fn law_erase_reads_back(
    s: FlashState,
    enable: Seq<u8>,
    erase: Seq<u8>,
    read: Seq<u8>,
    n: nat,
)
    requires
        decode(enable) is WriteEnable,
        decode(erase) is EraseSector,
        decode(read) is Read,
        read.len() >= HEADER_LEN,
        sector_start(address(erase)) <= address(read),
        address(read) + n <= sector_start(address(erase)) + SECTOR_SIZE,
    ensures
        s.after_write(enable).after_write(erase).after_write(read).response(n) == Seq::new(
            n,
            |i: int| ERASED,
        ),
{
    assert(s.after_write(enable).after_write(erase).after_write(read).response(n) =~= Seq::new(
        n,
        |i: int| ERASED,
    ));
}

/// A chip erase turns every byte to the erased byte, as on a fresh chip.
pub proof fn law_chip_erase(s: FlashState, enable: Seq<u8>, erase: Seq<u8>)
    requires
        decode(enable) is WriteEnable,
        decode(erase) is EraseChip,
    ensures
        s.after_write(enable).after_write(erase).memory == FlashState::fresh(s.memory.len()).memory,
{
    assert(s.after_write(enable).after_write(erase).memory =~= FlashState::fresh(
        s.memory.len(),
    ).memory);
}

/// A whole session: erase a sector, program inside it, read back. The read
/// gives the payload, whatever the chip held before.
pub proof fn law_erase_program_read(
    s: FlashState,
    enable: Seq<u8>,
    erase: Seq<u8>,
    program: Seq<u8>,
    read: Seq<u8>,
)
    requires
        decode(enable) is WriteEnable,
        decode(erase) is EraseSector,
        decode(program) is Program,
        program.len() >= HEADER_LEN,
        sector_start(address(erase)) <= address(program),
        address(program) + program.len() - HEADER_LEN <= sector_start(address(erase)) + SECTOR_SIZE,
        sector_start(address(erase)) + SECTOR_SIZE <= s.memory.len(),
        decode(read) is Read,
        read.len() >= HEADER_LEN,
        address(read) == address(program),
    ensures
        s.after_write(enable).after_write(erase).after_write(enable).after_write(
            program,
        ).after_write(read).response((program.len() - HEADER_LEN) as nat) == program.skip(
            HEADER_LEN as int,
        ),
{
    law_program_reads_back(s.after_write(enable).after_write(erase), enable, program, read);
}

/// Programming the same bytes at the same place again changes nothing.
pub proof fn law_program_is_idempotent(memory: Seq<u8>, addr: int, bytes: Seq<u8>)
    ensures
        programmed(programmed(memory, addr, bytes), addr, bytes) == programmed(memory, addr, bytes),
{
    assert forall|i: int|
        0 <= i < memory.len() && addr <= i < addr + bytes.len() implies (memory[i] & bytes[i - addr])
        & bytes[i - addr] == memory[i] & #[trigger] bytes[i - addr] by {
        let a = memory[i];
        let b = bytes[i - addr];
        assert((a & b) & b == a & b) by (bit_vector);
    }
    assert(programmed(programmed(memory, addr, bytes), addr, bytes) =~= programmed(
        memory,
        addr,
        bytes,
    ));
}

/// Programming a run of bytes in one piece or in two gives the same memory.
pub proof fn law_program_splits(memory: Seq<u8>, addr: int, first: Seq<u8>, second: Seq<u8>)
    ensures
        programmed(memory, addr, first + second) == programmed(
            programmed(memory, addr, first),
            addr + first.len(),
            second,
        ),
{
    assert(programmed(memory, addr, first + second) =~= programmed(
        programmed(memory, addr, first),
        addr + first.len(),
        second,
    ));
}

/// The order of two program commands does not matter.
pub proof fn law_program_order_is_free(
    memory: Seq<u8>,
    addr1: int,
    bytes1: Seq<u8>,
    addr2: int,
    bytes2: Seq<u8>,
)
    ensures
        programmed(programmed(memory, addr1, bytes1), addr2, bytes2) == programmed(
            programmed(memory, addr2, bytes2),
            addr1,
            bytes1,
        ),
{
    let left = programmed(programmed(memory, addr1, bytes1), addr2, bytes2);
    let right = programmed(programmed(memory, addr2, bytes2), addr1, bytes1);
    assert forall|i: int| 0 <= i < memory.len() implies left[i] == right[i] by {
        let (a, b, c) = (memory[i], bytes1[i - addr1], bytes2[i - addr2]);
        assert((a & b) & c == (a & c) & b) by (bit_vector);
    }
    assert(left =~= right);
}

} // verus!
