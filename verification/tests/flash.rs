use picoprog::flash::{FlashChip, ERASED, JEDEC_ID, SECTOR_SIZE};
use picoprog::pin::FakePin;
use rflasher_core::programmer::{SpiFeatures, SpiMaster};
use rflasher_core::protocol;
use rflasher_core::spi::{opcodes, SpiCommand};

/// rflasher's view of a chip: a write of the command bytes, then a read of
/// the response.
struct Bus {
    chip: FlashChip,
}

impl SpiMaster for Bus {
    fn features(&self) -> SpiFeatures {
        SpiFeatures::empty()
    }

    fn max_read_len(&self) -> usize {
        64
    }

    fn max_write_len(&self) -> usize {
        64
    }

    fn execute(&mut self, cmd: &mut SpiCommand<'_>) -> rflasher_core::Result<()> {
        let mut words = vec![0u8; cmd.header_len()];
        cmd.encode_header(&mut words);
        words.extend_from_slice(cmd.write_data);
        assert!(self.chip.accepts_write(&words));
        self.chip.write(&words).unwrap();
        assert!(self.chip.accepts_read(cmd.read_buf.len()));
        self.chip.read(cmd.read_buf).unwrap();
        Ok(())
    }

    fn delay_us(&mut self, _us: u32) {}
}

fn send(chip: &mut FlashChip, words: &[u8]) {
    assert!(chip.accepts_write(words));
    chip.write(words).unwrap();
}

fn receive(chip: &mut FlashChip, n: usize) -> Vec<u8> {
    let mut words = vec![0u8; n];
    assert!(chip.accepts_read(n));
    chip.read(&mut words).unwrap();
    words
}

#[test]
fn rflasher_programs_flash_chip() {
    let mut prog = Bus { chip: FlashChip::new(16 * 1024 * 1024) };

    // Identify the chip.
    let (manufacturer, device) = protocol::read_jedec_id(&mut prog).unwrap();
    assert_eq!((manufacturer, device), (0xEF, 0x4018));

    // Page-program four bytes, then read them back through rflasher.
    let payload = [0x12, 0x34, 0x56, 0x78];
    protocol::write_enable(&mut prog).unwrap();
    let mut cmd = SpiCommand::write_3b(opcodes::PP, 0x1000, &payload);
    prog.execute(&mut cmd).unwrap();
    let mut readback = [0u8; 4];
    let mut cmd = SpiCommand::read_3b(opcodes::READ, 0x1000, &mut readback);
    prog.execute(&mut cmd).unwrap();
    assert_eq!(readback, payload);
    assert_eq!(&prog.chip.data()[0x1000..0x1004], &payload);

    // Sector-erase and confirm the bytes are gone.
    protocol::write_enable(&mut prog).unwrap();
    let mut cmd = SpiCommand::erase_3b(opcodes::SE_20, 0x1000);
    prog.execute(&mut cmd).unwrap();
    let mut readback = [0u8; 4];
    let mut cmd = SpiCommand::read_3b(opcodes::READ, 0x1000, &mut readback);
    prog.execute(&mut cmd).unwrap();
    assert_eq!(readback, [0xFF; 4]);

    // The emulator's raw memory reflects what was written and erased.
    assert_eq!(&prog.chip.data()[0x1000..0x1004], &[0xFF; 4]);
}

#[test]
fn rflasher_sees_an_idle_status_register() {
    let mut prog = Bus { chip: FlashChip::new(4096) };
    assert_eq!(protocol::read_status1(&mut prog).unwrap(), 0);
    protocol::write_enable(&mut prog).unwrap();
    assert_eq!(protocol::read_status1(&mut prog).unwrap(), 0);
}

#[test]
fn fresh_chip_is_erased() {
    let chip = FlashChip::new(16);
    assert_eq!(chip.data(), &[0xFF; 16]);
    assert_eq!(FlashChip::new(0).data().len(), 0);
}

#[test]
fn address_is_big_endian() {
    assert_eq!(FlashChip::addr3(&[0x03, 0x12, 0x34, 0x56]), 0x12_3456);
    assert_eq!(FlashChip::addr3(&[0x0B, 0xFF, 0xFF, 0xFF, 0x00]), 0xFF_FFFF);
    assert_eq!(FlashChip::addr3(&[0x20, 0x00, 0x00, 0x01]), 1);
}

#[test]
fn idle_chip_drives_nothing() {
    let mut chip = FlashChip::new(16);
    assert_eq!(receive(&mut chip, 3), [0xFF; 3]);
    send(&mut chip, &[0x9F]);
    send(&mut chip, &[]);
    assert_eq!(receive(&mut chip, 3), [0xFF; 3]);
    send(&mut chip, &[0x9F]);
    send(&mut chip, &[0xAB]);
    assert_eq!(receive(&mut chip, 3), [0xFF; 3]);
}

#[test]
fn jedec_id_ends_after_three_bytes() {
    let mut chip = FlashChip::new(16);
    send(&mut chip, &[0x9F]);
    assert_eq!(receive(&mut chip, 5), [0xEF, 0x40, 0x18, 0xFF, 0xFF]);
    send(&mut chip, &[0x9F]);
    assert_eq!(receive(&mut chip, 3), JEDEC_ID);
}

#[test]
fn reads_form_one_stream() {
    let mut chip = FlashChip::new(16);
    send(&mut chip, &[0x9F]);
    assert_eq!(receive(&mut chip, 1), [0xEF]);
    assert_eq!(receive(&mut chip, 0), []);
    assert_eq!(receive(&mut chip, 2), [0x40, 0x18]);
    assert_eq!(receive(&mut chip, 1), [0xFF]);
}

#[test]
fn latch_commands_keep_the_armed_response() {
    let mut chip = FlashChip::new(16);
    send(&mut chip, &[0x9F]);
    assert_eq!(receive(&mut chip, 2), [0xEF, 0x40]);
    send(&mut chip, &[0x06]);
    assert_eq!(receive(&mut chip, 3), JEDEC_ID);
    send(&mut chip, &[0x04]);
    assert_eq!(receive(&mut chip, 3), JEDEC_ID);
}

#[test]
fn programming_needs_the_latch() {
    let mut chip = FlashChip::new(16);
    send(&mut chip, &[0x02, 0, 0, 4, 0x00]);
    assert_eq!(chip.data(), &[0xFF; 16]);
    send(&mut chip, &[0x06]);
    send(&mut chip, &[0x04]);
    send(&mut chip, &[0x02, 0, 0, 4, 0x00]);
    assert_eq!(chip.data(), &[0xFF; 16]);
}

#[test]
fn latch_lasts_for_one_change() {
    let mut chip = FlashChip::new(16);
    send(&mut chip, &[0x06]);
    send(&mut chip, &[0x02, 0, 0, 4, 0x11]);
    send(&mut chip, &[0x02, 0, 0, 5, 0x22]);
    assert_eq!(chip.data()[4], 0x11);
    assert_eq!(chip.data()[5], 0xFF);
    send(&mut chip, &[0xC7]);
    assert_eq!(chip.data()[4], 0x11);
}

#[test]
fn latch_survives_reads() {
    let mut chip = FlashChip::new(16);
    send(&mut chip, &[0x06]);
    send(&mut chip, &[0x05]);
    assert_eq!(receive(&mut chip, 2), [0, 0]);
    send(&mut chip, &[0x03, 0, 0, 0]);
    assert_eq!(receive(&mut chip, 2), [0xFF, 0xFF]);
    send(&mut chip, &[0x02, 0, 0, 0, 0x42]);
    assert_eq!(chip.data()[0], 0x42);
}

#[test]
fn programming_only_clears_bits() {
    let mut chip = FlashChip::new(16);
    send(&mut chip, &[0x06]);
    send(&mut chip, &[0x02, 0, 0, 2, 0xF0, 0x3C]);
    send(&mut chip, &[0x06]);
    send(&mut chip, &[0x02, 0, 0, 2, 0x3C, 0xFF]);
    assert_eq!(&chip.data()[..5], &[0xFF, 0xFF, 0x30, 0x3C, 0xFF]);
    // The same bytes again change nothing.
    send(&mut chip, &[0x06]);
    send(&mut chip, &[0x02, 0, 0, 2, 0x3C, 0xFF]);
    assert_eq!(&chip.data()[..5], &[0xFF, 0xFF, 0x30, 0x3C, 0xFF]);
}

#[test]
fn programming_splits_and_commutes() {
    let mut whole = FlashChip::new(16);
    send(&mut whole, &[0x06]);
    send(&mut whole, &[0x02, 0, 0, 3, 1, 2, 3, 4]);
    let mut pieces = FlashChip::new(16);
    send(&mut pieces, &[0x06]);
    send(&mut pieces, &[0x02, 0, 0, 5, 3, 4]);
    send(&mut pieces, &[0x06]);
    send(&mut pieces, &[0x02, 0, 0, 3, 1, 2]);
    assert_eq!(whole.data(), pieces.data());
}

#[test]
fn sector_erase_stays_in_its_sector() {
    let mut chip = FlashChip::new(3 * SECTOR_SIZE);
    for addr in [0x0FFFusize, 0x1000, 0x1FFF, 0x2000] {
        send(&mut chip, &[0x06]);
        send(&mut chip, &[0x02, 0, (addr >> 8) as u8, addr as u8, 0x00]);
    }
    send(&mut chip, &[0x06]);
    send(&mut chip, &[0x20, 0x00, 0x12, 0x34]);
    assert_eq!(chip.data()[0x0FFF], 0x00);
    assert_eq!(chip.data()[0x1000], ERASED);
    assert_eq!(chip.data()[0x1FFF], ERASED);
    assert_eq!(chip.data()[0x2000], 0x00);
}

#[test]
fn both_chip_erase_opcodes_erase_everything() {
    for opcode in [0xC7u8, 0x60] {
        let mut chip = FlashChip::new(32);
        send(&mut chip, &[0x06]);
        send(&mut chip, &[0x02, 0, 0, 0, 1, 2, 3]);
        send(&mut chip, &[opcode]);
        assert_eq!(&chip.data()[..3], &[1, 2, 3]);
        send(&mut chip, &[0x06]);
        send(&mut chip, &[opcode]);
        assert_eq!(chip.data(), &[0xFF; 32]);
    }
}

#[test]
fn fast_read_is_read() {
    let mut chip = FlashChip::new(16);
    send(&mut chip, &[0x06]);
    send(&mut chip, &[0x02, 0, 0, 1, 0xA5, 0x5A]);
    send(&mut chip, &[0x03, 0, 0, 1]);
    let plain = receive(&mut chip, 2);
    send(&mut chip, &[0x0B, 0, 0, 1, 0xFF]);
    let fast = receive(&mut chip, 2);
    assert_eq!(plain, [0xA5, 0x5A]);
    assert_eq!(fast, plain);
}

#[test]
fn read_past_the_end_finds_nothing() {
    let mut chip = FlashChip::new(4);
    send(&mut chip, &[0x06]);
    send(&mut chip, &[0x02, 0, 0, 3, 0x77]);
    send(&mut chip, &[0x03, 0, 0, 3]);
    assert_eq!(receive(&mut chip, 3), [0x77, 0xFF, 0xFF]);
    send(&mut chip, &[0x03, 0xFF, 0xFF, 0xFF]);
    assert_eq!(receive(&mut chip, 1), [0xFF]);
}

#[test]
fn transfer_writes_then_reads() {
    let mut chip = FlashChip::new(16);
    let mut id = [0u8; 4];
    chip.transfer(&mut id, &[0x9F]).unwrap();
    assert_eq!(id, [0xEF, 0x40, 0x18, 0xFF]);
    // In place, nothing is sent: the opcode in the buffer is not taken.
    let mut words = [0x05u8; 2];
    chip.transfer_in_place(&mut words).unwrap();
    assert_eq!(words, [0xFF, 0xFF]);
    chip.flush().unwrap();
    assert_eq!(chip.data(), &[0xFF; 16]);
}

#[test]
fn short_and_overlong_commands_are_told_apart() {
    let mut chip = FlashChip::new(SECTOR_SIZE);
    assert!(chip.accepts_write(&[]));
    assert!(!chip.accepts_write(&[0x03, 0, 0]));
    assert!(!chip.accepts_write(&[0x0B]));
    // A protected chip ignores the rest of a program or erase command.
    assert!(chip.accepts_write(&[0x02]));
    assert!(chip.accepts_write(&[0x20, 0xFF]));
    send(&mut chip, &[0x06]);
    assert!(!chip.accepts_write(&[0x02, 0, 0]));
    assert!(chip.accepts_write(&[0x02, 0x00, 0x0F, 0xFF, 1]));
    assert!(!chip.accepts_write(&[0x02, 0x00, 0x0F, 0xFF, 1, 2]));
    assert!(chip.accepts_write(&[0x02, 0xFF, 0xFF, 0xFF]));
    assert!(chip.accepts_write(&[0x20, 0x00, 0x0F, 0xFF]));
    assert!(!chip.accepts_write(&[0x20, 0x00, 0x10, 0x00]));
    assert!(!chip.accepts_write(&[0x20]));
    assert!(chip.accepts_write(&[0xC7]));
}

#[test]
fn read_lengths_are_countable() {
    let mut chip = FlashChip::new(16);
    assert!(chip.accepts_read(usize::MAX));
    assert_eq!(receive(&mut chip, 1), [0xFF]);
    assert!(!chip.accepts_read(usize::MAX));
    assert!(chip.accepts_read(usize::MAX - 1));
    send(&mut chip, &[0x03, 0, 0, 2]);
    assert!(!chip.accepts_read(usize::MAX));
    assert!(chip.accepts_read(usize::MAX - 1));
}

#[test]
fn fake_pin_always_succeeds() {
    let mut pin = FakePin::new();
    assert!(pin.set_low().is_ok());
    assert!(pin.set_high().is_ok());
    assert_eq!(pin, FakePin::new());
}
