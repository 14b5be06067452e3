use rustual_boy::game_pad::Button;
use rustual_boy::interconnect::Interconnect;
use rustual_boy::mem_map::BusError;
use rustual_boy::rom::Rom;
use rustual_boy::sinks::{AudioFrame, Recorded, VecSink, VideoFrame};
use rustual_boy::sram::Sram;

fn bus() -> Interconnect {
    let mut bytes = vec![0u8; 1024];
    for (index, byte) in bytes.iter_mut().enumerate() {
        *byte = (index % 251) as u8;
    }
    Interconnect::new(Rom::new(bytes).unwrap(), Sram::new())
}

const WRITABLE: [u32; 12] = [
    0x0500_0000, 0x0500_0004, 0x0500_fffc, 0x05ab_cde0, 0x0600_0000, 0x0600_1ffc, 0x0612_3458,
    0x0000_0000, 0x0000_8004, 0x0002_0008, 0x0003_fffc, 0x0008_0010,
];

#[test]
fn bytes_written_are_read_back() {
    let mut bus = bus();
    for addr in WRITABLE {
        for (offset, value) in [(0u32, 0x12u8), (1, 0x34), (2, 0x56), (3, 0x78)] {
            assert_eq!(bus.write_byte(addr + offset, value), Ok(()));
            assert_eq!(bus.read_byte(addr + offset), Ok(value));
        }
        assert_eq!(bus.read_word(addr), Ok(0x7856_3412));
    }
}

#[test]
fn halfwords_written_are_read_back() {
    let mut bus = bus();
    for addr in WRITABLE {
        assert_eq!(bus.write_halfword(addr, 0xbeef), Ok(()));
        assert_eq!(bus.read_halfword(addr), Ok(0xbeef));
        assert_eq!(bus.write_halfword(addr + 2, 0x1234), Ok(()));
        assert_eq!(bus.read_halfword(addr + 2), Ok(0x1234));
        assert_eq!(bus.read_halfword(addr), Ok(0xbeef));
        assert_eq!(bus.read_byte(addr), Ok(0xef));
        assert_eq!(bus.read_byte(addr + 1), Ok(0xbe));
    }
}

#[test]
fn words_written_are_read_back() {
    let mut bus = bus();
    for addr in WRITABLE {
        assert_eq!(bus.write_word(addr, 0xdead_beef), Ok(()));
        assert_eq!(bus.read_word(addr), Ok(0xdead_beef));
        assert_eq!(bus.read_halfword(addr), Ok(0xbeef));
        assert_eq!(bus.read_halfword(addr + 2), Ok(0xdead));
        assert_eq!(bus.read_byte(addr + 3), Ok(0xde));
    }
}

#[test]
fn halfword_access_ignores_address_bit_0() {
    let mut bus = bus();
    for addr in WRITABLE {
        bus.write_word(addr, 0x1122_3344).unwrap();
        assert_eq!(bus.read_halfword(addr), bus.read_halfword(addr | 1));
        assert_eq!(bus.read_halfword(addr + 2), bus.read_halfword((addr + 2) | 1));
        assert_eq!(bus.read_halfword(addr | 1), Ok(0x3344));
        bus.write_halfword(addr | 1, 0xaabb).unwrap();
        assert_eq!(bus.read_word(addr), Ok(0x1122_aabb));
    }
    for addr in [0x0700_0000u32, 0x0700_0102, 0x0200_0020, 0x0100_0000, 0x0400_0000] {
        assert_eq!(bus.read_halfword(addr), bus.read_halfword(addr | 1));
    }
}

#[test]
fn word_access_ignores_address_bits_0_and_1() {
    let mut bus = bus();
    for addr in WRITABLE {
        for low in 0..4 {
            bus.write_word(addr + low, 0x0102_0304 + low).unwrap();
            for other in 0..4 {
                assert_eq!(bus.read_word(addr + other), Ok(0x0102_0304 + low));
            }
        }
    }
}

#[test]
fn the_rom_is_read_little_endian_and_mirrored() {
    let mut bus = bus();
    assert_eq!(bus.read_byte(0x0700_0000), Ok(0));
    assert_eq!(bus.read_byte(0x0700_0005), Ok(5));
    assert_eq!(bus.read_halfword(0x0700_0004), Ok(0x0504));
    assert_eq!(bus.read_word(0x0700_0004), Ok(0x0706_0504));
    // a 1 KiB image repeats every 1 KiB
    assert_eq!(bus.read_word(0x0700_0404), Ok(0x0706_0504));
    assert_eq!(bus.read_word(0x07ff_fc04), Ok(0x0706_0504));
    assert_eq!(bus.read_byte(0xffff_fff0), bus.read_byte(0x0700_03f0));
    assert_eq!(bus.read_byte(0x0700_03f0), Ok((0x3f0 % 251) as u8));
}

#[test]
fn writes_to_the_rom_are_ignored() {
    let mut bus = bus();
    assert_eq!(bus.write_byte(0x0700_0004, 0xff), Ok(()));
    assert_eq!(bus.write_halfword(0x0700_0004, 0xffff), Ok(()));
    assert_eq!(bus.write_word(0x0700_0004, 0xffff_ffff), Ok(()));
    assert_eq!(bus.read_word(0x0700_0004), Ok(0x0706_0504));
}

#[test]
fn work_ram_mirrors_every_64_kib() {
    let mut bus = bus();
    bus.write_word(0x0500_0010, 0xcafe_f00d).unwrap();
    assert_eq!(bus.read_word(0x0501_0010), Ok(0xcafe_f00d));
    assert_eq!(bus.read_word(0x05ff_0010), Ok(0xcafe_f00d));
    bus.write_byte(0x0523_0011, 0x11).unwrap();
    assert_eq!(bus.read_word(0x0500_0010), Ok(0xcafe_110d));
    // fresh work RAM is all ones
    assert_eq!(bus.read_word(0x0500_8000), Ok(0xffff_ffff));
}

#[test]
fn cartridge_ram_is_kept_for_the_host() {
    let mut bus = bus();
    assert_eq!(bus.sram_bytes().len(), 8192);
    assert_eq!(bus.read_word(0x0600_0000), Ok(0));
    bus.write_word(0x0600_0004, 0x0403_0201).unwrap();
    // 8 KiB repeat every 8 KiB
    assert_eq!(bus.read_word(0x0600_2004), Ok(0x0403_0201));
    assert_eq!(&bus.sram_bytes()[4..8], &[1, 2, 3, 4]);

    let kept: Vec<u8> = bus.sram_bytes().clone();
    let restored = Sram::from_bytes(kept).unwrap();
    let mut again = Interconnect::new(Rom::new(vec![0u8; 1024]).unwrap(), restored);
    assert_eq!(again.read_word(0x0600_0004), Ok(0x0403_0201));
}

#[test]
fn unmapped_addresses_fail_and_change_nothing() {
    let mut bus = bus();
    assert_eq!(bus.read_byte(0x0300_0000), Err(BusError { addr: 0x0300_0000 }));
    assert_eq!(bus.read_halfword(0x0300_0005), Err(BusError { addr: 0x0300_0004 }));
    assert_eq!(bus.read_word(0x0300_0007), Err(BusError { addr: 0x0300_0004 }));
    assert_eq!(bus.write_byte(0x0200_0001, 1), Err(BusError { addr: 0x0200_0001 }));
    assert_eq!(bus.write_halfword(0x0200_0002, 1), Err(BusError { addr: 0x0200_0002 }));
    assert_eq!(bus.write_word(0x0200_002c, 1), Err(BusError { addr: 0x0200_002c }));
    assert_eq!(bus.read_byte(0x0200_0020), Ok(0));
}

#[test]
fn the_sound_unit_and_the_expansion_read_as_zero() {
    let mut bus = bus();
    for addr in [0x0100_0000u32, 0x0100_0400, 0x01ff_fffc, 0x0400_0000, 0x04ff_fffc] {
        assert_eq!(bus.write_word(addr, 0xffff_ffff), Ok(()));
        assert_eq!(bus.read_byte(addr), Ok(0));
        assert_eq!(bus.read_halfword(addr), Ok(0));
        assert_eq!(bus.read_word(addr), Ok(0));
    }
}

#[test]
fn timer_registers_through_the_bus() {
    let mut bus = bus();
    assert_eq!(bus.write_byte(0x0200_0018, 0x34), Ok(()));
    assert_eq!(bus.write_halfword(0x0200_001c, 0xff12), Ok(()));
    assert_eq!(bus.read_byte(0x0200_0018), Ok(0x34));
    assert_eq!(bus.read_halfword(0x0200_001c), Ok(0x0012));
    assert_eq!(bus.read_word(0x0200_0018), Ok(0x0000_0034));
    assert_eq!(bus.write_word(0x0200_0020, 0xffff_ff19), Ok(()));
    assert_eq!(bus.read_byte(0x0200_0020), Ok(0x19));
    assert_eq!(bus.read_halfword(0x0200_0021), Ok(0x0019));
}

#[test]
fn timer_zero_interrupt_through_the_bus() {
    let mut bus = bus();
    let mut video = Recorded::new(VecSink::<VideoFrame>::new());
    let mut audio = Recorded::new(VecSink::<AudioFrame>::new());
    bus.write_byte(0x0200_0018, 0x01).unwrap();
    // small interval, zero interrupt enabled, enabled
    bus.write_byte(0x0200_0020, 0x19).unwrap();
    assert_eq!(bus.cycles(40_000, &mut video, &mut audio), Some(0xfe10));
    assert_eq!(bus.read_byte(0x0200_0018), Ok(1));
    assert_eq!(bus.read_byte(0x0200_001c), Ok(0));
    assert_eq!(bus.read_byte(0x0200_0020), Ok(0x1b));
    // 40 000 cycles are 40 000 / 479 audio frames
    assert_eq!(audio.sink().len(), 83);
    assert_eq!(video.sink().len(), 0);
}

#[test]
fn no_interrupt_without_a_source() {
    let mut bus = bus();
    let mut video = Recorded::new(VecSink::<VideoFrame>::new());
    let mut audio = Recorded::new(VecSink::<AudioFrame>::new());
    assert_eq!(bus.cycles(400_000, &mut video, &mut audio), None);
    assert_eq!(video.sink().len(), 1);
}

#[test]
fn the_video_interrupt_goes_before_the_timers() {
    let mut bus = bus();
    let mut video = Recorded::new(VecSink::<VideoFrame>::new());
    let mut audio = Recorded::new(VecSink::<AudioFrame>::new());
    bus.write_byte(0x0200_0018, 0x01).unwrap();
    bus.write_byte(0x0200_0020, 0x19).unwrap();
    // enable the start-of-frame interrupt
    bus.write_halfword(0x0005_f802, 0x0010).unwrap();
    assert_eq!(bus.cycles(399_999, &mut video, &mut audio), Some(0xfe10));
    assert_eq!(bus.cycles(1, &mut video, &mut audio), Some(0xfe40));
    assert_eq!(bus.cycles(400_000, &mut video, &mut audio), Some(0xfe40));
    bus.write_halfword(0x0005_f802, 0x0000).unwrap();
    assert_eq!(bus.cycles(400_000, &mut video, &mut audio), Some(0xfe10));
}

#[test]
fn cycles_can_be_split() {
    let mut whole = bus();
    let mut parts = bus();
    for bus in [&mut whole, &mut parts] {
        bus.write_byte(0x0200_0018, 0x07).unwrap();
        bus.write_byte(0x0200_0020, 0x19).unwrap();
        bus.write_halfword(0x0005_f802, 0x401e).unwrap();
        // channel 1 of the sound unit: a waveform, full volume, enabled
        bus.write_byte(0x0100_0000, 0x3f).unwrap();
        bus.write_byte(0x0100_0404, 0xff).unwrap();
        bus.write_byte(0x0100_0410, 0xf0).unwrap();
        bus.write_byte(0x0100_0400, 0x80).unwrap();
    }
    let mut whole_video = Recorded::new(VecSink::<VideoFrame>::new());
    let mut whole_audio = Recorded::new(VecSink::<AudioFrame>::new());
    let mut parts_video = Recorded::new(VecSink::<VideoFrame>::new());
    let mut parts_audio = Recorded::new(VecSink::<AudioFrame>::new());

    let total = 450_000usize;
    let whole_interrupt = whole.cycles(total, &mut whole_video, &mut whole_audio);
    let mut parts_interrupt = None;
    for n in [1usize, 478, 1, 0, 199_520, 200_000, 50_000] {
        match parts.cycles(n, &mut parts_video, &mut parts_audio) {
            Some(0xfe40) => parts_interrupt = Some(0xfe40),
            Some(vector) => {
                if parts_interrupt.is_none() {
                    parts_interrupt = Some(vector);
                }
            }
            None => {}
        }
    }
    assert_eq!(whole_interrupt, parts_interrupt);
    assert_eq!(whole_video.sink_mut().take(), parts_video.sink_mut().take());
    assert_eq!(whole_audio.sink_mut().take(), parts_audio.sink_mut().take());
    for addr in [0x0200_0018u32, 0x0200_001c, 0x0200_0020] {
        assert_eq!(whole.read_byte(addr), parts.read_byte(addr));
    }
    for addr in [0x0005_f800u32, 0x0005_f820, 0x0005_f840] {
        assert_eq!(whole.read_halfword(addr), parts.read_halfword(addr));
    }
}

#[test]
fn game_pad_registers() {
    let mut bus = bus();
    bus.set_button_pressed(Button::A, true);
    bus.set_button_pressed(Button::Start, true);
    // nothing is shown before the buttons are latched
    assert_eq!(bus.read_byte(0x0200_0010), Ok(0));
    assert_eq!(bus.read_byte(0x0200_0014), Ok(0));
    bus.write_byte(0x0200_0028, 0x04).unwrap();
    assert_eq!(bus.read_byte(0x0200_0010), Ok(0x04));
    assert_eq!(bus.read_byte(0x0200_0014), Ok(0x10));
    assert_eq!(bus.read_halfword(0x0200_0014), Ok(0x0010));
    // the data registers are read-only
    assert_eq!(bus.write_byte(0x0200_0010, 0xff), Ok(()));
    assert_eq!(bus.write_halfword(0x0200_0014, 0xffff), Ok(()));
    assert_eq!(bus.write_word(0x0200_0010, 0xffff_ffff), Ok(()));
    assert_eq!(bus.read_byte(0x0200_0010), Ok(0x04));
    assert_eq!(bus.read_byte(0x0200_0014), Ok(0x10));
    bus.set_button_pressed(Button::A, false);
    assert_eq!(bus.read_byte(0x0200_0010), Ok(0x04));
    bus.write_byte(0x0200_0028, 0x84).unwrap();
    assert_eq!(bus.read_byte(0x0200_0010), Ok(0x00));
    assert_eq!(bus.read_byte(0x0200_0028), Ok(0x80));
}

#[test]
fn link_port_registers() {
    let mut bus = bus();
    bus.write_byte(0x0200_0000, 0x12).unwrap();
    bus.write_halfword(0x0200_0004, 0x3456).unwrap();
    bus.write_word(0x0200_0008, 0x789a_bcde).unwrap();
    bus.write_byte(0x0200_000c, 0xff).unwrap();
    assert_eq!(bus.read_byte(0x0200_0000), Ok(0x12));
    assert_eq!(bus.read_byte(0x0200_0004), Ok(0x56));
    assert_eq!(bus.read_byte(0x0200_0008), Ok(0xde));
    // nothing is ever received
    assert_eq!(bus.read_byte(0x0200_000c), Ok(0));
    // the wait-control register reads as 0
    bus.write_byte(0x0200_0024, 0x03).unwrap();
    assert_eq!(bus.read_byte(0x0200_0024), Ok(0));
}
