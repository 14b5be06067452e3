use rustual_boy::game_pad::{Button, GamePad};
use rustual_boy::link_port::LinkPort;
use rustual_boy::rom::Rom;
use rustual_boy::sinks::{MostRecentSink, PixelBuffer, Recorded, Sink, VecSink, VideoFrame};
use rustual_boy::vip::Vip;
use rustual_boy::sram::Sram;
use rustual_boy::wram::Wram;

#[test]
fn pixel_buffer_pitch() {
    let mut halfwords = [0u16; 8];
    let mut words = [0u32; 8];
    assert_eq!(PixelBuffer::Xrgb1555(&mut halfwords, 384).pitch(), 384);
    assert_eq!(PixelBuffer::Rgb565(&mut halfwords, 512).pitch(), 512);
    assert_eq!(PixelBuffer::Xrgb8888(&mut words, 0).pitch(), 0);
}

#[test]
fn most_recent_sink_keeps_the_last_value() {
    let mut sink: MostRecentSink<u32> = MostRecentSink::new();
    assert_eq!(sink.take(), None);
    sink.append(1);
    sink.append(2);
    sink.append(3);
    assert_eq!(sink.take(), Some(3));
    assert_eq!(sink.take(), None);
    sink.append(4);
    assert_eq!(sink.take(), Some(4));
}

#[test]
fn vec_sink_keeps_every_value_in_order() {
    let mut sink: VecSink<u32> = VecSink::new();
    assert_eq!(sink.len(), 0);
    sink.append(1);
    sink.append(2);
    sink.append(3);
    assert_eq!(sink.len(), 3);
    assert_eq!(sink.take(), vec![1, 2, 3]);
    assert_eq!(sink.len(), 0);
    assert_eq!(sink.take(), Vec::<u32>::new());
    sink.append(4);
    assert_eq!(sink.take(), vec![4]);
}

struct Summing {
    count: usize,
    sum: u64,
}

impl Sink<u32> for Summing {
    fn append(&mut self, value: u32) {
        self.count += 1;
        self.sum += value as u64;
    }
}

#[test]
fn a_record_hands_every_value_to_its_sink() {
    let mut recorded = Recorded::new(Summing { count: 0, sum: 0 });
    recorded.append(5);
    recorded.append(7);
    assert_eq!(recorded.sink().count, 2);
    assert_eq!(recorded.sink().sum, 12);
    recorded.sink_mut().count = 0;
    recorded.append(1);
    assert_eq!(recorded.sink().count, 1);
    let sink = recorded.into_sink();
    assert_eq!(sink.sum, 13);
}

struct CountingFrames {
    frames: usize,
}

impl Sink<VideoFrame> for CountingFrames {
    fn append(&mut self, value: VideoFrame) {
        assert_eq!(value.0.len(), 384 * 224);
        assert_eq!(value.1.len(), 384 * 224);
        self.frames += 1;
    }
}

#[test]
fn a_host_brings_its_own_sink() {
    let mut vip = Vip::new();
    let mut video = Recorded::new(CountingFrames { frames: 0 });
    vip.cycles(1_000_000, &mut video);
    assert_eq!(video.sink().frames, 2);
}

#[test]
fn rom_sizes() {
    assert!(Rom::new(vec![0; 1024]).is_some());
    assert!(Rom::new(vec![0; 0x10_0000]).is_some());
    assert!(Rom::new(vec![0; 0x100_0000]).is_some());
    assert!(Rom::new(vec![0; 0]).is_none());
    assert!(Rom::new(vec![0; 512]).is_none());
    assert!(Rom::new(vec![0; 1025]).is_none());
    assert!(Rom::new(vec![0; 3 * 1024]).is_none());
    assert!(Rom::new(vec![0; 0x200_0000]).is_none());
    assert_eq!(Rom::new(vec![0; 2048]).unwrap().size(), 2048);
}

#[test]
fn rom_reads() {
    let rom = Rom::new((0..1024).map(|i| (i % 256) as u8).collect()).unwrap();
    assert_eq!(rom.read_byte(0x10), 0x10);
    assert_eq!(rom.read_halfword(0x10), 0x1110);
    assert_eq!(rom.read_halfword(0x11), 0x1110);
    assert_eq!(rom.read_word(0x13), 0x1312_1110);
    assert_eq!(rom.read_word(0x0412), 0x1312_1110);
    assert_eq!(rom.read_word(0xffff_fffc), 0xfffe_fdfc);
}

#[test]
fn sram_sizes_and_access() {
    assert!(Sram::from_bytes(vec![0; 8192]).is_some());
    assert!(Sram::from_bytes(vec![0; 4]).is_some());
    assert!(Sram::from_bytes(vec![0; 2]).is_none());
    assert!(Sram::from_bytes(vec![0; 0]).is_none());
    assert!(Sram::from_bytes(vec![0; 6]).is_none());
    assert!(Sram::from_bytes(vec![0; 0x200_0000]).is_none());
    let mut sram = Sram::new();
    assert_eq!(sram.bytes().len(), 8192);
    assert!(sram.bytes().iter().all(|b| *b == 0));
    sram.write_word(0x2001, 0x0403_0201);
    assert_eq!(sram.read_word(0), 0x0403_0201);
    sram.write_halfword(0x0003, 0xbbaa);
    assert_eq!(sram.read_word(0), 0xbbaa_0201);
    sram.write_byte(0x4001, 0xcc);
    assert_eq!(sram.read_halfword(0), 0xcc01);
    assert_eq!(sram.read_byte(3), 0xbb);
    assert_eq!(&sram.bytes()[0..4], &[0x01, 0xcc, 0xaa, 0xbb]);
}

#[test]
fn wram_access() {
    let mut wram = Wram::new();
    assert_eq!(wram.read_word(0), 0xffff_ffff);
    wram.write_word(0x0001_0000, 0x1234_5678);
    assert_eq!(wram.read_word(0), 0x1234_5678);
    assert_eq!(wram.read_halfword(2), 0x1234);
    assert_eq!(wram.read_byte(0xffff_0001), 0x56);
    wram.write_halfword(0xffff, 0xaabb);
    assert_eq!(wram.read_byte(0xfffe), 0xbb);
    assert_eq!(wram.read_byte(0xffff), 0xaa);
    wram.write_byte(0xffff, 0x01);
    assert_eq!(wram.read_halfword(0xfffe), 0x01bb);
}

#[test]
fn game_pad_buttons() {
    let buttons = [
        (Button::A, 0x0004u16), (Button::B, 0x0008), (Button::R, 0x0010), (Button::L, 0x0020),
        (Button::RightDPadUp, 0x0040), (Button::RightDPadRight, 0x0080),
        (Button::LeftDPadRight, 0x0100), (Button::LeftDPadLeft, 0x0200),
        (Button::LeftDPadDown, 0x0400), (Button::LeftDPadUp, 0x0800), (Button::Start, 0x1000),
        (Button::Select, 0x2000), (Button::RightDPadLeft, 0x4000),
        (Button::RightDPadDown, 0x8000),
    ];
    let mut all = 0u16;
    for (button, bit) in buttons {
        assert_eq!(button.bit(), bit);
        assert_eq!(all & bit, 0);
        all |= bit;

        let mut pad = GamePad::new();
        pad.set_button_pressed(button, true);
        pad.write_input_control_reg(0x04);
        assert_eq!(pad.read_input_low_reg(), bit as u8);
        assert_eq!(pad.read_input_high_reg(), (bit >> 8) as u8);
        pad.set_button_pressed(button, false);
        pad.write_input_control_reg(0x04);
        assert_eq!(pad.read_input_low_reg(), 0);
        assert_eq!(pad.read_input_high_reg(), 0);
    }
    // fourteen buttons, bits 0 and 1 belong to none
    assert_eq!(all, 0xfffc);
}

#[test]
fn game_pad_latches_on_read_start_only() {
    let mut pad = GamePad::new();
    pad.set_button_pressed(Button::B, true);
    pad.set_button_pressed(Button::Select, true);
    assert_eq!(pad.read_input_low_reg(), 0);
    pad.write_input_control_reg(0x80);
    assert_eq!(pad.read_input_low_reg(), 0);
    assert_eq!(pad.read_input_control_reg(), 0x80);
    pad.write_input_control_reg(0x05);
    assert_eq!(pad.read_input_low_reg(), 0x08);
    assert_eq!(pad.read_input_high_reg(), 0x20);
    assert_eq!(pad.read_input_control_reg(), 0x01);
}

#[test]
fn link_port_keeps_what_is_written() {
    let mut port = LinkPort::new();
    assert_eq!(port.read_control_reg(), 0);
    port.write_control_reg(0x81);
    port.write_aux_reg(0x02);
    port.write_transmit_data_reg(0x55);
    assert_eq!(port.read_control_reg(), 0x81);
    assert_eq!(port.read_aux_reg(), 0x02);
    assert_eq!(port.read_transmit_data_reg(), 0x55);
    assert_eq!(port.read_receive_data_reg(), 0);
}

#[test]
fn rom_name_is_read_as_shift_jis() {
    fn rom_named(name: &[u8]) -> Rom {
        let mut bytes = vec![0u8; 2048];
        bytes[2048 - 0x220..2048 - 0x220 + name.len()].copy_from_slice(name);
        Rom::new(bytes).unwrap()
    }
    assert_eq!(rom_named(b"RED ALARM           ").name(), Some("RED ALARM           ".to_string()));
    // katakana "tesuto", then spaces
    let mut name = vec![0x83, 0x65, 0x83, 0x58, 0x83, 0x67];
    name.resize(20, 0x20);
    assert_eq!(
        rom_named(&name).name(),
        Some("\u{30c6}\u{30b9}\u{30c8}              ".to_string())
    );
    // half-width katakana takes one byte
    let mut name = vec![0xb1];
    name.resize(20, 0x20);
    assert_eq!(rom_named(&name).name().map(|n| n.chars().count()), Some(20));
    // a lead byte without its trail byte is refused
    let mut name = vec![0x20; 19];
    name.push(0x83);
    assert_eq!(rom_named(&name).name(), None);
    let mut name = vec![0x20; 20];
    name[3] = 0xff;
    assert_eq!(rom_named(&name).name(), None);
}

#[test]
fn rom_header_fields() {
    let mut bytes = vec![0u8; 4096];
    let header = 4096 - 0x220;
    for (i, byte) in bytes[header..header + 0x20].iter_mut().enumerate() {
        *byte = 0x40 + i as u8;
    }
    // what follows the header is none of it
    bytes[header + 0x20] = 0xff;
    let rom = Rom::new(bytes).unwrap();
    assert_eq!(rom.maker_code(), vec![0x57, 0x58, 0x59, 0x5a]);
    assert_eq!(rom.game_code(), vec![0x5b, 0x5c, 0x5d, 0x5e]);
    assert_eq!(rom.game_version_byte(), 0x5f);
    assert_eq!(rom.name(), Some("@ABCDEFGHIJKLMNOPQRS".to_string()));

    // in the smallest image the header lies in the first half
    let mut bytes = vec![0u8; 1024];
    bytes[1024 - 0x220 + 0x16] = b'-';
    bytes[1024 - 0x220 + 0x17] = b'M';
    bytes[1024 - 0x220 + 0x19] = b'0';
    bytes[1024 - 0x220 + 0x1a] = b'1';
    bytes[1024 - 0x220 + 0x1b] = b'V';
    bytes[1024 - 0x220 + 0x1f] = 2;
    let rom = Rom::new(bytes).unwrap();
    assert_eq!(rom.maker_code(), vec![b'M', 0, b'0', b'1']);
    assert_eq!(rom.game_code(), vec![b'V', 0, 0, 0]);
    assert_eq!(rom.game_version_byte(), 2);
}
