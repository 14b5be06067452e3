use rustual_boy::argparse::{default_sram_path, CommandLineConfig};
use rustual_boy::command::{Command, ParseError};

fn parse(line: &str) -> Option<String> {
    match Command::from_str(line) {
        Ok(command) => Some(format!("{:?}", command)),
        Err(ParseError) => None,
    }
}

fn ok(text: &str) -> Option<String> {
    Some(text.to_string())
}

#[test]
fn commands_without_arguments() {
    assert_eq!(parse("showregs"), ok("ShowRegs"));
    assert_eq!(parse("r"), ok("ShowRegs"));
    assert_eq!(parse("step"), ok("Step"));
    assert_eq!(parse("s"), ok("Step"));
    assert_eq!(parse("label"), ok("Label"));
    assert_eq!(parse("l"), ok("Label"));
    for line in ["exit", "quit", "e", "x", "q"] {
        assert_eq!(parse(line), ok("Exit"));
    }
}

#[test]
fn the_empty_line_repeats() {
    assert_eq!(parse(""), ok("Repeat"));
}

#[test]
fn goto_takes_an_address() {
    assert_eq!(parse("goto 100"), ok("Goto(256)"));
    assert_eq!(parse("g 0x07000000"), ok("Goto(117440512)"));
    assert_eq!(parse("g $ffFFffF0"), ok("Goto(4294967280)"));
    assert_eq!(parse("g \t  0"), ok("Goto(0)"));
    assert_eq!(parse("g 0000000000000001"), ok("Goto(1)"));
    assert_eq!(parse("goto"), None);
    assert_eq!(parse("g"), None);
    assert_eq!(parse("g "), None);
    assert_eq!(parse("g10"), None);
    assert_eq!(parse("g 0x"), None);
    assert_eq!(parse("g xyz"), None);
    assert_eq!(parse("g 100000000"), None);
    assert_eq!(parse("g 10 "), None);
    assert_eq!(parse("g 10 20"), None);
    assert_eq!(parse("g $0x10"), None);
}

#[test]
fn show_mem_takes_an_address_or_none() {
    assert_eq!(parse("mem"), ok("ShowMem(None)"));
    assert_eq!(parse("m"), ok("ShowMem(None)"));
    assert_eq!(parse("mem 0x05000000"), ok("ShowMem(Some(83886080))"));
    assert_eq!(parse("m $10"), ok("ShowMem(Some(16))"));
    assert_eq!(parse("m 1f"), ok("ShowMem(Some(31))"));
    assert_eq!(parse("m "), None);
    assert_eq!(parse("m xyz"), None);
    assert_eq!(parse("m 100000000"), None);
    assert_eq!(parse("mem10"), None);
}

#[test]
fn the_first_word_that_fits_wins() {
    // `s` fits first and leaves the rest over
    assert_eq!(parse("showmem"), None);
    assert_eq!(parse("showmem 10"), None);
    assert_eq!(parse("st"), None);
    assert_eq!(parse("steps"), None);
    assert_eq!(parse("rr"), None);
    assert_eq!(parse("la"), None);
    assert_eq!(parse("ex"), None);
    assert_eq!(parse("qq"), None);
    assert_eq!(parse(" r"), None);
    assert_eq!(parse("r "), None);
    assert_eq!(parse("R"), None);
    assert_eq!(parse("help"), None);
}

#[test]
fn disassemble_takes_a_count_or_four() {
    assert_eq!(parse("disassemble"), ok("Disassemble(4)"));
    assert_eq!(parse("d"), ok("Disassemble(4)"));
    assert_eq!(parse("d 16"), ok("Disassemble(16)"));
    assert_eq!(parse("disassemble 0"), ok("Disassemble(0)"));
    assert_eq!(parse("d  007"), ok("Disassemble(7)"));
    assert_eq!(parse("d 1f"), None);
    assert_eq!(parse("d 0x10"), None);
    assert_eq!(parse("d "), None);
    assert_eq!(parse("d 99999999999999999999999999"), None);
    assert_eq!(parse("d -1"), None);
}

#[test]
fn add_label_takes_a_name_and_an_address() {
    assert_eq!(parse("addlabel .main 0x07000000"), ok("AddLabel(\"main\", 117440512)"));
    assert_eq!(parse("al .loop1 $10"), ok("AddLabel(\"loop1\", 16)"));
    assert_eq!(parse("al \t.A9z\t ff"), ok("AddLabel(\"A9z\", 255)"));
    assert_eq!(parse("al main 10"), None);
    assert_eq!(parse("al . 10"), None);
    assert_eq!(parse("al .main"), None);
    assert_eq!(parse("al .main "), None);
    assert_eq!(parse("al .main10"), None);
    assert_eq!(parse("al.main 10"), None);
    assert_eq!(parse("al .my_label 10"), None);
    assert_eq!(parse("al .main 10 x"), None);
    assert_eq!(parse("addlabel"), None);
    // `a` alone is no command
    assert_eq!(parse("a"), None);
}

#[test]
fn lines_that_are_not_ascii_are_no_commands() {
    assert_eq!(parse("é"), None);
    assert_eq!(parse("r\u{00e9}"), None);
    assert_eq!(parse("al .n\u{00e4}me 10"), None);
    assert_eq!(parse("g \u{ff11}\u{ff10}"), None);
    assert_eq!(parse("\u{0130}"), None);
}

#[test]
fn repeat_stands_for_the_last_command() {
    let resolved = Command::resolve(Command::Repeat, Some(Command::Goto(16)));
    assert_eq!(format!("{:?}", resolved), "Ok(Goto(16))");
    let resolved = Command::resolve(Command::Repeat, None);
    assert_eq!(format!("{:?}", resolved), "Err(ParseError)");
    let resolved = Command::resolve(Command::Step, Some(Command::Exit));
    assert_eq!(format!("{:?}", resolved), "Ok(Step)");
    let resolved = Command::resolve(Command::Label, None);
    assert_eq!(format!("{:?}", resolved), "Ok(Label)");
}

#[test]
fn the_cartridge_ram_lies_beside_the_rom() {
    assert_eq!(default_sram_path("game.vb"), "game.srm");
    assert_eq!(default_sram_path("roms/red alarm.vb"), "roms/red alarm.srm");
    assert_eq!(default_sram_path("game"), "game");
    assert_eq!(default_sram_path(""), "");
    assert_eq!(default_sram_path(".vb"), ".srm");
    assert_eq!(default_sram_path(".v"), ".v");
    // every occurrence is replaced
    assert_eq!(default_sram_path("a.vb/b.vb"), "a.srm/b.srm");
    assert_eq!(default_sram_path(".vb.vb"), ".srm.srm");
    assert_eq!(default_sram_path("..vbb.VB"), ".".to_string() + ".srmb.VB");
    assert_eq!(default_sram_path("spiel\u{00e4}.vb"), "spiel\u{00e4}.srm");
    assert_eq!(default_sram_path("game.vb").replace(".srm", ".vb"), "game.vb");
    for path in ["game.vb", "a.vb.vb.v", "x/y.vbz", "none"] {
        assert_eq!(default_sram_path(path), path.replace(".vb", ".srm"));
    }
}

#[test]
fn command_line_config() {
    let config = CommandLineConfig::new("game.vb".to_string(), None);
    assert_eq!(config.rom_path, "game.vb");
    assert_eq!(config.sram_path, "game.srm");
    let config = CommandLineConfig::new("game.vb".to_string(), Some("save.bin".to_string()));
    assert_eq!(config.rom_path, "game.vb");
    assert_eq!(config.sram_path, "save.bin");
}
