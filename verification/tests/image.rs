use vm15::image::decode_image;

#[test]
fn decode_pairs_little_endian_bytes() {
    let words = decode_image(&vec![0x01, 0x00, 0x00, 0x80]);
    assert_eq!(words, vec![1, 32768]);
}

#[test]
fn decode_discards_a_trailing_lone_byte() {
    let words = decode_image(&vec![0x05, 0x00, 0xff]);
    assert_eq!(words, vec![5]);
}

#[test]
fn decode_of_nothing_is_nothing() {
    let words = decode_image(&Vec::new());
    assert_eq!(words, Vec::<u16>::new());
    let words = decode_image(&vec![0x09]);
    assert_eq!(words, Vec::<u16>::new());
}

#[test]
fn decoded_image_runs() {
    // The two-instruction program `out 7; halt`, as raw image bytes.
    let words = decode_image(&vec![19, 0, 7, 0, 0, 0]);
    assert_eq!(words, vec![19, 7, 0]);
    let mut cpu = vm15::cpu::Cpu::new();
    cpu.load_memory(&words);
    assert_eq!(cpu.execute(), Ok(vm15::cpu::Step::Output(7)));
    assert_eq!(cpu.execute(), Ok(vm15::cpu::Step::Halted));
}
