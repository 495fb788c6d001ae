use vm15::cpu::{Cpu, Step, VmError};

fn machine_with(words: Vec<u16>) -> Cpu {
    let mut cpu = Cpu::new();
    cpu.load_memory(&words);
    cpu
}

/// Runs until the machine halts or fails, collecting emitted code points.
fn run(cpu: &mut Cpu) -> Result<Vec<u16>, VmError> {
    let mut out: Vec<u16> = Vec::new();
    let mut fuel: i32 = 10_000;
    while cpu.enabled {
        assert!(fuel > 0, "program ran too long for a test");
        fuel -= 1;
        match cpu.execute()? {
            Step::Output(c) => out.push(c),
            Step::Continue => {}
            Step::Halted => {}
            Step::NeedInput => panic!("test program asked for input"),
        }
    }
    Ok(out)
}

#[test]
fn fresh_machine_is_all_zero() {
    let cpu = Cpu::new();
    assert!(cpu.enabled);
    assert_eq!(cpu.get_pc(), 0);
    assert_eq!(cpu.stack_len(), 0);
    for i in 0..8 {
        assert_eq!(cpu.get_register(i), 0);
    }
    assert_eq!(cpu.get_memory(0), 0);
    assert_eq!(cpu.get_memory(32767), 0);
}

#[test]
fn load_memory_fills_prefix_only() {
    let mut cpu = Cpu::new();
    cpu.load_memory(&vec![5, 6, 7]);
    assert_eq!(cpu.get_memory(0), 5);
    assert_eq!(cpu.get_memory(1), 6);
    assert_eq!(cpu.get_memory(2), 7);
    assert_eq!(cpu.get_memory(3), 0);
}

#[test]
fn resolve_literal_is_identity() {
    let cpu = Cpu::new();
    assert_eq!(cpu.reg_lit(0), Ok(0));
    assert_eq!(cpu.reg_lit(5), Ok(5));
    assert_eq!(cpu.reg_lit(32767), Ok(32767));
}

#[test]
fn resolve_alias_reads_register() {
    // set r0 = 9, then set r1 = r0: the alias 32768 resolves to r0.
    let mut cpu = machine_with(vec![1, 32768, 9, 1, 32769, 32768, 0]);
    run(&mut cpu).unwrap();
    assert_eq!(cpu.get_register(0), 9);
    assert_eq!(cpu.get_register(1), 9);
    assert_eq!(cpu.reg_lit(32768), Ok(9));
}

#[test]
fn resolve_rejects_words_past_the_aliases() {
    let cpu = Cpu::new();
    assert_eq!(cpu.reg_lit(32776), Err(VmError::InvalidRegister));
    assert_eq!(cpu.reg_lit(65535), Err(VmError::InvalidRegister));
    assert_eq!(cpu.reg_index(32776), Err(VmError::InvalidDestination));
    assert_eq!(cpu.reg_index(65535), Err(VmError::InvalidDestination));
    // a literal is never a valid destination either
    assert_eq!(cpu.reg_index(5), Err(VmError::InvalidDestination));
}

#[test]
fn push_of_invalid_source_fails() {
    let mut cpu = machine_with(vec![2, 32776]);
    assert_eq!(cpu.execute(), Err(VmError::InvalidRegister));
}

#[test]
fn set_to_literal_destination_fails() {
    let mut cpu = machine_with(vec![1, 5, 7]);
    assert_eq!(cpu.execute(), Err(VmError::InvalidDestination));
    assert_eq!(cpu.get_register(0), 0);
}

#[test]
fn add_wraps_modulo_32768() {
    let mut cpu = machine_with(vec![9, 32768, 32767, 1, 0]);
    run(&mut cpu).unwrap();
    assert_eq!(cpu.get_register(0), 0);
}

#[test]
fn mult_wraps_modulo_32768() {
    // 300 * 400 = 120000 = 3 * 32768 + 21696
    let mut cpu = machine_with(vec![10, 32768, 300, 400, 0]);
    run(&mut cpu).unwrap();
    assert_eq!(cpu.get_register(0), 21696);
}

#[test]
fn eq_and_gt_store_one_or_zero() {
    let mut cpu = machine_with(vec![4, 32768, 3, 3, 5, 32769, 2, 3, 0]);
    run(&mut cpu).unwrap();
    assert_eq!(cpu.get_register(0), 1);
    assert_eq!(cpu.get_register(1), 0);
}

#[test]
fn mod_and_bitwise_results() {
    // r0 = 17 mod 5, r1 = 12 & 10, r2 = 12 | 10
    let mut cpu = machine_with(vec![
        11, 32768, 17, 5, 12, 32769, 12, 10, 13, 32770, 12, 10, 0,
    ]);
    run(&mut cpu).unwrap();
    assert_eq!(cpu.get_register(0), 2);
    assert_eq!(cpu.get_register(1), 8);
    assert_eq!(cpu.get_register(2), 14);
}

#[test]
fn not_clears_bit_fifteen() {
    let mut cpu = machine_with(vec![14, 32768, 0, 14, 32769, 32767, 0]);
    run(&mut cpu).unwrap();
    assert_eq!(cpu.get_register(0), 32767);
    assert_eq!(cpu.get_register(1), 0);
    assert!(cpu.get_register(0) < 32768);
}

#[test]
fn wmem_then_rmem_round_trips() {
    let mut cpu = machine_with(vec![16, 10, 77, 15, 32768, 10, 0]);
    run(&mut cpu).unwrap();
    assert_eq!(cpu.get_memory(10), 77);
    assert_eq!(cpu.get_register(0), 77);
}

#[test]
fn stack_push_pop_round_trip() {
    // Scenario: push 5; pop into r0; halt.
    let mut cpu = machine_with(vec![2, 5, 3, 32768, 0]);
    run(&mut cpu).unwrap();
    assert_eq!(cpu.get_register(0), 5);
    assert_eq!(cpu.stack_len(), 0);
}

#[test]
fn pop_on_empty_stack_underflows() {
    let mut cpu = machine_with(vec![3, 32768]);
    assert_eq!(cpu.execute(), Err(VmError::StackUnderflow));
    assert_eq!(cpu.get_register(0), 0);
}

#[test]
fn ret_on_empty_stack_halts_without_error() {
    let mut cpu = machine_with(vec![18]);
    assert_eq!(cpu.execute(), Ok(Step::Halted));
    assert!(!cpu.enabled);
}

#[test]
fn call_and_ret_round_trip() {
    // call 4; halt sits at 2; ret at 4 returns to 2.
    let mut cpu = machine_with(vec![17, 4, 0, 21, 18]);
    assert_eq!(cpu.execute(), Ok(Step::Continue));
    assert_eq!(cpu.get_pc(), 4);
    assert_eq!(cpu.stack_len(), 1);
    assert_eq!(cpu.execute(), Ok(Step::Continue));
    assert_eq!(cpu.get_pc(), 2);
    assert_eq!(cpu.stack_len(), 0);
    assert_eq!(cpu.execute(), Ok(Step::Halted));
    assert!(!cpu.enabled);
}

#[test]
fn jt_takes_nonzero_and_jf_takes_zero() {
    let mut cpu = machine_with(vec![7, 1, 5, 0, 0, 8, 0, 9, 0, 0]);
    assert_eq!(cpu.execute(), Ok(Step::Continue));
    assert_eq!(cpu.get_pc(), 5);
    assert_eq!(cpu.execute(), Ok(Step::Continue));
    assert_eq!(cpu.get_pc(), 9);
    assert_eq!(cpu.execute(), Ok(Step::Halted));
}

#[test]
fn jt_falls_through_on_zero() {
    let mut cpu = machine_with(vec![7, 0, 9, 0]);
    assert_eq!(cpu.execute(), Ok(Step::Continue));
    assert_eq!(cpu.get_pc(), 3);
}

#[test]
fn jmp_resolves_its_target_twice() {
    // r0 = mem[8] = 32769 (the alias for r1), r1 = 9; jmp r0 lands on
    // resolve(resolve(32768)) = resolve(32769) = 9, where halt sits.
    let mut cpu = machine_with(vec![15, 32768, 8, 1, 32769, 9, 6, 32768, 32769, 0]);
    assert_eq!(cpu.execute(), Ok(Step::Continue));
    assert_eq!(cpu.execute(), Ok(Step::Continue));
    assert_eq!(cpu.execute(), Ok(Step::Continue));
    assert_eq!(cpu.get_pc(), 9);
    assert_eq!(cpu.execute(), Ok(Step::Halted));
}

#[test]
fn arithmetic_and_output_scenario() {
    // set r0 = 5; add r1 = r0 + 2; out r1; halt — emits code point 7.
    let mut cpu = machine_with(vec![1, 32768, 5, 9, 32769, 32768, 2, 19, 32769, 0]);
    let out = run(&mut cpu).unwrap();
    assert_eq!(out, vec![7]);
    assert!(!cpu.enabled);
}

#[test]
fn invalid_opcode_fails_without_moving() {
    let mut cpu = machine_with(vec![22]);
    assert_eq!(cpu.execute(), Err(VmError::InvalidOpcode));
    assert_eq!(cpu.get_pc(), 0);
    assert!(cpu.enabled);
    assert_eq!(cpu.stack_len(), 0);
}

#[test]
fn divide_by_zero_fails_and_leaves_registers() {
    let mut cpu = machine_with(vec![11, 32768, 5, 0]);
    assert_eq!(cpu.execute(), Err(VmError::DivideByZero));
    for i in 0..8 {
        assert_eq!(cpu.get_register(i), 0);
    }
    assert_eq!(cpu.get_pc(), 0);
}

#[test]
fn out_of_surrogate_fails() {
    // r0 = mem[5] = 55296 (a surrogate); out r0 must fail.
    let mut cpu = machine_with(vec![15, 32768, 5, 19, 32768, 55296]);
    assert_eq!(cpu.execute(), Ok(Step::Continue));
    assert_eq!(cpu.get_register(0), 55296);
    assert_eq!(cpu.execute(), Err(VmError::InvalidScalar));
}

#[test]
fn wmem_past_memory_fails() {
    // r0 = mem[6] = 40000; wmem to address r0 is out of range.
    let mut cpu = machine_with(vec![15, 32768, 6, 16, 32768, 0, 40000]);
    assert_eq!(cpu.execute(), Ok(Step::Continue));
    assert_eq!(cpu.execute(), Err(VmError::AddressOutOfRange));
    assert_eq!(cpu.get_memory(6), 40000);
}

#[test]
fn running_off_the_end_fails() {
    let mut words = vec![0u16; 32768];
    words[0] = 6; // jmp 32767
    words[1] = 32767;
    words[32767] = 21; // noop, so the counter steps past the last cell
    let mut cpu = machine_with(words);
    assert_eq!(cpu.execute(), Ok(Step::Continue));
    assert_eq!(cpu.execute(), Ok(Step::Continue));
    assert_eq!(cpu.execute(), Err(VmError::AddressOutOfRange));
}

#[test]
fn in_consumes_provided_line_byte_by_byte() {
    let mut cpu = machine_with(vec![20, 32768, 20, 32769, 0]);
    assert_eq!(cpu.execute(), Ok(Step::NeedInput));
    assert_eq!(cpu.get_pc(), 0);
    cpu.provide_input(vec![97, 98]);
    assert_eq!(cpu.execute(), Ok(Step::Continue));
    assert_eq!(cpu.execute(), Ok(Step::Continue));
    assert_eq!(cpu.get_register(0), 97);
    assert_eq!(cpu.get_register(1), 98);
    assert_eq!(cpu.execute(), Ok(Step::Halted));
}

#[test]
fn halt_reports_and_disables() {
    let mut cpu = machine_with(vec![0]);
    assert_eq!(cpu.execute(), Ok(Step::Halted));
    assert!(!cpu.enabled);
    assert_eq!(cpu.get_pc(), 1);
}

#[test]
fn noop_only_advances() {
    let mut cpu = machine_with(vec![21, 0]);
    assert_eq!(cpu.execute(), Ok(Step::Continue));
    assert_eq!(cpu.get_pc(), 1);
    assert_eq!(cpu.execute(), Ok(Step::Halted));
}
