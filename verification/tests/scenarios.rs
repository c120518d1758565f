//! End-to-end simulation scenarios: decode a flat image, run it, and check
//! the final state report (and, where enabled, the clock totals).

use sim8086::decode_8086;
use sim8086::program::Program;
use sim8086::simulator::Simulator;

fn simulate(bytes: &[u8]) -> Simulator {
    let instructions = decode_8086(bytes).unwrap();
    let mut simulator = Simulator::default();
    let mut program = Program::from_insts(instructions).unwrap();
    simulator.exec(&mut program).unwrap();
    simulator
}

fn simulate_with_clock_estimation(bytes: &[u8]) -> Simulator {
    let instructions = decode_8086(bytes).unwrap();
    let mut simulator = Simulator::default();
    simulator.enable_cycle_estimation();
    let mut program = Program::from_insts(instructions).unwrap();
    simulator.exec(&mut program).unwrap();
    simulator
}

#[test]
fn simulate_immediate_movs() {
    let bytes: [u8; 24] = [
        0xB8, 0x01, 0x00, 0xBB, 0x02, 0x00, 0xB9, 0x03, 0x00, 0xBA, 0x04, 0x00, 0xBC, 0x05,
        0x00, 0xBD, 0x06, 0x00, 0xBE, 0x07, 0x00, 0xBF, 0x08, 0x00,
    ];
    let output = simulate(&bytes).state_text();
    let expected = r#"Final registers:
      ax: 0x0001 (1)
      bx: 0x0002 (2)
      cx: 0x0003 (3)
      dx: 0x0004 (4)
      sp: 0x0005 (5)
      bp: 0x0006 (6)
      si: 0x0007 (7)
      di: 0x0008 (8)"#;
    assert_eq!(output.trim(), expected);
}

#[test]
fn simulate_register_movs() {
    let bytes: [u8; 28] = [
        0xB8, 0x01, 0x00, 0xBB, 0x02, 0x00, 0xB9, 0x03, 0x00, 0xBA, 0x04, 0x00, 0x89, 0xC4,
        0x89, 0xDD, 0x89, 0xCE, 0x89, 0xD7, 0x89, 0xE2, 0x89, 0xE9, 0x89, 0xF3, 0x89, 0xF8,
    ];
    let output = simulate(&bytes).state_text();
    let expected = r#"Final registers:
      ax: 0x0004 (4)
      bx: 0x0003 (3)
      cx: 0x0002 (2)
      dx: 0x0001 (1)
      sp: 0x0001 (1)
      bp: 0x0002 (2)
      si: 0x0003 (3)
      di: 0x0004 (4)"#;
    assert_eq!(output.trim(), expected);
}

#[test]
fn simulate_add_sub_cmp() {
    let bytes: [u8; 24] = [
        0xBB, 0x03, 0xF0, 0xB9, 0x01, 0x0F, 0x29, 0xCB, 0xBC, 0xE6, 0x03, 0xBD, 0xE7, 0x03,
        0x39, 0xE5, 0x81, 0xC5, 0x03, 0x04, 0x81, 0xED, 0xEA, 0x07,
    ];
    let output = simulate(&bytes).state_text();
    let expected = r#"Final registers:
      bx: 0xe102 (57602)
      cx: 0x0f01 (3841)
      sp: 0x03e6 (998)
   flags: PZ"#;
    assert_eq!(output.trim(), expected);
}

#[test]
fn simulate_ip_register() {
    let bytes: [u8; 14] = [
        0xB9, 0xC8, 0x00, 0x89, 0xCB, 0x81, 0xC1, 0xE8, 0x03, 0xBB, 0xD0, 0x07, 0x29, 0xD9,
    ];
    let mut sim = simulate(&bytes);
    sim.enable_ip_log();
    let output = sim.state_text();
    let expected = r#"Final registers:
      bx: 0x07d0 (2000)
      cx: 0xfce0 (64736)
      ip: 0x000e (14)
   flags: CS"#;
    assert_eq!(output.trim(), expected);
}

#[test]
fn simulate_conditional_jumps() {
    let bytes: [u8; 14] = [
        0xB9, 0x03, 0x00, 0xBB, 0xE8, 0x03, 0x83, 0xC3, 0x0A, 0x83, 0xE9, 0x01, 0x75, 0xF8,
    ];
    let mut sim = simulate(&bytes);
    sim.enable_ip_log();
    let output = sim.state_text();
    let expected = r#"Final registers:
      bx: 0x0406 (1030)
      ip: 0x000e (14)
   flags: PZ"#;
    assert_eq!(output.trim(), expected);
}

#[test]
fn simulate_memory_mov() {
    let bytes: [u8; 48] = [
        0xC7, 0x06, 0xE8, 0x03, 0x01, 0x00, 0xC7, 0x06, 0xEA, 0x03, 0x02, 0x00, 0xC7, 0x06,
        0xEC, 0x03, 0x03, 0x00, 0xC7, 0x06, 0xEE, 0x03, 0x04, 0x00, 0xBB, 0xE8, 0x03, 0xC7,
        0x47, 0x04, 0x0A, 0x00, 0x8B, 0x1E, 0xE8, 0x03, 0x8B, 0x0E, 0xEA, 0x03, 0x8B, 0x16,
        0xEC, 0x03, 0x8B, 0x2E, 0xEE, 0x03,
    ];
    let mut sim = simulate(&bytes);
    sim.enable_ip_log();
    let output = sim.state_text();
    let expected = r#"Final registers:
      bx: 0x0001 (1)
      cx: 0x0002 (2)
      dx: 0x000a (10)
      bp: 0x0004 (4)
      ip: 0x0030 (48)"#;
    assert_eq!(output.trim(), expected);
}

#[test]
fn simulate_memory_add_loop() {
    let bytes: [u8; 35] = [
        0xBA, 0x06, 0x00, 0xBD, 0xE8, 0x03, 0xBE, 0x00, 0x00, 0x89, 0x32, 0x83, 0xC6, 0x02,
        0x39, 0xD6, 0x75, 0xF7, 0xBB, 0x00, 0x00, 0xBE, 0x00, 0x00, 0x8B, 0x0A, 0x01, 0xCB,
        0x83, 0xC6, 0x02, 0x39, 0xD6, 0x75, 0xF5,
    ];
    let mut sim = simulate(&bytes);
    sim.enable_ip_log();
    let output = sim.state_text();
    let expected = r#"Final registers:
      bx: 0x0006 (6)
      cx: 0x0004 (4)
      dx: 0x0006 (6)
      bp: 0x03e8 (1000)
      si: 0x0006 (6)
      ip: 0x0023 (35)
   flags: PZ"#;
    assert_eq!(output.trim(), expected);
}

#[test]
fn simulate_memory_add_loop_challenge() {
    let bytes: [u8; 33] = [
        0xBA, 0x06, 0x00, 0xBD, 0xE8, 0x03, 0xBE, 0x00, 0x00, 0x89, 0x32, 0x83, 0xC6, 0x02,
        0x39, 0xD6, 0x75, 0xF7, 0xBB, 0x00, 0x00, 0x89, 0xD6, 0x83, 0xED, 0x02, 0x03, 0x1A,
        0x83, 0xEE, 0x02, 0x75, 0xF9,
    ];
    let mut sim = simulate(&bytes);
    sim.enable_ip_log();
    let output = sim.state_text();
    let expected = r#"Final registers:
      bx: 0x0006 (6)
      dx: 0x0006 (6)
      bp: 0x03e6 (998)
      ip: 0x0021 (33)
   flags: PZ"#;
    assert_eq!(output.trim(), expected);
}

#[test]
fn estimating_cycles() {
    let bytes: [u8; 55] = [
        0xBB, 0xE8, 0x03, 0xBD, 0xD0, 0x07, 0xBE, 0xB8, 0x0B, 0xBF, 0xA0, 0x0F, 0xB9, 0x00,
        0x00, 0x89, 0x1C, 0x89, 0x1C, 0x89, 0x1C, 0x89, 0x1C, 0x89, 0x1C, 0x01, 0x1C, 0xA1,
        0xE8, 0x03, 0xA1, 0xE8, 0x03, 0xA1, 0xE8, 0x03, 0xA1, 0xE8, 0x03, 0x03, 0x46, 0x01,
        0x01, 0xC0, 0x01, 0xC0, 0x01, 0xC0, 0x01, 0xC0, 0x01, 0xC0, 0x83, 0xC2, 0x32,
    ];
    let mut sim = simulate_with_clock_estimation(&bytes);
    sim.enable_ip_log();
    let output = sim.state_text();
    let expected = r#"Final registers:
      bx: 0x03e8 (1000)
      dx: 0x0032 (50)
      bp: 0x07d0 (2000)
      si: 0x0bb8 (3000)
      di: 0x0fa0 (4000)
      ip: 0x0037 (55)"#;
    assert_eq!(output.trim(), expected);
    assert_eq!(sim.clocks_8086(), 192);
    assert_eq!(sim.clocks_8088(), 236);
}

#[test]
fn ret_stops_the_run() {
    // mov ax, 1; ret; mov ax, 2 (never reached)
    let bytes: [u8; 7] = [0xB8, 0x01, 0x00, 0xC3, 0xB8, 0x02, 0x00];
    let sim = simulate(&bytes);
    assert_eq!(sim.registers.ax, 1);
    assert_eq!(sim.ip, 3);
}

#[test]
fn memory_dump_reflects_stores() {
    // mov word [1000], 0x0201
    let bytes: [u8; 6] = [0xC7, 0x06, 0xE8, 0x03, 0x01, 0x02];
    let sim = simulate(&bytes);
    let image = sim.dump_memory();
    assert_eq!(image.len(), 65536);
    assert_eq!(image[1000], 0x01);
    assert_eq!(image[1001], 0x02);
    assert_eq!(image[999], 0x00);
    assert_eq!(image[1002], 0x00);
}

#[test]
fn simulate_challenge_register_movs() {
    let bytes: [u8; 44] = [
        0xB8, 0x22, 0x22, 0xBB, 0x44, 0x44, 0xB9, 0x66, 0x66, 0xBA, 0x88, 0x88, 0x8E, 0xD0,
        0x8E, 0xDB, 0x8E, 0xC1, 0xB0, 0x11, 0xB7, 0x33, 0xB1, 0x55, 0xB6, 0x77, 0x88, 0xDC,
        0x88, 0xF1, 0x8E, 0xD0, 0x8E, 0xDB, 0x8E, 0xC1, 0x8C, 0xD4, 0x8C, 0xDD, 0x8C, 0xC6,
        0x89, 0xD7,
    ];
    let output = simulate(&bytes).state_text();
    let expected = r#"Final registers:
      ax: 0x4411 (17425)
      bx: 0x3344 (13124)
      cx: 0x6677 (26231)
      dx: 0x7788 (30600)
      sp: 0x4411 (17425)
      bp: 0x3344 (13124)
      si: 0x6677 (26231)
      di: 0x7788 (30600)
      ds: 0x3344 (13124)
      ss: 0x4411 (17425)
      es: 0x6677 (26231)"#;
    assert_eq!(output.trim(), expected);
}

#[test]
fn simulate_challenge_flags() {
    let bytes: [u8; 44] = [
        0x81, 0xC3, 0x30, 0x75, 0x81, 0xC3, 0x10, 0x27, 0x81, 0xEB, 0x88, 0x13, 0x81, 0xEB,
        0x88, 0x13, 0xBB, 0x01, 0x00, 0xB9, 0x64, 0x00, 0x01, 0xCB, 0xBA, 0x0A, 0x00, 0x29,
        0xD1, 0x81, 0xC3, 0x40, 0x9C, 0x83, 0xC1, 0xA6, 0xBC, 0x63, 0x00, 0xBD, 0x62, 0x00,
        0x39, 0xE5,
    ];
    let output = simulate(&bytes).state_text();
    let expected = r#"Final registers:
      bx: 0x9ca5 (40101)
      dx: 0x000a (10)
      sp: 0x0063 (99)
      bp: 0x0062 (98)
   flags: ACPS"#;
    assert_eq!(output.trim(), expected);
}

#[test]
fn simulate_challenge_jumps() {
    // a LOOPNZ count-down with trailing not-taken conditional jumps
    let bytes: [u8; 28] = [
        0xC7, 0xC0, 0x0A, 0x00, 0xBB, 0x0A, 0x00, 0xB9, 0x02, 0x00, 0x83, 0xC0, 0x01, 0x83,
        0xEB, 0x05, 0xE0, 0xF8, 0x83, 0xC0, 0x01, 0x83, 0xEB, 0x05, 0x74, 0x00, 0x7A, 0x00,
    ];
    let mut sim = simulate(&bytes);
    sim.enable_ip_log();
    let output = sim.state_text();
    let expected = r#"Final registers:
      ax: 0x000d (13)
      bx: 0xfffb (65531)
      ip: 0x001c (28)
   flags: ACS"#;
    assert_eq!(output.trim(), expected);
}
