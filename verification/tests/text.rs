use rvemu::cpu::Cpu;
use rvemu::csr::{MCAUSE, MEPC, MIDELEG, MIE, MSTATUS, MTVEC, SCAUSE, SEPC, SIE, SSTATUS, STVEC};
use rvemu::dump::{format_csr, format_line, format_register, format_registers, format_value};

const ABI: [&str; 32] = [
    "zero", " ra ", " sp ", " gp ", " tp ", " t0 ", " t1 ", " t2 ", " s0 ", " s1 ", " a0 ", " a1 ",
    " a2 ", " a3 ", " a4 ", " a5 ", " a6 ", " a7 ", " s2 ", " s3 ", " s4 ", " s5 ", " s6 ", " s7 ",
    " s8 ", " s9 ", " s10", " s11", " t3 ", " t4 ", " t5 ", " t6 ",
];

fn expected_registers(registers: &[u64; 32]) -> String {
    let mut output = String::from("");
    for i in (0..32).step_by(4) {
        output = format!(
            "{}\n{}",
            output,
            format!(
                "x{:02}({})={:>#18x} x{:02}({})={:>#18x} x{:02}({})={:>#18x} x{:02}({})={:>#18x}",
                i,
                ABI[i],
                registers[i],
                i + 1,
                ABI[i + 1],
                registers[i + 1],
                i + 2,
                ABI[i + 2],
                registers[i + 2],
                i + 3,
                ABI[i + 3],
                registers[i + 3],
            )
        );
    }
    output
}

#[test]
fn values_are_right_aligned_hexadecimal() {
    assert_eq!(format_value(0), "               0x0");
    assert_eq!(format_value(1), "               0x1");
    assert_eq!(format_value(9), "               0x9");
    assert_eq!(format_value(10), "               0xa");
    assert_eq!(format_value(15), "               0xf");
    assert_eq!(format_value(16), "              0x10");
    assert_eq!(format_value(0x88000000), "        0x88000000");
    assert_eq!(format_value(0x0123_4567_89ab_cdef), " 0x123456789abcdef");
    assert_eq!(format_value(0x1000_0000_0000_0000), "0x1000000000000000");
    assert_eq!(format_value(u64::MAX), "0xffffffffffffffff");
    assert_eq!(format_value(0x0fff_ffff_ffff_ffff), " 0xfffffffffffffff");
    assert_eq!(format_value(0xa0b0_c0d0), "        0xa0b0c0d0");
}

#[test]
fn values_agree_with_the_standard_formatter() {
    let mut value = 1u64;
    for shift in 0..64 {
        for v in [value, value - 1, value | 0x5a5a_5a5a_5a5a_5a5a >> (63 - shift), !value] {
            let text = format_value(v);
            assert_eq!(text, format!("{:>#18x}", v));
            assert_eq!(text.len(), 18);
        }
        value = value.wrapping_shl(1);
    }
    for v in 0..0x1100u64 {
        assert_eq!(format_value(v), format!("{:>#18x}", v));
    }
}

#[test]
fn a_register_shows_index_name_and_value() {
    let mut registers = [0u64; 32];
    registers[2] = 0x8800_0000;
    registers[27] = 0xdead_beef;
    assert_eq!(format_register(&registers, 0), "x00(zero)=               0x0");
    assert_eq!(format_register(&registers, 2), "x02( sp )=        0x88000000");
    assert_eq!(format_register(&registers, 9), "x09( s1 )=               0x0");
    assert_eq!(format_register(&registers, 10), "x10( a0 )=               0x0");
    assert_eq!(format_register(&registers, 27), "x27( s11)=        0xdeadbeef");
    assert_eq!(format_register(&registers, 31), "x31( t6 )=               0x0");
    for i in 0..32 {
        let expected = format!("x{:02}({})={:>#18x}", i, ABI[i], registers[i]);
        assert_eq!(format_register(&registers, i), expected);
    }
}

#[test]
fn a_line_shows_four_registers() {
    let mut registers = [0u64; 32];
    for (i, register) in registers.iter_mut().enumerate() {
        *register = 0x1111 * i as u64;
    }
    assert_eq!(
        format_line(&registers, 4),
        "x04( tp )=            0x4444 x05( t0 )=            0x5555 x06( t1 )=            0x6666 x07( t2 )=            0x7777"
    );
    assert_eq!(
        format_line(&registers, 28),
        "x28( t3 )=           0x1dddc x29( t4 )=           0x1eeed x30( t5 )=           0x1fffe x31( t6 )=           0x2110f"
    );
}

#[test]
fn dump_of_a_new_cpu() {
    let cpu = Cpu::new(Vec::new());
    let text = cpu.dump_registers();
    let lines: Vec<&str> = text.split('\n').collect();
    assert_eq!(lines.len(), 9);
    assert_eq!(lines[0], "");
    assert_eq!(
        lines[1],
        "x00(zero)=               0x0 x01( ra )=               0x0 x02( sp )=        0x88000000 x03( gp )=               0x0"
    );
    assert_eq!(
        lines[8],
        "x28( t3 )=               0x0 x29( t4 )=               0x0 x30( t5 )=               0x0 x31( t6 )=               0x0"
    );
    assert_eq!(text, expected_registers(&cpu.registers));
    assert_eq!(text, format_registers(&cpu.registers));
}

#[test]
fn dump_of_registers_agrees_with_the_standard_formatter() {
    let mut cpu = Cpu::new(Vec::new());
    for i in 0..32 {
        cpu.registers[i] = (0x0123_4567_89ab_cdefu64).rotate_left(4 * i as u32) >> (2 * i);
    }
    assert_eq!(cpu.dump_registers(), expected_registers(&cpu.registers));
}

#[test]
fn a_csr_shows_name_and_value() {
    assert_eq!(format_csr("mstatus", 0x1888), "mstatus=            0x1888");
    assert_eq!(format_csr("sepc", 0x8000_0000), "sepc=        0x80000000");
    assert_eq!(format_csr("", 0), "=               0x0");
}

#[test]
fn dump_of_csrs_shows_the_trap_registers() {
    let mut cpu = Cpu::new(Vec::new());
    assert_eq!(
        cpu.dump_csrs(),
        "mstatus=               0x0 mtvec=               0x0 mepc=               0x0 mcause=               0x0\n\
         sstatus=               0x0 stvec=               0x0 sepc=               0x0 scause=               0x0"
    );
    let values = [
        (MSTATUS, 0x1880u64),
        (MTVEC, 0x8000_1000),
        (MEPC, 0x8000_0014),
        (MCAUSE, 11),
        (SSTATUS, 0x122),
        (STVEC, 0x8000_2000),
        (SEPC, 0xffff_ffff_ffff_fffc),
        (SCAUSE, 2),
    ];
    for (addr, value) in values {
        cpu.store_csr(addr, value);
    }
    let expected = format!(
        "{}\n{}",
        format!(
            "mstatus={:>#18x} mtvec={:>#18x} mepc={:>#18x} mcause={:>#18x}",
            0x1880, 0x8000_1000u64, 0x8000_0014u64, 11,
        ),
        format!(
            "sstatus={:>#18x} stvec={:>#18x} sepc={:>#18x} scause={:>#18x}",
            0x122, 0x8000_2000u64, 0xffff_ffff_ffff_fffcu64, 2,
        ),
    );
    assert_eq!(cpu.dump_csrs(), expected);
    cpu.store_csr(MIE, 0xff);
    cpu.store_csr(MIDELEG, 0x0f);
    assert_eq!(cpu.load_csr(SIE), 0x0f);
    assert_eq!(cpu.dump_csrs(), expected);
}
