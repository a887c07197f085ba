//! Concrete checks of the library's pieces: the ALU, the decode tables, the micro-cycle queue,
//! the buses, and the core's handling of the input lines.
use rs65x::alu::{adc, asl, dec, inc, lsr, rol, ror, sbc, set_flag, trb, tsb, zn, DecimalSemantics};
use rs65x::bus::{Bus, Lines, OpenBus, SimpleBus};
use rs65x::common::{default_branch_penalty, set_zn16, set_zn8};
use rs65x::cpu6502::flavor::{
    Flavor, Rockwell65C02, Synertek65C02, CMOS65C02, NES, NMOS6502, WDC65C02,
};
use rs65x::cpu6502::ops::{
    bit_index_rmb, bit_index_smb, branch_bit_info, branch_taken, finish_implied, finish_read,
    h_plus_one_nonsense, modify, prepare_store, Registers,
};
use rs65x::cpu6502::Cpu6502;
use rs65x::fastmap::{FastMapBus16, PageKind};
use rs65x::cpu6502::flavor::Micro6502;
use rs65x::isa::microcycle::{AluOp, DecodeContext, MicroCycle, UcycQueue};
use rs65x::isa::op::{MicroExecutor, StepResult};
use rs65x::isa::table::{action_for_mnemonic, Instruction, Mnemonic, OpcodeTable};
use rs65x::isa::{AddressMode, BranchType, JumpType, Latch, MemoryAction, NoMemType, OffsetType};
use rs65x::psr::{B_6502, C, D, I, N, U_6502, V, Z};
use rs65x::{Cmos65c02, Nes6502, Nmos6502};

fn regs(a: u8, x: u8, y: u8, p: u8) -> Registers {
    Registers { a, x, y, s: 0xFD, p, pc: 0x8000 }
}

// ---------------------------------------------------------------------------------------------
// ALU
// ---------------------------------------------------------------------------------------------

#[test]
fn adc_binary_8bit_sets_carry_and_overflow() {
    let r = adc(0x50u8, 0x50u8, 0, DecimalSemantics::Nmos6502);
    assert_eq!(r.value, 0xA0);
    assert_eq!(r.flags & (N | V | Z | C), N | V);
    assert_eq!(r.flag_mask, N | Z | C | V);
    let r = adc(0xFFu8, 0x01u8, 0, DecimalSemantics::Nmos6502);
    assert_eq!(r.value, 0x00);
    assert_eq!(r.flags & (N | V | Z | C), Z | C);
}

#[test]
fn adc_binary_16bit() {
    let r = adc(0x7FFFu16, 0x0001u16, C, DecimalSemantics::Nmos6502);
    assert_eq!(r.value, 0x8001);
    assert_eq!(r.flags & (N | V | Z | C), N | V);
}

#[test]
fn adc_decimal_valid_bcd_is_decimal_sum() {
    // 58 + 46 + 1 = 105 -> 05 with carry, on every part with decimal mode
    for sem in [DecimalSemantics::Nmos6502, DecimalSemantics::Cmos65C02, DecimalSemantics::Wdc65C816] {
        let r = adc(0x58u8, 0x46u8, D | C, sem);
        assert_eq!(r.value, 0x05);
        assert_eq!(r.flags & C, C);
    }
    let r = adc(0x1234u16, 0x8765u16, D, DecimalSemantics::Wdc65C816);
    assert_eq!(r.value, 0x9999);
    assert_eq!(r.flags & C, 0);
}

#[test]
fn adc_binary_semantics_ignore_d() {
    let r = adc(0x09u8, 0x01u8, D, DecimalSemantics::Binary);
    assert_eq!(r.value, 0x0A);
    let r = adc(0x09u8, 0x01u8, D, DecimalSemantics::Nmos6502);
    assert_eq!(r.value, 0x10);
}

#[test]
fn sbc_binary_and_decimal() {
    let r = sbc(0x10u8, 0x01u8, C, DecimalSemantics::Nmos6502);
    assert_eq!(r.value, 0x0F);
    assert_eq!(r.flags & C, C);
    let r = sbc(0x00u8, 0x01u8, C, DecimalSemantics::Nmos6502);
    assert_eq!(r.value, 0xFF);
    assert_eq!(r.flags & (C | N), N);
    // 46 - 12 = 34 in decimal on both NMOS and CMOS
    for sem in [DecimalSemantics::Nmos6502, DecimalSemantics::Cmos65C02] {
        let r = sbc(0x46u8, 0x12u8, D | C, sem);
        assert_eq!(r.value, 0x34);
        assert_eq!(r.flags & C, C);
    }
    // 12 - 21 borrows: 91 with carry clear
    let r = sbc(0x12u8, 0x21u8, D | C, DecimalSemantics::Cmos65C02);
    assert_eq!(r.value, 0x91);
    assert_eq!(r.flags & (C | N | Z), N);
}

#[test]
fn cmos_and_nmos_decimal_sbc_agree_on_bcd() {
    for hi_a in 0u8..10 {
        for lo_a in 0u8..10 {
            for hi_b in 0u8..10 {
                for lo_b in 0u8..10 {
                    let a = hi_a * 16 + lo_a;
                    let b = hi_b * 16 + lo_b;
                    for carry in [0, C] {
                        let nmos = sbc(a, b, D | carry, DecimalSemantics::Nmos6502);
                        let cmos = sbc(a, b, D | carry, DecimalSemantics::Cmos65C02);
                        assert_eq!(nmos.value, cmos.value, "{a:02X} - {b:02X}");
                        // the decimal difference, modulo 100
                        let expect = (100 + (hi_a * 10 + lo_a) as i32 - (hi_b * 10 + lo_b) as i32
                            - if carry == 0 { 1 } else { 0 })
                            % 100;
                        assert_eq!(nmos.value, ((expect / 10) * 16 + expect % 10) as u8);
                    }
                }
            }
        }
    }
}

#[test]
fn shifts_and_rotates() {
    let r = asl(0x81u8);
    assert_eq!(r.value, 0x02);
    assert_eq!(r.flags & (N | Z | C), C);
    let r = lsr(0x01u8);
    assert_eq!(r.value, 0x00);
    assert_eq!(r.flags & (N | Z | C), Z | C);
    let r = rol(0x80u8, true);
    assert_eq!(r.value, 0x01);
    assert_eq!(r.flags & C, C);
    let r = ror(0x01u8, true);
    assert_eq!(r.value, 0x80);
    assert_eq!(r.flags & (N | C), N | C);
    let r = ror(0x0001u16, true);
    assert_eq!(r.value, 0x8000);
    // ROR undoes ROL through the carry
    let there = rol(0x5Au8, true);
    let back = ror(there.value, there.flags & C != 0);
    assert_eq!(back.value, 0x5A);
}

#[test]
fn inc_dec_tsb_trb_zn() {
    assert_eq!(inc(0xFFu8).value, 0x00);
    assert_eq!(inc(0xFFu8).flags & Z, Z);
    assert_eq!(dec(0x00u8).value, 0xFF);
    assert_eq!(dec(0x00u8).flags & N, N);
    assert_eq!(dec(inc(0x37u8).value).value, 0x37);
    let r = tsb(0x05u8, 0x14u8);
    assert_eq!(r.value, 0x15);
    assert_eq!(r.flags & Z, 0);
    assert_eq!(r.flag_mask, Z);
    let r = trb(0x03u8, 0x14u8);
    assert_eq!(r.value, 0x14);
    assert_eq!(r.flags & Z, Z);
    let r = zn(0x8000u16);
    assert_eq!(r.flags, N);
}

#[test]
fn apply_replaces_only_masked_flags() {
    let mut p = U_6502 | D | I | C;
    let v = asl(0x40u8).apply(&mut p);
    assert_eq!(v, 0x80);
    assert_eq!(p, U_6502 | D | I | N);
    let mut q = 0u8;
    set_flag(&mut q, V, true);
    assert_eq!(q, V);
    set_flag(&mut q, V, false);
    assert_eq!(q, 0);
}

#[test]
fn set_zn_and_branch_penalty() {
    let mut p = C | V;
    set_zn8(&mut p, 0);
    assert_eq!(p, C | V | Z);
    set_zn8(&mut p, 0x80);
    assert_eq!(p, C | V | N);
    let mut p = 0;
    set_zn16(&mut p, 0x8000);
    assert_eq!(p, N);
    assert_eq!(default_branch_penalty(false, false), 0);
    assert_eq!(default_branch_penalty(true, false), 1);
    assert_eq!(default_branch_penalty(true, true), 2);
}

// ---------------------------------------------------------------------------------------------
// Instruction semantics
// ---------------------------------------------------------------------------------------------

#[test]
fn finish_read_loads_and_compares() {
    let mut r = regs(0, 0, 0, U_6502);
    assert_eq!(finish_read(&mut r, Mnemonic::Lda, 0x80, DecimalSemantics::Nmos6502), None);
    assert_eq!(r.a, 0x80);
    assert_eq!(r.p, U_6502 | N);
    let mut r = regs(0x40, 0, 0, U_6502);
    finish_read(&mut r, Mnemonic::Cmp, 0x40, DecimalSemantics::Nmos6502);
    assert_eq!(r.p, U_6502 | Z | C);
    let mut r = regs(0, 0, 0, U_6502 | I);
    assert_eq!(finish_read(&mut r, Mnemonic::Plp, 0xFF, DecimalSemantics::Nmos6502), Some(true));
    assert_eq!(r.p, 0xFF & !B_6502);
    let mut r = regs(0x0F, 0, 0, U_6502 | C);
    finish_read(&mut r, Mnemonic::Bit, 0xC0, DecimalSemantics::Nmos6502);
    assert_eq!(r.p, U_6502 | C | N | V | Z);
    assert_eq!(r.a, 0x0F);
}

#[test]
fn finish_read_undocumented() {
    let mut r = regs(0xFF, 0, 0, U_6502);
    finish_read(&mut r, Mnemonic::Lax, 0x42, DecimalSemantics::Nmos6502);
    assert_eq!((r.a, r.x), (0x42, 0x42));
    let mut r = regs(0xF0, 0x3C, 0, U_6502);
    finish_read(&mut r, Mnemonic::Sbx, 0x10, DecimalSemantics::Nmos6502);
    assert_eq!(r.x, 0x20);
    assert_eq!(r.p & C, C);
    let mut r = regs(0xFF, 0, 0, U_6502);
    finish_read(&mut r, Mnemonic::Anc, 0x80, DecimalSemantics::Nmos6502);
    assert_eq!(r.a, 0x80);
    assert_eq!(r.p & (N | C), N | C);
    let mut r = regs(0xFF, 0, 0, U_6502 | C);
    finish_read(&mut r, Mnemonic::Arr, 0x81, DecimalSemantics::Nmos6502);
    assert_eq!(r.a, 0xC0);
    assert_eq!(r.p & (C | V | N), C | V | N);
}

#[test]
fn finish_implied_transfers_and_flags() {
    let mut r = regs(0x00, 0x80, 0, U_6502);
    finish_implied(&mut r, Mnemonic::Txa);
    assert_eq!(r.a, 0x80);
    assert_eq!(r.p & N, N);
    finish_implied(&mut r, Mnemonic::Txs);
    assert_eq!(r.s, 0x80);
    let mut r = regs(0, 0, 0, U_6502);
    assert_eq!(finish_implied(&mut r, Mnemonic::Sei), Some(false));
    assert_eq!(r.p & I, I);
    assert_eq!(finish_implied(&mut r, Mnemonic::Cli), Some(true));
    assert_eq!(r.p & I, 0);
    let mut r = regs(0, 0, 0xFF, U_6502);
    finish_implied(&mut r, Mnemonic::Iny);
    assert_eq!(r.y, 0);
    assert_eq!(r.p & Z, Z);
}

#[test]
fn modify_and_store_values() {
    let mut r = regs(0x01, 0, 0, U_6502);
    let mut s = MicroExecutor::new();
    s.op0 = 0x80;
    modify(&mut r, &mut s, Mnemonic::Slo, 0x07, DecimalSemantics::Nmos6502);
    assert_eq!(s.op0, 0x00);
    assert_eq!(r.a, 0x01);
    assert_eq!(r.p & C, C);
    let mut r = regs(0, 0, 0, U_6502);
    let mut s = MicroExecutor::new();
    s.op0 = 0xFF;
    modify(&mut r, &mut s, Mnemonic::Undefined, 0x37, DecimalSemantics::Cmos65C02);
    assert_eq!(s.op0, 0xF7); // RMB3
    s.op0 = 0x00;
    modify(&mut r, &mut s, Mnemonic::Undefined, 0xC7, DecimalSemantics::Cmos65C02);
    assert_eq!(s.op0, 0x10); // SMB4
    let mut r = regs(0xF0, 0x3C, 0, U_6502);
    let mut s = MicroExecutor::new();
    s.memory_action = MemoryAction::Write;
    prepare_store(&mut r, &mut s, Mnemonic::Sax);
    assert_eq!(s.data_latch, 0x30);
    prepare_store(&mut r, &mut s, Mnemonic::Php);
    assert_eq!(s.data_latch, U_6502 | B_6502);
}

#[test]
fn h_plus_one_store_address() {
    // no page cross: value = A & X & (H + 1), address unchanged
    let mut ea: u32 = 0x1234;
    let v = h_plus_one_nonsense(&mut ea, 0xFF, 0x04, 0xFF);
    assert_eq!(v, 0x13);
    assert_eq!(ea, 0x1234);
    // page crossed: the value replaces the high byte
    let mut ea: u32 = 0x1302;
    let v = h_plus_one_nonsense(&mut ea, 0xFF, 0x04, 0xFF);
    assert_eq!(v, 0x13);
    assert_eq!(ea, 0x1302);
    let mut ea: u32 = 0x1302;
    let v = h_plus_one_nonsense(&mut ea, 0x0F, 0x04, 0xFF);
    assert_eq!(v, 0x03);
    assert_eq!(ea, 0x0302);
}

#[test]
fn bit_opcode_decoding() {
    assert_eq!(bit_index_rmb(0x37), Some(3));
    assert_eq!(bit_index_rmb(0xB7), None);
    assert_eq!(bit_index_smb(0xB7), Some(3));
    assert_eq!(bit_index_smb(0x38), None);
    assert_eq!(branch_bit_info(0x2F), Some((2, false)));
    assert_eq!(branch_bit_info(0xAF), Some((2, true)));
    assert_eq!(branch_bit_info(0xAE), None);
    assert!(branch_taken(0, Mnemonic::Undefined, 0xAF, 0x04));
    assert!(!branch_taken(0, Mnemonic::Undefined, 0x2F, 0x04));
    assert!(branch_taken(Z, Mnemonic::Beq, 0xF0, 0));
    assert!(!branch_taken(Z, Mnemonic::Bne, 0xD0, 0));
    assert!(branch_taken(0, Mnemonic::Bra, 0x80, 0));
}

// ---------------------------------------------------------------------------------------------
// Decode tables
// ---------------------------------------------------------------------------------------------

#[test]
fn tables_decode_known_opcodes() {
    let i = Instruction::from_byte(0xA9, OpcodeTable::Nmos);
    assert_eq!(i.mnemonic, Mnemonic::Lda);
    assert_eq!(i.address_mode, AddressMode::NoMemory(NoMemType::Immediate));
    assert_eq!(i.memory_action, MemoryAction::Read);
    let i = OpcodeTable::Cmos.decode(0x9C);
    assert_eq!(i.mnemonic, Mnemonic::Stz);
    assert_eq!(i.memory_action, MemoryAction::Write);
    let i = OpcodeTable::Nmos.decode(0x02);
    assert_eq!(i.mnemonic, Mnemonic::Jam);
    assert_eq!(i.address_mode, AddressMode::Jam);
    let i = OpcodeTable::Cmos.decode(0x0F);
    assert_eq!(i.address_mode, AddressMode::Branch(BranchType::DpRelative));
    let i = OpcodeTable::Cmos.decode(0x6C);
    assert_eq!(i.address_mode, AddressMode::Jump(JumpType::JmpIndirect));
    assert_eq!(OpcodeTable::Nmos.decode(0x87).mnemonic, Mnemonic::Sax);
    assert_eq!(OpcodeTable::Nmos.decode(0x87).memory_action, MemoryAction::Write);
    assert_eq!(OpcodeTable::Nmos.decode(0x07).memory_action, MemoryAction::ReadModifyWrite);
}

#[test]
fn part_tables_differ_where_parts_differ() {
    assert_eq!(OpcodeTable::Cmos.decode(0xCB).mnemonic, Mnemonic::Wai);
    assert_eq!(OpcodeTable::Rockwell.decode(0xCB).mnemonic, Mnemonic::Undefined);
    assert_eq!(OpcodeTable::Rockwell.decode(0x07).mnemonic, Mnemonic::Rmb0);
    assert_eq!(OpcodeTable::Synertek.decode(0x07).mnemonic, Mnemonic::Undefined);
    assert_eq!(OpcodeTable::Synertek.decode(0xA9).mnemonic, Mnemonic::Lda);
    assert_eq!(OpcodeTable::Cmos.decode(0x02).mnemonic, Mnemonic::Undefined);
    assert_eq!(
        OpcodeTable::Wdc816.decode(0xAF).address_mode,
        AddressMode::AbsoluteLong(OffsetType::NoOffset)
    );
}

#[test]
fn nmos_table_defines_every_opcode() {
    for op in 0u8..=255 {
        assert_ne!(OpcodeTable::Nmos.decode(op).mnemonic, Mnemonic::Undefined, "opcode {op:02X}");
    }
    for op in 0u8..=255 {
        let i = OpcodeTable::Cmos.decode(op);
        assert_ne!(i.mnemonic, Mnemonic::Jam);
        if i.address_mode == AddressMode::Stack {
            assert_ne!(i.memory_action, MemoryAction::ReadModifyWrite);
        }
        assert_eq!(i.memory_action, action_for_mnemonic(i.mnemonic));
    }
}

#[test]
fn names() {
    assert_eq!(Mnemonic::Lda.name(), "Lda");
    assert_eq!(Mnemonic::Undefined.name(), "Und");
    assert_eq!(AddressMode::Absolute(OffsetType::X).name(), "AbsoluteX");
    assert_eq!(AddressMode::Jump(JumpType::ToSubroutine).name(), "Special (Jsr)");
    assert_eq!(AddressMode::CmosNop(2, 3).name(), "CMOS Nop, 2 bytes, 3 cycles");
    assert_eq!(AddressMode::CmosNop(1, 120).name(), "CMOS Nop, 1 bytes, 120 cycles");
    assert_eq!(AddressMode::CmosNop(3, 8).name(), "CMOS Nop, 3 bytes, 8 cycles");
    assert_eq!(NMOS6502::name(), "NMOS6502");
    assert_eq!(NES::name(), "Ricoh 2A03/2A07");
    assert_eq!(NES::decimal(), DecimalSemantics::Binary);
    assert_eq!(Synertek65C02::decimal_adc_immediate_read(), 0x56);
    assert_eq!(Rockwell65C02::opcode_table(), OpcodeTable::Rockwell);
    assert_eq!(WDC65C02::opcode_table(), OpcodeTable::Cmos);
}

// ---------------------------------------------------------------------------------------------
// Micro-cycle queue
// ---------------------------------------------------------------------------------------------

#[test]
fn queue_is_fifo() {
    let mut q = UcycQueue::new();
    assert!(q.is_empty());
    let a = MicroCycle::read(Latch::Pc, Latch::Op0, true);
    let b = MicroCycle::alu_write();
    q.push(a);
    q.push(b);
    assert_eq!(q.len(), 2);
    assert_eq!(q.front(), Some(a));
    assert_eq!(q.pop(), Some(a));
    q.dec_head();
    assert_eq!(q.pop(), Some(a));
    q.insert(b);
    assert_eq!(q.pop(), Some(b));
    assert_eq!(q.pop(), Some(b));
    assert_eq!(q.pop(), None);
    assert!(q.is_empty());
    q.push(a);
    q.clear();
    assert_eq!(q.len(), 0);
}

#[test]
fn emitting_a_mode_appends_to_queued_cycles() {
    let mut q = UcycQueue::new();
    let first = MicroCycle::alu_write();
    q.push(first);
    let ctx = DecodeContext {
        e_flag: true,
        m_flag: true,
        x_flag: true,
        action: MemoryAction::Read,
        modify_read: false,
        opcode: 0xA5,
    };
    AddressMode::DirectPage(OffsetType::NoOffset).emit_ucycs::<Micro6502>(&mut q, ctx);
    // the queued cycle stays in front; LDA zp adds the operand read and the data read
    assert_eq!(q.len(), 3);
    assert_eq!(q.pop(), Some(first));
    assert_eq!(q.pop(), Some(MicroCycle::read(Latch::Pc, Latch::EaLo, true)));
    assert_eq!(q.pop(), Some(MicroCycle::read(Latch::Ea, Latch::Op0, false)));
    assert_eq!(q.pop(), None);
}

#[test]
fn queue_returns_a_full_run_in_push_order() {
    let mut q = UcycQueue::new();
    let cycles: Vec<MicroCycle> =
        (0u16..14).map(|k| MicroCycle::read(Latch::Constant(k), Latch::Discard, false)).collect();
    for c in &cycles {
        q.push(*c);
    }
    for c in &cycles {
        assert_eq!(q.pop(), Some(*c));
    }
    assert_eq!(q.pop(), None);
    assert!(q.is_empty());
}

#[test]
fn micro_cycle_constructors() {
    let r = MicroCycle::read(Latch::Pc, Latch::Op0, true);
    assert!(r.bus.vpa && !r.bus.vda && r.bus.read && r.inc_src);
    let r = MicroCycle::read(Latch::Ea, Latch::Op0, false);
    assert!(!r.bus.vpa && r.bus.vda);
    let p = MicroCycle::push(Latch::PcHi);
    assert!(!p.bus.read);
    assert_eq!(p.alu, AluOp::DecSp);
    assert_eq!(MicroCycle::read_pc_set_pc(0x1234).alu, AluOp::SetPc(0x1234));
    assert_eq!(MicroCycle::opcode_fetch().alu, AluOp::NextOpcode);
    // an instruction fetch is a program read: VPA high, VDA low
    assert!(MicroCycle::opcode_fetch().bus.vpa && !MicroCycle::opcode_fetch().bus.vda);
}

// ---------------------------------------------------------------------------------------------
// Buses
// ---------------------------------------------------------------------------------------------

#[test]
fn simple_bus_reads_back_writes() {
    let mut bus = SimpleBus::with_program(0x8000, &[0xA9, 0x42]);
    assert_eq!(bus.read(0x8001, true, false), (0x42, 0));
    assert_eq!(bus.write(0x1_0010, 0x99, true, false), 0);
    assert_eq!(bus.read(0x0010, true, false).0, 0x99);
    bus.set_reset_vector(0x8000);
    bus.set_irq_vector(0x9000);
    bus.set_nmi_vector(0xA000);
    assert_eq!((bus.ram[0xFFFC], bus.ram[0xFFFD]), (0x00, 0x80));
    assert_eq!((bus.ram[0xFFFE], bus.ram[0xFFFF]), (0x00, 0x90));
    assert_eq!((bus.ram[0xFFFA], bus.ram[0xFFFB]), (0x00, 0xA0));
    bus.lines_mut().irq = true;
    assert!(bus.sample_lines().irq);
    let mut b2 = SimpleBus::new();
    b2.load(0xFFFF, &[1, 2]);
    assert_eq!((b2.ram[0xFFFF], b2.ram[0x0000]), (1, 2));
}

#[test]
fn lines_default_is_inactive() {
    let l = Lines::default();
    assert_eq!(l, Lines::none());
    assert!(l.rdy && l.be && !l.irq && !l.nmi && !l.abort_);
    let mut o = OpenBus::default();
    assert_eq!(o.sample(), 0);
    o.drive(0x5A);
    assert_eq!(o.sample(), 0x5A);
}

#[test]
fn fastmap_pages() {
    let mut ram = vec![0u8; 0x1000];
    ram[5] = 0x77;
    let rom = vec![0xEAu8; 0x1000];
    let mut bus = FastMapBus16::new();
    bus.map_ram_page_at(0x2000, &mut ram);
    bus.map_rom_page_idx(0xF, &rom);
    assert_eq!(bus.read(0x2005, true, false).0, 0x77);
    bus.write(0x2006, 0x12, true, false);
    assert_eq!(bus.read(0x2006, true, false).0, 0x12);
    // ROM ignores writes, but the value is driven onto the bus
    bus.write(0xF000, 0x00, true, false);
    assert_eq!(bus.read(0xF000, true, false).0, 0xEA);
    // open pages read the last value seen on the bus
    bus.write(0x4000, 0x3C, true, false);
    assert_eq!(bus.open_bus_value(), 0x3C);
    assert_eq!(bus.read(0x4000, true, false).0, 0x3C);
    assert_eq!(bus.page_bytes(2)[6], 0x12);
    bus.map_open_page_idx(2);
    assert_eq!(bus.read(0x2006, true, false).0, 0x3C);
    bus.set_irq(true);
    bus.set_rdy(false);
    let l = bus.sample_lines();
    assert!(l.irq && !l.rdy);
    let _ = PageKind::Ram;
}

#[test]
fn fastmap_open_bus_holds_the_last_access() {
    let rom = vec![0x5Au8; 0x1000];
    let mut bus = FastMapBus16::new();
    assert_eq!(bus.open_bus_value(), 0);
    assert_eq!(bus.read(0x4000, true, false).0, 0);
    bus.map_rom_page_idx(1, &rom);
    assert_eq!(bus.read(0x1234, true, false).0, 0x5A);
    assert_eq!(bus.open_bus_value(), 0x5A);
    assert_eq!(bus.read(0x4000, true, false).0, 0x5A);
    bus.write(0x1000, 0x07, true, false); // ROM keeps its byte, the bus carries the write
    assert_eq!(bus.read(0x8000, true, false).0, 0x07);
    assert_eq!(bus.read(0x1000, true, false).0, 0x5A);
}

#[test]
fn fastmap_ram_pages_are_the_callers_memory() {
    let mut low = vec![0u8; 0x1000];
    let mut high = vec![0u8; 0x1000];
    high[0x10] = 0x99;
    {
        let mut bus = FastMapBus16::new();
        bus.map_ram_page_idx(0, &mut low);
        // the page holding $1_2345 in a 16-bit space is page 2
        bus.map_ram_page_at(0x1_2345, &mut high);
        bus.write(0x0123, 0xAB, true, false);
        bus.write(0x2345, 0xCD, true, false);
        assert_eq!(bus.read(0x2010, true, false).0, 0x99);
        assert_eq!(bus.read(0x0123, true, false).0, 0xAB);
    }
    // once the bus is gone, the writes are in the caller's buffers
    assert_eq!(low[0x123], 0xAB);
    assert_eq!(high[0x345], 0xCD);
    assert_eq!(high[0x10], 0x99);
}

// ---------------------------------------------------------------------------------------------
// The core and its input lines
// ---------------------------------------------------------------------------------------------

#[test]
fn cmos_additions_are_absent_from_nmos_map() {
    // BRA, PHX, STZ and TSB are 65C02 instructions; the NMOS map has other opcodes there
    assert_eq!(OpcodeTable::Cmos.decode(0x80).mnemonic, Mnemonic::Bra);
    assert_eq!(OpcodeTable::Nmos.decode(0x80).mnemonic, Mnemonic::Nop);
    assert_eq!(OpcodeTable::Cmos.decode(0xDA).mnemonic, Mnemonic::Phx);
    assert_ne!(OpcodeTable::Nmos.decode(0xDA).mnemonic, Mnemonic::Phx);
    assert_eq!(OpcodeTable::Cmos.decode(0x64).mnemonic, Mnemonic::Stz);
    assert_ne!(OpcodeTable::Nmos.decode(0x64).mnemonic, Mnemonic::Stz);
    assert_eq!(OpcodeTable::Cmos.decode(0x04).mnemonic, Mnemonic::Tsb);
    assert_eq!(OpcodeTable::Nmos.decode(0x04).mnemonic, Mnemonic::Nop);
}

#[test]
fn bit_instructions_only_on_rockwell_maps() {
    assert_eq!(OpcodeTable::Cmos.decode(0x8F).mnemonic, Mnemonic::Bbs0);
    assert_eq!(OpcodeTable::Rockwell.decode(0x8F).mnemonic, Mnemonic::Bbs0);
    assert_eq!(OpcodeTable::Synertek.decode(0x8F).mnemonic, Mnemonic::Undefined);
    assert_eq!(OpcodeTable::Nmos.decode(0x8F).mnemonic, Mnemonic::Sax);
    assert_ne!(OpcodeTable::Wdc816.decode(0x8F).mnemonic, Mnemonic::Bbs0);
    assert_eq!(OpcodeTable::Rockwell.decode(0xF7).mnemonic, Mnemonic::Smb7);
    assert_eq!(OpcodeTable::Synertek.decode(0xF7).mnemonic, Mnemonic::Undefined);
}

fn run_to_boundary<F: Flavor>(cpu: &mut Cpu6502<F, SimpleBus>, bus: &mut SimpleBus) -> u32 {
    let mut steps = 0;
    loop {
        steps += 1;
        if cpu.step(bus) == StepResult::InstructionFinished {
            return steps;
        }
        assert!(steps < 100, "instruction never finished");
    }
}

#[test]
fn reset_loads_vector_and_masks_irq() {
    let mut bus = SimpleBus::with_program(0x8000, &[0xEA]);
    bus.set_reset_vector(0x8000);
    let mut cpu: Nmos6502<SimpleBus> = Nmos6502::new();
    assert_eq!(cpu.s, 0xFD);
    cpu.p = U_6502;
    cpu.reset(&mut bus);
    assert_eq!(cpu.pc, 0x8000);
    assert_eq!(cpu.p & I, I);
    // the first step fetches the opcode
    assert_eq!(cpu.step(&mut bus), StepResult::Pending);
    assert_eq!(cpu.pc, 0x8001);
    assert_eq!(cpu.current_opcode, 0xEA);
}

#[test]
fn rdy_low_holds_read_cycles() {
    let mut bus = SimpleBus::with_program(0x8000, &[0xA9, 0x42, 0xEA]);
    bus.set_reset_vector(0x8000);
    let mut cpu: Nmos6502<SimpleBus> = Nmos6502::new();
    cpu.reset(&mut bus);
    let mut lines = Lines::none();
    lines.rdy = false;
    for _ in 0..5 {
        assert_eq!(cpu.step_with_lines(&mut bus, lines), StepResult::Pending);
    }
    assert_eq!(cpu.pc, 0x8000);
    assert_eq!(cpu.cycles, 5);
    lines.rdy = true;
    cpu.step_with_lines(&mut bus, lines); // fetch LDA
    cpu.step_with_lines(&mut bus, lines); // operand
    assert_eq!(cpu.a, 0x42);
}

#[test]
fn rdy_low_lets_writes_through() {
    let mut bus = SimpleBus::with_program(0x8000, &[0x85, 0x10, 0xEA]); // STA $10
    bus.set_reset_vector(0x8000);
    let mut cpu: Nmos6502<SimpleBus> = Nmos6502::new();
    cpu.reset(&mut bus);
    cpu.a = 0x66;
    let go = Lines::none();
    cpu.step_with_lines(&mut bus, go); // opcode
    cpu.step_with_lines(&mut bus, go); // operand
    assert!(!cpu.next_cycle_read());
    let mut held = Lines::none();
    held.rdy = false;
    cpu.step_with_lines(&mut bus, held); // the write goes ahead
    assert_eq!(bus.ram[0x10], 0x66);
    assert!(cpu.next_cycle_read());
}

#[test]
fn nmi_is_edge_triggered() {
    // NOP loop at $8000, NMI handler at $9000
    let mut bus = SimpleBus::with_program(0x8000, &[0xEA, 0xEA, 0xEA, 0xEA]);
    bus.load(0x9000, &[0xEA, 0xEA]);
    bus.set_reset_vector(0x8000);
    bus.set_nmi_vector(0x9000);
    let mut cpu: Nmos6502<SimpleBus> = Nmos6502::new();
    cpu.reset(&mut bus);
    cpu.step(&mut bus); // fetch first NOP
    bus.lines_mut().nmi = true;
    run_to_boundary(&mut cpu, &mut bus); // NOP finishes; the NMI sequence starts
    // the held-high line does not retrigger
    for _ in 0..7 {
        cpu.step(&mut bus);
    }
    assert_eq!(cpu.pc, 0x9001);
    assert_eq!(cpu.current_opcode, 0xEA);
    assert_eq!(cpu.p & I, I);
    // return address pushed
    assert_eq!(bus.ram[0x01FD], 0x80);
    assert_eq!(bus.ram[0x01FC], 0x01);
    // pushed status has B clear
    assert_eq!(bus.ram[0x01FB] & B_6502, 0);
}

#[test]
fn irq_is_masked_by_i() {
    let mut bus = SimpleBus::with_program(0x8000, &[0xEA, 0xEA, 0x58, 0xEA, 0xEA]); // NOP NOP CLI NOP NOP
    bus.load(0x9000, &[0xEA]);
    bus.set_reset_vector(0x8000);
    bus.set_irq_vector(0x9000);
    let mut cpu: Nmos6502<SimpleBus> = Nmos6502::new();
    cpu.reset(&mut bus);
    bus.lines_mut().irq = true;
    cpu.step(&mut bus);
    run_to_boundary(&mut cpu, &mut bus);
    run_to_boundary(&mut cpu, &mut bus);
    assert_eq!(cpu.current_opcode, 0x58); // still masked: CLI fetched
    run_to_boundary(&mut cpu, &mut bus);
    // CLI takes effect one instruction late: the NOP after it is fetched
    assert_eq!(cpu.current_opcode, 0xEA);
    assert_eq!(cpu.pc, 0x8004);
    run_to_boundary(&mut cpu, &mut bus);
    // now the IRQ is taken
    for _ in 0..6 {
        cpu.step(&mut bus);
    }
    assert_eq!(cpu.pc, 0x9000);
}

#[test]
fn jam_never_finishes() {
    let mut bus = SimpleBus::with_program(0x8000, &[0x02]);
    bus.set_reset_vector(0x8000);
    let mut cpu: Nmos6502<SimpleBus> = Nmos6502::new();
    cpu.reset(&mut bus);
    for _ in 0..50 {
        assert_eq!(cpu.step(&mut bus), StepResult::Pending);
    }
}

#[test]
fn cmos_decimal_adc_takes_extra_cycle() {
    let mut bus = SimpleBus::with_program(0x8000, &[0x69, 0x01, 0xEA]);
    bus.set_reset_vector(0x8000);
    let mut cpu: Cmos65c02<SimpleBus> = Cmos65c02::new();
    cpu.reset(&mut bus);
    cpu.p = U_6502 | D;
    cpu.a = 0x09;
    cpu.step(&mut bus);
    let steps = run_to_boundary(&mut cpu, &mut bus);
    assert_eq!(steps, 3);
    assert_eq!(cpu.a, 0x10);
    // binary mode: no extra cycle
    let mut bus = SimpleBus::with_program(0x8000, &[0x69, 0x01, 0xEA]);
    bus.set_reset_vector(0x8000);
    let mut cpu: Cmos65c02<SimpleBus> = Cmos65c02::new();
    cpu.reset(&mut bus);
    cpu.p = U_6502;
    cpu.a = 0x09;
    cpu.step(&mut bus);
    assert_eq!(run_to_boundary(&mut cpu, &mut bus), 2);
    assert_eq!(cpu.a, 0x0A);
}

#[test]
fn nes_ignores_decimal_flag() {
    let mut bus = SimpleBus::with_program(0x8000, &[0x69, 0x01, 0xEA]);
    bus.set_reset_vector(0x8000);
    let mut cpu: Nes6502<SimpleBus> = Nes6502::default();
    cpu.reset(&mut bus);
    cpu.p = U_6502 | D;
    cpu.a = 0x09;
    cpu.step(&mut bus);
    run_to_boundary(&mut cpu, &mut bus);
    assert_eq!(cpu.a, 0x0A);
}

#[test]
fn branch_costs_follow_page_crossing() {
    // BNE +2 taken within the page: 3 cycles
    let mut bus = SimpleBus::with_program(0x8000, &[0xD0, 0x02, 0xEA, 0xEA, 0xEA]);
    bus.set_reset_vector(0x8000);
    let mut cpu: Nmos6502<SimpleBus> = Nmos6502::new();
    cpu.reset(&mut bus);
    cpu.p = U_6502;
    cpu.step(&mut bus);
    assert_eq!(run_to_boundary(&mut cpu, &mut bus), 3);
    assert_eq!(cpu.pc, 0x8005);
    // BNE back across the page: 4 cycles
    let mut bus = SimpleBus::with_program(0x8000, &[0xD0, 0x80]);
    bus.set_reset_vector(0x8000);
    let mut cpu: Nmos6502<SimpleBus> = Nmos6502::new();
    cpu.reset(&mut bus);
    cpu.p = U_6502;
    cpu.step(&mut bus);
    assert_eq!(run_to_boundary(&mut cpu, &mut bus), 4);
    assert_eq!(cpu.pc, 0x7F83);
}

#[test]
fn cmos_flavor_runs_bit_operations() {
    let mut bus = SimpleBus::with_program(0x8000, &[0xC7, 0x10, 0xEA]); // SMB4 $10
    bus.set_reset_vector(0x8000);
    let mut cpu: Cpu6502<CMOS65C02, SimpleBus> = Cpu6502::new();
    cpu.reset(&mut bus);
    cpu.step(&mut bus);
    run_to_boundary(&mut cpu, &mut bus);
    assert_eq!(bus.ram[0x10], 0x10);
    // the Synertek part has no bit operations: the opcode does nothing
    let mut bus = SimpleBus::with_program(0x8000, &[0xC7, 0x10, 0xEA]);
    bus.set_reset_vector(0x8000);
    let mut cpu: Cpu6502<Synertek65C02, SimpleBus> = Cpu6502::new();
    cpu.reset(&mut bus);
    cpu.step(&mut bus);
    run_to_boundary(&mut cpu, &mut bus);
    assert_eq!(bus.ram[0x10], 0x00);
}


/// A 64 KiB RAM bus that logs every access as (address, data, write, vda, vpa) and answers
/// with two wait states at $2000.
struct LogBus {
    mem: Vec<u8>,
    log: Vec<(u32, u8, bool, bool, bool)>,
}

impl LogBus {
    fn with_program(origin: u16, bytes: &[u8]) -> Self {
        let mut mem = vec![0u8; 0x10000];
        for (i, b) in bytes.iter().enumerate() {
            mem[(origin as usize + i) % 0x10000] = *b;
        }
        LogBus { mem, log: Vec::new() }
    }
}

impl Bus for LogBus {
    fn read(&mut self, addr: u32, vda: bool, vpa: bool) -> (u8, u8) {
        let data = self.mem[(addr % 0x10000) as usize];
        self.log.push((addr, data, false, vda, vpa));
        (data, if addr == 0x2000 { 2 } else { 0 })
    }

    fn write(&mut self, addr: u32, data: u8, vda: bool, vpa: bool) -> u8 {
        self.mem[(addr % 0x10000) as usize] = data;
        self.log.push((addr, data, true, vda, vpa));
        if addr == 0x2000 { 2 } else { 0 }
    }

    fn sample_lines(&mut self) -> Lines {
        Lines::none()
    }
}

#[test]
fn reset_reads_the_vector_low_byte_first() {
    let mut bus = LogBus::with_program(0xFFFC, &[0x34, 0x12]);
    let mut cpu: Nmos6502<LogBus> = Nmos6502::new();
    cpu.reset(&mut bus);
    assert_eq!(bus.log, vec![(0xFFFC, 0x34, false, true, false), (0xFFFD, 0x12, false, true, false)]);
    assert_eq!(cpu.pc, 0x1234);
    assert_eq!(cpu.cycles, 0);
}

#[test]
fn each_step_makes_one_access_and_counts_its_wait_states() {
    // LDA #$42; STA $2000; NOP
    let mut bus = LogBus::with_program(0x8000, &[0xA9, 0x42, 0x8D, 0x00, 0x20, 0xEA]);
    let mut cpu: Nmos6502<LogBus> = Nmos6502::new();
    cpu.pc = 0x8000;
    let mut expect_cycles = 0u64;
    for n in 1..=7 {
        cpu.step(&mut bus);
        assert_eq!(bus.log.len(), n);
        let (addr, _, _, _, _) = bus.log[n - 1];
        expect_cycles += 1 + if addr == 0x2000 { 2 } else { 0 };
        assert_eq!(cpu.cycles, expect_cycles);
    }
    assert_eq!(
        bus.log,
        vec![
            (0x8000, 0xA9, false, false, true), // opcode fetch
            (0x8001, 0x42, false, false, true), // immediate operand
            (0x8002, 0x8D, false, false, true), // opcode fetch
            (0x8003, 0x00, false, false, true), // address low
            (0x8004, 0x20, false, false, true), // address high
            (0x2000, 0x42, true, true, false), // the store
            (0x8005, 0xEA, false, false, true), // opcode fetch
        ]
    );
    assert_eq!(bus.mem[0x2000], 0x42);
    assert_eq!(cpu.cycles, 9);
}
