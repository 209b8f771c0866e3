use gb_core::cpu;
use gb_core::emulator::Emulator;
use gb_core::registers::{FLAG_CARRY, FLAG_HALF_CARRY, FLAG_NEGATIVE, FLAG_ZERO};

fn fresh() -> Emulator {
    Emulator::new()
}

#[test]
fn inc_b_boundary_sets_zero_and_half_carry() {
    let mut e = fresh();
    e.registers.b = 0xFF;
    e.registers.f = 0x00;
    cpu::inc_b(&mut e);
    assert_eq!(e.registers.b, 0x00);
    assert!(e.registers.is_flag_set(FLAG_ZERO));
    assert!(e.registers.is_flag_set(FLAG_HALF_CARRY));
    assert!(!e.registers.is_flag_set(FLAG_NEGATIVE));
}

#[test]
fn inc_preserves_carry() {
    let mut e = fresh();
    e.registers.b = 0x0F;
    e.registers.f = FLAG_CARRY;
    cpu::inc_b(&mut e);
    assert_eq!(e.registers.b, 0x10);
    assert!(e.registers.is_flag_set(FLAG_HALF_CARRY));
    assert!(e.registers.is_flag_set(FLAG_CARRY));
    assert!(!e.registers.is_flag_set(FLAG_ZERO));
}

#[test]
fn dec_b_to_zero() {
    let mut e = fresh();
    e.registers.b = 0x01;
    e.registers.f = 0x00;
    cpu::dec_b(&mut e);
    assert_eq!(e.registers.b, 0x00);
    assert!(e.registers.is_flag_set(FLAG_ZERO));
    assert!(e.registers.is_flag_set(FLAG_NEGATIVE));
    assert!(!e.registers.is_flag_set(FLAG_HALF_CARRY));
}

#[test]
fn dec_wraps_and_borrows() {
    let mut e = fresh();
    e.registers.b = 0x00;
    e.registers.f = 0x00;
    cpu::dec_b(&mut e);
    assert_eq!(e.registers.b, 0xFF);
    assert!(e.registers.is_flag_set(FLAG_HALF_CARRY));
}

#[test]
fn add_carry_boundary() {
    let mut e = fresh();
    e.registers.a = 0xFF;
    e.registers.b = 0x01;
    e.registers.f = 0x00;
    cpu::add_a_b(&mut e);
    assert_eq!(e.registers.a, 0x00);
    assert!(e.registers.is_flag_set(FLAG_CARRY));
    assert!(e.registers.is_flag_set(FLAG_ZERO));
    assert!(e.registers.is_flag_set(FLAG_HALF_CARRY));
    assert!(!e.registers.is_flag_set(FLAG_NEGATIVE));
}

#[test]
fn sixteen_bit_little_endian_fetch() {
    let mut e = fresh();
    e.registers.pc = 0x0100;
    e.memory.cart[0x0100] = 0x34;
    e.memory.cart[0x0101] = 0x12;
    cpu::ld_bc_nn(&mut e);
    assert_eq!(e.registers.get_bc(), 0x1234);
    assert_eq!(e.registers.pc, 0x0102);
}

#[test]
fn adc_adds_the_carry_in() {
    let mut e = fresh();
    e.registers.a = 0x10;
    e.registers.c = 0x0F;
    e.registers.f = FLAG_CARRY;
    cpu::adc_c(&mut e);
    assert_eq!(e.registers.a, 0x20);
    assert!(e.registers.is_flag_set(FLAG_HALF_CARRY));
    assert!(!e.registers.is_flag_set(FLAG_CARRY));
}

#[test]
fn sub_sets_borrow_flags() {
    let mut e = fresh();
    e.registers.a = 0x10;
    e.registers.b = 0x20;
    cpu::sub_b(&mut e);
    assert_eq!(e.registers.a, 0xF0);
    assert!(e.registers.is_flag_set(FLAG_CARRY));
    assert!(e.registers.is_flag_set(FLAG_NEGATIVE));
    assert!(!e.registers.is_flag_set(FLAG_ZERO));
}

#[test]
fn sbc_subtracts_the_borrow_in() {
    let mut e = fresh();
    e.registers.a = 0x10;
    e.registers.b = 0x0F;
    e.registers.f = FLAG_CARRY;
    cpu::sbc_b(&mut e);
    assert_eq!(e.registers.a, 0x00);
    assert!(e.registers.is_flag_set(FLAG_ZERO));
    assert!(e.registers.is_flag_set(FLAG_NEGATIVE));
}

#[test]
fn logic_ops_set_their_documented_flags() {
    let mut e = fresh();
    e.registers.a = 0xF0;
    e.registers.b = 0x0F;
    cpu::and_b(&mut e);
    assert_eq!(e.registers.a, 0x00);
    assert_eq!(e.registers.f, FLAG_ZERO | FLAG_HALF_CARRY);

    e.registers.a = 0xF0;
    cpu::or_b(&mut e);
    assert_eq!(e.registers.a, 0xFF);
    assert_eq!(e.registers.f, 0x00);

    cpu::xor_a(&mut e);
    assert_eq!(e.registers.a, 0x00);
    assert_eq!(e.registers.f, FLAG_ZERO);
}

#[test]
fn compare_leaves_accumulator() {
    let mut e = fresh();
    e.registers.a = 0x3C;
    e.registers.pc = 0x0100;
    e.memory.cart[0x0100] = 0x3C;
    cpu::cp_n(&mut e);
    assert_eq!(e.registers.a, 0x3C);
    assert!(e.registers.is_flag_set(FLAG_ZERO));
    assert!(e.registers.is_flag_set(FLAG_NEGATIVE));
    assert_eq!(e.registers.pc, 0x0101);
}

#[test]
fn add_hl_keeps_zero_flag() {
    let mut e = fresh();
    e.registers.set_hl(0xFFFF);
    e.registers.set_bc(0x0001);
    e.registers.f = FLAG_ZERO;
    cpu::add_hl_bc(&mut e);
    assert_eq!(e.registers.get_hl(), 0x0000);
    assert!(e.registers.is_flag_set(FLAG_ZERO));
    assert!(e.registers.is_flag_set(FLAG_CARRY));
}

#[test]
fn sixteen_bit_inc_dec_wrap_without_flags() {
    let mut e = fresh();
    e.registers.set_bc(0xFFFF);
    e.registers.f = 0x00;
    cpu::inc_bc(&mut e);
    assert_eq!(e.registers.get_bc(), 0x0000);
    assert_eq!(e.registers.f, 0x00);
    cpu::dec_bc(&mut e);
    assert_eq!(e.registers.get_bc(), 0xFFFF);
    assert_eq!(e.registers.f, 0x00);
}

#[test]
fn rotate_accumulator_family() {
    let mut e = fresh();
    e.registers.a = 0b1000_0001;
    e.registers.f = 0x00;
    cpu::rlca(&mut e);
    assert_eq!(e.registers.a, 0b0000_0011);
    assert!(e.registers.is_flag_set(FLAG_CARRY));

    e.registers.a = 0b1000_0000;
    e.registers.f = 0x00;
    cpu::rla(&mut e);
    assert_eq!(e.registers.a, 0b0000_0000);
    assert!(e.registers.is_flag_set(FLAG_CARRY));
    cpu::rla(&mut e);
    assert_eq!(e.registers.a, 0b0000_0001);
    assert!(!e.registers.is_flag_set(FLAG_CARRY));

    e.registers.a = 0b0000_0001;
    e.registers.f = 0x00;
    cpu::rrca(&mut e);
    assert_eq!(e.registers.a, 0b1000_0000);
    assert!(e.registers.is_flag_set(FLAG_CARRY));

    e.registers.a = 0b0000_0001;
    e.registers.f = 0x00;
    cpu::rra(&mut e);
    assert_eq!(e.registers.a, 0b0000_0000);
    assert!(e.registers.is_flag_set(FLAG_CARRY));
    cpu::rra(&mut e);
    assert_eq!(e.registers.a, 0b1000_0000);
}

#[test]
fn daa_adjusts_bcd_addition() {
    let mut e = fresh();
    e.registers.a = 0x15;
    e.registers.b = 0x27;
    e.registers.f = 0x00;
    cpu::add_a_b(&mut e);
    assert_eq!(e.registers.a, 0x3C);
    cpu::daa(&mut e);
    assert_eq!(e.registers.a, 0x42);
    assert!(!e.registers.is_flag_set(FLAG_CARRY));
    assert!(!e.registers.is_flag_set(FLAG_HALF_CARRY));
}

#[test]
fn daa_sets_carry_past_ninety_nine() {
    let mut e = fresh();
    e.registers.a = 0x90;
    e.registers.b = 0x20;
    e.registers.f = 0x00;
    cpu::add_a_b(&mut e);
    cpu::daa(&mut e);
    assert_eq!(e.registers.a, 0x10);
    assert!(e.registers.is_flag_set(FLAG_CARRY));
}

#[test]
fn relative_jump_sign_extends_its_operand() {
    let mut e = fresh();
    e.registers.pc = 0x0200;
    e.memory.cart[0x0200] = 0xFE;  // -2
    cpu::jr_n(&mut e);
    assert_eq!(e.registers.pc, 0x01FF);

    e.registers.pc = 0x0200;
    e.memory.cart[0x0200] = 0x05;
    cpu::jr_n(&mut e);
    assert_eq!(e.registers.pc, 0x0206);
}

#[test]
fn conditional_relative_jump_consumes_operand_and_ticks() {
    let mut e = fresh();
    e.registers.pc = 0x0200;
    e.memory.cart[0x0200] = 0x05;
    e.registers.f = FLAG_ZERO;
    let t0 = e.cpu.ticks;
    cpu::jr_nz_n(&mut e);
    assert_eq!(e.registers.pc, 0x0201);
    assert_eq!(e.cpu.ticks, t0 + 8);

    e.registers.pc = 0x0200;
    e.registers.f = 0x00;
    cpu::jr_nz_n(&mut e);
    assert_eq!(e.registers.pc, 0x0206);
    assert_eq!(e.cpu.ticks, t0 + 8 + 12);

    e.registers.pc = 0x0200;
    e.registers.f = FLAG_ZERO;
    cpu::jr_z_n(&mut e);
    assert_eq!(e.registers.pc, 0x0206);
}

#[test]
fn conditional_absolute_jump_ticks() {
    let mut e = fresh();
    e.registers.pc = 0x0100;
    e.memory.cart[0x0100] = 0x00;
    e.memory.cart[0x0101] = 0x40;
    e.registers.f = 0x00;
    let t0 = e.cpu.ticks;
    cpu::jp_nz_nn(&mut e);
    assert_eq!(e.registers.pc, 0x4000);
    assert_eq!(e.cpu.ticks, t0 + 16);

    e.registers.pc = 0x0100;
    e.registers.f = FLAG_ZERO;
    cpu::jp_nz_nn(&mut e);
    assert_eq!(e.registers.pc, 0x0102);
    assert_eq!(e.cpu.ticks, t0 + 16 + 12);
}

#[test]
fn call_and_return_round_trip() {
    let mut e = fresh();
    e.registers.pc = 0x0100;
    e.registers.sp = 0xD000;
    e.memory.cart[0x0100] = 0x00;
    e.memory.cart[0x0101] = 0x40;
    cpu::call_nn(&mut e);
    assert_eq!(e.registers.pc, 0x4000);
    assert_eq!(e.registers.sp, 0xCFFE);
    cpu::ret(&mut e);
    assert_eq!(e.registers.pc, 0x0102);
    assert_eq!(e.registers.sp, 0xD000);
}

#[test]
fn conditional_call_and_return() {
    let mut e = fresh();
    e.registers.pc = 0x0100;
    e.registers.sp = 0xD000;
    e.memory.cart[0x0100] = 0x00;
    e.memory.cart[0x0101] = 0x40;
    e.registers.f = FLAG_CARRY;
    let t0 = e.cpu.ticks;
    cpu::call_nc_nn(&mut e);
    assert_eq!(e.registers.pc, 0x0102);
    assert_eq!(e.registers.sp, 0xD000);
    assert_eq!(e.cpu.ticks, t0 + 12);

    e.registers.pc = 0x0100;
    cpu::call_c_nn(&mut e);
    assert_eq!(e.registers.pc, 0x4000);
    assert_eq!(e.cpu.ticks, t0 + 12 + 24);

    cpu::ret_c(&mut e);
    assert_eq!(e.registers.pc, 0x0102);
    assert_eq!(e.cpu.ticks, t0 + 12 + 24 + 20);

    cpu::ret_nc(&mut e);
    assert_eq!(e.cpu.ticks, t0 + 12 + 24 + 20 + 8);
}

#[test]
fn rst_pushes_and_vectors() {
    let mut e = fresh();
    e.registers.pc = 0x1234;
    e.registers.sp = 0xD000;
    cpu::rst_18(&mut e);
    assert_eq!(e.registers.pc, 0x0018);
    assert_eq!(e.read_short(0xCFFE), 0x1234);
}

#[test]
fn push_pop_af_keeps_full_flag_byte() {
    let mut e = fresh();
    e.registers.sp = 0xD000;
    e.registers.set_af(0x12B0);
    cpu::push_af(&mut e);
    e.registers.set_af(0x0000);
    cpu::pop_af(&mut e);
    assert_eq!(e.registers.get_af(), 0x12B0);
}

#[test]
fn high_page_loads() {
    let mut e = fresh();
    e.registers.a = 0x5A;
    e.registers.c = 0x85;
    cpu::ld_ff_c_a(&mut e);
    assert_eq!(e.memory.hram[0x05], 0x5A);
    e.registers.a = 0;
    cpu::ld_a_ff_c(&mut e);
    assert_eq!(e.registers.a, 0x5A);

    e.registers.pc = 0x0100;
    e.memory.cart[0x0100] = 0x85;
    e.registers.a = 0x77;
    cpu::ld_ff_n_ap(&mut e);
    assert_eq!(e.memory.hram[0x05], 0x77);
}

#[test]
fn add_sp_handles_negative_operands() {
    let mut e = fresh();
    e.registers.sp = 0xFFF8;
    e.registers.pc = 0x0100;
    e.memory.cart[0x0100] = 0xF8;  // -8
    cpu::add_sp_n(&mut e);
    assert_eq!(e.registers.sp, 0xFFF0);
    assert!(e.registers.is_flag_set(FLAG_CARRY));
    assert!(e.registers.is_flag_set(FLAG_HALF_CARRY));
    assert!(!e.registers.is_flag_set(FLAG_ZERO));
}

#[test]
fn ld_hl_sp_offset() {
    let mut e = fresh();
    e.registers.sp = 0xD000;
    e.registers.pc = 0x0100;
    e.memory.cart[0x0100] = 0x10;
    cpu::ld_hl_sp_n(&mut e);
    assert_eq!(e.registers.get_hl(), 0xD010);
    assert_eq!(e.registers.sp, 0xD000);
}

#[test]
fn load_store_indirect_with_post_step() {
    let mut e = fresh();
    e.registers.a = 0x42;
    e.registers.set_hl(0xC800);
    cpu::ldi_hlp_a(&mut e);
    assert_eq!(e.read_byte(0xC800), 0x42);
    assert_eq!(e.registers.get_hl(), 0xC801);

    e.registers.a = 0x43;
    cpu::ldd_hlp_a(&mut e);
    assert_eq!(e.read_byte(0xC801), 0x43);
    assert_eq!(e.registers.get_hl(), 0xC800);

    cpu::ldi_a_hlp(&mut e);
    assert_eq!(e.registers.a, 0x42);
    assert_eq!(e.registers.get_hl(), 0xC801);

    cpu::ldd_a_hlp(&mut e);
    assert_eq!(e.registers.a, 0x43);
    assert_eq!(e.registers.get_hl(), 0xC800);
}

#[test]
fn in_place_increment_at_hl() {
    let mut e = fresh();
    e.registers.set_hl(0xC900);
    e.write_byte(0xC900, 0xFF);
    cpu::inc_hlp(&mut e);
    assert_eq!(e.read_byte(0xC900), 0x00);
    assert!(e.registers.is_flag_set(FLAG_ZERO));
    cpu::dec_hlp(&mut e);
    assert_eq!(e.read_byte(0xC900), 0xFF);
}

#[test]
fn halt_advances_pc_only_with_interrupts_disabled() {
    let mut e = fresh();
    e.registers.pc = 0x0100;
    e.interrupt.master = 1;
    cpu::halt(&mut e);
    assert_eq!(e.registers.pc, 0x0100);
    e.interrupt.master = 0;
    cpu::halt(&mut e);
    assert_eq!(e.registers.pc, 0x0101);
}

#[test]
fn stop_halts_the_dispatcher() {
    let mut e = fresh();
    e.registers.pc = 0x0100;
    cpu::stop(&mut e);
    assert!(e.cpu.stopped);
    assert_eq!(e.registers.pc, 0x0101);
    let before = e.registers;
    cpu::run_next(&mut e);
    assert_eq!(e.registers, before);
}

#[test]
fn interrupt_master_toggles() {
    let mut e = fresh();
    cpu::di_inst(&mut e);
    assert_eq!(e.interrupt.master, 0);
    cpu::ei(&mut e);
    assert_eq!(e.interrupt.master, 1);
}

#[test]
fn undefined_opcode_backs_the_counter_up() {
    let mut e = fresh();
    e.registers.pc = 0x0100;
    e.memory.cart[0x0100] = 0xD3;
    cpu::run_next(&mut e);
    assert_eq!(e.registers.pc, 0x0100);
}

#[test]
fn dispatcher_fetches_executes_and_charges_cycles() {
    let mut e = fresh();
    e.registers.pc = 0x0100;
    // NOP
    e.memory.cart[0x0100] = 0x00;
    cpu::run_next(&mut e);
    assert_eq!(e.registers.pc, 0x0101);
    assert_eq!(e.cpu.ticks, 2);
    // LD BC, nn
    e.memory.cart[0x0101] = 0x01;
    e.memory.cart[0x0102] = 0x34;
    e.memory.cart[0x0103] = 0x12;
    cpu::run_next(&mut e);
    assert_eq!(e.registers.get_bc(), 0x1234);
    assert_eq!(e.registers.pc, 0x0104);
    assert_eq!(e.cpu.ticks, 8);
}

#[test]
fn extended_table_dispatches_with_its_own_cost() {
    let mut e = fresh();
    e.registers.pc = 0x0100;
    e.registers.a = 0xAB;
    e.memory.cart[0x0100] = 0xCB;
    e.memory.cart[0x0101] = 0x37;  // SWAP A
    cpu::run_next(&mut e);
    assert_eq!(e.registers.a, 0xBA);
    assert_eq!(e.registers.pc, 0x0102);
    assert_eq!(e.cpu.ticks, 8);
}

#[test]
fn extended_rotates_and_shifts() {
    let mut e = fresh();
    e.registers.b = 0b1000_0001;
    e.registers.f = 0x00;
    gb_core::cpu_cb::rlc_b(&mut e);
    assert_eq!(e.registers.b, 0b0000_0011);
    assert!(e.registers.is_flag_set(FLAG_CARRY));

    e.registers.c = 0b0000_0001;
    gb_core::cpu_cb::rrc_c(&mut e);
    assert_eq!(e.registers.c, 0b1000_0000);

    e.registers.d = 0b1000_0000;
    e.registers.f = 0x00;
    gb_core::cpu_cb::sla_d(&mut e);
    assert_eq!(e.registers.d, 0);
    assert!(e.registers.is_flag_set(FLAG_ZERO));
    assert!(e.registers.is_flag_set(FLAG_CARRY));

    e.registers.e = 0b1000_0010;
    gb_core::cpu_cb::sra_e(&mut e);
    assert_eq!(e.registers.e, 0b1100_0001);

    e.registers.h = 0b1000_0010;
    gb_core::cpu_cb::srl_h(&mut e);
    assert_eq!(e.registers.h, 0b0100_0001);

    e.registers.l = 0b0000_0001;
    e.registers.f = 0x00;
    gb_core::cpu_cb::rl_l(&mut e);
    assert_eq!(e.registers.l, 0b0000_0010);
    gb_core::cpu_cb::rr_l(&mut e);
    assert_eq!(e.registers.l, 0b0000_0001);
}

#[test]
fn extended_bit_test_clear_and_set() {
    let mut e = fresh();
    e.registers.b = 0b0000_0100;
    e.registers.f = 0x00;
    gb_core::cpu_cb::bit_2_b(&mut e);
    assert!(!e.registers.is_flag_set(FLAG_ZERO));
    assert!(e.registers.is_flag_set(FLAG_HALF_CARRY));
    gb_core::cpu_cb::bit_3_b(&mut e);
    assert!(e.registers.is_flag_set(FLAG_ZERO));

    gb_core::cpu_cb::set_7_b(&mut e);
    assert_eq!(e.registers.b, 0b1000_0100);
    gb_core::cpu_cb::res_2_b(&mut e);
    assert_eq!(e.registers.b, 0b1000_0000);

    // flags untouched by clear and set
    let f = e.registers.f;
    gb_core::cpu_cb::set_0_b(&mut e);
    gb_core::cpu_cb::res_0_b(&mut e);
    assert_eq!(e.registers.f, f);
}

#[test]
fn extended_ops_on_the_byte_at_hl() {
    let mut e = fresh();
    e.registers.set_hl(0xC700);
    e.write_byte(0xC700, 0b0110_0000);
    gb_core::cpu_cb::swap_hlp(&mut e);
    assert_eq!(e.read_byte(0xC700), 0b0000_0110);
    gb_core::cpu_cb::set_0_hlp(&mut e);
    assert_eq!(e.read_byte(0xC700), 0b0000_0111);
    gb_core::cpu_cb::res_1_hlp(&mut e);
    assert_eq!(e.read_byte(0xC700), 0b0000_0101);
    gb_core::cpu_cb::rlc_hlp(&mut e);
    assert_eq!(e.read_byte(0xC700), 0b0000_1010);
}
