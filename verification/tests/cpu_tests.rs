//! Instruction-level tests of the CPU: each runs a short program placed at
//! $8000 and checks registers, flags and memory.
use nesemu::cpu::cpu::Cpu;

#[test]
#[allow(non_snake_case)]
fn test_LDA_immediate_no_flag() {
    // Load accumulator. Immediate addressing
    let code = vec![0xA9, 0x36]; 

    let mut nes = Cpu::new(code);
    assert_eq!(0x8000, nes.PC);
    nes.next().unwrap();

    assert_eq!(0x8002, nes.PC);
    assert_eq!(0x36, nes.A);
}

#[test]
#[allow(non_snake_case)]
fn test_LDA_zeropage_negative() {
    let code = vec![0xA5, 0x06]; 

    let mut nes = Cpu::new(code);
    nes.memory.set(0x06, 0x84);
    nes.next().unwrap();

    assert_eq!(0x84, nes.A);
    assert_eq!(1, nes.N); 
}

#[test]
#[allow(non_snake_case)]
fn test_LDA_absolute_processor_zero() {
    let code = vec![0xAD, 0x06, 0xA3]; 

    let mut nes = Cpu::new(code);
    nes.memory.set(0xA306, 0x00);
    nes.next().unwrap();

    assert_eq!(0x00, nes.A);
    assert_eq!(0x01, nes.Z);
}

#[test]
#[allow(non_snake_case)]
fn test_LDX_indexed_zp() {
    let code = vec![0xB6, 0x04];
    let mut nes = Cpu::new(code);
    nes.Y = 0x02;
    nes.memory.set(0x06, 0x0A);
    nes.next().unwrap();
    assert_eq!(0x0A, nes.X);
}

#[test]
#[allow(non_snake_case)]
fn test_LDY_indexed_absolute() {
    let code = vec![0xBC, 0x06, 0xA3]; 

    let mut nes = Cpu::new(code);
    nes.X = 0x02;
    nes.memory.set(0xA308, 0x11);
    nes.next().unwrap();

    assert_eq!(0x11, nes.Y);
}

#[test]
#[allow(non_snake_case)]
fn test_adc_without_carry() {
    // now carry, no overflow.
    let code = vec![0xA9, 0x01, 0x69, 0x10]; // A should be 0x11

    let mut nes = Cpu::new(code);
    nes.next().unwrap();
    nes.next().unwrap();
    assert_eq!(0x11, nes.A);
    assert_eq!(0, nes.C);
    assert_eq!(0, nes.V);
}

#[test]
#[allow(non_snake_case)]
fn test_ADC_with_carry_no_overflow() {
    let code = vec![0xA9, 0xF1, 0x69, 0x19];

    // if unsigned, 0xF1 + 0x19 = (decimal) 266 => 10 and one carry
    // if signed 0xF1 (-15) + 0x19 (25) = 10
    // no overflow as operands are not the same sign.
    //
    let mut nes = Cpu::new(code);
    nes.next().unwrap();
    nes.next().unwrap();
    assert_eq!(0x0A, nes.A);
    assert_eq!(1, nes.C);
    assert_eq!(0, nes.V);
}

#[test]
#[allow(non_snake_case)]
fn test_ADC_positive_overflow() {
    let code = vec![0xA9, 0x64, 0x69, 0x64]; 

    // if signed 0x64 (>0) + 0x64 (>0) = 0xc8 (< 0)
    let mut nes = Cpu::new(code);
    nes.next().unwrap();
    nes.next().unwrap();
    assert_eq!(0xC8, nes.A);
    assert_eq!(0, nes.C);
    assert_eq!(1, nes.V);

}

#[test]
#[allow(non_snake_case)]
fn test_AND() {
    let code = vec![0xA9, 0x64, 0x29, 0xA0]; 

    let mut nes = Cpu::new(code);
    nes.next().unwrap();
    nes.next().unwrap();
    assert_eq!(0x20, nes.A);
    assert_eq!(0, nes.Z);
    assert_eq!(0, nes.N);


}

#[test]
#[allow(non_snake_case)]
fn test_ASL_accumulator_nocarry() {
    let code = vec![0xA9, 0x64, 0x0A]; 
    let mut nes = Cpu::new(code);
    nes.next().unwrap();
    nes.next().unwrap();
    assert_eq!(0xc8, nes.A);
    assert_eq!(0, nes.Z);
    assert_eq!(1, nes.N);
}

#[test]
#[allow(non_snake_case)]
fn test_ASL_zeropage_with_carry() {
    let code = vec![0x06, 0x07]; 

    let mut nes = Cpu::new(code);
    nes.memory.set(0x07, 0x84);
    nes.next().unwrap();

    assert_eq!(0x08, nes.memory.get(0x07 as usize));
    assert_eq!(0, nes.N); 
    assert_eq!(0, nes.Z);
    assert_eq!(1, nes.C);
}

#[test]
#[allow(non_snake_case)]
fn test_lsr_acc() {
    let code = vec![0x4A]; 
    let mut nes = Cpu::new(code);
    nes.A = 0x4B;
    nes.next().unwrap();

    assert_eq!(0x25, nes.A);
    assert_eq!(0, nes.N); 
    assert_eq!(0, nes.Z);
    assert_eq!(1, nes.C);
}

#[test]
#[allow(non_snake_case)]
fn test_rol_acc() {
    let code = vec![0x2A]; 
    let mut nes = Cpu::new(code);
    nes.A = 0x4B;
    nes.C = 1;
    nes.next().unwrap();

    assert_eq!(0x97, nes.A);
    assert_eq!(1, nes.N); 
    assert_eq!(0, nes.Z);
    assert_eq!(0, nes.C);
}

#[test]
#[allow(non_snake_case)]
fn test_ror_mem() {
    let code = vec![0x66, 0x02]; 
    let mut nes = Cpu::new(code);
    nes.memory.set(0x02, 0x4B);
    nes.C = 1;
    nes.next().unwrap();

    assert_eq!(0xa5, nes.memory.get(0x02));
    assert_eq!(1, nes.N); 
    assert_eq!(0, nes.Z);
    assert_eq!(1, nes.C);
}

#[test]
#[allow(non_snake_case)]
fn test_bcc_not_taken() {
    let code = vec![0x90, 0x07]; // offset is +7. 
    let mut nes = Cpu::new(code);
    nes.C = 1; // C not clear so do not take the branch.
    nes.next().unwrap();
    assert_eq!(0x8002, nes.PC);
}

#[test]
#[allow(non_snake_case)]
fn test_bcc_taken_positive() {
    let code = vec![0x90, 0x07]; // offset is +7. 
    let mut nes = Cpu::new(code);
    nes.C = 0; 
    nes.next().unwrap();
    assert_eq!(0x8009, nes.PC);
}

#[test]
#[allow(non_snake_case)]
fn test_bcc_taken_negative() {
    let code = vec![0x90, 0xF9]; // offset is -7. 
    let mut nes = Cpu::new(code);
    nes.C = 0; 
    nes.next().unwrap();
    assert_eq!(0x7FFB, nes.PC);
}

#[test]
#[allow(non_snake_case)]
fn test_bcs_not_taken() {
    let code = vec![0xB0, 0x07]; // offset is +7. 
    let mut nes = Cpu::new(code);
    nes.C = 0; // C clear so do not take the branch.
    nes.next().unwrap();
    assert_eq!(0x8002, nes.PC);
}

#[test]
#[allow(non_snake_case)]
fn test_bcs_taken_positive() {
    let code = vec![0xB0, 0x07]; // offset is +7. 
    let mut nes = Cpu::new(code);
    nes.C = 1; 
    nes.next().unwrap();
    assert_eq!(0x8009, nes.PC);
}

#[test]
#[allow(non_snake_case)]
fn test_bcs_taken_negative() {
    let code = vec![0xB0, 0xF9]; // offset is -7. 
    let mut nes = Cpu::new(code);
    nes.C = 1; 
    nes.next().unwrap();
    assert_eq!(0x7FFB, nes.PC);
}

#[test]
#[allow(non_snake_case)]
fn test_beq() {
    let code = vec![0xF0, 0xF9]; // offset is -7. 
    let mut nes = Cpu::new(code);
    nes.Z = 1; 
    nes.next().unwrap();
    assert_eq!(0x7FFB, nes.PC);
}

#[test]
#[allow(non_snake_case)]
fn test_bnq() {
    let code = vec![0xD0, 0xF9]; // offset is -7. 
    let mut nes = Cpu::new(code);
    nes.Z = 0; 
    nes.next().unwrap();
    assert_eq!(0x7FFB, nes.PC);
}

#[test]
#[allow(non_snake_case)]
fn test_bmi() {
    let code = vec![0x30, 0xF9]; // offset is -7. 
    let mut nes = Cpu::new(code);
    nes.N = 1; 
    nes.next().unwrap();
    assert_eq!(0x7FFB, nes.PC);
}

#[test]
#[allow(non_snake_case)]
fn test_bpl() {
    let code = vec![0x10, 0xF9]; // offset is -7. 
    let mut nes = Cpu::new(code);
    nes.N = 0; 
    nes.next().unwrap();
    assert_eq!(0x7FFB, nes.PC);
}

#[test]
#[allow(non_snake_case)]
fn test_bvc() {
    let code = vec![0x50, 0xF9]; // offset is -7. 
    let mut nes = Cpu::new(code);
    nes.V = 0; 
    nes.next().unwrap();
    assert_eq!(0x7FFB, nes.PC);
}

#[test]
#[allow(non_snake_case)]
fn test_bvs() {
    let code = vec![0x70, 0xF9]; // offset is -7. 
    let mut nes = Cpu::new(code);
    nes.V = 1; 
    nes.next().unwrap();
    assert_eq!(0x7FFB, nes.PC);
}

#[test]
#[allow(non_snake_case)]
fn test_bit_test_zeroflag() {
   let code = vec![0x24, 0x02]; // Bit test for zero page location
   let mut nes = Cpu::new(code);

   // this should set the overflow, negative and zero flag.
   nes.memory.set(0x02, 0xF4); // '0b11110101'
   nes.A = 0x02;

   nes.next().unwrap();
   assert_eq!(1, nes.Z);
   assert_eq!(1, nes.N);
   assert_eq!(1, nes.V);
}

#[test]
#[allow(non_snake_case)]
fn test_bit_test_notneg() {
   let code = vec![0x24, 0x02]; // Bit test for zero page location
   let mut nes = Cpu::new(code);

   // this should set the overflow, negative and zero flag.
   nes.memory.set(0x02, 0x75); // '0b01110101'
   nes.A = 0x04;

   nes.next().unwrap();
   assert_eq!(0, nes.Z);
   assert_eq!(0, nes.N);
   assert_eq!(1, nes.V);
}

#[test]
#[allow(non_snake_case)]
fn test_clear_carry() {
   let code = vec![0x18];
   let mut nes = Cpu::new(code);
   nes.C = 0x1;
   nes.next().unwrap();
   assert_eq!(0, nes.C);
}

#[test]
#[allow(non_snake_case)]
fn test_clear_decimal() {
   let code = vec![0xD8];
   let mut nes = Cpu::new(code);
   nes.D = 0x1;
   nes.next().unwrap();
   assert_eq!(0, nes.D);
}

#[test]
#[allow(non_snake_case)]
fn test_clear_interrupt() {
   let code = vec![0x58];
   let mut nes = Cpu::new(code);
   nes.I = 0x1;
   nes.next().unwrap();
   assert_eq!(0, nes.I);
}

#[test]
#[allow(non_snake_case)]
fn test_clear_overflow() {
   let code = vec![0xB8];
   let mut nes = Cpu::new(code);
   nes.V = 0x1;
   nes.next().unwrap();
   assert_eq!(0, nes.V);
}

#[test]
#[allow(non_snake_case)]
fn test_store_A() {
    let code = vec![0x85, 0x04];
    let mut nes = Cpu::new(code);
    nes.A = 0xF1;
    nes.next().unwrap();
    assert_eq!(0xF1, nes.memory.get(0x04));
}

#[test]
#[allow(non_snake_case)]
fn test_store_X() {
    let code = vec![0x86, 0x04];
    let mut nes = Cpu::new(code);
    nes.X = 0xF1;
    nes.next().unwrap();
    assert_eq!(0xF1, nes.memory.get(0x04));
}

#[test]
#[allow(non_snake_case)]
fn test_store_Y() {
    let code = vec![0x84, 0x04];
    let mut nes = Cpu::new(code);
    nes.Y = 0xF1;
    nes.next().unwrap();
    assert_eq!(0xF1, nes.memory.get(0x04));
}


#[test]
#[allow(non_snake_case)]
fn test_transfer_A_to_X() {
    //TAX
    let code = vec![0xAA];
    let mut nes = Cpu::new(code);
    nes.A = 0xF1;
    nes.next().unwrap();
    assert_eq!(0xF1, nes.X);
}

#[test]
#[allow(non_snake_case)]
fn test_transfer_A_to_Y() {
    //TAY
    let code = vec![0xA8];
    let mut nes = Cpu::new(code);
    nes.A = 0xF1;
    nes.next().unwrap();
    assert_eq!(0xF1, nes.Y);
}

#[test]
#[allow(non_snake_case)]
fn test_transfer_X_to_A() {
    //TXA
    let code = vec![0x8A];
    let mut nes = Cpu::new(code);
    nes.X = 0xF1;
    nes.next().unwrap();
    assert_eq!(0xF1, nes.A);
}

#[test]
#[allow(non_snake_case)]
fn test_transfer_Y_to_A() {
    //TYA
    let code = vec![0x98];
    let mut nes = Cpu::new(code);
    nes.Y = 0xF1;
    nes.next().unwrap();
    assert_eq!(0xF1, nes.Y);
}

#[test]
#[allow(non_snake_case)]
fn test_transfer_X_to_SP() {
    //TXA
    let code = vec![0x9A];
    let mut nes = Cpu::new(code);
    nes.X = 0xF1;
    nes.next().unwrap();
    assert_eq!(0xF1, nes.SP);
}

#[test]
#[allow(non_snake_case)]
fn test_transfer_SP_to_X() {
    //TYA
    let code = vec![0xBA];
    let mut nes = Cpu::new(code);
    nes.SP = 0xF1;
    nes.next().unwrap();
    assert_eq!(0xF1, nes.X);
    assert_eq!(0x0, nes.Z);
    assert_eq!(0x1, nes.N);
}

#[test]
#[allow(non_snake_case)]
fn test_stack_accumulator() {
    let code = vec![0x48, 0x68];//push pull
    let mut nes = Cpu::new(code);
    nes.A = 0x44;

    nes.next().unwrap();
    nes.A = 0x00;
    assert_eq!(0xFC, nes.SP);
    assert_eq!(0x44, nes.memory.get(0x01FD));

    nes.next().unwrap();
    assert_eq!(0xFD, nes.SP);
    assert_eq!(0x44, nes.A);
}

#[test]
#[allow(non_snake_case)]
fn test_stack_processor_flag() {
    let code = vec![0x08, 0x28];//push pull
    let mut nes = Cpu::new(code);
    
    nes.C = 1;
    nes.Z = 1;
    nes.V = 1;
    nes.N = 0;
    nes.I = 0;

    nes.next().unwrap();
     
    nes.C = 0;
    nes.Z = 0;
    nes.V = 0;
    nes.N = 0;
    nes.I = 0;

    assert_eq!(0xFC, nes.SP);
    //assert_eq!(0x44, nes.memory.get(0x01FF));

    nes.next().unwrap();
    assert_eq!(0xFD, nes.SP);
    assert_eq!(1, nes.C);
    assert_eq!(1, nes.Z);
    assert_eq!(1, nes.V);
    assert_eq!(0, nes.N);
    assert_eq!(0, nes.I);
}

#[test]
#[allow(non_snake_case)]
fn test_exclusive_eor() {
    let code = vec![0x49, 0x3];//push pull
    let mut nes = Cpu::new(code);
    nes.A = 0x6;
    nes.next().unwrap();
    assert_eq!(0x5, nes.A);
}

#[test]
#[allow(non_snake_case)]
fn test_exclusive_ora() {
    let code = vec![0x09, 0x03];//push pull
    let mut nes = Cpu::new(code);
    nes.A = 0x06;
    nes.next().unwrap();
    assert_eq!(0x7, nes.A);
}

#[test]
#[allow(non_snake_case)]
fn test_inc_dec_mem() {
    let code = vec![0xE6, 0x02, 0xC6, 0x02];
    let mut nes = Cpu::new(code);
    nes.next().unwrap();
    assert_eq!(1, nes.memory.get(0x02 as usize));
    nes.next().unwrap();
    
    assert_eq!(0, nes.memory.get(0x02 as usize));
}


#[test]
#[allow(non_snake_case)]
fn test_inx_dex() {
    let code = vec![0xE8, 0xCA];
    let mut nes = Cpu::new(code);
    nes.next().unwrap();
    assert_eq!(1, nes.X);
    nes.next().unwrap();
    assert_eq!(0, nes.X);
}

#[test]
#[allow(non_snake_case)]
fn test_iny_dey() {
    let code = vec![0xC8, 0x88];
    let mut nes = Cpu::new(code);
    nes.next().unwrap();
    assert_eq!(1, nes.Y);
    nes.next().unwrap();
    assert_eq!(0, nes.Y);
}

#[test]
#[allow(non_snake_case)]
fn test_cmp_a_gt_m() {
    let code = vec![0xC9, 0x2];
    let mut nes = Cpu::new(code);
    nes.A = 0x05;
    nes.next().unwrap();

    assert_eq!(1, nes.C);
    assert_eq!(0, nes.Z);
}

#[test]
#[allow(non_snake_case)]
fn test_cmp_a_eq_m() {
    let code = vec![0xC9, 0x2];
    let mut nes = Cpu::new(code);
    nes.A = 0x02;
    nes.next().unwrap();

    assert_eq!(1, nes.C);
    assert_eq!(1, nes.Z);

}

#[test]
#[allow(non_snake_case)]
fn test_cmp_a_lt_m() {
    let code = vec![0xC9, 0x7];
    let mut nes = Cpu::new(code);
    nes.A = 0x05;
    nes.next().unwrap();

    assert_eq!(0, nes.C);
    assert_eq!(0, nes.Z);
    assert_eq!(1, nes.N);
}

#[test]
#[allow(non_snake_case)]
fn test_cmp_x_gt_m() {
    let code = vec![0xE0, 0x2];
    let mut nes = Cpu::new(code);
    nes.X = 0x05;
    nes.next().unwrap();

    assert_eq!(1, nes.C);
    assert_eq!(0, nes.Z);
}

#[test]
#[allow(non_snake_case)]
fn test_cmp_x_eq_m() {
    let code = vec![0xE0, 0x2];
    let mut nes = Cpu::new(code);
    nes.X = 0x02;
    nes.next().unwrap();

    assert_eq!(1, nes.C);
    assert_eq!(1, nes.Z);

}

#[test]
#[allow(non_snake_case)]
fn test_cmp_x_lt_m() {
    let code = vec![0xE0, 0x7];
    let mut nes = Cpu::new(code);
    nes.X = 0x05;
    nes.next().unwrap();

    assert_eq!(0, nes.C);
    assert_eq!(0, nes.Z);
    assert_eq!(1, nes.N);
}

#[test]
#[allow(non_snake_case)]
fn test_cmp_y_gt_m() {
    let code = vec![0xC0, 0x2];
    let mut nes = Cpu::new(code);
    nes.Y = 0x05;
    nes.next().unwrap();

    assert_eq!(1, nes.C);
    assert_eq!(0, nes.Z);
}

#[test]
#[allow(non_snake_case)]
fn test_cmp_y_eq_m() {
    let code = vec![0xC0, 0x2];
    let mut nes = Cpu::new(code);
    nes.Y = 0x02;
    nes.next().unwrap();

    assert_eq!(1, nes.C);
    assert_eq!(1, nes.Z);

}

#[test]
#[allow(non_snake_case)]
fn test_cmp_y_lt_m() {
    let code = vec![0xC0, 0x7];
    let mut nes = Cpu::new(code);
    nes.Y = 0x05;
    nes.next().unwrap();

    assert_eq!(0, nes.C);
    assert_eq!(0, nes.Z);
    assert_eq!(1, nes.N);
}
// -----------------------------------------------
// Quick testing of unofficial opcodes.

// Does AND #i, setting N and Z flags based on the result. Then it copies N (bit 7) to C
#[test]
#[allow(non_snake_case)]
fn test_anc() {
    let code = vec![0x0B, 0xFF];
    let mut nes = Cpu::new(code);
    nes.A = 0xC2; // negatif

    nes.next().unwrap();
    assert_eq!(1, nes.C);
    assert_eq!(1, nes.N);
    assert_eq!(0, nes.Z);
}

// AND X register with accumulator and store result in X
#[test]
#[allow(non_snake_case)]
fn test_axs() {

    let code = vec![0x87, 0x01];
    let mut nes = Cpu::new(code);
    nes.X = 0x12;
    nes.A = 0x46;
    nes.next().unwrap();
    assert_eq!(0x02, nes.memory.get(0x01));
    assert_eq!(0, nes.N);
    assert_eq!(0, nes.Z);
}

// AND byte with accumulator, then rotate one bit right in accu-mulator and
// check bit 5 and 6:
// If both bits are 1: set C, clear V.
// If both bits are 0: clear C and V.
// If only bit 5 is 1: set V, clear C.
// If only bit 6 is 1: set C and V.
// Status flags: N,V,Z,C
#[test]
#[allow(non_snake_case)]
fn test_arr() {
    let code = vec![0x6B, 0xD1];
    let mut nes = Cpu::new(code);
    nes.A = 0xFF;
    
    nes.next().unwrap();
    assert_eq!(1, nes.C);
    assert_eq!(0, nes.V);
    assert_eq!(0, nes.N);
    assert_eq!(0, nes.Z);
    assert_eq!(0x68, nes.A);
}

// ALR
// This opcode ANDs the contents of the A register with an immediate value and 
// then LSRs the result.
#[test]
#[allow(non_snake_case)]
fn test_alr() {
    let code = vec![0x4B, 0xD1];
    let mut nes = Cpu::new(code);
    nes.A = 0xc4;
    // AND is 0b11000000
    // Shift right -> 0b01100000 and C = 0
    nes.next().unwrap();
    assert_eq!(0, nes.C);
    assert_eq!(0, nes.N);
    assert_eq!(0, nes.Z);
    assert_eq!(0x60, nes.A);
}

#[test]
#[allow(non_snake_case)]
fn test_lax() {
    let code = vec![0xA7, 0xD1];
    let mut nes = Cpu::new(code);
    nes.memory.set(0xD1, 0x54);

    nes.next().unwrap();
    
    assert_eq!(0x54, nes.A);
    assert_eq!(0x54, nes.X);
    assert_eq!(0, nes.N);
    assert_eq!(0, nes.Z);
}

#[test]
#[allow(non_snake_case)]
fn test_sax() {
    let code = vec![0x87, 0xD1];
    let mut nes = Cpu::new(code);
    nes.X = 0x53;
    nes.A = 0x62;
    nes.next().unwrap();
    assert_eq!(0x42, nes.memory.get(0xD1));
}

#[test]
fn jsr_then_rts_returns_after_the_call() {
    // JSR $8005; LDX #$01; (at $8005) LDA #$07; RTS
    let code = vec![0x20, 0x05, 0x80, 0xA2, 0x01, 0xA9, 0x07, 0x60];
    let mut nes = Cpu::new(code);
    assert_eq!(6, nes.next().unwrap());
    assert_eq!(0x8005, nes.PC);
    assert_eq!(0xFB, nes.SP);
    assert_eq!(0x80, nes.memory.get(0x01FD));
    assert_eq!(0x02, nes.memory.get(0x01FC));
    nes.next().unwrap();
    assert_eq!(6, nes.next().unwrap());
    assert_eq!(0x8003, nes.PC);
    assert_eq!(0xFD, nes.SP);
    nes.next().unwrap();
    assert_eq!(0x01, nes.X);
    assert_eq!(0x07, nes.A);
}

#[test]
fn sbc_subtracts_with_borrow() {
    // SEC; LDA #$50; SBC #$F0
    let code = vec![0x38, 0xA9, 0x50, 0xE9, 0xF0];
    let mut nes = Cpu::new(code);
    nes.next().unwrap();
    nes.next().unwrap();
    nes.next().unwrap();
    assert_eq!(0x60, nes.A);
    assert_eq!(0, nes.C);
    assert_eq!(0, nes.V);
    // CLC; SBC #$01: 0x60 - 1 - 1
    let mut nes = Cpu::new(vec![0x18, 0xA9, 0x60, 0xE9, 0x01]);
    nes.next().unwrap();
    nes.next().unwrap();
    nes.next().unwrap();
    assert_eq!(0x5E, nes.A);
    assert_eq!(1, nes.C);
}

#[test]
fn adc_negative_overflow() {
    let mut nes = Cpu::new(vec![0xA9, 0x80, 0x69, 0xFF]);
    nes.next().unwrap();
    nes.next().unwrap();
    assert_eq!(0x7F, nes.A);
    assert_eq!(1, nes.C);
    assert_eq!(1, nes.V);
    assert_eq!(0, nes.N);
}

#[test]
fn unknown_opcode_is_skipped() {
    let mut nes = Cpu::new(vec![0x02, 0xA9, 0x05]);
    assert_eq!(0, nes.next().unwrap());
    assert_eq!(0x8001, nes.PC);
    assert_eq!(0, nes.cycles);
    nes.next().unwrap();
    assert_eq!(0x05, nes.A);
    assert_eq!(2, nes.cycles);
}

#[test]
fn branch_to_another_page_costs_two_more_cycles() {
    let mut nes = Cpu::new(vec![0x90, 0xF9]);
    nes.C = 0;
    assert_eq!(4, nes.next().unwrap());
    assert_eq!(0x7FFB, nes.PC);
    let mut nes = Cpu::new(vec![0x90, 0x07]);
    nes.C = 0;
    assert_eq!(3, nes.next().unwrap());
    let mut nes = Cpu::new(vec![0x90, 0x07]);
    nes.C = 1;
    assert_eq!(2, nes.next().unwrap());
}

#[test]
fn brk_pushes_state_and_jumps_through_vector() {
    let mut nes = Cpu::new(vec![0x00]);
    nes.memory.set(0xFFFD, 0x34);
    nes.memory.set(0xFFFE, 0x12);
    nes.C = 1;
    assert_eq!(7, nes.next().unwrap());
    assert_eq!(0x1234, nes.PC);
    assert_eq!(0xFA, nes.SP);
    assert_eq!(0x80, nes.memory.get(0x01FD));
    assert_eq!(0x01, nes.memory.get(0x01FC));
    assert_eq!(0x31, nes.memory.get(0x01FB));
}

#[test]
fn indexed_absolute_page_cross_costs_a_cycle() {
    // LDA $80FF,X with X = 1 reads $8100.
    let mut nes = Cpu::new(vec![0xBD, 0xFF, 0x80]);
    nes.X = 1;
    assert_eq!(5, nes.next().unwrap());
    assert_eq!(0, nes.A);
    assert_eq!(1, nes.Z);
}

#[test]
fn status_byte_for_traces() {
    let mut nes = Cpu::new(vec![]);
    nes.N = 1;
    nes.C = 1;
    assert_eq!(0xA1, nes.flags_to_u8_debug());
}
