use emulator::cpu::CPU;

#[test]
fn cpu_test_0xa9_lda_immediate_load_data(){
    let mut cpu=CPU::new();
    cpu.interpret(vec![0xa9,0x05,0x00]).unwrap();
    assert_eq!(cpu.register_a, 0x05);
    assert!(cpu.status&0b0000_0010==0b00);
    assert!(cpu.status&0b1000_0000==0);
}

#[test]
fn cpu_test_0xa9_lda_zero_flag(){
    let mut cpu=CPU::new();
    cpu.interpret(vec![0xa9,0x00,0x00]).unwrap();
    assert!(cpu.status&0b0000_0010==0b10);
}

#[test]
fn test_0xa9_lda_negative_flag() {
    let mut cpu = CPU::new();
    cpu.interpret(vec![0xa9, 0xff, 0x00]).unwrap();
    assert!(cpu.status & 0b1000_0000 == 0b1000_0000);

}

#[test]
fn cpu_test_0xaa_tax(){
    let mut cpu=CPU::new();
    cpu.interpret(vec![0xa9,10,0xaa,0x00]).unwrap();
    assert_eq!(cpu.register_x,10);
}

#[test]
fn test_5_ops_working_together(){
    let mut cpu =CPU::new();
    cpu.interpret(vec![0xa9,0xc0,0xaa,0xe8,0x00]).unwrap();

    assert_eq!(cpu.register_x,0xc1);
}

#[test]
fn test_inx_overflow(){
    let mut cpu=CPU::new();
    cpu.interpret(vec![0xa2,0xff,0xe8,0xe8,0x00]).unwrap();

    assert_eq!(cpu.register_x,1);
}

#[test]
fn test_lda_from_memory_zero_page(){
    let address:u8=0x10;
    let mut cpu=CPU::new();
    cpu.mem_write(address as u16,0x55);
    cpu.load_and_run(vec![0xa5,address,0x00]).unwrap();

    assert_eq!(cpu.register_a,0x55);
}

#[test]
fn test_lda_from_memory_zero_page_x(){
    let mut cpu=CPU::new();
    cpu.load(vec![0xB5,0xA0,0x00]);
    cpu.reset();
    cpu.register_x=0x01;
    cpu.mem_write(0xA1,0x44);
    cpu.run().unwrap();

    assert_eq!(cpu.register_a,0x44);
}

#[test]
fn test_lda_from_memory_absolute(){
    let mut cpu=CPU::new();
    cpu.load(vec![0xad,0x10,0x20,0x00]);
    cpu.reset();
    cpu.mem_write(0x2010,0x77);
    cpu.run().unwrap();

    assert_eq!(cpu.register_a,0x77);
}

#[test]
fn test_lda_from_memory_absolute_x (){
    let mut cpu=CPU::new();
    cpu.load(vec![0xbd,0x10,0x20,0x00]);
    cpu.reset();
    cpu.register_x=0x05;
    cpu.mem_write(0x2015,0x66);
    cpu.run().unwrap();

    assert_eq!(cpu.register_a,0x66);
}

#[test]
fn test_lda_from_memory_absolute_y (){
    let mut cpu=CPU::new();
    cpu.load(vec![0xb9,0x10,0x30,0x00]);
    cpu.reset();
    cpu.register_y=0x05;
    cpu.mem_write(0x3015,0x88);
    cpu.run().unwrap();

    assert_eq!(cpu.register_a,0x88);
}

#[test]
fn test_lda_from_memory_indirect_x (){
    let mut cpu=CPU::new();
    cpu.load(vec![0xA1,0x10,0x00]);
    cpu.reset();
    cpu.register_x=0x03;

    cpu.mem_write(0x10+0x03,0x20);
    cpu.mem_write(0x10+0x03+0x01,0x30);
    cpu.mem_write(0x3020,0x33);
    cpu.run().unwrap();

    assert_eq!(cpu.register_a,0x33);
}

#[test]
fn test_lda_from_memory_indirect_y (){
    let mut cpu=CPU::new();
    cpu.load(vec![0xB1,0x10,0x00]);
    cpu.reset();
    cpu.mem_write(0x10,0x20);
    cpu.mem_write(0x10+0x01,0x30);
    cpu.register_y=0x05;
    cpu.mem_write((0x30 << 8)+0x20+0x05,0x07);
    cpu.run().unwrap();

    assert_eq!(cpu.register_a,0x07);
}

#[test]
fn test_sta_from_memory() {
    let mut cpu =CPU::new();
    cpu.load_and_run(vec![0xA9,0xBA,0x85, 0x10, 0x00]).unwrap();
    assert_eq!(cpu.mem_read(0x10), 0xBA);
}

#[test]
fn test_adc_no_carry() {
    let mut cpu=CPU::new();
    cpu.load(vec![0x69, 0x10, 0x00]);
    cpu.reset();
    cpu.register_a=0x20;
    cpu.run().unwrap();

    assert_eq!(cpu.register_a, 0x30);
    assert_eq!(cpu.status,0b0010_0000);
}

#[test]
fn test_adc_has_carry() {
    let mut cpu=CPU::new();
    cpu.load(vec![0x69, 0x10, 0x00]);
    cpu.reset();
    cpu.register_a=0x20;
    cpu.status=cpu.status|0b0000_0001;
    cpu.run().unwrap();
    assert_eq!(cpu.register_a, 0x31);
    assert_eq!(cpu.status,0b0010_0000);
}

#[test]
fn test_adc_occur_carry() {
    let mut cpu=CPU::new();
    cpu.load(vec![0x69, 0x01, 0x00]);
    cpu.reset();
    cpu.register_a=0xFF;
    cpu.run().unwrap();
    assert_eq!(cpu.register_a, 0x00);
    assert_eq!(cpu.status,0b0010_0011);
}

#[test]
fn test_adc_occur_overflow_plus() {
    let mut cpu=CPU::new();
    cpu.load(vec![0x69, 0x10, 0x00]);
    cpu.reset();
    cpu.register_a=0x7F;
    cpu.run().unwrap();
    assert_eq!(cpu.register_a, 0x8F);
    assert_eq!(cpu.status,0b1110_0000);
}

#[test]
fn test_adc_occur_overflow_plus_with_carry() {
    let mut cpu=CPU::new();
    cpu.load(vec![0x69, 0x6F, 0x00]);
    cpu.reset();
    cpu.register_a=0x10;
    cpu.status=cpu.status|0b0000_0001;
    cpu.run().unwrap();
    assert_eq!(cpu.register_a, 0x80);
    assert_eq!(cpu.status,0b1110_0000);
}

#[test]
fn test_adc_occur_overflow_minus() {
    let mut cpu=CPU::new();
    cpu.load(vec![0x69, 0x81, 0x00]);
    cpu.reset();
    cpu.register_a=0x81;
    cpu.run().unwrap();
    assert_eq!(cpu.register_a, 0x02);
    assert_eq!(cpu.status,0b0110_0001);
}

#[test]
fn test_adc_occur_overflow_minus_with_carry() {
    let mut cpu=CPU::new();
    cpu.load(vec![0x69, 0x80, 0x00]);
    cpu.reset();
    cpu.register_a=0x80;
    cpu.status=cpu.status|0b0000_0001;
    cpu.run().unwrap();
    assert_eq!(cpu.register_a, 0x01);
    assert_eq!(cpu.status,0b0110_0001);
}

#[test]
fn test_adc_no_overflow() {
    let mut cpu=CPU::new();
    cpu.load(vec![0x69, 0x7F, 0x00]);
    cpu.reset();
    cpu.register_a=0x82;
    cpu.run().unwrap();
    assert_eq!(cpu.register_a, 0x01);
    assert_eq!(cpu.status,0b0010_0001);
}

#[test]
fn test_sbc_no_carry() {
    let mut cpu=CPU::new();
    cpu.load(vec![0xe9, 0x10, 0x00]);
    cpu.reset();
    cpu.register_a=0x20;
    cpu.run().unwrap();
    assert_eq!(cpu.register_a, 0x0F);
    assert_eq!(cpu.status,0b0010_0001);
}

#[test]
fn test_sbc_has_carry() {
    let mut cpu=CPU::new();
    cpu.load(vec![0xe9, 0x10, 0x00]);
    cpu.reset();
    cpu.register_a=0x20;
    cpu.status=cpu.status|0b0000_0001;
    cpu.run().unwrap();
    assert_eq!(cpu.register_a, 0x10);
    assert_eq!(cpu.status,0b0010_0001);
}

#[test]
fn test_sbc_occur_carry() {
    let mut cpu=CPU::new();
    cpu.load(vec![0xe9, 0x02, 0x00]);
    cpu.reset();
    cpu.register_a=0x01;
    cpu.run().unwrap();
    assert_eq!(cpu.register_a, 0xFE);
    assert_eq!(cpu.status,0b1010_0000);
}

#[test]
fn test_sbc_occur_overflow() {
    let mut cpu=CPU::new();
    cpu.load(vec![0xe9, 0x81, 0x00]);
    cpu.reset();
    cpu.register_a=0x7F;
    cpu.run().unwrap();
    assert_eq!(cpu.register_a, 0xFD);
    assert_eq!(cpu.status,0b1110_0000);
}

#[test]
fn test_sbc_occur_overflow_with_carry() {
    let mut cpu=CPU::new();
    cpu.load(vec![0xe9, 0x81, 0x00]);
    cpu.reset();
    cpu.register_a=0x7F;
    cpu.status=cpu.status|0b0000_0001;
    cpu.run().unwrap();
    assert_eq!(cpu.register_a, 0xFE);
    assert_eq!(cpu.status,0b1110_0000);
}

#[test]
fn test_sbc_no_overflow() {
    let mut cpu=CPU::new();
    cpu.load(vec![0xe9, 0x7F, 0x00]);
    cpu.reset();
    cpu.register_a=0x7E;
    cpu.status=cpu.status|0b0000_0001;
    cpu.run().unwrap();
    assert_eq!(cpu.register_a, 0xFF);
    assert_eq!(cpu.status,0b1010_0000);
}

#[test]
fn test_and() {
    let mut cpu=CPU::new();
    cpu.load(vec![0x29, 0b0000_1100, 0x00]);
    cpu.reset();
    cpu.register_a=0b0000_1010;
    cpu.run().unwrap();
    assert_eq!(cpu.register_a, 0b0000_1000);
    assert_eq!(cpu.status,0b0010_0000);
}

#[test]
fn test_eor() {
    let mut cpu=CPU::new();
    cpu.load(vec![0x49, 0b0000_1100, 0x00]);
    cpu.reset();
    cpu.register_a=0b0000_1010;
    cpu.run().unwrap();
    assert_eq!(cpu.register_a, 0b0000_0110);
    assert_eq!(cpu.status,0b0010_0000);

}

#[test]
fn test_ora() {
    let mut cpu=CPU::new();
    cpu.load(vec![0x09, 0b0000_1100, 0x00]);
    cpu.reset();
    cpu.register_a=0b0000_1010;
    cpu.run().unwrap();
    assert_eq!(cpu.register_a, 0b0000_1110);
    assert_eq!(cpu.status,0b0010_0000);
}

#[test]
fn test_asl_a() {
    let mut cpu=CPU::new();
    cpu.load(vec![0x0a,0x00]);
    cpu.reset();
    cpu.register_a=0b0000_0011;
    cpu.run().unwrap();
    assert_eq!(cpu.register_a, 0b0000_0110);
    assert_eq!(cpu.status,0b0010_0000);
}

#[test]
fn test_asl_zero_page() {
    let mut cpu=CPU::new();
    cpu.load(vec![0x06, 0b0000_0001, 0x00]);
    cpu.reset();
    cpu.mem_write(0x0001,0b0000_0011);
    cpu.run().unwrap();
    assert_eq!(cpu.mem_read(0x0001),0b0000_0110);
    assert_eq!(cpu.status,0b0010_0000);
}

#[test]
fn test_asl_a_occur_carry() {
    let mut cpu=CPU::new();
    cpu.load(vec![0x0a,0x00]);
    cpu.reset();
    cpu.register_a=0b1000_0001;
    cpu.run().unwrap();
    assert_eq!(cpu.register_a,0b0000_0010);
    assert_eq!(cpu.status,0b0010_0001);
}

#[test]
fn test_asl_zero_page_occur_carry() {
    let mut cpu=CPU::new();
    cpu.load(vec![0x06, 0b0000_0001, 0x00]);
    cpu.reset();
    cpu.mem_write(0x0001,0b1000_0001);
    cpu.run().unwrap();
    assert_eq!(cpu.mem_read(0x0001),0b0000_0010);
    assert_eq!(cpu.status,0b0010_0001);
}

#[test]
fn test_lsr_a() {
    let mut cpu=CPU::new();
    cpu.load(vec![0x4a,0x00]);
    cpu.reset();
    cpu.register_a=0b0000_0010;
    cpu.run().unwrap();
    assert_eq!(cpu.register_a, 0b0000_0001);
    assert_eq!(cpu.status,0b0010_0000);
}

#[test]
fn test_lsr_zero_page() {
    let mut cpu=CPU::new();
    cpu.load(vec![0x46, 0b0000_0001, 0x00]);
    cpu.reset();
    cpu.mem_write(0x0001,0b0000_0010);
    cpu.run().unwrap();
    assert_eq!(cpu.mem_read(0x0001),0x01);
    assert_eq!(cpu.status,0b0010_0000);
}

#[test]
fn test_lsr_zero_page_zero_flag() {
    let mut cpu=CPU::new();
    cpu.load(vec![0x46, 0b0000_0001, 0x00]);
    cpu.reset();
    cpu.mem_write(0x0001,0b0000_0001);
    cpu.run().unwrap();
    assert_eq!(cpu.mem_read(0x0001),0x00);
    assert_eq!(cpu.status,0b0010_0011);
}

#[test]
fn test_lsr_a_occur_carry() {
    let mut cpu=CPU::new();
    cpu.load(vec![0x4a,0x00]);
    cpu.reset();
    cpu.register_a=0b0000_0011;
    cpu.run().unwrap();
    assert_eq!(cpu.register_a,0x01);
    assert_eq!(cpu.status,0b0010_0001);
}

#[test]
fn test_lsr_zero_page_occur_carry() {
    let mut cpu=CPU::new();
    cpu.load(vec![0x46, 0b0000_0001, 0x00]);
    cpu.reset();
    cpu.mem_write(0x0001,0b0000_0011);
    cpu.run().unwrap();
    assert_eq!(cpu.mem_read(0x0001),0x01);
    assert_eq!(cpu.status,0b0010_0001);
}

#[test]
fn test_rol_a() {
    let mut cpu=CPU::new();
    cpu.load(vec![0x2a,0x00]);
    cpu.reset();
    cpu.register_a=0b0000_0011;
    cpu.run().unwrap();
    assert_eq!(cpu.register_a, 0b0000_0110);
    assert_eq!(cpu.status,0b0010_0000);
}

#[test]
fn test_rol_zero_page() {
    let mut cpu=CPU::new();
    cpu.load(vec![0x26, 0b0000_0001, 0x00]);
    cpu.reset();
    cpu.mem_write(0x0001,0b0000_0011);
    cpu.run().unwrap();
    assert_eq!(cpu.mem_read(0x0001),0b0000_0110);
    assert_eq!(cpu.status,0b0010_0000);
}

#[test]
fn test_rol_a_with_carry() {
    let mut cpu=CPU::new();
    cpu.load(vec![0x2a,0x00]);
    cpu.reset();
    cpu.register_a=0b0000_0011;
    cpu.status=cpu.status|0b000_0001;
    cpu.run().unwrap();
    assert_eq!(cpu.register_a, 0b0000_0111);
    assert_eq!(cpu.status,0b0010_0000);
}

#[test]
fn test_rol_zero_page_with_carry() {
    let mut cpu=CPU::new();
    cpu.load(vec![0x26, 0b0000_0001, 0x00]);
    cpu.reset();
    cpu.mem_write(0x0001,0b0000_0011);
    cpu.status=cpu.status|0b000_0001;
    cpu.run().unwrap();
    assert_eq!(cpu.mem_read(0x0001),0b0000_0111);
    assert_eq!(cpu.status,0b0010_0000);
}

#[test]
fn test_rol_a_zero_with_carry() {
    let mut cpu=CPU::new();
    cpu.load(vec![0x2a,0x00]);
    cpu.reset();
    cpu.register_a=0b0000_0000;
    cpu.status=cpu.status|0b000_0001;
    cpu.run().unwrap();
    assert_eq!(cpu.register_a, 0b0000_0001);
    assert_eq!(cpu.status,0b0010_0000);
}

#[test]
fn test_rol_zero_page_zero_with_carry() {
    let mut cpu=CPU::new();
    cpu.load(vec![0x26, 0b0000_0001, 0x00]);
    cpu.reset();
    cpu.mem_write(0x0001,0b0000_0000);
    cpu.status=cpu.status|0b000_0001;
    cpu.run().unwrap();
    assert_eq!(cpu.mem_read(0x0001),0b0000_0001);
    assert_eq!(cpu.status,0b0010_0000);
}

#[test]
fn test_ror_a() {
    let mut cpu=CPU::new();
    cpu.load(vec![0x6a,0x00]);
    cpu.reset();
    cpu.register_a=0b0000_0010;
    cpu.run().unwrap();
    assert_eq!(cpu.register_a, 0b0000_0001);
    assert_eq!(cpu.status,0b0010_0000);
}

#[test]
fn test_ror_zero_page() {
    let mut cpu=CPU::new();
    cpu.load(vec![0x66, 0b0000_0001, 0x00]);
    cpu.reset();
    cpu.mem_write(0x0001,0b0000_0010);
    cpu.run().unwrap();
    assert_eq!(cpu.mem_read(0x0001),0b0000_0001);
    assert_eq!(cpu.status,0b0010_0000);
}

#[test]
fn test_ror_a_occur_carry() {
    let mut cpu=CPU::new();
    cpu.load(vec![0x6a,0x00]);
    cpu.reset();
    cpu.register_a=0b0000_0011;
    cpu.run().unwrap();
    assert_eq!(cpu.register_a, 0b0000_0001);
    assert_eq!(cpu.status,0b0010_0001);
}

#[test]
fn test_ror_zero_page_occur_carry() {
    let mut cpu=CPU::new();
    cpu.load(vec![0x66, 0b0000_0001, 0x00]);
    cpu.reset();
    cpu.mem_write(0x0001,0b0000_0011);
    cpu.run().unwrap();
    assert_eq!(cpu.mem_read(0x0001),0b0000_0001);
    assert_eq!(cpu.status,0b0010_0001);
}

#[test]
fn test_ror_a_with_carry() {
    let mut cpu=CPU::new();
    cpu.load(vec![0x6a,0x00]);
    cpu.reset();
    cpu.register_a=0b0000_0011;
    cpu.status=cpu.status|0b000_0001;
    cpu.run().unwrap();
    assert_eq!(cpu.register_a, 0b1000_0001);
    assert_eq!(cpu.status,0b1010_0001);
}

#[test]
fn test_ror_zero_page_with_carry() {
    let mut cpu=CPU::new();
    cpu.load(vec![0x66, 0b0000_0001, 0x00]);
    cpu.reset();
    cpu.mem_write(0x0001,0b0000_0011);
    cpu.status=cpu.status|0b000_0001;
    cpu.run().unwrap();
    assert_eq!(cpu.mem_read(0x0001),0b1000_0001);
    assert_eq!(cpu.status,0b1010_0001);
}

#[test]
fn test_ror_a_zero_with_carry() {
    let mut cpu=CPU::new();
    cpu.load(vec![0x6a,0x00]);
    cpu.reset();
    cpu.register_a=0b0000_0000;
    cpu.status=cpu.status|0b000_0001;
    cpu.run().unwrap();
    assert_eq!(cpu.register_a, 0b1000_0000);
    assert_eq!(cpu.status,0b1010_0000);
}

#[test]
fn test_ror_zero_page_zero_with_carry() {
    let mut cpu=CPU::new();
    cpu.load(vec![0x66, 0b0000_0001, 0x00]);
    cpu.reset();
    cpu.mem_write(0x0001,0b0000_0000);
    cpu.status=cpu.status|0b000_0001;
    cpu.run().unwrap();
    assert_eq!(cpu.mem_read(0x0001),0b1000_0000);
    assert_eq!(cpu.status,0b1010_0000);
}

#[test]
fn test_jmp() {
    let mut cpu=CPU::new();
    cpu.load(vec![0x4c, 0x30,0x40,0x00]);
    cpu.reset();
    cpu.mem_write(0x4030, 0xa9);
    cpu.mem_write(0x4031, 0x22);
    cpu.run().unwrap();
    assert_eq!(cpu.status,0b0010_0000);

    assert_eq!(cpu.register_a,0x22);
}

#[test]
fn test_jmp_indirect() {
    let mut cpu=CPU::new();
    cpu.load(vec![0x6c, 0x30,0x40,0x00]);
    cpu.reset();
    cpu.mem_write(0x4030, 0x01);
    cpu.mem_write(0x4031, 0x02);
    cpu.mem_write(0x0201, 0xa9);
    cpu.mem_write(0x0202, 0x66);
    cpu.run().unwrap();
    assert_eq!(cpu.status,0b0010_0000);

    assert_eq!(cpu.register_a,0x66);
}

#[test]
fn test_jsr() {
    let mut cpu=CPU::new();
    cpu.load(vec![0x20, 0x30,0x40,0x00]);
    cpu.reset();
    cpu.mem_write(0x4030, 0xa9);
    cpu.mem_write(0x4031, 0x02);
    cpu.run().unwrap();
    assert_eq!(cpu.status,0b0010_0000);
    assert_eq!(cpu.register_a,0x02);

}

#[test]
fn test_jsr_and_rts() {
    let mut cpu=CPU::new();
    cpu.load(vec![0x20, 0x30, 0x40, 0x69,0x02,0x00]);
    cpu.reset();
    cpu.mem_write(0x4030, 0xa9);
    cpu.mem_write(0x4031, 0x77);
    cpu.mem_write(0x4032, 0x60);
    cpu.mem_write(0x4033, 0x00);
    cpu.run().unwrap();
    assert_eq!(cpu.status,0b0010_0000);
    assert_eq!(cpu.register_a,0x79);

}

#[test]
fn test_php() {
    let mut cpu=CPU::new();
    cpu.load(vec![0x08,0x00]);
    cpu.reset();
    cpu.status=cpu.status|0b1100_0000;
    cpu.run().unwrap();
    assert_eq!(cpu.status,0b1110_0000);
    assert_eq!(cpu.stack_pointer, 0xFc);
    assert_eq!(cpu.mem_read(0x01Fc), 0b1111_0000);
}

#[test]
fn test_plp() {
    let mut cpu=CPU::new();
    cpu.load(vec![0x28,0x00]);
    cpu.reset();
    cpu.push(cpu.status|0b0000_0011);
    cpu.run().unwrap();
    assert_eq!(cpu.stack_pointer, 0xFD);
    assert_eq!(cpu.status, 0b0010_0011);

}
