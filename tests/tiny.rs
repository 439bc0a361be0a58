use emulator::tiny::CPU;

#[test]
fn main_test_0xa9_lda_immediate_load_data(){
    let mut cpu=CPU::new();
    cpu.interpret(vec![0xa9,0x05,0x00]).unwrap();
    assert_eq!(cpu.register_a, 0x05);
    assert!(cpu.status&0b0000_0010==0b00);
    assert!(cpu.status&0b1000_0000==0);
}

#[test]
fn main_test_0xa9_lda_zero_flag(){
    let mut cpu=CPU::new();
    cpu.interpret(vec![0xa9,0x00,0x00]).unwrap();
    assert!(cpu.status&0b0000_0010==0b10);
}

#[test]
fn main_test_0xaa_tax(){
    let mut cpu=CPU::new();
    cpu.register_a=10;
    cpu.interpret(vec![0xaa,0x00]).unwrap();
    assert_eq!(cpu.register_x,10);
}
