use gbcore::cpu::RegisterU8;
use gbcore::gameboy::init_gameboy;

#[test]
fn test_ld_r_r() {
    let mut gameboy = init_gameboy();
    let r1 = RegisterU8::A;
    let r2 = RegisterU8::B;

    gameboy.ld_r_r(r1, r2);
    let new_r1 = gameboy.cpu.register.read_u8(r1);

    assert_eq!(new_r1, 1);
}
