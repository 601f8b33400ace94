use esp_rsa::{
    Multi, Op128, Op2048, Op32, Op4096, Op64, PeripheralClockControl, PeripheralEnable, Rsa,
    RsaMode, RsaModularExponentiation, RsaModularMultiplication, RsaMultiplication, RsaPeripheral,
    REGION_BYTES,
};

fn le_bytes(v: u128, n: usize) -> Vec<u8> {
    (0..n).map(|i| if i < 16 { (v >> (8 * i)) as u8 } else { 0 }).collect()
}

fn le_value(b: &[u8]) -> u128 {
    b.iter().rev().fold(0u128, |acc, &x| (acc << 8) | x as u128)
}

fn mod_pow(base: u128, exp: u128, m: u128) -> u128 {
    let mut result = 1 % m;
    let mut b = base % m;
    let mut e = exp;
    while e > 0 {
        if e & 1 == 1 {
            result = result * b % m;
        }
        b = b * b % m;
        e >>= 1;
    }
    result
}

/// `-m^-1 mod 2^32`, for odd `m`.
fn m_prime(m: u128) -> u32 {
    let m = m as u32;
    let mut inv: u32 = 1;
    for _ in 0..5 {
        inv = inv.wrapping_mul(2u32.wrapping_sub(m.wrapping_mul(inv)));
    }
    inv.wrapping_neg()
}

fn new_rsa() -> Rsa {
    let mut clocks = PeripheralClockControl::new();
    Rsa::new(RsaPeripheral::new(), &mut clocks)
}

/// Runs one exponentiation of width `T`, with the test acting as hardware.
fn run_exponentiation<T: RsaMode>(rsa: Rsa, base: u128, exp: u128, modulus: u128) -> (Rsa, Vec<u8>) {
    let n = T::input_len();
    let bits = 8 * n as u32;
    let r = mod_pow(2, 2 * bits as u128, modulus);
    let mut session = RsaModularExponentiation::<T>::new(
        rsa,
        &le_bytes(exp, n),
        &le_bytes(modulus, n),
        m_prime(modulus),
    );
    session.start_exponentiation(&le_bytes(base, n), &le_bytes(r, n));
    let mut out = vec![0xAAu8; n];
    assert_eq!(session.read_results(&mut out), Err(nb::Error::WouldBlock));
    session.hardware_complete(&le_bytes(mod_pow(base, exp, modulus), n));
    let mut polls = 0;
    loop {
        match session.read_results(&mut out) {
            Ok(()) => break,
            Err(nb::Error::WouldBlock) => polls += 1,
            Err(nb::Error::Other(e)) => match e {},
        }
        assert!(polls < 10);
    }
    (session.free(), out)
}

#[test]
fn exponentiation_three_mod_eleven() {
    let mut rsa = new_rsa();
    for (e, expected) in [(0u128, 1u128), (1, 3), (5, 1)] {
        let (back, out) = run_exponentiation::<Op32>(rsa, 3, e, 11);
        assert_eq!(out.len(), 4);
        assert_eq!(le_value(&out), expected);
        assert_eq!(le_value(&out), mod_pow(3, e, 11));
        rsa = back;
    }
}

#[test]
fn exponentiation_over_several_widths() {
    let rsa = new_rsa();
    let (rsa, out) = run_exponentiation::<Op32>(rsa, 0x1234_5678, 0x10001, 0xFFFF_FFFB);
    assert_eq!(out.len(), 4);
    assert_eq!(le_value(&out), mod_pow(0x1234_5678, 0x10001, 0xFFFF_FFFB));
    let (rsa, out) = run_exponentiation::<Op64>(rsa, 0xDEAD_BEEF, 65537, 0xFFFF_FFFF_FFFF_FFC5);
    assert_eq!(out.len(), 8);
    assert_eq!(le_value(&out), mod_pow(0xDEAD_BEEF, 65537, 0xFFFF_FFFF_FFFF_FFC5));
    let (_, out) = run_exponentiation::<Op128>(rsa, 7, 13, 1_000_003);
    assert_eq!(out.len(), 16);
    assert_eq!(le_value(&out), mod_pow(7, 13, 1_000_003));
}

#[test]
fn pending_polls_leave_buffer_and_latch_alone() {
    let rsa = new_rsa();
    let mut session = RsaModularExponentiation::<Op32>::new(rsa, &[5, 0, 0, 0], &[11, 0, 0, 0], 0);
    session.start_exponentiation(&[3, 0, 0, 0], &[4, 0, 0, 0]);
    let mut out = [9u8, 8, 7, 6];
    for _ in 0..100 {
        assert_eq!(session.read_results(&mut out), Err(nb::Error::WouldBlock));
        assert_eq!(out, [9, 8, 7, 6]);
    }
    let rsa = session.free();
    assert!(!rsa.is_idle());
}

#[test]
fn multiplication_gives_exact_double_width_product() {
    let rsa = new_rsa();
    assert_eq!(Op32::output_len(), 2 * Op32::input_len());
    let a = 0xFFFF_FFFFu128;
    let b = 0xFFFF_FFFEu128;
    let mut session = RsaMultiplication::<Op32>::new(rsa, &le_bytes(a, 4));
    session.start_multiplication(&le_bytes(b, 4));
    let mut out = [0u8; 8];
    assert_eq!(session.read_results(&mut out), Err(nb::Error::WouldBlock));
    assert_eq!(out, [0u8; 8]);
    session.hardware_complete(&le_bytes(a * b, 8));
    assert_eq!(session.read_results(&mut out), Ok(()));
    assert_eq!(le_value(&out), a * b);
    assert_eq!(le_value(&out), 0xFFFF_FFFD_0000_0002);
}

#[test]
fn multiplication_stages_second_factor_after_low_half() {
    let rsa = new_rsa();
    let mut session = RsaMultiplication::<Op32>::new(rsa, &[1, 2, 3, 4]);
    session.start_multiplication(&[5, 6, 7, 8]);
    let rsa = session.free();
    let mut z = [0u8; 8];
    rsa.read_out(&mut z);
    assert_eq!(z, [0, 0, 0, 0, 5, 6, 7, 8]);
}

#[test]
fn modular_multiplication_round() {
    let rsa = new_rsa();
    let (a, b, m) = (123_456u128, 654_321u128, 1_000_003u128);
    let mut session = RsaModularMultiplication::<Op32>::new(
        rsa,
        &le_bytes(a, 4),
        &le_bytes(b, 4),
        &le_bytes(m, 4),
        m_prime(m),
    );
    session.start_modular_multiplication(&le_bytes(mod_pow(2, 64, m), 4));
    let mut out = [0u8; 4];
    assert_eq!(session.read_results(&mut out), Err(nb::Error::WouldBlock));
    session.hardware_complete(&le_bytes(a * b % m, 4));
    assert_eq!(session.read_results(&mut out), Ok(()));
    assert_eq!(le_value(&out), a * b % m);
    assert_eq!(le_value(&out), 611_039);
}

#[test]
fn clear_readies_next_operation_without_stale_data() {
    let rsa = new_rsa();
    let (rsa, first) = run_exponentiation::<Op32>(rsa, 2, 10, 1_000_003);
    assert_eq!(le_value(&first), 1024);
    assert!(rsa.is_idle());
    let mut session = RsaMultiplication::<Op32>::new(rsa, &[3, 0, 0, 0]);
    session.start_multiplication(&[7, 0, 0, 0]);
    let mut out = [0xFFu8; 8];
    assert_eq!(session.read_results(&mut out), Err(nb::Error::WouldBlock));
    assert_eq!(out, [0xFF; 8]);
    session.hardware_complete(&[21, 0, 0, 0, 0, 0, 0, 0]);
    assert_eq!(session.read_results(&mut out), Ok(()));
    assert_eq!(out, [21, 0, 0, 0, 0, 0, 0, 0]);
}

#[test]
fn clear_interrupt_is_idempotent() {
    let mut rsa = new_rsa();
    rsa.set_start(esp_rsa::Operation::ModularExponentiation);
    assert!(!rsa.is_idle());
    rsa.hardware_complete(&[42]);
    assert!(rsa.is_idle());
    rsa.clear_interrupt();
    rsa.clear_interrupt();
    assert!(rsa.is_idle());
    let mut out = [0u8; 1];
    rsa.read_out(&mut out);
    assert_eq!(out, [42]);
}

#[test]
fn completion_without_running_operation_changes_nothing() {
    let mut rsa = new_rsa();
    rsa.hardware_complete(&[1, 2, 3]);
    let mut out = [7u8; 3];
    rsa.read_out(&mut out);
    assert_eq!(out, [0, 0, 0]);
}

#[test]
fn staging_primitives_copy_bytes() {
    let mut rsa = new_rsa();
    rsa.write_r(&[1, 2, 3, 4, 5]);
    rsa.write_operand_a(&[9; 5]);
    rsa.write_operand_b(&[8; 5]);
    rsa.write_modulus(&[7; 5]);
    rsa.write_mprime(0xDEAD_BEEF);
    let mut out = [0u8; 6];
    rsa.read_out(&mut out);
    assert_eq!(out, [1, 2, 3, 4, 5, 0]);
    let mut full = vec![0xEEu8; REGION_BYTES];
    rsa.read_out(&mut full);
    assert_eq!(&full[..5], &[1, 2, 3, 4, 5]);
    assert!(full[5..].iter().all(|&b| b == 0));
}

#[test]
fn new_enables_rsa_clock_only() {
    let mut clocks = PeripheralClockControl::new();
    assert!(!clocks.is_enabled(PeripheralEnable::Rsa));
    let rsa = Rsa::new(RsaPeripheral::new(), &mut clocks);
    assert!(clocks.is_enabled(PeripheralEnable::Rsa));
    assert!(!clocks.is_enabled(PeripheralEnable::Sha));
    assert!(!clocks.is_enabled(PeripheralEnable::Aes));
    assert!(rsa.is_idle());
}

#[test]
fn init_enables_clock() {
    let mut clocks = PeripheralClockControl::new();
    let mut rsa = new_rsa();
    rsa.init(&mut clocks);
    assert!(clocks.is_enabled(PeripheralEnable::Rsa));
}

#[test]
fn operand_widths() {
    assert_eq!(Op32::input_len(), 4);
    assert_eq!(Op64::input_len(), 8);
    assert_eq!(Op2048::input_len(), 256);
    assert_eq!(Op2048::output_len(), 512);
    assert_eq!(Op4096::input_len(), REGION_BYTES);
}
