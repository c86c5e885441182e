use librs_apic::random::{generate_park_miller_lehmer_random_number, sys_rand};

#[test]
fn park_miller_lehmer_sequence() {
    let mut seed: u32 = 1;
    assert_eq!(generate_park_miller_lehmer_random_number(&mut seed), 48271);
    assert_eq!(seed, 48271);
    assert_eq!(generate_park_miller_lehmer_random_number(&mut seed), 182605794);
    assert_eq!(seed, 182605794);
}

#[test]
fn park_miller_lehmer_largest_seed() {
    let mut seed: u32 = u32::MAX;
    assert_eq!(generate_park_miller_lehmer_random_number(&mut seed), 48271);
}

#[test]
fn hardware_number_is_preferred() {
    let mut seed: u32 = 1;
    assert_eq!(sys_rand(Some(7), &mut seed), 7);
    assert_eq!(seed, 1);
    assert_eq!(sys_rand(None, &mut seed), 48271);
    assert_eq!(seed, 48271);
}
