use pallet_kitties::codec::{push_le, push_option_u32, u128_from_le};
use pallet_kitties::genome::{combine, combine_dna, Kitty, KittyGender};
use pallet_kitties::hashing::{proof_hash, random_value};
use pallet_kitties::pallet::{Config, GenesisConfig};

#[test]
fn combine_dna_takes_selected_bits() {
    assert_eq!(combine_dna(0b10101010, 0b00001111, 0b00000001), 0b10101011);
    assert_eq!(combine_dna(0xaa, 0x55, 0x00), 0xaa);
    assert_eq!(combine_dna(0xaa, 0x55, 0xff), 0x55);
}

#[test]
fn combine_dna_every_bit_follows_selector() {
    let samples: [u8; 6] = [0x00, 0xff, 0x5a, 0xa5, 0x3c, 0x81];
    for &a in samples.iter() {
        for &b in samples.iter() {
            for &s in samples.iter() {
                let r = combine_dna(a, b, s);
                for i in 0..8 {
                    let expected = if (s >> i) & 1 == 1 { (b >> i) & 1 } else { (a >> i) & 1 };
                    assert_eq!((r >> i) & 1, expected);
                }
            }
        }
    }
}

#[test]
fn combine_whole_genome() {
    let mut selector = [0x0fu8; 16];
    selector[3] = 0xff;
    let r = combine(&[0xff; 16], &[0x00; 16], &selector);
    let mut expected = [0xf0u8; 16];
    expected[3] = 0x00;
    assert_eq!(r, expected);
}

#[test]
fn gender_follows_first_byte_parity() {
    let mut dna = [0u8; 16];
    dna[0] = 3;
    assert_eq!(Kitty(dna).gender(), KittyGender::Female);
    dna[0] = 254;
    dna[1] = 1;
    assert_eq!(Kitty(dna).gender(), KittyGender::Male);
}

#[test]
fn push_le_writes_low_bytes_first() {
    let mut out: Vec<u8> = vec![9];
    push_le(&mut out, 0x0102, 4);
    assert_eq!(out, vec![9, 2, 1, 0, 0]);
    let mut out: Vec<u8> = Vec::new();
    push_le(&mut out, 0x1122334455667788, 8);
    assert_eq!(out, vec![0x88, 0x77, 0x66, 0x55, 0x44, 0x33, 0x22, 0x11]);
}

#[test]
fn push_option_u32_tags_presence() {
    let mut out: Vec<u8> = Vec::new();
    push_option_u32(&mut out, Some(5));
    push_option_u32(&mut out, None);
    assert_eq!(out, vec![1, 5, 0, 0, 0, 0]);
}

#[test]
fn u128_from_le_reads_little_endian() {
    let mut bytes = [0u8; 16];
    bytes[0] = 1;
    assert_eq!(u128_from_le(&bytes), 1);
    bytes[0] = 0;
    bytes[15] = 0x80;
    assert_eq!(u128_from_le(&bytes), 1u128 << 127);
    assert_eq!(u128_from_le(&[0xff; 16]), u128::MAX);
}

#[test]
fn random_value_is_the_genome_of_a_fresh_kitty() {
    let dna = random_value(&[0; 32], 100, Some(0));
    assert_eq!(dna, [59, 250, 138, 82, 209, 39, 141, 109, 163, 238, 183, 145, 235, 168, 18, 122]);
    // another account or another extrinsic index gives another value
    assert_ne!(random_value(&[0; 32], 101, Some(0)), dna);
    assert_ne!(random_value(&[0; 32], 100, None), dna);
}

#[test]
fn proof_hash_is_deterministic() {
    let h = proof_hash(0, 1, 0, 7);
    assert_eq!(proof_hash(0, 1, 0, 7), h);
    assert_ne!(proof_hash(0, 1, 0, 8), h);
    assert_ne!(proof_hash(1, 0, 0, 7), h);
}

#[test]
fn breeding_scenario_is_deterministic_and_uses_combine() {
    let mut kitties = GenesisConfig { balances: vec![] }.build(Config { difficulty: 1, existential_deposit: 1 });
    assert_eq!(kitties.create(100), Ok(()));
    let first = kitties.tokens(0).unwrap().data;
    assert_eq!(first, Kitty([59, 250, 138, 82, 209, 39, 141, 109, 163, 238, 183, 145, 235, 168, 18, 122]));

    kitties.set_random_seed([2; 32]);
    assert_eq!(kitties.create(100), Ok(()));
    let second = kitties.tokens(1).unwrap().data;
    assert_eq!(second, Kitty(random_value(&[2; 32], 100, Some(0))));
    assert_ne!(first, second);
    assert_ne!(first.gender(), second.gender());

    assert_eq!(kitties.breed(100, 0, 1), Ok(()));
    let selector = random_value(&[2; 32], 100, Some(0));
    assert_eq!(kitties.tokens(2).unwrap().data, Kitty(combine(&first.0, &second.0, &selector)));
}
