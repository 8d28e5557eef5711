use cityhasher::input::Input;
use cityhasher::mix::{
    fmix, hash_len_16_u64, hash_len_16_with_mul, mur, permute3, rotate32, rotate64, shift_mix,
    swap_bytes32, swap_bytes64, weak_hash_len_32_with_seeds,
};
use cityhasher::model::{C1, C2, K0, K1, K2, MIX_ADD, MUL_16};

fn pattern(len: usize) -> Vec<u8> {
    (0..len).map(|i| ((i * 131 + 89) % 251) as u8).collect()
}

#[test]
fn constants_are_the_published_ones() {
    assert_eq!(K0, 0xc3a5c85c97cb3127);
    assert_eq!(K1, 0xb492b66fbe98f273);
    assert_eq!(K2, 0x9ae16a3b2f90404f);
    assert_eq!(C1, 0xcc9e2d51);
    assert_eq!(C2, 0x1b873593);
    assert_eq!(MIX_ADD, 0xe6546b64);
    assert_eq!(MUL_16, 0x9ddfea08eb382d69);
    assert_eq!(K0 % 2, 1);
    assert_eq!(K1 % 2, 1);
    assert_eq!(K2 % 2, 1);
}

#[test]
fn rotate32_rotates_right() {
    assert_eq!(rotate32(0x12345678, 0), 0x12345678);
    assert_eq!(rotate32(0x12345678, 8), 0x78123456);
    assert_eq!(rotate32(0x12345678, 31), 610839792);
    assert_eq!(rotate32(1, 1), 0x8000_0000);
    assert_eq!(rotate32(0x8000_0001, 17), 49152);
    for shift in 0..32u32 {
        assert_eq!(rotate32(0xdeadbeef, shift), 0xdeadbeefu32.rotate_right(shift));
    }
}

#[test]
fn rotate64_rotates_right() {
    assert_eq!(rotate64(0x0123456789abcdef, 0), 0x0123456789abcdef);
    assert_eq!(rotate64(0x0123456789abcdef, 16), 0xcdef0123456789ab);
    assert_eq!(rotate64(0x0123456789abcdef, 63), 163971058432973790);
    assert_eq!(rotate64(1, 1), 0x8000_0000_0000_0000);
    for shift in 0..64u64 {
        assert_eq!(
            rotate64(0xdeadbeefcafebabe, shift),
            0xdeadbeefcafebabeu64.rotate_right(shift as u32)
        );
    }
}

#[test]
fn swap_bytes_reverses_the_bytes() {
    assert_eq!(swap_bytes32(0x12345678), 0x78563412);
    assert_eq!(swap_bytes32(0xff), 0xff00_0000);
    assert_eq!(swap_bytes32(0), 0);
    assert_eq!(swap_bytes64(0x0123456789abcdef), 0xefcdab8967452301);
    assert_eq!(swap_bytes64(0xff), 0xff00_0000_0000_0000);
    let mut x: u64 = 0x9e3779b97f4a7c15;
    for _ in 0..200 {
        x = x.wrapping_mul(6364136223846793005).wrapping_add(1442695040888963407);
        assert_eq!(swap_bytes64(x), x.swap_bytes());
        assert_eq!(swap_bytes32(x as u32), (x as u32).swap_bytes());
        assert_eq!(swap_bytes64(swap_bytes64(x)), x);
    }
}

#[test]
fn fmix_exact_values() {
    assert_eq!(fmix(0), 0);
    assert_eq!(fmix(1), 1364076727);
    assert_eq!(fmix(0xffff_ffff), 2180083513);
    assert_eq!(fmix(0x12345678), 3816608188);
}

#[test]
fn mur_exact_values() {
    assert_eq!(mur(0, 0), 0xe6546b64);
    assert_eq!(mur(1, 2), 651183478);
    assert_eq!(mur(0xdeadbeef, 0xcafebabe), 597786187);
}

#[test]
fn shift_mix_exact_values() {
    assert_eq!(shift_mix(0), 0);
    assert_eq!(shift_mix(u64::MAX), 18446744073709420544);
    assert_eq!(shift_mix(0x0123456789abcdef), 81985529216487337);
    assert_eq!(shift_mix(1 << 47), (1 << 47) | 1);
}

#[test]
fn permute3_cycles_its_arguments() {
    let (mut a, mut b, mut c) = (1u32, 2u32, 3u32);
    permute3(&mut a, &mut b, &mut c);
    assert_eq!((a, b, c), (3, 1, 2));
    permute3(&mut a, &mut b, &mut c);
    assert_eq!((a, b, c), (2, 3, 1));
    permute3(&mut a, &mut b, &mut c);
    assert_eq!((a, b, c), (1, 2, 3));

    let (mut x, mut y, mut z) = (String::from("x"), String::from("y"), String::from("z"));
    permute3(&mut x, &mut y, &mut z);
    assert_eq!((x.as_str(), y.as_str(), z.as_str()), ("z", "x", "y"));
}

#[test]
fn hash_len_16_with_mul_exact_values() {
    assert_eq!(hash_len_16_with_mul(1, 2, 3), 99);
    assert_eq!(hash_len_16_with_mul(0, 0, K2), 0);
    assert_eq!(
        hash_len_16_with_mul(0x0123456789abcdef, 0xfedcba9876543210, K1),
        10532734158414148358
    );
}

#[test]
fn hash_len_16_u64_exact_values() {
    assert_eq!(hash_len_16_u64(0, 0), 0);
    assert_eq!(hash_len_16_u64(1, 2), 9684580150926652833);
    assert_eq!(hash_len_16_u64(0x0123456789abcdef, 0xfedcba9876543210), 8779658750387165405);
    assert_eq!(hash_len_16_u64(1, 2), hash_len_16_with_mul(1, 2, MUL_16));
}

#[test]
fn weak_hash_len_32_with_seeds_exact_values() {
    assert_eq!(weak_hash_len_32_with_seeds(1, 2, 3, 4, 5, 6), (15, 140737499889670));
    assert_eq!(
        weak_hash_len_32_with_seeds(K0, K1, K2, u64::MAX, 0x0123456789abcdef, 0xfedcba9876543210),
        (1458372908876313047, 379206048830662566)
    );
}

#[test]
fn input_len_is_the_slice_length() {
    assert_eq!(Input(b"").len(), 0);
    assert_eq!(Input(b"hello").len(), 5);
    assert_eq!(Input(&pattern(1024)).len(), 1024);
}

#[test]
fn fetch32_reads_little_endian() {
    assert_eq!(Input(&[0x01, 0x02, 0x03, 0x04]).fetch32(0), 0x04030201);
    assert_eq!(Input(&[0xff, 0x00, 0x00, 0x80]).fetch32(0), 0x800000ff);
    let data = pattern(64);
    let input = Input(&data);
    assert_eq!(input.fetch32(0), 3882146905);
    assert_eq!(input.fetch32(1), 1877435612);
    assert_eq!(input.fetch32(60), 1001599144);
    for offset in 0..=60usize {
        let mut word = [0u8; 4];
        word.copy_from_slice(&data[offset..offset + 4]);
        assert_eq!(input.fetch32(offset), u32::from_le_bytes(word));
    }
}

#[test]
fn fetch64_reads_little_endian() {
    assert_eq!(
        Input(&[0x01, 0x02, 0x03, 0x04, 0x05, 0x06, 0x07, 0x08]).fetch64(0),
        0x0807060504030201
    );
    let data = pattern(64);
    let input = Input(&data);
    assert_eq!(input.fetch64(0), 178721697671994457);
    assert_eq!(input.fetch64(3), 10380098961857998823);
    assert_eq!(input.fetch64(56), 4301835567812647570);
    for offset in 0..=56usize {
        let mut word = [0u8; 8];
        word.copy_from_slice(&data[offset..offset + 8]);
        assert_eq!(input.fetch64(offset), u64::from_le_bytes(word));
    }
}

#[test]
fn weak_hash_at_an_offset_exact_values() {
    let data = pattern(64);
    let input = Input(&data);
    assert_eq!(
        input.weak_hash_len_32_with_seeds(0, 7, 9),
        (1294470182187141491, 14533522568058549848)
    );
    assert_eq!(
        input.weak_hash_len_32_with_seeds(32, K0, K1),
        (11487407177652077415, 13924651178772121209)
    );
    assert_eq!(
        input.weak_hash_len_32_with_seeds(32, K0, K1),
        weak_hash_len_32_with_seeds(
            input.fetch64(32),
            input.fetch64(40),
            input.fetch64(48),
            input.fetch64(56),
            K0,
            K1
        )
    );
}

#[test]
fn buckets_32_on_their_own_ranges() {
    for len in 0..=4usize {
        let data = pattern(len);
        assert_eq!(Input(&data).hash32_len_0_to_4(), Input(&data).hash32());
    }
    for len in 5..=12usize {
        let data = pattern(len);
        assert_eq!(Input(&data).hash32_len_5_to_12(), Input(&data).hash32());
    }
    for len in 13..=24usize {
        let data = pattern(len);
        assert_eq!(Input(&data).hash32_len_13_to_24(), Input(&data).hash32());
    }
    assert_eq!(Input(&pattern(0)).hash32_len_0_to_4(), 3696677242);
    assert_eq!(Input(&pattern(4)).hash32_len_0_to_4(), 3067215436);
    assert_eq!(Input(&pattern(5)).hash32_len_5_to_12(), 1835797463);
    assert_eq!(Input(&pattern(7)).hash32_len_5_to_12(), 2824264472);
    assert_eq!(Input(&pattern(8)).hash32_len_5_to_12(), 1712190859);
    assert_eq!(Input(&pattern(12)).hash32_len_5_to_12(), 2291418913);
    assert_eq!(Input(&pattern(13)).hash32_len_13_to_24(), 2086146568);
    assert_eq!(Input(&pattern(24)).hash32_len_13_to_24(), 315829419);
}

#[test]
fn buckets_64_on_their_own_ranges() {
    for len in 0..=16usize {
        let data = pattern(len);
        assert_eq!(Input(&data).hash64_len_0_to_16(), Input(&data).hash64());
    }
    for len in 17..=32usize {
        let data = pattern(len);
        assert_eq!(Input(&data).hash64_len_17_to_32(), Input(&data).hash64());
    }
    for len in 33..=64usize {
        let data = pattern(len);
        assert_eq!(Input(&data).hash64_len_33_to_64(), Input(&data).hash64());
    }
    assert_eq!(Input(&pattern(0)).hash64_len_0_to_16(), K2);
    assert_eq!(Input(&pattern(3)).hash64_len_0_to_16(), 15394270260721069433);
    assert_eq!(Input(&pattern(4)).hash64_len_0_to_16(), 16571595602504812820);
    assert_eq!(Input(&pattern(7)).hash64_len_0_to_16(), 10665409938810501418);
    assert_eq!(Input(&pattern(8)).hash64_len_0_to_16(), 7985499759259290783);
    assert_eq!(Input(&pattern(16)).hash64_len_0_to_16(), 15929596700341631692);
    assert_eq!(Input(&pattern(17)).hash64_len_17_to_32(), 5777642882171962444);
    assert_eq!(Input(&pattern(32)).hash64_len_17_to_32(), 9855065711460784035);
    assert_eq!(Input(&pattern(33)).hash64_len_33_to_64(), 1160503243286445415);
    assert_eq!(Input(&pattern(64)).hash64_len_33_to_64(), 11016385240253208594);
}

#[test]
fn dispatchers_agree_with_the_public_functions() {
    for len in [0usize, 4, 5, 24, 25, 64, 65, 200] {
        let data = pattern(len);
        let d32: u32 = cityhasher::hash(&data);
        let d64: u64 = cityhasher::hash(&data);
        assert_eq!(Input(&data).hash32(), d32);
        assert_eq!(Input(&data).hash64(), d64);
    }
}
