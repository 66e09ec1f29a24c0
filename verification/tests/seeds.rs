use challenges::seeds::{decimal, random_seed, static_seed};

#[test]
fn decimal_writes_a_byte() {
    assert_eq!(decimal(0), "0");
    assert_eq!(decimal(7), "7");
    assert_eq!(decimal(10), "10");
    assert_eq!(decimal(99), "99");
    assert_eq!(decimal(100), "100");
    assert_eq!(decimal(109), "109");
    assert_eq!(decimal(255), "255");
    for n in 0..=255u8 {
        assert_eq!(decimal(n), n.to_string());
    }
}

#[test]
fn static_seed_is_made_of_index_and_identifier() {
    assert_eq!(static_seed(0, 0), "_static_0_00000000-0000-0000-0000-000000000000");
    assert_eq!(
        static_seed(12, 0xa1a2a3a4b1b2c1c2d1d2d3d4d5d6d7d8),
        "_static_12_a1a2a3a4-b1b2-c1c2-d1d2-d3d4d5d6d7d8"
    );
    assert_eq!(static_seed(255, u128::MAX), "_static_255_ffffffff-ffff-ffff-ffff-ffffffffffff");
    assert_eq!(static_seed(3, 0x1f), "_static_3_00000000-0000-0000-0000-00000000001f");
}

#[test]
fn static_seed_is_the_same_on_every_call() {
    assert_eq!(static_seed(1, 42), static_seed(1, 42));
    assert_ne!(static_seed(1, 42), static_seed(2, 42));
    assert_ne!(static_seed(1, 42), static_seed(1, 43));
}

#[test]
fn random_seed_is_the_text_of_a_random_identifier() {
    let seed = random_seed();
    let chars: Vec<char> = seed.chars().collect();
    assert_eq!(chars.len(), 36);
    for (p, c) in chars.iter().enumerate() {
        if p == 8 || p == 13 || p == 18 || p == 23 {
            assert_eq!(*c, '-');
        } else {
            assert!(matches!(*c, '0'..='9' | 'a'..='f'));
        }
    }
    assert_eq!(chars[14], '4');
    assert!(matches!(chars[19], '8' | '9' | 'a' | 'b'));
}

#[test]
fn random_seeds_are_fresh() {
    assert_ne!(random_seed(), random_seed());
}
