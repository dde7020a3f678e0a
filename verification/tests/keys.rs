use std::cmp::Ordering;

use key_primitives::key::KEY_SIZE;
use key_primitives::Key;
use key_primitives::KeyError;
use key_primitives::KeyType;

use parity_scale_codec::Encode;

#[test]
fn build_test() {
    let k: [u8; KEY_SIZE] = [1u8; KEY_SIZE];
    let k2 = "ABCDABCD".as_bytes().to_vec();

    assert!(Key::try_from(k).is_ok());
    assert!(Key::try_from(k2.as_slice()).is_ok());
    assert!(Key::try_from(k2).is_ok());

    assert!(Key::try_from("ABCDABCDx".as_bytes()).is_err());
}

#[test]
fn full_width_source_is_copied_verbatim() {
    let mut src = [0u8; KEY_SIZE];
    for (i, b) in src.iter_mut().enumerate() {
        *b = i as u8;
    }
    let k = Key::try_from(src.as_slice()).unwrap();
    assert_eq!(k.as_bytes(), src.as_slice());
    assert_eq!(Key::from(src), k);
}

#[test]
fn short_source_is_zero_padded() {
    let src = [9u8, 8, 7, 6, 5, 4, 3, 2];
    let k = Key::try_from(src.as_slice()).unwrap();
    assert_eq!(&k.as_bytes()[..8], src.as_slice());
    assert_eq!(&k.as_bytes()[8..], [0u8; 24].as_slice());
}

#[test]
fn other_lengths_fail_with_invalid_size() {
    for n in [0usize, 1, 7, 9, 31, 33, 64] {
        let src = vec![1u8; n];
        assert_eq!(Key::try_from(src.as_slice()), Err(KeyError::InvalidSize));
        assert_eq!(Key::try_from(&src), Err(KeyError::InvalidSize));
        assert_eq!(Key::try_from(src), Err(KeyError::InvalidSize));
    }
    assert_eq!(Key::try_from("ABCDABCDx"), Err(KeyError::InvalidSize));
}

#[test]
fn key_round_trips_through_wire_form() {
    let mut src = [0u8; KEY_SIZE];
    for (i, b) in src.iter_mut().enumerate() {
        *b = (i as u8).wrapping_mul(3);
    }
    let k = Key::from(src);
    let wire = k.encode();
    assert_eq!(wire.as_slice(), src.as_slice());
    assert_eq!(Key::decode(wire.as_slice()), Some(k));
}

#[test]
fn key_wire_form_rejects_other_lengths() {
    assert_eq!(Key::decode(&[]), None);
    assert_eq!(Key::decode(&[0u8; 8]), None);
    assert_eq!(Key::decode(&[0u8; 31]), None);
    assert_eq!(Key::decode(&[0u8; 33]), None);
}

#[test]
fn key_type_round_trips_through_wire_form() {
    let all = [
        KeyType::External,
        KeyType::Identity,
        KeyType::Multisig,
        KeyType::Relayer,
        KeyType::Custom(0),
        KeyType::Custom(7),
        KeyType::Custom(255),
    ];
    for t in all {
        let wire = t.encode();
        assert_eq!(KeyType::decode(wire.as_slice()), Some(t));
    }
}

#[test]
fn key_type_wire_form_is_a_discriminant_and_tag() {
    assert_eq!(KeyType::External.encode(), vec![0u8]);
    assert_eq!(KeyType::Identity.encode(), vec![1u8]);
    assert_eq!(KeyType::Multisig.encode(), vec![2u8]);
    assert_eq!(KeyType::Relayer.encode(), vec![3u8]);
    assert_eq!(KeyType::Custom(7).encode(), vec![4u8, 7u8]);
    assert_eq!(KeyType::decode(&[5u8]), None);
    assert_eq!(KeyType::decode(&[]), None);
    assert_eq!(KeyType::decode(&[4u8]), None);
    assert_eq!(KeyType::decode(&[0u8, 0u8]), None);
    assert_eq!(KeyType::decode(&[4u8, 7u8, 0u8]), None);
}

#[test]
fn wire_form_matches_scale() {
    let mut src = [0u8; KEY_SIZE];
    for (i, b) in src.iter_mut().enumerate() {
        *b = 255 - i as u8;
    }
    let k = Key::from(src);
    assert_eq!(k.encode(), Encode::encode(&src));
    assert_eq!(KeyType::External.encode(), Encode::encode(&0u8));
    assert_eq!(KeyType::Custom(7).encode(), Encode::encode(&(4u8, 7u8)));
}

#[test]
fn compare_is_byte_lexicographic() {
    let a = Key::from([1u8; KEY_SIZE]);
    let mut higher = [1u8; KEY_SIZE];
    higher[31] = 2;
    let b = Key::from(higher);
    assert_eq!(a.compare(&b), Ordering::Less);
    assert_eq!(b.compare(&a), Ordering::Greater);
    assert_eq!(a.compare(&a), Ordering::Equal);
    assert!(a < b);
    assert!(b > a);
    assert!(a <= a);

    let mut early = [1u8; KEY_SIZE];
    early[0] = 0;
    early[31] = 200;
    let c = Key::from(early);
    assert_eq!(c.compare(&a), Ordering::Less);
}

#[test]
fn cross_representation_equality() {
    let k = Key::try_from("ABCDABCD").unwrap();

    assert!(k.eq_bytes("ABCDABCD".as_bytes()));
    assert!(k.eq_vec(&"ABCDABCD".as_bytes().to_vec()));

    let mut padded = [0u8; KEY_SIZE];
    padded[..8].copy_from_slice("ABCDABCD".as_bytes());
    assert!(k.eq_bytes(padded.as_slice()));
    assert_eq!(k, Key::from(padded));

    let mut trailing = padded;
    trailing[31] = 1;
    assert!(!k.eq_bytes(trailing.as_slice()));
    assert_ne!(k, Key::from(trailing));

    assert!(!k.eq_bytes("ABCDABCDx".as_bytes()));
    assert!(!k.eq_bytes(&padded.as_slice()[..7]));
}

#[test]
fn defaults() {
    assert_eq!(Key::default().as_bytes(), [0u8; KEY_SIZE].as_slice());
    assert_eq!(Key::default(), Key::from([0u8; KEY_SIZE]));
    assert_eq!(KeyType::default(), KeyType::External);
}

#[test]
fn key_type_variants_are_distinct() {
    assert_ne!(KeyType::Custom(7), KeyType::Custom(8));
    for n in [0u8, 1, 2, 3, 4, 255] {
        assert_ne!(KeyType::Custom(n), KeyType::External);
        assert_ne!(KeyType::Custom(n), KeyType::Identity);
        assert_ne!(KeyType::Custom(n), KeyType::Multisig);
        assert_ne!(KeyType::Custom(n), KeyType::Relayer);
    }
}

#[test]
fn keys_sort_and_serve_as_ordered_map_keys() {
    let a = Key::from([0u8; KEY_SIZE]);
    let mut one = [0u8; KEY_SIZE];
    one[31] = 1;
    let b = Key::from(one);
    let mut top = [0u8; KEY_SIZE];
    top[0] = 1;
    let c = Key::from(top);

    let mut v = vec![c.clone(), a.clone(), b.clone()];
    v.sort();
    assert_eq!(v, vec![a.clone(), b.clone(), c.clone()]);

    let mut m = std::collections::BTreeMap::new();
    m.insert(b.clone(), 1u32);
    m.insert(a.clone(), 0u32);
    m.insert(c.clone(), 2u32);
    let order: Vec<u32> = m.values().copied().collect();
    assert_eq!(order, vec![0, 1, 2]);
}
