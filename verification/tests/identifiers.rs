use causal_ops::actor_id::ActorId;
use causal_ops::error::InvalidActorId;
use causal_ops::key::{Export, Exportable, Key, Prop};
use causal_ops::legacy::{MapType, SequenceType};
use causal_ops::obj_type::{ListEncoding, ObjMeta, ObjType};
use causal_ops::op_id::{ElemId, ObjId, OpId};
use causal_ops::op_ids::OpIds;
use std::cmp::Ordering;
use std::str::FromStr;

fn special(e: Export) -> Option<String> {
    match e {
        Export::Special(s) => Some(s),
        _ => None,
    }
}

fn exported_id(e: Export) -> Option<OpId> {
    match e {
        Export::Id(id) => Some(id),
        _ => None,
    }
}

#[test]
fn op_id_parts() {
    let id = OpId::new(7, 3);
    assert_eq!(id.counter(), 7);
    assert_eq!(id.actor(), 3);
    assert_eq!(id, OpId(7, 3));
    let top = OpId::new(u32::MAX as u64, u32::MAX as usize);
    assert_eq!(top.counter(), 4294967295);
    assert_eq!(top.actor(), 4294967295);
    assert_eq!(OpId::default(), OpId::new(0, 0));
}

#[test]
fn op_id_checked_new_guards_the_range() {
    assert_eq!(OpId::checked_new(7, 3), Some(OpId::new(7, 3)));
    assert_eq!(OpId::checked_new(4294967295, 4294967295), Some(OpId(u32::MAX, u32::MAX)));
    assert_eq!(OpId::checked_new(4294967296, 0), None);
    assert_eq!(OpId::checked_new(0, 4294967296), None);
    assert_eq!(OpId::checked_new(u64::MAX, usize::MAX), None);
}

#[test]
fn op_id_steps() {
    assert_eq!(OpId::new(7, 3).prev(), OpId::new(6, 3));
    assert_eq!(OpId::new(7, 3).next(), OpId::new(8, 3));
    assert_eq!(OpId::new(1, 0).prev(), OpId::new(0, 0));
    assert_eq!(OpId::new(4294967294, 9).next(), OpId::new(4294967295, 9));
}

#[test]
fn op_id_order_within_a_session() {
    let ids = [OpId::new(1, 0), OpId::new(1, 1), OpId::new(2, 0), OpId::new(2, 5), OpId::new(3, 1)];
    for (i, a) in ids.iter().enumerate() {
        for (j, b) in ids.iter().enumerate() {
            assert_eq!(a.partial_cmp(b), Some(i.cmp(&j)));
            assert_eq!(a.cmp(b), i.cmp(&j));
            assert_eq!(a < b, i < j);
        }
    }
}

#[test]
fn lamport_order_goes_by_the_actors_themselves() {
    let actors = vec![ActorId::from(vec![9u8]), ActorId::from(vec![1u8]), ActorId::from(vec![1u8, 0])];
    assert_eq!(OpId::new(1, 0).lamport_cmp(&OpId::new(2, 1), &actors), Ordering::Less);
    assert_eq!(OpId::new(3, 1).lamport_cmp(&OpId::new(2, 0), &actors), Ordering::Greater);
    assert_eq!(OpId::new(2, 0).lamport_cmp(&OpId::new(2, 1), &actors), Ordering::Greater);
    assert_eq!(OpId::new(2, 1).lamport_cmp(&OpId::new(2, 0), &actors), Ordering::Less);
    assert_eq!(OpId::new(2, 1).lamport_cmp(&OpId::new(2, 2), &actors), Ordering::Less);
    assert_eq!(OpId::new(2, 2).lamport_cmp(&OpId::new(2, 2), &actors), Ordering::Equal);
    assert_eq!(OpId::new(2, 0).cmp(&OpId::new(2, 1)), Ordering::Less);
}

#[test]
fn lamport_order_is_the_same_in_another_session() {
    let here = vec![ActorId::from(vec![0xaau8]), ActorId::from(vec![0xbbu8])];
    let there = vec![ActorId::from(vec![0xbbu8]), ActorId::from(vec![0xaau8])];
    for counter_a in 1..3u64 {
        for counter_b in 1..3u64 {
            for a in 0..2usize {
                for b in 0..2usize {
                    let one = OpId::new(counter_a, a).lamport_cmp(&OpId::new(counter_b, b), &here);
                    let other = OpId::new(counter_a, 1 - a)
                        .lamport_cmp(&OpId::new(counter_b, 1 - b), &there);
                    assert_eq!(one, other);
                }
            }
        }
    }
}

#[test]
fn root_and_head() {
    assert_eq!(ObjId::root(), ObjId(OpId::new(0, 0)));
    assert!(ObjId::root().is_root());
    assert!(ObjId(OpId::new(0, 4)).is_root());
    assert!(!ObjId(OpId::new(1, 0)).is_root());
    assert_eq!(*ObjId(OpId::new(5, 6)).opid(), OpId::new(5, 6));
    assert_eq!(ObjId::default(), ObjId::root());
    assert_eq!(ElemId::head(), ElemId(OpId::new(0, 0)));
    assert!(ElemId::head().is_head());
    assert!(!ElemId(OpId::new(0, 4)).is_head());
    assert!(!ElemId(OpId::new(1, 0)).is_head());
    assert_eq!(ElemId::default(), ElemId::head());
    let meta = ObjMeta::root();
    assert_eq!(meta.id, ObjId::root());
    assert_eq!(meta.typ, ObjType::Mapping);
    assert_eq!(meta.encoding, ListEncoding::List);
}

#[test]
fn exports() {
    assert_eq!(special(ObjId::root().export()), Some("_root".to_string()));
    assert_eq!(special((&ObjId::root()).export()), Some("_root".to_string()));
    assert_eq!(exported_id(ObjId(OpId::new(3, 1)).export()), Some(OpId::new(3, 1)));
    assert_eq!(exported_id(ObjId(OpId::new(0, 1)).export()), Some(OpId::new(0, 1)));
    assert_eq!(special(ElemId::head().export()), Some("_head".to_string()));
    assert_eq!(exported_id(ElemId(OpId::new(3, 1)).export()), Some(OpId::new(3, 1)));
    assert_eq!(exported_id(OpId::new(0, 0).export()), Some(OpId::new(0, 0)));
    assert!(matches!(Key::Prop(12).export(), Export::Prop(12)));
    assert_eq!(special(Key::Elem(ElemId::head()).export()), Some("_head".to_string()));
    assert_eq!(exported_id(Key::Elem(ElemId(OpId::new(2, 2))).export()), Some(OpId::new(2, 2)));
}

#[test]
fn conversions_between_identifiers() {
    assert_eq!(OpId::from(ObjId(OpId::new(4, 1))), OpId::new(4, 1));
    assert_eq!(ObjId::from(OpId::new(4, 1)), ObjId(OpId::new(4, 1)));
    assert_eq!(ElemId::from(OpId::new(4, 1)), ElemId(OpId::new(4, 1)));
    assert_eq!(Key::from(OpId::new(4, 1)), Key::Elem(ElemId(OpId::new(4, 1))));
    assert_eq!(Key::from(ElemId(OpId::new(4, 1))), Key::Elem(ElemId(OpId::new(4, 1))));
    assert_eq!(ElemId::from(None), ElemId::head());
    assert_eq!(ElemId::from(Some(ElemId(OpId::new(4, 1)))), ElemId(OpId::new(4, 1)));
    assert_eq!(Key::from(None), Key::Elem(ElemId::head()));
    assert_eq!(Key::from(Some(ElemId(OpId::new(4, 1)))), Key::Elem(ElemId(OpId::new(4, 1))));
}

#[test]
fn keys() {
    assert_eq!(Key::Prop(5).prop_index(), Some(5));
    assert_eq!(Key::Prop(5).elemid(), None);
    assert_eq!(Key::Elem(ElemId::head()).prop_index(), None);
    assert_eq!(Key::Elem(ElemId(OpId::new(1, 2))).elemid(), Some(ElemId(OpId::new(1, 2))));
}

#[test]
fn props() {
    assert_eq!(Prop::from("title"), Prop::Name("title".to_string()));
    assert_eq!(Prop::from("title".to_string()), Prop::Name("title".to_string()));
    assert_eq!(Prop::from(&"title".to_string()), Prop::Name("title".to_string()));
    assert_eq!(Prop::from(3usize), Prop::Index(3));
    assert_eq!(Prop::from(&3usize), Prop::Index(3));
    assert_eq!(Prop::Index(3).to_index(), Some(3));
    assert_eq!(Prop::Name("3".to_string()).to_index(), None);
    assert_eq!(Prop::Name("title".to_string()).to_string(), "title");
    assert_eq!(Prop::Index(0).to_string(), "0");
    assert_eq!(Prop::Index(1234567890).to_string(), "1234567890");
    assert_eq!(Prop::Index(usize::MAX).to_string(), usize::MAX.to_string());
}

#[test]
fn prop_from_a_float_cuts_the_fraction_off() {
    assert_eq!(Prop::from_binary64(2.9_f64.to_bits()), Prop::Index(2));
    assert_eq!(Prop::from_binary64(2.5_f64.to_bits()), Prop::Index(2));
    assert_eq!(Prop::from_binary64(3.0_f64.to_bits()), Prop::Index(3));
    assert_eq!(Prop::from_binary64(0.999_f64.to_bits()), Prop::Index(0));
    assert_eq!(Prop::from_binary64((-2.9_f64).to_bits()), Prop::Index(0));
    assert_eq!(Prop::from_binary64(f64::NAN.to_bits()), Prop::Index(0));
    assert_eq!(Prop::from_binary64(f64::INFINITY.to_bits()), Prop::Index(usize::MAX));
    assert_eq!(Prop::from_binary64(f64::NEG_INFINITY.to_bits()), Prop::Index(0));
}

#[test]
fn truncation_is_that_of_the_machine() {
    let samples = [
        0.0,
        -0.0,
        0.5,
        1.0,
        1.5,
        2.9,
        255.999,
        4294967295.0,
        4294967295.5,
        4294967296.0,
        9007199254740991.0,
        9007199254740992.0,
        9223372036854775808.0,
        18446744073709549568.0,
        18446744073709551616.0,
        1.0e19,
        1.0e20,
        1.0e300,
        f64::MAX,
        f64::MIN_POSITIVE,
        5e-324,
        1.0e-10,
        -1.0,
        -1.0e300,
        f64::INFINITY,
        f64::NEG_INFINITY,
        f64::NAN,
        -f64::NAN,
    ];
    for x in samples {
        assert_eq!(causal_ops::binary64::truncate_binary64(x.to_bits()), x as usize, "{}", x);
    }
    let mut bits: u64 = 0x3ff0_0000_0000_0000;
    for _ in 0..2000 {
        let x = f64::from_bits(bits);
        assert_eq!(causal_ops::binary64::truncate_binary64(bits), x as usize, "{}", x);
        bits = bits.wrapping_mul(6364136223846793005).wrapping_add(1442695040888963407);
    }
}

#[test]
fn equality_of_floats_is_that_of_the_machine() {
    let samples = [
        0.0,
        -0.0,
        1.0,
        -1.0,
        2.9,
        f64::MAX,
        f64::MIN_POSITIVE,
        5e-324,
        f64::INFINITY,
        f64::NEG_INFINITY,
        f64::NAN,
        -f64::NAN,
        f64::from_bits(0x7ff0_0000_0000_0001),
        f64::from_bits(0xfff8_0000_0000_0001),
    ];
    for a in samples {
        for b in samples {
            assert_eq!(causal_ops::binary64::binary64_bits_eq(a.to_bits(), b.to_bits()), a == b);
        }
    }
}

#[test]
fn object_kinds() {
    assert!(!ObjType::Mapping.is_sequence());
    assert!(!ObjType::Table.is_sequence());
    assert!(ObjType::List.is_sequence());
    assert!(ObjType::Text.is_sequence());
    assert_eq!(ObjType::Mapping.to_string(), "map");
    assert_eq!(ObjType::Table.to_string(), "table");
    assert_eq!(ObjType::List.to_string(), "list");
    assert_eq!(ObjType::Text.to_string(), "text");
    assert_eq!(ObjType::from(MapType::Mapping), ObjType::Mapping);
    assert_eq!(ObjType::from(MapType::Table), ObjType::Table);
    assert_eq!(ObjType::from(SequenceType::List), ObjType::List);
    assert_eq!(ObjType::from(SequenceType::Text), ObjType::Text);
    assert_eq!(ListEncoding::default(), ListEncoding::List);
    assert_eq!(ListEncoding::from(ObjType::Text), ListEncoding::Text);
    assert_eq!(ListEncoding::from(ObjType::List), ListEncoding::List);
    assert_eq!(ListEncoding::from(ObjType::Mapping), ListEncoding::List);
    assert_eq!(ListEncoding::from(Some(ObjType::Text)), ListEncoding::Text);
    assert_eq!(ListEncoding::from(Some(ObjType::Table)), ListEncoding::List);
    assert_eq!(ListEncoding::from(None), ListEncoding::List);
}

#[test]
fn actor_id_bytes_and_hex() {
    let a = ActorId::from(vec![0x00u8, 0x0f, 0xa5, 0xff]);
    assert_eq!(a.to_bytes(), &[0x00u8, 0x0f, 0xa5, 0xff]);
    assert_eq!(a.to_hex_string(), "000fa5ff");
    assert_eq!(a.to_string(), "000fa5ff");
    assert_eq!(ActorId::from(Vec::<u8>::new()).to_hex_string(), "");
    assert_eq!(ActorId::from(Vec::<u8>::new()).to_bytes(), &[0u8; 0]);
}

#[test]
fn actor_id_from_every_kind_of_bytes() {
    let short: Vec<u8> = (1..=5).collect();
    let long: Vec<u8> = (1..=40).collect();
    let exact: Vec<u8> = (1..=16).collect();
    for bytes in [&short, &long, &exact] {
        assert_eq!(ActorId::from(bytes.clone()).to_bytes(), &bytes[..]);
        assert_eq!(ActorId::from(bytes).to_bytes(), &bytes[..]);
        assert_eq!(ActorId::from(&bytes[..]).to_bytes(), &bytes[..]);
        assert_eq!(ActorId::from(bytes.clone()).clone().to_bytes(), &bytes[..]);
    }
    assert_eq!(ActorId::from([7u8, 8, 9]).to_bytes(), &[7u8, 8, 9]);
    assert_eq!(ActorId::from(&[7u8, 8, 9]).to_bytes(), &[7u8, 8, 9]);
    assert_eq!(ActorId::from([3u8; 20]).to_bytes(), &[3u8; 20]);
    assert_eq!(ActorId::from(&[3u8; 20]).to_bytes(), &[3u8; 20]);
    let id = uuid::Uuid::from_bytes([
        0xa1, 0xa2, 0xa3, 0xa4, 0xb1, 0xb2, 0xc1, 0xc2, 0xd1, 0xd2, 0xd3, 0xd4, 0xd5, 0xd6, 0xd7,
        0xd8,
    ]);
    assert_eq!(ActorId::from(id).to_hex_string(), "a1a2a3a4b1b2c1c2d1d2d3d4d5d6d7d8");
}

#[test]
fn actor_id_from_hex() {
    let a = ActorId::try_from("000fA5ff").unwrap();
    assert_eq!(a.to_bytes(), &[0x00u8, 0x0f, 0xa5, 0xff]);
    assert_eq!(ActorId::try_from("000fa5ff".to_string()).unwrap(), a);
    assert_eq!(ActorId::from_str("000FA5FF").unwrap(), a);
    assert_eq!(ActorId::try_from("").unwrap().to_bytes(), &[0u8; 0]);
    assert_eq!(ActorId::try_from("abc").unwrap_err(), InvalidActorId("abc".to_string()));
    assert_eq!(ActorId::try_from("zz").unwrap_err(), InvalidActorId("zz".to_string()));
    assert_eq!(ActorId::try_from("é".to_string()).unwrap_err(), InvalidActorId("é".to_string()));
    assert_eq!(ActorId::from_str("0g").unwrap_err(), InvalidActorId("0g".to_string()));
    assert_eq!(InvalidActorId("0g".to_string()).to_string(), "invalid actor ID: 0g");
}

#[test]
fn actor_id_text_round_trips() {
    for bytes in [vec![], vec![0u8], vec![0xde, 0xad, 0xbe, 0xef], (0..=255).collect::<Vec<u8>>()] {
        let a = ActorId::from(bytes.clone());
        let text = a.to_hex_string();
        assert_eq!(text.len(), 2 * bytes.len());
        assert_eq!(ActorId::try_from(text.as_str()).unwrap(), a);
        assert_eq!(ActorId::try_from(text.as_str()).unwrap().to_hex_string(), text);
    }
}

#[test]
fn actor_ids_are_ordered_as_their_bytes() {
    let sorted: Vec<Vec<u8>> = vec![
        vec![],
        vec![0],
        vec![0, 0],
        vec![0, 1],
        vec![1],
        vec![1, 0, 0],
        vec![1, 255],
        vec![2],
        vec![255],
        vec![255; 17],
        vec![255; 18],
    ];
    for (i, a) in sorted.iter().enumerate() {
        for (j, b) in sorted.iter().enumerate() {
            let x = ActorId::from(a.clone());
            let y = ActorId::from(b.clone());
            assert_eq!(x.partial_cmp(&y), Some(i.cmp(&j)));
            assert_eq!(x.cmp(&y), i.cmp(&j));
            assert_eq!(x == y, i == j);
            assert_eq!(x < y, i < j);
            assert_eq!(a.cmp(b), i.cmp(&j));
        }
    }
}

#[test]
fn random_actor_ids_are_version_four() {
    let a = ActorId::random();
    let b = ActorId::random();
    assert_eq!(a.to_bytes().len(), 16);
    assert_eq!(a.to_bytes()[6] >> 4, 4);
    assert_eq!(a.to_bytes()[8] >> 6, 2);
    assert_eq!(b.to_bytes().len(), 16);
    assert_ne!(a, b);
}

#[test]
fn op_ids_collection() {
    let mut ids = OpIds::empty();
    assert!(ids.is_empty());
    assert_eq!(ids.len(), 0);
    assert_eq!(ids.get(0), None);
    for (c, a) in [(3u64, 0usize), (1, 1), (2, 0), (1, 0)] {
        ids.add(OpId::new(c, a), |x, y| x.cmp(y));
    }
    assert_eq!(
        ids.as_slice().to_vec(),
        vec![OpId::new(1, 0), OpId::new(1, 1), OpId::new(2, 0), OpId::new(3, 0)]
    );
    assert_eq!(ids.len(), 4);
    assert!(!ids.is_empty());
    assert_eq!(ids.get(1), Some(&OpId::new(1, 1)));
    assert_eq!(ids.get(4), None);
    assert!(ids.contains(&OpId::new(2, 0)));
    assert!(!ids.contains(&OpId::new(2, 1)));
    ids.add(OpId::new(2, 0), |x, y| x.cmp(y));
    assert_eq!(ids.len(), 5);
    ids.remove(&OpId::new(2, 0));
    assert_eq!(ids.as_slice().to_vec(), vec![OpId::new(1, 0), OpId::new(1, 1), OpId::new(3, 0)]);
    ids.remove(&OpId::new(9, 9));
    assert_eq!(ids.len(), 3);
    assert_eq!(OpIds::default().len(), 0);
}
