use entropy_gateway::flags::{
    Flag, GetRandomFlags, GRND_INSECURE, GRND_NAMED, GRND_NONBLOCK, GRND_RANDOM,
};

const ALL: [Flag; 3] = [Flag::NonBlock, Flag::Random, Flag::Insecure];

#[test]
fn named_bits_have_the_kernel_values() {
    assert_eq!(GRND_NONBLOCK, 0x0001);
    assert_eq!(GRND_RANDOM, 0x0002);
    assert_eq!(GRND_INSECURE, 0x0004);
    assert_eq!(GRND_NAMED, 0x0007);
    assert_eq!(Flag::NonBlock.bit(), 0x0001);
    assert_eq!(Flag::Random.bit(), 0x0002);
    assert_eq!(Flag::Insecure.bit(), 0x0004);
}

#[test]
fn empty_set_holds_nothing() {
    let f = GetRandomFlags::empty();
    assert_eq!(f.bits(), 0);
    assert!(f.is_empty());
    for flag in ALL {
        assert!(!f.contains(flag));
    }
    assert_eq!(f.unnamed_bits(), 0);
}

#[test]
fn only_holds_exactly_one_flag() {
    for flag in ALL {
        let f = GetRandomFlags::only(flag);
        assert_eq!(f.bits(), flag.bit());
        assert!(!f.is_empty());
        for other in ALL {
            assert_eq!(f.contains(other), other == flag);
        }
        assert_eq!(f.unnamed_bits(), 0);
    }
}

#[test]
fn named_flags_round_trip_through_raw_bits() {
    for mask in 0..8u32 {
        let mut f = GetRandomFlags::empty();
        for flag in ALL {
            if mask & flag.bit() != 0 {
                f = f.with(flag);
            }
        }
        let bits: u32 = f.bits();
        assert_eq!(bits, mask);
        let back = GetRandomFlags::from_bits_retain(bits);
        assert_eq!(back, f);
        for flag in ALL {
            assert_eq!(back.contains(flag), mask & flag.bit() != 0);
        }
    }
}

#[test]
fn unnamed_bits_survive_the_round_trip() {
    let raws: [u32; 5] = [0x0000_0008, 0x8000_0000, 0xffff_fff8, 0xffff_ffff, 0x0000_0013];
    for raw in raws {
        let f = GetRandomFlags::from_bits_retain(raw);
        assert_eq!(f.bits(), raw);
        assert_eq!(f.unnamed_bits(), raw & !0x7);
        assert_eq!(GetRandomFlags::from_bits_retain(f.bits()), f);
    }
}

#[test]
fn union_holds_what_either_side_holds() {
    let a = GetRandomFlags::only(Flag::NonBlock);
    let b = GetRandomFlags::from_bits_retain(0x0042);
    let u = a.union(b);
    assert_eq!(u.bits(), 0x0043);
    assert!(u.contains(Flag::NonBlock));
    assert!(u.contains(Flag::Random));
    assert!(!u.contains(Flag::Insecure));
    assert_eq!(u.unnamed_bits(), 0x0040);
}

#[test]
fn with_and_without_touch_one_flag_only() {
    let f = GetRandomFlags::from_bits_retain(0x0101);
    let g = f.with(Flag::Insecure);
    assert_eq!(g.bits(), 0x0105);
    let h = g.without(Flag::NonBlock);
    assert_eq!(h.bits(), 0x0104);
    assert_eq!(h.without(Flag::Random), h);
    assert_eq!(h.with(Flag::Insecure), h);
    assert_eq!(h.unnamed_bits(), 0x0100);
}

#[test]
fn from_named_holds_exactly_the_listed_flags() {
    assert_eq!(GetRandomFlags::from_named(&[]), GetRandomFlags::empty());
    assert_eq!(GetRandomFlags::from_named(&[Flag::Random]).bits(), 0x0002);
    assert_eq!(GetRandomFlags::from_named(&[Flag::Insecure, Flag::NonBlock]).bits(), 0x0005);
    assert_eq!(GetRandomFlags::from_named(&ALL).bits(), 0x0007);
}

#[test]
fn from_named_counts_a_repeated_flag_once() {
    let f = GetRandomFlags::from_named(&[Flag::Random, Flag::Random, Flag::NonBlock, Flag::Random]);
    assert_eq!(f.bits(), 0x0003);
    assert_eq!(f, GetRandomFlags::only(Flag::Random).with(Flag::NonBlock));
}

#[test]
fn listed_flags_round_trip_through_raw_bits() {
    let lists: [&[Flag]; 5] = [
        &[],
        &[Flag::NonBlock],
        &[Flag::Random, Flag::Insecure],
        &[Flag::Insecure, Flag::NonBlock],
        &[Flag::NonBlock, Flag::Random, Flag::Insecure],
    ];
    for list in lists {
        let f = GetRandomFlags::from_named(list);
        let back = GetRandomFlags::from_bits_retain(f.bits());
        assert_eq!(back, f);
        for flag in ALL {
            assert_eq!(back.contains(flag), list.contains(&flag));
        }
        assert_eq!(back.unnamed_bits(), 0);
    }
}

#[test]
fn named_and_unnamed_bits_round_trip_together() {
    let f = GetRandomFlags::from_named(&[Flag::NonBlock])
        .union(GetRandomFlags::from_bits_retain(0x4000_0000));
    let back = GetRandomFlags::from_bits_retain(f.bits());
    assert_eq!(back.bits(), 0x4000_0001);
    assert!(back.contains(Flag::NonBlock));
    assert!(!back.contains(Flag::Random));
    assert!(!back.contains(Flag::Insecure));
    assert_eq!(back.unnamed_bits(), 0x4000_0000);
}
