//! Mode flags of the entropy call: a bit set with three named bits, in which
//! every other bit is carried along untouched.

use vstd::prelude::*;

verus! {

/// `GRND_NONBLOCK`
pub const GRND_NONBLOCK: u32 = 0x0001;

/// `GRND_RANDOM`
pub const GRND_RANDOM: u32 = 0x0002;

/// `GRND_INSECURE`
pub const GRND_INSECURE: u32 = 0x0004;

/// The union of the three named bits.
pub const GRND_NAMED: u32 = 0x0007;

/// The named mode bits.
#[derive(Clone, Copy, Debug, PartialEq, Eq, Structural)]
pub enum Flag {
    /// Fail with `WouldBlock` where the call would have to wait.
    NonBlock,
    /// Draw from the pool that serves `random(4)`.
    Random,
    /// Return bytes even before the pool has been seeded.
    Insecure,
}

impl Flag {
    /// The single bit that stands for this flag.
    pub open spec fn mask(self) -> u32 {
        match self {
            Flag::NonBlock => GRND_NONBLOCK,
            Flag::Random => GRND_RANDOM,
            Flag::Insecure => GRND_INSECURE,
        }
    }

    /// The single bit that stands for this flag.
    pub fn bit(self) -> (b: u32)
        ensures
            b == self.mask(),
    {
        match self {
            Flag::NonBlock => GRND_NONBLOCK,
            Flag::Random => GRND_RANDOM,
            Flag::Insecure => GRND_INSECURE,
        }
    }
}

/// `GRND_*`: a set of mode bits. Any bit pattern is a value of this type; the
/// kernel alone decides which combinations it accepts.
#[derive(Clone, Copy, Debug, PartialEq, Eq, Structural, Hash)]
pub struct GetRandomFlags {
    bits: u32,
}

impl View for GetRandomFlags {
    type V = u32;

    /// The raw bits.
    closed spec fn view(&self) -> u32 {
        self.bits
    }
}

impl GetRandomFlags {
    /// Whether the named flag is in the set.
    pub open spec fn has(self, flag: Flag) -> bool {
        self@ & flag.mask() != 0
    }

    /// The named flags in the set.
    pub open spec fn named(self) -> Set<Flag> {
        Set::new(|flag: Flag| self.has(flag))
    }

    /// The bits of the set that carry no name.
    pub open spec fn unnamed(self) -> u32 {
        self@ & !GRND_NAMED
    }

    /// The set with exactly the given raw bits.
    pub closed spec fn of_bits(bits: u32) -> GetRandomFlags {
        GetRandomFlags { bits }
    }

    /// The set without any bit.
    pub fn empty() -> (f: GetRandomFlags)
        ensures
            f@ == 0,
    {
        GetRandomFlags { bits: 0 }
    }

    /// The set that holds the one named flag and nothing else.
    pub fn only(flag: Flag) -> (f: GetRandomFlags)
        ensures
            f@ == flag.mask(),
    {
        GetRandomFlags { bits: flag.bit() }
    }

    /// The set with exactly the given raw bits, named or not.
    pub fn from_bits_retain(bits: u32) -> (f: GetRandomFlags)
        ensures
            f == GetRandomFlags::of_bits(bits),
            f@ == bits,
    {
        GetRandomFlags { bits }
    }

    /// The set of the listed named flags: it holds each of them, no other
    /// named flag, and no unnamed bit. A flag listed twice counts once.
    pub fn from_named(flags: &[Flag]) -> (f: GetRandomFlags)
        ensures
            forall|flag: Flag| #[trigger] f.has(flag) <==> flags@.contains(flag),
            f.named() == flags@.to_set(),
            f.unnamed() == 0,
    {
        let mut acc = GetRandomFlags::empty();
        let mut at: usize = 0;
        proof {
            assert forall|flag: Flag| !#[trigger] acc.has(flag) by {
                law_empty_holds_nothing(acc, flag);
            }
            law_empty_holds_nothing(acc, Flag::NonBlock);
        }
        while at < flags.len()
            invariant
                at <= flags.len(),
                forall|flag: Flag| #[trigger]
                    acc.has(flag) <==> exists|j: int| 0 <= j < at && flags@[j] == flag,
                acc.unnamed() == 0,
            decreases flags.len() - at,
        {
            let ghost before = acc;
            let ghost added = flags@[at as int];
            acc = acc.with(flags[at]);
            proof {
                assert forall|flag: Flag| #[trigger]
                    acc.has(flag) <==> exists|j: int| 0 <= j < at + 1 && flags@[j] == flag by {
                    law_with_adds_one(before, acc, added, flag);
                    if flag == added {
                        assert(flags@[at as int] == flag);
                    } else if before.has(flag) {
                        let j = choose|j: int| 0 <= j < at && flags@[j] == flag;
                        assert(0 <= j < at + 1 && flags@[j] == flag);
                    }
                }
                law_with_adds_one(before, acc, added, added);
            }
            at = at + 1;
        }
        proof {
            assert forall|flag: Flag| #[trigger] acc.has(flag) <==> flags@.contains(flag) by {
                if flags@.contains(flag) {
                    let j = choose|j: int| 0 <= j < flags@.len() && flags@[j] == flag;
                    assert(0 <= j < at && flags@[j] == flag);
                }
            }
            assert(acc.named() =~= flags@.to_set());
        }
        acc
    }

    /// The raw bits, as they are handed to the call.
    pub fn bits(&self) -> (b: u32)
        ensures
            b == self@,
    {
        self.bits
    }

    /// Whether no bit is set.
    pub fn is_empty(&self) -> (b: bool)
        ensures
            b == (self@ == 0),
    {
        self.bits == 0
    }

    /// Whether the named flag is in the set.
    pub fn contains(&self, flag: Flag) -> (b: bool)
        ensures
            b == self.has(flag),
    {
        self.bits & flag.bit() != 0
    }

    /// The set of all bits that are in either set.
    pub fn union(self, other: GetRandomFlags) -> (f: GetRandomFlags)
        ensures
            f@ == self@ | other@,
    {
        GetRandomFlags { bits: self.bits | other.bits }
    }

    /// The set with the named flag added; every other bit stays.
    pub fn with(self, flag: Flag) -> (f: GetRandomFlags)
        ensures
            f@ == self@ | flag.mask(),
    {
        GetRandomFlags { bits: self.bits | flag.bit() }
    }

    /// The set with the named flag taken out; every other bit stays.
    pub fn without(self, flag: Flag) -> (f: GetRandomFlags)
        ensures
            f@ == self@ & !flag.mask(),
    {
        GetRandomFlags { bits: self.bits & !flag.bit() }
    }

    /// The bits of the set that carry no name.
    pub fn unnamed_bits(&self) -> (b: u32)
        ensures
            b == self.unnamed(),
    {
        self.bits & !GRND_NAMED
    }
}

/// Two flag sets with the same raw bits are the same set.
pub proof fn law_bits_determine_set(a: GetRandomFlags, b: GetRandomFlags)
    requires
        a@ == b@,
    ensures
        a == b,
{
}

/// Raw bits, made into a set and read back, are the bits that went in, named
/// or not.
pub proof fn law_raw_bits_kept(bits: u32)
    ensures
        GetRandomFlags::of_bits(bits)@ == bits,
        GetRandomFlags::of_bits(bits).unnamed() == bits & !GRND_NAMED,
{
}

/// A set rebuilt from its own raw bits is the set it came from: it holds the
/// same named flags and the same unnamed bits.
pub proof fn law_round_trip(f: GetRandomFlags)
    ensures
        GetRandomFlags::of_bits(f@) == f,
        GetRandomFlags::of_bits(f@).named() == f.named(),
        GetRandomFlags::of_bits(f@).unnamed() == f.unnamed(),
{
}

/// A set made of listed named flags and rebuilt from its raw bits holds
/// exactly the listed flags, and its raw bits are named bits only.
pub proof fn law_named_round_trip(f: GetRandomFlags, listed: Set<Flag>)
    requires
        f.named() == listed,
        f.unnamed() == 0,
    ensures
        GetRandomFlags::of_bits(f@).named() == listed,
        f@ & GRND_NAMED == f@,
        f@ <= GRND_NAMED,
{
    let x = f@;
    assert(x & !7u32 == 0 ==> x & 7u32 == x && x <= 7u32) by (bit_vector);
}

/// The empty set holds no named flag and no unnamed bit.
pub proof fn law_empty_holds_nothing(f: GetRandomFlags, flag: Flag)
    requires
        f@ == 0,
    ensures
        !f.has(flag),
        f.unnamed() == 0,
{
    let m = flag.mask();
    assert(0u32 & m == 0) by (bit_vector);
    assert(0u32 & !GRND_NAMED == 0) by (bit_vector);
}

/// A set of one named flag holds that flag, no other, and no unnamed bit.
pub proof fn law_only_holds_one(f: GetRandomFlags, flag: Flag, other: Flag)
    requires
        f@ == flag.mask(),
    ensures
        f.has(other) <==> other == flag,
        f.unnamed() == 0,
{
    assert(1u32 & 1u32 != 0 && 1u32 & 2u32 == 0 && 1u32 & 4u32 == 0) by (bit_vector);
    assert(2u32 & 1u32 == 0 && 2u32 & 2u32 != 0 && 2u32 & 4u32 == 0) by (bit_vector);
    assert(4u32 & 1u32 == 0 && 4u32 & 2u32 == 0 && 4u32 & 4u32 != 0) by (bit_vector);
    assert(1u32 & !7u32 == 0 && 2u32 & !7u32 == 0 && 4u32 & !7u32 == 0) by (bit_vector);
}

/// A union holds a named flag exactly when one of its two sides holds it, and
/// its unnamed bits are those of both sides.
pub proof fn law_union_holds_either(a: GetRandomFlags, b: GetRandomFlags, u: GetRandomFlags, flag: Flag)
    requires
        u@ == a@ | b@,
    ensures
        u.has(flag) <==> a.has(flag) || b.has(flag),
        u.unnamed() == a.unnamed() | b.unnamed(),
{
    let x = a@;
    let y = b@;
    let m = flag.mask();
    assert(((x | y) & m != 0) <==> (x & m != 0 || y & m != 0)) by (bit_vector);
    assert((x | y) & !7u32 == (x & !7u32) | (y & !7u32)) by (bit_vector);
}

/// Adding a named flag changes nothing but that flag, which is then in the set.
pub proof fn law_with_adds_one(a: GetRandomFlags, f: GetRandomFlags, flag: Flag, other: Flag)
    requires
        f@ == a@ | flag.mask(),
    ensures
        f.has(flag),
        other != flag ==> (f.has(other) <==> a.has(other)),
        f.unnamed() == a.unnamed(),
{
    let x = a@;
    assert((x | 1u32) & 1u32 != 0 && (x | 2u32) & 2u32 != 0 && (x | 4u32) & 4u32 != 0)
        by (bit_vector);
    assert((x | 1u32) & 2u32 == x & 2u32 && (x | 1u32) & 4u32 == x & 4u32) by (bit_vector);
    assert((x | 2u32) & 1u32 == x & 1u32 && (x | 2u32) & 4u32 == x & 4u32) by (bit_vector);
    assert((x | 4u32) & 1u32 == x & 1u32 && (x | 4u32) & 2u32 == x & 2u32) by (bit_vector);
    assert((x | 1u32) & !7u32 == x & !7u32 && (x | 2u32) & !7u32 == x & !7u32 && (x | 4u32)
        & !7u32 == x & !7u32) by (bit_vector);
}

/// Taking a named flag out changes nothing but that flag, which is then not in
/// the set.
pub proof fn law_without_removes_one(a: GetRandomFlags, f: GetRandomFlags, flag: Flag, other: Flag)
    requires
        f@ == a@ & !flag.mask(),
    ensures
        !f.has(flag),
        other != flag ==> (f.has(other) <==> a.has(other)),
        f.unnamed() == a.unnamed(),
{
    let x = a@;
    assert((x & !1u32) & 1u32 == 0 && (x & !2u32) & 2u32 == 0 && (x & !4u32) & 4u32 == 0)
        by (bit_vector);
    assert((x & !1u32) & 2u32 == x & 2u32 && (x & !1u32) & 4u32 == x & 4u32) by (bit_vector);
    assert((x & !2u32) & 1u32 == x & 1u32 && (x & !2u32) & 4u32 == x & 4u32) by (bit_vector);
    assert((x & !4u32) & 1u32 == x & 1u32 && (x & !4u32) & 2u32 == x & 2u32) by (bit_vector);
    assert((x & !1u32) & !7u32 == x & !7u32 && (x & !2u32) & !7u32 == x & !7u32 && (x & !4u32)
        & !7u32 == x & !7u32) by (bit_vector);
}

/// Every raw bit pattern splits into its named flags and its unnamed bits, and
/// is put together again from the two without loss.
pub proof fn law_bits_split(f: GetRandomFlags)
    ensures
        f@ == (f@ & GRND_NAMED) | f.unnamed(),
        f@ & GRND_NONBLOCK != 0 <==> f.has(Flag::NonBlock),
        f@ & GRND_RANDOM != 0 <==> f.has(Flag::Random),
        f@ & GRND_INSECURE != 0 <==> f.has(Flag::Insecure),
{
    let x = f@;
    assert(x == (x & 7u32) | (x & !7u32)) by (bit_vector);
}

} // verus!
