//! The discoverability and mode bits of the flags structure.

use vstd::prelude::*;

verus! {

/// One bit of the flags byte.
#[derive(Clone, Copy, Debug, PartialEq, Eq, Structural)]
pub enum Flag {
    /// LE limited discoverable mode (bit 0).
    LimitedDiscovery,
    /// LE general discoverable mode (bit 1).
    GeneralDiscovery,
    /// Classic Bluetooth is not supported (bit 2).
    LeOnly,
    /// LE and classic at once, controller side (bit 3).
    DualModeController,
    /// LE and classic at once, host side (bit 4).
    DualModeHost,
}

impl Flag {
    /// The value of the bit that stands for this flag.
    pub open spec fn spec_mask(self) -> u8 {
        match self {
            Flag::LimitedDiscovery => 0x01,
            Flag::GeneralDiscovery => 0x02,
            Flag::LeOnly => 0x04,
            Flag::DualModeController => 0x08,
            Flag::DualModeHost => 0x10,
        }
    }

    /// The value of the bit that stands for this flag.
    #[verifier::when_used_as_spec(spec_mask)]
    pub fn mask(self) -> (m: u8)
        ensures
            m == self.spec_mask(),
    {
        match self {
            Flag::LimitedDiscovery => 0x01,
            Flag::GeneralDiscovery => 0x02,
            Flag::LeOnly => 0x04,
            Flag::DualModeController => 0x08,
            Flag::DualModeHost => 0x10,
        }
    }
}

/// What a flag adds to the flags byte of a set: its bit if it is a member,
/// nothing otherwise.
pub open spec fn share(flags: Set<Flag>, flag: Flag) -> int {
    if flags.contains(flag) {
        flag.spec_mask() as int
    } else {
        0
    }
}

/// The flags byte of a set of flags: each member sets its own bit, so the
/// byte is the sum of the members' bit values.
pub open spec fn flags_value(flags: Set<Flag>) -> int {
    share(flags, Flag::LimitedDiscovery)
        + share(flags, Flag::GeneralDiscovery)
        + share(flags, Flag::LeOnly)
        + share(flags, Flag::DualModeController)
        + share(flags, Flag::DualModeHost)
}

/// Five bit values, each either taken or not, added up.
spec fn sum_of_bits(b0: bool, b1: bool, b2: bool, b3: bool, b4: bool) -> u8 {
    ((if b0 { 1u8 } else { 0u8 })
        + (if b1 { 2u8 } else { 0u8 })
        + (if b2 { 4u8 } else { 0u8 })
        + (if b3 { 8u8 } else { 0u8 })
        + (if b4 { 16u8 } else { 0u8 })) as u8
}

/// Or-ing one bit into a sum of distinct bits takes that bit, once.
proof fn lemma_or_takes_bit(b0: bool, b1: bool, b2: bool, b3: bool, b4: bool)
    by (bit_vector)
    ensures
        sum_of_bits(b0, b1, b2, b3, b4) | 1u8 == sum_of_bits(true, b1, b2, b3, b4),
        sum_of_bits(b0, b1, b2, b3, b4) | 2u8 == sum_of_bits(b0, true, b2, b3, b4),
        sum_of_bits(b0, b1, b2, b3, b4) | 4u8 == sum_of_bits(b0, b1, true, b3, b4),
        sum_of_bits(b0, b1, b2, b3, b4) | 8u8 == sum_of_bits(b0, b1, b2, true, b4),
        sum_of_bits(b0, b1, b2, b3, b4) | 16u8 == sum_of_bits(b0, b1, b2, b3, true),
{
}

/// Adding a flag to a set or-s its bit into the set's flags byte.
proof fn lemma_flag_inserted(flags: Set<Flag>, flag: Flag)
    ensures
        0 <= flags_value(flags) < 32,
        (flags_value(flags) as u8) | flag.spec_mask() == flags_value(flags.insert(flag)),
{
    let b0 = flags.contains(Flag::LimitedDiscovery);
    let b1 = flags.contains(Flag::GeneralDiscovery);
    let b2 = flags.contains(Flag::LeOnly);
    let b3 = flags.contains(Flag::DualModeController);
    let b4 = flags.contains(Flag::DualModeHost);
    lemma_or_takes_bit(b0, b1, b2, b3, b4);
    let more = flags.insert(flag);
    assert(flags_value(more) == sum_of_bits(
        more.contains(Flag::LimitedDiscovery),
        more.contains(Flag::GeneralDiscovery),
        more.contains(Flag::LeOnly),
        more.contains(Flag::DualModeController),
        more.contains(Flag::DualModeHost),
    ));
}

/// Computes the flags byte of a list of flags. Order and repetition do not
/// matter: the byte depends only on which flags occur.
pub fn flags_byte(flags: &[Flag]) -> (byte: u8)
    ensures
        byte == flags_value(flags@.to_set()),
{
    let mut byte: u8 = 0;
    let mut i: usize = 0;
    while i < flags.len()
        invariant
            i <= flags.len(),
            byte == flags_value(flags@.take(i as int).to_set()),
        decreases flags.len() - i,
    {
        proof {
            let before = flags@.take(i as int);
            let after = flags@.take(i + 1);
            let flag = flags@[i as int];
            lemma_flag_inserted(before.to_set(), flag);
            assert(after.to_set() =~= before.to_set().insert(flag)) by {
                assert forall|f: Flag| after.contains(f) <==> (f == flag || before.contains(f)) by {
                    if before.contains(f) {
                        let j = choose|j: int| 0 <= j < i && before[j] == f;
                        assert(after[j] == f);
                    }
                    if f == flag {
                        assert(after[i as int] == f);
                    }
                }
            }
        }
        byte = byte | flags[i].mask();
        i += 1;
    }
    assert(flags@.take(i as int) =~= flags@);
    byte
}

} // verus!
