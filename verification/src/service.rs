//! The major service class: ten capability flags in bits 13 to 23.

use vstd::prelude::*;
use crate::field::{
    flag_bit, flag_value, has_bit, in_major_service_class_field, lemma_or_by_bits,
};

verus! {

/// The capabilities that a device announces, one flag each.
#[derive(Clone, Copy, Debug, PartialEq, Eq, Structural)]
pub struct MajorServiceClass {
    pub limited_discoverable_mode: bool,
    pub le_audio: bool,
    pub positioning: bool,
    pub networking: bool,
    pub rendering: bool,
    pub capturing: bool,
    pub object_transfer: bool,
    pub audio: bool,
    pub telephony: bool,
    pub information: bool,
}

impl Default for MajorServiceClass {
    /// The default descriptor has no capability.
    fn default() -> (service: Self)
        ensures
            service == MajorServiceClass::empty(),
    {
        MajorServiceClass::empty()
    }
}

impl MajorServiceClass {
    /// The flag that is assigned to bit `position`. Bit 15 is reserved, and no flag lies
    /// outside bits 13 to 23.
    pub open spec fn flag_at(self, position: u32) -> bool {
        if position == 13 {
            self.limited_discoverable_mode
        } else if position == 14 {
            self.le_audio
        } else if position == 16 {
            self.positioning
        } else if position == 17 {
            self.networking
        } else if position == 18 {
            self.rendering
        } else if position == 19 {
            self.capturing
        } else if position == 20 {
            self.object_transfer
        } else if position == 21 {
            self.audio
        } else if position == 22 {
            self.telephony
        } else if position == 23 {
            self.information
        } else {
            false
        }
    }

    /// The value of the major service class field for this descriptor.
    pub open spec fn bitmask(self) -> u32 {
        service_class_value(
            self.limited_discoverable_mode,
            self.le_audio,
            self.positioning,
            self.networking,
            self.rendering,
            self.capturing,
            self.object_transfer,
            self.audio,
            self.telephony,
            self.information,
        )
    }

    /// The descriptor without any capability.
    pub open spec fn spec_empty() -> Self {
        MajorServiceClass {
            limited_discoverable_mode: false,
            le_audio: false,
            positioning: false,
            networking: false,
            rendering: false,
            capturing: false,
            object_transfer: false,
            audio: false,
            telephony: false,
            information: false,
        }
    }

    /// Constructs a new `MajorServiceClass` without any capabilities.
    #[verifier::when_used_as_spec(spec_empty)]
    pub fn empty() -> (service: Self)
        ensures
            service == Self::spec_empty(),
    {
        Self {
            limited_discoverable_mode: false,
            le_audio: false,
            positioning: false,
            networking: false,
            rendering: false,
            capturing: false,
            object_transfer: false,
            audio: false,
            telephony: false,
            information: false,
        }
    }

    /// Converts this `MajorServiceClass` into the major service class field of a Class of
    /// Device: the bit of each flag that is set, and no other bit.
    pub fn major_service_class(&self) -> (mask: u32)
        ensures
            mask == self.bitmask(),
            in_major_service_class_field(mask),
            forall|position: u32|
                #![trigger has_bit(mask, position)]
                #![trigger self.flag_at(position)]
                position < 32 ==> has_bit(mask, position) == self.flag_at(position),
    {
        proof {
            lemma_bits_add_up(
                self.limited_discoverable_mode,
                self.le_audio,
                self.positioning,
                self.networking,
                self.rendering,
                self.capturing,
                self.object_transfer,
                self.audio,
                self.telephony,
                self.information,
            );
            assert forall|position: u32| position < 32 implies has_bit(self.bitmask(), position)
                == self.flag_at(position) by {
                self.lemma_bitmask_bits(position);
            }
        }
        (if self.limited_discoverable_mode { 1u32 << 13 } else { 0 })
            | (if self.le_audio { 1u32 << 14 } else { 0 })
            | (if self.positioning { 1u32 << 16 } else { 0 })
            | (if self.networking { 1u32 << 17 } else { 0 })
            | (if self.rendering { 1u32 << 18 } else { 0 })
            | (if self.capturing { 1u32 << 19 } else { 0 })
            | (if self.object_transfer { 1u32 << 20 } else { 0 })
            | (if self.audio { 1u32 << 21 } else { 0 })
            | (if self.telephony { 1u32 << 22 } else { 0 })
            | (if self.information { 1u32 << 23 } else { 0 })
    }

    /// The encoding sets no bit outside bits 13 to 23.
    pub proof fn lemma_bitmask_in_field(self)
        ensures
            in_major_service_class_field(self.bitmask()),
    {
    }

    /// Bit `position` of the encoding is set exactly when the flag assigned to it is set: no
    /// flag touches the bit of another.
    pub proof fn lemma_bitmask_bits(self, position: u32)
        requires
            position < 32,
        ensures
            has_bit(self.bitmask(), position) == self.flag_at(position),
    {
        let a = self.limited_discoverable_mode;
        let b = self.le_audio;
        let c = self.positioning;
        let d = self.networking;
        let e = self.rendering;
        let f = self.capturing;
        let g = self.object_transfer;
        let h = self.audio;
        let i = self.telephony;
        let j = self.information;
        assert(has_bit(service_class_value(a, b, c, d, e, f, g, h, i, j), position) == (
            (position == 13 && a) || (position == 14 && b) || (position == 16 && c)
            || (position == 17 && d) || (position == 18 && e) || (position == 19 && f)
            || (position == 20 && g) || (position == 21 && h) || (position == 22 && i)
            || (position == 23 && j)
        )) by (bit_vector)
            requires
                position < 32,
        ;
    }

    /// A descriptor with no flag set encodes as zero.
    pub proof fn lemma_no_flag(self)
        requires
            forall|position: u32| !self.flag_at(position),
        ensures
            self.bitmask() == 0,
    {
        self.lemma_flags_by_position();
    }

    /// A descriptor with a single flag set encodes as the bit of that flag alone.
    pub proof fn lemma_single_flag(self, position: u32)
        requires
            self.flag_at(position),
            forall|other: u32| other != position ==> !self.flag_at(other),
        ensures
            self.bitmask() == 1u32 << position,
    {
        self.lemma_flags_by_position();
        assert(
            (position == 13 ==> 1u32 << position == 0x0000_2000)
            && (position == 14 ==> 1u32 << position == 0x0000_4000)
            && (position == 16 ==> 1u32 << position == 0x0001_0000)
            && (position == 17 ==> 1u32 << position == 0x0002_0000)
            && (position == 18 ==> 1u32 << position == 0x0004_0000)
            && (position == 19 ==> 1u32 << position == 0x0008_0000)
            && (position == 20 ==> 1u32 << position == 0x0010_0000)
            && (position == 21 ==> 1u32 << position == 0x0020_0000)
            && (position == 22 ==> 1u32 << position == 0x0040_0000)
            && (position == 23 ==> 1u32 << position == 0x0080_0000)
        ) by (bit_vector);
    }

    /// Flags superpose: where `joined` has exactly the flags that `first` or `second` has, it
    /// encodes as the bitwise OR of their encodings. Two descriptors of one flag each are the
    /// plainest case.
    pub proof fn lemma_superposition(joined: Self, first: Self, second: Self)
        requires
            forall|position: u32|
                joined.flag_at(position) == (first.flag_at(position) || second.flag_at(position)),
        ensures
            joined.bitmask() == first.bitmask() | second.bitmask(),
    {
        assert forall|position: u32| position < 32 implies has_bit(joined.bitmask(), position)
            == (has_bit(first.bitmask(), position) || has_bit(second.bitmask(), position)) by {
            joined.lemma_bitmask_bits(position);
            first.lemma_bitmask_bits(position);
            second.lemma_bitmask_bits(position);
        }
        lemma_or_by_bits(joined.bitmask(), first.bitmask(), second.bitmask());
    }

    /// Reading `flag_at` at each assigned position gives the ten fields back.
    proof fn lemma_flags_by_position(self)
        ensures
            self.flag_at(13) == self.limited_discoverable_mode,
            self.flag_at(14) == self.le_audio,
            self.flag_at(16) == self.positioning,
            self.flag_at(17) == self.networking,
            self.flag_at(18) == self.rendering,
            self.flag_at(19) == self.capturing,
            self.flag_at(20) == self.object_transfer,
            self.flag_at(21) == self.audio,
            self.flag_at(22) == self.telephony,
            self.flag_at(23) == self.information,
    {
    }
}

/// The value of a major service class field with the given flags: the weights of those that
/// are set, added up. The weight of a flag is the value of its bit.
pub open spec fn service_class_value(
    limited_discoverable_mode: bool,
    le_audio: bool,
    positioning: bool,
    networking: bool,
    rendering: bool,
    capturing: bool,
    object_transfer: bool,
    audio: bool,
    telephony: bool,
    information: bool,
) -> u32 {
    (flag_value(limited_discoverable_mode, 0x0000_2000)
        + flag_value(le_audio, 0x0000_4000)
        + flag_value(positioning, 0x0001_0000)
        + flag_value(networking, 0x0002_0000)
        + flag_value(rendering, 0x0004_0000)
        + flag_value(capturing, 0x0008_0000)
        + flag_value(object_transfer, 0x0010_0000)
        + flag_value(audio, 0x0020_0000)
        + flag_value(telephony, 0x0040_0000)
        + flag_value(information, 0x0080_0000)) as u32
}

/// Setting the bit of each flag by bitwise OR gives the sum of the weights.
proof fn lemma_bits_add_up(
    a: bool,
    b: bool,
    c: bool,
    d: bool,
    e: bool,
    f: bool,
    g: bool,
    h: bool,
    i: bool,
    j: bool,
)
    by (bit_vector)
    ensures
        flag_bit(a, 13) | flag_bit(b, 14) | flag_bit(c, 16) | flag_bit(d, 17) | flag_bit(e, 18)
            | flag_bit(f, 19) | flag_bit(g, 20) | flag_bit(h, 21) | flag_bit(i, 22)
            | flag_bit(j, 23) == service_class_value(a, b, c, d, e, f, g, h, i, j),
{
}

} // verus!
