//! The typed description of a plugin and of its ports.
use vstd::prelude::*;

use crate::abi::{
    HINT_DEFAULT_0, HINT_DEFAULT_1, HINT_DEFAULT_100, HINT_DEFAULT_440, HINT_DEFAULT_HIGH,
    HINT_DEFAULT_LOW, HINT_DEFAULT_MASK, HINT_DEFAULT_MAXIMUM, HINT_DEFAULT_MIDDLE,
    HINT_DEFAULT_MINIMUM, HINT_FLAGS_MASK, HINT_INTEGER, HINT_LOGARITHMIC, HINT_SAMPLE_RATE,
    HINT_TOGGLED, PORT_AUDIO, PORT_CONTROL, PORT_INPUT, PORT_OUTPUT, PROPERTIES_MASK,
    PROPERTY_HARD_RT_CAPABLE, PROPERTY_INPLACE_BROKEN, PROPERTY_REALTIME,
};

verus! {

/// The four kinds of port: audio or control, input or output.
///
/// `Invalid` is the value of a port that was never given a kind; a host
/// cannot connect such a port.
#[derive(Clone, Copy, Debug, PartialEq, Eq, Structural)]
pub enum PortDescriptor {
    Invalid,
    AudioInput,
    AudioOutput,
    ControlInput,
    ControlOutput,
}

impl PortDescriptor {
    /// The port type bit-field that the host reads for this kind.
    pub open spec fn spec_bits(self) -> i32 {
        match self {
            PortDescriptor::Invalid => 0,
            PortDescriptor::AudioInput => PORT_AUDIO | PORT_INPUT,
            PortDescriptor::AudioOutput => PORT_AUDIO | PORT_OUTPUT,
            PortDescriptor::ControlInput => PORT_CONTROL | PORT_INPUT,
            PortDescriptor::ControlOutput => PORT_CONTROL | PORT_OUTPUT,
        }
    }

    /// Returns the port type bit-field that the host reads for this kind.
    pub fn bits(&self) -> (r: i32)
        ensures
            r == self.spec_bits(),
    {
        match self {
            PortDescriptor::Invalid => 0,
            PortDescriptor::AudioInput => PORT_AUDIO | PORT_INPUT,
            PortDescriptor::AudioOutput => PORT_AUDIO | PORT_OUTPUT,
            PortDescriptor::ControlInput => PORT_CONTROL | PORT_INPUT,
            PortDescriptor::ControlOutput => PORT_CONTROL | PORT_OUTPUT,
        }
    }

    /// The kind whose bit-field is `bits`, if any.
    pub open spec fn spec_from_bits(bits: i32) -> Option<PortDescriptor> {
        if bits == 0 {
            Some(PortDescriptor::Invalid)
        } else if bits == PORT_AUDIO | PORT_INPUT {
            Some(PortDescriptor::AudioInput)
        } else if bits == PORT_AUDIO | PORT_OUTPUT {
            Some(PortDescriptor::AudioOutput)
        } else if bits == PORT_CONTROL | PORT_INPUT {
            Some(PortDescriptor::ControlInput)
        } else if bits == PORT_CONTROL | PORT_OUTPUT {
            Some(PortDescriptor::ControlOutput)
        } else {
            None
        }
    }

    /// Reads a kind back from its bit-field; `None` for a field that names
    /// no kind.
    pub fn from_bits(bits: i32) -> (r: Option<PortDescriptor>)
        ensures
            r == Self::spec_from_bits(bits),
    {
        if bits == 0 {
            Some(PortDescriptor::Invalid)
        } else if bits == PORT_AUDIO | PORT_INPUT {
            Some(PortDescriptor::AudioInput)
        } else if bits == PORT_AUDIO | PORT_OUTPUT {
            Some(PortDescriptor::AudioOutput)
        } else if bits == PORT_CONTROL | PORT_INPUT {
            Some(PortDescriptor::ControlInput)
        } else if bits == PORT_CONTROL | PORT_OUTPUT {
            Some(PortDescriptor::ControlOutput)
        } else {
            None
        }
    }

    /// Every kind reads back from its own bit-field.
    pub proof fn lemma_bits_round_trip(self)
        ensures
            Self::spec_from_bits(self.spec_bits()) == Some(self),
    {
        assert(PORT_AUDIO | PORT_INPUT == 9i32) by (bit_vector);
        assert(PORT_AUDIO | PORT_OUTPUT == 10i32) by (bit_vector);
        assert(PORT_CONTROL | PORT_INPUT == 5i32) by (bit_vector);
        assert(PORT_CONTROL | PORT_OUTPUT == 6i32) by (bit_vector);
    }

    /// True for the two audio kinds, whose buffers hold one value per sample.
    pub open spec fn is_audio(self) -> bool {
        self == PortDescriptor::AudioInput || self == PortDescriptor::AudioOutput
    }
}

impl Default for PortDescriptor {
    fn default() -> (r: PortDescriptor)
        ensures
            r == PortDescriptor::Invalid,
    {
        PortDescriptor::Invalid
    }
}

/// The default value a host should give a control port.
#[derive(Clone, Copy, Debug, PartialEq, Eq, Structural)]
pub enum DefaultValue {
    /// The lower bound of the port.
    Minimum,
    /// Three quarters of the way towards the lower bound (on a log scale for
    /// logarithmic ports).
    Low,
    /// Half way between the bounds.
    Middle,
    /// Three quarters of the way towards the upper bound.
    High,
    /// The upper bound of the port.
    Maximum,
    /// 0, or false for a toggle.
    Value0,
    /// 1, or true for a toggle.
    Value1,
    /// 100.
    Value100,
    /// 440, concert A.
    Value440,
}

impl DefaultValue {
    /// The default-value field of a range hint for this default.
    pub open spec fn spec_bits(self) -> i32 {
        match self {
            DefaultValue::Minimum => HINT_DEFAULT_MINIMUM,
            DefaultValue::Low => HINT_DEFAULT_LOW,
            DefaultValue::Middle => HINT_DEFAULT_MIDDLE,
            DefaultValue::High => HINT_DEFAULT_HIGH,
            DefaultValue::Maximum => HINT_DEFAULT_MAXIMUM,
            DefaultValue::Value0 => HINT_DEFAULT_0,
            DefaultValue::Value1 => HINT_DEFAULT_1,
            DefaultValue::Value100 => HINT_DEFAULT_100,
            DefaultValue::Value440 => HINT_DEFAULT_440,
        }
    }

    /// Returns the default-value field of a range hint for this default.
    pub fn bits(&self) -> (r: i32)
        ensures
            r == self.spec_bits(),
    {
        match self {
            DefaultValue::Minimum => HINT_DEFAULT_MINIMUM,
            DefaultValue::Low => HINT_DEFAULT_LOW,
            DefaultValue::Middle => HINT_DEFAULT_MIDDLE,
            DefaultValue::High => HINT_DEFAULT_HIGH,
            DefaultValue::Maximum => HINT_DEFAULT_MAXIMUM,
            DefaultValue::Value0 => HINT_DEFAULT_0,
            DefaultValue::Value1 => HINT_DEFAULT_1,
            DefaultValue::Value100 => HINT_DEFAULT_100,
            DefaultValue::Value440 => HINT_DEFAULT_440,
        }
    }

    /// The default whose range-hint field is `bits`, if any.
    pub open spec fn spec_from_bits(bits: i32) -> Option<DefaultValue> {
        if bits == HINT_DEFAULT_MINIMUM {
            Some(DefaultValue::Minimum)
        } else if bits == HINT_DEFAULT_LOW {
            Some(DefaultValue::Low)
        } else if bits == HINT_DEFAULT_MIDDLE {
            Some(DefaultValue::Middle)
        } else if bits == HINT_DEFAULT_HIGH {
            Some(DefaultValue::High)
        } else if bits == HINT_DEFAULT_MAXIMUM {
            Some(DefaultValue::Maximum)
        } else if bits == HINT_DEFAULT_0 {
            Some(DefaultValue::Value0)
        } else if bits == HINT_DEFAULT_1 {
            Some(DefaultValue::Value1)
        } else if bits == HINT_DEFAULT_100 {
            Some(DefaultValue::Value100)
        } else if bits == HINT_DEFAULT_440 {
            Some(DefaultValue::Value440)
        } else {
            None
        }
    }

    /// Reads a default back from the default-value field of a range hint;
    /// `None` when the field names no default.
    pub fn from_bits(bits: i32) -> (r: Option<DefaultValue>)
        ensures
            r == Self::spec_from_bits(bits),
    {
        if bits == HINT_DEFAULT_MINIMUM {
            Some(DefaultValue::Minimum)
        } else if bits == HINT_DEFAULT_LOW {
            Some(DefaultValue::Low)
        } else if bits == HINT_DEFAULT_MIDDLE {
            Some(DefaultValue::Middle)
        } else if bits == HINT_DEFAULT_HIGH {
            Some(DefaultValue::High)
        } else if bits == HINT_DEFAULT_MAXIMUM {
            Some(DefaultValue::Maximum)
        } else if bits == HINT_DEFAULT_0 {
            Some(DefaultValue::Value0)
        } else if bits == HINT_DEFAULT_1 {
            Some(DefaultValue::Value1)
        } else if bits == HINT_DEFAULT_100 {
            Some(DefaultValue::Value100)
        } else if bits == HINT_DEFAULT_440 {
            Some(DefaultValue::Value440)
        } else {
            None
        }
    }

    /// Every default reads back from its own field.
    pub proof fn lemma_bits_round_trip(self)
        ensures
            Self::spec_from_bits(self.spec_bits()) == Some(self),
            self.spec_bits() & HINT_DEFAULT_MASK == self.spec_bits(),
            self.spec_bits() & !HINT_DEFAULT_MASK == 0,
    {
        lemma_default_fields();
    }
}

/// Hints on how a host should present the values of a port; any of them may be ignored.
#[derive(Clone, Copy, Debug, PartialEq, Eq, Structural)]
pub struct ControlHint {
    // Only ever holds bits inside `HINT_FLAGS_MASK`; every reader masks anyway,
    // so proofs need no invariant to know it.
    bits: i32,
}

impl ControlHint {
    /// The bit-field of the set.
    pub closed spec fn spec_bits(self) -> i32 {
        self.bits & HINT_FLAGS_MASK
    }

    /// A set never holds a bit outside the four hint flags.
    pub proof fn lemma_known_bits_only(self)
        ensures
            self.spec_bits() & !HINT_FLAGS_MASK == 0,
    {
        let b = self.bits;
        assert((b & HINT_FLAGS_MASK) & !HINT_FLAGS_MASK == 0) by (bit_vector);
    }

    /// The empty set.
    pub fn empty() -> (r: ControlHint)
        ensures
            r.spec_bits() == 0,
    {
        assert(0i32 & HINT_FLAGS_MASK == 0) by (bit_vector);
        ControlHint { bits: 0 }
    }

    /// A toggle: values <= 0 are false, values > 0 true.
    pub fn toggled() -> (r: ControlHint)
        ensures
            r.spec_bits() == HINT_TOGGLED,
    {
        assert(HINT_TOGGLED & HINT_FLAGS_MASK == HINT_TOGGLED) by (bit_vector);
        ControlHint { bits: HINT_TOGGLED }
    }

    /// Values, bounds included, are multiples of the sample rate.
    pub fn sample_rate() -> (r: ControlHint)
        ensures
            r.spec_bits() == HINT_SAMPLE_RATE,
    {
        assert(HINT_SAMPLE_RATE & HINT_FLAGS_MASK == HINT_SAMPLE_RATE) by (bit_vector);
        ControlHint { bits: HINT_SAMPLE_RATE }
    }

    /// Values are best shown on a logarithmic scale.
    pub fn logarithmic() -> (r: ControlHint)
        ensures
            r.spec_bits() == HINT_LOGARITHMIC,
    {
        assert(HINT_LOGARITHMIC & HINT_FLAGS_MASK == HINT_LOGARITHMIC) by (bit_vector);
        ControlHint { bits: HINT_LOGARITHMIC }
    }

    /// Values are integers.
    pub fn integer() -> (r: ControlHint)
        ensures
            r.spec_bits() == HINT_INTEGER,
    {
        assert(HINT_INTEGER & HINT_FLAGS_MASK == HINT_INTEGER) by (bit_vector);
        ControlHint { bits: HINT_INTEGER }
    }

    /// The set with exactly the bits of `bits`, or `None` when `bits` holds a
    /// bit outside the four hint flags.
    pub fn from_bits(bits: i32) -> (r: Option<ControlHint>)
        ensures
            r is Some <==> bits & !HINT_FLAGS_MASK == 0,
            r matches Some(f) ==> f.spec_bits() == bits,
    {
        if bits & !HINT_FLAGS_MASK == 0 {
            assert(bits & !HINT_FLAGS_MASK == 0 ==> bits & HINT_FLAGS_MASK == bits) by (bit_vector);
            Some(ControlHint { bits })
        } else {
            None
        }
    }

    /// Returns the bit-field of the set.
    pub fn bits(&self) -> (r: i32)
        ensures
            r == self.spec_bits(),
            r & !HINT_FLAGS_MASK == 0,
    {
        let b = self.bits;
        assert((b & HINT_FLAGS_MASK) & !HINT_FLAGS_MASK == 0) by (bit_vector);
        b & HINT_FLAGS_MASK
    }

    /// The set holding the members of both sets.
    pub fn union(self, other: ControlHint) -> (r: ControlHint)
        ensures
            r.spec_bits() == self.spec_bits() | other.spec_bits(),
    {
        let a = self.bits;
        let b = other.bits;
        assert(((a & HINT_FLAGS_MASK) | (b & HINT_FLAGS_MASK)) & HINT_FLAGS_MASK == (a & HINT_FLAGS_MASK) | (b & HINT_FLAGS_MASK))
            by (bit_vector);
        ControlHint { bits: (a & HINT_FLAGS_MASK) | (b & HINT_FLAGS_MASK) }
    }

    /// Whether every member of `other` is a member of this set.
    pub fn contains(&self, other: ControlHint) -> (r: bool)
        ensures
            r == (self.spec_bits() & other.spec_bits() == other.spec_bits()),
    {
        let a = self.bits & HINT_FLAGS_MASK;
        let b = other.bits & HINT_FLAGS_MASK;
        a & b == b
    }
}

/// Properties of a plugin that restrict or widen how a host may use it.
#[derive(Clone, Copy, Debug, PartialEq, Eq, Structural)]
pub struct Properties {
    // Only ever holds bits inside `PROPERTIES_MASK`; every reader masks anyway,
    // so proofs need no invariant to know it.
    bits: i32,
}

impl Properties {
    /// The bit-field of the set.
    pub closed spec fn spec_bits(self) -> i32 {
        self.bits & PROPERTIES_MASK
    }

    /// The empty set.
    pub fn empty() -> (r: Properties)
        ensures
            r.spec_bits() == 0,
    {
        assert(0i32 & PROPERTIES_MASK == 0) by (bit_vector);
        Properties { bits: 0 }
    }

    /// The plugin has a real-time dependency, so its output may not be cached.
    pub fn realtime() -> (r: Properties)
        ensures
            r.spec_bits() == PROPERTY_REALTIME,
    {
        assert(PROPERTY_REALTIME & PROPERTIES_MASK == PROPERTY_REALTIME) by (bit_vector);
        Properties { bits: PROPERTY_REALTIME }
    }

    /// The plugin fails when input and output buffers share memory.
    pub fn inplace_broken() -> (r: Properties)
        ensures
            r.spec_bits() == PROPERTY_INPLACE_BROKEN,
    {
        assert(PROPERTY_INPLACE_BROKEN & PROPERTIES_MASK == PROPERTY_INPLACE_BROKEN) by (bit_vector);
        Properties { bits: PROPERTY_INPLACE_BROKEN }
    }

    /// The plugin can run in a hard real-time environment.
    pub fn hard_realtime_capable() -> (r: Properties)
        ensures
            r.spec_bits() == PROPERTY_HARD_RT_CAPABLE,
    {
        assert(PROPERTY_HARD_RT_CAPABLE & PROPERTIES_MASK == PROPERTY_HARD_RT_CAPABLE) by (bit_vector);
        Properties { bits: PROPERTY_HARD_RT_CAPABLE }
    }

    /// The set with exactly the bits of `bits`, or `None` when `bits` holds a
    /// bit outside the three property flags.
    pub fn from_bits(bits: i32) -> (r: Option<Properties>)
        ensures
            r is Some <==> bits & !PROPERTIES_MASK == 0,
            r matches Some(f) ==> f.spec_bits() == bits,
    {
        if bits & !PROPERTIES_MASK == 0 {
            assert(bits & !PROPERTIES_MASK == 0 ==> bits & PROPERTIES_MASK == bits) by (bit_vector);
            Some(Properties { bits })
        } else {
            None
        }
    }

    /// Returns the bit-field of the set.
    pub fn bits(&self) -> (r: i32)
        ensures
            r == self.spec_bits(),
            r & !PROPERTIES_MASK == 0,
    {
        let b = self.bits;
        assert((b & PROPERTIES_MASK) & !PROPERTIES_MASK == 0) by (bit_vector);
        b & PROPERTIES_MASK
    }

    /// The set holding the members of both sets.
    pub fn union(self, other: Properties) -> (r: Properties)
        ensures
            r.spec_bits() == self.spec_bits() | other.spec_bits(),
    {
        let a = self.bits;
        let b = other.bits;
        assert(((a & PROPERTIES_MASK) | (b & PROPERTIES_MASK)) & PROPERTIES_MASK == (a & PROPERTIES_MASK) | (b & PROPERTIES_MASK))
            by (bit_vector);
        Properties { bits: (a & PROPERTIES_MASK) | (b & PROPERTIES_MASK) }
    }

    /// Whether every member of `other` is a member of this set.
    pub fn contains(&self, other: Properties) -> (r: bool)
        ensures
            r == (self.spec_bits() & other.spec_bits() == other.spec_bits()),
    {
        let a = self.bits & PROPERTIES_MASK;
        let b = other.bits & PROPERTIES_MASK;
        a & b == b
    }
}

/// One input or output of a plugin, carrying either audio samples or a
/// single control value.
///
/// A bound is the IEEE-754 bit pattern of a single-precision value (what
/// `f32::to_bits` gives); the library copies bounds and never computes with
/// them.
#[derive(Clone, Copy, Debug, Default)]
pub struct Port {
    /// The name a host shows for the port.
    pub name: &'static str,
    /// Audio or control, input or output.
    pub desc: PortDescriptor,
    /// Hints on how to present the port's values.
    pub hint: Option<ControlHint>,
    /// The value a host should start the port at.
    pub default: Option<DefaultValue>,
    /// The lower bound of the port's values, as single-precision bits.
    pub lower_bound: Option<u32>,
    /// The upper bound of the port's values, as single-precision bits.
    pub upper_bound: Option<u32>,
}

/// The description of one plugin: its identity, its metadata, its ordered
/// ports (a port's position is its index for the host) and `new`, the
/// factory that makes an instance of it for a sample rate.
pub struct PluginDescriptor<F> {
    /// A number that identifies the plugin among all plugins.
    pub unique_id: u64,
    /// A short, case-sensitive name, unique within the library.
    pub label: &'static str,
    /// What a host may and may not do with the plugin.
    pub properties: Properties,
    /// The name a host shows for the plugin.
    pub name: &'static str,
    /// Who made the plugin; may be empty.
    pub maker: &'static str,
    /// The copyright of the plugin, or "None".
    pub copyright: &'static str,
    /// The ports, in the order the host indexes them.
    pub ports: Vec<Port>,
    /// Makes a new instance of the plugin.
    pub new: F,
}

/// Each default-value code lies inside the default-value field.
proof fn lemma_default_fields()
    by (bit_vector)
    ensures
        HINT_DEFAULT_MINIMUM & HINT_DEFAULT_MASK == HINT_DEFAULT_MINIMUM,
        HINT_DEFAULT_MINIMUM & !HINT_DEFAULT_MASK == 0,
        HINT_DEFAULT_LOW & HINT_DEFAULT_MASK == HINT_DEFAULT_LOW,
        HINT_DEFAULT_LOW & !HINT_DEFAULT_MASK == 0,
        HINT_DEFAULT_MIDDLE & HINT_DEFAULT_MASK == HINT_DEFAULT_MIDDLE,
        HINT_DEFAULT_MIDDLE & !HINT_DEFAULT_MASK == 0,
        HINT_DEFAULT_HIGH & HINT_DEFAULT_MASK == HINT_DEFAULT_HIGH,
        HINT_DEFAULT_HIGH & !HINT_DEFAULT_MASK == 0,
        HINT_DEFAULT_MAXIMUM & HINT_DEFAULT_MASK == HINT_DEFAULT_MAXIMUM,
        HINT_DEFAULT_MAXIMUM & !HINT_DEFAULT_MASK == 0,
        HINT_DEFAULT_0 & HINT_DEFAULT_MASK == HINT_DEFAULT_0,
        HINT_DEFAULT_0 & !HINT_DEFAULT_MASK == 0,
        HINT_DEFAULT_1 & HINT_DEFAULT_MASK == HINT_DEFAULT_1,
        HINT_DEFAULT_1 & !HINT_DEFAULT_MASK == 0,
        HINT_DEFAULT_100 & HINT_DEFAULT_MASK == HINT_DEFAULT_100,
        HINT_DEFAULT_100 & !HINT_DEFAULT_MASK == 0,
        HINT_DEFAULT_440 & HINT_DEFAULT_MASK == HINT_DEFAULT_440,
        HINT_DEFAULT_440 & !HINT_DEFAULT_MASK == 0,
{
}

} // verus!
