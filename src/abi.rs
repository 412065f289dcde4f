//! Numeric values fixed by the host interface (`ladspa.h`).
use vstd::prelude::*;

verus! {

/// Plugin property: it has a real-time dependency, so its output may not be cached.
pub const PROPERTY_REALTIME: i32 = 0x1;
/// Plugin property: input and output buffers must not share memory.
pub const PROPERTY_INPLACE_BROKEN: i32 = 0x2;
/// Plugin property: it can run in a hard real-time environment.
pub const PROPERTY_HARD_RT_CAPABLE: i32 = 0x4;

/// Port direction bit: input.
pub const PORT_INPUT: i32 = 0x1;
/// Port direction bit: output.
pub const PORT_OUTPUT: i32 = 0x2;
/// Port type bit: a single control value.
pub const PORT_CONTROL: i32 = 0x4;
/// Port type bit: a buffer of audio samples.
pub const PORT_AUDIO: i32 = 0x8;

/// Range hint: the lower bound is meaningful.
pub const HINT_BOUNDED_BELOW: i32 = 0x1;
/// Range hint: the upper bound is meaningful.
pub const HINT_BOUNDED_ABOVE: i32 = 0x2;
/// Range hint: the port is an on/off toggle.
pub const HINT_TOGGLED: i32 = 0x4;
/// Range hint: values are multiples of the sample rate.
pub const HINT_SAMPLE_RATE: i32 = 0x8;
/// Range hint: values are best shown on a logarithmic scale.
pub const HINT_LOGARITHMIC: i32 = 0x10;
/// Range hint: values are integers.
pub const HINT_INTEGER: i32 = 0x20;

/// Default value: the lower bound.
pub const HINT_DEFAULT_MINIMUM: i32 = 0x40;
/// Default value: low, between the bounds.
pub const HINT_DEFAULT_LOW: i32 = 0x80;
/// Default value: middle, between the bounds.
pub const HINT_DEFAULT_MIDDLE: i32 = 0xC0;
/// Default value: high, between the bounds.
pub const HINT_DEFAULT_HIGH: i32 = 0x100;
/// Default value: the upper bound.
pub const HINT_DEFAULT_MAXIMUM: i32 = 0x140;
/// Default value: 0.
pub const HINT_DEFAULT_0: i32 = 0x200;
/// Default value: 1.
pub const HINT_DEFAULT_1: i32 = 0x240;
/// Default value: 100.
pub const HINT_DEFAULT_100: i32 = 0x280;
/// Default value: 440 (concert A).
pub const HINT_DEFAULT_440: i32 = 0x2C0;

/// The bits of a range hint that carry the default value.
pub const HINT_DEFAULT_MASK: i32 = 0x3C0;
/// The bits of a range hint that carry the explicit hint flags.
pub const HINT_FLAGS_MASK: i32 = 0x3C;
/// The bits of a range hint that mark the bounds as meaningful.
pub const HINT_BOUNDED_MASK: i32 = 0x3;
/// The bits that plugin properties may use.
pub const PROPERTIES_MASK: i32 = 0x7;

} // verus!
