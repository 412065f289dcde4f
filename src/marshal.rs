//! Conversion of a typed plugin description into the flat record that a
//! host reads, and the rules by which a host reads that record back.
use vstd::prelude::*;
use vstd::string::StringSliceAdditionalSpecFns;

use crate::abi::{
    HINT_BOUNDED_ABOVE, HINT_BOUNDED_BELOW, HINT_DEFAULT_MASK, HINT_FLAGS_MASK,
};
use crate::port::{ControlHint, DefaultValue, PluginDescriptor, Port, PortDescriptor};

verus! {

/// The NUL-terminated form of a byte string.
pub open spec fn spec_c_string(bytes: Seq<u8>) -> Seq<u8> {
    bytes.push(0u8)
}

/// What a C reader sees in a NUL-terminated buffer: the bytes before the
/// first NUL.
pub open spec fn c_string_content(c: Seq<u8>) -> Seq<u8>
    decreases c.len(),
{
    if c.len() == 0 || c[0] == 0 {
        Seq::empty()
    } else {
        seq![c[0]] + c_string_content(c.drop_first())
    }
}

/// A byte string without NUL reads back unchanged from its NUL-terminated form.
pub proof fn lemma_c_string_content(bytes: Seq<u8>)
    requires
        !bytes.contains(0u8),
    ensures
        c_string_content(spec_c_string(bytes)) == bytes,
    decreases bytes.len(),
{
    if bytes.len() == 0 {
        assert(spec_c_string(bytes)[0] == 0);
    } else {
        let rest = bytes.drop_first();
        assert(!rest.contains(0u8)) by {
            if rest.contains(0u8) {
                let j = choose|j: int| 0 <= j < rest.len() && rest[j] == 0u8;
                assert(bytes[j + 1] == 0u8);
            }
        }
        lemma_c_string_content(rest);
        assert(spec_c_string(bytes).drop_first() =~= spec_c_string(rest));
        assert(bytes[0] != 0u8);
        assert(seq![bytes[0]] + rest =~= bytes);
    }
}

/// Copies `s` into a fresh NUL-terminated buffer; `None` when `s` holds a
/// NUL byte, which a C reader would take for the end of the string.
pub fn c_string(s: &str) -> (r: Option<Vec<u8>>)
    ensures
        r is None <==> s.spec_bytes().contains(0u8),
        r matches Some(v) ==> v@ == spec_c_string(s.spec_bytes()),
{
    let bytes = s.as_bytes();
    let mut out: Vec<u8> = Vec::new();
    let mut i: usize = 0;
    while i < bytes.len()
        invariant
            bytes@ == s.spec_bytes(),
            0 <= i <= bytes@.len(),
            out@ == bytes@.subrange(0, i as int),
            forall|j: int| 0 <= j < i ==> bytes@[j] != 0u8,
        decreases bytes@.len() - i,
    {
        if bytes[i] == 0 {
            return None;
        }
        out.push(bytes[i]);
        i += 1;
    }
    proof {
        assert(out@ =~= bytes@);
        assert(!bytes@.contains(0u8));
    }
    out.push(0);
    Some(out)
}

/// The range hint of one port as the host reads it: a bit-field of hints,
/// default and bounded flags, and the two bounds as single-precision bits.
#[derive(Clone, Copy, Debug, PartialEq, Eq, Structural)]
pub struct PortRangeHint {
    /// Hint flags, default-value field and the two bounded flags, OR-ed.
    pub hint_descriptor: i32,
    /// The lower bound; meaningful only under `HINT_BOUNDED_BELOW`.
    pub lower_bound: u32,
    /// The upper bound; meaningful only under `HINT_BOUNDED_ABOVE`.
    pub upper_bound: u32,
}

/// The hint-flag field of an optional hint set.
pub open spec fn spec_hint_field(hint: Option<ControlHint>) -> i32 {
    match hint {
        Some(h) => h.spec_bits(),
        None => 0,
    }
}

/// The default-value field of an optional default.
pub open spec fn spec_default_field(default: Option<DefaultValue>) -> i32 {
    match default {
        Some(d) => d.spec_bits(),
        None => 0,
    }
}

/// The bounded flag `flag` when `bound` is present, else nothing.
pub open spec fn spec_bounded_field(bound: Option<u32>, flag: i32) -> i32 {
    if bound is Some {
        flag
    } else {
        0
    }
}

/// The value stored for a bound: the bound itself, or zero when absent.
pub open spec fn spec_bound_value(bound: Option<u32>) -> u32 {
    match bound {
        Some(b) => b,
        None => 0,
    }
}

/// The range hint that encodes `port`: the bounded flags follow the
/// presence of the bounds, whatever hints the port names.
pub open spec fn spec_range_hint(port: Port) -> PortRangeHint {
    PortRangeHint {
        hint_descriptor: spec_hint_field(port.hint) | spec_default_field(port.default)
            | spec_bounded_field(port.lower_bound, HINT_BOUNDED_BELOW)
            | spec_bounded_field(port.upper_bound, HINT_BOUNDED_ABOVE),
        lower_bound: spec_bound_value(port.lower_bound),
        upper_bound: spec_bound_value(port.upper_bound),
    }
}

impl PortRangeHint {
    /// The lower bound as a host must read it: present only under its flag.
    pub open spec fn spec_lower(self) -> Option<u32> {
        if self.hint_descriptor & HINT_BOUNDED_BELOW != 0 {
            Some(self.lower_bound)
        } else {
            None
        }
    }

    /// The upper bound as a host must read it: present only under its flag.
    pub open spec fn spec_upper(self) -> Option<u32> {
        if self.hint_descriptor & HINT_BOUNDED_ABOVE != 0 {
            Some(self.upper_bound)
        } else {
            None
        }
    }

    /// The hint flags held in the bit-field.
    pub open spec fn spec_flags(self) -> i32 {
        self.hint_descriptor & HINT_FLAGS_MASK
    }

    /// The default value held in the bit-field.
    pub open spec fn spec_default(self) -> Option<DefaultValue> {
        DefaultValue::spec_from_bits(self.hint_descriptor & HINT_DEFAULT_MASK)
    }

    /// Encodes the range hint of `port`.
    pub fn from_port(port: &Port) -> (r: PortRangeHint)
        ensures
            r == spec_range_hint(*port),
    {
        let hint = match port.hint {
            Some(h) => h.bits(),
            None => 0,
        };
        let default = match port.default {
            Some(d) => d.bits(),
            None => 0,
        };
        let below = if port.lower_bound.is_some() {
            HINT_BOUNDED_BELOW
        } else {
            0
        };
        let above = if port.upper_bound.is_some() {
            HINT_BOUNDED_ABOVE
        } else {
            0
        };
        let lower_bound = match port.lower_bound {
            Some(b) => b,
            None => 0,
        };
        let upper_bound = match port.upper_bound {
            Some(b) => b,
            None => 0,
        };
        PortRangeHint { hint_descriptor: hint | default | below | above, lower_bound, upper_bound }
    }

    /// Reads the lower bound back: `None` unless its bounded flag is set.
    pub fn lower(&self) -> (r: Option<u32>)
        ensures
            r == self.spec_lower(),
    {
        if self.hint_descriptor & HINT_BOUNDED_BELOW != 0 {
            Some(self.lower_bound)
        } else {
            None
        }
    }

    /// Reads the upper bound back: `None` unless its bounded flag is set.
    pub fn upper(&self) -> (r: Option<u32>)
        ensures
            r == self.spec_upper(),
    {
        if self.hint_descriptor & HINT_BOUNDED_ABOVE != 0 {
            Some(self.upper_bound)
        } else {
            None
        }
    }

    /// Reads the hint flags back.
    pub fn flags(&self) -> (r: ControlHint)
        ensures
            r.spec_bits() == self.spec_flags(),
    {
        let field = self.hint_descriptor;
        let bits = field & HINT_FLAGS_MASK;
        assert(bits & !HINT_FLAGS_MASK == 0) by (bit_vector)
            requires
                bits == field & HINT_FLAGS_MASK,
        ;
        match ControlHint::from_bits(bits) {
            Some(h) => h,
            None => ControlHint::empty(),
        }
    }

    /// Reads the default value back.
    pub fn default_value(&self) -> (r: Option<DefaultValue>)
        ensures
            r == self.spec_default(),
    {
        DefaultValue::from_bits(self.hint_descriptor & HINT_DEFAULT_MASK)
    }
}

/// The fields of a range hint do not overlap, so each reads back alone.
proof fn lemma_hint_fields_apart(x: i32, d: i32, lo: i32, hi: i32)
    by (bit_vector)
    requires
        x & !HINT_FLAGS_MASK == 0,
        d & !HINT_DEFAULT_MASK == 0,
        lo == 0 || lo == HINT_BOUNDED_BELOW,
        hi == 0 || hi == HINT_BOUNDED_ABOVE,
    ensures
        (x | d | lo | hi) & HINT_BOUNDED_BELOW == lo,
        (x | d | lo | hi) & HINT_BOUNDED_ABOVE == hi,
        (x | d | lo | hi) & HINT_FLAGS_MASK == x,
        (x | d | lo | hi) & HINT_DEFAULT_MASK == d,
{
}

/// Every bound, hint and default of a port reads back unchanged from its
/// range hint, and an absent bound reads back as absent.
pub proof fn lemma_range_hint_round_trip(port: Port)
    ensures
        spec_range_hint(port).spec_lower() == port.lower_bound,
        spec_range_hint(port).spec_upper() == port.upper_bound,
        spec_range_hint(port).spec_flags() == spec_hint_field(port.hint),
        spec_range_hint(port).spec_default() == port.default,
{
    let x = spec_hint_field(port.hint);
    let d = spec_default_field(port.default);
    match port.hint {
        Some(h) => h.lemma_known_bits_only(),
        None => assert(0i32 & !HINT_FLAGS_MASK == 0) by (bit_vector),
    }
    match port.default {
        Some(v) => v.lemma_bits_round_trip(),
        None => assert(0i32 & !HINT_DEFAULT_MASK == 0) by (bit_vector),
    }
    lemma_hint_fields_apart(
        x,
        d,
        spec_bounded_field(port.lower_bound, HINT_BOUNDED_BELOW),
        spec_bounded_field(port.upper_bound, HINT_BOUNDED_ABOVE),
    );
}

/// Whether a C reader would cut `s` short: it holds a NUL byte.
pub open spec fn has_nul(s: &str) -> bool {
    s.spec_bytes().contains(0u8)
}

/// Why a plugin description cannot be marshaled: a string that would be cut
/// short at a NUL byte.
#[derive(Clone, Copy, Debug, PartialEq, Eq, Structural)]
pub enum MarshalError {
    NulInLabel,
    NulInName,
    NulInMaker,
    NulInCopyright,
    /// The name of the port at this index.
    NulInPortName(usize),
}

/// The flat record that a host reads for one plugin. Every string is a
/// fresh NUL-terminated buffer and the three port arrays have one entry per
/// port, in port order.
pub struct Descriptor {
    pub unique_id: u64,
    pub label: Vec<u8>,
    pub properties: i32,
    pub name: Vec<u8>,
    pub maker: Vec<u8>,
    pub copyright: Vec<u8>,
    pub port_count: u64,
    /// The kind bit-field of each port.
    pub port_descriptors: Vec<i32>,
    /// The NUL-terminated name of each port.
    pub port_names: Vec<Vec<u8>>,
    /// The range hint of each port.
    pub port_range_hints: Vec<PortRangeHint>,
}

impl<F> PluginDescriptor<F> {
    /// No string of the description holds a NUL byte.
    pub open spec fn spec_c_compatible(&self) -> bool {
        &&& !has_nul(self.label)
        &&& !has_nul(self.name)
        &&& !has_nul(self.maker)
        &&& !has_nul(self.copyright)
        &&& forall|i: int| 0 <= i < self.ports@.len() ==> !has_nul(#[trigger] self.ports@[i].name)
    }

    /// `e` is the first fault of the description, in the order label, name,
    /// maker, copyright, then the port names by index.
    pub open spec fn spec_first_fault(&self, e: MarshalError) -> bool {
        match e {
            MarshalError::NulInLabel => has_nul(self.label),
            MarshalError::NulInName => !has_nul(self.label) && has_nul(self.name),
            MarshalError::NulInMaker => !has_nul(self.label) && !has_nul(self.name) && has_nul(
                self.maker,
            ),
            MarshalError::NulInCopyright => !has_nul(self.label) && !has_nul(self.name)
                && !has_nul(self.maker) && has_nul(self.copyright),
            MarshalError::NulInPortName(i) => {
                &&& !has_nul(self.label)
                &&& !has_nul(self.name)
                &&& !has_nul(self.maker)
                &&& !has_nul(self.copyright)
                &&& i < self.ports@.len()
                &&& has_nul(self.ports@[i as int].name)
                &&& forall|j: int| 0 <= j < i ==> !has_nul(#[trigger] self.ports@[j].name)
            },
        }
    }
}

impl Descriptor {
    /// Port `i` of this record reads back as `p`: its name, its kind, its
    /// hint flags, its default, and each bound exactly when it is present.
    pub open spec fn port_reads_back(&self, i: int, p: Port) -> bool {
        let h = self.port_range_hints@[i];
        &&& c_string_content(self.port_names@[i]@) == p.name.spec_bytes()
        &&& PortDescriptor::spec_from_bits(self.port_descriptors@[i]) == Some(p.desc)
        &&& h.spec_lower() == p.lower_bound
        &&& h.spec_upper() == p.upper_bound
        &&& h.spec_flags() == spec_hint_field(p.hint)
        &&& h.spec_default() == p.default
    }

    /// This record is the flat form of `desc`.
    pub open spec fn is_marshaling_of<F>(&self, desc: &PluginDescriptor<F>) -> bool {
        &&& self.unique_id == desc.unique_id
        &&& self.label@ == spec_c_string(desc.label.spec_bytes())
        &&& self.properties == desc.properties.spec_bits()
        &&& self.name@ == spec_c_string(desc.name.spec_bytes())
        &&& self.maker@ == spec_c_string(desc.maker.spec_bytes())
        &&& self.copyright@ == spec_c_string(desc.copyright.spec_bytes())
        &&& self.port_count == desc.ports@.len()
        &&& self.port_descriptors@ == desc.ports@.map_values(|p: Port| p.desc.spec_bits())
        &&& self.port_names@.len() == desc.ports@.len()
        &&& forall|i: int|
            0 <= i < desc.ports@.len() ==> (#[trigger] self.port_names@[i])@ == spec_c_string(
                desc.ports@[i].name.spec_bytes(),
            )
        &&& self.port_range_hints@ == desc.ports@.map_values(|p: Port| spec_range_hint(p))
    }
}

/// Builds the flat record of `desc`. It fails, with the first string that a
/// NUL byte would cut short, exactly when the description is not
/// C-compatible.
pub fn marshal<F>(desc: &PluginDescriptor<F>) -> (r: Result<Descriptor, MarshalError>)
    ensures
        r is Ok <==> desc.spec_c_compatible(),
        r matches Ok(d) ==> d.is_marshaling_of(desc),
        r matches Err(e) ==> desc.spec_first_fault(e),
{
    let label = match c_string(desc.label) {
        Some(v) => v,
        None => return Err(MarshalError::NulInLabel),
    };
    let name = match c_string(desc.name) {
        Some(v) => v,
        None => return Err(MarshalError::NulInName),
    };
    let maker = match c_string(desc.maker) {
        Some(v) => v,
        None => return Err(MarshalError::NulInMaker),
    };
    let copyright = match c_string(desc.copyright) {
        Some(v) => v,
        None => return Err(MarshalError::NulInCopyright),
    };
    let n = desc.ports.len();
    let mut port_descriptors: Vec<i32> = Vec::new();
    let mut port_names: Vec<Vec<u8>> = Vec::new();
    let mut port_range_hints: Vec<PortRangeHint> = Vec::new();
    let mut i: usize = 0;
    while i < n
        invariant
            n == desc.ports@.len(),
            0 <= i <= n,
            !has_nul(desc.label),
            !has_nul(desc.name),
            !has_nul(desc.maker),
            !has_nul(desc.copyright),
            port_descriptors@.len() == i,
            port_names@.len() == i,
            port_range_hints@.len() == i,
            forall|j: int| 0 <= j < i ==> !has_nul(#[trigger] desc.ports@[j].name),
            forall|j: int|
                0 <= j < i ==> #[trigger] port_descriptors@[j] == desc.ports@[j].desc.spec_bits(),
            forall|j: int|
                0 <= j < i ==> (#[trigger] port_names@[j])@ == spec_c_string(
                    desc.ports@[j].name.spec_bytes(),
                ),
            forall|j: int|
                0 <= j < i ==> #[trigger] port_range_hints@[j] == spec_range_hint(desc.ports@[j]),
        decreases n - i,
    {
        let port = desc.ports[i];
        let port_name = match c_string(port.name) {
            Some(v) => v,
            None => return Err(MarshalError::NulInPortName(i)),
        };
        port_descriptors.push(port.desc.bits());
        port_names.push(port_name);
        port_range_hints.push(PortRangeHint::from_port(&port));
        i += 1;
    }
    proof {
        assert(port_descriptors@ =~= desc.ports@.map_values(|p: Port| p.desc.spec_bits()));
        assert(port_range_hints@ =~= desc.ports@.map_values(|p: Port| spec_range_hint(p)));
    }
    Ok(
        Descriptor {
            unique_id: desc.unique_id,
            label,
            properties: desc.properties.bits(),
            name,
            maker,
            copyright,
            port_count: n as u64,
            port_descriptors,
            port_names,
            port_range_hints,
        },
    )
}

/// What a request for a descriptor yields from the plugin lookup's answer:
/// the flat record, kept beside the description it was made from, or
/// nothing when the lookup found no plugin or its description cannot be
/// marshaled. Nothing is ever half built.
pub fn marshal_fetched<F>(fetched: Option<PluginDescriptor<F>>) -> (r: Option<
    (Descriptor, PluginDescriptor<F>),
>)
    ensures
        r is Some <==> (fetched matches Some(p) && p.spec_c_compatible()),
        r matches Some(pair) ==> fetched == Some(pair.1) && pair.0.is_marshaling_of(&pair.1),
{
    match fetched {
        Some(desc) => match marshal(&desc) {
            Ok(d) => Some((d, desc)),
            Err(_) => None,
        },
        None => None,
    }
}

/// Round trip: a host that reads a marshaled record back by the encoding
/// rules gets every string, port kind, hint, default and bound of the
/// description unchanged, and reads an absent bound as absent.
pub proof fn lemma_marshal_round_trip<F>(desc: &PluginDescriptor<F>, d: &Descriptor)
    requires
        desc.spec_c_compatible(),
        d.is_marshaling_of(desc),
    ensures
        d.unique_id == desc.unique_id,
        d.properties == desc.properties.spec_bits(),
        c_string_content(d.label@) == desc.label.spec_bytes(),
        c_string_content(d.name@) == desc.name.spec_bytes(),
        c_string_content(d.maker@) == desc.maker.spec_bytes(),
        c_string_content(d.copyright@) == desc.copyright.spec_bytes(),
        d.port_count == desc.ports@.len(),
        forall|i: int|
            0 <= i < desc.ports@.len() ==> #[trigger] d.port_reads_back(i, desc.ports@[i]),
{
    lemma_c_string_content(desc.label.spec_bytes());
    lemma_c_string_content(desc.name.spec_bytes());
    lemma_c_string_content(desc.maker.spec_bytes());
    lemma_c_string_content(desc.copyright.spec_bytes());
    assert forall|i: int| 0 <= i < desc.ports@.len() implies #[trigger] d.port_reads_back(
        i,
        desc.ports@[i],
    ) by {
        let p = desc.ports@[i];
        assert(!has_nul(p.name));
        lemma_c_string_content(p.name.spec_bytes());
        p.desc.lemma_bits_round_trip();
        lemma_range_hint_round_trip(p);
        assert(d.port_descriptors@[i] == p.desc.spec_bits());
        assert(d.port_range_hints@[i] == spec_range_hint(p));
    }
}

} // verus!
