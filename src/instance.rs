//! The state of one running plugin instance: which memory the host has
//! connected to each port, and where the instance is in its lifecycle.
use vstd::prelude::*;
use vstd::set_lib::{lemma_len_subset, lemma_subset_equality};

use vec_map::VecMap;

use crate::port::{Port, PortDescriptor};

verus! {

#[verifier::external_type_specification]
#[verifier::external_body]
#[verifier::reject_recursive_types(V)]
pub struct ExVecMap<V>(VecMap<V>);

/// The memory a host connected to one port: the address of the host's
/// buffer or value and, for audio, the number of samples the current block
/// holds. The host owns that memory; the library only records where it is.
#[derive(Clone, Copy, Debug, PartialEq, Eq, Structural)]
pub enum PortBinding {
    AudioInput { location: usize, len: usize },
    AudioOutput { location: usize, len: usize },
    ControlInput { location: usize },
    ControlOutput { location: usize },
}

impl PortBinding {
    /// The kind of port this binding serves.
    pub open spec fn spec_kind(self) -> PortDescriptor {
        match self {
            PortBinding::AudioInput { .. } => PortDescriptor::AudioInput,
            PortBinding::AudioOutput { .. } => PortDescriptor::AudioOutput,
            PortBinding::ControlInput { .. } => PortDescriptor::ControlInput,
            PortBinding::ControlOutput { .. } => PortDescriptor::ControlOutput,
        }
    }

    /// The address the host gave.
    pub open spec fn spec_location(self) -> usize {
        match self {
            PortBinding::AudioInput { location, .. } => location,
            PortBinding::AudioOutput { location, .. } => location,
            PortBinding::ControlInput { location } => location,
            PortBinding::ControlOutput { location } => location,
        }
    }

    /// Returns the address the host gave.
    pub fn location(&self) -> (r: usize)
        ensures
            r == self.spec_location(),
    {
        match self {
            PortBinding::AudioInput { location, .. } => *location,
            PortBinding::AudioOutput { location, .. } => *location,
            PortBinding::ControlInput { location } => *location,
            PortBinding::ControlOutput { location } => *location,
        }
    }
}

/// The binding made when a host connects `location` to a port of kind
/// `kind`: audio views start empty, since the block size is not known until
/// the next run; control views are the single value at `location`.
pub open spec fn spec_fresh_binding(kind: PortDescriptor, location: usize) -> PortBinding {
    match kind {
        PortDescriptor::AudioInput => PortBinding::AudioInput { location, len: 0 },
        PortDescriptor::AudioOutput => PortBinding::AudioOutput { location, len: 0 },
        PortDescriptor::ControlInput => PortBinding::ControlInput { location },
        _ => PortBinding::ControlOutput { location },
    }
}

/// A binding resized to a block of `sample_count` samples: audio views span
/// the block, control views stay as they are.
pub open spec fn spec_resized(b: PortBinding, sample_count: usize) -> PortBinding {
    match b {
        PortBinding::AudioInput { location, .. } => PortBinding::AudioInput {
            location,
            len: sample_count,
        },
        PortBinding::AudioOutput { location, .. } => PortBinding::AudioOutput {
            location,
            len: sample_count,
        },
        _ => b,
    }
}

/// The bindings after a connect of `location` to port `index`: the new
/// binding replaces any earlier one at that index.
pub open spec fn spec_connect(
    bindings: Map<usize, PortBinding>,
    kinds: Seq<PortDescriptor>,
    index: usize,
    location: usize,
) -> Map<usize, PortBinding> {
    bindings.insert(index, spec_fresh_binding(kinds[index as int], location))
}

/// The bindings at the start of a run over `sample_count` samples.
pub open spec fn spec_refresh(bindings: Map<usize, PortBinding>, sample_count: usize) -> Map<
    usize,
    PortBinding,
> {
    bindings.map_values(|b: PortBinding| spec_resized(b, sample_count))
}

/// Every one of the `n` ports has a binding.
pub open spec fn spec_complete(bindings: Map<usize, PortBinding>, n: nat) -> bool {
    forall|k: usize| k < n ==> #[trigger] bindings.contains_key(k)
}

/// The ports list that plugin code sees: the binding of each port in port
/// order once every port is bound, and nothing before that.
pub open spec fn spec_ports(bindings: Map<usize, PortBinding>, n: nat) -> Seq<PortBinding> {
    if spec_complete(bindings, n) {
        Seq::new(n, |i: int| bindings[i as usize])
    } else {
        Seq::empty()
    }
}

/// Resizes a binding to a block of `sample_count` samples.
pub fn resized(b: PortBinding, sample_count: usize) -> (r: PortBinding)
    ensures
        r == spec_resized(b, sample_count),
{
    match b {
        PortBinding::AudioInput { location, .. } => PortBinding::AudioInput {
            location,
            len: sample_count,
        },
        PortBinding::AudioOutput { location, .. } => PortBinding::AudioOutput {
            location,
            len: sample_count,
        },
        _ => b,
    }
}

/// Rebinding replaces rather than merges: connecting a port a second time
/// leaves exactly what a single connect of the second location leaves, and
/// the run that follows sees the second location only, in the bindings and
/// in the ports list handed to plugin code.
pub proof fn lemma_rebind_replaces(
    bindings: Map<usize, PortBinding>,
    kinds: Seq<PortDescriptor>,
    index: usize,
    first: usize,
    second: usize,
    sample_count: usize,
)
    requires
        index < kinds.len(),
    ensures
        spec_connect(spec_connect(bindings, kinds, index, first), kinds, index, second)
            == spec_connect(bindings, kinds, index, second),
        spec_refresh(
            spec_connect(spec_connect(bindings, kinds, index, first), kinds, index, second),
            sample_count,
        )[index].spec_location() == second,
        spec_complete(spec_connect(bindings, kinds, index, second), kinds.len()) ==> spec_ports(
            spec_refresh(
                spec_connect(spec_connect(bindings, kinds, index, first), kinds, index, second),
                sample_count,
            ),
            kinds.len(),
        )[index as int].spec_location() == second,
{
    let twice = spec_connect(spec_connect(bindings, kinds, index, first), kinds, index, second);
    let once = spec_connect(bindings, kinds, index, second);
    assert(twice =~= once);
    let run = spec_refresh(twice, sample_count);
    assert(run.contains_key(index));
    if spec_complete(once, kinds.len()) {
        assert forall|k: usize| k < kinds.len() implies #[trigger] run.contains_key(k) by {
            assert(once.contains_key(k));
        }
    }
}

/// No port bound at all.
pub open spec fn spec_no_bindings() -> Map<usize, PortBinding> {
    Map::empty()
}

/// What the port table holds: the binding of each bound port.
pub uninterp spec fn bound_ports(m: VecMap<PortBinding>) -> Map<usize, PortBinding>;

/// Relies on `VecMap::new`: a new map holds no entry.
#[verifier::external_body]
fn port_map_new() -> (r: VecMap<PortBinding>)
    ensures
        bound_ports(r) == spec_no_bindings(),
{
    VecMap::new()
}

/// Relies on `VecMap::insert`: afterwards `key` maps to `value` and every
/// other entry is unchanged. It grows its vector to `key + 1` slots
/// (`key - len + 1` more), so `key` must be below `usize::MAX`.
#[verifier::external_body]
fn port_map_insert(m: &mut VecMap<PortBinding>, key: usize, value: PortBinding)
    requires
        key < usize::MAX,
    ensures
        bound_ports(*final(m)) == bound_ports(*old(m)).insert(key, value),
{
    m.insert(key, value);
}

/// Relies on `VecMap::get`: the value stored at `key`, if any.
#[verifier::external_body]
fn port_map_get(m: &VecMap<PortBinding>, key: usize) -> (r: Option<PortBinding>)
    ensures
        r == (if bound_ports(*m).contains_key(key) {
            Some(bound_ports(*m)[key])
        } else {
            None
        }),
{
    m.get(key).copied()
}

/// Relies on `VecMap::len`: the number of keys that hold a value.
#[verifier::external_body]
fn port_map_len(m: &VecMap<PortBinding>) -> (r: usize)
    ensures
        r == bound_ports(*m).len(),
{
    m.len()
}

/// Where an instance is in its lifecycle.
#[derive(Clone, Copy, Debug, PartialEq, Eq, Structural)]
pub enum Lifecycle {
    /// Made, never activated.
    Created,
    /// Activated, so runs may follow.
    Active,
    /// Deactivated; a new activation may follow.
    Inactive,
}

/// Why a host's connect call was refused.
#[derive(Clone, Copy, Debug, PartialEq, Eq, Structural)]
pub enum ConnectError {
    /// The plugin declares no port at this index.
    PortOutOfRange,
    /// The port at this index was never given a kind.
    InvalidPort,
}

/// The per-instance state behind a host's handle: the kind of each declared
/// port, the binding of each connected port, and the lifecycle flag.
pub struct InstanceState {
    kinds: Vec<PortDescriptor>,
    port_map: VecMap<PortBinding>,
    lifecycle: Lifecycle,
}

impl InstanceState {
    #[verifier::type_invariant]
    spec fn wf(self) -> bool {
        &&& forall|k: usize| #[trigger]
            bound_ports(self.port_map).contains_key(k) ==> k < self.kinds@.len()
        &&& forall|k: usize| #[trigger]
            bound_ports(self.port_map).contains_key(k) ==> bound_ports(self.port_map)[k].spec_kind()
                == self.kinds@[k as int]
    }

    /// The kind of each declared port, in port order.
    pub closed spec fn spec_kinds(&self) -> Seq<PortDescriptor> {
        self.kinds@
    }

    /// The binding of each connected port.
    pub closed spec fn spec_bindings(&self) -> Map<usize, PortBinding> {
        bound_ports(self.port_map)
    }

    /// Where the instance is in its lifecycle.
    pub closed spec fn spec_lifecycle(&self) -> Lifecycle {
        self.lifecycle
    }

    /// The state of a new instance of a plugin with these ports: nothing
    /// connected, never activated.
    pub fn new(ports: &Vec<Port>) -> (r: InstanceState)
        ensures
            r.spec_kinds() == ports@.map_values(|p: Port| p.desc),
            r.spec_bindings() == spec_no_bindings(),
            r.spec_lifecycle() == Lifecycle::Created,
    {
        let mut kinds: Vec<PortDescriptor> = Vec::new();
        let mut i: usize = 0;
        while i < ports.len()
            invariant
                0 <= i <= ports@.len(),
                kinds@ == ports@.subrange(0, i as int).map_values(|p: Port| p.desc),
            decreases ports@.len() - i,
        {
            kinds.push(ports[i].desc);
            i += 1;
            proof {
                assert(ports@.subrange(0, i as int).map_values(|p: Port| p.desc) =~= ports@.subrange(
                    0,
                    i - 1,
                ).map_values(|p: Port| p.desc).push(ports@[i - 1].desc));
            }
        }
        proof {
            assert(ports@.subrange(0, i as int) =~= ports@);
        }
        InstanceState { kinds, port_map: port_map_new(), lifecycle: Lifecycle::Created }
    }

    /// The number of declared ports.
    pub fn port_count(&self) -> (r: usize)
        ensures
            r == self.spec_kinds().len(),
    {
        self.kinds.len()
    }

    /// Connects the host memory at `location` to port `index`, replacing any
    /// earlier binding of that port. An index past the declared ports, or a
    /// port that was never given a kind, is refused and changes nothing.
    pub fn connect(&mut self, index: u64, location: usize) -> (r: Result<(), ConnectError>)
        ensures
            final(self).spec_kinds() == old(self).spec_kinds(),
            final(self).spec_lifecycle() == old(self).spec_lifecycle(),
            index >= old(self).spec_kinds().len() ==> r matches Err(ConnectError::PortOutOfRange),
            index < old(self).spec_kinds().len() && old(self).spec_kinds()[index as int]
                == PortDescriptor::Invalid ==> r matches Err(ConnectError::InvalidPort),
            index < old(self).spec_kinds().len() && old(self).spec_kinds()[index as int]
                != PortDescriptor::Invalid ==> r is Ok,
            r is Err ==> final(self).spec_bindings() == old(self).spec_bindings(),
            r is Ok ==> index < old(self).spec_kinds().len() && final(self).spec_bindings()
                == spec_connect(
                old(self).spec_bindings(),
                old(self).spec_kinds(),
                index as usize,
                location,
            ),
    {
        proof {
            use_type_invariant(&*self);
        }
        let n = self.kinds.len();
        if index >= n as u64 {
            return Err(ConnectError::PortOutOfRange);
        }
        let k = index as usize;
        let binding = match self.kinds[k] {
            PortDescriptor::Invalid => return Err(ConnectError::InvalidPort),
            PortDescriptor::AudioInput => PortBinding::AudioInput { location, len: 0 },
            PortDescriptor::AudioOutput => PortBinding::AudioOutput { location, len: 0 },
            PortDescriptor::ControlInput => PortBinding::ControlInput { location },
            PortDescriptor::ControlOutput => PortBinding::ControlOutput { location },
        };
        let mut port_map = port_map_new();
        std::mem::swap(&mut port_map, &mut self.port_map);
        port_map_insert(&mut port_map, k, binding);
        self.port_map = port_map;
        Ok(())
    }

    /// With the bound keys all below `n`, counting them tells whether every
    /// port is bound.
    proof fn lemma_count_decides_complete(bindings: Map<usize, PortBinding>, n: usize)
        requires
            forall|k: usize| #[trigger] bindings.contains_key(k) ==> k < n,
        ensures
            bindings.dom().finite(),
            (bindings.len() == n) == spec_complete(bindings, n as nat),
    {
        let all = Set::<usize>::range(0, n);
        vstd::set_lib::range_set_properties::<usize>(0, n);
        assert(bindings.dom().subset_of(all));
        lemma_len_subset(bindings.dom(), all);
        if bindings.len() == n {
            lemma_subset_equality(bindings.dom(), all);
            assert forall|k: usize| k < n implies #[trigger] bindings.contains_key(k) by {
                assert(all.contains(k));
            }
        }
        if spec_complete(bindings, n as nat) {
            assert(bindings.dom() =~= all);
        }
    }

    /// Whether every declared port has been bound at least once.
    pub fn is_complete(&self) -> (r: bool)
        ensures
            r == spec_complete(self.spec_bindings(), self.spec_kinds().len()),
    {
        let n = self.kinds.len();
        proof {
            use_type_invariant(self);
            Self::lemma_count_decides_complete(bound_ports(self.port_map), n);
        }
        port_map_len(&self.port_map) == n
    }

    /// The ports list that plugin code sees: every binding in port order
    /// once every port is bound, and an empty list before that.
    pub fn ports(&self) -> (r: Vec<PortBinding>)
        ensures
            r@ == spec_ports(self.spec_bindings(), self.spec_kinds().len()),
    {
        let mut out: Vec<PortBinding> = Vec::new();
        if !self.is_complete() {
            return out;
        }
        let n = self.kinds.len();
        let mut k: usize = 0;
        while k < n
            invariant
                n == self.kinds@.len(),
                0 <= k <= n,
                spec_complete(bound_ports(self.port_map), n as nat),
                out@.len() == k,
                forall|j: int| 0 <= j < k ==> #[trigger] out@[j] == bound_ports(self.port_map)[j as usize],
            decreases n - k,
        {
            match port_map_get(&self.port_map, k) {
                Some(b) => out.push(b),
                None => {
                    assert(bound_ports(self.port_map).contains_key(k));
                },
            }
            k += 1;
        }
        proof {
            assert(out@ =~= spec_ports(bound_ports(self.port_map), n as nat));
        }
        out
    }

    /// Prepares a run over `sample_count` samples: every audio binding is
    /// resized to the block, from the location already bound, and the ports
    /// list for plugin code is rebuilt from the resized bindings.
    pub fn prepare_run(&mut self, sample_count: usize) -> (r: Vec<PortBinding>)
        ensures
            final(self).spec_kinds() == old(self).spec_kinds(),
            final(self).spec_lifecycle() == old(self).spec_lifecycle(),
            final(self).spec_bindings() == spec_refresh(old(self).spec_bindings(), sample_count),
            r@ == spec_ports(final(self).spec_bindings(), final(self).spec_kinds().len()),
    {
        proof {
            use_type_invariant(&*self);
        }
        let ghost before = bound_ports(self.port_map);
        let mut port_map = port_map_new();
        std::mem::swap(&mut port_map, &mut self.port_map);
        let n = self.kinds.len();
        let mut k: usize = 0;
        while k < n
            invariant
                n == self.kinds@.len(),
                0 <= k <= n,
                forall|j: usize| #[trigger] before.contains_key(j) ==> j < n,
                forall|j: usize| #[trigger]
                    before.contains_key(j) ==> before[j].spec_kind() == self.kinds@[j as int],
                bound_ports(port_map).dom() == before.dom(),
                forall|j: usize|
                    #[trigger] before.contains_key(j) ==> bound_ports(port_map)[j] == if j < k {
                        spec_resized(before[j], sample_count)
                    } else {
                        before[j]
                    },
            decreases n - k,
        {
            match port_map_get(&port_map, k) {
                Some(b) => {
                    let ghost prev = bound_ports(port_map);
                    port_map_insert(&mut port_map, k, resized(b, sample_count));
                    proof {
                        assert(bound_ports(port_map).dom() =~= prev.dom());
                    }
                },
                None => {},
            }
            k += 1;
        }
        proof {
            assert(bound_ports(port_map) =~= spec_refresh(before, sample_count));
        }
        self.port_map = port_map;
        self.ports()
    }

    /// Marks the instance active: the host has called activate.
    pub fn activate(&mut self)
        ensures
            final(self).spec_kinds() == old(self).spec_kinds(),
            final(self).spec_bindings() == old(self).spec_bindings(),
            final(self).spec_lifecycle() == Lifecycle::Active,
    {
        proof {
            use_type_invariant(&*self);
        }
        self.lifecycle = Lifecycle::Active;
    }

    /// Marks the instance inactive: the host has called deactivate.
    pub fn deactivate(&mut self)
        ensures
            final(self).spec_kinds() == old(self).spec_kinds(),
            final(self).spec_bindings() == old(self).spec_bindings(),
            final(self).spec_lifecycle() == Lifecycle::Inactive,
    {
        proof {
            use_type_invariant(&*self);
        }
        self.lifecycle = Lifecycle::Inactive;
    }

    /// Where the instance is in its lifecycle.
    pub fn lifecycle(&self) -> (r: Lifecycle)
        ensures
            r == self.spec_lifecycle(),
    {
        self.lifecycle
    }
}

} // verus!
