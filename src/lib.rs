//! Safe plugin bridge for the LADSPA host interface.
//!
//! The library turns a typed plugin description into the flat record a host
//! reads, keeps the process-wide table of those records, and tracks the
//! port bindings of each running instance.
pub mod abi;
pub mod instance;
pub mod marshal;
pub mod port;
pub mod registry;

pub use instance::{ConnectError, InstanceState, Lifecycle, PortBinding};
pub use marshal::{c_string, marshal, marshal_fetched, Descriptor, MarshalError, PortRangeHint};
pub use port::{ControlHint, DefaultValue, PluginDescriptor, Port, PortDescriptor, Properties};
pub use registry::{init_once, Registry};
