//! A synchronous, defensive boundary in front of an asynchronous port-mapping
//! service: every input is validated before the service is reached, and every
//! failure ends up as a message in the caller's error channel.

pub mod error;
pub mod text;
pub mod address;
pub mod mapping;
pub mod port;
pub mod log;
pub mod laws;

pub use address::{ContainerNetwork, SocketAddress};
pub use error::{BoundaryError, ErrorChannel, ErrorKind};
pub use log::log_init;
pub use mapping::{NativePortMapping, PortMapping, PortMappings};
pub use port::{
    port_manager_add, port_manager_destroy, port_manager_new, port_manager_remove, Manager,
    ServiceFailure,
};
