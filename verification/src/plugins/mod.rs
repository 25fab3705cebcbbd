//! Plugin descriptors, the registry that stores them and the manager that
//! drives their lifecycle.

pub mod ids;
pub mod info;
pub mod laws;
pub mod manager;
pub mod model;
pub mod registry;
pub mod table;

pub use info::{PluginInfo, PluginInfoView};
pub use manager::{LoadTicket, PluginManager, UnloadTicket};
pub use model::{ArtifactKind, Backing, HandleView, ManagerView, Phase};
pub use registry::Registry;
