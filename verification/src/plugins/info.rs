//! The registry's record of one loaded plugin.

use vstd::prelude::*;

verus! {

/// Identity record of a registered plugin.
#[derive(Debug)]
pub struct PluginInfo {
    /// Unique within the registry.
    pub id: String,
    pub name: String,
    pub version: String,
    pub enabled: bool,
    /// Where the plugin artifact came from.
    pub path: String,
}

/// What a [`PluginInfo`] says, as plain text.
pub struct PluginInfoView {
    pub id: Seq<char>,
    pub name: Seq<char>,
    pub version: Seq<char>,
    pub enabled: bool,
    pub path: Seq<char>,
}

impl View for PluginInfo {
    type V = PluginInfoView;

    open spec fn view(&self) -> PluginInfoView {
        PluginInfoView {
            id: self.id@,
            name: self.name@,
            version: self.version@,
            enabled: self.enabled,
            path: self.path@,
        }
    }
}

impl Clone for PluginInfo {
    fn clone(&self) -> (copy: Self)
        ensures
            copy == *self,
    {
        PluginInfo {
            id: self.id.clone(),
            name: self.name.clone(),
            version: self.version.clone(),
            enabled: self.enabled,
            path: self.path.clone(),
        }
    }
}

} // verus!
