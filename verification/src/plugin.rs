//! Plugin-facing data types: the descriptor snapshot taken at load time,
//! the event envelope fanned out to plugins, the error taxonomy of the
//! host, and the tagged value returned by guest calls.

use vstd::prelude::*;
use vstd::string::StringExecFns;

use crate::asset::AssetRecord;
use crate::json::JsonValue;

verus! {

/// Metadata snapshot of one loaded plugin, taken once when its entry
/// script is evaluated.
pub struct PluginInfo {
    /// Plugin name; the registry key.
    pub name: String,
    /// Declared version.
    pub version: String,
    /// Declared author, if any.
    pub author: Option<String>,
    /// Declared description, if any.
    pub description: Option<String>,
    /// Directory the plugin was loaded from; never changes after load.
    pub path: String,
    /// Whether events are delivered to this plugin.
    pub enabled: bool,
}

impl Clone for PluginInfo {
    fn clone(&self) -> (r: Self)
        ensures
            r == *self,
    {
        PluginInfo {
            name: self.name.clone(),
            version: self.version.clone(),
            author: match &self.author {
                Option::Some(a) => Option::Some(a.clone()),
                Option::None => Option::None,
            },
            description: match &self.description {
                Option::Some(d) => Option::Some(d.clone()),
                Option::None => Option::None,
            },
            path: self.path.clone(),
            enabled: self.enabled,
        }
    }
}

/// Domain and lifecycle events the host broadcasts to plugins.
pub enum PluginEvent {
    /// An asset was created; carries the new record.
    AssetCreated(AssetRecord),
    /// An asset was updated; carries the new record.
    AssetUpdated(AssetRecord),
    /// An asset was deleted; carries its identifier as text.
    AssetDeleted(String),
    /// The application finished starting.
    AppStarted,
    /// The application is about to close.
    AppClosing,
    /// A host-defined event with a free-form payload.
    Custom(String, JsonValue),
}

/// The plugin host's error taxonomy.
#[derive(Debug)]
pub enum PluginError {
    /// A plugin, entry file or guest function was absent. For guest
    /// functions this is routine, not a failure.
    NotFound(String),
    /// The entry script could not be evaluated to a descriptor table.
    LoadError(String),
    /// A located guest function failed while executing.
    LuaError(String),
    /// A filesystem operation failed.
    IoError(String),
    /// The plugin exists but is disabled.
    Disabled(String),
}

impl PluginError {
    /// The diagnostic line of each error kind.
    pub open spec fn message_spec(self) -> Seq<char> {
        match self {
            PluginError::NotFound(s) => "Plugin not found: "@ + s@,
            PluginError::LoadError(s) => "Plugin load error: "@ + s@,
            PluginError::LuaError(s) => "Lua error: "@ + s@,
            PluginError::IoError(s) => "IO error: "@ + s@,
            PluginError::Disabled(s) => "Plugin disabled: "@ + s@,
        }
    }

    /// Renders the diagnostic line for this error.
    pub fn message(&self) -> (r: String)
        ensures
            r@ == self.message_spec(),
    {
        let mut out = String::new();
        match self {
            PluginError::NotFound(s) => {
                out.append("Plugin not found: ");
                out.append(s.as_str());
            },
            PluginError::LoadError(s) => {
                out.append("Plugin load error: ");
                out.append(s.as_str());
            },
            PluginError::LuaError(s) => {
                out.append("Lua error: ");
                out.append(s.as_str());
            },
            PluginError::IoError(s) => {
                out.append("IO error: ");
                out.append(s.as_str());
            },
            PluginError::Disabled(s) => {
                out.append("Plugin disabled: ");
                out.append(s.as_str());
            },
        }
        out
    }

    /// Whether this is the routine "not found" kind.
    pub fn is_not_found(&self) -> (r: bool)
        ensures
            r == (self matches PluginError::NotFound(_)),
    {
        match self {
            PluginError::NotFound(_) => true,
            _ => false,
        }
    }
}

/// A tagged value handed back by a guest call: the dynamic boundary is
/// crossed with one self-describing type rather than static typing.
pub enum ScriptValue {
    /// Lua `nil`, or a call that returned nothing.
    Nil,
    /// A boolean.
    Boolean(bool),
    /// An integer.
    Integer(i64),
    /// A string; other scalar results are rendered to text.
    Text(String),
}

/// Descriptor fields of one plugin, shaped for the command layer.
pub struct PluginInfoResponse {
    pub name: String,
    pub version: String,
    pub author: Option<String>,
    pub description: Option<String>,
    pub enabled: bool,
}

impl PluginInfoResponse {
    /// The response row describing a registered plugin.
    pub fn of_info(info: &PluginInfo) -> (r: Self)
        ensures
            r.name == info.name,
            r.version == info.version,
            r.author == info.author,
            r.description == info.description,
            r.enabled == info.enabled,
    {
        let c = info.clone();
        PluginInfoResponse {
            name: c.name,
            version: c.version,
            author: c.author,
            description: c.description,
            enabled: c.enabled,
        }
    }
}

} // verus!
