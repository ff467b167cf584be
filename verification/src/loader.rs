//! One sandboxed interpreter session per plugin.
//!
//! A session owns a single embedded Lua state whose dangerous globals are
//! removed before any plugin code runs, evaluates one entry script into a
//! descriptor snapshot, and exposes named-function invocation. Every call
//! into the interpreter goes through a trusted wrapper; everything around
//! the calls — defaulting of descriptor fields, error classification, the
//! shape of results — is verified.

use vstd::prelude::*;
use vstd::string::StringExecFns;

use crate::plugin::PluginError;
use crate::plugin::PluginInfo;
use crate::plugin::ScriptValue;

verus! {

#[verifier::external_type_specification]
#[verifier::external_body]
pub struct ExLua(mlua::Lua);

#[verifier::external_type_specification]
#[verifier::external_body]
pub struct ExTable(mlua::Table);

#[verifier::external_type_specification]
#[verifier::external_body]
pub struct ExFunction(mlua::Function);

#[verifier::external_type_specification]
#[verifier::external_body]
pub struct ExLuaError(mlua::Error);

/// Relies on `mlua::Lua::new`: a fresh interpreter state with only the
/// safe subset of the Lua standard libraries loaded.
#[verifier::external_body]
fn lua_new() -> mlua::Lua {
    mlua::Lua::new()
}

/// Relies on `mlua::Lua::globals` and `mlua::Table::set`: sets the named
/// global of the interpreter to `nil`, removing it from every script's
/// reach.
#[verifier::external_body]
fn lua_clear_global(lua: &mlua::Lua, name: &str) -> Result<(), mlua::Error> {
    lua.globals().set(name, mlua::Value::Nil)
}

/// Relies on `mlua::Lua::create_function`, `mlua::Lua::globals` and
/// `mlua::Table::set`: installs under the given name a host function that
/// accepts any arguments, discards them, and returns nothing.
#[verifier::external_body]
fn lua_install_sink(lua: &mlua::Lua, name: &str) -> Result<(), mlua::Error> {
    let f = lua.create_function(|_, _args: mlua::Variadic<mlua::Value>| Ok(()))?;
    lua.globals().set(name, f)
}

/// Relies on `mlua::Lua::load` and `mlua::Chunk::eval`: evaluates the
/// source as a chunk and returns its result when that result is a table,
/// and an error otherwise.
#[verifier::external_body]
fn lua_eval_table(lua: &mlua::Lua, code: &str) -> Result<mlua::Table, mlua::Error> {
    lua.load(code).eval::<mlua::Table>()
}

/// Relies on `mlua::Table::get`: the value of the given key when it exists
/// and converts to a string, and `None` otherwise.
#[verifier::external_body]
fn lua_table_get_string(t: &mlua::Table, key: &str) -> Option<String> {
    t.get::<String>(key).ok()
}

/// Relies on `mlua::Lua::globals` and `mlua::Table::get`: the global of
/// the given name when it exists and is a function, and `None` otherwise.
#[verifier::external_body]
fn lua_get_global_function(lua: &mlua::Lua, name: &str) -> Option<mlua::Function> {
    lua.globals().get::<mlua::Function>(name).ok()
}

/// Relies on `mlua::Function::call`: invokes the guest function with no
/// argument or one string argument, and converts the first returned value
/// to the host's tagged type (strings and numbers to text or integer,
/// anything else to nil).
#[verifier::external_body]
fn lua_call(f: &mlua::Function, arg: Option<&str>) -> Result<ScriptValue, mlua::Error> {
    let v: mlua::Value = match arg {
        None => f.call(())?,
        Some(s) => f.call(s)?,
    };
    Ok(match v {
        mlua::Value::Nil => ScriptValue::Nil,
        mlua::Value::Boolean(b) => ScriptValue::Boolean(b),
        mlua::Value::Integer(i) => ScriptValue::Integer(i),
        mlua::Value::Number(n) => ScriptValue::Text(format!("{}", n)),
        mlua::Value::String(s) => ScriptValue::Text(s.to_string_lossy()),
        _ => ScriptValue::Nil,
    })
}

/// Relies on `mlua::Error`'s display implementation: the diagnostic text
/// of an interpreter error.
#[verifier::external_body]
fn lua_error_text(e: &mlua::Error) -> String {
    format!("{}", e)
}

/// Wraps an interpreter error in the host's error taxonomy.
fn interpreter_error(e: &mlua::Error) -> (r: PluginError)
    ensures
        r matches PluginError::LuaError(_),
{
    PluginError::LuaError(lua_error_text(e))
}

/// The dangerous globals removed from every session before plugin code
/// runs: process/filesystem access and arbitrary file loading.
pub open spec fn removed_globals() -> Seq<Seq<char>> {
    seq!["os"@, "io"@, "loadfile"@, "dofile"@]
}

/// The removed globals as runtime values: exactly the names that
/// `removed_globals` lists, in the same order. `PluginLoader::new` clears
/// each of them.
pub fn removed_global_names() -> (r: Vec<&'static str>)
    ensures
        r@.len() == removed_globals().len(),
        forall|k: int| 0 <= k < r@.len() ==> (#[trigger] r@[k])@ == removed_globals()[k],
{
    let mut names: Vec<&'static str> = Vec::new();
    names.push("os");
    names.push("io");
    names.push("loadfile");
    names.push("dofile");
    names
}

/// One plugin's sandboxed interpreter session. The capability surface is
/// fixed by `new` and never widened afterwards.
pub struct PluginLoader {
    lua: mlua::Lua,
}

/// The descriptor snapshot built from the fields a plugin's entry script
/// declared: absent or mistyped metadata falls back to defaults and is
/// never an error; the plugin starts enabled; the source path is recorded
/// as given.
pub fn descriptor_of_fields(
    dir: &str,
    name: Option<String>,
    version: Option<String>,
    author: Option<String>,
    description: Option<String>,
) -> (r: PluginInfo)
    ensures
        r.name@ == (match name {
            Option::Some(n) => n@,
            Option::None => "Unknown"@,
        }),
        r.version@ == (match version {
            Option::Some(v) => v@,
            Option::None => "0.0.0"@,
        }),
        r.author == author,
        r.description == description,
        r.path@ == dir@,
        r.enabled,
{
    let name_text = match name {
        Option::Some(n) => n,
        Option::None => "Unknown".to_owned(),
    };
    let version_text = match version {
        Option::Some(v) => v,
        Option::None => "0.0.0".to_owned(),
    };
    PluginInfo {
        name: name_text,
        version: version_text,
        author,
        description,
        path: dir.to_owned(),
        enabled: true,
    }
}

impl PluginLoader {
    /// Builds a fresh session: a new interpreter with every global of
    /// `removed_globals` cleared and the two safe bridge functions `log`
    /// and `print` installed. The restrictions are applied here, before
    /// any plugin code can run, and nothing re-widens them later.
    pub fn new() -> (r: Result<PluginLoader, PluginError>)
        ensures
            r matches Err(e) ==> e matches PluginError::LuaError(_),
    {
        let lua = lua_new();
        let names = removed_global_names();
        let mut i: usize = 0;
        while i < names.len()
            invariant
                i <= names@.len(),
            decreases names@.len() - i,
        {
            match lua_clear_global(&lua, names[i]) {
                Ok(_) => (),
                Err(e) => {
                    return Err(interpreter_error(&e));
                },
            }
            i = i + 1;
        }
        match lua_install_sink(&lua, "log") {
            Ok(_) => (),
            Err(e) => {
                return Err(interpreter_error(&e));
            },
        }
        match lua_install_sink(&lua, "print") {
            Ok(_) => (),
            Err(e) => {
                return Err(interpreter_error(&e));
            },
        }
        Ok(PluginLoader { lua })
    }

    /// Loads one plugin from its directory, the entry file's content
    /// having been read by the caller: `None` means the directory has no
    /// entry file, which is the one `NotFound` case of loading.
    pub fn load_from_dir(&self, plugin_dir: &str, entry: &Option<String>) -> (r: Result<
        PluginInfo,
        PluginError,
    >)
        ensures
            entry is None <==> (r matches Err(PluginError::NotFound(m)) && m@
                == "Plugin init.lua not found in "@ + plugin_dir@),
            r matches Err(PluginError::NotFound(_)) ==> entry is None,
            r matches Ok(info) ==> info.enabled && info.path@ == plugin_dir@,
            r matches Err(e) ==> (e matches PluginError::NotFound(_) || e
                matches PluginError::LoadError(_)),
    {
        match entry {
            Option::None => {
                let mut m = String::new();
                m.append("Plugin init.lua not found in ");
                m.append(plugin_dir);
                Err(PluginError::NotFound(m))
            },
            Option::Some(code) => self.load_plugin_code(code.as_str(), plugin_dir),
        }
    }

    /// Evaluates one entry script in this session and snapshots its
    /// descriptor. The script must evaluate to a table; its metadata
    /// fields are optional and default rather than fail.
    pub fn load_plugin_code(&self, code: &str, plugin_dir: &str) -> (r: Result<
        PluginInfo,
        PluginError,
    >)
        ensures
            r matches Ok(info) ==> info.enabled && info.path@ == plugin_dir@,
            r matches Err(e) ==> e matches PluginError::LoadError(_),
    {
        match lua_eval_table(&self.lua, code) {
            Err(e) => {
                let mut m = String::new();
                m.append("Failed to load plugin: ");
                let detail = lua_error_text(&e);
                m.append(detail.as_str());
                Err(PluginError::LoadError(m))
            },
            Ok(table) => {
                let name = lua_table_get_string(&table, "name");
                let version = lua_table_get_string(&table, "version");
                let author = lua_table_get_string(&table, "author");
                let description = lua_table_get_string(&table, "description");
                Ok(descriptor_of_fields(plugin_dir, name, version, author, description))
            },
        }
    }

    /// Invokes the global guest function of the given name, passing the
    /// payload if there is one. An absent function is the routine
    /// `NotFound` outcome — callers treat it as "hook unset" — and a
    /// failing function is an interpreter error; no other kind comes out.
    pub fn call_function(&self, func_name: &str, payload: Option<&str>) -> (r: Result<
        ScriptValue,
        PluginError,
    >)
        ensures
            r matches Err(e) ==> (e matches PluginError::NotFound(_) || e
                matches PluginError::LuaError(_)),
            r matches Err(PluginError::NotFound(n)) ==> n@ == func_name@,
    {
        match lua_get_global_function(&self.lua, func_name) {
            Option::None => Err(PluginError::NotFound(func_name.to_owned())),
            Option::Some(f) => match lua_call(&f, payload) {
                Ok(v) => Ok(v),
                Err(e) => Err(interpreter_error(&e)),
            },
        }
    }

    /// The raw interpreter handle of this session.
    pub fn lua(&self) -> &mlua::Lua {
        &self.lua
    }
}

} // verus!
