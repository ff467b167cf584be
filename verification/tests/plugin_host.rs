//! Tests for the sandboxed sessions and the plugin registry.

use asset_manager_core::asset::AssetRecord;
use asset_manager_core::asset::AssetType;
use asset_manager_core::asset::Currency;
use asset_manager_core::json::JsonValue;
use asset_manager_core::loader::descriptor_of_fields;
use asset_manager_core::loader::PluginLoader;
use asset_manager_core::manager::DispatchStatus;
use asset_manager_core::manager::PluginManager;
use asset_manager_core::plugin::PluginError;
use asset_manager_core::plugin::PluginEvent;
use asset_manager_core::plugin::PluginInfoResponse;
use asset_manager_core::plugin::ScriptValue;

fn load_src(mgr: &mut PluginManager, dir: &str, src: &str) {
    mgr.load_plugin(dir, &Some(src.to_string())).expect("plugin should load");
}

#[test]
fn test_plugin_loader_creation() {
    let loader = PluginLoader::new();
    assert!(loader.is_ok());
}

#[test]
fn test_simple_lua_code() {
    let loader = PluginLoader::new().unwrap();
    let result: i32 = loader.lua().load("return 1 + 1").eval().unwrap();
    assert_eq!(result, 2);
}

#[test]
fn missing_entry_is_not_found_and_registry_untouched() {
    let mut mgr = PluginManager::new("plugins");
    let r = mgr.load_plugin("plugins/ghost", &None);
    match r {
        Err(PluginError::NotFound(m)) => {
            assert_eq!(m, "Plugin init.lua not found in plugins/ghost");
        }
        _ => panic!("expected NotFound"),
    }
    assert_eq!(mgr.list_plugins().len(), 0);
}

#[test]
fn valid_script_yields_one_descriptor() {
    let mut mgr = PluginManager::new("plugins");
    load_src(
        &mut mgr,
        "plugins/x",
        "return { name = \"X\", version = \"1.0\" }",
    );
    let list = mgr.list_plugins();
    assert_eq!(list.len(), 1);
    assert_eq!(list[0].name, "X");
    assert_eq!(list[0].version, "1.0");
    assert!(list[0].enabled);
    assert_eq!(list[0].path, "plugins/x");
    assert!(list[0].author.is_none());
    assert!(list[0].description.is_none());
}

#[test]
fn duplicate_name_collapses_to_last_loaded() {
    let mut mgr = PluginManager::new("plugins");
    load_src(
        &mut mgr,
        "plugins/first",
        "function on_probe() error(\"old session still reachable\") end\n\
         return { name = \"dup\", version = \"1\" }",
    );
    load_src(
        &mut mgr,
        "plugins/second",
        "function on_probe() end\nreturn { name = \"dup\", version = \"2\" }",
    );
    let list = mgr.list_plugins();
    assert_eq!(list.len(), 1);
    assert_eq!(list[0].name, "dup");
    assert_eq!(list[0].version, "2");
    assert_eq!(list[0].path, "plugins/second");

    // The surviving session must be the second one: its probe hook
    // succeeds where the first session's would have failed.
    let report = mgr.broadcast_event(&PluginEvent::Custom("probe".to_string(), JsonValue::Null));
    assert_eq!(report.len(), 1);
    assert_eq!(report[0].plugin, "dup");
    assert_eq!(report[0].handler, "on_probe");
    assert!(matches!(report[0].status, DispatchStatus::Delivered));
}

#[test]
fn unload_unknown_is_not_found_and_registry_untouched() {
    let mut mgr = PluginManager::new("plugins");
    load_src(&mut mgr, "plugins/x", "return { name = \"X\" }");
    let r = mgr.unload_plugin("ghost");
    match r {
        Err(PluginError::NotFound(n)) => assert_eq!(n, "ghost"),
        _ => panic!("expected NotFound"),
    }
    let list = mgr.list_plugins();
    assert_eq!(list.len(), 1);
    assert_eq!(list[0].name, "X");

    assert!(mgr.unload_plugin("X").is_ok());
    assert_eq!(mgr.list_plugins().len(), 0);
}

const EXPECTED_ASSET_JSON: &str = "{\"id\":\"a-1\",\"name\":\"Gold bar\",\"asset_type\":\"precious_metal\",\"value\":2500,\"currency\":\"CNY\",\"description\":null,\"tags\":[\"metal\",\"safe\"],\"metadata\":{\"purity\":999},\"created_at\":\"2024-01-01T00:00:00Z\",\"updated_at\":\"2024-01-01T00:00:00Z\"}";

fn sample_asset() -> AssetRecord {
    AssetRecord {
        id: "a-1".to_string(),
        name: "Gold bar".to_string(),
        asset_type: AssetType::PreciousMetal,
        value: 2500,
        currency: Currency::CNY,
        description: None,
        tags: vec!["metal".to_string(), "safe".to_string()],
        metadata: JsonValue::Object(vec![("purity".to_string(), JsonValue::Number(999))]),
        created_at: "2024-01-01T00:00:00Z".to_string(),
        updated_at: "2024-01-01T00:00:00Z".to_string(),
    }
}

#[test]
fn disabled_plugin_is_not_invoked_enabled_one_gets_exact_payload() {
    let mut mgr = PluginManager::new("plugins");
    let alpha = format!(
        "local expected = [[{}]]\n\
         function on_asset_created(data) seen = data end\n\
         function on_check()\n\
           if seen ~= expected then error(\"payload mismatch: \" .. tostring(seen)) end\n\
         end\n\
         return {{ name = \"alpha\", version = \"1\" }}",
        EXPECTED_ASSET_JSON
    );
    load_src(&mut mgr, "plugins/alpha", &alpha);
    load_src(
        &mut mgr,
        "plugins/beta",
        "function on_asset_created(data) error(\"disabled plugin was invoked\") end\n\
         return { name = \"beta\" }",
    );
    mgr.set_plugin_enabled("beta", false).unwrap();

    let report = mgr.broadcast_event(&PluginEvent::AssetCreated(sample_asset()));
    assert_eq!(report.len(), 1);
    assert_eq!(report[0].plugin, "alpha");
    assert_eq!(report[0].handler, "on_asset_created");
    assert_eq!(report[0].payload.as_deref(), Some(EXPECTED_ASSET_JSON));
    assert!(matches!(report[0].status, DispatchStatus::Delivered));

    // The enabled plugin saw exactly the encoded record: its check hook
    // fails on any other payload.
    let check = mgr.broadcast_event(&PluginEvent::Custom("check".to_string(), JsonValue::Null));
    assert_eq!(check.len(), 1);
    assert_eq!(check[0].plugin, "alpha");
    assert!(matches!(check[0].status, DispatchStatus::Delivered));
}

#[test]
fn failing_or_absent_hooks_do_not_stop_broadcast() {
    let mut mgr = PluginManager::new("plugins");
    load_src(
        &mut mgr,
        "plugins/one",
        "function on_ping() end\nreturn { name = \"one\" }",
    );
    load_src(
        &mut mgr,
        "plugins/two",
        "function on_ping() error(\"boom\") end\nreturn { name = \"two\" }",
    );
    load_src(
        &mut mgr,
        "plugins/three",
        "function on_ping() pinged = true end\n\
         function on_verify()\n\
           if not pinged then error(\"later plugin was never pinged\") end\n\
         end\n\
         return { name = \"three\" }",
    );
    load_src(&mut mgr, "plugins/four", "return { name = \"four\" }");

    let report = mgr.broadcast_event(&PluginEvent::Custom("ping".to_string(), JsonValue::Null));
    assert_eq!(report.len(), 4);
    assert_eq!(report[0].plugin, "one");
    assert_eq!(report[1].plugin, "two");
    assert_eq!(report[2].plugin, "three");
    assert_eq!(report[3].plugin, "four");
    assert!(matches!(report[0].status, DispatchStatus::Delivered));
    match &report[1].status {
        DispatchStatus::Failed(m) => assert!(m.contains("boom")),
        _ => panic!("middle plugin's failure must be recorded"),
    }
    assert!(matches!(report[2].status, DispatchStatus::Delivered));
    assert!(matches!(report[3].status, DispatchStatus::HookAbsent));

    // The plugin after the failing one really ran: its verify hook would
    // fail otherwise.
    let verify = mgr.broadcast_event(&PluginEvent::Custom("verify".to_string(), JsonValue::Null));
    assert_eq!(verify.len(), 4);
    assert!(matches!(verify[2].status, DispatchStatus::Delivered));
}

#[test]
fn sandbox_blocks_dangerous_globals() {
    let loader = PluginLoader::new().unwrap();
    loader
        .load_plugin_code(
            "function try_os() return os.time() end\n\
             function try_io() return io.open(\"x.txt\", \"r\") end\n\
             function try_loadfile() return loadfile(\"x.lua\") end\n\
             function try_dofile() return dofile(\"x.lua\") end\n\
             function use_bridge() log(\"hello\") print(1, \"two\", nil) return 1 end\n\
             return { name = \"sbx\" }",
            "plugins/sbx",
        )
        .unwrap();
    assert!(matches!(
        loader.call_function("try_os", None),
        Err(PluginError::LuaError(_))
    ));
    assert!(matches!(
        loader.call_function("try_io", None),
        Err(PluginError::LuaError(_))
    ));
    assert!(matches!(
        loader.call_function("try_loadfile", None),
        Err(PluginError::LuaError(_))
    ));
    assert!(matches!(
        loader.call_function("try_dofile", None),
        Err(PluginError::LuaError(_))
    ));
    // The two allow-listed bridge functions stay callable.
    assert!(matches!(
        loader.call_function("use_bridge", None),
        Ok(ScriptValue::Integer(1))
    ));
}

#[test]
fn unknown_function_is_always_not_found() {
    let loader = PluginLoader::new().unwrap();
    loader
        .load_plugin_code(
            "function present() return 1 end\nreturn { name = \"p\" }",
            "plugins/p",
        )
        .unwrap();
    match loader.call_function("absent_hook", None) {
        Err(PluginError::NotFound(n)) => assert_eq!(n, "absent_hook"),
        Err(_) => panic!("an unknown function must yield NotFound, no other kind"),
        Ok(_) => panic!("an unknown function cannot succeed"),
    }
    // A second call and a payload-carrying call behave the same.
    match loader.call_function("absent_hook", Some("payload")) {
        Err(PluginError::NotFound(n)) => assert_eq!(n, "absent_hook"),
        _ => panic!("an unknown function must yield NotFound"),
    }
}

#[test]
fn guest_results_convert_to_tagged_values() {
    let loader = PluginLoader::new().unwrap();
    loader
        .load_plugin_code(
            "function give_int() return 2 end\n\
             function give_num() return 1.5 end\n\
             function give_str(s) return s .. \"!\" end\n\
             function give_nil() end\n\
             function give_bool() return true end\n\
             function give_table() return {} end\n\
             return { name = \"vals\" }",
            "plugins/vals",
        )
        .unwrap();
    assert!(matches!(loader.call_function("give_int", None), Ok(ScriptValue::Integer(2))));
    match loader.call_function("give_num", None) {
        Ok(ScriptValue::Text(t)) => assert_eq!(t, "1.5"),
        _ => panic!("a non-integer number converts to text"),
    }
    match loader.call_function("give_str", Some("hey")) {
        Ok(ScriptValue::Text(t)) => assert_eq!(t, "hey!"),
        _ => panic!("a string result converts to text"),
    }
    assert!(matches!(loader.call_function("give_nil", None), Ok(ScriptValue::Nil)));
    assert!(matches!(loader.call_function("give_bool", None), Ok(ScriptValue::Boolean(true))));
    assert!(matches!(loader.call_function("give_table", None), Ok(ScriptValue::Nil)));
}

#[test]
fn descriptor_fields_default_when_missing() {
    let loader = PluginLoader::new().unwrap();
    let info = loader.load_plugin_code("return {}", "plugins/bare").unwrap();
    assert_eq!(info.name, "Unknown");
    assert_eq!(info.version, "0.0.0");
    assert!(info.author.is_none());
    assert!(info.description.is_none());
    assert_eq!(info.path, "plugins/bare");
    assert!(info.enabled);

    let full = loader
        .load_plugin_code(
            "return { name = \"n\", version = \"v\", author = \"a\", description = \"d\" }",
            "plugins/full",
        )
        .unwrap();
    assert_eq!(full.name, "n");
    assert_eq!(full.version, "v");
    assert_eq!(full.author.as_deref(), Some("a"));
    assert_eq!(full.description.as_deref(), Some("d"));
}

#[test]
fn non_table_or_broken_scripts_are_load_errors() {
    let loader = PluginLoader::new().unwrap();
    assert!(matches!(
        loader.load_plugin_code("return 5", "plugins/num"),
        Err(PluginError::LoadError(_))
    ));
    assert!(matches!(
        loader.load_plugin_code("this is not lua(", "plugins/bad"),
        Err(PluginError::LoadError(_))
    ));
}

#[test]
fn load_all_with_nothing_discovered_changes_nothing() {
    let mut mgr = PluginManager::new("plugins");
    load_src(&mut mgr, "plugins/x", "return { name = \"X\" }");
    let loaded = mgr.load_all(&Vec::new());
    assert_eq!(loaded.len(), 0);
    let list = mgr.list_plugins();
    assert_eq!(list.len(), 1);
    assert_eq!(list[0].name, "X");
}

#[test]
fn load_all_skips_failures_and_keeps_order() {
    let mut mgr = PluginManager::new("plugins");
    let sources: Vec<(String, Option<String>)> = vec![
        ("plugins/a".to_string(), Some("return { name = \"A\" }".to_string())),
        ("plugins/b".to_string(), None),
        ("plugins/c".to_string(), Some("return 5".to_string())),
        ("plugins/d".to_string(), Some("return { name = \"D\" }".to_string())),
    ];
    let loaded = mgr.load_all(&sources);
    assert_eq!(loaded.len(), 2);
    assert_eq!(loaded[0].name, "A");
    assert_eq!(loaded[1].name, "D");
    let list = mgr.list_plugins();
    assert_eq!(list.len(), 2);
    assert_eq!(list[0].name, "A");
    assert_eq!(list[1].name, "D");
    // Every descriptor the batch returned is registered under its name.
    assert!(mgr.get_plugin("A").is_some());
    assert!(mgr.get_plugin("D").is_some());
}

#[test]
fn get_and_set_enabled() {
    let mut mgr = PluginManager::new("plugins");
    load_src(&mut mgr, "plugins/x", "return { name = \"X\" }");
    assert!(mgr.get_plugin("nope").is_none());
    let info = mgr.get_plugin("X").unwrap();
    assert!(info.enabled);

    assert!(matches!(
        mgr.set_plugin_enabled("nope", false),
        Err(PluginError::NotFound(_))
    ));
    mgr.set_plugin_enabled("X", false).unwrap();
    let info2 = mgr.get_plugin("X").unwrap();
    assert!(!info2.enabled);
    assert_eq!(info2.name, "X");
    // Only the flag changed, and the plugin can be re-enabled.
    mgr.set_plugin_enabled("X", true).unwrap();
    assert!(mgr.get_plugin("X").unwrap().enabled);
}

#[test]
fn lifecycle_events_carry_no_payload() {
    let mut mgr = PluginManager::new("plugins");
    load_src(
        &mut mgr,
        "plugins/x",
        "function on_app_started() started = true end\n\
         function on_app_closing() end\n\
         function on_confirm()\n\
           if not started then error(\"start hook did not run\") end\n\
         end\n\
         return { name = \"X\" }",
    );
    let report = mgr.broadcast_event(&PluginEvent::AppStarted);
    assert_eq!(report.len(), 1);
    assert_eq!(report[0].handler, "on_app_started");
    assert!(report[0].payload.is_none());
    assert!(matches!(report[0].status, DispatchStatus::Delivered));
    let confirm = mgr.broadcast_event(&PluginEvent::Custom("confirm".to_string(), JsonValue::Null));
    assert!(matches!(confirm[0].status, DispatchStatus::Delivered));

    let closing = mgr.broadcast_event(&PluginEvent::AppClosing);
    assert_eq!(closing[0].handler, "on_app_closing");
    assert!(closing[0].payload.is_none());
}

#[test]
fn deleted_event_sends_quoted_id() {
    let mut mgr = PluginManager::new("plugins");
    load_src(
        &mut mgr,
        "plugins/x",
        "function on_asset_deleted(id)\n\
           if id ~= [[\"a-1\"]] then error(\"unexpected id payload: \" .. tostring(id)) end\n\
         end\n\
         return { name = \"X\" }",
    );
    let report = mgr.broadcast_event(&PluginEvent::AssetDeleted("a-1".to_string()));
    assert_eq!(report.len(), 1);
    assert_eq!(report[0].payload.as_deref(), Some("\"a-1\""));
    assert!(matches!(report[0].status, DispatchStatus::Delivered));
}

#[test]
fn on_load_hook_fires_at_load_time() {
    let mut mgr = PluginManager::new("plugins");
    load_src(
        &mut mgr,
        "plugins/x",
        "function on_load() loaded_flag = true end\n\
         function on_confirm()\n\
           if not loaded_flag then error(\"on_load did not fire\") end\n\
         end\n\
         return { name = \"X\" }",
    );
    let confirm = mgr.broadcast_event(&PluginEvent::Custom("confirm".to_string(), JsonValue::Null));
    assert!(matches!(confirm[0].status, DispatchStatus::Delivered));
}

#[test]
fn descriptor_builder_applies_defaults() {
    let info = descriptor_of_fields("somewhere", None, None, Some("a".to_string()), None);
    assert_eq!(info.name, "Unknown");
    assert_eq!(info.version, "0.0.0");
    assert_eq!(info.author.as_deref(), Some("a"));
    assert!(info.description.is_none());
    assert_eq!(info.path, "somewhere");
    assert!(info.enabled);
}

#[test]
fn info_response_mirrors_descriptor() {
    let info = descriptor_of_fields(
        "p",
        Some("N".to_string()),
        Some("2".to_string()),
        None,
        Some("d".to_string()),
    );
    let resp = PluginInfoResponse::of_info(&info);
    assert_eq!(resp.name, "N");
    assert_eq!(resp.version, "2");
    assert!(resp.author.is_none());
    assert_eq!(resp.description.as_deref(), Some("d"));
    assert!(resp.enabled);
}
