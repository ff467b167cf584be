//! Tests for the asset-side types and parsers.

use asset_manager_core::asset::parse_asset_type;
use asset_manager_core::asset::parse_currency;
use asset_manager_core::asset::AssetType;
use asset_manager_core::asset::Currency;
use asset_manager_core::plugin::PluginError;
use asset_manager_core::AppConfig;

#[test]
fn asset_type_codes() {
    assert_eq!(AssetType::Cash.as_str(), "cash");
    assert_eq!(AssetType::BankDeposit.as_str(), "bank_deposit");
    assert_eq!(AssetType::Stock.as_str(), "stock");
    assert_eq!(AssetType::Fund.as_str(), "fund");
    assert_eq!(AssetType::Bond.as_str(), "bond");
    assert_eq!(AssetType::RealEstate.as_str(), "real_estate");
    assert_eq!(AssetType::Vehicle.as_str(), "vehicle");
    assert_eq!(AssetType::Crypto.as_str(), "crypto");
    assert_eq!(AssetType::PreciousMetal.as_str(), "precious_metal");
    assert_eq!(AssetType::Other("misc".to_string()).as_str(), "other");
}

#[test]
fn parse_asset_type_folds_case_and_aliases() {
    assert_eq!(parse_asset_type("STOCK"), AssetType::Stock);
    assert_eq!(parse_asset_type("Cash"), AssetType::Cash);
    assert_eq!(parse_asset_type("bank"), AssetType::BankDeposit);
    assert_eq!(parse_asset_type("property"), AssetType::RealEstate);
    assert_eq!(parse_asset_type("car"), AssetType::Vehicle);
    assert_eq!(parse_asset_type("cryptocurrency"), AssetType::Crypto);
    assert_eq!(parse_asset_type("Gold"), AssetType::PreciousMetal);
    assert_eq!(parse_asset_type("silver"), AssetType::PreciousMetal);
    assert_eq!(parse_asset_type("WeIrD"), AssetType::Other("weird".to_string()));
}

#[test]
fn parse_currency_folds_case_and_aliases() {
    assert_eq!(parse_currency("usd"), Currency::USD);
    assert_eq!(parse_currency("rmb"), Currency::CNY);
    assert_eq!(parse_currency("CNY"), Currency::CNY);
    assert_eq!(parse_currency("eur"), Currency::EUR);
    assert_eq!(parse_currency("gbp"), Currency::GBP);
    assert_eq!(parse_currency("jpy"), Currency::JPY);
    assert_eq!(parse_currency("hkd"), Currency::HKD);
    assert_eq!(parse_currency("xyz"), Currency::Other("XYZ".to_string()));
}

#[test]
fn default_config_values() {
    let c = AppConfig::default();
    assert_eq!(c.db_path, "data/assets.json");
    assert_eq!(c.plugins_dir, "plugins");
    assert!(!c.debug);
}

#[test]
fn error_messages_by_kind() {
    assert_eq!(
        PluginError::NotFound("on_load".to_string()).message(),
        "Plugin not found: on_load"
    );
    assert_eq!(PluginError::LoadError("bad".to_string()).message(), "Plugin load error: bad");
    assert_eq!(PluginError::LuaError("boom".to_string()).message(), "Lua error: boom");
    assert_eq!(PluginError::IoError("denied".to_string()).message(), "IO error: denied");
    assert_eq!(PluginError::Disabled("p".to_string()).message(), "Plugin disabled: p");
}
