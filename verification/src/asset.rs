//! Asset-side data model, as the plugin host sees it: category and currency
//! tags, the plain record that is encoded for plugins, and the parsers the
//! command layer uses for incoming tag strings.

use vstd::prelude::*;
use vstd::string::StringExecFns;

use crate::json::json_text;
use crate::json::quoted;
use crate::json::push_quoted;
use crate::json::push_json;
use crate::json::JsonValue;
use crate::text::dec_int;
use crate::text::int_text;
use crate::text::push_char;

verus! {

/// Category of an asset.
#[derive(Debug, PartialEq, Eq)]
pub enum AssetType {
    Cash,
    BankDeposit,
    Stock,
    Fund,
    Bond,
    RealEstate,
    Vehicle,
    Crypto,
    PreciousMetal,
    Other(String),
}

/// Currency tag of an asset's value.
#[derive(Debug, PartialEq, Eq)]
pub enum Currency {
    CNY,
    USD,
    EUR,
    GBP,
    JPY,
    HKD,
    Other(String),
}

/// Kind of a recorded value movement.
#[derive(Debug, Clone, Copy, PartialEq, Eq)]
pub enum TransactionType {
    Buy,
    Sell,
    ValueChange,
    Income,
    Expense,
    Transfer,
}

impl Clone for AssetType {
    fn clone(&self) -> (r: Self)
        ensures
            r == *self,
    {
        match self {
            AssetType::Cash => AssetType::Cash,
            AssetType::BankDeposit => AssetType::BankDeposit,
            AssetType::Stock => AssetType::Stock,
            AssetType::Fund => AssetType::Fund,
            AssetType::Bond => AssetType::Bond,
            AssetType::RealEstate => AssetType::RealEstate,
            AssetType::Vehicle => AssetType::Vehicle,
            AssetType::Crypto => AssetType::Crypto,
            AssetType::PreciousMetal => AssetType::PreciousMetal,
            AssetType::Other(s) => AssetType::Other(s.clone()),
        }
    }
}

impl Clone for Currency {
    fn clone(&self) -> (r: Self)
        ensures
            r == *self,
    {
        match self {
            Currency::CNY => Currency::CNY,
            Currency::USD => Currency::USD,
            Currency::EUR => Currency::EUR,
            Currency::GBP => Currency::GBP,
            Currency::JPY => Currency::JPY,
            Currency::HKD => Currency::HKD,
            Currency::Other(s) => Currency::Other(s.clone()),
        }
    }
}

impl AssetType {
    /// The canonical identifier of each category.
    pub open spec fn code(self) -> Seq<char> {
        match self {
            AssetType::Cash => "cash"@,
            AssetType::BankDeposit => "bank_deposit"@,
            AssetType::Stock => "stock"@,
            AssetType::Fund => "fund"@,
            AssetType::Bond => "bond"@,
            AssetType::RealEstate => "real_estate"@,
            AssetType::Vehicle => "vehicle"@,
            AssetType::Crypto => "crypto"@,
            AssetType::PreciousMetal => "precious_metal"@,
            AssetType::Other(_) => "other"@,
        }
    }

    pub fn as_str(&self) -> (r: &str)
        ensures
            r@ == self.code(),
    {
        match self {
            AssetType::Cash => "cash",
            AssetType::BankDeposit => "bank_deposit",
            AssetType::Stock => "stock",
            AssetType::Fund => "fund",
            AssetType::Bond => "bond",
            AssetType::RealEstate => "real_estate",
            AssetType::Vehicle => "vehicle",
            AssetType::Crypto => "crypto",
            AssetType::PreciousMetal => "precious_metal",
            AssetType::Other(_) => "other",
        }
    }
}

/// Lower-case fold of a character sequence, as `str::to_lowercase` computes
/// it; the result is a function of the characters alone.
pub uninterp spec fn lower_of(s: Seq<char>) -> Seq<char>;

/// Upper-case fold of a character sequence, as `str::to_uppercase` computes
/// it; the result is a function of the characters alone.
pub uninterp spec fn upper_of(s: Seq<char>) -> Seq<char>;

/// Relies on `str::to_lowercase`: the result depends on the characters
/// alone.
#[verifier::external_body]
fn fold_lower(s: &str) -> (r: String)
    ensures
        r@ == lower_of(s@),
{
    s.to_lowercase()
}

/// Relies on `str::to_uppercase`: the result depends on the characters
/// alone.
#[verifier::external_body]
fn fold_upper(s: &str) -> (r: String)
    ensures
        r@ == upper_of(s@),
{
    s.to_uppercase()
}

/// Whether `a` and `b` hold the same characters.
fn text_is(a: &String, b: &str) -> (r: bool)
    ensures
        r == (a@ == b@),
{
    *a == b.to_owned()
}

/// Which category a lower-cased tag denotes: the canonical identifiers and
/// a few aliases; anything else becomes `Other` with the tag itself.
pub open spec fn is_asset_type_of(t: Seq<char>, r: AssetType) -> bool {
    if t == "cash"@ {
        r == AssetType::Cash
    } else if t == "bank_deposit"@ || t == "bank"@ {
        r == AssetType::BankDeposit
    } else if t == "stock"@ {
        r == AssetType::Stock
    } else if t == "fund"@ {
        r == AssetType::Fund
    } else if t == "bond"@ {
        r == AssetType::Bond
    } else if t == "real_estate"@ || t == "property"@ {
        r == AssetType::RealEstate
    } else if t == "vehicle"@ || t == "car"@ {
        r == AssetType::Vehicle
    } else if t == "crypto"@ || t == "cryptocurrency"@ {
        r == AssetType::Crypto
    } else if t == "precious_metal"@ || t == "gold"@ || t == "silver"@ {
        r == AssetType::PreciousMetal
    } else {
        r matches AssetType::Other(o) && o@ == t
    }
}

/// The category denoted by an already lower-cased tag.
pub fn asset_type_of_text(t: &String) -> (r: AssetType)
    ensures
        is_asset_type_of(t@, r),
{
    if text_is(t, "cash") {
        AssetType::Cash
    } else if text_is(t, "bank_deposit") || text_is(t, "bank") {
        AssetType::BankDeposit
    } else if text_is(t, "stock") {
        AssetType::Stock
    } else if text_is(t, "fund") {
        AssetType::Fund
    } else if text_is(t, "bond") {
        AssetType::Bond
    } else if text_is(t, "real_estate") || text_is(t, "property") {
        AssetType::RealEstate
    } else if text_is(t, "vehicle") || text_is(t, "car") {
        AssetType::Vehicle
    } else if text_is(t, "crypto") || text_is(t, "cryptocurrency") {
        AssetType::Crypto
    } else if text_is(t, "precious_metal") || text_is(t, "gold") || text_is(t, "silver") {
        AssetType::PreciousMetal
    } else {
        AssetType::Other(t.clone())
    }
}

/// The category denoted by a tag, compared case-insensitively.
pub fn parse_asset_type(s: &str) -> (r: AssetType)
    ensures
        is_asset_type_of(lower_of(s@), r),
{
    let low = fold_lower(s);
    asset_type_of_text(&low)
}

/// Which currency an upper-cased tag denotes; anything else becomes `Other`
/// with the tag itself.
pub open spec fn is_currency_of(t: Seq<char>, r: Currency) -> bool {
    if t == "CNY"@ || t == "RMB"@ {
        r == Currency::CNY
    } else if t == "USD"@ {
        r == Currency::USD
    } else if t == "EUR"@ {
        r == Currency::EUR
    } else if t == "GBP"@ {
        r == Currency::GBP
    } else if t == "JPY"@ {
        r == Currency::JPY
    } else if t == "HKD"@ {
        r == Currency::HKD
    } else {
        r matches Currency::Other(o) && o@ == t
    }
}

/// The currency denoted by an already upper-cased tag.
pub fn currency_of_text(t: &String) -> (r: Currency)
    ensures
        is_currency_of(t@, r),
{
    if text_is(t, "CNY") || text_is(t, "RMB") {
        Currency::CNY
    } else if text_is(t, "USD") {
        Currency::USD
    } else if text_is(t, "EUR") {
        Currency::EUR
    } else if text_is(t, "GBP") {
        Currency::GBP
    } else if text_is(t, "JPY") {
        Currency::JPY
    } else if text_is(t, "HKD") {
        Currency::HKD
    } else {
        Currency::Other(t.clone())
    }
}

/// The currency denoted by a tag, compared case-insensitively.
pub fn parse_currency(s: &str) -> (r: Currency)
    ensures
        is_currency_of(upper_of(s@), r),
{
    let up = fold_upper(s);
    currency_of_text(&up)
}

/// The plain asset record the plugin host serializes outward: identifiers
/// and times as text, the monetary value as an integer amount.
pub struct AssetRecord {
    /// Unique identifier, as text.
    pub id: String,
    /// Display name.
    pub name: String,
    /// Category.
    pub asset_type: AssetType,
    /// Current value, as an integer amount of the currency's minor unit.
    pub value: i64,
    /// Currency tag.
    pub currency: Currency,
    /// Free-form note.
    pub description: Option<String>,
    /// Labels attached by the user.
    pub tags: Vec<String>,
    /// Free-form structured metadata.
    pub metadata: JsonValue,
    /// Creation time, as text.
    pub created_at: String,
    /// Last-update time, as text.
    pub updated_at: String,
}

/// JSON form of a category: the canonical identifier as a string, except
/// that `Other` is tagged with its carried text.
pub open spec fn asset_type_json(t: AssetType) -> Seq<char> {
    match t {
        AssetType::Other(o) => "{\"other\":"@ + quoted(o@) + "}"@,
        _ => quoted(t.code()),
    }
}

/// JSON form of a currency: its tag as a string, except that `Other` is
/// tagged with its carried text.
pub open spec fn currency_json(c: Currency) -> Seq<char> {
    match c {
        Currency::CNY => quoted("CNY"@),
        Currency::USD => quoted("USD"@),
        Currency::EUR => quoted("EUR"@),
        Currency::GBP => quoted("GBP"@),
        Currency::JPY => quoted("JPY"@),
        Currency::HKD => quoted("HKD"@),
        Currency::Other(o) => "{\"Other\":"@ + quoted(o@) + "}"@,
    }
}

/// JSON form of an optional text: `null` when absent.
pub open spec fn opt_text_json(d: Option<String>) -> Seq<char> {
    match d {
        Option::None => "null"@,
        Option::Some(s) => quoted(s@),
    }
}

/// Comma-separated JSON strings for a tag list.
pub open spec fn tags_inner(tags: Seq<String>) -> Seq<char>
    decreases tags.len(),
{
    if tags.len() == 0 {
        Seq::empty()
    } else if tags.len() == 1 {
        quoted(tags.last()@)
    } else {
        tags_inner(tags.drop_last()) + seq![','] + quoted(tags.last()@)
    }
}

/// JSON array of a tag list.
pub open spec fn tags_json(tags: Seq<String>) -> Seq<char> {
    seq!['['] + tags_inner(tags) + seq![']']
}

/// The JSON object an asset record is encoded as, field by field.
pub open spec fn asset_json_spec(a: AssetRecord) -> Seq<char> {
    "{\"id\":"@ + quoted(a.id@) + ",\"name\":"@ + quoted(a.name@) + ",\"asset_type\":"@
        + asset_type_json(a.asset_type) + ",\"value\":"@ + dec_int(a.value as int)
        + ",\"currency\":"@ + currency_json(a.currency) + ",\"description\":"@ + opt_text_json(
        a.description,
    ) + ",\"tags\":"@ + tags_json(a.tags@) + ",\"metadata\":"@ + json_text(a.metadata)
        + ",\"created_at\":"@ + quoted(a.created_at@) + ",\"updated_at\":"@ + quoted(
        a.updated_at@,
    ) + "}"@
}

fn push_asset_type(out: &mut String, t: &AssetType)
    ensures
        final(out)@ == old(out)@ + asset_type_json(*t),
{
    match t {
        AssetType::Other(o) => {
            out.append("{\"other\":");
            push_quoted(out, o.as_str());
            out.append("}");
        },
        _ => {
            let code = t.as_str();
            push_quoted(out, code);
        },
    }
    assert(out@ =~= old(out)@ + asset_type_json(*t));
}

fn push_currency(out: &mut String, c: &Currency)
    ensures
        final(out)@ == old(out)@ + currency_json(*c),
{
    match c {
        Currency::CNY => push_quoted(out, "CNY"),
        Currency::USD => push_quoted(out, "USD"),
        Currency::EUR => push_quoted(out, "EUR"),
        Currency::GBP => push_quoted(out, "GBP"),
        Currency::JPY => push_quoted(out, "JPY"),
        Currency::HKD => push_quoted(out, "HKD"),
        Currency::Other(o) => {
            out.append("{\"Other\":");
            push_quoted(out, o.as_str());
            out.append("}");
        },
    }
    assert(out@ =~= old(out)@ + currency_json(*c));
}

#[verifier::loop_isolation(false)]
fn push_tags(out: &mut String, tags: &Vec<String>)
    ensures
        final(out)@ == old(out)@ + tags_json(tags@),
{
    push_char(out, '[');
    let mut i: usize = 0;
    while i < tags.len()
        invariant
            i <= tags.len(),
            out@ == old(out)@ + seq!['['] + tags_inner(tags@.take(i as int)),
        decreases tags.len() - i,
    {
        if i > 0 {
            push_char(out, ',');
        }
        push_quoted(out, tags[i].as_str());
        proof {
            assert(tags@.take(i as int + 1).drop_last() =~= tags@.take(i as int));
        }
        i = i + 1;
    }
    proof {
        assert(tags@.take(tags.len() as int) =~= tags@);
    }
    push_char(out, ']');
    assert(out@ =~= old(out)@ + tags_json(tags@));
}

/// The JSON text an asset record is marshalled to before it crosses the
/// host/guest boundary.
#[verifier::rlimit(60)]
pub fn asset_json(a: &AssetRecord) -> (r: String)
    ensures
        r@ == asset_json_spec(*a),
{
    let mut out = String::new();
    out.append("{\"id\":");
    push_quoted(&mut out, a.id.as_str());
    out.append(",\"name\":");
    push_quoted(&mut out, a.name.as_str());
    out.append(",\"asset_type\":");
    push_asset_type(&mut out, &a.asset_type);
    out.append(",\"value\":");
    let v = int_text(a.value);
    out.append(v.as_str());
    out.append(",\"currency\":");
    push_currency(&mut out, &a.currency);
    out.append(",\"description\":");
    match &a.description {
        Option::None => out.append("null"),
        Option::Some(d) => push_quoted(&mut out, d.as_str()),
    }
    out.append(",\"tags\":");
    push_tags(&mut out, &a.tags);
    out.append(",\"metadata\":");
    push_json(&mut out, &a.metadata);
    out.append(",\"created_at\":");
    push_quoted(&mut out, a.created_at.as_str());
    out.append(",\"updated_at\":");
    push_quoted(&mut out, a.updated_at.as_str());
    out.append("}");
    assert(out@ =~= asset_json_spec(*a));
    out
}

} // verus!
