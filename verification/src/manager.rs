//! The plugin registry: directory-based lifecycle management and event
//! fan-out.
//!
//! The registry owns one sandboxed session per plugin, keyed by the
//! plugin's declared name. Its bookkeeping — last-write-wins insertion,
//! removal, the enabled flag, and which sessions a broadcast visits — is
//! verified; the calls into each session go through the session's own
//! contract.

use vstd::prelude::*;

use crate::asset::asset_json;
use crate::asset::asset_json_spec;
use crate::json::encode_json;
use crate::json::encode_json_string;
use crate::json::json_text;
use crate::json::quoted;
use crate::loader::PluginLoader;
use crate::plugin::PluginError;
use crate::plugin::PluginEvent;
use crate::plugin::PluginInfo;
use crate::plugin::ScriptValue;
use vstd::string::StringExecFns;

verus! {

/// One registered plugin: its descriptor snapshot and its live session.
pub struct PluginEntry {
    /// The metadata snapshot taken at load time.
    pub info: PluginInfo,
    /// The sandboxed session holding the plugin's evaluated code.
    pub session: PluginLoader,
}

/// Whether some entry carries the given name.
pub open spec fn has_name(s: Seq<PluginEntry>, name: Seq<char>) -> bool {
    exists|i: int| 0 <= i < s.len() && s[i].info.name@ == name
}

/// The index of the entry carrying the given name; meaningful under
/// `names_unique` when `has_name` holds.
pub open spec fn index_of(s: Seq<PluginEntry>, name: Seq<char>) -> int {
    choose|i: int| 0 <= i < s.len() && s[i].info.name@ == name
}

/// No two entries carry the same name: a registered name maps to at most
/// one live entry.
pub open spec fn names_unique(s: Seq<PluginEntry>) -> bool {
    forall|i: int, j: int|
        0 <= i < s.len() && 0 <= j < s.len() && i != j ==> s[i].info.name@ != s[j].info.name@
}

/// What registering an entry does: replaces the entry of the same name in
/// place when there is one, and appends otherwise.
pub open spec fn insert_spec(s: Seq<PluginEntry>, e: PluginEntry) -> Seq<PluginEntry> {
    if has_name(s, e.info.name@) {
        s.update(index_of(s, e.info.name@), e)
    } else {
        s.push(e)
    }
}

/// The subsequence of entries whose plugin is enabled, in registry order:
/// exactly the sessions one broadcast visits.
pub open spec fn enabled_entries(s: Seq<PluginEntry>) -> Seq<PluginEntry>
    decreases s.len(),
{
    if s.len() == 0 {
        Seq::empty()
    } else {
        let rest = enabled_entries(s.drop_last());
        if s.last().info.enabled {
            rest.push(s.last())
        } else {
            rest
        }
    }
}

/// Under `names_unique`, an entry's index is the one `index_of` picks.
pub proof fn lemma_index_unique(s: Seq<PluginEntry>, name: Seq<char>, i: int)
    requires
        names_unique(s),
        0 <= i < s.len(),
        s[i].info.name@ == name,
    ensures
        has_name(s, name),
        index_of(s, name) == i,
{
    assert(has_name(s, name));
    let j = index_of(s, name);
    assert(0 <= j < s.len() && s[j].info.name@ == name);
    if j != i {
        assert(s[i].info.name@ != s[j].info.name@);
        assert(false);
    }
}

/// Loading a second plugin under an already-registered name collapses to
/// one entry: registering `e1` and then `e2` of the same name leaves the
/// registry exactly as registering `e2` alone would have, and the earlier
/// session is gone.
pub proof fn lemma_insert_last_wins(s: Seq<PluginEntry>, e1: PluginEntry, e2: PluginEntry)
    requires
        names_unique(s),
        e1.info.name@ == e2.info.name@,
    ensures
        insert_spec(insert_spec(s, e1), e2) =~= insert_spec(s, e2),
{
    let n = e1.info.name@;
    if has_name(s, n) {
        let i = index_of(s, n);
        let s1 = s.update(i, e1);
        assert(names_unique(s1));
        lemma_index_unique(s1, n, i);
        assert(insert_spec(s1, e2) =~= s.update(i, e2));
    } else {
        let s1 = s.push(e1);
        assert(forall|k: int| 0 <= k < s.len() ==> s[k] == #[trigger] s1[k]);
        assert(names_unique(s1)) by {
            assert(forall|k: int| 0 <= k < s.len() ==> (#[trigger] s1[k]).info.name@ != n);
        }
        lemma_index_unique(s1, n, s.len() as int);
        assert(insert_spec(s1, e2) =~= s.push(e2));
    }
}

/// Registering an entry never removes a name: every name registered
/// before, and the new entry's own name, is registered afterwards.
pub proof fn lemma_insert_keeps_names(s: Seq<PluginEntry>, e: PluginEntry, n: Seq<char>)
    requires
        has_name(s, n) || n == e.info.name@,
    ensures
        has_name(insert_spec(s, e), n),
{
    if has_name(s, e.info.name@) {
        let i = index_of(s, e.info.name@);
        let s2 = s.update(i, e);
        assert(0 <= i < s.len() && s[i].info.name@ == e.info.name@);
        if n == e.info.name@ {
            assert(s2[i].info.name@ == n);
        } else {
            let j = choose|j: int| 0 <= j < s.len() && s[j].info.name@ == n;
            assert(j != i);
            assert(s2[j].info.name@ == n);
        }
    } else {
        let s2 = s.push(e);
        if n == e.info.name@ {
            assert(s2[s.len() as int].info.name@ == n);
        } else {
            let j = choose|j: int| 0 <= j < s.len() && s[j].info.name@ == n;
            assert(s2[j].info.name@ == n);
        }
    }
}

/// Registering an entry keeps names unique.
pub proof fn lemma_insert_preserves_unique(s: Seq<PluginEntry>, e: PluginEntry)
    requires
        names_unique(s),
    ensures
        names_unique(insert_spec(s, e)),
{
    let n = e.info.name@;
    if has_name(s, n) {
        let i = index_of(s, n);
        assert(names_unique(s.update(i, e)));
    } else {
        let s1 = s.push(e);
        assert(forall|k: int| 0 <= k < s.len() ==> (#[trigger] s1[k]).info.name@ != n);
        assert(names_unique(s1));
    }
}

/// Every entry that a broadcast visits is an enabled entry of the
/// registry.
pub proof fn lemma_enabled_entries_membership(s: Seq<PluginEntry>, k: int)
    requires
        0 <= k < enabled_entries(s).len(),
    ensures
        exists|j: int|
            0 <= j < s.len() && s[j] == enabled_entries(s)[k] && (#[trigger] s[j]).info.enabled,
    decreases s.len(),
{
    let rest = enabled_entries(s.drop_last());
    if s.last().info.enabled && k == rest.len() {
        assert(s[s.len() - 1] == enabled_entries(s)[k]);
    } else {
        lemma_enabled_entries_membership(s.drop_last(), k);
        let j = choose|j: int|
            0 <= j < s.drop_last().len() && s.drop_last()[j] == enabled_entries(s.drop_last())[k]
                && (#[trigger] s.drop_last()[j]).info.enabled;
        assert(s[j] == enabled_entries(s)[k] && s[j].info.enabled);
    }
}

/// After a plugin is disabled, no entry a broadcast would visit carries
/// its name: its hooks cannot be invoked until it is enabled again.
pub proof fn lemma_disabled_skips_dispatch(
    s: Seq<PluginEntry>,
    i: int,
    e2: PluginEntry,
    name: Seq<char>,
)
    requires
        names_unique(s),
        0 <= i < s.len(),
        s[i].info.name@ == name,
        e2.info.name@ == name,
        !e2.info.enabled,
    ensures
        forall|k: int|
            0 <= k < enabled_entries(s.update(i, e2)).len() ==> (#[trigger] enabled_entries(
                s.update(i, e2),
            )[k]).info.name@ != name,
{
    let s2 = s.update(i, e2);
    assert forall|k: int|
        0 <= k < enabled_entries(s2).len() implies (#[trigger] enabled_entries(s2)[k]).info.name@
        != name by {
        lemma_enabled_entries_membership(s2, k);
        let j = choose|j: int|
            0 <= j < s2.len() && s2[j] == enabled_entries(s2)[k] && (#[trigger] s2[j]).info.enabled;
        if j == i {
            assert(!s2[j].info.enabled);
        } else {
            assert(s2[j] == s[j]);
            assert(s[i].info.name@ == name);
            if s[j].info.name@ == name {
                assert(false);
            }
        }
    }
}

/// The handler a given event is dispatched to, by the fixed naming
/// convention.
pub open spec fn handler_name_spec(e: PluginEvent) -> Seq<char> {
    match e {
        PluginEvent::AssetCreated(_) => "on_asset_created"@,
        PluginEvent::AssetUpdated(_) => "on_asset_updated"@,
        PluginEvent::AssetDeleted(_) => "on_asset_deleted"@,
        PluginEvent::AppStarted => "on_app_started"@,
        PluginEvent::AppClosing => "on_app_closing"@,
        PluginEvent::Custom(n, _) => "on_"@ + n@,
    }
}

/// The payload marshalled with a given event: the JSON-encoded record for
/// asset events, the quoted identifier for deletion, the encoded data for
/// custom events, and nothing for lifecycle events.
pub open spec fn payload_spec(e: PluginEvent) -> Option<Seq<char>> {
    match e {
        PluginEvent::AssetCreated(a) => Option::Some(asset_json_spec(a)),
        PluginEvent::AssetUpdated(a) => Option::Some(asset_json_spec(a)),
        PluginEvent::AssetDeleted(id) => Option::Some(quoted(id@)),
        PluginEvent::AppStarted => Option::None,
        PluginEvent::AppClosing => Option::None,
        PluginEvent::Custom(_, v) => Option::Some(json_text(v)),
    }
}

/// A discovery-order witness for a loaded batch: each descriptor comes
/// from a distinct source, the picked indices are strictly increasing
/// (so the batch follows discovery order), and every picked source had
/// an entry file.
pub open spec fn picked_in_order(
    infos: Seq<PluginInfo>,
    sources: Seq<(String, Option<String>)>,
    picks: Seq<int>,
) -> bool {
    &&& picks.len() == infos.len()
    &&& forall|k: int| 0 <= k < picks.len() ==> 0 <= #[trigger] picks[k] < sources.len()
    &&& forall|k: int| 0 < k < picks.len() ==> picks[k - 1] < #[trigger] picks[k]
    &&& forall|k: int|
        0 <= k < picks.len() ==> ((#[trigger] infos[k]).path@ == sources[picks[k]].0@
            && sources[picks[k]].1 is Some)
}

/// The view of an optional payload.
pub open spec fn opt_text_view(o: Option<String>) -> Option<Seq<char>> {
    match o {
        Option::None => Option::None,
        Option::Some(s) => Option::Some(s@),
    }
}

/// The handler name for an event.
pub fn event_handler_name(e: &PluginEvent) -> (r: String)
    ensures
        r@ == handler_name_spec(*e),
{
    match e {
        PluginEvent::AssetCreated(_) => "on_asset_created".to_owned(),
        PluginEvent::AssetUpdated(_) => "on_asset_updated".to_owned(),
        PluginEvent::AssetDeleted(_) => "on_asset_deleted".to_owned(),
        PluginEvent::AppStarted => "on_app_started".to_owned(),
        PluginEvent::AppClosing => "on_app_closing".to_owned(),
        PluginEvent::Custom(n, _) => {
            let mut h = String::new();
            h.append("on_");
            h.append(n.as_str());
            h
        },
    }
}

/// The payload for an event.
pub fn event_payload(e: &PluginEvent) -> (r: Option<String>)
    ensures
        opt_text_view(r) == payload_spec(*e),
{
    match e {
        PluginEvent::AssetCreated(a) => Option::Some(asset_json(a)),
        PluginEvent::AssetUpdated(a) => Option::Some(asset_json(a)),
        PluginEvent::AssetDeleted(id) => Option::Some(encode_json_string(id.as_str())),
        PluginEvent::AppStarted => Option::None,
        PluginEvent::AppClosing => Option::None,
        PluginEvent::Custom(_, v) => Option::Some(encode_json(v)),
    }
}

/// Outcome of dispatching one event to one plugin.
pub enum DispatchStatus {
    /// The hook existed and returned without error.
    Delivered,
    /// The plugin defines no such hook; routine, not an error.
    HookAbsent,
    /// The hook existed and failed; carries the diagnostic line.
    Failed(String),
}

/// One row of a broadcast report: which plugin was visited, which handler
/// was invoked with which payload, and how it went.
pub struct DispatchRecord {
    /// Name of the visited plugin.
    pub plugin: String,
    /// Handler name that was looked up.
    pub handler: String,
    /// Payload handed over, if the event carries one.
    pub payload: Option<String>,
    /// How the call went.
    pub status: DispatchStatus,
}

/// How a guest-call result is classified for a broadcast: an absent hook
/// is the routine case, any other failure is carried as a diagnostic, and
/// neither stops the broadcast.
pub fn classify_dispatch(r: &Result<ScriptValue, PluginError>) -> (s: DispatchStatus)
    ensures
        match r {
            Result::Ok(_) => s matches DispatchStatus::Delivered,
            Result::Err(e) => match e {
                PluginError::NotFound(_) => s matches DispatchStatus::HookAbsent,
                _ => (s matches DispatchStatus::Failed(m) && m@ == e.message_spec()),
            },
        },
{
    match r {
        Ok(_) => DispatchStatus::Delivered,
        Err(e) => {
            if e.is_not_found() {
                DispatchStatus::HookAbsent
            } else {
                DispatchStatus::Failed(e.message())
            }
        },
    }
}

fn clone_opt_text(o: &Option<String>) -> (r: Option<String>)
    ensures
        r == *o,
{
    match o {
        Option::Some(s) => Option::Some(s.clone()),
        Option::None => Option::None,
    }
}

/// The plugin registry: owns discovery results, the name-keyed entries,
/// lifecycle transitions and event fan-out.
pub struct PluginManager {
    plugins_dir: String,
    plugins: Vec<PluginEntry>,
}

impl View for PluginManager {
    type V = Seq<PluginEntry>;

    closed spec fn view(&self) -> Seq<PluginEntry> {
        self.plugins@
    }
}

impl PluginManager {
    /// The registry invariant: at most one live entry per name.
    pub open spec fn wf(self) -> bool {
        names_unique(self@)
    }

    /// The configured plugin root directory.
    pub closed spec fn dir_spec(self) -> Seq<char> {
        self.plugins_dir@
    }

    /// A fresh, empty registry rooted at the given directory.
    pub fn new(plugins_dir: &str) -> (r: Self)
        ensures
            r@ =~= Seq::<PluginEntry>::empty(),
            r.wf(),
            r.dir_spec() == plugins_dir@,
    {
        PluginManager { plugins_dir: plugins_dir.to_owned(), plugins: Vec::new() }
    }

    /// The directory this registry scans for plugins.
    pub fn plugins_dir(&self) -> (r: &str)
        ensures
            r@ == self.dir_spec(),
    {
        self.plugins_dir.as_str()
    }

    fn find_index(&self, name: &str) -> (r: Option<usize>)
        ensures
            match r {
                Option::Some(i) => i < self@.len() && self@[i as int].info.name@ == name@,
                Option::None => !has_name(self@, name@),
            },
    {
        let probe = name.to_owned();
        let mut i: usize = 0;
        while i < self.plugins.len()
            invariant
                i <= self@.len(),
                probe@ == name@,
                forall|k: int| 0 <= k < i ==> (#[trigger] self@[k]).info.name@ != name@,
            decreases self@.len() - i,
        {
            if self.plugins[i].info.name == probe {
                return Some(i);
            }
            i = i + 1;
        }
        None
    }

    fn insert_entry(&mut self, e: PluginEntry)
        requires
            old(self).wf(),
        ensures
            final(self).wf(),
            final(self)@ == insert_spec(old(self)@, e),
            final(self).dir_spec() == old(self).dir_spec(),
    {
        proof {
            lemma_insert_preserves_unique(self@, e);
        }
        let found = self.find_index(e.info.name.as_str());
        match found {
            Option::Some(i) => {
                proof {
                    lemma_index_unique(self@, e.info.name@, i as int);
                }
                self.plugins.remove(i);
                self.plugins.insert(i, e);
                assert(self@ =~= insert_spec(old(self)@, e));
            },
            Option::None => {
                self.plugins.push(e);
                assert(self@ =~= insert_spec(old(self)@, e));
            },
        }
    }

    /// Loads one plugin: builds a fresh sandboxed session, evaluates the
    /// entry script the caller read from `plugin_dir` (`None` when the
    /// directory has no entry file), fires the optional `on_load` hook
    /// best-effort, and registers the descriptor under its name,
    /// replacing any previous entry of that name. On any failure the
    /// registry is left untouched.
    pub fn load_plugin(&mut self, plugin_dir: &str, entry: &Option<String>) -> (r: Result<
        PluginInfo,
        PluginError,
    >)
        requires
            old(self).wf(),
        ensures
            final(self).wf(),
            final(self).dir_spec() == old(self).dir_spec(),
            r matches Err(PluginError::NotFound(_)) <==> entry is None,
            r matches Err(e) ==> (e matches PluginError::NotFound(_) || e
                matches PluginError::LoadError(_) || e matches PluginError::LuaError(_)),
            r matches Err(_) ==> final(self)@ == old(self)@,
            r matches Ok(info) ==> info.enabled && info.path@ == plugin_dir@ && exists|
                e: PluginEntry,
            |
                (#[trigger] e.info) == info && final(self)@ == insert_spec(old(self)@, e),
    {
        if entry.is_none() {
            let mut m = String::new();
            m.append("Plugin init.lua not found in ");
            m.append(plugin_dir);
            return Err(PluginError::NotFound(m));
        }
        let loader = match PluginLoader::new() {
            Ok(l) => l,
            Err(e) => {
                return Err(e);
            },
        };
        let info = match loader.load_from_dir(plugin_dir, entry) {
            Ok(i) => i,
            Err(e) => {
                return Err(e);
            },
        };
        // Best-effort `on_load`: a failing or absent hook does not make
        // the plugin unloaded.
        let _ = loader.call_function("on_load", None);
        let e = PluginEntry { info: info.clone(), session: loader };
        self.insert_entry(e);
        Ok(info)
    }

    /// Loads every plugin the caller discovered under the root, one
    /// sandboxed session each, skipping the ones that fail: a single bad
    /// plugin never aborts the scan. Returns the descriptors of the
    /// plugins that loaded, in discovery order; each is registered under
    /// its name, a source without an entry file contributes nothing, no
    /// name registered before is lost, and an empty discovery list
    /// leaves the registry untouched.
    pub fn load_all(&mut self, sources: &Vec<(String, Option<String>)>) -> (r: Vec<PluginInfo>)
        requires
            old(self).wf(),
        ensures
            final(self).wf(),
            final(self).dir_spec() == old(self).dir_spec(),
            r@.len() <= sources@.len(),
            forall|k: int| 0 <= k < r@.len() ==> (#[trigger] r@[k]).enabled,
            sources@.len() == 0 ==> final(self)@ == old(self)@ && r@.len() == 0,
            forall|n: Seq<char>|
                #![trigger has_name(old(self)@, n)]
                #![trigger has_name(final(self)@, n)]
                has_name(old(self)@, n) ==> has_name(final(self)@, n),
            forall|k: int| 0 <= k < r@.len() ==> has_name(final(self)@, (#[trigger] r@[k]).name@),
            exists|picks: Seq<int>| picked_in_order(r@, sources@, picks),
    {
        let mut loaded: Vec<PluginInfo> = Vec::new();
        let ghost mut picks: Seq<int> = Seq::empty();
        let mut i: usize = 0;
        while i < sources.len()
            invariant
                self.wf(),
                self.dir_spec() == old(self).dir_spec(),
                i <= sources@.len(),
                loaded@.len() <= i,
                i == 0 ==> self@ == old(self)@,
                forall|k: int| 0 <= k < loaded@.len() ==> (#[trigger] loaded@[k]).enabled,
                forall|n: Seq<char>|
                    #![trigger has_name(old(self)@, n)]
                    #![trigger has_name(self@, n)]
                    has_name(old(self)@, n) ==> has_name(self@, n),
                forall|k: int|
                    0 <= k < loaded@.len() ==> has_name(self@, (#[trigger] loaded@[k]).name@),
                picked_in_order(loaded@, sources@, picks),
                forall|k: int| 0 <= k < picks.len() ==> #[trigger] picks[k] < i,
            decreases sources@.len() - i,
        {
            let ghost prev = self@;
            let (dir, entry) = &sources[i];
            match self.load_plugin(dir.as_str(), entry) {
                Ok(info) => {
                    proof {
                        let e = choose|e: PluginEntry|
                            (#[trigger] e.info) == info && self@ == insert_spec(prev, e);
                        assert forall|n: Seq<char>| has_name(prev, n) implies has_name(
                            self@,
                            n,
                        ) by {
                            lemma_insert_keeps_names(prev, e, n);
                        }
                        lemma_insert_keeps_names(prev, e, e.info.name@);
                        picks = picks.push(i as int);
                    }
                    loaded.push(info);
                },
                Err(_) => (),
            }
            i = i + 1;
        }
        loaded
    }

    /// Unloads the named plugin: removes its entry, fires the optional
    /// `on_unload` hook best-effort, and drops the session. On an
    /// unregistered name the registry is left untouched and `NotFound`
    /// carries the name.
    pub fn unload_plugin(&mut self, name: &str) -> (r: Result<(), PluginError>)
        requires
            old(self).wf(),
        ensures
            final(self).wf(),
            final(self).dir_spec() == old(self).dir_spec(),
            !has_name(old(self)@, name@) ==> (r matches Err(PluginError::NotFound(n)) && n@
                == name@ && final(self)@ == old(self)@),
            has_name(old(self)@, name@) ==> (r matches Ok(_) && final(self)@ == old(self)@.remove(
                index_of(old(self)@, name@),
            )),
    {
        let found = self.find_index(name);
        match found {
            Option::None => Err(PluginError::NotFound(name.to_owned())),
            Option::Some(i) => {
                proof {
                    lemma_index_unique(self@, name@, i as int);
                }
                let e = self.plugins.remove(i);
                let _ = e.session.call_function("on_unload", None);
                Ok(())
            },
        }
    }

    /// The descriptors of every registered plugin, in registry order.
    pub fn list_plugins(&self) -> (r: Vec<PluginInfo>)
        ensures
            r@.len() == self@.len(),
            forall|k: int| 0 <= k < r@.len() ==> r@[k] == (#[trigger] self@[k]).info,
    {
        let mut out: Vec<PluginInfo> = Vec::new();
        let mut i: usize = 0;
        while i < self.plugins.len()
            invariant
                i <= self@.len(),
                out@.len() == i,
                forall|k: int| 0 <= k < i ==> out@[k] == (#[trigger] self@[k]).info,
            decreases self@.len() - i,
        {
            out.push(self.plugins[i].info.clone());
            i = i + 1;
        }
        out
    }

    /// The descriptor of the named plugin, if registered.
    pub fn get_plugin(&self, name: &str) -> (r: Option<PluginInfo>)
        requires
            self.wf(),
        ensures
            r is Some <==> has_name(self@, name@),
            r matches Some(info) ==> info == self@[index_of(self@, name@)].info,
    {
        let found = self.find_index(name);
        match found {
            Option::None => Option::None,
            Option::Some(i) => {
                proof {
                    lemma_index_unique(self@, name@, i as int);
                }
                Option::Some(self.plugins[i].info.clone())
            },
        }
    }

    /// Enables or disables the named plugin: only the enabled flag of its
    /// descriptor changes. On an unregistered name the registry is left
    /// untouched and `NotFound` carries the name.
    pub fn set_plugin_enabled(&mut self, name: &str, enabled: bool) -> (r: Result<
        (),
        PluginError,
    >)
        requires
            old(self).wf(),
        ensures
            final(self).wf(),
            final(self).dir_spec() == old(self).dir_spec(),
            !has_name(old(self)@, name@) ==> (r matches Err(PluginError::NotFound(n)) && n@
                == name@ && final(self)@ == old(self)@),
            has_name(old(self)@, name@) ==> (r matches Ok(_) && ({
                let i = index_of(old(self)@, name@);
                let e0 = old(self)@[i];
                final(self)@ =~= old(self)@.update(
                    i,
                    PluginEntry {
                        info: PluginInfo { enabled, ..e0.info },
                        session: e0.session,
                    },
                )
            })),
    {
        let found = self.find_index(name);
        match found {
            Option::None => Err(PluginError::NotFound(name.to_owned())),
            Option::Some(i) => {
                proof {
                    lemma_index_unique(self@, name@, i as int);
                }
                let mut e = self.plugins.remove(i);
                e.info.enabled = enabled;
                self.plugins.insert(i, e);
                assert(names_unique(self@));
                Ok(())
            },
        }
    }

    /// Fans one event out to every enabled plugin, in registry order:
    /// computes the handler name and payload once, visits each enabled
    /// session exactly once regardless of any other session's outcome,
    /// and reports per plugin how the call went. An absent hook is
    /// routine; a failing hook is recorded and never stops the
    /// iteration.
    pub fn broadcast_event(&self, event: &PluginEvent) -> (r: Vec<DispatchRecord>)
        ensures
            r@.len() == enabled_entries(self@).len(),
            forall|k: int|
                0 <= k < r@.len() ==> (#[trigger] r@[k]).plugin@ == enabled_entries(
                    self@,
                )[k].info.name@ && r@[k].handler@ == handler_name_spec(*event) && opt_text_view(
                    r@[k].payload,
                ) == payload_spec(*event),
    {
        let handler = event_handler_name(event);
        let payload = event_payload(event);
        let mut report: Vec<DispatchRecord> = Vec::new();
        let mut i: usize = 0;
        while i < self.plugins.len()
            invariant
                i <= self@.len(),
                handler@ == handler_name_spec(*event),
                opt_text_view(payload) == payload_spec(*event),
                report@.len() == enabled_entries(self@.take(i as int)).len(),
                forall|k: int|
                    0 <= k < report@.len() ==> (#[trigger] report@[k]).plugin@ == enabled_entries(
                        self@.take(i as int),
                    )[k].info.name@ && report@[k].handler@ == handler_name_spec(*event)
                        && opt_text_view(report@[k].payload) == payload_spec(*event),
            decreases self@.len() - i,
        {
            proof {
                assert(self@.take(i as int + 1).drop_last() =~= self@.take(i as int));
            }
            let e = &self.plugins[i];
            if e.info.enabled {
                let payload_ref: Option<&str> = match &payload {
                    Option::None => Option::None,
                    Option::Some(p) => Option::Some(p.as_str()),
                };
                let outcome = e.session.call_function(handler.as_str(), payload_ref);
                let status = classify_dispatch(&outcome);
                report.push(
                    DispatchRecord {
                        plugin: e.info.name.clone(),
                        handler: handler.clone(),
                        payload: clone_opt_text(&payload),
                        status,
                    },
                );
            }
            i = i + 1;
        }
        proof {
            assert(self@.take(self@.len() as int) =~= self@);
        }
        report
    }
}

} // verus!
