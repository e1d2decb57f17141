//! Configuration: setting entries, their validation, the layered
//! resolution policy (Default < User < Workspace < Runtime) and the
//! SQLite-backed settings table.
use vstd::prelude::*;

use crate::db::{is_storage_error, opt_int_at, read_opt_int, read_text, row_error, row_error_message, text_at, SqlParam, SqlValue, SqliteConnection};
use crate::error::{AppError, ErrorCategory, ErrorCode};
use crate::ids::WorkspaceId;
use crate::records::{is_first_match, lemma_first_match_index, position_record, Record};
use crate::study_store::first_with;
use crate::text::{chars_of, push_str, str_eq, string_from_chars};

verus! {

/// Whether a setting applies everywhere or to one workspace.
#[derive(Debug, Clone, Copy, PartialEq, Eq, Structural)]
pub enum SettingsScope {
    Global,
    Workspace,
}

/// One configuration value with its declared type and scope.
#[derive(Debug, Clone)]
pub struct SettingEntry {
    pub key: String,
    pub value: String,
    pub value_type: String,
    pub scope: SettingsScope,
    pub workspace_id: Option<WorkspaceId>,
    pub updated_at: String,
}

pub ghost struct SettingEntryView {
    pub key: Seq<char>,
    pub value: Seq<char>,
    pub value_type: Seq<char>,
    pub scope: SettingsScope,
    pub workspace_id: Option<WorkspaceId>,
    pub updated_at: Seq<char>,
}

impl View for SettingEntry {
    type V = SettingEntryView;

    open spec fn view(&self) -> SettingEntryView {
        SettingEntryView {
            key: self.key@,
            value: self.value@,
            value_type: self.value_type@,
            scope: self.scope,
            workspace_id: self.workspace_id,
            updated_at: self.updated_at@,
        }
    }
}

impl Record for SettingEntry {
    fn duplicate(&self) -> (r: Self) {
        SettingEntry {
            key: self.key.clone(),
            value: self.value.clone(),
            value_type: self.value_type.clone(),
            scope: self.scope,
            workspace_id: self.workspace_id,
            updated_at: self.updated_at.clone(),
        }
    }
}

// ---------------------------------------------------------------------
// Validation
// ---------------------------------------------------------------------

pub open spec fn allowed_value_type(t: Seq<char>) -> bool {
    t == "string"@ || t == "number"@ || t == "bool"@ || t == "json"@
}

/// Why an entry is refused, if it is: an empty key, a value type outside
/// `string`/`number`/`bool`/`json`, a workspace scope without a workspace,
/// or a global scope with one.
pub open spec fn setting_problem(e: SettingEntryView) -> Option<Seq<char>> {
    if e.key.len() == 0 {
        Some(crate::error::empty_field_message("settings.key"@))
    } else if !allowed_value_type(e.value_type) {
        Some("settings.value_type must be one of: string, number, bool, json"@)
    } else if e.scope == SettingsScope::Workspace && e.workspace_id is None {
        Some("settings.workspace_id is required when scope = Workspace"@)
    } else if e.scope == SettingsScope::Global && e.workspace_id is Some {
        Some("settings.workspace_id must be empty when scope = Global"@)
    } else {
        None
    }
}

/// The code of the error reported for a refused entry: a malformed field
/// is a validation error, an inconsistent scope a configuration error.
pub open spec fn setting_problem_code(e: SettingEntryView) -> ErrorCode {
    if e.key.len() == 0 || !allowed_value_type(e.value_type) {
        ErrorCode::ValidationError
    } else {
        ErrorCode::ConfigurationError
    }
}

/// Checks an entry before any layer or store accepts it.
pub fn validate_setting_entry(entry: &SettingEntry) -> (r: Result<(), AppError>)
    ensures
        match r {
            Ok(()) => setting_problem(entry@) is None,
            Err(e) => setting_problem(entry@) == Some(e.message@) && e.code == setting_problem_code(
                entry@,
            ) && e.category == ErrorCategory::UserError,
        },
{
    crate::error::require_non_empty("settings.key", entry.key.as_str())?;
    let t = entry.value_type.as_str();
    if !(str_eq(t, "string") || str_eq(t, "number") || str_eq(t, "bool") || str_eq(t, "json")) {
        return Err(
            AppError::new(
                ErrorCode::ValidationError,
                ErrorCategory::UserError,
                "settings.value_type must be one of: string, number, bool, json".to_owned(),
            ),
        );
    }
    match (entry.scope, entry.workspace_id) {
        (SettingsScope::Workspace, None) => Err(
            AppError::configuration("settings.workspace_id is required when scope = Workspace".to_owned()),
        ),
        (SettingsScope::Global, Some(_)) => Err(
            AppError::configuration("settings.workspace_id must be empty when scope = Global".to_owned()),
        ),
        _ => Ok(()),
    }
}

// ---------------------------------------------------------------------
// Layered resolution
// ---------------------------------------------------------------------

/// Which configuration layer a value belongs to.
#[derive(Debug, Clone, Copy, PartialEq, Eq, Hash, Structural)]
pub enum ConfigLayer {
    Default,
    User,
    Workspace,
    Runtime,
}

/// A stored value: its layer and the entry.
pub struct LayerEntry {
    pub layer: ConfigLayer,
    pub entry: SettingEntry,
}

pub ghost struct LayerEntryView {
    pub layer: ConfigLayer,
    pub entry: SettingEntryView,
}

impl View for LayerEntry {
    type V = LayerEntryView;

    open spec fn view(&self) -> LayerEntryView {
        LayerEntryView { layer: self.layer, entry: self.entry@ }
    }
}

pub open spec fn ws_key(w: Option<WorkspaceId>) -> Option<i64> {
    match w {
        Some(x) => Some(x.0),
        None => None,
    }
}

pub open spec fn stored_under(layer: ConfigLayer, key: Seq<char>, ws: Option<i64>) -> spec_fn(LayerEntryView) -> bool {
    |e: LayerEntryView| e.layer == layer && e.entry.key == key && ws_key(e.entry.workspace_id) == ws
}

/// The value stored in `layer` for `key` and workspace `ws` (`None` for
/// an unscoped value).
pub open spec fn stored_value(s: Seq<LayerEntryView>, layer: ConfigLayer, key: Seq<char>, ws: Option<i64>) -> Option<SettingEntryView> {
    match first_with(s, stored_under(layer, key, ws)) {
        Some(e) => Some(e.entry),
        None => None,
    }
}

/// What one layer answers for `key` looked up for `ws`: the value scoped
/// to `ws`, else, for a workspace lookup, that layer's unscoped value.
pub open spec fn layer_answer(s: Seq<LayerEntryView>, layer: ConfigLayer, key: Seq<char>, ws: Option<i64>) -> Option<SettingEntryView> {
    match stored_value(s, layer, key, ws) {
        Some(e) => Some(e),
        None => if ws is Some {
            stored_value(s, layer, key, None)
        } else {
            None
        },
    }
}

/// The resolved value: the first layer with an answer, searching Runtime,
/// Workspace, User, then Default.
pub open spec fn resolved(s: Seq<LayerEntryView>, key: Seq<char>, ws: Option<i64>) -> Option<SettingEntryView> {
    match layer_answer(s, ConfigLayer::Runtime, key, ws) {
        Some(e) => Some(e),
        None => match layer_answer(s, ConfigLayer::Workspace, key, ws) {
            Some(e) => Some(e),
            None => match layer_answer(s, ConfigLayer::User, key, ws) {
                Some(e) => Some(e),
                None => layer_answer(s, ConfigLayer::Default, key, ws),
            },
        },
    }
}

/// A layer's precedence: Default < User < Workspace < Runtime.
pub open spec fn layer_rank(l: ConfigLayer) -> nat {
    match l {
        ConfigLayer::Default => 0,
        ConfigLayer::User => 1,
        ConfigLayer::Workspace => 2,
        ConfigLayer::Runtime => 3,
    }
}

/// A setting resolves to the answer of the highest-precedence layer that
/// has one (Default < User < Workspace < Runtime), whatever the lower
/// layers hold; with no layer answering it is unset. So a workspace
/// override wins over a user's global value unless a runtime value is set.
pub proof fn law_highest_layer_wins(s: Seq<LayerEntryView>, key: Seq<char>, ws: Option<i64>)
    ensures
        forall|l: ConfigLayer|
            #![trigger layer_answer(s, l, key, ws)]
            layer_answer(s, l, key, ws) is Some && (forall|h: ConfigLayer|
                #![trigger layer_answer(s, h, key, ws)]
                layer_rank(h) > layer_rank(l) ==> layer_answer(s, h, key, ws) is None) ==> resolved(s, key, ws)
                == layer_answer(s, l, key, ws),
        (forall|l: ConfigLayer| #![trigger layer_answer(s, l, key, ws)] layer_answer(s, l, key, ws) is None)
            ==> resolved(s, key, ws) is None,
        layer_answer(s, ConfigLayer::Workspace, key, ws) is Some && layer_answer(s, ConfigLayer::Runtime, key, ws)
            is None ==> resolved(s, key, ws) == layer_answer(s, ConfigLayer::Workspace, key, ws),
{
    assert forall|l: ConfigLayer|
        #![trigger layer_answer(s, l, key, ws)]
        layer_answer(s, l, key, ws) is Some && (forall|h: ConfigLayer|
            #![trigger layer_answer(s, h, key, ws)]
            layer_rank(h) > layer_rank(l) ==> layer_answer(s, h, key, ws) is None) implies resolved(s, key, ws)
            == layer_answer(s, l, key, ws) by {
        assert(layer_rank(ConfigLayer::Runtime) == 3);
        let r = layer_answer(s, ConfigLayer::Runtime, key, ws);
        let w = layer_answer(s, ConfigLayer::Workspace, key, ws);
        let u = layer_answer(s, ConfigLayer::User, key, ws);
        let d = layer_answer(s, ConfigLayer::Default, key, ws);
    }
    if forall|l: ConfigLayer| #![trigger layer_answer(s, l, key, ws)] layer_answer(s, l, key, ws) is None {
        let r = layer_answer(s, ConfigLayer::Runtime, key, ws);
        let w = layer_answer(s, ConfigLayer::Workspace, key, ws);
        let u = layer_answer(s, ConfigLayer::User, key, ws);
        let d = layer_answer(s, ConfigLayer::Default, key, ws);
    }
    let r = layer_answer(s, ConfigLayer::Runtime, key, ws);
}

proof fn lemma_stored_value_fits(s: Seq<LayerEntryView>, layer: ConfigLayer, key: Seq<char>, ws: Option<i64>)
    ensures
        stored_value(s, layer, key, ws) matches Some(e) ==> e.key == key && ws_key(e.workspace_id) == ws,
{
    let p = stored_under(layer, key, ws);
    if crate::records::first_match_index(s, p) is Some {
        let i = choose|i: int| crate::records::is_first_match(s, p, i);
        assert(crate::records::is_first_match(s, p, i));
        assert(p(s[i]));
    }
}

/// A resolved setting is a value stored for the key looked up: for a
/// global lookup an unscoped value, for a workspace lookup a value scoped
/// to that workspace or an unscoped one, never another workspace's.
pub proof fn law_resolved_value_fits_the_lookup(s: Seq<LayerEntryView>, key: Seq<char>, ws: Option<i64>)
    ensures
        resolved(s, key, ws) matches Some(e) ==> e.key == key && (ws_key(e.workspace_id) == ws || e.workspace_id
            is None),
        ws is None ==> (resolved(s, key, ws) matches Some(e) ==> e.workspace_id is None),
{
    lemma_stored_value_fits(s, ConfigLayer::Runtime, key, ws);
    lemma_stored_value_fits(s, ConfigLayer::Workspace, key, ws);
    lemma_stored_value_fits(s, ConfigLayer::User, key, ws);
    lemma_stored_value_fits(s, ConfigLayer::Default, key, ws);
    lemma_stored_value_fits(s, ConfigLayer::Runtime, key, None);
    lemma_stored_value_fits(s, ConfigLayer::Workspace, key, None);
    lemma_stored_value_fits(s, ConfigLayer::User, key, None);
    lemma_stored_value_fits(s, ConfigLayer::Default, key, None);
}

/// The layer a plain `set` writes to: User for global entries, Workspace
/// for workspace-scoped ones.
pub open spec fn layer_for_scope(scope: SettingsScope) -> ConfigLayer {
    match scope {
        SettingsScope::Global => ConfigLayer::User,
        SettingsScope::Workspace => ConfigLayer::Workspace,
    }
}

/// `a` and `b` are stored under the same layer, key and workspace.
pub open spec fn same_slot(a: LayerEntryView, b: LayerEntryView) -> bool {
    a.layer == b.layer && a.entry.key == b.entry.key && ws_key(a.entry.workspace_id) == ws_key(
        b.entry.workspace_id,
    )
}

/// No two stored values share layer, key and workspace.
pub open spec fn layers_unique(s: Seq<LayerEntryView>) -> bool {
    forall|i: int, j: int| 0 <= i < j < s.len() ==> !same_slot(#[trigger] s[i], #[trigger] s[j])
}

/// Four configuration layers with override precedence.
pub struct LayeredSettingsProvider {
    entries: Vec<LayerEntry>,
}

impl View for LayeredSettingsProvider {
    type V = Seq<LayerEntryView>;

    closed spec fn view(&self) -> Seq<LayerEntryView> {
        crate::records::views(self.entries@)
    }
}

impl LayeredSettingsProvider {
    pub open spec fn wf(&self) -> bool {
        layers_unique(self@)
    }

    /// A provider with all four layers empty.
    pub fn new() -> (r: Self)
        ensures
            r.wf(),
            r@ == Seq::<LayerEntryView>::empty(),
    {
        let r = LayeredSettingsProvider { entries: Vec::new() };
        assert(r@ =~= Seq::<LayerEntryView>::empty());
        r
    }

    /// Validates `entry` and stores it in `layer`, replacing the value
    /// stored there for the same key and workspace. A refused entry
    /// changes nothing.
    pub fn set_in_layer(&mut self, layer: ConfigLayer, entry: SettingEntry) -> (r: Result<(), AppError>)
        requires
            old(self).wf(),
        ensures
            final(self).wf(),
            match r {
                Ok(()) => setting_problem(entry@) is None && forall|l: ConfigLayer, k: Seq<char>, w: Option<i64>|
                    #[trigger] stored_value(final(self)@, l, k, w) == if l == layer && k == entry@.key && w
                        == ws_key(entry@.workspace_id) {
                        Some(entry@)
                    } else {
                        stored_value(old(self)@, l, k, w)
                    },
                Err(e) => setting_problem(entry@) == Some(e.message@) && final(self)@ == old(self)@,
            },
    {
        validate_setting_entry(&entry)?;
        let ghost s = self@;
        let ghost ev = entry@;
        let ws = match entry.workspace_id {
            Some(w) => Some(w.0),
            None => None,
        };
        let pos = position_record(
            &self.entries,
            |e: &LayerEntry| -> (b: bool)
                ensures b == stored_under(layer, entry@.key, ws)(e@)
                {
                    e.layer == layer && str_eq(e.entry.key.as_str(), entry.key.as_str()) && match (
                        e.entry.workspace_id,
                        ws,
                    ) {
                        (Some(a), Some(b)) => a.0 == b,
                        (None, None) => true,
                        _ => false,
                    }
                },
            Ghost(stored_under(layer, entry@.key, ws)),
        );
        let item = LayerEntry { layer, entry };
        let ghost iv = item@;
        match pos {
            Some(i) => {
                self.entries.set(i, item);
                proof {
                    assert(self@ =~= s.update(i as int, iv));
                    lemma_replace_value(s, i as int, iv);
                }
            },
            None => {
                self.entries.push(item);
                proof {
                    assert(self@ =~= s.push(iv));
                    lemma_add_value(s, iv);
                }
            },
        }
        Ok(())
    }

    fn lookup(&self, layer: ConfigLayer, key: &str, ws: Option<i64>) -> (r: Option<SettingEntry>)
        ensures
            match r {
                Some(e) => stored_value(self@, layer, key@, ws) == Some(e@),
                None => stored_value(self@, layer, key@, ws) is None,
            },
    {
        let pos = crate::records::find_first(
            &self.entries,
            |e: &LayerEntry| -> (b: bool)
                ensures b == stored_under(layer, key@, ws)(e@)
                {
                    e.layer == layer && str_eq(e.entry.key.as_str(), key) && match (e.entry.workspace_id, ws) {
                        (Some(a), Some(b)) => a.0 == b,
                        (None, None) => true,
                        _ => false,
                    }
                },
            Ghost(stored_under(layer, key@, ws)),
        );
        match pos {
            Some(i) => Some(self.entries[i].entry.duplicate()),
            None => None,
        }
    }

    fn answer(&self, layer: ConfigLayer, key: &str, ws: Option<i64>) -> (r: Option<SettingEntry>)
        ensures
            match r {
                Some(e) => layer_answer(self@, layer, key@, ws) == Some(e@),
                None => layer_answer(self@, layer, key@, ws) is None,
            },
    {
        match self.lookup(layer, key, ws) {
            Some(e) => Some(e),
            None => if ws.is_some() {
                self.lookup(layer, key, None)
            } else {
                None
            },
        }
    }

    fn resolve(&self, key: &str, ws: Option<i64>) -> (r: Option<SettingEntry>)
        ensures
            match r {
                Some(e) => resolved(self@, key@, ws) == Some(e@),
                None => resolved(self@, key@, ws) is None,
            },
    {
        match self.answer(ConfigLayer::Runtime, key, ws) {
            Some(e) => Some(e),
            None => match self.answer(ConfigLayer::Workspace, key, ws) {
                Some(e) => Some(e),
                None => match self.answer(ConfigLayer::User, key, ws) {
                    Some(e) => Some(e),
                    None => self.answer(ConfigLayer::Default, key, ws),
                },
            },
        }
    }

    /// The value of `key` outside any workspace.
    pub fn get_global(&self, key: &str) -> (r: Result<Option<SettingEntry>, AppError>)
        ensures
            r matches Ok(o) && match o {
                Some(e) => resolved(self@, key@, None) == Some(e@),
                None => resolved(self@, key@, None) is None,
            },
    {
        Ok(self.resolve(key, None))
    }

    /// The value of `key` as seen from one workspace.
    pub fn get_for_workspace(&self, key: &str, workspace_id: WorkspaceId) -> (r: Result<
        Option<SettingEntry>,
        AppError,
    >)
        ensures
            r matches Ok(o) && match o {
                Some(e) => resolved(self@, key@, Some(workspace_id.0)) == Some(e@),
                None => resolved(self@, key@, Some(workspace_id.0)) is None,
            },
    {
        Ok(self.resolve(key, Some(workspace_id.0)))
    }

    /// Stores `entry` in the layer its scope implies.
    pub fn set(&mut self, entry: SettingEntry) -> (r: Result<(), AppError>)
        requires
            old(self).wf(),
        ensures
            final(self).wf(),
            match r {
                Ok(()) => setting_problem(entry@) is None && forall|l: ConfigLayer, k: Seq<char>, w: Option<i64>|
                    #[trigger] stored_value(final(self)@, l, k, w) == if l == layer_for_scope(entry@.scope) && k
                        == entry@.key && w == ws_key(entry@.workspace_id) {
                        Some(entry@)
                    } else {
                        stored_value(old(self)@, l, k, w)
                    },
                Err(e) => setting_problem(entry@) == Some(e.message@) && final(self)@ == old(self)@,
            },
    {
        let layer = match entry.scope {
            SettingsScope::Global => ConfigLayer::User,
            SettingsScope::Workspace => ConfigLayer::Workspace,
        };
        self.set_in_layer(layer, entry)
    }
}

proof fn lemma_stored_value_same(s: Seq<LayerEntryView>, t: Seq<LayerEntryView>, l: ConfigLayer, k: Seq<char>, w: Option<i64>)
    requires
        s.len() <= t.len(),
        forall|j: int| 0 <= j < s.len() ==> #[trigger] t[j] == s[j] || (!stored_under(l, k, w)(s[j]) && !stored_under(l, k, w)(t[j])),
        forall|j: int| s.len() <= j < t.len() ==> !stored_under(l, k, w)(#[trigger] t[j]),
    ensures
        stored_value(t, l, k, w) == stored_value(s, l, k, w),
{
    let p = stored_under(l, k, w);
    if exists|j: int| is_first_match(s, p, j) {
        let j = choose|j: int| is_first_match(s, p, j);
        assert(is_first_match(t, p, j));
        lemma_first_match_index(s, p, j);
        lemma_first_match_index(t, p, j);
    } else if exists|j: int| is_first_match(t, p, j) {
        let j = choose|j: int| is_first_match(t, p, j);
        assert(j < s.len());
        assert(p(s[j]));
        assert forall|k: int| 0 <= k < j implies !p(#[trigger] s[k]) by {
            assert(!p(t[k]));
        }
        assert(is_first_match(s, p, j));
    }
}

proof fn lemma_replace_value(s: Seq<LayerEntryView>, i: int, iv: LayerEntryView)
    requires
        layers_unique(s),
        is_first_match(s, stored_under(iv.layer, iv.entry.key, ws_key(iv.entry.workspace_id)), i),
    ensures
        layers_unique(s.update(i, iv)),
        forall|l: ConfigLayer, k: Seq<char>, w: Option<i64>|
            #[trigger] stored_value(s.update(i, iv), l, k, w) == if l == iv.layer && k == iv.entry.key && w
                == ws_key(iv.entry.workspace_id) {
                Some(iv.entry)
            } else {
                stored_value(s, l, k, w)
            },
{
    let t = s.update(i, iv);
    let p0 = stored_under(iv.layer, iv.entry.key, ws_key(iv.entry.workspace_id));
    assert(is_first_match(t, p0, i));
    lemma_first_match_index(t, p0, i);
    assert forall|l: ConfigLayer, k: Seq<char>, w: Option<i64>| #[trigger] stored_value(t, l, k, w)
        == if l == iv.layer && k == iv.entry.key && w == ws_key(iv.entry.workspace_id) {
        Some(iv.entry)
    } else {
        stored_value(s, l, k, w)
    } by {
        if !(l == iv.layer && k == iv.entry.key && w == ws_key(iv.entry.workspace_id)) {
            lemma_stored_value_same(s, t, l, k, w);
        }
    }
    assert forall|a: int, b: int| 0 <= a < b < t.len() implies !same_slot(#[trigger] t[a], #[trigger] t[b]) by {
        if a == i {
            assert(!p0(s[b]) || b < i);
            assert(!same_slot(s[a], s[b]));
        } else if b == i {
            assert(!p0(s[a]));
        } else {
            assert(!same_slot(s[a], s[b]));
        }
    }
}

proof fn lemma_add_value(s: Seq<LayerEntryView>, iv: LayerEntryView)
    requires
        layers_unique(s),
        forall|k: int| 0 <= k < s.len() ==> !stored_under(iv.layer, iv.entry.key, ws_key(iv.entry.workspace_id))(#[trigger] s[k]),
    ensures
        layers_unique(s.push(iv)),
        forall|l: ConfigLayer, k: Seq<char>, w: Option<i64>|
            #[trigger] stored_value(s.push(iv), l, k, w) == if l == iv.layer && k == iv.entry.key && w
                == ws_key(iv.entry.workspace_id) {
                Some(iv.entry)
            } else {
                stored_value(s, l, k, w)
            },
{
    let t = s.push(iv);
    let p0 = stored_under(iv.layer, iv.entry.key, ws_key(iv.entry.workspace_id));
    assert(is_first_match(t, p0, s.len() as int));
    lemma_first_match_index(t, p0, s.len() as int);
    assert forall|l: ConfigLayer, k: Seq<char>, w: Option<i64>| #[trigger] stored_value(t, l, k, w)
        == if l == iv.layer && k == iv.entry.key && w == ws_key(iv.entry.workspace_id) {
        Some(iv.entry)
    } else {
        stored_value(s, l, k, w)
    } by {
        if !(l == iv.layer && k == iv.entry.key && w == ws_key(iv.entry.workspace_id)) {
            lemma_stored_value_same(s, t, l, k, w);
        }
    }
    assert forall|a: int, b: int| 0 <= a < b < t.len() implies !same_slot(#[trigger] t[a], #[trigger] t[b]) by {
        if b < s.len() {
            assert(!same_slot(s[a], s[b]));
        } else {
            assert(!p0(s[a]));
        }
    }
}

/// A value written to the Runtime layer is what every lookup of its key
/// returns, whatever the other layers hold.
pub proof fn law_runtime_layer_wins(s: Seq<LayerEntryView>, key: Seq<char>, e: SettingEntryView)
    requires
        stored_value(s, ConfigLayer::Runtime, key, None) == Some(e),
    ensures
        resolved(s, key, None) == Some(e),
        forall|w: i64| stored_value(s, ConfigLayer::Runtime, key, Some(w)) is None ==> resolved(s, key, Some(w)) == Some(e),
{
}

/// A global value set through `set` is what `get_global` returns for its
/// key, unless the Runtime layer holds a value for that key.
pub proof fn law_set_global_then_get(before: Seq<LayerEntryView>, after: Seq<LayerEntryView>, e: SettingEntryView)
    requires
        e.scope == SettingsScope::Global,
        e.workspace_id is None,
        forall|l: ConfigLayer, k: Seq<char>, w: Option<i64>|
            #[trigger] stored_value(after, l, k, w) == if l == layer_for_scope(e.scope) && k == e.key && w == ws_key(
                e.workspace_id,
            ) {
                Some(e)
            } else {
                stored_value(before, l, k, w)
            },
        stored_value(before, ConfigLayer::Runtime, e.key, None) is None,
        stored_value(before, ConfigLayer::Workspace, e.key, None) is None,
    ensures
        resolved(after, e.key, None) == Some(e),
{
    assert(stored_value(after, ConfigLayer::Runtime, e.key, None) == stored_value(before, ConfigLayer::Runtime, e.key, None));
    assert(stored_value(after, ConfigLayer::Workspace, e.key, None) == stored_value(before, ConfigLayer::Workspace, e.key, None));
    assert(stored_value(after, ConfigLayer::User, e.key, None) == Some(e));
}

/// A workspace lookup sees the workspace's own value in a layer before
/// that layer's unscoped value, and falls back to the unscoped value when
/// the workspace has none.
pub proof fn law_workspace_fallback(s: Seq<LayerEntryView>, l: ConfigLayer, key: Seq<char>, w: i64)
    ensures
        stored_value(s, l, key, Some(w)) is Some ==> layer_answer(s, l, key, Some(w)) == stored_value(s, l, key, Some(w)),
        stored_value(s, l, key, Some(w)) is None ==> layer_answer(s, l, key, Some(w)) == stored_value(s, l, key, None),
{
}

// ---------------------------------------------------------------------
// The settings table
// ---------------------------------------------------------------------

pub open spec fn scope_name(s: SettingsScope) -> Seq<char> {
    match s {
        SettingsScope::Global => "global"@,
        SettingsScope::Workspace => "workspace"@,
    }
}

pub open spec fn scope_named(s: Seq<char>) -> Option<SettingsScope> {
    if s == "global"@ {
        Some(SettingsScope::Global)
    } else if s == "workspace"@ {
        Some(SettingsScope::Workspace)
    } else {
        None
    }
}

pub fn scope_to_str(s: SettingsScope) -> (r: &'static str)
    ensures
        r@ == scope_name(s),
{
    match s {
        SettingsScope::Global => "global",
        SettingsScope::Workspace => "workspace",
    }
}

pub fn scope_from_str(s: &str) -> (r: Result<SettingsScope, AppError>)
    ensures
        match r {
            Ok(x) => scope_named(s@) == Some(x),
            Err(e) => scope_named(s@) is None && is_storage_error(e) && e.message@
                == "unrecognized settings scope in database: "@ + s@,
        },
{
    if str_eq(s, "global") {
        Ok(SettingsScope::Global)
    } else if str_eq(s, "workspace") {
        Ok(SettingsScope::Workspace)
    } else {
        let mut m: Vec<char> = Vec::new();
        push_str(&mut m, "unrecognized settings scope in database: ");
        push_str(&mut m, s);
        Err(AppError::storage(string_from_chars(m.as_slice())))
    }
}

/// A `settings` row: `key, value, value_type, scope, workspace_id,
/// updated_at`.
pub open spec fn setting_row(row: Seq<SqlValue>) -> Result<SettingEntryView, Seq<char>> {
    match (text_at(row, 0), text_at(row, 1), text_at(row, 2), text_at(row, 3), opt_int_at(row, 4), text_at(row, 5)) {
        (Some(k), Some(v), Some(t), Some(sc), Some(w), Some(u)) => match scope_named(sc) {
            Some(scope) => Ok(
                SettingEntryView {
                    key: k,
                    value: v,
                    value_type: t,
                    scope,
                    workspace_id: match w {
                        Some(x) => Some(WorkspaceId(x)),
                        None => None,
                    },
                    updated_at: u,
                },
            ),
            None => Err("unrecognized settings scope in database: "@ + sc),
        },
        _ => Err(row_error_message("setting"@)),
    }
}

pub fn setting_from_row(row: &Vec<SqlValue>) -> (r: Result<SettingEntry, AppError>)
    ensures
        match r {
            Ok(e) => setting_row(row@) == Ok::<SettingEntryView, Seq<char>>(e@),
            Err(e) => setting_row(row@) == Err::<SettingEntryView, Seq<char>>(e.message@)
                && is_storage_error(e),
        },
{
    match (read_text(row, 0), read_text(row, 1), read_text(row, 2), read_text(row, 3), read_opt_int(row, 4), read_text(row, 5)) {
        (Some(k), Some(v), Some(t), Some(sc), Some(w), Some(u)) => {
            let scope = scope_from_str(sc.as_str())?;
            Ok(
                SettingEntry {
                    key: k,
                    value: v,
                    value_type: t,
                    scope,
                    workspace_id: match w {
                        Some(x) => Some(WorkspaceId(x)),
                        None => None,
                    },
                    updated_at: u,
                },
            )
        },
        _ => Err(row_error("setting")),
    }
}

/// Settings kept in the `settings` table.
pub struct SqliteSettingsProvider {
    connection: SqliteConnection,
}

impl SqliteSettingsProvider {
    pub fn new(connection: SqliteConnection) -> (r: Self)
        ensures
            r.conn() == connection,
    {
        SqliteSettingsProvider { connection }
    }

    /// The connection this provider was made with.
    pub closed spec fn conn(&self) -> SqliteConnection {
        self.connection
    }

    pub fn connection(&self) -> (r: &SqliteConnection)
        ensures
            *r == self.conn(),
    {
        &self.connection
    }

    fn first_setting(&self, context: &str, sql: &str, params: &Vec<SqlParam>) -> (r: Result<
        Option<SettingEntry>,
        AppError,
    >)
        ensures
            !self.conn().is_open() ==> r is Err,
            match r {
                Ok(Some(e)) => exists|row: Vec<SqlValue>| #[trigger] setting_row(row@) == Ok::<SettingEntryView, Seq<char>>(e@),
                Ok(None) => true,
                Err(e) => is_storage_error(e),
            },
    {
        let rows = self.connection.query(context, sql, params)?;
        if rows.len() == 0 {
            Ok(None)
        } else {
            let e = setting_from_row(&rows[0])?;
            Ok(Some(e))
        }
    }

    /// The global value of `key`, if one is stored.
    pub fn get_global(&self, key: &str) -> (r: Result<Option<SettingEntry>, AppError>)
        ensures
            !self.conn().is_open() ==> r is Err,
            match r {
                Ok(Some(e)) => exists|row: Vec<SqlValue>| #[trigger] setting_row(row@) == Ok::<SettingEntryView, Seq<char>>(e@),
                Ok(None) => true,
                Err(e) => is_storage_error(e),
            },
    {
        let mut params: Vec<SqlParam> = Vec::new();
        params.push(SqlParam::Text(key.to_owned()));
        self.first_setting(
            "settings get_global failed",
            "SELECT key, value, value_type, scope, workspace_id, updated_at FROM settings WHERE key = ?1 AND scope = 'global'",
            &params,
        )
    }

    /// The value of `key` scoped to `workspace_id`, falling back to the
    /// global value when the workspace has none.
    pub fn get_for_workspace(&self, key: &str, workspace_id: WorkspaceId) -> (r: Result<
        Option<SettingEntry>,
        AppError,
    >)
        ensures
            !self.conn().is_open() ==> r is Err,
            match r {
                Ok(Some(e)) => exists|row: Vec<SqlValue>| #[trigger] setting_row(row@) == Ok::<SettingEntryView, Seq<char>>(e@),
                Ok(None) => true,
                Err(e) => is_storage_error(e),
            },
    {
        let mut params: Vec<SqlParam> = Vec::new();
        params.push(SqlParam::Text(key.to_owned()));
        params.push(SqlParam::Integer(workspace_id.0));
        match self.first_setting(
            "settings get_for_workspace failed",
            "SELECT key, value, value_type, scope, workspace_id, updated_at FROM settings WHERE key = ?1 AND scope = 'workspace' AND workspace_id = ?2",
            &params,
        )? {
            Some(e) => Ok(Some(e)),
            None => self.get_global(key),
        }
    }

    /// Updates the stored value with the same key, scope and workspace, or
    /// inserts one when there is none.
    pub fn set(&self, entry: SettingEntry) -> (r: Result<(), AppError>)
        ensures
            !self.conn().is_open() ==> r is Err,
            r matches Err(e) ==> is_storage_error(e),
    {
        let scope = scope_to_str(entry.scope);
        let ws = match entry.workspace_id {
            Some(w) => SqlParam::Integer(w.0),
            None => SqlParam::Null,
        };
        let mut params: Vec<SqlParam> = Vec::new();
        params.push(SqlParam::Text(entry.value.clone()));
        params.push(SqlParam::Text(entry.value_type.clone()));
        params.push(SqlParam::Text(entry.updated_at.clone()));
        params.push(SqlParam::Text(entry.key.clone()));
        params.push(SqlParam::Text(scope.to_owned()));
        params.push(ws.clone());
        let affected = self.connection.execute(
            "settings update failed",
            "UPDATE settings SET value = ?1, value_type = ?2, updated_at = ?3
             WHERE key = ?4 AND scope = ?5 AND (workspace_id = ?6 OR (workspace_id IS NULL AND ?6 IS NULL))",
            &params,
        )?;
        if affected == 0 {
            let mut ins: Vec<SqlParam> = Vec::new();
            ins.push(SqlParam::Text(entry.key.clone()));
            ins.push(SqlParam::Text(entry.value.clone()));
            ins.push(SqlParam::Text(entry.value_type.clone()));
            ins.push(SqlParam::Text(scope.to_owned()));
            ins.push(ws);
            ins.push(SqlParam::Text(entry.updated_at.clone()));
            self.connection.execute(
                "settings insert failed",
                "INSERT INTO settings (key, value, value_type, scope, workspace_id, updated_at) VALUES (?1, ?2, ?3, ?4, ?5, ?6)",
                &ins,
            )?;
        }
        Ok(())
    }
}

/// The view of a looked-up entry, if any.
pub open spec fn opt_entry_view(o: Option<SettingEntry>) -> Option<SettingEntryView> {
    match o {
        Some(e) => Some(e@),
        None => None,
    }
}

/// Where configuration is read and written. Implemented by the layered
/// in-memory resolver and by the SQLite `settings` table.
pub trait SettingsProvider {
    /// The implementation's own invariant.
    spec fn inv(&self) -> bool;

    /// What a lookup of `key` can answer, outside any workspace (`ws` is
    /// `None`) or as seen from workspace `ws`: exactly the resolved value
    /// for the layered resolver; for the database, whatever a stored row
    /// decodes to.
    spec fn lookup_answer(&self, key: Seq<char>, ws: Option<i64>, r: Option<SettingEntryView>) -> bool;

    /// The value of `key` outside any workspace.
    fn get_global(&self, key: &str) -> (r: Result<Option<SettingEntry>, AppError>)
        ensures
            r matches Ok(o) ==> self.lookup_answer(key@, None, opt_entry_view(o)),
    ;

    /// The value of `key` as seen from one workspace.
    fn get_for_workspace(&self, key: &str, workspace_id: WorkspaceId) -> (r: Result<Option<SettingEntry>, AppError>)
        ensures
            r matches Ok(o) ==> self.lookup_answer(key@, Some(workspace_id.0), opt_entry_view(o)),
    ;

    /// Stores `entry` under its own scope.
    fn set(&mut self, entry: SettingEntry) -> (r: Result<(), AppError>)
        requires
            old(self).inv(),
        ensures
            final(self).inv(),
    ;
}

impl SettingsProvider for LayeredSettingsProvider {
    open spec fn inv(&self) -> bool {
        self.wf()
    }

    open spec fn lookup_answer(&self, key: Seq<char>, ws: Option<i64>, r: Option<SettingEntryView>) -> bool {
        r == resolved(self@, key, ws)
    }

    fn get_global(&self, key: &str) -> (r: Result<Option<SettingEntry>, AppError>)
        ensures
            r matches Ok(o) && opt_entry_view(o) == resolved(self@, key@, None),
    {
        LayeredSettingsProvider::get_global(self, key)
    }

    fn get_for_workspace(&self, key: &str, workspace_id: WorkspaceId) -> (r: Result<Option<SettingEntry>, AppError>)
        ensures
            r matches Ok(o) && opt_entry_view(o) == resolved(self@, key@, Some(workspace_id.0)),
    {
        LayeredSettingsProvider::get_for_workspace(self, key, workspace_id)
    }

    fn set(&mut self, entry: SettingEntry) -> (r: Result<(), AppError>)
        ensures
            match r {
                Ok(()) => setting_problem(entry@) is None && forall|l: ConfigLayer, k: Seq<char>, w: Option<i64>|
                    #[trigger] stored_value(final(self)@, l, k, w) == if l == layer_for_scope(entry@.scope) && k
                        == entry@.key && w == ws_key(entry@.workspace_id) {
                        Some(entry@)
                    } else {
                        stored_value(old(self)@, l, k, w)
                    },
                Err(e) => setting_problem(entry@) == Some(e.message@) && final(self)@ == old(self)@,
            },
    {
        LayeredSettingsProvider::set(self, entry)
    }
}

impl SettingsProvider for SqliteSettingsProvider {
    open spec fn inv(&self) -> bool {
        true
    }

    open spec fn lookup_answer(&self, key: Seq<char>, ws: Option<i64>, r: Option<SettingEntryView>) -> bool {
        match r {
            Some(e) => exists|row: Vec<SqlValue>| #[trigger] setting_row(row@) == Ok::<SettingEntryView, Seq<char>>(e),
            None => true,
        }
    }

    fn get_global(&self, key: &str) -> (r: Result<Option<SettingEntry>, AppError>)
        ensures
            !self.conn().is_open() ==> r is Err,
    {
        SqliteSettingsProvider::get_global(self, key)
    }

    fn get_for_workspace(&self, key: &str, workspace_id: WorkspaceId) -> (r: Result<Option<SettingEntry>, AppError>)
        ensures
            !self.conn().is_open() ==> r is Err,
    {
        SqliteSettingsProvider::get_for_workspace(self, key, workspace_id)
    }

    fn set(&mut self, entry: SettingEntry) -> (r: Result<(), AppError>)
        ensures
            !old(self).conn().is_open() ==> r is Err,
    {
        SqliteSettingsProvider::set(self, entry)
    }
}


// ---------------------------------------------------------------------
// The local model server's address
// ---------------------------------------------------------------------

/// The setting naming the model server's host.
pub const OLLAMA_HOST_KEY: &'static str = "ollama.host";

/// The setting naming the model server's port.
pub const OLLAMA_PORT_KEY: &'static str = "ollama.port";

/// The host used when none is set.
pub const DEFAULT_OLLAMA_HOST: &'static str = "localhost";

/// The model server's own default port, used when none is set or the
/// setting is not a port number.
pub const DEFAULT_OLLAMA_PORT: u16 = 11434;

pub open spec fn is_digit(c: char) -> bool {
    '0' <= c && c <= '9'
}

/// The number the decimal digits `s` write.
pub open spec fn digits_value(s: Seq<char>) -> nat
    decreases s.len(),
{
    if s.len() == 0 {
        0
    } else {
        10 * digits_value(s.drop_last()) + ((s.last() as nat) - 48) as nat
    }
}

/// The digits of a port setting: its text without one leading `+`.
pub open spec fn port_digits(text: Seq<char>) -> Seq<char> {
    if text.len() > 0 && text[0] == '+' {
        text.drop_first()
    } else {
        text
    }
}

/// The port a setting value names: decimal digits, optionally after a
/// `+`, for a number that fits 16 bits.
pub open spec fn port_number(text: Seq<char>) -> Option<u16> {
    let d = port_digits(text);
    if d.len() > 0 && (forall|i: int| 0 <= i < d.len() ==> #[trigger] is_digit(d[i])) && digits_value(d) <= u16::MAX {
        Some(digits_value(d) as u16)
    } else {
        None
    }
}

proof fn lemma_digits_prefix_grows(s: Seq<char>, i: int)
    requires
        0 <= i <= s.len(),
        forall|k: int| 0 <= k < s.len() ==> #[trigger] is_digit(s[k]),
    ensures
        digits_value(s.take(i)) <= digits_value(s),
    decreases s.len() - i,
{
    if i < s.len() {
        lemma_digits_prefix_grows(s, i + 1);
        assert(s.take(i + 1).drop_last() =~= s.take(i));
    } else {
        assert(s.take(i) =~= s);
    }
}

/// Reads a port number as `u16::from_str` does.
pub fn parse_port(text: &str) -> (r: Option<u16>)
    ensures
        r == port_number(text@),
{
    let cs = chars_of(text);
    let start: usize = if cs.len() > 0 && cs[0] == '+' {
        1
    } else {
        0
    };
    let ghost d = port_digits(text@);
    assert(cs@.skip(start as int) =~= d);
    if start >= cs.len() {
        return None;
    }
    let mut i: usize = start;
    while i < cs.len()
        invariant
            start <= i <= cs.len(),
            cs@.skip(start as int) == d,
            cs@ == text@,
            d == port_digits(text@),
            d.len() > 0,
            forall|k: int| start <= k < i ==> #[trigger] is_digit(cs@[k]),
        decreases cs.len() - i,
    {
        if !('0' <= cs[i] && cs[i] <= '9') {
            assert(!is_digit(d[i - start]));
            assert(!(forall|k: int| 0 <= k < d.len() ==> #[trigger] is_digit(d[k])));
            assert(port_number(text@) is None);
            return None;
        }
        i = i + 1;
    }
    assert forall|k: int| 0 <= k < d.len() implies #[trigger] is_digit(d[k]) by {
        assert(d[k] == cs@[k + start]);
    }
    let mut v: u32 = 0;
    let mut j: usize = start;
    while j < cs.len()
        invariant
            start <= j <= cs.len(),
            cs@.skip(start as int) == d,
            cs@ == text@,
            d == port_digits(text@),
            d.len() > 0,
            forall|k: int| 0 <= k < d.len() ==> #[trigger] is_digit(d[k]),
            v == digits_value(d.take(j - start)),
            v <= u16::MAX,
        decreases cs.len() - j,
    {
        assert(d.take(j - start + 1).drop_last() =~= d.take(j - start));
        assert(d.take(j - start + 1).last() == cs@[j as int]);
        let c = cs[j];
        assert(c == d[j - start]);
        assert(is_digit(d[j - start]));
        assert(48 <= (c as u32) <= 57);
        let next = v * 10 + ((c as u32) - 48);
        if next > 65535 {
            proof {
                lemma_digits_prefix_grows(d, j - start + 1);
            }
            return None;
        }
        v = next;
        j = j + 1;
    }
    assert(d.take(d.len() as int) =~= d);
    Some(v as u16)
}

/// The model server's host and port from the lookups of their settings: a
/// set host as it is, otherwise `localhost`; a set port that reads as a
/// port number, otherwise the server's default port. A failed lookup
/// counts as unset.
pub fn ollama_endpoint(host: Result<Option<SettingEntry>, AppError>, port: Result<Option<SettingEntry>, AppError>) -> (r: (
    String,
    u16,
))
    ensures
        r.0@ == match host {
            Ok(Some(e)) => e.value@,
            _ => DEFAULT_OLLAMA_HOST@,
        },
        r.1 == match port {
            Ok(Some(e)) => match port_number(e.value@) {
                Some(p) => p,
                None => DEFAULT_OLLAMA_PORT,
            },
            _ => DEFAULT_OLLAMA_PORT,
        },
{
    let h = match host {
        Ok(Some(e)) => e.value,
        _ => DEFAULT_OLLAMA_HOST.to_owned(),
    };
    let p = match port {
        Ok(Some(e)) => match parse_port(e.value.as_str()) {
            Some(n) => n,
            None => DEFAULT_OLLAMA_PORT,
        },
        _ => DEFAULT_OLLAMA_PORT,
    };
    (h, p)
}


// ---------------------------------------------------------------------
// The size of stored embeddings
// ---------------------------------------------------------------------

/// The setting sizing embedding storage.
pub const EMBEDDING_DIMENSIONS_KEY: &'static str = "embedding.dimensions";

/// The embedding size used when none is set or the setting is not a
/// number.
pub const DEFAULT_EMBEDDING_DIMENSIONS: usize = 1024;

/// The count a setting value names: decimal digits, optionally after a
/// `+`, for a number that fits a `usize`.
pub open spec fn count_number(text: Seq<char>) -> Option<usize> {
    let d = port_digits(text);
    if d.len() > 0 && (forall|i: int| 0 <= i < d.len() ==> #[trigger] is_digit(d[i])) && digits_value(d) <= usize::MAX {
        Some(digits_value(d) as usize)
    } else {
        None
    }
}

/// Reads a count as `usize::from_str` does.
pub fn parse_count(text: &str) -> (r: Option<usize>)
    ensures
        r == count_number(text@),
{
    let cs = chars_of(text);
    let start: usize = if cs.len() > 0 && cs[0] == '+' {
        1
    } else {
        0
    };
    let ghost d = port_digits(text@);
    assert(cs@.skip(start as int) =~= d);
    if start >= cs.len() {
        return None;
    }
    let mut i: usize = start;
    while i < cs.len()
        invariant
            start <= i <= cs.len(),
            cs@.skip(start as int) == d,
            cs@ == text@,
            d == port_digits(text@),
            d.len() > 0,
            forall|k: int| start <= k < i ==> #[trigger] is_digit(cs@[k]),
        decreases cs.len() - i,
    {
        if !('0' <= cs[i] && cs[i] <= '9') {
            assert(!is_digit(d[i - start]));
            assert(!(forall|k: int| 0 <= k < d.len() ==> #[trigger] is_digit(d[k])));
            return None;
        }
        i = i + 1;
    }
    assert forall|k: int| 0 <= k < d.len() implies #[trigger] is_digit(d[k]) by {
        assert(d[k] == cs@[k + start]);
    }
    let mut v: usize = 0;
    let mut j: usize = start;
    while j < cs.len()
        invariant
            start <= j <= cs.len(),
            cs@.skip(start as int) == d,
            cs@ == text@,
            d == port_digits(text@),
            d.len() > 0,
            forall|k: int| 0 <= k < d.len() ==> #[trigger] is_digit(d[k]),
            v == digits_value(d.take(j - start)),
        decreases cs.len() - j,
    {
        assert(d.take(j - start + 1).drop_last() =~= d.take(j - start));
        assert(d.take(j - start + 1).last() == cs@[j as int]);
        let c = cs[j];
        assert(c == d[j - start]);
        assert(is_digit(d[j - start]));
        assert(48 <= (c as u32) <= 57);
        let digit = ((c as u32) - 48) as usize;
        let next = match v.checked_mul(10) {
            Some(t) => t.checked_add(digit),
            None => None,
        };
        match next {
            Some(n) => {
                v = n;
            },
            None => {
                proof {
                    lemma_digits_prefix_grows(d, j - start + 1);
                }
                return None;
            },
        }
        j = j + 1;
    }
    assert(d.take(d.len() as int) =~= d);
    Some(v)
}

/// The embedding size from the lookup of its setting: a set value that
/// reads as a count, otherwise the default. A failed lookup counts as
/// unset.
pub fn embedding_dimensions(lookup: Result<Option<SettingEntry>, AppError>) -> (r: usize)
    ensures
        r == match lookup {
            Ok(Some(e)) => match count_number(e.value@) {
                Some(n) => n,
                None => DEFAULT_EMBEDDING_DIMENSIONS,
            },
            _ => DEFAULT_EMBEDDING_DIMENSIONS,
        },
{
    match lookup {
        Ok(Some(e)) => match parse_count(e.value.as_str()) {
            Some(n) => n,
            None => DEFAULT_EMBEDDING_DIMENSIONS,
        },
        _ => DEFAULT_EMBEDDING_DIMENSIONS,
    }
}

} // verus!
