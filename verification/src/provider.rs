//! Registry-backed construction of OpenAI-compatible providers.
//!
//! A registry holds built-in entries and a runtime overlay of externally
//! registered entries. Lookup goes overlay first, then the first built-in
//! entry of the name; the resolved entry, the API key and per-call options
//! then make an `OpenAIConfig`.

use vstd::prelude::*;

use crate::env::{missing_key_message, Environment};
use crate::error::AiMuxError;
use crate::headers::HeaderMap;
use crate::http::opt_headers;
use crate::json::{copy_opt_json, opt_json_view, Json, JsonValue};
use crate::keyed::KeyedVec;
use crate::openai::model::OpenAIModel;
use crate::openai::{copy_opt_headers, copy_opt_string, OpenAICompatProfile, OpenAIConfig, OpenAIProvider};
use crate::retry::RetryConfig;
use crate::text::{
    chars_of, chars_start_with, concat, concat3, debug_quoted, debug_str, has_char, is_blank,
    is_blank_spec, is_prefix, str_eq, str_has_char, str_skip, str_starts_with,
    without_trailing_slash_spec,
};

verus! {

/// A provider's capability profile as registry data; absent fields mean
/// full capability.
#[derive(Debug)]
pub struct ProviderProfile {
    pub supports_top_k: bool,
    pub supports_tools: bool,
    pub supports_response_format: bool,
    pub stream_usage_key: Option<String>,
    pub max_tokens_key: Option<String>,
}

/// The value of a capability flag that the data leaves out.
pub fn default_true() -> (b: bool)
    ensures
        b,
{
    true
}

impl Default for ProviderProfile {
    /// Full capability, no special keys.
    fn default() -> (p: Self)
        ensures
            p.supports_top_k && p.supports_tools && p.supports_response_format,
            p.stream_usage_key is None && p.max_tokens_key is None,
    {
        ProviderProfile {
            supports_top_k: default_true(),
            supports_tools: default_true(),
            supports_response_format: default_true(),
            stream_usage_key: None,
            max_tokens_key: None,
        }
    }
}

impl ProviderProfile {
    /// A copy of the profile.
    pub fn copy(&self) -> (p: Self)
        ensures
            p == *self,
    {
        ProviderProfile {
            supports_top_k: self.supports_top_k,
            supports_tools: self.supports_tools,
            supports_response_format: self.supports_response_format,
            stream_usage_key: copy_opt_string(&self.stream_usage_key),
            max_tokens_key: copy_opt_string(&self.max_tokens_key),
        }
    }
}

/// The runtime profile of a registry profile: the same flags and keys.
pub open spec fn profile_of(p: ProviderProfile) -> OpenAICompatProfile {
    OpenAICompatProfile {
        supports_top_k: p.supports_top_k,
        supports_tools: p.supports_tools,
        supports_response_format: p.supports_response_format,
        stream_usage_key: p.stream_usage_key,
        max_tokens_key: p.max_tokens_key,
    }
}

/// Translates a registry profile into the runtime profile.
pub fn profile_from_registry(p: &ProviderProfile) -> (r: OpenAICompatProfile)
    ensures
        r == profile_of(*p),
{
    OpenAICompatProfile {
        supports_top_k: p.supports_top_k,
        supports_tools: p.supports_tools,
        supports_response_format: p.supports_response_format,
        stream_usage_key: copy_opt_string(&p.stream_usage_key),
        max_tokens_key: copy_opt_string(&p.max_tokens_key),
    }
}

/// A built-in registry entry.
#[derive(Debug)]
pub struct RegistryEntry {
    pub name: String,
    pub display: String,
    pub base_url: String,
    pub env_var: String,
    pub profile: ProviderProfile,
}

/// A provider entry registered at runtime. It replaces a built-in entry of
/// the same name as a whole, or adds a new one. Only OpenAI-compatible
/// providers can be described this way.
#[derive(Debug)]
pub struct ExternalProviderEntry {
    pub name: String,
    /// Human-readable name; defaults to `name`.
    pub display: Option<String>,
    /// Must start with `http://` or `https://`.
    pub base_url: String,
    /// Environment variable that holds the key.
    pub env_var: Option<String>,
    /// `env:VAR` (read from the environment) or a literal key.
    pub api_key: Option<String>,
    /// Only `openai_compat` is accepted.
    pub protocol: String,
    pub profile: ProviderProfile,
    pub headers: Option<HeaderMap>,
    pub organization: Option<String>,
    pub project: Option<String>,
    /// Retry count; `Some(0)` disables retries.
    pub max_retries: Option<u32>,
    pub body_overrides: Option<JsonValue>,
    /// A note for the user; the library ignores it.
    pub comment: Option<String>,
}

/// The protocol of an external entry that leaves it out.
pub fn default_openai_compat() -> (s: String)
    ensures
        s@ == "openai_compat"@,
{
    String::from_str("openai_compat")
}

/// Per-call construction options, overriding the resolved entry.
#[derive(Debug)]
pub struct ProviderOptions {
    pub base_url: Option<String>,
    pub headers: Option<HeaderMap>,
    pub organization: Option<String>,
    pub project: Option<String>,
    /// Retry count; `Some(0)` disables retries.
    pub max_retries: Option<u32>,
    pub body_overrides: Option<JsonValue>,
}

impl ProviderOptions {
    /// No overrides.
    pub fn none() -> (o: Self)
        ensures
            o.base_url is None && o.headers is None && o.organization is None && o.project is None
                && o.max_retries is None && o.body_overrides is None,
    {
        ProviderOptions {
            base_url: None,
            headers: None,
            organization: None,
            project: None,
            max_retries: None,
            body_overrides: None,
        }
    }
}

/// An optional string by its characters.
pub open spec fn opt_chars(o: Option<String>) -> Option<Seq<char>> {
    match o {
        Some(s) => Some(s@),
        None => None,
    }
}

/// An optional header map by its map.
pub open spec fn opt_map(o: Option<HeaderMap>) -> Option<Map<Seq<char>, Seq<char>>> {
    match o {
        Some(h) => Some(h@),
        None => None,
    }
}

/// `o` when present, else `d`.
pub open spec fn either<T>(o: Option<T>, d: Option<T>) -> Option<T> {
    match o {
        Some(v) => Some(v),
        None => d,
    }
}

/// A resolved entry as values.
pub struct EntryView {
    pub name: Seq<char>,
    pub display: Seq<char>,
    pub base_url: Seq<char>,
    pub env_var: Seq<char>,
    pub profile: ProviderProfile,
    pub api_key: Option<Seq<char>>,
    pub headers: Option<Map<Seq<char>, Seq<char>>>,
    pub organization: Option<Seq<char>>,
    pub project: Option<Seq<char>>,
    pub max_retries: Option<u32>,
    pub body_overrides: Option<Json>,
}

/// The common shape of a built-in or external entry.
#[derive(Debug)]
pub struct ResolvedEntry {
    pub name: String,
    pub display: String,
    pub base_url: String,
    pub env_var: String,
    pub profile: ProviderProfile,
    /// Entry-level key (external entries only).
    pub api_key: Option<String>,
    pub headers: Option<HeaderMap>,
    pub organization: Option<String>,
    pub project: Option<String>,
    pub max_retries: Option<u32>,
    pub body_overrides: Option<JsonValue>,
}

impl View for ResolvedEntry {
    type V = EntryView;

    open spec fn view(&self) -> EntryView {
        EntryView {
            name: self.name@,
            display: self.display@,
            base_url: self.base_url@,
            env_var: self.env_var@,
            profile: self.profile,
            api_key: opt_chars(self.api_key),
            headers: opt_map(self.headers),
            organization: opt_chars(self.organization),
            project: opt_chars(self.project),
            max_retries: self.max_retries,
            body_overrides: opt_json_view(self.body_overrides),
        }
    }
}

/// A built-in entry in the common shape: no provider-level settings.
pub open spec fn registry_entry_view(e: RegistryEntry) -> EntryView {
    EntryView {
        name: e.name@,
        display: e.display@,
        base_url: e.base_url@,
        env_var: e.env_var@,
        profile: e.profile,
        api_key: None,
        headers: None,
        organization: None,
        project: None,
        max_retries: None,
        body_overrides: None,
    }
}

/// An external entry in the common shape: the display defaults to the name,
/// the environment variable to the empty string.
pub open spec fn external_entry_view(e: ExternalProviderEntry) -> EntryView {
    EntryView {
        name: e.name@,
        display: match e.display {
            Some(d) => d@,
            None => e.name@,
        },
        base_url: e.base_url@,
        env_var: match e.env_var {
            Some(v) => v@,
            None => Seq::empty(),
        },
        profile: e.profile,
        api_key: opt_chars(e.api_key),
        headers: opt_map(e.headers),
        organization: opt_chars(e.organization),
        project: opt_chars(e.project),
        max_retries: e.max_retries,
        body_overrides: opt_json_view(e.body_overrides),
    }
}

impl ResolvedEntry {
    /// A built-in entry in the common shape.
    pub fn from_registry(entry: &RegistryEntry) -> (r: Self)
        ensures
            r@ == registry_entry_view(*entry),
    {
        ResolvedEntry {
            name: entry.name.clone(),
            display: entry.display.clone(),
            base_url: entry.base_url.clone(),
            env_var: entry.env_var.clone(),
            profile: entry.profile.copy(),
            api_key: None,
            headers: None,
            organization: None,
            project: None,
            max_retries: None,
            body_overrides: None,
        }
    }

    /// An external entry in the common shape.
    pub fn from_external(entry: &ExternalProviderEntry) -> (r: Self)
        ensures
            r@ == external_entry_view(*entry),
    {
        let headers = copy_opt_headers(&entry.headers);
        let r = ResolvedEntry {
            name: entry.name.clone(),
            display: match &entry.display {
                Some(d) => d.clone(),
                None => entry.name.clone(),
            },
            base_url: entry.base_url.clone(),
            env_var: match &entry.env_var {
                Some(v) => v.clone(),
                None => String::new(),
            },
            profile: entry.profile.copy(),
            api_key: copy_opt_string(&entry.api_key),
            headers,
            organization: copy_opt_string(&entry.organization),
            project: copy_opt_string(&entry.project),
            max_retries: entry.max_retries,
            body_overrides: copy_opt_json(&entry.body_overrides),
        };
        assert(opt_map(r.headers) == opt_map(entry.headers));
        r
    }
}

/// A base URL that still holds a `{VAR}` or `<host>` placeholder.
pub open spec fn has_placeholder(base_url: Seq<char>) -> bool {
    has_char(base_url, '{') || has_char(base_url, '<')
}

/// Whether a base URL still holds a placeholder.
pub fn base_url_has_placeholder(base_url: &str) -> (b: bool)
    ensures
        b == has_placeholder(base_url@),
{
    str_has_char(base_url, '{') || str_has_char(base_url, '<')
}

/// Why an external entry is refused, if it is: a blank name, a blank base
/// URL, a base URL that is not `http(s)://`, or a protocol other than
/// `openai_compat` (checked in that order).
pub open spec fn validation_error(e: ExternalProviderEntry) -> Option<Seq<char>> {
    if is_blank_spec(e.name@) {
        Some("external provider entry missing `name`"@)
    } else if is_blank_spec(e.base_url@) {
        Some("external provider '"@ + e.name@ + "' missing `base_url`"@)
    } else if !(is_prefix("https://"@, e.base_url@) || is_prefix("http://"@, e.base_url@)) {
        Some(
            "external provider '"@ + e.name@ + "' base_url must start with http(s)://, got "@
                + debug_quoted(e.base_url@),
        )
    } else if e.protocol@ != "openai_compat"@ {
        Some(
            "external provider '"@ + e.name@ + "' has unsupported protocol "@ + debug_quoted(
                e.protocol@,
            ) + "; only \"openai_compat\" is supported"@,
        )
    } else {
        None
    }
}

/// Checks an external entry before it enters the overlay.
pub fn validate_external_entry(entry: &ExternalProviderEntry) -> (r: Result<(), AiMuxError>)
    ensures
        match validation_error(*entry) {
            None => r is Ok,
            Some(m) => r matches Err(AiMuxError::InvalidArgument(t)) && t@ == m,
        },
{
    if is_blank(entry.name.as_str()) {
        return Err(AiMuxError::InvalidArgument(String::from_str("external provider entry missing `name`")));
    }
    if is_blank(entry.base_url.as_str()) {
        return Err(
            AiMuxError::InvalidArgument(
                concat3("external provider '", entry.name.as_str(), "' missing `base_url`"),
            ),
        );
    }
    if !(str_starts_with(entry.base_url.as_str(), "https://") || str_starts_with(
        entry.base_url.as_str(),
        "http://",
    )) {
        let a = concat3(
            "external provider '",
            entry.name.as_str(),
            "' base_url must start with http(s)://, got ",
        );
        let d = debug_str(entry.base_url.as_str());
        return Err(AiMuxError::InvalidArgument(concat(a.as_str(), d.as_str())));
    }
    if !str_eq(entry.protocol.as_str(), "openai_compat") {
        let a = concat3("external provider '", entry.name.as_str(), "' has unsupported protocol ");
        let d = debug_str(entry.protocol.as_str());
        return Err(
            AiMuxError::InvalidArgument(
                concat3(a.as_str(), d.as_str(), "; only \"openai_compat\" is supported"),
            ),
        );
    }
    Ok(())
}

/// The first built-in entry named `name`.
pub open spec fn builtin_lookup(s: Seq<RegistryEntry>, name: Seq<char>) -> Option<RegistryEntry>
    decreases s.len(),
{
    if s.len() == 0 {
        None
    } else if s[0].name@ == name {
        Some(s[0])
    } else {
        builtin_lookup(s.skip(1), name)
    }
}

/// A name that no built-in entry carries resolves to no built-in entry.
pub proof fn lemma_builtin_lookup_none(s: Seq<RegistryEntry>, name: Seq<char>)
    requires
        forall|i: int| 0 <= i < s.len() ==> #[trigger] s[i].name@ != name,
    ensures
        builtin_lookup(s, name) is None,
    decreases s.len(),
{
    if s.len() > 0 {
        assert forall|i: int| 0 <= i < s.skip(1).len() implies #[trigger] s.skip(1)[i].name@ != name by {
            assert(s.skip(1)[i] == s[i + 1]);
        }
        lemma_builtin_lookup_none(s.skip(1), name);
    }
}

/// The first built-in entry carrying a name is the one found.
pub proof fn lemma_builtin_lookup_first(s: Seq<RegistryEntry>, name: Seq<char>, k: int)
    requires
        0 <= k < s.len(),
        s[k].name@ == name,
        forall|i: int| 0 <= i < k ==> #[trigger] s[i].name@ != name,
    ensures
        builtin_lookup(s, name) == Some(s[k]),
    decreases k,
{
    if k > 0 {
        assert forall|i: int| 0 <= i < k - 1 implies #[trigger] s.skip(1)[i].name@ != name by {
            assert(s.skip(1)[i] == s[i + 1]);
        }
        assert(s.skip(1)[k - 1] == s[k]);
        lemma_builtin_lookup_first(s.skip(1), name, k - 1);
    }
}

/// The entry that a name resolves to: the overlay's, else the first
/// built-in one.
pub open spec fn lookup_view(
    builtin: Seq<RegistryEntry>,
    overlays: Map<Seq<char>, ExternalProviderEntry>,
    name: Seq<char>,
) -> Option<EntryView> {
    if overlays.dom().contains(name) {
        Some(external_entry_view(overlays[name]))
    } else {
        match builtin_lookup(builtin, name) {
            Some(e) => Some(registry_entry_view(e)),
            None => None,
        }
    }
}

/// Built-in entries and a runtime overlay of external entries.
#[derive(Debug)]
pub struct ProviderRegistry {
    builtin: Vec<RegistryEntry>,
    overlays: KeyedVec<ExternalProviderEntry>,
}

impl ProviderRegistry {
    /// A registry with the given built-in entries and an empty overlay.
    pub fn new(builtin: Vec<RegistryEntry>) -> (r: Self)
        ensures
            r.builtin_entries() == builtin@,
            r.overlay_entries() == Map::<Seq<char>, ExternalProviderEntry>::empty(),
    {
        ProviderRegistry { builtin, overlays: KeyedVec::new() }
    }

    /// The built-in entries, in order.
    pub closed spec fn builtin_entries(&self) -> Seq<RegistryEntry> {
        self.builtin@
    }

    /// The overlay: external entries by name.
    pub closed spec fn overlay_entries(&self) -> Map<Seq<char>, ExternalProviderEntry> {
        self.overlays@
    }

    /// The first built-in entry named `name`.
    pub fn find_builtin(&self, name: &str) -> (r: Option<&RegistryEntry>)
        ensures
            match r {
                Some(e) => builtin_lookup(self.builtin_entries(), name@) == Some(*e),
                None => builtin_lookup(self.builtin_entries(), name@) is None,
            },
    {
        let mut i: usize = 0;
        assert(self.builtin@.skip(0) =~= self.builtin@);
        while i < self.builtin.len()
            invariant
                0 <= i <= self.builtin@.len(),
                builtin_lookup(self.builtin@, name@) == builtin_lookup(self.builtin@.skip(i as int), name@),
            decreases self.builtin@.len() - i,
        {
            assert(self.builtin@.skip(i as int)[0] == self.builtin@[i as int]);
            if str_eq(self.builtin[i].name.as_str(), name) {
                return Some(&self.builtin[i]);
            }
            assert(self.builtin@.skip(i as int).skip(1) =~= self.builtin@.skip(i + 1));
            i += 1;
        }
        None
    }

    /// The entry that `name` resolves to (overlay first).
    pub fn lookup(&self, name: &str) -> (r: Option<ResolvedEntry>)
        ensures
            match r {
                Some(e) => lookup_view(self.builtin_entries(), self.overlay_entries(), name@) == Some(e@),
                None => lookup_view(self.builtin_entries(), self.overlay_entries(), name@) is None,
            },
    {
        match self.overlays.get(name) {
            Some(ext) => Some(ResolvedEntry::from_external(ext)),
            None => match self.find_builtin(name) {
                Some(e) => Some(ResolvedEntry::from_registry(e)),
                None => None,
            },
        }
    }
}

/// Registers (or replaces) an external entry. A refused entry leaves the
/// registry unchanged.
pub fn register_provider(registry: &mut ProviderRegistry, entry: ExternalProviderEntry) -> (r: Result<(), AiMuxError>)
    ensures
        final(registry).builtin_entries() == old(registry).builtin_entries(),
        match validation_error(entry) {
            None => r is Ok && final(registry).overlay_entries() == old(registry).overlay_entries().insert(
                entry.name@,
                entry,
            ),
            Some(m) => (r matches Err(AiMuxError::InvalidArgument(t)) && t@ == m)
                && final(registry).overlay_entries() == old(registry).overlay_entries(),
        },
{
    match validate_external_entry(&entry) {
        Err(e) => Err(e),
        Ok(()) => {
            let name = entry.name.clone();
            registry.overlays.insert(name, entry);
            Ok(())
        },
    }
}

/// The overlay after registering `entries` in order.
pub open spec fn overlay_after(
    overlays: Map<Seq<char>, ExternalProviderEntry>,
    entries: Seq<ExternalProviderEntry>,
) -> Map<Seq<char>, ExternalProviderEntry>
    decreases entries.len(),
{
    if entries.len() == 0 {
        overlays
    } else {
        overlay_after(overlays, entries.drop_last()).insert(entries.last().name@, entries.last())
    }
}

/// The first refused entry, if any.
pub open spec fn first_refused(entries: Seq<ExternalProviderEntry>) -> Option<int>
    decreases entries.len(),
{
    if entries.len() == 0 {
        None
    } else {
        match first_refused(entries.drop_last()) {
            Some(i) => Some(i),
            None => if validation_error(entries.last()) is Some {
                Some(entries.len() - 1)
            } else {
                None
            },
        }
    }
}

/// Registers the entries of a providers configuration as read from its
/// JSON text: a text that could not be read (`parsed` holds the reader's
/// message) is a `JsonParse` error and registers nothing; otherwise the
/// entries are registered as by [`register_providers`].
pub fn load_parsed_providers(
    registry: &mut ProviderRegistry,
    parsed: Result<Vec<ExternalProviderEntry>, String>,
) -> (r: Result<(), AiMuxError>)
    ensures
        final(registry).builtin_entries() == old(registry).builtin_entries(),
        match parsed {
            Err(m) => (r matches Err(AiMuxError::JsonParse(t)) && t@ == "failed to parse external providers config: "@
                + m@) && final(registry).overlay_entries() == old(registry).overlay_entries(),
            Ok(entries) => match first_refused(entries@) {
                None => r is Ok && final(registry).overlay_entries() == overlay_after(
                    old(registry).overlay_entries(),
                    entries@,
                ),
                Some(k) => 0 <= k < entries@.len() && (r matches Err(AiMuxError::InvalidArgument(t))
                    && validation_error(entries@[k]) == Some(t@)) && final(registry).overlay_entries()
                    == overlay_after(old(registry).overlay_entries(), entries@.subrange(0, k)),
            },
        },
{
    match parsed {
        Err(m) => Err(AiMuxError::JsonParse(crate::text::concat("failed to parse external providers config: ", m.as_str()))),
        Ok(entries) => register_providers(registry, entries),
    }
}

/// Registers entries in order and stops at the first refused one; the
/// entries before it stay registered.
pub fn register_providers(registry: &mut ProviderRegistry, entries: Vec<ExternalProviderEntry>) -> (r: Result<(), AiMuxError>)
    ensures
        final(registry).builtin_entries() == old(registry).builtin_entries(),
        match first_refused(entries@) {
            None => r is Ok && final(registry).overlay_entries() == overlay_after(
                old(registry).overlay_entries(),
                entries@,
            ),
            Some(k) => 0 <= k < entries@.len() && (r matches Err(AiMuxError::InvalidArgument(t))
                && validation_error(entries@[k]) == Some(t@)) && final(registry).overlay_entries()
                == overlay_after(old(registry).overlay_entries(), entries@.subrange(0, k)),
        },
{
    let ghost all = entries@;
    let ghost start = registry.overlay_entries();
    let mut pending = entries;
    let mut i: usize = 0;
    let n = pending.len();
    while pending.len() > 0
        invariant
            pending@.len() + i == n,
            n == all.len(),
            pending@ == all.subrange(i as int, n as int),
            first_refused(all.subrange(0, i as int)) is None,
            registry.builtin_entries() == old(registry).builtin_entries(),
            registry.overlay_entries() == overlay_after(start, all.subrange(0, i as int)),
            start == old(registry).overlay_entries(),
            all == entries@,
        decreases pending@.len(),
    {
        let e = pending.remove(0);
        proof {
            assert(e == all[i as int]);
            assert(all.subrange(0, i + 1).drop_last() =~= all.subrange(0, i as int));
            assert(pending@ =~= all.subrange(i + 1, n as int));
        }
        let res = register_provider(registry, e);
        match res {
            Err(err) => {
                proof {
                    assert(validation_error(all[i as int]) is Some);
                    lemma_first_refused_prefix(all, i as int);
                    assert(first_refused(all) == Some(i as int));
                    assert(registry.overlay_entries() == overlay_after(start, all.subrange(0, i as int)));
                    assert(err matches AiMuxError::InvalidArgument(t) && validation_error(all[i as int]) == Some(t@));
                }
                return Err(err);
            },
            Ok(()) => {},
        }
        i += 1;
    }
    assert(all.subrange(0, n as int) =~= all);
    Ok(())
}

/// When the first `i` entries are accepted and entry `i` is refused, entry
/// `i` is the first refused one.
proof fn lemma_first_refused_prefix(all: Seq<ExternalProviderEntry>, i: int)
    requires
        0 <= i < all.len(),
        first_refused(all.subrange(0, i)) is None,
        validation_error(all[i]) is Some,
    ensures
        first_refused(all) == Some(i),
    decreases all.len(),
{
    if i < all.len() - 1 {
        assert(all.drop_last().subrange(0, i) =~= all.subrange(0, i));
        assert(all.drop_last()[i] == all[i]);
        lemma_first_refused_prefix(all.drop_last(), i);
    } else {
        assert(all.drop_last() =~= all.subrange(0, i));
    }
}

/// Whether `name` was registered at runtime.
pub fn is_external_provider(registry: &ProviderRegistry, name: &str) -> (b: bool)
    ensures
        b == registry.overlay_entries().dom().contains(name@),
{
    registry.overlays.contains_key(name)
}

/// Removes a runtime registration.
pub fn clear_overlay(registry: &mut ProviderRegistry, name: &str)
    ensures
        final(registry).builtin_entries() == old(registry).builtin_entries(),
        final(registry).overlay_entries() == old(registry).overlay_entries().remove(name@),
{
    registry.overlays.remove(name);
}

/// The runtime profile of the first built-in entry named `name`.
pub fn provider_registry_entry(registry: &ProviderRegistry, name: &str) -> (r: Option<OpenAICompatProfile>)
    ensures
        match builtin_lookup(registry.builtin_entries(), name@) {
            Some(e) => r == Some(profile_of(e.profile)),
            None => r is None,
        },
{
    match registry.find_builtin(name) {
        Some(e) => Some(profile_from_registry(&e.profile)),
        None => None,
    }
}

/// The outcome of resolving an API key.
pub enum KeyOutcome {
    Found { key: Seq<char>, source: Seq<char> },
    Failed(Seq<char>),
}

/// API-key resolution. The explicit key wins (source `explicit`); else a
/// non-empty entry-level key: `env:VAR` reads `VAR` from the environment
/// (source `env:VAR`), anything else is the key itself (source `explicit`);
/// else the entry's environment variable (source `env:VAR`).
pub open spec fn key_outcome(e: EntryView, api_key: Option<Seq<char>>, env: Map<Seq<char>, Seq<char>>) -> KeyOutcome {
    match api_key {
        Some(k) => KeyOutcome::Found { key: k, source: "explicit"@ },
        None => if e.api_key is Some && e.api_key.unwrap().len() > 0 {
            let ek = e.api_key.unwrap();
            if is_prefix("env:"@, ek) {
                let var = ek.skip(4);
                if var.len() == 0 {
                    KeyOutcome::Failed(
                        "external provider '"@ + e.name
                            + "' has malformed api_key reference \"env:\" (empty var name)"@,
                    )
                } else if env.dom().contains(var) {
                    KeyOutcome::Found { key: env[var], source: "env:"@ + var }
                } else {
                    KeyOutcome::Failed(
                        "external provider '"@ + e.name + "' references env var `"@ + var
                            + "` via api_key, but it is not set"@,
                    )
                }
            } else {
                KeyOutcome::Found { key: ek, source: "explicit"@ }
            }
        } else if e.env_var.len() == 0 {
            KeyOutcome::Failed(
                "provider '"@ + e.name
                    + "' has no api_key parameter, entry-level api_key, or env_var to read from"@,
            )
        } else if env.dom().contains(e.env_var) {
            KeyOutcome::Found { key: env[e.env_var], source: "env:"@ + e.env_var }
        } else {
            KeyOutcome::Failed(missing_key_message(e.env_var, e.display))
        },
    }
}

/// Resolves the API key of an entry; returns the key and where it came from.
pub fn resolve_key(entry: &ResolvedEntry, api_key: Option<String>, env: &Environment) -> (r: Result<(String, Option<String>), AiMuxError>)
    ensures
        match key_outcome(entry@, opt_chars(api_key), env@) {
            KeyOutcome::Found { key, source } => r matches Ok((k, Some(s))) && k@ == key && s@ == source,
            KeyOutcome::Failed(m) => r matches Err(AiMuxError::InvalidArgument(t)) && t@ == m,
        },
{
    match api_key {
        Some(key) => {
            return Ok((key, Some(String::from_str("explicit"))));
        },
        None => {},
    }
    match &entry.api_key {
        Some(entry_key) => {
            if entry_key.unicode_len() > 0 {
                if str_starts_with(entry_key.as_str(), "env:") {
                    proof {
                        reveal_strlit("env:");
                    }
                    let var = str_skip(entry_key.as_str(), 4);
                    if var.unicode_len() == 0 {
                        return Err(
                            AiMuxError::InvalidArgument(
                                concat3(
                                    "external provider '",
                                    entry.name.as_str(),
                                    "' has malformed api_key reference \"env:\" (empty var name)",
                                ),
                            ),
                        );
                    }
                    match env.get(var.as_str()) {
                        Some(val) => {
                            return Ok((val, Some(concat("env:", var.as_str()))));
                        },
                        None => {
                            let a = concat3("external provider '", entry.name.as_str(), "' references env var `");
                            return Err(
                                AiMuxError::InvalidArgument(
                                    concat3(a.as_str(), var.as_str(), "` via api_key, but it is not set"),
                                ),
                            );
                        },
                    }
                }
                return Ok((entry_key.clone(), Some(String::from_str("explicit"))));
            }
        },
        None => {},
    }
    if entry.env_var.unicode_len() == 0 {
        return Err(
            AiMuxError::InvalidArgument(
                concat3(
                    "provider '",
                    entry.name.as_str(),
                    "' has no api_key parameter, entry-level api_key, or env_var to read from",
                ),
            ),
        );
    }
    let key = crate::env::load_api_key(None, entry.env_var.as_str(), entry.display.as_str(), env);
    match key {
        Ok(k) => Ok((k, Some(concat("env:", entry.env_var.as_str())))),
        Err(e) => Err(e),
    }
}

/// The configuration made from a resolved entry, a key and per-call
/// options: the entry's settings, each overridden by the option when given;
/// the base URL loses one trailing `/`; retries default to 2.
pub open spec fn config_matches(c: OpenAIConfig, e: EntryView, key: Seq<char>, options: Option<ProviderOptions>) -> bool {
    let o = match options {
        Some(o) => o,
        None => ProviderOptions {
            base_url: None,
            headers: None,
            organization: None,
            project: None,
            max_retries: None,
            body_overrides: None,
        },
    };
    &&& c.api_key@ == key
    &&& c.base_url@ == without_trailing_slash_spec(
        match o.base_url {
            Some(u) => u@,
            None => e.base_url,
        },
    )
    &&& c.provider@ == e.name
    &&& c.profile == profile_of(e.profile)
    &&& opt_map(c.headers) == either(opt_map(o.headers), e.headers)
    &&& opt_chars(c.org_id) == either(opt_chars(o.organization), e.organization)
    &&& opt_chars(c.project) == either(opt_chars(o.project), e.project)
    &&& c.retry_config.max_retries == match either(o.max_retries, e.max_retries) {
        Some(n) => n,
        None => 2,
    }
    &&& opt_json_view(c.body_overrides) == either(opt_json_view(o.body_overrides), e.body_overrides)
}

/// Builds the configuration of a resolved entry; per-call options win over
/// the entry's provider-level settings.
pub fn build_resolved_config(entry: &ResolvedEntry, key: String, options: Option<ProviderOptions>) -> (c: OpenAIConfig)
    ensures
        config_matches(c, entry@, key@, options),
        c.api_key_source is None,
{
    let ghost o0 = options;
    let mut config = OpenAIConfig::new(key).with_base_url(entry.base_url.as_str()).with_provider(
        entry.name.clone(),
    ).with_profile(profile_from_registry(&entry.profile));
    match &entry.headers {
        Some(h) => {
            config = config.with_headers(h.clone());
        },
        None => {},
    }
    match &entry.organization {
        Some(org) => {
            config = config.with_org_id(org.clone());
        },
        None => {},
    }
    match &entry.project {
        Some(p) => {
            config = config.with_project(p.clone());
        },
        None => {},
    }
    match entry.max_retries {
        Some(n) => {
            config = config.with_retry_config(RetryConfig { max_retries: n });
        },
        None => {},
    }
    match &entry.body_overrides {
        Some(b) => {
            config = config.with_body_overrides(b.deep_copy());
        },
        None => {},
    }
    match options {
        Some(opts) => {
            let ProviderOptions { base_url, headers, organization, project, max_retries, body_overrides } =
                opts;
            match base_url {
                Some(u) => {
                    config = config.with_base_url(u.as_str());
                },
                None => {},
            }
            match headers {
                Some(h) => {
                    config = config.with_headers(h);
                },
                None => {},
            }
            match organization {
                Some(org) => {
                    config = config.with_org_id(org);
                },
                None => {},
            }
            match project {
                Some(p) => {
                    config = config.with_project(p);
                },
                None => {},
            }
            match max_retries {
                Some(n) => {
                    config = config.with_retry_config(RetryConfig { max_retries: n });
                },
                None => {},
            }
            match body_overrides {
                Some(b) => {
                    config = config.with_body_overrides(b);
                },
                None => {},
            }
        },
        None => {},
    }
    config
}

/// The outcome of building a provider by name.
pub enum HandleOutcome {
    /// The name resolves to no entry.
    NoSuchProvider,
    /// Refused with an `InvalidArgument` message.
    Invalid(Seq<char>),
    /// Built from this entry, key and key source.
    Ready { entry: EntryView, key: Seq<char>, source: Seq<char> },
}

/// The message of a base URL that still holds a placeholder.
pub open spec fn templated_message(name: Seq<char>, base_url: Seq<char>) -> Seq<char> {
    "provider '"@ + name + "' has a templated base_url "@ + debug_quoted(base_url)
        + " with an unexpanded placeholder; pass a concrete `base_url` via ProviderOptions to use it"@
}

/// Building a provider by name: resolve the entry (overlay first), refuse a
/// templated base URL unless the options give one, then resolve the key.
pub open spec fn handle_outcome(
    builtin: Seq<RegistryEntry>,
    overlays: Map<Seq<char>, ExternalProviderEntry>,
    name: Seq<char>,
    api_key: Option<Seq<char>>,
    base_url_overridden: bool,
    env: Map<Seq<char>, Seq<char>>,
) -> HandleOutcome {
    match lookup_view(builtin, overlays, name) {
        None => HandleOutcome::NoSuchProvider,
        Some(e) => if !base_url_overridden && has_placeholder(e.base_url) {
            HandleOutcome::Invalid(templated_message(name, e.base_url))
        } else {
            match key_outcome(e, api_key, env) {
                KeyOutcome::Failed(m) => HandleOutcome::Invalid(m),
                KeyOutcome::Found { key, source } => HandleOutcome::Ready { entry: e, key, source },
            }
        },
    }
}

/// Whether the options give a base URL.
pub open spec fn overrides_base_url(options: Option<ProviderOptions>) -> bool {
    options matches Some(o) && o.base_url is Some
}

/// What a built provider or model carries, per [`handle_outcome`].
pub open spec fn built_as(
    c: OpenAIConfig,
    registry: ProviderRegistry,
    name: Seq<char>,
    api_key: Option<Seq<char>>,
    options: Option<ProviderOptions>,
    env: Map<Seq<char>, Seq<char>>,
) -> bool {
    handle_outcome(
        registry.builtin_entries(),
        registry.overlay_entries(),
        name,
        api_key,
        overrides_base_url(options),
        env,
    ) matches HandleOutcome::Ready { entry, key, source } && config_matches(c, entry, key, options)
        && opt_chars(c.api_key_source) == Some(source)
}

/// The error of building a provider by name, per [`handle_outcome`].
pub open spec fn refused_as(
    err: AiMuxError,
    registry: ProviderRegistry,
    name: Seq<char>,
    api_key: Option<Seq<char>>,
    options: Option<ProviderOptions>,
    env: Map<Seq<char>, Seq<char>>,
) -> bool {
    match handle_outcome(
        registry.builtin_entries(),
        registry.overlay_entries(),
        name,
        api_key,
        overrides_base_url(options),
        env,
    ) {
        HandleOutcome::NoSuchProvider => err matches AiMuxError::NoSuchProvider { provider_id } && provider_id@
            == name,
        HandleOutcome::Invalid(m) => err matches AiMuxError::InvalidArgument(t) && t@ == m,
        HandleOutcome::Ready { .. } => false,
    }
}

/// Builds a provider by name (overlay, then built-in entries).
pub fn provider_handle(
    registry: &ProviderRegistry,
    name: &str,
    api_key: Option<String>,
    options: Option<ProviderOptions>,
    env: &Environment,
) -> (r: Result<OpenAIProvider, AiMuxError>)
    ensures
        match r {
            Ok(p) => built_as(p.config(), *registry, name@, opt_chars(api_key), options, env@),
            Err(e) => refused_as(e, *registry, name@, opt_chars(api_key), options, env@),
        },
{
    let resolved = match registry.lookup(name) {
        Some(e) => e,
        None => {
            return Err(AiMuxError::NoSuchProvider { provider_id: String::from_str(name) });
        },
    };
    let base_url_overridden = match &options {
        Some(o) => o.base_url.is_some(),
        None => false,
    };
    if !base_url_overridden && base_url_has_placeholder(resolved.base_url.as_str()) {
        let a = concat3("provider '", name, "' has a templated base_url ");
        let d = debug_str(resolved.base_url.as_str());
        return Err(
            AiMuxError::InvalidArgument(
                concat3(
                    a.as_str(),
                    d.as_str(),
                    " with an unexpanded placeholder; pass a concrete `base_url` via ProviderOptions to use it",
                ),
            ),
        );
    }
    let (key, source) = match resolve_key(&resolved, api_key, env) {
        Ok(ks) => ks,
        Err(e) => {
            return Err(e);
        },
    };
    let config = build_resolved_config(&resolved, key, options);
    let config = match &source {
        Some(s) => config.with_api_key_source(Some(s.as_str())),
        None => config.with_api_key_source(None),
    };
    Ok(OpenAIProvider::new(config))
}

/// Builds a chat model of a provider by name (see [`provider_handle`]).
pub fn provider(
    registry: &ProviderRegistry,
    name: &str,
    api_key: Option<String>,
    model_id: &str,
    options: Option<ProviderOptions>,
    env: &Environment,
) -> (r: Result<OpenAIModel, AiMuxError>)
    ensures
        match r {
            Ok(m) => m.model_id_spec() == model_id@ && built_as(
                m.config_spec(),
                *registry,
                name@,
                opt_chars(api_key),
                options,
                env@,
            ),
            Err(e) => refused_as(e, *registry, name@, opt_chars(api_key), options, env@),
        },
{
    match provider_handle(registry, name, api_key, options, env) {
        Ok(p) => Ok(p.into_model(model_id)),
        Err(e) => Err(e),
    }
}

/// Builds a chat model with the key from the entry (see [`provider`]).
pub fn provider_from_env(
    registry: &ProviderRegistry,
    name: &str,
    model_id: &str,
    options: Option<ProviderOptions>,
    env: &Environment,
) -> (r: Result<OpenAIModel, AiMuxError>)
    ensures
        match r {
            Ok(m) => m.model_id_spec() == model_id@ && built_as(m.config_spec(), *registry, name@, None, options, env@),
            Err(e) => refused_as(e, *registry, name@, None, options, env@),
        },
{
    provider(registry, name, None, model_id, options, env)
}

/// A registered entry is what its name resolves to, over any built-in entry
/// of that name; every other name resolves as before.
pub proof fn law_registered_entry_resolves(
    builtin: Seq<RegistryEntry>,
    overlays: Map<Seq<char>, ExternalProviderEntry>,
    entry: ExternalProviderEntry,
    other: Seq<char>,
)
    ensures
        lookup_view(builtin, overlays.insert(entry.name@, entry), entry.name@) == Some(external_entry_view(entry)),
        other != entry.name@ ==> lookup_view(builtin, overlays.insert(entry.name@, entry), other) == lookup_view(
            builtin,
            overlays,
            other,
        ),
{
}

/// Clearing a registration makes the name resolve to its first built-in
/// entry again, or to nothing.
pub proof fn law_cleared_name_resolves_to_builtin(
    builtin: Seq<RegistryEntry>,
    overlays: Map<Seq<char>, ExternalProviderEntry>,
    name: Seq<char>,
)
    ensures
        lookup_view(builtin, overlays.remove(name), name) == match builtin_lookup(builtin, name) {
            Some(e) => Some(registry_entry_view(e)),
            None => None,
        },
{
}

/// An explicit key is always used as given, marked `explicit`.
pub proof fn law_explicit_key_wins(e: EntryView, key: Seq<char>, env: Map<Seq<char>, Seq<char>>)
    ensures
        key_outcome(e, Some(key), env) == (KeyOutcome::Found { key: key, source: "explicit"@ }),
{
}

/// A name that resolves to no entry is refused as unknown, whatever the
/// key, options and environment.
pub proof fn law_unknown_name_refused(
    builtin: Seq<RegistryEntry>,
    overlays: Map<Seq<char>, ExternalProviderEntry>,
    name: Seq<char>,
    api_key: Option<Seq<char>>,
    base_url_overridden: bool,
    env: Map<Seq<char>, Seq<char>>,
)
    requires
        lookup_view(builtin, overlays, name) is None,
    ensures
        handle_outcome(builtin, overlays, name, api_key, base_url_overridden, env) is NoSuchProvider,
{
}

/// An entry whose base URL still holds a placeholder is refused unless the
/// options give a base URL; with one, it is built as any other entry.
pub proof fn law_templated_entry_needs_base_url(
    builtin: Seq<RegistryEntry>,
    overlays: Map<Seq<char>, ExternalProviderEntry>,
    name: Seq<char>,
    api_key: Option<Seq<char>>,
    env: Map<Seq<char>, Seq<char>>,
)
    requires
        lookup_view(builtin, overlays, name) matches Some(e) && has_placeholder(e.base_url),
    ensures
        handle_outcome(builtin, overlays, name, api_key, false, env) == HandleOutcome::Invalid(
            templated_message(name, lookup_view(builtin, overlays, name).unwrap().base_url),
        ),
        handle_outcome(builtin, overlays, name, api_key, true, env) == match key_outcome(
            lookup_view(builtin, overlays, name).unwrap(),
            api_key,
            env,
        ) {
            KeyOutcome::Failed(m) => HandleOutcome::Invalid(m),
            KeyOutcome::Found { key, source } => HandleOutcome::Ready {
                entry: lookup_view(builtin, overlays, name).unwrap(),
                key,
                source,
            },
        },
{
}

/// After registering an entry with a literal key and an `http(s)` base URL
/// without placeholders, building by its name succeeds with that key, the
/// entry's name and base URL (one trailing `/` removed), whatever the
/// built-in entries and the environment.
pub proof fn law_registered_entry_builds(
    builtin: Seq<RegistryEntry>,
    overlays: Map<Seq<char>, ExternalProviderEntry>,
    entry: ExternalProviderEntry,
    env: Map<Seq<char>, Seq<char>>,
    c: OpenAIConfig,
)
    requires
        entry.api_key matches Some(k) && k@.len() > 0 && !is_prefix("env:"@, k@),
        !has_placeholder(entry.base_url@),
        ({
            let h = handle_outcome(builtin, overlays.insert(entry.name@, entry), entry.name@, None, false, env);
            h matches HandleOutcome::Ready { entry: e, key, source } && config_matches(c, e, key, None)
        }),
    ensures
        c.api_key@ == entry.api_key.unwrap()@,
        c.provider@ == entry.name@,
        c.base_url@ == without_trailing_slash_spec(entry.base_url@),
{
}

/// Registering a valid entry always leads to a successful build of its
/// name when it carries a literal key and a concrete base URL.
pub proof fn law_registered_entry_is_ready(
    builtin: Seq<RegistryEntry>,
    overlays: Map<Seq<char>, ExternalProviderEntry>,
    entry: ExternalProviderEntry,
    env: Map<Seq<char>, Seq<char>>,
)
    requires
        entry.api_key matches Some(k) && k@.len() > 0 && !is_prefix("env:"@, k@),
        !has_placeholder(entry.base_url@),
    ensures
        handle_outcome(builtin, overlays.insert(entry.name@, entry), entry.name@, None, false, env) matches HandleOutcome::Ready {
            key,
            source,
            ..
        } && key == entry.api_key.unwrap()@ && source == "explicit"@,
{
}

} // verus!
