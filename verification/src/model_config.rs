//! Per-device model configuration: which providers the workspace routes
//! through, in order. Absent configuration keeps the deterministic
//! stand-ins; a configured and enabled Ollama daemon goes first.
use vstd::prelude::*;

use crate::text::{chars_of, matches_at, owned, push_all, push_str, starts_with, starts_with_str, string_of, string_views, trim, trimmed};

verus! {

pub const MODEL_CONFIG_FILE: &'static str = "model.json";

/// The two stand-ins every device has, after any real model.
pub const LOCAL_DRAFTER: &'static str = "local-drafter";

pub const LOCAL_DRAFTER_BACKUP: &'static str = "local-drafter-backup";

pub const DEFAULT_OLLAMA_URL: &'static str = "http://127.0.0.1:11434";

#[derive(Debug, Clone)]
pub struct OllamaConfig {
    pub enabled: bool,
    pub base_url: String,
    pub model: String,
}

#[derive(Debug, Clone)]
pub struct ModelConfig {
    pub ollama: Option<OllamaConfig>,
}

impl Default for ModelConfig {
    /// No configuration: no real model.
    fn default() -> (r: Self)
        ensures
            r.ollama is None,
    {
        ModelConfig { ollama: None }
    }
}

/// An Ollama entry without `enabled` is enabled.
pub fn default_enabled() -> (r: bool)
    ensures
        r,
{
    true
}

/// An Ollama entry without `base_url` talks to the local daemon.
pub fn default_base_url() -> (r: String)
    ensures
        r@ == DEFAULT_OLLAMA_URL@,
{
    owned(DEFAULT_OLLAMA_URL)
}

impl ModelConfig {
    /// The Ollama entry, when there is one and it is enabled.
    pub fn ollama_enabled(&self) -> (r: Option<&OllamaConfig>)
        ensures
            r == (match self.ollama {
                Some(o) => if o.enabled {
                    Some(&o)
                } else {
                    None
                },
                None => None,
            }),
    {
        match &self.ollama {
            Some(o) => if o.enabled {
                Some(o)
            } else {
                None
            },
            None => None,
        }
    }
}

/// The provider ids a configuration routes through, in order: the enabled
/// Ollama model (`ollama:` and its trimmed name), then the two stand-ins.
pub open spec fn provider_ids_spec(c: ModelConfig) -> Seq<Seq<char>> {
    (match c.ollama {
        Some(o) => if o.enabled {
            seq!["ollama:"@ + trimmed(o.model@)]
        } else {
            Seq::empty()
        },
        None => Seq::empty(),
    }) + seq![LOCAL_DRAFTER@, LOCAL_DRAFTER_BACKUP@]
}

pub fn provider_ids(config: &ModelConfig) -> (r: Vec<String>)
    ensures
        string_views(r@) == provider_ids_spec(*config),
{
    let mut ids: Vec<String> = Vec::new();
    match config.ollama_enabled() {
        Some(o) => {
            let name = string_of(&trim(&chars_of(o.model.as_str())));
            let mut id = owned("ollama:");
            push_str(&mut id, name.as_str());
            ids.push(id);
        },
        None => {},
    }
    ids.push(owned(LOCAL_DRAFTER));
    ids.push(owned(LOCAL_DRAFTER_BACKUP));
    assert(string_views(ids@) =~= provider_ids_spec(*config));
    ids
}

/// `s` is an `http://` address on `host`, followed by a port, a path or
/// nothing.
pub open spec fn on_host(s: Seq<char>, host: Seq<char>) -> bool {
    let p = "http://"@ + host;
    &&& starts_with(s, p)
    &&& (s.len() == p.len() || s[p.len() as int] == ':' || s[p.len() as int] == '/')
}

/// An Ollama address the product may route to: the local machine only.
pub open spec fn is_loopback_url(s: Seq<char>) -> bool {
    on_host(s, "127.0.0.1"@) || on_host(s, "localhost"@) || on_host(s, "[::1]"@)
}

fn host_is(v: &Vec<char>, host: &str) -> (r: bool)
    ensures
        r == on_host(v@, host@),
{
    let mut p: Vec<char> = Vec::new();
    push_all(&mut p, "http://");
    push_all(&mut p, host);
    if !matches_at(v, &p, 0) {
        return false;
    }
    if v.len() == p.len() {
        return true;
    }
    v[p.len()] == ':' || v[p.len()] == '/'
}

/// Whether `url` is an address on the local machine.
pub fn loopback_url(url: &str) -> (r: bool)
    ensures
        r == is_loopback_url(url@),
{
    let v = chars_of(url);
    host_is(&v, "127.0.0.1") || host_is(&v, "localhost") || host_is(&v, "[::1]")
}

/// What the founder sees on the settings page: each provider, where it
/// runs, its live health, and whether it is a real model or a canned
/// stand-in.
#[derive(Debug, Clone)]
pub struct ProviderStatus {
    pub id: String,
    pub trust: String,
    pub health: String,
    pub real_model: bool,
}

/// A provider as the model gateway reports it: its id, and its trust and
/// health as lower-case words.
#[derive(Debug, Clone)]
pub struct ProviderReport {
    pub id: String,
    pub trust: String,
    pub health: String,
}

/// The status line of each reported provider; only an `ollama:` provider is
/// a real model.
pub fn provider_status(reports: &Vec<ProviderReport>) -> (r: Vec<ProviderStatus>)
    ensures
        r@.len() == reports@.len(),
        forall|i: int|
            0 <= i < r@.len() ==> {
                &&& (#[trigger] r@[i]).id@ == reports@[i].id@
                &&& r@[i].trust@ == reports@[i].trust@
                &&& r@[i].health@ == reports@[i].health@
                &&& r@[i].real_model == starts_with(reports@[i].id@, "ollama:"@)
            },
{
    let mut out: Vec<ProviderStatus> = Vec::new();
    let mut i: usize = 0;
    while i < reports.len()
        invariant
            i <= reports@.len(),
            out@.len() == i,
            forall|k: int|
                0 <= k < i ==> {
                    &&& (#[trigger] out@[k]).id@ == reports@[k].id@
                    &&& out@[k].trust@ == reports@[k].trust@
                    &&& out@[k].health@ == reports@[k].health@
                    &&& out@[k].real_model == starts_with(reports@[k].id@, "ollama:"@)
                },
        decreases reports@.len() - i,
    {
        let p = &reports[i];
        let is_real = starts_with_str(&chars_of(p.id.as_str()), "ollama:");
        out.push(ProviderStatus {
            id: p.id.clone(),
            trust: p.trust.clone(),
            health: p.health.clone(),
            real_model: is_real,
        });
        i += 1;
    }
    out
}

} // verus!
