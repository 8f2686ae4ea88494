//! Configuration types for `config.toml`, and path helpers.

use vstd::prelude::*;
use vstd::string::StringExecFns;

use crate::models::conversation::opt_str_view;
use crate::named_map::NamedMap;
use crate::text::{chars_of, starts_with, starts_with_str, string_of_range};

verus! {

/// Supported provider protocol types.
#[derive(Clone, Copy, Debug, PartialEq, Eq, Structural)]
pub enum ProviderType {
    /// OpenAI Chat Completions API (and compatible endpoints like Groq, Together, vLLM).
    Openai,
    /// Anthropic Messages API.
    Anthropic,
    /// Google Gemini generateContent API.
    Gemini,
    /// Ollama local inference server.
    Ollama,
}

/// Configuration for a single LLM provider endpoint.
#[derive(Clone, Debug)]
pub struct ProviderConfig {
    /// The provider protocol type (`type` in the configuration file).
    pub provider_type: ProviderType,
    /// Keyring service name for API key lookup.
    pub api_key_service: Option<String>,
    /// Environment variable name for API key fallback.
    pub api_key_env: Option<String>,
    /// Override the default base URL for this provider.
    pub base_url: Option<String>,
}

/// The model of a [`ProviderConfig`].
pub struct ProviderConfigV {
    pub provider_type: ProviderType,
    pub api_key_service: Option<Seq<char>>,
    pub api_key_env: Option<Seq<char>>,
    pub base_url: Option<Seq<char>>,
}

impl View for ProviderConfig {
    type V = ProviderConfigV;

    open spec fn view(&self) -> ProviderConfigV {
        ProviderConfigV {
            provider_type: self.provider_type,
            api_key_service: opt_str_view(self.api_key_service),
            api_key_env: opt_str_view(self.api_key_env),
            base_url: opt_str_view(self.base_url),
        }
    }
}

/// A copy of an optional string.
pub fn copy_opt_string(o: &Option<String>) -> (r: Option<String>)
    ensures
        opt_str_view(r) == opt_str_view(*o),
{
    match o {
        Some(s) => Some(s.clone()),
        None => None,
    }
}

impl ProviderConfig {
    /// A copy of this configuration.
    pub fn copy(&self) -> (r: ProviderConfig)
        ensures
            r@ == self@,
    {
        ProviderConfig {
            provider_type: self.provider_type,
            api_key_service: copy_opt_string(&self.api_key_service),
            api_key_env: copy_opt_string(&self.api_key_env),
            base_url: copy_opt_string(&self.base_url),
        }
    }
}

/// A single entry in a cascade, referencing a provider and model.
#[derive(Clone, Debug)]
pub struct CascadeEntry {
    /// The provider name (must match a key in `[providers]`).
    pub provider: String,
    /// The model identifier to use with this provider.
    pub model: String,
}

/// The model of a [`CascadeEntry`].
pub struct CascadeEntryV {
    pub provider: Seq<char>,
    pub model: Seq<char>,
}

impl View for CascadeEntry {
    type V = CascadeEntryV;

    open spec fn view(&self) -> CascadeEntryV {
        CascadeEntryV { provider: self.provider@, model: self.model@ }
    }
}

/// The models of a sequence of cascade entries.
pub open spec fn entries_view(s: Seq<CascadeEntry>) -> Seq<CascadeEntryV> {
    s.map_values(|e: CascadeEntry| e@)
}

/// An ordered list of provider/model entries to try in sequence.
#[derive(Debug)]
pub struct CascadeConfig {
    /// The cascade entries, tried in order until one succeeds.
    pub entries: Vec<CascadeEntry>,
}

impl View for CascadeConfig {
    type V = Seq<CascadeEntryV>;

    open spec fn view(&self) -> Seq<CascadeEntryV> {
        entries_view(self.entries@)
    }
}

/// The default database path.
pub open spec fn default_db_path_spec() -> Seq<char> {
    "~/.local/share/llm-cascade/db.sqlite"@
}

/// The default directory for failed conversations.
pub open spec fn default_failure_dir_spec() -> Seq<char> {
    "~/.local/share/llm-cascade/failed_prompts"@
}

/// The default database path (`~/.local/share/llm-cascade/db.sqlite`).
pub fn default_db_path() -> (r: String)
    ensures
        r@ == default_db_path_spec(),
{
    String::from_str("~/.local/share/llm-cascade/db.sqlite")
}

/// The default directory for failed conversations
/// (`~/.local/share/llm-cascade/failed_prompts`).
pub fn default_failure_dir() -> (r: String)
    ensures
        r@ == default_failure_dir_spec(),
{
    String::from_str("~/.local/share/llm-cascade/failed_prompts")
}

/// SQLite database path configuration.
#[derive(Debug)]
pub struct DatabaseConfig {
    /// Path to the SQLite database file. Tilde (`~`) is expanded.
    pub path: String,
}

impl Default for DatabaseConfig {
    fn default() -> (r: Self)
        ensures
            r.path@ == default_db_path_spec(),
    {
        DatabaseConfig { path: default_db_path() }
    }
}

/// Failed prompt persistence directory configuration.
#[derive(Debug)]
pub struct FailureConfig {
    /// Directory where failed conversation `.json` files are saved. Tilde is expanded.
    pub dir: String,
}

impl Default for FailureConfig {
    fn default() -> (r: Self)
        ensures
            r.dir@ == default_failure_dir_spec(),
    {
        FailureConfig { dir: default_failure_dir() }
    }
}

/// Top-level application configuration.
pub struct AppConfig {
    /// Named provider definitions (keyed by provider name).
    pub providers: NamedMap<ProviderConfig>,
    /// Named cascade definitions (keyed by cascade name).
    pub cascades: NamedMap<CascadeConfig>,
    /// SQLite database configuration.
    pub database: DatabaseConfig,
    /// Failed prompt persistence configuration.
    pub failure_persistence: FailureConfig,
}

impl AppConfig {
    /// A configuration with no providers and no cascades, and the default paths
    /// (what an empty configuration file gives).
    pub fn empty() -> (c: AppConfig)
        ensures
            c.providers@ == Map::<Seq<char>, ProviderConfigV>::empty(),
            c.cascades@ == Map::<Seq<char>, Seq<CascadeEntryV>>::empty(),
            c.database.path@ == default_db_path_spec(),
            c.failure_persistence.dir@ == default_failure_dir_spec(),
    {
        AppConfig {
            providers: NamedMap::new(),
            cascades: NamedMap::new(),
            database: DatabaseConfig { path: default_db_path() },
            failure_persistence: FailureConfig { dir: default_failure_dir() },
        }
    }
}

/// `base.join(rest)` on a Unix path: an absolute `rest` replaces `base`;
/// otherwise a `/` goes between them unless `base` is empty or already ends in one.
pub open spec fn path_join(base: Seq<char>, rest: Seq<char>) -> Seq<char> {
    if rest.len() > 0 && rest[0] == '/' {
        rest
    } else if base.len() == 0 || base.last() == '/' {
        base + rest
    } else {
        base + seq!['/'] + rest
    }
}

/// Joins two Unix path strings as `Path::join` does.
pub fn join_path(base: &str, rest: &str) -> (r: String)
    ensures
        r@ == path_join(base@, rest@),
{
    let b = chars_of(base);
    let t = chars_of(rest);
    if t.len() > 0 && t[0] == '/' {
        return String::from_str(rest);
    }
    let mut r = String::from_str(base);
    if !(b.len() == 0 || b[b.len() - 1] == '/') {
        crate::text::push_char(&mut r, '/');
    }
    r.append(rest);
    r
}

/// What `expand_tilde` gives: a leading `~/` replaced by the home directory,
/// when the home directory is known.
pub open spec fn expand_tilde_spec(path: Seq<char>, home: Option<Seq<char>>) -> Seq<char> {
    if starts_with(path, "~/"@) && home is Some {
        path_join(home->0, path.subrange(2, path.len() as int))
    } else {
        path
    }
}

/// Expands a leading `~/` to the user's home directory (`home`, the value of
/// `HOME` when it is set).
pub fn expand_tilde(path: &str, home: Option<&str>) -> (r: String)
    ensures
        r@ == expand_tilde_spec(path@, match home {
            Some(h) => Some(h@),
            None => None,
        }),
{
    proof {
        reveal_strlit("~/");
    }
    if starts_with_str(path, "~/") {
        match home {
            Some(h) => {
                let v = chars_of(path);
                let rest = string_of_range(&v, 2, v.len());
                return join_path(h, rest.as_str());
            },
            None => {},
        }
    }
    String::from_str(path)
}

/// What `default_config_path` gives: `$XDG_CONFIG_HOME/llm-cascade/config.toml`,
/// or `~/.config/llm-cascade/config.toml` when that variable is unset.
pub open spec fn default_config_path_spec(xdg: Option<Seq<char>>, home: Option<Seq<char>>) -> Seq<
    char,
> {
    let dir = match xdg {
        Some(d) => d,
        None => expand_tilde_spec("~/.config"@, home),
    };
    path_join(path_join(dir, "llm-cascade"@), "config.toml"@)
}

/// The default configuration path, from the values of `XDG_CONFIG_HOME` and `HOME`.
pub fn default_config_path(xdg_config_home: Option<&str>, home: Option<&str>) -> (r: String)
    ensures
        r@ == default_config_path_spec(
            match xdg_config_home {
                Some(d) => Some(d@),
                None => None,
            },
            match home {
                Some(h) => Some(h@),
                None => None,
            },
        ),
{
    let dir = match xdg_config_home {
        Some(d) => String::from_str(d),
        None => expand_tilde("~/.config", home),
    };
    let app_dir = join_path(dir.as_str(), "llm-cascade");
    join_path(app_dir.as_str(), "config.toml")
}

} // verus!
