//! LLM backend configuration (`~/.rmng/config.toml`, section `[llm]`).

use vstd::prelude::*;
use crate::paths::{home_path, spec_home_path};
use crate::seccomp::opt_str_view;

verus! {

/// Configured LLM backend identifier.
#[derive(Debug, Clone, Copy, PartialEq, Eq, Structural)]
pub enum LlmProviderKind {
    Ollama,
    OpenAi,
    Grok,
    Anthropic,
    Google,
    Groq,
    Together,
    Fireworks,
    DeepSeek,
    NvidiaNim,
    Custom,
    Unconfigured,
}

impl Default for LlmProviderKind {
    fn default() -> (r: Self)
        ensures
            r == LlmProviderKind::Unconfigured,
    {
        LlmProviderKind::Unconfigured
    }
}

/// The `[llm]` section of the configuration.
#[derive(Debug, Clone, PartialEq, Eq)]
pub struct LlmConfig {
    pub llm_provider: LlmProviderKind,
    pub endpoint_url: Option<String>,
    /// Environment variable that holds the API key.
    pub api_key_env_var: Option<String>,
    /// Inline API key (discouraged).
    pub api_key: Option<String>,
    pub model: Option<String>,
    pub max_retries: u32,
    pub timeout_secs: u64,
}

/// Retries used when the configuration gives none.
pub fn default_max_retries() -> (r: u32)
    ensures
        r == 2,
{
    2
}

/// Request timeout used when the configuration gives none.
pub fn default_timeout_secs() -> (r: u64)
    ensures
        r == 120,
{
    120
}

impl Default for LlmConfig {
    fn default() -> (r: Self)
        ensures
            r.llm_provider == LlmProviderKind::Unconfigured,
            r.endpoint_url is None,
            r.api_key_env_var is None,
            r.api_key is None,
            r.model is None,
            r.max_retries == 2,
            r.timeout_secs == 120,
    {
        LlmConfig {
            llm_provider: LlmProviderKind::Unconfigured,
            endpoint_url: None,
            api_key_env_var: None,
            api_key: None,
            model: None,
            max_retries: default_max_retries(),
            timeout_secs: default_timeout_secs(),
        }
    }
}

impl LlmConfig {
    /// No provider is configured, so reasoning runs in mock / plan-only mode.
    pub fn is_mock(&self) -> (r: bool)
        ensures
            r == (self.llm_provider == LlmProviderKind::Unconfigured),
    {
        match self.llm_provider {
            LlmProviderKind::Unconfigured => true,
            _ => false,
        }
    }
}

/// The whole runtime configuration.
#[derive(Debug, Clone, PartialEq, Eq)]
pub struct RmngConfig {
    pub llm: LlmConfig,
}

impl Default for RmngConfig {
    fn default() -> (r: Self)
        ensures
            r.llm.llm_provider == LlmProviderKind::Unconfigured,
            r.llm.max_retries == 2,
            r.llm.timeout_secs == 120,
            r.llm.endpoint_url is None,
            r.llm.model is None,
    {
        RmngConfig { llm: LlmConfig::default() }
    }
}

impl RmngConfig {
    pub fn llm_configured(&self) -> (r: bool)
        ensures
            r == (self.llm.llm_provider != LlmProviderKind::Unconfigured),
    {
        !self.llm.is_mock()
    }

    /// The configuration file for a home directory: `$HOME/.rmng/config.toml`,
    /// or `/tmp/rmng/config.toml` when `HOME` is unset.
    pub fn config_path_for(home: Option<&str>) -> (r: String)
        ensures
            r@ == spec_home_path(opt_str_view(home), ".rmng/config.toml"@, "/tmp/rmng/config.toml"@),
    {
        home_path(home, ".rmng/config.toml", "/tmp/rmng/config.toml")
    }
}

} // verus!
