//! Configuration values: settings, per-repository profiles and watch rules.
use vstd::prelude::*;
use crate::watch_rules::WatchRule;

verus! {

/// Importance tier of a repository, ordered from `Low` to `Critical`.
#[derive(Debug, Clone, Copy, PartialEq, Eq, Structural, PartialOrd, Ord, Hash)]
pub enum Importance {
    Low,
    Medium,
    High,
    Critical,
}

/// Which summarization backend to talk to.
#[derive(Debug, Clone, Copy, PartialEq, Eq, Structural)]
pub enum ClaudeBackend {
    Api,
    Cli,
    Auto,
}

/// General settings. Paths are kept as written, `~` included.
#[derive(Debug)]
pub struct Settings {
    pub report_dir: String,
    pub state_file: String,
    pub file_name_format: String,
    pub max_lookback_days: u32,
    pub max_issues_per_report: usize,
    pub max_comments_per_report: usize,
    pub inactive_repo_threshold_days: u32,
}

/// Settings of the summarization backend.
#[derive(Debug)]
pub struct ClaudeConfig {
    pub api_key: Option<String>,
    pub api_key_helper: Option<String>,
    pub primary_model: String,
    pub secondary_model: String,
    pub cache_responses: bool,
    pub cache_ttl_hours: u32,
    pub backend: ClaudeBackend,
}

/// Settings of the report layout.
#[derive(Debug)]
pub struct ReportConfig {
    pub template: String,
}

/// Settings of the response cache.
#[derive(Debug)]
pub struct CacheConfig {
    pub enabled: bool,
    pub ttl_hours: u32,
    pub compression_enabled: bool,
    pub cache_dir: Option<String>,
}

/// Weights of the repository activity score.
#[derive(Debug, Clone, Copy)]
pub struct ActivityWeights {
    pub commits: u32,
    pub prs: u32,
    pub issues: u32,
    pub comments: u32,
}

/// Profile of one repository: its importance, the watch rules active for
/// it (`labels`, by rule name) and a free-text context note.
#[derive(Debug)]
pub struct RepoConfig {
    pub name: String,
    pub labels: Vec<String>,
    pub watch_rules: Option<Vec<String>>,
    pub importance_override: Option<Importance>,
    pub custom_context: Option<String>,
}

/// The whole configuration.
#[derive(Debug)]
pub struct Config {
    pub settings: Settings,
    pub claude: ClaudeConfig,
    pub report: ReportConfig,
    pub cache: CacheConfig,
    pub repos: Vec<RepoConfig>,
    pub watch_rules: Vec<WatchRule>,
}

pub fn default_state_file() -> (r: String)
    ensures
        r@ == "~/Github Reports/.gh-report-state.json"@,
{
    String::from_str("~/Github Reports/.gh-report-state.json")
}

pub fn default_file_name_format() -> (r: String)
    ensures
        r@ == "{yyyy-mm-dd} - Github - {short-title}"@,
{
    String::from_str("{yyyy-mm-dd} - Github - {short-title}")
}

pub fn default_max_lookback_days() -> (r: u32)
    ensures
        r == 30,
{
    30
}

pub fn default_max_issues() -> (r: usize)
    ensures
        r == 100,
{
    100
}

pub fn default_max_comments() -> (r: usize)
    ensures
        r == 500,
{
    500
}

pub fn default_inactive_threshold() -> (r: u32)
    ensures
        r == 30,
{
    30
}

pub fn default_primary_model() -> (r: String)
    ensures
        r@ == "sonnet"@,
{
    String::from_str("sonnet")
}

pub fn default_secondary_model() -> (r: String)
    ensures
        r@ == "haiku"@,
{
    String::from_str("haiku")
}

pub fn default_cache_responses() -> (r: bool)
    ensures
        r,
{
    true
}

pub fn default_cache_ttl() -> (r: u32)
    ensures
        r == 24,
{
    24
}

pub open spec fn default_template_text() -> Seq<char> {
    "# GitHub Activity Report - {date}\n\n## Action Required\n{action_required}\n\n## Needs Attention\n{needs_attention}\n\n## Key Changes and Proposals\n{key_changes}\n\n## Suggested Actions\n{suggested_actions}\n\n## FYI\n{fyi}\n\n## Repository Activity Changes\n{repo_changes}\n\n---\n*Report generated at {timestamp} | Est. cost: ${cost}*"@
}

pub fn default_template() -> (r: String)
    ensures
        r@ == default_template_text(),
{
    String::from_str("# GitHub Activity Report - {date}\n\n## Action Required\n{action_required}\n\n## Needs Attention\n{needs_attention}\n\n## Key Changes and Proposals\n{key_changes}\n\n## Suggested Actions\n{suggested_actions}\n\n## FYI\n{fyi}\n\n## Repository Activity Changes\n{repo_changes}\n\n---\n*Report generated at {timestamp} | Est. cost: ${cost}*")
}

pub fn default_cache_enabled() -> (r: bool)
    ensures
        r,
{
    true
}

pub fn default_compression_enabled() -> (r: bool)
    ensures
        r,
{
    true
}

pub fn default_claude_backend() -> (r: ClaudeBackend)
    ensures
        r == ClaudeBackend::Auto,
{
    ClaudeBackend::Auto
}

impl ReportConfig {
    pub fn default() -> (r: ReportConfig)
        ensures
            r.template@ == default_template_text(),
    {
        ReportConfig { template: default_template() }
    }
}

impl CacheConfig {
    pub fn default() -> (r: CacheConfig)
        ensures
            r.enabled,
            r.ttl_hours == 24,
            r.compression_enabled,
            r.cache_dir is None,
    {
        CacheConfig {
            enabled: default_cache_enabled(),
            ttl_hours: default_cache_ttl(),
            compression_enabled: default_compression_enabled(),
            cache_dir: None,
        }
    }
}

impl Config {
    /// The configuration used when none is written: no repository profiles
    /// and no watch rules.
    pub fn default() -> (r: Config)
        ensures
            r.settings.report_dir@ == "~/Github Reports"@,
            r.settings.state_file@ == "~/Github Reports/.gh-report-state.json"@,
            r.settings.file_name_format@ == "{yyyy-mm-dd} - Github - {short-title}"@,
            r.settings.max_lookback_days == 30,
            r.settings.max_issues_per_report == 100,
            r.settings.max_comments_per_report == 500,
            r.settings.inactive_repo_threshold_days == 30,
            r.claude.api_key is None,
            r.claude.api_key_helper is None,
            r.claude.primary_model@ == "sonnet"@,
            r.claude.secondary_model@ == "haiku"@,
            r.claude.cache_responses,
            r.claude.cache_ttl_hours == 24,
            r.claude.backend == ClaudeBackend::Auto,
            r.report.template@ == default_template_text(),
            r.cache.enabled,
            r.cache.ttl_hours == 24,
            r.cache.compression_enabled,
            r.cache.cache_dir is None,
            r.repos@.len() == 0,
            r.watch_rules@.len() == 0,
    {
        Config {
            settings: Settings {
                report_dir: String::from_str("~/Github Reports"),
                state_file: default_state_file(),
                file_name_format: default_file_name_format(),
                max_lookback_days: default_max_lookback_days(),
                max_issues_per_report: default_max_issues(),
                max_comments_per_report: default_max_comments(),
                inactive_repo_threshold_days: default_inactive_threshold(),
            },
            claude: ClaudeConfig {
                api_key: None,
                api_key_helper: None,
                primary_model: default_primary_model(),
                secondary_model: default_secondary_model(),
                cache_responses: default_cache_responses(),
                cache_ttl_hours: default_cache_ttl(),
                backend: default_claude_backend(),
            },
            report: ReportConfig::default(),
            cache: CacheConfig::default(),
            repos: Vec::new(),
            watch_rules: Vec::new(),
        }
    }
}

} // verus!
