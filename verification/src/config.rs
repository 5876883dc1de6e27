//! Configuration sections read from the user's configuration file, with
//! their defaults.

use vstd::prelude::*;

verus! {

/// Settings of the commit workflow.
#[derive(Debug, Clone)]
pub struct CommitConfig {
    /// Show a diff preview before generating.
    pub show_diff_preview: bool,
    /// Offer the edit action in the menu.
    pub allow_edit: bool,
    /// Ask for confirmation before committing.
    pub confirm_before_commit: bool,
    /// A custom commit prompt template, if configured.
    pub custom_prompt: Option<String>,
    /// How many manual retries the workflow allows.
    pub max_retries: usize,
}

/// Settings of the review workflow.
#[derive(Debug, Clone)]
pub struct ReviewConfig {
    /// Show the full diff alongside the review.
    pub show_full_diff: bool,
    /// The least severity worth displaying.
    pub min_severity: String,
    /// A custom review prompt template, if configured.
    pub custom_prompt: Option<String>,
}

/// Settings of the terminal output.
#[derive(Debug, Clone)]
pub struct UIConfig {
    /// Colored output.
    pub colored: bool,
    /// Verbose output.
    pub verbose: bool,
}

/// Settings of the HTTP transport.
#[derive(Debug, Clone)]
pub struct NetworkConfig {
    /// Whole-request timeout, in seconds.
    pub request_timeout: u64,
    /// Connection timeout, in seconds.
    pub connect_timeout: u64,
    /// How many times a request may be retried by the transport.
    pub max_retries: usize,
    /// Initial delay between transport retries, in milliseconds.
    pub retry_delay_ms: u64,
}

/// Settings of file access.
#[derive(Debug, Clone)]
pub struct FileConfig {
    /// The largest file the review command reads, in bytes.
    pub max_size: u64,
}

pub fn default_true() -> (r: bool)
    ensures
        r,
{
    true
}

pub fn default_severity() -> (r: String)
    ensures
        r@ == "info"@,
{
    String::from_str("info")
}

pub fn default_commit_max_retries() -> (r: usize)
    ensures
        r == 10,
{
    10
}

pub fn default_request_timeout() -> (r: u64)
    ensures
        r == 120,
{
    120
}

pub fn default_connect_timeout() -> (r: u64)
    ensures
        r == 10,
{
    10
}

pub fn default_network_max_retries() -> (r: usize)
    ensures
        r == 3,
{
    3
}

pub fn default_retry_delay_ms() -> (r: u64)
    ensures
        r == 1000,
{
    1000
}

pub fn default_max_file_size() -> (r: u64)
    ensures
        r == 10 * 1024 * 1024,
{
    10 * 1024 * 1024
}

impl Default for CommitConfig {
    /// Preview, editing and confirmation on; no custom template; ten retries.
    fn default() -> (r: Self)
        ensures
            r.show_diff_preview && r.allow_edit && r.confirm_before_commit,
            r.custom_prompt is None,
            r.max_retries == 10,
    {
        CommitConfig {
            show_diff_preview: true,
            allow_edit: true,
            confirm_before_commit: true,
            custom_prompt: None,
            max_retries: default_commit_max_retries(),
        }
    }
}

impl Default for ReviewConfig {
    /// Full diff shown; every severity displayed; no custom template.
    fn default() -> (r: Self)
        ensures
            r.show_full_diff,
            r.min_severity@ == "info"@,
            r.custom_prompt is None,
    {
        ReviewConfig { show_full_diff: true, min_severity: default_severity(), custom_prompt: None }
    }
}

impl Default for UIConfig {
    /// Colored, not verbose.
    fn default() -> (r: Self)
        ensures
            r.colored,
            !r.verbose,
    {
        UIConfig { colored: true, verbose: false }
    }
}

impl Default for NetworkConfig {
    /// Two-minute requests, ten-second connects, three transport retries
    /// starting at one second.
    fn default() -> (r: Self)
        ensures
            r.request_timeout == 120,
            r.connect_timeout == 10,
            r.max_retries == 3,
            r.retry_delay_ms == 1000,
    {
        NetworkConfig {
            request_timeout: default_request_timeout(),
            connect_timeout: default_connect_timeout(),
            max_retries: default_network_max_retries(),
            retry_delay_ms: default_retry_delay_ms(),
        }
    }
}

impl Default for FileConfig {
    /// Ten-megabyte limit.
    fn default() -> (r: Self)
        ensures
            r.max_size == 10 * 1024 * 1024,
    {
        FileConfig { max_size: default_max_file_size() }
    }
}

} // verus!
