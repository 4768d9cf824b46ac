//! Errors explained in terms a user can act on.
use vstd::prelude::*;
use crate::github::opt_view;
use crate::text::{contains, has_substring};

verus! {

/// An error with an optional explanation and an optional suggested fix.
#[derive(Debug)]
pub struct UserError {
    pub message: String,
    pub details: Option<String>,
    pub suggestion: Option<String>,
}

/// An error as (message, details, suggestion).
pub type UserErrorView = (Seq<char>, Option<Seq<char>>, Option<Seq<char>>);

impl View for UserError {
    type V = UserErrorView;

    open spec fn view(&self) -> UserErrorView {
        (self.message@, opt_view(self.details), opt_view(self.suggestion))
    }
}

impl UserError {
    pub fn new(message: &str) -> (r: UserError)
        ensures
            r@ == (message@, None::<Seq<char>>, None::<Seq<char>>),
    {
        UserError { message: String::from_str(message), details: None, suggestion: None }
    }

    pub fn with_details(self, details: &str) -> (r: UserError)
        ensures
            r@ == (self@.0, Some(details@), self@.2),
    {
        UserError { message: self.message, details: Some(String::from_str(details)), suggestion: self.suggestion }
    }

    pub fn with_suggestion(self, suggestion: &str) -> (r: UserError)
        ensures
            r@ == (self@.0, self@.1, Some(suggestion@)),
    {
        UserError { message: self.message, details: self.details, suggestion: Some(String::from_str(suggestion)) }
    }

    pub fn message(&self) -> (r: &str)
        ensures
            r@ == self.message@,
    {
        self.message.as_str()
    }

    /// The message, then `": "` and the details when there are any.
    pub fn to_text(&self) -> (r: String)
        ensures
            r@ == match self@.1 {
                Some(d) => self@.0 + ": "@ + d,
                None => self@.0,
            },
    {
        let mut s = self.message.clone();
        match &self.details {
            Some(d) => {
                s.append(": ");
                s.append(d.as_str());
            },
            None => {},
        }
        s
    }
}

/// The explained form of an error, by the first phrase its text holds.
pub open spec fn friendly_of(e: Seq<char>) -> UserErrorView {
    if has_substring(e, "gh: command not found"@) || has_substring(e, "GitHub CLI not found"@) {
        (
            "GitHub CLI is not installed"@,
            Some("The 'gh' command is required to fetch GitHub data"@),
            Some("Install GitHub CLI from https://cli.github.com/"@),
        )
    } else if has_substring(e, "gh auth login"@) || has_substring(e, "not authenticated"@) {
        (
            "Not authenticated with GitHub"@,
            Some("You need to log in to GitHub CLI first"@),
            Some("Run 'gh auth login' to authenticate"@),
        )
    } else if has_substring(e, "ANTHROPIC_API_KEY"@) {
        (
            "Anthropic API key not configured"@,
            Some("AI features require an API key"@),
            Some("Set the ANTHROPIC_API_KEY environment variable"@),
        )
    } else if has_substring(e, "401"@) && has_substring(e, "anthropic"@) {
        (
            "Invalid Anthropic API key"@,
            Some("The provided API key was rejected by the API"@),
            Some("Check your ANTHROPIC_API_KEY is correct"@),
        )
    } else if has_substring(e, "rate limit"@) {
        (
            "API rate limit exceeded"@,
            Some("Too many requests have been made recently"@),
            Some("Wait a few minutes and try again"@),
        )
    } else if has_substring(e, "Failed to read config"@) {
        (
            "Configuration file not found"@,
            Some("No .gh-report.toml file found"@),
            Some("Run 'gh-report init' to create a configuration"@),
        )
    } else if has_substring(e, "Failed to parse config"@) {
        (
            "Invalid configuration file"@,
            Some("The configuration file contains syntax errors"@),
            Some("Check the TOML syntax in your .gh-report.toml file"@),
        )
    } else if has_substring(e, "Permission denied"@) {
        (
            "Permission denied"@,
            Some("Cannot write to the specified location"@),
            Some("Check that you have write permissions to the report directory"@),
        )
    } else if has_substring(e, "network"@) || has_substring(e, "connection"@) {
        (
            "Network connection failed"@,
            Some("Could not connect to GitHub or the summarization API"@),
            Some("Check your internet connection and try again"@),
        )
    } else {
        ("An unexpected error occurred"@, Some(e), None)
    }
}

fn explained(message: &str, details: &str, suggestion: &str) -> (r: UserError)
    ensures
        r@ == (message@, Some(details@), Some(suggestion@)),
{
    UserError::new(message).with_details(details).with_suggestion(suggestion)
}

/// Explains an error, given its text, by the first known phrase it holds.
pub fn user_friendly_error(error: &str) -> (r: UserError)
    ensures
        r@ == friendly_of(error@),
{
    if contains(error, "gh: command not found") || contains(error, "GitHub CLI not found") {
        explained(
            "GitHub CLI is not installed",
            "The 'gh' command is required to fetch GitHub data",
            "Install GitHub CLI from https://cli.github.com/",
        )
    } else if contains(error, "gh auth login") || contains(error, "not authenticated") {
        explained(
            "Not authenticated with GitHub",
            "You need to log in to GitHub CLI first",
            "Run 'gh auth login' to authenticate",
        )
    } else if contains(error, "ANTHROPIC_API_KEY") {
        explained(
            "Anthropic API key not configured",
            "AI features require an API key",
            "Set the ANTHROPIC_API_KEY environment variable",
        )
    } else if contains(error, "401") && contains(error, "anthropic") {
        explained(
            "Invalid Anthropic API key",
            "The provided API key was rejected by the API",
            "Check your ANTHROPIC_API_KEY is correct",
        )
    } else if contains(error, "rate limit") {
        explained(
            "API rate limit exceeded",
            "Too many requests have been made recently",
            "Wait a few minutes and try again",
        )
    } else if contains(error, "Failed to read config") {
        explained(
            "Configuration file not found",
            "No .gh-report.toml file found",
            "Run 'gh-report init' to create a configuration",
        )
    } else if contains(error, "Failed to parse config") {
        explained(
            "Invalid configuration file",
            "The configuration file contains syntax errors",
            "Check the TOML syntax in your .gh-report.toml file",
        )
    } else if contains(error, "Permission denied") {
        explained(
            "Permission denied",
            "Cannot write to the specified location",
            "Check that you have write permissions to the report directory",
        )
    } else if contains(error, "network") || contains(error, "connection") {
        explained(
            "Network connection failed",
            "Could not connect to GitHub or the summarization API",
            "Check your internet connection and try again",
        )
    } else {
        UserError::new("An unexpected error occurred").with_details(error)
    }
}

} // verus!
