//! Messages exchanged with the summarization model, model names and
//! prompt texts.
use vstd::prelude::*;
use crate::config::ClaudeConfig;

verus! {

/// Who wrote a message.
#[derive(Debug, Clone, Copy, PartialEq, Eq, Structural)]
pub enum MessageRole {
    User,
    Assistant,
}

/// One message of a conversation.
#[derive(Debug, Clone)]
pub struct Message {
    pub role: MessageRole,
    pub content: String,
}

impl Message {
    pub fn user(content: String) -> (r: Message)
        ensures
            r.role == MessageRole::User,
            r.content@ == content@,
    {
        Message { role: MessageRole::User, content }
    }

    pub fn assistant(content: String) -> (r: Message)
        ensures
            r.role == MessageRole::Assistant,
            r.content@ == content@,
    {
        Message { role: MessageRole::Assistant, content }
    }
}

/// A block of a model's reply.
#[derive(Debug)]
pub enum Content {
    Text { text: String },
}

/// Tokens used by a request.
#[derive(Debug, Clone, Copy)]
pub struct Usage {
    pub input_tokens: u32,
    pub output_tokens: u32,
}

/// A model's reply.
#[derive(Debug)]
pub struct MessagesResponse {
    pub id: String,
    pub content: Vec<Content>,
    pub model: String,
    pub stop_reason: Option<String>,
    pub usage: Usage,
}

pub open spec fn content_text(c: Content) -> Seq<char> {
    match c {
        Content::Text { text } => text@,
    }
}

/// The text of the first `n` blocks, concatenated.
pub open spec fn blocks_text(cs: Seq<Content>, n: int) -> Seq<char>
    decreases n,
{
    if n <= 0 {
        seq![]
    } else {
        blocks_text(cs, n - 1) + content_text(cs[n - 1])
    }
}

impl MessagesResponse {
    /// The text of all blocks, in order.
    pub fn get_text(&self) -> (r: String)
        ensures
            r@ == blocks_text(self.content@, self.content@.len() as int),
    {
        let mut s = String::new();
        let mut i: usize = 0;
        while i < self.content.len()
            invariant
                i <= self.content@.len(),
                s@ == blocks_text(self.content@, i as int),
            decreases self.content.len() - i,
        {
            match &self.content[i] {
                Content::Text { text } => {
                    s.append(text.as_str());
                },
            }
            i = i + 1;
        }
        s
    }
}

/// An error reply of the API.
#[derive(Debug)]
pub struct ErrorResponse {
    pub error: ApiError,
}

/// Details of an error reply.
#[derive(Debug)]
pub struct ApiError {
    pub error_type: String,
    pub message: String,
}

/// A request to summarize activity.
#[derive(Debug)]
pub struct SummaryRequest {
    pub activities: String,
    pub context: Option<String>,
    pub importance_level: ImportanceLevel,
}

/// How much a summary matters, which picks the model and the token budget.
#[derive(Debug, Clone, Copy, PartialEq, Eq, Structural)]
pub enum ImportanceLevel {
    High,
    Medium,
    Low,
}

impl ImportanceLevel {
    /// The primary model for High and Medium, the secondary one for Low.
    pub fn model(&self, config: &ClaudeConfig) -> (r: String)
        ensures
            r@ == match self {
                ImportanceLevel::Low => config.secondary_model@,
                _ => config.primary_model@,
            },
    {
        match self {
            ImportanceLevel::High | ImportanceLevel::Medium => config.primary_model.clone(),
            ImportanceLevel::Low => config.secondary_model.clone(),
        }
    }

    pub fn max_tokens(&self) -> (r: u32)
        ensures
            r == match self {
                ImportanceLevel::High => 8000u32,
                ImportanceLevel::Medium => 4000u32,
                ImportanceLevel::Low => 2000u32,
            },
    {
        match self {
            ImportanceLevel::High => 8000,
            ImportanceLevel::Medium => 4000,
            ImportanceLevel::Low => 2000,
        }
    }
}

/// A rough token count: one token per four bytes of UTF-8, rounded up.
pub fn estimate_tokens(text: &str) -> (r: u32)
    ensures
        r as int == if (text.len() + 3) / 4 <= u32::MAX as int {
            ((text.len() + 3) / 4) as int
        } else {
            u32::MAX as int
        },
{
    let n = text.len() as u64;
    let t: u64 = n / 4 + if n % 4 == 0 {
        0
    } else {
        1
    };
    assert(t == (n + 3) / 4);
    if t <= u32::MAX as u64 {
        t as u32
    } else {
        u32::MAX
    }
}

pub open spec fn system_prompt_text() -> Seq<char> {
    "You are an AI assistant specialized in summarizing GitHub activity for software developers.\nYour role is to analyze issues, pull requests, and comments to provide concise, actionable summaries.\n\nFocus on:\n1. Highlighting important decisions that need to be made\n2. Identifying blocking issues or urgent matters\n3. Summarizing key discussions and their outcomes\n4. Grouping related activities together\n5. Providing clear action items when relevant\n\nBe concise but comprehensive. Use bullet points for clarity.\nPrioritize information based on urgency and importance."@
}

/// The system prompt for summarizing GitHub activity.
pub fn system_prompt() -> (r: String)
    ensures
        r@ == system_prompt_text(),
{
    String::from_str(
        "You are an AI assistant specialized in summarizing GitHub activity for software developers.\nYour role is to analyze issues, pull requests, and comments to provide concise, actionable summaries.\n\nFocus on:\n1. Highlighting important decisions that need to be made\n2. Identifying blocking issues or urgent matters\n3. Summarizing key discussions and their outcomes\n4. Grouping related activities together\n5. Providing clear action items when relevant\n\nBe concise but comprehensive. Use bullet points for clarity.\nPrioritize information based on urgency and importance.",
    )
}

/// A prompt asking for a title of at most eight words for a summary.
pub fn generate_title_prompt(summary: &str) -> (r: String)
    ensures
        r@ == "Based on this GitHub activity summary, generate a short title (8 words or fewer) that captures the main theme or most important aspect:\n\n"@
            + summary@ + "\n\nProvide only the title, no additional text or punctuation."@,
{
    let mut s = String::from_str(
        "Based on this GitHub activity summary, generate a short title (8 words or fewer) that captures the main theme or most important aspect:\n\n",
    );
    s.append(summary);
    s.append("\n\nProvide only the title, no additional text or punctuation.");
    s
}

/// Lines `- rule` for the first `n` watch rules.
pub open spec fn rule_lines(rules: Seq<Seq<char>>, n: int) -> Seq<char>
    decreases n,
{
    if n <= 0 {
        seq![]
    } else {
        rule_lines(rules, n - 1) + "- "@ + rules[n - 1] + "\n"@
    }
}

/// A prompt asking which activities match the given watch rules.
pub fn filter_activities_prompt(activities_summary: &str, watch_rules: &[String]) -> (r: String)
    ensures
        r@ == "Given these watch rules for what's important:\n\nWatch Rules:\n"@ + rule_lines(
            watch_rules@.map_values(|s: String| s@),
            watch_rules@.len() as int,
        ) + "\n\nAnd this GitHub activity:\n\n"@ + activities_summary@
            + "\n\nIdentify which items match the watch rules and explain why they're important.\nGroup results by priority: High, Medium, Low.\nFor each item, briefly explain which rule it matches and why it matters."@,
{
    let ghost rv = watch_rules@.map_values(|s: String| s@);
    let mut s = String::from_str("Given these watch rules for what's important:\n\nWatch Rules:\n");
    let ghost head = s@;
    let mut i: usize = 0;
    while i < watch_rules.len()
        invariant
            i <= watch_rules@.len(),
            rv == watch_rules@.map_values(|s: String| s@),
            s@ == head + rule_lines(rv, i as int),
        decreases watch_rules.len() - i,
    {
        assert(rv[i as int] == watch_rules@[i as int]@);
        s.append("- ");
        s.append(watch_rules[i].as_str());
        s.append("\n");
        i = i + 1;
    }
    s.append("\n\nAnd this GitHub activity:\n\n");
    s.append(activities_summary);
    s.append(
        "\n\nIdentify which items match the watch rules and explain why they're important.\nGroup results by priority: High, Medium, Low.\nFor each item, briefly explain which rule it matches and why it matters.",
    );
    s
}

} // verus!
