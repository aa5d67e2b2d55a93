//! The typed request, response and event vocabulary of the messages API.
//! These are plain data carriers: the request-execution layer treats a
//! request as an opaque serializable value and a response as an opaque
//! decodable one, and the wire encoding itself lives outside this crate.
//! Payload fields that hold arbitrary JSON carry it opaquely (see `json`).

use vstd::prelude::*;
use vstd::string::*;

verus! {

/// Token accounting as reported by the server.
#[derive(Clone, Debug, PartialEq)]
pub struct Usage {
    pub input_tokens: Option<u32>,
    pub output_tokens: Option<u32>,
}

/// How the model may use tools.
#[derive(Clone, Debug)]
pub enum ToolChoice {
    NoTools,
    Auto { disable_parallel_tool_use: bool },
    Any { disable_parallel_tool_use: bool },
    Tool { name: String, disable_parallel_tool_use: bool },
}

impl ToolChoice {
    /// Instruct the model to not use any tools.
    #[must_use]
    pub fn none() -> (r: Self)
        ensures
            r is NoTools,
    {
        ToolChoice::NoTools
    }

    /// Instruct the model to use zero, one, or more tools.
    #[must_use]
    pub fn auto() -> (r: Self)
        ensures
            r == (ToolChoice::Auto { disable_parallel_tool_use: false }),
    {
        ToolChoice::Auto { disable_parallel_tool_use: false }
    }

    /// Instruct the model to use one, or more tools.
    #[must_use]
    pub fn any() -> (r: Self)
        ensures
            r == (ToolChoice::Any { disable_parallel_tool_use: false }),
    {
        ToolChoice::Any { disable_parallel_tool_use: false }
    }

    /// Instruct the model to use the specified tool.
    #[must_use]
    pub fn tool(name: String) -> (r: Self)
        ensures
            r == (ToolChoice::Tool { name, disable_parallel_tool_use: false }),
    {
        ToolChoice::Tool { name, disable_parallel_tool_use: false }
    }

    /// Enable or disable parallel tool use for this tool choice; `None` has
    /// no flag to set and is returned unchanged.
    #[must_use]
    pub fn with_disable_parallel_tool_use(self, disable_parallel_tool_use: bool) -> (r: Self)
        ensures
            (match self {
                ToolChoice::NoTools => r is NoTools,
                ToolChoice::Auto { .. } => r == (ToolChoice::Auto { disable_parallel_tool_use }),
                ToolChoice::Any { .. } => r == (ToolChoice::Any { disable_parallel_tool_use }),
                ToolChoice::Tool { name, .. } => r == (ToolChoice::Tool {
                    name,
                    disable_parallel_tool_use,
                }),
            }),
    {
        match self {
            ToolChoice::NoTools => ToolChoice::NoTools,
            ToolChoice::Auto { .. } => ToolChoice::Auto { disable_parallel_tool_use },
            ToolChoice::Any { .. } => ToolChoice::Any { disable_parallel_tool_use },
            ToolChoice::Tool { name, .. } => ToolChoice::Tool {
                name,
                disable_parallel_tool_use,
            },
        }
    }
}

/// Extended-thinking configuration.
#[derive(Clone, Debug, PartialEq)]
pub struct ExtendedThinking {
    pub kind: String,
    pub budget_tokens: u32,
}

/// Who says a message.
#[derive(Clone, Copy, Debug, PartialEq, Eq, Structural, Default)]
pub enum MessageRole {
    #[default]
    User,
    Assistant,
}

/// One message: a role and a list of content blocks.
#[derive(Debug, PartialEq, Default)]
pub struct Message {
    pub role: MessageRole,
    pub content: MessageContentList,
}

/// The ordered content blocks of one message.
#[derive(Debug, PartialEq, Default)]
pub struct MessageContentList(pub Vec<MessageContent>);

/// One content block of a message or response.
#[derive(Debug, PartialEq)]
pub enum MessageContent {
    ToolUse(ToolUse),
    ToolResult(ToolResult),
    Text(Text),
    Thinking(Thinking),
    /// Reasoning the server returned in encrypted form; carried back as-is.
    RedactedThinking { data: String },
}

/// A tool invocation requested by the model. `input` is arbitrary JSON,
/// carried opaquely.
#[derive(Debug, PartialEq)]
pub struct ToolUse {
    pub id: String,
    pub input: serde_json::Value,
    pub name: String,
    pub cache_control: Option<CacheControl>,
}

/// The caller's answer to a tool invocation.
#[derive(Debug, PartialEq, Default)]
pub struct ToolResult {
    pub tool_use_id: String,
    pub content: Option<String>,
    pub is_error: bool,
    pub cache_control: Option<CacheControl>,
}

/// A plain text block.
#[derive(Debug, PartialEq, Default)]
pub struct Text {
    pub text: String,
    pub cache_control: Option<CacheControl>,
}

/// A thinking block with an optional signature.
#[derive(Debug, PartialEq, Default)]
pub struct Thinking {
    pub thinking: String,
    pub signature: Option<String>,
}

/// Prompt-caching directive on a content block.
#[derive(Clone, Copy, Debug, PartialEq, Eq, Structural, Default)]
pub struct CacheControl {
    pub kind: CacheControlKind,
    pub ttl: Option<CacheControlTtl>,
}

#[derive(Clone, Copy, Debug, PartialEq, Eq, Structural, Default)]
pub enum CacheControlKind {
    #[default]
    Ephemeral,
}

#[derive(Clone, Copy, Debug, PartialEq, Eq, Structural, Default)]
pub enum CacheControlTtl {
    #[default]
    Ttl5Minutes,
    Ttl1Hour,
}

impl Clone for Text {
    fn clone(&self) -> (r: Self)
        ensures
            r == *self,
    {
        Text { text: self.text.clone(), cache_control: self.cache_control }
    }
}

impl Clone for Thinking {
    fn clone(&self) -> (r: Self)
        ensures
            r == *self,
    {
        Thinking { thinking: self.thinking.clone(), signature: self.signature.clone() }
    }
}

impl Clone for ToolUse {
    fn clone(&self) -> (r: Self)
        ensures
            r == *self,
    {
        ToolUse {
            id: self.id.clone(),
            input: self.input.clone(),
            name: self.name.clone(),
            cache_control: self.cache_control,
        }
    }
}

impl Clone for ToolResult {
    fn clone(&self) -> (r: Self)
        ensures
            r == *self,
    {
        ToolResult {
            tool_use_id: self.tool_use_id.clone(),
            content: self.content.clone(),
            is_error: self.is_error,
            cache_control: self.cache_control,
        }
    }
}

impl Clone for MessageContent {
    fn clone(&self) -> (r: Self)
        ensures
            r == *self,
    {
        match self {
            MessageContent::ToolUse(t) => MessageContent::ToolUse(t.clone()),
            MessageContent::ToolResult(t) => MessageContent::ToolResult(t.clone()),
            MessageContent::Text(t) => MessageContent::Text(t.clone()),
            MessageContent::Thinking(t) => MessageContent::Thinking(t.clone()),
            MessageContent::RedactedThinking { data } => MessageContent::RedactedThinking {
                data: data.clone(),
            },
        }
    }
}

impl Clone for MessageContentList {
    fn clone(&self) -> (r: Self)
        ensures
            r.0@ == self.0@,
    {
        let cloned = self.0.clone();
        proof {
            assert(cloned@ =~= self.0@);
        }
        MessageContentList(cloned)
    }
}

impl Clone for Message {
    fn clone(&self) -> (r: Self)
        ensures
            r.role == self.role,
            r.content.0@ == self.content.0@,
    {
        Message { role: self.role, content: self.content.clone() }
    }
}

/// The tool uses of a content block sequence, in order.
pub open spec fn spec_tool_uses(s: Seq<MessageContent>) -> Seq<ToolUse>
    decreases s.len(),
{
    if s.len() == 0 {
        Seq::empty()
    } else {
        spec_tool_uses(s.drop_last()) + (match s.last() {
            MessageContent::ToolUse(t) => seq![t],
            _ => Seq::empty(),
        })
    }
}

/// The first text block of a content block sequence, from `i` on.
pub open spec fn spec_first_text_from(s: Seq<MessageContent>, i: nat) -> Option<Text>
    decreases s.len() - i,
{
    if i >= s.len() {
        None
    } else {
        match s[i as int] {
            MessageContent::Text(t) => Some(t),
            _ => spec_first_text_from(s, i + 1),
        }
    }
}

impl Message {
    /// Returns all the tool uses in the message, in order.
    pub fn tool_uses(&self) -> (r: Vec<ToolUse>)
        ensures
            r@ == spec_tool_uses(self.content.0@),
    {
        let mut r: Vec<ToolUse> = Vec::new();
        let mut i: usize = 0;
        while i < self.content.0.len()
            invariant
                i <= self.content.0.len(),
                r@ == spec_tool_uses(self.content.0@.subrange(0, i as int)),
            decreases self.content.0.len() - i,
        {
            let ghost seen = self.content.0@.subrange(0, i as int);
            let ghost next = self.content.0@.subrange(0, i as int + 1);
            proof {
                assert(next.drop_last() =~= seen);
            }
            match &self.content.0[i] {
                MessageContent::ToolUse(t) => {
                    r.push(t.clone());
                    proof {
                        assert(r@ =~= spec_tool_uses(next));
                    }
                },
                _ => {
                    proof {
                        assert(r@ =~= spec_tool_uses(next));
                    }
                },
            }
            i = i + 1;
        }
        proof {
            assert(self.content.0@.subrange(0, self.content.0@.len() as int) =~= self.content.0@);
        }
        r
    }

    /// Returns the text of the first text content block in the message, if
    /// there is one.
    pub fn text(&self) -> (r: Option<String>)
        ensures
            (match r {
                Some(t) => (spec_first_text_from(self.content.0@, 0) matches Some(first) && t
                    == first.text),
                None => spec_first_text_from(self.content.0@, 0) is None,
            }),
    {
        let mut i: usize = 0;
        while i < self.content.0.len()
            invariant
                i <= self.content.0.len(),
                spec_first_text_from(self.content.0@, 0) == spec_first_text_from(
                    self.content.0@,
                    i as nat,
                ),
            decreases self.content.0.len() - i,
        {
            match &self.content.0[i] {
                MessageContent::Text(t) => {
                    return Some(t.text.clone());
                },
                _ => {},
            }
            i = i + 1;
        }
        None
    }
}

impl MessageContent {
    /// This block's tool use, if it is one.
    pub fn as_tool_use(&self) -> (r: Option<&ToolUse>)
        ensures
            (match self {
                MessageContent::ToolUse(t) => r == Some(t),
                _ => r is None,
            }),
    {
        if let MessageContent::ToolUse(tool_use) = self {
            Some(tool_use)
        } else {
            None
        }
    }

    /// This block's tool result, if it is one.
    pub fn as_tool_result(&self) -> (r: Option<&ToolResult>)
        ensures
            (match self {
                MessageContent::ToolResult(t) => r == Some(t),
                _ => r is None,
            }),
    {
        if let MessageContent::ToolResult(tool_result) = self {
            Some(tool_result)
        } else {
            None
        }
    }

    /// This block's text, if it is one.
    pub fn as_text(&self) -> (r: Option<&Text>)
        ensures
            (match self {
                MessageContent::Text(t) => r == Some(t),
                _ => r is None,
            }),
    {
        if let MessageContent::Text(text) = self {
            Some(text)
        } else {
            None
        }
    }
}

impl Thinking {
    /// The same block, signed.
    pub fn with_signature(self, signature: String) -> (r: Self)
        ensures
            r.thinking == self.thinking,
            r.signature == Some(signature),
    {
        Thinking { thinking: self.thinking, signature: Some(signature) }
    }
}

/// A numeric sampling parameter (a value between 0 and 1 on the wire),
/// carried as the raw bit pattern of an IEEE-754 single-precision value.
/// This crate stores and forwards it, never computes with it.
#[derive(Clone, Copy, Debug, PartialEq, Eq, Structural)]
pub struct FloatBits {
    pub bits: u32,
}

/// A request to create a message.
#[derive(Clone, Debug)]
pub struct CreateMessagesRequest {
    pub messages: Vec<Message>,
    pub model: String,
    pub max_tokens: i32,
    pub thinking: Option<ExtendedThinking>,
    /// Arbitrary caller metadata, carried opaquely.
    pub metadata: serde_json::Map<String, serde_json::Value>,
    pub stop_sequences: Vec<String>,
    pub stream: bool,
    pub temperature: Option<FloatBits>,
    pub tool_choice: Option<ToolChoice>,
    pub tools: Vec<Tool>,
    pub top_k: Option<u32>,
    pub top_p: Option<FloatBits>,
    pub system: Option<System>,
}

/// One tool the model may call.
#[derive(Clone, Debug)]
pub enum Tool {
    Custom(CustomTool),
    Bash(ToolBash),
    CodeExecution(ToolCodeExecution),
    ComputerUse(ToolComputerUse),
    TextEditor(ToolTextEditor),
    WebSearch(ToolWebSearch),
}

/// A caller-defined tool with a JSON-schema input description.
#[derive(Clone, Debug)]
pub struct CustomTool {
    pub name: String,
    pub input_schema: ToolInputSchema,
    pub description: Option<String>,
    pub cache_control: Option<CacheControl>,
}

/// The input schema of a custom tool; its properties are arbitrary JSON,
/// carried opaquely.
#[derive(Clone, Debug)]
pub struct ToolInputSchema {
    pub kind: ToolInputSchemaKind,
    pub properties: serde_json::Map<String, serde_json::Value>,
    pub required: Vec<String>,
}

#[derive(Clone, Copy, Debug, PartialEq, Eq, Structural, Default)]
pub enum ToolInputSchemaKind {
    #[default]
    Object,
}

#[derive(Clone, Debug, PartialEq)]
pub enum ToolBash {
    Bash20241022(ToolBash20241022),
    Bash20250124(ToolBash20250124),
}

#[derive(Clone, Copy, Debug, PartialEq, Eq, Structural, Default)]
pub struct ToolBash20241022 {
    pub name: ToolBashName,
    pub cache_control: Option<CacheControl>,
}

#[derive(Clone, Copy, Debug, PartialEq, Eq, Structural, Default)]
pub struct ToolBash20250124 {
    pub name: ToolBashName,
    pub cache_control: Option<CacheControl>,
}

#[derive(Clone, Copy, Debug, PartialEq, Eq, Structural, Default)]
pub enum ToolBashName {
    #[default]
    Bash,
}

#[derive(Clone, Debug, PartialEq)]
pub enum ToolCodeExecution {
    CodeExecution20250522(ToolCodeExecution20250522),
}

#[derive(Clone, Copy, Debug, PartialEq, Eq, Structural, Default)]
pub struct ToolCodeExecution20250522 {
    pub name: ToolCodeExecutionName,
    pub cache_control: Option<CacheControl>,
}

#[derive(Clone, Copy, Debug, PartialEq, Eq, Structural, Default)]
pub enum ToolCodeExecutionName {
    #[default]
    CodeExecution,
}

#[derive(Clone, Debug, PartialEq)]
pub enum ToolComputerUse {
    ComputerUse20241022(ToolComputerUse20241022),
    ComputerUse20250124(ToolComputerUse20250124),
}

/// Display sizes are in pixels and must be positive.
#[derive(Clone, Copy, Debug, PartialEq, Eq, Structural)]
pub struct ToolComputerUse20241022 {
    pub name: ToolComputerUseName,
    pub display_height_px: u32,
    pub display_width_px: u32,
    pub display_number: Option<u32>,
    pub cache_control: Option<CacheControl>,
}

#[derive(Clone, Copy, Debug, PartialEq, Eq, Structural, Default)]
pub struct ToolComputerUse20250124 {
    pub name: ToolComputerUseName,
    pub cache_control: Option<CacheControl>,
}

#[derive(Clone, Copy, Debug, PartialEq, Eq, Structural, Default)]
pub enum ToolComputerUseName {
    #[default]
    ComputerUse,
}

#[derive(Clone, Debug, PartialEq)]
pub enum ToolTextEditor {
    TextEditor20241022(ToolTextEditor20241022),
    TextEditor20250124(ToolTextEditor20250124),
    TextEditor20250429(ToolTextEditor20250429),
}

#[derive(Clone, Copy, Debug, PartialEq, Eq, Structural, Default)]
pub struct ToolTextEditor20241022 {
    pub name: ToolTextEditorName,
    pub cache_control: Option<CacheControl>,
}

#[derive(Clone, Copy, Debug, PartialEq, Eq, Structural, Default)]
pub struct ToolTextEditor20250124 {
    pub name: ToolTextEditorName,
    pub cache_control: Option<CacheControl>,
}

#[derive(Clone, Copy, Debug, PartialEq, Eq, Structural, Default)]
pub struct ToolTextEditor20250429 {
    pub name: ToolTextEditorBasedEditName,
    pub cache_control: Option<CacheControl>,
}

#[derive(Clone, Copy, Debug, PartialEq, Eq, Structural, Default)]
pub enum ToolTextEditorName {
    #[default]
    StrReplaceEditor,
}

#[derive(Clone, Copy, Debug, PartialEq, Eq, Structural, Default)]
pub enum ToolTextEditorBasedEditName {
    #[default]
    StrReplaceBasedEditTool,
}

#[derive(Clone, Debug, PartialEq)]
pub enum ToolWebSearch {
    WebSearch20250305(ToolWebSearch20250305),
}

#[derive(Clone, Debug, PartialEq)]
pub struct ToolWebSearch20250305 {
    pub name: ToolWebSearchName,
    pub allowed_or_blocked_domains: Option<WebSearchAllowedOrBlockedDomains>,
    pub max_uses: Option<u32>,
    pub user_location: Option<WebSearchUserLocation>,
    pub cache_control: Option<CacheControl>,
}

#[derive(Clone, Debug, PartialEq)]
pub enum WebSearchAllowedOrBlockedDomains {
    Allowed(Vec<String>),
    Blocked(Vec<String>),
}

#[derive(Clone, Debug, PartialEq, Default)]
pub struct WebSearchUserLocation {
    pub kind: WebSearchUserLocationKind,
    pub city: Option<String>,
    pub country_iso: Option<String>,
    pub region: Option<String>,
    pub timezone_iana: Option<String>,
}

#[derive(Clone, Copy, Debug, PartialEq, Eq, Structural, Default)]
pub enum WebSearchUserLocationKind {
    #[default]
    Approximate,
}

#[derive(Clone, Copy, Debug, PartialEq, Eq, Structural, Default)]
pub enum ToolWebSearchName {
    #[default]
    WebSearch,
}

/// The system prompt: either structured content or plain text.
#[derive(Clone, Debug, PartialEq)]
pub enum System {
    Content(SystemContent),
    Plain(String),
}

#[derive(Clone, Debug, PartialEq)]
pub enum SystemContent {
    Text(Text),
}

impl From<String> for System {
    fn from(s: String) -> Self {
        System::Plain(s)
    }
}

impl vstd::std_specs::convert::FromSpecImpl<String> for System {
    open spec fn obeys_from_spec() -> bool {
        true
    }

    open spec fn from_spec(s: String) -> Self {
        System::Plain(s)
    }
}

/// The decoded response to a non-streaming message request.
#[derive(Clone, Debug)]
pub struct CreateMessagesResponse {
    pub id: Option<String>,
    pub content: Vec<MessageContent>,
    pub model: Option<String>,
    pub stop_reason: Option<String>,
    pub stop_sequence: Option<String>,
    pub usage: Option<Usage>,
}

impl CreateMessagesResponse {
    /// Returns the content as messages, one per content block, all from the
    /// assistant, so they are more easily reusable.
    pub fn messages(&self) -> (r: Vec<Message>)
        ensures
            r@.len() == self.content@.len(),
            forall|i: int|
                0 <= i < r@.len() ==> (#[trigger] r@[i]).role == MessageRole::Assistant && r@[i]
                    .content.0@ == seq![self.content@[i]],
    {
        let mut r: Vec<Message> = Vec::new();
        let mut i: usize = 0;
        while i < self.content.len()
            invariant
                i <= self.content@.len(),
                r@.len() == i,
                forall|j: int|
                    0 <= j < i ==> (#[trigger] r@[j]).role == MessageRole::Assistant && r@[j]
                        .content.0@ == seq![self.content@[j]],
            decreases self.content@.len() - i,
        {
            let block = self.content[i].clone();
            let mut one: Vec<MessageContent> = Vec::new();
            one.push(block);
            proof {
                assert(one@ =~= seq![self.content@[i as int]]);
            }
            r.push(Message { role: MessageRole::Assistant, content: MessageContentList(one) });
            i = i + 1;
        }
        r
    }
}

impl From<ToolUse> for MessageContent {
    fn from(tool_use: ToolUse) -> Self {
        MessageContent::ToolUse(tool_use)
    }
}

impl vstd::std_specs::convert::FromSpecImpl<ToolUse> for MessageContent {
    open spec fn obeys_from_spec() -> bool {
        true
    }

    open spec fn from_spec(tool_use: ToolUse) -> Self {
        MessageContent::ToolUse(tool_use)
    }
}

impl From<ToolResult> for MessageContent {
    fn from(tool_result: ToolResult) -> Self {
        MessageContent::ToolResult(tool_result)
    }
}

impl vstd::std_specs::convert::FromSpecImpl<ToolResult> for MessageContent {
    open spec fn obeys_from_spec() -> bool {
        true
    }

    open spec fn from_spec(tool_result: ToolResult) -> Self {
        MessageContent::ToolResult(tool_result)
    }
}

impl From<Text> for MessageContent {
    fn from(text: Text) -> Self {
        MessageContent::Text(text)
    }
}

impl vstd::std_specs::convert::FromSpecImpl<Text> for MessageContent {
    open spec fn obeys_from_spec() -> bool {
        true
    }

    open spec fn from_spec(text: Text) -> Self {
        MessageContent::Text(text)
    }
}

impl From<Thinking> for MessageContent {
    fn from(thinking: Thinking) -> Self {
        MessageContent::Thinking(thinking)
    }
}

impl vstd::std_specs::convert::FromSpecImpl<Thinking> for MessageContent {
    open spec fn obeys_from_spec() -> bool {
        true
    }

    open spec fn from_spec(thinking: Thinking) -> Self {
        MessageContent::Thinking(thinking)
    }
}

impl MessageContentList {
    /// A list of one block.
    pub fn of_block(content: MessageContent) -> (r: Self)
        ensures
            r.0@ == seq![content],
    {
        let mut one: Vec<MessageContent> = Vec::new();
        one.push(content);
        proof {
            assert(one@ =~= seq![content]);
        }
        MessageContentList(one)
    }
}

impl From<MessageContent> for MessageContentList {
    fn from(content: MessageContent) -> Self {
        MessageContentList::of_block(content)
    }
}

impl vstd::std_specs::convert::FromSpecImpl<MessageContent> for MessageContentList {
    open spec fn obeys_from_spec() -> bool {
        false
    }

    open spec fn from_spec(content: MessageContent) -> Self {
        vstd::pervasive::arbitrary()
    }
}

impl From<ToolUse> for MessageContentList {
    fn from(tool_use: ToolUse) -> Self {
        MessageContentList::of_block(MessageContent::ToolUse(tool_use))
    }
}

impl vstd::std_specs::convert::FromSpecImpl<ToolUse> for MessageContentList {
    open spec fn obeys_from_spec() -> bool {
        false
    }

    open spec fn from_spec(tool_use: ToolUse) -> Self {
        vstd::pervasive::arbitrary()
    }
}

impl From<ToolResult> for MessageContentList {
    fn from(tool_result: ToolResult) -> Self {
        MessageContentList::of_block(MessageContent::ToolResult(tool_result))
    }
}

impl vstd::std_specs::convert::FromSpecImpl<ToolResult> for MessageContentList {
    open spec fn obeys_from_spec() -> bool {
        false
    }

    open spec fn from_spec(tool_result: ToolResult) -> Self {
        vstd::pervasive::arbitrary()
    }
}

impl From<Text> for MessageContentList {
    fn from(text: Text) -> Self {
        MessageContentList::of_block(MessageContent::Text(text))
    }
}

impl vstd::std_specs::convert::FromSpecImpl<Text> for MessageContentList {
    open spec fn obeys_from_spec() -> bool {
        false
    }

    open spec fn from_spec(text: Text) -> Self {
        vstd::pervasive::arbitrary()
    }
}

impl From<Thinking> for MessageContentList {
    fn from(thinking: Thinking) -> Self {
        MessageContentList::of_block(MessageContent::Thinking(thinking))
    }
}

impl vstd::std_specs::convert::FromSpecImpl<Thinking> for MessageContentList {
    open spec fn obeys_from_spec() -> bool {
        false
    }

    open spec fn from_spec(thinking: Thinking) -> Self {
        vstd::pervasive::arbitrary()
    }
}

impl Text {
    /// A plain text block with no caching directive.
    pub fn of_str(s: &str) -> (r: Self)
        ensures
            r.text@ == s@,
            r.cache_control is None,
    {
        Text { text: s.to_owned(), cache_control: None }
    }
}

impl<'a> From<&'a str> for Text {
    fn from(s: &'a str) -> Self {
        Text::of_str(s)
    }
}

impl<'a> vstd::std_specs::convert::FromSpecImpl<&'a str> for Text {
    open spec fn obeys_from_spec() -> bool {
        false
    }

    open spec fn from_spec(s: &'a str) -> Self {
        vstd::pervasive::arbitrary()
    }
}

impl Thinking {
    /// An unsigned thinking block.
    pub fn of_str(s: &str) -> (r: Self)
        ensures
            r.thinking@ == s@,
            r.signature is None,
    {
        Thinking { thinking: s.to_owned(), signature: None }
    }
}

impl<'a> From<&'a str> for Thinking {
    fn from(s: &'a str) -> Self {
        Thinking::of_str(s)
    }
}

impl<'a> vstd::std_specs::convert::FromSpecImpl<&'a str> for Thinking {
    open spec fn obeys_from_spec() -> bool {
        false
    }

    open spec fn from_spec(s: &'a str) -> Self {
        vstd::pervasive::arbitrary()
    }
}

impl<'a> From<&'a str> for MessageContent {
    fn from(s: &'a str) -> Self {
        MessageContent::Text(Text::of_str(s))
    }
}

impl<'a> vstd::std_specs::convert::FromSpecImpl<&'a str> for MessageContent {
    open spec fn obeys_from_spec() -> bool {
        false
    }

    open spec fn from_spec(s: &'a str) -> Self {
        vstd::pervasive::arbitrary()
    }
}

impl<'a> From<&'a str> for MessageContentList {
    fn from(s: &'a str) -> Self {
        MessageContentList::of_block(MessageContent::Text(Text::of_str(s)))
    }
}

impl<'a> vstd::std_specs::convert::FromSpecImpl<&'a str> for MessageContentList {
    open spec fn obeys_from_spec() -> bool {
        false
    }

    open spec fn from_spec(s: &'a str) -> Self {
        vstd::pervasive::arbitrary()
    }
}

impl Message {
    /// A user message of one plain text block.
    pub fn of_str(s: &str) -> (r: Self)
        ensures
            r.role == MessageRole::User,
            r.content.0@.len() == 1,
            (r.content.0@[0] matches MessageContent::Text(t) && t.text@ == s@ && t.cache_control
                is None),
    {
        Message {
            role: MessageRole::User,
            content: MessageContentList::of_block(MessageContent::Text(Text::of_str(s))),
        }
    }
}

impl<'a> From<&'a str> for Message {
    fn from(s: &'a str) -> Self {
        Message::of_str(s)
    }
}

impl<'a> vstd::std_specs::convert::FromSpecImpl<&'a str> for Message {
    open spec fn obeys_from_spec() -> bool {
        false
    }

    open spec fn from_spec(s: &'a str) -> Self {
        vstd::pervasive::arbitrary()
    }
}

/// One incremental change to a content block on a stream.
#[derive(Clone, Debug, PartialEq)]
pub enum ContentBlockDelta {
    TextDelta { text: String },
    ThinkingDelta { thinking: String },
    SignatureDelta { signature: String },
    InputJsonDelta { partial_json: String },
}

/// The closing metadata of a streamed message.
#[derive(Clone, Debug, PartialEq)]
pub struct MessageDelta {
    pub stop_reason: Option<String>,
    pub stop_sequence: Option<String>,
}

/// One typed event of a message stream, in the order the server sent them.
#[derive(Clone, Debug)]
pub enum MessagesStreamEvent {
    MessageStart { message: MessageStart, usage: Option<Usage> },
    ContentBlockStart { index: usize, content_block: MessageContent },
    ContentBlockDelta { index: usize, delta: ContentBlockDelta },
    ContentBlockStop { index: usize },
    MessageDelta { delta: MessageDelta, usage: Option<Usage> },
    MessageStop,
}

/// The opening envelope of a streamed message.
#[derive(Clone, Debug)]
pub struct MessageStart {
    pub id: String,
    pub model: String,
    pub role: String,
    pub content: Vec<MessageContent>,
    pub stop_reason: Option<String>,
    pub stop_sequence: Option<String>,
    pub usage: Option<Usage>,
}

/// The response to a model-listing request.
#[derive(Clone, Debug, PartialEq)]
pub struct ListModelsResponse {
    pub data: Vec<Model>,
    pub first_id: Option<String>,
    pub has_more: bool,
    pub last_id: Option<String>,
}

/// One available model.
#[derive(Clone, Debug, PartialEq)]
pub struct Model {
    pub created_at: String,
    pub display_name: String,
    pub id: String,
    pub model_type: String,
}

pub type GetModelResponse = Model;

} // verus!
