//! Chat messages: role, content (plain text or typed parts), tool calls.
use vstd::prelude::*;
use vstd::string::*;
use crate::text::str_eq;

verus! {

broadcast use vstd::string::group_string_axioms;

/// Role of a message's author.
#[derive(Debug, Clone, Copy, PartialEq, Eq)]
pub enum ChatMessageRole {
    System,
    User,
    Assistant,
    Tool,
    Developer,
}

/// The lowercase wire name of a role.
pub open spec fn role_name(r: ChatMessageRole) -> Seq<char> {
    match r {
        ChatMessageRole::System => "system"@,
        ChatMessageRole::User => "user"@,
        ChatMessageRole::Assistant => "assistant"@,
        ChatMessageRole::Tool => "tool"@,
        ChatMessageRole::Developer => "developer"@,
    }
}

/// The role a wire name stands for; unknown names are read as `User`.
pub open spec fn role_of_name(s: Seq<char>) -> ChatMessageRole {
    if s == "system"@ {
        ChatMessageRole::System
    } else if s == "user"@ {
        ChatMessageRole::User
    } else if s == "assistant"@ {
        ChatMessageRole::Assistant
    } else if s == "tool"@ {
        ChatMessageRole::Tool
    } else if s == "developer"@ {
        ChatMessageRole::Developer
    } else {
        ChatMessageRole::User
    }
}

impl ChatMessageRole {
    /// The role a wire name stands for; unknown names are read as `User`.
    pub fn from_name(role: &str) -> (r: ChatMessageRole)
        ensures
            r == role_of_name(role@),
    {
        if str_eq(role, "system") {
            ChatMessageRole::System
        } else if str_eq(role, "user") {
            ChatMessageRole::User
        } else if str_eq(role, "assistant") {
            ChatMessageRole::Assistant
        } else if str_eq(role, "tool") {
            ChatMessageRole::Tool
        } else if str_eq(role, "developer") {
            ChatMessageRole::Developer
        } else {
            ChatMessageRole::User
        }
    }

    /// The lowercase wire name (what `Display` shows).
    pub fn as_str(&self) -> (s: &'static str)
        ensures
            s@ == role_name(*self),
    {
        match self {
            ChatMessageRole::System => "system",
            ChatMessageRole::User => "user",
            ChatMessageRole::Assistant => "assistant",
            ChatMessageRole::Tool => "tool",
            ChatMessageRole::Developer => "developer",
        }
    }
}

/// Reading a role's own name gives the role back.
pub proof fn law_role_name_round_trip(r: ChatMessageRole)
    ensures
        role_of_name(role_name(r)) == r,
{
    reveal_strlit("system");
    reveal_strlit("user");
    reveal_strlit("assistant");
    reveal_strlit("tool");
    reveal_strlit("developer");
    assert("system"@.len() == 6 && "user"@.len() == 4 && "assistant"@.len() == 9 && "tool"@.len()
        == 4 && "developer"@.len() == 9);
    assert("user"@[0] == 'u' && "tool"@[0] == 't' && "assistant"@[0] == 'a' && "developer"@[0]
        == 'd');
}

/// An image given by URL.
#[derive(Debug, Clone)]
pub struct ImageUrlSpec {
    pub url: String,
    pub detail: Option<String>,
}

/// Base64 audio input.
#[derive(Debug, Clone)]
pub struct InputAudioSpec {
    pub data: String,
    pub format: String,
}

/// A file given by ID or inline data.
#[derive(Debug, Clone)]
pub struct FileRefSpec {
    pub file_id: Option<String>,
    pub file_data: Option<String>,
    pub file_name: Option<String>,
}

/// One typed part of a multi-part message.
#[derive(Debug, Clone)]
pub enum ContentPart {
    Text { text: String },
    ImageUrl { image_url: ImageUrlSpec },
    InputAudio { input_audio: InputAudioSpec },
    File { file: FileRefSpec },
    Refusal { refusal: String },
}

/// Either a plain string or a list of typed parts.
#[derive(Debug, Clone)]
pub enum ChatContent {
    Text(String),
    Parts(Vec<ContentPart>),
}

impl Default for ChatContent {
    fn default() -> (c: ChatContent)
        ensures
            c matches ChatContent::Text(s) && s@.len() == 0,
    {
        ChatContent::Text(String::new())
    }
}

impl From<String> for ChatContent {
    fn from(s: String) -> (c: ChatContent) {
        ChatContent::Text(s)
    }
}

impl vstd::std_specs::convert::FromSpecImpl<String> for ChatContent {
    open spec fn obeys_from_spec() -> bool {
        true
    }

    open spec fn from_spec(s: String) -> ChatContent {
        ChatContent::Text(s)
    }
}

/// Text content. The text is kept as a new `String`, which `from_spec` cannot name (two strings
/// with the same characters are not known to be equal), so `from` states its result by the
/// characters instead.
impl<'a> From<&'a str> for ChatContent {
    fn from(s: &'a str) -> (c: ChatContent)
        ensures
            is_text(c, s@),
    {
        ChatContent::Text(s.to_string())
    }
}

impl<'a> vstd::std_specs::convert::FromSpecImpl<&'a str> for ChatContent {
    open spec fn obeys_from_spec() -> bool {
        false
    }

    open spec fn from_spec(s: &'a str) -> ChatContent {
        ChatContent::Text(choose|x: String| x@ == s@)
    }
}

impl From<Vec<ContentPart>> for ChatContent {
    fn from(p: Vec<ContentPart>) -> (c: ChatContent) {
        ChatContent::Parts(p)
    }
}

impl vstd::std_specs::convert::FromSpecImpl<Vec<ContentPart>> for ChatContent {
    open spec fn obeys_from_spec() -> bool {
        true
    }

    open spec fn from_spec(p: Vec<ContentPart>) -> ChatContent {
        ChatContent::Parts(p)
    }
}

impl From<String> for ChatMessageRole {
    fn from(role: String) -> (r: ChatMessageRole) {
        ChatMessageRole::from_name(role.as_str())
    }
}

impl vstd::std_specs::convert::FromSpecImpl<String> for ChatMessageRole {
    open spec fn obeys_from_spec() -> bool {
        true
    }

    open spec fn from_spec(role: String) -> ChatMessageRole {
        role_of_name(role@)
    }
}

/// Kind of a tool call (always a function).
#[derive(Debug, Clone, Copy, PartialEq, Eq)]
pub enum ToolCallType {
    Function,
}

/// Function name and raw JSON arguments of a tool call.
#[derive(Debug, Clone)]
pub struct ToolCallFunction {
    pub name: String,
    /// Arguments as raw JSON text.
    pub arguments: String,
}

/// A tool call made in an assistant message.
#[derive(Debug, Clone)]
pub struct ToolCall {
    pub id: String,
    pub type_: ToolCallType,
    pub function: ToolCallFunction,
}

/// A single message in the chat conversation.
#[derive(Debug, Clone)]
pub struct ChatMessage {
    pub role: ChatMessageRole,
    pub content: ChatContent,
    pub name: Option<String>,
    /// Set when `role == Tool`: the assistant tool call this answers.
    pub tool_call_id: Option<String>,
    /// Set on an assistant message that calls tools.
    pub tool_calls: Option<Vec<ToolCall>>,
    /// Assistant refusal text.
    pub refusal: Option<String>,
}

/// The text a part contributes to a message's plain text (text and refusal parts).
pub open spec fn part_text(p: ContentPart) -> Seq<char> {
    match p {
        ContentPart::Text { text } => text@,
        ContentPart::Refusal { refusal } => refusal@,
        _ => Seq::empty(),
    }
}

/// The texts of the parts, concatenated.
pub open spec fn parts_text(ps: Seq<ContentPart>) -> Seq<char>
    decreases ps.len(),
{
    if ps.len() == 0 {
        Seq::empty()
    } else {
        parts_text(ps.drop_last()) + part_text(ps.last())
    }
}

/// The plain text of some content.
pub open spec fn content_text(c: ChatContent) -> Seq<char> {
    match c {
        ChatContent::Text(s) => s@,
        ChatContent::Parts(ps) => parts_text(ps@),
    }
}

/// The content after an image part is added: text becomes a text part (unless empty) followed
/// by the image; parts get the image appended.
pub open spec fn content_with_image(c: ChatContent, img: ContentPart) -> Seq<ContentPart> {
    match c {
        ChatContent::Text(t) => if t@.len() > 0 {
            seq![ContentPart::Text { text: t }, img]
        } else {
            seq![img]
        },
        ChatContent::Parts(ps) => ps@.push(img),
    }
}

/// A message with nothing set but the role and content.
pub open spec fn is_bare(m: ChatMessage) -> bool {
    &&& m.name is None
    &&& m.tool_call_id is None
    &&& m.tool_calls is None
    &&& m.refusal is None
}

/// A text content holding `s`.
pub open spec fn is_text(c: ChatContent, s: Seq<char>) -> bool {
    c matches ChatContent::Text(t) && t@ == s
}

impl ChatMessage {
    /// A message with an arbitrary role and content.
    pub fn new(role: ChatMessageRole, content: ChatContent) -> (m: ChatMessage)
        ensures
            m.role == role,
            m.content == content,
            is_bare(m),
    {
        ChatMessage {
            role,
            content,
            name: None,
            tool_call_id: None,
            tool_calls: None,
            refusal: None,
        }
    }

    /// A system-role message; the content is anything that converts into [`ChatContent`].
    pub fn system<C>(content: C) -> (m: ChatMessage)
        where ChatContent: From<C>
        ensures
            m.role == ChatMessageRole::System,
            call_ensures(ChatContent::from, (content,), m.content),
            is_bare(m),
    {
        Self::new(ChatMessageRole::System, ChatContent::from(content))
    }

    /// A developer-role message; the content is anything that converts into [`ChatContent`].
    pub fn developer<C>(content: C) -> (m: ChatMessage)
        where ChatContent: From<C>
        ensures
            m.role == ChatMessageRole::Developer,
            call_ensures(ChatContent::from, (content,), m.content),
            is_bare(m),
    {
        Self::new(ChatMessageRole::Developer, ChatContent::from(content))
    }

    /// A user-role message; the content is anything that converts into [`ChatContent`].
    pub fn user<C>(content: C) -> (m: ChatMessage)
        where ChatContent: From<C>
        ensures
            m.role == ChatMessageRole::User,
            call_ensures(ChatContent::from, (content,), m.content),
            is_bare(m),
    {
        Self::new(ChatMessageRole::User, ChatContent::from(content))
    }

    /// An assistant-role message; the content is anything that converts into [`ChatContent`].
    pub fn assistant<C>(content: C) -> (m: ChatMessage)
        where ChatContent: From<C>
        ensures
            m.role == ChatMessageRole::Assistant,
            call_ensures(ChatContent::from, (content,), m.content),
            is_bare(m),
    {
        Self::new(ChatMessageRole::Assistant, ChatContent::from(content))
    }

    /// A `tool`-role message answering the tool call `tool_call_id`; the content is anything
    /// that converts into [`ChatContent`].
    pub fn tool<C>(tool_call_id: &str, content: C) -> (m: ChatMessage)
        where ChatContent: From<C>
        ensures
            m.role == ChatMessageRole::Tool,
            call_ensures(ChatContent::from, (content,), m.content),
            m.tool_call_id matches Some(id) && id@ == tool_call_id@,
            m.name is None,
            m.tool_calls is None,
            m.refusal is None,
    {
        let mut m = Self::new(ChatMessageRole::Tool, ChatContent::from(content));
        m.tool_call_id = Some(tool_call_id.to_string());
        m
    }

    /// The message with the author name set.
    pub fn with_name(self, name: &str) -> (m: ChatMessage)
        ensures
            m.name matches Some(n) && n@ == name@,
            m.role == self.role,
            m.content == self.content,
            m.tool_call_id == self.tool_call_id,
            m.tool_calls == self.tool_calls,
            m.refusal == self.refusal,
    {
        ChatMessage { name: Some(name.to_string()), ..self }
    }

    /// The message with its tool calls set.
    pub fn with_tool_calls(self, calls: Vec<ToolCall>) -> (m: ChatMessage)
        ensures
            m.tool_calls == Some(calls),
            m.role == self.role,
            m.content == self.content,
            m.name == self.name,
            m.tool_call_id == self.tool_call_id,
            m.refusal == self.refusal,
    {
        ChatMessage { tool_calls: Some(calls), ..self }
    }

    /// Appends an `image_url` part (without detail), turning the content into parts if needed.
    /// The plain text of the message does not change.
    pub fn with_image(self, url: &str) -> (m: ChatMessage)
        ensures
            m.content matches ChatContent::Parts(ps) && {
                &&& ps@.len() > 0
                &&& ps@ == content_with_image(self.content, ps@.last())
                &&& ps@.last() matches ContentPart::ImageUrl { image_url }
                &&& image_url.url@ == url@
                &&& image_url.detail is None
            },
            content_text(m.content) == content_text(self.content),
            m.role == self.role,
            m.name == self.name,
            m.tool_call_id == self.tool_call_id,
            m.tool_calls == self.tool_calls,
            m.refusal == self.refusal,
    {
        let new_part = ContentPart::ImageUrl {
            image_url: ImageUrlSpec { url: url.to_string(), detail: None },
        };
        let ghost img = new_part;
        let ChatMessage { role, content, name, tool_call_id, tool_calls, refusal } = self;
        let parts = match content {
            ChatContent::Text(t) => {
                if !t.as_str().is_empty() {
                    let ghost tv = t@;
                    let mut ps: Vec<ContentPart> = Vec::new();
                    ps.push(ContentPart::Text { text: t });
                    proof {
                        reveal_with_fuel(parts_text, 2);
                        assert(ps@.drop_last() =~= Seq::<ContentPart>::empty());
                        assert(parts_text(ps@) =~= tv);
                    }
                    let ghost first = ps@;
                    ps.push(new_part);
                    proof {
                        assert(ps@.drop_last() =~= first);
                        assert(parts_text(ps@) =~= tv);
                    }
                    ps
                } else {
                    let mut ps: Vec<ContentPart> = Vec::new();
                    ps.push(new_part);
                    proof {
                        reveal_with_fuel(parts_text, 2);
                        assert(ps@.drop_last() =~= Seq::<ContentPart>::empty());
                        assert(parts_text(ps@) =~= Seq::<char>::empty());
                    }
                    ps
                }
            },
            ChatContent::Parts(mut parts) => {
                let ghost before = parts@;
                parts.push(new_part);
                proof {
                    assert(parts@.drop_last() =~= before);
                }
                parts
            },
        };
        ChatMessage { role, content: ChatContent::Parts(parts), name, tool_call_id, tool_calls, refusal }
    }

    /// The plain text: the text itself, or the text and refusal parts joined.
    pub fn text(&self) -> (s: String)
        ensures
            s@ == content_text(self.content),
    {
        match &self.content {
            ChatContent::Text(s) => s.clone(),
            ChatContent::Parts(parts) => {
                let mut out = String::new();
                let mut i: usize = 0;
                while i < parts.len()
                    invariant
                        i <= parts@.len(),
                        out@ == parts_text(parts@.take(i as int)),
                    decreases parts.len() - i,
                {
                    assert(parts@.take(i + 1).drop_last() =~= parts@.take(i as int));
                    match &parts[i] {
                        ContentPart::Text { text } => out.append(text.as_str()),
                        ContentPart::Refusal { refusal } => out.append(refusal.as_str()),
                        _ => {},
                    }
                    i += 1;
                }
                assert(parts@.take(parts@.len() as int) =~= parts@);
                out
            },
        }
    }
}

/// Adding an image never changes a message's plain text.
pub proof fn law_image_keeps_text(c: ChatContent, img: ContentPart)
    requires
        img is ImageUrl,
    ensures
        parts_text(content_with_image(c, img)) == content_text(c),
{
    let ps = content_with_image(c, img);
    reveal_with_fuel(parts_text, 3);
    match c {
        ChatContent::Text(t) => {
            if t@.len() > 0 {
                let one = ps.drop_last();
                assert(one.drop_last() =~= Seq::<ContentPart>::empty());
                assert(one.last() == ContentPart::Text { text: t });
                assert(parts_text(one) =~= parts_text(one.drop_last()) + part_text(one.last()));
                assert(parts_text(one) =~= t@);
                assert(parts_text(ps) =~= t@);
            } else {
                assert(ps.drop_last() =~= Seq::<ContentPart>::empty());
                assert(parts_text(ps) =~= t@);
            }
        },
        ChatContent::Parts(v) => {
            assert(ps.drop_last() =~= v@);
            assert(parts_text(ps) =~= parts_text(v@));
        },
    }
}

} // verus!
