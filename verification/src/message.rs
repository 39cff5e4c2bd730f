//! Messages: the turns of a conversation, and the blocks they are made of.

use vstd::prelude::*;

verus! {

/// Who speaks in a message.
#[derive(Clone, Copy, Debug, PartialEq, Eq, Structural)]
pub enum MessageRole {
    System,
    User,
    Assistant,
}

/// An invocation of a tool that the model asks for.
#[derive(Clone, Debug, PartialEq, Eq)]
pub struct ToolCall {
    /// Identifies the call within its response.
    pub id: String,
    /// Name of the tool.
    pub name: String,
    /// Arguments, in the shape the tool's schema lays down.
    pub input: serde_json::Value,
}

/// A capability offered to the model.
#[derive(Clone, Debug, PartialEq, Eq)]
pub struct Tool {
    /// Identifies the tool within its request.
    pub name: String,
    /// Tells the model what the tool is for.
    pub description: String,
    /// Schema of the arguments.
    pub input_schema: serde_json::Value,
}

/// One typed unit of a message's content.
#[derive(Clone, Debug, PartialEq, Eq)]
pub enum ContentBlock {
    Text(String),
    ToolCall(ToolCall),
    ToolResult { tool_call_id: String, result: String },
}

/// One turn of a conversation.
#[derive(Clone, Debug, PartialEq, Eq)]
pub struct Message {
    pub role: MessageRole,
    /// The blocks in the order in which they occurred.
    pub content: Vec<ContentBlock>,
}

/// Mathematical model of a [`ToolCall`].
pub struct ToolCallView {
    pub id: Seq<char>,
    pub name: Seq<char>,
    pub input: serde_json::Value,
}

/// Mathematical model of a [`Tool`].
pub struct ToolView {
    pub name: Seq<char>,
    pub description: Seq<char>,
    pub input_schema: serde_json::Value,
}

/// Mathematical model of a [`ContentBlock`].
pub enum ContentBlockView {
    Text(Seq<char>),
    ToolCall(ToolCallView),
    ToolResult { tool_call_id: Seq<char>, result: Seq<char> },
}

/// Mathematical model of a [`Message`].
pub struct MessageView {
    pub role: MessageRole,
    pub content: Seq<ContentBlockView>,
}

impl View for ToolCall {
    type V = ToolCallView;

    open spec fn view(&self) -> ToolCallView {
        ToolCallView { id: self.id@, name: self.name@, input: self.input }
    }
}

impl View for Tool {
    type V = ToolView;

    open spec fn view(&self) -> ToolView {
        ToolView {
            name: self.name@,
            description: self.description@,
            input_schema: self.input_schema,
        }
    }
}

impl View for ContentBlock {
    type V = ContentBlockView;

    open spec fn view(&self) -> ContentBlockView {
        match *self {
            ContentBlock::Text(text) => ContentBlockView::Text(text@),
            ContentBlock::ToolCall(call) => ContentBlockView::ToolCall(call@),
            ContentBlock::ToolResult { tool_call_id, result } => ContentBlockView::ToolResult {
                tool_call_id: tool_call_id@,
                result: result@,
            },
        }
    }
}

impl View for Message {
    type V = MessageView;

    open spec fn view(&self) -> MessageView {
        MessageView {
            role: self.role,
            content: self.content@.map_values(|block: ContentBlock| block@),
        }
    }
}

impl ToolCall {
    /// A copy of the call.
    pub fn duplicate(&self) -> (copy: ToolCall)
        ensures
            copy == *self,
    {
        ToolCall { id: self.id.clone(), name: self.name.clone(), input: self.input.clone() }
    }
}

impl Message {
    /// The tool calls among `content`, in their order.
    pub open spec fn tool_calls_in(content: Seq<ContentBlock>) -> Seq<ToolCall> {
        content.filter(|block: ContentBlock| block is ToolCall).map_values(
            |block: ContentBlock| block->ToolCall_0,
        )
    }

    /// With one more block at the end, the tool calls are those that were
    /// there, and then the new block if it is one.
    pub proof fn lemma_tool_calls_in_push(content: Seq<ContentBlock>, block: ContentBlock)
        ensures
            Message::tool_calls_in(content.push(block)) == if block is ToolCall {
                Message::tool_calls_in(content).push(block->ToolCall_0)
            } else {
                Message::tool_calls_in(content)
            },
    {
        reveal(Seq::filter);
        assert(content.push(block).drop_last() =~= content);
        assert(Message::tool_calls_in(content.push(block)) =~= if block is ToolCall {
            Message::tool_calls_in(content).push(block->ToolCall_0)
        } else {
            Message::tool_calls_in(content)
        });
    }

    /// Copies of the tool calls in the message's content, in their order.
    pub fn tool_calls(&self) -> (calls: Vec<ToolCall>)
        ensures
            calls@ == Message::tool_calls_in(self.content@),
    {
        let mut calls: Vec<ToolCall> = Vec::new();
        let mut i: usize = 0;
        assert(self.content@.take(0) =~= Seq::<ContentBlock>::empty());
        assert(Message::tool_calls_in(Seq::<ContentBlock>::empty()) =~= Seq::<ToolCall>::empty())
            by {
            reveal(Seq::filter);
        }
        while i < self.content.len()
            invariant
                i <= self.content@.len(),
                calls@ == Message::tool_calls_in(self.content@.take(i as int)),
            decreases self.content@.len() - i,
        {
            proof {
                Message::lemma_tool_calls_in_push(self.content@.take(i as int), self.content@[i as int]);
                assert(self.content@.take(i as int).push(self.content@[i as int])
                    =~= self.content@.take(i + 1));
            }
            match &self.content[i] {
                ContentBlock::ToolCall(call) => {
                    calls.push(call.duplicate());
                },
                _ => {},
            }
            i = i + 1;
        }
        assert(self.content@.take(i as int) =~= self.content@);
        calls
    }

    /// A message that holds one block of text.
    pub fn text(role: MessageRole, text: &str) -> (message: Message)
        ensures
            message@ == (MessageView { role, content: seq![ContentBlockView::Text(text@)] }),
    {
        let mut content: Vec<ContentBlock> = Vec::new();
        content.push(ContentBlock::Text(String::from_str(text)));
        let message = Message { role, content };
        assert(message@.content =~= seq![ContentBlockView::Text(text@)]);
        message
    }

    /// A message that holds a block of text and then the given tool calls,
    /// each in a block of its own and in the given order.
    pub fn with_tool_calls(role: MessageRole, text: &str, tool_calls: Vec<ToolCall>) -> (message:
        Message)
        ensures
            message@.role == role,
            message@.content == seq![ContentBlockView::Text(text@)] + tool_calls@.map_values(
                |call: ToolCall| ContentBlockView::ToolCall(call@),
            ),
    {
        let mut content: Vec<ContentBlock> = Vec::new();
        content.push(ContentBlock::Text(String::from_str(text)));
        let ghost calls = tool_calls@;
        for call in iter: tool_calls
            invariant
                iter.seq() == calls,
                content@.len() == 1 + iter.index(),
                content@[0]@ == ContentBlockView::Text(text@),
                forall|i: int|
                    0 <= i < iter.index() ==> content@[1 + i] == ContentBlock::ToolCall(
                        #[trigger] calls[i],
                    ),
        {
            content.push(ContentBlock::ToolCall(call));
        }
        let message = Message { role, content };
        assert(message@.content =~= seq![ContentBlockView::Text(text@)] + calls.map_values(
            |call: ToolCall| ContentBlockView::ToolCall(call@),
        ));
        message
    }

    /// The message in which the user hands back what a tool call returned.
    pub fn tool_result(tool_call_id: &str, result: &str) -> (message: Message)
        ensures
            message@ == (MessageView {
                role: MessageRole::User,
                content: seq![
                    ContentBlockView::ToolResult { tool_call_id: tool_call_id@, result: result@ },
                ],
            }),
    {
        let mut content: Vec<ContentBlock> = Vec::new();
        content.push(
            ContentBlock::ToolResult {
                tool_call_id: String::from_str(tool_call_id),
                result: String::from_str(result),
            },
        );
        let message = Message { role: MessageRole::User, content };
        assert(message@.content =~= seq![
            ContentBlockView::ToolResult { tool_call_id: tool_call_id@, result: result@ },
        ]);
        message
    }
}

} // verus!
