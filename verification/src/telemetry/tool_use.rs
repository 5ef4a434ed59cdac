//! Collects, piece by piece, what is reported of one suggested tool use.

use vstd::prelude::*;

verus! {

/// What is known so far of one suggested tool use.
#[derive(Debug)]
pub struct ToolUseEventBuilder {
    pub conversation_id: String,
    pub utterance_id: Option<String>,
    pub user_input_id: Option<String>,
    pub tool_use_id: Option<String>,
    pub tool_name: Option<String>,
    pub is_accepted: bool,
    pub is_success: Option<bool>,
    pub is_valid: Option<bool>,
    pub is_custom_tool: bool,
    pub input_token_size: Option<usize>,
    pub output_token_size: Option<usize>,
    pub custom_tool_call_latency: Option<usize>,
    pub model: Option<String>,
}

/// Mathematical value of a [`ToolUseEventBuilder`].
pub struct ToolUseView {
    pub conversation_id: Seq<char>,
    pub utterance_id: Option<Seq<char>>,
    pub user_input_id: Option<Seq<char>>,
    pub tool_use_id: Option<Seq<char>>,
    pub tool_name: Option<Seq<char>>,
    pub is_accepted: bool,
    pub is_success: Option<bool>,
    pub is_valid: Option<bool>,
    pub is_custom_tool: bool,
    pub input_token_size: Option<usize>,
    pub output_token_size: Option<usize>,
    pub custom_tool_call_latency: Option<usize>,
    pub model: Option<Seq<char>>,
}

impl View for ToolUseEventBuilder {
    type V = ToolUseView;

    open spec fn view(&self) -> ToolUseView {
        ToolUseView {
            conversation_id: self.conversation_id@,
            utterance_id: self.utterance_id.deep_view(),
            user_input_id: self.user_input_id.deep_view(),
            tool_use_id: self.tool_use_id.deep_view(),
            tool_name: self.tool_name.deep_view(),
            is_accepted: self.is_accepted,
            is_success: self.is_success,
            is_valid: self.is_valid,
            is_custom_tool: self.is_custom_tool,
            input_token_size: self.input_token_size,
            output_token_size: self.output_token_size,
            custom_tool_call_latency: self.custom_tool_call_latency,
            model: self.model.deep_view(),
        }
    }
}

impl ToolUseView {
    /// A tool use of which only the conversation, its own id and the
    /// model are known: not accepted, not a custom tool, all else open.
    pub open spec fn fresh(
        conversation_id: Seq<char>,
        tool_use_id: Seq<char>,
        model: Option<Seq<char>>,
    ) -> ToolUseView {
        ToolUseView {
            conversation_id,
            utterance_id: None,
            user_input_id: None,
            tool_use_id: Some(tool_use_id),
            tool_name: None,
            is_accepted: false,
            is_success: None,
            is_valid: None,
            is_custom_tool: false,
            input_token_size: None,
            output_token_size: None,
            custom_tool_call_latency: None,
            model,
        }
    }
}

impl ToolUseEventBuilder {
    /// Starts the record of a tool use.
    pub fn new(conv_id: String, tool_use_id: String, model: Option<String>) -> (builder: Self)
        ensures
            builder@ == ToolUseView::fresh(conv_id@, tool_use_id@, model.deep_view()),
    {
        Self {
            conversation_id: conv_id,
            utterance_id: None,
            user_input_id: None,
            tool_use_id: Some(tool_use_id),
            tool_name: None,
            is_accepted: false,
            is_success: None,
            is_valid: None,
            is_custom_tool: false,
            input_token_size: None,
            output_token_size: None,
            custom_tool_call_latency: None,
            model,
        }
    }

    /// Sets or clears the utterance id; nothing else changes.
    pub fn utterance_id(self, id: Option<String>) -> (builder: Self)
        ensures
            builder@ == (ToolUseView { utterance_id: id.deep_view(), ..self@ }),
    {
        let mut builder = self;
        builder.utterance_id = id;
        builder
    }

    /// Replaces the tool-use id; nothing else changes.
    pub fn set_tool_use_id(self, id: String) -> (builder: Self)
        ensures
            builder@ == (ToolUseView { tool_use_id: Some(id@), ..self@ }),
    {
        let mut builder = self;
        builder.tool_use_id = Some(id);
        builder
    }

    /// Sets the tool's name; nothing else changes.
    pub fn set_tool_name(self, name: String) -> (builder: Self)
        ensures
            builder@ == (ToolUseView { tool_name: Some(name@), ..self@ }),
    {
        let mut builder = self;
        builder.tool_name = Some(name);
        builder
    }
}

} // verus!
