//! The tool-call result as the broker carries it.
//!
//! The broker routes results verbatim: it never inspects their meaning, only
//! moves them from the submitting plugin to the awaiting dispatcher.  Text
//! content is held directly; any other content item is carried as the JSON
//! text it arrived in.

use vstd::prelude::*;

verus! {

/// One item of a result's content list.
#[derive(Clone, Debug, PartialEq, Eq)]
pub enum ContentItem {
    /// A plain text block.
    Text { text: String },
    /// Any other content kind, carried through as its JSON serialization.
    Other { json: String },
}

/// A complete tool-call result: a content list and an error marker, matching
/// the MCP result schema.
#[derive(Clone, Debug, PartialEq, Eq)]
pub struct ToolResult {
    pub content: Vec<ContentItem>,
    pub is_error: Option<bool>,
}

impl ToolResult {
    /// A result that reports a tool-level error with a single text message.
    pub fn error_text(message: String) -> (r: ToolResult)
        ensures
            r.is_error == Some(true),
            r.content@.len() == 1,
            r.content@[0] == (ContentItem::Text { text: message }),
    {
        let mut content: Vec<ContentItem> = Vec::new();
        content.push(ContentItem::Text { text: message });
        ToolResult { content, is_error: Some(true) }
    }
}

} // verus!
