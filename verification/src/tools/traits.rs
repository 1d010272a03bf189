//! What a tool hands back.

use crate::text::opt_view;
use vstd::prelude::*;

verus! {

/// The outcome of one call of a tool. A failure on the remote side is a
/// result with `success` false and the reason in `error`; it is no error of
/// the call.
#[derive(Debug, Clone)]
pub struct ToolResult {
    pub success: bool,
    pub output: String,
    pub error: Option<String>,
}

/// What a `ToolResult` holds, as mathematical values.
pub ghost struct ToolResultView {
    pub success: bool,
    pub output: Seq<char>,
    pub error: Option<Seq<char>>,
}

impl View for ToolResult {
    type V = ToolResultView;

    open spec fn view(&self) -> ToolResultView {
        ToolResultView { success: self.success, output: self.output@, error: opt_view(self.error) }
    }
}

impl ToolResult {
    /// A result that carries the output of a call that went well.
    pub fn ok(output: String) -> (r: ToolResult)
        ensures
            r@ == (ToolResultView { success: true, output: output@, error: None }),
    {
        ToolResult { success: true, output, error: None }
    }

    /// A result that carries the reason of a call that went wrong.
    pub fn failed(reason: String) -> (r: ToolResult)
        ensures
            r@ == (ToolResultView { success: false, output: Seq::empty(), error: Some(reason@) }),
    {
        ToolResult { success: false, output: String::new(), error: Some(reason) }
    }
}

} // verus!
