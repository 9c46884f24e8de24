use vstd::prelude::*;
use crate::error::{ToolError, ToolErrorKind, ToolErrorView};
use crate::message::{ToolCallFunction, ToolCallFunctionView};
use crate::request::{ToolInfo, ToolInfoView, tools_view};

verus! {

/// What a tool call came back with, as a mathematical value: the result text,
/// or the reason why there is none.
pub open spec fn outcome_view(result: Result<String, ToolError>) -> Result<
    Seq<char>,
    ToolErrorView,
> {
    match result {
        Ok(text) => Ok(text@),
        Err(error) => Err(error@),
    }
}

/// A set of tools that the backend may ask for. Which tools are on offer is a
/// property of the type; what a call may come back with, and what it does to
/// the group, is for the group to say.
pub trait ToolGroup {
    /// The tools on offer, in the order in which they are described to the
    /// backend.
    spec fn offered() -> Seq<ToolInfoView>;

    /// Whether a call of `function` on this group may come back with
    /// `outcome` and leave the group as `after`.
    spec fn comes_back(
        &self,
        function: ToolCallFunctionView,
        outcome: Result<Seq<char>, ToolErrorView>,
        after: &Self,
    ) -> bool;

    /// The descriptions of the tools on offer.
    fn tool_info() -> (tools: Vec<ToolInfo>)
        ensures
            tools_view(tools@) == Self::offered(),
    ;

    /// Runs the tool that `function` names on its argument payload and gives
    /// the tool's result text, or the reason why there is none.
    fn call(&mut self, function: &ToolCallFunction) -> (result: Result<String, ToolError>)
        ensures
            old(self).comes_back(function@, outcome_view(result), final(self)),
    ;
}

/// The empty tool group: nothing is on offer, and every call fails for want
/// of a tool of that name.
impl ToolGroup for () {
    open spec fn offered() -> Seq<ToolInfoView> {
        Seq::empty()
    }

    open spec fn comes_back(
        &self,
        function: ToolCallFunctionView,
        outcome: Result<Seq<char>, ToolErrorView>,
        after: &Self,
    ) -> bool {
        outcome == Err::<Seq<char>, ToolErrorView>(
            ToolErrorView { kind: ToolErrorKind::UnknownToolName, message: function.name },
        )
    }

    fn tool_info() -> (tools: Vec<ToolInfo>) {
        let tools: Vec<ToolInfo> = Vec::new();
        assert(tools_view(tools@) =~= Seq::empty());
        tools
    }

    fn call(&mut self, function: &ToolCallFunction) -> (result: Result<String, ToolError>) {
        Err(ToolError { kind: ToolErrorKind::UnknownToolName, message: function.name.clone() })
    }
}

} // verus!
