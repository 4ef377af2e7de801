//! The tools whose completions are generated, as the configuration file
//! lists them.

use vstd::prelude::*;

verus! {

/// One configured tool: the name its completion file is written under and
/// the shell command line that prints its completion script (the `exec` key
/// of the configuration file).
#[derive(Clone, Debug, PartialEq, Eq)]
pub struct ToolConfig {
    pub name: String,
    pub command: String,
}

/// A [`ToolConfig`] as plain text values.
pub struct ToolView {
    pub name: Seq<char>,
    pub command: Seq<char>,
}

impl View for ToolConfig {
    type V = ToolView;

    open spec fn view(&self) -> ToolView {
        ToolView { name: self.name@, command: self.command@ }
    }
}

/// The configuration: the tools in the order the file lists them.
#[derive(Clone, Debug, PartialEq, Eq)]
pub struct Config {
    pub tool: Vec<ToolConfig>,
}

/// The views of a sequence of tools, in the same order.
pub open spec fn tool_views(tools: Seq<ToolConfig>) -> Seq<ToolView> {
    Seq::new(tools.len(), |i: int| tools[i]@)
}

impl View for Config {
    type V = Seq<ToolView>;

    open spec fn view(&self) -> Seq<ToolView> {
        tool_views(self.tool@)
    }
}

/// No two tools share a name, so no two share a completion file.
pub open spec fn names_unique(tools: Seq<ToolView>) -> bool {
    forall|i: int, j: int|
        0 <= i < tools.len() && 0 <= j < tools.len() && i != j ==> tools[i].name != tools[j].name
}

} // verus!
