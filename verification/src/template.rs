//! SDK template command intent.

use vstd::prelude::*;

verus! {

/// Template discovery commands.
#[derive(Debug, Clone, Copy, PartialEq, Eq, Structural)]
pub enum TemplateCommand {
    /// List available project/content templates.
    List,
    /// Inspect template metadata and intended use.
    Info,
}

} // verus!
