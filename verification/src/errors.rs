//! The error taxonomy of the generator. Every error is fatal: no phase
//! attempts local recovery, the whole run aborts with a message naming the
//! failing phase and the offending entity.

use vstd::prelude::*;

verus! {

/// A fatal failure of one pipeline phase.
#[derive(Debug)]
pub enum GenError {
    /// An unsupported or malformed declaration was met while building the IR.
    Parse(String),
    /// A named type reference has no matching declaration.
    Resolution(String),
    /// The external binder tool was missing or exited non-zero.
    ToolInvocation(i32),
    /// An exported name tracked by the native generator is absent from the
    /// merged binder output.
    SanityCheck(String),
}

impl GenError {
    /// The user-visible description: the failing phase and the offending
    /// entity.
    pub fn message(&self) -> (r: String)
        ensures
            r@ == self.spec_message(),
    {
        match self {
            GenError::Parse(what) => String::from_str("parse error: unsupported declaration ")
                .concat(what.as_str()),
            GenError::Resolution(name) => String::from_str(
                "resolution error: unknown type ",
            ).concat(name.as_str()),
            GenError::ToolInvocation(_code) => String::from_str(
                "tool invocation error: external binder failed",
            ),
            GenError::SanityCheck(name) => String::from_str(
                "sanity check error: exported symbol missing from merged output: ",
            ).concat(name.as_str()),
        }
    }

    /// What `message` returns, per variant.
    pub open spec fn spec_message(&self) -> Seq<char> {
        match self {
            GenError::Parse(what) => "parse error: unsupported declaration "@ + what@,
            GenError::Resolution(name) => "resolution error: unknown type "@ + name@,
            GenError::ToolInvocation(_code) => "tool invocation error: external binder failed"@,
            GenError::SanityCheck(name) => "sanity check error: exported symbol missing from merged output: "@
                + name@,
        }
    }
}

} // verus!
