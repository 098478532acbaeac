use vstd::prelude::*;

verus! {

/// Why a plan could not be turned into a runnable workflow, or an
/// expression could not be compiled.  Construction-time failures carry the
/// identifier or text they complain about, so a caller can report which
/// part of the plan is at fault.
#[derive(Debug)]
pub enum PlanError {
    /// The plan document itself could not be parsed.
    PlanParseError(String),
    /// A tool carries a kind discriminant this engine does not know.
    UnknownToolKind(String),
    /// Two tools share one identifier.
    DuplicateToolId(String),
    /// A link names a tool id that no tool declares.
    UnknownEndpoint(String),
    /// Two links feed the same input slot of the same tool.
    DuplicateSlot(String),
    /// A link feeds an input slot its target does not have.
    InvalidLink(String),
    /// An ill-formed expression: an empty operand list to a reducing
    /// operator, or join key-column lists of unequal length.
    InvalidExpression,
}

impl PlanError {
    /// What `describe` returns for each error kind.
    pub open spec fn spec_describe(self) -> Seq<char> {
        match self {
            PlanError::PlanParseError(_) => "malformed plan document"@,
            PlanError::UnknownToolKind(_) => "unknown tool kind"@,
            PlanError::DuplicateToolId(_) => "duplicate tool id"@,
            PlanError::UnknownEndpoint(_) => "link endpoint names no declared tool"@,
            PlanError::DuplicateSlot(_) => "two links feed one input slot"@,
            PlanError::InvalidLink(_) => "link target has no such input slot"@,
            PlanError::InvalidExpression => "invalid expression"@,
        }
    }

    /// The identifier or text the error complains about, where there is one.
    pub open spec fn spec_subject(self) -> Option<Seq<char>> {
        match self {
            PlanError::PlanParseError(s) => Some(s@),
            PlanError::UnknownToolKind(s) => Some(s@),
            PlanError::DuplicateToolId(s) => Some(s@),
            PlanError::UnknownEndpoint(s) => Some(s@),
            PlanError::DuplicateSlot(s) => Some(s@),
            PlanError::InvalidLink(s) => Some(s@),
            PlanError::InvalidExpression => None,
        }
    }

    /// A short, fixed description of the error kind.
    pub fn describe(&self) -> (r: &'static str)
        ensures
            r@ == self.spec_describe(),
    {
        match self {
            PlanError::PlanParseError(_) => "malformed plan document",
            PlanError::UnknownToolKind(_) => "unknown tool kind",
            PlanError::DuplicateToolId(_) => "duplicate tool id",
            PlanError::UnknownEndpoint(_) => "link endpoint names no declared tool",
            PlanError::DuplicateSlot(_) => "two links feed one input slot",
            PlanError::InvalidLink(_) => "link target has no such input slot",
            PlanError::InvalidExpression => "invalid expression",
        }
    }

    /// The identifier or text the error complains about, where there is one.
    pub fn subject(&self) -> (r: Option<&String>)
        ensures
            match r {
                Some(s) => self.spec_subject() == Some(s@),
                None => self.spec_subject() is None,
            },
    {
        match self {
            PlanError::PlanParseError(s) => Some(s),
            PlanError::UnknownToolKind(s) => Some(s),
            PlanError::DuplicateToolId(s) => Some(s),
            PlanError::UnknownEndpoint(s) => Some(s),
            PlanError::DuplicateSlot(s) => Some(s),
            PlanError::InvalidLink(s) => Some(s),
            PlanError::InvalidExpression => None,
        }
    }
}

} // verus!
