use vstd::prelude::*;

verus! {

/// How a feedback entry should weigh on an iteration's score.
#[derive(PartialEq, Eq, Structural, Debug, Clone, Copy)]
pub enum FeedbackKind {
    Error,
    Warning,
    Success,
    Info,
}

impl FeedbackKind {
    /// The name under which the kind is reported (`"error"`, `"warning"`, ...).
    pub fn as_str(&self) -> (s: &'static str)
        ensures
            s@ == self.spec_name(),
    {
        match self {
            FeedbackKind::Error => "error",
            FeedbackKind::Warning => "warning",
            FeedbackKind::Success => "success",
            FeedbackKind::Info => "info",
        }
    }

    pub open spec fn spec_name(&self) -> Seq<char> {
        match self {
            FeedbackKind::Error => "error"@,
            FeedbackKind::Warning => "warning"@,
            FeedbackKind::Success => "success"@,
            FeedbackKind::Info => "info"@,
        }
    }
}

/// A measured value attached to feedback, on a scale of 0 to 100.
#[derive(PartialEq, Eq, Structural, Debug, Clone, Copy)]
pub enum Metric {
    /// A whole percentage.
    Percent(u32),
    /// `passed / (passed + failed) * 100`, kept as the two counts.
    PassRatio { passed: u32, failed: u32 },
}

/// One piece of feedback from a collector.
#[derive(Debug)]
pub struct FeedbackEntry {
    pub source: String,
    pub kind: FeedbackKind,
    pub message: String,
    pub details: Option<String>,
    pub metric: Option<Metric>,
    pub threshold: Option<u32>,
}

impl Clone for FeedbackEntry {
    fn clone(&self) -> (r: Self)
        ensures
            r == *self,
    {
        FeedbackEntry {
            source: self.source.clone(),
            kind: self.kind,
            message: self.message.clone(),
            details: self.details.clone(),
            metric: self.metric,
            threshold: self.threshold,
        }
    }
}

/// An action taken by an agent during an iteration.
#[derive(Debug)]
pub struct ActionLog {
    pub id: String,
    pub agent: String,
    pub type_: String,
    pub description: String,
    pub target: String,
    pub status: String,
    pub result: Option<String>,
    pub error: Option<String>,
    pub timestamp: String,
}

impl Clone for ActionLog {
    fn clone(&self) -> (r: Self)
        ensures
            r == *self,
    {
        ActionLog {
            id: self.id.clone(),
            agent: self.agent.clone(),
            type_: self.type_.clone(),
            description: self.description.clone(),
            target: self.target.clone(),
            status: self.status.clone(),
            result: self.result.clone(),
            error: self.error.clone(),
            timestamp: self.timestamp.clone(),
        }
    }
}

/// A finding of the security auditor.
#[derive(Debug)]
pub struct SecurityAuditEntry {
    pub type_: String,
    pub severity: String,
    pub file: String,
    pub line: Option<usize>,
    pub description: String,
    pub recommendation: String,
}

} // verus!
