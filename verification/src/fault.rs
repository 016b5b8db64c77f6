use vstd::prelude::*;

verus! {

/// The seven stages of a run, in the order in which they execute.
#[derive(Debug, Clone, Copy, PartialEq, Eq, Structural)]
pub enum Stage {
    Load,
    Parse,
    ReferenceConversion,
    HeaderSynthesis,
    TraitExtraction,
    DocumentAssembly,
    Commit,
}

impl Stage {
    /// Position of the stage in the chain, counted from one.
    pub open spec fn ordinal(self) -> nat {
        match self {
            Stage::Load => 1,
            Stage::Parse => 2,
            Stage::ReferenceConversion => 3,
            Stage::HeaderSynthesis => 4,
            Stage::TraitExtraction => 5,
            Stage::DocumentAssembly => 6,
            Stage::Commit => 7,
        }
    }

    /// Position of the stage in the chain, counted from one.
    pub fn number(&self) -> (n: u8)
        ensures
            n == self.ordinal(),
    {
        match self {
            Stage::Load => 1,
            Stage::Parse => 2,
            Stage::ReferenceConversion => 3,
            Stage::HeaderSynthesis => 4,
            Stage::TraitExtraction => 5,
            Stage::DocumentAssembly => 6,
            Stage::Commit => 7,
        }
    }
}

/// What went wrong.
#[derive(Debug, Clone, Copy, PartialEq, Eq, Structural)]
pub enum FaultKind {
    /// A read or a write of a file failed.
    Io,
    /// The source description is not well formed.
    Parse,
    /// The source model could not be converted.
    Conversion,
    /// The header bridge failed.
    HeaderGeneration,
    /// The header bytes are not text.
    Encoding,
    /// The formatter could not be run or reported failure.
    Formatter,
}

impl FaultKind {
    /// Short name of the kind.
    pub open spec fn label(self) -> Seq<char> {
        match self {
            FaultKind::Io => "i/o fault"@,
            FaultKind::Parse => "parse fault"@,
            FaultKind::Conversion => "conversion fault"@,
            FaultKind::HeaderGeneration => "header generation fault"@,
            FaultKind::Encoding => "encoding fault"@,
            FaultKind::Formatter => "formatter fault"@,
        }
    }

    /// Short name of the kind.
    pub fn name(&self) -> (text: &'static str)
        ensures
            text@ == self.label(),
    {
        match self {
            FaultKind::Io => "i/o fault",
            FaultKind::Parse => "parse fault",
            FaultKind::Conversion => "conversion fault",
            FaultKind::HeaderGeneration => "header generation fault",
            FaultKind::Encoding => "encoding fault",
            FaultKind::Formatter => "formatter fault",
        }
    }
}

/// A terminal failure of a run: its kind, the stage that was executing, and
/// the cause as the failing part reported it.
#[derive(Debug, Clone, PartialEq, Eq)]
pub struct Fault {
    pub kind: FaultKind,
    pub stage: Stage,
    pub cause: String,
}

/// Mathematical value of [`Fault`].
pub struct FaultView {
    pub kind: FaultKind,
    pub stage: Stage,
    pub cause: Seq<char>,
}

impl View for Fault {
    type V = FaultView;

    open spec fn view(&self) -> FaultView {
        FaultView { kind: self.kind, stage: self.stage, cause: self.cause@ }
    }
}

impl FaultView {
    /// The kind's name, a colon and a space, then the cause.
    pub open spec fn message(self) -> Seq<char> {
        self.kind.label() + ": "@ + self.cause
    }
}

impl Fault {
    /// The kind's name, a colon and a space, then the cause.
    pub fn message(&self) -> (text: String)
        ensures
            text@ == self@.message(),
    {
        let mut text = String::from_str(self.kind.name());
        text.append(": ");
        text.append(self.cause.as_str());
        text
    }
}

} // verus!
