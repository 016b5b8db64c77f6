use vstd::prelude::*;
use vstd::utf8::{decode_utf8, valid_utf8};
use crate::blocks::{ShmBlocks, ShmBlocksView};
use crate::config::{Args, ArgsView};
use crate::decode::{decode_header, encoding_fault};
use crate::descriptor::{TraitDescriptor, TraitView, trait_views};
use crate::document::{compose, document_text, embed_header, embedded_header};
use crate::fault::{Fault, FaultKind, FaultView, Stage};
use crate::mapping::{NameMapping, symbols_of, text_views};

verus! {

/// What the caller reports back after it has carried an action out.
#[derive(Debug, Clone, PartialEq, Eq)]
pub enum Event {
    /// The source file was read; its text.
    SourceRead(String),
    /// The text was parsed into a source model, which the caller keeps.
    Parsed,
    /// The structs were converted: the name mapping and the reference document.
    ReferenceConverted(NameMapping, String),
    /// The destination file was written.
    Written,
    /// The header bridge ran; the bytes of the header.
    HeaderSynthesized(Vec<u8>),
    /// The traits of the model, in the order in which they were found.
    TraitsExtracted(Vec<TraitDescriptor>),
    /// The struct definitions.
    StructsEmitted(String),
    /// The formatter ran to its end; its exit code.
    Formatted(i32),
    /// The action failed; the cause as the failing part reported it.
    Failed(String),
}

/// Mathematical value of [`Event`].
pub enum EventView {
    SourceRead(Seq<char>),
    Parsed,
    ReferenceConverted(Seq<(Seq<char>, Seq<char>)>, Seq<char>),
    Written,
    HeaderSynthesized(Seq<u8>),
    TraitsExtracted(Seq<TraitView>),
    StructsEmitted(Seq<char>),
    Formatted(i32),
    Failed(Seq<char>),
}

impl View for Event {
    type V = EventView;

    open spec fn view(&self) -> EventView {
        match self {
            Event::SourceRead(text) => EventView::SourceRead(text@),
            Event::Parsed => EventView::Parsed,
            Event::ReferenceConverted(mapping, document) => EventView::ReferenceConverted(
                mapping@,
                document@,
            ),
            Event::Written => EventView::Written,
            Event::HeaderSynthesized(bytes) => EventView::HeaderSynthesized(bytes@),
            Event::TraitsExtracted(traits) => EventView::TraitsExtracted(trait_views(traits@)),
            Event::StructsEmitted(text) => EventView::StructsEmitted(text@),
            Event::Formatted(code) => EventView::Formatted(*code),
            Event::Failed(cause) => EventView::Failed(cause@),
        }
    }
}

/// What the caller is asked to do next.
#[derive(Debug, Clone, PartialEq, Eq)]
pub enum Action {
    /// Read the file at this path as text.
    ReadSource(String),
    /// Parse this text into a source model.
    ParseSource(String),
    /// Convert the structs of the model into their reference form.
    ConvertToReference,
    /// Write this content to the file at this path, replacing what it held.
    WriteDestination { path: String, content: String },
    /// Run the header bridge on the file at this path, for these symbols only,
    /// under this banner.
    SynthesizeHeader { path: String, symbols: Vec<String>, banner: String },
    /// Describe the traits of the model.
    ExtractTraits,
    /// Emit the struct definitions, for the older toolchain or not.
    EmitStructs(bool),
    /// Run the formatter on the file at this path and wait for it.
    Format(String),
    /// Nothing is left to do: the run is committed or has faulted.
    Stop,
}

/// Mathematical value of [`Action`].
pub enum ActionView {
    ReadSource(Seq<char>),
    ParseSource(Seq<char>),
    ConvertToReference,
    WriteDestination { path: Seq<char>, content: Seq<char> },
    SynthesizeHeader { path: Seq<char>, symbols: Seq<Seq<char>>, banner: Seq<char> },
    ExtractTraits,
    EmitStructs(bool),
    Format(Seq<char>),
    Stop,
}

impl View for Action {
    type V = ActionView;

    open spec fn view(&self) -> ActionView {
        match self {
            Action::ReadSource(path) => ActionView::ReadSource(path@),
            Action::ParseSource(text) => ActionView::ParseSource(text@),
            Action::ConvertToReference => ActionView::ConvertToReference,
            Action::WriteDestination { path, content } => ActionView::WriteDestination {
                path: path@,
                content: content@,
            },
            Action::SynthesizeHeader { path, symbols, banner } => ActionView::SynthesizeHeader {
                path: path@,
                symbols: text_views(symbols@),
                banner: banner@,
            },
            Action::ExtractTraits => ActionView::ExtractTraits,
            Action::EmitStructs(legacy) => ActionView::EmitStructs(*legacy),
            Action::Format(path) => ActionView::Format(path@),
            Action::Stop => ActionView::Stop,
        }
    }
}

/// Where a run stands. Every state but the last two waits for the outcome
/// of one action.
#[derive(Debug, Clone, PartialEq, Eq)]
pub enum Progress {
    /// The source file is being read.
    Loading,
    /// The text is being parsed.
    Parsing,
    /// The structs are being converted into their reference form.
    Converting,
    /// The reference document is being written; the mapping waits for the header bridge.
    WritingReference(NameMapping),
    /// The header bridge is running.
    Synthesizing,
    /// The traits are being described; the decoded header waits for their callbacks.
    Extracting(String),
    /// The struct definitions are being emitted; the header to embed and the traits wait.
    Emitting(String, Vec<TraitDescriptor>),
    /// The document is being written.
    Committing,
    /// The formatter is running.
    Formatting,
    /// The document is in place.
    Committed,
    /// The run has failed.
    Faulted(Fault),
}

/// Mathematical value of [`Progress`].
pub enum ProgressView {
    Loading,
    Parsing,
    Converting,
    WritingReference(Seq<(Seq<char>, Seq<char>)>),
    Synthesizing,
    Extracting(Seq<char>),
    Emitting(Seq<char>, Seq<TraitView>),
    Committing,
    Formatting,
    Committed,
    Faulted(FaultView),
}

impl View for Progress {
    type V = ProgressView;

    open spec fn view(&self) -> ProgressView {
        match self {
            Progress::Loading => ProgressView::Loading,
            Progress::Parsing => ProgressView::Parsing,
            Progress::Converting => ProgressView::Converting,
            Progress::WritingReference(mapping) => ProgressView::WritingReference(mapping@),
            Progress::Synthesizing => ProgressView::Synthesizing,
            Progress::Extracting(header) => ProgressView::Extracting(header@),
            Progress::Emitting(header, traits) => ProgressView::Emitting(
                header@,
                trait_views(traits@),
            ),
            Progress::Committing => ProgressView::Committing,
            Progress::Formatting => ProgressView::Formatting,
            Progress::Committed => ProgressView::Committed,
            Progress::Faulted(fault) => ProgressView::Faulted(fault@),
        }
    }
}

impl ProgressView {
    /// The run is over: committed or faulted.
    pub open spec fn is_terminal(self) -> bool {
        self is Committed || self is Faulted
    }

    /// The stage that the run is in; for a faulted run, the stage that failed.
    pub open spec fn stage(self) -> Stage {
        match self {
            ProgressView::Loading => Stage::Load,
            ProgressView::Parsing => Stage::Parse,
            ProgressView::Converting => Stage::ReferenceConversion,
            ProgressView::WritingReference(_) => Stage::ReferenceConversion,
            ProgressView::Synthesizing => Stage::HeaderSynthesis,
            ProgressView::Extracting(_) => Stage::TraitExtraction,
            ProgressView::Emitting(_, _) => Stage::DocumentAssembly,
            ProgressView::Committing => Stage::Commit,
            ProgressView::Formatting => Stage::Commit,
            ProgressView::Committed => Stage::Commit,
            ProgressView::Faulted(fault) => fault.stage,
        }
    }

    /// The kind of fault that a failure of the pending action is; nothing
    /// for a run that is over, which waits for no action.
    pub open spec fn failure_kind(self) -> Option<FaultKind> {
        match self {
            ProgressView::Loading => Some(FaultKind::Io),
            ProgressView::Parsing => Some(FaultKind::Parse),
            ProgressView::Converting => Some(FaultKind::Conversion),
            ProgressView::WritingReference(_) => Some(FaultKind::Io),
            ProgressView::Synthesizing => Some(FaultKind::HeaderGeneration),
            ProgressView::Extracting(_) => Some(FaultKind::Conversion),
            ProgressView::Emitting(_, _) => Some(FaultKind::Conversion),
            ProgressView::Committing => Some(FaultKind::Io),
            ProgressView::Formatting => Some(FaultKind::Formatter),
            ProgressView::Committed => None,
            ProgressView::Faulted(_) => None,
        }
    }

    /// How far along the chain the state is. Each step of a run that goes on
    /// moves one position forward.
    pub open spec fn position(self) -> nat {
        match self {
            ProgressView::Loading => 0,
            ProgressView::Parsing => 1,
            ProgressView::Converting => 2,
            ProgressView::WritingReference(_) => 3,
            ProgressView::Synthesizing => 4,
            ProgressView::Extracting(_) => 5,
            ProgressView::Emitting(_, _) => 6,
            ProgressView::Committing => 7,
            ProgressView::Formatting => 8,
            ProgressView::Committed => 9,
            ProgressView::Faulted(_) => 9,
        }
    }
}

/// The comment that heads the synthesized header.
pub open spec fn banner() -> Seq<char> {
    "// Generated by rust2go. Please DO NOT edit this C part manually."@
}

/// The cause recorded when the formatter ends with a code other than zero.
pub open spec fn formatter_failed() -> Seq<char> {
    "the formatter reported failure"@
}

/// The cause recorded when an event is not the outcome of the pending action.
pub open spec fn out_of_turn() -> Seq<char> {
    "the event does not answer the pending action"@
}

/// The state of a run that has failed, with the one action that is left.
pub open spec fn faulted(kind: FaultKind, stage: Stage, cause: Seq<char>) -> (
    ProgressView,
    ActionView,
) {
    (ProgressView::Faulted(FaultView { kind, stage, cause }), ActionView::Stop)
}

/// Where a run starts: the source file is to be read.
pub open spec fn start(args: ArgsView) -> (ProgressView, ActionView) {
    (ProgressView::Loading, ActionView::ReadSource(args.src))
}

/// What follows when the event is the successful outcome of the action that
/// the state waits for; nothing when it is not.
pub open spec fn answer(
    args: ArgsView,
    blocks: ShmBlocksView,
    state: ProgressView,
    event: EventView,
) -> Option<(ProgressView, ActionView)> {
    match (state, event) {
        (ProgressView::Loading, EventView::SourceRead(text)) => Some(
            (ProgressView::Parsing, ActionView::ParseSource(text)),
        ),
        (ProgressView::Parsing, EventView::Parsed) => Some(
            (ProgressView::Converting, ActionView::ConvertToReference),
        ),
        (ProgressView::Converting, EventView::ReferenceConverted(mapping, document)) => Some(
            (
                ProgressView::WritingReference(mapping),
                ActionView::WriteDestination { path: args.dst, content: document },
            ),
        ),
        (ProgressView::WritingReference(mapping), EventView::Written) => Some(
            (
                ProgressView::Synthesizing,
                ActionView::SynthesizeHeader {
                    path: args.dst,
                    symbols: symbols_of(mapping),
                    banner: banner(),
                },
            ),
        ),
        (ProgressView::Synthesizing, EventView::HeaderSynthesized(bytes)) => Some(
            if valid_utf8(bytes) {
                (ProgressView::Extracting(decode_utf8(bytes)), ActionView::ExtractTraits)
            } else {
                (ProgressView::Faulted(encoding_fault()), ActionView::Stop)
            },
        ),
        (ProgressView::Extracting(header), EventView::TraitsExtracted(traits)) => Some(
            (
                ProgressView::Emitting(
                    embedded_header(header, traits, blocks.declarations),
                    traits,
                ),
                ActionView::EmitStructs(args.go118),
            ),
        ),
        (ProgressView::Emitting(header, traits), EventView::StructsEmitted(structs)) => Some(
            (
                ProgressView::Committing,
                ActionView::WriteDestination {
                    path: args.dst,
                    content: document_text(
                        header,
                        traits,
                        structs,
                        blocks.ring_init,
                        args.without_main,
                        args.go118,
                    ),
                },
            ),
        ),
        (ProgressView::Committing, EventView::Written) => Some(
            if args.no_fmt {
                (ProgressView::Committed, ActionView::Stop)
            } else {
                (ProgressView::Formatting, ActionView::Format(args.dst))
            },
        ),
        (ProgressView::Formatting, EventView::Formatted(code)) => Some(
            if code == 0 {
                (ProgressView::Committed, ActionView::Stop)
            } else {
                faulted(FaultKind::Formatter, Stage::Commit, formatter_failed())
            },
        ),
        _ => None,
    }
}

/// One step of a run. A run that is over stays as it is. A reported failure
/// ends the run at once, with the fault of the stage that was executing. An
/// event that is not the outcome of the pending action counts as a failure of
/// that action. Otherwise the run moves on as [`answer`] says.
pub open spec fn step(
    args: ArgsView,
    blocks: ShmBlocksView,
    state: ProgressView,
    event: EventView,
) -> (ProgressView, ActionView) {
    match state.failure_kind() {
        None => (state, ActionView::Stop),
        Some(kind) => if let EventView::Failed(cause) = event {
            faulted(kind, state.stage(), cause)
        } else {
            match answer(args, blocks, state, event) {
                Some(next) => next,
                None => faulted(kind, state.stage(), out_of_turn()),
            }
        },
    }
}

impl Progress {
    /// Whether the run is over.
    pub fn is_terminal(&self) -> (over: bool)
        ensures
            over == self@.is_terminal(),
    {
        match self {
            Progress::Committed => true,
            Progress::Faulted(_) => true,
            _ => false,
        }
    }

    /// The stage that the run is in; for a faulted run, the stage that failed.
    pub fn stage(&self) -> (stage: Stage)
        ensures
            stage == self@.stage(),
    {
        match self {
            Progress::Loading => Stage::Load,
            Progress::Parsing => Stage::Parse,
            Progress::Converting => Stage::ReferenceConversion,
            Progress::WritingReference(_) => Stage::ReferenceConversion,
            Progress::Synthesizing => Stage::HeaderSynthesis,
            Progress::Extracting(_) => Stage::TraitExtraction,
            Progress::Emitting(_, _) => Stage::DocumentAssembly,
            Progress::Committing => Stage::Commit,
            Progress::Formatting => Stage::Commit,
            Progress::Committed => Stage::Commit,
            Progress::Faulted(fault) => fault.stage,
        }
    }

    /// The kind of fault that a failure of the pending action is; nothing
    /// for a run that is over.
    pub fn failure_kind(&self) -> (kind: Option<FaultKind>)
        ensures
            kind == self@.failure_kind(),
    {
        match self {
            Progress::Loading => Some(FaultKind::Io),
            Progress::Parsing => Some(FaultKind::Parse),
            Progress::Converting => Some(FaultKind::Conversion),
            Progress::WritingReference(_) => Some(FaultKind::Io),
            Progress::Synthesizing => Some(FaultKind::HeaderGeneration),
            Progress::Extracting(_) => Some(FaultKind::Conversion),
            Progress::Emitting(_, _) => Some(FaultKind::Conversion),
            Progress::Committing => Some(FaultKind::Io),
            Progress::Formatting => Some(FaultKind::Formatter),
            Progress::Committed => None,
            Progress::Faulted(_) => None,
        }
    }
}

/// A run that has failed, with the one action that is left.
fn fail(kind: FaultKind, stage: Stage, cause: String) -> (next: (Progress, Action))
    ensures
        (next.0@, next.1@) == faulted(kind, stage, cause@),
{
    (Progress::Faulted(Fault { kind, stage, cause }), Action::Stop)
}

/// Starts a run: the source file is to be read.
pub fn begin(args: &Args) -> (first: (Progress, Action))
    ensures
        (first.0@, first.1@) == start(args@),
{
    (Progress::Loading, Action::ReadSource(args.src.clone()))
}

/// Takes a run one step on: from where it stands and what the caller
/// reports, to where it stands next and what the caller is to do.
pub fn advance(args: &Args, blocks: &ShmBlocks, state: Progress, event: Event) -> (next: (
    Progress,
    Action,
))
    ensures
        (next.0@, next.1@) == step(args@, blocks@, state@, event@),
{
    let stage = state.stage();
    let kind = match state.failure_kind() {
        Some(kind) => kind,
        None => {
            return (state, Action::Stop);
        },
    };
    if let Event::Failed(cause) = event {
        return fail(kind, stage, cause);
    }
    match (state, event) {
        (Progress::Loading, Event::SourceRead(text)) => (
            Progress::Parsing,
            Action::ParseSource(text),
        ),
        (Progress::Parsing, Event::Parsed) => (Progress::Converting, Action::ConvertToReference),
        (Progress::Converting, Event::ReferenceConverted(mapping, document)) => (
            Progress::WritingReference(mapping),
            Action::WriteDestination { path: args.dst.clone(), content: document },
        ),
        (Progress::WritingReference(mapping), Event::Written) => {
            let symbols = mapping.symbols();
            (
                Progress::Synthesizing,
                Action::SynthesizeHeader {
                    path: args.dst.clone(),
                    symbols,
                    banner: String::from_str(
                        "// Generated by rust2go. Please DO NOT edit this C part manually.",
                    ),
                },
            )
        },
        (Progress::Synthesizing, Event::HeaderSynthesized(bytes)) => {
            match decode_header(bytes) {
                Ok(header) => (Progress::Extracting(header), Action::ExtractTraits),
                Err(fault) => (Progress::Faulted(fault), Action::Stop),
            }
        },
        (Progress::Extracting(header), Event::TraitsExtracted(traits)) => {
            let embedded = embed_header(header, &traits, blocks.declarations.as_str());
            (Progress::Emitting(embedded, traits), Action::EmitStructs(args.go118))
        },
        (Progress::Emitting(header, traits), Event::StructsEmitted(structs)) => {
            let content = compose(
                header,
                &traits,
                structs,
                blocks.ring_init.as_str(),
                args.without_main,
                args.go118,
            );
            (Progress::Committing, Action::WriteDestination { path: args.dst.clone(), content })
        },
        (Progress::Committing, Event::Written) => {
            if args.no_fmt {
                (Progress::Committed, Action::Stop)
            } else {
                (Progress::Formatting, Action::Format(args.dst.clone()))
            }
        },
        (Progress::Formatting, Event::Formatted(code)) => {
            if code == 0 {
                (Progress::Committed, Action::Stop)
            } else {
                fail(
                    FaultKind::Formatter,
                    Stage::Commit,
                    String::from_str("the formatter reported failure"),
                )
            }
        },
        _ => fail(kind, stage, String::from_str("the event does not answer the pending action")),
    }
}

/// Where a run stands after the given events, reported one after the other.
pub open spec fn run(
    args: ArgsView,
    blocks: ShmBlocksView,
    state: ProgressView,
    events: Seq<EventView>,
) -> ProgressView
    decreases events.len(),
{
    if events.len() == 0 {
        state
    } else {
        run(args, blocks, step(args, blocks, state, events.first()).0, events.drop_first())
    }
}

/// A run that is over does not resume: whatever is reported, it stays where
/// it is and nothing is left to do.
pub proof fn lemma_terminal_is_final(
    args: ArgsView,
    blocks: ShmBlocksView,
    state: ProgressView,
    event: EventView,
)
    requires
        state.is_terminal(),
    ensures
        step(args, blocks, state, event) == (state, ActionView::Stop),
{
}

/// A run that is over stays over through any number of further events.
pub proof fn lemma_no_resumption(
    args: ArgsView,
    blocks: ShmBlocksView,
    state: ProgressView,
    events: Seq<EventView>,
)
    requires
        state.is_terminal(),
    ensures
        run(args, blocks, state, events) == state,
    decreases events.len(),
{
    if events.len() > 0 {
        lemma_no_resumption(args, blocks, state, events.drop_first());
    }
}

/// A failure ends the run at once: the next state is the fault of the stage
/// that was executing, with the reported cause, and nothing is left to do.
pub proof fn lemma_failure_is_fatal(
    args: ArgsView,
    blocks: ShmBlocksView,
    state: ProgressView,
    cause: Seq<char>,
)
    requires
        !state.is_terminal(),
    ensures
        state.failure_kind() is Some,
        step(args, blocks, state, EventView::Failed(cause)) == faulted(
            state.failure_kind().unwrap(),
            state.stage(),
            cause,
        ),
{
}

/// A run only moves forward. A step from a state that is not terminal ends
/// the run or moves it exactly one position on, the stage never goes back,
/// and a fault names the stage that was executing or the one that had just
/// begun.
pub proof fn lemma_forward_only(
    args: ArgsView,
    blocks: ShmBlocksView,
    state: ProgressView,
    event: EventView,
)
    requires
        !state.is_terminal(),
    ensures
        ({
            let next = step(args, blocks, state, event).0;
            &&& next.is_terminal() || next.position() == state.position() + 1
            &&& state.stage().ordinal() <= next.stage().ordinal() <= state.stage().ordinal() + 1
            &&& next is Committed ==> state.stage() == Stage::Commit
        }),
{
}

/// The caller is told to stop exactly when the run is over.
pub proof fn lemma_stop_when_over(
    args: ArgsView,
    blocks: ShmBlocksView,
    state: ProgressView,
    event: EventView,
)
    ensures
        step(args, blocks, state, event).1 is Stop <==> step(
            args,
            blocks,
            state,
            event,
        ).0.is_terminal(),
{
}

/// The header bridge is given the symbols of the mapping that the conversion
/// produced, and only those: after the reference document has been written
/// to the destination, the bridge is run on that same file, and a name is on
/// its whitelist if and only if it is the symbol of some entry of the mapping.
pub proof fn lemma_header_whitelist(
    args: ArgsView,
    blocks: ShmBlocksView,
    mapping: Seq<(Seq<char>, Seq<char>)>,
    document: Seq<char>,
)
    ensures
        ({
            let converted = step(
                args,
                blocks,
                ProgressView::Converting,
                EventView::ReferenceConverted(mapping, document),
            );
            let written = step(args, blocks, converted.0, EventView::Written);
            &&& converted.1 == ActionView::WriteDestination { path: args.dst, content: document }
            &&& written.0 == ProgressView::Synthesizing
            &&& written.1 == ActionView::SynthesizeHeader {
                path: args.dst,
                symbols: symbols_of(mapping),
                banner: banner(),
            }
            &&& forall|name: Seq<char>| #[trigger]
                symbols_of(mapping).contains(name) <==> (exists|i: int|
                    0 <= i < mapping.len() && (#[trigger] mapping[i]).1 == name)
        }),
{
    assert forall|name: Seq<char>| #[trigger]
        symbols_of(mapping).contains(name) <==> (exists|i: int|
            0 <= i < mapping.len() && (#[trigger] mapping[i]).1 == name) by {
        crate::mapping::lemma_whitelist_exact(mapping, name);
    }
}

/// What is committed: once the traits and the struct definitions are in, the
/// destination is overwritten with the document made of the decoded header
/// with the callbacks embedded, the traits, and the struct definitions.
pub proof fn lemma_committed_document(
    args: ArgsView,
    blocks: ShmBlocksView,
    header: Seq<char>,
    traits: Seq<TraitView>,
    structs: Seq<char>,
)
    ensures
        ({
            let extracted = step(
                args,
                blocks,
                ProgressView::Extracting(header),
                EventView::TraitsExtracted(traits),
            );
            let emitted = step(args, blocks, extracted.0, EventView::StructsEmitted(structs));
            &&& extracted.1 == ActionView::EmitStructs(args.go118)
            &&& emitted.0 == ProgressView::Committing
            &&& emitted.1 == ActionView::WriteDestination {
                path: args.dst,
                content: document_text(
                    embedded_header(header, traits, blocks.declarations),
                    traits,
                    structs,
                    blocks.ring_init,
                    args.without_main,
                    args.go118,
                ),
            }
        }),
{
}

/// After the document has been written, the formatter is run on the
/// destination unless formatting is switched off; the run is committed when
/// formatting is switched off or the formatter ends with code zero, and
/// faults on any other code.
pub proof fn lemma_formatting(args: ArgsView, blocks: ShmBlocksView, code: i32)
    ensures
        ({
            let written = step(args, blocks, ProgressView::Committing, EventView::Written);
            let formatted = step(
                args,
                blocks,
                ProgressView::Formatting,
                EventView::Formatted(code),
            );
            &&& args.no_fmt ==> written == (ProgressView::Committed, ActionView::Stop)
            &&& !args.no_fmt ==> written == (ProgressView::Formatting, ActionView::Format(args.dst))
            &&& code == 0 ==> formatted == (ProgressView::Committed, ActionView::Stop)
            &&& code != 0 ==> formatted == faulted(
                FaultKind::Formatter,
                Stage::Commit,
                formatter_failed(),
            )
        }),
{
}

/// A run in which every action succeeds ends committed, whether or not the
/// formatter is part of it.
pub proof fn lemma_successful_run(
    args: ArgsView,
    blocks: ShmBlocksView,
    source: Seq<char>,
    mapping: Seq<(Seq<char>, Seq<char>)>,
    reference: Seq<char>,
    header: Seq<u8>,
    traits: Seq<TraitView>,
    structs: Seq<char>,
)
    requires
        valid_utf8(header),
    ensures
        ({
            let events = seq![
                EventView::SourceRead(source),
                EventView::Parsed,
                EventView::ReferenceConverted(mapping, reference),
                EventView::Written,
                EventView::HeaderSynthesized(header),
                EventView::TraitsExtracted(traits),
                EventView::StructsEmitted(structs),
                EventView::Written,
            ];
            &&& args.no_fmt ==> run(args, blocks, start(args).0, events) == ProgressView::Committed
            &&& !args.no_fmt ==> run(args, blocks, start(args).0, events.push(EventView::Formatted(0)))
                == ProgressView::Committed
        }),
{
    let e0 = EventView::SourceRead(source);
    let e1 = EventView::Parsed;
    let e2 = EventView::ReferenceConverted(mapping, reference);
    let e3 = EventView::Written;
    let e4 = EventView::HeaderSynthesized(header);
    let e5 = EventView::TraitsExtracted(traits);
    let e6 = EventView::StructsEmitted(structs);
    let e7 = EventView::Written;
    let e8 = EventView::Formatted(0);
    let s0 = start(args).0;
    let s1 = step(args, blocks, s0, e0).0;
    let s2 = step(args, blocks, s1, e1).0;
    let s3 = step(args, blocks, s2, e2).0;
    let s4 = step(args, blocks, s3, e3).0;
    let s5 = step(args, blocks, s4, e4).0;
    let s6 = step(args, blocks, s5, e5).0;
    let s7 = step(args, blocks, s6, e6).0;
    let s8 = step(args, blocks, s7, e7).0;
    let s9 = step(args, blocks, s8, e8).0;
    let tail = if args.no_fmt {
        Seq::<EventView>::empty()
    } else {
        seq![e8]
    };
    let all = seq![e0, e1, e2, e3, e4, e5, e6, e7] + tail;
    lemma_run_unfold(args, blocks, s0, all);
    lemma_run_unfold(args, blocks, s1, all.skip(1));
    lemma_run_unfold(args, blocks, s2, all.skip(2));
    lemma_run_unfold(args, blocks, s3, all.skip(3));
    lemma_run_unfold(args, blocks, s4, all.skip(4));
    lemma_run_unfold(args, blocks, s5, all.skip(5));
    lemma_run_unfold(args, blocks, s6, all.skip(6));
    lemma_run_unfold(args, blocks, s7, all.skip(7));
    assert(all.skip(1).skip(1) =~= all.skip(2));
    assert(all.skip(2).skip(1) =~= all.skip(3));
    assert(all.skip(3).skip(1) =~= all.skip(4));
    assert(all.skip(4).skip(1) =~= all.skip(5));
    assert(all.skip(5).skip(1) =~= all.skip(6));
    assert(all.skip(6).skip(1) =~= all.skip(7));
    assert(all.skip(7).skip(1) =~= all.skip(8));
    if args.no_fmt {
        assert(all =~= seq![e0, e1, e2, e3, e4, e5, e6, e7]);
        assert(all.skip(8) =~= Seq::<EventView>::empty());
    } else {
        assert(all =~= seq![e0, e1, e2, e3, e4, e5, e6, e7].push(e8));
        lemma_run_unfold(args, blocks, s8, all.skip(8));
        assert(all.skip(8).skip(1) =~= Seq::<EventView>::empty());
    }
}

/// A run over at least one event is the run over the rest, from the state
/// that the first event leads to.
pub proof fn lemma_run_unfold(
    args: ArgsView,
    blocks: ShmBlocksView,
    state: ProgressView,
    events: Seq<EventView>,
)
    requires
        events.len() > 0,
    ensures
        run(args, blocks, state, events) == run(
            args,
            blocks,
            step(args, blocks, state, events[0]).0,
            events.skip(1),
        ),
{
    assert(events.drop_first() =~= events.skip(1));
}

/// The same input gives the same document. What is committed depends on
/// the header, the traits, the struct definitions, the two blocks, the
/// destination and the two flags that shape the document, and on nothing
/// else: not on the source path, and not on whether the formatter will run.
pub proof fn lemma_same_input_same_document(
    first: ArgsView,
    second: ArgsView,
    blocks: ShmBlocksView,
    header: Seq<char>,
    traits: Seq<TraitView>,
    structs: Seq<char>,
)
    requires
        first.dst == second.dst,
        first.without_main == second.without_main,
        first.go118 == second.go118,
    ensures
        ({
            let extracted = EventView::TraitsExtracted(traits);
            let emitted = EventView::StructsEmitted(structs);
            let one = step(first, blocks, ProgressView::Extracting(header), extracted);
            let other = step(second, blocks, ProgressView::Extracting(header), extracted);
            &&& one == other
            &&& step(first, blocks, one.0, emitted) == step(second, blocks, other.0, emitted)
        }),
{
}

} // verus!
