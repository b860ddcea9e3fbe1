//! The command-line adapter: what to read, what to ask of the gateway, what
//! to write and how to end, decided from the arguments and from what the
//! driver reports.

use vstd::prelude::*;
use vstd::string::*;
use crate::gateway::{describable, fits, Operation, ProtectionError};

verus! {

/// The mode selector, restricted to its two literal values.
#[derive(Clone, Copy, Debug, PartialEq, Eq)]
pub enum Mode {
    Wrap,
    Unwrap,
}

/// The mode that `name` selects, if it is one of the two literals.
pub open spec fn mode_named(name: Seq<char>) -> Option<Mode> {
    if name == seq!['w', 'r', 'a', 'p'] {
        Some(Mode::Wrap)
    } else if name == seq!['u', 'n', 'w', 'r', 'a', 'p'] {
        Some(Mode::Unwrap)
    } else {
        None
    }
}

impl Mode {
    /// The facility entry point that the mode dispatches to.
    pub open spec fn spec_operation(self) -> Operation {
        match self {
            Mode::Wrap => Operation::Protect,
            Mode::Unwrap => Operation::Unprotect,
        }
    }

    /// The facility entry point that the mode dispatches to.
    #[verifier::when_used_as_spec(spec_operation)]
    pub fn operation(self) -> (operation: Operation)
        ensures
            operation == self.spec_operation(),
    {
        match self {
            Mode::Wrap => Operation::Protect,
            Mode::Unwrap => Operation::Unprotect,
        }
    }

    /// Reads a mode selector: `wrap` or `unwrap`, and nothing else.
    pub fn from_name(name: &str) -> (mode: Option<Mode>)
        ensures
            mode == mode_named(name@),
    {
        let n: usize = name.unicode_len();
        if n == 4 {
            if name.get_char(0) == 'w' && name.get_char(1) == 'r' && name.get_char(2) == 'a'
                && name.get_char(3) == 'p' {
                assert(name@ =~= seq!['w', 'r', 'a', 'p']);
                return Some(Mode::Wrap);
            }
        } else if n == 6 {
            if name.get_char(0) == 'u' && name.get_char(1) == 'n' && name.get_char(2) == 'w'
                && name.get_char(3) == 'r' && name.get_char(4) == 'a' && name.get_char(5)
                == 'p' {
                assert(name@ =~= seq!['u', 'n', 'w', 'r', 'a', 'p']);
                return Some(Mode::Unwrap);
            }
        }
        assert(seq!['w', 'r', 'a', 'p'].len() == 4);
        assert(seq!['u', 'n', 'w', 'r', 'a', 'p'].len() == 6);
        None
    }
}

/// What the command line gave: the mode, and whether each path was named.
#[derive(Clone, Copy, Debug, PartialEq, Eq)]
pub struct Arguments {
    pub mode: Mode,
    pub has_input: bool,
    pub has_output: bool,
}

/// How a run ends.
#[derive(Debug, PartialEq, Eq)]
pub enum Ending {
    /// The result was written, or there was no output path and it was
    /// discarded: either way the run reports success.
    Succeeded,
    /// The output path could not be written; reported, not fatal.
    WriteFailed(String),
    /// The input path could not be read; fatal.
    InputUnreadable(String),
    /// The gateway call failed; fatal, and nothing is written.
    FacilityFailed(Operation),
}

/// What the adapter asks its driver to do next.
#[derive(Debug, PartialEq, Eq)]
pub enum CliAction {
    /// Read the whole input file.
    ReadInput,
    /// Run one gateway call of `operation` on `input`.
    Transform { operation: Operation, input: Vec<u8> },
    /// Write these bytes to the output path, replacing what is there.
    WriteOutput(Vec<u8>),
    /// Report the ending and leave.
    Exit(Ending),
}

/// What the driver reports after performing an action.
#[derive(Debug)]
pub enum CliEvent {
    /// The input file's contents, or why it could not be read.
    InputRead(Result<Vec<u8>, String>),
    /// The gateway call's result.
    Transformed(Result<Vec<u8>, ProtectionError>),
    /// Whether the output file was written, or why not.
    Written(Result<(), String>),
}

/// What a run awaits.
#[derive(Clone, Copy, Debug, PartialEq, Eq)]
pub enum Stage {
    AwaitInput,
    AwaitGateway,
    AwaitWrite,
    Done,
}

/// One run of the command.
#[derive(Clone, Copy, Debug)]
pub struct CliRun {
    mode: Mode,
    has_output: bool,
    stage: Stage,
}

/// The model of an [`Ending`].
pub ghost enum EndingView {
    Succeeded,
    WriteFailed(Seq<char>),
    InputUnreadable(Seq<char>),
    FacilityFailed(Operation),
}

/// The model of a [`CliAction`].
pub ghost enum CliAsk {
    ReadInput,
    Transform { operation: Operation, input: Seq<u8> },
    WriteOutput(Seq<u8>),
    Exit(EndingView),
}

/// The model of a [`CliEvent`].
pub ghost enum CliFact {
    InputRead(Result<Seq<u8>, Seq<char>>),
    Transformed(Result<Seq<u8>, ProtectionError>),
    Written(Result<(), Seq<char>>),
}

/// The model of a [`CliRun`].
pub ghost struct RunView {
    pub mode: Mode,
    pub has_output: bool,
    pub stage: Stage,
}

impl View for Ending {
    type V = EndingView;

    open spec fn view(&self) -> EndingView {
        match *self {
            Ending::Succeeded => EndingView::Succeeded,
            Ending::WriteFailed(detail) => EndingView::WriteFailed(detail@),
            Ending::InputUnreadable(detail) => EndingView::InputUnreadable(detail@),
            Ending::FacilityFailed(operation) => EndingView::FacilityFailed(operation),
        }
    }
}

impl EndingView {
    /// Whether the ending aborts the process: an unreadable input or a
    /// failed call does, a failed write does not.
    pub open spec fn is_fatal(self) -> bool {
        self is InputUnreadable || self is FacilityFailed
    }

    /// The status line of the ending.
    pub open spec fn line(self) -> Seq<char> {
        match self {
            EndingView::Succeeded => "Data written to file successfully."@,
            EndingView::WriteFailed(detail) => "Error writing to file: "@ + detail,
            EndingView::InputUnreadable(detail) => "Failed to read file: "@ + detail,
            EndingView::FacilityFailed(Operation::Protect) => "Encryption failed"@,
            EndingView::FacilityFailed(Operation::Unprotect) => "Decryption failed"@,
        }
    }
}

impl Ending {
    /// Whether the process is to terminate abnormally.
    pub fn is_fatal(&self) -> (fatal: bool)
        ensures
            fatal == self@.is_fatal(),
    {
        match self {
            Ending::Succeeded => false,
            Ending::WriteFailed(_) => false,
            Ending::InputUnreadable(_) => true,
            Ending::FacilityFailed(_) => true,
        }
    }

    /// The one-line status to show.
    pub fn line(&self) -> (text: String)
        ensures
            text@ == self@.line(),
    {
        match self {
            Ending::Succeeded => String::from_str("Data written to file successfully."),
            Ending::WriteFailed(detail) => String::from_str("Error writing to file: ").concat(
                detail.as_str(),
            ),
            Ending::InputUnreadable(detail) => String::from_str("Failed to read file: ").concat(
                detail.as_str(),
            ),
            Ending::FacilityFailed(Operation::Protect) => String::from_str("Encryption failed"),
            Ending::FacilityFailed(Operation::Unprotect) => String::from_str("Decryption failed"),
        }
    }
}

impl View for CliAction {
    type V = CliAsk;

    open spec fn view(&self) -> CliAsk {
        match *self {
            CliAction::ReadInput => CliAsk::ReadInput,
            CliAction::Transform { operation, input } => CliAsk::Transform {
                operation,
                input: input@,
            },
            CliAction::WriteOutput(bytes) => CliAsk::WriteOutput(bytes@),
            CliAction::Exit(ending) => CliAsk::Exit(ending@),
        }
    }
}

impl View for CliEvent {
    type V = CliFact;

    open spec fn view(&self) -> CliFact {
        match *self {
            CliEvent::InputRead(Ok(bytes)) => CliFact::InputRead(Ok(bytes@)),
            CliEvent::InputRead(Err(detail)) => CliFact::InputRead(Err(detail@)),
            CliEvent::Transformed(Ok(bytes)) => CliFact::Transformed(Ok(bytes@)),
            CliEvent::Transformed(Err(e)) => CliFact::Transformed(Err(e)),
            CliEvent::Written(Ok(())) => CliFact::Written(Ok(())),
            CliEvent::Written(Err(detail)) => CliFact::Written(Err(detail@)),
        }
    }
}

impl View for CliRun {
    type V = RunView;

    closed spec fn view(&self) -> RunView {
        RunView { mode: self.mode, has_output: self.has_output, stage: self.stage }
    }
}

impl RunView {
    /// The same run at another stage.
    pub open spec fn at(self, stage: Stage) -> RunView {
        RunView { stage, ..self }
    }
}

/// What follows once the input bytes are known: the gateway call on them,
/// or, where the facility's length field cannot describe them, the failure
/// of that call.
pub open spec fn with_input(run: RunView, input: Seq<u8>) -> (RunView, CliAsk) {
    let operation = run.mode.spec_operation();
    if fits(input) {
        (run.at(Stage::AwaitGateway), CliAsk::Transform { operation, input })
    } else {
        (run.at(Stage::Done), CliAsk::Exit(EndingView::FacilityFailed(operation)))
    }
}

/// The start of a run: read the input where a path was given; without one
/// the input is empty.
pub open spec fn cli_start(arguments: Arguments) -> (RunView, CliAsk) {
    let run = RunView {
        mode: arguments.mode,
        has_output: arguments.has_output,
        stage: Stage::AwaitInput,
    };
    if arguments.has_input {
        (run, CliAsk::ReadInput)
    } else {
        with_input(run, Seq::empty())
    }
}

/// The adapter's decision: the next stage and the next request to the
/// driver, from the current stage and the driver's report.
///
/// A report that does not answer what the stage awaits ends the run as a
/// failed call does.
pub open spec fn cli_next(run: RunView, fact: CliFact) -> (RunView, CliAsk) {
    let done = run.at(Stage::Done);
    match (run.stage, fact) {
        (Stage::AwaitInput, CliFact::InputRead(Ok(input))) => with_input(run, input),
        (Stage::AwaitInput, CliFact::InputRead(Err(detail))) => (
            done,
            CliAsk::Exit(EndingView::InputUnreadable(detail)),
        ),
        (Stage::AwaitGateway, CliFact::Transformed(Ok(output))) => {
            if run.has_output {
                (run.at(Stage::AwaitWrite), CliAsk::WriteOutput(output))
            } else {
                (done, CliAsk::Exit(EndingView::Succeeded))
            }
        },
        (Stage::AwaitWrite, CliFact::Written(Ok(()))) => (done, CliAsk::Exit(EndingView::Succeeded)),
        (Stage::AwaitWrite, CliFact::Written(Err(detail))) => (
            done,
            CliAsk::Exit(EndingView::WriteFailed(detail)),
        ),
        _ => (done, CliAsk::Exit(EndingView::FacilityFailed(run.mode.spec_operation()))),
    }
}

impl CliRun {
    fn with_input(self, input: Vec<u8>) -> (next_step: (CliRun, CliAction))
        ensures
            (next_step.0@, next_step.1@) == with_input(self@, input@),
    {
        let operation = self.mode.operation();
        if describable(input.as_slice()) {
            (
                CliRun { stage: Stage::AwaitGateway, ..self },
                CliAction::Transform { operation, input },
            )
        } else {
            (
                CliRun { stage: Stage::Done, ..self },
                CliAction::Exit(Ending::FacilityFailed(operation)),
            )
        }
    }

    /// Begins a run with the given arguments.
    pub fn begin(arguments: Arguments) -> (start: (CliRun, CliAction))
        ensures
            (start.0@, start.1@) == cli_start(arguments),
    {
        let run = CliRun {
            mode: arguments.mode,
            has_output: arguments.has_output,
            stage: Stage::AwaitInput,
        };
        if arguments.has_input {
            (run, CliAction::ReadInput)
        } else {
            run.with_input(Vec::new())
        }
    }

    /// Takes the driver's report and decides what comes next.
    pub fn step(self, event: CliEvent) -> (next_step: (CliRun, CliAction))
        ensures
            (next_step.0@, next_step.1@) == cli_next(self@, event@),
    {
        let done = CliRun { stage: Stage::Done, ..self };
        match (self.stage, event) {
            (Stage::AwaitInput, CliEvent::InputRead(Ok(input))) => self.with_input(input),
            (Stage::AwaitInput, CliEvent::InputRead(Err(detail))) => (
                done,
                CliAction::Exit(Ending::InputUnreadable(detail)),
            ),
            (Stage::AwaitGateway, CliEvent::Transformed(Ok(output))) => {
                if self.has_output {
                    (CliRun { stage: Stage::AwaitWrite, ..self }, CliAction::WriteOutput(output))
                } else {
                    (done, CliAction::Exit(Ending::Succeeded))
                }
            },
            (Stage::AwaitWrite, CliEvent::Written(Ok(()))) => (
                done,
                CliAction::Exit(Ending::Succeeded),
            ),
            (Stage::AwaitWrite, CliEvent::Written(Err(detail))) => (
                done,
                CliAction::Exit(Ending::WriteFailed(detail)),
            ),
            _ => (done, CliAction::Exit(Ending::FacilityFailed(self.mode.operation()))),
        }
    }
}

/// What the driver meets outside during one run: the input file, the
/// gateway's result for any call, and the output file.
pub ghost struct World {
    pub input: Result<Seq<u8>, Seq<char>>,
    pub gateway: spec_fn(Operation, Seq<u8>) -> Result<Seq<u8>, ProtectionError>,
    pub write: Result<(), Seq<char>>,
}

/// The report of a driver that performed `ask` in `world`. Nothing is
/// reported after `Exit`.
pub open spec fn cli_answer(ask: CliAsk, world: World) -> Option<CliFact> {
    match ask {
        CliAsk::ReadInput => Some(CliFact::InputRead(world.input)),
        CliAsk::Transform { operation, input } => Some(
            CliFact::Transformed((world.gateway)(operation, input)),
        ),
        CliAsk::WriteOutput(_) => Some(CliFact::Written(world.write)),
        CliAsk::Exit(_) => None,
    }
}

/// The requests sent to a faithful driver from `ask` on, `ask` included,
/// over at most `limit` further reports.
pub open spec fn cli_asks_from(run: RunView, ask: CliAsk, world: World, limit: nat) -> Seq<CliAsk>
    decreases limit,
{
    match cli_answer(ask, world) {
        Some(fact) if limit > 0 => {
            let (then_run, then_ask) = cli_next(run, fact);
            seq![ask] + cli_asks_from(then_run, then_ask, world, (limit - 1) as nat)
        },
        _ => seq![ask],
    }
}

/// The requests of one whole faithful run: at most a read, a call and a
/// write are reported.
pub open spec fn cli_run(arguments: Arguments, world: World) -> Seq<CliAsk> {
    let (run, ask) = cli_start(arguments);
    cli_asks_from(run, ask, world, 3)
}

/// The bytes a run works on, where it gets that far: the file's contents,
/// or nothing where no input path was given.
pub open spec fn input_of(arguments: Arguments, world: World) -> Result<Seq<u8>, Seq<char>> {
    if arguments.has_input {
        world.input
    } else {
        Ok(Seq::empty())
    }
}

/// What a run does once its input is known.
pub open spec fn after_input(arguments: Arguments, world: World, input: Seq<u8>) -> Seq<CliAsk> {
    let operation = arguments.mode.spec_operation();
    if !fits(input) {
        seq![CliAsk::Exit(EndingView::FacilityFailed(operation))]
    } else {
        let call = CliAsk::Transform { operation, input };
        match (world.gateway)(operation, input) {
            Err(_) => seq![call, CliAsk::Exit(EndingView::FacilityFailed(operation))],
            Ok(output) => {
                if !arguments.has_output {
                    seq![call, CliAsk::Exit(EndingView::Succeeded)]
                } else {
                    match world.write {
                        Ok(_) => seq![
                            call,
                            CliAsk::WriteOutput(output),
                            CliAsk::Exit(EndingView::Succeeded),
                        ],
                        Err(detail) => seq![
                            call,
                            CliAsk::WriteOutput(output),
                            CliAsk::Exit(EndingView::WriteFailed(detail)),
                        ],
                    }
                }
            },
        }
    }
}

/// A whole run, said directly: the read where a path was given, then the
/// call on what was read, then the write of what the call returned where a
/// path was given, then the ending.
pub open spec fn whole_run(arguments: Arguments, world: World) -> Seq<CliAsk> {
    let read = if arguments.has_input {
        seq![CliAsk::ReadInput]
    } else {
        Seq::empty()
    };
    match input_of(arguments, world) {
        Err(detail) => read + seq![CliAsk::Exit(EndingView::InputUnreadable(detail))],
        Ok(input) => read + after_input(arguments, world, input),
    }
}

/// Step by step, the adapter asks for exactly the whole run.
pub proof fn lemma_cli_run_is_whole_run(arguments: Arguments, world: World)
    ensures
        cli_run(arguments, world) == whole_run(arguments, world),
{
    reveal_with_fuel(cli_asks_from, 5);
    assert(cli_run(arguments, world) =~= whole_run(arguments, world));
}

/// Without an input path the gateway is called on the empty input, and no
/// file is read.
pub proof fn lemma_missing_input_is_empty(arguments: Arguments, world: World)
    requires
        !arguments.has_input,
    ensures
        cli_run(arguments, world)[0] == (CliAsk::Transform {
            operation: arguments.mode.spec_operation(),
            input: Seq::empty(),
        }),
{
    lemma_cli_run_is_whole_run(arguments, world);
}

/// A run ends fatally exactly when the input could not be read or the
/// gateway call on it failed; then nothing is written. A failed write is
/// reported and is not fatal.
pub proof fn lemma_fatal_endings(arguments: Arguments, world: World)
    ensures
        cli_run(arguments, world).last() is Exit,
        cli_run(arguments, world).last()->Exit_0.is_fatal() <==> (match input_of(
            arguments,
            world,
        ) {
            Err(_) => true,
            Ok(input) => !fits(input) || (world.gateway)(
                arguments.mode.spec_operation(),
                input,
            ) is Err,
        }),
        cli_run(arguments, world).last()->Exit_0.is_fatal() ==> forall|i: int|
            0 <= i < cli_run(arguments, world).len() ==> !(#[trigger] cli_run(
                arguments,
                world,
            )[i] is WriteOutput),
{
    lemma_cli_run_is_whole_run(arguments, world);
}

} // verus!
