//! The clipboard facade as mathematics: its states, and what it decides when
//! an operation begins and when the host answers.

use crate::environment::EnvironmentKind;
use crate::error::{ErrorKind, Failure};
use crate::escape::{clipboard_sequence, encodable};
use crate::image::{malformed_image, Pixels};
use crate::protocol::{ReplyView, RequestView, ResponseView, StepView};
use crate::routing::{transport_for, Operation, Transport};
use crate::text::trimmed;
use vstd::prelude::*;
use vstd::utf8::*;

verus! {

/// An operation with what it carries, as plain values.
pub enum CallView {
    SetText(Seq<char>),
    GetText,
    GetImage,
    SetImage(Pixels),
}

impl CallView {
    /// Which of the four operations this is.
    pub open spec fn operation(self) -> Operation {
        match self {
            CallView::SetText(_) => Operation::SetText,
            CallView::GetText => Operation::GetText,
            CallView::GetImage => Operation::GetImage,
            CallView::SetImage(_) => Operation::SetImage,
        }
    }
}

/// What the facade is waiting for.
pub enum Stage {
    /// Nothing: no operation is in flight.
    Idle,
    /// The native handle, for this operation.
    Acquiring(CallView),
    /// The answer of the native clipboard to this operation.
    Native(Operation),
    /// The start of the bridge's writing utility, which will get this text.
    Spawning(Seq<char>),
    /// The input stream of the writing utility, which will get this text.
    Opening(Seq<char>),
    /// The end of the writing to the input stream.
    Writing,
    /// The end of the writing utility.
    Waiting,
    /// The end of the bridge's reading utility.
    Reading,
    /// The writing of the escape sequence.
    Emitting,
}

/// The facade: whether the host holds the native handle, and what the
/// facade is waiting for.
pub struct State {
    pub native_acquired: bool,
    pub stage: Stage,
}

impl State {
    /// The native clipboard is only ever asked while its handle is held.
    pub open spec fn well_formed(self) -> bool {
        self.stage is Native ==> self.native_acquired
    }

    /// This facade, waiting for something else.
    pub open spec fn waiting_for(self, stage: Stage) -> State {
        State { native_acquired: self.native_acquired, stage }
    }
}

/// The program that sets the clipboard of the Windows host.
pub open spec fn writer_program() -> Seq<char> {
    "clip.exe"@
}

/// The program that reads the clipboard of the Windows host.
pub open spec fn reader_program() -> Seq<char> {
    "powershell.exe"@
}

/// The one argument of the reading program.
pub open spec fn reader_argument() -> Seq<char> {
    "get-clipboard"@
}

/// The failure of a given kind with a given message.
pub open spec fn failure(kind: ErrorKind, message: Seq<char>) -> Failure {
    Failure { kind, message }
}

/// Reading text is not defined for the escape sequence transport.
pub open spec fn terminal_read_unsupported() -> Failure {
    failure(ErrorKind::UnsupportedOperation, "SSH clipboard not supported"@)
}

/// Images are not defined for the escape sequence transport.
pub open spec fn terminal_image_unsupported() -> Failure {
    failure(ErrorKind::UnsupportedOperation, "SSH clipboard does not support images"@)
}

/// Images are not defined for the bridge to the Windows host.
pub open spec fn bridge_image_unsupported() -> Failure {
    failure(ErrorKind::UnsupportedOperation, "WSL clipboard does not support images"@)
}

/// The input stream of the writing utility was not there.
pub open spec fn input_missing() -> Failure {
    failure(ErrorKind::SubprocessIoUnavailable, "Could not get stdin handle for clip.exe"@)
}

/// The host could not wait for the writing utility.
pub open spec fn wait_failed(reason: Seq<char>) -> Failure {
    failure(
        ErrorKind::SubprocessExitFailure,
        "Could not wait for clip.exe, reason: "@ + reason,
    )
}

/// A utility ended without success.
pub open spec fn exit_failed(program: Seq<char>, status: Seq<char>) -> Failure {
    failure(ErrorKind::SubprocessExitFailure, program + " stopped with status "@ + status)
}

/// The output stream of the reading utility was not there.
pub open spec fn output_missing() -> Failure {
    failure(ErrorKind::SubprocessIoUnavailable, "Could not get stdout handle for powershell.exe"@)
}

/// The reading utility wrote bytes that are not UTF-8.
pub open spec fn output_unreadable() -> Failure {
    failure(
        ErrorKind::SubprocessIoUnavailable,
        "Could not read the output of powershell.exe as UTF-8"@,
    )
}

/// The request that hands an operation to the native clipboard.
pub open spec fn native_request(call: CallView) -> RequestView {
    match call {
        CallView::SetText(text) => RequestView::NativeSetText { text },
        CallView::GetText => RequestView::NativeGetText,
        CallView::GetImage => RequestView::NativeGetImage,
        CallView::SetImage(image) => RequestView::NativeSetImage { image },
    }
}

/// The escape sequence for the text of this call can be built.
pub open spec fn can_begin(transport: Transport, call: CallView) -> bool {
    transport == Transport::TerminalEscape ==> (call matches CallView::SetText(text) ==> encodable(
        encode_utf8(text).len(),
    ))
}

/// An operation begins on a transport: the state it leaves and the first
/// step. An operation that was in flight is given up.
pub open spec fn begin(native_acquired: bool, transport: Transport, call: CallView) -> (
    State,
    StepView,
) {
    match transport {
        Transport::Native => if native_acquired {
            (
                State { native_acquired, stage: Stage::Native(call.operation()) },
                StepView::Perform(native_request(call)),
            )
        } else {
            (
                State { native_acquired, stage: Stage::Acquiring(call) },
                StepView::Perform(RequestView::AcquireNative),
            )
        },
        Transport::WslBridge => match call {
            CallView::SetText(text) => (
                State { native_acquired, stage: Stage::Spawning(text) },
                StepView::Perform(RequestView::SpawnWriter { program: writer_program() }),
            ),
            CallView::GetText => (
                State { native_acquired, stage: Stage::Reading },
                StepView::Perform(
                    RequestView::RunReader {
                        program: reader_program(),
                        argument: reader_argument(),
                    },
                ),
            ),
            CallView::GetImage | CallView::SetImage(_) => (
                State { native_acquired, stage: Stage::Idle },
                StepView::Finish(Err(bridge_image_unsupported())),
            ),
        },
        Transport::TerminalEscape => match call {
            CallView::SetText(text) => (
                State { native_acquired, stage: Stage::Emitting },
                StepView::Perform(RequestView::EmitTerminal { bytes: clipboard_sequence(text) }),
            ),
            CallView::GetText => (
                State { native_acquired, stage: Stage::Idle },
                StepView::Finish(Err(terminal_read_unsupported())),
            ),
            CallView::GetImage | CallView::SetImage(_) => (
                State { native_acquired, stage: Stage::Idle },
                StepView::Finish(Err(terminal_image_unsupported())),
            ),
        },
    }
}

/// The operation is over: the facade is idle again.
pub open spec fn finish(native_acquired: bool, result: Result<ReplyView, Failure>) -> (
    State,
    StepView,
) {
    (State { native_acquired, stage: Stage::Idle }, StepView::Finish(result))
}

/// What the answer of the native clipboard means for an operation; `None`
/// where the response is no answer to it.
pub open spec fn native_result(operation: Operation, response: ResponseView) -> Option<
    Result<ReplyView, Failure>,
> {
    match (operation, response) {
        (_, ResponseView::Failed(words)) => Some(
            Err(failure(ErrorKind::PlatformFailure, words)),
        ),
        (Operation::SetText, ResponseView::Done) => Some(Ok(ReplyView::Stored)),
        (Operation::SetImage, ResponseView::Done) => Some(Ok(ReplyView::Stored)),
        (Operation::GetText, ResponseView::Text(text)) => Some(Ok(ReplyView::Text(text))),
        (Operation::GetImage, ResponseView::Image { width, height, bytes }) => {
            let image = Pixels { width, height, bytes };
            if image.well_formed() {
                Some(Ok(ReplyView::Image(image)))
            } else {
                Some(Err(malformed_image()))
            }
        },
        _ => None,
    }
}

/// What the end of the writing utility means.
pub open spec fn writer_result(success: bool, status: Seq<char>) -> Result<ReplyView, Failure> {
    if success {
        Ok(ReplyView::Stored)
    } else {
        Err(exit_failed(writer_program(), status))
    }
}

/// What the end of the reading utility means: its output, decoded and
/// trimmed, where it ended with success and wrote UTF-8.
pub open spec fn reader_result(success: bool, status: Seq<char>, output: Seq<u8>) -> Result<
    ReplyView,
    Failure,
> {
    if !success {
        Err(exit_failed(reader_program(), status))
    } else if !valid_utf8(output) {
        Err(output_unreadable())
    } else {
        Ok(ReplyView::Text(trimmed(decode_utf8(output))))
    }
}

/// The host answers: the state that follows and the next step; `None` where
/// the response is no answer to what the facade is waiting for.
pub open spec fn resume(state: State, response: ResponseView) -> Option<(State, StepView)> {
    let held = state.native_acquired;
    match state.stage {
        Stage::Idle => None,
        Stage::Acquiring(call) => match response {
            ResponseView::Done => Some(
                (
                    State { native_acquired: true, stage: Stage::Native(call.operation()) },
                    StepView::Perform(native_request(call)),
                ),
            ),
            ResponseView::Failed(words) => Some(
                finish(held, Err(failure(ErrorKind::PlatformFailure, words))),
            ),
            _ => None,
        },
        Stage::Native(operation) => match native_result(operation, response) {
            Some(result) => Some(finish(held, result)),
            None => None,
        },
        Stage::Spawning(text) => match response {
            ResponseView::Done => Some(
                (
                    State { native_acquired: held, stage: Stage::Opening(text) },
                    StepView::Perform(RequestView::TakeWriterInput),
                ),
            ),
            ResponseView::Failed(words) => Some(
                finish(held, Err(failure(ErrorKind::SubprocessSpawnFailed, words))),
            ),
            _ => None,
        },
        Stage::Opening(text) => match response {
            ResponseView::Done => Some(
                (
                    State { native_acquired: held, stage: Stage::Writing },
                    StepView::Perform(RequestView::WriteWriterInput { bytes: encode_utf8(text) }),
                ),
            ),
            ResponseView::Missing => Some(finish(held, Err(input_missing()))),
            _ => None,
        },
        Stage::Writing => match response {
            ResponseView::Done => Some(
                (
                    State { native_acquired: held, stage: Stage::Waiting },
                    StepView::Perform(RequestView::WaitWriter),
                ),
            ),
            ResponseView::Failed(words) => Some(
                finish(held, Err(failure(ErrorKind::SubprocessIoUnavailable, words))),
            ),
            _ => None,
        },
        Stage::Waiting => match response {
            ResponseView::Exited { success, status, output } => Some(
                finish(held, writer_result(success, status)),
            ),
            ResponseView::Failed(words) => Some(finish(held, Err(wait_failed(words)))),
            _ => None,
        },
        Stage::Reading => match response {
            ResponseView::Exited { success, status, output } => Some(
                finish(held, reader_result(success, status, output)),
            ),
            ResponseView::Missing => Some(finish(held, Err(output_missing()))),
            ResponseView::Failed(words) => Some(
                finish(held, Err(failure(ErrorKind::SubprocessSpawnFailed, words))),
            ),
            _ => None,
        },
        Stage::Emitting => match response {
            ResponseView::Done => Some(finish(held, Ok(ReplyView::Stored))),
            _ => None,
        },
    }
}

/// `set_text` in an environment.
pub open spec fn set_text(state: State, environment: EnvironmentKind, text: Seq<char>) -> (
    State,
    StepView,
) {
    begin(
        state.native_acquired,
        transport_for(Operation::SetText, environment),
        CallView::SetText(text),
    )
}

/// `get_text` in an environment.
pub open spec fn get_text(state: State, environment: EnvironmentKind) -> (State, StepView) {
    begin(state.native_acquired, transport_for(Operation::GetText, environment), CallView::GetText)
}

/// `get_image` in an environment.
pub open spec fn get_image(state: State, environment: EnvironmentKind) -> (State, StepView) {
    begin(
        state.native_acquired,
        transport_for(Operation::GetImage, environment),
        CallView::GetImage,
    )
}

/// `set_image` in an environment: refused at once where the bytes are not
/// four for each pixel.
pub open spec fn set_image(
    state: State,
    environment: EnvironmentKind,
    width: nat,
    height: nat,
    bytes: Seq<u8>,
) -> (State, StepView) {
    if bytes.len() == width * height * 4 {
        begin(
            state.native_acquired,
            transport_for(Operation::SetImage, environment),
            CallView::SetImage(Pixels { width, height, bytes }),
        )
    } else {
        finish(state.native_acquired, Err(malformed_image()))
    }
}

} // verus!
