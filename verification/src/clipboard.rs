//! The clipboard facade: one entry point for every environment.
//!
//! Each operation begins with a call of `set_text`, `get_text`, `get_image`
//! or `set_image`, which hands back a [`Step`]. While the step is
//! `Step::Perform`, the host performs the request and calls `resume` with the
//! response; `Step::Finish` carries the result of the operation.

use crate::environment::EnvironmentKind;
use crate::error::ClipboardError;
use crate::escape::{encodable, set_clipboard_osc_52};
use crate::image::ImageBuffer;
use crate::model;
use crate::model::{CallView, Stage, State};
use crate::protocol::{Reply, Request, Response, Step, StepView};
use crate::routing::{select_transport, Operation, Transport};
use crate::text::{from_utf8, trim};
use vstd::prelude::*;
use vstd::string::*;
use vstd::utf8::*;

verus! {

/// An operation with what it carries.
#[derive(Debug, PartialEq, Eq)]
pub enum Call {
    /// Put this text on the clipboard.
    SetText(String),
    /// Read the text of the clipboard.
    GetText,
    /// Read the image of the clipboard.
    GetImage,
    /// Put this image on the clipboard.
    SetImage(ImageBuffer),
}

impl View for Call {
    type V = CallView;

    open spec fn view(&self) -> CallView {
        match self {
            Call::SetText(text) => CallView::SetText(text@),
            Call::GetText => CallView::GetText,
            Call::GetImage => CallView::GetImage,
            Call::SetImage(image) => CallView::SetImage(image@),
        }
    }
}

impl Call {
    /// Which of the four operations this is.
    pub fn operation(&self) -> (operation: Operation)
        ensures
            operation == self@.operation(),
    {
        match self {
            Call::SetText(_) => Operation::SetText,
            Call::GetText => Operation::GetText,
            Call::GetImage => Operation::GetImage,
            Call::SetImage(_) => Operation::SetImage,
        }
    }
}

/// How far the writing utility of the bridge has come.
#[derive(Debug)]
enum Writer {
    Spawning(String),
    Opening(String),
    Writing,
    Waiting,
}

impl View for Writer {
    type V = Stage;

    closed spec fn view(&self) -> Stage {
        match self {
            Writer::Spawning(text) => Stage::Spawning(text@),
            Writer::Opening(text) => Stage::Opening(text@),
            Writer::Writing => Stage::Writing,
            Writer::Waiting => Stage::Waiting,
        }
    }
}

/// What the facade is waiting for.
#[derive(Debug)]
enum Pending {
    Idle,
    Acquiring(Call),
    Native(Operation),
    Writer(Writer),
    Reading,
    Emitting,
}

impl View for Pending {
    type V = Stage;

    closed spec fn view(&self) -> Stage {
        match self {
            Pending::Idle => Stage::Idle,
            Pending::Acquiring(call) => Stage::Acquiring(call@),
            Pending::Native(operation) => Stage::Native(*operation),
            Pending::Writer(writer) => writer@,
            Pending::Reading => Stage::Reading,
            Pending::Emitting => Stage::Emitting,
        }
    }
}

/// The clipboard of whatever environment the process runs in.
///
/// The handle of the native clipboard is acquired when an operation first
/// needs it, and kept from then on. The host holds the handle; the facade
/// knows whether it is there.
#[derive(Debug)]
pub struct Clipboard {
    native_acquired: bool,
    pending: Pending,
}

impl View for Clipboard {
    type V = State;

    closed spec fn view(&self) -> State {
        State { native_acquired: self.native_acquired, stage: self.pending@ }
    }
}

/// A step that may be missing, as plain values.
pub open spec fn view_of(step: Option<Step>) -> Option<StepView> {
    match step {
        Some(step) => Some(step@),
        None => None,
    }
}

/// The request that hands an operation to the native clipboard.
fn native_request(call: Call) -> (request: Request)
    ensures
        request@ == model::native_request(call@),
{
    match call {
        Call::SetText(text) => Request::NativeSetText { text },
        Call::GetText => Request::NativeGetText,
        Call::GetImage => Request::NativeGetImage,
        Call::SetImage(image) => Request::NativeSetImage { image },
    }
}

/// The failure of a utility that ended without success.
fn exit_failed(program: &str, status: &str) -> (error: ClipboardError)
    ensures
        error@ == model::exit_failed(program@, status@),
{
    let message = String::from_str(program).concat(" stopped with status ").concat(status);
    ClipboardError::SubprocessExitFailure(message)
}

/// What the answer of the native clipboard means for an operation.
fn native_result(operation: Operation, response: Response) -> (result: Option<
    Result<Reply, ClipboardError>,
>)
    ensures
        (match model::native_result(operation, response@) {
            Some(Ok(reply)) => result matches Some(Ok(r)) && r@ == reply,
            Some(Err(failure)) => result matches Some(Err(e)) && e@ == failure,
            None => result is None,
        }),
{
    match response {
        Response::Failed(words) => Some(Err(ClipboardError::PlatformFailure(words))),
        Response::Done => match operation {
            Operation::SetText | Operation::SetImage => Some(Ok(Reply::Stored)),
            _ => None,
        },
        Response::Text(text) => match operation {
            Operation::GetText => Some(Ok(Reply::Text(text))),
            _ => None,
        },
        Response::Image { width, height, bytes } => match operation {
            Operation::GetImage => match ImageBuffer::from_platform(width, height, bytes) {
                Ok(image) => Some(Ok(Reply::Image(image))),
                Err(error) => Some(Err(error)),
            },
            _ => None,
        },
        _ => None,
    }
}

/// What the end of the reading utility means.
fn reader_result(success: bool, status: String, output: Vec<u8>) -> (result: Result<
    Reply,
    ClipboardError,
>)
    ensures
        (match model::reader_result(success, status@, output@) {
            Ok(reply) => result matches Ok(r) && r@ == reply,
            Err(failure) => result matches Err(e) && e@ == failure,
        }),
{
    if !success {
        return Err(exit_failed("powershell.exe", status.as_str()));
    }
    match from_utf8(output) {
        Some(text) => Ok(Reply::Text(trim(text.as_str()))),
        None => Err(
            ClipboardError::SubprocessIoUnavailable(
                String::from_str("Could not read the output of powershell.exe as UTF-8"),
            ),
        ),
    }
}

impl Clipboard {
    #[verifier::type_invariant]
    spec fn handle_before_use(self) -> bool {
        self.pending is Native ==> self.native_acquired
    }

    /// A facade that holds no native handle and waits for nothing.
    pub fn new() -> (clipboard: Clipboard)
        ensures
            clipboard@ == (State { native_acquired: false, stage: Stage::Idle }),
    {
        Clipboard { native_acquired: false, pending: Pending::Idle }
    }

    /// Whether the native handle has been acquired.
    pub fn native_acquired(&self) -> (held: bool)
        ensures
            held == self@.native_acquired,
    {
        self.native_acquired
    }

    /// Whether no operation is in flight.
    pub fn is_idle(&self) -> (idle: bool)
        ensures
            idle == (self@.stage is Idle),
            self@.well_formed(),
    {
        proof {
            use_type_invariant(self);
        }
        match self.pending {
            Pending::Idle => true,
            _ => false,
        }
    }

    /// Begins an operation on a transport.
    pub fn begin(&mut self, transport: Transport, call: Call) -> (step: Step)
        requires
            model::can_begin(transport, call@),
        ensures
            (final(self)@, step@) == model::begin(old(self)@.native_acquired, transport, call@),
            final(self)@.well_formed(),
    {
        match transport {
            Transport::Native => self.inner(call),
            Transport::WslBridge => match call {
                Call::SetText(text) => self.set_wsl_clipboard(text),
                Call::GetText => {
                    self.pending = Pending::Reading;
                    Step::Perform(
                        Request::RunReader {
                            program: String::from_str("powershell.exe"),
                            argument: String::from_str("get-clipboard"),
                        },
                    )
                },
                Call::GetImage | Call::SetImage(_) => {
                    self.pending = Pending::Idle;
                    Step::Finish(
                        Err(
                            ClipboardError::UnsupportedOperation(
                                String::from_str("WSL clipboard does not support images"),
                            ),
                        ),
                    )
                },
            },
            Transport::TerminalEscape => match call {
                Call::SetText(text) => {
                    self.pending = Pending::Emitting;
                    Step::Perform(
                        Request::EmitTerminal { bytes: set_clipboard_osc_52(text.as_str()) },
                    )
                },
                Call::GetText => {
                    self.pending = Pending::Idle;
                    Step::Finish(
                        Err(
                            ClipboardError::UnsupportedOperation(
                                String::from_str("SSH clipboard not supported"),
                            ),
                        ),
                    )
                },
                Call::GetImage | Call::SetImage(_) => {
                    self.pending = Pending::Idle;
                    Step::Finish(
                        Err(
                            ClipboardError::UnsupportedOperation(
                                String::from_str("SSH clipboard does not support images"),
                            ),
                        ),
                    )
                },
            },
        }
    }

    /// Begins an operation on the native clipboard: with the operation itself
    /// where the handle is held, with acquiring the handle where it is not.
    fn inner(&mut self, call: Call) -> (step: Step)
        ensures
            (final(self)@, step@) == model::begin(
                old(self)@.native_acquired,
                Transport::Native,
                call@,
            ),
            final(self)@.well_formed(),
    {
        if self.native_acquired {
            self.pending = Pending::Native(call.operation());
            Step::Perform(native_request(call))
        } else {
            self.pending = Pending::Acquiring(call);
            Step::Perform(Request::AcquireNative)
        }
    }

    /// Begins setting the clipboard of the Windows host: the writing utility
    /// is started first, and gets the text once its input stream is there.
    fn set_wsl_clipboard(&mut self, text: String) -> (step: Step)
        ensures
            (final(self)@, step@) == model::begin(
                old(self)@.native_acquired,
                Transport::WslBridge,
                CallView::SetText(text@),
            ),
            final(self)@.well_formed(),
    {
        self.pending = Pending::Writer(Writer::Spawning(text));
        Step::Perform(Request::SpawnWriter { program: String::from_str("clip.exe") })
    }

    /// Goes on with setting the clipboard of the Windows host, after the host
    /// has answered for one stage of it.
    fn resume_wsl_clipboard(&mut self, stage: Writer, response: Response) -> (step: Option<
        Step,
    >)
        requires
            old(self)@.stage is Idle,
        ensures
            (final(self)@, view_of(step)) == (match model::resume(
                old(self)@.waiting_for(stage@),
                response@,
            ) {
                Some((state, next)) => (state, Some(next)),
                None => (old(self)@.waiting_for(stage@), None),
            }),
            final(self)@.well_formed(),
    {
        match stage {
            Writer::Spawning(text) => match response {
                Response::Done => {
                    self.pending = Pending::Writer(Writer::Opening(text));
                    Some(Step::Perform(Request::TakeWriterInput))
                },
                Response::Failed(words) => Some(
                    Step::Finish(Err(ClipboardError::SubprocessSpawnFailed(words))),
                ),
                _ => {
                    self.pending = Pending::Writer(Writer::Spawning(text));
                    None
                },
            },
            Writer::Opening(text) => match response {
                Response::Done => {
                    self.pending = Pending::Writer(Writer::Writing);
                    Some(
                        Step::Perform(
                            Request::WriteWriterInput { bytes: text.as_str().as_bytes_vec() },
                        ),
                    )
                },
                Response::Missing => Some(
                    Step::Finish(
                        Err(
                            ClipboardError::SubprocessIoUnavailable(
                                String::from_str("Could not get stdin handle for clip.exe"),
                            ),
                        ),
                    ),
                ),
                _ => {
                    self.pending = Pending::Writer(Writer::Opening(text));
                    None
                },
            },
            Writer::Writing => match response {
                Response::Done => {
                    self.pending = Pending::Writer(Writer::Waiting);
                    Some(Step::Perform(Request::WaitWriter))
                },
                Response::Failed(words) => Some(
                    Step::Finish(Err(ClipboardError::SubprocessIoUnavailable(words))),
                ),
                _ => {
                    self.pending = Pending::Writer(Writer::Writing);
                    None
                },
            },
            Writer::Waiting => match response {
                Response::Exited { success, status, output } => {
                    if success {
                        Some(Step::Finish(Ok(Reply::Stored)))
                    } else {
                        Some(Step::Finish(Err(exit_failed("clip.exe", status.as_str()))))
                    }
                },
                Response::Failed(words) => {
                    let message = String::from_str("Could not wait for clip.exe, reason: ").concat(
                        words.as_str(),
                    );
                    Some(Step::Finish(Err(ClipboardError::SubprocessExitFailure(message))))
                },
                _ => {
                    self.pending = Pending::Writer(Writer::Waiting);
                    None
                },
            },
        }
    }

    /// Resumes the operation in flight with what the host saw. `None` where
    /// the response is no answer to what the facade is waiting for; nothing
    /// changes then.
    pub fn resume(&mut self, response: Response) -> (step: Option<Step>)
        ensures
            (final(self)@, view_of(step)) == (match model::resume(old(self)@, response@) {
                Some((state, next)) => (state, Some(next)),
                None => (old(self)@, None),
            }),
            final(self)@.well_formed(),
    {
        proof {
            use_type_invariant(&*self);
        }
        let mut pending = Pending::Idle;
        core::mem::swap(&mut self.pending, &mut pending);
        match pending {
            Pending::Idle => None,
            Pending::Acquiring(call) => match response {
                Response::Done => {
                    self.native_acquired = true;
                    self.pending = Pending::Native(call.operation());
                    Some(Step::Perform(native_request(call)))
                },
                Response::Failed(words) => Some(
                    Step::Finish(Err(ClipboardError::PlatformFailure(words))),
                ),
                _ => {
                    self.pending = Pending::Acquiring(call);
                    None
                },
            },
            Pending::Native(operation) => match native_result(operation, response) {
                Some(result) => Some(Step::Finish(result)),
                None => {
                    self.pending = Pending::Native(operation);
                    None
                },
            },
            Pending::Reading => match response {
                Response::Exited { success, status, output } => Some(
                    Step::Finish(reader_result(success, status, output)),
                ),
                Response::Missing => Some(
                    Step::Finish(
                        Err(
                            ClipboardError::SubprocessIoUnavailable(
                                String::from_str("Could not get stdout handle for powershell.exe"),
                            ),
                        ),
                    ),
                ),
                Response::Failed(words) => Some(
                    Step::Finish(Err(ClipboardError::SubprocessSpawnFailed(words))),
                ),
                _ => {
                    self.pending = Pending::Reading;
                    None
                },
            },
            Pending::Emitting => match response {
                Response::Done => Some(Step::Finish(Ok(Reply::Stored))),
                _ => {
                    self.pending = Pending::Emitting;
                    None
                },
            },
            Pending::Writer(stage) => self.resume_wsl_clipboard(stage, response),
        }
    }

    /// Begins putting `text` on the clipboard of the environment.
    pub fn set_text(&mut self, environment: EnvironmentKind, text: String) -> (step: Step)
        requires
            environment == EnvironmentKind::SshRemote ==> encodable(encode_utf8(text@).len()),
        ensures
            (final(self)@, step@) == model::set_text(old(self)@, environment, text@),
            final(self)@.well_formed(),
    {
        self.begin(select_transport(Operation::SetText, environment), Call::SetText(text))
    }

    /// Begins reading the text of the clipboard of the environment.
    pub fn get_text(&mut self, environment: EnvironmentKind) -> (step: Step)
        ensures
            (final(self)@, step@) == model::get_text(old(self)@, environment),
            final(self)@.well_formed(),
    {
        self.begin(select_transport(Operation::GetText, environment), Call::GetText)
    }

    /// Begins reading the image of the native clipboard, whatever the
    /// environment.
    pub fn get_image(&mut self, environment: EnvironmentKind) -> (step: Step)
        ensures
            (final(self)@, step@) == model::get_image(old(self)@, environment),
            final(self)@.well_formed(),
    {
        self.begin(select_transport(Operation::GetImage, environment), Call::GetImage)
    }

    /// Begins putting an image of `width` by `height` pixels on the native
    /// clipboard, whatever the environment. An image whose bytes are not four
    /// for each pixel is refused at once.
    pub fn set_image(
        &mut self,
        environment: EnvironmentKind,
        width: u32,
        height: u32,
        bytes: Vec<u8>,
    ) -> (step: Step)
        ensures
            (final(self)@, step@) == model::set_image(
                old(self)@,
                environment,
                width as nat,
                height as nat,
                bytes@,
            ),
            final(self)@.well_formed(),
    {
        match ImageBuffer::new(width, height, bytes) {
            Ok(image) => self.begin(
                select_transport(Operation::SetImage, environment),
                Call::SetImage(image),
            ),
            Err(error) => {
                self.pending = Pending::Idle;
                Step::Finish(Err(error))
            },
        }
    }
}

} // verus!
