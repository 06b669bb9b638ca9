//! What the library and its host say to each other. The library never
//! touches the clipboard, a subprocess or the terminal itself: it hands the
//! host a [`Request`], the host performs it and hands back a [`Response`],
//! until the library has the result of the operation.

use crate::error::{ClipboardError, Failure};
use crate::image::{ImageBuffer, Pixels};
use vstd::prelude::*;

verus! {

/// One thing for the host to do.
#[derive(Debug, PartialEq, Eq)]
pub enum Request {
    /// Acquire the handle of the native clipboard and keep it.
    AcquireNative,
    /// Put this text on the native clipboard.
    NativeSetText { text: String },
    /// Read text from the native clipboard.
    NativeGetText,
    /// Read an image from the native clipboard.
    NativeGetImage,
    /// Put this image on the native clipboard.
    NativeSetImage { image: ImageBuffer },
    /// Start this program, without arguments, with all three of its streams
    /// piped.
    SpawnWriter { program: String },
    /// Take the input stream of the program that was started.
    TakeWriterInput,
    /// Write all of these bytes to the input stream, then close it.
    WriteWriterInput { bytes: Vec<u8> },
    /// Wait for the program to end.
    WaitWriter,
    /// Run this program with this one argument to its end and capture what
    /// it writes to its output stream.
    RunReader { program: String, argument: String },
    /// Write these bytes to the standard output stream.
    EmitTerminal { bytes: Vec<u8> },
}

/// What the host saw when it performed a request.
#[derive(Debug, PartialEq, Eq)]
pub enum Response {
    /// It went well, and there is nothing more to say.
    Done,
    /// It went well and gave this text.
    Text(String),
    /// It went well and gave this image.
    Image { width: usize, height: usize, bytes: Vec<u8> },
    /// The program ended: whether with success, its status in words, and
    /// what was captured of its output stream.
    Exited { success: bool, status: String, output: Vec<u8> },
    /// The stream that was asked for is not there.
    Missing,
    /// It failed; the words of the failure.
    Failed(String),
}

/// What an operation gives its caller when it succeeds.
#[derive(Debug, PartialEq, Eq)]
pub enum Reply {
    /// The clipboard was set.
    Stored,
    /// The text of the clipboard.
    Text(String),
    /// The image of the clipboard.
    Image(ImageBuffer),
}

/// Where an operation stands after the library has decided.
#[derive(Debug, PartialEq, Eq)]
pub enum Step {
    /// The host performs this and resumes the operation with what it saw.
    Perform(Request),
    /// The operation is over, with this result.
    Finish(Result<Reply, ClipboardError>),
}

/// A [`Request`] as plain values.
pub enum RequestView {
    AcquireNative,
    NativeSetText { text: Seq<char> },
    NativeGetText,
    NativeGetImage,
    NativeSetImage { image: Pixels },
    SpawnWriter { program: Seq<char> },
    TakeWriterInput,
    WriteWriterInput { bytes: Seq<u8> },
    WaitWriter,
    RunReader { program: Seq<char>, argument: Seq<char> },
    EmitTerminal { bytes: Seq<u8> },
}

/// A [`Response`] as plain values.
pub enum ResponseView {
    Done,
    Text(Seq<char>),
    Image { width: nat, height: nat, bytes: Seq<u8> },
    Exited { success: bool, status: Seq<char>, output: Seq<u8> },
    Missing,
    Failed(Seq<char>),
}

/// A [`Reply`] as plain values.
pub enum ReplyView {
    Stored,
    Text(Seq<char>),
    Image(Pixels),
}

/// A [`Step`] as plain values.
pub enum StepView {
    Perform(RequestView),
    Finish(Result<ReplyView, Failure>),
}

impl View for Request {
    type V = RequestView;

    open spec fn view(&self) -> RequestView {
        match self {
            Request::AcquireNative => RequestView::AcquireNative,
            Request::NativeSetText { text } => RequestView::NativeSetText { text: text@ },
            Request::NativeGetText => RequestView::NativeGetText,
            Request::NativeGetImage => RequestView::NativeGetImage,
            Request::NativeSetImage { image } => RequestView::NativeSetImage { image: image@ },
            Request::SpawnWriter { program } => RequestView::SpawnWriter { program: program@ },
            Request::TakeWriterInput => RequestView::TakeWriterInput,
            Request::WriteWriterInput { bytes } => RequestView::WriteWriterInput { bytes: bytes@ },
            Request::WaitWriter => RequestView::WaitWriter,
            Request::RunReader { program, argument } => RequestView::RunReader {
                program: program@,
                argument: argument@,
            },
            Request::EmitTerminal { bytes } => RequestView::EmitTerminal { bytes: bytes@ },
        }
    }
}

impl View for Response {
    type V = ResponseView;

    open spec fn view(&self) -> ResponseView {
        match self {
            Response::Done => ResponseView::Done,
            Response::Text(text) => ResponseView::Text(text@),
            Response::Image { width, height, bytes } => ResponseView::Image {
                width: *width as nat,
                height: *height as nat,
                bytes: bytes@,
            },
            Response::Exited { success, status, output } => ResponseView::Exited {
                success: *success,
                status: status@,
                output: output@,
            },
            Response::Missing => ResponseView::Missing,
            Response::Failed(words) => ResponseView::Failed(words@),
        }
    }
}

impl View for Reply {
    type V = ReplyView;

    open spec fn view(&self) -> ReplyView {
        match self {
            Reply::Stored => ReplyView::Stored,
            Reply::Text(text) => ReplyView::Text(text@),
            Reply::Image(image) => ReplyView::Image(image@),
        }
    }
}

impl View for Step {
    type V = StepView;

    open spec fn view(&self) -> StepView {
        match self {
            Step::Perform(request) => StepView::Perform(request@),
            Step::Finish(Ok(reply)) => StepView::Finish(Ok(reply@)),
            Step::Finish(Err(error)) => StepView::Finish(Err(error@)),
        }
    }
}

} // verus!
