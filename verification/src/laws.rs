//! What holds of the facade whatever the host answers, and what holds of it
//! on a desktop whose clipboard keeps what it is given.

use crate::environment::{detected, EnvironmentKind};
use crate::error::{ErrorKind, Failure};
use crate::escape::clipboard_sequence;
use crate::image::{malformed_image, Pixels};
use crate::model::{
    begin, exit_failed, failure, get_image, get_text, resume, set_image, set_text,
    terminal_read_unsupported, writer_program, CallView, Stage, State,
};
use crate::protocol::{ReplyView, RequestView, ResponseView, StepView};
use crate::routing::{transport_for, Operation, Transport};
use crate::text::{
    all_white_space, is_white_space, lemma_leading_end, lemma_trailing_start,
    lemma_without_leading, lemma_without_trailing, trimmed,
};
use vstd::prelude::*;
use vstd::utf8::*;

verus! {

/// A native clipboard that keeps what it is given: the text or the image
/// that was put on it last.
pub struct Desktop {
    pub text: Option<Seq<char>>,
    pub image: Option<Pixels>,
}

/// What such a desktop answers to a request, and what it holds afterwards.
/// Requests that are not for the native clipboard fail on it.
pub open spec fn desktop_answer(desktop: Desktop, request: RequestView) -> (Desktop, ResponseView) {
    match request {
        RequestView::AcquireNative => (desktop, ResponseView::Done),
        RequestView::NativeSetText { text } => (
            Desktop { text: Some(text), image: None },
            ResponseView::Done,
        ),
        RequestView::NativeSetImage { image } => (
            Desktop { text: None, image: Some(image) },
            ResponseView::Done,
        ),
        RequestView::NativeGetText => match desktop.text {
            Some(text) => (desktop, ResponseView::Text(text)),
            None => (desktop, ResponseView::Failed(Seq::empty())),
        },
        RequestView::NativeGetImage => match desktop.image {
            Some(image) => (
                desktop,
                ResponseView::Image {
                    width: image.width,
                    height: image.height,
                    bytes: image.bytes,
                },
            ),
            None => (desktop, ResponseView::Failed(Seq::empty())),
        },
        _ => (desktop, ResponseView::Failed(Seq::empty())),
    }
}

/// What is left when an operation has been driven on a desktop.
pub struct Outcome {
    pub state: State,
    pub desktop: Desktop,
    /// The result of the operation; `None` where it did not finish.
    pub result: Option<Result<ReplyView, Failure>>,
}

/// The operation finished and gave this reply.
pub open spec fn succeeded(reply: ReplyView) -> Option<Result<ReplyView, Failure>> {
    Some(Ok(reply))
}

/// Drives an operation on a desktop: performs each request and resumes with
/// the answer, for at most `rounds` requests.
pub open spec fn drive(state: State, step: StepView, desktop: Desktop, rounds: nat) -> Outcome
    decreases rounds,
{
    match step {
        StepView::Finish(result) => Outcome { state, desktop, result: Some(result) },
        StepView::Perform(request) => if rounds == 0 {
            Outcome { state, desktop, result: None }
        } else {
            let (desktop_after, response) = desktop_answer(desktop, request);
            match resume(state, response) {
                Some((state_after, next)) => drive(
                    state_after,
                    next,
                    desktop_after,
                    (rounds - 1) as nat,
                ),
                None => Outcome { state, desktop: desktop_after, result: None },
            }
        },
    }
}

/// Trimming leaves one stretch of the text: nothing but whitespace lies
/// before it and after it, and it neither begins nor ends with whitespace.
pub proof fn law_trimmed_is_the_inner_stretch(s: Seq<char>) -> (bounds: (int, int))
    ensures
        0 <= bounds.0 <= bounds.1 <= s.len(),
        trimmed(s) == s.subrange(bounds.0, bounds.1),
        all_white_space(s, 0, bounds.0),
        all_white_space(s, bounds.1, s.len() as int),
        bounds.0 < bounds.1 ==> !is_white_space(s[bounds.0]) && !is_white_space(s[bounds.1 - 1]),
{
    let from = lemma_leading_end(s);
    let tail = s.skip(from);
    let kept = lemma_trailing_start(tail);
    assert forall|i: int| from + kept <= i < s.len() implies is_white_space(#[trigger] s[i]) by {
        assert(s[i] == tail[i - from]);
    }
    (from, from + kept)
}

/// Text that neither begins nor ends with whitespace is left as it is.
pub proof fn law_clean_text_is_kept(s: Seq<char>)
    requires
        s.len() > 0 ==> !is_white_space(s.first()) && !is_white_space(s.last()),
    ensures
        trimmed(s) == s,
{
}

/// Trimming what was trimmed changes nothing.
pub proof fn law_trimming_twice(s: Seq<char>)
    ensures
        trimmed(trimmed(s)) == trimmed(s),
{
    law_trimmed_is_the_inner_stretch(s);
    law_clean_text_is_kept(trimmed(s));
}

/// Whitespace around a text makes no difference to what trimming leaves.
pub proof fn law_surrounding_whitespace_is_dropped(before: Seq<char>, s: Seq<char>, after: Seq<char>)
    requires
        all_white_space(before, 0, before.len() as int),
        all_white_space(after, 0, after.len() as int),
    ensures
        trimmed(before + s + after) == trimmed(s),
{
    let whole = before + s + after;
    let bounds = law_trimmed_is_the_inner_stretch(s);
    let from = before.len() + bounds.0;
    let to = before.len() + bounds.1;
    assert forall|i: int| 0 <= i < from implies is_white_space(#[trigger] whole[i]) by {}
    assert forall|i: int| to <= i < whole.len() implies is_white_space(#[trigger] whole[i]) by {}
    if bounds.0 < bounds.1 {
        lemma_without_leading(whole, from);
        let tail = whole.skip(from);
        assert forall|i: int| to - from <= i < tail.len() implies is_white_space(
            #[trigger] tail[i],
        ) by {}
        lemma_without_trailing(tail, to - from);
    } else {
        assert forall|i: int| 0 <= i < whole.len() implies is_white_space(#[trigger] whole[i]) by {}
        lemma_without_leading(whole, whole.len() as int);
    }
}

/// The WSL marker decides alone: with it the environment is WSL, whatever
/// the SSH variable holds. Without it the SSH variable decides between a
/// remote session and a native one.
pub proof fn law_wsl_takes_precedence(wsl_marker: bool, ssh_session: Option<Seq<char>>)
    ensures
        wsl_marker ==> detected(wsl_marker, ssh_session) == EnvironmentKind::Wsl,
        !wsl_marker ==> detected(wsl_marker, ssh_session) != EnvironmentKind::Wsl,
        !wsl_marker ==> (detected(wsl_marker, ssh_session) == EnvironmentKind::SshRemote <==> (
        ssh_session is Some && ssh_session->0.len() > 0)),
{
}

/// Text that is set on a native desktop and then read comes back as it was:
/// the facade hands the desktop the very text, and hands the caller the very
/// text that the desktop gives. This holds from any state of the facade,
/// with the native handle acquired on the way where it was not held.
pub proof fn law_native_text_round_trip(state: State, desktop: Desktop, text: Seq<char>)
    ensures
        ({
            let (begun, first) = set_text(state, EnvironmentKind::Native, text);
            let set = drive(begun, first, desktop, 2);
            let (again, second) = get_text(set.state, EnvironmentKind::Native);
            let got = drive(again, second, set.desktop, 2);
            &&& set.result == succeeded(ReplyView::Stored)
            &&& set.desktop.text == Some(text)
            &&& got.result == succeeded(ReplyView::Text(text))
            &&& got.state.stage is Idle
            &&& got.state.native_acquired
        }),
{
    reveal_with_fuel(drive, 3);
}

/// An image that is set on a native desktop and then read comes back with
/// the same width, the same height and the same bytes, in whatever
/// environments the two operations run.
pub proof fn law_native_image_round_trip(
    state: State,
    desktop: Desktop,
    setting: EnvironmentKind,
    getting: EnvironmentKind,
    width: nat,
    height: nat,
    bytes: Seq<u8>,
)
    requires
        width <= u32::MAX,
        height <= u32::MAX,
        bytes.len() == width * height * 4,
    ensures
        ({
            let (begun, first) = set_image(state, setting, width, height, bytes);
            let set = drive(begun, first, desktop, 2);
            let (again, second) = get_image(set.state, getting);
            let got = drive(again, second, set.desktop, 2);
            &&& set.result == succeeded(ReplyView::Stored)
            &&& got.result == succeeded(ReplyView::Image((Pixels { width, height, bytes })))
        }),
{
    reveal_with_fuel(drive, 3);
}

/// An image whose bytes are not four for each pixel is refused with a
/// platform failure before the host is asked for anything, and the facade is
/// idle afterwards.
pub proof fn law_mismatched_image_is_refused(
    state: State,
    environment: EnvironmentKind,
    width: nat,
    height: nat,
    bytes: Seq<u8>,
)
    requires
        bytes.len() != width * height * 4,
    ensures
        set_image(state, environment, width, height, bytes).1 == StepView::Finish(
            Err(malformed_image()),
        ),
        malformed_image().kind == ErrorKind::PlatformFailure,
        set_image(state, environment, width, height, bytes).0 == (State {
            native_acquired: state.native_acquired,
            stage: Stage::Idle,
        }),
{
}

/// In a remote session reading text fails at once as unsupported, and
/// setting text asks the host for one thing only: to write the escape
/// sequence for the text. Once that is written the operation has succeeded.
pub proof fn law_remote_session(state: State, text: Seq<char>)
    ensures
        get_text(state, EnvironmentKind::SshRemote).1 == StepView::Finish(
            Err(terminal_read_unsupported()),
        ),
        terminal_read_unsupported().kind == ErrorKind::UnsupportedOperation,
        set_text(state, EnvironmentKind::SshRemote, text).1 == StepView::Perform(
            (RequestView::EmitTerminal { bytes: clipboard_sequence(text) }),
        ),
        resume(set_text(state, EnvironmentKind::SshRemote, text).0, ResponseView::Done) matches Some(
            (after, last),
        ) && last == StepView::Finish(Ok(ReplyView::Stored)) && after.stage is Idle,
{
}

/// On WSL reading text runs the reading utility and gives its output,
/// decoded and trimmed, where the utility ended with success and wrote
/// UTF-8.
pub proof fn law_bridge_read(state: State, status: Seq<char>, output: Seq<u8>)
    requires
        valid_utf8(output),
    ensures
        get_text(state, EnvironmentKind::Wsl).1 is Perform,
        get_text(state, EnvironmentKind::Wsl).1->Perform_0 is RunReader,
        resume(
            get_text(state, EnvironmentKind::Wsl).0,
            (ResponseView::Exited { success: true, status, output }),
        ) matches Some((after, last)) && last == StepView::Finish(
            Ok(ReplyView::Text(trimmed(decode_utf8(output)))),
        ),
{
}

/// The four answers that the writing utility of WSL needs, in their order.
pub open spec fn writer_went_well(answers: Seq<ResponseView>) -> bool {
    &&& answers.len() == 4
    &&& answers[0] is Done
    &&& answers[1] is Done
    &&& answers[2] is Done
    &&& answers[3] is Exited
    &&& answers[3]->success
}

/// Resumes with each of `answers` in turn, from a step that asks the host
/// for something; stops where the operation finishes or an answer does not
/// fit.
pub open spec fn replay(state: State, step: StepView, answers: Seq<ResponseView>) -> (
    State,
    StepView,
)
    decreases answers.len(),
{
    if answers.len() == 0 || step is Finish {
        (state, step)
    } else {
        match resume(state, answers.first()) {
            Some((after, next)) => replay(after, next, answers.drop_first()),
            None => (state, step),
        }
    }
}

/// On WSL setting text succeeds exactly when the utility was started, its
/// input stream was there, the text was written to it and the utility ended
/// with success, in this order. Where it ended without success the failure
/// is an exit failure that names its status.
pub proof fn law_bridge_write(state: State, text: Seq<char>, answers: Seq<ResponseView>)
    requires
        answers.len() == 4,
    ensures
        ({
            let (begun, first) = set_text(state, EnvironmentKind::Wsl, text);
            let (after, last) = replay(begun, first, answers);
            &&& first == StepView::Perform(
                (RequestView::SpawnWriter { program: writer_program() }),
            )
            &&& (last == StepView::Finish(Ok(ReplyView::Stored)) <==> writer_went_well(answers))
            &&& (answers[0] is Done && answers[1] is Done && answers[2] is Done
                && answers[3] is Exited && !answers[3]->success ==> last == StepView::Finish(
                Err(exit_failed(writer_program(), answers[3]->status)),
            ))
        }),
{
    reveal_with_fuel(replay, 5);
    let (begun, first) = set_text(state, EnvironmentKind::Wsl, text);
}

/// Images go to the native clipboard in every environment: neither
/// operation on images is ever refused as unsupported, and the environment
/// makes no difference to what happens.
pub proof fn law_images_ignore_environment(
    state: State,
    environment: EnvironmentKind,
    width: nat,
    height: nat,
    bytes: Seq<u8>,
)
    ensures
        transport_for(Operation::GetImage, environment) == Transport::Native,
        transport_for(Operation::SetImage, environment) == Transport::Native,
        get_image(state, environment) == get_image(state, EnvironmentKind::Native),
        set_image(state, environment, width, height, bytes) == set_image(
            state,
            EnvironmentKind::Native,
            width,
            height,
            bytes,
        ),
        state.native_acquired ==> get_image(state, environment).1 == StepView::Perform(
            RequestView::NativeGetImage,
        ),
        !state.native_acquired ==> get_image(state, environment).1 == StepView::Perform(
            RequestView::AcquireNative,
        ),
{
}

/// The native handle is acquired once: while it is held no operation asks
/// for it again, and no answer of the host makes the facade forget it.
pub proof fn law_handle_is_kept(
    state: State,
    transport: Transport,
    call: CallView,
    response: ResponseView,
)
    requires
        state.native_acquired,
    ensures
        begin(state.native_acquired, transport, call).0.native_acquired,
        begin(state.native_acquired, transport, call).1 != StepView::Perform(
            RequestView::AcquireNative,
        ),
        resume(state, response) matches Some((after, next)) ==> after.native_acquired && next
            != StepView::Perform(RequestView::AcquireNative),
{
}

/// The native handle is asked for only when an operation on the native
/// clipboard begins without it, and a failure to acquire it is not kept: the
/// operation fails as a platform failure, and the next one asks again.
pub proof fn law_handle_is_acquired_lazily(
    state: State,
    transport: Transport,
    call: CallView,
    words: Seq<char>,
)
    requires
        !state.native_acquired,
    ensures
        begin(state.native_acquired, transport, call).1 == StepView::Perform(
            RequestView::AcquireNative,
        ) <==> transport == Transport::Native,
        !begin(state.native_acquired, transport, call).0.native_acquired,
        transport == Transport::Native ==> resume(
            begin(state.native_acquired, transport, call).0,
            ResponseView::Failed(words),
        ) == Some(
            (
                (State { native_acquired: false, stage: Stage::Idle }),
                StepView::Finish(Err(failure(ErrorKind::PlatformFailure, words))),
            ),
        ),
{
}

/// The handle comes to be held in one way only: the host says that it has
/// acquired it, in answer to the facade asking for it. Operations that go
/// over the bridge or the terminal never bring it about.
pub proof fn law_handle_comes_from_acquisition(state: State, response: ResponseView)
    requires
        !state.native_acquired,
    ensures
        resume(state, response) matches Some((after, _)) ==> (after.native_acquired <==> (
        state.stage is Acquiring && response is Done)),
{
}

/// Whether a request is for the native clipboard itself, which takes the
/// handle.
pub open spec fn uses_native_handle(request: RequestView) -> bool {
    request is NativeSetText || request is NativeGetText || request is NativeGetImage
        || request is NativeSetImage
}

/// The host is asked to use the native clipboard only while it holds the
/// handle: when such a request goes out, the handle has been acquired.
pub proof fn law_native_requests_have_the_handle(
    state: State,
    transport: Transport,
    call: CallView,
    response: ResponseView,
)
    ensures
        begin(state.native_acquired, transport, call).1 matches StepView::Perform(request) ==> (
        uses_native_handle(request) ==> state.native_acquired),
        resume(state, response) matches Some((after, StepView::Perform(request))) ==> (
        uses_native_handle(request) ==> after.native_acquired),
{
}

/// How many requests, at most, still go to the host before the operation in
/// flight is over.
pub open spec fn requests_left(stage: Stage) -> nat {
    match stage {
        Stage::Idle => 0,
        Stage::Acquiring(_) => 2,
        Stage::Native(_) => 1,
        Stage::Spawning(_) => 4,
        Stage::Opening(_) => 3,
        Stage::Writing => 2,
        Stage::Waiting => 1,
        Stage::Reading => 1,
        Stage::Emitting => 1,
    }
}

/// Every operation comes to its end: no operation asks the host for more
/// than four things, each answer that fits brings the end nearer, and the
/// facade is idle exactly when it has handed out a result.
pub proof fn law_operations_end(
    state: State,
    transport: Transport,
    call: CallView,
    response: ResponseView,
)
    ensures
        requests_left(begin(state.native_acquired, transport, call).0.stage) <= 4,
        begin(state.native_acquired, transport, call).1 is Finish <==> begin(
            state.native_acquired,
            transport,
            call,
        ).0.stage is Idle,
        resume(state, response) matches Some((after, next)) ==> requests_left(after.stage)
            < requests_left(state.stage) && (next is Finish <==> after.stage is Idle),
{
}

/// A failure of the host ends the operation at once: the facade asks for
/// nothing more, tries nothing again, and hands the failure to the caller
/// with the words of the host in its message.
pub proof fn law_failures_end_the_operation(state: State, words: Seq<char>)
    ensures
        resume(state, ResponseView::Failed(words)) matches Some((after, next)) ==> after.stage
            is Idle && next is Finish && next->Finish_0 is Err,
        resume(state, ResponseView::Failed(words)) matches Some(
            (_, StepView::Finish(Err(error))),
        ) ==> error.message == words || error.message
            == "Could not wait for clip.exe, reason: "@ + words,
{
}

/// The facade stays well formed: it never waits for an answer of the native
/// clipboard without the handle.
pub proof fn law_well_formed_is_kept(
    state: State,
    transport: Transport,
    call: CallView,
    response: ResponseView,
)
    requires
        state.well_formed(),
    ensures
        begin(state.native_acquired, transport, call).0.well_formed(),
        resume(state, response) matches Some((after, _)) ==> after.well_formed(),
{
}

} // verus!
