use clipboard_transport::{
    Clipboard, ClipboardError, EnvironmentKind, ImageBuffer, Reply, Request, Response, Step,
};

struct Desk {
    text: Option<String>,
    image: Option<(usize, usize, Vec<u8>)>,
    acquisitions: usize,
}

fn desk() -> Desk {
    Desk { text: None, image: None, acquisitions: 0 }
}

fn answer(desk: &mut Desk, request: Request) -> Response {
    match request {
        Request::AcquireNative => {
            desk.acquisitions += 1;
            Response::Done
        }
        Request::NativeSetText { text } => {
            desk.text = Some(text);
            desk.image = None;
            Response::Done
        }
        Request::NativeGetText => match &desk.text {
            Some(text) => Response::Text(text.clone()),
            None => Response::Failed("no text".to_string()),
        },
        Request::NativeSetImage { image } => {
            desk.image = Some((
                image.width() as usize,
                image.height() as usize,
                image.into_bytes(),
            ));
            desk.text = None;
            Response::Done
        }
        Request::NativeGetImage => match &desk.image {
            Some((width, height, bytes)) => {
                Response::Image { width: *width, height: *height, bytes: bytes.clone() }
            }
            None => Response::Failed("no image".to_string()),
        },
        other => panic!("not a request for the desktop: {:?}", other),
    }
}

fn drive_on(desk: &mut Desk, clipboard: &mut Clipboard, first: Step) -> Result<Reply, ClipboardError> {
    let mut step = first;
    loop {
        match step {
            Step::Finish(result) => return result,
            Step::Perform(request) => {
                let response = answer(desk, request);
                step = match clipboard.resume(response) {
                    Some(next) => next,
                    None => panic!("the desktop gave no answer that fits"),
                };
            }
        }
    }
}

#[test]
fn text_round_trip_on_a_desktop() {
    let mut desk = desk();
    let mut clipboard = Clipboard::new();
    for text in ["hello", "", "  kept as it is \n", "\u{1f600} \u{e9}"] {
        let step = clipboard.set_text(EnvironmentKind::Native, text.to_string());
        assert_eq!(drive_on(&mut desk, &mut clipboard, step), Ok(Reply::Stored));
        let step = clipboard.get_text(EnvironmentKind::Native);
        assert_eq!(drive_on(&mut desk, &mut clipboard, step), Ok(Reply::Text(text.to_string())));
    }
    assert_eq!(desk.acquisitions, 1);
}

#[test]
fn image_round_trip_on_a_desktop() {
    let mut desk = desk();
    let mut clipboard = Clipboard::new();
    let bytes: Vec<u8> = (0..24).collect();
    let step = clipboard.set_image(EnvironmentKind::Native, 3, 2, bytes.clone());
    assert_eq!(drive_on(&mut desk, &mut clipboard, step), Ok(Reply::Stored));
    let step = clipboard.get_image(EnvironmentKind::Native);
    match drive_on(&mut desk, &mut clipboard, step) {
        Ok(Reply::Image(image)) => {
            assert_eq!(image.width(), 3);
            assert_eq!(image.height(), 2);
            assert_eq!(image.into_bytes(), bytes);
        }
        other => panic!("unexpected result {:?}", other),
    }
    assert_eq!(desk.acquisitions, 1);
}

#[test]
fn image_round_trip_from_wsl_and_a_remote_session() {
    let mut desk = desk();
    let mut clipboard = Clipboard::new();
    let bytes = vec![10, 20, 30, 40];
    let step = clipboard.set_image(EnvironmentKind::Wsl, 1, 1, bytes.clone());
    assert_eq!(drive_on(&mut desk, &mut clipboard, step), Ok(Reply::Stored));
    let step = clipboard.get_image(EnvironmentKind::SshRemote);
    assert_eq!(
        drive_on(&mut desk, &mut clipboard, step),
        Ok(Reply::Image(ImageBuffer::new(1, 1, bytes).unwrap()))
    );
}

#[test]
fn reading_an_empty_desktop_is_a_platform_failure() {
    let mut desk = desk();
    let mut clipboard = Clipboard::new();
    let step = clipboard.get_text(EnvironmentKind::Native);
    assert_eq!(
        drive_on(&mut desk, &mut clipboard, step),
        Err(ClipboardError::PlatformFailure("no text".to_string()))
    );
    let step = clipboard.get_image(EnvironmentKind::Native);
    assert_eq!(
        drive_on(&mut desk, &mut clipboard, step),
        Err(ClipboardError::PlatformFailure("no image".to_string()))
    );
    assert_eq!(desk.acquisitions, 1);
}

#[test]
fn mismatched_image_never_reaches_the_desktop() {
    let mut desk = desk();
    let mut clipboard = Clipboard::new();
    let step = clipboard.set_image(EnvironmentKind::Native, 2, 2, vec![0; 17]);
    assert!(matches!(
        drive_on(&mut desk, &mut clipboard, step),
        Err(ClipboardError::PlatformFailure(_))
    ));
    assert_eq!(desk.acquisitions, 0);
    assert!(desk.image.is_none());
}
