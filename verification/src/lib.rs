//! Clipboard access for text and raw RGBA images on native desktops, in WSL
//! sessions and in SSH sessions.
//!
//! The library decides and the host acts. For each operation the library
//! chooses the transport from the environment, tells the host what to do
//! next (ask the native clipboard, run a utility of the Windows host, write
//! an escape sequence to the terminal), and turns what the host saw into the
//! result of the operation or into one of five kinds of failure. It touches
//! no clipboard, process or stream itself, so all of it can be proved and
//! tested without any of them.
//!
//! - [`environment`]: native desktop, WSL or SSH session.
//! - [`routing`]: the transport of each operation in each environment.
//! - [`protocol`]: the requests to the host and its responses.
//! - [`clipboard`]: the facade that runs the operations.
//! - [`model`]: the facade as mathematics, in which its contracts are stated.
//! - [`laws`]: what holds of every run of the facade.
//! - [`text`], [`escape`], [`image`], [`error`]: trimming and decoding, the
//!   OSC 52 sequence, images, failures.

pub mod clipboard;
pub mod environment;
pub mod error;
pub mod escape;
pub mod image;
pub mod laws;
pub mod model;
pub mod protocol;
pub mod routing;
pub mod text;

pub use clipboard::{Call, Clipboard};
pub use environment::{detect, EnvironmentKind, SSH_SESSION_VARIABLE};
pub use error::{ClipboardError, ErrorKind};
pub use image::ImageBuffer;
pub use protocol::{Reply, Request, Response, Step};
pub use routing::{select_transport, Operation, Transport};
