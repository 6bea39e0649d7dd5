//! A host-side core for embedding a web view in a native window.
//!
//! The crate holds every decision such a host has to make: validating a
//! window's configuration, turning page content into a URL, checking the
//! strings handed to the native layer, queueing closures dispatched from
//! other threads, carrying results from handlers to the event loop, and
//! tearing a view down. It performs no native call itself and starts no
//! thread. An operation on a view that needs the platform returns a
//! [`Command`] for the platform adapter to carry out; an enqueue says
//! whether the event loop must be woken; and an operation that depends on
//! what the platform did takes the outcome as an argument. The host keeps
//! the [`DispatchQueue`] behind a lock, runs the handlers and closures, and
//! pumps the loop.

pub mod bridge;
pub mod builder;
pub mod color;
pub mod command;
pub mod content;
pub mod dialog;
pub mod error;
pub mod escape;
pub mod native;
pub mod percent;
pub mod queue;
pub mod strings;
pub mod webview;

pub use bridge::{decode_message, Invocation};
pub use builder::{builder, Launch, WebViewBuilder};
pub use color::Color;
pub use command::{Command, CommandView, WindowSpec};
pub use content::{inline_html, Content, Inline, InlineView, Text, DATA_URL_PREFIX};
pub use dialog::DialogType;
pub use error::{CustomError, Error, ErrorView, WVResult};
pub use escape::escape;
pub use native::NativeString;
pub use queue::{dispatch, DispatchQueue, QueueView};
pub use webview::{
    Flow, FlowView, Lifecycle, Teardown, WebView, WebViewState, CSS_INJECT_FUNCTION,
};
