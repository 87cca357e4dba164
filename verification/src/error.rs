//! Errors of the driver. Per-request failures are turned into an error
//! string and answered to the widget; a disconnect is terminal.

use vstd::prelude::*;

verus! {

/// Why an operation failed.
pub enum Error {
    /// A failure described by a message, answered to the widget verbatim.
    Custom(String),
    /// The transport to the widget is gone; pending work is drained.
    WidgetDisconnected,
    /// The widget answered an outgoing request with an error string.
    WidgetErrorReply(String),
}

/// The error string that a failure is reported with.
pub open spec fn error_message_view(e: Error) -> Seq<char> {
    match e {
        Error::Custom(s) => s@,
        Error::WidgetDisconnected => "Widget disconnected"@,
        Error::WidgetErrorReply(s) => s@,
    }
}

impl Error {
    /// A failure described by the given message.
    pub fn custom(s: &str) -> (r: Error)
        ensures
            (r matches Error::Custom(m) && m@ == s@),
    {
        Error::Custom(s.to_owned())
    }

    /// The error string carried back to the widget.
    pub fn message(self) -> (r: String)
        ensures
            r@ == error_message_view(self),
    {
        match self {
            Error::Custom(s) => s,
            Error::WidgetDisconnected => String::from_str("Widget disconnected"),
            Error::WidgetErrorReply(s) => s,
        }
    }
}

} // verus!
