//! The log messages a cycle produces, with their exact text.

use vstd::prelude::*;
use crate::commands::spec_https_url;
use crate::commands::https_url;
use crate::decimal::push_decimal;
use crate::decimal::spec_decimal;

verus! {

/// Which logger operation a message is handed to.
#[derive(Clone, Copy, Debug, PartialEq, Eq, Structural)]
pub enum LogLevel {
    /// An ordinary progress line, written to standard output.
    Output,
    /// A warning line, written to standard error.
    Warning,
    /// An error line, written to standard error.
    Error,
}

/// One message handed to the logger by the uploader loop.
#[derive(Debug)]
pub struct Message {
    /// The logger operation this message goes to.
    pub level: LogLevel,
    /// The message text, fully formatted.
    pub text: String,
}

/// A message as a mathematical value: its level and its text.
pub open spec fn message_view(m: Message) -> (LogLevel, Seq<char>) {
    (m.level, m.text@)
}

/// A message list as a mathematical value, in order.
pub open spec fn messages_view(ms: Seq<Message>) -> Seq<(LogLevel, Seq<char>)> {
    ms.map_values(|m: Message| message_view(m))
}

/// The error text logged when the capture collaborator fails.
pub open spec fn spec_capture_failed_text() -> Seq<char> {
    "Unable to generate snapshot"@
}

/// The error text logged when the upload collaborator fails.
pub open spec fn spec_upload_failed_text() -> Seq<char> {
    "Unable to upload snapshot"@
}

/// The text logged after a successful capture: the snapshot path and its
/// byte size.
pub open spec fn spec_captured_text(path: Seq<char>, bytes: u64) -> Seq<char> {
    "Captured file '"@ + path + "' ("@ + spec_decimal(bytes as nat) + " bytes)"@
}

/// The text logged after a successful upload, naming the endpoint.
pub open spec fn spec_uploaded_text() -> Seq<char> {
    "Successfully uploaded to '"@ + spec_https_url() + "'"@
}

/// The text logged at the end of a fully successful cycle.
pub open spec fn spec_waiting_text(seconds: u64) -> Seq<char> {
    "Waiting "@ + spec_decimal(seconds as nat) + " seconds..."@
}

/// Builds the capture-failure error message.
pub fn capture_failed_message() -> (r: Message)
    ensures
        message_view(r) == (LogLevel::Error, spec_capture_failed_text()),
{
    Message { level: LogLevel::Error, text: String::from_str("Unable to generate snapshot") }
}

/// Builds the upload-failure error message.
pub fn upload_failed_message() -> (r: Message)
    ensures
        message_view(r) == (LogLevel::Error, spec_upload_failed_text()),
{
    Message { level: LogLevel::Error, text: String::from_str("Unable to upload snapshot") }
}

/// Builds the captured-file message for a snapshot path and byte size.
pub fn captured_message(path: &str, bytes: u64) -> (r: Message)
    ensures
        message_view(r) == (LogLevel::Output, spec_captured_text(path@, bytes)),
{
    let mut s = String::from_str("Captured file '");
    s.append(path);
    s.append("' (");
    push_decimal(&mut s, bytes);
    s.append(" bytes)");
    proof {
        assert(s@ =~= spec_captured_text(path@, bytes));
    }
    Message { level: LogLevel::Output, text: s }
}

/// Builds the upload-success message.
pub fn uploaded_message() -> (r: Message)
    ensures
        message_view(r) == (LogLevel::Output, spec_uploaded_text()),
{
    let mut s = String::from_str("Successfully uploaded to '");
    s.append(https_url());
    s.append("'");
    proof {
        assert(s@ =~= spec_uploaded_text());
    }
    Message { level: LogLevel::Output, text: s }
}

/// Builds the waiting message that closes a successful cycle.
pub fn waiting_message(seconds: u64) -> (r: Message)
    ensures
        message_view(r) == (LogLevel::Output, spec_waiting_text(seconds)),
{
    let mut s = String::from_str("Waiting ");
    push_decimal(&mut s, seconds);
    s.append(" seconds...");
    proof {
        assert(s@ =~= spec_waiting_text(seconds));
    }
    Message { level: LogLevel::Output, text: s }
}

/// Builds an ordinary output message from already-formatted text, as used
/// to echo collaborator output in debug mode.
pub fn output_message(text: String) -> (r: Message)
    ensures
        message_view(r) == (LogLevel::Output, text@),
{
    Message { level: LogLevel::Output, text }
}

} // verus!
