//! Surfacing crashes: Wisplet runs without a console, so a panic or a failed
//! start is written to a crash log and shown in a message box.
use vstd::prelude::*;
use vstd::string::*;
use crate::text::push_decimal;
use crate::utf16::to_wide_nul;

verus! {

/// One crash log entry: `=== unix:<seconds> ===`, the text, then a blank line.
pub open spec fn crash_entry_text(unix_secs: u64, body: Seq<char>) -> Seq<char> {
    "=== unix:"@ + crate::text::decimal(unix_secs as nat) + " ===\n"@ + body + "\n\n"@
}

/// The crash log entry for `body`, written at `unix_secs` seconds since the Unix epoch.
pub fn crash_log_entry(unix_secs: u64, body: &str) -> (r: String)
    ensures
        r@ == crash_entry_text(unix_secs, body@),
{
    let mut r = String::from_str("=== unix:");
    push_decimal(&mut r, unix_secs as u128);
    r.append(" ===\n");
    r.append(body);
    r.append("\n\n");
    r
}

/// Where a panic happened in the source.
pub struct PanicSite {
    pub file: String,
    pub line: u32,
    pub column: u32,
}

/// The text of a panic's location: `file:line:column`, or `<unknown location>`.
pub open spec fn site_text(site: Option<PanicSite>) -> Seq<char> {
    match site {
        Some(s) => s.file@ + ":"@ + crate::text::decimal(s.line as nat) + ":"@
            + crate::text::decimal(s.column as nat),
        None => "<unknown location>"@,
    }
}

/// The text of a panic's payload, or `<unknown panic payload>` when it is not text.
pub open spec fn payload_text(payload: Option<String>) -> Seq<char> {
    match payload {
        Some(p) => p@,
        None => "<unknown panic payload>"@,
    }
}

/// The crash report of a panic, from its location and its payload (when the payload is a
/// string).
pub fn panic_report(site: Option<PanicSite>, payload: Option<String>) -> (r: String)
    ensures
        r@ == "Panic à "@ + site_text(site) + " :\n\n"@ + payload_text(payload),
{
    let mut r = String::from_str("Panic à ");
    match &site {
        Some(s) => {
            r.append(s.file.as_str());
            r.append(":");
            push_decimal(&mut r, s.line as u128);
            r.append(":");
            push_decimal(&mut r, s.column as u128);
        },
        None => {
            r.append("<unknown location>");
        },
    }
    r.append(" :\n\n");
    match &payload {
        Some(p) => {
            r.append(p.as_str());
        },
        None => {
            r.append("<unknown panic payload>");
        },
    }
    r
}

/// The crash report when the application could not start.
pub fn startup_failure_report(err: &str) -> (r: String)
    ensures
        r@ == "Tauri n'a pas pu démarrer :\n\n"@ + err@,
{
    let mut r = String::from_str("Tauri n'a pas pu démarrer :\n\n");
    r.append(err);
    r
}

/// A fatal error message box, as the Win32 API takes it: title and text as NUL-terminated
/// UTF-16.
pub struct FatalDialog {
    pub title: Vec<u16>,
    pub body: Vec<u16>,
}

/// Prepares the fatal error message box with the given title and text.
pub fn show_fatal_dialog(title: &str, body: &str) -> (d: FatalDialog)
    ensures
        d.title@ == crate::utf16::utf16_encode(title@).push(0u16),
        d.body@ == crate::utf16::utf16_encode(body@).push(0u16),
{
    FatalDialog { title: to_wide_nul(title), body: to_wide_nul(body) }
}

} // verus!
