//! The JSON log of dynamically resolved symbols.
//!
//! The log is one JSON object with the array `loaded_symbols`. Its opening
//! is written before the first entry, every entry ends with a comma and a
//! newline, and closing the log goes back over the last comma and newline
//! before it writes the end of the array and of the object.

use crate::text::RawName;
use vstd::prelude::*;
use vstd::string::StringExecFns;

verus! {

/// The opening of the log.
pub open spec fn header_text() -> Seq<char> {
    "{\n \"loaded_symbols\": [\n"@
}

/// The end of the log.
pub open spec fn footer_text() -> Seq<char> {
    "\n  ]\n}\n"@
}

/// The text written for a symbol name.
pub open spec fn symbol_text(symbol: RawName) -> Seq<char> {
    symbol.spec_or_label("<null>", "<invalid>")@
}

/// The text written for the name of the library that a symbol came from.
pub open spec fn library_text(library: RawName) -> Seq<char> {
    library.spec_or_label("<unknown>", "<invalid>")@
}

/// The entry for `symbol`, found in `library`.
pub open spec fn entry_text(symbol: Seq<char>, library: Seq<char>) -> Seq<char> {
    "    { \"symbol\": \""@ + symbol + "\", \"library\": \""@ + library + "\" },\n"@
}

/// The entry for `symbol`, found in `library`, without the comma and the
/// newline that end it.
pub open spec fn last_entry_text(symbol: Seq<char>, library: Seq<char>) -> Seq<char> {
    "    { \"symbol\": \""@ + symbol + "\", \"library\": \""@ + library + "\" }"@
}

/// The text of a log file after it was closed: what had been written, less
/// its last two characters, and the end of the log.
pub open spec fn closed_text(written: Seq<char>) -> Seq<char> {
    written.subrange(0, written.len() - 2) + footer_text()
}

/// Closing a log whose last entry is for `symbol` and `library` leaves that
/// entry without its comma, followed by the end of the log; what was
/// written before the entry stays as it was.
pub proof fn lemma_close_erases_last_comma(
    before: Seq<char>,
    symbol: Seq<char>,
    library: Seq<char>,
)
    ensures
        closed_text(before + entry_text(symbol, library)) == before + last_entry_text(
            symbol,
            library,
        ) + footer_text(),
{
    reveal_strlit("\" },\n");
    reveal_strlit("\" }");
    let tail = "\" },\n"@;
    let head = "    { \"symbol\": \""@ + symbol + "\", \"library\": \""@ + library;
    let written = before + entry_text(symbol, library);
    assert(tail.subrange(0, tail.len() - 2) =~= "\" }"@);
    assert(written =~= before + head + tail);
    assert(written.subrange(0, written.len() - 2) =~= before + head + tail.subrange(
        0,
        tail.len() - 2,
    ));
    assert(before + head + "\" }"@ =~= before + last_entry_text(symbol, library));
}

/// Whether the opening of the log has been written.
pub struct DlsymLog {
    started: bool,
}

/// What closing the log does to the file: go back `rewind` bytes from the
/// end, then write `text`.
pub struct DlsymFlush {
    pub rewind: usize,
    pub text: &'static str,
}

impl DlsymLog {
    /// The opening of the log has been written.
    pub closed spec fn started(&self) -> bool {
        self.started
    }

    /// A log to which nothing has been written.
    pub fn new() -> (log: DlsymLog)
        ensures
            !log.started(),
    {
        DlsymLog { started: false }
    }

    /// Tells whether the opening of the log has been written.
    pub fn is_started(&self) -> (r: bool)
        ensures
            r == self.started(),
    {
        self.started
    }
}

/// Records that `symbol` was resolved and found in `library`. Returns the
/// text to append to the log file: the entry, after the opening of the log
/// on the first call.
pub fn resolve_dlsym(log: &mut DlsymLog, symbol: RawName, library: RawName) -> (out: String)
    ensures
        final(log).started(),
        out@ == if old(log).started() {
            entry_text(symbol_text(symbol), library_text(library))
        } else {
            header_text() + entry_text(symbol_text(symbol), library_text(library))
        },
{
    let mut out = if log.started {
        String::from_str("")
    } else {
        String::from_str("{\n \"loaded_symbols\": [\n")
    };
    proof {
        reveal_strlit("");
    }
    out.append("    { \"symbol\": \"");
    out.append(symbol.or_label("<null>", "<invalid>"));
    out.append("\", \"library\": \"");
    out.append(library.or_label("<unknown>", "<invalid>"));
    out.append("\" },\n");
    log.started = true;
    assert(out@ =~= if old(log).started() {
        entry_text(symbol_text(symbol), library_text(library))
    } else {
        header_text() + entry_text(symbol_text(symbol), library_text(library))
    });
    out
}

/// Closes the log: the file goes back over the comma and the newline that
/// end the last entry, and takes the end of the array and of the object.
pub fn flush_dlsym_log(log: &DlsymLog) -> (step: DlsymFlush)
    ensures
        step.rewind == 2,
        step.text@ == footer_text(),
{
    DlsymFlush { rewind: 2, text: "\n  ]\n}\n" }
}

} // verus!
