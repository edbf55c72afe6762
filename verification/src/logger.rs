//! Where a log line goes: to the log file, if it could be opened, and to the
//! debugger, if the line can be handed over as a C string.

use vstd::prelude::*;

verus! {

/// The file to log to: a name, in a directory or in the working directory.
#[derive(Debug, PartialEq, Eq)]
pub struct LogFile<P> {
    pub dir: Option<P>,
    pub name: &'static str,
}

/// The log file lies beside the executable, or in the working directory when the
/// executable's directory is not known.
pub fn log_file<P>(exe_dir: Option<P>) -> (res: LogFile<P>)
    ensures
        res.dir == exe_dir,
        res.name@ == "hook_rebuilt.log"@,
{
    LogFile { dir: exe_dir, name: "hook_rebuilt.log" }
}

/// Bytes to hand to each destination of a line, if it is to get any.
#[derive(Debug, PartialEq, Eq)]
pub struct LogOutput {
    /// Bytes to append to the log file, which is flushed afterwards.
    pub file: Option<Vec<u8>>,
    /// A C string for the debugger.
    pub debugger: Option<Vec<u8>>,
}

/// What the log knows about its destinations.
#[derive(Debug, Clone, Copy, PartialEq, Eq, Structural)]
pub struct Logger {
    /// The log file could be opened.
    pub file: bool,
}

/// The bytes of a line with its end.
pub open spec fn line_bytes(msg: Seq<char>) -> Seq<u8> {
    vstd::utf8::encode_utf8(msg + "\r\n"@)
}

impl LogOutput {
    /// Nobody gets anything.
    pub open spec fn is_silent(self) -> bool {
        self.file is None && self.debugger is None
    }

    /// The file gets the line if there is a file. The debugger gets it with a
    /// closing zero byte if it holds no zero byte itself.
    pub open spec fn carries(self, logger: Logger, msg: Seq<char>) -> bool {
        &&& match self.file {
            Some(bytes) => logger.file && bytes@ == line_bytes(msg),
            None => !logger.file,
        }
        &&& match self.debugger {
            Some(bytes) => !line_bytes(msg).contains(0) && bytes@ == line_bytes(msg).push(0),
            None => line_bytes(msg).contains(0),
        }
    }
}

impl Logger {
    /// A log, given whether its file could be opened for writing. Without a file
    /// only the debugger is written to.
    pub fn new(opened: bool) -> (res: Logger)
        ensures
            res.file == opened,
    {
        Logger { file: opened }
    }

    /// Writes one line.
    pub fn line(&self, msg: &str) -> (res: LogOutput)
        ensures
            res.carries(*self, msg@),
    {
        let mut full = msg.to_owned();
        full.append("\r\n");
        let bytes = full.as_str().as_bytes_vec();
        let debugger = if has_zero(&bytes) {
            None
        } else {
            let mut terminated = full.as_str().as_bytes_vec();
            terminated.push(0);
            Some(terminated)
        };
        let file = if self.file {
            Some(bytes)
        } else {
            None
        };
        LogOutput { file, debugger }
    }
}

fn has_zero(bytes: &Vec<u8>) -> (res: bool)
    ensures
        res == bytes@.contains(0),
{
    let mut i: usize = 0;
    while i < bytes.len()
        invariant
            i <= bytes.len(),
            forall|j: int| 0 <= j < i ==> bytes@[j] != 0,
        decreases bytes.len() - i,
    {
        if bytes[i] == 0 {
            assert(bytes@[i as int] == 0);
            return true;
        }
        i += 1;
    }
    false
}

/// Writes one line, if the log can be had: it cannot while a thread that panicked
/// has left its lock poisoned, and the line is then lost.
pub fn log(logger: Option<&Logger>, msg: &str) -> (res: LogOutput)
    ensures
        match logger {
            Some(l) => res.carries(*l, msg@),
            None => res.is_silent(),
        },
{
    match logger {
        Some(l) => l.line(msg),
        None => LogOutput { file: None, debugger: None },
    }
}

proof fn lemma_scalar_zero_byte(c: char)
    ensures
        vstd::utf8::encode_scalar(c as u32).contains(0) <==> c == '\0',
{
    let v = c as u32;
    let s = vstd::utf8::encode_scalar(v);
    assert(v <= 0x7f ==> (v & 0x7F) as u8 == v) by (bit_vector);
    assert(0xC0u8 | ((v >> 6) & 0x1F) as u8 != 0) by (bit_vector);
    assert(0xE0u8 | ((v >> 12) & 0x0F) as u8 != 0) by (bit_vector);
    assert(0xF0u8 | ((v >> 18) & 0x7) as u8 != 0) by (bit_vector);
    assert(0x80u8 | (v & 0x3F) as u8 != 0) by (bit_vector);
    assert(0x80u8 | ((v >> 6) & 0x3F) as u8 != 0) by (bit_vector);
    assert(0x80u8 | ((v >> 12) & 0x3F) as u8 != 0) by (bit_vector);
    if v == 0 {
        assert(s[0] == 0);
    }
}

proof fn lemma_text_zero_byte(s: Seq<char>)
    ensures
        vstd::utf8::encode_utf8(s).contains(0) <==> s.contains('\0'),
    decreases s.len(),
{
    if s.len() > 0 {
        let head = vstd::utf8::encode_scalar(s[0] as u32);
        let tail = vstd::utf8::encode_utf8(s.drop_first());
        lemma_scalar_zero_byte(s[0]);
        lemma_text_zero_byte(s.drop_first());
        assert(s =~= seq![s[0]] + s.drop_first());
        if head.contains(0) {
            let i = choose|i: int| 0 <= i < head.len() && head[i] == 0;
            assert((head + tail)[i] == 0);
            assert(s[0] == '\0');
        }
        if tail.contains(0) {
            let i = choose|i: int| 0 <= i < tail.len() && tail[i] == 0;
            assert((head + tail)[head.len() + i] == 0);
            let j = choose|j: int| 0 <= j < s.drop_first().len() && s.drop_first()[j] == '\0';
            assert(s[j + 1] == '\0');
        }
        if s.contains('\0') {
            let j = choose|j: int| 0 <= j < s.len() && s[j] == '\0';
            if j > 0 {
                assert(s.drop_first()[j - 1] == '\0');
            }
        }
        if (head + tail).contains(0) {
            let i = choose|i: int| 0 <= i < (head + tail).len() && (head + tail)[i] == 0;
            if i < head.len() {
                assert(head[i] == 0);
            } else {
                assert(tail[i - head.len()] == 0);
            }
        }
    }
}

/// A line reaches the debugger exactly when its message holds no NUL character,
/// whatever becomes of the file.
pub proof fn law_debugger_skips_only_nul(out: LogOutput, logger: Logger, msg: Seq<char>)
    requires
        out.carries(logger, msg),
    ensures
        out.debugger is Some <==> !msg.contains('\0'),
{
    reveal_strlit("\r\n");
    let full = msg + "\r\n"@;
    lemma_text_zero_byte(full);
    if msg.contains('\0') {
        let i = choose|i: int| 0 <= i < msg.len() && msg[i] == '\0';
        assert(full[i] == '\0');
    }
    if full.contains('\0') {
        let i = choose|i: int| 0 <= i < full.len() && full[i] == '\0';
        assert(i < msg.len());
        assert(msg[i] == '\0');
    }
}

/// Where both destinations get a line, they get the same text.
pub proof fn law_destinations_agree(out: LogOutput, logger: Logger, msg: Seq<char>)
    requires
        out.carries(logger, msg),
        out.file is Some,
        out.debugger is Some,
    ensures
        out.debugger->0@ == out.file->0@.push(0),
{
}

/// The bytes of a line decode to the message followed by a line end.
pub proof fn law_line_reads_back(out: LogOutput, logger: Logger, msg: Seq<char>)
    requires
        out.carries(logger, msg),
        out.file is Some,
    ensures
        vstd::utf8::valid_utf8(out.file->0@),
        vstd::utf8::decode_utf8(out.file->0@) == msg + "\r\n"@,
{
    broadcast use {vstd::utf8::encode_utf8_valid_utf8, vstd::utf8::encode_utf8_decode_utf8};

}

} // verus!
