//! The host's structured log: an append-only sequence of records, each
//! classified by the kind of event it reports. Script output and script
//! errors are captured here; nothing in the plugin machinery panics or
//! aborts on a script fault.

use vstd::prelude::*;
use vstd::string::*;

verus! {

/// What a log record reports.
#[derive(Clone, Copy, PartialEq, Eq, Structural, Debug)]
pub enum LogKind {
    /// Output of the script-facing `print` bridge function.
    Print,
    /// The plugin's source file could not be read.
    SourceReadError,
    /// The plugin's top-level chunk failed to compile or run.
    ScriptCompileError,
    /// A host bridge function could not be installed into the session.
    BridgeInstallError,
    /// A script hook or callback was present but raised an error when called.
    HookInvocationError,
    /// The per-frame draw call failed; the plugin is unloaded in response.
    FrameRenderError,
}

/// One log entry: its kind and its message text.
#[derive(Debug)]
pub struct LogRecord {
    pub kind: LogKind,
    pub message: String,
}

/// An append-only buffer of log records, drained by the host once per frame.
#[derive(Debug)]
pub struct LogBuffer {
    records: Vec<LogRecord>,
}

/// The concatenation of a sequence of strings, in order.
pub open spec fn concat_parts(parts: Seq<Seq<char>>) -> Seq<char>
    decreases parts.len(),
{
    if parts.len() == 0 {
        Seq::empty()
    } else {
        concat_parts(parts.drop_last()) + parts.last()
    }
}

/// The text of a record sequence: each message, newline-terminated.
pub open spec fn rendered(s: Seq<LogRecord>) -> Seq<char>
    decreases s.len(),
{
    if s.len() == 0 {
        Seq::empty()
    } else {
        rendered(s.drop_last()) + s.last().message@ + seq!['\n']
    }
}

impl View for LogBuffer {
    type V = Seq<LogRecord>;

    closed spec fn view(&self) -> Seq<LogRecord> {
        self.records@
    }
}

impl LogBuffer {
    /// An empty log.
    pub fn new() -> (r: LogBuffer)
        ensures
            r@ == Seq::<LogRecord>::empty(),
    {
        LogBuffer { records: Vec::new() }
    }

    pub fn len(&self) -> (n: usize)
        ensures
            n == self@.len(),
    {
        self.records.len()
    }

    pub fn record_at(&self, i: usize) -> (r: &LogRecord)
        requires
            i < self@.len(),
        ensures
            *r == self@[i as int],
    {
        &self.records[i]
    }

    /// Appends one record; everything already logged stays in place.
    pub fn append(&mut self, kind: LogKind, message: String)
        ensures
            final(self)@ == old(self)@.push(LogRecord { kind, message }),
    {
        self.records.push(LogRecord { kind, message });
    }

    /// Appends one `Print` record whose message is the concatenation of
    /// `parts`, as the script-facing `print` bridge produces it.
    pub fn append_print(&mut self, parts: &Vec<String>)
        ensures
            final(self)@.len() == old(self)@.len() + 1,
            final(self)@.drop_last() == old(self)@,
            final(self)@.last().kind == LogKind::Print,
            final(self)@.last().message@ == concat_parts(
                parts@.map_values(|s: String| s@),
            ),
    {
        let message = joined_parts(parts);
        let ghost pre = self.records@;
        self.records.push(LogRecord { kind: LogKind::Print, message });
        proof {
            assert(self.records@.drop_last() == pre);
        }
    }

    /// Removes and returns every record, leaving the buffer empty.
    pub fn drain(&mut self) -> (out: Vec<LogRecord>)
        ensures
            out@ == old(self)@,
            final(self)@ == Seq::<LogRecord>::empty(),
    {
        let mut taken: Vec<LogRecord> = Vec::new();
        core::mem::swap(&mut taken, &mut self.records);
        proof {
            assert(self.records@ == Seq::<LogRecord>::empty());
        }
        taken
    }

    /// Appends a batch of records taken from another buffer.
    pub fn extend_from(&mut self, records: Vec<LogRecord>)
        ensures
            final(self)@ == old(self)@ + records@,
    {
        let mut tail = records;
        self.records.append(&mut tail);
    }

    /// The whole buffer as display text, one newline-terminated line per
    /// record.
    pub fn render_text(&self) -> (r: String)
        ensures
            r@ == rendered(self@),
    {
        let mut r = String::new();
        let n = self.records.len();
        for i in 0..n
            invariant
                n == self.records@.len(),
                r@ == rendered(self.records@.take(i as int)),
        {
            proof {
                reveal_strlit("\n");
                let taken = self.records@.take(i + 1);
                assert(taken.drop_last() == self.records@.take(i as int));
                assert(taken.last() == self.records@[i as int]);
            }
            r.append(self.records[i].message.as_str());
            r.append("\n");
        }
        proof {
            assert(self.records@.take(n as int) == self.records@);
        }
        r
    }
}

/// The concatenation of `parts`, in order, as one string.
pub fn joined_parts(parts: &Vec<String>) -> (r: String)
    ensures
        r@ == concat_parts(parts@.map_values(|s: String| s@)),
{
    let mut r = String::new();
    let n = parts.len();
    for i in 0..n
        invariant
            n == parts@.len(),
            r@ == concat_parts(parts@.take(i as int).map_values(|s: String| s@)),
    {
        proof {
            let views = parts@.map_values(|s: String| s@);
            assert(parts@.take(i + 1).map_values(|s: String| s@) == views.take(i + 1));
            assert(parts@.take(i as int).map_values(|s: String| s@) == views.take(i as int));
            assert(views.take(i + 1).drop_last() == views.take(i as int));
            assert(views.take(i + 1).last() == parts@[i as int]@);
        }
        r.append(parts[i].as_str());
    }
    proof {
        assert(parts@.take(n as int) == parts@);
    }
    r
}

} // verus!
