use vstd::prelude::*;
use vstd::string::StringExecFns;

verus! {

/// The kind of a line in the log; the host renders each kind differently.
#[derive(Clone, Copy, Debug, PartialEq, Eq, Hash, Structural)]
pub enum LogType {
    Info,
    Story,
    Input,
    Error,
}

/// The prefix a rendered line of each kind carries.
pub open spec fn line_prefix(kind: LogType) -> Seq<char> {
    match kind {
        LogType::Info => "INFO: "@,
        LogType::Story => ""@,
        LogType::Input => "> "@,
        LogType::Error => "ERROR: "@,
    }
}

/// The whole log rendered as text: each line is its kind's prefix, its
/// text, and a line break, in insertion order.
pub open spec fn rendered(lines: Seq<(LogType, Seq<char>)>) -> Seq<char>
    decreases lines.len(),
{
    if lines.len() == 0 {
        Seq::<char>::empty()
    } else {
        rendered(lines.drop_last()) + line_prefix(lines.last().0) + lines.last().1 + "\n"@
    }
}

/// An append-only sequence of `(kind, text)` lines, versioned by a counter
/// that grows on every mutation so observers can detect changes cheaply.
pub struct Log {
    lines: Vec<(LogType, String)>,
    version: u64,
}

impl View for Log {
    type V = Seq<(LogType, Seq<char>)>;

    closed spec fn view(&self) -> Seq<(LogType, Seq<char>)> {
        self.lines@.map_values(|line: (LogType, String)| (line.0, line.1@))
    }
}

impl Log {
    /// The version counter: it grows by one on every write and on every clear.
    pub closed spec fn spec_version(&self) -> u64 {
        self.version
    }

    /// A fresh, empty log at version zero.
    pub fn new() -> (log: Log)
        ensures
            log@ == Seq::<(LogType, Seq<char>)>::empty(),
            log.spec_version() == 0,
    {
        let log = Log { lines: Vec::new(), version: 0 };
        proof {
            assert(log@ =~= Seq::<(LogType, Seq<char>)>::empty());
        }
        log
    }

    /// Appends one line of the given kind and bumps the version.
    pub fn write(&mut self, message_type: LogType, message: String)
        requires
            old(self).spec_version() < u64::MAX,
        ensures
            final(self)@ == old(self)@.push((message_type, message@)),
            final(self).spec_version() == old(self).spec_version() + 1,
    {
        let ghost pre = self@;
        let ghost text = message@;
        self.lines.push((message_type, message));
        self.version = self.version + 1;
        proof {
            assert(self@ =~= pre.push((message_type, text)));
        }
    }

    /// Appends one informational line.
    pub fn write_info(&mut self, message: String)
        requires
            old(self).spec_version() < u64::MAX,
        ensures
            final(self)@ == old(self)@.push((LogType::Info, message@)),
            final(self).spec_version() == old(self).spec_version() + 1,
    {
        self.write(LogType::Info, message);
    }

    /// Appends one line of story output.
    pub fn write_story(&mut self, message: String)
        requires
            old(self).spec_version() < u64::MAX,
        ensures
            final(self)@ == old(self)@.push((LogType::Story, message@)),
            final(self).spec_version() == old(self).spec_version() + 1,
    {
        self.write(LogType::Story, message);
    }

    /// Appends one line echoing user input.
    pub fn write_input(&mut self, message: String)
        requires
            old(self).spec_version() < u64::MAX,
        ensures
            final(self)@ == old(self)@.push((LogType::Input, message@)),
            final(self).spec_version() == old(self).spec_version() + 1,
    {
        self.write(LogType::Input, message);
    }

    /// Appends one error line.
    pub fn write_error(&mut self, message: String)
        requires
            old(self).spec_version() < u64::MAX,
        ensures
            final(self)@ == old(self)@.push((LogType::Error, message@)),
            final(self).spec_version() == old(self).spec_version() + 1,
    {
        self.write(LogType::Error, message);
    }

    /// Removes every line and bumps the version.
    pub fn clear(&mut self)
        requires
            old(self).spec_version() < u64::MAX,
        ensures
            final(self)@ == Seq::<(LogType, Seq<char>)>::empty(),
            final(self).spec_version() == old(self).spec_version() + 1,
    {
        self.lines.clear();
        self.version = self.version + 1;
        proof {
            assert(self@ =~= Seq::<(LogType, Seq<char>)>::empty());
        }
    }

    /// The current value of the version counter.
    pub fn current_version(&self) -> (v: u64)
        ensures
            v == self.spec_version(),
    {
        self.version
    }

    /// The number of lines currently held.
    pub fn len(&self) -> (n: usize)
        ensures
            n == self@.len(),
    {
        self.lines.len()
    }

    /// The log as display text, line by line: the prefix of each line's
    /// kind, the line's text, and a line break.
    pub fn render(&self) -> (text: String)
        ensures
            text@ == rendered(self@),
    {
        let mut out = String::new();
        let mut idx: usize = 0;
        while idx < self.lines.len()
            invariant
                idx <= self.lines.len(),
                out@ == rendered(self@.take(idx as int)),
            decreases self.lines.len() - idx,
        {
            let ghost before = self@.take(idx as int);
            let line = &self.lines[idx];
            match line.0 {
                LogType::Info => out.append("INFO: "),
                LogType::Story => out.append(""),
                LogType::Input => out.append("> "),
                LogType::Error => out.append("ERROR: "),
            }
            out.append(line.1.as_str());
            out.append("\n");
            idx = idx + 1;
            proof {
                assert(self@.take(idx as int).drop_last() =~= before);
                assert(self@.take(idx as int).last() == self@[idx - 1]);
                assert(out@ =~= rendered(self@.take(idx as int)));
            }
        }
        proof {
            assert(self@.take(self.lines@.len() as int) =~= self@);
        }
        out
    }

    /// A copy of every line, in insertion order.
    pub fn using_lines(&self) -> (lines: Vec<(LogType, String)>)
        ensures
            lines@.len() == self@.len(),
            forall|i: int|
                0 <= i < lines@.len() ==> (#[trigger] lines@[i]).0 == self@[i].0
                    && lines@[i].1@ == self@[i].1,
    {
        let mut out: Vec<(LogType, String)> = Vec::new();
        let mut idx: usize = 0;
        while idx < self.lines.len()
            invariant
                idx <= self.lines.len(),
                out@.len() == idx,
                forall|i: int|
                    0 <= i < idx ==> (#[trigger] out@[i]).0 == self@[i].0
                        && out@[i].1@ == self@[i].1,
            decreases self.lines.len() - idx,
        {
            let line = &self.lines[idx];
            out.push((line.0, line.1.clone()));
            idx = idx + 1;
        }
        out
    }
}

} // verus!
