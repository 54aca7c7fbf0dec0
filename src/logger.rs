//! The log feed: formatted log lines, a bounded history for late subscribers,
//! and the debug switch.
use vstd::prelude::*;
use crate::text::joined;

verus! {

/// How many recent lines the history keeps.
pub const MAX_HISTORY: usize = 100;

/// The severity of a log line.
#[derive(Clone, Copy, Debug, PartialEq, Eq, Structural)]
pub enum Level {
    Info,
    Success,
    Warn,
    Error,
    Debug,
}

/// The word that names a level in a log line.
pub open spec fn level_word(l: Level) -> Seq<char> {
    match l {
        Level::Info => "INFO"@,
        Level::Success => "SUCCESS"@,
        Level::Warn => "WARN"@,
        Level::Error => "ERROR"@,
        Level::Debug => "DEBUG"@,
    }
}

/// The line broadcast for a log entry: `LEVEL|tag|message`.
pub open spec fn line_spec(level: Seq<char>, tag: Seq<char>, message: Seq<char>) -> Seq<char> {
    level + "|"@ + tag + "|"@ + message
}

/// The history after `line` is added: the oldest line goes once more than
/// `MAX_HISTORY` are held.
pub open spec fn history_after(h: Seq<Seq<char>>, line: Seq<char>) -> Seq<Seq<char>> {
    if h.len() + 1 > MAX_HISTORY {
        h.push(line).drop_first()
    } else {
        h.push(line)
    }
}

/// The texts of a sequence of strings.
pub open spec fn texts(v: Seq<String>) -> Seq<Seq<char>> {
    v.map_values(|s: String| s@)
}

/// The word of a level.
pub fn level_text(l: Level) -> (r: &'static str)
    ensures
        r@ == level_word(l),
{
    match l {
        Level::Info => "INFO",
        Level::Success => "SUCCESS",
        Level::Warn => "WARN",
        Level::Error => "ERROR",
        Level::Debug => "DEBUG",
    }
}

/// Formats a log line: `LEVEL|tag|message`.
pub fn format_line(level: &str, tag: &str, message: &str) -> (r: String)
    ensures
        r@ == line_spec(level@, tag@, message@),
{
    let a = joined(level, "|");
    let b = joined(a.as_str(), tag);
    let c = joined(b.as_str(), "|");
    joined(c.as_str(), message)
}

/// The log feed of the control plane.
pub struct LogHub {
    debug: bool,
    history: Vec<String>,
}

impl LogHub {
    pub closed spec fn debug_enabled(&self) -> bool {
        self.debug
    }

    pub closed spec fn lines(&self) -> Seq<Seq<char>> {
        texts(self.history@)
    }

    pub open spec fn wf(&self) -> bool {
        self.lines().len() <= MAX_HISTORY
    }

    /// A feed with an empty history.
    pub fn new(debug: bool) -> (r: LogHub)
        ensures
            r.wf(),
            r.debug_enabled() == debug,
            r.lines() == Seq::<Seq<char>>::empty(),
    {
        let r = LogHub { debug, history: Vec::new() };
        assert(r.lines() =~= Seq::<Seq<char>>::empty());
        r
    }

    /// Whether debug lines are recorded.
    pub fn is_debug(&self) -> (r: bool)
        ensures
            r == self.debug_enabled(),
    {
        self.debug
    }

    /// The recent lines, oldest first, so that a new subscriber sees what
    /// came before it.
    pub fn get_history(&self) -> (r: Vec<String>)
        ensures
            texts(r@) == self.lines(),
    {
        let mut out: Vec<String> = Vec::new();
        let mut i: usize = 0;
        while i < self.history.len()
            invariant
                i <= self.history@.len(),
                out@.len() == i,
                forall|j: int| 0 <= j < i ==> (#[trigger] out@[j])@ == self.history@[j]@,
            decreases self.history@.len() - i,
        {
            out.push(self.history[i].clone());
            i = i + 1;
        }
        assert(texts(out@) =~= self.lines());
        out
    }

    /// Adds a line to the history and returns it for the live subscribers.
    pub fn broadcast(&mut self, level: &str, tag: &str, message: &str) -> (r: String)
        requires
            old(self).wf(),
        ensures
            final(self).wf(),
            final(self).debug_enabled() == old(self).debug_enabled(),
            r@ == line_spec(level@, tag@, message@),
            final(self).lines() == history_after(old(self).lines(), r@),
    {
        let line = format_line(level, tag, message);
        self.history.push(line.clone());
        if self.history.len() > MAX_HISTORY {
            self.history.remove(0);
        }
        assert(self.lines() =~= history_after(old(self).lines(), line@));
        line
    }

    /// Records a log entry at a level: its line, or `None` for a debug entry
    /// while debug lines are off.
    pub fn log(&mut self, level: Level, tag: &str, message: &str) -> (r: Option<String>)
        requires
            old(self).wf(),
        ensures
            final(self).wf(),
            final(self).debug_enabled() == old(self).debug_enabled(),
            level == Level::Debug && !old(self).debug_enabled() ==> r.is_none() && final(self).lines()
                == old(self).lines(),
            !(level == Level::Debug && !old(self).debug_enabled()) ==> r.is_some() && r.unwrap()@ == line_spec(
                level_word(level),
                tag@,
                message@,
            ) && final(self).lines() == history_after(old(self).lines(), r.unwrap()@),
    {
        if level == Level::Debug && !self.debug {
            return None;
        }
        Some(self.broadcast(level_text(level), tag, message))
    }
}

} // verus!
