//! The Log tab and the file behind its checkbox: the rows the tab keeps, the
//! state of the file, and the lines written to it.

use vstd::prelude::*;
use std::collections::VecDeque;
use crate::text::{append, chars_of, decimal, decimal_string, owned, push_char, text_eq, to_lowercase, unicode_lowercase};
use crate::panel_command::views;
use crate::panel_command_line::{join, join_strings};

verus! {

/// How many rows the tab keeps; the file keeps everything.
pub const LOG_ROWS: usize = 500;

/// One row of the Log tab: the time of day, the level, the message.
#[derive(Debug, Clone)]
pub struct LogRow {
    pub time: String,
    pub level: String,
    pub message: String,
}

/// The last `LOG_ROWS` rows, oldest first.
pub struct LogTail {
    rows: VecDeque<LogRow>,
}

/// The last `n` of `s`, or all of it when it is shorter.
pub open spec fn last_n<A>(s: Seq<A>, n: nat) -> Seq<A> {
    if s.len() <= n {
        s
    } else {
        s.subrange(s.len() - n, s.len() as int)
    }
}

impl LogTail {
    #[verifier::type_invariant]
    spec fn bounded(self) -> bool {
        self.rows@.len() <= LOG_ROWS
    }

    /// The rows kept, oldest first.
    pub closed spec fn rows(&self) -> Seq<LogRow> {
        self.rows@
    }

    /// An empty tab.
    pub fn new() -> (t: Self)
        ensures
            t.rows() == Seq::<LogRow>::empty(),
    {
        LogTail { rows: VecDeque::new() }
    }

    /// A new row at the bottom; the oldest go once there are too many.
    pub fn push(&mut self, row: LogRow)
        ensures
            final(self).rows() == last_n(old(self).rows().push(row), LOG_ROWS as nat),
            final(self).rows().len() <= LOG_ROWS,
    {
        proof {
            use_type_invariant(&*self);
        }
        let mut rows: VecDeque<LogRow> = VecDeque::new();
        std::mem::swap(&mut rows, &mut self.rows);
        let ghost all = rows@.push(row);
        rows.push_back(row);
        assert(rows@ == all);
        if rows.len() > LOG_ROWS {
            rows.pop_front();
            assert(rows@ =~= all.subrange(all.len() - LOG_ROWS as int, all.len() as int));
        }
        self.rows = rows;
    }

    /// How many rows are kept.
    pub fn len(&self) -> (n: usize)
        ensures
            n == self.rows().len(),
    {
        self.rows.len()
    }

    /// The row at `i`, counting from the oldest.
    pub fn get(&self, i: usize) -> (r: Option<&LogRow>)
        ensures
            match r {
                Some(row) => i < self.rows().len() && *row == self.rows()[i as int],
                None => i >= self.rows().len(),
            },
    {
        if i < self.rows.len() {
            Some(&self.rows[i])
        } else {
            None
        }
    }

    /// Clearing the tab.
    pub fn clear(&mut self)
        ensures
            final(self).rows() == Seq::<LogRow>::empty(),
    {
        self.rows = VecDeque::new();
    }
}

/// A row as it is copied: time, level and message.
pub open spec fn row_line(r: LogRow) -> Seq<char> {
    r.time@ + seq![' '] + r.level@ + seq![' '] + r.message@
}

/// The rows the Log tab shows under `filter`: all of them, or those whose
/// level, lower-cased, is the filter.
pub open spec fn shown_lines(rows: Seq<LogRow>, filter: Seq<char>) -> Seq<Seq<char>>
    decreases rows.len(),
{
    if rows.len() == 0 {
        Seq::empty()
    } else if filter == "all"@ || unicode_lowercase(rows.last().level@) == filter {
        shown_lines(rows.drop_last(), filter).push(row_line(rows.last()))
    } else {
        shown_lines(rows.drop_last(), filter)
    }
}

impl LogTail {
    /// What "Kopyala" puts on the clipboard: the rows the filter shows, one
    /// a line; and how many there are.
    pub fn copy_text(&self, filter: &str) -> (r: (String, usize))
        ensures
            r.0@ == join(shown_lines(self.rows(), filter@), '\n'),
            r.1 == shown_lines(self.rows(), filter@).len(),
    {
        let all = text_eq(filter, "all");
        let mut lines: Vec<String> = Vec::new();
        let mut i: usize = 0;
        while i < self.rows.len()
            invariant
                i <= self.rows@.len(),
                all == (filter@ == "all"@),
                views(lines@) == shown_lines(self.rows@.subrange(0, i as int), filter@),
            decreases self.rows.len() - i,
        {
            assert(self.rows@.subrange(0, i + 1).drop_last() =~= self.rows@.subrange(0, i as int));
            let row = &self.rows[i];
            let lower = to_lowercase(row.level.as_str());
            if all || text_eq(lower.as_str(), filter) {
                let mut line = owned(row.time.as_str());
                push_char(&mut line, ' ');
                append(&mut line, row.level.as_str());
                push_char(&mut line, ' ');
                append(&mut line, row.message.as_str());
                assert(*row == self.rows@[i as int]);
                assert(line@ =~= row_line(*row));
                let ghost before = views(lines@);
                lines.push(line);
                assert(views(lines@) =~= before.push(row_line(self.rows@[i as int])));
            }
            i = i + 1;
        }
        assert(self.rows@.subrange(0, self.rows@.len() as int) =~= self.rows@);
        let n = lines.len();
        (join_strings(lines.as_slice(), '\n'), n)
    }
}

/// What the log says after a copy.
pub open spec fn copy_message_spec(n: nat, filter: Seq<char>) -> Seq<char> {
    decimal(n) + " satır panoya kopyalandı"@
        + (if filter == "all"@ { Seq::empty() } else { " ("@ + filter + " süzgeci)"@ }) + "."@
}

/// See `copy_message_spec`.
pub fn copy_message(n: usize, filter: &str) -> (r: String)
    ensures
        r@ == copy_message_spec(n as nat, filter@),
{
    let mut s = decimal_string(n as u64);
    append(&mut s, " satır panoya kopyalandı");
    if !text_eq(filter, "all") {
        append(&mut s, " (");
        append(&mut s, filter);
        append(&mut s, " süzgeci)");
    }
    append(&mut s, ".");
    s
}

/// However many rows arrive, the tab holds the newest ones and never more
/// than `LOG_ROWS`: pushing onto the kept rows keeps the same rows as
/// pushing onto everything would.
pub proof fn the_tab_keeps_the_newest_rows(everything: Seq<LogRow>, kept: Seq<LogRow>, row: LogRow)
    requires
        kept == last_n(everything, LOG_ROWS as nat),
    ensures
        last_n(kept.push(row), LOG_ROWS as nat) == last_n(everything.push(row), LOG_ROWS as nat),
        last_n(everything.push(row), LOG_ROWS as nat).len() <= LOG_ROWS,
{
    let n = LOG_ROWS as int;
    if everything.len() > n {
        let e = everything.push(row);
        let k = kept.push(row);
        assert(k.len() == n + 1);
        assert(k.subrange(k.len() - n, k.len() as int) =~= e.subrange(e.len() - n, e.len() as int));
    }
}

/// What the file behind "Günlüğü diske yaz" is doing.
#[derive(Debug, Clone, Copy, PartialEq, Eq, Structural)]
pub struct DiskLog {
    /// A handle is held open.
    pub open: bool,
    /// Opening it failed; nothing is tried again until the setting is
    /// switched off and on.
    pub failed: bool,
}

/// What to do with the file for one line.
#[derive(Debug, Clone, Copy, PartialEq, Eq, Structural)]
pub enum DiskAction {
    /// The setting is off: the handle is let go.
    Close,
    /// Nothing: the file could not be opened.
    Skip,
    /// Open the file, write the header, then the line.
    Open,
    /// Write the line.
    Write,
}

/// One line's worth of the file's state machine, given whether the setting
/// is on.
pub open spec fn disk_step_spec(d: DiskLog, enabled: bool) -> (DiskLog, DiskAction) {
    if !enabled {
        (DiskLog { open: false, failed: false }, DiskAction::Close)
    } else if d.failed {
        (d, DiskAction::Skip)
    } else if !d.open {
        (d, DiskAction::Open)
    } else {
        (d, DiskAction::Write)
    }
}

/// See `disk_step_spec`.
pub fn disk_step(d: DiskLog, enabled: bool) -> (r: (DiskLog, DiskAction))
    ensures
        r == disk_step_spec(d, enabled),
{
    if !enabled {
        (DiskLog { open: false, failed: false }, DiskAction::Close)
    } else if d.failed {
        (d, DiskAction::Skip)
    } else if !d.open {
        (d, DiskAction::Open)
    } else {
        (d, DiskAction::Write)
    }
}

/// How an attempt to open the file came out.
pub fn disk_opened(d: DiskLog, ok: bool) -> (r: DiskLog)
    ensures
        r == (if ok { DiskLog { open: true, failed: false } } else { DiskLog { open: false, failed: true } }),
{
    if ok {
        DiskLog { open: true, failed: false }
    } else {
        DiskLog { open: false, failed: true }
    }
}

/// A failed open is not retried on every line, but switching the setting
/// off and on again tries once more.
pub proof fn a_failed_file_waits_for_the_switch(d: DiskLog)
    requires
        d.failed,
    ensures
        disk_step_spec(d, true).1 == DiskAction::Skip,
        disk_step_spec(disk_step_spec(d, false).0, true).1 == DiskAction::Open,
{
}

/// `s` padded with spaces to `width`, as `{:<width}` writes it.
pub open spec fn pad_right(s: Seq<char>, width: nat) -> Seq<char>
    decreases width,
{
    if s.len() >= width {
        s
    } else {
        pad_right(s, (width - 1) as nat).push(' ')
    }
}

proof fn lemma_pad_right(s: Seq<char>, width: nat)
    ensures
        pad_right(s, width) == s + Seq::new(if s.len() >= width { 0 } else { (width - s.len()) as nat }, |i: int| ' '),
    decreases width,
{
    if s.len() < width {
        lemma_pad_right(s, (width - 1) as nat);
        let k = (width - 1 - s.len()) as nat;
        assert(s + Seq::new((k + 1) as nat, |i: int| ' ') =~= (s + Seq::new(k, |i: int| ' ')).push(' '));
    } else {
        assert(s + Seq::new(0, |i: int| ' ') =~= s);
    }
}

/// A line of the file: the full stamp, the level in five columns, the
/// message.
pub open spec fn disk_line_spec(stamp: Seq<char>, level: Seq<char>, message: Seq<char>) -> Seq<char> {
    stamp + seq![' '] + pad_right(level, 5) + seq![' '] + message
}

/// See `disk_line_spec`.
pub fn disk_line(stamp: &str, level: &str, message: &str) -> (r: String)
    ensures
        r@ == disk_line_spec(stamp@, level@, message@),
{
    let mut s = owned(stamp);
    push_char(&mut s, ' ');
    let ghost before = s@;
    append(&mut s, level);
    let n = chars_of(level).len();
    let mut k = n;
    proof {
        lemma_pad_right(level@, 5);
    }
    while k < 5
        invariant
            n == level@.len(),
            n <= k <= 5 || (n > 5 && k == n),
            s@ == before + level@ + Seq::new((k - n) as nat, |i: int| ' '),
        decreases 5 - k,
    {
        push_char(&mut s, ' ');
        assert(before + level@ + Seq::new((k + 1 - n) as nat, |i: int| ' ')
            =~= (before + level@ + Seq::new((k - n) as nat, |i: int| ' ')).push(' '));
        k = k + 1;
    }
    assert(s@ =~= before + pad_right(level@, 5));
    push_char(&mut s, ' ');
    append(&mut s, message);
    s
}

/// The line that opens a run of the file, so that days of panels do not
/// read as one session.
pub open spec fn disk_header_spec(version: Seq<char>, stamp: Seq<char>) -> Seq<char> {
    "--- scrcpy-panel "@ + version + " — "@ + stamp + " ---"@
}

/// See `disk_header_spec`.
pub fn disk_header(version: &str, stamp: &str) -> (r: String)
    ensures
        r@ == disk_header_spec(version@, stamp@),
{
    let mut s = owned("--- scrcpy-panel ");
    append(&mut s, version);
    append(&mut s, " — ");
    append(&mut s, stamp);
    append(&mut s, " ---");
    s
}

} // verus!
