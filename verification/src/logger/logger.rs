use vstd::prelude::*;

use crate::rich_text::colorize::Colorize;
use crate::rich_text::text::{colored, Color};
use crate::rich_text::text::{color_seq, reset_seq};

verus! {

/// How a log message is highlighted.
#[derive(Copy, Clone)]
pub enum Highlight {
    INFO,
    SUCCESS,
    WARNING,
    ERROR,
}

/// The most entries the log keeps; -1 means no limit.
pub const MAX_ENTRIES: i32 = -1;

/// The line shown for message `raw` with `highlight`: plain for information, green for
/// success, yellow for a warning, red for an error.
pub open spec fn highlighted(raw: Seq<char>, highlight: Highlight) -> Seq<char> {
    match highlight {
        Highlight::INFO => raw,
        Highlight::SUCCESS => colored(raw, Color::GREEN),
        Highlight::WARNING => colored(raw, Color::YELLOW),
        Highlight::ERROR => colored(raw, Color::RED),
    }
}

/// The entries of a log as (text, highlight) pairs, newest first.
pub open spec fn entries_view(entries: Seq<Entry>) -> Seq<(Seq<char>, Highlight)> {
    entries.map_values(|e: Entry| e@)
}

/// The entries that stay when a new one is added: the oldest one leaves when the log is
/// limited (`MAX_ENTRIES` is not -1) and already holds `MAX_ENTRIES` entries.
pub open spec fn kept_entries(entries: Seq<(Seq<char>, Highlight)>) -> Seq<(Seq<char>, Highlight)> {
    if MAX_ENTRIES != -1 && entries.len() >= MAX_ENTRIES as usize && entries.len() > 0 {
        entries.drop_last()
    } else {
        entries
    }
}

/// Records message `raw` with `highlight` as the newest entry of `entries` (dropping the
/// oldest one when the log is full) and returns the line to show for it.
pub fn log(entries: &mut Vec<Entry>, raw: &str, highlight: Highlight) -> (line: String)
    ensures
        line@ == highlighted(raw@, highlight),
        highlight is INFO ==> line@ == raw@,
        highlight is SUCCESS ==> line@ == seq!['\x1b', '[', '3', '2', 'm'] + raw@ + seq!['\x1b', '[', '0', 'm'],
        highlight is WARNING ==> line@ == seq!['\x1b', '[', '3', '3', 'm'] + raw@ + seq!['\x1b', '[', '0', 'm'],
        highlight is ERROR ==> line@ == seq!['\x1b', '[', '3', '1', 'm'] + raw@ + seq!['\x1b', '[', '0', 'm'],
        entries_view(final(entries)@) == seq![(raw@, highlight)] + kept_entries(
            entries_view(old(entries)@),
        ),
{
    if MAX_ENTRIES != -1 && entries.len() >= MAX_ENTRIES as usize {
        entries.pop();
    }
    let ghost before = entries_view(entries@);
    entries.insert(0, Entry::new(String::from_str(raw), highlight));
    proof {
        assert(entries_view(entries@) =~= seq![(raw@, highlight)] + before);
    }
    match highlight {
        Highlight::INFO => String::from_str(raw),
        Highlight::SUCCESS => raw.green(),
        Highlight::WARNING => raw.yellow(),
        Highlight::ERROR => raw.red(),
    }
}

/// The log keeps every entry: with no limit on its size, adding an entry drops none.
pub proof fn lemma_log_keeps_every_entry(entries: Seq<(Seq<char>, Highlight)>)
    ensures
        kept_entries(entries) == entries,
{
}

/// The line shown for a message, written out: information is the message itself; success
/// is green (`ESC [ 32 m`), a warning yellow (`ESC [ 33 m`) and an error red (`ESC [ 31 m`),
/// each the code, the whole message and the reset (`ESC [ 0 m`), for every message.
pub proof fn lemma_highlighted_lines(raw: Seq<char>)
    ensures
        highlighted(raw, Highlight::INFO) == raw,
        highlighted(raw, Highlight::SUCCESS) == seq!['\x1b', '[', '3', '2', 'm'] + raw + seq!['\x1b', '[', '0', 'm'],
        highlighted(raw, Highlight::WARNING) == seq!['\x1b', '[', '3', '3', 'm'] + raw + seq!['\x1b', '[', '0', 'm'],
        highlighted(raw, Highlight::ERROR) == seq!['\x1b', '[', '3', '1', 'm'] + raw + seq!['\x1b', '[', '0', 'm'],
{
}

/// One entry of the log: a message and its highlight.
pub struct Entry {
    text: String,
    highlight: Highlight,
}

impl View for Entry {
    type V = (Seq<char>, Highlight);

    closed spec fn view(&self) -> (Seq<char>, Highlight) {
        (self.text@, self.highlight)
    }
}

impl Entry {
    /// An entry for message `text` with `highlight`.
    pub fn new(text: String, highlight: Highlight) -> (entry: Self)
        ensures
            entry@ == (text@, highlight),
    {
        Entry { text, highlight }
    }

    /// The message of this entry.
    pub fn text(&self) -> (text: &str)
        ensures
            text@ == self@.0,
    {
        self.text.as_str()
    }

    /// The highlight of this entry.
    pub fn highlight(&self) -> (highlight: Highlight)
        ensures
            highlight == self@.1,
    {
        self.highlight
    }
}

} // verus!
