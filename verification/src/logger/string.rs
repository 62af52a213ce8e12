use vstd::prelude::*;

use crate::logger::logger::{entries_view, highlighted, kept_entries, log, Entry, Highlight};

verus! {

/// Records a message in a log under one of the highlights, and gives back the message and
/// the highlighted line to show for it.
pub trait Logger {
    fn info(&self, entries: &mut Vec<Entry>) -> (String, String);

    fn success(&self, entries: &mut Vec<Entry>) -> (String, String);

    fn warning(&self, entries: &mut Vec<Entry>) -> (String, String);

    fn error(&self, entries: &mut Vec<Entry>) -> (String, String);
}

impl Logger for &str {
    fn info(&self, entries: &mut Vec<Entry>) -> (res: (String, String))
        ensures
            res.0@ == self@,
            res.1@ == highlighted(self@, Highlight::INFO),
            entries_view(final(entries)@) == seq![(self@, Highlight::INFO)] + kept_entries(
                entries_view(old(entries)@),
            ),
    {
        let line = log(entries, self, Highlight::INFO);
        (String::from_str(self), line)
    }

    fn success(&self, entries: &mut Vec<Entry>) -> (res: (String, String))
        ensures
            res.0@ == self@,
            res.1@ == highlighted(self@, Highlight::SUCCESS),
            entries_view(final(entries)@) == seq![(self@, Highlight::SUCCESS)] + kept_entries(
                entries_view(old(entries)@),
            ),
    {
        let line = log(entries, self, Highlight::SUCCESS);
        (String::from_str(self), line)
    }

    fn warning(&self, entries: &mut Vec<Entry>) -> (res: (String, String))
        ensures
            res.0@ == self@,
            res.1@ == highlighted(self@, Highlight::WARNING),
            entries_view(final(entries)@) == seq![(self@, Highlight::WARNING)] + kept_entries(
                entries_view(old(entries)@),
            ),
    {
        let line = log(entries, self, Highlight::WARNING);
        (String::from_str(self), line)
    }

    fn error(&self, entries: &mut Vec<Entry>) -> (res: (String, String))
        ensures
            res.0@ == self@,
            res.1@ == highlighted(self@, Highlight::ERROR),
            entries_view(final(entries)@) == seq![(self@, Highlight::ERROR)] + kept_entries(
                entries_view(old(entries)@),
            ),
    {
        let line = log(entries, self, Highlight::ERROR);
        (String::from_str(self), line)
    }
}

impl Logger for String {
    fn info(&self, entries: &mut Vec<Entry>) -> (res: (String, String))
        ensures
            res.0@ == self@,
            res.1@ == highlighted(self@, Highlight::INFO),
            entries_view(final(entries)@) == seq![(self@, Highlight::INFO)] + kept_entries(
                entries_view(old(entries)@),
            ),
    {
        let line = log(entries, self.as_str(), Highlight::INFO);
        (self.clone(), line)
    }

    fn success(&self, entries: &mut Vec<Entry>) -> (res: (String, String))
        ensures
            res.0@ == self@,
            res.1@ == highlighted(self@, Highlight::SUCCESS),
            entries_view(final(entries)@) == seq![(self@, Highlight::SUCCESS)] + kept_entries(
                entries_view(old(entries)@),
            ),
    {
        let line = log(entries, self.as_str(), Highlight::SUCCESS);
        (self.clone(), line)
    }

    fn warning(&self, entries: &mut Vec<Entry>) -> (res: (String, String))
        ensures
            res.0@ == self@,
            res.1@ == highlighted(self@, Highlight::WARNING),
            entries_view(final(entries)@) == seq![(self@, Highlight::WARNING)] + kept_entries(
                entries_view(old(entries)@),
            ),
    {
        let line = log(entries, self.as_str(), Highlight::WARNING);
        (self.clone(), line)
    }

    fn error(&self, entries: &mut Vec<Entry>) -> (res: (String, String))
        ensures
            res.0@ == self@,
            res.1@ == highlighted(self@, Highlight::ERROR),
            entries_view(final(entries)@) == seq![(self@, Highlight::ERROR)] + kept_entries(
                entries_view(old(entries)@),
            ),
    {
        let line = log(entries, self.as_str(), Highlight::ERROR);
        (self.clone(), line)
    }
}

} // verus!
