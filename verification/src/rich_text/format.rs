use vstd::prelude::*;

use crate::rich_text::text::{format_text, formatted, Format};

verus! {

/// Renders a text with one of the text attributes, followed by the reset sequence.
pub trait Formatize {
    fn bold(&self) -> String;

    fn italic(&self) -> String;

    fn underline(&self) -> String;

    fn dime(&self) -> String;
}

impl Formatize for &str {
    fn bold(&self) -> (res: String)
        ensures
            res@ == formatted(self@, Format::BOLD),
    {
        format_text(self, Format::BOLD)
    }

    fn italic(&self) -> (res: String)
        ensures
            res@ == formatted(self@, Format::ITALIC),
    {
        format_text(self, Format::ITALIC)
    }

    fn underline(&self) -> (res: String)
        ensures
            res@ == formatted(self@, Format::Underline),
    {
        format_text(self, Format::Underline)
    }

    fn dime(&self) -> (res: String)
        ensures
            res@ == formatted(self@, Format::DIM),
    {
        format_text(self, Format::DIM)
    }
}

impl Formatize for String {
    fn bold(&self) -> (res: String)
        ensures
            res@ == formatted(self@, Format::BOLD),
    {
        format_text(self.as_str(), Format::BOLD)
    }

    fn italic(&self) -> (res: String)
        ensures
            res@ == formatted(self@, Format::ITALIC),
    {
        format_text(self.as_str(), Format::ITALIC)
    }

    fn underline(&self) -> (res: String)
        ensures
            res@ == formatted(self@, Format::Underline),
    {
        format_text(self.as_str(), Format::Underline)
    }

    fn dime(&self) -> (res: String)
        ensures
            res@ == formatted(self@, Format::DIM),
    {
        format_text(self.as_str(), Format::DIM)
    }
}

} // verus!
