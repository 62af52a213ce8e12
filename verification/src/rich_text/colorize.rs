use vstd::prelude::*;

use crate::rich_text::text::{color_text, colored, Color};

verus! {

/// Renders a text in one of the foreground colours, followed by the reset sequence.
pub trait Colorize {
    fn red(&self) -> String;

    fn green(&self) -> String;

    fn blue(&self) -> String;

    fn black(&self) -> String;

    fn white(&self) -> String;

    fn yellow(&self) -> String;

    fn magenta(&self) -> String;

    fn cyan(&self) -> String;
}

impl Colorize for &str {
    fn red(&self) -> (res: String)
        ensures
            res@ == colored(self@, Color::RED),
    {
        color_text(self, Color::RED)
    }

    fn green(&self) -> (res: String)
        ensures
            res@ == colored(self@, Color::GREEN),
    {
        color_text(self, Color::GREEN)
    }

    fn blue(&self) -> (res: String)
        ensures
            res@ == colored(self@, Color::BLUE),
    {
        color_text(self, Color::BLUE)
    }

    fn black(&self) -> (res: String)
        ensures
            res@ == colored(self@, Color::BLACK),
    {
        color_text(self, Color::BLACK)
    }

    fn white(&self) -> (res: String)
        ensures
            res@ == colored(self@, Color::WHITE),
    {
        color_text(self, Color::WHITE)
    }

    fn yellow(&self) -> (res: String)
        ensures
            res@ == colored(self@, Color::YELLOW),
    {
        color_text(self, Color::YELLOW)
    }

    fn magenta(&self) -> (res: String)
        ensures
            res@ == colored(self@, Color::MAGENTA),
    {
        color_text(self, Color::MAGENTA)
    }

    fn cyan(&self) -> (res: String)
        ensures
            res@ == colored(self@, Color::CYAN),
    {
        color_text(self, Color::CYAN)
    }
}

impl Colorize for String {
    fn red(&self) -> (res: String)
        ensures
            res@ == colored(self@, Color::RED),
    {
        color_text(self.as_str(), Color::RED)
    }

    fn green(&self) -> (res: String)
        ensures
            res@ == colored(self@, Color::GREEN),
    {
        color_text(self.as_str(), Color::GREEN)
    }

    fn blue(&self) -> (res: String)
        ensures
            res@ == colored(self@, Color::BLUE),
    {
        color_text(self.as_str(), Color::BLUE)
    }

    fn black(&self) -> (res: String)
        ensures
            res@ == colored(self@, Color::BLACK),
    {
        color_text(self.as_str(), Color::BLACK)
    }

    fn white(&self) -> (res: String)
        ensures
            res@ == colored(self@, Color::WHITE),
    {
        color_text(self.as_str(), Color::WHITE)
    }

    fn yellow(&self) -> (res: String)
        ensures
            res@ == colored(self@, Color::YELLOW),
    {
        color_text(self.as_str(), Color::YELLOW)
    }

    fn magenta(&self) -> (res: String)
        ensures
            res@ == colored(self@, Color::MAGENTA),
    {
        color_text(self.as_str(), Color::MAGENTA)
    }

    fn cyan(&self) -> (res: String)
        ensures
            res@ == colored(self@, Color::CYAN),
    {
        color_text(self.as_str(), Color::CYAN)
    }
}

} // verus!
