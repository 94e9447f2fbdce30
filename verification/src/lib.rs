//! Lazy markdown decoration.
//!
//! A value that can be written out as text is wrapped in a small adaptor
//! (bold, italic, quote, code block, ...). Wrapping does no work; the markup
//! is only produced when the adaptor is rendered. Adaptors nest freely,
//! because every adaptor is itself renderable.

pub mod adaptors;
pub mod laws;
pub mod render;

pub use crate::adaptors::{
    BlockQuote, Bold, Codeblock, CodeblockWith, InlineCodeblock, Italic, Quote, Spoiler,
    Strikethrough, Underscore,
};
pub use crate::render::Render;
use vstd::prelude::*;

verus! {

/// An interface for helping with markdown. Each adaptor is lazy: a method
/// here only wraps its receiver, and no text is produced before the adaptor
/// is rendered.
///
/// Every method states two things of the adaptor it returns: which value it
/// holds, and what it renders to in terms of what the receiver renders to.
pub trait Markdown: Render {
    /// Applies bold markdown to the text.
    fn bold(self) -> (w: Bold<Self>) where Self: Sized
        ensures
            w.inner() == self,
            w.text() == "**"@ + self.text() + "**"@,
    {
        Bold::new(self)
    }

    /// Applies italic markdown to the text.
    fn italic(self) -> (w: Italic<Self>) where Self: Sized
        ensures
            w.inner() == self,
            w.text() == "_"@ + self.text() + "_"@,
    {
        Italic::new(self)
    }

    /// Applies underscoring markdown to the text.
    fn underscore(self) -> (w: Underscore<Self>) where Self: Sized
        ensures
            w.inner() == self,
            w.text() == "__"@ + self.text() + "__"@,
    {
        Underscore::new(self)
    }

    /// Applies strikethrough to the text.
    fn strikethrough(self) -> (w: Strikethrough<Self>) where Self: Sized
        ensures
            w.inner() == self,
            w.text() == "~~"@ + self.text() + "~~"@,
    {
        Strikethrough::new(self)
    }

    /// Quotes the text.
    fn quote(self) -> (w: Quote<Self>) where Self: Sized
        ensures
            w.inner() == self,
            w.text() == "> "@ + self.text(),
    {
        Quote::new(self)
    }

    /// Block-quotes the text.
    fn block_quote(self) -> (w: BlockQuote<Self>) where Self: Sized
        ensures
            w.inner() == self,
            w.text() == ">>> "@ + self.text(),
    {
        BlockQuote::new(self)
    }

    /// Marks the text as a spoiler.
    fn spoiler(self) -> (w: Spoiler<Self>) where Self: Sized
        ensures
            w.inner() == self,
            w.text() == "||"@ + self.text() + "||"@,
    {
        Spoiler::new(self)
    }

    /// Creates a codeblock with no language of the text.
    fn codeblock(self) -> (w: Codeblock<Self>) where Self: Sized
        ensures
            w.inner() == self,
            w.text() == "```\n"@ + self.text() + "```"@,
    {
        Codeblock::new(self)
    }

    /// Creates a codeblock with the provided language of the text.
    fn codeblock_with<Lang: Render>(self, lang: Lang) -> (w: CodeblockWith<Self, Lang>) where
        Self: Sized,

        ensures
            w.inner() == self,
            w.lang() == lang,
            w.text() == "```"@ + lang.text() + "\n"@ + self.text() + "```"@,
    {
        CodeblockWith::new(self, lang)
    }

    /// Creates an inline codeblock of the text.
    fn inline_codeblock(self) -> (w: InlineCodeblock<Self>) where Self: Sized
        ensures
            w.inner() == self,
            w.text() == "`"@ + self.text() + "`"@,
    {
        InlineCodeblock::new(self)
    }
}

impl<T: Render> Markdown for T {
}

} // verus!
