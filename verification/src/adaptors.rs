//! The adaptors: one wrapper type for each kind of markup.
//!
//! Every adaptor owns the value it decorates and does nothing until it is
//! rendered. Its text is the text of the wrapped value with fixed delimiters
//! written around it; nothing inside is escaped or inspected. Since the
//! wrapped value only has to be renderable, it may be another adaptor.

use crate::render::Render;
use vstd::prelude::*;
use vstd::std_specs::cmp::{PartialEqSpec, PartialEqSpecImpl};
use vstd::string::StringExecFns;

verus! {

/// Bold text formatter.
///
/// Renders the wrapped value between `**` and `**`.
#[derive(Debug)]
#[must_use]
pub struct Bold<T>(T);

impl<T> Bold<T> {
    /// The wrapped value.
    pub closed spec fn inner(&self) -> T {
        self.0
    }

    /// Wraps `value`; nothing is rendered yet.
    pub fn new(value: T) -> (w: Self)
        ensures
            w.inner() == value,
    {
        Bold(value)
    }
}

impl<T: Clone> Clone for Bold<T> {
    /// Clones the wrapped value and wraps the clone. Where the clone of the
    /// wrapped value equals it, the new adaptor equals this one.
    fn clone(&self) -> (w: Self)
        ensures
            cloned(self.inner(), w.inner()),
            w.inner() == self.inner() ==> w == *self,
    {
        Bold(self.0.clone())
    }
}

impl<T: PartialEq> PartialEq for Bold<T> {
    /// Compares the wrapped values.
    fn eq(&self, other: &Self) -> (r: bool) {
        self.0 == other.0
    }
}

impl<T: Eq> Eq for Bold<T> {
}

impl<T: PartialEq> PartialEqSpecImpl for Bold<T> {
    open spec fn obeys_eq_spec() -> bool {
        T::obeys_eq_spec()
    }

    open spec fn eq_spec(&self, other: &Self) -> bool {
        self.inner().eq_spec(&other.inner())
    }
}

impl<T: Render> Render for Bold<T> {
    open spec fn text(&self) -> Seq<char> {
        "**"@ + self.inner().text() + "**"@
    }

    fn fmt(&self, out: &mut String) {
        out.append("**");
        self.0.fmt(out);
        out.append("**");
        assert(final(out)@ =~= old(out)@ + self.text());
    }
}

/// Italic text formatter.
///
/// Renders the wrapped value between `_` and `_`.
#[derive(Debug)]
#[must_use]
pub struct Italic<T>(T);

impl<T> Italic<T> {
    /// The wrapped value.
    pub closed spec fn inner(&self) -> T {
        self.0
    }

    /// Wraps `value`; nothing is rendered yet.
    pub fn new(value: T) -> (w: Self)
        ensures
            w.inner() == value,
    {
        Italic(value)
    }
}

impl<T: Clone> Clone for Italic<T> {
    /// Clones the wrapped value and wraps the clone. Where the clone of the
    /// wrapped value equals it, the new adaptor equals this one.
    fn clone(&self) -> (w: Self)
        ensures
            cloned(self.inner(), w.inner()),
            w.inner() == self.inner() ==> w == *self,
    {
        Italic(self.0.clone())
    }
}

impl<T: PartialEq> PartialEq for Italic<T> {
    /// Compares the wrapped values.
    fn eq(&self, other: &Self) -> (r: bool) {
        self.0 == other.0
    }
}

impl<T: Eq> Eq for Italic<T> {
}

impl<T: PartialEq> PartialEqSpecImpl for Italic<T> {
    open spec fn obeys_eq_spec() -> bool {
        T::obeys_eq_spec()
    }

    open spec fn eq_spec(&self, other: &Self) -> bool {
        self.inner().eq_spec(&other.inner())
    }
}

impl<T: Render> Render for Italic<T> {
    open spec fn text(&self) -> Seq<char> {
        "_"@ + self.inner().text() + "_"@
    }

    fn fmt(&self, out: &mut String) {
        out.append("_");
        self.0.fmt(out);
        out.append("_");
        assert(final(out)@ =~= old(out)@ + self.text());
    }
}

/// Underscore text formatter.
///
/// Renders the wrapped value between `__` and `__`.
#[derive(Debug)]
#[must_use]
pub struct Underscore<T>(T);

impl<T> Underscore<T> {
    /// The wrapped value.
    pub closed spec fn inner(&self) -> T {
        self.0
    }

    /// Wraps `value`; nothing is rendered yet.
    pub fn new(value: T) -> (w: Self)
        ensures
            w.inner() == value,
    {
        Underscore(value)
    }
}

impl<T: Clone> Clone for Underscore<T> {
    /// Clones the wrapped value and wraps the clone. Where the clone of the
    /// wrapped value equals it, the new adaptor equals this one.
    fn clone(&self) -> (w: Self)
        ensures
            cloned(self.inner(), w.inner()),
            w.inner() == self.inner() ==> w == *self,
    {
        Underscore(self.0.clone())
    }
}

impl<T: PartialEq> PartialEq for Underscore<T> {
    /// Compares the wrapped values.
    fn eq(&self, other: &Self) -> (r: bool) {
        self.0 == other.0
    }
}

impl<T: Eq> Eq for Underscore<T> {
}

impl<T: PartialEq> PartialEqSpecImpl for Underscore<T> {
    open spec fn obeys_eq_spec() -> bool {
        T::obeys_eq_spec()
    }

    open spec fn eq_spec(&self, other: &Self) -> bool {
        self.inner().eq_spec(&other.inner())
    }
}

impl<T: Render> Render for Underscore<T> {
    open spec fn text(&self) -> Seq<char> {
        "__"@ + self.inner().text() + "__"@
    }

    fn fmt(&self, out: &mut String) {
        out.append("__");
        self.0.fmt(out);
        out.append("__");
        assert(final(out)@ =~= old(out)@ + self.text());
    }
}

/// Strikethrough text formatter.
///
/// Renders the wrapped value between `~~` and `~~`.
#[derive(Debug)]
#[must_use]
pub struct Strikethrough<T>(T);

impl<T> Strikethrough<T> {
    /// The wrapped value.
    pub closed spec fn inner(&self) -> T {
        self.0
    }

    /// Wraps `value`; nothing is rendered yet.
    pub fn new(value: T) -> (w: Self)
        ensures
            w.inner() == value,
    {
        Strikethrough(value)
    }
}

impl<T: Clone> Clone for Strikethrough<T> {
    /// Clones the wrapped value and wraps the clone. Where the clone of the
    /// wrapped value equals it, the new adaptor equals this one.
    fn clone(&self) -> (w: Self)
        ensures
            cloned(self.inner(), w.inner()),
            w.inner() == self.inner() ==> w == *self,
    {
        Strikethrough(self.0.clone())
    }
}

impl<T: PartialEq> PartialEq for Strikethrough<T> {
    /// Compares the wrapped values.
    fn eq(&self, other: &Self) -> (r: bool) {
        self.0 == other.0
    }
}

impl<T: Eq> Eq for Strikethrough<T> {
}

impl<T: PartialEq> PartialEqSpecImpl for Strikethrough<T> {
    open spec fn obeys_eq_spec() -> bool {
        T::obeys_eq_spec()
    }

    open spec fn eq_spec(&self, other: &Self) -> bool {
        self.inner().eq_spec(&other.inner())
    }
}

impl<T: Render> Render for Strikethrough<T> {
    open spec fn text(&self) -> Seq<char> {
        "~~"@ + self.inner().text() + "~~"@
    }

    fn fmt(&self, out: &mut String) {
        out.append("~~");
        self.0.fmt(out);
        out.append("~~");
        assert(final(out)@ =~= old(out)@ + self.text());
    }
}

/// Quote formatter.
///
/// Renders `> ` followed by the wrapped value.
#[derive(Debug)]
#[must_use]
pub struct Quote<T>(T);

impl<T> Quote<T> {
    /// The wrapped value.
    pub closed spec fn inner(&self) -> T {
        self.0
    }

    /// Wraps `value`; nothing is rendered yet.
    pub fn new(value: T) -> (w: Self)
        ensures
            w.inner() == value,
    {
        Quote(value)
    }
}

impl<T: Clone> Clone for Quote<T> {
    /// Clones the wrapped value and wraps the clone. Where the clone of the
    /// wrapped value equals it, the new adaptor equals this one.
    fn clone(&self) -> (w: Self)
        ensures
            cloned(self.inner(), w.inner()),
            w.inner() == self.inner() ==> w == *self,
    {
        Quote(self.0.clone())
    }
}

impl<T: PartialEq> PartialEq for Quote<T> {
    /// Compares the wrapped values.
    fn eq(&self, other: &Self) -> (r: bool) {
        self.0 == other.0
    }
}

impl<T: Eq> Eq for Quote<T> {
}

impl<T: PartialEq> PartialEqSpecImpl for Quote<T> {
    open spec fn obeys_eq_spec() -> bool {
        T::obeys_eq_spec()
    }

    open spec fn eq_spec(&self, other: &Self) -> bool {
        self.inner().eq_spec(&other.inner())
    }
}

impl<T: Render> Render for Quote<T> {
    open spec fn text(&self) -> Seq<char> {
        "> "@ + self.inner().text()
    }

    fn fmt(&self, out: &mut String) {
        out.append("> ");
        self.0.fmt(out);
        assert(final(out)@ =~= old(out)@ + self.text());
    }
}

/// Block quote formatter.
///
/// Renders `>>> ` followed by the wrapped value.
#[derive(Debug)]
#[must_use]
pub struct BlockQuote<T>(T);

impl<T> BlockQuote<T> {
    /// The wrapped value.
    pub closed spec fn inner(&self) -> T {
        self.0
    }

    /// Wraps `value`; nothing is rendered yet.
    pub fn new(value: T) -> (w: Self)
        ensures
            w.inner() == value,
    {
        BlockQuote(value)
    }
}

impl<T: Clone> Clone for BlockQuote<T> {
    /// Clones the wrapped value and wraps the clone. Where the clone of the
    /// wrapped value equals it, the new adaptor equals this one.
    fn clone(&self) -> (w: Self)
        ensures
            cloned(self.inner(), w.inner()),
            w.inner() == self.inner() ==> w == *self,
    {
        BlockQuote(self.0.clone())
    }
}

impl<T: PartialEq> PartialEq for BlockQuote<T> {
    /// Compares the wrapped values.
    fn eq(&self, other: &Self) -> (r: bool) {
        self.0 == other.0
    }
}

impl<T: Eq> Eq for BlockQuote<T> {
}

impl<T: PartialEq> PartialEqSpecImpl for BlockQuote<T> {
    open spec fn obeys_eq_spec() -> bool {
        T::obeys_eq_spec()
    }

    open spec fn eq_spec(&self, other: &Self) -> bool {
        self.inner().eq_spec(&other.inner())
    }
}

impl<T: Render> Render for BlockQuote<T> {
    open spec fn text(&self) -> Seq<char> {
        ">>> "@ + self.inner().text()
    }

    fn fmt(&self, out: &mut String) {
        out.append(">>> ");
        self.0.fmt(out);
        assert(final(out)@ =~= old(out)@ + self.text());
    }
}

/// Spoiler formatter.
///
/// Renders the wrapped value between `||` and `||`.
#[derive(Debug)]
#[must_use]
pub struct Spoiler<T>(T);

impl<T> Spoiler<T> {
    /// The wrapped value.
    pub closed spec fn inner(&self) -> T {
        self.0
    }

    /// Wraps `value`; nothing is rendered yet.
    pub fn new(value: T) -> (w: Self)
        ensures
            w.inner() == value,
    {
        Spoiler(value)
    }
}

impl<T: Clone> Clone for Spoiler<T> {
    /// Clones the wrapped value and wraps the clone. Where the clone of the
    /// wrapped value equals it, the new adaptor equals this one.
    fn clone(&self) -> (w: Self)
        ensures
            cloned(self.inner(), w.inner()),
            w.inner() == self.inner() ==> w == *self,
    {
        Spoiler(self.0.clone())
    }
}

impl<T: PartialEq> PartialEq for Spoiler<T> {
    /// Compares the wrapped values.
    fn eq(&self, other: &Self) -> (r: bool) {
        self.0 == other.0
    }
}

impl<T: Eq> Eq for Spoiler<T> {
}

impl<T: PartialEq> PartialEqSpecImpl for Spoiler<T> {
    open spec fn obeys_eq_spec() -> bool {
        T::obeys_eq_spec()
    }

    open spec fn eq_spec(&self, other: &Self) -> bool {
        self.inner().eq_spec(&other.inner())
    }
}

impl<T: Render> Render for Spoiler<T> {
    open spec fn text(&self) -> Seq<char> {
        "||"@ + self.inner().text() + "||"@
    }

    fn fmt(&self, out: &mut String) {
        out.append("||");
        self.0.fmt(out);
        out.append("||");
        assert(final(out)@ =~= old(out)@ + self.text());
    }
}

/// Multi-line code block formatter.
///
/// Renders the opening fence and a newline, then the wrapped value, then the
/// closing fence. No newline is put before the closing fence.
#[derive(Debug)]
#[must_use]
pub struct Codeblock<T>(T);

impl<T> Codeblock<T> {
    /// The wrapped value.
    pub closed spec fn inner(&self) -> T {
        self.0
    }

    /// Wraps `value`; nothing is rendered yet.
    pub fn new(value: T) -> (w: Self)
        ensures
            w.inner() == value,
    {
        Codeblock(value)
    }
}

impl<T: Clone> Clone for Codeblock<T> {
    /// Clones the wrapped value and wraps the clone. Where the clone of the
    /// wrapped value equals it, the new adaptor equals this one.
    fn clone(&self) -> (w: Self)
        ensures
            cloned(self.inner(), w.inner()),
            w.inner() == self.inner() ==> w == *self,
    {
        Codeblock(self.0.clone())
    }
}

impl<T: PartialEq> PartialEq for Codeblock<T> {
    /// Compares the wrapped values.
    fn eq(&self, other: &Self) -> (r: bool) {
        self.0 == other.0
    }
}

impl<T: Eq> Eq for Codeblock<T> {
}

impl<T: PartialEq> PartialEqSpecImpl for Codeblock<T> {
    open spec fn obeys_eq_spec() -> bool {
        T::obeys_eq_spec()
    }

    open spec fn eq_spec(&self, other: &Self) -> bool {
        self.inner().eq_spec(&other.inner())
    }
}

impl<T: Render> Render for Codeblock<T> {
    open spec fn text(&self) -> Seq<char> {
        "```\n"@ + self.inner().text() + "```"@
    }

    fn fmt(&self, out: &mut String) {
        out.append("```\n");
        self.0.fmt(out);
        out.append("```");
        assert(final(out)@ =~= old(out)@ + self.text());
    }
}

/// Multi-line code block formatter with language.
///
/// Renders the opening fence directly followed by the language tag and a
/// newline, then the wrapped value, then the closing fence.
#[derive(Debug)]
#[must_use]
pub struct CodeblockWith<T, Lang>(T, Lang);

impl<T, Lang> CodeblockWith<T, Lang> {
    /// The wrapped value: the body of the block.
    pub closed spec fn inner(&self) -> T {
        self.0
    }

    /// The language tag.
    pub closed spec fn lang(&self) -> Lang {
        self.1
    }

    /// Wraps `value` and its language tag; nothing is rendered yet.
    pub fn new(value: T, lang: Lang) -> (w: Self)
        ensures
            w.inner() == value,
            w.lang() == lang,
    {
        CodeblockWith(value, lang)
    }
}

impl<T: Clone, Lang: Clone> Clone for CodeblockWith<T, Lang> {
    /// Clones the wrapped value and the tag and wraps the clones. Where both
    /// clones equal what they were made from, the new adaptor equals this one.
    fn clone(&self) -> (w: Self)
        ensures
            cloned(self.inner(), w.inner()),
            cloned(self.lang(), w.lang()),
            w.inner() == self.inner() && w.lang() == self.lang() ==> w == *self,
    {
        CodeblockWith(self.0.clone(), self.1.clone())
    }
}

impl<T: PartialEq, Lang: PartialEq> PartialEq for CodeblockWith<T, Lang> {
    /// Compares the wrapped values, then the tags.
    fn eq(&self, other: &Self) -> (r: bool) {
        self.0 == other.0 && self.1 == other.1
    }
}

impl<T: Eq, Lang: Eq> Eq for CodeblockWith<T, Lang> {
}

impl<T: PartialEq, Lang: PartialEq> PartialEqSpecImpl for CodeblockWith<T, Lang> {
    open spec fn obeys_eq_spec() -> bool {
        T::obeys_eq_spec() && Lang::obeys_eq_spec()
    }

    open spec fn eq_spec(&self, other: &Self) -> bool {
        self.inner().eq_spec(&other.inner()) && self.lang().eq_spec(&other.lang())
    }
}

impl<T: Render, Lang: Render> Render for CodeblockWith<T, Lang> {
    open spec fn text(&self) -> Seq<char> {
        "```"@ + self.lang().text() + "\n"@ + self.inner().text() + "```"@
    }

    fn fmt(&self, out: &mut String) {
        out.append("```");
        self.1.fmt(out);
        out.append("\n");
        self.0.fmt(out);
        out.append("```");
        assert(final(out)@ =~= old(out)@ + self.text());
    }
}

/// Inline code block formatter.
///
/// Renders the wrapped value between two single backticks.
#[derive(Debug)]
#[must_use]
pub struct InlineCodeblock<T>(T);

impl<T> InlineCodeblock<T> {
    /// The wrapped value.
    pub closed spec fn inner(&self) -> T {
        self.0
    }

    /// Wraps `value`; nothing is rendered yet.
    pub fn new(value: T) -> (w: Self)
        ensures
            w.inner() == value,
    {
        InlineCodeblock(value)
    }
}

impl<T: Clone> Clone for InlineCodeblock<T> {
    /// Clones the wrapped value and wraps the clone. Where the clone of the
    /// wrapped value equals it, the new adaptor equals this one.
    fn clone(&self) -> (w: Self)
        ensures
            cloned(self.inner(), w.inner()),
            w.inner() == self.inner() ==> w == *self,
    {
        InlineCodeblock(self.0.clone())
    }
}

impl<T: PartialEq> PartialEq for InlineCodeblock<T> {
    /// Compares the wrapped values.
    fn eq(&self, other: &Self) -> (r: bool) {
        self.0 == other.0
    }
}

impl<T: Eq> Eq for InlineCodeblock<T> {
}

impl<T: PartialEq> PartialEqSpecImpl for InlineCodeblock<T> {
    open spec fn obeys_eq_spec() -> bool {
        T::obeys_eq_spec()
    }

    open spec fn eq_spec(&self, other: &Self) -> bool {
        self.inner().eq_spec(&other.inner())
    }
}

impl<T: Render> Render for InlineCodeblock<T> {
    open spec fn text(&self) -> Seq<char> {
        "`"@ + self.inner().text() + "`"@
    }

    fn fmt(&self, out: &mut String) {
        out.append("`");
        self.0.fmt(out);
        out.append("`");
        assert(final(out)@ =~= old(out)@ + self.text());
    }
}

} // verus!
