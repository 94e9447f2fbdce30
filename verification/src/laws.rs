//! What holds of rendering in general, stated over the adaptors' texts.

use crate::adaptors::{Bold, Codeblock, CodeblockWith, Italic};
use crate::render::Render;
use vstd::prelude::*;

verus! {

/// Rendering is repeatable: whatever two calls of `render` on one value
/// return, the two strings hold the same text. This is so for every
/// renderable type, since each result is the value's `text`.
pub proof fn lemma_render_repeatable<T: Render>(value: &T, first: String, second: String)
    requires
        call_ensures(T::render, (value,), first),
        call_ensures(T::render, (value,), second),
    ensures
        first@ == second@,
        first@ == value.text(),
{
}

/// Adaptors compose by nesting: bold around italic renders the italic
/// delimiters inside the bold ones, around the text of the innermost value.
pub proof fn lemma_bold_italic<T: Render>(w: Bold<Italic<T>>)
    ensures
        w.text() == "**_"@ + w.inner().inner().text() + "_**"@,
{
    reveal_strlit("**");
    reveal_strlit("_");
    reveal_strlit("**_");
    reveal_strlit("_**");
    assert(w.text() =~= "**_"@ + w.inner().inner().text() + "_**"@);
}

/// A code block without a language renders like one whose language tag
/// renders to nothing.
pub proof fn lemma_codeblock_empty_tag<T: Render, Lang: Render>(
    plain: Codeblock<T>,
    tagged: CodeblockWith<T, Lang>,
)
    requires
        tagged.inner().text() == plain.inner().text(),
        tagged.lang().text() == Seq::<char>::empty(),
    ensures
        tagged.text() == plain.text(),
{
    reveal_strlit("```");
    reveal_strlit("\n");
    reveal_strlit("```\n");
    assert(tagged.text() =~= plain.text());
}

} // verus!
