//! The rendering capability that every decorated value has to offer.

use vstd::prelude::*;
use vstd::string::StringExecFns;

verus! {

/// A value that can be written out as text.
///
/// `text` is the mathematical model: the exact sequence of characters the
/// value stands for. `fmt` is its executable counterpart. It appends that
/// sequence to a sink and leaves what the sink already holds untouched, so
/// nested values write into one buffer and nothing is allocated in between.
/// The sink is a `String`, and writing to it cannot fail.
pub trait Render {
    /// The characters this value renders to.
    spec fn text(&self) -> Seq<char>;

    /// Appends the rendered value to `out`.
    fn fmt(&self, out: &mut String)
        ensures
            final(out)@ == old(out)@ + self.text(),
    ;

    /// Renders the value into a fresh string.
    fn render(&self) -> (s: String)
        ensures
            s@ == self.text(),
    {
        let mut s = String::new();
        self.fmt(&mut s);
        assert(s@ =~= self.text());
        s
    }
}

/// A string slice renders to its own characters.
impl Render for str {
    open spec fn text(&self) -> Seq<char> {
        self@
    }

    fn fmt(&self, out: &mut String) {
        out.append(self);
    }
}

/// An owned string renders to its own characters.
impl Render for String {
    open spec fn text(&self) -> Seq<char> {
        self@
    }

    fn fmt(&self, out: &mut String) {
        out.append(self.as_str());
    }
}

/// A reference renders like the value behind it, so a value can be decorated
/// without being given away.
impl<'a, T: Render + ?Sized> Render for &'a T {
    open spec fn text(&self) -> Seq<char> {
        (**self).text()
    }

    fn fmt(&self, out: &mut String) {
        (**self).fmt(out);
    }
}

} // verus!
