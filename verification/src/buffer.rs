//! The document buffer: the in-memory content shown and edited in the view.
//!
//! The buffer owns the current text as raw bytes, together with an optional
//! highlighting-language tag and an optional style-scheme tag.  Load and save
//! operations mutate it wholesale (a full replace), never incrementally.

use vstd::prelude::*;

verus! {

/// The text container owned by an editor window for the window's lifetime.
pub struct DocumentBuffer {
    text: Vec<u8>,
    language: Option<String>,
    style_scheme: Option<String>,
    highlight_syntax: bool,
}

impl DocumentBuffer {
    /// The buffer's content, as the sequence of bytes it currently holds.
    pub closed spec fn view(&self) -> Seq<u8> {
        self.text@
    }

    /// The highlighting-language tag, if one is set.
    pub closed spec fn language_tag(&self) -> Option<Seq<char>> {
        match self.language {
            Some(l) => Some(l@),
            None => None,
        }
    }

    /// The style-scheme tag, if one is set.
    pub closed spec fn style_scheme_tag(&self) -> Option<Seq<char>> {
        match self.style_scheme {
            Some(s) => Some(s@),
            None => None,
        }
    }

    /// Whether syntax highlighting is switched on.
    pub closed spec fn highlights_syntax(&self) -> bool {
        self.highlight_syntax
    }

    /// A fresh buffer: empty content, no language, no scheme, highlighting off.
    pub fn new() -> (b: DocumentBuffer)
        ensures
            b@ == Seq::<u8>::empty(),
            b.language_tag() is None,
            b.style_scheme_tag() is None,
            !b.highlights_syntax(),
    {
        DocumentBuffer {
            text: Vec::new(),
            language: None,
            style_scheme: None,
            highlight_syntax: false,
        }
    }

    /// Replace the whole content with the given bytes: a full overwrite,
    /// never a merge or an append.  Tags and the highlighting switch stay.
    pub fn replace_contents(&mut self, bytes: Vec<u8>)
        ensures
            final(self)@ == bytes@,
            final(self).language_tag() == old(self).language_tag(),
            final(self).style_scheme_tag() == old(self).style_scheme_tag(),
            final(self).highlights_syntax() == old(self).highlights_syntax(),
    {
        self.text = bytes;
    }

    /// A copy of the whole content.
    pub fn contents(&self) -> (r: Vec<u8>)
        ensures
            r@ == self@,
    {
        let mut out: Vec<u8> = Vec::new();
        let mut i: usize = 0;
        while i < self.text.len()
            invariant
                i <= self.text.len(),
                out@ == self.text@.subrange(0, i as int),
            decreases self.text.len() - i,
        {
            out.push(self.text[i]);
            i = i + 1;
        }
        proof {
            assert(out@ =~= self.text@);
        }
        out
    }

    /// The number of bytes the buffer holds.
    pub fn len(&self) -> (n: usize)
        ensures
            n == self@.len(),
    {
        self.text.len()
    }

    /// The highlighting-language tag, if one is set.
    pub fn language(&self) -> (r: Option<&String>)
        ensures
            match r {
                Some(l) => self.language_tag() == Some(l@),
                None => self.language_tag() is None,
            },
    {
        self.language.as_ref()
    }

    /// The style-scheme tag, if one is set.
    pub fn style_scheme(&self) -> (r: Option<&String>)
        ensures
            match r {
                Some(s) => self.style_scheme_tag() == Some(s@),
                None => self.style_scheme_tag() is None,
            },
    {
        self.style_scheme.as_ref()
    }

    /// Whether syntax highlighting is switched on.
    pub fn highlight_syntax(&self) -> (r: bool)
        ensures
            r == self.highlights_syntax(),
    {
        self.highlight_syntax
    }

    /// Set or clear the highlighting-language tag.
    pub fn set_language(&mut self, language: Option<String>)
        ensures
            final(self)@ == old(self)@,
            final(self).language_tag() == match language {
                Some(l) => Some(l@),
                None => None::<Seq<char>>,
            },
            final(self).style_scheme_tag() == old(self).style_scheme_tag(),
            final(self).highlights_syntax() == old(self).highlights_syntax(),
    {
        self.language = language;
    }

    /// Set or clear the style-scheme tag.
    pub fn set_style_scheme(&mut self, scheme: Option<String>)
        ensures
            final(self)@ == old(self)@,
            final(self).style_scheme_tag() == match scheme {
                Some(s) => Some(s@),
                None => None::<Seq<char>>,
            },
            final(self).language_tag() == old(self).language_tag(),
            final(self).highlights_syntax() == old(self).highlights_syntax(),
    {
        self.style_scheme = scheme;
    }

    /// Switch syntax highlighting on or off.
    pub fn set_highlight_syntax(&mut self, on: bool)
        ensures
            final(self)@ == old(self)@,
            final(self).highlights_syntax() == on,
            final(self).language_tag() == old(self).language_tag(),
            final(self).style_scheme_tag() == old(self).style_scheme_tag(),
    {
        self.highlight_syntax = on;
    }
}

} // verus!
