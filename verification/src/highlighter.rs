use std::ops::Range;
use vstd::prelude::*;

verus! {

/// One change to the text: the range of offsets that was replaced and what replaced it.
#[derive(Debug, PartialEq, Eq)]
pub struct Edit {
    /// The offsets that the change replaced, in the text before the change.
    pub range: Range<usize>,
    /// The text that stands there now.
    pub new_text: String,
}

/// An [`Edit`] as plain values.
pub struct EditView {
    pub start: nat,
    pub end: nat,
    pub new_text: Seq<char>,
}

impl View for Edit {
    type V = EditView;

    open spec fn view(&self) -> EditView {
        EditView {
            start: self.range.start as nat,
            end: self.range.end as nat,
            new_text: self.new_text@,
        }
    }
}

impl Clone for Edit {
    fn clone(&self) -> (copy: Self)
        ensures
            copy == *self,
    {
        Edit { range: self.range.start..self.range.end, new_text: self.new_text.clone() }
    }
}

/// What a highlighter has been told: its language, the text as it stands, and every
/// change to it, oldest first.
pub struct HighlighterView {
    pub language: Seq<char>,
    pub text: Seq<char>,
    pub edits: Seq<EditView>,
}

impl HighlighterView {
    /// A highlighter for `language` that has seen no text yet.
    pub open spec fn new(language: Seq<char>) -> HighlighterView {
        HighlighterView { language, text: Seq::empty(), edits: Seq::empty() }
    }

    /// The highlighter after one more change, which left the text as `full_text`.
    pub open spec fn update(self, edit: EditView, full_text: Seq<char>) -> HighlighterView {
        HighlighterView { language: self.language, text: full_text, edits: self.edits.push(edit) }
    }
}

/// What the highlighter of a code editor has been told. It keeps a record of the language
/// that it is bound to for its whole life, of the text as it stands, and of every change
/// to the text, in the order in which the changes were made. It produces no styled
/// spans: whoever colours the text reads the record and does so.
#[derive(Debug)]
pub struct SyntaxHighlighter {
    language: String,
    text: String,
    edits: Vec<Edit>,
}

impl View for SyntaxHighlighter {
    type V = HighlighterView;

    closed spec fn view(&self) -> HighlighterView {
        HighlighterView {
            language: self.language@,
            text: self.text@,
            edits: self.edits@.map_values(|e: Edit| e@),
        }
    }
}

impl Clone for SyntaxHighlighter {
    fn clone(&self) -> (copy: Self)
        ensures
            copy@ == self@,
    {
        let copy = SyntaxHighlighter {
            language: self.language.clone(),
            text: self.text.clone(),
            edits: self.edits.clone(),
        };
        assert(copy.edits@.map_values(|e: Edit| e@) =~= self.edits@.map_values(|e: Edit| e@));
        copy
    }
}

impl SyntaxHighlighter {
    /// A highlighter for `language` that has seen no text yet.
    pub fn new(language: &str) -> (h: Self)
        ensures
            h@ == HighlighterView::new(language@),
    {
        let h = SyntaxHighlighter {
            language: language.to_owned(),
            text: String::new(),
            edits: Vec::new(),
        };
        assert(h.edits@.map_values(|e: Edit| e@) =~= Seq::<EditView>::empty());
        h
    }

    /// Tells the highlighter that `selected_range` was replaced by `new_text`, which left
    /// the text as `full_text`.
    pub fn update(&mut self, selected_range: &Range<usize>, full_text: String, new_text: &str)
        ensures
            final(self)@ == old(self)@.update(
                EditView {
                    start: selected_range.start as nat,
                    end: selected_range.end as nat,
                    new_text: new_text@,
                },
                full_text@,
            ),
    {
        let edit = Edit {
            range: selected_range.start..selected_range.end,
            new_text: new_text.to_owned(),
        };
        self.text = full_text;
        self.edits.push(edit);
        assert(self.edits@.map_values(|e: Edit| e@) =~= old(self).edits@.map_values(
            |e: Edit| e@,
        ).push(edit@));
    }

    /// The language that the highlighter was made for.
    pub fn language(&self) -> (language: &str)
        ensures
            language@ == self@.language,
    {
        self.language.as_str()
    }

    /// The text after the latest change.
    pub fn text(&self) -> (text: &str)
        ensures
            text@ == self@.text,
    {
        self.text.as_str()
    }

    /// Every change that the highlighter was told of, oldest first.
    pub fn edits(&self) -> (edits: &Vec<Edit>)
        ensures
            edits@.map_values(|e: Edit| e@) == self@.edits,
    {
        &self.edits
    }
}

} // verus!
