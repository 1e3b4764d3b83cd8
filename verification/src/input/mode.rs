use crate::highlighter::{EditView, HighlighterView, SyntaxHighlighter};
use crate::input::marker::{is_first_covering, marker_views, Marker, MarkerView};
use crate::input::text_wrapper::TextWrapper;
use crate::length::DefiniteLength;
use std::ops::Range;
use std::rc::Rc;
use vstd::prelude::*;
use vstd::string::StringExecFns;

verus! {

/// How one step of indentation is written into the text.
#[derive(Debug, Copy, Clone)]
pub struct TabSize {
    /// The number of spaces of one step. The default is 2.
    pub tab_size: usize,
    /// Whether one step is a single tab character instead of spaces. The default is false.
    pub hard_tabs: bool,
}

impl TabSize {
    /// The text of one step: a tab character, or `tab_size` spaces.
    pub open spec fn indent(&self) -> Seq<char> {
        if self.hard_tabs {
            seq!['\t']
        } else {
            Seq::new(self.tab_size as nat, |i: int| ' ')
        }
    }

    /// A step of spaces is at least one space wide.
    pub open spec fn wf(&self) -> bool {
        self.hard_tabs || self.tab_size >= 1
    }

    /// Writes out one step of indentation.
    pub fn to_string(&self) -> (s: String)
        ensures
            s@ == self.indent(),
            self.wf() ==> s@.len() >= 1,
    {
        let mut s = String::new();
        if self.hard_tabs {
            proof {
                reveal_strlit("\t");
            }
            s.append("\t");
            assert(s@ =~= seq!['\t']);
        } else {
            let mut i: usize = 0;
            while i < self.tab_size
                invariant
                    i <= self.tab_size,
                    s@ == Seq::new(i as nat, |k: int| ' '),
                decreases self.tab_size - i,
            {
                proof {
                    reveal_strlit(" ");
                }
                s.append(" ");
                i += 1;
            }
        }
        s
    }
}

impl Default for TabSize {
    /// Two spaces.
    fn default() -> (t: Self)
        ensures
            t.tab_size == 2,
            !t.hard_tabs,
            t.wf(),
    {
        Self { tab_size: 2, hard_tabs: false }
    }
}

/// `rows` brought into the bounds: `min` where it is below them, `max` where it is above.
pub open spec fn clamp(rows: nat, min: nat, max: nat) -> nat {
    if rows < min {
        min
    } else if rows > max {
        max
    } else {
        rows
    }
}

/// `rows`, or one where `rows` is none.
pub open spec fn at_least_one(rows: nat) -> nat {
    if rows < 1 {
        1
    } else {
        rows
    }
}

/// What a text input is: one line, several lines, a code editor, or an area that grows
/// with its text.
#[derive(Debug)]
pub enum InputMode {
    /// One line. It has no rows, height or indentation of its own.
    SingleLine,
    /// Several lines, as many as the caller sets.
    MultiLine { tab: TabSize, rows: usize, height: Option<DefiniteLength> },
    /// Several lines of source code in `language`.
    CodeEditor {
        tab: TabSize,
        rows: usize,
        height: Option<DefiniteLength>,
        /// Whether the line numbers are shown.
        line_number: bool,
        language: String,
        /// Made at the first change to the text, and kept from then on.
        highlighter: Option<SyntaxHighlighter>,
        /// Never changed in place: a new list takes the place of the old one, so that
        /// whoever holds the old one goes on reading it as it was.
        markers: Rc<Vec<Marker>>,
    },
    /// As many lines as the text takes, between `min_rows` and `max_rows`.
    AutoGrow { rows: usize, min_rows: usize, max_rows: usize },
}

/// An [`InputMode`] as plain values.
pub enum ModeView {
    SingleLine,
    MultiLine { tab: TabSize, rows: nat, height: Option<DefiniteLength> },
    CodeEditor {
        tab: TabSize,
        rows: nat,
        height: Option<DefiniteLength>,
        line_number: bool,
        language: Seq<char>,
        highlighter: Option<HighlighterView>,
        markers: Seq<MarkerView>,
    },
    AutoGrow { rows: nat, min_rows: nat, max_rows: nat },
}

impl View for InputMode {
    type V = ModeView;

    open spec fn view(&self) -> ModeView {
        match *self {
            InputMode::SingleLine => ModeView::SingleLine,
            InputMode::MultiLine { tab, rows, height } => ModeView::MultiLine {
                tab,
                rows: rows as nat,
                height,
            },
            InputMode::CodeEditor {
                tab,
                rows,
                height,
                line_number,
                language,
                highlighter,
                markers,
            } => ModeView::CodeEditor {
                tab,
                rows: rows as nat,
                height,
                line_number,
                language: language@,
                highlighter: match highlighter {
                    Some(h) => Some(h@),
                    None => None,
                },
                markers: marker_views(markers@),
            },
            InputMode::AutoGrow { rows, min_rows, max_rows } => ModeView::AutoGrow {
                rows: rows as nat,
                min_rows: min_rows as nat,
                max_rows: max_rows as nat,
            },
        }
    }
}

impl Default for InputMode {
    /// One line.
    fn default() -> (mode: Self)
        ensures
            mode@ is SingleLine,
    {
        InputMode::SingleLine
    }
}

/// `Rc::clone` of std: a second handle to the list that `markers` points to. The list is
/// not copied, so the two handles hold the same markers.
#[verifier::external_body]
fn share_markers(markers: &Rc<Vec<Marker>>) -> (shared: Rc<Vec<Marker>>)
    ensures
        shared == *markers,
{
    Rc::clone(markers)
}

impl Clone for InputMode {
    /// A mode with the same settings. The copy of a code editor shares the list of
    /// markers and has a highlighter of its own that was told the same changes.
    fn clone(&self) -> (copy: Self)
        ensures
            copy@ == self@,
    {
        match self {
            InputMode::SingleLine => InputMode::SingleLine,
            InputMode::MultiLine { tab, rows, height } => InputMode::MultiLine {
                tab: *tab,
                rows: *rows,
                height: *height,
            },
            InputMode::CodeEditor {
                tab,
                rows,
                height,
                line_number,
                language,
                highlighter,
                markers,
            } => InputMode::CodeEditor {
                tab: *tab,
                rows: *rows,
                height: *height,
                line_number: *line_number,
                language: language.clone(),
                highlighter: match highlighter {
                    Some(h) => Some(h.clone()),
                    None => None,
                },
                markers: share_markers(markers),
            },
            InputMode::AutoGrow { rows, min_rows, max_rows } => InputMode::AutoGrow {
                rows: *rows,
                min_rows: *min_rows,
                max_rows: *max_rows,
            },
        }
    }
}

impl ModeView {
    /// The bounds of an area that grows are in order. Every other mode has none.
    pub open spec fn bounds_ordered(self) -> bool {
        self matches ModeView::AutoGrow { min_rows, max_rows, .. } ==> min_rows <= max_rows
    }

    /// The rows of an area that grows lie within its bounds.
    pub open spec fn wf(self) -> bool {
        self matches ModeView::AutoGrow { rows, min_rows, max_rows } ==> min_rows <= rows
            <= max_rows
    }

    /// The mode after its rows were set: to `new_rows` as given in a multi-line input or a
    /// code editor, to `new_rows` brought into the bounds in an area that grows. One line
    /// stays one line.
    pub open spec fn set_rows(self, new_rows: nat) -> ModeView {
        match self {
            ModeView::SingleLine => self,
            ModeView::MultiLine { tab, rows, height } => ModeView::MultiLine {
                tab,
                rows: new_rows,
                height,
            },
            ModeView::CodeEditor {
                tab,
                rows,
                height,
                line_number,
                language,
                highlighter,
                markers,
            } => ModeView::CodeEditor {
                tab,
                rows: new_rows,
                height,
                line_number,
                language,
                highlighter,
                markers,
            },
            ModeView::AutoGrow { rows, min_rows, max_rows } => ModeView::AutoGrow {
                rows: clamp(new_rows, min_rows, max_rows),
                min_rows,
                max_rows,
            },
        }
    }

    /// The mode after its height was set. Only a multi-line input and a code editor have
    /// one.
    pub open spec fn set_height(self, new_height: Option<DefiniteLength>) -> ModeView {
        match self {
            ModeView::MultiLine { tab, rows, height } => ModeView::MultiLine {
                tab,
                rows,
                height: new_height,
            },
            ModeView::CodeEditor {
                tab,
                rows,
                height,
                line_number,
                language,
                highlighter,
                markers,
            } => ModeView::CodeEditor {
                tab,
                rows,
                height: new_height,
                line_number,
                language,
                highlighter,
                markers,
            },
            _ => self,
        }
    }

    /// The rows that the input shows: those of the mode, and never fewer than one.
    pub open spec fn rows(self) -> nat {
        match self {
            ModeView::SingleLine => 1,
            ModeView::MultiLine { rows, .. } => at_least_one(rows),
            ModeView::CodeEditor { rows, .. } => at_least_one(rows),
            ModeView::AutoGrow { rows, .. } => at_least_one(rows),
        }
    }

    /// The lower bound on the rows: that of an area that grows, as it was given, and one
    /// in every other mode.
    pub open spec fn min_rows(self) -> nat {
        match self {
            ModeView::AutoGrow { min_rows, .. } => min_rows,
            _ => 1,
        }
    }

    /// The upper bound on the rows: one for a single line, that of an area that grows, as
    /// it was given, and no bound but that of the machine otherwise.
    pub open spec fn max_rows(self) -> nat {
        match self {
            ModeView::SingleLine => 1,
            ModeView::MultiLine { .. } => usize::MAX as nat,
            ModeView::CodeEditor { .. } => usize::MAX as nat,
            ModeView::AutoGrow { max_rows, .. } => max_rows,
        }
    }

    /// The height of a multi-line input or a code editor, where one was set.
    pub open spec fn height(self) -> Option<DefiniteLength> {
        match self {
            ModeView::MultiLine { height, .. } => height,
            ModeView::CodeEditor { height, .. } => height,
            _ => None,
        }
    }

    /// Whether line numbers are shown: only a code editor can show them.
    pub open spec fn line_number(self) -> bool {
        match self {
            ModeView::CodeEditor { line_number, .. } => line_number,
            _ => false,
        }
    }

    /// The indentation of a multi-line input or a code editor.
    pub open spec fn tab_size(self) -> Option<TabSize> {
        match self {
            ModeView::MultiLine { tab, .. } => Some(tab),
            ModeView::CodeEditor { tab, .. } => Some(tab),
            _ => None,
        }
    }

    /// The mode after a change to the text. A code editor that has no highlighter yet
    /// gets one for its language; the highlighter is then told of the change. Every other
    /// mode stays as it is.
    pub open spec fn update_highlighter(self, edit: EditView, full_text: Seq<char>) -> ModeView {
        match self {
            ModeView::CodeEditor {
                tab,
                rows,
                height,
                line_number,
                language,
                highlighter,
                markers,
            } => ModeView::CodeEditor {
                tab,
                rows,
                height,
                line_number,
                language,
                highlighter: Some(
                    match highlighter {
                        Some(h) => h,
                        None => HighlighterView::new(language),
                    }.update(edit, full_text),
                ),
                markers,
            },
            _ => self,
        }
    }

    /// The mode after `new_markers` took the place of the markers of a code editor. Every
    /// other mode stays as it is.
    pub open spec fn set_markers(self, new_markers: Seq<MarkerView>) -> ModeView {
        match self {
            ModeView::CodeEditor {
                tab,
                rows,
                height,
                line_number,
                language,
                highlighter,
                markers,
            } => ModeView::CodeEditor {
                tab,
                rows,
                height,
                line_number,
                language,
                highlighter,
                markers: new_markers,
            },
            _ => self,
        }
    }

    /// The mode after the markers of a code editor were taken away.
    pub open spec fn clear_markers(self) -> ModeView {
        self.set_markers(Seq::empty())
    }

    /// The markers of a code editor. No other mode has any.
    pub open spec fn markers(self) -> Option<Seq<MarkerView>> {
        match self {
            ModeView::CodeEditor { markers, .. } => Some(markers),
            _ => None,
        }
    }

    /// The first marker, in the order of the list, that covers `offset`.
    pub open spec fn marker_for_offset(self, offset: nat) -> Option<MarkerView> {
        match self {
            ModeView::CodeEditor { markers, .. } => {
                if exists|i: int| is_first_covering(markers, offset, i) {
                    Some(markers[choose|i: int| is_first_covering(markers, offset, i)])
                } else {
                    None
                }
            },
            _ => None,
        }
    }
}

impl InputMode {
    /// Whether the input is a code editor.
    pub fn is_code_editor(&self) -> (yes: bool)
        ensures
            yes == (self@ is CodeEditor),
    {
        matches!(self, InputMode::CodeEditor { .. })
    }

    /// Sets the rows. A multi-line input and a code editor take `new_rows` as given; an
    /// area that grows brings it into its bounds; one line stays one line.
    pub fn set_rows(&mut self, new_rows: usize)
        ensures
            final(self)@ == old(self)@.set_rows(new_rows as nat),
            old(self)@.bounds_ordered() ==> final(self)@.wf(),
    {
        match self {
            InputMode::MultiLine { rows, .. } => {
                *rows = new_rows;
            },
            InputMode::CodeEditor { rows, .. } => {
                *rows = new_rows;
            },
            InputMode::AutoGrow { rows, min_rows, max_rows } => {
                *rows = if new_rows < *min_rows {
                    *min_rows
                } else if new_rows > *max_rows {
                    *max_rows
                } else {
                    new_rows
                };
            },
            _ => {},
        }
    }

    /// Sets the height of a multi-line input or a code editor. Every other mode stays as it
    /// is.
    pub fn set_height(&mut self, new_height: Option<DefiniteLength>)
        ensures
            final(self)@ == old(self)@.set_height(new_height),
    {
        match self {
            InputMode::MultiLine { height, .. } => {
                *height = new_height;
            },
            InputMode::CodeEditor { height, .. } => {
                *height = new_height;
            },
            _ => {},
        }
    }

    /// Sets the rows to the number of lines that the text takes as it is laid out.
    pub fn update_auto_grow(&mut self, text_wrapper: &TextWrapper)
        ensures
            final(self)@ == old(self)@.set_rows(text_wrapper.wrapped_lines@.len()),
            old(self)@.bounds_ordered() ==> final(self)@.wf(),
    {
        let wrapped_lines = text_wrapper.wrapped_lines.len();
        self.set_rows(wrapped_lines);
    }

    /// The rows that the input shows, never fewer than one.
    pub fn rows(&self) -> (rows: usize)
        ensures
            rows == self@.rows(),
            rows >= 1,
    {
        let stored: usize = match self {
            InputMode::MultiLine { rows, .. } => *rows,
            InputMode::CodeEditor { rows, .. } => *rows,
            InputMode::AutoGrow { rows, .. } => *rows,
            _ => 1,
        };
        if stored < 1 {
            1
        } else {
            stored
        }
    }

    /// The lower bound on the rows: that of an area that grows, as it was given, and one
    /// in every other mode.
    pub fn min_rows(&self) -> (rows: usize)
        ensures
            rows == self@.min_rows(),
    {
        match self {
            InputMode::MultiLine { .. } | InputMode::CodeEditor { .. } => 1,
            InputMode::AutoGrow { min_rows, .. } => *min_rows,
            _ => 1,
        }
    }

    /// The upper bound on the rows: one for a single line, that of an area that grows, as
    /// it was given, and no bound but that of the machine otherwise.
    pub fn max_rows(&self) -> (rows: usize)
        ensures
            rows == self@.max_rows(),
    {
        match self {
            InputMode::MultiLine { .. } | InputMode::CodeEditor { .. } => usize::MAX,
            InputMode::AutoGrow { max_rows, .. } => *max_rows,
            _ => 1,
        }
    }

    /// The height of a multi-line input or a code editor, where one was set.
    pub fn height(&self) -> (height: Option<DefiniteLength>)
        ensures
            height == self@.height(),
    {
        match self {
            InputMode::MultiLine { height, .. } => *height,
            InputMode::CodeEditor { height, .. } => *height,
            _ => None,
        }
    }

    /// Whether line numbers are shown: only a code editor can show them.
    #[inline]
    pub fn line_number(&self) -> (shown: bool)
        ensures
            shown == self@.line_number(),
    {
        match self {
            InputMode::CodeEditor { line_number, .. } => *line_number,
            _ => false,
        }
    }

    /// The indentation of a multi-line input or a code editor.
    #[inline]
    pub fn tab_size(&self) -> (tab: Option<&TabSize>)
        ensures
            match tab {
                Some(tab) => self@.tab_size() == Some(*tab),
                None => self@.tab_size().is_none(),
            },
    {
        match self {
            InputMode::MultiLine { tab, .. } => Some(tab),
            InputMode::CodeEditor { tab, .. } => Some(tab),
            _ => None,
        }
    }

    /// Tells the highlighter of a code editor that `selected_range` was replaced by
    /// `new_text`, which left the text as `full_text`. The highlighter is made at the
    /// first such call. Every other mode stays as it is.
    pub fn update_highlighter(
        &mut self,
        selected_range: &Range<usize>,
        full_text: String,
        new_text: &str,
    )
        ensures
            final(self)@ == old(self)@.update_highlighter(
                EditView {
                    start: selected_range.start as nat,
                    end: selected_range.end as nat,
                    new_text: new_text@,
                },
                full_text@,
            ),
            !(old(self)@ is CodeEditor) ==> *final(self) == *old(self),
            final(self)@ is CodeEditor ==> final(self)@->highlighter.is_some(),
    {
        match self {
            InputMode::CodeEditor { language, highlighter, .. } => {
                if highlighter.is_none() {
                    let new_highlighter = SyntaxHighlighter::new(language.as_str());
                    *highlighter = Some(new_highlighter);
                }
                match highlighter {
                    Some(highlighter) => {
                        highlighter.update(selected_range, full_text, new_text);
                    },
                    None => {},
                }
            },
            _ => {},
        }
    }

    /// Takes the markers of a code editor away. Every other mode stays as it is.
    pub fn clear_markers(&mut self)
        ensures
            final(self)@ == old(self)@.clear_markers(),
    {
        match self {
            InputMode::CodeEditor { markers, .. } => {
                *markers = Rc::new(Vec::new());
                assert(marker_views(markers@) =~= Seq::<MarkerView>::empty());
            },
            _ => {},
        }
    }

    /// Puts `new_markers` in the place of the markers of a code editor. Every other mode
    /// stays as it is.
    pub fn set_markers(&mut self, new_markers: Vec<Marker>)
        ensures
            final(self)@ == old(self)@.set_markers(marker_views(new_markers@)),
    {
        match self {
            InputMode::CodeEditor { markers, .. } => {
                *markers = Rc::new(new_markers);
            },
            _ => {},
        }
    }

    /// The markers of a code editor. No other mode has any.
    pub fn markers(&self) -> (markers: Option<&Rc<Vec<Marker>>>)
        ensures
            match markers {
                Some(list) => self@.markers() == Some(marker_views(list@)),
                None => self@.markers().is_none(),
            },
    {
        match self {
            InputMode::CodeEditor { markers, .. } => Some(markers),
            _ => None,
        }
    }

    /// The first marker, in the order of the list, whose range holds `offset`.
    pub fn marker_for_offset(&self, offset: usize) -> (marker: Option<&Marker>)
        ensures
            match marker {
                Some(m) => self@.marker_for_offset(offset as nat) == Some(m@),
                None => self@.marker_for_offset(offset as nat).is_none(),
            },
    {
        let Some(markers) = self.markers() else {
            return None;
        };
        let mut i: usize = 0;
        while i < markers.len()
            invariant
                i <= markers.len(),
                self@.markers() == Some(marker_views(markers@)),
                forall|j: int|
                    0 <= j < i ==> !(#[trigger] marker_views(markers@)[j]).covers(offset as nat),
            decreases markers.len() - i,
        {
            let marker = &markers[i];
            if let Some(range) = marker.range.as_ref() {
                if range.contains(&offset) {
                    assert(is_first_covering(
                        marker_views(markers@),
                        offset as nat,
                        i as int,
                    ));
                    return Some(marker);
                }
            }
            i += 1;
        }
        None
    }
}

} // verus!
