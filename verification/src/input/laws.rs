//! What holds of an input mode through any run of its operations.

use crate::highlighter::{EditView, HighlighterView};
use crate::input::marker::{is_first_covering, MarkerView};
use crate::input::mode::ModeView;
use vstd::prelude::*;

verus! {

/// The mode after its rows were set to each of `requests` in turn.
pub open spec fn set_rows_in_turn(mode: ModeView, requests: Seq<nat>) -> ModeView
    decreases requests.len(),
{
    if requests.len() == 0 {
        mode
    } else {
        set_rows_in_turn(mode, requests.drop_last()).set_rows(requests.last())
    }
}

/// Every mode shows at least one row, whatever rows it holds.
pub proof fn lemma_rows_at_least_one(mode: ModeView)
    ensures
        mode.rows() >= 1,
{
}

/// The bounds of an area that grows are shown as they were given, a lower bound of no
/// rows too. Every other mode has a lower bound of one row.
pub proof fn lemma_bounds_as_given(mode: ModeView)
    ensures
        mode matches ModeView::AutoGrow { min_rows, max_rows, .. } ==> mode.min_rows()
            == min_rows && mode.max_rows() == max_rows,
        !(mode is AutoGrow) ==> mode.min_rows() == 1,
        mode.bounds_ordered() ==> mode.min_rows() <= mode.max_rows(),
{
}

/// A multi-line input and a code editor hold the rows that were set, as they were given:
/// where none were asked for, the mode holds none and still shows one.
pub proof fn lemma_set_rows_keeps_request(mode: ModeView, new_rows: nat)
    requires
        mode is MultiLine || mode is CodeEditor,
    ensures
        mode.set_rows(new_rows) matches ModeView::MultiLine { rows, .. } ==> rows == new_rows,
        mode.set_rows(new_rows) matches ModeView::CodeEditor { rows, .. } ==> rows == new_rows,
        mode.set_rows(new_rows).rows() == if new_rows == 0 {
            1
        } else {
            new_rows
        },
{
}

/// In an area that grows and whose bounds are in order, the rows lie within the bounds
/// after every `set_rows`, whatever was asked for, and the bounds stay as they were. The
/// rows that the mode shows are never below its lower bound, and, where the upper bound
/// is at least one row, never above its upper bound.
pub proof fn lemma_auto_grow_set_rows_within_bounds(mode: ModeView, new_rows: nat)
    requires
        mode is AutoGrow,
        mode.bounds_ordered(),
    ensures
        mode.set_rows(new_rows).wf(),
        mode.set_rows(new_rows) matches ModeView::AutoGrow { rows, min_rows, max_rows }
            && min_rows == mode->min_rows && max_rows == mode->max_rows && min_rows <= rows
            <= max_rows,
        mode.set_rows(new_rows).min_rows() <= mode.set_rows(new_rows).rows(),
        mode->max_rows >= 1 ==> mode.set_rows(new_rows).rows() <= mode.set_rows(
            new_rows,
        ).max_rows(),
{
}

/// In an area that grows and whose bounds are in order, the rows lie within the bounds
/// after any run of one or more `set_rows`, whatever each of them asked for. The rows
/// that the mode shows are never below its lower bound, and, where the upper bound is at
/// least one row, never above its upper bound: with an upper bound of no rows the mode
/// still shows one.
pub proof fn lemma_auto_grow_rows_stay_within_bounds(mode: ModeView, requests: Seq<nat>)
    requires
        mode is AutoGrow,
        mode.bounds_ordered(),
        requests.len() >= 1,
    ensures
        set_rows_in_turn(mode, requests).wf(),
        set_rows_in_turn(mode, requests) matches ModeView::AutoGrow { min_rows, max_rows, .. }
            && min_rows == mode->min_rows && max_rows == mode->max_rows,
        set_rows_in_turn(mode, requests).min_rows() <= set_rows_in_turn(mode, requests).rows(),
        mode->max_rows >= 1 ==> set_rows_in_turn(mode, requests).rows() <= set_rows_in_turn(
            mode,
            requests,
        ).max_rows(),
    decreases requests.len(),
{
    if requests.len() > 1 {
        lemma_auto_grow_rows_stay_within_bounds(mode, requests.drop_last());
    } else {
        assert(set_rows_in_turn(mode, requests.drop_last()) == mode);
    }
    lemma_auto_grow_set_rows_within_bounds(
        set_rows_in_turn(mode, requests.drop_last()),
        requests.last(),
    );
}

/// At most one marker is the first that covers an offset.
pub proof fn lemma_first_covering_is_unique(
    markers: Seq<MarkerView>,
    offset: nat,
    one: int,
    other: int,
)
    requires
        is_first_covering(markers, offset, one),
        is_first_covering(markers, offset, other),
    ensures
        one == other,
{
}

/// Where several markers of a code editor cover an offset, the lookup gives the one that
/// comes first in the list.
pub proof fn lemma_marker_for_offset_is_first(mode: ModeView, offset: nat, index: int)
    requires
        mode is CodeEditor,
        is_first_covering(mode->markers, offset, index),
    ensures
        mode.marker_for_offset(offset) == Some(mode->markers[index]),
{
    let found = choose|i: int| is_first_covering(mode->markers, offset, i);
    lemma_first_covering_is_unique(mode->markers, offset, found, index);
}

/// The lookup gives no marker exactly where the mode has no markers or none of them
/// covers the offset.
pub proof fn lemma_marker_for_offset_none(mode: ModeView, offset: nat)
    ensures
        mode.marker_for_offset(offset).is_none() <==> (mode.markers() matches Some(markers)
            ==> forall|i: int| 0 <= i < markers.len() ==> !(#[trigger] markers[i]).covers(offset)),
{
    if let Some(markers) = mode.markers() {
        if exists|i: int| 0 <= i < markers.len() && (#[trigger] markers[i]).covers(offset) {
            let some = choose|i: int| 0 <= i < markers.len() && (#[trigger] markers[i]).covers(
                offset,
            );
            lemma_some_marker_is_first(markers, offset, some);
        }
    }
}

/// Where a marker covers an offset, some marker is the first that does.
pub proof fn lemma_some_marker_is_first(markers: Seq<MarkerView>, offset: nat, index: int)
    requires
        0 <= index < markers.len(),
        markers[index].covers(offset),
    ensures
        exists|first: int| is_first_covering(markers, offset, first) && first <= index,
    decreases index,
{
    if exists|earlier: int| 0 <= earlier < index && (#[trigger] markers[earlier]).covers(offset) {
        let earlier = choose|earlier: int|
            0 <= earlier < index && (#[trigger] markers[earlier]).covers(offset);
        lemma_some_marker_is_first(markers, offset, earlier);
    } else {
        assert(is_first_covering(markers, offset, index));
    }
}

/// A marker without a range is never found, at any offset: the marker that the lookup
/// gives has a range, and the offset lies in it.
pub proof fn lemma_marker_for_offset_covers(mode: ModeView, offset: nat)
    ensures
        mode.marker_for_offset(offset) matches Some(marker) ==> marker.range matches Some(
            (start, end),
        ) && start <= offset < end,
        forall|marker: MarkerView| marker.range.is_none() ==> !#[trigger] marker.covers(offset),
{
    if let ModeView::CodeEditor { markers, .. } = mode {
        if exists|i: int| is_first_covering(markers, offset, i) {
            let found = choose|i: int| is_first_covering(markers, offset, i);
            assert(markers[found].covers(offset));
        }
    }
}

/// After `clear_markers` a code editor has an empty list of markers and finds none at any
/// offset, and nothing else of it has changed: putting the earlier markers back gives the
/// earlier mode.
///
/// That a list taken before the call still reads as it did is no clause here. It follows
/// from what the list is: the mode holds a shared list that is never changed in place,
/// and `clear_markers` gives the mode a new list and leaves the old one alone.
pub proof fn lemma_clear_markers_leaves_none(mode: ModeView, offset: nat)
    requires
        mode is CodeEditor,
    ensures
        mode.clear_markers().markers() == Some(Seq::<MarkerView>::empty()),
        mode.clear_markers().marker_for_offset(offset).is_none(),
        mode.clear_markers().set_markers(mode->markers) == mode,
{
}

/// A change to the text leaves every mode but a code editor as it is: none of them ever
/// has a highlighter.
pub proof fn lemma_update_highlighter_only_in_code_editor(
    mode: ModeView,
    edit: EditView,
    full_text: Seq<char>,
)
    requires
        !(mode is CodeEditor),
    ensures
        mode.update_highlighter(edit, full_text) == mode,
{
}

/// A code editor makes its highlighter once. After two changes to the text the
/// highlighter is the one that the first change left, told of the second change too: it
/// is bound to the same language and holds both changes, the first before the second.
pub proof fn lemma_highlighter_made_once(
    mode: ModeView,
    first: EditView,
    first_text: Seq<char>,
    second: EditView,
    second_text: Seq<char>,
)
    requires
        mode is CodeEditor,
    ensures
        ({
            let once = mode.update_highlighter(first, first_text);
            let twice = once.update_highlighter(second, second_text);
            &&& once is CodeEditor
            &&& twice is CodeEditor
            &&& once->highlighter matches Some(h1)
            &&& twice->highlighter matches Some(h2)
            &&& h2 == h1.update(second, second_text)
            &&& h2.language == h1.language
            &&& h2.edits == h1.edits.push(second)
            &&& h1.edits.last() == first
            &&& mode->highlighter matches Some(h0) ==> h1 == h0.update(first, first_text)
                && h2.language == h0.language && h2.edits == h0.edits.push(first).push(second)
            &&& mode->highlighter.is_none() ==> h2.language == mode->language && h2.edits
                == seq![first, second]
        }),
{
    let once = mode.update_highlighter(first, first_text);
    let twice = once.update_highlighter(second, second_text);
    if mode->highlighter.is_none() {
        assert(twice->highlighter.unwrap().edits =~= seq![first, second]);
    }
}

/// A code editor that has no highlighter yet, as every newly made one, gets a highlighter
/// of its own at the first change to its text: one for its language that holds this
/// change and no other, whatever the highlighter of any earlier mode was told.
pub proof fn lemma_new_code_editor_gets_fresh_highlighter(
    mode: ModeView,
    edit: EditView,
    full_text: Seq<char>,
)
    requires
        mode is CodeEditor,
        mode->highlighter.is_none(),
    ensures
        mode.update_highlighter(edit, full_text)->highlighter == Some(
            HighlighterView::new(mode->language).update(edit, full_text),
        ),
        mode.update_highlighter(edit, full_text)->highlighter matches Some(h) && h.language
            == mode->language && h.text == full_text && h.edits == seq![edit],
{
    let h = mode.update_highlighter(edit, full_text)->highlighter.unwrap();
    assert(h.edits =~= seq![edit]);
}

} // verus!
