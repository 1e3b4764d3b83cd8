use std::ops::Range;
use vstd::prelude::*;

verus! {

/// A decoration of a stretch of the text, such as a diagnostic.
///
/// The range counts offsets in the text as it stood when the marker was made. A later
/// change to the text does not move it: whoever made the markers makes them anew.
#[derive(Debug, PartialEq, Eq)]
pub struct Marker {
    /// The offsets that the marker decorates, the end not included. A marker without a
    /// range decorates nothing.
    pub range: Option<Range<usize>>,
    /// What the marker says of the text.
    pub message: String,
}

/// A [`Marker`] as plain values.
pub struct MarkerView {
    pub range: Option<(nat, nat)>,
    pub message: Seq<char>,
}

impl MarkerView {
    /// Whether the marker decorates `offset`: it has a range, and `offset` is at or past
    /// the start and before the end of it.
    pub open spec fn covers(self, offset: nat) -> bool {
        match self.range {
            Some((start, end)) => start <= offset < end,
            None => false,
        }
    }
}

impl View for Marker {
    type V = MarkerView;

    open spec fn view(&self) -> MarkerView {
        MarkerView {
            range: match self.range {
                Some(range) => Some((range.start as nat, range.end as nat)),
                None => None,
            },
            message: self.message@,
        }
    }
}

impl Clone for Marker {
    fn clone(&self) -> (copy: Self)
        ensures
            copy == *self,
    {
        Marker {
            range: match &self.range {
                Some(range) => Some(range.start..range.end),
                None => None,
            },
            message: self.message.clone(),
        }
    }
}

/// The markers of a list as plain values, in the order of the list.
pub open spec fn marker_views(markers: Seq<Marker>) -> Seq<MarkerView> {
    markers.map_values(|m: Marker| m@)
}

/// Whether the marker at `index` is the first of `markers` that covers `offset`.
pub open spec fn is_first_covering(markers: Seq<MarkerView>, offset: nat, index: int) -> bool {
    &&& 0 <= index < markers.len()
    &&& markers[index].covers(offset)
    &&& forall|earlier: int| 0 <= earlier < index ==> !(#[trigger] markers[earlier]).covers(offset)
}

} // verus!
