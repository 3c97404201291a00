//! What a stop-sequence decoder is built with, from the stop parameters of a request.

use vstd::prelude::*;

use crate::duplicate::Duplicate;
use crate::protocols::common::StringOrArray;
use crate::protocols::common::StringOrArrayView;

verus! {

/// What ends the decoded text. A visible stop stays in the text; any other is cut off.
#[derive(Debug)]
pub struct StopDecoderConfig {
    pub skip_special_tokens: bool,
    pub stop_sequences: Vec<String>,
    pub visible_stop_sequences: Vec<String>,
    pub stop_tokens: Vec<u32>,
    pub visible_stop_tokens: Vec<u32>,
}

/// The stop sequences of a request.
pub open spec fn stop_list(stop: Option<StringOrArrayView>) -> Seq<Seq<char>> {
    match stop {
        Some(StringOrArrayView::String(s)) => seq![s],
        Some(StringOrArrayView::Array(list)) => list,
        None => Seq::empty(),
    }
}

pub fn stop_strings(stop: Option<&StringOrArray>) -> (r: Vec<String>)
    ensures
        r.deep_view() == stop_list(
            match stop {
                Some(s) => Some(s.deep_view()),
                None => None,
            },
        ),
{
    match stop {
        Some(StringOrArray::String(s)) => {
            let mut out: Vec<String> = Vec::new();
            out.push(s.clone());
            assert(out.deep_view() =~= seq![s@]);
            out
        },
        Some(StringOrArray::Array(list)) => list.duplicate(),
        None => {
            let out: Vec<String> = Vec::new();
            assert(out.deep_view() =~= Seq::empty());
            out
        },
    }
}

/// The stops of a request, all visible or none.
pub fn create_stop_decoder(
    stop: Option<&StringOrArray>,
    stop_token_ids: Option<&Vec<u32>>,
    skip_special_tokens: bool,
    no_stop_trim: bool,
) -> (r: StopDecoderConfig)
    ensures
        ({
            let sequences = stop_list(
                match stop {
                    Some(s) => Some(s.deep_view()),
                    None => None,
                },
            );
            let tokens = match stop_token_ids {
                Some(ids) => ids@,
                None => Seq::empty(),
            };
            &&& r.skip_special_tokens == skip_special_tokens
            &&& r.visible_stop_sequences.deep_view() == (if no_stop_trim {
                sequences
            } else {
                Seq::empty()
            })
            &&& r.stop_sequences.deep_view() == (if no_stop_trim {
                Seq::empty()
            } else {
                sequences
            })
            &&& r.visible_stop_tokens@ == (if no_stop_trim {
                tokens
            } else {
                Seq::empty()
            })
            &&& r.stop_tokens@ == (if no_stop_trim {
                Seq::empty()
            } else {
                tokens
            })
        }),
{
    let sequences = stop_strings(stop);
    let tokens: Vec<u32> = match stop_token_ids {
        Some(ids) => {
            let copy = ids.duplicate();
            assert(copy@ =~= copy.deep_view());
            assert(ids@ =~= ids.deep_view());
            copy
        },
        None => Vec::new(),
    };
    let no_sequences: Vec<String> = Vec::new();
    assert(no_sequences.deep_view() =~= Seq::empty());
    if no_stop_trim {
        StopDecoderConfig {
            skip_special_tokens,
            stop_sequences: no_sequences,
            visible_stop_sequences: sequences,
            stop_tokens: Vec::new(),
            visible_stop_tokens: tokens,
        }
    } else {
        StopDecoderConfig {
            skip_special_tokens,
            stop_sequences: sequences,
            visible_stop_sequences: no_sequences,
            stop_tokens: tokens,
            visible_stop_tokens: Vec::new(),
        }
    }
}

/// All stops of a request are visible where they are not to be trimmed, and none otherwise.
/// Each of them is there, and no other.
pub proof fn law_stops_are_visible_or_trimmed(
    stop: Option<&StringOrArray>,
    stop_token_ids: Option<&Vec<u32>>,
    skip_special_tokens: bool,
    no_stop_trim: bool,
    r: StopDecoderConfig,
)
    requires
        call_ensures(
            create_stop_decoder,
            (stop, stop_token_ids, skip_special_tokens, no_stop_trim),
            r,
        ),
    ensures
        r.skip_special_tokens == skip_special_tokens,
        ({
            let (kept, dropped) = if no_stop_trim {
                (r.visible_stop_sequences, r.stop_sequences)
            } else {
                (r.stop_sequences, r.visible_stop_sequences)
            };
            let (kept_tokens, dropped_tokens) = if no_stop_trim {
                (r.visible_stop_tokens, r.stop_tokens)
            } else {
                (r.stop_tokens, r.visible_stop_tokens)
            };
            &&& dropped@.len() == 0
            &&& dropped_tokens@.len() == 0
            &&& match stop {
                Some(StringOrArray::String(s)) => kept@.len() == 1 && kept@[0]@ == s@,
                Some(StringOrArray::Array(list)) => kept.deep_view() == list.deep_view(),
                None => kept@.len() == 0,
            }
            &&& match stop_token_ids {
                Some(ids) => kept_tokens@ == ids@,
                None => kept_tokens@.len() == 0,
            }
        }),
{
    assert(r.stop_sequences.deep_view().len() == r.stop_sequences@.len());
    assert(r.visible_stop_sequences.deep_view().len() == r.visible_stop_sequences@.len());
    if stop matches Some(StringOrArray::String(s)) {
        if no_stop_trim {
            assert(r.visible_stop_sequences.deep_view()[0] == r.visible_stop_sequences@[0]@);
        } else {
            assert(r.stop_sequences.deep_view()[0] == r.stop_sequences@[0]@);
        }
    }
}

/// One stop is a list of one; a list stays as it is; without stops there are none.
pub proof fn law_stops_are_listed(stop: Option<&StringOrArray>, r: Vec<String>)
    requires
        call_ensures(stop_strings, (stop,), r),
    ensures
        stop is None ==> r@.len() == 0,
        stop matches Some(s) ==> (*s matches StringOrArray::String(one) ==> r@.len() == 1
            && r@[0]@ == one@),
        stop matches Some(s) ==> (*s matches StringOrArray::Array(list) ==> {
            &&& r@.len() == list@.len()
            &&& forall|i: int| 0 <= i < list@.len() ==> r@[i]@ == (#[trigger] list@[i])@
        }),
{
    let said = r.deep_view();
    assert(said.len() == r@.len());
    assert forall|i: int| 0 <= i < r@.len() implies said[i] == (#[trigger] r@[i])@ by {}
    if let Some(s) = stop {
        match *s {
            StringOrArray::String(one) => {
                assert(said[0] == r@[0]@);
            },
            StringOrArray::Array(list) => {
                assert(said == list.deep_view());
                assert forall|i: int| 0 <= i < list@.len() implies r@[i]@ == (
                #[trigger] list@[i])@ by {
                    assert(list.deep_view()[i] == list@[i]@);
                    assert(said[i] == r@[i]@);
                }
            },
        }
    }
}

} // verus!
