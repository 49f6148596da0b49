//! The transition resolver: the fixed table from a pressed button's index to
//! the next card's image URL and button labels, with an invalid-input result
//! for every index outside the table. The table is the entire business logic;
//! adding an interaction state means adding one entry here.

use vstd::prelude::*;
use vstd::seq_lib::*;
use vstd::string::StringExecFns;
use crate::config::Config;
use crate::errors::AppError;
use crate::urls::build_url;

verus! {

/// One labeled button of a card.
pub struct Button {
    pub label: String,
}

/// The mathematical outcome of resolving a button index: either the next
/// card (image URL and ordered button labels) or the invalid-input signal
/// with its reason.
#[verifier::ext_equal]
pub enum TransitionView {
    NextState { image: Seq<char>, labels: Seq<Seq<char>> },
    Invalid { reason: Seq<char> },
}

/// The ordered labels of a button sequence, as the card's surface shows them.
pub open spec fn labels_view(buttons: Seq<Button>) -> Seq<Seq<char>> {
    buttons.map_values(|b: Button| b.label@)
}

/// The decimal digit character for a value below ten.
pub open spec fn spec_digit(d: int) -> char {
    if d == 0 {
        '0'
    } else if d == 1 {
        '1'
    } else if d == 2 {
        '2'
    } else if d == 3 {
        '3'
    } else if d == 4 {
        '4'
    } else if d == 5 {
        '5'
    } else if d == 6 {
        '6'
    } else if d == 7 {
        '7'
    } else if d == 8 {
        '8'
    } else {
        '9'
    }
}

/// The usual decimal rendering of a natural number, most significant digit
/// first, with no leading zeros (a lone zero renders as "0").
pub open spec fn spec_decimal(n: nat) -> Seq<char>
    decreases n,
{
    if n < 10 {
        seq![spec_digit(n as int)]
    } else {
        spec_decimal(n / 10) + seq![spec_digit((n % 10) as int)]
    }
}

/// The reason string reported for an index with no table entry.
pub open spec fn spec_invalid_reason(index: usize) -> Seq<char> {
    "Invalid button index: "@ + spec_decimal(index as nat)
}

/// The resolver's fixed table. Indices 1 through 3 map to two-button
/// confirm/back cards, index 4 to the four-button menu; everything else is
/// invalid.
pub open spec fn spec_resolve(index: usize, domain: Seq<char>) -> TransitionView {
    if index == 1 {
        TransitionView::NextState {
            image: domain + "/assets/buy_boost.png"@,
            labels: seq!["Confirm"@, "Back"@],
        }
    } else if index == 2 {
        TransitionView::NextState {
            image: domain + "/assets/add_liquidity.png"@,
            labels: seq!["Add"@, "Back"@],
        }
    } else if index == 3 {
        TransitionView::NextState {
            image: domain + "/assets/gift.png"@,
            labels: seq!["Send Gift"@, "Back"@],
        }
    } else if index == 4 {
        TransitionView::NextState {
            image: domain + "/assets/more.png"@,
            labels: seq!["Reward"@, "Bid"@, "Top-up"@, "Back"@],
        }
    } else {
        TransitionView::Invalid { reason: spec_invalid_reason(index) }
    }
}

/// What a `process_button` result means as a transition outcome: a success
/// carries the next card, the error carries the invalid-input reason.
pub open spec fn transition_view(r: Result<(String, Vec<Button>), AppError>) -> TransitionView {
    match r {
        Ok((image, buttons)) => TransitionView::NextState {
            image: image@,
            labels: labels_view(buttons@),
        },
        Err(AppError::BadRequest(reason)) => TransitionView::Invalid { reason: reason@ },
    }
}

/// The single decimal digit of a value below ten, as a string slice.
fn digit_str(d: usize) -> (r: &'static str)
    requires
        d < 10,
    ensures
        r@ == seq![spec_digit(d as int)],
{
    match d {
        0 => {
            proof {
                reveal_strlit("0");
                assert("0"@ =~= seq!['0']);
            }
            "0"
        },
        1 => {
            proof {
                reveal_strlit("1");
                assert("1"@ =~= seq!['1']);
            }
            "1"
        },
        2 => {
            proof {
                reveal_strlit("2");
                assert("2"@ =~= seq!['2']);
            }
            "2"
        },
        3 => {
            proof {
                reveal_strlit("3");
                assert("3"@ =~= seq!['3']);
            }
            "3"
        },
        4 => {
            proof {
                reveal_strlit("4");
                assert("4"@ =~= seq!['4']);
            }
            "4"
        },
        5 => {
            proof {
                reveal_strlit("5");
                assert("5"@ =~= seq!['5']);
            }
            "5"
        },
        6 => {
            proof {
                reveal_strlit("6");
                assert("6"@ =~= seq!['6']);
            }
            "6"
        },
        7 => {
            proof {
                reveal_strlit("7");
                assert("7"@ =~= seq!['7']);
            }
            "7"
        },
        8 => {
            proof {
                reveal_strlit("8");
                assert("8"@ =~= seq!['8']);
            }
            "8"
        },
        _ => {
            proof {
                reveal_strlit("9");
                assert("9"@ =~= seq!['9']);
            }
            "9"
        },
    }
}

/// Render a number in decimal, matching `spec_decimal`.
fn decimal_string(n: usize) -> (r: String)
    ensures
        r@ == spec_decimal(n as nat),
    decreases n,
{
    if n < 10 {
        digit_str(n).to_owned()
    } else {
        let mut s = decimal_string(n / 10);
        s.append(digit_str(n % 10));
        s
    }
}

/// Resolve a pressed button's index to the next card, or report an invalid
/// index. Pure in both inputs: the result is exactly `spec_resolve` of them,
/// with no side effect and no state carried between calls.
pub fn process_button(button_index: usize, config: &Config) -> (r: Result<
    (String, Vec<Button>),
    AppError,
>)
    ensures
        transition_view(r) == spec_resolve(button_index, config.domain@),
{
    match button_index {
        1 => {
            let image = build_url(config.domain.as_str(), "/assets/buy_boost.png");
            let buttons = vec![
                Button { label: "Confirm".to_owned() },
                Button { label: "Back".to_owned() },
            ];
            let r = Ok((image, buttons));
            proof {
                assert(transition_view(r) =~~= spec_resolve(button_index, config.domain@));
            }
            r
        },
        2 => {
            let image = build_url(config.domain.as_str(), "/assets/add_liquidity.png");
            let buttons = vec![
                Button { label: "Add".to_owned() },
                Button { label: "Back".to_owned() },
            ];
            let r = Ok((image, buttons));
            proof {
                assert(transition_view(r) =~~= spec_resolve(button_index, config.domain@));
            }
            r
        },
        3 => {
            let image = build_url(config.domain.as_str(), "/assets/gift.png");
            let buttons = vec![
                Button { label: "Send Gift".to_owned() },
                Button { label: "Back".to_owned() },
            ];
            let r = Ok((image, buttons));
            proof {
                assert(transition_view(r) =~~= spec_resolve(button_index, config.domain@));
            }
            r
        },
        4 => {
            let image = build_url(config.domain.as_str(), "/assets/more.png");
            let buttons = vec![
                Button { label: "Reward".to_owned() },
                Button { label: "Bid".to_owned() },
                Button { label: "Top-up".to_owned() },
                Button { label: "Back".to_owned() },
            ];
            let r = Ok((image, buttons));
            proof {
                assert(transition_view(r) =~~= spec_resolve(button_index, config.domain@));
            }
            r
        },
        _ => {
            let mut reason = "Invalid button index: ".to_owned();
            reason.append(decimal_string(button_index).as_str());
            Err(AppError::BadRequest(reason))
        },
    }
}

/// The fixed fallback card shown when the index had no table entry: the main
/// entry image with an error notice, so the caller's surface always receives
/// a renderable card. Defined here, and only here.
pub open spec fn spec_fallback_labels() -> Seq<Seq<char>> {
    seq!["Error Occurred"@, "Try Again"@]
}

/// Build the fixed fallback card: the main entry image and the error labels.
/// The fallback's content is defined here and nowhere else.
pub fn fallback_response(config: &Config) -> (r: (String, Vec<Button>))
    ensures
        r.0@ == config.domain@ + "/assets/main.png"@,
        labels_view(r.1@) == spec_fallback_labels(),
        r.1@.len() == 2,
{
    let image = build_url(config.domain.as_str(), "/assets/main.png");
    let buttons = vec![
        Button { label: "Error Occurred".to_owned() },
        Button { label: "Try Again".to_owned() },
    ];
    proof {
        assert(labels_view(buttons@) =~~= spec_fallback_labels());
    }
    (image, buttons)
}

/// Resolve a button index into the card the caller is answered with: the
/// table's next card for an in-table index, the fixed fallback card for any
/// other. This is the one step that turns the resolver's internal result into
/// the always-successful response shape, and it always yields a card with one
/// to four buttons.
pub fn frame_response(button_index: usize, config: &Config) -> (r: (String, Vec<Button>))
    ensures
        spec_resolve(button_index, config.domain@) matches TransitionView::NextState {
            image,
            labels,
        } ==> r.0@ == image && labels_view(r.1@) == labels,
        spec_resolve(button_index, config.domain@) is Invalid ==> r.0@ == config.domain@
            + "/assets/main.png"@ && labels_view(r.1@) == spec_fallback_labels(),
        1 <= r.1@.len() <= 4,
{
    match process_button(button_index, config) {
        Ok((image, buttons)) => {
            proof {
                assert(labels_view(buttons@).len() == buttons@.len());
            }
            (image, buttons)
        },
        Err(_) => fallback_response(config),
    }
}

/// Every in-table index (1 through 4) resolves to a next card whose button
/// count is within the surface's one-to-four constraint and whose image URL
/// starts with the configured domain.
pub proof fn lemma_resolve_in_table(index: usize, domain: Seq<char>)
    requires
        1 <= index <= 4,
    ensures
        spec_resolve(index, domain) is NextState,
        1 <= spec_resolve(index, domain)->labels.len() <= 4,
        domain.is_prefix_of(spec_resolve(index, domain)->image),
{
    assert(domain.is_prefix_of(spec_resolve(index, domain)->image)) by {
        assert(spec_resolve(index, domain)->image.subrange(0, domain.len() as int) =~= domain);
    }
}

/// Every index outside the table (anything but 1 through 4) resolves to the
/// invalid-input result, with the offending index named in the reason.
pub proof fn lemma_resolve_out_of_table(index: usize, domain: Seq<char>)
    requires
        index == 0 || index > 4,
    ensures
        spec_resolve(index, domain) is Invalid,
        spec_resolve(index, domain)->reason == spec_invalid_reason(index),
{
}

/// The resolver is pure: any two results that meet `process_button`'s
/// contract for identical inputs are the same transition outcome. There is no
/// hidden state and no ordering dependence between calls.
pub proof fn lemma_resolve_pure(
    r1: Result<(String, Vec<Button>), AppError>,
    r2: Result<(String, Vec<Button>), AppError>,
    index: usize,
    domain: Seq<char>,
)
    requires
        transition_view(r1) == spec_resolve(index, domain),
        transition_view(r2) == spec_resolve(index, domain),
    ensures
        transition_view(r1) == transition_view(r2),
{
}

} // verus!
