//! The frame renderer: the deterministic, always-successful entry card and
//! the markup that embeds it. Its four button labels stand, in order, for the
//! four entries of the transition resolver's table.

use vstd::prelude::*;
use vstd::seq_lib::*;
use vstd::string::StringExecFns;
use crate::config::Config;
use crate::frame_logic::spec_resolve;
use crate::urls::build_url;

verus! {

/// The entry card: its image, the endpoint subsequent actions are posted to,
/// and its ordered button labels. Constructed fresh per request and never
/// mutated.
pub struct FrameDescriptor {
    pub image_url: String,
    pub action_url: String,
    pub button_labels: Vec<String>,
}

impl FrameDescriptor {
    /// Protocol constraint of the rendering surface: a card carries one to
    /// four buttons.
    pub open spec fn wf(&self) -> bool {
        1 <= self.button_labels@.len() <= 4
    }
}

/// The ordered label sequences of the descriptor's buttons.
pub open spec fn strings_view(labels: Seq<String>) -> Seq<Seq<char>> {
    labels.map_values(|s: String| s@)
}

/// The entry card's image URL: the domain followed by the fixed main asset
/// path.
pub open spec fn spec_entry_image(domain: Seq<char>) -> Seq<char> {
    domain + "/assets/main.png"@
}

/// The endpoint button presses are posted to: the domain followed by the
/// fixed action path.
pub open spec fn spec_action_url(domain: Seq<char>) -> Seq<char> {
    domain + "/api/frame"@
}

/// The entry card's fixed button labels, in order. Position k (1-indexed)
/// names the interaction the resolver's table defines for index k.
pub open spec fn spec_entry_labels() -> Seq<Seq<char>> {
    seq!["Buy & Boost"@, "Add Liquidity"@, "Gift"@, "More"@]
}

/// Build the entry card. Always succeeds: a pure templating function over
/// the configured domain.
pub fn render_entry(config: &Config) -> (r: FrameDescriptor)
    ensures
        r.image_url@ == spec_entry_image(config.domain@),
        r.action_url@ == spec_action_url(config.domain@),
        strings_view(r.button_labels@) == spec_entry_labels(),
        r.wf(),
{
    let image_url = build_url(config.domain.as_str(), "/assets/main.png");
    let action_url = build_url(config.domain.as_str(), "/api/frame");
    let button_labels = vec![
        "Buy & Boost".to_owned(),
        "Add Liquidity".to_owned(),
        "Gift".to_owned(),
        "More".to_owned(),
    ];
    proof {
        assert(strings_view(button_labels@) =~~= spec_entry_labels());
    }
    FrameDescriptor { image_url, action_url, button_labels }
}

/// The markup of the entry document: the protocol's fixed metadata fields
/// (version marker, image, the four ordered button labels, post target)
/// around the two URLs built from the domain.
pub open spec fn spec_entry_page(domain: Seq<char>) -> Seq<char> {
    "<!DOCTYPE html>\n<html lang=\"en\">\n<head>\n<meta charset=\"UTF-8\">\n<meta name=\"viewport\" content=\"width=device-width, initial-scale=1.0\">\n<title>Moxie Store Frame</title>\n<meta property=\"fc:frame\" content=\"vNext\" />\n<meta property=\"fc:frame:image\" content=\""@
        + spec_entry_image(domain)
        + "\" />\n<meta property=\"fc:frame:button:1\" content=\"Buy & Boost\" />\n<meta property=\"fc:frame:button:2\" content=\"Add Liquidity\" />\n<meta property=\"fc:frame:button:3\" content=\"Gift\" />\n<meta property=\"fc:frame:button:4\" content=\"More\" />\n<meta property=\"fc:frame:post_url\" content=\""@
        + spec_action_url(domain)
        + "\" />\n</head>\n<body>\n<h1>Moxie Store Frame</h1>\n</body>\n</html>\n"@
}

/// Serialize the entry card into the markup document the rendering surface
/// reads. A thin, deterministic formatting step over the descriptor's field
/// values; the result is never empty.
pub fn render_entry_html(config: &Config) -> (r: String)
    ensures
        r@ == spec_entry_page(config.domain@),
        r@.len() > 0,
{
    let entry = render_entry(config);
    let mut page =
        "<!DOCTYPE html>\n<html lang=\"en\">\n<head>\n<meta charset=\"UTF-8\">\n<meta name=\"viewport\" content=\"width=device-width, initial-scale=1.0\">\n<title>Moxie Store Frame</title>\n<meta property=\"fc:frame\" content=\"vNext\" />\n<meta property=\"fc:frame:image\" content=\"".to_owned();
    page.append(entry.image_url.as_str());
    page.append(
        "\" />\n<meta property=\"fc:frame:button:1\" content=\"Buy & Boost\" />\n<meta property=\"fc:frame:button:2\" content=\"Add Liquidity\" />\n<meta property=\"fc:frame:button:3\" content=\"Gift\" />\n<meta property=\"fc:frame:button:4\" content=\"More\" />\n<meta property=\"fc:frame:post_url\" content=\"",
    );
    page.append(entry.action_url.as_str());
    page.append("\" />\n</head>\n<body>\n<h1>Moxie Store Frame</h1>\n</body>\n</html>\n");
    proof {
        reveal_strlit(
            "<!DOCTYPE html>\n<html lang=\"en\">\n<head>\n<meta charset=\"UTF-8\">\n<meta name=\"viewport\" content=\"width=device-width, initial-scale=1.0\">\n<title>Moxie Store Frame</title>\n<meta property=\"fc:frame\" content=\"vNext\" />\n<meta property=\"fc:frame:image\" content=\"",
        );
    }
    page
}

/// Cross-component invariant: the entry card's ordered button labels and the
/// resolver's table line up position for position. Every 1-indexed label
/// position of the entry card is exactly an index the resolver defines a next
/// card for, so a pressed button never reaches a stale or missing transition.
pub proof fn lemma_entry_buttons_match_transitions(domain: Seq<char>)
    ensures
        spec_entry_labels().len() == 4,
        forall|k: usize|
            1 <= k <= spec_entry_labels().len() ==> (#[trigger] spec_resolve(k, domain))
                is NextState,
        forall|k: usize|
            spec_resolve(k, domain) is NextState ==> 1 <= k <= spec_entry_labels().len(),
{
}

} // verus!
