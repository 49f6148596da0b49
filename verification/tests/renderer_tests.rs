use goat_frame::config::Config;
use goat_frame::frame_logic::{frame_response, process_button};
use goat_frame::renderer::{render_entry, render_entry_html};

#[test]
fn test_render_entry_fields() {
    let config = Config {
        domain: "http://localhost".to_string(),
    };

    let entry = render_entry(&config);

    assert_eq!(entry.image_url, "http://localhost/assets/main.png");
    assert_eq!(entry.action_url, "http://localhost/api/frame");
    assert_eq!(entry.button_labels.len(), 4);
    assert_eq!(entry.button_labels[0], "Buy & Boost");
    assert_eq!(entry.button_labels[1], "Add Liquidity");
    assert_eq!(entry.button_labels[2], "Gift");
    assert_eq!(entry.button_labels[3], "More");
}

#[test]
fn test_entry_buttons_match_resolver_table() {
    let config = Config {
        domain: "http://localhost".to_string(),
    };

    let entry = render_entry(&config);

    // Every 1-indexed label position of the entry card has a transition
    // defined for the same index, and no further index does.
    for position in 1..=entry.button_labels.len() {
        assert!(process_button(position, &config).is_ok());
    }
    assert!(process_button(0, &config).is_err());
    assert!(process_button(entry.button_labels.len() + 1, &config).is_err());
}

#[test]
fn test_render_entry_html_embeds_protocol_fields() {
    let config = Config {
        domain: "http://localhost".to_string(),
    };

    let html = render_entry_html(&config);

    assert!(!html.is_empty());
    assert!(html.contains("<meta property=\"fc:frame\" content=\"vNext\" />"));
    assert!(html.contains(
        "<meta property=\"fc:frame:image\" content=\"http://localhost/assets/main.png\" />"
    ));
    assert!(html.contains("<meta property=\"fc:frame:button:1\" content=\"Buy & Boost\" />"));
    assert!(html.contains("<meta property=\"fc:frame:button:2\" content=\"Add Liquidity\" />"));
    assert!(html.contains("<meta property=\"fc:frame:button:3\" content=\"Gift\" />"));
    assert!(html.contains("<meta property=\"fc:frame:button:4\" content=\"More\" />"));
    assert!(html.contains(
        "<meta property=\"fc:frame:post_url\" content=\"http://localhost/api/frame\" />"
    ));
}

#[test]
fn test_frame_response_valid_index() {
    let config = Config {
        domain: "http://localhost".to_string(),
    };

    let (image, buttons) = frame_response(1, &config);

    assert_eq!(image, "http://localhost/assets/buy_boost.png");
    assert_eq!(buttons.len(), 2);
    assert_eq!(buttons[0].label, "Confirm");
    assert_eq!(buttons[1].label, "Back");
}

#[test]
fn test_frame_response_invalid_index_falls_back() {
    let config = Config {
        domain: "http://localhost".to_string(),
    };

    // An out-of-table index still yields a renderable card: the main entry
    // image with the fixed error labels.
    let (image, buttons) = frame_response(999, &config);

    assert_eq!(image, "http://localhost/assets/main.png");
    assert_eq!(buttons.len(), 2);
    assert_eq!(buttons[0].label, "Error Occurred");
    assert_eq!(buttons[1].label, "Try Again");
}
