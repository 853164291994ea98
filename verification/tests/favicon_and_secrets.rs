use grinta::favicon::{
    after_default_attempt, after_initial_attempt, after_www_attempt, build_www_url,
    fetch_error_message, first_favicon_outcome, url_parse_error_message, FaviconStep, UrlParts,
};
use grinta::secrets::{
    generate_master_key, keyring_entry_error_message, keyring_error_message, keyring_service_name,
    master_key_account_name, master_key_action, master_key_store_error_message,
};

fn example_parts() -> UrlParts {
    UrlParts {
        scheme: "https".to_string(),
        host: Some("example.org".to_string()),
        port: Some(8443),
        path: "/a/b".to_string(),
        query: Some("q=1".to_string()),
        fragment: Some("top".to_string()),
    }
}

#[test]
fn www_variant_carries_every_component() {
    assert_eq!(
        build_www_url(&example_parts()).unwrap(),
        "https://www.example.org:8443/a/b?q=1#top"
    );
    let bare = UrlParts {
        scheme: "http".to_string(),
        host: Some("example.org".to_string()),
        port: None,
        path: "/".to_string(),
        query: None,
        fragment: None,
    };
    assert_eq!(build_www_url(&bare).unwrap(), "http://www.example.org/");
}

#[test]
fn www_variant_is_skipped_where_it_cannot_help() {
    let mut parts = example_parts();
    parts.host = Some("www.example.org".to_string());
    assert_eq!(build_www_url(&parts), None);
    parts.host = None;
    assert_eq!(build_www_url(&parts), None);
}

#[test]
fn favicon_flow_steps() {
    match after_initial_attempt(Ok("https://example.org/icon.png".to_string()), &example_parts()) {
        FaviconStep::Done(icon) => assert_eq!(icon, "https://example.org/icon.png"),
        _ => panic!("success must end the flow"),
    }
    match after_initial_attempt(Err("down".to_string()), &example_parts()) {
        FaviconStep::TryWww(url) => assert_eq!(url, "https://www.example.org:8443/a/b?q=1#top"),
        _ => panic!("failure with a host must try the www variant"),
    }
    let mut hostless = example_parts();
    hostless.host = None;
    match after_initial_attempt(Err("down".to_string()), &hostless) {
        FaviconStep::TryDefault => {}
        _ => panic!("failure without a host must fall back"),
    }
}

#[test]
fn www_failure_falls_back_to_favicon_ico() {
    assert_eq!(
        after_www_attempt(Ok("icon".to_string()), "https://www.example.org/"),
        "icon"
    );
    assert_eq!(
        after_www_attempt(Err("down".to_string()), "https://www.example.org/"),
        "https://www.example.org//favicon.ico"
    );
}

#[test]
fn default_attempt_summarizes_the_failure() {
    assert_eq!(
        after_default_attempt(Some("https://example.org/favicon.ico".to_string()), "https://example.org/", "down").unwrap(),
        "https://example.org/favicon.ico"
    );
    assert_eq!(
        after_default_attempt(None, "https://example.org/", "down").unwrap_err(),
        "All attempts failed for https://example.org/: initial error (down), www attempt failed or was skipped, and default icon path check failed."
    );
}

#[test]
fn favicon_listing_and_error_texts() {
    let hrefs = vec!["a.png".to_string(), "b.png".to_string()];
    assert_eq!(first_favicon_outcome(&hrefs, "https://x/").unwrap(), "a.png");
    assert_eq!(
        first_favicon_outcome(&Vec::new(), "https://x/").unwrap_err(),
        "No icons found by crate for https://x/"
    );
    assert_eq!(
        fetch_error_message("https://x/", "timed out"),
        "get_favicons_from_url failed for https://x/: timed out"
    );
    assert_eq!(
        url_parse_error_message("relative URL without a base"),
        "Initial URL parse failed: relative URL without a base"
    );
}

#[test]
fn keyring_names_and_messages() {
    assert_eq!(keyring_service_name(), "grinta");
    assert_eq!(master_key_account_name(), "master-key");
    assert_eq!(keyring_error_message("set", "oops"), "Keyring set error: oops");
    assert_eq!(
        keyring_entry_error_message("get", "boom"),
        "Keyring get error (entry): boom"
    );
    assert_eq!(
        master_key_store_error_message("no backend"),
        "Failed to set master key: no backend"
    );
}

#[test]
fn master_keys_are_44_characters_of_base64() {
    let key = generate_master_key();
    assert_eq!(key.len(), 44);
    assert!(key[0..43]
        .chars()
        .all(|c| c.is_ascii_alphanumeric() || c == '+' || c == '/'));
    // 32 bytes always leave one padding character.
    assert!(key.ends_with('='));
}

#[test]
fn master_key_bootstrap_only_fills_a_gap() {
    assert_eq!(master_key_action(Some("kept".to_string())), None);
    let fresh = master_key_action(None).unwrap();
    assert_eq!(fresh.len(), 44);
}
