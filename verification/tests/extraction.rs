use ferris_fetch::extract::extract_assets;
use ferris_fetch::orchestrate::plan_assets;

fn sorted(mut v: Vec<String>) -> Vec<String> {
    v.sort();
    v
}

#[test]
fn end_to_end_scenario_excludes_self_reference() {
    let html = "<html><img src=\"/a.png\"><a href=\"https://ex.test/\"></a></html>";
    let assets = plan_assets(html, "https://ex.test/");
    assert_eq!(assets, vec!["https://ex.test/a.png".to_string()]);
}

#[test]
fn extract_keeps_self_reference_before_planning() {
    let html = "<html><img src=\"/a.png\"><a href=\"https://ex.test/\"></a></html>";
    let assets = sorted(extract_assets(html, "https://ex.test/"));
    assert_eq!(
        assets,
        vec![
            "https://ex.test/".to_string(),
            "https://ex.test/a.png".to_string(),
        ]
    );
}

#[test]
fn extract_covers_all_seven_pairs() {
    let html = "<html><head><link href=\"/style.css\"><script src=\"/app.js\"></script></head>\
                <body><a href=\"/page2.html\">x</a><img src=\"/pic.jpg\">\
                <video src=\"/clip.mp4\"></video><audio src=\"/tune.mp3\"></audio>\
                <source src=\"/alt.webm\"></body></html>";
    let assets = sorted(extract_assets(html, "https://ex.test/"));
    assert_eq!(
        assets,
        vec![
            "https://ex.test/alt.webm".to_string(),
            "https://ex.test/app.js".to_string(),
            "https://ex.test/clip.mp4".to_string(),
            "https://ex.test/page2.html".to_string(),
            "https://ex.test/pic.jpg".to_string(),
            "https://ex.test/style.css".to_string(),
            "https://ex.test/tune.mp3".to_string(),
        ]
    );
}

#[test]
fn extract_deduplicates_repeated_urls() {
    let html = "<img src=\"/a.png\"><img src=\"/a.png\"><a href=\"/a.png\"></a>";
    let assets = extract_assets(html, "https://ex.test/");
    assert_eq!(assets, vec!["https://ex.test/a.png".to_string()]);
}

#[test]
fn extract_tolerates_malformed_markup() {
    let html = "<html><body><img src='/b.png'><div <p unclosed></htm";
    let assets = extract_assets(html, "https://ex.test/");
    assert!(assets.contains(&"https://ex.test/b.png".to_string()));
}

#[test]
fn extract_of_empty_document_is_empty() {
    let assets = extract_assets("", "https://ex.test/");
    assert!(assets.is_empty());
}

#[test]
fn extract_drops_non_http_schemes() {
    let html = "<a href=\"mailto:a@b.test\"></a><a href=\"javascript:void(0)\"></a>";
    let assets = extract_assets(html, "https://ex.test/");
    assert!(assets.is_empty());
}

#[test]
fn extract_with_unusable_base_is_empty() {
    let html = "<img src=\"/a.png\">";
    let assets = extract_assets(html, "not a base url");
    assert!(assets.is_empty());
}

#[test]
fn plan_assets_keeps_distinct_urls_distinct() {
    // Trailing slash and query order make distinct asset identities.
    let html = "<a href=\"/x\"></a><a href=\"/x/\"></a><a href=\"/x?a=1&b=2\"></a>";
    let assets = plan_assets(html, "https://ex.test/");
    assert_eq!(assets.len(), 3);
}
