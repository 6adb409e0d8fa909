use sensor::handler::assets::static_asset_path;

#[test]
fn leading_slashes_are_dropped() {
    assert_eq!(static_asset_path("/dashboard.html"), "dashboard.html");
    assert_eq!(static_asset_path("///export.html"), "export.html");
    assert_eq!(static_asset_path("plain"), "plain");
    assert_eq!(static_asset_path("/"), "");
}

#[test]
fn static_prefix_is_removed_everywhere() {
    assert_eq!(static_asset_path("/static/app.js"), "app.js");
    assert_eq!(static_asset_path("/static/css/static/x.css"), "css/x.css");
    assert_eq!(static_asset_path("/static/static/a"), "a");
    assert_eq!(static_asset_path("/staticstatic/a"), "staticstatic/a");
    // only a path that starts with the prefix loses its inner occurrences
    assert_eq!(static_asset_path("/img/static/a.png"), "img/static/a.png");
}

use sensor::handler::assets::{static_answer, StaticAnswer};

#[test]
fn found_assets_get_the_guessed_content_type() {
    assert_eq!(static_answer("app.js", true), StaticAnswer::Asset { content_type: "text/javascript".to_string() });
    assert_eq!(static_answer("css/site.css", true), StaticAnswer::Asset { content_type: "text/css".to_string() });
    assert_eq!(static_answer("dashboard.html", true), StaticAnswer::Asset { content_type: "text/html".to_string() });
    assert_eq!(
        static_answer("blob", true),
        StaticAnswer::Asset { content_type: "application/octet-stream".to_string() }
    );
}

#[test]
fn missing_assets_are_not_found() {
    assert_eq!(static_answer("app.js", false), StaticAnswer::Missing { body: "404".to_string() });
}
