use cargo_registry_readme::router::{head, push_port, route, Asset, Route};

const ASSETS: [(Asset, &str, &str); 13] = [
    (Asset::ReloadScript, "/ws.js", "text/javascript"),
    (Asset::Highlight, "/highlight.min.js", "text/javascript"),
    (Asset::GithubStyle, "/github.min.css", "text/css"),
    (Asset::OutputStyle, "/output.css", "text/css"),
    (Asset::Rustacean, "/rustacean-flat-happy.png", "image/png"),
    (Asset::Downloads, "/downloads.png", "image/png"),
    (Asset::Favicon, "/favicon.ico", "image/x-icon"),
    (Asset::FiraSansBold, "/woff/FiraSans-Bold.woff", "font/woff"),
    (Asset::FiraSansItalic, "/woff/FiraSans-Italic.woff", "font/woff"),
    (Asset::FiraSansRegular, "/woff/FiraSans-Regular.woff", "font/woff"),
    (Asset::FiraMonoRegular, "/woff/FiraMono-Regular.woff", "font/woff"),
    (Asset::Logo, "/logo.png", "image/png"),
    (Asset::FiraStyle, "/fira.css", "text/css"),
];

#[test]
fn upgrade_path_goes_to_the_handler() {
    assert_eq!(route("/ws"), Route::Upgrade);
    assert!(head(Route::Upgrade).is_none());
}

#[test]
fn root_serves_the_document() {
    assert_eq!(route("/"), Route::Document);
    let answer = head(Route::Document).unwrap();
    assert_eq!(answer.status, 200);
    assert_eq!(answer.header.field, "Content-Type");
    assert_eq!(answer.header.value, "text/html");
}

#[test]
fn every_asset_is_served_under_its_path() {
    for (asset, path, content_type) in ASSETS {
        assert_eq!(route(path), Route::Asset(asset));
        assert_eq!(asset.path(), path);
        assert_eq!(asset.content_type(), content_type);
        let answer = head(Route::Asset(asset)).unwrap();
        assert_eq!(answer.status, 200);
        assert_eq!(answer.header.field, "Content-Type");
        assert_eq!(answer.header.value, content_type);
    }
}

#[test]
fn unknown_paths_redirect_to_root() {
    for path in ["/nope", "", "/ws/", "/WS", "//", "/index.html", "/woff", "/logo.png?x=1", "ws"] {
        assert_eq!(route(path), Route::Redirect);
    }
    let answer = head(Route::Redirect).unwrap();
    assert_eq!(answer.status, 308);
    assert_eq!(answer.header.field, "Location");
    assert_eq!(answer.header.value, "/");
}

#[test]
fn push_port_is_the_bound_port_on_the_local_host() {
    assert_eq!(push_port("127.0.0.1", 8080), 8080);
    assert_eq!(push_port("127.0.0.1", 0), 0);
}

#[test]
fn push_port_is_eighty_behind_another_host() {
    assert_eq!(push_port("example.ngrok.io", 8080), 80);
    assert_eq!(push_port("localhost", 8080), 80);
    assert_eq!(push_port("", 1), 80);
}
