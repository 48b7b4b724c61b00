//! The request router: from a request's path to what is served.

use crate::text::same_text;
use crate::upgrade::HeaderLine;
use vstd::prelude::*;

verus! {

/// The fixed files that the page needs.
#[derive(Clone, Copy, Debug, PartialEq, Eq)]
pub enum Asset {
    /// The script that opens the push channel.
    ReloadScript,
    /// The syntax highlighter.
    Highlight,
    /// The highlighter's style sheet.
    GithubStyle,
    /// The page's style sheet.
    OutputStyle,
    /// The mascot's picture.
    Rustacean,
    /// The downloads chart.
    Downloads,
    /// The site icon.
    Favicon,
    /// Fira Sans, bold.
    FiraSansBold,
    /// Fira Sans, italic.
    FiraSansItalic,
    /// Fira Sans, regular.
    FiraSansRegular,
    /// Fira Mono, regular.
    FiraMonoRegular,
    /// The registry's logo.
    Logo,
    /// The style sheet of the Fira fonts.
    FiraStyle,
}

/// Where a request goes.
#[derive(Clone, Copy, Debug, PartialEq, Eq)]
pub enum Route {
    /// The reserved upgrade path: the upgrade handler takes the request.
    Upgrade,
    /// The root: the current document, rendered into the page.
    Document,
    /// One of the fixed files.
    Asset(Asset),
    /// Anything else: a permanent redirect to the root.
    Redirect,
}

/// The path under which an asset is served.
pub open spec fn asset_path(asset: Asset) -> Seq<char> {
    match asset {
        Asset::ReloadScript => "/ws.js"@,
        Asset::Highlight => "/highlight.min.js"@,
        Asset::GithubStyle => "/github.min.css"@,
        Asset::OutputStyle => "/output.css"@,
        Asset::Rustacean => "/rustacean-flat-happy.png"@,
        Asset::Downloads => "/downloads.png"@,
        Asset::Favicon => "/favicon.ico"@,
        Asset::FiraSansBold => "/woff/FiraSans-Bold.woff"@,
        Asset::FiraSansItalic => "/woff/FiraSans-Italic.woff"@,
        Asset::FiraSansRegular => "/woff/FiraSans-Regular.woff"@,
        Asset::FiraMonoRegular => "/woff/FiraMono-Regular.woff"@,
        Asset::Logo => "/logo.png"@,
        Asset::FiraStyle => "/fira.css"@,
    }
}

/// The content type that an asset is served with.
pub open spec fn asset_type(asset: Asset) -> Seq<char> {
    match asset {
        Asset::ReloadScript => "text/javascript"@,
        Asset::Highlight => "text/javascript"@,
        Asset::GithubStyle => "text/css"@,
        Asset::OutputStyle => "text/css"@,
        Asset::Rustacean => "image/png"@,
        Asset::Downloads => "image/png"@,
        Asset::Favicon => "image/x-icon"@,
        Asset::FiraSansBold => "font/woff"@,
        Asset::FiraSansItalic => "font/woff"@,
        Asset::FiraSansRegular => "font/woff"@,
        Asset::FiraMonoRegular => "font/woff"@,
        Asset::Logo => "image/png"@,
        Asset::FiraStyle => "text/css"@,
    }
}

/// The route of a path.
pub open spec fn route_of(path: Seq<char>) -> Route {
    if path == "/ws"@ {
        Route::Upgrade
    } else if path == "/"@ {
        Route::Document
    } else if path == asset_path(Asset::ReloadScript) {
        Route::Asset(Asset::ReloadScript)
    } else if path == asset_path(Asset::Highlight) {
        Route::Asset(Asset::Highlight)
    } else if path == asset_path(Asset::GithubStyle) {
        Route::Asset(Asset::GithubStyle)
    } else if path == asset_path(Asset::OutputStyle) {
        Route::Asset(Asset::OutputStyle)
    } else if path == asset_path(Asset::Rustacean) {
        Route::Asset(Asset::Rustacean)
    } else if path == asset_path(Asset::Downloads) {
        Route::Asset(Asset::Downloads)
    } else if path == asset_path(Asset::Favicon) {
        Route::Asset(Asset::Favicon)
    } else if path == asset_path(Asset::FiraSansBold) {
        Route::Asset(Asset::FiraSansBold)
    } else if path == asset_path(Asset::FiraSansItalic) {
        Route::Asset(Asset::FiraSansItalic)
    } else if path == asset_path(Asset::FiraSansRegular) {
        Route::Asset(Asset::FiraSansRegular)
    } else if path == asset_path(Asset::FiraMonoRegular) {
        Route::Asset(Asset::FiraMonoRegular)
    } else if path == asset_path(Asset::Logo) {
        Route::Asset(Asset::Logo)
    } else if path == asset_path(Asset::FiraStyle) {
        Route::Asset(Asset::FiraStyle)
    } else {
        Route::Redirect
    }
}

/// The status and the one header that a route is answered with. The upgrade
/// route has none: its answer is the upgrade handler's.
pub open spec fn head_of(route: Route) -> Option<(u16, (Seq<char>, Seq<char>))> {
    match route {
        Route::Upgrade => None,
        Route::Document => Some((200u16, ("Content-Type"@, "text/html"@))),
        Route::Asset(asset) => Some((200u16, ("Content-Type"@, asset_type(asset)))),
        Route::Redirect => Some((308u16, ("Location"@, "/"@))),
    }
}

/// The port that the page's script connects to.
pub open spec fn push_port_of(hostname: Seq<char>, bound: u16) -> u16 {
    if hostname == "127.0.0.1"@ {
        bound
    } else {
        80
    }
}

/// The status and the header of an answer.
pub struct ResponseHead {
    pub status: u16,
    pub header: HeaderLine,
}

impl ResponseHead {
    /// The status, and the header as text.
    pub open spec fn view(&self) -> (u16, (Seq<char>, Seq<char>)) {
        (self.status, self.header@)
    }
}

impl Asset {
    /// The path under which the asset is served.
    pub fn path(self) -> (path: &'static str)
        ensures
            path@ == asset_path(self),
    {
        match self {
            Asset::ReloadScript => "/ws.js",
            Asset::Highlight => "/highlight.min.js",
            Asset::GithubStyle => "/github.min.css",
            Asset::OutputStyle => "/output.css",
            Asset::Rustacean => "/rustacean-flat-happy.png",
            Asset::Downloads => "/downloads.png",
            Asset::Favicon => "/favicon.ico",
            Asset::FiraSansBold => "/woff/FiraSans-Bold.woff",
            Asset::FiraSansItalic => "/woff/FiraSans-Italic.woff",
            Asset::FiraSansRegular => "/woff/FiraSans-Regular.woff",
            Asset::FiraMonoRegular => "/woff/FiraMono-Regular.woff",
            Asset::Logo => "/logo.png",
            Asset::FiraStyle => "/fira.css",
        }
    }

    /// The content type that the asset is served with.
    pub fn content_type(self) -> (content_type: &'static str)
        ensures
            content_type@ == asset_type(self),
    {
        match self {
            Asset::ReloadScript => "text/javascript",
            Asset::Highlight => "text/javascript",
            Asset::GithubStyle => "text/css",
            Asset::OutputStyle => "text/css",
            Asset::Rustacean => "image/png",
            Asset::Downloads => "image/png",
            Asset::Favicon => "image/x-icon",
            Asset::FiraSansBold => "font/woff",
            Asset::FiraSansItalic => "font/woff",
            Asset::FiraSansRegular => "font/woff",
            Asset::FiraMonoRegular => "font/woff",
            Asset::Logo => "image/png",
            Asset::FiraStyle => "text/css",
        }
    }
}

/// Dispatches a request by its path.
pub fn route(path: &str) -> (route: Route)
    ensures
        route == route_of(path@),
{
    if same_text(path, "/ws") {
        Route::Upgrade
    } else if same_text(path, "/") {
        Route::Document
    } else if same_text(path, Asset::ReloadScript.path()) {
        Route::Asset(Asset::ReloadScript)
    } else if same_text(path, Asset::Highlight.path()) {
        Route::Asset(Asset::Highlight)
    } else if same_text(path, Asset::GithubStyle.path()) {
        Route::Asset(Asset::GithubStyle)
    } else if same_text(path, Asset::OutputStyle.path()) {
        Route::Asset(Asset::OutputStyle)
    } else if same_text(path, Asset::Rustacean.path()) {
        Route::Asset(Asset::Rustacean)
    } else if same_text(path, Asset::Downloads.path()) {
        Route::Asset(Asset::Downloads)
    } else if same_text(path, Asset::Favicon.path()) {
        Route::Asset(Asset::Favicon)
    } else if same_text(path, Asset::FiraSansBold.path()) {
        Route::Asset(Asset::FiraSansBold)
    } else if same_text(path, Asset::FiraSansItalic.path()) {
        Route::Asset(Asset::FiraSansItalic)
    } else if same_text(path, Asset::FiraSansRegular.path()) {
        Route::Asset(Asset::FiraSansRegular)
    } else if same_text(path, Asset::FiraMonoRegular.path()) {
        Route::Asset(Asset::FiraMonoRegular)
    } else if same_text(path, Asset::Logo.path()) {
        Route::Asset(Asset::Logo)
    } else if same_text(path, Asset::FiraStyle.path()) {
        Route::Asset(Asset::FiraStyle)
    } else {
        Route::Redirect
    }
}

/// The status and the header that a route is answered with.
pub fn head(route: Route) -> (head: Option<ResponseHead>)
    ensures
        match head_of(route) {
            None => head is None,
            Some(expected) => head is Some && head.unwrap()@ == expected,
        },
{
    match route {
        Route::Upgrade => None,
        Route::Document => Some(
            ResponseHead { status: 200, header: HeaderLine::new("Content-Type", "text/html") },
        ),
        Route::Asset(asset) => Some(
            ResponseHead {
                status: 200,
                header: HeaderLine::new("Content-Type", asset.content_type()),
            },
        ),
        Route::Redirect => Some(
            ResponseHead { status: 308, header: HeaderLine::new("Location", "/") },
        ),
    }
}

/// Picks the port that the page's script connects to: the bound port on the
/// local host, and the plain web port behind any other host name.
pub fn push_port(hostname: &str, bound: u16) -> (port: u16)
    ensures
        port == push_port_of(hostname@, bound),
{
    if same_text(hostname, "127.0.0.1") {
        bound
    } else {
        80
    }
}

/// A path that is neither the upgrade path, nor the root, nor the path of an
/// asset is redirected to the root.
pub proof fn lemma_unlisted_path_redirects(path: Seq<char>)
    requires
        path != "/ws"@,
        path != "/"@,
        forall|asset: Asset| path != #[trigger] asset_path(asset),
    ensures
        route_of(path) == Route::Redirect,
        head_of(route_of(path)) == Some((308u16, ("Location"@, "/"@))),
{
    assert(path != asset_path(Asset::ReloadScript));
    assert(path != asset_path(Asset::Highlight));
    assert(path != asset_path(Asset::GithubStyle));
    assert(path != asset_path(Asset::OutputStyle));
    assert(path != asset_path(Asset::Rustacean));
    assert(path != asset_path(Asset::Downloads));
    assert(path != asset_path(Asset::Favicon));
    assert(path != asset_path(Asset::FiraSansBold));
    assert(path != asset_path(Asset::FiraSansItalic));
    assert(path != asset_path(Asset::FiraSansRegular));
    assert(path != asset_path(Asset::FiraMonoRegular));
    assert(path != asset_path(Asset::Logo));
    assert(path != asset_path(Asset::FiraStyle));
}

/// Every asset is reached under its own path, and the upgrade path and the
/// root are reached under theirs: no listed path is shadowed by another.
pub proof fn lemma_listed_paths_route_home(asset: Asset)
    ensures
        route_of(asset_path(asset)) == Route::Asset(asset),
        route_of("/ws"@) == Route::Upgrade,
        route_of("/"@) == Route::Document,
{
    reveal_strlit("/ws");
    reveal_strlit("/");
    reveal_strlit("/ws.js");
    reveal_strlit("/highlight.min.js");
    reveal_strlit("/github.min.css");
    reveal_strlit("/output.css");
    reveal_strlit("/rustacean-flat-happy.png");
    reveal_strlit("/downloads.png");
    reveal_strlit("/favicon.ico");
    reveal_strlit("/woff/FiraSans-Bold.woff");
    reveal_strlit("/woff/FiraSans-Italic.woff");
    reveal_strlit("/woff/FiraSans-Regular.woff");
    reveal_strlit("/woff/FiraMono-Regular.woff");
    reveal_strlit("/logo.png");
    reveal_strlit("/fira.css");
    assert("/ws"@.len() == 3);
    assert("/"@.len() == 1);
    assert("/ws.js"@.len() == 6);
    assert("/highlight.min.js"@.len() == 17);
    assert("/github.min.css"@.len() == 15);
    assert("/output.css"@.len() == 11);
    assert("/rustacean-flat-happy.png"@.len() == 25);
    assert("/downloads.png"@.len() == 14);
    assert("/favicon.ico"@.len() == 12);
    assert("/woff/FiraSans-Bold.woff"@.len() == 24);
    assert("/woff/FiraSans-Italic.woff"@.len() == 26);
    assert("/woff/FiraSans-Regular.woff"@.len() == 27);
    assert("/woff/FiraMono-Regular.woff"@.len() == 27);
    assert("/logo.png"@.len() == 9);
    assert("/fira.css"@.len() == 9);
    assert("/woff/FiraSans-Regular.woff"@[10] != "/woff/FiraMono-Regular.woff"@[10]);
    assert("/logo.png"@[1] != "/fira.css"@[1]);
}

} // verus!
