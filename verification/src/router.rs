//! Request dispatch: maps a request path to one of the three routes and
//! builds the exact response for each — the static page, the JSON status
//! body, or the not-found fallback.

use vstd::prelude::*;
use vstd::string::StringExecFns;
use vstd::string::StringSliceAdditionalSpecFns;
use crate::json::{heart_json, heart_json_body};
use crate::store::{get_spec, Reading, ReadingStore};

verus! {

/// The three routes a request path can take.
#[derive(Clone, Copy, PartialEq, Eq, Structural, Debug)]
pub enum Route {
    /// `/`: the static page with the client-side poller.
    Home,
    /// `/api/heart`: the JSON status body.
    ApiHeart,
    /// Any other path.
    NotFound,
}

/// Which route a path takes. Every path takes exactly one: the two fixed
/// paths each take theirs, and everything else falls through.
pub open spec fn route_spec(path: Seq<char>) -> Route {
    if path == "/"@ {
        Route::Home
    } else if path == "/api/heart"@ {
        Route::ApiHeart
    } else {
        Route::NotFound
    }
}

/// String equality, decided byte by byte on the UTF-8 encodings.
pub fn str_eq(a: &str, b: &str) -> (r: bool)
    ensures
        r == (a@ == b@),
{
    let ab = a.as_bytes();
    let bb = b.as_bytes();
    if ab.len() != bb.len() {
        proof {
            assert(a@ != b@) by {
                if a@ == b@ {
                    assert(a.spec_bytes() == b.spec_bytes());
                }
            }
        }
        return false;
    }
    let n = ab.len();
    let mut i: usize = 0;
    while i < n
        invariant
            ab@ == a.spec_bytes(),
            bb@ == b.spec_bytes(),
            ab@.len() == bb@.len(),
            n == ab@.len(),
            i <= n,
            forall|j: int| 0 <= j < i ==> ab@[j] == bb@[j],
        decreases n - i,
    {
        if ab[i] != bb[i] {
            proof {
                assert(a@ != b@) by {
                    if a@ == b@ {
                        assert(a.spec_bytes() == b.spec_bytes());
                    }
                }
            }
            return false;
        }
        i += 1;
    }
    proof {
        assert(ab@ =~= bb@);
        vstd::utf8::encode_utf8_decode_utf8(a@);
        vstd::utf8::encode_utf8_decode_utf8(b@);
        assert(a@ == b@);
    }
    true
}

/// Decide the route of a request path.
pub fn route_of(path: &str) -> (r: Route)
    ensures
        r == route_spec(path@),
{
    if str_eq(path, "/") {
        Route::Home
    } else if str_eq(path, "/api/heart") {
        Route::ApiHeart
    } else {
        Route::NotFound
    }
}

/// An HTTP response: status code, the content type when one is set, whether
/// any origin is allowed to read the body, and the body itself.
#[derive(Debug)]
pub struct HttpResponse {
    pub status: u16,
    pub content_type: Option<String>,
    pub allow_any_origin: bool,
    pub body: String,
}

/// The static page served at `/`, with the client-side poller script.
pub fn home_page() -> (r: &'static str)
    ensures
        r@ == home_html(),
{
    "<!DOCTYPE html>\n<html>\n<head>\n    <title>BLE Heart Beat Server</title>\n    <meta charset=\"utf-8\">\n</head>\n<body>\n    <div class=\"heartbeat-container\">\n        <p class=\"heartbeat-count\" id=\"heartbeatCount\">--</p>\n    </div>\n\n    <script>\n        function updateHeartRate() {\n            fetch('/api/heart')\n                .then(response => response.json())\n                .then(data => {\n                    const countElement = document.getElementById('heartbeatCount');\n\n                    if (data.heart_beat !== null && data.heart_beat !== undefined) {\n                        countElement.textContent = data.heart_beat;\n                        countElement.className = 'heartbeat-count connected';\n                    } else {\n                        countElement.textContent = '--';\n                        countElement.className = 'heartbeat-count disconnected';\n                    }\n                })\n                .catch(error => {\n                    const countElement = document.getElementById('heartbeatCount');\n                    countElement.textContent = '--';\n                    countElement.className = 'heartbeat-count error';\n                });\n        }\n        setInterval(updateHeartRate, 1000);\n        updateHeartRate();\n    </script>\n</body>\n</html>\n"
}

/// The text of the static page.
pub open spec fn home_html() -> Seq<char> {
    "<!DOCTYPE html>\n<html>\n<head>\n    <title>BLE Heart Beat Server</title>\n    <meta charset=\"utf-8\">\n</head>\n<body>\n    <div class=\"heartbeat-container\">\n        <p class=\"heartbeat-count\" id=\"heartbeatCount\">--</p>\n    </div>\n\n    <script>\n        function updateHeartRate() {\n            fetch('/api/heart')\n                .then(response => response.json())\n                .then(data => {\n                    const countElement = document.getElementById('heartbeatCount');\n\n                    if (data.heart_beat !== null && data.heart_beat !== undefined) {\n                        countElement.textContent = data.heart_beat;\n                        countElement.className = 'heartbeat-count connected';\n                    } else {\n                        countElement.textContent = '--';\n                        countElement.className = 'heartbeat-count disconnected';\n                    }\n                })\n                .catch(error => {\n                    const countElement = document.getElementById('heartbeatCount');\n                    countElement.textContent = '--';\n                    countElement.className = 'heartbeat-count error';\n                });\n        }\n        setInterval(updateHeartRate, 1000);\n        updateHeartRate();\n    </script>\n</body>\n</html>\n"@
}

/// The response has the given content type.
pub open spec fn content_type_is(r: HttpResponse, ct: Seq<char>) -> bool {
    match r.content_type {
        Some(s) => s@ == ct,
        None => false,
    }
}

/// The exact response owed for a request path, given the store state and the
/// read time: the static page for `/`, the JSON status of the (freshness-
/// filtered) reading for `/api/heart`, and a plain 404 for everything else.
pub open spec fn matches_response(
    r: HttpResponse,
    path: Seq<char>,
    state: Option<Reading>,
    now: u64,
) -> bool {
    match route_spec(path) {
        Route::Home => r.status == 200 && content_type_is(r, "text/html; charset=utf-8"@)
            && !r.allow_any_origin && r.body@ == home_html(),
        Route::ApiHeart => r.status == 200 && content_type_is(r, "application/json"@)
            && r.allow_any_origin && r.body@ == heart_json(get_spec(state, now)),
        Route::NotFound => r.status == 404 && r.content_type is None && !r.allow_any_origin
            && r.body@ == "Not Found"@,
    }
}

/// Serve a request path against the store state as read at time `now`.
pub fn handle_request_at(path: &str, store: &ReadingStore, now: u64) -> (r: HttpResponse)
    ensures
        matches_response(r, path@, store@, now),
{
    match route_of(path) {
        Route::Home => HttpResponse {
            status: 200,
            content_type: Some(String::from_str("text/html; charset=utf-8")),
            allow_any_origin: false,
            body: String::from_str(home_page()),
        },
        Route::ApiHeart => HttpResponse {
            status: 200,
            content_type: Some(String::from_str("application/json")),
            allow_any_origin: true,
            body: heart_json_body(store.get(now)),
        },
        Route::NotFound => HttpResponse {
            status: 404,
            content_type: None,
            allow_any_origin: false,
            body: String::from_str("Not Found"),
        },
    }
}

/// Routing totality: every request path takes exactly one of the three
/// routes, and any response owed for it carries status 200 (for the page and
/// for the JSON status) or 404 (for everything else) — no path is left
/// without a response.
pub proof fn lemma_routing_total(
    path: Seq<char>,
    state: Option<Reading>,
    now: u64,
    r: HttpResponse,
)
    requires
        matches_response(r, path, state, now),
    ensures
        route_spec(path) is Home || route_spec(path) is ApiHeart || route_spec(path) is NotFound,
        r.status == 200 <==> (route_spec(path) is Home || route_spec(path) is ApiHeart),
        r.status == 404 <==> route_spec(path) is NotFound,
        r.status == 200 || r.status == 404,
{
}

} // verus!
