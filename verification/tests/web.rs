use std::io::Read;

use sysinfo_web::activity::ActivityTracker;
use sysinfo_web::activity::SharedTracker;
use sysinfo_web::cache::SharedCache;
use sysinfo_web::cache::SnapshotCache;
use sysinfo_web::negotiate::deliver;
use sysinfo_web::negotiate::header_accepts_gzip;
use sysinfo_web::negotiate::negotiate;
use sysinfo_web::scheduler::SampleOutcome;
use sysinfo_web::scheduler::publish_outcome;
use sysinfo_web::web::ContentKind;
use sysinfo_web::web::HttpReply;
use sysinfo_web::web::Route;
use sysinfo_web::web::bytes_eq;
use sysinfo_web::web::error_reply;
use sysinfo_web::web::handle_request;
use sysinfo_web::web::respond;
use sysinfo_web::web::route_of;

fn gunzip(data: &[u8]) -> Vec<u8> {
    let mut out = Vec::new();
    flate2::read::GzDecoder::new(data).read_to_end(&mut out).unwrap();
    out
}

const INDEX_DOC: &[u8] = b"<html><body>metrics</body></html>";
const FAVICON: &[u8] = &[0, 0, 1, 0, 1, 0];

#[test]
fn header_scan_finds_token_and_wildcard() {
    assert!(header_accepts_gzip(b"gzip, deflate"));
    assert!(header_accepts_gzip(b"deflate, GZip;q=0.8"));
    assert!(header_accepts_gzip(b"*"));
    assert!(header_accepts_gzip(b"identity;q=1, *;q=0.5"));
    assert!(!header_accepts_gzip(b"deflate, br"));
    assert!(!header_accepts_gzip(b""));
    assert!(!header_accepts_gzip(b"gzi"));
}

#[test]
fn negotiate_without_token_is_byte_identical() {
    let payload = b"{\"mem\":[1,2,3]}".to_vec();
    let d = negotiate(Some(b"deflate, br"), payload.clone());
    assert!(!d.gzipped);
    assert_eq!(d.body, payload);
    let d2 = negotiate(None, payload.clone());
    assert!(!d2.gzipped);
    assert_eq!(d2.body, payload);
}

#[test]
fn negotiate_with_token_round_trips() {
    // A compressible payload comes back marked gzip, actually transformed,
    // and decompresses to exactly the original bytes.
    let payload = b"{\"cpu\":[0,0,0,0,0,0,0,0,0,0,0,0,0,0,0,0]}".to_vec();
    let d = negotiate(Some(b"gzip"), payload.clone());
    assert!(d.gzipped);
    assert_ne!(d.body, payload);
    assert_eq!(gunzip(&d.body), payload);
}

#[test]
fn negotiate_with_wildcard_round_trips() {
    let payload = b"a long enough body a long enough body".to_vec();
    let d = negotiate(Some(b"*"), payload.clone());
    assert!(d.gzipped);
    assert_eq!(gunzip(&d.body), payload);
}

#[test]
fn negotiate_empty_payload() {
    let d = negotiate(Some(b"gzip"), Vec::new());
    assert!(d.gzipped);
    assert_eq!(gunzip(&d.body), Vec::<u8>::new());
    let d2 = negotiate(Some(b"identity"), Vec::new());
    assert!(!d2.gzipped);
    assert!(d2.body.is_empty());
}

#[test]
fn deliver_packages_each_encoder_outcome() {
    let payload = b"payload".to_vec();
    let stream = b"stream".to_vec();
    let d = deliver(true, payload.clone(), Some(stream.clone()));
    assert!(d.gzipped);
    assert_eq!(d.body, stream);
    let d2 = deliver(true, payload.clone(), None);
    assert!(!d2.gzipped);
    assert_eq!(d2.body, payload);
    let d3 = deliver(false, payload.clone(), None);
    assert!(!d3.gzipped);
    assert_eq!(d3.body, payload);
}

#[test]
fn routes_resolve() {
    assert_eq!(route_of(b"/"), Route::Index);
    assert_eq!(route_of(b"/favicon.ico"), Route::Favicon);
    assert_eq!(route_of(b"/sysinfo.json"), Route::Metrics);
    assert_eq!(route_of(b"/nope"), Route::NotFound);
    assert_eq!(route_of(b""), Route::NotFound);
}

#[test]
fn bytes_eq_compares_content() {
    assert!(bytes_eq(b"abc", b"abc"));
    assert!(!bytes_eq(b"abc", b"abd"));
    assert!(!bytes_eq(b"abc", b"ab"));
    assert!(bytes_eq(b"", b""));
}

#[test]
fn fresh_cache_serves_valid_json_with_status_200() {
    // Metrics fetched before the first sample: 200, JSON kind, and a body
    // that parses as JSON (the placeholder).
    let cache = SharedCache::new();
    let tracker = SharedTracker::new(0);
    let r = handle_request(b"/sysinfo.json", INDEX_DOC, FAVICON, &cache, &tracker, 5, None);
    assert_eq!(r.status, 200);
    assert_eq!(r.kind, ContentKind::Json);
    assert!(!r.gzipped);
    let parsed: serde_json::Value = serde_json::from_slice(&r.body).unwrap();
    assert!(parsed.is_array());
}

#[test]
fn gzip_request_matches_plain_request() {
    // The compressed metrics body decompresses to the same JSON an
    // uncompressed request gets right after.
    let cache = SharedCache::new();
    let tracker = SharedTracker::new(0);
    publish_outcome(&cache, SampleOutcome::Sampled(b"{\"hostname\":\"h\",\"up\":1}".to_vec()));
    let gz = handle_request(b"/sysinfo.json", INDEX_DOC, FAVICON, &cache, &tracker, 1, Some(b"gzip"));
    assert_eq!(gz.status, 200);
    assert!(gz.gzipped);
    let plain = handle_request(b"/sysinfo.json", INDEX_DOC, FAVICON, &cache, &tracker, 2, None);
    assert!(!plain.gzipped);
    assert_eq!(gunzip(&gz.body), plain.body);
    let parsed: serde_json::Value = serde_json::from_slice(&plain.body).unwrap();
    assert!(parsed.is_object());
}

#[test]
fn compression_is_owed_on_every_content_route() {
    // Whenever the request accepts gzip, the three content routes compress;
    // only the not-found reply stays plain.
    let cache = SharedCache::new();
    let tracker = SharedTracker::new(0);
    let idx = handle_request(b"/", INDEX_DOC, FAVICON, &cache, &tracker, 1, Some(b"GZIP"));
    assert!(idx.gzipped);
    assert_eq!(gunzip(&idx.body), INDEX_DOC.to_vec());
    let ico = handle_request(b"/favicon.ico", INDEX_DOC, FAVICON, &cache, &tracker, 2, Some(b"*"));
    assert!(ico.gzipped);
    assert_eq!(gunzip(&ico.body), FAVICON.to_vec());
    let met = handle_request(b"/sysinfo.json", INDEX_DOC, FAVICON, &cache, &tracker, 3, Some(b"gzip"));
    assert!(met.gzipped);
    assert_eq!(gunzip(&met.body), b"[]".to_vec());
    let nf = handle_request(b"/nope", INDEX_DOC, FAVICON, &cache, &tracker, 4, Some(b"gzip"));
    assert!(!nf.gzipped);
}

#[test]
fn metrics_request_counts_as_activity() {
    let mut tracker = ActivityTracker::new(0);
    let cache = SnapshotCache::new();
    let r = respond(b"/sysinfo.json", INDEX_DOC, FAVICON, &cache, &mut tracker, 700, None);
    assert_eq!(r.status, 200);
    assert_eq!(tracker.idle_for(700), 0);
}

#[test]
fn index_and_favicon_do_not_count_as_activity() {
    let mut tracker = ActivityTracker::new(0);
    let cache = SnapshotCache::new();
    let r = respond(b"/", INDEX_DOC, FAVICON, &cache, &mut tracker, 700, None);
    assert_eq!(r.status, 200);
    assert_eq!(r.kind, ContentKind::Html);
    assert_eq!(r.body, INDEX_DOC.to_vec());
    let f = respond(b"/favicon.ico", INDEX_DOC, FAVICON, &cache, &mut tracker, 800, None);
    assert_eq!(f.kind, ContentKind::Icon);
    assert_eq!(f.body, FAVICON.to_vec());
    assert_eq!(tracker.idle_for(800), 800);
}

#[test]
fn unknown_path_gets_plain_404() {
    let mut tracker = ActivityTracker::new(0);
    let cache = SnapshotCache::new();
    let r = respond(b"/secret", INDEX_DOC, FAVICON, &cache, &mut tracker, 0, Some(b"gzip"));
    assert_eq!(r.status, 404);
    assert_eq!(r.kind, ContentKind::Plain);
    assert!(!r.gzipped);
    assert_eq!(r.body, b"you get a 404, and *you* get a 404...".to_vec());
}

#[test]
fn error_replies() {
    let nf: HttpReply = error_reply(404).unwrap();
    assert_eq!(nf.status, 404);
    assert_eq!(nf.body, b"you get a 404, and *you* get a 404...".to_vec());
    let ise = error_reply(500).unwrap();
    assert_eq!(ise.status, 500);
    assert_eq!(ise.body, b":fire: this is fine".to_vec());
    assert!(error_reply(400).is_none());
    assert!(error_reply(200).is_none());
}

#[test]
fn provider_error_cycle_end_to_end() {
    // One failing provider cycle leaves the served value unchanged; the
    // next successful cycle is what readers observe.
    let cache = SharedCache::new();
    let tracker = SharedTracker::new(0);
    publish_outcome(&cache, SampleOutcome::Sampled(b"{\"v\":1}".to_vec()));
    let before = handle_request(b"/sysinfo.json", INDEX_DOC, FAVICON, &cache, &tracker, 1, None);
    publish_outcome(&cache, SampleOutcome::ProviderFailed);
    let after = handle_request(b"/sysinfo.json", INDEX_DOC, FAVICON, &cache, &tracker, 2, None);
    assert_eq!(before.body, after.body);
    publish_outcome(&cache, SampleOutcome::Sampled(b"{\"v\":2}".to_vec()));
    let next = handle_request(b"/sysinfo.json", INDEX_DOC, FAVICON, &cache, &tracker, 3, None);
    assert_eq!(next.body, b"{\"v\":2}".to_vec());
}
