use audio_gateway::AudioRecord;
use audio_gateway::FetchOutcome;
use audio_gateway::HttpReply;
use audio_gateway::LookupOutcome;
use audio_gateway::ReplyBody;
use audio_gateway::Step;
use audio_gateway::handle_fetch;
use audio_gateway::handle_lookup;
use audio_gateway::status_is_success;

fn expect_text_reply(r: HttpReply, status: u16, text: &str) {
    assert_eq!(r.status, status);
    assert_eq!(r.content_type, "application/json");
    match r.body {
        ReplyBody::Text(t) => assert_eq!(t, text),
        ReplyBody::Bytes(_) => panic!("expected a JSON text body"),
    }
}

#[test]
fn lookup_not_found_is_400_with_exact_body() {
    match handle_lookup(LookupOutcome::NotFound) {
        Step::Reply(r) => expect_text_reply(r, 400, "{\"error\":\"Audio not found\"}"),
        Step::Fetch(_) => panic!("a missing record must not be fetched"),
    }
}

#[test]
fn lookup_datastore_error_is_400_with_exact_body() {
    match handle_lookup(LookupOutcome::DatastoreError) {
        Step::Reply(r) => expect_text_reply(r, 400, "{\"error\":\"Audio not found\"}"),
        Step::Fetch(_) => panic!("a datastore fault must not be fetched"),
    }
}

#[test]
fn lookup_found_moves_on_to_the_stored_url() {
    let rec = AudioRecord::of_row(
        String::from("abc123"),
        String::from("https://origin.example/a.mp3"),
    );
    match handle_lookup(LookupOutcome::Found(rec)) {
        Step::Reply(_) => panic!("a found record must move on to the fetch"),
        Step::Fetch(url) => assert_eq!(url, "https://origin.example/a.mp3"),
    }
}

#[test]
fn fetch_request_failure_is_500_with_exact_body() {
    let r = handle_fetch(FetchOutcome::RequestFailed);
    expect_text_reply(r, 500, "{\"error\":\"Error occured while fetching audio\"}");
}

#[test]
fn fetch_body_failure_is_500_with_exact_body() {
    let r = handle_fetch(FetchOutcome::BodyFailed);
    expect_text_reply(r, 500, "{\"error\":\"Error occured while buffering\"}");
}

#[test]
fn fetch_success_relays_the_bytes_unchanged() {
    let bytes = vec![0x49u8, 0x44, 0x33, 0x04, 0x00, 0xff, 0x00, 0x7f];
    let r = handle_fetch(FetchOutcome::Success(bytes.clone()));
    assert_eq!(r.status, 200);
    assert_eq!(r.content_type, "audio/mpeg");
    match r.body {
        ReplyBody::Bytes(b) => assert_eq!(b, bytes),
        ReplyBody::Text(_) => panic!("a successful fetch must carry the audio bytes"),
    }
}

#[test]
fn fetch_success_with_empty_body_relays_empty_bytes() {
    let r = handle_fetch(FetchOutcome::Success(Vec::new()));
    assert_eq!(r.status, 200);
    assert_eq!(r.content_type, "audio/mpeg");
    match r.body {
        ReplyBody::Bytes(b) => assert!(b.is_empty()),
        ReplyBody::Text(_) => panic!("a successful fetch must carry the audio bytes"),
    }
}

#[test]
fn status_classification_accepts_exactly_the_2xx_range() {
    assert!(!status_is_success(199));
    assert!(status_is_success(200));
    assert!(status_is_success(204));
    assert!(status_is_success(299));
    assert!(!status_is_success(300));
    assert!(!status_is_success(301));
    assert!(!status_is_success(404));
    assert!(!status_is_success(500));
}
