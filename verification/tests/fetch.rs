use streamfinder::fetch::{FetchAction, FetchEvent, Fetcher};
use streamfinder::settings::Twitch;
use streamfinder::twitch::{AuthResponse, Category, Client, FetchError, Pagination, Response, Stream};

fn make_stream(id: u64) -> Stream {
    Stream {
        id: id.to_string(),
        user_id: format!("u{id}"),
        user_name: format!("user{id}"),
        game_id: "509660".to_string(),
        ty: Some("live".to_string()),
        title: format!("stream number {id}"),
        viewer_count: id,
        started_at: None,
        language: "en".to_string(),
        thumbnail_url: String::new(),
    }
}

fn fresh_client() -> Client {
    let twitch = Twitch {
        client_id: "id".to_string(),
        client_secret: "SECRET-REDACTED".to_string(),
    };
    let auth = AuthResponse {
        access_token: "token0".to_string(),
        expires_in: 864000,
    };
    // issued at 1000, so the effective expiry lies far in the future of "now"
    Client::new(twitch, auth, 1000)
}

fn page(from: u64, count: u64, cursor: Option<&str>) -> Response<Stream> {
    let mut data = Vec::new();
    for i in from..from + count {
        data.push(make_stream(i));
    }
    Response {
        data,
        pagination: Some(Pagination {
            cursor: cursor.map(str::to_owned),
        }),
    }
}

/// Drives one whole fetch over the given page outcomes, asserting the
/// cursor each page request carries, and returns the outcome plus the
/// number of page requests issued.
fn drive(pages: Vec<(Option<&str>, FetchEvent)>) -> (Result<Vec<Stream>, FetchError>, usize) {
    let mut client = fresh_client();
    let now = 2000;
    let mut fetcher = Fetcher::start(&client, Category::Art, now);
    let mut requests = 0;
    let mut remaining = pages;
    while !fetcher.finished() {
        match fetcher.current_action(&client) {
            Some(FetchAction::GetPage { game_id, after }) => {
                assert_eq!(game_id, "509660");
                let (expected_after, event) = remaining.remove(0);
                assert_eq!(after.as_deref(), expected_after);
                requests += 1;
                fetcher = fetcher.step(&mut client, event);
            }
            Some(FetchAction::GetToken { .. }) => {
                panic!("token refresh requested although the token is fresh")
            }
            None => unreachable!(),
        }
    }
    (fetcher.into_result(), requests)
}

#[test]
fn pagination_collects_all_pages_in_order() {
    let pages = vec![
        (None, FetchEvent::PageOk { page: page(0, 100, Some("c1")) }),
        (Some("c1"), FetchEvent::PageOk { page: page(100, 100, Some("c2")) }),
        (Some("c2"), FetchEvent::PageOk { page: page(200, 7, None) }),
    ];
    let (result, requests) = drive(pages);
    assert_eq!(requests, 3);
    let streams = result.expect("all pages succeeded");
    assert_eq!(streams.len(), 207);
    for (i, s) in streams.iter().enumerate() {
        assert_eq!(s.id, i.to_string());
        assert_eq!(s.viewer_count, i as u64);
    }
}

#[test]
fn pagination_aborts_on_error_with_no_partial_result() {
    let pages = vec![
        (None, FetchEvent::PageOk { page: page(0, 100, Some("c1")) }),
        (Some("c1"), FetchEvent::PageError),
    ];
    let (result, requests) = drive(pages);
    assert_eq!(requests, 2);
    assert_eq!(result, Err(FetchError::UpstreamFetch));
}

#[test]
fn pagination_aborts_on_malformed_page() {
    let pages = vec![(None, FetchEvent::PageMalformed)];
    let (result, _) = drive(pages);
    assert_eq!(result, Err(FetchError::MalformedResponse));
}

#[test]
fn fetch_is_idempotent_without_upstream_change() {
    let build = || {
        vec![
            (None, FetchEvent::PageOk { page: page(0, 100, Some("c1")) }),
            (Some("c1"), FetchEvent::PageOk { page: page(100, 23, None) }),
        ]
    };
    let (first, _) = drive(build());
    let (second, _) = drive(build());
    let first = first.expect("first run succeeded");
    let second = second.expect("second run succeeded");
    assert_eq!(first, second);
}

#[test]
fn missing_pagination_object_ends_the_walk() {
    let mut client = fresh_client();
    let fetcher = Fetcher::start(&client, Category::Music, 2000);
    let page = Response::<Stream> {
        data: vec![make_stream(1)],
        pagination: None,
    };
    let fetcher = fetcher.step(&mut client, FetchEvent::PageOk { page });
    assert!(fetcher.finished());
    let streams = fetcher.into_result().expect("single page succeeded");
    assert_eq!(streams.len(), 1);
}

#[test]
fn expired_token_is_refreshed_before_the_first_page() {
    let mut client = fresh_client();
    // move past the effective expiry: issued at 1000 with 864000 s lifetime
    // minus the one-day margin
    let now = 1000 + 864000 - 86400;
    let mut fetcher = Fetcher::start(&client, Category::Art, now);
    match fetcher.current_action(&client) {
        Some(FetchAction::GetToken { client_id, client_secret }) => {
            assert_eq!(client_id, "id");
            assert_eq!(client_secret, "SECRET-REDACTED");
        }
        other => panic!("expected a token request, got {:?}", other.is_some()),
    }
    let auth = AuthResponse {
        access_token: "token1".to_string(),
        expires_in: 864000,
    };
    fetcher = fetcher.step(&mut client, FetchEvent::TokenOk { auth, now });
    assert_eq!(client.token, "token1");
    assert_eq!(client.expires_at, now + 864000 - 86400);
    // the refreshed walk then starts at the first page, without a cursor
    match fetcher.current_action(&client) {
        Some(FetchAction::GetPage { game_id, after }) => {
            assert_eq!(game_id, "509660");
            assert_eq!(after, None);
        }
        _ => panic!("expected a page request after the refresh"),
    }
}

#[test]
fn failed_token_refresh_aborts_with_auth_error() {
    let mut client = fresh_client();
    let now = i64::MAX;
    let fetcher = Fetcher::start(&client, Category::Art, now);
    let fetcher = fetcher.step(&mut client, FetchEvent::TokenError);
    assert!(fetcher.finished());
    assert_eq!(fetcher.into_result(), Err(FetchError::UpstreamAuth));
}

#[test]
fn malformed_token_response_aborts_as_malformed() {
    let mut client = fresh_client();
    let fetcher = Fetcher::start(&client, Category::Art, i64::MAX);
    let fetcher = fetcher.step(&mut client, FetchEvent::TokenMalformed);
    assert_eq!(fetcher.into_result(), Err(FetchError::MalformedResponse));
}
