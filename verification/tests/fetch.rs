use wanikanji::query::{
    ApiCollectionMessage, ApiObjectMessage, ApiPaginationMessage, FetchAction, FetchPhase,
    PageEvent, PagingFetcher, unwrap_objects, RATE_LIMIT_COOLDOWN_SECS, RATE_LIMIT_STATUS,
};

fn page(data: Vec<u32>, next_url: Option<&str>) -> ApiCollectionMessage<u32> {
    ApiCollectionMessage {
        object: "collection".to_owned(),
        url: "https://example.com/subjects".to_owned(),
        data_updated_at: None,
        total_count: data.len() as i32,
        data,
        pages: ApiPaginationMessage {
            per_page: 500,
            next_url: next_url.map(|u| u.to_owned()),
            previous_url: None,
        },
    }
}

#[test]
fn fetch_concatenates_pages_in_order() {
    let (mut fetcher, action) = PagingFetcher::<u32>::start("https://example.com/p1".to_owned());
    assert!(matches!(action, FetchAction::Request(u) if u == "https://example.com/p1"));

    let action = fetcher.on_response(PageEvent::Received(page(
        vec![1, 2],
        Some("https://example.com/p2"),
    )));
    assert!(matches!(action, FetchAction::Request(u) if u == "https://example.com/p2"));

    let action = fetcher.on_response(PageEvent::Received(page(vec![3], None)));
    assert!(matches!(action, FetchAction::Stop));
    assert!(matches!(fetcher.phase, FetchPhase::Done));
    assert_eq!(fetcher.records, vec![1, 2, 3]);
}

#[test]
fn fetch_single_page_needs_one_request() {
    let (mut fetcher, _) = PagingFetcher::<u32>::start("https://example.com/p1".to_owned());
    let action = fetcher.on_response(PageEvent::Received(page(vec![], None)));
    assert!(matches!(action, FetchAction::Stop));
    assert!(matches!(fetcher.phase, FetchPhase::Done));
    assert_eq!(fetcher.records, Vec::<u32>::new());
}

#[test]
fn rate_limit_retries_same_url_after_cooldown() {
    let (mut fetcher, _) = PagingFetcher::<u32>::start("https://example.com/p1".to_owned());
    let action = fetcher.on_response(PageEvent::HttpStatus(RATE_LIMIT_STATUS));
    match action {
        FetchAction::CoolDownThenRequest(url, secs) => {
            assert_eq!(url, "https://example.com/p1");
            assert_eq!(secs, RATE_LIMIT_COOLDOWN_SECS);
            assert_eq!(secs, 60);
        }
        other => panic!("expected a cool-down, got {:?}", std::mem::discriminant(&other)),
    }
    // The retried success yields the same result as an immediate success.
    let action = fetcher.on_response(PageEvent::Received(page(vec![7], None)));
    assert!(matches!(action, FetchAction::Stop));
    assert!(matches!(fetcher.phase, FetchPhase::Done));
    assert_eq!(fetcher.records, vec![7]);
}

#[test]
fn non_rate_limit_status_fails_the_walk() {
    let (mut fetcher, _) = PagingFetcher::<u32>::start("https://example.com/p1".to_owned());
    let action = fetcher.on_response(PageEvent::HttpStatus(503));
    assert!(matches!(action, FetchAction::Stop));
    match &fetcher.phase {
        FetchPhase::Failed(wanikanji::query::QueryError::QueryFailed(s)) => assert_eq!(*s, 503),
        _ => panic!("expected the walk to fail with the status"),
    }
    assert_eq!(fetcher.records, Vec::<u32>::new());
}

#[test]
fn transport_error_fails_the_walk() {
    let (mut fetcher, _) = PagingFetcher::<u32>::start("https://example.com/p1".to_owned());
    let action = fetcher.on_response(PageEvent::Transport("connection reset".to_owned()));
    assert!(matches!(action, FetchAction::Stop));
    match &fetcher.phase {
        FetchPhase::Failed(wanikanji::query::QueryError::HttpError(m)) => {
            assert_eq!(m, "connection reset")
        }
        _ => panic!("expected the walk to fail with the transport error"),
    }
}

#[test]
fn unwrap_objects_keeps_records_in_order() {
    let objects = vec![
        ApiObjectMessage {
            object: "kanji".to_owned(),
            url: "https://example.com/1".to_owned(),
            data_updated_at: None,
            data: 10u32,
        },
        ApiObjectMessage {
            object: "kanji".to_owned(),
            url: "https://example.com/2".to_owned(),
            data_updated_at: Some("2020-01-01".to_owned()),
            data: 20u32,
        },
    ];
    assert_eq!(unwrap_objects(objects), vec![10, 20]);
}
