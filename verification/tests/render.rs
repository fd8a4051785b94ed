use easypdf::render::{answer_without_searching, check_dimensions, page_index, RenderError, SearchCollector, MAX_BITMAP_EDGE, MAX_SEARCH_HITS};

#[test]
fn out_of_range_pages_report_both_numbers() {
    match page_index(99, 1) {
        Err(RenderError::PageOutOfRange { requested, total }) => assert_eq!((requested, total), (99, 1)),
        other => panic!("expected PageOutOfRange, got {other:?}"),
    }
    assert_eq!(page_index(0, 1).unwrap(), 0);
    assert!(page_index(usize::MAX - 1, usize::MAX).is_err());
}

#[test]
fn implausible_bitmaps_are_refused() {
    assert!(check_dimensions(200, 100).is_ok());
    assert!(check_dimensions(MAX_BITMAP_EDGE, MAX_BITMAP_EDGE).is_ok());
    for (w, h) in [(0, 100), (100, -1), (MAX_BITMAP_EDGE + 1, 1), (1, 1_000_000)] {
        match check_dimensions(w, h) {
            Err(RenderError::ImplausibleDimensions { width, height }) => assert_eq!((width, height), (w, h)),
            other => panic!("expected a refusal, got {other:?}"),
        }
    }
}

#[test]
fn search_hits_are_capped_and_truncation_reported() {
    let mut collector: SearchCollector<u8> = SearchCollector::new();
    assert!(collector.offer(0, vec![1]));
    assert!(collector.offer(0, Vec::new()));
    for page in 1..MAX_SEARCH_HITS {
        assert!(collector.offer(page, vec![2, 3]));
    }
    assert!(!collector.truncated());
    assert!(!collector.offer(9999, vec![4]));
    let (hits, truncated) = collector.finish();
    assert!(truncated);
    assert_eq!(hits.len(), MAX_SEARCH_HITS);
    assert_eq!(hits[0], (0, vec![1]));
}

#[test]
fn a_search_below_the_cap_is_not_truncated() {
    let mut collector: SearchCollector<u8> = SearchCollector::new();
    assert!(collector.offer(3, vec![7]));
    let (hits, truncated) = collector.finish();
    assert_eq!(hits, vec![(3, vec![7])]);
    assert!(!truncated);
}


#[test]
fn render_errors_describe_themselves() {
    assert_eq!(
        RenderError::ImplausibleDimensions { width: -3, height: 25_000 }.message(),
        "refusing to render a -3x25000 page"
    );
    assert_eq!(
        RenderError::PageOutOfRange { requested: 99, total: 1 }.message(),
        "page 99 is out of range (document has 1 pages)"
    );
    assert_eq!(
        RenderError::PageFailed { page: 2, reason: "bad stream".to_owned() }.message(),
        "could not render page 2: bad stream"
    );
    assert_eq!(RenderError::OpenFailed("format".to_owned()).message(), "could not open document: format");
    let missing = RenderError::LibraryUnavailable {
        path: std::path::PathBuf::from("/opt/pdfium"),
        source: "not found".to_owned(),
    };
    assert_eq!(missing.message(), "could not load PDFium from /opt/pdfium: not found");
    assert_eq!(
        RenderError::ImplausibleDimensions { width: i32::MIN, height: 0 }.message(),
        "refusing to render a -2147483648x0 page"
    );
}

#[test]
fn an_empty_query_matches_nothing_without_searching() {
    let answer = answer_without_searching::<u8>("");
    match answer {
        Some((hits, truncated)) => {
            assert!(hits.is_empty());
            assert!(!truncated);
        }
        None => panic!("an empty query needs no search"),
    }
    assert!(answer_without_searching::<u8>("pdf").is_none());
}
