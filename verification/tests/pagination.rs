use bitbucket_api::models::PagedResponse;
use bitbucket_api::pagination::{PageAccumulator, PageStep};

fn page(values: Vec<&'static str>, is_last: bool, next: Option<u32>) -> PagedResponse<String> {
    PagedResponse {
        size: values.len() as u32,
        limit: 50,
        is_last_page: is_last,
        values: values.into_iter().map(|v| v.to_string()).collect(),
        start: 0,
        filter: 0,
        next_page_start: next,
    }
}

#[test]
fn accumulation_walks_two_pages_and_stops() {
    let (mut acc, first) = PageAccumulator::<String>::new("http://stash.test.com/rest/api/1.0/projects");
    assert_eq!(first, "http://stash.test.com/rest/api/1.0/projects?limit=50");

    let step = acc.absorb(page(vec!["a"], false, Some(1)));
    match step {
        PageStep::Next(uri) => {
            assert_eq!(uri, "http://stash.test.com/rest/api/1.0/projects?limit=50&start=1");
        }
        _ => panic!("expected another page to be requested"),
    }

    let step = acc.absorb(page(vec!["b"], true, None));
    assert_eq!(step, PageStep::Finished);
    assert_eq!(acc.into_values(), vec!["a".to_string(), "b".to_string()]);
}

#[test]
fn accumulation_keeps_arrival_order_within_and_across_pages() {
    let (mut acc, _first) = PageAccumulator::<String>::new("base");
    let step = acc.absorb(page(vec!["x", "y"], false, Some(2)));
    assert!(matches!(step, PageStep::Next(_)));
    let step = acc.absorb(page(vec!["z"], true, None));
    assert_eq!(step, PageStep::Finished);
    assert_eq!(
        acc.into_values(),
        vec!["x".to_string(), "y".to_string(), "z".to_string()]
    );
}

#[test]
fn single_last_page_finishes_immediately() {
    let (mut acc, first) = PageAccumulator::<String>::new("base");
    assert_eq!(first, "base?limit=50");
    let step = acc.absorb(page(vec!["only"], true, Some(7)));
    assert_eq!(step, PageStep::Finished);
    assert_eq!(acc.into_values(), vec!["only".to_string()]);
}

#[test]
fn missing_cursor_on_non_final_page_is_reported() {
    let (mut acc, _first) = PageAccumulator::<String>::new("base");
    let step = acc.absorb(page(vec!["a"], false, None));
    assert_eq!(step, PageStep::MissingCursor);
}

#[test]
fn later_cursor_is_rendered_in_decimal() {
    let (mut acc, _first) = PageAccumulator::<String>::new("base");
    let step = acc.absorb(page(vec!["a"], false, Some(1050)));
    match step {
        PageStep::Next(uri) => assert_eq!(uri, "base?limit=50&start=1050"),
        _ => panic!("expected another page to be requested"),
    }
}
