use danbooru_crawler::config::Config;
use danbooru_crawler::danbooru::Direction;
use danbooru_crawler::danbooru::PageOutcome;
use danbooru_crawler::danbooru::Search;
use danbooru_crawler::danbooru::Step;
use danbooru_crawler::danbooru::make_filename;
use danbooru_crawler::danbooru::max_id;
use danbooru_crawler::danbooru::min_id;
use danbooru_crawler::danbooru::next_search;
use danbooru_crawler::danbooru::process_response;
use danbooru_crawler::record::Record;
use danbooru_crawler::text::decimal_string;

fn record_with_id(id: usize) -> Record {
    Record {
        id,
        image_width: 1920,
        image_height: 1080,
        file_url: Some(format!("https://example.invalid/{}.jpg", id)),
        file_ext: Some("jpg".to_string()),
        tag_string: "touhou 1girl".to_string(),
        rating: "s".to_string(),
        is_deleted: false,
    }
}

fn page(ids: &[usize]) -> Vec<Record> {
    ids.iter().map(|&id| record_with_id(id)).collect()
}

#[test]
fn direction_predicates() {
    assert!(Direction::Later.is_later());
    assert!(!Direction::Later.is_earlier());
    assert!(Direction::Earlier.is_earlier());
    assert!(!Direction::Earlier.is_later());
}

#[test]
fn from_direction() {
    assert_eq!(Search::Start.get_from_direction(), None);
    assert_eq!(Search::Under(7).get_from_direction(), Some((7, Direction::Earlier)));
    assert_eq!(Search::Above(7).get_from_direction(), Some((7, Direction::Later)));
}

#[test]
fn tags_for_start() {
    assert_eq!(Search::Start.obtain_tags(), "touhou -rating:e ".to_string());
}

#[test]
fn tags_for_under() {
    assert_eq!(Search::Under(100).obtain_tags(), "id:<100 touhou ".to_string());
}

#[test]
fn tags_for_above() {
    assert_eq!(Search::Above(100).obtain_tags(), "id:>100 order:id_asc ".to_string());
}

#[test]
fn decimal_rendering() {
    assert_eq!(decimal_string(0), "0".to_string());
    assert_eq!(decimal_string(7), "7".to_string());
    assert_eq!(decimal_string(12345), "12345".to_string());
    assert_eq!(decimal_string(1000000), "1000000".to_string());
}

#[test]
fn extreme_ids() {
    let recs = page(&[101, 105, 103]);
    assert_eq!(max_id(&recs), 105);
    assert_eq!(min_id(&recs), 101);
    let single = page(&[99]);
    assert_eq!(max_id(&single), 99);
    assert_eq!(min_id(&single), 99);
}

#[test]
fn cursor_advances_to_maximum_under_above() {
    let recs = page(&[101, 105, 103]);
    assert_eq!(next_search(&Search::Above(100), &recs), Search::Above(105));
}

#[test]
fn cursor_advances_to_minimum_under_under() {
    let recs = page(&[50, 70, 60]);
    assert_eq!(next_search(&Search::Under(100), &recs), Search::Under(50));
}

#[test]
fn filename_format() {
    assert_eq!(make_filename(42, "jpg"), "danbooru 42.jpg".to_string());
}

#[test]
fn transport_error_retries_same_cursor() {
    let config = Config::default();
    let step = process_response(Search::Under(100), PageOutcome::TransportError, &config);
    assert!(matches!(step, Step::Retry(Search::Under(100))));
}

#[test]
fn decode_error_retries_same_cursor() {
    let config = Config::default();
    let step = process_response(Search::Above(33), PageOutcome::DecodeError, &config);
    assert!(matches!(step, Step::Retry(Search::Above(33))));
}

#[test]
fn empty_page_finishes() {
    let config = Config::default();
    let step = process_response(Search::Under(100), PageOutcome::Records(Vec::new()), &config);
    assert!(matches!(step, Step::Finished));
}

#[test]
fn unrecognized_rating_is_a_schema_violation() {
    let config = Config::default();
    let mut recs = page(&[1, 2]);
    recs[1].rating = "z".to_string();
    let step = process_response(Search::Under(100), PageOutcome::Records(recs), &config);
    assert!(matches!(step, Step::SchemaViolation));
}

#[test]
fn bad_code_behind_missing_url_is_not_reached() {
    let config = Config::default();
    let mut recs = page(&[1, 2]);
    recs[1].rating = "z".to_string();
    recs[1].file_url = None;
    let step = process_response(Search::Under(100), PageOutcome::Records(recs), &config);
    match step {
        Step::Continue(next, downloads) => {
            assert_eq!(next, Search::Under(1));
            assert_eq!(downloads.len(), 1);
        },
        _ => panic!("expected the crawl to continue"),
    }
}

#[test]
fn downloads_come_only_from_accepted_records() {
    let config = Config::default();
    let mut recs = page(&[10, 11, 12, 13]);
    recs[1].is_deleted = true;
    recs[2].tag_string = "touhou animated".to_string();
    let step = process_response(Search::Above(5), PageOutcome::Records(recs), &config);
    match step {
        Step::Continue(next, downloads) => {
            assert_eq!(next, Search::Above(13));
            assert_eq!(downloads.len(), 2);
            assert_eq!(downloads[0].url, "https://example.invalid/10.jpg".to_string());
            assert_eq!(downloads[0].filename, "danbooru 10.jpg".to_string());
            assert_eq!(downloads[1].filename, "danbooru 13.jpg".to_string());
        },
        _ => panic!("expected the crawl to continue"),
    }
}

#[test]
fn all_rejected_yields_no_downloads_but_continues() {
    let config = Config::default();
    let mut recs = page(&[21, 22]);
    recs[0].is_deleted = true;
    recs[1].file_ext = None;
    let step = process_response(Search::Under(30), PageOutcome::Records(recs), &config);
    match step {
        Step::Continue(next, downloads) => {
            assert_eq!(next, Search::Under(21));
            assert!(downloads.is_empty());
        },
        _ => panic!("expected the crawl to continue"),
    }
}
