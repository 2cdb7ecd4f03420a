use danbooru_crawler::config::Config;
use danbooru_crawler::filter::accepts;
use danbooru_crawler::rating::AllowedRating;
use danbooru_crawler::rating::Rating;
use danbooru_crawler::record::Record;
use danbooru_crawler::record::rating_of_code;
use danbooru_crawler::text::contains_token;

fn widescreen_record() -> Record {
    Record {
        id: 42,
        image_width: 1920,
        image_height: 1080,
        file_url: Some("https://example.invalid/image.jpg".to_string()),
        file_ext: Some("jpg".to_string()),
        tag_string: "touhou 1girl scenery".to_string(),
        rating: "s".to_string(),
        is_deleted: false,
    }
}

#[test]
fn tolerated_exact_match() {
    let config = Config::default();
    assert!(config.is_tolerated_aspect_ratio(1920, 1080));
}

#[test]
fn tolerated_just_off() {
    let config = Config::default();
    assert!(!config.is_tolerated_aspect_ratio(1920, 1081));
}

#[test]
fn tolerated_boundary() {
    let config = Config::default();
    // |w/9216 - 16/9| == 1/1024 exactly at w = 16393; one more is out.
    assert!(config.is_tolerated_aspect_ratio(16393, 9216));
    assert!(!config.is_tolerated_aspect_ratio(16394, 9216));
}

#[test]
fn tolerated_zero_height() {
    let config = Config::default();
    assert!(!config.is_tolerated_aspect_ratio(1920, 0));
}

#[test]
fn policy_above_questionable() {
    let policy = AllowedRating::Above(Rating::Questionable);
    assert!(policy.allows(&Rating::Safe));
    assert!(policy.allows(&Rating::Questionable));
    assert!(!policy.allows(&Rating::Explicit));
}

#[test]
fn policy_only_safe() {
    let policy = AllowedRating::Only(Rating::Safe);
    assert!(policy.allows(&Rating::Safe));
    assert!(!policy.allows(&Rating::Questionable));
    assert!(!policy.allows(&Rating::Explicit));
}

#[test]
fn policy_below_questionable() {
    let policy = AllowedRating::Below(Rating::Questionable);
    assert!(!policy.allows(&Rating::Safe));
    assert!(policy.allows(&Rating::Questionable));
    assert!(policy.allows(&Rating::Explicit));
}

#[test]
fn policy_all_allows_everything() {
    let policy = AllowedRating::All;
    assert!(policy.allows(&Rating::Safe));
    assert!(policy.allows(&Rating::Questionable));
    assert!(policy.allows(&Rating::Explicit));
}

#[test]
fn rating_codes() {
    assert_eq!(rating_of_code("s"), Some(Rating::Safe));
    assert_eq!(rating_of_code("q"), Some(Rating::Questionable));
    assert_eq!(rating_of_code("e"), Some(Rating::Explicit));
    assert_eq!(rating_of_code("x"), None);
    assert_eq!(rating_of_code(""), None);
    assert_eq!(rating_of_code("sq"), None);
}

#[test]
fn token_exact_match_only() {
    assert!(contains_token("touhou animated 1girl", "animated"));
    assert!(!contains_token("touhou animatedly 1girl", "animated"));
    assert!(contains_token("animated", "animated"));
    assert!(contains_token("animated tail", "animated"));
    assert!(contains_token("head animated", "animated"));
    assert!(!contains_token("reanimated", "animated"));
    assert!(!contains_token("", "animated"));
    assert!(!contains_token("touhou", ""));
}

#[test]
fn token_delimiters_are_any_whitespace() {
    assert!(contains_token("touhou\tanimated\n1girl", "animated"));
    assert!(!contains_token("touhou\tanimatedly\n1girl", "animated"));
}

#[test]
fn accepts_good_record() {
    let config = Config::default();
    assert!(accepts(&widescreen_record(), &config));
}

#[test]
fn accepts_false_without_url() {
    let config = Config::default();
    let mut rec = widescreen_record();
    rec.file_url = None;
    assert!(!accepts(&rec, &config));
    // Still false whatever else changes, even an unrecognized rating code.
    rec.rating = "z".to_string();
    rec.is_deleted = true;
    assert!(!accepts(&rec, &config));
}

#[test]
fn accepts_false_without_extension() {
    let config = Config::default();
    let mut rec = widescreen_record();
    rec.file_ext = None;
    assert!(!accepts(&rec, &config));
}

#[test]
fn accepts_false_off_ratio() {
    let config = Config::default();
    let mut rec = widescreen_record();
    rec.image_width = 1000;
    rec.image_height = 1000;
    assert!(!accepts(&rec, &config));
}

#[test]
fn accepts_false_for_disallowed_rating() {
    let config = Config::default();
    let mut rec = widescreen_record();
    rec.rating = "e".to_string();
    assert!(!accepts(&rec, &config));
}

#[test]
fn accepts_false_for_animated_token() {
    let config = Config::default();
    let mut rec = widescreen_record();
    rec.tag_string = "touhou animated 1girl".to_string();
    assert!(!accepts(&rec, &config));
}

#[test]
fn accepts_not_fooled_by_animatedly() {
    let config = Config::default();
    let mut rec = widescreen_record();
    rec.tag_string = "touhou animatedly 1girl".to_string();
    assert!(accepts(&rec, &config));
}

#[test]
fn accepts_false_for_deleted() {
    let config = Config::default();
    let mut rec = widescreen_record();
    rec.is_deleted = true;
    assert!(!accepts(&rec, &config));
}

#[test]
fn accepts_false_without_required_tag() {
    let config = Config::default();
    let mut rec = widescreen_record();
    rec.tag_string = "1girl scenery".to_string();
    assert!(!accepts(&rec, &config));
}

#[test]
fn accepts_without_required_tag_when_none_configured() {
    let mut config = Config::default();
    config.required_tag = None;
    let mut rec = widescreen_record();
    rec.tag_string = "1girl scenery".to_string();
    assert!(accepts(&rec, &config));
}

#[test]
fn accepts_is_idempotent_over_a_page() {
    let config = Config::default();
    let mut page = Vec::new();
    for i in 0..6 {
        let mut rec = widescreen_record();
        rec.id = i;
        if i % 2 == 0 {
            rec.tag_string = "touhou animated".to_string();
        }
        page.push(rec);
    }
    let first: Vec<Record> = page.iter().filter(|r| accepts(r, &config)).cloned().collect();
    let second: Vec<Record> = first.iter().filter(|r| accepts(r, &config)).cloned().collect();
    assert_eq!(first.len(), 3);
    assert_eq!(second.len(), first.len());
    for (a, b) in first.iter().zip(second.iter()) {
        assert_eq!(a.id, b.id);
    }
}

#[test]
fn default_config_values() {
    let config = Config::default();
    assert_eq!(config.ratio_num, 16);
    assert_eq!(config.ratio_den, 9);
    assert_eq!(config.tolerance_num, 1);
    assert_eq!(config.tolerance_den, 1024);
    assert_eq!(config.allowed_rating, AllowedRating::Above(Rating::Questionable));
    assert_eq!(config.location, ".".to_string());
    assert_eq!(config.required_tag, Some("touhou".to_string()));
}
