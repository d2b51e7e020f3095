use streamfinder::handlers::{create_query_words, filter_streams, SimpleStream};
use streamfinder::twitch::Stream;

fn make_stream(title: &str, language: &str) -> Stream {
    Stream {
        id: "1".to_string(),
        user_id: "u1".to_string(),
        user_name: "user1".to_string(),
        game_id: "509660".to_string(),
        ty: None,
        title: title.to_string(),
        viewer_count: 3,
        started_at: None,
        language: language.to_string(),
        thumbnail_url: String::new(),
    }
}

fn three_streams(languages: [&str; 3]) -> Vec<Stream> {
    vec![
        make_stream("Late night coding", languages[0]),
        make_stream("Art class", languages[1]),
        make_stream("Smart home setup", languages[2]),
    ]
}

#[test]
fn query_words_are_split_and_lowercased() {
    assert_eq!(create_query_words("ART Class"), vec!["art", "class"]);
    assert_eq!(create_query_words("  many\t kinds \n of space "), vec![
        "many", "kinds", "of", "space"
    ]);
    assert_eq!(create_query_words(""), Vec::<String>::new());
    assert_eq!(create_query_words(" \t "), Vec::<String>::new());
}

#[test]
fn substring_match_ignores_word_boundaries() {
    // "art" occurs in "Art class" and inside "Smart home setup"
    let words = create_query_words("art");
    let out = filter_streams(three_streams(["en", "en", "en"]), &words, "");
    assert_eq!(out.len(), 2);
    assert_eq!(out[0].title, "Art class");
    assert_eq!(out[1].title, "Smart home setup");
}

#[test]
fn language_constraint_is_exact() {
    let words = create_query_words("art");
    let out = filter_streams(three_streams(["en", "de", "en"]), &words, "en");
    assert_eq!(out.len(), 1);
    assert_eq!(out[0].title, "Smart home setup");
}

#[test]
fn empty_query_matches_nothing() {
    let words = create_query_words("");
    let out = filter_streams(three_streams(["en", "en", "en"]), &words, "");
    assert!(out.is_empty());
}

#[test]
fn any_of_several_words_suffices() {
    let words = create_query_words("coding home");
    let out = filter_streams(three_streams(["en", "en", "en"]), &words, "");
    assert_eq!(out.len(), 2);
    assert_eq!(out[0].title, "Late night coding");
    assert_eq!(out[1].title, "Smart home setup");
}

#[test]
fn title_matching_is_case_insensitive() {
    let words = create_query_words("LATE");
    let out = filter_streams(three_streams(["en", "en", "en"]), &words, "");
    assert_eq!(out.len(), 1);
    assert_eq!(out[0].title, "Late night coding");
}

#[test]
fn word_longer_than_title_does_not_match() {
    let words = create_query_words("averyveryverylongword");
    let out = filter_streams(vec![make_stream("short", "en")], &words, "");
    assert!(out.is_empty());
}

#[test]
fn simple_stream_reduces_the_fields() {
    let mut stream = make_stream("Art class", "en");
    stream.started_at = Some(1_000);
    let simple = SimpleStream::from_stream(stream, 4_600);
    assert_eq!(simple.title, "Art class");
    assert_eq!(simple.username, "user1");
    assert_eq!(simple.language, "en");
    assert_eq!(simple.stream_time, Some(3_600));
    assert_eq!(simple.viewer_count, 3);
}

#[test]
fn simple_stream_without_start_time_has_none() {
    let simple = SimpleStream::from_stream(make_stream("Art class", "en"), 4_600);
    assert_eq!(simple.stream_time, None);
}
