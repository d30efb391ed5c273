use rusty::admin::{is_admin, is_music_component, latency_text, slow_mode_reply};
use rusty::ai::{
    autocomplete_model, chat_reply, chunk_response, get_model_text, list_models_text, model_available,
    model_or_default, model_request, UserPreference, MAX_MESSAGE_LENGTH,
};
use rusty::autoplay::{autoplay_target, should_autoplay, AutoplayManager};
use rusty::brave::{format_search_results, search_results, BraveSearchError, BraveSearchResponse, BraveWebResult, BraveWebResults};
use rusty::cache::{get_cache_file_path, is_blank, TrackCache};
use rusty::image::{
    find_exact_file_match, get_similar_files, response_for_zero_or_multiple_similar_files, stock_reply,
    SimilarFilesResponse,
};
use rusty::openai::{code_reply, imgen_outcome, send_request, ImgenOutcome, OpenAiError};
use rusty::track::TrackMetadata;

#[test]
fn long_answers_are_split_and_rejoin() {
    let text: String = "ab".repeat(2100);
    let chunks = chunk_response(&text);
    assert_eq!(chunks.len(), 3);
    assert_eq!(chunks[0].chars().count(), MAX_MESSAGE_LENGTH);
    assert_eq!(chunks[2].chars().count(), 200);
    assert_eq!(chunks.concat(), text);
    assert!(chunk_response("").is_empty());
    let wide: String = "é".repeat(2001);
    let chunks = chunk_response(&wide);
    assert_eq!(chunks.len(), 2);
    assert_eq!(chunks[1], "é");
}

#[test]
fn ai_texts() {
    assert_eq!(chat_reply("bob", "hi", "hello"), "**bob**: hi\n\n**AI**: hello");
    assert_eq!(
        list_models_text(&vec!["a".to_string(), "b".to_string()]),
        "Here are the available models:\n- a\n- b\n"
    );
    assert!(model_available(&vec!["llama".to_string()], "llama"));
    assert!(!model_available(&vec!["llama".to_string()], "lla"));
    assert_eq!(
        autocomplete_model(&vec!["llama3".to_string(), "mistral".to_string(), "llava".to_string()], "lla"),
        vec!["llama3".to_string(), "llava".to_string()]
    );
    assert_eq!(model_or_default(None), "llama3.1:8b");
    assert_eq!(model_or_default(Some("x".to_string())), "x");
    assert_eq!(get_model_text(Some("x")), "Your currently active model is: **x**");
    let p = UserPreference::new(42, "bob", "x");
    assert_eq!(p.user_id, "42");
}

fn result(t: &str) -> BraveWebResult {
    BraveWebResult { title: t.to_string(), url: format!("https://{}", t), description: "d".to_string() }
}

#[test]
fn search_results_are_formatted() {
    let results: Vec<BraveWebResult> = (0..7).map(|i| result(&format!("r{}", i))).collect();
    let text = format_search_results(&results, "q");
    assert!(text.starts_with("Search results for: \"q\"\n\n1. r0\n   URL: https://r0\n   d\n\n"));
    assert!(text.contains("5. r4"));
    assert!(!text.contains("r5"));
    let empty = BraveSearchResponse { web: BraveWebResults { results: vec![] } };
    assert_eq!(search_results(empty).err(), Some(BraveSearchError::NoResults));
    assert_eq!(BraveSearchError::NoResults.message(), "No search results found");
}

#[test]
fn image_names_are_matched() {
    let stems = vec![Some("cat".to_string()), None, Some("cats".to_string()), Some("dog".to_string())];
    assert_eq!(find_exact_file_match(&stems, "cats"), Some(2));
    assert_eq!(find_exact_file_match(&stems, "bird"), None);
    assert_eq!(get_similar_files(&stems, "cat"), vec![0, 2]);
    assert_eq!(get_similar_files(&stems, "kitten"), Vec::<usize>::new());
    match response_for_zero_or_multiple_similar_files(&vec!["cat".to_string(), "cats".to_string()]) {
        SimilarFilesResponse::Suggest(t) => {
            assert_eq!(t, "File not found. Did you mean one of these? [\"cat\", \"cats\"]")
        }
        _ => panic!("expected a suggestion"),
    }
    assert!(matches!(
        response_for_zero_or_multiple_similar_files(&vec!["cat".to_string()]),
        SimilarFilesResponse::UseFirst
    ));
    assert_eq!(stock_reply(&vec![]), "Here's what we've got in stock: []");
}

#[test]
fn openai_answers() {
    assert_eq!(send_request(Some("ok".to_string()), Some("no".to_string())), Ok("ok".to_string()));
    assert_eq!(send_request(None, Some("no".to_string())), Err(OpenAiError::Refusal("no".to_string())));
    assert_eq!(send_request(None, None), Err(OpenAiError::Unknown));
    assert_eq!(OpenAiError::Unknown.message(), "Unknown response from OpenAI API");
    assert_eq!(code_reply("x"), "```x```");
    match imgen_outcome(Ok("aGk=".to_string())) {
        ImgenOutcome::Image(bytes) => assert_eq!(bytes, b"hi".to_vec()),
        _ => panic!("expected an image"),
    }
    assert!(matches!(imgen_outcome(Ok("*".to_string())), ImgenOutcome::Undecodable));
}

#[test]
fn admin_and_events() {
    assert!(is_admin(&vec![None, Some(8)]));
    assert!(is_admin(&vec![Some(0xff)]));
    assert!(!is_admin(&vec![Some(7), None]));
    assert_eq!(slow_mode_reply(Some(5), true, None), "Successfully set slow mode rate to `5` seconds.");
    assert_eq!(slow_mode_reply(Some(5), false, None), "Failed to set the slow mode to `5` seconds.");
    assert_eq!(slow_mode_reply(None, false, Some(None)), "Current slow mode rate is `0` seconds.");
    assert_eq!(slow_mode_reply(None, false, None), "Failed to find channel in cache.");
    assert_eq!(latency_text(42), "42 ms");
    assert!(is_music_component("music_next"));
    assert!(!is_music_component("music"));
}

#[test]
fn autoplay_settings() {
    let mut m = AutoplayManager::new();
    assert_eq!(m.cached(1), None);
    assert!(m.is_autoplay_enabled(1, true));
    assert!(m.is_autoplay_enabled(1, false));
    m.set_autoplay(1, false);
    assert_eq!(m.cached(1), Some(false));
    assert!(autoplay_target(None, false));
    assert!(!autoplay_target(Some(false), false));
    assert!(should_autoplay(Some(0), true));
    assert!(!should_autoplay(None, true));
    assert!(!should_autoplay(Some(1), true));
}

fn meta(title: &str, url: Option<&str>) -> TrackMetadata {
    TrackMetadata { title: title.to_string(), url: url.map(|u| u.to_string()), duration: None, thumbnail: None, requested_by: None }
}

#[test]
fn track_cache_keeps_valid_metadata() {
    let mut c = TrackCache::new();
    assert!(c.cache_metadata("u1", meta("one", Some("u1"))));
    assert!(!c.cache_metadata("u2", meta("", Some("u2"))));
    assert!(!c.cache_metadata("u3", meta("three", None)));
    assert!(c.cache_metadata("u1", meta("uno", Some("u1"))));
    assert_eq!(c.get_cached_metadata("u1").map(|m| m.title), Some("uno".to_string()));
    assert_eq!(c.get_cached_metadata("u2"), None);
    assert_eq!(c.snapshot().len(), 1);
    let back = TrackCache::from_entries(vec![
        ("a".to_string(), meta("first", Some("a"))),
        ("a".to_string(), meta("second", Some("a"))),
    ]);
    assert_eq!(back.get_cached_metadata("a").map(|m| m.title), Some("second".to_string()));
    assert!(is_blank("  \n\t"));
    assert!(!is_blank(" x "));
    assert_eq!(get_cache_file_path(), ".track_cache/metadata_index.json");
}

#[test]
fn model_request_stores_only_available_models() {
    let names = vec!["llama3.1:8b".to_string(), "mistral".to_string()];
    let pref = model_request(&names, 42, "ann", "mistral").unwrap();
    assert_eq!((pref.user_id.as_str(), pref.username.as_str(), pref.model.as_str()), ("42", "ann", "mistral"));
    assert_eq!(
        model_request(&names, 42, "ann", "gpt").err(),
        Some("Model 'gpt' is not available. Use `/ai list_models` to see available models.".to_string())
    );
}
