use one_man::gameplay::extra::{effect_params, scaled_effect_params, ExtraParams};

#[test]
fn decodes_pairs_with_trailing_separator() {
    let mut params = ExtraParams::new();
    assert!(params.parsing_extra("a=1|b=2|").is_ok());
    assert_eq!(params.get("a").map(|v| v.as_str()), Some("1"));
    assert_eq!(params.get("b").map(|v| v.as_str()), Some("2"));
    assert!(params.get("c").is_none());
}

#[test]
fn trailing_separator_is_optional() {
    let mut params = ExtraParams::new();
    assert!(params.parsing_extra("a=1|b=2").is_ok());
    assert_eq!(params.get("a").map(|v| v.as_str()), Some("1"));
    assert_eq!(params.get("b").map(|v| v.as_str()), Some("2"));
}

#[test]
fn empty_text_decodes_to_empty_mapping() {
    let mut params = ExtraParams::new();
    assert!(params.parsing_extra("").is_ok());
    assert!(!params.contains_key("a"));
    assert!(!params.contains_key(""));
}

#[test]
fn empty_tokens_are_passed_over() {
    let mut params = ExtraParams::new();
    assert!(params.parsing_extra("||a=1|||b=2||").is_ok());
    assert_eq!(params.get("a").map(|v| v.as_str()), Some("1"));
    assert_eq!(params.get("b").map(|v| v.as_str()), Some("2"));
}

#[test]
fn malformed_token_is_an_error() {
    let mut params = ExtraParams::new();
    let outcome = params.parsing_extra("a=1|bad|");
    match outcome {
        Ok(_) => panic!("a token without a value was accepted"),
        Err(e) => {
            assert_eq!(e.token, "bad");
            assert_eq!(e.raw, "a=1|bad|");
        }
    }
    assert_eq!(params.get("a").map(|v| v.as_str()), Some("1"));
}

#[test]
fn token_with_two_separators_is_an_error() {
    let mut params = ExtraParams::new();
    let outcome = params.parsing_extra("a=b=c|d=1|");
    match outcome {
        Ok(_) => panic!("a token with two values was accepted"),
        Err(e) => assert_eq!(e.token, "a=b=c"),
    }
    assert!(!params.contains_key("d"));
}

#[test]
fn empty_key_and_empty_value_are_accepted() {
    let mut params = ExtraParams::new();
    assert!(params.parsing_extra("=|k=|").is_ok());
    assert_eq!(params.get("").map(|v| v.as_str()), Some(""));
    assert_eq!(params.get("k").map(|v| v.as_str()), Some(""));
}

#[test]
fn later_pair_replaces_earlier_one() {
    let mut params = ExtraParams::new();
    assert!(params.parsing_extra("a=1|a=2|").is_ok());
    assert_eq!(params.get("a").map(|v| v.as_str()), Some("2"));
    params.insert("a".to_string(), "3".to_string());
    assert_eq!(params.get("a").map(|v| v.as_str()), Some("3"));
}

#[test]
fn decoding_adds_to_what_is_there() {
    let mut params = ExtraParams::new();
    params.insert("keep".to_string(), "me".to_string());
    assert!(params.parsing_extra("a=1|").is_ok());
    assert_eq!(params.get("keep").map(|v| v.as_str()), Some("me"));
    params.clear();
    assert!(!params.contains_key("keep"));
    assert!(!params.contains_key("a"));
}

#[test]
fn non_ascii_text_is_decoded_by_characters() {
    let mut params = ExtraParams::new();
    assert!(params.parsing_extra("名前=値|ключ=значение|").is_ok());
    assert_eq!(params.get("名前").map(|v| v.as_str()), Some("値"));
    assert_eq!(params.get("ключ").map(|v| v.as_str()), Some("значение"));
}

#[test]
fn typed_readers_fall_back() {
    let mut params = ExtraParams::new();
    assert!(params.parsing_extra("scale=1.2|spawn_time=3500|junk=abc|big=99999999999|").is_ok());
    assert_eq!(params.permille_or("scale", 2500), 1200);
    assert_eq!(params.permille_or("missing", 2500), 2500);
    assert_eq!(params.permille_or("junk", 2500), 2500);
    assert_eq!(params.permille_or("big", 7), 7);
    assert_eq!(params.number_or("spawn_time", 123_456), 3500);
    assert_eq!(params.number_or("missing", 123_456), 123_456);
    assert_eq!(params.number_or("junk", 5), 5);
    assert_eq!(params.text_or_empty("junk"), "abc");
    assert_eq!(params.text_or_empty("missing"), "");
}

#[test]
fn effect_parameters_are_written_as_they_are_read() {
    assert_eq!(effect_params("boom", true), "idle_animation=boom|flip_x=1|");
    assert_eq!(effect_params("boom", false), "idle_animation=boom|flip_x=0|");
    assert_eq!(
        scaled_effect_params("splash-1", false, "2.5"),
        "idle_animation=splash-1|flip_x=0|scale=2.5|"
    );
    let mut params = ExtraParams::new();
    assert!(params.parsing_extra(scaled_effect_params("splash-1", true, "0.9").as_str()).is_ok());
    assert_eq!(params.text_or_empty("idle_animation"), "splash-1");
    assert_eq!(params.text_or_empty("flip_x"), "1");
    assert_eq!(params.permille_or("scale", 0), 900);
}
