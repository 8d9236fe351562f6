use translate::client::URL_HEAD;
use translate::flow::{
    fallback_target, first_target, is_accepted_code, join_words, should_retranslate,
    validate_request,
};
use translate::response::{collect_segments, decode_json, decode_response};
use translate::{CliError, Json, Translate, TranslateError};

#[test]
fn test_translate_new() {
    let translate = Translate::new("en");
    assert_eq!(translate.lang, "en");
    assert!(!translate.user_agents.is_empty());
}

#[test]
fn test_get_user_agent() {
    let translate = Translate::new("en");
    let agent = translate.get_user_agent();
    assert!(!agent.is_empty());
    assert!(translate.user_agents.contains(&agent));
}

#[test]
fn test_generate_url() {
    let translate = Translate::new("zh-CN");
    let url = translate.generate_url("hello");
    assert!(url.contains("tl=zh-CN"));
    assert!(url.contains("q=hello"));
    assert!(url.starts_with("https://translate.googleapis.com"));
}

#[test]
fn new_keeps_any_code_and_fills_the_pool() {
    for code in ["", "xx", "zh-CN", "not a code at all"] {
        let t = Translate::new(code);
        assert_eq!(t.lang, code);
        assert_eq!(t.user_agents.len(), 6);
    }
}

#[test]
fn user_agent_varies_over_many_calls() {
    let t = Translate::new("en");
    let first = t.get_user_agent();
    let mut other = false;
    for _ in 0..500 {
        let a = t.get_user_agent();
        assert!(t.user_agents.contains(&a));
        if a != first {
            other = true;
        }
    }
    assert!(other);
}

#[test]
fn url_is_exact_for_plain_text() {
    let url = Translate::new("de").generate_url("hello");
    assert_eq!(
        url,
        "https://translate.googleapis.com/translate_a/single?client=gtx&sl=auto&tl=de&dt=t&q=hello"
    );
    assert!(url.starts_with(URL_HEAD));
}

#[test]
fn url_escapes_reserved_characters() {
    let url = Translate::new("en").generate_url("a b&c=d%e/f-g_h.i~j");
    assert!(url.ends_with("&q=a%20b%26c%3Dd%25e%2Ff-g_h.i~j"));
}

#[test]
fn url_escapes_utf8_bytes() {
    let url = Translate::new("en").generate_url("你好");
    assert!(url.ends_with("&q=%E4%BD%A0%E5%A5%BD"));
}

#[test]
fn url_of_empty_text_ends_with_empty_query() {
    let url = Translate::new("fr").generate_url("");
    assert!(url.ends_with("tl=fr&dt=t&q="));
}

#[test]
fn url_text_decodes_back() {
    for text in ["", "hello", "a b&c=d", "你好, 世界!", "100% ~sure? #yes"] {
        let t = Translate::new("ja");
        let url = t.generate_url(text);
        let start = url.find("&q=").unwrap() + 3;
        let back = urlencoding::decode(&url[start..]).unwrap();
        assert_eq!(back, text);
        assert!(url.contains("tl=ja"));
    }
}

#[test]
fn decodes_well_formed_answer() {
    let r = decode_response(r#"[[["你好","hello",null,null,1]],null,"en"]"#);
    match r {
        Ok((lang, segs)) => {
            assert_eq!(lang, "en");
            assert_eq!(segs, vec!["你好".to_string()]);
        }
        Err(_) => panic!("expected a translation"),
    }
}

#[test]
fn decodes_several_segments_in_order_skipping_non_strings() {
    let body = r#"[[["Hallo. ","Hello. "],[null,"x"],[3],"flat",["Welt","world"]],null,"en",7,{"k":1}]"#;
    match decode_response(body) {
        Ok((lang, segs)) => {
            assert_eq!(lang, "en");
            assert_eq!(segs, vec!["Hallo. ".to_string(), "Welt".to_string()]);
        }
        Err(_) => panic!("expected a translation"),
    }
}

#[test]
fn null_segments_is_invalid_format() {
    let r = decode_response(r#"[null,null,"en"]"#);
    assert!(matches!(r, Err(TranslateError::InvalidFormat)));
}

#[test]
fn missing_language_is_reported_first() {
    assert!(matches!(decode_response(r#"[null]"#), Err(TranslateError::NoLanguage)));
    assert!(matches!(decode_response(r#"[[],null,5]"#), Err(TranslateError::NoLanguage)));
    assert!(matches!(decode_response("null"), Err(TranslateError::NoLanguage)));
    assert!(matches!(decode_response(r#"{"a":1}"#), Err(TranslateError::NoLanguage)));
}

#[test]
fn non_json_body_is_invalid_json() {
    assert!(matches!(decode_response("<html>"), Err(TranslateError::InvalidJson)));
    assert!(matches!(decode_response(""), Err(TranslateError::InvalidJson)));
}

#[test]
fn decode_json_on_built_value() {
    let seg = Json::Array(vec![Json::Str("ciao".to_string()), Json::Str("hi".to_string())]);
    let top = Json::Array(vec![Json::Array(vec![seg]), Json::Null, Json::Str("en".to_string())]);
    match decode_json(&top) {
        Ok((lang, segs)) => {
            assert_eq!(lang, "en");
            assert_eq!(segs, vec!["ciao".to_string()]);
        }
        Err(_) => panic!("expected a translation"),
    }
}

#[test]
fn collect_segments_of_empty_is_empty() {
    assert!(collect_segments(&Vec::new()).is_empty());
}

#[test]
fn join_words_uses_single_spaces() {
    let words = vec!["hello".to_string(), "big".to_string(), "world".to_string()];
    assert_eq!(join_words(&words), "hello big world");
    assert_eq!(join_words(&vec!["one".to_string()]), "one");
    assert_eq!(join_words(&Vec::new()), "");
}

#[test]
fn first_and_fallback_targets() {
    assert_eq!(first_target("auto"), "en");
    assert_eq!(first_target("ja"), "ja");
    assert_eq!(fallback_target("auto"), "en");
    assert_eq!(fallback_target("fr"), "fr");
}

#[test]
fn second_pass_decision() {
    assert!(should_retranslate("en", "en"));
    assert!(!should_retranslate("en", "zh-CN"));
    assert!(should_retranslate("auto", "zh-CN"));
    assert!(!should_retranslate("auto", "en"));
    assert!(!should_retranslate("zh-CN", "en"));
}

#[test]
fn accepted_codes() {
    let supported = ["en", "zh-CN", "fr"];
    assert!(is_accepted_code("auto", &supported));
    assert!(is_accepted_code("zh-CN", &supported));
    assert!(!is_accepted_code("xx", &supported));
    assert!(!is_accepted_code("", &supported));
}

#[test]
fn validation_errors_in_order() {
    let supported = ["en", "fr"];
    let words = vec!["hi".to_string()];
    assert!(matches!(validate_request(&Vec::new(), "xx", "yy", &supported), Err(CliError::MissingText)));
    match validate_request(&words, "xx", "yy", &supported) {
        Err(CliError::UnsupportedTarget(c)) => assert_eq!(c, "xx"),
        _ => panic!("expected an unsupported target"),
    }
    match validate_request(&words, "auto", "yy", &supported) {
        Err(CliError::UnsupportedSource(c)) => assert_eq!(c, "yy"),
        _ => panic!("expected an unsupported source"),
    }
    assert!(validate_request(&words, "fr", "auto", &supported).is_ok());
}
