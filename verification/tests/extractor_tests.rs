use crawler::ConfigError;
use crawler::PollError;
use crawler::html_parser::HtmlParser;
use crawler::json_parser::JsonParser;
use crawler::settings::ParserType;
use crawler::settings::Site;

fn html_site(selector: &str, ignored: Vec<&str>) -> Site {
    Site {
        name: "Shop".to_owned(),
        parser_type: ParserType::Html,
        endpoint: "https://shop.example/page".to_owned(),
        interval_seconds: 60,
        selector: Some(selector.to_owned()),
        ignored_texts: Some(ignored.into_iter().map(|s| s.to_owned()).collect()),
        preflight_request: None,
        csrf_token_selector: None,
        csrf_token_header: None,
        max_allowed_price_uah: None,
    }
}

fn json_site(name: &str, max_price: u64, preflight: bool) -> Site {
    Site {
        name: name.to_owned(),
        parser_type: ParserType::Json,
        endpoint: "https://feed.example/prices".to_owned(),
        interval_seconds: 60,
        selector: None,
        ignored_texts: None,
        preflight_request: if preflight {
            Some("https://feed.example/page".to_owned())
        } else {
            None
        },
        csrf_token_selector: if preflight {
            Some("meta[name=\"csrf-token\"]".to_owned())
        } else {
            None
        },
        csrf_token_header: if preflight { Some("X-CSRF-Token".to_owned()) } else { None },
        max_allowed_price_uah: Some(max_price),
    }
}

#[test]
fn scenario_html_fires() {
    let parser = HtmlParser::new(&html_site(".msg", vec!["\n"])).unwrap();
    let r = parser.parse_response("<div class=\"msg\">Back in stock!</div>").unwrap();
    let data = r.expect("the non-empty match should fire");
    assert_eq!(data.site_name, "Shop");
    assert!(data.message.contains("Back in stock!"));
    assert!(data.message.contains("https://shop.example/page"));
}

#[test]
fn zero_matches_is_quiet() {
    let parser = HtmlParser::new(&html_site(".absent", vec![])).unwrap();
    let r = parser.parse_response("<div class=\"msg\">text</div>");
    assert!(matches!(r, Ok(None)));
}

#[test]
fn all_matches_clean_to_empty_is_quiet() {
    let parser = HtmlParser::new(&html_site(".msg", vec!["sold out"])).unwrap();
    let r = parser.parse_response("<div class=\"msg\">\n sold out \r</div>");
    assert!(matches!(r, Ok(None)));
}

#[test]
fn first_match_in_document_order_fires() {
    let parser = HtmlParser::new(&html_site(".msg", vec!["quiet"])).unwrap();
    let body = "<p class=\"msg\">quiet</p><p class=\"msg\">first news</p><p class=\"msg\">second</p>";
    let data = parser.parse_response(body).unwrap().unwrap();
    assert!(data.message.contains("first news"));
    assert!(!data.message.contains("second"));
}

#[test]
fn invalid_selector_is_a_construction_error() {
    let r = HtmlParser::new(&html_site(":::", vec![]));
    assert!(matches!(r, Err(ConfigError::InvalidSelector)));
    let mut site = json_site("Hotline", 1000, true);
    site.csrf_token_selector = Some(":::".to_owned());
    assert!(matches!(JsonParser::new(&site), Err(ConfigError::InvalidSelector)));
}

#[test]
fn poll_is_stateless_across_identical_bodies() {
    let parser = HtmlParser::new(&html_site(".msg", vec!["\n"])).unwrap();
    let body = "<div class=\"msg\">same body</div>";
    let first = parser.parse_response(body).unwrap();
    let second = parser.parse_response(body).unwrap();
    assert_eq!(first.is_some(), second.is_some());
    assert_eq!(first.unwrap().message, second.unwrap().message);
}

#[test]
fn html_construction_checks_fields() {
    let mut site = html_site(".msg", vec![]);
    site.selector = None;
    assert!(matches!(HtmlParser::new(&site), Err(ConfigError::MissingSelector)));
    let mut site = html_site(".msg", vec![]);
    site.ignored_texts = None;
    assert!(matches!(HtmlParser::new(&site), Err(ConfigError::MissingIgnoredTexts)));
    let site = json_site("Hotline", 1000, false);
    assert!(matches!(HtmlParser::new(&site), Err(ConfigError::WrongParserType)));
}

#[test]
fn json_construction_checks_fields() {
    let mut site = json_site("Hotline", 1000, true);
    site.max_allowed_price_uah = None;
    assert!(matches!(JsonParser::new(&site), Err(ConfigError::MissingMaxAllowedPrice)));
    let mut site = json_site("Hotline", 1000, true);
    site.csrf_token_selector = None;
    assert!(matches!(JsonParser::new(&site), Err(ConfigError::MissingTokenSelector)));
    let mut site = json_site("Hotline", 1000, true);
    site.csrf_token_header = None;
    assert!(matches!(JsonParser::new(&site), Err(ConfigError::MissingTokenHeader)));
    let site = html_site(".msg", vec![]);
    assert!(matches!(JsonParser::new(&site), Err(ConfigError::WrongParserType)));
}

#[test]
fn token_extracted_and_quotes_trimmed() {
    let parser = JsonParser::new(&json_site("Hotline", 1000, true)).unwrap();
    let body = "<html><head><meta name=\"csrf-token\" content='\"abc123\"'></head></html>";
    let token = parser.get_csrftoken(body).unwrap();
    assert_eq!(token.as_deref(), Some("abc123"));
}

#[test]
fn token_selector_without_match_is_quiet() {
    let parser = JsonParser::new(&json_site("Hotline", 1000, true)).unwrap();
    let token = parser.get_csrftoken("<html><head></head><body></body></html>").unwrap();
    assert!(token.is_none());
}

#[test]
fn token_element_without_attribute_is_an_error() {
    let parser = JsonParser::new(&json_site("Hotline", 1000, true)).unwrap();
    let body = "<html><head><meta name=\"csrf-token\"></head></html>";
    let r = parser.get_csrftoken(body);
    assert!(matches!(r, Err(PollError::MissingTokenAttribute)));
}

fn feed(records: &[(u64, &str, &str)]) -> String {
    let mut entries: Vec<String> = Vec::new();
    for (price, stock_id, firm) in records {
        entries.push(format!(
            "{{\"price_uah_real_raw\": {}, \"stock_type_id\": \"{}\", \"firm_title\": \"{}\", \"stock_type\": \"in stock\", \"extra\": 1}}",
            price, stock_id, firm
        ));
    }
    format!("{{\"prices\": [{}]}}", entries.join(","))
}

#[test]
fn scenario_feed_first_qualifying_record_fires() {
    let parser = JsonParser::new(&json_site("Hotline", 1000, false)).unwrap();
    let body = feed(&[(1500, "1", "Pricey"), (900, "0", "OutOfStock"), (900, "1", "Acme"), (800, "1", "Cheaper")]);
    let data = parser.parse_response(body).unwrap().unwrap();
    assert_eq!(data.site_name, "Hotline");
    assert!(data.message.contains("Acme"));
    assert!(data.message.contains("900"));
    assert!(!data.message.contains("Cheaper"));
}

#[test]
fn scenario_feed_all_too_expensive_is_quiet() {
    let parser = JsonParser::new(&json_site("Hotline", 1000, false)).unwrap();
    let body = feed(&[(1500, "1", "A"), (2000, "1", "B")]);
    let r = parser.parse_response(body);
    assert!(matches!(r, Ok(None)));
}

#[test]
fn scenario_absent_token_then_parse_succeeds() {
    // preflight configured, its selector matches nothing: no token, no error,
    // and the primary parse still succeeds
    let parser = JsonParser::new(&json_site("Hotline", 1000, true)).unwrap();
    let token = parser.get_csrftoken("<html><body>no meta here</body></html>").unwrap();
    assert!(token.is_none());
    let data = parser.parse_response(feed(&[(900, "1", "Acme")])).unwrap().unwrap();
    assert!(data.message.contains("Acme"));
}

#[test]
fn unknown_source_name_is_quiet() {
    let parser = JsonParser::new(&json_site("OtherVendor", 1000, false)).unwrap();
    let r = parser.parse_response(feed(&[(900, "1", "Acme")]));
    assert!(matches!(r, Ok(None)));
}

#[test]
fn undecodable_feed_is_an_error() {
    let parser = JsonParser::new(&json_site("Hotline", 1000, false)).unwrap();
    assert!(matches!(parser.parse_response("not json".to_owned()), Err(PollError::FeedDecode)));
    // valid JSON of the wrong feed shape is a decode error too
    assert!(matches!(
        parser.parse_response("{\"prices\": [{\"price_uah_real_raw\": \"text\"}]}".to_owned()),
        Err(PollError::FeedDecode)
    ));
    assert!(matches!(
        parser.parse_response("{\"prices\": 5}".to_owned()),
        Err(PollError::FeedDecode)
    ));
    assert!(matches!(parser.parse_response("[]".to_owned()), Err(PollError::FeedDecode)));
}

#[test]
fn auth_header_present_exactly_with_a_token() {
    let parser = JsonParser::new(&json_site("Hotline", 1000, true)).unwrap();
    let pair = parser.auth_header(&Some("abc123".to_owned())).unwrap();
    assert_eq!(pair.0, "X-CSRF-Token");
    assert_eq!(pair.1, "abc123");
    assert!(parser.auth_header(&None).is_none());
}
