use honeypot_blacklist::HoneypotBlacklist;
use honeypot_blacklist::HoneypotBlacklistError;
use honeypot_blacklist::Rating;
use honeypot_blacklist::ResponseOctets;
use honeypot_blacklist::VisitorClass;

fn client() -> HoneypotBlacklist {
    HoneypotBlacklist::new(String::from("abc"))
}

#[test]
fn query_name_for_documented_example() {
    let name = client().build_query_name(127, 1, 2, 3);
    assert_eq!(name, "abc.3.2.1.127.dnsbl.httpbl.org");
}

#[test]
fn query_name_reverses_octets() {
    let bl = HoneypotBlacklist::new(String::from("mykey"));
    let name = bl.build_query_name(10, 200, 0, 255);
    assert_eq!(name, "mykey.255.0.200.10.dnsbl.httpbl.org");
}

#[test]
fn query_name_single_and_triple_digit_octets() {
    let name = client().build_query_name(0, 9, 99, 100);
    assert_eq!(name, "abc.100.99.9.0.dnsbl.httpbl.org");
}

#[test]
fn rating_bucket_boundaries() {
    let bl = client();
    assert_eq!(bl.get_threat_rating(0), Rating::NotClassified);
    assert_eq!(bl.get_threat_rating(1), Rating::Low);
    assert_eq!(bl.get_threat_rating(25), Rating::Low);
    assert_eq!(bl.get_threat_rating(26), Rating::Medium);
    assert_eq!(bl.get_threat_rating(50), Rating::Medium);
    assert_eq!(bl.get_threat_rating(51), Rating::High);
    assert_eq!(bl.get_threat_rating(75), Rating::High);
    assert_eq!(bl.get_threat_rating(76), Rating::Dangerous);
    assert_eq!(bl.get_threat_rating(255), Rating::Dangerous);
}

#[test]
fn rating_buckets_are_total_and_exclusive() {
    let bl = client();
    for score in 0u16..=255 {
        let score = score as u8;
        let expected = if score == 0 {
            Rating::NotClassified
        } else if score <= 25 {
            Rating::Low
        } else if score <= 50 {
            Rating::Medium
        } else if score <= 75 {
            Rating::High
        } else {
            Rating::Dangerous
        };
        assert_eq!(bl.get_threat_rating(score), expected);
    }
}

#[test]
fn class_mapping_is_total() {
    let bl = client();
    for code in 0u16..=255 {
        let code = code as u8;
        let class = bl.get_visitor_class(code, 0);
        let expected = match code {
            0 => VisitorClass::SearchEngine { name: String::from("Undocumented") },
            1 => VisitorClass::Suspicious,
            2 => VisitorClass::Harvester,
            3 => VisitorClass::CommentSpammer,
            4 => VisitorClass::SuspiciousHarvester,
            5 => VisitorClass::SuspiciousCommentSpammer,
            6 => VisitorClass::SuspiciousHarvesterCommentSpammer,
            _ => VisitorClass::NotClassified,
        };
        assert_eq!(class, expected);
    }
}

#[test]
fn search_engine_table() {
    let bl = client();
    let table = [
        "Undocumented",
        "AltaVista",
        "Ask",
        "Baidu",
        "Excite",
        "Google",
        "Looksmart",
        "Lycos",
        "MSN",
        "Yahoo",
        "Cuil",
        "InfoSeek",
        "Miscellaneous",
    ];
    for (code, expected) in table.iter().enumerate() {
        assert_eq!(bl.get_search_engine(code as u8), *expected);
    }
    assert_eq!(bl.get_search_engine(5), "Google");
    assert_eq!(bl.get_search_engine(13), "NotFound");
    assert_eq!(bl.get_search_engine(255), "NotFound");
}

#[test]
fn last_activity_passes_through() {
    let bl = client();
    assert_eq!(bl.get_last_activity(0), 0);
    assert_eq!(bl.get_last_activity(7), 7);
    assert_eq!(bl.get_last_activity(255), 255);
}

#[test]
fn from_octets_names_the_fields() {
    let response = ResponseOctets::from_octets([127, 3, 40, 2]);
    assert_eq!(response.sentinel, 127);
    assert_eq!(response.last_activity, 3);
    assert_eq!(response.score, 40);
    assert_eq!(response.category, 2);
}

#[test]
fn scenario_low_rated_suspicious() {
    let visitor = client().decode(ResponseOctets::from_octets([127, 1, 10, 1]));
    assert_eq!(visitor.class, VisitorClass::Suspicious);
    assert_eq!(visitor.threat_rating, Rating::Low);
    assert_eq!(visitor.last_activity, 1);
}

#[test]
fn scenario_medium_rated_suspicious() {
    let visitor = client().decode(ResponseOctets::from_octets([127, 1, 40, 1]));
    assert_eq!(visitor.class, VisitorClass::Suspicious);
    assert_eq!(visitor.threat_rating, Rating::Medium);
    assert_eq!(visitor.last_activity, 1);
}

#[test]
fn scenario_dangerous_suspicious() {
    let visitor = client().decode(ResponseOctets::from_octets([127, 1, 80, 1]));
    assert_eq!(visitor.class, VisitorClass::Suspicious);
    assert_eq!(visitor.threat_rating, Rating::Dangerous);
    assert_eq!(visitor.last_activity, 1);
}

#[test]
fn scenario_search_engine_consumes_score_as_identifier() {
    let visitor = client().decode(ResponseOctets::from_octets([127, 2, 5, 0]));
    assert_eq!(visitor.class, VisitorClass::SearchEngine { name: String::from("Google") });
    // The two fields are decoded independently, so the score octet is
    // still bucketed even though it carried the engine identifier.
    assert_eq!(visitor.threat_rating, Rating::Low);
    assert_eq!(visitor.last_activity, 2);
}

#[test]
fn lookup_decodes_an_answered_address() {
    let result = client().lookup(Ok(ResponseOctets::from_octets([127, 1, 10, 1])));
    let visitor = result.expect("an answered address must decode");
    assert_eq!(visitor.class, VisitorClass::Suspicious);
    assert_eq!(visitor.threat_rating, Rating::Low);
    assert_eq!(visitor.last_activity, 1);
}

#[test]
fn resolver_failure_propagates() {
    let result = client().lookup(Err(String::from("name not found")));
    match result {
        Err(HoneypotBlacklistError::ResolutionFailed(cause)) => {
            assert_eq!(cause, "name not found");
        }
        other => panic!("expected a resolution failure, got {:?}", other),
    }
}

#[test]
fn decode_is_idempotent() {
    let bl = client();
    let first = bl.decode(ResponseOctets::from_octets([127, 9, 33, 4]));
    let second = bl.decode(ResponseOctets::from_octets([127, 9, 33, 4]));
    assert_eq!(first, second);
    let engine_first = bl.decode(ResponseOctets::from_octets([127, 0, 9, 0]));
    let engine_second = bl.decode(ResponseOctets::from_octets([127, 0, 9, 0]));
    assert_eq!(engine_first, engine_second);
}

#[test]
fn error_description_and_message() {
    let failed = HoneypotBlacklistError::ResolutionFailed(String::from("name not found"));
    assert_eq!(failed.description(), "name not found");
    assert_eq!(failed.message(), "DNS error: name not found");
    let invalid = HoneypotBlacklistError::InvalidApiKey;
    assert_eq!(invalid.description(), "Invalid Api Key");
    assert_eq!(invalid.message(), "Invalid Api Key");
}
