use emby_client::header::generate_emby_authorization;
use emby_client::json::{empty_object, parse_json, to_json_bytes, Json};
use emby_client::query::{decode_component, encode_component};
use emby_client::session::{generate_hash, resolve_device_id};
use emby_client::text::{join_strings, parse_dec, parse_port, str_eq, trim_slashes, u64_to_dec, u64_to_hex};

#[test]
fn authorization_header_text() {
    assert_eq!(
        generate_emby_authorization("u1", "Tsukimi", "host", "dev", "9.9"),
        "Emby UserId=u1,Client=Tsukimi,Device=host,DeviceId=dev,Version=9.9"
    );
    assert_eq!(
        generate_emby_authorization("", "Tsukimi", "h", "d", "v"),
        "Emby UserId=,Client=Tsukimi,Device=h,DeviceId=d,Version=v"
    );
}

#[test]
fn decimal_and_hex_rendering() {
    assert_eq!(u64_to_dec(0), "0");
    assert_eq!(u64_to_dec(65535), "65535");
    assert_eq!(u64_to_dec(18446744073709551615), "18446744073709551615");
    assert_eq!(u64_to_hex(0), "0");
    assert_eq!(u64_to_hex(255), "ff");
    assert_eq!(u64_to_hex(0xdeadbeef), "deadbeef");
}

#[test]
fn port_parsing_edges() {
    assert_eq!(parse_port("0"), Some(0));
    assert_eq!(parse_port("8096"), Some(8096));
    assert_eq!(parse_port("65535"), Some(65535));
    assert_eq!(parse_port("65536"), None);
    assert_eq!(parse_port(""), None);
    assert_eq!(parse_port("12a"), None);
    assert_eq!(parse_port("-1"), None);
    assert_eq!(parse_port("007"), Some(7));
    assert_eq!(parse_dec("18446744073709551615", u64::MAX), Some(u64::MAX));
    assert_eq!(parse_dec("18446744073709551616", u64::MAX), None);
}

#[test]
fn fnv_hash_of_display_name() {
    // 64-bit FNV-1a of "test", in lower-case hex.
    assert_eq!(generate_hash("test"), "f9e6e6ef197c2b25");
    // The hash namespaces the cache; equal names must agree.
    assert_eq!(generate_hash("My Server"), generate_hash("My Server"));
    assert_ne!(generate_hash("a"), generate_hash("b"));
}

#[test]
fn device_id_resolution() {
    let (kept, generated) = resolve_device_id("stored-id");
    assert_eq!(kept, "stored-id");
    assert!(!generated);
    let (fresh, generated) = resolve_device_id("");
    assert_eq!(fresh.len(), 36);
    assert!(generated);
    let (fresh2, _) = resolve_device_id("");
    assert_ne!(fresh, fresh2);
}

#[test]
fn component_encoding_matches_form_urlencoding() {
    assert_eq!(encode_component("abc-._*09AZ"), "abc-._*09AZ");
    assert_eq!(encode_component("a b"), "a+b");
    assert_eq!(encode_component("a&b=c"), "a%26b%3Dc");
    assert_eq!(encode_component("100%"), "100%25");
    // Multi-byte UTF-8 goes through byte by byte.
    assert_eq!(encode_component("你"), "%E4%BD%A0");
}

#[test]
fn component_decoding_round_trips() {
    let samples = ["", "plain", "a b&c=d", "100% sure", "你的名字", "+%/\\\""];
    for s in samples {
        let enc = encode_component(s);
        let dec = decode_component(&enc).unwrap();
        assert_eq!(dec, s.as_bytes().to_vec());
    }
    assert_eq!(decode_component("a%2"), None);
    assert_eq!(decode_component("%zz"), None);
    assert_eq!(decode_component("%41"), Some(b"A".to_vec()));
    assert_eq!(decode_component("+"), Some(b" ".to_vec()));
}

#[test]
fn encoding_agrees_with_url_crate() {
    let mut u = url::Url::parse("http://h/").unwrap();
    u.query_pairs_mut().append_pair("k", "a&b=c d*-._你");
    let expected = u.query().unwrap().to_string();
    let mut mine = String::from("k=");
    mine.push_str(&encode_component("a&b=c d*-._你"));
    assert_eq!(mine, expected);
}

#[test]
fn join_and_trim_helpers() {
    assert_eq!(join_strings(&vec!["Movie".to_string(), "Series".to_string()], ","), "Movie,Series");
    assert_eq!(join_strings(&vec!["One".to_string()], ","), "One");
    assert_eq!(join_strings(&Vec::new(), ","), "");
    assert_eq!(trim_slashes("///a/b"), "a/b");
    assert_eq!(trim_slashes("a/b"), "a/b");
    assert_eq!(trim_slashes("///"), "");
    assert!(str_eq("abc", "abc"));
    assert!(!str_eq("abc", "abd"));
    assert!(!str_eq("abc", "ab"));
}

#[test]
fn json_serializes_exactly() {
    let mut members: Vec<(String, Json)> = Vec::new();
    members.push(("a".to_string(), Json::Num("1".to_string())));
    members.push(("b".to_string(), Json::Str("x\"y\\z".to_string())));
    members.push((
        "c".to_string(),
        Json::Arr(vec![Json::Null, Json::Bool(true), Json::Bool(false)]),
    ));
    members.push(("d".to_string(), empty_object()));
    let j = Json::Obj(members);
    let bytes = to_json_bytes(&j);
    assert_eq!(
        String::from_utf8(bytes).unwrap(),
        r#"{"a":1,"b":"x\"y\\z","c":[null,true,false],"d":{}}"#
    );
}

#[test]
fn json_escapes_control_characters() {
    let j = Json::Str("line1\nline2\ttab\u{1}".to_string());
    let bytes = to_json_bytes(&j);
    assert_eq!(String::from_utf8(bytes).unwrap(), r#""line1\nline2\ttab\u0001""#);
}

#[test]
fn json_parses_documents() {
    let doc = br#" { "name" : "Spirited Away" , "n" : -12.5e3 , "ok" : true ,
                    "list" : [ 1 , 2 , 3 ] , "nothing" : null } "#
        .to_vec();
    let j = parse_json(&doc).unwrap();
    let name = j.get_member(&"name".to_string()).unwrap();
    assert_eq!(name.as_str().unwrap(), "Spirited Away");
    let n = j.get_member(&"n".to_string()).unwrap();
    match n {
        Json::Num(s) => assert_eq!(s, "-12.5e3"),
        _ => panic!("expected a number"),
    }
    let ok = j.get_member(&"ok".to_string()).unwrap();
    assert_eq!(ok.as_bool(), Some(true));
    let list = j.get_member(&"list".to_string()).unwrap().as_array().unwrap();
    assert_eq!(list.len(), 3);
    assert_eq!(list[0].as_u64(), Some(1));
    assert!(j.get_member(&"nothing".to_string()).unwrap().as_str().is_none());
    assert!(j.get_member(&"absent".to_string()).is_none());
}

#[test]
fn json_parses_escapes_and_unicode() {
    let doc = br#""a\"b\\c\/d\n\tA""#.to_vec();
    let j = parse_json(&doc).unwrap();
    assert_eq!(j.as_str().unwrap(), "a\"b\\c/d\n\tA");
    // Escaped code points, including a surrogate pair.
    let doc1 = br#""\u00e9\u4f60\ud83d\ude00""#.to_vec();
    let j1 = parse_json(&doc1).unwrap();
    assert_eq!(j1.as_str().unwrap(), "\u{e9}\u{4f60}\u{1F600}");
    // Raw multi-byte UTF-8 passes through.
    let doc2 = "\"你的名字\"".as_bytes().to_vec();
    let j2 = parse_json(&doc2).unwrap();
    assert_eq!(j2.as_str().unwrap(), "你的名字");
}

#[test]
fn json_rejects_malformed_documents() {
    let bad: &[&[u8]] = &[
        b"",
        b"{",
        b"[1,]",
        b"{\"a\":}",
        b"{\"a\" 1}",
        b"tru",
        b"\"unterminated",
        b"\"lone\\ud800 surrogate\"",
        b"\"bad\\q escape\"",
        b"1 2",
        b"nan",
        b"+1",
        b"01e",
        b"{\"a\":1,}",
    ];
    for doc in bad {
        assert!(parse_json(&doc.to_vec()).is_none(), "should reject {:?}", doc);
    }
    // Invalid UTF-8 inside a string is rejected.
    assert!(parse_json(&vec![b'"', 0xff, b'"']).is_none());
}

#[test]
fn json_round_trips_through_serializer() {
    let doc = br#"{"a":[1,"two",{"b":null}],"c":-4.5e-2,"d":"x\ny"}"#.to_vec();
    let j = parse_json(&doc).unwrap();
    let bytes = to_json_bytes(&j);
    assert_eq!(bytes, doc);
    let j2 = parse_json(&bytes).unwrap();
    let bytes2 = to_json_bytes(&j2);
    assert_eq!(bytes, bytes2);
}
