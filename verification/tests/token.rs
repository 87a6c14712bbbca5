use std::collections::HashMap;
use xenstore::token::XsWatchToken;
use xenstore::xs_async::interface::find_suitable_token;

const TEXT: &str = "67e55044-10b1-426f-9247-bb680e5fe0c8";

#[test]
fn token_has_the_text_it_was_read_from() {
    assert_eq!(XsWatchToken::parse(TEXT).unwrap().text(), TEXT);
    let nil = "00000000-0000-0000-0000-000000000000";
    assert_eq!(XsWatchToken::parse(nil).unwrap().text(), nil);
    let max = "ffffffff-ffff-ffff-ffff-ffffffffffff";
    assert_eq!(XsWatchToken::parse(max).unwrap().text(), max);
}

#[test]
fn other_forms_of_a_uuid_are_read() {
    let token = XsWatchToken::parse(TEXT);
    assert!(token.is_some());
    assert_eq!(XsWatchToken::parse("67e5504410b1426f9247bb680e5fe0c8"), token);
    assert_eq!(XsWatchToken::parse("67E55044-10B1-426F-9247-BB680E5FE0C8"), token);
    assert_eq!(XsWatchToken::parse("{67e55044-10b1-426f-9247-bb680e5fe0c8}"), token);
    assert_eq!(XsWatchToken::parse("urn:uuid:67e55044-10b1-426f-9247-bb680e5fe0c8"), token);
    assert_eq!(XsWatchToken::parse("URN:UuId:67e55044-10b1-426f-9247-BB680E5FE0C8"), token);
}

#[test]
fn other_texts_are_no_tokens() {
    assert_eq!(XsWatchToken::parse(""), None);
    assert_eq!(XsWatchToken::parse("token"), None);
    assert_eq!(XsWatchToken::parse("not-a-uuid"), None);
    assert_eq!(XsWatchToken::parse("67e5504410b1426f9247bb680e5fe0c"), None);
    assert_eq!(XsWatchToken::parse("67e5504-410b1-426f-9247-bb680e5fe0c8"), None);
    assert_eq!(XsWatchToken::parse("(67e55044-10b1-426f-9247-bb680e5fe0c8)"), None);
    assert_eq!(XsWatchToken::parse("{67e5504410b1426f9247bb680e5fe0c8}"), None);
    assert_eq!(XsWatchToken::parse("urn-uuid:67e55044-10b1-426f-9247-bb680e5fe0c8"), None);
    assert_eq!(XsWatchToken::parse("67e55044-10b1-426f-9247-bb680e5fe0cg"), None);
    assert_eq!(XsWatchToken::parse("67e55044-10b1-426f-9247-bb680e5fe0c8 "), None);
}

#[test]
fn random_tokens_are_random_uuids() {
    for _ in 0..100 {
        let token = XsWatchToken::random();
        let text = token.text();
        assert_eq!(text.len(), 36);
        assert_eq!(text.as_bytes()[14], b'4');
        assert!(b"89ab".contains(&text.as_bytes()[19]));
        assert_eq!(XsWatchToken::parse(&text), Some(token));
    }
}

#[test]
fn texts_tell_tokens_apart() {
    let a = XsWatchToken::parse(TEXT).unwrap();
    let b = XsWatchToken::parse("67e55044-10b1-426f-9247-bb680e5fe0c9").unwrap();
    assert_ne!(a, b);
    assert_ne!(a.text(), b.text());
}

#[test]
fn a_token_is_found() {
    let none: HashMap<u128, ()> = HashMap::new();
    let text = find_suitable_token(&none).text();
    assert_eq!(text.as_bytes()[14], b'4');
    assert!(b"89ab".contains(&text.as_bytes()[19]));

    let mut some: HashMap<u128, ()> = HashMap::new();
    some.insert(0x67e5504410b1426f9247bb680e5fe0c8, ());
    assert_ne!(find_suitable_token(&some).text(), TEXT);
}

#[test]
fn found_tokens_are_drawn() {
    let none: HashMap<u128, ()> = HashMap::new();
    let mut texts: Vec<String> = Vec::new();
    for _ in 0..100 {
        texts.push(find_suitable_token(&none).text());
    }
    texts.sort();
    texts.dedup();
    assert_eq!(texts.len(), 100);
}
