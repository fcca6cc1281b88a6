use minicurl::parse_form;

fn sorted(pairs: Vec<(String, String)>) -> Vec<(String, String)> {
    let mut p = pairs;
    p.sort();
    p
}

fn pair(k: &str, v: &str) -> (String, String) {
    (k.to_string(), v.to_string())
}

#[test]
fn form_two_pairs() {
    let got = sorted(parse_form("a=1&b=2"));
    assert_eq!(got, vec![pair("a", "1"), pair("b", "2")]);
}

#[test]
fn form_malformed_pair_dropped() {
    let got = sorted(parse_form("a=1&bad&b=2"));
    assert_eq!(got, vec![pair("a", "1"), pair("b", "2")]);
}

#[test]
fn form_duplicate_key_last_wins() {
    let got = parse_form("a=1&a=2");
    assert_eq!(got, vec![pair("a", "2")]);
}

#[test]
fn form_value_keeps_later_equals_signs() {
    let got = parse_form("a=b=c");
    assert_eq!(got, vec![pair("a", "b=c")]);
}

#[test]
fn form_empty_text_has_no_pairs() {
    assert_eq!(parse_form(""), Vec::<(String, String)>::new());
}

#[test]
fn form_lone_word_dropped() {
    assert_eq!(parse_form("justakey"), Vec::<(String, String)>::new());
}

#[test]
fn form_empty_key_and_empty_value() {
    let got = sorted(parse_form("=v&k="));
    assert_eq!(got, vec![pair("", "v"), pair("k", "")]);
}

#[test]
fn form_duplicate_key_apart_last_wins() {
    let got = sorted(parse_form("a=1&b=2&a=3"));
    assert_eq!(got, vec![pair("a", "3"), pair("b", "2")]);
}
