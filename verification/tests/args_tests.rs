use quickserve::args::{parse_key_val, KeyValError};

fn pair(key: &str, value: &str) -> Result<(String, String), KeyValError> {
    Ok((key.to_string(), value.to_string()))
}

#[test]
fn key_and_value_are_split_at_the_colon() {
    assert_eq!(parse_key_val("X-Test:yes"), pair("X-Test", "yes"));
}

#[test]
fn value_keeps_further_colons() {
    assert_eq!(parse_key_val("Location:http://host:80/"), pair("Location", "http://host:80/"));
}

#[test]
fn key_or_value_may_be_empty() {
    assert_eq!(parse_key_val(":value"), pair("", "value"));
    assert_eq!(parse_key_val("key:"), pair("key", ""));
    assert_eq!(parse_key_val(":"), pair("", ""));
}

#[test]
fn characters_outside_ascii_are_kept() {
    assert_eq!(parse_key_val("grüße:zoë"), pair("grüße", "zoë"));
}

#[test]
fn argument_without_colon_is_rejected() {
    let error = parse_key_val("no-delimiter").unwrap_err();
    assert_eq!(error.input, "no-delimiter");
    assert_eq!(error.message(), "Invalid KEY VALUE pair: no `:` found in `no-delimiter`");
}

#[test]
fn empty_argument_is_rejected() {
    let error = parse_key_val("").unwrap_err();
    assert_eq!(error.message(), "Invalid KEY VALUE pair: no `:` found in ``");
}
