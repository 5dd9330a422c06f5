use petstore_client::decimal::{i64_to_decimal, u64_to_decimal};
use petstore_client::request::{
    append_path, append_values, build_request, query_string, Body, Endpoint, Header, Method,
    PathPart, QueryParam,
};

fn literal(text: &str) -> PathPart {
    PathPart::Literal(text.to_string())
}

fn param(value: &str) -> PathPart {
    PathPart::Param(value.to_string())
}

fn query(name: &str, values: &[&str]) -> QueryParam {
    QueryParam { name: name.to_string(), values: values.iter().map(|v| v.to_string()).collect() }
}

fn get(path: Vec<PathPart>, query: Vec<QueryParam>) -> Endpoint {
    Endpoint { method: Method::Get, path, query, headers: Vec::new(), body: None }
}

fn count(text: &str, wanted: char) -> usize {
    text.chars().filter(|c| *c == wanted).count()
}

#[test]
fn unsigned_decimal_text() {
    assert_eq!(u64_to_decimal(0), "0");
    assert_eq!(u64_to_decimal(9), "9");
    assert_eq!(u64_to_decimal(10), "10");
    assert_eq!(u64_to_decimal(1234567890), "1234567890");
    assert_eq!(u64_to_decimal(u64::MAX), "18446744073709551615");
}

#[test]
fn signed_decimal_text() {
    assert_eq!(i64_to_decimal(0), "0");
    assert_eq!(i64_to_decimal(42), "42");
    assert_eq!(i64_to_decimal(-1), "-1");
    assert_eq!(i64_to_decimal(-100), "-100");
    assert_eq!(i64_to_decimal(i64::MAX), "9223372036854775807");
    assert_eq!(i64_to_decimal(i64::MIN), "-9223372036854775808");
}

#[test]
fn decimal_text_agrees_with_the_standard_formatter() {
    for n in [0i64, 1, -1, 9, 10, 99, 100, 101, -999, 1000, 65535, -65536, i64::MAX, i64::MIN] {
        assert_eq!(i64_to_decimal(n), format!("{}", n));
    }
    for n in [0u64, 5, 19, 20, 4096, u64::MAX - 1, u64::MAX] {
        assert_eq!(u64_to_decimal(n), format!("{}", n));
    }
}

#[test]
fn a_path_parameter_is_percent_encoded_before_insertion() {
    let path = vec![literal("/pet/"), param("a/b"), literal("/uploadImage")];
    assert_eq!(append_path("http://h".to_string(), &path), "http://h/pet/a%2Fb/uploadImage");
}

#[test]
fn a_path_parameter_cannot_add_a_segment_or_start_a_query() {
    let plain = vec![literal("/pet/"), param("42"), literal("/uploadImage")];
    let hostile = vec![literal("/pet/"), param("../../admin?x=1#top"), literal("/uploadImage")];
    let plain = append_path(String::new(), &plain);
    let hostile = append_path(String::new(), &hostile);
    assert_eq!(hostile, "/pet/..%2F..%2Fadmin%3Fx=1%23top/uploadImage");
    for delimiter in ['/', '?', '#'] {
        assert_eq!(count(&hostile, delimiter), count(&plain, delimiter));
    }
}

#[test]
fn path_encoding_covers_controls_spaces_and_bytes_beyond_ascii() {
    let path = vec![param(" \"#<>`?{}%/"), param("\u{0}\n\u{7f}"), param("\u{e9}\u{20ac}")];
    assert_eq!(
        append_path(String::new(), &path),
        "%20%22%23%3C%3E%60%3F%7B%7D%25%2F%00%0A%7F%C3%A9%E2%82%AC"
    );
}

#[test]
fn path_encoding_copies_what_is_safe_in_a_segment() {
    let safe = "AZaz09-._~!$&'()*+,;=:@[]^|\\";
    assert_eq!(append_path(String::new(), &vec![param(safe)]), safe);
}

#[test]
fn a_literal_part_is_taken_as_it_is() {
    let path = vec![literal("/a b/{c}?d#e%")];
    assert_eq!(append_path("base".to_string(), &path), "base/a b/{c}?d#e%");
}

#[test]
fn an_empty_path_leaves_the_base_alone() {
    assert_eq!(append_path("http://h/v2".to_string(), &Vec::new()), "http://h/v2");
}

#[test]
fn query_pairs_are_form_encoded_and_joined() {
    let params = vec![query("foo", &["bar & baz"]), query("saison", &["\u{c9}t\u{e9}+hiver"])];
    assert_eq!(query_string(&params), "foo=bar+%26+baz&saison=%C3%89t%C3%A9%2Bhiver");
}

#[test]
fn form_encoding_copies_only_its_unreserved_characters() {
    let params = vec![query("k", &["AZaz09*-._"]), query("k", &["~!/?%"])];
    assert_eq!(query_string(&params), "k=AZaz09*-._&k=%7E%21%2F%3F%25");
}

#[test]
fn query_names_are_encoded_like_values() {
    let params = vec![query("a b", &["c"]), query("d=e", &["f"])];
    assert_eq!(query_string(&params), "a+b=c&d%3De=f");
}

#[test]
fn a_parameter_without_values_is_left_out_of_the_query() {
    let with_absent = vec![query("name", &["Rex"]), query("status", &[]), query("tag", &["x"])];
    let without = vec![query("name", &["Rex"]), query("tag", &["x"])];
    assert_eq!(query_string(&with_absent), "name=Rex&tag=x");
    assert_eq!(query_string(&with_absent), query_string(&without));
    assert_eq!(query_string(&vec![query("status", &[])]), "");
    assert_eq!(query_string(&vec![query("a", &[]), query("b", &["1"])]), "b=1");
    assert_eq!(query_string(&vec![query("b", &["1"]), query("a", &[])]), "b=1");
}

#[test]
fn an_omitted_optional_parameter_gives_no_pair() {
    let omitted = QueryParam::optional("status", None);
    assert_eq!(omitted.name, "status");
    assert!(omitted.values.is_empty());
    let given = QueryParam::optional("status", Some("sold"));
    assert_eq!(given.values, vec!["sold".to_string()]);
    let always = QueryParam::single("name", "Rex");
    assert_eq!(always.name, "name");
    assert_eq!(always.values, vec!["Rex".to_string()]);
    assert_eq!(query_string(&vec![always.clone(), omitted]), "name=Rex");
    assert_eq!(query_string(&vec![always, given]), "name=Rex&status=sold");
    assert_eq!(query_string(&vec![QueryParam::optional("status", Some(""))]), "status=");
}

#[test]
fn a_present_but_empty_value_keeps_its_pair() {
    assert_eq!(query_string(&vec![query("name", &[""])]), "name=");
}

#[test]
fn a_multi_valued_parameter_gives_one_pair_for_each_value_in_order() {
    let params = vec![query("status", &["available", "pending", "sold"])];
    assert_eq!(query_string(&params), "status=available&status=pending&status=sold");
}

#[test]
fn values_are_appended_after_what_the_query_already_holds() {
    let values = vec!["1".to_string(), "2".to_string()];
    assert_eq!(append_values("a=0".to_string(), "b", &values), "a=0&b=1&b=2");
    assert_eq!(append_values(String::new(), "b", &values), "b=1&b=2");
    assert_eq!(append_values("a=0".to_string(), "b", &Vec::new()), "a=0");
}

#[test]
fn the_query_follows_the_path_after_a_question_mark() {
    let endpoint = get(vec![literal("/pet/findByStatus")], vec![query("status", &["sold"])]);
    let request = build_request("http://h/v2", endpoint);
    assert_eq!(request.uri, "http://h/v2/pet/findByStatus?status=sold");
}

#[test]
fn an_empty_query_leaves_no_question_mark() {
    let endpoint = get(vec![literal("/pet/findByStatus")], vec![query("status", &[])]);
    assert_eq!(build_request("http://h/v2", endpoint).uri, "http://h/v2/pet/findByStatus");
    let endpoint = get(vec![literal("/pet")], Vec::new());
    assert_eq!(build_request("http://h/v2", endpoint).uri, "http://h/v2/pet");
}

#[test]
fn headers_are_passed_on_untouched_and_in_order() {
    let endpoint = Endpoint {
        method: Method::Delete,
        path: vec![literal("/pet/"), param("1")],
        query: Vec::new(),
        headers: vec![
            Header { name: "api_key".to_string(), value: "a b/c%".to_string() },
            Header { name: "X-Trace".to_string(), value: "\u{e9}".to_string() },
        ],
        body: None,
    };
    let request = build_request("", endpoint);
    assert_eq!(request.method, Method::Delete);
    assert_eq!(request.headers.len(), 2);
    assert_eq!(request.headers[0].name, "api_key");
    assert_eq!(request.headers[0].value, "a b/c%");
    assert_eq!(request.headers[1].name, "X-Trace");
    assert_eq!(request.headers[1].value, "\u{e9}");
    assert_eq!(request.body, None);
}

#[test]
fn a_body_brings_its_type_and_its_exact_length() {
    for length in [0usize, 1, 9, 10, 255, 1000, 70000] {
        let endpoint = Endpoint {
            method: Method::Post,
            path: vec![literal("/pet")],
            query: Vec::new(),
            headers: vec![Header { name: "api_key".to_string(), value: "k".to_string() }],
            body: Some(Body { content_type: "text/plain".to_string(), bytes: vec![7u8; length] }),
        };
        let request = build_request("http://h", endpoint);
        assert_eq!(request.headers.len(), 3);
        assert_eq!(request.headers[0].name, "api_key");
        assert_eq!(request.headers[1].name, "Content-Type");
        assert_eq!(request.headers[1].value, "text/plain");
        assert_eq!(request.headers[2].name, "Content-Length");
        assert_eq!(request.headers[2].value, length.to_string());
        assert_eq!(request.body, Some(vec![7u8; length]));
    }
}

#[test]
fn a_request_without_a_body_has_no_content_headers() {
    let request = build_request("http://h", get(vec![literal("/pet/1")], Vec::new()));
    assert!(request.headers.is_empty());
    assert_eq!(request.body, None);
}
