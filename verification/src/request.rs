//! The request value and the rules by which an endpoint becomes one.
//!
//! An [`Endpoint`] says what an operation is: its method, the parts of its
//! path, its query parameters, its headers and its body. [`build_request`]
//! turns it into a [`Request`]: the URI is the base path, then the path with
//! every parameter percent-encoded, then `?` and the query when the query is
//! not empty; a body brings its `Content-Type` and `Content-Length` headers.

use vstd::prelude::*;
use vstd::string::*;
use crate::decimal::{decimal_nat, decimal_value, lemma_decimal_round_trip, u64_to_decimal};
use crate::encoding::{
    append_query_pair, encode_path_segment, free_of_delimiters, is_path_delimiter,
    lemma_path_segment_is_free_of_delimiters, pair_appended, path_segment,
};

verus! {

/// The HTTP methods that the operations use.
#[derive(Clone, Copy, Debug, PartialEq, Eq, Structural)]
pub enum Method {
    Get,
    Post,
    Put,
    Delete,
}

/// The token that stands for a method on the wire.
pub open spec fn method_token(method: Method) -> Seq<char> {
    match method {
        Method::Get => "GET"@,
        Method::Post => "POST"@,
        Method::Put => "PUT"@,
        Method::Delete => "DELETE"@,
    }
}

impl Method {
    /// The method as it is written in a request line.
    pub fn as_str(&self) -> (token: &'static str)
        ensures
            token@ == method_token(*self),
    {
        match self {
            Method::Get => "GET",
            Method::Post => "POST",
            Method::Put => "PUT",
            Method::Delete => "DELETE",
        }
    }
}

/// One header line: a name and a value, both sent as they are.
#[derive(Clone, Debug)]
pub struct Header {
    pub name: String,
    pub value: String,
}

impl View for Header {
    type V = (Seq<char>, Seq<char>);

    open spec fn view(&self) -> (Seq<char>, Seq<char>) {
        (self.name@, self.value@)
    }
}

/// The views of a list of headers, in order.
pub open spec fn header_views(headers: Seq<Header>) -> Seq<(Seq<char>, Seq<char>)> {
    headers.map_values(|header: Header| header@)
}

/// A request body: the bytes to send and the media type they are in.
#[derive(Clone, Debug)]
pub struct Body {
    pub content_type: String,
    pub bytes: Vec<u8>,
}

/// One part of a path: text taken as it is, or the value of a path
/// parameter, which is percent-encoded before it is inserted.
#[derive(Clone, Debug)]
pub enum PathPart {
    Literal(String),
    Param(String),
}

/// A query parameter with all its values. Each value gives one `name=value`
/// pair; a parameter without values is absent from the query.
#[derive(Clone, Debug)]
pub struct QueryParam {
    pub name: String,
    pub values: Vec<String>,
}

impl QueryParam {
    /// A parameter that is always sent, with one value.
    pub fn single(name: &str, value: &str) -> (param: QueryParam)
        ensures
            param.name@ == name@,
            param.values@.len() == 1,
            param.values@[0]@ == value@,
    {
        let mut values: Vec<String> = Vec::new();
        values.push(value.to_owned());
        QueryParam { name: name.to_owned(), values }
    }

    /// An optional parameter: one value when it is given, none when it is
    /// omitted.
    pub fn optional(name: &str, value: Option<&str>) -> (param: QueryParam)
        ensures
            param.name@ == name@,
            match value {
                Some(given) => param.values@.len() == 1 && param.values@[0]@ == given@,
                None => param.values@.len() == 0,
            },
    {
        match value {
            Some(given) => QueryParam::single(name, given),
            None => QueryParam { name: name.to_owned(), values: Vec::new() },
        }
    }
}

/// What an operation sends, before it is bound to a base path.
#[derive(Clone, Debug)]
pub struct Endpoint {
    pub method: Method,
    pub path: Vec<PathPart>,
    pub query: Vec<QueryParam>,
    pub headers: Vec<Header>,
    pub body: Option<Body>,
}

/// A request ready to be sent.
#[derive(Clone, Debug)]
pub struct Request {
    pub method: Method,
    pub uri: String,
    pub headers: Vec<Header>,
    pub body: Option<Vec<u8>>,
}

/// A request as plain mathematical values.
pub struct RequestView {
    pub method: Method,
    pub uri: Seq<char>,
    pub headers: Seq<(Seq<char>, Seq<char>)>,
    pub body: Option<Seq<u8>>,
}

impl View for Request {
    type V = RequestView;

    open spec fn view(&self) -> RequestView {
        RequestView {
            method: self.method,
            uri: self.uri@,
            headers: header_views(self.headers@),
            body: match self.body {
                Some(bytes) => Some(bytes@),
                None => None,
            },
        }
    }
}

/// The text that one part contributes to a path.
pub open spec fn part_text(part: PathPart) -> Seq<char> {
    match part {
        PathPart::Literal(text) => text@,
        PathPart::Param(value) => path_segment(value@),
    }
}

/// The text of a path: its parts in order.
pub open spec fn path_text(parts: Seq<PathPart>) -> Seq<char>
    decreases parts.len(),
{
    if parts.len() == 0 {
        Seq::empty()
    } else {
        path_text(parts.drop_last()) + part_text(parts.last())
    }
}

/// A query string after one pair for each of `values`, in order.
pub open spec fn values_appended(query: Seq<char>, name: Seq<char>, values: Seq<String>) -> Seq<
    char,
>
    decreases values.len(),
{
    if values.len() == 0 {
        query
    } else {
        pair_appended(values_appended(query, name, values.drop_last()), name, values.last()@)
    }
}

/// The query string of a list of parameters: the pairs of each parameter in
/// the order of the list, joined by `&`.
pub open spec fn query_text(params: Seq<QueryParam>) -> Seq<char>
    decreases params.len(),
{
    if params.len() == 0 {
        Seq::empty()
    } else {
        values_appended(query_text(params.drop_last()), params.last().name@, params.last().values@)
    }
}

/// A path with its query: `?` stands between them unless the query is
/// empty.
pub open spec fn with_query(path: Seq<char>, query: Seq<char>) -> Seq<char> {
    if query.len() == 0 {
        path
    } else {
        path.push('?') + query
    }
}

/// The URI of an endpoint under a base path.
pub open spec fn uri_text(base_path: Seq<char>, path: Seq<PathPart>, query: Seq<QueryParam>) -> Seq<
    char,
> {
    with_query(base_path + path_text(path), query_text(query))
}

/// The two headers that describe a body: its media type and its length in
/// bytes, written in decimal.
pub open spec fn body_headers(body: Body) -> Seq<(Seq<char>, Seq<char>)> {
    seq![
        ("Content-Type"@, body.content_type@),
        ("Content-Length"@, decimal_nat(body.bytes@.len())),
    ]
}

/// The request that an endpoint stands for under a base path.
pub open spec fn request_for(base_path: Seq<char>, endpoint: Endpoint) -> RequestView {
    RequestView {
        method: endpoint.method,
        uri: uri_text(base_path, endpoint.path@, endpoint.query@),
        headers: match endpoint.body {
            Some(body) => header_views(endpoint.headers@) + body_headers(body),
            None => header_views(endpoint.headers@),
        },
        body: match endpoint.body {
            Some(body) => Some(body.bytes@),
            None => None,
        },
    }
}

/// How many characters of `text` are path delimiters.
pub open spec fn delimiter_count(text: Seq<char>) -> nat
    decreases text.len(),
{
    if text.len() == 0 {
        0
    } else {
        let rest = delimiter_count(text.drop_last());
        if is_path_delimiter(text.last()) {
            rest + 1
        } else {
            rest
        }
    }
}

/// How many path delimiters the literal parts of a path hold.
pub open spec fn literal_delimiters(parts: Seq<PathPart>) -> nat
    decreases parts.len(),
{
    if parts.len() == 0 {
        0
    } else {
        let rest = literal_delimiters(parts.drop_last());
        match parts.last() {
            PathPart::Literal(text) => rest + delimiter_count(text@),
            PathPart::Param(_) => rest,
        }
    }
}

proof fn lemma_delimiter_count_concat(left: Seq<char>, right: Seq<char>)
    ensures
        delimiter_count(left + right) == delimiter_count(left) + delimiter_count(right),
    decreases right.len(),
{
    if right.len() == 0 {
        assert(left + right =~= left);
    } else {
        lemma_delimiter_count_concat(left, right.drop_last());
        assert((left + right).drop_last() =~= left + right.drop_last());
    }
}

proof fn lemma_delimiter_free_text_counts_zero(text: Seq<char>)
    requires
        free_of_delimiters(text),
    ensures
        delimiter_count(text) == 0,
    decreases text.len(),
{
    if text.len() > 0 {
        assert(!is_path_delimiter(text[text.len() - 1]));
        lemma_delimiter_free_text_counts_zero(text.drop_last());
    }
}

/// Path parameters do not alter the structure of a path: the text of a path
/// holds exactly the delimiters `/`, `?` and `#` of its literal parts,
/// whatever the values of its parameters are.
pub proof fn lemma_path_parameters_keep_structure(parts: Seq<PathPart>)
    ensures
        delimiter_count(path_text(parts)) == literal_delimiters(parts),
    decreases parts.len(),
{
    if parts.len() > 0 {
        lemma_path_parameters_keep_structure(parts.drop_last());
        lemma_delimiter_count_concat(path_text(parts.drop_last()), part_text(parts.last()));
        match parts.last() {
            PathPart::Literal(_) => {},
            PathPart::Param(value) => {
                lemma_path_segment_is_free_of_delimiters(value@);
                lemma_delimiter_free_text_counts_zero(path_segment(value@));
            },
        }
    }
}

/// A query parameter without values leaves no trace in the query string:
/// the string is the one of the list without that parameter.
pub proof fn lemma_parameter_without_values_is_omitted(params: Seq<QueryParam>, index: int)
    requires
        0 <= index < params.len(),
        params[index].values@.len() == 0,
    ensures
        query_text(params) == query_text(params.remove(index)),
    decreases params.len(),
{
    if index == params.len() - 1 {
        assert(params.remove(index) =~= params.drop_last());
    } else {
        lemma_parameter_without_values_is_omitted(params.drop_last(), index);
        assert(params.remove(index).drop_last() =~= params.drop_last().remove(index));
        assert(params.remove(index).last() == params.last());
    }
}

/// A request with a body announces the exact length of that body: its last
/// header is `Content-Length`, and the value is the number of bytes of the
/// body in decimal.
pub proof fn lemma_content_length_is_body_length(base_path: Seq<char>, endpoint: Endpoint)
    requires
        endpoint.body is Some,
    ensures
        request_for(base_path, endpoint).body == Some(endpoint.body->0.bytes@),
        request_for(base_path, endpoint).headers.last() == (
            "Content-Length"@,
            decimal_nat(endpoint.body->0.bytes@.len()),
        ),
        decimal_value(request_for(base_path, endpoint).headers.last().1)
            == endpoint.body->0.bytes@.len(),
{
    lemma_decimal_round_trip(endpoint.body->0.bytes@.len());
}

/// The text of a path grows by the text of the part that is added.
pub proof fn lemma_path_text_push(parts: Seq<PathPart>, part: PathPart)
    ensures
        path_text(parts.push(part)) == path_text(parts) + part_text(part),
{
    assert(parts.push(part).drop_last() =~= parts);
}

/// The query string grows by the pairs of the parameter that is added.
pub proof fn lemma_query_text_push(params: Seq<QueryParam>, param: QueryParam)
    ensures
        query_text(params.push(param)) == values_appended(
            query_text(params),
            param.name@,
            param.values@,
        ),
{
    assert(params.push(param).drop_last() =~= params);
}

/// A parameter with exactly one value gives exactly one pair.
pub proof fn lemma_single_value_is_one_pair(query: Seq<char>, name: Seq<char>, values: Seq<String>)
    requires
        values.len() == 1,
    ensures
        values_appended(query, name, values) == pair_appended(query, name, values[0]@),
{
    assert(values.drop_last() =~= Seq::empty());
    assert(values_appended(query, name, values.drop_last()) == query);
}

/// Appends the text of a path to `uri`.
pub fn append_path(uri: String, parts: &Vec<PathPart>) -> (extended: String)
    ensures
        extended@ == uri@ + path_text(parts@),
{
    let mut extended = uri;
    let mut i: usize = 0;
    assert(parts@.take(0) =~= Seq::empty());
    while i < parts.len()
        invariant
            i <= parts.len(),
            extended@ == uri@ + path_text(parts@.take(i as int)),
        decreases parts.len() - i,
    {
        assert(parts@.take(i + 1).drop_last() =~= parts@.take(i as int));
        match &parts[i] {
            PathPart::Literal(text) => {
                extended.append(text.as_str());
            },
            PathPart::Param(value) => {
                let encoded = encode_path_segment(value.as_str());
                extended.append(encoded.as_str());
            },
        }
        i = i + 1;
        assert(extended@ =~= uri@ + path_text(parts@.take(i as int)));
    }
    assert(parts@.take(parts.len() as int) =~= parts@);
    extended
}

/// Appends one pair for each value of a parameter to a query string.
pub fn append_values(query: String, name: &str, values: &Vec<String>) -> (extended: String)
    ensures
        extended@ == values_appended(query@, name@, values@),
{
    let mut extended = query;
    let mut i: usize = 0;
    assert(values@.take(0) =~= Seq::empty());
    while i < values.len()
        invariant
            i <= values.len(),
            extended@ == values_appended(query@, name@, values@.take(i as int)),
        decreases values.len() - i,
    {
        assert(values@.take(i + 1).drop_last() =~= values@.take(i as int));
        extended = append_query_pair(extended, name, values[i].as_str());
        i = i + 1;
    }
    assert(values@.take(values.len() as int) =~= values@);
    extended
}

/// Writes the query string of a list of parameters.
pub fn query_string(params: &Vec<QueryParam>) -> (query: String)
    ensures
        query@ == query_text(params@),
{
    let mut query = String::new();
    let mut i: usize = 0;
    assert(params@.take(0) =~= Seq::empty());
    while i < params.len()
        invariant
            i <= params.len(),
            query@ == query_text(params@.take(i as int)),
        decreases params.len() - i,
    {
        assert(params@.take(i + 1).drop_last() =~= params@.take(i as int));
        query = append_values(query, params[i].name.as_str(), &params[i].values);
        i = i + 1;
    }
    assert(params@.take(params.len() as int) =~= params@);
    query
}

/// Binds an endpoint to a base path and gives the request to send.
///
/// Nothing is encoded but the path parameters and the query; header values
/// and the body are passed on untouched.
pub fn build_request(base_path: &str, endpoint: Endpoint) -> (request: Request)
    ensures
        request@ == request_for(base_path@, endpoint),
{
    let Endpoint { method, path, query, headers, body } = endpoint;
    let path_uri = append_path(base_path.to_owned(), &path);
    let query = query_string(&query);
    let mut uri = path_uri;
    if !query.as_str().is_empty() {
        uri.append("?");
        uri.append(query.as_str());
        proof {
            reveal_strlit("?");
            assert(uri@ =~= with_query(base_path@ + path_text(path@), query@));
        }
    }
    let mut headers = headers;
    let ghost given = header_views(headers@);
    match body {
        Some(body) => {
            let Body { content_type, bytes } = body;
            let length = u64_to_decimal(bytes.len() as u64);
            headers.push(Header { name: "Content-Type".to_owned(), value: content_type });
            headers.push(Header { name: "Content-Length".to_owned(), value: length });
            assert(header_views(headers@) =~= given + body_headers(body));
            Request { method, uri, headers, body: Some(bytes) }
        },
        None => Request { method, uri, headers, body: None },
    }
}

} // verus!
