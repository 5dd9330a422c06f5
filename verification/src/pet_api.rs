//! The operations on pets.
//!
//! Each operation is one row of a fixed table: a method, a path under the
//! base path, the parameters bound into path, query and headers, an optional
//! body, and the shape of the response. [`PetApi`] gives the request of each
//! operation; [`Operation`] gives its method and response shape.

use std::rc::Rc;
use vstd::prelude::*;
use vstd::string::*;
use vstd::utf8::*;
use crate::configuration::Configuration;
use crate::decimal::{decimal, decimal_nat, i64_to_decimal, lemma_decimal_is_unchanged};
use crate::encoding::{form_text, lemma_unreserved_text_is_unchanged, pair_appended};
use crate::request::{
    build_request, lemma_path_text_push, lemma_query_text_push, lemma_single_value_is_one_pair,
    path_text, values_appended, with_query, Body, Endpoint, Header, Method, PathPart, QueryParam,
    Request, RequestView,
};
use crate::error::ApiError;
use crate::response::{resolution_of, Resolution, ResponseShape};

verus! {

/// The operations on pets under one shared configuration.
pub struct PetApiImpl {
    configuration: Rc<Configuration>,
}

impl PetApiImpl {
    /// An invoker for the operations under `configuration`.
    pub fn new(configuration: Rc<Configuration>) -> (api: PetApiImpl)
        ensures
            api.base_path() == configuration.base_path@,
    {
        PetApiImpl { configuration: configuration }
    }
}

/// The operations on pets.
#[derive(Clone, Copy, Debug, PartialEq, Eq, Structural)]
pub enum Operation {
    AddPet,
    DeletePet,
    FindPetsByStatus,
    FindPetsByTags,
    GetPetById,
    UpdatePet,
    UpdatePetWithForm,
    UploadFile,
}

/// The method that an operation is sent with.
pub open spec fn method_of(operation: Operation) -> Method {
    match operation {
        Operation::AddPet => Method::Post,
        Operation::DeletePet => Method::Delete,
        Operation::FindPetsByStatus => Method::Get,
        Operation::FindPetsByTags => Method::Get,
        Operation::GetPetById => Method::Get,
        Operation::UpdatePet => Method::Put,
        Operation::UpdatePetWithForm => Method::Post,
        Operation::UploadFile => Method::Post,
    }
}

/// The shape of the response that an operation declares: the two searches
/// give a list of records, the fetch gives one record, the upload gives a
/// response envelope, and the others give no content.
pub open spec fn response_shape_of(operation: Operation) -> ResponseShape {
    match operation {
        Operation::AddPet => ResponseShape::NoContent,
        Operation::DeletePet => ResponseShape::NoContent,
        Operation::FindPetsByStatus => ResponseShape::Json,
        Operation::FindPetsByTags => ResponseShape::Json,
        Operation::GetPetById => ResponseShape::Json,
        Operation::UpdatePet => ResponseShape::NoContent,
        Operation::UpdatePetWithForm => ResponseShape::NoContent,
        Operation::UploadFile => ResponseShape::Json,
    }
}

impl Operation {
    /// The method that the operation is sent with.
    pub fn method(self) -> (method: Method)
        ensures
            method == method_of(self),
    {
        match self {
            Operation::AddPet => Method::Post,
            Operation::DeletePet => Method::Delete,
            Operation::FindPetsByStatus => Method::Get,
            Operation::FindPetsByTags => Method::Get,
            Operation::GetPetById => Method::Get,
            Operation::UpdatePet => Method::Put,
            Operation::UpdatePetWithForm => Method::Post,
            Operation::UploadFile => Method::Post,
        }
    }

    /// The shape of the response that the operation declares.
    pub fn response_shape(self) -> (shape: ResponseShape)
        ensures
            shape == response_shape_of(self),
    {
        match self {
            Operation::AddPet => ResponseShape::NoContent,
            Operation::DeletePet => ResponseShape::NoContent,
            Operation::FindPetsByStatus => ResponseShape::Json,
            Operation::FindPetsByTags => ResponseShape::Json,
            Operation::GetPetById => ResponseShape::Json,
            Operation::UpdatePet => ResponseShape::NoContent,
            Operation::UpdatePetWithForm => ResponseShape::NoContent,
            Operation::UploadFile => ResponseShape::Json,
        }
    }
}

/// The two headers of a body of `length` bytes in the media type
/// `content_type`.
pub open spec fn content_headers(content_type: Seq<char>, length: nat) -> Seq<
    (Seq<char>, Seq<char>),
> {
    seq![("Content-Type"@, content_type), ("Content-Length"@, decimal_nat(length))]
}

/// `POST {base}/pet` with the record as JSON.
pub open spec fn add_pet_request(base_path: Seq<char>, body: Seq<char>) -> RequestView {
    RequestView {
        method: Method::Post,
        uri: base_path + "/pet"@,
        headers: content_headers("application/json"@, encode_utf8(body).len()),
        body: Some(encode_utf8(body)),
    }
}

/// `DELETE {base}/pet/{id}` with the key in the header `api_key`.
pub open spec fn delete_pet_request(
    base_path: Seq<char>,
    pet_id: i64,
    api_key: Seq<char>,
) -> RequestView {
    RequestView {
        method: Method::Delete,
        uri: base_path + "/pet/"@ + decimal(pet_id as int),
        headers: seq![("api_key"@, api_key)],
        body: None,
    }
}

/// `GET {base}/pet/findByStatus` with one `status` pair for each value.
pub open spec fn find_pets_by_status_request(
    base_path: Seq<char>,
    status: Seq<String>,
) -> RequestView {
    RequestView {
        method: Method::Get,
        uri: with_query(
            base_path + "/pet/findByStatus"@,
            values_appended(Seq::empty(), "status"@, status),
        ),
        headers: Seq::empty(),
        body: None,
    }
}

/// `GET {base}/pet/findByTags` with one `tags` pair for each value.
pub open spec fn find_pets_by_tags_request(base_path: Seq<char>, tags: Seq<String>) -> RequestView {
    RequestView {
        method: Method::Get,
        uri: with_query(
            base_path + "/pet/findByTags"@,
            values_appended(Seq::empty(), "tags"@, tags),
        ),
        headers: Seq::empty(),
        body: None,
    }
}

/// `GET {base}/pet/{id}`.
pub open spec fn get_pet_by_id_request(base_path: Seq<char>, pet_id: i64) -> RequestView {
    RequestView {
        method: Method::Get,
        uri: base_path + "/pet/"@ + decimal(pet_id as int),
        headers: Seq::empty(),
        body: None,
    }
}

/// `PUT {base}/pet` with the record as JSON.
pub open spec fn update_pet_request(base_path: Seq<char>, body: Seq<char>) -> RequestView {
    RequestView {
        method: Method::Put,
        uri: base_path + "/pet"@,
        headers: content_headers("application/json"@, encode_utf8(body).len()),
        body: Some(encode_utf8(body)),
    }
}

/// `POST {base}/pet/{id}?name=..&status=..`.
pub open spec fn update_pet_with_form_request(
    base_path: Seq<char>,
    pet_id: i64,
    name: Seq<char>,
    status: Seq<char>,
) -> RequestView {
    RequestView {
        method: Method::Post,
        uri: (base_path + "/pet/"@ + decimal(pet_id as int)).push('?') + pair_appended(
            pair_appended(Seq::empty(), "name"@, name),
            "status"@,
            status,
        ),
        headers: Seq::empty(),
        body: None,
    }
}

/// `POST {base}/pet/{id}/uploadImage?additionalMetadata=..` with the bytes
/// of the file.
pub open spec fn upload_file_request(
    base_path: Seq<char>,
    pet_id: i64,
    additional_metadata: Seq<char>,
    file: Seq<u8>,
) -> RequestView {
    RequestView {
        method: Method::Post,
        uri: (base_path + "/pet/"@ + decimal(pet_id as int) + "/uploadImage"@).push('?')
            + pair_appended(Seq::empty(), "additionalMetadata"@, additional_metadata),
        headers: content_headers("application/octet-stream"@, file.len()),
        body: Some(file),
    }
}

/// The requests of the operations on pets.
///
/// A record travels as JSON text, which the caller has produced; a file
/// travels as its bytes.
pub trait PetApi {
    /// The base path that every URI starts with.
    spec fn base_path(&self) -> Seq<char>;

    /// Adds a pet to the store.
    #[allow(non_snake_case)]
    fn AddPet(&self, body: &str) -> (request: Request)
        ensures
            request@ == add_pet_request(self.base_path(), body@),
    ;

    /// Deletes a pet.
    #[allow(non_snake_case)]
    fn DeletePet(&self, pet_id: i64, api_key: &str) -> (request: Request)
        ensures
            request@ == delete_pet_request(self.base_path(), pet_id, api_key@),
    ;

    /// Finds the pets in one of the given states.
    #[allow(non_snake_case)]
    fn FindPetsByStatus(&self, status: Vec<String>) -> (request: Request)
        ensures
            request@ == find_pets_by_status_request(self.base_path(), status@),
    ;

    /// Finds the pets with one of the given tags.
    #[allow(non_snake_case)]
    fn FindPetsByTags(&self, tags: Vec<String>) -> (request: Request)
        ensures
            request@ == find_pets_by_tags_request(self.base_path(), tags@),
    ;

    /// Fetches one pet.
    #[allow(non_snake_case)]
    fn GetPetById(&self, pet_id: i64) -> (request: Request)
        ensures
            request@ == get_pet_by_id_request(self.base_path(), pet_id),
    ;

    /// Replaces a pet.
    #[allow(non_snake_case)]
    fn UpdatePet(&self, body: &str) -> (request: Request)
        ensures
            request@ == update_pet_request(self.base_path(), body@),
    ;

    /// Updates the name and the status of a pet.
    #[allow(non_snake_case)]
    fn UpdatePetWithForm(&self, pet_id: i64, name: &str, status: &str) -> (request: Request)
        ensures
            request@ == update_pet_with_form_request(self.base_path(), pet_id, name@, status@),
    ;

    /// Uploads an image of a pet.
    #[allow(non_snake_case)]
    fn UploadFile(&self, pet_id: i64, additional_metadata: &str, file: Vec<u8>) -> (request:
        Request)
        ensures
            request@ == upload_file_request(
                self.base_path(),
                pet_id,
                additional_metadata@,
                file@,
            ),
    ;
}

/// Every operation surfaces a transport failure as a transport error that
/// carries it, and hands no body on for decoding.
pub proof fn lemma_every_operation_surfaces_transport_failure(
    operation: Operation,
    failure: hyper::Error,
)
    ensures
        resolution_of(response_shape_of(operation), Err(failure)) == Resolution::Failed(
            ApiError::Hyper(failure),
        ),
{
}

/// An operation that declares no content succeeds on every response,
/// whatever its body holds.
pub proof fn lemma_no_content_ignores_the_body(operation: Operation, body: Vec<u8>)
    requires
        response_shape_of(operation) == ResponseShape::NoContent,
    ensures
        resolution_of(response_shape_of(operation), Ok(body)) == Resolution::Done,
{
}

/// The request of each operation is sent with the method of that operation.
pub proof fn lemma_requests_carry_the_method_of_their_operation(
    base_path: Seq<char>,
    pet_id: i64,
    text: Seq<char>,
    other: Seq<char>,
    values: Seq<String>,
    file: Seq<u8>,
)
    ensures
        add_pet_request(base_path, text).method == method_of(Operation::AddPet),
        delete_pet_request(base_path, pet_id, text).method == method_of(Operation::DeletePet),
        find_pets_by_status_request(base_path, values).method == method_of(
            Operation::FindPetsByStatus,
        ),
        find_pets_by_tags_request(base_path, values).method == method_of(
            Operation::FindPetsByTags,
        ),
        get_pet_by_id_request(base_path, pet_id).method == method_of(Operation::GetPetById),
        update_pet_request(base_path, text).method == method_of(Operation::UpdatePet),
        update_pet_with_form_request(base_path, pet_id, text, other).method == method_of(
            Operation::UpdatePetWithForm,
        ),
        upload_file_request(base_path, pet_id, text, file).method == method_of(
            Operation::UploadFile,
        ),
{
}

/// The names of the query parameters need no encoding: in a query string
/// they stand as they are written here.
pub proof fn lemma_parameter_names_are_plain()
    ensures
        form_text("status"@) == "status"@,
        form_text("tags"@) == "tags"@,
        form_text("name"@) == "name"@,
        form_text("additionalMetadata"@) == "additionalMetadata"@,
{
    reveal_strlit("status");
    reveal_strlit("tags");
    reveal_strlit("name");
    reveal_strlit("additionalMetadata");
    lemma_unreserved_text_is_unchanged("status"@);
    lemma_unreserved_text_is_unchanged("tags"@);
    lemma_unreserved_text_is_unchanged("name"@);
    lemma_unreserved_text_is_unchanged("additionalMetadata"@);
}

/// The URIs of the two operations with fixed query parameters, written
/// out: the names stand as they are, the values are form-encoded.
pub proof fn lemma_fixed_queries_written_out(
    base_path: Seq<char>,
    pet_id: i64,
    name: Seq<char>,
    status: Seq<char>,
    additional_metadata: Seq<char>,
    file: Seq<u8>,
)
    ensures
        update_pet_with_form_request(base_path, pet_id, name, status).uri == base_path + "/pet/"@
            + decimal(pet_id as int) + "?name="@ + form_text(name) + "&status="@ + form_text(
            status,
        ),
        upload_file_request(base_path, pet_id, additional_metadata, file).uri == base_path
            + "/pet/"@ + decimal(pet_id as int) + "/uploadImage?additionalMetadata="@ + form_text(
            additional_metadata,
        ),
{
    lemma_parameter_names_are_plain();
    reveal_strlit("name");
    reveal_strlit("status");
    reveal_strlit("additionalMetadata");
    reveal_strlit("?name=");
    reveal_strlit("&status=");
    reveal_strlit("/uploadImage");
    reveal_strlit("/uploadImage?additionalMetadata=");
    let first = pair_appended(Seq::empty(), "name"@, name);
    assert(first =~= "name"@ + seq!['='] + form_text(name));
    assert(first.len() > 0);
    assert(update_pet_with_form_request(base_path, pet_id, name, status).uri =~= base_path
        + "/pet/"@ + decimal(pet_id as int) + "?name="@ + form_text(name) + "&status="@
        + form_text(status));
    assert(upload_file_request(base_path, pet_id, additional_metadata, file).uri =~= base_path
        + "/pet/"@ + decimal(pet_id as int) + "/uploadImage?additionalMetadata="@ + form_text(
        additional_metadata,
    ));
}

/// The path `{literal}{id}`: the text and then the identifier in decimal.
fn pet_path(literal: &str, pet_id: i64) -> (path: Vec<PathPart>)
    ensures
        path_text(path@) == literal@ + decimal(pet_id as int),
{
    let mut path: Vec<PathPart> = Vec::new();
    path.push(PathPart::Literal(literal.to_owned()));
    path.push(PathPart::Param(i64_to_decimal(pet_id)));
    proof {
        lemma_decimal_is_unchanged(pet_id as int);
        lemma_path_text_push(Seq::empty(), path@[0]);
        lemma_path_text_push(seq![path@[0]], path@[1]);
        assert(path@ =~= seq![path@[0]].push(path@[1]));
        assert(seq![path@[0]] =~= Seq::<PathPart>::empty().push(path@[0]));
        assert(path_text(path@) =~= literal@ + decimal(pet_id as int));
    }
    path
}

/// The path that is one literal text.
fn literal_path(literal: &str) -> (path: Vec<PathPart>)
    ensures
        path_text(path@) == literal@,
{
    let mut path: Vec<PathPart> = Vec::new();
    path.push(PathPart::Literal(literal.to_owned()));
    proof {
        lemma_path_text_push(Seq::empty(), path@[0]);
        assert(path@ =~= Seq::<PathPart>::empty().push(path@[0]));
        assert(path_text(path@) =~= literal@);
    }
    path
}

/// A body of JSON text.
fn json_body(text: &str) -> (body: Body)
    ensures
        body.content_type@ == "application/json"@,
        body.bytes@ == encode_utf8(text@),
{
    Body { content_type: "application/json".to_owned(), bytes: text.as_bytes_vec() }
}

impl PetApi for PetApiImpl {
    closed spec fn base_path(&self) -> Seq<char> {
        self.configuration.base_path@
    }

    fn AddPet(&self, body: &str) -> (request: Request) {
        let endpoint = Endpoint {
            method: Method::Post,
            path: literal_path("/pet"),
            query: Vec::new(),
            headers: Vec::new(),
            body: Some(json_body(body)),
        };
        let request = build_request(self.configuration.base_path.as_str(), endpoint);
        assert(request@.headers =~= add_pet_request(self.base_path(), body@).headers);
        request
    }

    fn DeletePet(&self, pet_id: i64, api_key: &str) -> (request: Request) {
        let mut headers: Vec<Header> = Vec::new();
        headers.push(Header { name: "api_key".to_owned(), value: api_key.to_owned() });
        let endpoint = Endpoint {
            method: Method::Delete,
            path: pet_path("/pet/", pet_id),
            query: Vec::new(),
            headers,
            body: None,
        };
        let request = build_request(self.configuration.base_path.as_str(), endpoint);
        assert(request@.uri =~= delete_pet_request(self.base_path(), pet_id, api_key@).uri);
        assert(request@.headers =~= delete_pet_request(self.base_path(), pet_id, api_key@).headers);
        request
    }

    fn FindPetsByStatus(&self, status: Vec<String>) -> (request: Request) {
        let mut query: Vec<QueryParam> = Vec::new();
        query.push(QueryParam { name: "status".to_owned(), values: status });
        let endpoint = Endpoint {
            method: Method::Get,
            path: literal_path("/pet/findByStatus"),
            query,
            headers: Vec::new(),
            body: None,
        };
        proof {
            lemma_query_text_push(Seq::empty(), endpoint.query@[0]);
            assert(endpoint.query@ =~= Seq::<QueryParam>::empty().push(endpoint.query@[0]));
        }
        let request = build_request(self.configuration.base_path.as_str(), endpoint);
        assert(request@.headers =~= Seq::empty());
        request
    }

    fn FindPetsByTags(&self, tags: Vec<String>) -> (request: Request) {
        let mut query: Vec<QueryParam> = Vec::new();
        query.push(QueryParam { name: "tags".to_owned(), values: tags });
        let endpoint = Endpoint {
            method: Method::Get,
            path: literal_path("/pet/findByTags"),
            query,
            headers: Vec::new(),
            body: None,
        };
        proof {
            lemma_query_text_push(Seq::empty(), endpoint.query@[0]);
            assert(endpoint.query@ =~= Seq::<QueryParam>::empty().push(endpoint.query@[0]));
        }
        let request = build_request(self.configuration.base_path.as_str(), endpoint);
        assert(request@.headers =~= Seq::empty());
        request
    }

    fn GetPetById(&self, pet_id: i64) -> (request: Request) {
        let endpoint = Endpoint {
            method: Method::Get,
            path: pet_path("/pet/", pet_id),
            query: Vec::new(),
            headers: Vec::new(),
            body: None,
        };
        let request = build_request(self.configuration.base_path.as_str(), endpoint);
        assert(request@.uri =~= get_pet_by_id_request(self.base_path(), pet_id).uri);
        assert(request@.headers =~= Seq::empty());
        request
    }

    fn UpdatePet(&self, body: &str) -> (request: Request) {
        let endpoint = Endpoint {
            method: Method::Put,
            path: literal_path("/pet"),
            query: Vec::new(),
            headers: Vec::new(),
            body: Some(json_body(body)),
        };
        let request = build_request(self.configuration.base_path.as_str(), endpoint);
        assert(request@.headers =~= update_pet_request(self.base_path(), body@).headers);
        request
    }

    fn UpdatePetWithForm(&self, pet_id: i64, name: &str, status: &str) -> (request: Request) {
        let mut query: Vec<QueryParam> = Vec::new();
        query.push(QueryParam::single("name", name));
        query.push(QueryParam::single("status", status));
        let endpoint = Endpoint {
            method: Method::Post,
            path: pet_path("/pet/", pet_id),
            query,
            headers: Vec::new(),
            body: None,
        };
        proof {
            let first = endpoint.query@[0];
            let second = endpoint.query@[1];
            lemma_query_text_push(Seq::empty(), first);
            lemma_query_text_push(seq![first], second);
            assert(seq![first] =~= Seq::<QueryParam>::empty().push(first));
            assert(endpoint.query@ =~= seq![first].push(second));
            lemma_single_value_is_one_pair(Seq::empty(), "name"@, first.values@);
            lemma_single_value_is_one_pair(
                pair_appended(Seq::empty(), "name"@, name@),
                "status"@,
                second.values@,
            );
        }
        let request = build_request(self.configuration.base_path.as_str(), endpoint);
        assert(request@.uri =~= update_pet_with_form_request(
            self.base_path(),
            pet_id,
            name@,
            status@,
        ).uri);
        assert(request@.headers =~= Seq::empty());
        request
    }

    fn UploadFile(&self, pet_id: i64, additional_metadata: &str, file: Vec<u8>) -> (request:
        Request) {
        let mut path = pet_path("/pet/", pet_id);
        let ghost before = path@;
        path.push(PathPart::Literal("/uploadImage".to_owned()));
        proof {
            lemma_path_text_push(before, path@.last());
        }
        let mut query: Vec<QueryParam> = Vec::new();
        query.push(QueryParam::single("additionalMetadata", additional_metadata));
        let endpoint = Endpoint {
            method: Method::Post,
            path,
            query,
            headers: Vec::new(),
            body: Some(Body { content_type: "application/octet-stream".to_owned(), bytes: file }),
        };
        proof {
            let only = endpoint.query@[0];
            lemma_query_text_push(Seq::empty(), only);
            assert(endpoint.query@ =~= Seq::<QueryParam>::empty().push(only));
            lemma_single_value_is_one_pair(Seq::empty(), "additionalMetadata"@, only.values@);
        }
        let request = build_request(self.configuration.base_path.as_str(), endpoint);
        assert(request@.uri =~= upload_file_request(
            self.base_path(),
            pet_id,
            additional_metadata@,
            file@,
        ).uri);
        assert(request@.headers =~= upload_file_request(
            self.base_path(),
            pet_id,
            additional_metadata@,
            file@,
        ).headers);
        request
    }
}

} // verus!
