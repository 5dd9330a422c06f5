use std::rc::Rc;

use petstore_client::error::ApiError;
use petstore_client::configuration::Configuration;
use petstore_client::pet_api::{Operation, PetApi, PetApiImpl};
use petstore_client::request::Method;
use petstore_client::response::{decoded, resolve, Resolution, ResponseShape};
use serde_json::Value;

const OPERATIONS: [Operation; 8] = [
    Operation::AddPet,
    Operation::DeletePet,
    Operation::FindPetsByStatus,
    Operation::FindPetsByTags,
    Operation::GetPetById,
    Operation::UpdatePet,
    Operation::UpdatePetWithForm,
    Operation::UploadFile,
];

fn api() -> PetApiImpl {
    PetApiImpl::new(Rc::new(Configuration { base_path: "http://petstore.example/v2".to_string() }))
}

fn connection_refused() -> hyper::Error {
    hyper::Error::Io(std::io::Error::new(std::io::ErrorKind::ConnectionRefused, "refused"))
}

fn rex() -> Value {
    let mut record = serde_json::Map::new();
    record.insert("id".to_string(), Value::from(42));
    record.insert("name".to_string(), Value::from("Rex"));
    record.insert("status".to_string(), Value::from("available"));
    Value::Object(record)
}

fn decode_json(shape: ResponseShape, outcome: Result<Vec<u8>, hyper::Error>) -> Result<Value, ApiError> {
    match resolve(shape, outcome) {
        Resolution::Failed(error) => Err(error),
        Resolution::Done => Ok(Value::Null),
        Resolution::Decode(bytes) => decoded(serde_json::from_slice::<Value>(&bytes)),
    }
}

#[test]
fn connection_refused_surfaces_as_a_transport_error_for_every_operation() {
    for operation in OPERATIONS {
        match resolve(operation.response_shape(), Err(connection_refused())) {
            Resolution::Failed(ApiError::Hyper(hyper::Error::Io(cause))) => {
                assert_eq!(cause.kind(), std::io::ErrorKind::ConnectionRefused);
            }
            other => panic!("{:?}: {:?}", operation, other),
        }
    }
}

#[test]
fn a_transport_failure_is_kept_as_it_came() {
    assert!(matches!(
        resolve(ResponseShape::Json, Err(hyper::Error::Timeout)),
        Resolution::Failed(ApiError::Hyper(hyper::Error::Timeout))
    ));
    assert!(matches!(
        resolve(ResponseShape::NoContent, Err(hyper::Error::Incomplete)),
        Resolution::Failed(ApiError::Hyper(hyper::Error::Incomplete))
    ));
}

#[test]
fn a_body_that_is_not_json_surfaces_as_a_decode_error() {
    let result = decode_json(
        Operation::GetPetById.response_shape(),
        Ok(b"<html>not json</html>".to_vec()),
    );
    match result {
        Err(ApiError::Serde(cause)) => assert!(cause.is_syntax()),
        other => panic!("{:?}", other),
    }
}

#[test]
fn a_truncated_body_surfaces_as_a_decode_error() {
    let result = decode_json(ResponseShape::Json, Ok(b"{\"id\":42,\"name\":".to_vec()));
    match result {
        Err(ApiError::Serde(cause)) => assert!(cause.is_eof()),
        other => panic!("{:?}", other),
    }
    assert!(matches!(decode_json(ResponseShape::Json, Ok(Vec::new())), Err(ApiError::Serde(_))));
}

#[test]
fn get_pet_by_id_yields_the_record_of_the_response() {
    let request = api().GetPetById(42);
    assert_eq!(request.method, Method::Get);
    assert_eq!(request.uri, "http://petstore.example/v2/pet/42");
    let body = b"{\"id\":42,\"name\":\"Rex\",\"status\":\"available\"}".to_vec();
    let record = decode_json(Operation::GetPetById.response_shape(), Ok(body)).unwrap();
    assert_eq!(record, rex());
    assert_eq!(record["id"], Value::from(42));
    assert_eq!(record["name"], Value::from("Rex"));
    assert_eq!(record["status"], Value::from("available"));
}

#[test]
fn add_pet_succeeds_on_any_response_whatever_the_body() {
    let record = serde_json::to_string(&rex()).unwrap();
    let request = api().AddPet(&record);
    assert_eq!(request.method, Method::Post);
    assert_eq!(request.uri, "http://petstore.example/v2/pet");
    assert_eq!(request.headers[0].name, "Content-Type");
    assert_eq!(request.headers[0].value, "application/json");
    assert_eq!(request.body, Some(record.into_bytes()));
    for body in [&b""[..], &b"{}"[..], &b"not json at all"[..], &[0xffu8, 0x00][..]] {
        assert!(matches!(
            resolve(Operation::AddPet.response_shape(), Ok(body.to_vec())),
            Resolution::Done
        ));
    }
}

#[test]
fn the_body_of_a_request_reads_back_as_the_record_that_was_written() {
    let record = rex();
    let request = api().UpdatePet(&serde_json::to_string(&record).unwrap());
    let sent = request.body.unwrap();
    assert_eq!(request.headers[1].name, "Content-Length");
    assert_eq!(request.headers[1].value, sent.len().to_string());
    assert_eq!(serde_json::from_slice::<Value>(&sent).unwrap(), record);
}

#[test]
fn find_pets_by_status_decodes_a_list_of_records() {
    let request = api().FindPetsByStatus(vec!["available".to_string(), "sold".to_string()]);
    assert_eq!(request.method, Method::Get);
    assert_eq!(
        request.uri,
        "http://petstore.example/v2/pet/findByStatus?status=available&status=sold"
    );
    let body = b"[{\"id\":42,\"name\":\"Rex\",\"status\":\"available\"},{\"id\":7,\"name\":\"Tom\",\"status\":\"sold\"}]";
    let list = decode_json(Operation::FindPetsByStatus.response_shape(), Ok(body.to_vec())).unwrap();
    let list = list.as_array().unwrap();
    assert_eq!(list.len(), 2);
    assert_eq!(list[0], rex());
    assert_eq!(list[1]["id"], Value::from(7));
    assert_eq!(list[1]["status"], Value::from("sold"));
}

#[test]
fn the_bytes_to_decode_are_the_bytes_received() {
    let received = vec![0u8, 1, 2, 0xfe, 0xff];
    match resolve(ResponseShape::Json, Ok(received.clone())) {
        Resolution::Decode(bytes) => assert_eq!(bytes, received),
        other => panic!("{:?}", other),
    }
    assert!(matches!(resolve(ResponseShape::Json, Ok(Vec::new())), Resolution::Decode(b) if b.is_empty()));
}

#[test]
fn operations_without_content_never_ask_for_decoding() {
    for operation in OPERATIONS {
        let step = resolve(operation.response_shape(), Ok(b"{\"code\":200}".to_vec()));
        match operation.response_shape() {
            ResponseShape::NoContent => assert!(matches!(step, Resolution::Done)),
            ResponseShape::Json => assert!(matches!(step, Resolution::Decode(_))),
        }
    }
}

#[test]
fn a_decoded_value_is_handed_on_unchanged() {
    assert_eq!(decoded::<Value>(Ok(rex())).unwrap(), rex());
    assert_eq!(decoded::<u32>(Ok(5)).unwrap(), 5);
    assert_eq!(decoded::<()>(Ok(())).unwrap(), ());
}

#[test]
fn the_two_kinds_of_error_can_be_told_apart() {
    let transport = ApiError::from(connection_refused());
    assert!(transport.is_transport());
    assert!(!transport.is_decode());
    let decode = ApiError::from(serde_json::from_str::<Value>("{").unwrap_err());
    assert!(decode.is_decode());
    assert!(!decode.is_transport());
    assert!(matches!(transport, ApiError::Hyper(_)));
    assert!(matches!(decode, ApiError::Serde(_)));
}
