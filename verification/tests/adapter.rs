use axum::extract::Host;
use axum_extra::extract::CookieJar;
use http::Method;
use petstore::models::{Error, ListPetsQueryParams, Pet, PetPayload, ShowPetByIdPathParams};
use petstore::server::{
    bad_request, create_pets, create_pets_response, create_pets_validation, list_pets,
    list_pets_response, list_pets_validation, respond, sent, server_fault, show_pet_by_id,
    show_pet_by_id_response, show_pet_by_id_validation, Field, FieldError, HttpResponse,
    ResponseBody, Rule, SentResponse, ValidationErrors,
};
use petstore::store::{FixedStore, MemoryStore};
use petstore::{CreatePetsResponse, ListPetsResponse, ShowPetByIdResponse, API_VERSION, BASE_PATH};

fn host() -> Host {
    Host("pets.example".to_string())
}

fn payload(id: i64, name: &str, tag: Option<&str>) -> PetPayload {
    PetPayload { id: Some(id), name: Some(name.to_string()), tag: tag.map(|t| t.to_string()) }
}

fn pet(id: i64, name: &str, tag: Option<&str>) -> Pet {
    Pet { id, name: name.to_string(), tag: tag.map(|t| t.to_string()) }
}

fn path(id: &str) -> ShowPetByIdPathParams {
    ShowPetByIdPathParams { pet_id: id.to_string() }
}

fn json(status: u16, body: ResponseBody) -> HttpResponse {
    HttpResponse {
        status,
        content_type: Some("application/json".to_string()),
        x_next: None,
        body,
    }
}

fn fault() -> HttpResponse {
    HttpResponse { status: 500, content_type: None, x_next: None, body: ResponseBody::Empty }
}

fn text(status: u16, body: &str) -> HttpResponse {
    HttpResponse {
        status,
        content_type: None,
        x_next: None,
        body: ResponseBody::Text(body.to_string()),
    }
}

#[test]
fn the_constants_name_the_first_version() {
    assert_eq!(BASE_PATH, "/v1");
    assert_eq!(API_VERSION, "1.0.0");
}

#[test]
fn create_then_show_returns_the_pet() {
    let mut store = MemoryStore::new();
    let created = create_pets(
        &mut store,
        Method::POST,
        host(),
        CookieJar::new(),
        Ok(payload(7, "Rex", Some("dog"))),
    );
    assert_eq!(
        created,
        HttpResponse { status: 201, content_type: None, x_next: None, body: ResponseBody::Empty }
    );
    let shown = show_pet_by_id(&store, Method::GET, host(), CookieJar::new(), Ok(path("7")));
    assert_eq!(shown, json(200, ResponseBody::Pet(pet(7, "Rex", Some("dog")))));
    let again = show_pet_by_id(&store, Method::GET, host(), CookieJar::new(), Ok(path("+007")));
    assert_eq!(again, json(200, ResponseBody::Pet(pet(7, "Rex", Some("dog")))));
}

#[test]
fn create_keeps_a_pet_without_a_tag() {
    let mut store = MemoryStore::new();
    let created =
        create_pets(&mut store, Method::POST, host(), CookieJar::new(), Ok(payload(-3, "", None)));
    assert_eq!(created.status, 201);
    let shown = show_pet_by_id(&store, Method::GET, host(), CookieJar::new(), Ok(path("-3")));
    assert_eq!(shown, json(200, ResponseBody::Pet(pet(-3, "", None))));
}

#[test]
fn a_body_that_was_not_decoded_is_rejected_and_not_stored() {
    let mut store = MemoryStore::new();
    let r = create_pets(
        &mut store,
        Method::POST,
        host(),
        CookieJar::new(),
        Err("expected value at line 1 column 1".to_string()),
    );
    assert_eq!(r, text(400, "expected value at line 1 column 1"));
    assert_eq!(store.len(), 0);
}

#[test]
fn a_missing_name_is_named() {
    let mut store = MemoryStore::new();
    let body = PetPayload { id: Some(1), name: None, tag: Some("cat".to_string()) };
    let r = create_pets(&mut store, Method::POST, host(), CookieJar::new(), Ok(body));
    assert_eq!(r, text(400, "name: is required\n"));
    assert_eq!(store.len(), 0);
}

#[test]
fn a_missing_id_is_named() {
    let mut store = MemoryStore::new();
    let body = PetPayload { id: None, name: Some("Tom".to_string()), tag: None };
    let r = create_pets(&mut store, Method::POST, host(), CookieJar::new(), Ok(body));
    assert_eq!(r, text(400, "id: is required\n"));
    assert_eq!(store.len(), 0);
}

#[test]
fn both_missing_fields_are_named_in_order() {
    let mut store = MemoryStore::new();
    let body = PetPayload { id: None, name: None, tag: None };
    let r = create_pets(&mut store, Method::POST, host(), CookieJar::new(), Ok(body));
    assert_eq!(r, text(400, "id: is required\nname: is required\n"));
    assert_eq!(store.len(), 0);
}

#[test]
fn validation_hands_back_the_pet() {
    assert_eq!(create_pets_validation(payload(5, "Ann", Some("t"))), Ok(pet(5, "Ann", Some("t"))));
    assert_eq!(
        create_pets_validation(PetPayload { id: None, name: None, tag: None }),
        Err(ValidationErrors {
            errors: vec![
                FieldError { field: Field::Id, rule: Rule::Required },
                FieldError { field: Field::Name, rule: Rule::Required },
            ],
        })
    );
    assert_eq!(
        list_pets_validation(ListPetsQueryParams { limit: Some(-4) }),
        Ok(ListPetsQueryParams { limit: Some(-4) })
    );
    assert_eq!(list_pets_validation(ListPetsQueryParams { limit: None }), Ok(ListPetsQueryParams { limit: None }));
    assert_eq!(show_pet_by_id_validation(path("12")), Ok(path("12")));
    assert_eq!(
        show_pet_by_id_validation(path("twelve")),
        Err(ValidationErrors { errors: vec![FieldError { field: Field::PetId, rule: Rule::Integer }] })
    );
}

#[test]
fn messages_are_built_line_by_line() {
    assert_eq!(ValidationErrors { errors: vec![] }.message(), "");
    assert_eq!(
        ValidationErrors { errors: vec![FieldError { field: Field::PetId, rule: Rule::Integer }] }
            .message(),
        "petId: must be a 64-bit integer\n"
    );
    assert_eq!(Field::Id.name(), "id");
    assert_eq!(Field::Name.name(), "name");
    assert_eq!(Field::PetId.name(), "petId");
    assert_eq!(Rule::Required.text(), "is required");
    assert_eq!(Rule::Integer.text(), "must be a 64-bit integer");
}

#[test]
fn list_of_an_empty_store_is_an_empty_array_without_cursor() {
    let store = MemoryStore::new();
    let r = list_pets(
        &store,
        Method::GET,
        host(),
        CookieJar::new(),
        Ok(ListPetsQueryParams { limit: None }),
    );
    assert_eq!(r, json(200, ResponseBody::Pets(vec![])));
    assert_eq!(r.x_next, None);
}

#[test]
fn list_returns_every_pet_in_order() {
    let mut store = MemoryStore::new();
    for (id, name) in [(3, "c"), (1, "a"), (2, "b")] {
        let r = create_pets(
            &mut store,
            Method::POST,
            host(),
            CookieJar::new(),
            Ok(payload(id, name, None)),
        );
        assert_eq!(r.status, 201);
    }
    let r = list_pets(
        &store,
        Method::GET,
        host(),
        CookieJar::new(),
        Ok(ListPetsQueryParams { limit: Some(1) }),
    );
    assert_eq!(
        r,
        json(200, ResponseBody::Pets(vec![pet(3, "c", None), pet(1, "a", None), pet(2, "b", None)]))
    );
}

#[test]
fn list_parameters_that_were_not_decoded_are_rejected() {
    let store = MemoryStore::new();
    let r = list_pets(
        &store,
        Method::GET,
        host(),
        CookieJar::new(),
        Err("invalid digit found in string".to_string()),
    );
    assert_eq!(r, text(400, "invalid digit found in string"));
}

#[test]
fn show_of_an_unknown_pet_is_not_found() {
    let mut store = MemoryStore::new();
    let _ = create_pets(&mut store, Method::POST, host(), CookieJar::new(), Ok(payload(1, "a", None)));
    let r = show_pet_by_id(&store, Method::GET, host(), CookieJar::new(), Ok(path("2")));
    assert_eq!(
        r,
        json(404, ResponseBody::Error(Error { code: 404, message: "pet not found".to_string() }))
    );
}

#[test]
fn show_of_a_non_numeric_identifier_is_rejected() {
    let store = MemoryStore::new();
    let r = show_pet_by_id(&store, Method::GET, host(), CookieJar::new(), Ok(path("rex")));
    assert_eq!(r, text(400, "petId: must be a 64-bit integer\n"));
    let r = show_pet_by_id(&store, Method::GET, host(), CookieJar::new(), Ok(path("")));
    assert_eq!(r.status, 400);
    let r = show_pet_by_id(
        &store,
        Method::GET,
        host(),
        CookieJar::new(),
        Err("missing path parameter".to_string()),
    );
    assert_eq!(r, text(400, "missing path parameter"));
}

#[test]
fn creates_one_after_another_are_each_retrievable() {
    let mut store = MemoryStore::new();
    for id in 0..20i64 {
        let name = format!("pet-{}", id);
        let r = create_pets(
            &mut store,
            Method::POST,
            host(),
            CookieJar::new(),
            Ok(payload(id, &name, Some("t"))),
        );
        assert_eq!(r.status, 201);
    }
    assert_eq!(store.len(), 20);
    for id in 0..20i64 {
        let name = format!("pet-{}", id);
        let r = show_pet_by_id(
            &store,
            Method::GET,
            host(),
            CookieJar::new(),
            Ok(path(&format!("{}", id))),
        );
        assert_eq!(r, json(200, ResponseBody::Pet(pet(id, &name, Some("t")))));
    }
}

#[test]
fn a_second_create_with_the_same_identifier_is_a_fault() {
    let mut store = MemoryStore::new();
    let first = create_pets(&mut store, Method::POST, host(), CookieJar::new(), Ok(payload(1, "a", None)));
    assert_eq!(first.status, 201);
    let second = create_pets(&mut store, Method::POST, host(), CookieJar::new(), Ok(payload(1, "b", None)));
    assert_eq!(second, fault());
    assert_eq!(store.len(), 1);
    assert_eq!(store.get(1), Some(pet(1, "a", None)));
    assert_eq!(store.get(2), None);
}

#[test]
fn the_stub_answers_with_fixed_data() {
    let mut stub = FixedStore {};
    let created = create_pets(&mut stub, Method::POST, host(), CookieJar::new(), Ok(payload(9, "x", None)));
    assert_eq!(created.status, 201);
    assert_eq!(created.body, ResponseBody::Empty);
    let listed = list_pets(&stub, Method::GET, host(), CookieJar::new(), Ok(ListPetsQueryParams { limit: None }));
    assert_eq!(listed, json(200, ResponseBody::Pets(vec![])));
    let shown = show_pet_by_id(&stub, Method::GET, host(), CookieJar::new(), Ok(path("9")));
    assert_eq!(shown, json(200, ResponseBody::Pet(pet(1, "pet", None))));
}

#[test]
fn the_fallback_variant_is_sent_with_its_error() {
    let e = || Error { code: 7, message: "boom".to_string() };
    assert_eq!(
        create_pets_response(Ok(CreatePetsResponse::Status0_UnexpectedError(e()))),
        json(500, ResponseBody::Error(e()))
    );
    assert_eq!(
        list_pets_response(Ok(ListPetsResponse::Status0_UnexpectedError(e()))),
        json(500, ResponseBody::Error(e()))
    );
    assert_eq!(
        show_pet_by_id_response(Ok(ShowPetByIdResponse::Status0_UnexpectedError(e()))),
        json(500, ResponseBody::Error(e()))
    );
}

#[test]
fn the_opaque_fault_is_answered_with_an_empty_500() {
    assert_eq!(create_pets_response(Err("x".to_string())), fault());
    assert_eq!(list_pets_response(Err("x".to_string())), fault());
    assert_eq!(show_pet_by_id_response(Err("x".to_string())), fault());
    assert_eq!(server_fault(), fault());
}

#[test]
fn each_declared_status_is_sent() {
    assert_eq!(
        create_pets_response(Ok(CreatePetsResponse::Status201_NullResponse)),
        HttpResponse { status: 201, content_type: None, x_next: None, body: ResponseBody::Empty }
    );
    assert_eq!(
        show_pet_by_id_response(Ok(
            ShowPetByIdResponse::Status200_ExpectedResponseToAValidRequest(pet(1, "a", Some("b")))
        )),
        json(200, ResponseBody::Pet(pet(1, "a", Some("b"))))
    );
    assert_eq!(
        show_pet_by_id_response(Ok(ShowPetByIdResponse::Status404_NotFound(Error {
            code: 404,
            message: "gone".to_string()
        }))),
        json(404, ResponseBody::Error(Error { code: 404, message: "gone".to_string() }))
    );
}

#[test]
fn a_cursor_is_sent_in_the_header() {
    let r = list_pets_response(Ok(ListPetsResponse::Status200_APagedArrayOfPets {
        body: vec![pet(1, "a", None)],
        x_next: Some("/v1/pets?page=2".to_string()),
    }));
    assert_eq!(
        r,
        HttpResponse {
            status: 200,
            content_type: Some("application/json".to_string()),
            x_next: Some("/v1/pets?page=2".to_string()),
            body: ResponseBody::Pets(vec![pet(1, "a", None)]),
        }
    );
}

#[test]
fn a_cursor_with_a_tab_or_beyond_ascii_is_sent() {
    for cursor in ["a\tb", "caf\u{e9}", "", " "] {
        let r = list_pets_response(Ok(ListPetsResponse::Status200_APagedArrayOfPets {
            body: vec![],
            x_next: Some(cursor.to_string()),
        }));
        assert_eq!(r.status, 200);
        assert_eq!(r.x_next, Some(cursor.to_string()));
    }
}

#[test]
fn a_cursor_with_a_control_character_is_a_fault_with_a_text() {
    for cursor in ["a\nb", "\r", "x\u{7f}", "\u{0}"] {
        let r = list_pets_response(Ok(ListPetsResponse::Status200_APagedArrayOfPets {
            body: vec![pet(1, "a", None)],
            x_next: Some(cursor.to_string()),
        }));
        assert_eq!(
            r,
            text(
                500,
                "An internal server error occurred handling x_next header - failed to parse header value"
            )
        );
    }
}

#[test]
fn a_status_outside_the_status_line_is_a_fault() {
    assert_eq!(respond(0, None, None, ResponseBody::Text("x".to_string())), fault());
    assert_eq!(respond(99, None, None, ResponseBody::Empty), fault());
    assert_eq!(respond(1000, None, None, ResponseBody::Empty), fault());
    assert_eq!(respond(100, None, None, ResponseBody::Empty).status, 100);
    assert_eq!(
        respond(999, Some("text/plain".to_string()), Some("n".to_string()), ResponseBody::Text("x".to_string())),
        HttpResponse {
            status: 999,
            content_type: Some("text/plain".to_string()),
            x_next: Some("n".to_string()),
            body: ResponseBody::Text("x".to_string()),
        }
    );
    assert_eq!(bad_request("no".to_string()), text(400, "no"));
}

#[test]
fn a_serialized_body_takes_the_place_of_the_body() {
    let r = sent(json(200, ResponseBody::Pet(pet(1, "a", None))), Some(b"{\"id\":1,\"name\":\"a\"}".to_vec()));
    assert_eq!(
        r,
        SentResponse {
            status: 200,
            content_type: Some("application/json".to_string()),
            x_next: None,
            body: b"{\"id\":1,\"name\":\"a\"}".to_vec(),
        }
    );
}

#[test]
fn a_body_that_was_not_serialized_is_a_fault() {
    let response = HttpResponse {
        status: 200,
        content_type: Some("application/json".to_string()),
        x_next: Some("next".to_string()),
        body: ResponseBody::Pets(vec![pet(1, "a", None)]),
    };
    assert_eq!(
        sent(response, None),
        SentResponse { status: 500, content_type: None, x_next: None, body: vec![] }
    );
}
