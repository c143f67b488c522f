//! The transport adapter: validation of decoded requests, the encoding of each
//! response variant as status, headers and body, and the three handlers that
//! run a request through decode, validate, invoke and encode.

use vstd::prelude::*;
use crate::models::{
    text_view, pets_view, Error, ErrorView, ListPetsQueryParams, Pet, PetPayload, PetView,
    ShowPetByIdPathParams,
};
use crate::ident::{parse_pet_id, pet_key};
use crate::{Api, CreatePetsResponse, ListPetsResponse, ShowPetByIdResponse};

verus! {

/// A field of a request that a constraint is declared on.
#[derive(Clone, Copy, Debug, PartialEq, Eq, Structural)]
pub enum Field {
    /// The identifier of a pet in a create body.
    Id,
    /// The name of a pet in a create body.
    Name,
    /// The identifier in the path of a show request.
    PetId,
}

/// A constraint that a field can break.
#[derive(Clone, Copy, Debug, PartialEq, Eq, Structural)]
pub enum Rule {
    /// The field must be present.
    Required,
    /// The field must spell a 64-bit integer in decimal.
    Integer,
}

/// One broken constraint.
#[derive(Clone, Copy, Debug, PartialEq, Eq, Structural)]
pub struct FieldError {
    pub field: Field,
    pub rule: Rule,
}

/// The constraints that a request breaks, in the order of the fields.
#[derive(Debug, PartialEq, Eq)]
pub struct ValidationErrors {
    pub errors: Vec<FieldError>,
}

/// The name of a field as it stands on the wire.
pub open spec fn field_name(field: Field) -> Seq<char> {
    match field {
        Field::Id => "id"@,
        Field::Name => "name"@,
        Field::PetId => "petId"@,
    }
}

/// What is said of a broken constraint.
pub open spec fn rule_text(rule: Rule) -> Seq<char> {
    match rule {
        Rule::Required => "is required"@,
        Rule::Integer => "must be a 64-bit integer"@,
    }
}

/// The line that describes one broken constraint: the field's name, a colon and
/// a space, what is said of the constraint, and a line feed.
pub open spec fn error_line(e: FieldError) -> Seq<char> {
    field_name(e.field) + ": "@ + rule_text(e.rule) + "\n"@
}

/// The message of a list of broken constraints: their lines, in order.
pub open spec fn errors_text(errors: Seq<FieldError>) -> Seq<char>
    decreases errors.len(),
{
    if errors.len() == 0 {
        Seq::empty()
    } else {
        errors_text(errors.drop_last()) + error_line(errors.last())
    }
}

impl Field {
    /// The name of the field as it stands on the wire.
    pub fn name(&self) -> (r: &'static str)
        ensures
            r@ == field_name(*self),
    {
        match self {
            Field::Id => "id",
            Field::Name => "name",
            Field::PetId => "petId",
        }
    }
}

impl Rule {
    /// What is said of the constraint when it is broken.
    pub fn text(&self) -> (r: &'static str)
        ensures
            r@ == rule_text(*self),
    {
        match self {
            Rule::Required => "is required",
            Rule::Integer => "must be a 64-bit integer",
        }
    }
}

impl ValidationErrors {
    /// The message that is sent as the body of the rejection.
    pub fn message(&self) -> (r: String)
        ensures
            r@ == errors_text(self.errors@),
    {
        let mut out = String::new();
        let mut i: usize = 0;
        while i < self.errors.len()
            invariant
                i <= self.errors.len(),
                out@ == errors_text(self.errors@.take(i as int)),
            decreases self.errors.len() - i,
        {
            let e: FieldError = self.errors[i];
            proof {
                let next = self.errors@.take(i + 1);
                assert(next.drop_last() == self.errors@.take(i as int));
                assert(next.last() == e);
            }
            out.append(e.field.name());
            out.append(": ");
            out.append(e.rule.text());
            out.append("\n");
            i += 1;
        }
        proof {
            assert(self.errors@.take(i as int) == self.errors@);
        }
        out
    }
}

/// The constraints that a decoded create body breaks: `id` and `name` are
/// required, `tag` is not.
pub open spec fn payload_errors(body: PetPayload) -> Seq<FieldError> {
    let id: Seq<FieldError> = if body.id is None {
        seq![FieldError { field: Field::Id, rule: Rule::Required }]
    } else {
        seq![]
    };
    let name: Seq<FieldError> = if body.name is None {
        seq![FieldError { field: Field::Name, rule: Rule::Required }]
    } else {
        seq![]
    };
    id + name
}

/// Whether `pet` is the pet that a complete create body describes.
pub open spec fn pet_of_payload(body: PetPayload, pet: Pet) -> bool {
    &&& body.id == Some(pet.id)
    &&& body.name == Some(pet.name)
    &&& body.tag == pet.tag
}

/// Checks a decoded create body against the constraints declared on a pet.
pub fn create_pets_validation(body: PetPayload) -> (r: Result<Pet, ValidationErrors>)
    ensures
        match r {
            Ok(pet) => payload_errors(body).len() == 0 && pet_of_payload(body, pet),
            Err(e) => e.errors@ == payload_errors(body) && e.errors@.len() > 0,
        },
{
    let mut errors: Vec<FieldError> = Vec::new();
    if body.id.is_none() {
        errors.push(FieldError { field: Field::Id, rule: Rule::Required });
    }
    if body.name.is_none() {
        errors.push(FieldError { field: Field::Name, rule: Rule::Required });
    }
    assert(errors@ =~= payload_errors(body));
    match (body.id, body.name) {
        (Some(id), Some(name)) => Ok(Pet { id, name, tag: body.tag }),
        _ => Err(ValidationErrors { errors }),
    }
}

/// Checks decoded list parameters: no constraint is declared on them.
pub fn list_pets_validation(query_params: ListPetsQueryParams) -> (r: Result<
    ListPetsQueryParams,
    ValidationErrors,
>)
    ensures
        r == Ok::<ListPetsQueryParams, ValidationErrors>(query_params),
{
    Ok(query_params)
}

/// The constraints that a path identifier breaks.
pub open spec fn path_errors(path_params: ShowPetByIdPathParams) -> Seq<FieldError> {
    if pet_key(path_params.pet_id@) is None {
        seq![FieldError { field: Field::PetId, rule: Rule::Integer }]
    } else {
        seq![]
    }
}

/// Checks decoded show parameters: the identifier must spell a 64-bit integer.
pub fn show_pet_by_id_validation(path_params: ShowPetByIdPathParams) -> (r: Result<
    ShowPetByIdPathParams,
    ValidationErrors,
>)
    ensures
        match r {
            Ok(p) => p == path_params && path_errors(path_params).len() == 0,
            Err(e) => e.errors@ == path_errors(path_params) && e.errors@.len() > 0,
        },
{
    if parse_pet_id(path_params.pet_id.as_str()).is_some() {
        Ok(path_params)
    } else {
        let mut errors: Vec<FieldError> = Vec::new();
        errors.push(FieldError { field: Field::PetId, rule: Rule::Integer });
        assert(errors@ =~= path_errors(path_params));
        Err(ValidationErrors { errors })
    }
}

/// The body of a response, before it is serialized.
#[derive(Debug, PartialEq, Eq)]
pub enum ResponseBody {
    /// No body.
    Empty,
    /// Plain text.
    Text(String),
    /// An error, sent as JSON.
    Error(Error),
    /// One pet, sent as JSON.
    Pet(Pet),
    /// An array of pets, sent as JSON.
    Pets(Vec<Pet>),
}

/// The value of a [`ResponseBody`].
pub ghost enum BodyView {
    Empty,
    Text(Seq<char>),
    Error(ErrorView),
    Pet(PetView),
    Pets(Seq<PetView>),
}

impl View for ResponseBody {
    type V = BodyView;

    open spec fn view(&self) -> BodyView {
        match self {
            ResponseBody::Empty => BodyView::Empty,
            ResponseBody::Text(t) => BodyView::Text(t@),
            ResponseBody::Error(e) => BodyView::Error(e@),
            ResponseBody::Pet(p) => BodyView::Pet(p@),
            ResponseBody::Pets(ps) => BodyView::Pets(pets_view(ps@)),
        }
    }
}

/// A response: the status, the two headers that this API sends, and the body.
#[derive(Debug, PartialEq, Eq)]
pub struct HttpResponse {
    pub status: u16,
    /// The `content-type` header.
    pub content_type: Option<String>,
    /// The `x-next` header: the cursor of the next page.
    pub x_next: Option<String>,
    pub body: ResponseBody,
}

/// The value of an [`HttpResponse`].
pub ghost struct HttpResponseView {
    pub status: int,
    pub content_type: Option<Seq<char>>,
    pub x_next: Option<Seq<char>>,
    pub body: BodyView,
}

impl View for HttpResponse {
    type V = HttpResponseView;

    open spec fn view(&self) -> HttpResponseView {
        HttpResponseView {
            status: self.status as int,
            content_type: text_view(self.content_type),
            x_next: text_view(self.x_next),
            body: self.body@,
        }
    }
}

/// The rejection of a request that could not be decoded or that breaks a
/// constraint: `400` with the reason as plain text.
pub open spec fn bad_request_view(reason: Seq<char>) -> HttpResponseView {
    HttpResponseView {
        status: 400,
        content_type: None,
        x_next: None,
        body: BodyView::Text(reason),
    }
}

/// The answer to a fault: `500` with no header and no body.
pub open spec fn server_fault_view() -> HttpResponseView {
    HttpResponseView { status: 500, content_type: None, x_next: None, body: BodyView::Empty }
}

/// Whether a number can stand in a status line.
pub open spec fn status_ok(status: int) -> bool {
    100 <= status < 1000
}

/// The response with the given parts, or the answer to a fault where the
/// status cannot stand in a status line.
pub open spec fn response_view(
    status: int,
    content_type: Option<Seq<char>>,
    x_next: Option<Seq<char>>,
    body: BodyView,
) -> HttpResponseView {
    if status_ok(status) {
        HttpResponseView { status, content_type, x_next, body }
    } else {
        server_fault_view()
    }
}

/// Whether a byte may stand in a header's value: no control character but the tab.
pub open spec fn header_byte_ok(b: u8) -> bool {
    (b >= 32 && b != 127) || b == 9
}

/// Whether a text may stand as a header's value: every byte of its UTF-8
/// encoding may.
pub open spec fn header_text_ok(text: Seq<char>) -> bool {
    let bytes = vstd::utf8::encode_utf8(text);
    forall|i: int| 0 <= i < bytes.len() ==> header_byte_ok(#[trigger] bytes[i])
}

/// What is said of a cursor that cannot stand as a header's value.
pub open spec fn x_next_fault_text() -> Seq<char> {
    "An internal server error occurred handling x_next header - "@
        + "failed to parse header value"@
}

/// Calls `http::StatusCode::from_u16` and hands back the number of the status
/// it made. That function accepts the numbers from 100 to 999 and no others.
#[verifier::external_body]
fn status_code(status: u16) -> (r: Option<u16>)
    ensures
        r == (if status_ok(status as int) {
            Some(status)
        } else {
            None::<u16>
        }),
{
    match http::StatusCode::from_u16(status) {
        Ok(code) => Some(code.as_u16()),
        Err(_) => None,
    }
}

/// Calls `http::HeaderValue::from_str`. That function accepts a text whose
/// bytes are all 32 or more and not 127, or the tab; its error prints as the
/// fixed text stated here.
#[verifier::external_body]
fn header_value(value: &str) -> (r: Result<(), String>)
    ensures
        r is Ok <==> header_text_ok(value@),
        r is Err ==> r->Err_0@ == "failed to parse header value"@,
{
    match http::HeaderValue::from_str(value) {
        Ok(_) => Ok(()),
        Err(e) => Err(e.to_string()),
    }
}

/// The rejection of a request, with the reason as plain text.
pub fn bad_request(reason: String) -> (r: HttpResponse)
    ensures
        r@ == bad_request_view(reason@),
{
    HttpResponse { status: 400, content_type: None, x_next: None, body: ResponseBody::Text(reason) }
}

/// The answer to a fault.
pub fn server_fault() -> (r: HttpResponse)
    ensures
        r@ == server_fault_view(),
{
    HttpResponse { status: 500, content_type: None, x_next: None, body: ResponseBody::Empty }
}

/// Builds a response from its parts; a status that cannot stand in a status
/// line makes it the answer to a fault.
pub fn respond(
    status: u16,
    content_type: Option<String>,
    x_next: Option<String>,
    body: ResponseBody,
) -> (r: HttpResponse)
    ensures
        r@ == response_view(status as int, text_view(content_type), text_view(x_next), body@),
{
    match status_code(status) {
        Some(code) => HttpResponse { status: code, content_type, x_next, body },
        None => server_fault(),
    }
}

/// A response that carries a body as JSON.
pub open spec fn json_view(status: int, x_next: Option<Seq<char>>, body: BodyView)
    -> HttpResponseView {
    response_view(status, Some("application/json"@), x_next, body)
}

fn json(status: u16, x_next: Option<String>, body: ResponseBody) -> (r: HttpResponse)
    ensures
        r@ == json_view(status as int, text_view(x_next), body@),
{
    respond(status, Some(String::from_str("application/json")), x_next, body)
}

/// How the outcome of a create is sent: `201` with no body. The fallback
/// variant declares no status of its own: it is sent as `500` with the error
/// it carries as JSON. The opaque fault is sent as `500` with no body.
pub open spec fn create_pets_response_view(res: Result<CreatePetsResponse, String>)
    -> HttpResponseView {
    match res {
        Ok(CreatePetsResponse::Status201_NullResponse) => response_view(
            201,
            None,
            None,
            BodyView::Empty,
        ),
        Ok(CreatePetsResponse::Status0_UnexpectedError(e)) => json_view(
            500,
            None,
            BodyView::Error(e@),
        ),
        Err(_) => server_fault_view(),
    }
}

/// Encodes the outcome of a create.
pub fn create_pets_response(res: Result<CreatePetsResponse, String>) -> (r: HttpResponse)
    ensures
        r@ == create_pets_response_view(res),
{
    match res {
        Ok(CreatePetsResponse::Status201_NullResponse) => respond(
            201,
            None,
            None,
            ResponseBody::Empty,
        ),
        Ok(CreatePetsResponse::Status0_UnexpectedError(e)) => json(
            500,
            None,
            ResponseBody::Error(e),
        ),
        Err(_) => server_fault(),
    }
}

/// How the outcome of a list is sent: `200` with the pets as a JSON array and
/// the cursor, where there is one, in the `x-next` header. A cursor that cannot
/// stand as a header's value makes it `500` with a text that says so. The
/// fallback variant is sent as `500` with the error it carries as JSON, the
/// opaque fault as `500` with no body.
pub open spec fn list_pets_response_view(res: Result<ListPetsResponse, String>)
    -> HttpResponseView {
    match res {
        Ok(ListPetsResponse::Status200_APagedArrayOfPets { body, x_next }) => {
            if x_next is Some && !header_text_ok(x_next->Some_0@) {
                HttpResponseView {
                    status: 500,
                    content_type: None,
                    x_next: None,
                    body: BodyView::Text(x_next_fault_text()),
                }
            } else {
                json_view(200, text_view(x_next), BodyView::Pets(pets_view(body@)))
            }
        },
        Ok(ListPetsResponse::Status0_UnexpectedError(e)) => json_view(
            500,
            None,
            BodyView::Error(e@),
        ),
        Err(_) => server_fault_view(),
    }
}

/// Encodes the outcome of a list.
pub fn list_pets_response(res: Result<ListPetsResponse, String>) -> (r: HttpResponse)
    ensures
        r@ == list_pets_response_view(res),
{
    match res {
        Ok(ListPetsResponse::Status200_APagedArrayOfPets { body, x_next }) => {
            let checked: Result<(), String> = match &x_next {
                Some(cursor) => header_value(cursor.as_str()),
                None => Ok(()),
            };
            match checked {
                Ok(_) => json(200, x_next, ResponseBody::Pets(body)),
                Err(reason) => {
                    let text = String::from_str(
                        "An internal server error occurred handling x_next header - ",
                    ).concat(reason.as_str());
                    HttpResponse {
                        status: 500,
                        content_type: None,
                        x_next: None,
                        body: ResponseBody::Text(text),
                    }
                },
            }
        },
        Ok(ListPetsResponse::Status0_UnexpectedError(e)) => json(
            500,
            None,
            ResponseBody::Error(e),
        ),
        Err(_) => server_fault(),
    }
}

/// How the outcome of a show is sent: `200` with the pet as JSON, `404` with
/// the error as JSON where no pet has the identifier. The fallback variant is
/// sent as `500` with the error it carries as JSON, the opaque fault as `500`
/// with no body.
pub open spec fn show_pet_by_id_response_view(res: Result<ShowPetByIdResponse, String>)
    -> HttpResponseView {
    match res {
        Ok(ShowPetByIdResponse::Status200_ExpectedResponseToAValidRequest(pet)) => json_view(
            200,
            None,
            BodyView::Pet(pet@),
        ),
        Ok(ShowPetByIdResponse::Status404_NotFound(e)) => json_view(
            404,
            None,
            BodyView::Error(e@),
        ),
        Ok(ShowPetByIdResponse::Status0_UnexpectedError(e)) => json_view(
            500,
            None,
            BodyView::Error(e@),
        ),
        Err(_) => server_fault_view(),
    }
}

/// Encodes the outcome of a show.
pub fn show_pet_by_id_response(res: Result<ShowPetByIdResponse, String>) -> (r: HttpResponse)
    ensures
        r@ == show_pet_by_id_response_view(res),
{
    match res {
        Ok(ShowPetByIdResponse::Status200_ExpectedResponseToAValidRequest(pet)) => json(
            200,
            None,
            ResponseBody::Pet(pet),
        ),
        Ok(ShowPetByIdResponse::Status404_NotFound(e)) => json(404, None, ResponseBody::Error(e)),
        Ok(ShowPetByIdResponse::Status0_UnexpectedError(e)) => json(
            500,
            None,
            ResponseBody::Error(e),
        ),
        Err(_) => server_fault(),
    }
}

/// What the adapter does with a create request: `r` is the response, and
/// `after` is the store that the request leaves.
pub open spec fn create_pets_post<A: Api>(
    before: A,
    method: http::Method,
    host: axum::extract::Host,
    cookies: axum_extra::extract::CookieJar,
    body: Result<PetPayload, String>,
    after: A,
    r: HttpResponseView,
) -> bool {
    match body {
        Err(reason) => r == bad_request_view(reason@) && after == before,
        Ok(payload) => if payload_errors(payload).len() > 0 {
            r == bad_request_view(errors_text(payload_errors(payload))) && after == before
        } else {
            exists|pet: Pet, res: Result<CreatePetsResponse, String>|
                pet_of_payload(payload, pet) && #[trigger] before.create_pets_spec(
                    method,
                    host,
                    cookies,
                    pet,
                    &after,
                    res,
                ) && r == create_pets_response_view(res)
        },
    }
}

/// What the adapter does with a list request.
pub open spec fn list_pets_post<A: Api>(
    api: A,
    method: http::Method,
    host: axum::extract::Host,
    cookies: axum_extra::extract::CookieJar,
    query_params: Result<ListPetsQueryParams, String>,
    r: HttpResponseView,
) -> bool {
    match query_params {
        Err(reason) => r == bad_request_view(reason@),
        Ok(params) => exists|res: Result<ListPetsResponse, String>| #[trigger]
            api.list_pets_spec(method, host, cookies, params, res) && r
                == list_pets_response_view(res),
    }
}

/// What the adapter does with a show request.
pub open spec fn show_pet_by_id_post<A: Api>(
    api: A,
    method: http::Method,
    host: axum::extract::Host,
    cookies: axum_extra::extract::CookieJar,
    path_params: Result<ShowPetByIdPathParams, String>,
    r: HttpResponseView,
) -> bool {
    match path_params {
        Err(reason) => r == bad_request_view(reason@),
        Ok(params) => if path_errors(params).len() > 0 {
            r == bad_request_view(errors_text(path_errors(params)))
        } else {
            exists|res: Result<ShowPetByIdResponse, String>| #[trigger]
                api.show_pet_by_id_spec(method, host, cookies, params, res) && r
                    == show_pet_by_id_response_view(res)
        },
    }
}

/// A response as it goes out: the body is the bytes that it was serialized to.
#[derive(Debug, PartialEq, Eq)]
pub struct SentResponse {
    pub status: u16,
    /// The `content-type` header.
    pub content_type: Option<String>,
    /// The `x-next` header.
    pub x_next: Option<String>,
    pub body: Vec<u8>,
}

/// The value of a [`SentResponse`].
pub ghost struct SentResponseView {
    pub status: int,
    pub content_type: Option<Seq<char>>,
    pub x_next: Option<Seq<char>>,
    pub body: Seq<u8>,
}

impl View for SentResponse {
    type V = SentResponseView;

    open spec fn view(&self) -> SentResponseView {
        SentResponseView {
            status: self.status as int,
            content_type: text_view(self.content_type),
            x_next: text_view(self.x_next),
            body: self.body@,
        }
    }
}

/// What goes out for a response once its body was handed to the serializer:
/// the response with the bytes as its body, or, where the serializer gave
/// none, `500` with no header and no body.
pub open spec fn sent_view(response: HttpResponseView, serialized: Option<Seq<u8>>)
    -> SentResponseView {
    match serialized {
        Some(bytes) => SentResponseView {
            status: response.status,
            content_type: response.content_type,
            x_next: response.x_next,
            body: bytes,
        },
        None => SentResponseView {
            status: 500,
            content_type: None,
            x_next: None,
            body: Seq::empty(),
        },
    }
}

/// The last step of the adapter: puts the serialized body in place of the
/// response's own, and answers a body that could not be serialized as a fault.
pub fn sent(response: HttpResponse, serialized: Option<Vec<u8>>) -> (r: SentResponse)
    ensures
        r@ == sent_view(
            response@,
            match serialized {
                Some(bytes) => Some(bytes@),
                None => None,
            },
        ),
{
    match serialized {
        Some(bytes) => SentResponse {
            status: response.status,
            content_type: response.content_type,
            x_next: response.x_next,
            body: bytes,
        },
        None => SentResponse { status: 500, content_type: None, x_next: None, body: Vec::new() },
    }
}

/// CreatePets - POST /v1/pets
///
/// Runs a create request through the adapter. A body that could not be decoded
/// is rejected with the decoder's words, one that breaks a constraint with the
/// validation message; neither reaches the store, which stays as it was. Any
/// other body is handed to the store as the pet it describes, and the store's
/// answer is encoded.
pub fn create_pets<A: Api>(
    api: &mut A,
    method: http::Method,
    host: axum::extract::Host,
    cookies: axum_extra::extract::CookieJar,
    body: Result<PetPayload, String>,
) -> (r: HttpResponse)
    ensures
        create_pets_post(*old(api), method, host, cookies, body, *final(api), r@),
{
    let payload = match body {
        Ok(payload) => payload,
        Err(reason) => {
            return bad_request(reason);
        },
    };
    match create_pets_validation(payload) {
        Err(errors) => bad_request(errors.message()),
        Ok(pet) => {
            let ghost handed = pet;
            let res = api.create_pets(method, host, cookies, pet);
            assert(old(api).create_pets_spec(method, host, cookies, handed, api, res));
            create_pets_response(res)
        },
    }
}

/// ListPets - GET /v1/pets
///
/// Runs a list request through the adapter. Parameters that could not be
/// decoded are rejected with the decoder's words; any others are handed to the
/// store, and the store's answer is encoded.
pub fn list_pets<A: Api>(
    api: &A,
    method: http::Method,
    host: axum::extract::Host,
    cookies: axum_extra::extract::CookieJar,
    query_params: Result<ListPetsQueryParams, String>,
) -> (r: HttpResponse)
    ensures
        list_pets_post(*api, method, host, cookies, query_params, r@),
{
    let params = match query_params {
        Ok(params) => params,
        Err(reason) => {
            return bad_request(reason);
        },
    };
    match list_pets_validation(params) {
        Err(errors) => bad_request(errors.message()),
        Ok(params) => {
            let res = api.list_pets(method, host, cookies, params);
            assert(api.list_pets_spec(method, host, cookies, params, res));
            list_pets_response(res)
        },
    }
}

/// ShowPetById - GET /v1/pets/{petId}
///
/// Runs a show request through the adapter. Parameters that could not be
/// decoded are rejected with the decoder's words, an identifier that spells no
/// 64-bit integer with the validation message; neither reaches the store. Any
/// other identifier is handed to the store, and the store's answer is encoded.
pub fn show_pet_by_id<A: Api>(
    api: &A,
    method: http::Method,
    host: axum::extract::Host,
    cookies: axum_extra::extract::CookieJar,
    path_params: Result<ShowPetByIdPathParams, String>,
) -> (r: HttpResponse)
    ensures
        show_pet_by_id_post(*api, method, host, cookies, path_params, r@),
{
    let params = match path_params {
        Ok(params) => params,
        Err(reason) => {
            return bad_request(reason);
        },
    };
    match show_pet_by_id_validation(params) {
        Err(errors) => bad_request(errors.message()),
        Ok(params) => {
            let res = api.show_pet_by_id(method, host, cookies, params);
            assert(api.show_pet_by_id_spec(method, host, cookies, params, res));
            show_pet_by_id_response(res)
        },
    }
}

/// Whether a text holds a line somewhere in it.
pub open spec fn holds_line(text: Seq<char>, line: Seq<char>) -> bool {
    exists|before: Seq<char>, after: Seq<char>| text == #[trigger] around(before, line, after)
}

/// A line with a text before it and a text after it.
pub open spec fn around(before: Seq<char>, line: Seq<char>, after: Seq<char>) -> Seq<char> {
    before + line + after
}

/// The message of a list of broken constraints holds the line of each of them.
pub proof fn message_holds_each_line(errors: Seq<FieldError>, i: int)
    requires
        0 <= i < errors.len(),
    ensures
        holds_line(errors_text(errors), error_line(errors[i])),
    decreases errors.len(),
{
    let line = error_line(errors[i]);
    let front = errors.drop_last();
    if i == errors.len() - 1 {
        assert(errors_text(errors) =~= around(errors_text(front), line, Seq::empty()));
    } else {
        message_holds_each_line(front, i);
        let (before, after) = choose|before: Seq<char>, after: Seq<char>|
            errors_text(front) == #[trigger] around(before, line, after);
        assert(errors_text(errors) =~= around(before, line, after + error_line(errors.last())));
    }
}

/// A create body that could not be decoded is rejected and not stored: for
/// every store, the response is `400` with the decoder's words as plain text,
/// and the store is as it was.
pub proof fn undecoded_create_is_rejected<A: Api>(
    before: A,
    method: http::Method,
    host: axum::extract::Host,
    cookies: axum_extra::extract::CookieJar,
    reason: String,
    after: A,
    r: HttpResponseView,
)
    requires
        create_pets_post(before, method, host, cookies, Err::<PetPayload, String>(reason), after, r),
    ensures
        r.status == 400,
        r.body == BodyView::Text(reason@),
        after == before,
{
}

/// A create body that lacks a required field is rejected and not stored: for
/// every store, the response is `400`, its body is a text that holds the line
/// of the missing field, which starts with the field's name, and the store is
/// as it was.
pub proof fn incomplete_create_is_rejected<A: Api>(
    before: A,
    method: http::Method,
    host: axum::extract::Host,
    cookies: axum_extra::extract::CookieJar,
    body: PetPayload,
    field: Field,
    after: A,
    r: HttpResponseView,
)
    requires
        (field == Field::Id && body.id is None) || (field == Field::Name && body.name is None),
        create_pets_post(before, method, host, cookies, Ok::<PetPayload, String>(body), after, r),
    ensures
        r.status == 400,
        r.body matches BodyView::Text(message) && holds_line(
            message,
            field_name(field) + ": "@ + "is required"@ + "\n"@,
        ),
        after == before,
{
    missing_field_is_named(body, field);
}

/// An identifier that spells no integer is rejected: for every store, a show
/// by a path identifier that denotes no 64-bit integer is answered with `400`
/// and the validation message as plain text.
pub proof fn malformed_identifier_is_rejected<A: Api>(
    api: A,
    method: http::Method,
    host: axum::extract::Host,
    cookies: axum_extra::extract::CookieJar,
    path_params: ShowPetByIdPathParams,
    r: HttpResponseView,
)
    requires
        pet_key(path_params.pet_id@) is None,
        show_pet_by_id_post(
            api,
            method,
            host,
            cookies,
            Ok::<ShowPetByIdPathParams, String>(path_params),
            r,
        ),
    ensures
        r.status == 400,
        r.body == BodyView::Text(
            errors_text(seq![FieldError { field: Field::PetId, rule: Rule::Integer }]),
        ),
{
}

/// A missing required field is named: where a decoded create body lacks `id`
/// or `name`, the validation message holds the line of that field, which
/// starts with the field's name and says that it is required.
pub proof fn missing_field_is_named(body: PetPayload, field: Field)
    requires
        (field == Field::Id && body.id is None) || (field == Field::Name && body.name is None),
    ensures
        payload_errors(body).len() > 0,
        holds_line(
            errors_text(payload_errors(body)),
            field_name(field) + ": "@ + "is required"@ + "\n"@,
        ),
{
    let errors = payload_errors(body);
    let e = FieldError { field, rule: Rule::Required };
    if field == Field::Id {
        assert(errors[0] == e);
        message_holds_each_line(errors, 0);
    } else {
        assert(errors[errors.len() - 1] == e);
        message_holds_each_line(errors, errors.len() - 1);
    }
}

/// Whether a body is sent as JSON.
pub open spec fn is_json(body: BodyView) -> bool {
    body is Error || body is Pet || body is Pets
}

/// The three encodings agree on the content type: whatever a store answers,
/// the response names a content type exactly when its body is sent as JSON,
/// and the type it names is `application/json`.
pub proof fn content_type_marks_json_bodies(
    created: Result<CreatePetsResponse, String>,
    listed: Result<ListPetsResponse, String>,
    shown: Result<ShowPetByIdResponse, String>,
)
    ensures
        create_pets_response_view(created).content_type is Some <==> is_json(
            create_pets_response_view(created).body,
        ),
        list_pets_response_view(listed).content_type is Some <==> is_json(
            list_pets_response_view(listed).body,
        ),
        show_pet_by_id_response_view(shown).content_type is Some <==> is_json(
            show_pet_by_id_response_view(shown).body,
        ),
        create_pets_response_view(created).content_type is Some ==> create_pets_response_view(
            created,
        ).content_type == Some("application/json"@),
        list_pets_response_view(listed).content_type is Some ==> list_pets_response_view(
            listed,
        ).content_type == Some("application/json"@),
        show_pet_by_id_response_view(shown).content_type is Some ==> show_pet_by_id_response_view(
            shown,
        ).content_type == Some("application/json"@),
{
}

/// A page with no pets and no cursor is sent as `200` with an empty array and
/// without the `x-next` header.
pub proof fn empty_page_has_no_cursor(listed: Result<ListPetsResponse, String>)
    requires
        listed matches Ok(ListPetsResponse::Status200_APagedArrayOfPets { body, x_next })
            && body@.len() == 0 && x_next is None,
    ensures
        list_pets_response_view(listed) == (HttpResponseView {
            status: 200,
            content_type: Some("application/json"@),
            x_next: None,
            body: BodyView::Pets(Seq::empty()),
        }),
{
    match listed {
        Ok(ListPetsResponse::Status200_APagedArrayOfPets { body, x_next }) => {
            assert(pets_view(body@) =~= Seq::<PetView>::empty());
        },
        _ => {},
    }
}

} // verus!
