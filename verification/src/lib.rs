//! A pet store API: the resource model, the closed response set of each
//! operation, the capability interface that a backing store implements, and the
//! transport adapter that turns a decoded request into a response.

use vstd::prelude::*;

pub mod ident;
pub mod models;
pub mod server;
pub mod store;

verus! {

/// The fixed prefix of every route.
pub const BASE_PATH: &'static str = "/v1";

/// The version of the API.
pub const API_VERSION: &'static str = "1.0.0";

/// `http::Method`, carried through to the backing store unread.
#[verifier::external_type_specification]
#[verifier::external_body]
pub struct ExMethod(http::Method);

/// `axum::extract::Host`, carried through to the backing store unread.
#[verifier::external_type_specification]
#[verifier::external_body]
pub struct ExHost(axum::extract::Host);

/// `axum_extra::extract::CookieJar`, carried through to the backing store unread.
#[verifier::external_type_specification]
#[verifier::external_body]
pub struct ExCookieJar(axum_extra::extract::CookieJar);

/// What a backing store answers to a create request.
#[derive(Debug, PartialEq, Eq)]
#[must_use]
#[allow(non_camel_case_types)]
pub enum CreatePetsResponse {
    /// Null response
    Status201_NullResponse,
    /// unexpected error
    Status0_UnexpectedError(models::Error),
}

/// What a backing store answers to a list request.
#[derive(Debug, PartialEq, Eq)]
#[must_use]
#[allow(non_camel_case_types)]
pub enum ListPetsResponse {
    /// A paged array of pets
    Status200_APagedArrayOfPets { body: Vec<models::Pet>, x_next: Option<String> },
    /// unexpected error
    Status0_UnexpectedError(models::Error),
}

/// What a backing store answers to a show request.
#[derive(Debug, PartialEq, Eq)]
#[must_use]
#[allow(non_camel_case_types)]
pub enum ShowPetByIdResponse {
    /// Expected response to a valid request
    Status200_ExpectedResponseToAValidRequest(models::Pet),
    /// No pet has the identifier that was asked for
    Status404_NotFound(models::Error),
    /// unexpected error
    Status0_UnexpectedError(models::Error),
}

/// The capability interface: one method per operation, implemented by
/// whichever backing store is wired in.
///
/// Each method comes with a relation of the implementor's own choosing that
/// says which answers the store may give, and which state it may be left in.
/// An `Err` is the opaque fault: it should not occur in normal operation.
pub trait Api: Sized {
    /// Whether a create of `body` in this store, asked for with the given method,
    /// host and cookies, may answer `res` and leave `after`.
    /// A store that says nothing of itself may answer anything.
    open spec fn create_pets_spec(
        &self,
        method: http::Method,
        host: axum::extract::Host,
        cookies: axum_extra::extract::CookieJar,
        body: models::Pet,
        after: &Self,
        res: Result<CreatePetsResponse, String>,
    ) -> bool {
        true
    }

    /// Whether a list of this store may answer `res`.
    open spec fn list_pets_spec(
        &self,
        method: http::Method,
        host: axum::extract::Host,
        cookies: axum_extra::extract::CookieJar,
        query_params: models::ListPetsQueryParams,
        res: Result<ListPetsResponse, String>,
    ) -> bool {
        true
    }

    /// Whether a show in this store may answer `res`.
    open spec fn show_pet_by_id_spec(
        &self,
        method: http::Method,
        host: axum::extract::Host,
        cookies: axum_extra::extract::CookieJar,
        path_params: models::ShowPetByIdPathParams,
        res: Result<ShowPetByIdResponse, String>,
    ) -> bool {
        true
    }

    /// Create a pet.
    ///
    /// CreatePets - POST /v1/pets
    fn create_pets(
        &mut self,
        method: http::Method,
        host: axum::extract::Host,
        cookies: axum_extra::extract::CookieJar,
        body: models::Pet,
    ) -> (res: Result<CreatePetsResponse, String>)
        ensures
            old(self).create_pets_spec(method, host, cookies, body, final(self), res),
    ;

    /// List all pets.
    ///
    /// ListPets - GET /v1/pets
    fn list_pets(
        &self,
        method: http::Method,
        host: axum::extract::Host,
        cookies: axum_extra::extract::CookieJar,
        query_params: models::ListPetsQueryParams,
    ) -> (res: Result<ListPetsResponse, String>)
        ensures
            self.list_pets_spec(method, host, cookies, query_params, res),
    ;

    /// Info for a specific pet.
    ///
    /// ShowPetById - GET /v1/pets/{petId}
    fn show_pet_by_id(
        &self,
        method: http::Method,
        host: axum::extract::Host,
        cookies: axum_extra::extract::CookieJar,
        path_params: models::ShowPetByIdPathParams,
    ) -> (res: Result<ShowPetByIdResponse, String>)
        ensures
            self.show_pet_by_id_spec(method, host, cookies, path_params, res),
    ;
}

} // verus!
