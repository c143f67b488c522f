//! Backing stores: a stub that answers with fixed data, a table held in
//! memory, and the decisions that a store on a relational table makes before
//! and after each statement.

use vstd::prelude::*;
use crate::ident::{parse_pet_id, pet_key};
use crate::models::{
    copy_text, pets_view, text_view, Error, ErrorView, ListPetsQueryParams, Pet, PetPayload,
    PetView, ShowPetByIdPathParams,
};
use crate::server::{
    create_pets_post, create_pets_response_view, json_view, list_pets_post,
    list_pets_response_view, payload_errors, pet_of_payload, show_pet_by_id_post,
    show_pet_by_id_response_view, BodyView, HttpResponseView,
};
use crate::{Api, CreatePetsResponse, ListPetsResponse, ShowPetByIdResponse};

verus! {

/// Whether some row has the identifier.
pub open spec fn has_id(rows: Seq<PetView>, id: int) -> bool {
    exists|i: int| 0 <= i < rows.len() && (#[trigger] rows[i]).id == id
}

/// Whether no two rows share an identifier.
pub open spec fn distinct_ids(rows: Seq<PetView>) -> bool {
    forall|i: int, j: int|
        0 <= i < j < rows.len() ==> (#[trigger] rows[i]).id != (#[trigger] rows[j]).id
}

/// Whether the row at `i` is the first that has the identifier.
pub open spec fn is_first(rows: Seq<PetView>, id: int, i: int) -> bool {
    &&& 0 <= i < rows.len()
    &&& rows[i].id == id
    &&& forall|j: int| 0 <= j < i ==> (#[trigger] rows[j]).id != id
}

/// The first row with the identifier, if there is one.
pub open spec fn lookup(rows: Seq<PetView>, id: int) -> Option<PetView> {
    if has_id(rows, id) {
        Some(rows[choose|i: int| is_first(rows, id, i)])
    } else {
        None
    }
}

/// Where a row has the identifier, one is the first that has it.
pub proof fn lemma_first_exists(rows: Seq<PetView>, id: int, i: int)
    requires
        0 <= i < rows.len(),
        rows[i].id == id,
    ensures
        exists|k: int| is_first(rows, id, k),
    decreases i,
{
    if forall|j: int| 0 <= j < i ==> (#[trigger] rows[j]).id != id {
        assert(is_first(rows, id, i));
    } else {
        let j = choose|j: int| 0 <= j < i && (#[trigger] rows[j]).id == id;
        lemma_first_exists(rows, id, j);
    }
}

/// The row that a lookup gives is the one at the first place that has the
/// identifier.
pub proof fn lemma_lookup_at_first(rows: Seq<PetView>, id: int, i: int)
    requires
        is_first(rows, id, i),
    ensures
        lookup(rows, id) == Some(rows[i]),
{
    assert(has_id(rows, id));
    let k = choose|k: int| is_first(rows, id, k);
    assert(is_first(rows, id, k));
    if k < i {
        assert(rows[k].id != id);
    } else if i < k {
        assert(rows[i].id != id);
    }
}

/// The error that is sent where no pet has the identifier asked for.
pub open spec fn not_found_view() -> ErrorView {
    ErrorView { code: 404, message: "pet not found"@ }
}

/// The error that is sent where no pet has the identifier asked for.
pub fn not_found() -> (r: Error)
    ensures
        r@ == not_found_view(),
{
    Error { code: 404, message: String::from_str("pet not found") }
}

/// What a show answers once the row was looked for: the pet, or `404`.
pub open spec fn show_answer_spec(found: Option<PetView>, res: ShowPetByIdResponse) -> bool {
    match found {
        Some(row) => res matches ShowPetByIdResponse::Status200_ExpectedResponseToAValidRequest(pet)
            && pet@ == row,
        None => res matches ShowPetByIdResponse::Status404_NotFound(e) && e@ == not_found_view(),
    }
}

/// The answer of a show, from what the lookup gave.
pub fn show_answer(found: Option<Pet>) -> (res: ShowPetByIdResponse)
    ensures
        show_answer_spec(
            match found {
                Some(pet) => Some(pet@),
                None => None,
            },
            res,
        ),
{
    match found {
        Some(pet) => ShowPetByIdResponse::Status200_ExpectedResponseToAValidRequest(pet),
        None => ShowPetByIdResponse::Status404_NotFound(not_found()),
    }
}

/// A table of pets held in memory, keyed by the identifier that the caller
/// supplies. Rows stay in the order in which they were created.
pub struct MemoryStore {
    rows: Vec<Pet>,
}

impl View for MemoryStore {
    type V = Seq<PetView>;

    closed spec fn view(&self) -> Seq<PetView> {
        pets_view(self.rows@)
    }
}

impl MemoryStore {
    /// The invariant of the table: an identifier is unique within the store.
    pub open spec fn wf(&self) -> bool {
        distinct_ids(self@)
    }

    /// An empty table.
    pub fn new() -> (r: MemoryStore)
        ensures
            r.wf(),
            r@ == Seq::<PetView>::empty(),
    {
        let r = MemoryStore { rows: Vec::new() };
        assert(r@ =~= Seq::<PetView>::empty());
        r
    }

    /// How many pets the table holds.
    pub fn len(&self) -> (n: usize)
        ensures
            n == self@.len(),
    {
        self.rows.len()
    }

    /// Where the row with the identifier stands.
    fn find(&self, id: i64) -> (r: Option<usize>)
        ensures
            match r {
                Some(i) => is_first(self@, id as int, i as int),
                None => !has_id(self@, id as int),
            },
    {
        let mut i: usize = 0;
        while i < self.rows.len()
            invariant
                i <= self.rows.len(),
                forall|j: int| 0 <= j < i ==> (#[trigger] self@[j]).id != id,
            decreases self.rows.len() - i,
        {
            if self.rows[i].id == id {
                return Some(i);
            }
            i += 1;
        }
        None
    }

    /// The pet with the identifier, if the table holds one.
    pub fn get(&self, id: i64) -> (r: Option<Pet>)
        ensures
            match r {
                Some(pet) => Some(pet@),
                None => None,
            } == lookup(self@, id as int),
    {
        match self.find(id) {
            Some(i) => {
                proof {
                    lemma_lookup_at_first(self@, id as int, i as int);
                }
                Some(self.rows[i].duplicate())
            },
            None => None,
        }
    }
}

impl Api for MemoryStore {
    /// A create of a pet whose identifier is free appends the pet and answers
    /// `201`; where the identifier is taken, the table stays as it was and the
    /// answer is the opaque fault.
    open spec fn create_pets_spec(
        &self,
        method: http::Method,
        host: axum::extract::Host,
        cookies: axum_extra::extract::CookieJar,
        body: Pet,
        after: &Self,
        res: Result<CreatePetsResponse, String>,
    ) -> bool {
        &&& self.wf() ==> after.wf()
        &&& if has_id(self@, body.id as int) {
            res matches Err(fault) && fault@ == "a pet with this identifier exists"@ && after@
                == self@
        } else {
            res == Ok::<CreatePetsResponse, String>(CreatePetsResponse::Status201_NullResponse)
                && after@ == self@.push(body@)
        }
    }

    /// A list answers `200` with every row, in order, and no cursor.
    open spec fn list_pets_spec(
        &self,
        method: http::Method,
        host: axum::extract::Host,
        cookies: axum_extra::extract::CookieJar,
        query_params: ListPetsQueryParams,
        res: Result<ListPetsResponse, String>,
    ) -> bool {
        res matches Ok(ListPetsResponse::Status200_APagedArrayOfPets { body, x_next })
            && pets_view(body@) == self@ && x_next is None
    }

    /// A show answers `200` with the row that the identifier denotes, and `404`
    /// where it denotes none.
    open spec fn show_pet_by_id_spec(
        &self,
        method: http::Method,
        host: axum::extract::Host,
        cookies: axum_extra::extract::CookieJar,
        path_params: ShowPetByIdPathParams,
        res: Result<ShowPetByIdResponse, String>,
    ) -> bool {
        res matches Ok(answer) && show_answer_spec(
            match pet_key(path_params.pet_id@) {
                Some(id) => lookup(self@, id as int),
                None => None,
            },
            answer,
        )
    }

    fn create_pets(
        &mut self,
        method: http::Method,
        host: axum::extract::Host,
        cookies: axum_extra::extract::CookieJar,
        body: Pet,
    ) -> (res: Result<CreatePetsResponse, String>) {
        if self.find(body.id).is_some() {
            return Err(String::from_str("a pet with this identifier exists"));
        }
        self.rows.push(body);
        proof {
            assert(self@ =~= old(self)@.push(body@));
        }
        Ok(CreatePetsResponse::Status201_NullResponse)
    }

    fn list_pets(
        &self,
        method: http::Method,
        host: axum::extract::Host,
        cookies: axum_extra::extract::CookieJar,
        query_params: ListPetsQueryParams,
    ) -> (res: Result<ListPetsResponse, String>) {
        let mut body: Vec<Pet> = Vec::new();
        let mut i: usize = 0;
        while i < self.rows.len()
            invariant
                i <= self.rows.len(),
                body@.len() == i,
                forall|j: int| 0 <= j < i ==> (#[trigger] body@[j])@ == self.rows@[j]@,
            decreases self.rows.len() - i,
        {
            body.push(self.rows[i].duplicate());
            i += 1;
        }
        assert(pets_view(body@) =~= self@);
        Ok(ListPetsResponse::Status200_APagedArrayOfPets { body, x_next: None })
    }

    fn show_pet_by_id(
        &self,
        method: http::Method,
        host: axum::extract::Host,
        cookies: axum_extra::extract::CookieJar,
        path_params: ShowPetByIdPathParams,
    ) -> (res: Result<ShowPetByIdResponse, String>) {
        let found: Option<Pet> = match parse_pet_id(path_params.pet_id.as_str()) {
            Some(id) => self.get(id),
            None => None,
        };
        Ok(show_answer(found))
    }
}

/// The stub: a store that keeps nothing and answers every request with the
/// same fixed data.
pub struct FixedStore {}

/// The pet that the stub shows, whatever is asked for.
pub open spec fn fixed_pet_view() -> PetView {
    PetView { id: 1, name: "pet"@, tag: None }
}

impl Api for FixedStore {
    /// Every create is answered with `201`.
    open spec fn create_pets_spec(
        &self,
        method: http::Method,
        host: axum::extract::Host,
        cookies: axum_extra::extract::CookieJar,
        body: Pet,
        after: &Self,
        res: Result<CreatePetsResponse, String>,
    ) -> bool {
        res == Ok::<CreatePetsResponse, String>(CreatePetsResponse::Status201_NullResponse)
    }

    /// Every list is answered with `200`, no pets and no cursor.
    open spec fn list_pets_spec(
        &self,
        method: http::Method,
        host: axum::extract::Host,
        cookies: axum_extra::extract::CookieJar,
        query_params: ListPetsQueryParams,
        res: Result<ListPetsResponse, String>,
    ) -> bool {
        res matches Ok(ListPetsResponse::Status200_APagedArrayOfPets { body, x_next })
            && body@.len() == 0 && x_next is None
    }

    /// Every show is answered with `200` and the fixed pet.
    open spec fn show_pet_by_id_spec(
        &self,
        method: http::Method,
        host: axum::extract::Host,
        cookies: axum_extra::extract::CookieJar,
        path_params: ShowPetByIdPathParams,
        res: Result<ShowPetByIdResponse, String>,
    ) -> bool {
        res matches Ok(ShowPetByIdResponse::Status200_ExpectedResponseToAValidRequest(pet))
            && pet@ == fixed_pet_view()
    }

    fn create_pets(
        &mut self,
        method: http::Method,
        host: axum::extract::Host,
        cookies: axum_extra::extract::CookieJar,
        body: Pet,
    ) -> (res: Result<CreatePetsResponse, String>) {
        Ok(CreatePetsResponse::Status201_NullResponse)
    }

    fn list_pets(
        &self,
        method: http::Method,
        host: axum::extract::Host,
        cookies: axum_extra::extract::CookieJar,
        query_params: ListPetsQueryParams,
    ) -> (res: Result<ListPetsResponse, String>) {
        Ok(ListPetsResponse::Status200_APagedArrayOfPets { body: Vec::new(), x_next: None })
    }

    fn show_pet_by_id(
        &self,
        method: http::Method,
        host: axum::extract::Host,
        cookies: axum_extra::extract::CookieJar,
        path_params: ShowPetByIdPathParams,
    ) -> (res: Result<ShowPetByIdResponse, String>) {
        Ok(
            ShowPetByIdResponse::Status200_ExpectedResponseToAValidRequest(
                Pet { id: 1, name: String::from_str("pet"), tag: None },
            ),
        )
    }
}

/// A row of the relational table: the key is a 32-bit integer.
#[derive(Debug, PartialEq, Eq)]
pub struct PetEntity {
    pub id: i32,
    pub name: String,
    pub tag: Option<String>,
}

impl PetEntity {
    /// The pet that the row stands for.
    pub open spec fn pet_view(&self) -> PetView {
        PetView { id: self.id as int, name: self.name@, tag: text_view(self.tag) }
    }

    /// The pet that the row stands for.
    pub fn to_pet(&self) -> (r: Pet)
        ensures
            r@ == self.pet_view(),
    {
        Pet { id: self.id as i64, name: self.name.clone(), tag: copy_text(&self.tag) }
    }
}

/// The pets that a list of rows stands for, in order.
pub open spec fn rows_view(rows: Seq<PetEntity>) -> Seq<PetView> {
    Seq::new(rows.len(), |i: int| rows[i].pet_view())
}

/// The row to insert for a create: the pet as it is, where its identifier fits
/// the table's key. Where it does not, the store has the opaque fault to report.
pub fn new_row(body: Pet) -> (r: Result<PetEntity, String>)
    ensures
        match r {
            Ok(row) => row.pet_view() == body@,
            Err(fault) => !(i32::MIN <= body.id <= i32::MAX) && fault@
                == "the identifier does not fit the key of the table"@,
        },
{
    if body.id < -2147483648 || body.id > 2147483647 {
        Err(String::from_str("the identifier does not fit the key of the table"))
    } else {
        Ok(PetEntity { id: body.id as i32, name: body.name, tag: body.tag })
    }
}

/// The answer of a list, from the rows that the table gave: all of them as one
/// page, with no cursor.
pub fn list_answer(rows: &Vec<PetEntity>) -> (res: ListPetsResponse)
    ensures
        res matches ListPetsResponse::Status200_APagedArrayOfPets { body, x_next } && pets_view(
            body@,
        ) == rows_view(rows@) && x_next is None,
{
    let mut body: Vec<Pet> = Vec::new();
    let mut i: usize = 0;
    while i < rows.len()
        invariant
            i <= rows.len(),
            body@.len() == i,
            forall|j: int| 0 <= j < i ==> (#[trigger] body@[j])@ == rows@[j].pet_view(),
        decreases rows.len() - i,
    {
        body.push(rows[i].to_pet());
        i += 1;
    }
    assert(pets_view(body@) =~= rows_view(rows@));
    ListPetsResponse::Status200_APagedArrayOfPets { body, x_next: None }
}

/// The key of the table that a path identifier denotes, if it denotes one.
pub open spec fn row_key_spec(pet_id: Seq<char>) -> Option<i32> {
    match pet_key(pet_id) {
        Some(id) => if i32::MIN <= id <= i32::MAX {
            Some(id as i32)
        } else {
            None
        },
        None => None,
    }
}

/// The key to look a row up by for a show. An identifier that denotes no key
/// of the table has no row: the store answers it as it answers a missing row.
pub fn row_key(path_params: &ShowPetByIdPathParams) -> (r: Option<i32>)
    ensures
        r == row_key_spec(path_params.pet_id@),
{
    match parse_pet_id(path_params.pet_id.as_str()) {
        Some(id) => if id < -2147483648 || id > 2147483647 {
            None
        } else {
            Some(id as i32)
        },
        None => None,
    }
}

/// A row that is appended under a free identifier is the one that a lookup
/// by that identifier gives.
pub proof fn lemma_appended_row_is_found(rows: Seq<PetView>, row: PetView)
    requires
        !has_id(rows, row.id),
    ensures
        lookup(rows.push(row), row.id) == Some(row),
{
    let after = rows.push(row);
    let last = rows.len() as int;
    assert(after[last] == row);
    assert forall|j: int| 0 <= j < last implies (#[trigger] after[j]).id != row.id by {
        assert(after[j] == rows[j]);
    }
    lemma_lookup_at_first(after, row.id, last);
}

/// A row that is appended leaves the lookup by every other identifier as it was.
pub proof fn lemma_append_keeps_other_rows(rows: Seq<PetView>, row: PetView, id: int)
    requires
        id != row.id,
    ensures
        lookup(rows.push(row), id) == lookup(rows, id),
        has_id(rows.push(row), id) == has_id(rows, id),
{
    let after = rows.push(row);
    if has_id(rows, id) {
        let some = choose|i: int| 0 <= i < rows.len() && (#[trigger] rows[i]).id == id;
        lemma_first_exists(rows, id, some);
        let i = choose|i: int| is_first(rows, id, i);
        assert(after[i] == rows[i]);
        assert forall|j: int| 0 <= j < i implies (#[trigger] after[j]).id != id by {
            assert(after[j] == rows[j]);
        }
        lemma_lookup_at_first(after, id, i);
        lemma_lookup_at_first(rows, id, i);
    } else if has_id(after, id) {
        let k = choose|k: int| 0 <= k < after.len() && (#[trigger] after[k]).id == id;
        assert(k < rows.len());
        assert(rows[k] == after[k]);
    }
}

/// A pet that was created is shown: where a create answers `201`, a show by
/// any spelling of the created pet's identifier answers with a pet equal to the
/// one created, which is sent as `200` with that pet as the body.
pub proof fn created_pet_is_shown(
    before: MemoryStore,
    method: http::Method,
    host: axum::extract::Host,
    cookies: axum_extra::extract::CookieJar,
    body: Pet,
    after: MemoryStore,
    created: Result<CreatePetsResponse, String>,
    show_method: http::Method,
    show_host: axum::extract::Host,
    show_cookies: axum_extra::extract::CookieJar,
    path_params: ShowPetByIdPathParams,
    shown: Result<ShowPetByIdResponse, String>,
)
    requires
        before.create_pets_spec(method, host, cookies, body, &after, created),
        created is Ok,
        pet_key(path_params.pet_id@) == Some(body.id),
        after.show_pet_by_id_spec(show_method, show_host, show_cookies, path_params, shown),
    ensures
        shown matches Ok(ShowPetByIdResponse::Status200_ExpectedResponseToAValidRequest(pet))
            && pet@ == body@,
        show_pet_by_id_response_view(shown) == json_view(200, None, BodyView::Pet(body@)),
        show_pet_by_id_response_view(shown).status == 200,
{
    lemma_appended_row_is_found(before@, body@);
}

/// A pet that was never created is not found: in a table that holds no row
/// with the identifier that the path spells, a show answers that no pet was
/// found, which is sent as `404`.
pub proof fn absent_pet_is_not_found(
    store: MemoryStore,
    method: http::Method,
    host: axum::extract::Host,
    cookies: axum_extra::extract::CookieJar,
    path_params: ShowPetByIdPathParams,
    shown: Result<ShowPetByIdResponse, String>,
)
    requires
        pet_key(path_params.pet_id@) matches Some(id) && !has_id(store@, id as int),
        store.show_pet_by_id_spec(method, host, cookies, path_params, shown),
    ensures
        shown matches Ok(ShowPetByIdResponse::Status404_NotFound(e)) && e@ == not_found_view(),
        show_pet_by_id_response_view(shown) == json_view(
            404,
            None,
            BodyView::Error(not_found_view()),
        ),
        show_pet_by_id_response_view(shown).status == 404,
{
}

/// A create leaves every other pet as it was: whatever a create answers, the
/// row of any identifier other than the created pet's is the same before and
/// after.
pub proof fn create_keeps_other_pets(
    before: MemoryStore,
    method: http::Method,
    host: axum::extract::Host,
    cookies: axum_extra::extract::CookieJar,
    body: Pet,
    after: MemoryStore,
    created: Result<CreatePetsResponse, String>,
    id: int,
)
    requires
        before.create_pets_spec(method, host, cookies, body, &after, created),
        id != body.id,
    ensures
        lookup(after@, id) == lookup(before@, id),
{
    if !has_id(before@, body.id as int) {
        lemma_append_keeps_other_rows(before@, body@, id);
    }
}

/// A create of a pet whose identifier is free succeeds: it answers `201` and
/// the table holds one row more, whatever else it holds. Where no two rows
/// shared an identifier before, none do after.
pub proof fn create_of_free_identifier_succeeds(
    before: MemoryStore,
    method: http::Method,
    host: axum::extract::Host,
    cookies: axum_extra::extract::CookieJar,
    body: Pet,
    after: MemoryStore,
    created: Result<CreatePetsResponse, String>,
)
    requires
        !has_id(before@, body.id as int),
        before.create_pets_spec(method, host, cookies, body, &after, created),
    ensures
        created == Ok::<CreatePetsResponse, String>(CreatePetsResponse::Status201_NullResponse),
        after@ == before@.push(body@),
        before.wf() ==> after.wf(),
{
}

/// A run of creates, taken one after another: `tables[i]` is the table that
/// the create of `bodies[i]` finds, `tables[i + 1]` the one it leaves, and
/// `answers[i]` what it answers.
pub open spec fn created_in_turn(
    tables: Seq<MemoryStore>,
    methods: Seq<http::Method>,
    hosts: Seq<axum::extract::Host>,
    jars: Seq<axum_extra::extract::CookieJar>,
    bodies: Seq<Pet>,
    answers: Seq<Result<CreatePetsResponse, String>>,
) -> bool {
    &&& tables.len() == bodies.len() + 1
    &&& methods.len() == bodies.len()
    &&& hosts.len() == bodies.len()
    &&& jars.len() == bodies.len()
    &&& answers.len() == bodies.len()
    &&& forall|i: int|
        0 <= i < bodies.len() ==> tables[i].create_pets_spec(
            methods[i],
            hosts[i],
            jars[i],
            bodies[i],
            &tables[i + 1],
            #[trigger] answers[i],
        )
}

/// Whether the pets of a run have identifiers that differ from one another and
/// from every identifier that the first table holds.
pub open spec fn fresh_identifiers(first: Seq<PetView>, bodies: Seq<Pet>) -> bool {
    &&& forall|i: int, j: int|
        0 <= i < j < bodies.len() ==> (#[trigger] bodies[i]).id != (#[trigger] bodies[j]).id
    &&& forall|i: int| 0 <= i < bodies.len() ==> !has_id(first, (#[trigger] bodies[i]).id as int)
}

/// What holds after the first `m` creates of a run of fresh identifiers: each
/// of them answered `201`, each of their pets is the row of its identifier, and
/// the table holds no identifier but those of the first table and of these pets.
pub proof fn lemma_creates_in_turn(
    tables: Seq<MemoryStore>,
    methods: Seq<http::Method>,
    hosts: Seq<axum::extract::Host>,
    jars: Seq<axum_extra::extract::CookieJar>,
    bodies: Seq<Pet>,
    answers: Seq<Result<CreatePetsResponse, String>>,
    m: int,
)
    requires
        created_in_turn(tables, methods, hosts, jars, bodies, answers),
        fresh_identifiers(tables[0]@, bodies),
        0 <= m <= bodies.len(),
    ensures
        forall|i: int|
            0 <= i < m ==> #[trigger] answers[i] == Ok::<CreatePetsResponse, String>(
                CreatePetsResponse::Status201_NullResponse,
            ),
        forall|k: int|
            0 <= k < m ==> lookup(tables[m]@, (#[trigger] bodies[k]).id as int) == Some(bodies[k]@),
        forall|x: int| #[trigger]
            has_id(tables[m]@, x) ==> has_id(tables[0]@, x) || exists|k: int|
                0 <= k < m && (#[trigger] bodies[k]).id == x,
    decreases m,
{
    if m > 0 {
        lemma_creates_in_turn(tables, methods, hosts, jars, bodies, answers, m - 1);
        let before = tables[m - 1]@;
        let body = bodies[m - 1];
        let answer = answers[m - 1];
        assert(tables[m - 1].create_pets_spec(
            methods[m - 1],
            hosts[m - 1],
            jars[m - 1],
            body,
            &tables[m - 1 + 1],
            answer,
        ));
        if has_id(before, body.id as int) {
            if !has_id(tables[0]@, body.id as int) {
                let k = choose|k: int| 0 <= k < m - 1 && (#[trigger] bodies[k]).id == body.id;
                assert(bodies[k].id != bodies[m - 1].id);
            }
            assert(false);
        }
        let after = tables[m]@;
        assert(after == before.push(body@));
        lemma_appended_row_is_found(before, body@);
        assert forall|k: int| 0 <= k < m implies lookup(after, (#[trigger] bodies[k]).id as int)
            == Some(bodies[k]@) by {
            if k < m - 1 {
                assert(bodies[k].id != bodies[m - 1].id);
                lemma_append_keeps_other_rows(before, body@, bodies[k].id as int);
            }
        }
        assert forall|x: int| #[trigger] has_id(after, x) implies has_id(tables[0]@, x)
            || exists|k: int| 0 <= k < m && (#[trigger] bodies[k]).id == x by {
            if x == body.id {
                assert(bodies[m - 1].id == x);
            } else {
                lemma_append_keeps_other_rows(before, body@, x);
                if !has_id(tables[0]@, x) {
                    let k = choose|k: int| 0 <= k < m - 1 && (#[trigger] bodies[k]).id == x;
                    assert(0 <= k < m && bodies[k].id == x);
                }
            }
        }
    }
}

/// Creates with identifiers of their own do not disturb one another: where a
/// run of creates, in whatever order they reach the table, brings pets whose
/// identifiers differ from one another and from those that the table held,
/// every create answers `201`, and in the table that the run leaves a show by
/// any spelling of the identifier of any of these pets answers `200` with that
/// pet, and with no other pet's name or tag.
pub proof fn pets_created_in_turn_are_all_shown(
    tables: Seq<MemoryStore>,
    methods: Seq<http::Method>,
    hosts: Seq<axum::extract::Host>,
    jars: Seq<axum_extra::extract::CookieJar>,
    bodies: Seq<Pet>,
    answers: Seq<Result<CreatePetsResponse, String>>,
    k: int,
    show_method: http::Method,
    show_host: axum::extract::Host,
    show_cookies: axum_extra::extract::CookieJar,
    path_params: ShowPetByIdPathParams,
    shown: Result<ShowPetByIdResponse, String>,
)
    requires
        created_in_turn(tables, methods, hosts, jars, bodies, answers),
        fresh_identifiers(tables[0]@, bodies),
        0 <= k < bodies.len(),
        pet_key(path_params.pet_id@) == Some(bodies[k].id),
        tables.last().show_pet_by_id_spec(
            show_method,
            show_host,
            show_cookies,
            path_params,
            shown,
        ),
    ensures
        forall|i: int|
            0 <= i < bodies.len() ==> #[trigger] answers[i] == Ok::<CreatePetsResponse, String>(
                CreatePetsResponse::Status201_NullResponse,
            ),
        lookup(tables.last()@, bodies[k].id as int) == Some(bodies[k]@),
        shown matches Ok(ShowPetByIdResponse::Status200_ExpectedResponseToAValidRequest(pet))
            && pet@ == bodies[k]@,
        show_pet_by_id_response_view(shown) == json_view(200, None, BodyView::Pet(bodies[k]@)),
{
    lemma_creates_in_turn(tables, methods, hosts, jars, bodies, answers, bodies.len() as int);
    assert(tables.last() == tables[bodies.len() as int]);
}

/// Create, then show: where the adapter answers a create on the table with
/// `201`, it answers a show, by any spelling of the identifier that the body
/// gave, with `200` and a pet that has the identifier, the name and the tag of
/// the body.
pub proof fn created_pet_is_served(
    before: MemoryStore,
    method: http::Method,
    host: axum::extract::Host,
    cookies: axum_extra::extract::CookieJar,
    body: PetPayload,
    after: MemoryStore,
    created: HttpResponseView,
    show_method: http::Method,
    show_host: axum::extract::Host,
    show_cookies: axum_extra::extract::CookieJar,
    path_params: ShowPetByIdPathParams,
    shown: HttpResponseView,
)
    requires
        create_pets_post(
            before,
            method,
            host,
            cookies,
            Ok::<PetPayload, String>(body),
            after,
            created,
        ),
        created.status == 201,
        body.id is Some,
        pet_key(path_params.pet_id@) == body.id,
        show_pet_by_id_post(
            after,
            show_method,
            show_host,
            show_cookies,
            Ok::<ShowPetByIdPathParams, String>(path_params),
            shown,
        ),
    ensures
        body.name is Some,
        shown == json_view(
            200,
            None,
            BodyView::Pet(
                PetView {
                    id: body.id->Some_0 as int,
                    name: body.name->Some_0@,
                    tag: text_view(body.tag),
                },
            ),
        ),
        shown.status == 200,
{
    assert(payload_errors(body).len() == 0);
    let (pet, res) = choose|pet: Pet, res: Result<CreatePetsResponse, String>|
        pet_of_payload(body, pet) && #[trigger] before.create_pets_spec(
            method,
            host,
            cookies,
            pet,
            &after,
            res,
        ) && created == create_pets_response_view(res);
    let answer = choose|answer: Result<ShowPetByIdResponse, String>| #[trigger]
        after.show_pet_by_id_spec(show_method, show_host, show_cookies, path_params, answer)
            && shown == show_pet_by_id_response_view(answer);
    created_pet_is_shown(
        before,
        method,
        host,
        cookies,
        pet,
        after,
        res,
        show_method,
        show_host,
        show_cookies,
        path_params,
        answer,
    );
}

/// A show of a pet that the table does not hold is answered with `404`: where
/// the path spells an identifier that no row has, the adapter's response is
/// `404` with the error as JSON.
pub proof fn absent_pet_is_answered_with_404(
    store: MemoryStore,
    method: http::Method,
    host: axum::extract::Host,
    cookies: axum_extra::extract::CookieJar,
    path_params: ShowPetByIdPathParams,
    shown: HttpResponseView,
)
    requires
        pet_key(path_params.pet_id@) matches Some(id) && !has_id(store@, id as int),
        show_pet_by_id_post(
            store,
            method,
            host,
            cookies,
            Ok::<ShowPetByIdPathParams, String>(path_params),
            shown,
        ),
    ensures
        shown == json_view(404, None, BodyView::Error(not_found_view())),
        shown.status == 404,
{
    let answer = choose|answer: Result<ShowPetByIdResponse, String>| #[trigger]
        store.show_pet_by_id_spec(method, host, cookies, path_params, answer) && shown
            == show_pet_by_id_response_view(answer);
    absent_pet_is_not_found(store, method, host, cookies, path_params, answer);
}

/// A list of an empty table is answered with `200`, an empty array and no
/// `x-next` header, whatever the query.
pub proof fn empty_table_lists_nothing(
    store: MemoryStore,
    method: http::Method,
    host: axum::extract::Host,
    cookies: axum_extra::extract::CookieJar,
    query_params: ListPetsQueryParams,
    listed: HttpResponseView,
)
    requires
        store@.len() == 0,
        list_pets_post(
            store,
            method,
            host,
            cookies,
            Ok::<ListPetsQueryParams, String>(query_params),
            listed,
        ),
    ensures
        listed == (HttpResponseView {
            status: 200,
            content_type: Some("application/json"@),
            x_next: None,
            body: BodyView::Pets(Seq::empty()),
        }),
{
    let answer = choose|answer: Result<ListPetsResponse, String>| #[trigger]
        store.list_pets_spec(method, host, cookies, query_params, answer) && listed
            == list_pets_response_view(answer);
    assert(store@ =~= Seq::<PetView>::empty());
}

} // verus!
