//! The resource model: the stored pet, the error body, and the per-operation
//! request parameters, each with the mathematical value that contracts speak of.

use vstd::prelude::*;

verus! {

/// A stored pet.
#[derive(Debug, PartialEq, Eq)]
pub struct Pet {
    pub id: i64,
    pub name: String,
    pub tag: Option<String>,
}

/// The value of a [`Pet`]: its identifier and its texts as character sequences.
pub ghost struct PetView {
    pub id: int,
    pub name: Seq<char>,
    pub tag: Option<Seq<char>>,
}

/// The value of an optional text.
pub open spec fn text_view(t: Option<String>) -> Option<Seq<char>> {
    match t {
        Some(s) => Some(s@),
        None => None,
    }
}

/// Copies an optional text.
pub fn copy_text(t: &Option<String>) -> (r: Option<String>)
    ensures
        text_view(r) == text_view(*t),
{
    match t {
        Some(s) => Some(s.clone()),
        None => None,
    }
}

impl View for Pet {
    type V = PetView;

    open spec fn view(&self) -> PetView {
        PetView { id: self.id as int, name: self.name@, tag: text_view(self.tag) }
    }
}

impl Pet {
    /// A copy with the same value.
    pub fn duplicate(&self) -> (r: Pet)
        ensures
            r@ == self@,
    {
        Pet { id: self.id, name: self.name.clone(), tag: copy_text(&self.tag) }
    }
}

/// The values of a list of pets, in order.
pub open spec fn pets_view(pets: Seq<Pet>) -> Seq<PetView> {
    Seq::new(pets.len(), |i: int| pets[i]@)
}

/// The body of an error response.
#[derive(Debug, PartialEq, Eq)]
pub struct Error {
    pub code: i32,
    pub message: String,
}

/// The value of an [`Error`].
pub ghost struct ErrorView {
    pub code: int,
    pub message: Seq<char>,
}

impl View for Error {
    type V = ErrorView;

    open spec fn view(&self) -> ErrorView {
        ErrorView { code: self.code as int, message: self.message@ }
    }
}

/// The body of a create request as it was decoded: every field may be absent.
#[derive(Debug, PartialEq, Eq)]
pub struct PetPayload {
    pub id: Option<i64>,
    pub name: Option<String>,
    pub tag: Option<String>,
}

/// The query parameters of the list operation.
#[derive(Debug, PartialEq, Eq)]
pub struct ListPetsQueryParams {
    /// How many pets to return at most.
    pub limit: Option<i32>,
}

/// The path parameters of the show operation.
#[derive(Debug, PartialEq, Eq)]
pub struct ShowPetByIdPathParams {
    /// The identifier as it stood in the path.
    pub pet_id: String,
}

} // verus!
