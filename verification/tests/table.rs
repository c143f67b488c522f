use petstore::models::{copy_text, Pet, ShowPetByIdPathParams, Error};
use petstore::store::{list_answer, new_row, not_found, row_key, show_answer, PetEntity};
use petstore::{ListPetsResponse, ShowPetByIdResponse};

fn row(id: i32, name: &str, tag: Option<&str>) -> PetEntity {
    PetEntity { id, name: name.to_string(), tag: tag.map(|t| t.to_string()) }
}

#[test]
fn a_pet_becomes_a_row_where_its_identifier_fits() {
    let pet = Pet { id: 12, name: "Rex".to_string(), tag: Some("dog".to_string()) };
    assert_eq!(new_row(pet), Ok(row(12, "Rex", Some("dog"))));
    let pet = Pet { id: 2147483647, name: "a".to_string(), tag: None };
    assert_eq!(new_row(pet), Ok(row(i32::MAX, "a", None)));
    let pet = Pet { id: -2147483648, name: "a".to_string(), tag: None };
    assert_eq!(new_row(pet), Ok(row(i32::MIN, "a", None)));
}

#[test]
fn a_pet_whose_identifier_does_not_fit_is_a_fault() {
    let pet = Pet { id: 2147483648, name: "a".to_string(), tag: None };
    assert!(new_row(pet).is_err());
    let pet = Pet { id: -2147483649, name: "a".to_string(), tag: None };
    assert!(new_row(pet).is_err());
}

#[test]
fn rows_become_one_page_without_cursor() {
    let rows = vec![row(2, "b", Some("x")), row(1, "a", None)];
    assert_eq!(
        list_answer(&rows),
        ListPetsResponse::Status200_APagedArrayOfPets {
            body: vec![
                Pet { id: 2, name: "b".to_string(), tag: Some("x".to_string()) },
                Pet { id: 1, name: "a".to_string(), tag: None },
            ],
            x_next: None,
        }
    );
    assert_eq!(
        list_answer(&vec![]),
        ListPetsResponse::Status200_APagedArrayOfPets { body: vec![], x_next: None }
    );
}

#[test]
fn a_row_stands_for_its_pet() {
    assert_eq!(
        row(-5, "n", Some("t")).to_pet(),
        Pet { id: -5, name: "n".to_string(), tag: Some("t".to_string()) }
    );
    let pet = Pet { id: 4, name: "d".to_string(), tag: Some("u".to_string()) };
    assert_eq!(pet.duplicate(), pet);
    assert_eq!(copy_text(&None), None);
    assert_eq!(copy_text(&Some("s".to_string())), Some("s".to_string()));
}

#[test]
fn the_key_of_a_row_is_read_from_the_path() {
    let path = |s: &str| ShowPetByIdPathParams { pet_id: s.to_string() };
    assert_eq!(row_key(&path("15")), Some(15));
    assert_eq!(row_key(&path("-2147483648")), Some(i32::MIN));
    assert_eq!(row_key(&path("2147483647")), Some(i32::MAX));
    assert_eq!(row_key(&path("2147483648")), None);
    assert_eq!(row_key(&path("x")), None);
}

#[test]
fn a_lookup_is_answered_with_the_pet_or_not_found() {
    let pet = Pet { id: 4, name: "d".to_string(), tag: None };
    assert_eq!(
        show_answer(Some(pet)),
        ShowPetByIdResponse::Status200_ExpectedResponseToAValidRequest(Pet {
            id: 4,
            name: "d".to_string(),
            tag: None
        })
    );
    assert_eq!(
        show_answer(None),
        ShowPetByIdResponse::Status404_NotFound(Error { code: 404, message: "pet not found".to_string() })
    );
    assert_eq!(not_found(), Error { code: 404, message: "pet not found".to_string() });
}
