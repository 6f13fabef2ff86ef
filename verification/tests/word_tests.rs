use wordle::word::{ValidationError, Word};

#[test]
fn word_creator_works() {
    let name = match Word::try_new(String::from("Mateo"), &vec![String::from("MATEO")]) {
        Ok(word) => word,
        Err(err) => panic!("{err:?}"),
    };
    assert_eq!(name.contents(), &String::from("MATEO"));
}

#[test]
#[should_panic]
fn too_long() {
    let name = match Word::try_new(String::from("Matheo"), &vec![String::from("MATHEO")]) {
        Ok(word) => word,
        Err(err) => panic!("{err:?}"),
    };
    assert_eq!(name.contents(), &String::from("MATHEO"));
}

#[test]
#[should_panic]
fn non_alphabetic() {
    let name = match Word::try_new(String::from("Mat3o"), &vec![String::from("MAT3O")]) {
        Ok(word) => word,
        Err(err) => panic!("{err:?}"),
    };
    assert_eq!(name.contents(), &String::from("MAT3O"));
}

fn legal() -> Vec<String> {
    vec![
        String::from("CRANE"),
        String::from("GRAPE"),
        String::from("MARRY"),
        String::from("ERROR"),
    ]
}

#[test]
fn rejects_word_not_in_list() {
    let r = Word::try_new(String::from("ABCDE"), &legal());
    assert!(matches!(r, Err(ValidationError::NotInWordList)));
}

#[test]
fn rejects_non_alphabetic_character() {
    let r = Word::try_new(String::from("AB3DE"), &legal());
    assert!(matches!(r, Err(ValidationError::NonAlphabetic)));
}

#[test]
fn rejects_wrong_length() {
    let r = Word::try_new(String::from("ABCD"), &legal());
    assert!(matches!(r, Err(ValidationError::WrongLength)));
}

#[test]
fn normalizes_to_uppercase_before_the_list_check() {
    let w = Word::try_new(String::from("crane"), &legal()).unwrap();
    assert_eq!(w.contents(), &String::from("CRANE"));
}

#[test]
fn length_is_counted_in_characters_not_bytes() {
    // Five alphabetic characters, more than five bytes.
    let r = Word::try_new(String::from("ÉCLAT"), &vec![String::from("ÉCLAT")]);
    assert!(r.is_ok());
}
