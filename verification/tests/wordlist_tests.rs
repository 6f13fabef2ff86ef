use wordle::word::Word;
use wordle::wordlist::{get_secret, init_valid_guesses};

#[test]
fn legal_guesses_are_uppercased_in_order() {
    let lines = vec![
        String::from("crane"),
        String::from("MARRY"),
        String::from("gRaPe"),
    ];
    let prepared = init_valid_guesses(&lines);
    assert_eq!(
        prepared,
        vec![
            String::from("CRANE"),
            String::from("MARRY"),
            String::from("GRAPE"),
        ]
    );
}

#[test]
fn the_secret_is_the_uppercase_form_of_a_listed_candidate() {
    let candidates = vec![
        String::from("crane"),
        String::from("marry"),
        String::from("grape"),
    ];
    let uppercased = init_valid_guesses(&candidates);
    for _ in 0..20 {
        let secret = get_secret(&candidates);
        assert!(uppercased.contains(&secret));
    }
}

#[test]
fn a_drawn_secret_always_validates_against_the_prepared_list() {
    let candidates = vec![String::from("crane")];
    let legal = init_valid_guesses(&candidates);
    let secret = get_secret(&candidates);
    assert_eq!(secret, String::from("CRANE"));
    let word = Word::try_new(secret, &legal).unwrap();
    assert_eq!(word.contents(), &String::from("CRANE"));
}
