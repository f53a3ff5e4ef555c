use hangman::input::guess_from_line;
use hangman::input::QUIT_SENTINEL;
use hangman::words::select_word;

#[test]
fn selection_returns_a_member_of_the_list() {
    let words = vec![
        String::from("apple"),
        String::from("banana"),
        String::from("cherry"),
    ];
    for _ in 0..20 {
        let chosen = select_word(&words);
        assert!(words.contains(&chosen));
    }
}

#[test]
fn selection_from_a_single_candidate_returns_it() {
    let words = vec![String::from("only")];
    assert_eq!(select_word(&words), "only");
}

#[test]
fn guess_is_the_first_character_of_the_line() {
    assert_eq!(guess_from_line(Some("zebra")), 'z');
    assert_eq!(guess_from_line(Some("a")), 'a');
}

#[test]
fn empty_or_unreadable_input_becomes_the_quit_sentinel() {
    assert_eq!(guess_from_line(Some("")), QUIT_SENTINEL);
    assert_eq!(guess_from_line(None), QUIT_SENTINEL);
    assert_eq!(QUIT_SENTINEL, '*');
}

#[test]
fn a_line_starting_with_the_sentinel_is_a_quit_request() {
    assert_eq!(guess_from_line(Some("*anything")), QUIT_SENTINEL);
}
