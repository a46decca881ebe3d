use shared_chain::hangman::{mask_word, GameState};

#[test]
fn test_errors() {
    let state = GameState {
        word: "hello".to_string(),
        guesses: vec!['a', 'b', 'c', 'd', 'e'],
        max_errors: 5,
    };

    assert_eq!(state.errors(), 4);
}

#[test]
fn test_is_lost() {
    let state = GameState {
        word: "hello".to_string(),
        guesses: vec!['a', 'b', 'c', 'd', 'e'],
        max_errors: 3,
    };

    assert!(state.is_lost());
}

#[test]
fn test_is_won() {
    let state = GameState {
        word: "hello".to_string(),
        guesses: vec!['h', 'e', 'l', 'o'],
        max_errors: 5,
    };

    assert!(state.is_won());
}

#[test]
fn test_mask_word() {
    let word = "hello";
    let guesses = vec!['l', 'o'];

    assert_eq!(mask_word(word, &guesses), "__llo");
}

#[test]
fn test_new_lowercases_the_word() {
    let state = GameState::new("HeLLo".to_string(), 3);
    assert_eq!(state.word, "hello");
    assert!(state.guesses.is_empty());
    assert_eq!(state.max_errors, 3);
}

#[test]
fn test_not_yet_lost_or_won() {
    let mut state = GameState::new("word".to_string(), 2);
    state.guesses.push('w');
    state.guesses.push('z');
    assert_eq!(state.errors(), 1);
    assert!(!state.is_lost());
    assert!(!state.is_won());
}

#[test]
fn test_mask_word_edges() {
    assert_eq!(mask_word("", &vec!['a']), "");
    assert_eq!(mask_word("abc", &Vec::new()), "___");
    assert_eq!(mask_word("abc", &vec!['c', 'b', 'a']), "abc");
}
