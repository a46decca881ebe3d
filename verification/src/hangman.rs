//! State of a word-guessing game: a secret word, the characters guessed
//! so far, and the number of wrong guesses the player may survive.  The
//! word is lowercased once at construction; guesses are kept as a list
//! without duplicates by the caller, mirroring a set of characters.

use vstd::prelude::*;
use vstd::string::StrSliceExecFns;

verus! {

/// The lowercase form of a sequence of characters, as Unicode case
/// mapping defines it.
pub uninterp spec fn lower_of(s: Seq<char>) -> Seq<char>;

/// Relies on str::to_lowercase: the result is the lowercase mapping of
/// the input and depends on the input characters alone.
#[verifier::external_body]
fn lowercase(s: &str) -> (r: String)
    ensures
        r@ == lower_of(s@),
{
    s.to_lowercase()
}

/// Relies on String::push: appends the given character at the end of the
/// string.
pub assume_specification[ String::push ](s: &mut String, ch: char)
    ensures
        final(s)@ == old(s)@.push(ch),
;

/// How many of the guessed characters do not occur in the word at all.
pub open spec fn wrong_guess_count(guesses: Seq<char>, word: Seq<char>) -> nat
    decreases guesses.len(),
{
    if guesses.len() == 0 {
        0
    } else {
        wrong_guess_count(guesses.drop_last(), word) + (if word.contains(guesses.last()) {
            0nat
        } else {
            1nat
        })
    }
}

/// Whether every character of the word has been guessed.
pub open spec fn all_guessed(guesses: Seq<char>, word: Seq<char>) -> bool {
    forall|i: int| 0 <= i < word.len() ==> guesses.contains(word[i])
}

pub struct GameState {
    pub word: String,
    pub guesses: Vec<char>,
    pub max_errors: u8,
}

impl GameState {
    /// Starts a game on the given word, lowercased, with no guesses yet.
    pub fn new(word: String, max_errors: u8) -> (state: GameState)
        ensures
            state.word@ == lower_of(word@),
            state.guesses@ == Seq::<char>::empty(),
            state.max_errors == max_errors,
    {
        let word = lowercase(word.as_str());
        GameState { word, guesses: Vec::new(), max_errors }
    }

    /// The number of wrong guesses made so far, truncated to the width of
    /// the counter.
    pub fn errors(&self) -> (n: u8)
        ensures
            n as nat == wrong_guess_count(self.guesses@, self.word@) % 256,
    {
        let mut count: usize = 0;
        let mut i: usize = 0;
        while i < self.guesses.len()
            invariant
                i <= self.guesses@.len(),
                count <= i,
                count == wrong_guess_count(self.guesses@.take(i as int), self.word@),
            decreases self.guesses@.len() - i,
        {
            let c = self.guesses[i];
            if !str_contains_char(self.word.as_str(), c) {
                count = count + 1;
            }
            proof {
                assert(self.guesses@.take(i + 1).drop_last() =~= self.guesses@.take(i as int));
                assert(self.guesses@.take(i + 1).last() == self.guesses@[i as int]);
            }
            i = i + 1;
        }
        proof {
            assert(self.guesses@.take(self.guesses@.len() as int) =~= self.guesses@);
        }
        (count % 256) as u8
    }

    /// Whether the player has run out of allowed wrong guesses.
    pub fn is_lost(&self) -> (lost: bool)
        ensures
            lost == (wrong_guess_count(self.guesses@, self.word@) % 256 >= self.max_errors as nat),
    {
        self.errors() >= self.max_errors
    }

    /// Whether every character of the word has been guessed.
    pub fn is_won(&self) -> (won: bool)
        ensures
            won == all_guessed(self.guesses@, self.word@),
    {
        let n: usize = self.word.as_str().unicode_len();
        let mut i: usize = 0;
        while i < n
            invariant
                i <= n,
                n == self.word@.len(),
                forall|j: int| 0 <= j < i ==> self.guesses@.contains(self.word@[j]),
            decreases n - i,
        {
            let c = self.word.as_str().get_char(i);
            if !chars_contain(&self.guesses, c) {
                return false;
            }
            i = i + 1;
        }
        true
    }
}

/// The word with every character that has not been guessed hidden behind
/// an underscore.
pub fn mask_word(word: &str, guesses: &Vec<char>) -> (masked: String)
    ensures
        masked@.len() == word@.len(),
        forall|i: int|
            0 <= i < word@.len() ==> masked@[i] == (if guesses@.contains(word@[i]) {
                word@[i]
            } else {
                '_'
            }),
{
    let mut masked = String::new();
    let n: usize = word.unicode_len();
    let mut i: usize = 0;
    while i < n
        invariant
            i <= n,
            n == word@.len(),
            masked@.len() == i,
            forall|j: int|
                0 <= j < i ==> masked@[j] == (if guesses@.contains(word@[j]) {
                    word@[j]
                } else {
                    '_'
                }),
        decreases n - i,
    {
        let c = word.get_char(i);
        if chars_contain(guesses, c) {
            masked.push(c);
        } else {
            masked.push('_');
        }
        i = i + 1;
    }
    masked
}

/// Whether the character occurs in the string.
fn str_contains_char(s: &str, c: char) -> (found: bool)
    ensures
        found == s@.contains(c),
{
    let n: usize = s.unicode_len();
    let mut i: usize = 0;
    while i < n
        invariant
            i <= n,
            n == s@.len(),
            forall|j: int| 0 <= j < i ==> s@[j] != c,
        decreases n - i,
    {
        if s.get_char(i) == c {
            return true;
        }
        i = i + 1;
    }
    false
}

/// Whether the character occurs in the list.
fn chars_contain(chars: &Vec<char>, c: char) -> (found: bool)
    ensures
        found == chars@.contains(c),
{
    let mut i: usize = 0;
    while i < chars.len()
        invariant
            i <= chars@.len(),
            forall|j: int| 0 <= j < i ==> chars@[j] != c,
        decreases chars@.len() - i,
    {
        if chars[i] == c {
            return true;
        }
        i = i + 1;
    }
    false
}

} // verus!
