// The tokenizer's interface: classes, progress, and whitespace handling.

use mips_sim::tokenize::tokenize;
use mips_sim::tokenize::TokenType;
use mips_sim::tokenize::Tokenizer;

#[test]
fn tokenizer_starts_at_the_beginning() {
    let t = Tokenizer::new(String::from("abc"));
    assert!(t.has_next());
    let empty = Tokenizer::new(String::new());
    assert!(!empty.has_next());
}

#[test]
fn identifiers_stop_at_non_letters() {
    let tokens = tokenize(String::from("add r1"));
    let values: Vec<&str> = tokens.iter().map(|t| t.value.as_str()).collect();
    assert_eq!(values, vec!["add", "r", "1"]);
    assert_eq!(tokens[0].token_type, TokenType::Identifier);
    assert_eq!(tokens[1].token_type, TokenType::Identifier);
    assert_eq!(tokens[2].token_type, TokenType::Integer);
}

#[test]
fn hexadecimal_numbers_are_one_token() {
    let tokens = tokenize(String::from("0x40 12"));
    let values: Vec<&str> = tokens.iter().map(|t| t.value.as_str()).collect();
    assert_eq!(values, vec!["0x40", "12"]);
    assert_eq!(tokens[0].token_type, TokenType::Integer);
    assert_eq!(tokens[1].token_type, TokenType::Integer);
}

#[test]
fn operators_and_punctuation_are_single_characters() {
    let tokens = tokenize(String::from("a+b, c"));
    let values: Vec<&str> = tokens.iter().map(|t| t.value.as_str()).collect();
    assert_eq!(values, vec!["a", "+", "b", ",", "c"]);
    assert_eq!(tokens[1].token_type, TokenType::Operator);
    assert_eq!(tokens[3].token_type, TokenType::Punctuation);
}

#[test]
fn unknown_characters_are_their_own_tokens() {
    let tokens = tokenize(String::from("#!"));
    assert_eq!(tokens.len(), 2);
    assert_eq!(tokens[0].token_type, TokenType::Other);
    assert_eq!(tokens[0].value, "#");
    assert_eq!(tokens[1].token_type, TokenType::Other);
}

#[test]
fn whitespace_only_input_yields_no_tokens() {
    let tokens = tokenize(String::from("  \t \n "));
    assert_eq!(tokens.len(), 0);
}

#[test]
fn next_skips_leading_whitespace() {
    let mut t = Tokenizer::new(String::from("   word"));
    let token = t.next().expect("a token after the blanks");
    assert_eq!(token.value, "word");
    assert_eq!(token.token_type, TokenType::Identifier);
    assert!(t.next().is_none());
}
