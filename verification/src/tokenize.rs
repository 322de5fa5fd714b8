//! Tokens of an assembly source text, and the tokenizer that produces them.
//! The assembler itself is outside this machine's concern; the tokenizer is
//! kept at the interface it offers it, and classifies by the ASCII character
//! classes the source language uses.

use vstd::prelude::*;

verus! {

/// The classes a token can belong to.
#[derive(Clone, Copy, Debug, PartialEq, Eq, Structural)]
pub enum TokenType {
    /// A run of digits (hexadecimal digits and an `x` in second place
    /// allowed) starting with a decimal digit.
    Integer,
    /// A run of letters.
    Identifier,
    /// One arithmetic or assignment sign.
    Operator,
    /// One punctuation sign.
    Punctuation,
    /// Any other single character.
    Other,
}

/// A letter.
pub open spec fn is_letter(c: char) -> bool {
    (97 <= c as u32 && c as u32 <= 122) || (65 <= c as u32 && c as u32 <= 90)
}

/// A decimal digit.
pub open spec fn is_digit(c: char) -> bool {
    48 <= c as u32 && c as u32 <= 57
}

/// A hexadecimal digit.
pub open spec fn is_hex_digit(c: char) -> bool {
    is_digit(c) || (97 <= c as u32 && c as u32 <= 102) || (65 <= c as u32 && c as u32 <= 70)
}

/// A blank: space, tab, or line break.
pub open spec fn is_space(c: char) -> bool {
    c == ' ' || c == '\t' || c == '\n' || c == '\r'
}

/// An arithmetic or assignment sign.
pub open spec fn is_operator(c: char) -> bool {
    c == '+' || c == '-' || c == '*' || c == '/' || c == '='
}

/// A punctuation sign.
pub open spec fn is_punctuation(c: char) -> bool {
    c == ',' || c == ';' || c == ':' || c == '(' || c == ')' || c == '[' || c == ']' || c == '{'
        || c == '}'
}

/// The class a token beginning with `c` belongs to.
pub open spec fn class_of(c: char) -> TokenType {
    if is_letter(c) {
        TokenType::Identifier
    } else if is_digit(c) {
        TokenType::Integer
    } else if is_operator(c) {
        TokenType::Operator
    } else if is_punctuation(c) {
        TokenType::Punctuation
    } else {
        TokenType::Other
    }
}

fn letter(c: char) -> (r: bool)
    ensures
        r == is_letter(c),
{
    let u = c as u32;
    (97 <= u && u <= 122) || (65 <= u && u <= 90)
}

fn digit(c: char) -> (r: bool)
    ensures
        r == is_digit(c),
{
    let u = c as u32;
    48 <= u && u <= 57
}

fn space(c: char) -> (r: bool)
    ensures
        r == is_space(c),
{
    c == ' ' || c == '\t' || c == '\n' || c == '\r'
}

fn operator(c: char) -> (r: bool)
    ensures
        r == is_operator(c),
{
    c == '+' || c == '-' || c == '*' || c == '/' || c == '='
}

fn punctuation(c: char) -> (r: bool)
    ensures
        r == is_punctuation(c),
{
    c == ',' || c == ';' || c == ':' || c == '(' || c == ')' || c == '[' || c == ']' || c == '{'
        || c == '}'
}

/// Whether a number token that began one place before `c` continues at `c`:
/// any hexadecimal digit does, and an `x` does in second place.
fn number_continues(c: char, second_place: bool) -> (r: bool)
    ensures
        r == (is_hex_digit(c) || (second_place && c == 'x')),
{
    let u = c as u32;
    (48 <= u && u <= 57) || (97 <= u && u <= 102) || (65 <= u && u <= 70) || (second_place && c
        == 'x')
}

/// One token of the source text.
pub struct Token {
    /// The class the token belongs to.
    pub token_type: TokenType,
    /// The token's text.
    pub value: String,
}

/// A cursor over a source text that hands out one token at a time.
pub struct Tokenizer {
    input_string: String,
    index: usize,
}

impl Tokenizer {
    /// The whole source text, as characters.
    pub closed spec fn text(&self) -> Seq<char> {
        self.input_string@
    }

    /// How many characters have been consumed.
    pub closed spec fn position(&self) -> int {
        self.index as int
    }

    /// The cursor never runs past the end of the text.
    pub closed spec fn wf(&self) -> bool {
        self.index <= self.input_string@.len()
    }

    /// A tokenizer at the start of the given source text.
    pub fn new(input: String) -> (t: Tokenizer)
        ensures
            t.wf(),
            t.text() == input@,
            t.position() == 0,
    {
        Tokenizer { input_string: input, index: 0 }
    }

    /// Whether any text is left to tokenize.
    pub fn has_next(&self) -> (r: bool)
        requires
            self.wf(),
        ensures
            r == (self.position() < self.text().len()),
    {
        self.index < self.input_string.as_str().unicode_len()
    }

    /// The next token: blanks before it are consumed silently; the token's
    /// text is exactly the run of characters consumed after them, and its
    /// class is chosen by its first character.  `None` is returned, with the
    /// cursor at the end, when only blanks remain.
    pub fn next(&mut self) -> (r: Option<Token>)
        requires
            old(self).wf(),
        ensures
            final(self).wf(),
            final(self).text() == old(self).text(),
            old(self).position() <= final(self).position(),
            match r {
                None => final(self).position() == final(self).text().len() && (forall|i: int|
                    old(self).position() <= i < final(self).text().len() ==> is_space(
                        #[trigger] final(self).text()[i],
                    )),
                Some(token) => {
                    &&& final(self).position() <= final(self).text().len()
                    &&& 0 < token.value@.len() <= final(self).position() - old(self).position()
                    &&& token.value@ == final(self).text().subrange(
                        final(self).position() - token.value@.len(),
                        final(self).position(),
                    )
                    &&& forall|i: int|
                        old(self).position() <= i < final(self).position() - token.value@.len()
                            ==> is_space(#[trigger] final(self).text()[i])
                    &&& token.token_type == class_of(token.value@[0])
                },
            },
    {
        let n = self.input_string.as_str().unicode_len();
        let ghost skip_from = self.position();
        while self.index < n && space(self.input_string.as_str().get_char(self.index))
            invariant
                self.wf(),
                n == self.input_string@.len(),
                self.input_string@ == old(self).input_string@,
                skip_from <= self.index <= n,
                forall|i: int|
                    skip_from <= i < self.index ==> is_space(#[trigger] self.input_string@[i]),
            decreases n - self.index,
        {
            self.index = self.index + 1;
        }
        if self.index >= n {
            return None;
        }
        let start = self.index;
        let c = self.input_string.as_str().get_char(self.index);
        self.index = self.index + 1;
        let token_type: TokenType;
        if letter(c) {
            token_type = TokenType::Identifier;
            while self.index < n && letter(self.input_string.as_str().get_char(self.index))
                invariant
                    self.wf(),
                    n == self.input_string@.len(),
                    self.input_string@ == old(self).input_string@,
                    start < self.index <= n,
                decreases n - self.index,
            {
                self.index = self.index + 1;
            }
        } else if digit(c) {
            token_type = TokenType::Integer;
            while self.index < n && number_continues(
                self.input_string.as_str().get_char(self.index),
                self.index == start + 1,
            )
                invariant
                    self.wf(),
                    n == self.input_string@.len(),
                    self.input_string@ == old(self).input_string@,
                    start < self.index <= n,
                decreases n - self.index,
            {
                self.index = self.index + 1;
            }
        } else if operator(c) {
            token_type = TokenType::Operator;
        } else if punctuation(c) {
            token_type = TokenType::Punctuation;
        } else {
            token_type = TokenType::Other;
        }
        let value = self.input_string.as_str().substring_char(start, self.index).to_owned();
        Some(Token { token_type, value })
    }
}

/// All tokens of the source text, in order; every token's text is nonempty.
pub fn tokenize(input: String) -> (r: Vec<Token>)
    ensures
        forall|i: int| 0 <= i < r@.len() ==> (#[trigger] r@[i]).value@.len() > 0,
{
    let mut tkn = Tokenizer::new(input);
    let mut res: Vec<Token> = Vec::new();
    while tkn.has_next()
        invariant
            tkn.wf(),
            forall|i: int| 0 <= i < res@.len() ==> (#[trigger] res@[i]).value@.len() > 0,
        decreases tkn.text().len() - tkn.position(),
    {
        match tkn.next() {
            Some(token) => {
                res.push(token);
            },
            None => {},
        }
    }
    res
}

} // verus!
