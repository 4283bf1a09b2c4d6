//! The mathematical model of generated code: sequences of token trees.
use vstd::prelude::*;

verus! {

/// The bracket pair around a delimited group.
#[derive(Clone, Copy, PartialEq, Eq, Structural, Debug)]
pub enum Bracket {
    /// `( .. )`
    Round,
    /// `{ .. }`
    Curly,
    /// `[ .. ]`
    Square,
    /// A group that no character marks.
    Invisible,
}

/// One token tree of generated code. Source positions are not part of the model.
pub enum Token {
    /// An identifier, a keyword or `_`, by its text.
    Ident(Seq<char>),
    /// A punctuation character, and whether it forms one operator with the character behind it.
    Punct(char, bool),
    /// A string literal, by the string that it denotes.
    Str(Seq<char>),
    /// An integer literal with the suffix `usize`.
    Usize(nat),
    /// Any other literal, by its text.
    Literal(Seq<char>),
    /// A pair of brackets and the tokens between them.
    Group(Bracket, Seq<Token>),
}

/// `c` can stand in an ASCII identifier.
pub open spec fn is_word_char(c: char) -> bool {
    c == '_' || 'a' <= c <= 'z' || 'A' <= c <= 'Z' || '0' <= c <= '9'
}

/// Every character of `s` can stand in an ASCII identifier.
pub open spec fn all_word_chars(s: Seq<char>) -> bool {
    forall|i: int| 0 <= i < s.len() ==> is_word_char(#[trigger] s[i])
}

/// `s` is an ASCII identifier, a keyword or `_`.
pub open spec fn is_word(s: Seq<char>) -> bool {
    &&& s.len() > 0
    &&& all_word_chars(s)
    &&& !('0' <= s[0] <= '9')
}

/// `c` is a character that Rust's operators and separators are made of.
pub open spec fn is_punct_char(c: char) -> bool {
    ||| c == '!' || c == '#' || c == '$' || c == '%' || c == '&' || c == '\'' || c == '*'
    ||| c == '+' || c == ',' || c == '-' || c == '.' || c == '/' || c == ':' || c == ';'
    ||| c == '<' || c == '=' || c == '>' || c == '?' || c == '@' || c == '^' || c == '|'
    ||| c == '~'
}

/// The text of an identifier without the `r#` that marks a raw one.
pub open spec fn unraw(text: Seq<char>) -> Seq<char> {
    if text.len() >= 2 && text[0] == 'r' && text[1] == '#' {
        text.skip(2)
    } else {
        text
    }
}

/// The empty piece of code.
pub open spec fn no_tokens() -> Seq<Token> {
    Seq::empty()
}

/// Notation for pieces of code: each function puts something behind what is there already, so
/// that a chain of them reads in the order of the code that it stands for.
pub trait TokenSeq: Sized {
    /// The word `s`.
    spec fn word(self, s: &str) -> Self;

    /// The identifier with the text `text`.
    spec fn name(self, text: Seq<char>) -> Self;

    /// The operator or separator that consists of `c` alone.
    spec fn op(self, c: char) -> Self;

    /// The operator of the two characters `a` and `b`.
    spec fn op2(self, a: char, b: char) -> Self;

    /// The string literal that denotes `text`.
    spec fn str_lit(self, text: Seq<char>) -> Self;

    /// The literal `n`, with its suffix.
    spec fn usize_lit(self, n: nat) -> Self;

    /// The tokens `other`.
    spec fn tokens(self, other: Self) -> Self;

    /// `( inner )`
    spec fn parens(self, inner: Self) -> Self;

    /// `{ inner }`
    spec fn braces(self, inner: Self) -> Self;

    /// `[ inner ]`
    spec fn brackets(self, inner: Self) -> Self;

    /// `::s`
    spec fn seg(self, s: &str) -> Self;

    /// `.s`
    spec fn dot(self, s: &str) -> Self;

    /// `&mut text`
    spec fn mut_ref(self, text: Seq<char>) -> Self;

    /// `let text =`
    spec fn bind(self, text: Seq<char>) -> Self;

    /// `let mut text =`
    spec fn bind_mut(self, text: Seq<char>) -> Self;
}

impl TokenSeq for Seq<Token> {
    open spec fn word(self, s: &str) -> Seq<Token> {
        self.push(Token::Ident(s@))
    }

    open spec fn name(self, text: Seq<char>) -> Seq<Token> {
        self.push(Token::Ident(text))
    }

    open spec fn op(self, c: char) -> Seq<Token> {
        self.push(Token::Punct(c, false))
    }

    open spec fn op2(self, a: char, b: char) -> Seq<Token> {
        self.push(Token::Punct(a, true)).push(Token::Punct(b, false))
    }

    open spec fn str_lit(self, text: Seq<char>) -> Seq<Token> {
        self.push(Token::Str(text))
    }

    open spec fn usize_lit(self, n: nat) -> Seq<Token> {
        self.push(Token::Usize(n))
    }

    open spec fn tokens(self, other: Seq<Token>) -> Seq<Token> {
        self + other
    }

    open spec fn parens(self, inner: Seq<Token>) -> Seq<Token> {
        self.push(Token::Group(Bracket::Round, inner))
    }

    open spec fn braces(self, inner: Seq<Token>) -> Seq<Token> {
        self.push(Token::Group(Bracket::Curly, inner))
    }

    open spec fn brackets(self, inner: Seq<Token>) -> Seq<Token> {
        self.push(Token::Group(Bracket::Square, inner))
    }

    open spec fn seg(self, s: &str) -> Seq<Token> {
        self.op2(':', ':').word(s)
    }

    open spec fn dot(self, s: &str) -> Seq<Token> {
        self.op('.').word(s)
    }

    open spec fn mut_ref(self, text: Seq<char>) -> Seq<Token> {
        self.op('&').word("mut").name(text)
    }

    open spec fn bind(self, text: Seq<char>) -> Seq<Token> {
        self.word("let").name(text).op('=')
    }

    open spec fn bind_mut(self, text: Seq<char>) -> Seq<Token> {
        self.word("let").word("mut").name(text).op('=')
    }
}

/// Each notation puts exactly the tokens that it shows behind what is there, and leaves that as it
/// is.
pub proof fn law_notation(
    code: Seq<Token>,
    other: Seq<Token>,
    s: &str,
    text: Seq<char>,
    a: char,
    b: char,
    number: nat,
)
    ensures
        no_tokens().len() == 0,
        code.word(s) =~= code + seq![Token::Ident(s@)],
        code.name(text) =~= code + seq![Token::Ident(text)],
        code.op(a) =~= code + seq![Token::Punct(a, false)],
        code.op2(a, b) =~= code + seq![Token::Punct(a, true), Token::Punct(b, false)],
        code.str_lit(text) =~= code + seq![Token::Str(text)],
        code.usize_lit(number) =~= code + seq![Token::Usize(number)],
        code.tokens(other) =~= code + other,
        code.parens(other) =~= code + seq![Token::Group(Bracket::Round, other)],
        code.braces(other) =~= code + seq![Token::Group(Bracket::Curly, other)],
        code.brackets(other) =~= code + seq![Token::Group(Bracket::Square, other)],
        code.seg(s) =~= code + seq![
            Token::Punct(':', true),
            Token::Punct(':', false),
            Token::Ident(s@),
        ],
        code.dot(s) =~= code + seq![Token::Punct('.', false), Token::Ident(s@)],
        code.mut_ref(text) =~= code + seq![
            Token::Punct('&', false),
            Token::Ident("mut"@),
            Token::Ident(text),
        ],
        code.bind(text) =~= code + seq![
            Token::Ident("let"@),
            Token::Ident(text),
            Token::Punct('=', false),
        ],
        code.bind_mut(text) =~= code + seq![
            Token::Ident("let"@),
            Token::Ident("mut"@),
            Token::Ident(text),
            Token::Punct('=', false),
        ],
{
}

/// The mark of a raw identifier is taken away, once, and any other text stays as it is.
pub proof fn law_unraw(text: Seq<char>)
    ensures
        unraw(seq!['r', '#'] + text) == text,
        !seq!['r', '#'].is_prefix_of(text) ==> unraw(text) == text,
{
    assert((seq!['r', '#'] + text).skip(2) =~= text);
    if text.len() >= 2 && text[0] == 'r' && text[1] == '#' {
        assert(text.take(2) =~= seq!['r', '#']);
    }
}

/// A word starts with a letter or an underscore and goes on with letters, digits and underscores,
/// all of them ASCII. No character of a word is punctuation.
pub proof fn law_words(s: Seq<char>, c: char)
    ensures
        is_word(s) <==> s.len() > 0 && all_word_chars(s) && !(48 <= s[0] as int <= 57),
        all_word_chars(s) <==> forall|i: int|
            0 <= i < s.len() ==> is_word_char(#[trigger] s[i]),
        is_word_char(c) <==> 65 <= c as int <= 90 || 97 <= c as int <= 122 || 48 <= c as int <= 57
            || c as int == 95,
        is_punct_char(c) ==> !is_word_char(c) && 33 <= c as int <= 126 && c != '"' && c != '('
            && c != ')' && c != '[' && c != ']' && c != '{' && c != '}' && c != '`' && c != '\\',
{
}

} // verus!
