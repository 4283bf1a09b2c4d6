//! Token streams, and the calls into the crates that they come from.
use crate::token::{
    all_word_chars, is_punct_char, is_word, no_tokens, unraw, Bracket, Token, TokenSeq,
};
use proc_macro2::{Delimiter, Group, Ident, Punct, Spacing, Span, TokenStream};
use quote::{ToTokens, TokenStreamExt};
use syn::ext::IdentExt;
use vstd::prelude::*;

verus! {

/// The token stream of `proc_macro2`.
#[verifier::external_type_specification]
#[verifier::external_body]
pub struct ExTokenStream(proc_macro2::TokenStream);

/// The identifier of `proc_macro2`: a text and a source position.
#[verifier::external_type_specification]
#[verifier::external_body]
pub struct ExIdent(proc_macro2::Ident);

/// The token trees that a token stream holds, in their order.
pub uninterp spec fn tokens_of(stream: TokenStream) -> Seq<Token>;

/// The characters that an identifier holds, as `Ident::to_string` gives them: with the `r#` of a
/// raw identifier.
pub uninterp spec fn ident_text(ident: Ident) -> Seq<char>;

/// The tokens of the type that `syn::parse_str` reads from the text of a type; `None` where the
/// text is not a type.
pub uninterp spec fn type_tokens(text: Seq<char>) -> Option<Seq<Token>>;

/// `TokenStream::new` gives a stream that holds nothing.
#[verifier::external_body]
fn stream_new() -> (stream: TokenStream)
    ensures
        tokens_of(stream) == no_tokens(),
{
    TokenStream::new()
}

/// `TokenStream::extend` puts the token trees of the second stream behind those of the first.
#[verifier::external_body]
fn stream_extend(stream: &mut TokenStream, other: &TokenStream)
    ensures
        tokens_of(*final(stream)) == tokens_of(*old(stream)) + tokens_of(*other),
{
    stream.extend(other.clone())
}

/// `Ident::new` gives the identifier with the given text. It panics on a text that is not an
/// identifier; an ASCII identifier always is one.
#[verifier::external_body]
pub(crate) fn ident_new(text: &str) -> (ident: Ident)
    requires
        is_word(text@),
    ensures
        ident_text(ident) == text@,
{
    Ident::new(text, Span::call_site())
}

/// `Ident::clone` keeps the text.
#[verifier::external_body]
pub(crate) fn ident_clone(ident: &Ident) -> (copy: Ident)
    ensures
        ident_text(copy) == ident_text(*ident),
{
    ident.clone()
}

/// An identifier made of another one and a suffix, at the position of the other one:
/// `IdentExt::unraw` takes an `r#` away, and `Ident::new` makes an identifier of the text.
/// `Ident::new` panics on a text that is not an identifier; an identifier with ASCII letters,
/// digits and underscores behind it is one.
#[verifier::external_body]
pub(crate) fn ident_suffixed(ident: &Ident, suffix: &str) -> (longer: Ident)
    requires
        all_word_chars(suffix@),
    ensures
        ident_text(longer) == unraw(ident_text(*ident)) + suffix@,
{
    Ident::new(&format!("{}{}", ident.unraw(), suffix), ident.span())
}

/// `ToTokens::to_tokens` of an identifier puts the identifier behind the token trees of the
/// stream.
#[verifier::external_body]
fn push_ident(stream: &mut TokenStream, ident: &Ident)
    ensures
        tokens_of(*final(stream)) == tokens_of(*old(stream)).push(Token::Ident(ident_text(*ident))),
{
    ident.to_tokens(stream)
}

/// `ToTokens::to_tokens` of a string slice puts the string literal that denotes it behind the
/// token trees of the stream.
#[verifier::external_body]
fn push_str(stream: &mut TokenStream, text: &str)
    ensures
        tokens_of(*final(stream)) == tokens_of(*old(stream)).push(Token::Str(text@)),
{
    text.to_tokens(stream)
}

/// `ToTokens::to_tokens` of a `usize` puts the literal for it, with its suffix, behind the token
/// trees of the stream.
#[verifier::external_body]
fn push_usize(stream: &mut TokenStream, n: usize)
    ensures
        tokens_of(*final(stream)) == tokens_of(*old(stream)).push(Token::Usize(n as nat)),
{
    n.to_tokens(stream)
}

/// `TokenStreamExt::append` of a `Punct` with the spacing `Alone` puts that character behind the
/// token trees of the stream. `Punct::new` panics on a character that is no punctuation of Rust.
#[verifier::external_body]
fn push_alone(stream: &mut TokenStream, c: char)
    requires
        is_punct_char(c),
    ensures
        tokens_of(*final(stream)) == tokens_of(*old(stream)).push(Token::Punct(c, false)),
{
    stream.append(Punct::new(c, Spacing::Alone))
}

/// `TokenStreamExt::append` of a `Punct` with the spacing `Joint` puts that character behind the
/// token trees of the stream. `Punct::new` panics on a character that is no punctuation of Rust.
#[verifier::external_body]
fn push_joint(stream: &mut TokenStream, c: char)
    requires
        is_punct_char(c),
    ensures
        tokens_of(*final(stream)) == tokens_of(*old(stream)).push(Token::Punct(c, true)),
{
    stream.append(Punct::new(c, Spacing::Joint))
}

/// `TokenStreamExt::append` of a `Group` puts the group of these brackets, with the token trees of
/// `inner` between them, behind the token trees of the stream.
#[verifier::external_body]
fn push_group(stream: &mut TokenStream, bracket: Bracket, inner: TokenStream)
    ensures
        tokens_of(*final(stream)) == tokens_of(*old(stream)).push(
            Token::Group(bracket, tokens_of(inner)),
        ),
{
    let delimiter = match bracket {
        Bracket::Round => Delimiter::Parenthesis,
        Bracket::Curly => Delimiter::Brace,
        Bracket::Square => Delimiter::Bracket,
        Bracket::Invisible => Delimiter::None,
    };
    stream.append(Group::new(delimiter, inner))
}

/// `syn::parse_str` reads a type; what it makes of the text is named, not spelled out.
#[verifier::external_body]
pub(crate) fn parse_type(text: &str) -> (stream: Option<TokenStream>)
    ensures
        stream is Some <==> type_tokens(text@) is Some,
        stream is Some ==> tokens_of(stream->0) == type_tokens(text@)->0,
{
    syn::parse_str::<syn::Type>(text).ok().map(|parsed| parsed.into_token_stream())
}

/// A piece of code under construction. Each method puts something behind what is there already.
pub struct Quote {
    stream: TokenStream,
}

impl View for Quote {
    type V = Seq<Token>;

    closed spec fn view(&self) -> Seq<Token> {
        tokens_of(self.stream)
    }
}

impl Quote {
    /// No code yet.
    pub fn new() -> (q: Quote)
        ensures
            q@ == no_tokens(),
    {
        Quote { stream: stream_new() }
    }

    /// Goes on behind the tokens of `stream`.
    pub fn of(stream: TokenStream) -> (q: Quote)
        ensures
            q@ == tokens_of(stream),
    {
        Quote { stream }
    }

    /// The finished code.
    pub fn done(self) -> (stream: TokenStream)
        ensures
            tokens_of(stream) == self@,
    {
        self.stream
    }

    /// The word `s`.
    pub fn word(self, s: &str) -> (q: Quote)
        requires
            is_word(s@),
        ensures
            q@ == self@.word(s),
    {
        let ident = ident_new(s);
        self.name(&ident)
    }

    /// The identifier `ident`.
    pub fn name(self, ident: &Ident) -> (q: Quote)
        ensures
            q@ == self@.name(ident_text(*ident)),
    {
        let mut stream = self.stream;
        push_ident(&mut stream, ident);
        Quote { stream }
    }

    /// The operator or separator that consists of `c` alone.
    pub fn op(self, c: char) -> (q: Quote)
        requires
            is_punct_char(c),
        ensures
            q@ == self@.op(c),
    {
        let mut stream = self.stream;
        push_alone(&mut stream, c);
        Quote { stream }
    }

    /// The operator of the two characters `a` and `b`.
    pub fn op2(self, a: char, b: char) -> (q: Quote)
        requires
            is_punct_char(a),
            is_punct_char(b),
        ensures
            q@ == self@.op2(a, b),
    {
        let mut stream = self.stream;
        push_joint(&mut stream, a);
        push_alone(&mut stream, b);
        Quote { stream }
    }

    /// The string literal that denotes `text`.
    pub fn str_lit(self, text: &str) -> (q: Quote)
        ensures
            q@ == self@.str_lit(text@),
    {
        let mut stream = self.stream;
        push_str(&mut stream, text);
        Quote { stream }
    }

    /// The literal `n`, with its suffix.
    pub fn usize_lit(self, n: usize) -> (q: Quote)
        ensures
            q@ == self@.usize_lit(n as nat),
    {
        let mut stream = self.stream;
        push_usize(&mut stream, n);
        Quote { stream }
    }

    /// The tokens of `other`.
    pub fn tokens(self, other: &TokenStream) -> (q: Quote)
        ensures
            q@ == self@.tokens(tokens_of(*other)),
    {
        let mut stream = self.stream;
        stream_extend(&mut stream, other);
        Quote { stream }
    }

    /// `( inner )`
    pub fn parens(self, inner: Quote) -> (q: Quote)
        ensures
            q@ == self@.parens(inner@),
    {
        let mut stream = self.stream;
        push_group(&mut stream, Bracket::Round, inner.stream);
        Quote { stream }
    }

    /// `{ inner }`
    pub fn braces(self, inner: Quote) -> (q: Quote)
        ensures
            q@ == self@.braces(inner@),
    {
        let mut stream = self.stream;
        push_group(&mut stream, Bracket::Curly, inner.stream);
        Quote { stream }
    }

    /// `[ inner ]`
    pub fn brackets(self, inner: Quote) -> (q: Quote)
        ensures
            q@ == self@.brackets(inner@),
    {
        let mut stream = self.stream;
        push_group(&mut stream, Bracket::Square, inner.stream);
        Quote { stream }
    }

    /// `::s`
    pub fn seg(self, s: &str) -> (q: Quote)
        requires
            is_word(s@),
        ensures
            q@ == self@.seg(s),
    {
        self.op2(':', ':').word(s)
    }

    /// `.s`
    pub fn dot(self, s: &str) -> (q: Quote)
        requires
            is_word(s@),
        ensures
            q@ == self@.dot(s),
    {
        self.op('.').word(s)
    }

    /// `&mut ident`
    pub fn mut_ref(self, ident: &Ident) -> (q: Quote)
        ensures
            q@ == self@.mut_ref(ident_text(*ident)),
    {
        proof {
            reveal_strlit("mut");
        }
        self.op('&').word("mut").name(ident)
    }

    /// `let ident =`
    pub fn bind(self, ident: &Ident) -> (q: Quote)
        ensures
            q@ == self@.bind(ident_text(*ident)),
    {
        proof {
            reveal_strlit("let");
        }
        self.word("let").name(ident).op('=')
    }

    /// `let mut ident =`
    pub fn bind_mut(self, ident: &Ident) -> (q: Quote)
        ensures
            q@ == self@.bind_mut(ident_text(*ident)),
    {
        proof {
            reveal_strlit("let");
            reveal_strlit("mut");
        }
        self.word("let").word("mut").name(ident).op('=')
    }
}

} // verus!
