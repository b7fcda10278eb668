//! The configuration parser. A configuration is written
//! `Name, dyn = [A, B]`: the interface to generate, then the generic
//! parameters that must not appear on it.

use vstd::prelude::*;
use vstd::string::StrSliceExecFns;
use crate::model::{views, Configuration, ConfigurationView, TransformError};

verus! {

#[derive(Debug, Clone, Copy, PartialEq, Eq)]
pub enum Delimiter {
    Parenthesis,
    Brace,
    Bracket,
    Invisible,
}

/// A token as the host's lexer hands it over. A group is flattened into its
/// opening delimiter, its tokens and its closing delimiter.
#[derive(Debug, Clone, PartialEq, Eq)]
pub enum Token {
    Word(String),
    Punct(char),
    Literal(String),
    Open(Delimiter),
    Close(Delimiter),
}

pub enum TokenView {
    Word(Seq<char>),
    Punct(char),
    Literal(Seq<char>),
    Open(Delimiter),
    Close(Delimiter),
}

impl View for Token {
    type V = TokenView;

    open spec fn view(&self) -> TokenView {
        match *self {
            Token::Word(text) => TokenView::Word(text@),
            Token::Punct(c) => TokenView::Punct(c),
            Token::Literal(text) => TokenView::Literal(text@),
            Token::Open(d) => TokenView::Open(d),
            Token::Close(d) => TokenView::Close(d),
        }
    }
}

/// A token whose words are told apart: an identifier may name something, a
/// keyword may not.
#[derive(Debug, Clone, PartialEq, Eq)]
pub enum Lexeme {
    Identifier(String),
    Keyword(String),
    Punct(char),
    Literal(String),
    Open(Delimiter),
    Close(Delimiter),
}

pub enum LexemeView {
    Identifier(Seq<char>),
    Keyword(Seq<char>),
    Punct(char),
    Literal(Seq<char>),
    Open(Delimiter),
    Close(Delimiter),
}

impl View for Lexeme {
    type V = LexemeView;

    open spec fn view(&self) -> LexemeView {
        match *self {
            Lexeme::Identifier(text) => LexemeView::Identifier(text@),
            Lexeme::Keyword(text) => LexemeView::Keyword(text@),
            Lexeme::Punct(c) => LexemeView::Punct(c),
            Lexeme::Literal(text) => LexemeView::Literal(text@),
            Lexeme::Open(d) => LexemeView::Open(d),
            Lexeme::Close(d) => LexemeView::Close(d),
        }
    }
}

pub open spec fn is_delimiter(c: char) -> bool {
    c == '(' || c == ')' || c == '[' || c == ']' || c == '{' || c == '}'
}

/// A word that holds a delimiter is no single word: it would open a group.
pub open spec fn holds_delimiter(text: Seq<char>) -> bool {
    exists|i: int| 0 <= i < text.len() && is_delimiter(#[trigger] text[i])
}

/// The words that can never name anything: `_` and the reserved words of
/// Rust, those of later editions and those kept for the future included.
pub open spec fn is_reserved(text: Seq<char>) -> bool {
    ||| text == "_"@
    ||| text == "abstract"@
    ||| text == "as"@
    ||| text == "async"@
    ||| text == "await"@
    ||| text == "become"@
    ||| text == "box"@
    ||| text == "break"@
    ||| text == "const"@
    ||| text == "continue"@
    ||| text == "crate"@
    ||| text == "do"@
    ||| text == "dyn"@
    ||| text == "else"@
    ||| text == "enum"@
    ||| text == "extern"@
    ||| text == "false"@
    ||| text == "final"@
    ||| text == "fn"@
    ||| text == "for"@
    ||| text == "if"@
    ||| text == "impl"@
    ||| text == "in"@
    ||| text == "let"@
    ||| text == "loop"@
    ||| text == "macro"@
    ||| text == "match"@
    ||| text == "mod"@
    ||| text == "move"@
    ||| text == "mut"@
    ||| text == "override"@
    ||| text == "priv"@
    ||| text == "pub"@
    ||| text == "ref"@
    ||| text == "return"@
    ||| text == "Self"@
    ||| text == "self"@
    ||| text == "static"@
    ||| text == "struct"@
    ||| text == "super"@
    ||| text == "trait"@
    ||| text == "true"@
    ||| text == "try"@
    ||| text == "type"@
    ||| text == "typeof"@
    ||| text == "unsafe"@
    ||| text == "unsized"@
    ||| text == "use"@
    ||| text == "virtual"@
    ||| text == "where"@
    ||| text == "while"@
    ||| text == "yield"@
}

pub fn has_delimiter(text: &String) -> (found: bool)
    ensures
        found == holds_delimiter(text@),
{
    let word = text.as_str();
    let n = word.unicode_len();
    let mut i: usize = 0;
    while i < n
        invariant
            i <= n,
            n == text@.len(),
            word@ == text@,
            forall|j: int| 0 <= j < i ==> !is_delimiter(#[trigger] text@[j]),
        decreases n - i,
    {
        let c = word.get_char(i);
        if c == '(' || c == ')' || c == '[' || c == ']' || c == '{' || c == '}' {
            assert(is_delimiter(text@[i as int]));
            return true;
        }
        i += 1;
    }
    false
}

/// Asks `syn::parse_str::<syn::Ident>` whether `text` is an identifier.
/// Which lexer reads the text depends on where the process runs, so the
/// answer is not taken to be a function of the text. One thing is claimed
/// of it: a word that `syn` lists as reserved is refused, whichever lexer
/// read it. A text with a delimiter is kept from the call, because `syn`
/// descends into nested groups without a bound.
#[verifier::external_body]
fn parses_as_identifier(text: &String) -> (accepted: bool)
    requires
        !holds_delimiter(text@),
    ensures
        is_reserved(text@) ==> !accepted,
{
    syn::parse_str::<syn::Ident>(text.as_str()).is_ok()
}

/// What a token may become when its words are told apart. A token that is
/// no word stays as it is. A word keeps its text; it is a keyword if it is
/// reserved or holds a delimiter, and otherwise whichever of the two the
/// host's parser takes it for.
pub open spec fn classifies(token: TokenView, lexeme: LexemeView) -> bool {
    match token {
        TokenView::Word(text) => if is_reserved(text) || holds_delimiter(text) {
            lexeme == LexemeView::Keyword(text)
        } else {
            lexeme == LexemeView::Identifier(text) || lexeme == LexemeView::Keyword(text)
        },
        TokenView::Punct(c) => lexeme == LexemeView::Punct(c),
        TokenView::Literal(text) => lexeme == LexemeView::Literal(text),
        TokenView::Open(d) => lexeme == LexemeView::Open(d),
        TokenView::Close(d) => lexeme == LexemeView::Close(d),
    }
}

/// `lexemes` are `tokens`, one for one, with the words told apart.
pub open spec fn is_classification(tokens: Seq<TokenView>, lexemes: Seq<LexemeView>) -> bool {
    &&& lexemes.len() == tokens.len()
    &&& forall|i: int| 0 <= i < tokens.len() ==> #[trigger] classifies(tokens[i], lexemes[i])
}

/// Tells the identifiers among the words of `tokens` from the keywords, and
/// leaves every other token as it is.
pub fn classify(tokens: &Vec<Token>) -> (lexemes: Vec<Lexeme>)
    ensures
        is_classification(views(tokens@), views(lexemes@)),
{
    let mut lexemes: Vec<Lexeme> = Vec::new();
    let mut i: usize = 0;
    while i < tokens.len()
        invariant
            i <= tokens.len(),
            lexemes.len() == i,
            forall|j: int| 0 <= j < i ==> #[trigger] classifies(tokens@[j]@, lexemes@[j]@),
        decreases tokens.len() - i,
    {
        let lexeme = match &tokens[i] {
            Token::Word(text) => if !has_delimiter(text) && parses_as_identifier(text) {
                Lexeme::Identifier(text.clone())
            } else {
                Lexeme::Keyword(text.clone())
            },
            Token::Punct(c) => Lexeme::Punct(*c),
            Token::Literal(text) => Lexeme::Literal(text.clone()),
            Token::Open(d) => Lexeme::Open(*d),
            Token::Close(d) => Lexeme::Close(*d),
        };
        assert(classifies(tokens@[i as int]@, lexeme@));
        lexemes.push(lexeme);
        i += 1;
    }
    assert forall|j: int| 0 <= j < tokens.len() implies #[trigger] classifies(
        views(tokens@)[j],
        views(lexemes@)[j],
    ) by {
        assert(classifies(tokens@[j]@, lexemes@[j]@));
    }
    lexemes
}

/// The word `dyn`, which introduces the list of erased parameters.
pub open spec fn marker() -> Seq<char> {
    "dyn"@
}

pub open spec fn is_marker(lexeme: LexemeView) -> bool {
    lexeme == LexemeView::Keyword(marker()) || lexeme == LexemeView::Identifier(marker())
}

/// In a list, identifiers stand at the even places and commas at the odd
/// ones.
pub open spec fn fits_list(list: Seq<LexemeView>, k: int) -> bool {
    if k % 2 == 0 {
        list[k] is Identifier
    } else {
        list[k] == LexemeView::Punct(',')
    }
}

/// A list is empty, or it is identifiers with a comma between each two: it
/// never ends with a comma.
pub open spec fn is_name_list(list: Seq<LexemeView>) -> bool {
    &&& list.len() == 0 || list.len() % 2 == 1
    &&& forall|k: int| 0 <= k < list.len() ==> #[trigger] fits_list(list, k)
}

pub open spec fn listed_names(list: Seq<LexemeView>) -> Seq<Seq<char>> {
    Seq::new(((list.len() + 1) / 2) as nat, |j: int| list[2 * j]->Identifier_0)
}

/// What stands between the brackets.
pub open spec fn bracketed(lexemes: Seq<LexemeView>) -> Seq<LexemeView> {
    lexemes.subrange(5, lexemes.len() - 1)
}

/// The grammar: an identifier, a comma, `dyn`, `=`, and a bracketed list of
/// identifiers, with nothing after the closing bracket.
pub open spec fn is_configuration(lexemes: Seq<LexemeView>) -> bool {
    &&& lexemes.len() >= 6
    &&& lexemes[0] is Identifier
    &&& lexemes[1] == LexemeView::Punct(',')
    &&& is_marker(lexemes[2])
    &&& lexemes[3] == LexemeView::Punct('=')
    &&& lexemes[4] == LexemeView::Open(Delimiter::Bracket)
    &&& lexemes.last() == LexemeView::Close(Delimiter::Bracket)
    &&& is_name_list(bracketed(lexemes))
}

pub open spec fn configuration_of(lexemes: Seq<LexemeView>) -> ConfigurationView {
    ConfigurationView {
        interface_name: lexemes[0]->Identifier_0,
        erased_params: listed_names(bracketed(lexemes)),
    }
}

fn is_punct(lexeme: &Lexeme, c: char) -> (same: bool)
    ensures
        same == (lexeme@ == LexemeView::Punct(c)),
{
    match lexeme {
        Lexeme::Punct(p) => *p == c,
        _ => false,
    }
}

fn is_marker_word(lexeme: &Lexeme) -> (same: bool)
    ensures
        same == is_marker(lexeme@),
{
    let word = "dyn".to_owned();
    match lexeme {
        Lexeme::Keyword(text) => *text == word,
        Lexeme::Identifier(text) => *text == word,
        _ => false,
    }
}

fn is_bracket(lexeme: &Lexeme, opening: bool) -> (same: bool)
    ensures
        same == (lexeme@ == if opening {
            LexemeView::Open(Delimiter::Bracket)
        } else {
            LexemeView::Close(Delimiter::Bracket)
        }),
{
    match lexeme {
        Lexeme::Open(Delimiter::Bracket) => opening,
        Lexeme::Close(Delimiter::Bracket) => !opening,
        _ => false,
    }
}

pub fn parse_configuration(lexemes: &Vec<Lexeme>) -> (result: Result<Configuration, TransformError>)
    ensures
        match result {
            Ok(config) => is_configuration(views(lexemes@)) && config@ == configuration_of(
                views(lexemes@),
            ),
            Err(error) => error == TransformError::MalformedConfiguration && !is_configuration(
                views(lexemes@),
            ),
        },
{
    let n = lexemes.len();
    if n < 6 {
        return Err(TransformError::MalformedConfiguration);
    }
    let ghost all = views(lexemes@);
    let ghost list = bracketed(all);
    assert(forall|k: int| 0 <= k < n ==> all[k] == lexemes@[k]@);
    let interface_name = match &lexemes[0] {
        Lexeme::Identifier(text) => text.clone(),
        _ => {
            return Err(TransformError::MalformedConfiguration);
        },
    };
    if !is_punct(&lexemes[1], ',') || !is_marker_word(&lexemes[2]) || !is_punct(&lexemes[3], '=')
        || !is_bracket(&lexemes[4], true) || !is_bracket(&lexemes[n - 1], false) {
        return Err(TransformError::MalformedConfiguration);
    }
    if n > 6 && (n - 6) % 2 == 0 {
        return Err(TransformError::MalformedConfiguration);
    }
    let mut erased_params: Vec<String> = Vec::new();
    let mut k: usize = 5;
    while k < n - 1
        invariant
            5 <= k <= n - 1,
            n == lexemes.len(),
            all == views(lexemes@),
            list == bracketed(all),
            list.len() == n - 6,
            forall|p: int| 0 <= p < k - 5 ==> #[trigger] fits_list(list, p),
            views(erased_params@) =~= listed_names(list.take(k - 5)),
        decreases n - k,
    {
        let ghost p = k - 5;
        assert(list[p] == lexemes@[k as int]@);
        if (k - 5) % 2 == 0 {
            match &lexemes[k] {
                Lexeme::Identifier(text) => {
                    let ghost before = erased_params@;
                    erased_params.push(text.clone());
                    assert(views(erased_params@) =~= views(before).push(text@));
                },
                _ => {
                    assert(!fits_list(list, p));
                    return Err(TransformError::MalformedConfiguration);
                },
            }
        } else if !is_punct(&lexemes[k], ',') {
            assert(!fits_list(list, p));
            return Err(TransformError::MalformedConfiguration);
        }
        assert(fits_list(list, p));
        assert(views(erased_params@) =~= listed_names(list.take(p + 1)));
        k += 1;
    }
    assert(list.take(n - 6) =~= list);
    Ok(Configuration { interface_name, erased_params })
}

} // verus!
