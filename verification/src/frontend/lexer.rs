use vstd::prelude::*;
use vstd::string::*;

use crate::text::is_digit_char;
use crate::text::str_eq;

verus! {

/// The kinds of token the lexer produces.
#[derive(Debug, Clone, Copy, PartialEq, Eq, Structural)]
pub enum TokenType {
    // Complex
    Identifier,
    BinaryOperator,
    EOF,
    // Symbols
    Equals,
    OpenParen,
    ClosedParen,
    Colon,
    SemiColon,
    DoubleQuote,
    SingleQuote,
    // Comparison operators
    Equality,
    Inequality,
    // Unary operators
    Increment,
    Decrement,
    Not,
    // Variable assignment
    Let,
    Const,
    // Variable literal types
    Number,
    Character,
    Str,
    Boolean,
}

/// Mathematical view of a token: its kind and its lexeme.
pub struct TokenModel {
    pub token_type: TokenType,
    pub text: Seq<char>,
}

/// A token: a kind tag plus the raw lexeme text.
#[derive(Debug)]
pub struct Token {
    pub token_type: TokenType,
    pub value: String,
}

impl Clone for Token {
    fn clone(&self) -> (r: Self)
        ensures
            r == *self,
    {
        Token { token_type: self.token_type, value: self.value.clone() }
    }
}

impl View for Token {
    type V = TokenModel;

    open spec fn view(&self) -> TokenModel {
        TokenModel { token_type: self.token_type, text: self.value@ }
    }
}

impl Token {
    pub fn create(token_type: TokenType, value: String) -> (r: Self)
        ensures
            r.token_type == token_type,
            r.value == value,
    {
        Token { token_type, value }
    }
}

/// The token kind of a reserved word, if the text is one.
pub open spec fn keyword_type(w: Seq<char>) -> Option<TokenType> {
    if w == "let"@ {
        Some(TokenType::Let)
    } else if w == "const"@ {
        Some(TokenType::Const)
    } else if w == "bool"@ {
        Some(TokenType::Boolean)
    } else if w == "str"@ {
        Some(TokenType::Str)
    } else if w == "char"@ {
        Some(TokenType::Character)
    } else {
        None
    }
}

/// A token for a reserved word; an error for any other text.
pub fn create_reserved(keyword: &str) -> (r: Result<Token, String>)
    ensures
        match r {
            Ok(t) => keyword_type(keyword@) == Some(t@.token_type) && t@.text == keyword@,
            Err(_) => keyword_type(keyword@) is None,
        },
{
    if str_eq(keyword, "let") {
        Ok(Token::create(TokenType::Let, String::from_str(keyword)))
    } else if str_eq(keyword, "const") {
        Ok(Token::create(TokenType::Const, String::from_str(keyword)))
    } else if str_eq(keyword, "bool") {
        Ok(Token::create(TokenType::Boolean, String::from_str(keyword)))
    } else if str_eq(keyword, "str") {
        Ok(Token::create(TokenType::Str, String::from_str(keyword)))
    } else if str_eq(keyword, "char") {
        Ok(Token::create(TokenType::Character, String::from_str(keyword)))
    } else {
        Err(String::from_str("unknown keyword"))
    }
}

/// An ASCII letter.
pub open spec fn is_alpha_char(c: char) -> bool {
    ('a' <= c && c <= 'z') || ('A' <= c && c <= 'Z')
}

/// A letter or a digit: what may continue an identifier.
pub open spec fn is_alnum_char(c: char) -> bool {
    is_alpha_char(c) || is_digit_char(c)
}

/// A digit or a decimal point: what may continue a number literal.
pub open spec fn is_num_char(c: char) -> bool {
    is_digit_char(c) || c == '.'
}

/// Whitespace the lexer discards.
pub open spec fn is_space_char(c: char) -> bool {
    c == ' ' || c == '\n' || c == '\t' || c == '\r'
}

pub fn is_integer(val: &char) -> (r: bool)
    ensures
        r == is_digit_char(*val),
{
    match *val {
        '0' | '1' | '2' | '3' | '4' | '5' | '6' | '7' | '8' | '9' => true,
        _ => false,
    }
}

pub fn is_skipabble(val: &char) -> (r: bool)
    ensures
        r == is_space_char(*val),
{
    match *val {
        ' ' | '\n' | '\t' | '\r' => true,
        _ => false,
    }
}

fn is_alphabetic(val: char) -> (r: bool)
    ensures
        r == is_alpha_char(val),
{
    ('a' <= val && val <= 'z') || ('A' <= val && val <= 'Z')
}

/// Length of the maximal identifier run at the front of the text.
pub open spec fn ident_run(s: Seq<char>) -> nat
    decreases s.len(),
{
    if s.len() > 0 && is_alnum_char(s[0]) {
        (1 + ident_run(s.subrange(1, s.len() as int))) as nat
    } else {
        0
    }
}

/// Length of the maximal number run at the front of the text.
pub open spec fn number_run(s: Seq<char>) -> nat
    decreases s.len(),
{
    if s.len() > 0 && is_num_char(s[0]) {
        (1 + number_run(s.subrange(1, s.len() as int))) as nat
    } else {
        0
    }
}

/// Occurrences of a character in a text.
pub open spec fn count_char(s: Seq<char>, c: char) -> nat
    decreases s.len(),
{
    if s.len() == 0 {
        0
    } else {
        (if s[0] == c {
            1nat
        } else {
            0nat
        }) + count_char(s.subrange(1, s.len() as int), c)
    }
}

/// A token list in front of the rest of a lexing outcome.
pub open spec fn prepend_token(t: TokenModel, rest: Option<Seq<TokenModel>>) -> Option<
    Seq<TokenModel>,
> {
    match rest {
        Some(ts) => Some(seq![t] + ts),
        None => None,
    }
}

/// The sentinel appended after the last real token.
pub open spec fn eof_token_model() -> TokenModel {
    TokenModel { token_type: TokenType::EOF, text: "EndOfFile"@ }
}

/// What the lexer produces on the whole text, or nothing when the text
/// holds a character the language does not know, or a number with a
/// second decimal point (§4.1).
pub open spec fn spec_tokenise(s: Seq<char>) -> Option<Seq<TokenModel>>
    decreases s.len(),
    via spec_tokenise_decreases
{
    if s.len() == 0 {
        Some(seq![eof_token_model()])
    } else {
        let c = s[0];
        let rest1 = s.subrange(1, s.len() as int);
        if c == '(' {
            prepend_token(
                TokenModel { token_type: TokenType::OpenParen, text: "("@ },
                spec_tokenise(rest1),
            )
        } else if c == ')' {
            prepend_token(
                TokenModel { token_type: TokenType::ClosedParen, text: ")"@ },
                spec_tokenise(rest1),
            )
        } else if c == ';' {
            prepend_token(
                TokenModel { token_type: TokenType::SemiColon, text: ";"@ },
                spec_tokenise(rest1),
            )
        } else if c == ':' {
            prepend_token(
                TokenModel { token_type: TokenType::Colon, text: ":"@ },
                spec_tokenise(rest1),
            )
        } else if c == '"' {
            prepend_token(
                TokenModel { token_type: TokenType::DoubleQuote, text: "\""@ },
                spec_tokenise(rest1),
            )
        } else if c == '\'' {
            prepend_token(
                TokenModel { token_type: TokenType::SingleQuote, text: "'"@ },
                spec_tokenise(rest1),
            )
        } else if c == '!' {
            if s.len() >= 3 && s[1] == '=' && s[2] == '=' {
                prepend_token(
                    TokenModel { token_type: TokenType::Inequality, text: "!=="@ },
                    spec_tokenise(s.subrange(3, s.len() as int)),
                )
            } else {
                prepend_token(
                    TokenModel { token_type: TokenType::Not, text: "!"@ },
                    spec_tokenise(rest1),
                )
            }
        } else if c == '=' {
            if s.len() >= 3 && s[1] == '=' && s[2] == '=' {
                prepend_token(
                    TokenModel { token_type: TokenType::Equality, text: "==="@ },
                    spec_tokenise(s.subrange(3, s.len() as int)),
                )
            } else {
                prepend_token(
                    TokenModel { token_type: TokenType::Equals, text: "="@ },
                    spec_tokenise(rest1),
                )
            }
        } else if c == '+' {
            if s.len() >= 2 && s[1] == '+' {
                prepend_token(
                    TokenModel { token_type: TokenType::Increment, text: "++"@ },
                    spec_tokenise(s.subrange(2, s.len() as int)),
                )
            } else {
                prepend_token(
                    TokenModel { token_type: TokenType::BinaryOperator, text: "+"@ },
                    spec_tokenise(rest1),
                )
            }
        } else if c == '-' {
            if s.len() >= 2 && s[1] == '-' {
                prepend_token(
                    TokenModel { token_type: TokenType::Decrement, text: "--"@ },
                    spec_tokenise(s.subrange(2, s.len() as int)),
                )
            } else {
                prepend_token(
                    TokenModel { token_type: TokenType::BinaryOperator, text: "-"@ },
                    spec_tokenise(rest1),
                )
            }
        } else if c == '*' {
            prepend_token(
                TokenModel { token_type: TokenType::BinaryOperator, text: "*"@ },
                spec_tokenise(rest1),
            )
        } else if c == '/' {
            prepend_token(
                TokenModel { token_type: TokenType::BinaryOperator, text: "/"@ },
                spec_tokenise(rest1),
            )
        } else if c == '%' {
            prepend_token(
                TokenModel { token_type: TokenType::BinaryOperator, text: "%"@ },
                spec_tokenise(rest1),
            )
        } else if is_digit_char(c) {
            let run = number_run(s);
            let w = s.subrange(0, run as int);
            if count_char(w, '.') <= 1 {
                prepend_token(
                    TokenModel { token_type: TokenType::Number, text: w },
                    spec_tokenise(s.subrange(run as int, s.len() as int)),
                )
            } else {
                None
            }
        } else if is_alpha_char(c) {
            let run = ident_run(s);
            let w = s.subrange(0, run as int);
            match keyword_type(w) {
                Some(t) => prepend_token(
                    TokenModel { token_type: t, text: w },
                    spec_tokenise(s.subrange(run as int, s.len() as int)),
                ),
                None => prepend_token(
                    TokenModel { token_type: TokenType::Identifier, text: w },
                    spec_tokenise(s.subrange(run as int, s.len() as int)),
                ),
            }
        } else if is_space_char(c) {
            spec_tokenise(rest1)
        } else {
            None
        }
    }
}

#[via_fn]
proof fn spec_tokenise_decreases(s: Seq<char>) {
    if s.len() > 0 {
        lemma_runs_bounded(s);
    }
}

/// The maximal runs never reach past the end of the text and cover at
/// least the first character when it fits.
pub proof fn lemma_runs_bounded(s: Seq<char>)
    ensures
        ident_run(s) <= s.len(),
        number_run(s) <= s.len(),
        s.len() > 0 && is_alnum_char(s[0]) ==> ident_run(s) >= 1,
        s.len() > 0 && is_num_char(s[0]) ==> number_run(s) >= 1,
    decreases s.len(),
{
    if s.len() > 0 {
        lemma_runs_bounded(s.subrange(1, s.len() as int));
    }
}

/// A run is exactly the first stretch of matching characters.
proof fn lemma_ident_run_is(s: Seq<char>, k: int)
    requires
        0 <= k <= s.len(),
        forall|m: int| 0 <= m < k ==> is_alnum_char(s[m]),
        k == s.len() || !is_alnum_char(s[k]),
    ensures
        ident_run(s) == k,
    decreases k,
{
    let rest = s.subrange(1, s.len() as int);
    if k == 0 {
    } else {
        assert(is_alnum_char(s[0]));
        assert forall|m: int| 0 <= m < k - 1 implies is_alnum_char(rest[m]) by {
            assert(rest[m] == s[m + 1]);
        }
        if k - 1 < rest.len() {
            assert(rest[k - 1] == s[k]);
        }
        lemma_ident_run_is(rest, k - 1);
    }
}

proof fn lemma_number_run_is(s: Seq<char>, k: int)
    requires
        0 <= k <= s.len(),
        forall|m: int| 0 <= m < k ==> is_num_char(s[m]),
        k == s.len() || !is_num_char(s[k]),
    ensures
        number_run(s) == k,
    decreases k,
{
    let rest = s.subrange(1, s.len() as int);
    if k == 0 {
    } else {
        assert(is_num_char(s[0]));
        assert forall|m: int| 0 <= m < k - 1 implies is_num_char(rest[m]) by {
            assert(rest[m] == s[m + 1]);
        }
        if k - 1 < rest.len() {
            assert(rest[k - 1] == s[k]);
        }
        lemma_number_run_is(rest, k - 1);
    }
}

/// A run covers every leading stretch of matching characters.
proof fn lemma_number_run_at_least(s: Seq<char>, k: int)
    requires
        0 <= k <= s.len(),
        forall|m: int| 0 <= m < k ==> is_num_char(s[m]),
    ensures
        number_run(s) >= k,
    decreases k,
{
    let rest = s.subrange(1, s.len() as int);
    if k > 0 {
        assert(is_num_char(s[0]));
        assert forall|m: int| 0 <= m < k - 1 implies is_num_char(rest[m]) by {
            assert(rest[m] == s[m + 1]);
        }
        lemma_number_run_at_least(rest, k - 1);
    }
}

/// A character seen at an index counts at least once.
proof fn lemma_count_char_one(s: Seq<char>, a: int, c: char)
    requires
        0 <= a < s.len(),
        s[a] == c,
    ensures
        count_char(s, c) >= 1,
    decreases a,
{
    if a > 0 {
        let rest = s.subrange(1, s.len() as int);
        assert(rest[a - 1] == s[a]);
        lemma_count_char_one(rest, a - 1, c);
    }
}

/// A character seen at two indices counts at least twice.
proof fn lemma_count_char_two(s: Seq<char>, a: int, b: int, c: char)
    requires
        0 <= a < b < s.len(),
        s[a] == c,
        s[b] == c,
    ensures
        count_char(s, c) >= 2,
    decreases a,
{
    let rest = s.subrange(1, s.len() as int);
    if a == 0 {
        assert(rest[b - 1] == s[b]);
        lemma_count_char_one(rest, b - 1, c);
    } else {
        assert(rest[a - 1] == s[a]);
        assert(rest[b - 1] == s[b]);
        lemma_count_char_two(rest, a - 1, b - 1, c);
    }
}

/// Appending one character adjusts the count by at most one.
proof fn lemma_count_char_push(s: Seq<char>, x: char, c: char)
    ensures
        count_char(s.push(x), c) == count_char(s, c) + (if x == c {
            1int
        } else {
            0int
        }),
    decreases s.len(),
{
    let pushed = s.push(x);
    if s.len() == 0 {
        assert(pushed[0] == x);
        assert(pushed.subrange(1, pushed.len() as int) =~= Seq::<char>::empty());
        assert(count_char(Seq::<char>::empty(), c) == 0);
        assert(count_char(pushed, c) == (if x == c {
            1int
        } else {
            0int
        }));
    } else {
        assert(pushed[0] == s[0]);
        assert(pushed.subrange(1, pushed.len() as int) =~= s.subrange(1, s.len() as int).push(x));
        lemma_count_char_push(s.subrange(1, s.len() as int), x, c);
    }
}

/// View of a whole token list, element by element.
pub open spec fn tokens_view(ts: Seq<Token>) -> Seq<TokenModel>
    decreases ts,
{
    if ts.len() == 0 {
        Seq::empty()
    } else {
        tokens_view(ts.subrange(0, ts.len() - 1)).push(ts[ts.len() - 1]@)
    }
}

/// The token-list view is pointwise the tokens' views.
pub proof fn lemma_tokens_view(ts: Seq<Token>)
    ensures
        tokens_view(ts).len() == ts.len(),
        forall|i: int| 0 <= i < ts.len() ==> tokens_view(ts)[i] == ts[i]@,
    decreases ts.len(),
{
    if ts.len() > 0 {
        let prefix = ts.subrange(0, ts.len() - 1);
        assert(tokens_view(ts) == tokens_view(prefix).push(ts[ts.len() - 1]@));
        lemma_tokens_view(prefix);
        assert forall|i: int| 0 <= i < ts.len() implies tokens_view(ts)[i] == ts[i]@ by {
            if i < ts.len() - 1 {
                assert(prefix[i] == ts[i]);
                assert(tokens_view(ts)[i] == tokens_view(prefix)[i]);
            } else {
                assert(tokens_view(ts)[i] == ts[ts.len() - 1]@);
            }
        }
    }
}

proof fn lemma_tokens_view_push(ts: Seq<Token>, t: Token)
    ensures
        tokens_view(ts.push(t)) == tokens_view(ts).push(t@),
{
    let pushed = ts.push(t);
    assert(pushed.subrange(0, pushed.len() - 1) =~= ts);
    assert(tokens_view(pushed) == tokens_view(pushed.subrange(0, pushed.len() - 1)).push(
        pushed[pushed.len() - 1]@,
    ));
}

/// Token lists prepended to a lexing outcome.
pub open spec fn prepend_tokens(ts: Seq<TokenModel>, rest: Option<Seq<TokenModel>>) -> Option<
    Seq<TokenModel>,
> {
    match rest {
        Some(r) => Some(ts + r),
        None => None,
    }
}

proof fn lemma_prepend_step(
    ts: Seq<TokenModel>,
    t: TokenModel,
    rest: Option<Seq<TokenModel>>,
)
    ensures
        prepend_tokens(ts, prepend_token(t, rest)) == prepend_tokens(ts.push(t), rest),
{
    match rest {
        Some(r) => {
            assert(ts + (seq![t] + r) =~= ts.push(t) + r);
        },
        None => {},
    }
}


/// Scans the maximal run of digits and points from `i`; fails when the
/// run holds a second decimal point.
fn scan_number(source_code: &str, i: usize) -> (r: Result<usize, String>)
    requires
        i < source_code@.len(),
    ensures
        ({
            let s = source_code@;
            match r {
                Ok(j) => i <= j <= s.len() && (forall|m: int| i <= m < j ==> is_num_char(s[m]))
                    && (j == s.len() || !is_num_char(s[j as int])) && count_char(
                    s.subrange(i as int, j as int),
                    '.',
                ) <= 1,
                Err(_) => count_char(
                    s.subrange(
                        i as int,
                        i + number_run(s.subrange(i as int, s.len() as int)),
                    ),
                    '.',
                ) >= 2,
            }
        }),
{
    let ghost s = source_code@;
    let n = source_code.unicode_len();
    let mut j = i;
    let mut allow_dot = true;
    loop
        invariant
            i <= j <= n,
            n == s.len(),
            s == source_code@,
            forall|m: int| i <= m < j ==> is_num_char(s[m]),
            count_char(s.subrange(i as int, j as int), '.') == (if allow_dot {
                0int
            } else {
                1int
            }),
        ensures
            i <= j <= n,
            forall|m: int| i <= m < j ==> is_num_char(s[m]),
            count_char(s.subrange(i as int, j as int), '.') <= 1,
            j == n || !is_num_char(s[j as int]),
        decreases n - j,
    {
        if j >= n {
            break ;
        }
        let cj = source_code.get_char(j);
        if !(is_integer(&cj) || cj == '.') {
            break ;
        }
        if cj == '.' {
            if !allow_dot {
                proof {
                    let suffix = s.subrange(i as int, n as int);
                    assert forall|m: int| 0 <= m < j - i + 1 implies is_num_char(
                        suffix[m],
                    ) by {
                        assert(suffix[m] == s[i + m]);
                    }
                    lemma_number_run_at_least(suffix, j - i + 1);
                    lemma_runs_bounded(suffix);
                    let run = number_run(suffix);
                    let w = suffix.subrange(0, run as int);
                    lemma_count_char_exists(s.subrange(i as int, j as int), '.');
                    let d0 = choose|d: int|
                        0 <= d < j - i && #[trigger] s.subrange(i as int, j as int)[d] == '.';
                    assert(w[d0] == suffix[d0]);
                    assert(suffix[d0] == s[i + d0]);
                    assert(w[j - i] == suffix[j - i]);
                    assert(suffix[j - i] == s[j as int]);
                    lemma_count_char_two(w, d0, j - i, '.');
                    assert(w =~= s.subrange(i as int, i + run));
                }
                return Err(String::from_str("unexpected \".\" found in number"));
            }
            allow_dot = false;
        }
        proof {
            assert(s.subrange(i as int, j as int + 1) =~= s.subrange(i as int, j as int).push(
                s[j as int],
            ));
            lemma_count_char_push(s.subrange(i as int, j as int), s[j as int], '.');
        }
        j += 1;
    }
    Ok(j)
}

/// Scans the maximal run of letters and digits from `i`.
fn scan_identifier(source_code: &str, i: usize) -> (j: usize)
    requires
        i <= source_code@.len(),
    ensures
        ({
            let s = source_code@;
            i <= j <= s.len() && (forall|m: int| i <= m < j ==> is_alnum_char(s[m])) && (j
                == s.len() || !is_alnum_char(s[j as int]))
        }),
{
    let ghost s = source_code@;
    let n = source_code.unicode_len();
    let mut j = i;
    loop
        invariant
            i <= j <= n,
            n == s.len(),
            s == source_code@,
            forall|m: int| i <= m < j ==> is_alnum_char(s[m]),
        ensures
            i <= j <= n,
            forall|m: int| i <= m < j ==> is_alnum_char(s[m]),
            j == n || !is_alnum_char(s[j as int]),
        decreases n - j,
    {
        if j >= n {
            break ;
        }
        let cj = source_code.get_char(j);
        if !(is_alphabetic(cj) || is_integer(&cj)) {
            break ;
        }
        j += 1;
    }
    j
}

/// Tokenization, §4.1: source text in, token list out, always ending in
/// an end-of-stream token; an unknown character or a second decimal
/// point in one number is a lexing error.
#[verifier::loop_isolation(false)]
#[verifier::rlimit(100)]
pub fn tokenise(source_code: &str) -> (r: Result<Vec<Token>, String>)
    ensures
        match r {
            Ok(tokens) => Some(tokens_view(tokens@)) == spec_tokenise(source_code@),
            Err(_) => spec_tokenise(source_code@) is None,
        },
{
    let ghost s = source_code@;
    let n = source_code.unicode_len();
    let mut tokens: Vec<Token> = Vec::new();
    let mut i: usize = 0;
    proof {
        assert(s.subrange(0, n as int) =~= s);
        assert(tokens_view(tokens@) =~= Seq::<TokenModel>::empty());
        match spec_tokenise(s) {
            Some(r0) => {
                assert(Seq::<TokenModel>::empty() + r0 =~= r0);
            },
            None => {},
        }
    }
    while i < n
        invariant
            s == source_code@,
            n == s.len(),
            i <= n,
            spec_tokenise(s) == prepend_tokens(
                tokens_view(tokens@),
                spec_tokenise(s.subrange(i as int, n as int)),
            ),
        decreases n - i,
    {
        let ghost suffix = s.subrange(i as int, n as int);
        let ghost before = tokens@;
        proof {
            assert(suffix[0] == s[i as int]);
            assert(suffix.subrange(1, suffix.len() as int) =~= s.subrange(i as int + 1, n as int));
        }
        let c = source_code.get_char(i);
        if c == '(' {
            tokens.push(Token::create(TokenType::OpenParen, String::from_str("(")));
            i += 1;
            proof {
                lemma_tokens_view_push(before, tokens@[tokens@.len() - 1]);
                lemma_prepend_step(
                    tokens_view(before),
                    TokenModel { token_type: TokenType::OpenParen, text: "("@ },
                    spec_tokenise(s.subrange(i as int, n as int)),
                );
            }
        } else if c == ')' {
            tokens.push(Token::create(TokenType::ClosedParen, String::from_str(")")));
            i += 1;
            proof {
                lemma_tokens_view_push(before, tokens@[tokens@.len() - 1]);
                lemma_prepend_step(
                    tokens_view(before),
                    TokenModel { token_type: TokenType::ClosedParen, text: ")"@ },
                    spec_tokenise(s.subrange(i as int, n as int)),
                );
            }
        } else if c == ';' {
            tokens.push(Token::create(TokenType::SemiColon, String::from_str(";")));
            i += 1;
            proof {
                lemma_tokens_view_push(before, tokens@[tokens@.len() - 1]);
                lemma_prepend_step(
                    tokens_view(before),
                    TokenModel { token_type: TokenType::SemiColon, text: ";"@ },
                    spec_tokenise(s.subrange(i as int, n as int)),
                );
            }
        } else if c == ':' {
            tokens.push(Token::create(TokenType::Colon, String::from_str(":")));
            i += 1;
            proof {
                lemma_tokens_view_push(before, tokens@[tokens@.len() - 1]);
                lemma_prepend_step(
                    tokens_view(before),
                    TokenModel { token_type: TokenType::Colon, text: ":"@ },
                    spec_tokenise(s.subrange(i as int, n as int)),
                );
            }
        } else if c == '"' {
            tokens.push(Token::create(TokenType::DoubleQuote, String::from_str("\"")));
            i += 1;
            proof {
                lemma_tokens_view_push(before, tokens@[tokens@.len() - 1]);
                lemma_prepend_step(
                    tokens_view(before),
                    TokenModel { token_type: TokenType::DoubleQuote, text: "\""@ },
                    spec_tokenise(s.subrange(i as int, n as int)),
                );
            }
        } else if c == '\'' {
            tokens.push(Token::create(TokenType::SingleQuote, String::from_str("'")));
            i += 1;
            proof {
                lemma_tokens_view_push(before, tokens@[tokens@.len() - 1]);
                lemma_prepend_step(
                    tokens_view(before),
                    TokenModel { token_type: TokenType::SingleQuote, text: "'"@ },
                    spec_tokenise(s.subrange(i as int, n as int)),
                );
            }
        } else if c == '!' {
            if n - i > 2 && source_code.get_char(i + 1) == '=' && source_code.get_char(i + 2)
                == '=' {
                proof {
                    assert(suffix.len() >= 3 && suffix[1] == '=' && suffix[2] == '=');
                    assert(suffix.subrange(3, suffix.len() as int) =~= s.subrange(
                        i as int + 3,
                        n as int,
                    ));
                }
                tokens.push(Token::create(TokenType::Inequality, String::from_str("!==")));
                i += 3;
                proof {
                    lemma_tokens_view_push(before, tokens@[tokens@.len() - 1]);
                    lemma_prepend_step(
                        tokens_view(before),
                        TokenModel { token_type: TokenType::Inequality, text: "!=="@ },
                        spec_tokenise(s.subrange(i as int, n as int)),
                    );
                }
            } else {
                proof {
                    assert(!(suffix.len() >= 3 && suffix[1] == '=' && suffix[2] == '='));
                }
                tokens.push(Token::create(TokenType::Not, String::from_str("!")));
                i += 1;
                proof {
                    lemma_tokens_view_push(before, tokens@[tokens@.len() - 1]);
                    lemma_prepend_step(
                        tokens_view(before),
                        TokenModel { token_type: TokenType::Not, text: "!"@ },
                        spec_tokenise(s.subrange(i as int, n as int)),
                    );
                }
            }
        } else if c == '=' {
            if n - i > 2 && source_code.get_char(i + 1) == '=' && source_code.get_char(i + 2)
                == '=' {
                proof {
                    assert(suffix.len() >= 3 && suffix[1] == '=' && suffix[2] == '=');
                    assert(suffix.subrange(3, suffix.len() as int) =~= s.subrange(
                        i as int + 3,
                        n as int,
                    ));
                }
                tokens.push(Token::create(TokenType::Equality, String::from_str("===")));
                i += 3;
                proof {
                    lemma_tokens_view_push(before, tokens@[tokens@.len() - 1]);
                    lemma_prepend_step(
                        tokens_view(before),
                        TokenModel { token_type: TokenType::Equality, text: "==="@ },
                        spec_tokenise(s.subrange(i as int, n as int)),
                    );
                }
            } else {
                proof {
                    assert(!(suffix.len() >= 3 && suffix[1] == '=' && suffix[2] == '='));
                }
                tokens.push(Token::create(TokenType::Equals, String::from_str("=")));
                i += 1;
                proof {
                    lemma_tokens_view_push(before, tokens@[tokens@.len() - 1]);
                    lemma_prepend_step(
                        tokens_view(before),
                        TokenModel { token_type: TokenType::Equals, text: "="@ },
                        spec_tokenise(s.subrange(i as int, n as int)),
                    );
                }
            }
        } else if c == '+' {
            if i + 1 < n && source_code.get_char(i + 1) == '+' {
                proof {
                    assert(suffix.len() >= 2 && suffix[1] == '+');
                    assert(suffix.subrange(2, suffix.len() as int) =~= s.subrange(
                        i as int + 2,
                        n as int,
                    ));
                }
                tokens.push(Token::create(TokenType::Increment, String::from_str("++")));
                i += 2;
                proof {
                    lemma_tokens_view_push(before, tokens@[tokens@.len() - 1]);
                    lemma_prepend_step(
                        tokens_view(before),
                        TokenModel { token_type: TokenType::Increment, text: "++"@ },
                        spec_tokenise(s.subrange(i as int, n as int)),
                    );
                }
            } else {
                proof {
                    assert(!(suffix.len() >= 2 && suffix[1] == '+'));
                }
                tokens.push(Token::create(TokenType::BinaryOperator, String::from_str("+")));
                i += 1;
                proof {
                    lemma_tokens_view_push(before, tokens@[tokens@.len() - 1]);
                    lemma_prepend_step(
                        tokens_view(before),
                        TokenModel { token_type: TokenType::BinaryOperator, text: "+"@ },
                        spec_tokenise(s.subrange(i as int, n as int)),
                    );
                }
            }
        } else if c == '-' {
            if i + 1 < n && source_code.get_char(i + 1) == '-' {
                proof {
                    assert(suffix.len() >= 2 && suffix[1] == '-');
                    assert(suffix.subrange(2, suffix.len() as int) =~= s.subrange(
                        i as int + 2,
                        n as int,
                    ));
                }
                tokens.push(Token::create(TokenType::Decrement, String::from_str("--")));
                i += 2;
                proof {
                    lemma_tokens_view_push(before, tokens@[tokens@.len() - 1]);
                    lemma_prepend_step(
                        tokens_view(before),
                        TokenModel { token_type: TokenType::Decrement, text: "--"@ },
                        spec_tokenise(s.subrange(i as int, n as int)),
                    );
                }
            } else {
                proof {
                    assert(!(suffix.len() >= 2 && suffix[1] == '-'));
                }
                tokens.push(Token::create(TokenType::BinaryOperator, String::from_str("-")));
                i += 1;
                proof {
                    lemma_tokens_view_push(before, tokens@[tokens@.len() - 1]);
                    lemma_prepend_step(
                        tokens_view(before),
                        TokenModel { token_type: TokenType::BinaryOperator, text: "-"@ },
                        spec_tokenise(s.subrange(i as int, n as int)),
                    );
                }
            }
        } else if c == '*' {
            tokens.push(Token::create(TokenType::BinaryOperator, String::from_str("*")));
            i += 1;
            proof {
                lemma_tokens_view_push(before, tokens@[tokens@.len() - 1]);
                lemma_prepend_step(
                    tokens_view(before),
                    TokenModel { token_type: TokenType::BinaryOperator, text: "*"@ },
                    spec_tokenise(s.subrange(i as int, n as int)),
                );
            }
        } else if c == '/' {
            tokens.push(Token::create(TokenType::BinaryOperator, String::from_str("/")));
            i += 1;
            proof {
                lemma_tokens_view_push(before, tokens@[tokens@.len() - 1]);
                lemma_prepend_step(
                    tokens_view(before),
                    TokenModel { token_type: TokenType::BinaryOperator, text: "/"@ },
                    spec_tokenise(s.subrange(i as int, n as int)),
                );
            }
        } else if c == '%' {
            tokens.push(Token::create(TokenType::BinaryOperator, String::from_str("%")));
            i += 1;
            proof {
                lemma_tokens_view_push(before, tokens@[tokens@.len() - 1]);
                lemma_prepend_step(
                    tokens_view(before),
                    TokenModel { token_type: TokenType::BinaryOperator, text: "%"@ },
                    spec_tokenise(s.subrange(i as int, n as int)),
                );
            }
        } else if is_integer(&c) {
            let j = match scan_number(source_code, i) {
                Ok(j) => j,
                Err(m) => {
                    proof {
                        lemma_runs_bounded(suffix);
                        assert(suffix.subrange(
                            0,
                            number_run(suffix) as int,
                        ) =~= s.subrange(i as int, i + number_run(s.subrange(i as int, n as int))));
                    }
                    return Err(m);
                },
            };
            proof {
                let run = number_run(suffix);
                assert forall|m: int| 0 <= m < j - i implies is_num_char(suffix[m]) by {
                    assert(suffix[m] == s[i + m]);
                }
                if j < n {
                    assert(suffix[j - i] == s[j as int]);
                }
                lemma_number_run_is(suffix, j - i);
                assert(run == j - i);
                assert(suffix.subrange(0, run as int) =~= s.subrange(i as int, j as int));
                assert(suffix.subrange(run as int, suffix.len() as int) =~= s.subrange(
                    j as int,
                    n as int,
                ));
            }
            let word = source_code.substring_char(i, j).to_owned();
            tokens.push(Token::create(TokenType::Number, word));
            proof {
                lemma_tokens_view_push(before, tokens@[tokens@.len() - 1]);
                lemma_prepend_step(
                    tokens_view(before),
                    TokenModel {
                        token_type: TokenType::Number,
                        text: s.subrange(i as int, j as int),
                    },
                    spec_tokenise(s.subrange(j as int, n as int)),
                );
            }
            i = j;
        } else if is_alphabetic(c) {
            let j = scan_identifier(source_code, i);
            proof {
                let run = ident_run(suffix);
                assert forall|m: int| 0 <= m < j - i implies is_alnum_char(suffix[m]) by {
                    assert(suffix[m] == s[i + m]);
                }
                if j < n {
                    assert(suffix[j - i] == s[j as int]);
                }
                lemma_ident_run_is(suffix, j - i);
                assert(run == j - i);
                assert(suffix.subrange(0, run as int) =~= s.subrange(i as int, j as int));
                assert(suffix.subrange(run as int, suffix.len() as int) =~= s.subrange(
                    j as int,
                    n as int,
                ));
            }
            let word = source_code.substring_char(i, j);
            let token = match create_reserved(word) {
                Ok(t) => t,
                Err(_) => Token::create(TokenType::Identifier, word.to_owned()),
            };
            tokens.push(token);
            proof {
                lemma_tokens_view_push(before, tokens@[tokens@.len() - 1]);
                lemma_prepend_step(
                    tokens_view(before),
                    tokens@[tokens@.len() - 1]@,
                    spec_tokenise(s.subrange(j as int, n as int)),
                );
            }
            i = j;
        } else if is_skipabble(&c) {
            i += 1;
        } else {
            return Err(String::from_str("unknown character detected in tokeniser in source"));
        }
    }
    proof {
        assert(s.subrange(i as int, n as int) =~= Seq::<char>::empty());
    }
    let ghost before = tokens@;
    tokens.push(Token::create(TokenType::EOF, String::from_str("EndOfFile")));
    proof {
        lemma_tokens_view_push(before, tokens@[tokens@.len() - 1]);
        assert(tokens_view(before) + seq![eof_token_model()] =~= tokens_view(before).push(
            eof_token_model(),
        ));
    }
    Ok(tokens)
}

/// A positive count names at least one index holding the character.
proof fn lemma_count_char_exists(s: Seq<char>, c: char)
    requires
        count_char(s, c) >= 1,
    ensures
        exists|d: int| 0 <= d < s.len() && s[d] == c,
    decreases s.len(),
{
    if s.len() > 0 {
        if s[0] == c {
        } else {
            lemma_count_char_exists(s.subrange(1, s.len() as int), c);
            let d0 = choose|d: int|
                0 <= d < s.len() - 1 && #[trigger] s.subrange(1, s.len() as int)[d] == c;
            assert(s[d0 + 1] == c);
        }
    }
}

} // verus!
