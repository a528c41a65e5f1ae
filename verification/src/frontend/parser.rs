use vstd::prelude::*;
use vstd::string::*;

use crate::frontend::ast;
use crate::frontend::ast::{lemma_stmts_view, stmts_view, ExprModel, StmtModel};
use crate::frontend::lexer;
use crate::frontend::lexer::{
    lemma_tokens_view, spec_tokenise, tokens_view, Token, TokenModel, TokenType,
};
use crate::text::{has_char, str_contains_char, str_eq};

verus! {

/// A surface type name usable in an annotation: one of the 15 scalar
/// kinds (§4.2).
pub open spec fn is_type_name(w: Seq<char>) -> bool {
    w == "i8"@ || w == "i16"@ || w == "i32"@ || w == "i64"@ || w == "i128"@ || w == "u8"@ || w
        == "u16"@ || w == "u32"@ || w == "u64"@ || w == "u128"@ || w == "f32"@ || w == "f64"@ || w
        == "char"@ || w == "str"@ || w == "bool"@
}

fn type_name_ok(w: &str) -> (r: bool)
    ensures
        r == is_type_name(w@),
{
    str_eq(w, "i8") || str_eq(w, "i16") || str_eq(w, "i32") || str_eq(w, "i64") || str_eq(
        w,
        "i128",
    ) || str_eq(w, "u8") || str_eq(w, "u16") || str_eq(w, "u32") || str_eq(w, "u64") || str_eq(
        w,
        "u128",
    ) || str_eq(w, "f32") || str_eq(w, "f64") || str_eq(w, "char") || str_eq(w, "str") || str_eq(
        w,
        "bool",
    )
}

/// A token that may stand after `:` as a type annotation: an identifier
/// naming a scalar kind, or one of the keyword tokens `bool`, `str`,
/// `char`.
pub open spec fn is_annotation_token(t: TokenModel) -> bool {
    (t.token_type is Identifier && is_type_name(t.text)) || t.token_type is Boolean
        || t.token_type is Str || t.token_type is Character
}

/// Primary production: identifier, number literal, or a parenthesized
/// expression (§4.2).
pub open spec fn spec_parse_primary(ts: Seq<TokenModel>) -> Option<(ExprModel, Seq<TokenModel>)>
    decreases ts.len(), 0int,
{
    if ts.len() == 0 {
        None
    } else {
        let t = ts[0];
        let rest = ts.subrange(1, ts.len() as int);
        if t.token_type is Identifier {
            Some((ExprModel::Identifier { symbol: t.text }, rest))
        } else if t.token_type is Number {
            if has_char(t.text, '.') {
                Some((ExprModel::FloatLit { text: t.text }, rest))
            } else {
                Some((ExprModel::IntegerLit { text: t.text }, rest))
            }
        } else if t.token_type is OpenParen {
            match spec_parse_expression(rest) {
                Some((e, rest2)) => if rest2.len() > 0 && rest2[0].token_type is ClosedParen {
                    Some((e, rest2.subrange(1, rest2.len() as int)))
                } else {
                    None
                },
                None => None,
            }
        } else {
            None
        }
    }
}

/// Left-associative chain over `*`, `/` and `%`.
pub open spec fn spec_parse_mult_chain(left: ExprModel, ts: Seq<TokenModel>) -> Option<
    (ExprModel, Seq<TokenModel>),
>
    decreases ts.len(), 1int,
{
    if ts.len() > 0 && (ts[0].text == "*"@ || ts[0].text == "/"@ || ts[0].text == "%"@) {
        match spec_parse_primary(ts.subrange(1, ts.len() as int)) {
            Some((right, rest)) => if rest.len() < ts.len() {
                spec_parse_mult_chain(
                    ExprModel::Binary {
                        left: Box::new(left),
                        right: Box::new(right),
                        operator: ts[0].text,
                    },
                    rest,
                )
            } else {
                None
            },
            None => None,
        }
    } else {
        Some((left, ts))
    }
}

pub open spec fn spec_parse_multiplicative(ts: Seq<TokenModel>) -> Option<
    (ExprModel, Seq<TokenModel>),
>
    decreases ts.len(), 2int,
{
    match spec_parse_primary(ts) {
        Some((left, rest)) => if rest.len() <= ts.len() {
            spec_parse_mult_chain(left, rest)
        } else {
            None
        },
        None => None,
    }
}

/// Left-associative chain over `+` and `-`, binding looser than the
/// multiplicative operators.
pub open spec fn spec_parse_additive_chain(left: ExprModel, ts: Seq<TokenModel>) -> Option<
    (ExprModel, Seq<TokenModel>),
>
    decreases ts.len(), 3int,
{
    if ts.len() > 0 && (ts[0].text == "+"@ || ts[0].text == "-"@) {
        match spec_parse_multiplicative(ts.subrange(1, ts.len() as int)) {
            Some((right, rest)) => if rest.len() < ts.len() {
                spec_parse_additive_chain(
                    ExprModel::Binary {
                        left: Box::new(left),
                        right: Box::new(right),
                        operator: ts[0].text,
                    },
                    rest,
                )
            } else {
                None
            },
            None => None,
        }
    } else {
        Some((left, ts))
    }
}

pub open spec fn spec_parse_additive(ts: Seq<TokenModel>) -> Option<(ExprModel, Seq<TokenModel>)>
    decreases ts.len(), 4int,
{
    match spec_parse_multiplicative(ts) {
        Some((left, rest)) => if rest.len() <= ts.len() {
            spec_parse_additive_chain(left, rest)
        } else {
            None
        },
        None => None,
    }
}

/// Assignment binds loosest: an additive expression, optionally followed
/// by `=`, another additive expression and a terminating `;`.
pub open spec fn spec_parse_assignment(ts: Seq<TokenModel>) -> Option<(ExprModel, Seq<TokenModel>)>
    decreases ts.len(), 5int,
{
    match spec_parse_additive(ts) {
        Some((left, rest)) => if rest.len() > 0 && rest.len() <= ts.len()
            && rest[0].token_type is Equals {
            match spec_parse_additive(rest.subrange(1, rest.len() as int)) {
                Some((value, rest2)) => if rest2.len() > 0 && rest2[0].token_type is SemiColon {
                    Some(
                        (
                            ExprModel::Assignment {
                                assignee: Box::new(left),
                                value: Box::new(value),
                            },
                            rest2.subrange(1, rest2.len() as int),
                        ),
                    )
                } else {
                    None
                },
                None => None,
            }
        } else {
            Some((left, rest))
        },
        None => None,
    }
}

pub open spec fn spec_parse_expression(ts: Seq<TokenModel>) -> Option<(ExprModel, Seq<TokenModel>)>
    decreases ts.len(), 6int,
{
    spec_parse_assignment(ts)
}

/// The optional `: TYPE` part of a declaration.
pub open spec fn spec_parse_annotation(ts: Seq<TokenModel>) -> Option<
    (Option<Seq<char>>, Seq<TokenModel>),
> {
    if ts.len() > 0 && ts[0].token_type is Colon {
        if ts.len() >= 2 && is_annotation_token(ts[1]) {
            Some((Some(ts[1].text), ts.subrange(2, ts.len() as int)))
        } else {
            None
        }
    } else {
        Some((None, ts))
    }
}

/// Variable declaration: `(let|const) IDENTIFIER (":" TYPE)? ("="
/// EXPRESSION)? ";"`; a `const` without an initializer is refused, and a
/// `let` without one must end immediately in `;` (§4.2).
pub open spec fn spec_parse_variable_declaration(ts: Seq<TokenModel>) -> Option<
    (StmtModel, Seq<TokenModel>),
>
    decreases ts.len(), 7int,
{
    if ts.len() < 2 {
        None
    } else if !(ts[1].token_type is Identifier) {
        None
    } else {
        let constant = ts[0].token_type is Const;
        let name = ts[1].text;
        let rest = ts.subrange(2, ts.len() as int);
        if rest.len() > 0 && rest[0].token_type is SemiColon {
            if constant {
                None
            } else {
                Some(
                    (
                        StmtModel::Declaration {
                            constant: false,
                            identifier: name,
                            value: None,
                            annotation: None,
                        },
                        rest.subrange(1, rest.len() as int),
                    ),
                )
            }
        } else {
            match spec_parse_annotation(rest) {
                Some((annotation, rest2)) => if rest2.len() > 0 && rest2.len() <= rest.len()
                    && rest2[0].token_type is Equals {
                    match spec_parse_expression(rest2.subrange(1, rest2.len() as int)) {
                        Some((e, rest3)) => if rest3.len() > 0
                            && rest3[0].token_type is SemiColon {
                            Some(
                                (
                                    StmtModel::Declaration {
                                        constant,
                                        identifier: name,
                                        value: Some(e),
                                        annotation,
                                    },
                                    rest3.subrange(1, rest3.len() as int),
                                ),
                            )
                        } else {
                            None
                        },
                        None => None,
                    }
                } else {
                    None
                },
                None => None,
            }
        }
    }
}

/// One statement: a declaration after `let`/`const`, otherwise an
/// expression statement (with its optional terminating `;`).
pub open spec fn spec_parse_statement(ts: Seq<TokenModel>) -> Option<(StmtModel, Seq<TokenModel>)>
    decreases ts.len(), 8int,
{
    if ts.len() > 0 && (ts[0].token_type is Let || ts[0].token_type is Const) {
        spec_parse_variable_declaration(ts)
    } else {
        match spec_parse_expression(ts) {
            Some((e, rest)) => if rest.len() > 0 && rest[0].token_type is SemiColon {
                Some((StmtModel::Expr { expr: e }, rest.subrange(1, rest.len() as int)))
            } else {
                Some((StmtModel::Expr { expr: e }, rest))
            },
            None => None,
        }
    }
}

/// The whole program: statements until the end-of-stream token.
pub open spec fn spec_parse_program(ts: Seq<TokenModel>) -> Option<Seq<StmtModel>>
    decreases ts.len(), 9int,
{
    if ts.len() == 0 {
        None
    } else if ts[0].token_type is EOF {
        Some(Seq::empty())
    } else {
        match spec_parse_statement(ts) {
            Some((st, rest)) => if rest.len() < ts.len() {
                match spec_parse_program(rest) {
                    Some(sts) => Some(seq![st] + sts),
                    None => None,
                }
            } else {
                None
            },
            None => None,
        }
    }
}

/// Single-token-lookahead recursive-descent parser; consumes its token
/// list destructively and halts at the first error.
pub struct Parser {
    tokens: Vec<Token>,
}

impl View for Parser {
    type V = Seq<TokenModel>;

    closed spec fn view(&self) -> Seq<TokenModel> {
        tokens_view(self.tokens@)
    }
}

impl Parser {
    pub fn new() -> (r: Self)
        ensures
            r@ == Seq::<TokenModel>::empty(),
    {
        Parser { tokens: Vec::new() }
    }

    fn not_eof(&self) -> (r: bool)
        requires
            self@.len() > 0,
        ensures
            r == !(self@[0].token_type is EOF),
    {
        proof {
            lemma_tokens_view(self.tokens@);
        }
        match self.tokens[0].token_type {
            TokenType::EOF => false,
            _ => true,
        }
    }

    fn at(&self) -> (r: Token)
        requires
            self@.len() > 0,
        ensures
            r@ == self@[0],
    {
        proof {
            lemma_tokens_view(self.tokens@);
        }
        self.tokens[0].clone()
    }

    fn eat(&mut self) -> (r: Token)
        requires
            old(self)@.len() > 0,
        ensures
            r@ == old(self)@[0],
            final(self)@ == old(self)@.subrange(1, old(self)@.len() as int),
    {
        proof {
            lemma_tokens_view(self.tokens@);
        }
        let t = self.tokens.remove(0);
        proof {
            lemma_tokens_view(old(self).tokens@);
            lemma_tokens_view(self.tokens@);
            assert forall|i: int| 0 <= i < self.tokens@.len() implies self.tokens@[i] == old(
                self,
            ).tokens@[i + 1] by {
            }
            assert(self@ =~= old(self)@.subrange(1, old(self)@.len() as int));
        }
        t
    }

    fn expect(&mut self, token_type: TokenType) -> (r: Result<Token, TokenType>)
        requires
            old(self)@.len() > 0,
        ensures
            final(self)@ == old(self)@.subrange(1, old(self)@.len() as int),
            match r {
                Ok(t) => t@ == old(self)@[0] && old(self)@[0].token_type == token_type,
                Err(_) => !(old(self)@[0].token_type == token_type),
            },
    {
        let token = self.eat();
        if token.token_type == token_type {
            Ok(token)
        } else {
            Err(token.token_type)
        }
    }

    fn parse_primary_expression(&mut self) -> (r: Result<ast::Expression, String>)
        ensures
            match r {
                Ok(e) => spec_parse_primary(old(self)@) == Some((e@, final(self)@)) && final(self)@.len() < old(self)@.len(),
                Err(_) => spec_parse_primary(old(self)@) is None,
            },
        decreases old(self)@.len(), 0int,
    {
        if self.tokens.len() == 0 {
            proof {
                lemma_tokens_view(self.tokens@);
            }
            return Err(String::from_str("unexpected end of input during parsing"));
        }
        let token_type = self.at().token_type;
        match token_type {
            TokenType::Identifier => {
                let t = self.eat();
                Ok(ast::Expression::Identifier(ast::IdentifierExpression::create(t.value)))
            },
            TokenType::Number => {
                let t = self.eat();
                if str_contains_char(t.value.as_str(), '.') {
                    Ok(ast::Expression::Float(ast::FloatLiteral::create(t.value)))
                } else {
                    Ok(ast::Expression::Integer(ast::IntegerLiteral::create(t.value)))
                }
            },
            TokenType::OpenParen => {
                let _ = self.eat();
                let value = match self.parse_expression() {
                    Ok(e) => e,
                    Err(m) => {
                        return Err(m);
                    },
                };
                if self.tokens.len() == 0 {
                    proof {
                        lemma_tokens_view(self.tokens@);
                    }
                    return Err(String::from_str("expected closing parenthesis"));
                }
                proof {
                    lemma_tokens_view(self.tokens@);
                }
                match self.expect(TokenType::ClosedParen) {
                    Ok(_) => Ok(value),
                    Err(_) => Err(String::from_str("expected closing parenthesis")),
                }
            },
            _ => Err(String::from_str("unexpected token found during parsing")),
        }
    }

    fn parse_multiplicative_expression(&mut self) -> (r: Result<ast::Expression, String>)
        ensures
            match r {
                Ok(e) => spec_parse_multiplicative(old(self)@) == Some((e@, final(self)@)) && final(self)@.len() < old(self)@.len(),
                Err(_) => spec_parse_multiplicative(old(self)@) is None,
            },
        decreases old(self)@.len(), 2int,
    {
        let ghost ts0 = self@;
        let mut left = match self.parse_primary_expression() {
            Ok(e) => e,
            Err(m) => {
                return Err(m);
            },
        };
        loop
            invariant
                ts0 == old(self)@,
                self@.len() < ts0.len(),
                spec_parse_multiplicative(ts0) == spec_parse_mult_chain(left@, self@),
            ensures
                ts0 == old(self)@,
                self@.len() < ts0.len(),
                spec_parse_multiplicative(ts0) == spec_parse_mult_chain(left@, self@),
                !(self@.len() > 0 && (self@[0].text == "*"@ || self@[0].text == "/"@
                    || self@[0].text == "%"@)),
            decreases self@.len(),
        {
            if self.tokens.len() == 0 {
                proof {
                    lemma_tokens_view(self.tokens@);
                }
                break ;
            }
            let head = self.at();
            if !(str_eq(head.value.as_str(), "*") || str_eq(head.value.as_str(), "/") || str_eq(
                head.value.as_str(),
                "%",
            )) {
                break ;
            }
            proof {
                lemma_tokens_view(self.tokens@);
            }
            let operator = self.eat().value;
            let right = match self.parse_primary_expression() {
                Ok(e) => e,
                Err(m) => {
                    return Err(m);
                },
            };
            left = ast::Expression::Binary(
                Box::new(ast::BinaryExpression::create(left, right, operator)),
            );
        }
        proof {
            lemma_tokens_view(self.tokens@);
        }
        Ok(left)
    }

    fn parse_additive_expression(&mut self) -> (r: Result<ast::Expression, String>)
        ensures
            match r {
                Ok(e) => spec_parse_additive(old(self)@) == Some((e@, final(self)@)) && final(self)@.len() < old(self)@.len(),
                Err(_) => spec_parse_additive(old(self)@) is None,
            },
        decreases old(self)@.len(), 4int,
    {
        let ghost ts0 = self@;
        let mut left = match self.parse_multiplicative_expression() {
            Ok(e) => e,
            Err(m) => {
                return Err(m);
            },
        };
        loop
            invariant
                ts0 == old(self)@,
                self@.len() < ts0.len(),
                spec_parse_additive(ts0) == spec_parse_additive_chain(left@, self@),
            ensures
                ts0 == old(self)@,
                self@.len() < ts0.len(),
                spec_parse_additive(ts0) == spec_parse_additive_chain(left@, self@),
                !(self@.len() > 0 && (self@[0].text == "+"@ || self@[0].text == "-"@)),
            decreases self@.len(),
        {
            if self.tokens.len() == 0 {
                proof {
                    lemma_tokens_view(self.tokens@);
                }
                break ;
            }
            let head = self.at();
            if !(str_eq(head.value.as_str(), "+") || str_eq(head.value.as_str(), "-")) {
                break ;
            }
            proof {
                lemma_tokens_view(self.tokens@);
            }
            let operator = self.eat().value;
            let right = match self.parse_multiplicative_expression() {
                Ok(e) => e,
                Err(m) => {
                    return Err(m);
                },
            };
            left = ast::Expression::Binary(
                Box::new(ast::BinaryExpression::create(left, right, operator)),
            );
        }
        proof {
            lemma_tokens_view(self.tokens@);
        }
        Ok(left)
    }

    fn parse_assignment_expression(&mut self) -> (r: Result<ast::Expression, String>)
        ensures
            match r {
                Ok(e) => spec_parse_assignment(old(self)@) == Some((e@, final(self)@)) && final(self)@.len() < old(self)@.len(),
                Err(_) => spec_parse_assignment(old(self)@) is None,
            },
        decreases old(self)@.len(), 5int,
    {
        let left = match self.parse_additive_expression() {
            Ok(e) => e,
            Err(m) => {
                return Err(m);
            },
        };
        let followed_by_equals = self.tokens.len() > 0 && {
            proof {
                lemma_tokens_view(self.tokens@);
            }
            let t = self.at();
            match t.token_type {
                TokenType::Equals => true,
                _ => false,
            }
        };
        if followed_by_equals {
            let _ = self.eat();
            let value = match self.parse_additive_expression() {
                Ok(e) => e,
                Err(m) => {
                    return Err(m);
                },
            };
            if self.tokens.len() == 0 {
                proof {
                    lemma_tokens_view(self.tokens@);
                }
                return Err(String::from_str("assignment expressions must end with a semicolon"));
            }
            proof {
                lemma_tokens_view(self.tokens@);
            }
            match self.expect(TokenType::SemiColon) {
                Ok(_) => Ok(
                    ast::Expression::VariableAssignment(
                        Box::new(ast::VariableAssignmentExpression::create(left, value)),
                    ),
                ),
                Err(_) => Err(
                    String::from_str("assignment expressions must end with a semicolon"),
                ),
            }
        } else {
            proof {
                lemma_tokens_view(self.tokens@);
            }
            Ok(left)
        }
    }

    fn parse_expression(&mut self) -> (r: Result<ast::Expression, String>)
        ensures
            match r {
                Ok(e) => spec_parse_expression(old(self)@) == Some((e@, final(self)@)) && final(self)@.len() < old(self)@.len(),
                Err(_) => spec_parse_expression(old(self)@) is None,
            },
        decreases old(self)@.len(), 6int,
    {
        self.parse_assignment_expression()
    }

    fn parse_variable_declaration(&mut self) -> (r: Result<ast::Statement, String>)
        ensures
            match r {
                Ok(st) => spec_parse_variable_declaration(old(self)@) == Some(
                    (st@, final(self)@),
                ) && final(self)@.len() < old(self)@.len(),
                Err(_) => spec_parse_variable_declaration(old(self)@) is None,
            },
        decreases old(self)@.len(), 7int,
    {
        let ghost ts0 = self@;
        if self.tokens.len() < 2 {
            proof {
                lemma_tokens_view(self.tokens@);
            }
            return Err(String::from_str("incomplete variable declaration"));
        }
        proof {
            lemma_tokens_view(self.tokens@);
        }
        let first = self.eat();
        let is_constant = match first.token_type {
            TokenType::Const => true,
            _ => false,
        };
        let identifier = match self.expect(TokenType::Identifier) {
            Ok(t) => t.value,
            Err(_) => {
                return Err(
                    String::from_str(
                        "expected identifier name following the let or const keyword",
                    ),
                );
            },
        };
        proof {
            assert(self@ =~= ts0.subrange(2, ts0.len() as int));
        }
        let ghost rest = self@;
        let mut value_type: Option<ast::IdentifierExpression> = None;
        if self.tokens.len() > 0 {
            let head = self.at();
            match head.token_type {
                TokenType::SemiColon => {
                    let _ = self.eat();
                    if is_constant {
                        return Err(
                            String::from_str("must assign a value to a constant expression"),
                        );
                    }
                    return Ok(
                        ast::Statement::VariableDeclaration(
                            ast::VariableDeclarationStatement::create(
                                false,
                                identifier,
                                None,
                                None,
                            ),
                        ),
                    );
                },
                TokenType::Colon => {
                    let _ = self.eat();
                    if self.tokens.len() == 0 {
                        proof {
                            lemma_tokens_view(self.tokens@);
                        }
                        return Err(
                            String::from_str("expected a type name following the colon"),
                        );
                    }
                    let t = self.eat();
                    let usable = match t.token_type {
                        TokenType::Identifier => type_name_ok(t.value.as_str()),
                        TokenType::Boolean | TokenType::Str | TokenType::Character => true,
                        _ => false,
                    };
                    if !usable {
                        return Err(
                            String::from_str(
                                "unexpected value type found during variable declaration parsing",
                            ),
                        );
                    }
                    value_type = Some(ast::IdentifierExpression::create(t.value));
                    proof {
                        assert(self@ =~= rest.subrange(2, rest.len() as int));
                    }
                },
                _ => {},
            }
        }
        if self.tokens.len() == 0 {
            proof {
                lemma_tokens_view(self.tokens@);
            }
            return Err(
                String::from_str(
                    "expected equals token following identifier in variable declaration",
                ),
            );
        }
        proof {
            lemma_tokens_view(self.tokens@);
        }
        match self.expect(TokenType::Equals) {
            Ok(_) => {},
            Err(_) => {
                return Err(
                    String::from_str(
                        "expected equals token following identifier in variable declaration",
                    ),
                );
            },
        }
        let value = match self.parse_expression() {
            Ok(e) => e,
            Err(m) => {
                return Err(m);
            },
        };
        if self.tokens.len() == 0 {
            proof {
                lemma_tokens_view(self.tokens@);
            }
            return Err(
                String::from_str("variable declaration statements must end with a semicolon"),
            );
        }
        proof {
            lemma_tokens_view(self.tokens@);
        }
        match self.expect(TokenType::SemiColon) {
            Ok(_) => Ok(
                ast::Statement::VariableDeclaration(
                    ast::VariableDeclarationStatement::create(
                        is_constant,
                        identifier,
                        Some(value),
                        value_type,
                    ),
                ),
            ),
            Err(_) => Err(
                String::from_str("variable declaration statements must end with a semicolon"),
            ),
        }
    }

    fn parse_statement(&mut self) -> (r: Result<ast::Statement, String>)
        ensures
            match r {
                Ok(st) => spec_parse_statement(old(self)@) == Some((st@, final(self)@)) && final(self)@.len() < old(self)@.len(),
                Err(_) => spec_parse_statement(old(self)@) is None,
            },
        decreases old(self)@.len(), 8int,
    {
        if self.tokens.len() > 0 {
            proof {
                lemma_tokens_view(self.tokens@);
            }
            let head = self.at();
            match head.token_type {
                TokenType::Let | TokenType::Const => {
                    return match self.parse_variable_declaration() {
                        Ok(st) => Ok(st),
                        Err(m) => Err(m),
                    };
                },
                _ => {},
            }
        }
        let e = match self.parse_expression() {
            Ok(e) => e,
            Err(m) => {
                return Err(m);
            },
        };
        let trailing_semicolon = self.tokens.len() > 0 && {
            proof {
                lemma_tokens_view(self.tokens@);
            }
            let t = self.at();
            match t.token_type {
                TokenType::SemiColon => true,
                _ => false,
            }
        };
        if trailing_semicolon {
            let _ = self.eat();
        }
        Ok(ast::Statement::Expression(e))
    }

    /// Tokenizes the source and parses statements until the end-of-stream
    /// token, building the program node (§4.2); the first error aborts the
    /// whole parse.
    #[verifier::loop_isolation(false)]
    pub fn produce_ast(&mut self, source_code: &str) -> (r: Result<ast::Statement, String>)
        ensures
            match r {
                Ok(stmt) => {
                    &&& spec_tokenise(source_code@) matches Some(toks)
                    &&& spec_parse_program(toks) matches Some(body)
                    &&& stmt@ == StmtModel::Program { body }
                },
                Err(_) => match spec_tokenise(source_code@) {
                    Some(toks) => spec_parse_program(toks) is None,
                    None => true,
                },
            },
    {
        match lexer::tokenise(source_code) {
            Ok(tokens) => {
                self.tokens = tokens;
            },
            Err(m) => {
                return Err(m);
            },
        }
        let ghost toks0 = self@;
        let mut program = ast::ProgramStatement::create();
        proof {
            lemma_stmts_view(program.body@);
            match spec_parse_program(toks0) {
                Some(sts) => {
                    assert(stmts_view(program.body@) + sts =~= sts);
                },
                None => {},
            }
        }
        while self.tokens.len() > 0 && self.not_eof()
            invariant
                spec_parse_program(toks0) == (match spec_parse_program(self@) {
                    Some(sts) => Some(stmts_view(program.body@) + sts),
                    None => None,
                }),
            decreases self@.len(),
        {
            proof {
                lemma_tokens_view(self.tokens@);
            }
            let ghost here = self@;
            let ghost acc = stmts_view(program.body@);
            let statement = match self.parse_statement() {
                Ok(st) => st,
                Err(m) => {
                    return Err(m);
                },
            };
            let ghost body_before = program.body@;
            program.body.push(statement);
            proof {
                assert(program.body@.subrange(0, program.body@.len() - 1) =~= body_before);
                assert(stmts_view(program.body@) == stmts_view(body_before).push(
                    program.body@[program.body@.len() - 1]@,
                ));
                match spec_parse_program(self@) {
                    Some(sts) => {
                        assert(acc + (seq![program.body@[program.body@.len() - 1]@] + sts)
                            =~= stmts_view(program.body@) + sts);
                    },
                    None => {},
                }
            }
        }
        if self.tokens.len() == 0 {
            proof {
                lemma_tokens_view(self.tokens@);
            }
            return Err(String::from_str("unexpected end of token stream"));
        }
        proof {
            lemma_tokens_view(self.tokens@);
        }
        Ok(ast::Statement::Program(program))
    }
}

} // verus!
