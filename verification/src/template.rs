//! The path-template mini-language: a template is an ordered sequence of
//! tokens, each a literal fragment or a `:name:` variable reference, and
//! renders by concatenating fragments with the variables' values.
//!
//! The delimiter `:` toggles between literal mode and variable-name mode;
//! there is no nesting and no escaping.

use vstd::prelude::*;

use crate::context::{lookup, Context, ContextModel, ProviderError, ProviderErrorModel};
use crate::strings::str_eq;
use crate::variables::{render_provider, spec_render_provider};

verus! {

#[derive(Debug, Clone)]
pub enum Token {
    Text(String),
    Variable(String),
}

/// The value of a token, over character sequences.
pub enum TokenModel {
    Text(Seq<char>),
    Variable(Seq<char>),
}

impl Token {
    pub open spec fn model(&self) -> TokenModel {
        match self {
            Token::Text(s) => TokenModel::Text(s@),
            Token::Variable(s) => TokenModel::Variable(s@),
        }
    }
}

pub open spec fn token_models(ts: Seq<Token>) -> Seq<TokenModel> {
    Seq::new(ts.len(), |i: int| ts[i].model())
}

/// A parse failure, with the index of the offending delimiter: a variable
/// with an empty name, or a template that ends inside a variable name.
#[derive(Debug, Clone, Copy, PartialEq, Eq, Structural)]
pub enum ParseError {
    UnamedVariable(usize),
    UnclosedVariable(usize),
}

/// A render failure: a variable not registered in the context, or a
/// provider failure, wrapped with the variable's name.
#[derive(Debug)]
pub enum RenderError {
    UndefinedVariable(String),
    VariableRender(String, ProviderError),
}

pub enum RenderErrorModel {
    UndefinedVariable(Seq<char>),
    VariableRender(Seq<char>, ProviderErrorModel),
}

impl RenderError {
    pub open spec fn model(&self) -> RenderErrorModel {
        match self {
            RenderError::UndefinedVariable(s) => RenderErrorModel::UndefinedVariable(s@),
            RenderError::VariableRender(s, e) => RenderErrorModel::VariableRender(s@, e.model()),
        }
    }
}

impl PartialEq for RenderError {
    fn eq(&self, other: &Self) -> (r: bool) {
        match (self, other) {
            (RenderError::UndefinedVariable(a), RenderError::UndefinedVariable(b)) => str_eq(
                a.as_str(),
                b.as_str(),
            ),
            (RenderError::VariableRender(a, ea), RenderError::VariableRender(b, eb)) => str_eq(
                a.as_str(),
                b.as_str(),
            ) && ea == eb,
            _ => false,
        }
    }
}

impl vstd::std_specs::cmp::PartialEqSpecImpl for RenderError {
    open spec fn obeys_eq_spec() -> bool {
        true
    }

    open spec fn eq_spec(&self, other: &Self) -> bool {
        self.model() == other.model()
    }
}

/// The index of the first `:` at or after `i`, or the length when none.
pub open spec fn next_colon(s: Seq<char>, i: int) -> int
    decreases s.len() - i,
{
    if i < 0 || i >= s.len() {
        s.len() as int
    } else if s[i] == ':' {
        i
    } else {
        next_colon(s, i + 1)
    }
}

/// What parsing from position `i` onward yields: literal fragments between
/// delimiters (empty ones dropped), variable names between delimiter
/// pairs. An empty name is an error at the closing delimiter; an unpaired
/// final delimiter is an unclosed variable.
pub open spec fn spec_parse_from(s: Seq<char>, i: int) -> Result<Seq<TokenModel>, ParseError>
    decreases s.len() - i,
    via spec_parse_from_decreases
{
    if i < 0 || i >= s.len() {
        Ok(Seq::<TokenModel>::empty())
    } else {
        let j = next_colon(s, i);
        if j == s.len() {
            Ok(seq![TokenModel::Text(s.subrange(i, j))])
        } else {
            let k = next_colon(s, j + 1);
            if k == s.len() {
                Err(ParseError::UnclosedVariable((s.len() - 1) as usize))
            } else if k == j + 1 {
                Err(ParseError::UnamedVariable(k as usize))
            } else {
                let lit: Seq<TokenModel> = if j > i {
                    seq![TokenModel::Text(s.subrange(i, j))]
                } else {
                    Seq::<TokenModel>::empty()
                };
                match spec_parse_from(s, k + 1) {
                    Ok(rest) => Ok(lit + seq![TokenModel::Variable(s.subrange(j + 1, k))] + rest),
                    Err(e) => Err(e),
                }
            }
        }
    }
}

#[via_fn]
proof fn spec_parse_from_decreases(s: Seq<char>, i: int) {
    if 0 <= i && i < s.len() {
        lemma_next_colon(s, i);
        let j = next_colon(s, i);
        if j < s.len() {
            lemma_next_colon(s, j + 1);
        }
    }
}

pub open spec fn spec_parse(s: Seq<char>) -> Result<Seq<TokenModel>, ParseError> {
    spec_parse_from(s, 0)
}

/// What rendering a token sequence yields: fragments and variable values
/// concatenated in order, or the leftmost failure.
pub open spec fn spec_render(tokens: Seq<TokenModel>, m: ContextModel) -> Result<
    Seq<char>,
    RenderErrorModel,
>
    decreases tokens.len(),
{
    if tokens.len() == 0 {
        Ok(Seq::<char>::empty())
    } else {
        let rest = tokens.drop_first();
        match tokens[0] {
            TokenModel::Text(t) => match spec_render(rest, m) {
                Ok(v) => Ok(t + v),
                Err(e) => Err(e),
            },
            TokenModel::Variable(name) => match lookup(m, name) {
                None => Err(RenderErrorModel::UndefinedVariable(name)),
                Some(p) => match spec_render_provider(m, p, name) {
                    Err(pe) => Err(RenderErrorModel::VariableRender(name, pe)),
                    Ok(val) => match spec_render(rest, m) {
                        Ok(v) => Ok(val + v),
                        Err(e) => Err(e),
                    },
                },
            },
        }
    }
}

/// Law: rendering is a pure function of the tokens and the context
/// values at call time. Two renders of one template in contexts with
/// equal models yield the same result.
pub proof fn lemma_render_deterministic(
    t1: Seq<TokenModel>,
    m1: ContextModel,
    t2: Seq<TokenModel>,
    m2: ContextModel,
)
    requires
        t1 == t2,
        m1 == m2,
    ensures
        spec_render(t1, m1) == spec_render(t2, m2),
{
}

/// What one token renders to on its own: a literal renders verbatim; a
/// variable fails when its name is unregistered, and wraps a provider
/// failure with the name.
pub open spec fn token_value(m: ContextModel, t: TokenModel) -> Result<Seq<char>, RenderErrorModel> {
    match t {
        TokenModel::Text(s) => Ok(s),
        TokenModel::Variable(name) => match lookup(m, name) {
            None => Err(RenderErrorModel::UndefinedVariable(name)),
            Some(p) => match spec_render_provider(m, p, name) {
                Ok(v) => Ok(v),
                Err(e) => Err(RenderErrorModel::VariableRender(name, e)),
            },
        },
    }
}

/// Law: rendering fails with exactly the first token that cannot render;
/// every token before it renders, every token after it is not reached.
pub proof fn lemma_render_first_failure(tokens: Seq<TokenModel>, m: ContextModel, i: int)
    requires
        0 <= i < tokens.len(),
        forall|j: int| 0 <= j < i ==> token_value(m, #[trigger] tokens[j]) is Ok,
        token_value(m, tokens[i]) is Err,
    ensures
        spec_render(tokens, m) == Err::<Seq<char>, RenderErrorModel>(
            token_value(m, tokens[i])->Err_0,
        ),
    decreases i,
{
    let rest = tokens.drop_first();
    if i == 0 {
    } else {
        assert(token_value(m, tokens[0]) is Ok);
        assert forall|j: int| 0 <= j < i - 1 implies token_value(m, #[trigger] rest[j]) is Ok by {
            assert(rest[j] == tokens[j + 1]);
        }
        assert(rest[i - 1] == tokens[i]);
        lemma_render_first_failure(rest, m, i - 1);
    }
}

/// Law: a template whose first unresolvable reference names an
/// unregistered variable fails with `UndefinedVariable` naming exactly
/// that variable.
pub proof fn lemma_undefined_variable(
    tokens: Seq<TokenModel>,
    m: ContextModel,
    i: int,
    name: Seq<char>,
)
    requires
        0 <= i < tokens.len(),
        forall|j: int| 0 <= j < i ==> token_value(m, #[trigger] tokens[j]) is Ok,
        tokens[i] == TokenModel::Variable(name),
        lookup(m, name) is None,
    ensures
        spec_render(tokens, m) == Err::<Seq<char>, RenderErrorModel>(
            RenderErrorModel::UndefinedVariable(name),
        ),
{
    lemma_render_first_failure(tokens, m, i);
}

proof fn lemma_next_colon(s: Seq<char>, i: int)
    requires
        0 <= i <= s.len(),
    ensures
        i <= next_colon(s, i) <= s.len(),
        next_colon(s, i) < s.len() ==> s[next_colon(s, i)] == ':',
        forall|t: int| i <= t < next_colon(s, i) ==> s[t] != ':',
    decreases s.len() - i,
{
    if i < s.len() && s[i] != ':' {
        lemma_next_colon(s, i + 1);
    }
}

fn find_colon(s: &str, from: usize) -> (r: usize)
    requires
        from <= s@.len(),
    ensures
        r == next_colon(s@, from as int),
        from <= r <= s@.len(),
        r < s@.len() ==> s@[r as int] == ':',
    decreases s@.len() - from,
{
    proof {
        lemma_next_colon(s@, from as int);
    }
    let n = s.unicode_len();
    let mut i: usize = from;
    while i < n
        invariant
            from <= i <= n,
            n == s@.len(),
            next_colon(s@, from as int) == next_colon(s@, i as int),
        decreases n - i,
    {
        if s.get_char(i) == ':' {
            return i;
        }
        i += 1;
    }
    n
}

/// A parsed template: an ordered sequence of tokens whose rendered outputs
/// concatenate, in order, into the destination path.
#[derive(Debug, Clone)]
pub struct Template {
    tokens: Vec<Token>,
}

pub open spec fn parse_result_model(r: Result<Template, ParseError>) -> Result<
    Seq<TokenModel>,
    ParseError,
> {
    match r {
        Ok(t) => Ok(t.model()),
        Err(e) => Err(e),
    }
}

pub open spec fn render_res_model(r: Result<String, RenderError>) -> Result<
    Seq<char>,
    RenderErrorModel,
> {
    match r {
        Ok(s) => Ok(s@),
        Err(e) => Err(e.model()),
    }
}

impl Template {
    pub closed spec fn model(&self) -> Seq<TokenModel> {
        token_models(self.tokens@)
    }

    /// How many tokens the template holds.
    pub fn token_count(&self) -> (r: usize)
        ensures
            r == self.model().len(),
    {
        self.tokens.len()
    }

    /// Parses a template string. An empty string yields zero tokens; a
    /// string without delimiters yields one literal token.
    pub fn parse_str(s: &str) -> (r: Result<Template, ParseError>)
        ensures
            parse_result_model(r) == spec_parse(s@),
    {
        let n = s.unicode_len();
        let mut tokens: Vec<Token> = Vec::new();
        let mut i: usize = 0;
        assert(token_models(tokens@) =~= Seq::<TokenModel>::empty());
        loop
            invariant
                i <= n,
                n == s@.len(),
                spec_parse(s@) == (match spec_parse_from(s@, i as int) {
                    Ok(rest) => Ok::<Seq<TokenModel>, ParseError>(token_models(tokens@) + rest),
                    Err(e) => Err::<Seq<TokenModel>, ParseError>(e),
                }),
            decreases n - i,
        {
            let ghost tm = token_models(tokens@);
            if i >= n {
                assert(spec_parse_from(s@, i as int) == Ok::<Seq<TokenModel>, ParseError>(
                    Seq::<TokenModel>::empty(),
                ));
                assert(tm + Seq::<TokenModel>::empty() =~= tm);
                return Ok(Template { tokens });
            }
            let j = find_colon(s, i);
            if j == n {
                let lit = s.substring_char(i, n).to_owned();
                tokens.push(Token::Text(lit));
                assert(token_models(tokens@) =~= tm + seq![
                    TokenModel::Text(s@.subrange(i as int, n as int)),
                ]);
                assert(tm + seq![TokenModel::Text(s@.subrange(i as int, n as int))] =~= tm + (seq![
                    TokenModel::Text(s@.subrange(i as int, n as int)),
                ] + Seq::<TokenModel>::empty()));
                return Ok(Template { tokens });
            }
            let k = find_colon(s, j + 1);
            if k == n {
                return Err(ParseError::UnclosedVariable(n - 1));
            }
            if k == j + 1 {
                return Err(ParseError::UnamedVariable(k));
            }
            let ghost lit: Seq<TokenModel> = if j > i {
                seq![TokenModel::Text(s@.subrange(i as int, j as int))]
            } else {
                Seq::<TokenModel>::empty()
            };
            if j > i {
                let t = s.substring_char(i, j).to_owned();
                tokens.push(Token::Text(t));
            }
            let name = s.substring_char(j + 1, k).to_owned();
            tokens.push(Token::Variable(name));
            assert(token_models(tokens@) =~= tm + lit + seq![
                TokenModel::Variable(s@.subrange(j + 1, k as int)),
            ]);
            proof {
                let var = seq![TokenModel::Variable(s@.subrange(j + 1, k as int))];
                match spec_parse_from(s@, k + 1) {
                    Ok(rest) => {
                        assert((tm + lit + var) + rest =~= tm + (lit + var + rest));
                    },
                    Err(_) => {},
                }
            }
            i = k + 1;
        }
    }

    /// Renders the template in a context: literal tokens append verbatim;
    /// a variable token appends its provider's value, fails with
    /// `UndefinedVariable` when the name is not registered, and wraps a
    /// provider failure with the variable's name. The result is a pure
    /// function of the tokens and the context.
    pub fn render(&self, ctx: &Context) -> (r: Result<String, RenderError>)
        requires
            ctx.wf(),
        ensures
            render_res_model(r) == spec_render(self.model(), ctx.model()),
    {
        let mut out = String::new();
        let count = self.tokens.len();
        let mut idx: usize = 0;
        assert(self.model().skip(0) =~= self.model());
        assert(out@ =~= Seq::<char>::empty());
        while idx < count
            invariant
                ctx.wf(),
                idx <= count,
                count == self.model().len(),
                count == self.tokens@.len(),
                spec_render(self.model(), ctx.model()) == (match spec_render(
                    self.model().skip(idx as int),
                    ctx.model(),
                ) {
                    Ok(v) => Ok::<Seq<char>, RenderErrorModel>(out@ + v),
                    Err(e) => Err::<Seq<char>, RenderErrorModel>(e),
                }),
            decreases count - idx,
        {
            let ghost pending = self.model().skip(idx as int);
            assert(pending[0] == self.model()[idx as int]);
            assert(pending.drop_first() =~= self.model().skip(idx + 1));
            let token = &self.tokens[idx];
            assert(token.model() == self.model()[idx as int]);
            let ghost out_before = out@;
            match token {
                Token::Text(t) => {
                    out.append(t.as_str());
                    proof {
                        match spec_render(self.model().skip(idx + 1), ctx.model()) {
                            Ok(v) => {
                                assert(out_before + (t@ + v) =~= out@ + v);
                            },
                            Err(_) => {},
                        }
                    }
                },
                Token::Variable(name) => {
                    match ctx.get(name.as_str()) {
                        None => {
                            return Err(RenderError::UndefinedVariable(name.clone()));
                        },
                        Some(p) => {
                            match render_provider(ctx, p, name.as_str()) {
                                Err(pe) => {
                                    return Err(RenderError::VariableRender(name.clone(), pe));
                                },
                                Ok(val) => {
                                    out.append(val.as_str());
                                    proof {
                                        match spec_render(
                                            self.model().skip(idx + 1),
                                            ctx.model(),
                                        ) {
                                            Ok(v) => {
                                                assert(out_before + (val@ + v) =~= out@ + v);
                                            },
                                            Err(_) => {},
                                        }
                                    }
                                },
                            }
                        },
                    }
                },
            }
            idx += 1;
        }
        assert(self.model().skip(count as int) =~= Seq::<TokenModel>::empty());
        assert(out@ + Seq::<char>::empty() =~= out@);
        Ok(out)
    }
}

} // verus!
