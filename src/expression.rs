use vstd::prelude::*;

verus! {

#[verifier::external_type_specification]
#[verifier::external_body]
pub struct ExExpr(meval::Expr);

/// Declared because `Expr` dereferences to a slice of these tokens.
#[verifier::external_type_specification]
#[verifier::external_body]
pub struct ExToken(meval::tokenizer::Token);

#[verifier::external_type_specification]
#[verifier::external_body]
pub struct ExError(meval::Error);

/// Whether `text` is a well-formed expression in meval's grammar.
pub uninterp spec fn expression_parses(text: Seq<char>) -> bool;

/// Whether `text` holds nothing but spaces, tabs and line breaks (the
/// empty text included).
pub open spec fn is_blank(text: Seq<char>) -> bool {
    forall|i: int| 0 <= i < text.len() ==> is_space(#[trigger] text[i])
}

/// The characters that the expression grammar skips between tokens.
pub open spec fn is_space(c: char) -> bool {
    c == ' ' || c == '\t' || c == '\r' || c == '\n'
}

/// Decides `is_blank`.
fn blank(text: &str) -> (r: bool)
    ensures
        r == is_blank(text@),
{
    let n = text.unicode_len();
    let mut i: usize = 0;
    while i < n
        invariant
            n == text@.len(),
            i <= n,
            forall|j: int| 0 <= j < i ==> is_space(#[trigger] text@[j]),
        decreases n - i,
    {
        let c = text.get_char(i);
        if !(c == ' ' || c == '\t' || c == '\r' || c == '\n') {
            return false;
        }
        i = i + 1;
    }
    true
}

/// Relies on meval's `FromStr` impl for `Expr` (tokenizer, then
/// shunting-yard): it succeeds or fails according to the text alone. Its
/// tokenizer panics on text made only of whitespace, which is excluded.
#[verifier::external_body]
fn parse_expression(text: &str) -> (r: Result<meval::Expr, meval::Error>)
    requires
        !is_blank(text@),
    ensures
        r.is_ok() == expression_parses(text@),
{
    text.parse::<meval::Expr>()
}

/// A parsed single-variable expression together with the source text it
/// was parsed from.
pub struct Expression {
    source: String,
    parsed: meval::Expr,
}

impl View for Expression {
    type V = Seq<char>;

    /// The source text.
    closed spec fn view(&self) -> Seq<char> {
        self.source@
    }
}

impl Expression {
    /// Parses `text`; `None` exactly when it is blank or not a well-formed
    /// expression.
    pub fn parse(text: &str) -> (r: Option<Expression>)
        ensures
            r.is_some() == (!is_blank(text@) && expression_parses(text@)),
            r matches Some(e) ==> e@ == text@,
    {
        if blank(text) {
            return None;
        }
        match parse_expression(text) {
            Ok(parsed) => Some(Expression { source: text.to_owned(), parsed }),
            Err(_) => None,
        }
    }

    /// The text this expression was parsed from.
    pub fn source(&self) -> (r: &str)
        ensures
            r@ == self@,
    {
        self.source.as_str()
    }

    /// The parsed form, ready to be bound to its variable and evaluated.
    pub fn parsed(&self) -> &meval::Expr {
        &self.parsed
    }
}

} // verus!
