//! Macro arguments, attributes, and the error-type override.
use crate::message::{clone_opt, opt_view, DiagTarget, Diagnostic, DiagnosticView};
use vstd::prelude::*;
use vstd::string::StrSliceExecFns;

verus! {

/// The kind-specific configuration of an interface, handed unchanged to the
/// builder of each of its message enums.
#[derive(Debug, PartialEq, Eq)]
pub struct Custom {
    /// The custom message type that execute results are wrapped in, if any.
    pub msg: Option<String>,
    /// The custom query type that handlers may issue, if any.
    pub query: Option<String>,
}

pub struct CustomView {
    pub msg: Option<Seq<char>>,
    pub query: Option<Seq<char>>,
}

impl View for Custom {
    type V = CustomView;

    open spec fn view(&self) -> CustomView {
        CustomView { msg: opt_view(self.msg), query: opt_view(self.query) }
    }
}

/// A copy of a configuration.
pub fn clone_custom(c: &Custom) -> (r: Custom)
    ensures
        r@ == c@,
{
    Custom { msg: clone_opt(&c.msg), query: clone_opt(&c.query) }
}

/// Arguments of the `interface` macro.
pub struct InterfaceArgs {
    /// Namespace that wraps everything generated, if any.
    pub module: Option<String>,
    /// Configuration of the message enums.
    pub custom: Custom,
}

pub struct InterfaceArgsView {
    pub module: Option<Seq<char>>,
    pub custom: CustomView,
}

impl View for InterfaceArgs {
    type V = InterfaceArgsView;

    open spec fn view(&self) -> InterfaceArgsView {
        InterfaceArgsView { module: opt_view(self.module), custom: self.custom@ }
    }
}

/// Arguments of the `contract` macro.
pub struct ContractArgs {
    /// Namespace that wraps everything generated, if any.
    pub module: Option<String>,
}

impl View for ContractArgs {
    type V = Option<Seq<char>>;

    open spec fn view(&self) -> Option<Seq<char>> {
        opt_view(self.module)
    }
}

/// An attribute: its path as written (`error`) and the tokens that follow
/// it, delimiter included (`(ContractError)`).
pub struct Attribute {
    pub path: String,
    pub tokens: String,
}

pub struct AttributeView {
    pub path: Seq<char>,
    pub tokens: Seq<char>,
}

impl View for Attribute {
    type V = AttributeView;

    open spec fn view(&self) -> AttributeView {
        AttributeView { path: self.path@, tokens: self.tokens@ }
    }
}

pub open spec fn attrs_view(v: Seq<Attribute>) -> Seq<AttributeView> {
    v.map_values(|a: Attribute| a@)
}

/// A character that continues an ASCII identifier, number or suffix.
pub open spec fn is_word_char(c: char) -> bool {
    ('a' <= c && c <= 'z') || ('A' <= c && c <= 'Z') || ('0' <= c && c <= '9') || c == '_'
}

/// `t` may hold the start of a C-string literal: `c"`, `cr"` or `cr#` where
/// the `c` does not continue a word. The test is on characters, not tokens,
/// so it also holds of such text inside another literal.
pub open spec fn has_c_string(t: Seq<char>) -> bool {
    exists|i: int|
        0 <= i < t.len() - 1 && #[trigger] t[i] == 'c' && (i == 0 || !is_word_char(t[i - 1])) && (
        t[i + 1] == '"' || (t[i + 1] == 'r' && i + 2 < t.len() && (t[i + 2] == '"' || t[i + 2]
            == '#')))
}

fn is_word_char_exec(c: char) -> (r: bool)
    ensures
        r == is_word_char(c),
{
    ('a' <= c && c <= 'z') || ('A' <= c && c <= 'Z') || ('0' <= c && c <= '9') || c == '_'
}

/// Whether `tokens` may hold the start of a C-string literal.
pub fn contains_c_string(tokens: &String) -> (r: bool)
    ensures
        r == has_c_string(tokens@),
{
    let t = tokens.as_str();
    let n = t.unicode_len();
    let mut i: usize = 0;
    while i < n
        invariant
            i <= n,
            n == t@.len(),
            t@ == tokens@,
            forall|j: int|
                0 <= j < i && j < t@.len() - 1 && #[trigger] t@[j] == 'c' && (j == 0
                    || !is_word_char(t@[j - 1])) ==> !(t@[j + 1] == '"' || (t@[j + 1] == 'r' && j
                    + 2 < t@.len() && (t@[j + 2] == '"' || t@[j + 2] == '#'))),
        decreases n - i,
    {
        if i + 1 < n && t.get_char(i) == 'c' && (i == 0 || !is_word_char_exec(t.get_char(i - 1))) {
            let next = t.get_char(i + 1);
            if next == '"' {
                return true;
            }
            if next == 'r' && i + 2 < n {
                let third = t.get_char(i + 2);
                if third == '"' || third == '#' {
                    return true;
                }
            }
        }
        i = i + 1;
    }
    false
}

/// Relies on syn's parser of a parenthesized type, `syn::TypeParen`, and on
/// quote's `ToTokens` to print the inner type back; the error is syn's
/// message. syn 1 panics on a C-string literal, which it cannot interpret,
/// so every text where one may begin is left out. The printed text, and the
/// lexer that syn runs on, depend on whether the process is a compiler's
/// macro expansion, so
/// nothing is claimed of the result.
#[verifier::external_body]
pub(crate) fn parse_paren_type(tokens: &String) -> (r: Result<String, String>)
    requires
        !has_c_string(tokens@),
{
    match syn::parse_str::<syn::TypeParen>(tokens) {
        Ok(ty) => Ok(quote::ToTokens::to_token_stream(&*ty.elem).to_string()),
        Err(err) => Err(err.to_string()),
    }
}

pub open spec fn c_string_message() -> Seq<char> {
    "C string literals are not supported in a contract's error type"@
}

pub open spec fn result_view(p: Result<String, String>) -> Result<Seq<char>, Seq<char>> {
    match p {
        Ok(t) => Ok(t@),
        Err(m) => Err(m@),
    }
}

/// The effect of the error-type override at attribute `i` whose parse gave
/// `parsed`: the parsed type, or else the default and one diagnostic at that
/// attribute that carries the parser's message.
pub open spec fn override_applied(
    i: int,
    parsed: Result<Seq<char>, Seq<char>>,
    default: Seq<char>,
    before: Seq<Diagnostic>,
    after: Seq<Diagnostic>,
    error: Seq<char>,
) -> bool {
    match parsed {
        Ok(t) => error == t && after == before,
        Err(m) => {
            &&& error == default
            &&& after.len() == before.len() + 1
            &&& after.drop_last() == before
            &&& after.last()@ == DiagnosticView {
                target: DiagTarget::Attr(i as usize),
                message: m,
                notes: Seq::empty(),
            }
        },
    }
}

/// What holds of the error-type override at attribute `i` whatever its parse
/// gave: nothing is reported, or the default is used and one diagnostic at
/// that attribute is reported.
pub open spec fn override_settled(
    i: int,
    default: Seq<char>,
    before: Seq<Diagnostic>,
    after: Seq<Diagnostic>,
    error: Seq<char>,
) -> bool {
    ||| after == before
    ||| {
        &&& error == default
        &&& after.len() == before.len() + 1
        &&& after.drop_last() == before
        &&& after.last()@.target == DiagTarget::Attr(i as usize)
        &&& after.last()@.notes == Seq::<Seq<char>>::empty()
    }
}

/// Applies the parse of the error-type override at attribute `i`: the parsed
/// type is the error type; a parse error is reported at that attribute and
/// the default is used.
pub fn apply_error_override(
    i: usize,
    parsed: Result<String, String>,
    default_error: &String,
    diagnostics: &mut Vec<Diagnostic>,
) -> (r: String)
    ensures
        override_applied(
            i as int,
            result_view(parsed),
            default_error@,
            old(diagnostics)@,
            final(diagnostics)@,
            r@,
        ),
{
    match parsed {
        Ok(ty) => ty,
        Err(message) => {
            let ghost before = diagnostics@;
            let d = Diagnostic { target: DiagTarget::Attr(i), message, notes: Vec::new() };
            diagnostics.push(d);
            assert(d@.notes =~= Seq::<Seq<char>>::empty());
            assert(diagnostics@.drop_last() =~= before);
            default_error.clone()
        },
    }
}

pub open spec fn error_word() -> Seq<char> {
    seq!['e', 'r', 'r', 'o', 'r']
}

/// The attribute that overrides a contract's error type: `#[error(...)]`.
pub open spec fn is_error_attr(a: AttributeView) -> bool {
    a.path == error_word()
}

/// `i` is the first error-type override among `attrs`.
pub open spec fn first_error_attr(attrs: Seq<AttributeView>, i: int) -> bool {
    0 <= i < attrs.len() && is_error_attr(attrs[i]) && forall|j: int|
        0 <= j < i ==> !is_error_attr(#[trigger] attrs[j])
}

/// The position of the first error-type override, if any.
pub fn find_error_attr(attrs: &Vec<Attribute>) -> (r: Option<usize>)
    ensures
        r matches Some(i) ==> first_error_attr(attrs_view(attrs@), i as int),
        r is None ==> forall|j: int|
            0 <= j < attrs@.len() ==> !is_error_attr(#[trigger] attrs_view(attrs@)[j]),
{
    let word = "error".to_owned();
    proof {
        reveal_strlit("error");
    }
    assert(word@ =~= error_word());
    let mut i: usize = 0;
    while i < attrs.len()
        invariant
            i <= attrs.len(),
            word@ == error_word(),
            forall|j: int| 0 <= j < i ==> !is_error_attr(#[trigger] attrs_view(attrs@)[j]),
        decreases attrs.len() - i,
    {
        if attrs[i].path == word {
            return Some(i);
        }
        i = i + 1;
    }
    None
}

} // verus!
