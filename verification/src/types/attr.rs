//! Attributes, and the tokens they are made of.
use crate::ident::DefId;
use crate::ident::Path;
use crate::ident::Symbol;
use crate::types::span::Span;
use vstd::prelude::*;

verus! {

/// The text of a token stream.
pub type TokenStream = String;

/// The spans of the two delimiters around a token stream.
#[derive(Clone, Debug, PartialEq, Eq)]
pub struct DelimSpan {
    pub open: Span,
    pub close: Span,
}

/// Whether an attribute stands before its item or inside it.
#[derive(Clone, Copy, Debug, PartialEq, Eq)]
pub enum AttrStyle {
    Outer,
    Inner,
}

/// An attribute on an item, an expression or a parameter.
#[derive(Clone, Debug, PartialEq, Eq)]
pub struct Attribute {
    pub kind: AttrKind,
    pub id: usize,
    pub style: AttrStyle,
    pub span: Span,
}

/// An attribute proper, or a documentation comment.
#[derive(Clone, Debug, PartialEq, Eq)]
pub enum AttrKind {
    Normal(NormalAttr),
    DocComment(CommentKind, Symbol),
}

#[derive(Clone, Debug, PartialEq, Eq)]
pub struct NormalAttr {
    pub item: AttrItem,
    pub tokens: Option<TokenStream>,
}

#[derive(Clone, Debug, PartialEq, Eq)]
pub struct AttrItem {
    pub path: String,
    pub args: AttrArgs,
    pub tokens: Option<TokenStream>,
}

/// What follows the path of an attribute.
#[derive(Clone, Debug, PartialEq, Eq)]
pub enum AttrArgs {
    Empty,
    Delimited(DelimArgs),

    Todo(String),
}

#[derive(Clone, Copy, Debug, PartialEq, Eq)]
pub enum CommentKind {
    Line,
    Block,
}

#[derive(Clone, Debug, PartialEq, Eq)]
pub struct DelimArgs {
    pub dspan: DelimSpan,
    pub delim: MacDelimiter,
    pub tokens: TokenStream,
}

#[derive(Clone, Copy, Debug, PartialEq, Eq)]
pub enum MacDelimiter {
    Parenthesis,
    Bracket,
    Brace,
}

#[derive(Clone, Copy, Debug, PartialEq, Eq)]
pub enum Delimiter {
    Parenthesis,
    Brace,
    Bracket,
    Invisible,
}

/// A token, or a delimited run of tokens.
#[derive(Clone, Debug, PartialEq, Eq)]
pub enum TokenTree {
    Token(Token, Spacing),
    Delimited(DelimSpan, Delimiter, TokenStream),
}

#[derive(Clone, Copy, Debug, PartialEq, Eq)]
pub enum Spacing {
    Alone,
    Joint,
}

#[derive(Clone, Copy, Debug, PartialEq, Eq)]
pub enum BinOpToken {
    Plus,
    Minus,
    Star,
    Slash,
    Percent,
    Caret,
    And,
    Or,
    Shl,
    Shr,
}

/// The kinds of tokens.
#[derive(Clone, Debug, PartialEq, Eq)]
pub enum TokenKind {
    Eq,
    Lt,
    Le,
    EqEq,
    Ne,
    Ge,
    Gt,
    AndAnd,
    OrOr,
    Not,
    Tilde,
    BinOp(BinOpToken),
    BinOpEq(BinOpToken),
    At,
    Dot,
    DotDot,
    DotDotDot,
    DotDotEq,
    Comma,
    Semi,
    Colon,
    ModSep,
    RArrow,
    LArrow,
    FatArrow,
    Pound,
    Dollar,
    Question,
    SingleQuote,
    OpenDelim(Delimiter),
    CloseDelim(Delimiter),
    Ident(Symbol, bool),
    Lifetime(Symbol),
    Eof,
    Todo(String),
}

/// A token with the place where it is written.
#[derive(Clone, Debug, PartialEq, Eq)]
pub struct Token {
    pub kind: TokenKind,
    pub span: Span,
}

/// The invocation of a macro, as written.
#[derive(Clone, Debug, PartialEq, Eq)]
pub struct MacCall {
    pub path: Path,
    pub args: DelimArgs,
}

#[derive(Clone, Debug, PartialEq, Eq)]
pub struct MacroDef {
    pub body: DelimArgs,
    pub macro_rules: bool,
}

/// The invocation of a macro that a node of the tree comes from.
#[derive(Clone, Debug, PartialEq, Eq)]
pub struct MacroInvokation {
    pub macro_ident: DefId,
    pub argument: String,
    pub span: Span,
}

/// The attributes of an item and those of the items around it.
#[derive(Clone, Debug, PartialEq, Eq)]
pub struct ItemAttributes {
    pub attributes: Vec<Attribute>,
    pub parent_attributes: Vec<Attribute>,
}

impl ItemAttributes {
    /// No attributes at all.
    pub fn new() -> (r: ItemAttributes)
        ensures
            r.attributes@.len() == 0,
            r.parent_attributes@.len() == 0,
    {
        ItemAttributes { attributes: Vec::new(), parent_attributes: Vec::new() }
    }

    /// The attributes of an item, given its own and those of each item
    /// around it, from the inside out: the latter are joined in that order.
    pub fn from_owner_id(attributes: Vec<Attribute>, parents: Vec<Vec<Attribute>>) -> (r:
        ItemAttributes)
        ensures
            r.attributes == attributes,
            r.parent_attributes@ == spec_joined(parents@, parents@.len() as int),
    {
        let n = parents.len();
        let mut rest = parents;
        let mut reversed: Vec<Vec<Attribute>> = Vec::new();
        while rest.len() > 0
            invariant
                n == parents@.len(),
                rest@.len() + reversed@.len() == n,
                forall|i: int| 0 <= i < rest@.len() ==> rest@[i] == parents@[i],
                forall|i: int| 0 <= i < reversed@.len() ==> reversed@[i] == parents@[n - 1 - i],
            decreases rest@.len(),
        {
            let x = rest.pop().unwrap();
            reversed.push(x);
        }
        let mut joined: Vec<Attribute> = Vec::new();
        let ghost mut done: int = 0;
        while reversed.len() > 0
            invariant
                n == parents@.len(),
                0 <= done <= n,
                reversed@.len() == n - done,
                forall|i: int| 0 <= i < reversed@.len() ==> reversed@[i] == parents@[n - 1 - i],
                joined@ == spec_joined(parents@, done),
            decreases reversed@.len(),
        {
            let mut next = reversed.pop().unwrap();
            assert(next == parents@[done]);
            joined.append(&mut next);
            proof {
                done = done + 1;
            }
        }
        ItemAttributes { attributes, parent_attributes: joined }
    }
}

/// The attributes of the first `k` lists, one list after the other.
pub open spec fn spec_joined(lists: Seq<Vec<Attribute>>, k: int) -> Seq<Attribute>
    decreases k,
{
    if k <= 0 {
        Seq::empty()
    } else {
        spec_joined(lists, k - 1) + lists[k - 1]@
    }
}

} // verus!
