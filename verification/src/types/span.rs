//! Source locations.
use crate::ident::DefId;
use crate::ident::Symbol;
use vstd::prelude::*;

verus! {

/// A position in a file: a line and a column.
#[derive(Debug, PartialEq, Eq)]
pub struct Loc {
    pub line: usize,
    pub col: usize,
}

/// A range of source text: where it starts, where it ends, and the file.
#[derive(Debug, PartialEq, Eq)]
pub struct Span {
    pub lo: Loc,
    pub hi: Loc,
    pub filename: FileName,
}

/// A value with the place where it is written.
#[derive(Clone, Debug, PartialEq, Eq)]
pub struct Spanned<T> {
    pub node: T,
    pub span: Span,
}

/// The name of a file on disk.
#[derive(Debug, PartialEq, Eq)]
pub enum RealFileName {
    LocalPath(String),
    Remapped {
        local_path: Option<String>,
        virtual_name: String,
    },
}

/// The name of a source: a file, or one of the places that text can come from.
#[derive(Debug, PartialEq, Eq)]
pub enum FileName {
    Real(RealFileName),
    QuoteExpansion(u64),
    Anon(u64),
    MacroExpansion(u64),
    ProcMacroSourceCode(u64),
    CfgSpec(u64),
    CliCrateAttr(u64),
    Custom(String),
    DocTest(String),
    InlineAsm(u64),
}

/// The constructs that the compiler rewrites into simpler ones.
#[derive(Clone, Copy, Debug, PartialEq, Eq)]
pub enum DesugaringKind {
    CondTemporary,
    QuestionMark,
    TryBlock,
    YeetExpr,
    OpaqueTy,
    Async,
    Await,
    ForLoop,
    WhileLoop,
}

/// The passes that add code of their own.
#[derive(Clone, Copy, Debug, PartialEq, Eq)]
pub enum AstPass {
    StdImports,
    TestHarness,
    ProcMacroHarness,
}

/// The kinds of macros.
#[derive(Clone, Copy, Debug, PartialEq, Eq)]
pub enum MacroKind {
    Bang,
    Attr,
    Derive,
}

/// What an expansion expands.
#[derive(Clone, Debug, PartialEq, Eq)]
pub enum ExpnKind {
    Root,
    Macro(MacroKind, Symbol),
    AstPass(AstPass),
    Desugaring(DesugaringKind),
}

/// The editions of the language.
#[derive(Clone, Copy, Debug, PartialEq, Eq)]
pub enum Edition {
    Edition2015,
    Edition2018,
    Edition2021,
    Edition2024,
}

/// What is known of one expansion.
#[derive(Clone, Debug, PartialEq, Eq)]
pub struct ExpnData {
    pub kind: ExpnKind,
    pub call_site: Span,
    pub def_site: Span,
    pub allow_internal_unstable: Option<Vec<Symbol>>,
    pub edition: Edition,
    pub macro_def_id: Option<DefId>,
    pub parent_module: Option<DefId>,
    pub allow_internal_unsafe: bool,
    pub local_inner_macros: bool,
    pub collapse_debuginfo: bool,
}

impl Clone for Loc {
    fn clone(&self) -> (r: Loc)
        ensures
            r == *self,
    {
        Loc { line: self.line, col: self.col }
    }
}

impl Clone for RealFileName {
    fn clone(&self) -> (r: RealFileName)
        ensures
            r == *self,
    {
        match self {
            RealFileName::LocalPath(p) => RealFileName::LocalPath(p.clone()),
            RealFileName::Remapped { local_path, virtual_name } => RealFileName::Remapped {
                local_path: match local_path {
                    Some(p) => Some(p.clone()),
                    None => None,
                },
                virtual_name: virtual_name.clone(),
            },
        }
    }
}

impl Clone for FileName {
    fn clone(&self) -> (r: FileName)
        ensures
            r == *self,
    {
        match self {
            FileName::Real(name) => FileName::Real(name.clone()),
            FileName::QuoteExpansion(h) => FileName::QuoteExpansion(*h),
            FileName::Anon(h) => FileName::Anon(*h),
            FileName::MacroExpansion(h) => FileName::MacroExpansion(*h),
            FileName::ProcMacroSourceCode(h) => FileName::ProcMacroSourceCode(*h),
            FileName::CfgSpec(h) => FileName::CfgSpec(*h),
            FileName::CliCrateAttr(h) => FileName::CliCrateAttr(*h),
            FileName::Custom(s) => FileName::Custom(s.clone()),
            FileName::DocTest(s) => FileName::DocTest(s.clone()),
            FileName::InlineAsm(h) => FileName::InlineAsm(*h),
        }
    }
}

impl Clone for Span {
    /// A copy of the span, equal to it in every part.
    fn clone(&self) -> (r: Span)
        ensures
            r == *self,
    {
        Span { lo: self.lo.clone(), hi: self.hi.clone(), filename: self.filename.clone() }
    }
}

} // verus!
