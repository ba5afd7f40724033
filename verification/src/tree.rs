//! The syntax tree: an immutable structural view of one source file's
//! function declarations, their attributes, parameters and statements,
//! each carrying its real 1-based source position.

use vstd::prelude::*;

verus! {

/// Mathematical value of a `Param`.
pub struct ParamV {
    pub name: Seq<char>,
    pub ty: Seq<char>,
    pub line: int,
    pub column: int,
}

impl ParamV {
    pub open spec fn wf(self) -> bool {
        self.line >= 1 && self.column >= 1
    }
}

/// One declared parameter of a function: its binding, its type text, and
/// where it stands.
#[derive(Debug)]
pub struct Param {
    pub name: String,
    pub ty: String,
    pub line: usize,
    pub column: usize,
}

impl View for Param {
    type V = ParamV;

    open spec fn view(&self) -> ParamV {
        ParamV {
            name: self.name@,
            ty: self.ty@,
            line: self.line as int,
            column: self.column as int,
        }
    }
}

/// Mathematical value of an `AttrDecl`.
pub struct AttrV {
    pub text: Seq<char>,
    pub line: int,
    pub column: int,
}

impl AttrV {
    pub open spec fn wf(self) -> bool {
        self.line >= 1 && self.column >= 1
    }
}

/// One attribute standing above a function declaration.
#[derive(Debug)]
pub struct AttrDecl {
    pub text: String,
    pub line: usize,
    pub column: usize,
}

impl View for AttrDecl {
    type V = AttrV;

    open spec fn view(&self) -> AttrV {
        AttrV { text: self.text@, line: self.line as int, column: self.column as int }
    }
}

/// Mathematical value of a `StmtDecl`.
pub struct StmtV {
    pub text: Seq<char>,
    pub line: int,
    pub column: int,
}

impl StmtV {
    pub open spec fn wf(self) -> bool {
        self.line >= 1 && self.column >= 1
    }
}

/// One statement of a function body, kept as its source text.
#[derive(Debug)]
pub struct StmtDecl {
    pub text: String,
    pub line: usize,
    pub column: usize,
}

impl View for StmtDecl {
    type V = StmtV;

    open spec fn view(&self) -> StmtV {
        StmtV { text: self.text@, line: self.line as int, column: self.column as int }
    }
}

/// Mathematical value of a `FnDecl`.
pub struct FnDeclV {
    pub name: Seq<char>,
    pub sig_text: Seq<char>,
    pub attrs: Seq<AttrV>,
    pub params: Seq<ParamV>,
    pub stmts: Seq<StmtV>,
    pub line: int,
    pub column: int,
}

impl FnDeclV {
    pub open spec fn wf(self) -> bool {
        &&& self.line >= 1
        &&& self.column >= 1
        &&& forall|i: int| 0 <= i < self.attrs.len() ==> (#[trigger] self.attrs[i]).wf()
        &&& forall|i: int| 0 <= i < self.params.len() ==> (#[trigger] self.params[i]).wf()
        &&& forall|i: int| 0 <= i < self.stmts.len() ==> (#[trigger] self.stmts[i]).wf()
    }
}

/// One function declaration: name, signature text, attributes,
/// parameters, and body statements.
#[derive(Debug)]
pub struct FnDecl {
    pub name: String,
    pub sig_text: String,
    pub attrs: Vec<AttrDecl>,
    pub params: Vec<Param>,
    pub stmts: Vec<StmtDecl>,
    pub line: usize,
    pub column: usize,
}

impl View for FnDecl {
    type V = FnDeclV;

    open spec fn view(&self) -> FnDeclV {
        FnDeclV {
            name: self.name@,
            sig_text: self.sig_text@,
            attrs: self.attrs@.map_values(|a: AttrDecl| a@),
            params: self.params@.map_values(|p: Param| p@),
            stmts: self.stmts@.map_values(|st: StmtDecl| st@),
            line: self.line as int,
            column: self.column as int,
        }
    }
}

/// Mathematical value of a `SyntaxTree`.
pub struct SyntaxTreeV {
    pub file: Seq<char>,
    pub functions: Seq<FnDeclV>,
}

impl SyntaxTreeV {
    pub open spec fn wf(self) -> bool {
        forall|i: int| 0 <= i < self.functions.len() ==> (#[trigger] self.functions[i]).wf()
    }
}

/// The parsed representation of one source file: its path and its
/// function declarations, in source order.
#[derive(Debug)]
pub struct SyntaxTree {
    pub file: String,
    pub functions: Vec<FnDecl>,
}

impl View for SyntaxTree {
    type V = SyntaxTreeV;

    open spec fn view(&self) -> SyntaxTreeV {
        SyntaxTreeV { file: self.file@, functions: self.functions@.map_values(|f: FnDecl| f@) }
    }
}

} // verus!
