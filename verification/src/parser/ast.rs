//! The syntax tree: declarations and the program that holds them.

use vstd::prelude::*;
use crate::parser::expr::{optional_expr_view, Expr, ExprSpec};
use crate::parser::types::{clone_optional_type, optional_type_view, Type, TypeSpec};

verus! {

/// Who may see a declaration.
#[derive(Debug, Clone, Copy, PartialEq, Eq, Structural)]
pub enum Visibility {
    Public,
    Private,
    Protected,
}

/// `Let` binds a name that cannot be assigned again, `Mut` one that can.
#[derive(Debug, Clone, Copy, PartialEq, Eq, Structural)]
pub enum Mutability {
    Let,
    Mut,
}

/// A variable declaration. On a declaration that analysis has accepted
/// `inferred_type` is set, and `declared_type` and `initializer` are not both
/// absent.
#[derive(Debug, PartialEq)]
pub struct VarDecl {
    pub visibility: Option<Visibility>,
    pub mutability: Mutability,
    pub name: String,
    pub declared_type: Option<Type>,
    pub inferred_type: Option<Type>,
    pub initializer: Option<Expr>,
    pub line: usize,
    pub column: usize,
}

/// The mathematical value of a `VarDecl`.
pub struct VarDeclSpec {
    pub visibility: Option<Visibility>,
    pub mutability: Mutability,
    pub name: Seq<char>,
    pub declared_type: Option<TypeSpec>,
    pub inferred_type: Option<TypeSpec>,
    pub initializer: Option<ExprSpec>,
    pub line: usize,
    pub column: usize,
}

impl View for VarDecl {
    type V = VarDeclSpec;

    open spec fn view(&self) -> VarDeclSpec {
        VarDeclSpec {
            visibility: self.visibility,
            mutability: self.mutability,
            name: self.name@,
            declared_type: optional_type_view(self.declared_type),
            inferred_type: optional_type_view(self.inferred_type),
            initializer: optional_expr_view(self.initializer),
            line: self.line,
            column: self.column,
        }
    }
}

impl Clone for VarDecl {
    fn clone(&self) -> (r: Self)
        ensures
            r@ == self@,
    {
        VarDecl {
            visibility: self.visibility,
            mutability: self.mutability,
            name: self.name.clone(),
            declared_type: clone_optional_type(&self.declared_type),
            inferred_type: clone_optional_type(&self.inferred_type),
            initializer: match &self.initializer {
                Some(e) => Some(e.clone()),
                None => None,
            },
            line: self.line,
            column: self.column,
        }
    }
}

/// A parameter of a function: its name, its type, and where it stands.
#[derive(Debug, PartialEq)]
pub struct Parameter {
    pub name: String,
    pub param_type: Type,
    pub line: usize,
    pub column: usize,
}

/// The mathematical value of a `Parameter`.
pub struct ParameterSpec {
    pub name: Seq<char>,
    pub param_type: TypeSpec,
    pub line: usize,
    pub column: usize,
}

impl View for Parameter {
    type V = ParameterSpec;

    open spec fn view(&self) -> ParameterSpec {
        ParameterSpec {
            name: self.name@,
            param_type: self.param_type@,
            line: self.line,
            column: self.column,
        }
    }
}

impl Clone for Parameter {
    fn clone(&self) -> (r: Self)
        ensures
            r@ == self@,
    {
        Parameter {
            name: self.name.clone(),
            param_type: self.param_type.clone(),
            line: self.line,
            column: self.column,
        }
    }
}

/// The values of a sequence of parameters, in order.
pub open spec fn parameter_views(parameters: Seq<Parameter>) -> Seq<ParameterSpec> {
    parameters.map_values(|p: Parameter| p@)
}

/// A function declaration.
#[derive(Debug, PartialEq)]
pub struct FnDecl {
    pub visibility: Option<Visibility>,
    pub name: String,
    pub parameters: Vec<Parameter>,
    pub return_type: Option<Type>,
    pub body: Option<Expr>,
    pub line: usize,
    pub column: usize,
}

/// The mathematical value of a `FnDecl`.
pub struct FnDeclSpec {
    pub visibility: Option<Visibility>,
    pub name: Seq<char>,
    pub parameters: Seq<ParameterSpec>,
    pub return_type: Option<TypeSpec>,
    pub body: Option<ExprSpec>,
    pub line: usize,
    pub column: usize,
}

impl View for FnDecl {
    type V = FnDeclSpec;

    open spec fn view(&self) -> FnDeclSpec {
        FnDeclSpec {
            visibility: self.visibility,
            name: self.name@,
            parameters: parameter_views(self.parameters@),
            return_type: optional_type_view(self.return_type),
            body: optional_expr_view(self.body),
            line: self.line,
            column: self.column,
        }
    }
}

/// A node of the syntax tree.
#[derive(Debug, PartialEq)]
pub enum ASTNode {
    Program(Program),
    VarDecl(VarDecl),
    FnDecl(FnDecl),
    Expr(Expr),
}

/// A program: its declarations in source order. A declaration that failed to
/// parse is left out.
#[derive(Debug, PartialEq)]
pub struct Program {
    pub declarations: Vec<ASTNode>,
}

/// The mathematical value of an `ASTNode`.
pub enum ASTNodeSpec {
    Program(ProgramSpec),
    VarDecl(VarDeclSpec),
    FnDecl(FnDeclSpec),
    Expr(ExprSpec),
}

/// The mathematical value of a `Program`.
pub struct ProgramSpec {
    pub declarations: Seq<ASTNodeSpec>,
}

/// The value of `node`.
pub open spec fn node_view(node: ASTNode) -> ASTNodeSpec
    decreases node,
{
    match node {
        ASTNode::Program(program) => ASTNodeSpec::Program(
            ProgramSpec {
                declarations: Seq::new(
                    program.declarations@.len(),
                    |i: int|
                        if 0 <= i < program.declarations@.len() {
                            node_view(program.declarations@[i])
                        } else {
                            ASTNodeSpec::Program(ProgramSpec { declarations: Seq::empty() })
                        },
                ),
            },
        ),
        ASTNode::VarDecl(decl) => ASTNodeSpec::VarDecl(decl@),
        ASTNode::FnDecl(decl) => ASTNodeSpec::FnDecl(decl@),
        ASTNode::Expr(e) => ASTNodeSpec::Expr(e@),
    }
}

impl View for ASTNode {
    type V = ASTNodeSpec;

    open spec fn view(&self) -> ASTNodeSpec {
        node_view(*self)
    }
}

/// The values of a sequence of nodes, in order.
pub open spec fn node_views(nodes: Seq<ASTNode>) -> Seq<ASTNodeSpec> {
    Seq::new(nodes.len(), |i: int| node_view(nodes[i]))
}

impl View for Program {
    type V = ProgramSpec;

    open spec fn view(&self) -> ProgramSpec {
        ProgramSpec { declarations: node_views(self.declarations@) }
    }
}

/// A program node's value holds the values of its declarations, in order.
pub proof fn lemma_program_node_view(program: Program)
    ensures
        ASTNode::Program(program)@ == ASTNodeSpec::Program(program@),
{
    assert(ASTNode::Program(program)@->Program_0.declarations =~= node_views(
        program.declarations@,
    ));
}

} // verus!
