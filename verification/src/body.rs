//! The body of a method: a tree of statements and expressions. The passes
//! look at member accesses on `self`, method calls, returns, blocks and the
//! response wrapping; all other syntax is carried as text, with the
//! expressions inside it in their places.

use vstd::prelude::*;
use vstd::string::StringExecFns;

use crate::text::views;

verus! {

/// An expression or a statement's content.
#[derive(Debug, PartialEq, Eq)]
pub enum Expr {
    /// Source text that no pass looks into.
    Verbatim(String),
    /// `self.member`.
    SelfField { member: String },
    /// `receiver.method(args)`.
    MethodCall { receiver: Box<Expr>, method: String, args: Vec<Expr> },
    /// `return` or `return value`.
    Return { value: Option<Box<Expr>> },
    /// `Box::new(value)`: a value in the form that the dispatch contract
    /// returns.
    Boxed { inner: Box<Expr> },
    /// `{ ... }`.
    Block { block: Box<Block> },
    /// Any other syntax: its pieces in source order, texts and expressions.
    Group { parts: Vec<Expr> },
}

/// A block: statements, each ended by a semicolon, and the expression that
/// gives the block its value, if there is one.
#[derive(Debug, PartialEq, Eq)]
pub struct Block {
    pub stmts: Vec<Expr>,
    pub tail: Option<Expr>,
}

/// The ghost model of an [`Expr`].
pub enum ExprView {
    Verbatim(Seq<char>),
    SelfField { member: Seq<char> },
    MethodCall { receiver: Box<ExprView>, method: Seq<char>, args: Seq<ExprView> },
    Return { value: Option<Box<ExprView>> },
    Boxed { inner: Box<ExprView> },
    Block { block: Box<BlockView> },
    Group { parts: Seq<ExprView> },
}

/// The ghost model of a [`Block`].
pub struct BlockView {
    pub stmts: Seq<ExprView>,
    pub tail: Option<ExprView>,
}

/// The model of an expression.
pub open spec fn expr_view(e: Expr) -> ExprView
    decreases e,
{
    match e {
        Expr::Verbatim(text) => ExprView::Verbatim(text@),
        Expr::SelfField { member } => ExprView::SelfField { member: member@ },
        Expr::MethodCall { receiver, method, args } => ExprView::MethodCall {
            receiver: Box::new(expr_view(*receiver)),
            method: method@,
            args: exprs_view(args@),
        },
        Expr::Return { value } => ExprView::Return {
            value: match value {
                Some(v) => Some(Box::new(expr_view(*v))),
                None => None,
            },
        },
        Expr::Boxed { inner } => ExprView::Boxed { inner: Box::new(expr_view(*inner)) },
        Expr::Block { block } => ExprView::Block { block: Box::new(block_view(*block)) },
        Expr::Group { parts } => ExprView::Group { parts: exprs_view(parts@) },
    }
}

/// The models of a sequence of expressions.
pub open spec fn exprs_view(es: Seq<Expr>) -> Seq<ExprView>
    decreases es,
{
    Seq::new(
        es.len(),
        |i: int|
            if 0 <= i < es.len() {
                expr_view(es[i])
            } else {
                ExprView::Verbatim(Seq::empty())
            },
    )
}

/// The model of a block.
pub open spec fn block_view(b: Block) -> BlockView
    decreases b,
{
    BlockView {
        stmts: exprs_view(b.stmts@),
        tail: match b.tail {
            Some(e) => Some(expr_view(e)),
            None => None,
        },
    }
}

impl View for Expr {
    type V = ExprView;

    open spec fn view(&self) -> ExprView {
        expr_view(*self)
    }
}

impl View for Block {
    type V = BlockView;

    open spec fn view(&self) -> BlockView {
        block_view(*self)
    }
}

/// The models of a sequence of expressions are its element-wise views.
pub proof fn lemma_exprs_view(es: Seq<Expr>)
    ensures
        exprs_view(es) == views(es),
{
    assert(exprs_view(es) =~= views(es));
}

/// The source text of an expression.
pub open spec fn expr_text(e: ExprView) -> Seq<char>
    decreases e,
{
    match e {
        ExprView::Verbatim(text) => text,
        ExprView::SelfField { member } => "self."@ + member,
        ExprView::MethodCall { receiver, method, args } => expr_text(*receiver) + "."@ + method
            + "("@ + list_text(args, ", "@) + ")"@,
        ExprView::Return { value } => match value {
            Some(v) => "return "@ + expr_text(*v),
            None => "return"@,
        },
        ExprView::Boxed { inner } => "Box::new("@ + expr_text(*inner) + ")"@,
        ExprView::Block { block } => block_text(*block),
        ExprView::Group { parts } => list_text(parts, ""@),
    }
}

/// The source texts of the expressions, each followed by `end`.
pub open spec fn list_text(es: Seq<ExprView>, end: Seq<char>) -> Seq<char>
    decreases es,
{
    if es.len() == 0 {
        Seq::empty()
    } else {
        list_text(es.subrange(0, es.len() - 1), end) + expr_text(es[es.len() - 1]) + end
    }
}

/// The source text of a block, braces included.
pub open spec fn block_text(b: BlockView) -> Seq<char>
    decreases b,
{
    "{ "@ + list_text(b.stmts, "; "@) + match b.tail {
        Some(e) => expr_text(e) + " "@,
        None => Seq::empty(),
    } + "}"@
}

impl Expr {
    /// The source text of the expression.
    pub fn render(&self) -> (text: String)
        ensures
            text@ == expr_text(self@),
        decreases self,
    {
        match self {
            Expr::Verbatim(text) => text.clone(),
            Expr::SelfField { member } => String::from_str("self.").concat(member.as_str()),
            Expr::MethodCall { receiver, method, args } => {
                proof {
                    lemma_exprs_view(args@);
                }
                let mut text = receiver.render();
                text.append(".");
                text.append(method.as_str());
                text.append("(");
                let inner = render_list(args, ", ");
                text.append(inner.as_str());
                text.append(")");
                text
            },
            Expr::Return { value } => match value {
                Some(v) => {
                    let inner = v.render();
                    String::from_str("return ").concat(inner.as_str())
                },
                None => String::from_str("return"),
            },
            Expr::Boxed { inner } => {
                let wrapped = inner.render();
                String::from_str("Box::new(").concat(wrapped.as_str()).concat(")")
            },
            Expr::Block { block } => block.render(),
            Expr::Group { parts } => {
                proof {
                    lemma_exprs_view(parts@);
                }
                render_list(parts, "")
            },
        }
    }
}

/// The source texts of the expressions, each followed by `end`.
pub fn render_list(es: &Vec<Expr>, end: &str) -> (text: String)
    ensures
        text@ == list_text(views(es@), end@),
    decreases es,
{
    let mut text = String::new();
    let mut i: usize = 0;
    while i < es.len()
        invariant
            i <= es.len(),
            text@ == list_text(views(es@).take(i as int), end@),
            forall|j: int| 0 <= j < es.len() ==> decreases_to!(es => #[trigger] es@[j]),
        decreases es.len() - i,
    {
        let piece = es[i].render();
        proof {
            let next = views(es@).take(i + 1);
            assert(next.subrange(0, next.len() - 1) =~= views(es@).take(i as int));
            assert(next[next.len() - 1] == es@[i as int]@);
        }
        text.append(piece.as_str());
        text.append(end);
        i += 1;
    }
    assert(views(es@).take(es.len() as int) =~= views(es@));
    text
}

impl Block {
    /// The source text of the block, braces included.
    pub fn render(&self) -> (text: String)
        ensures
            text@ == block_text(self@),
        decreases self,
    {
        proof {
            lemma_exprs_view(self.stmts@);
        }
        let mut text = String::from_str("{ ");
        let inner = render_list(&self.stmts, "; ");
        text.append(inner.as_str());
        match &self.tail {
            Some(e) => {
                let value = e.render();
                text.append(value.as_str());
                text.append(" ");
            },
            None => {
                assert(text@ + Seq::<char>::empty() =~= text@);
            },
        }
        text.append("}");
        text
    }
}

} // verus!
