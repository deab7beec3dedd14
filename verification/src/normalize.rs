//! The return normalizer: every value that a method body returns is put into
//! the one form that the dispatch contract returns.

use vstd::prelude::*;

use crate::body::{lemma_exprs_view, Block, BlockView, Expr, ExprView};
use crate::text::views;

verus! {

/// The expression in the wrapping of a response; an expression that is
/// wrapped already stays as it is.
pub open spec fn wrapped(e: ExprView) -> ExprView {
    if e is Boxed {
        e
    } else {
        ExprView::Boxed { inner: Box::new(e) }
    }
}

/// The expression with the value of every `return` in it wrapped.
pub open spec fn normalized_expr(e: ExprView) -> ExprView
    decreases e,
{
    match e {
        ExprView::Verbatim(text) => e,
        ExprView::SelfField { member } => e,
        ExprView::MethodCall { receiver, method, args } => ExprView::MethodCall {
            receiver: Box::new(normalized_expr(*receiver)),
            method: method,
            args: normalized_exprs(args),
        },
        ExprView::Return { value } => ExprView::Return {
            value: match value {
                Some(v) => Some(Box::new(wrapped(normalized_expr(*v)))),
                None => None,
            },
        },
        ExprView::Boxed { inner } => ExprView::Boxed { inner: Box::new(normalized_expr(*inner)) },
        ExprView::Block { block } => ExprView::Block {
            block: Box::new(normalized_nested(*block)),
        },
        ExprView::Group { parts } => ExprView::Group { parts: normalized_exprs(parts) },
    }
}

/// The expressions, each with its returns wrapped.
pub open spec fn normalized_exprs(es: Seq<ExprView>) -> Seq<ExprView>
    decreases es,
{
    Seq::new(
        es.len(),
        |i: int|
            if 0 <= i < es.len() {
                normalized_expr(es[i])
            } else {
                ExprView::Verbatim(Seq::empty())
            },
    )
}

/// A block inside a body with its returns wrapped. Its value is the value of
/// an expression of the body, not of the body, and stays unwrapped.
pub open spec fn normalized_nested(b: BlockView) -> BlockView
    decreases b,
{
    BlockView {
        stmts: normalized_exprs(b.stmts),
        tail: match b.tail {
            Some(e) => Some(normalized_expr(e)),
            None => None,
        },
    }
}

/// The final expression of a body, normalized: a `return` as every other
/// `return`, any other expression wrapped as the value that the body gives.
pub open spec fn normalized_tail(e: ExprView) -> ExprView {
    if e is Return {
        normalized_expr(e)
    } else {
        wrapped(normalized_expr(e))
    }
}

/// The body with every value that it returns wrapped: the value of each
/// `return`, and the value of its final expression.
pub open spec fn normalized_body(b: BlockView) -> BlockView {
    BlockView {
        stmts: normalized_exprs(b.stmts),
        tail: match b.tail {
            Some(e) => Some(normalized_tail(e)),
            None => None,
        },
    }
}

/// Normalizing an expression a second time changes nothing.
pub proof fn lemma_normalized_expr_idempotent(e: ExprView)
    ensures
        normalized_expr(normalized_expr(e)) == normalized_expr(e),
    decreases e,
{
    match e {
        ExprView::Verbatim(text) => {},
        ExprView::SelfField { member } => {},
        ExprView::MethodCall { receiver, method, args } => {
            lemma_normalized_expr_idempotent(*receiver);
            lemma_normalized_exprs_idempotent(args);
        },
        ExprView::Return { value } => {
            match value {
                Some(v) => {
                    lemma_normalized_expr_idempotent(*v);
                    let once = normalized_expr(*v);
                    lemma_wrapped_stable(once);
                },
                None => {},
            }
        },
        ExprView::Boxed { inner } => {
            lemma_normalized_expr_idempotent(*inner);
        },
        ExprView::Block { block } => {
            lemma_normalized_nested_idempotent(*block);
        },
        ExprView::Group { parts } => {
            lemma_normalized_exprs_idempotent(parts);
        },
    }
}

/// Wrapping a normalized expression, normalizing and wrapping again gives the
/// wrapped expression.
proof fn lemma_wrapped_stable(once: ExprView)
    requires
        normalized_expr(once) == once,
    ensures
        wrapped(normalized_expr(wrapped(once))) == wrapped(once),
{
}

/// Normalizing each of the expressions a second time changes nothing.
pub proof fn lemma_normalized_exprs_idempotent(es: Seq<ExprView>)
    ensures
        normalized_exprs(normalized_exprs(es)) == normalized_exprs(es),
    decreases es,
{
    assert forall|i: int| 0 <= i < es.len() implies normalized_expr(normalized_expr(es[i]))
        == normalized_expr(es[i]) by {
        lemma_normalized_expr_idempotent(es[i]);
    }
    assert(normalized_exprs(normalized_exprs(es)) =~= normalized_exprs(es));
}

/// Normalizing a nested block a second time changes nothing.
pub proof fn lemma_normalized_nested_idempotent(b: BlockView)
    ensures
        normalized_nested(normalized_nested(b)) == normalized_nested(b),
    decreases b,
{
    lemma_normalized_exprs_idempotent(b.stmts);
    match b.tail {
        Some(e) => {
            lemma_normalized_expr_idempotent(e);
        },
        None => {},
    }
}

/// The return normalizer is idempotent: on a body that it has normalized, it
/// changes nothing.
pub proof fn lemma_normalized_body_idempotent(b: BlockView)
    ensures
        normalized_body(normalized_body(b)) == normalized_body(b),
{
    lemma_normalized_exprs_idempotent(b.stmts);
    match b.tail {
        Some(e) => {
            lemma_normalized_expr_idempotent(e);
            if !(e is Return) {
                lemma_wrapped_stable(normalized_expr(e));
            }
        },
        None => {},
    }
}

/// Puts an expression into the wrapping of a response.
fn wrap(e: Expr) -> (out: Expr)
    ensures
        out@ == wrapped(e@),
{
    match e {
        Expr::Boxed { inner } => Expr::Boxed { inner },
        other => Expr::Boxed { inner: Box::new(other) },
    }
}

/// Wraps the value of every `return` in the expression.
pub fn normalize_expr(e: &Expr) -> (out: Expr)
    ensures
        out@ == normalized_expr(e@),
    decreases e,
{
    match e {
        Expr::Verbatim(text) => Expr::Verbatim(text.clone()),
        Expr::SelfField { member } => Expr::SelfField { member: member.clone() },
        Expr::MethodCall { receiver, method, args } => {
            proof {
                lemma_exprs_view(args@);
            }
            let new_receiver = normalize_expr(receiver);
            let new_args = normalize_list(args);
            proof {
                lemma_exprs_view(new_args@);
            }
            Expr::MethodCall { receiver: Box::new(new_receiver), method: method.clone(), args: new_args }
        },
        Expr::Return { value } => match value {
            Some(v) => {
                let inner = wrap(normalize_expr(v));
                Expr::Return { value: Some(Box::new(inner)) }
            },
            None => Expr::Return { value: None },
        },
        Expr::Boxed { inner } => {
            let value = normalize_expr(inner);
            Expr::Boxed { inner: Box::new(value) }
        },
        Expr::Block { block } => {
            let inner = normalize_nested(block);
            Expr::Block { block: Box::new(inner) }
        },
        Expr::Group { parts } => {
            proof {
                lemma_exprs_view(parts@);
            }
            let new_parts = normalize_list(parts);
            proof {
                lemma_exprs_view(new_parts@);
            }
            Expr::Group { parts: new_parts }
        },
    }
}

/// Wraps the value of every `return` in each of the expressions.
pub fn normalize_list(es: &Vec<Expr>) -> (out: Vec<Expr>)
    ensures
        views(out@) == normalized_exprs(views(es@)),
    decreases es,
{
    let mut out: Vec<Expr> = Vec::new();
    let mut i: usize = 0;
    while i < es.len()
        invariant
            i <= es.len(),
            out@.len() == i,
            forall|j: int| 0 <= j < i ==> (#[trigger] out@[j])@ == normalized_expr(es@[j]@),
            forall|j: int| 0 <= j < es.len() ==> decreases_to!(es => #[trigger] es@[j]),
        decreases es.len() - i,
    {
        let piece = normalize_expr(&es[i]);
        out.push(piece);
        i += 1;
    }
    assert(views(out@) =~= normalized_exprs(views(es@)));
    out
}

/// Wraps the value of every `return` in a block that stands inside a body.
pub fn normalize_nested(b: &Block) -> (out: Block)
    ensures
        out@ == normalized_nested(b@),
    decreases b,
{
    proof {
        lemma_exprs_view(b.stmts@);
    }
    let stmts = normalize_list(&b.stmts);
    proof {
        lemma_exprs_view(stmts@);
    }
    let tail = match &b.tail {
        Some(e) => Some(normalize_expr(e)),
        None => None,
    };
    Block { stmts, tail }
}

/// Rewrites a method body so that every value it returns has the form that
/// the dispatch contract returns: the value of each `return`, and the value
/// of the final expression, is wrapped unless it is wrapped already.
pub fn modify_return_method_body(method_body: &mut Block)
    ensures
        final(method_body)@ == normalized_body(old(method_body)@),
{
    proof {
        lemma_exprs_view(method_body.stmts@);
    }
    let stmts = normalize_list(&method_body.stmts);
    proof {
        lemma_exprs_view(stmts@);
    }
    let tail = match &method_body.tail {
        Some(e) => {
            let value = normalize_expr(e);
            match e {
                Expr::Return { .. } => Some(value),
                _ => Some(wrap(value)),
            }
        },
        None => None,
    };
    *method_body = Block { stmts, tail };
}

} // verus!
