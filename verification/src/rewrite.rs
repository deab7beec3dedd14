//! The dependency rewriter: calls on the aggregate's dependency fields become
//! calls on fields of the handler, and each such call is recorded.

use vstd::prelude::*;

use crate::body::{
    block_view, expr_view, exprs_view, lemma_exprs_view, Block, BlockView, Expr, ExprView,
};
use crate::metadata::{Injection, InjectionView};
use crate::naming::{create_field_name, field_name, lemma_field_name_injective};
use crate::text::{lemma_views_push, str_eq, views};

verus! {

/// The field-to-type table of an aggregate, as a model: each declared
/// dependency field with the type that provides it.
pub type Table = Seq<(Seq<char>, Seq<char>)>;

/// The provider manager of `field`: the type of the first entry of the table
/// that declares the field.
pub open spec fn manager_of(table: Table, field: Seq<char>) -> Option<Seq<char>>
    decreases table.len(),
{
    if table.len() == 0 {
        None
    } else {
        match manager_of(table.drop_last(), field) {
            Some(manager) => Some(manager),
            None => if table.last().0 == field {
                Some(table.last().1)
            } else {
                None
            },
        }
    }
}

/// The injection that a call of `method` on `receiver` is, where the receiver
/// is a dependency field of the aggregate.
pub open spec fn call_site(table: Table, receiver: ExprView, method: Seq<char>) -> Option<
    InjectionView,
> {
    match receiver {
        ExprView::SelfField { member } => match manager_of(table, member) {
            Some(manager) => Some(
                InjectionView {
                    provider_manager: manager,
                    source_function: method,
                    field_name: field_name(member, method),
                },
            ),
            None => None,
        },
        _ => None,
    }
}

/// The expression with every dependency call rewritten: the receiver of such
/// a call is the handler's field, the function and the arguments stay.
pub open spec fn rewritten_expr(e: ExprView, table: Table) -> ExprView
    decreases e,
{
    match e {
        ExprView::Verbatim(text) => e,
        ExprView::SelfField { member } => e,
        ExprView::MethodCall { receiver, method, args } => match call_site(
            table,
            *receiver,
            method,
        ) {
            Some(injection) => ExprView::MethodCall {
                receiver: Box::new(ExprView::SelfField { member: injection.field_name }),
                method: method,
                args: rewritten_exprs(args, table),
            },
            None => ExprView::MethodCall {
                receiver: Box::new(rewritten_expr(*receiver, table)),
                method: method,
                args: rewritten_exprs(args, table),
            },
        },
        ExprView::Return { value } => ExprView::Return {
            value: match value {
                Some(v) => Some(Box::new(rewritten_expr(*v, table))),
                None => None,
            },
        },
        ExprView::Boxed { inner } => ExprView::Boxed {
            inner: Box::new(rewritten_expr(*inner, table)),
        },
        ExprView::Block { block } => ExprView::Block {
            block: Box::new(rewritten_block(*block, table)),
        },
        ExprView::Group { parts } => ExprView::Group { parts: rewritten_exprs(parts, table) },
    }
}

/// The expressions, each rewritten.
pub open spec fn rewritten_exprs(es: Seq<ExprView>, table: Table) -> Seq<ExprView>
    decreases es,
{
    Seq::new(
        es.len(),
        |i: int|
            if 0 <= i < es.len() {
                rewritten_expr(es[i], table)
            } else {
                ExprView::Verbatim(Seq::empty())
            },
    )
}

/// The block with every dependency call in it rewritten.
pub open spec fn rewritten_block(b: BlockView, table: Table) -> BlockView
    decreases b,
{
    BlockView {
        stmts: rewritten_exprs(b.stmts, table),
        tail: match b.tail {
            Some(e) => Some(rewritten_expr(e, table)),
            None => None,
        },
    }
}

/// The dependency calls of an expression in the order of a depth-first walk:
/// a call before the calls in its arguments, and those from left to right.
pub open spec fn sites_expr(e: ExprView, table: Table) -> Seq<InjectionView>
    decreases e,
{
    match e {
        ExprView::Verbatim(text) => Seq::empty(),
        ExprView::SelfField { member } => Seq::empty(),
        ExprView::MethodCall { receiver, method, args } => match call_site(
            table,
            *receiver,
            method,
        ) {
            Some(injection) => seq![injection] + sites_list(args, table),
            None => sites_expr(*receiver, table) + sites_list(args, table),
        },
        ExprView::Return { value } => match value {
            Some(v) => sites_expr(*v, table),
            None => Seq::empty(),
        },
        ExprView::Boxed { inner } => sites_expr(*inner, table),
        ExprView::Block { block } => sites_block(*block, table),
        ExprView::Group { parts } => sites_list(parts, table),
    }
}

/// The dependency calls of the expressions, from left to right.
pub open spec fn sites_list(es: Seq<ExprView>, table: Table) -> Seq<InjectionView>
    decreases es,
{
    if es.len() == 0 {
        Seq::empty()
    } else {
        sites_list(es.subrange(0, es.len() - 1), table) + sites_expr(es[es.len() - 1], table)
    }
}

/// The dependency calls of a block: those of its statements, then those of
/// its value.
pub open spec fn sites_block(b: BlockView, table: Table) -> Seq<InjectionView>
    decreases b,
{
    sites_list(b.stmts, table) + match b.tail {
        Some(e) => sites_expr(e, table),
        None => Seq::empty(),
    }
}

/// The injections `found` with those of `sites` that are new, each once, in
/// the order in which they first occur.
pub open spec fn collect(found: Seq<InjectionView>, sites: Seq<InjectionView>) -> Seq<
    InjectionView,
>
    decreases sites.len(),
{
    if sites.len() == 0 {
        found
    } else {
        let before = collect(found, sites.drop_last());
        if before.contains(sites.last()) {
            before
        } else {
            before.push(sites.last())
        }
    }
}

/// The injections of a method body: its dependency calls, each distinct pair
/// of function and field once, in the order of first occurrence.
pub open spec fn injections_of(body: BlockView, table: Table) -> Seq<InjectionView> {
    collect(Seq::empty(), sites_block(body, table))
}

/// Collecting from two runs of sites in turn is collecting from both at once.
pub proof fn lemma_collect_append(
    found: Seq<InjectionView>,
    first: Seq<InjectionView>,
    second: Seq<InjectionView>,
)
    ensures
        collect(found, first + second) == collect(collect(found, first), second),
    decreases second.len(),
{
    if second.len() == 0 {
        assert(first + second =~= first);
    } else {
        lemma_collect_append(found, first, second.drop_last());
        assert((first + second).drop_last() =~= first + second.drop_last());
    }
}

/// Collecting from one site.
pub proof fn lemma_collect_one(found: Seq<InjectionView>, site: InjectionView)
    ensures
        collect(found, seq![site]) == if found.contains(site) {
            found
        } else {
            found.push(site)
        },
{
    let one = seq![site];
    assert(one.drop_last() =~= Seq::<InjectionView>::empty());
    assert(collect(found, one.drop_last()) == found);
    assert(one.last() == site);
}

/// What was collected holds no injection twice, and keeps what was found
/// before.
pub proof fn lemma_collect_distinct(found: Seq<InjectionView>, sites: Seq<InjectionView>)
    requires
        crate::text::no_duplicates(found),
    ensures
        crate::text::no_duplicates(collect(found, sites)),
        found.is_prefix_of(collect(found, sites)),
        forall|i: int| 0 <= i < sites.len() ==> collect(found, sites).contains(#[trigger] sites[i]),
        forall|x: InjectionView| #[trigger]
            collect(found, sites).contains(x) ==> found.contains(x) || sites.contains(x),
    decreases sites.len(),
{
    if sites.len() > 0 {
        let front = sites.drop_last();
        lemma_collect_distinct(found, front);
        let before = collect(found, front);
        let all = collect(found, sites);
        assert forall|i: int| 0 <= i < sites.len() implies all.contains(#[trigger] sites[i]) by {
            if i < front.len() {
                assert(front[i] == sites[i]);
                let k = choose|k: int| 0 <= k < before.len() && before[k] == front[i];
                assert(all[k] == sites[i]);
            } else {
                if before.contains(sites.last()) {
                } else {
                    assert(all[before.len() as int] == sites[i]);
                }
            }
        }
        assert forall|x: InjectionView| #[trigger] all.contains(x) implies found.contains(x)
            || sites.contains(x) by {
            let k = choose|k: int| 0 <= k < all.len() && all[k] == x;
            if k < before.len() {
                assert(before[k] == x);
                assert(before.contains(x));
                if !found.contains(x) {
                    let j = choose|j: int| 0 <= j < front.len() && front[j] == x;
                    assert(sites[j] == x);
                }
            } else {
                assert(sites[sites.len() - 1] == x);
            }
        }
    }
}

/// The injections of a body are distinct, and every dependency call of the
/// body is one of them.
pub proof fn lemma_injections_distinct(body: BlockView, table: Table)
    ensures
        crate::text::no_duplicates(injections_of(body, table)),
        forall|i: int|
            0 <= i < sites_block(body, table).len() ==> injections_of(body, table).contains(
                #[trigger] sites_block(body, table)[i],
            ),
        forall|x: InjectionView| #[trigger]
            injections_of(body, table).contains(x) ==> sites_block(body, table).contains(x),
{
    lemma_collect_distinct(Seq::empty(), sites_block(body, table));
}

/// Two dependency calls are the same injection exactly where they call the
/// same function on the same field.
pub proof fn lemma_call_site_key(
    table: Table,
    first_field: Seq<char>,
    first_method: Seq<char>,
    second_field: Seq<char>,
    second_method: Seq<char>,
)
    requires
        manager_of(table, first_field) is Some,
        manager_of(table, second_field) is Some,
    ensures
        call_site(table, ExprView::SelfField { member: first_field }, first_method) == call_site(
            table,
            ExprView::SelfField { member: second_field },
            second_method,
        ) <==> first_field == second_field && first_method == second_method,
{
    let first = call_site(table, ExprView::SelfField { member: first_field }, first_method);
    let second = call_site(table, ExprView::SelfField { member: second_field }, second_method);
    if first == second {
        assert(first.unwrap().source_function == second.unwrap().source_function);
        assert(first.unwrap().field_name == second.unwrap().field_name);
        lemma_field_name_injective(first_method, first_field, second_field);
    }
}

/// Looks up the provider manager of a field of the aggregate.
pub fn find_manager<'a>(table: &'a Vec<(String, String)>, field: &str) -> (manager: Option<
    &'a String,
>)
    ensures
        match manager {
            Some(m) => manager_of(views(table@), field@) == Some(m@),
            None => manager_of(views(table@), field@) is None,
        },
{
    let mut i: usize = 0;
    while i < table.len()
        invariant
            i <= table.len(),
            manager_of(views(table@).take(i as int), field@) is None,
        decreases table.len() - i,
    {
        assert(views(table@).take(i + 1).drop_last() =~= views(table@).take(i as int));
        if str_eq(table[i].0.as_str(), field) {
            proof {
                lemma_manager_sticky(views(table@), field@, i + 1);
            }
            return Some(&table[i].1);
        }
        i += 1;
    }
    assert(views(table@).take(table.len() as int) =~= views(table@));
    None
}

/// The manager found in a prefix of the table is the manager found in the
/// whole table.
proof fn lemma_manager_sticky(table: Table, field: Seq<char>, n: int)
    requires
        0 <= n <= table.len(),
        manager_of(table.take(n), field) is Some,
    ensures
        manager_of(table, field) == manager_of(table.take(n), field),
    decreases table.len() - n,
{
    if n < table.len() {
        assert(table.take(n + 1).drop_last() =~= table.take(n));
        lemma_manager_sticky(table, field, n + 1);
    } else {
        assert(table.take(n) =~= table);
    }
}

/// Whether two injections are the same record.
fn same_injection(a: &Injection, b: &Injection) -> (same: bool)
    ensures
        same == (a@ == b@),
{
    str_eq(a.provider_manager.as_str(), b.provider_manager.as_str()) && str_eq(
        a.source_function.as_str(),
        b.source_function.as_str(),
    ) && str_eq(a.field_name.as_str(), b.field_name.as_str())
}

/// Records an injection unless it was recorded before.
fn record(found: &mut Vec<Injection>, injection: Injection)
    ensures
        views(final(found)@) == collect(views(old(found)@), seq![injection@]),
{
    proof {
        lemma_collect_one(views(found@), injection@);
    }
    let mut i: usize = 0;
    while i < found.len()
        invariant
            i <= found.len(),
            found@ == old(found)@,
            forall|j: int| 0 <= j < i ==> views(found@)[j] != injection@,
        decreases found.len() - i,
    {
        if same_injection(&found[i], &injection) {
            proof {
                assert(views(found@)[i as int] == injection@);
                lemma_collect_one(views(found@), injection@);
            }
            return ;
        }
        i += 1;
    }
    proof {
        lemma_views_push(found@, injection);
    }
    found.push(injection);
}

/// Rewrites the dependency calls of an expression and records them.
pub fn rewrite_expr(e: &Expr, table: &Vec<(String, String)>, found: &mut Vec<Injection>) -> (out:
    Expr)
    ensures
        out@ == rewritten_expr(e@, views(table@)),
        views(final(found)@) == collect(views(old(found)@), sites_expr(e@, views(table@))),
    decreases e,
{
    match e {
        Expr::Verbatim(text) => Expr::Verbatim(text.clone()),
        Expr::SelfField { member } => Expr::SelfField { member: member.clone() },
        Expr::MethodCall { receiver, method, args } => {
            proof {
                lemma_exprs_view(args@);
            }
            let ghost start = views(found@);
            let ghost site = call_site(views(table@), receiver@, method@);
            let ghost head = if site is Some {
                seq![site.unwrap()]
            } else {
                sites_expr(receiver@, views(table@))
            };
            let target = match &**receiver {
                Expr::SelfField { member } => match find_manager(table, member.as_str()) {
                    Some(manager) => {
                        let name = create_field_name(member.as_str(), method.as_str());
                        let injection = Injection {
                            provider_manager: manager.clone(),
                            source_function: method.clone(),
                            field_name: name.clone(),
                        };
                        record(found, injection);
                        Some(name)
                    },
                    None => None,
                },
                _ => None,
            };
            let new_receiver = match target {
                Some(name) => Expr::SelfField { member: name },
                None => rewrite_expr(receiver, table, found),
            };
            assert(new_receiver@ == if site is Some {
                ExprView::SelfField { member: site.unwrap().field_name }
            } else {
                rewritten_expr(receiver@, views(table@))
            });
            assert(views(found@) == collect(start, head));
            let new_args = rewrite_list(args, table, found);
            proof {
                lemma_collect_append(start, head, sites_list(views(args@), views(table@)));
                lemma_exprs_view(new_args@);
            }
            Expr::MethodCall { receiver: Box::new(new_receiver), method: method.clone(), args: new_args }
        },
        Expr::Return { value } => match value {
            Some(v) => {
                let inner = rewrite_expr(v, table, found);
                Expr::Return { value: Some(Box::new(inner)) }
            },
            None => Expr::Return { value: None },
        },
        Expr::Boxed { inner } => {
            let wrapped = rewrite_expr(inner, table, found);
            Expr::Boxed { inner: Box::new(wrapped) }
        },
        Expr::Block { block } => {
            let inner = rewrite_block(block, table, found);
            Expr::Block { block: Box::new(inner) }
        },
        Expr::Group { parts } => {
            proof {
                lemma_exprs_view(parts@);
            }
            let new_parts = rewrite_list(parts, table, found);
            proof {
                lemma_exprs_view(new_parts@);
            }
            Expr::Group { parts: new_parts }
        },
    }
}

/// Rewrites the dependency calls of the expressions, from left to right.
pub fn rewrite_list(es: &Vec<Expr>, table: &Vec<(String, String)>, found: &mut Vec<Injection>) -> (out:
    Vec<Expr>)
    ensures
        views(out@) == rewritten_exprs(views(es@), views(table@)),
        views(final(found)@) == collect(views(old(found)@), sites_list(views(es@), views(table@))),
    decreases es,
{
    let ghost start = views(found@);
    let mut out: Vec<Expr> = Vec::new();
    let mut i: usize = 0;
    while i < es.len()
        invariant
            i <= es.len(),
            out@.len() == i,
            forall|j: int| 0 <= j < i ==> (#[trigger] out@[j])@ == rewritten_expr(es@[j]@, views(table@)),
            views(found@) == collect(start, sites_list(views(es@).take(i as int), views(table@))),
            forall|j: int| 0 <= j < es.len() ==> decreases_to!(es => #[trigger] es@[j]),
        decreases es.len() - i,
    {
        let ghost before = sites_list(views(es@).take(i as int), views(table@));
        let piece = rewrite_expr(&es[i], table, found);
        proof {
            let next = views(es@).take(i + 1);
            assert(next.subrange(0, next.len() - 1) =~= views(es@).take(i as int));
            assert(next[next.len() - 1] == es@[i as int]@);
            lemma_collect_append(start, before, sites_expr(es@[i as int]@, views(table@)));
        }
        out.push(piece);
        i += 1;
    }
    assert(views(es@).take(es.len() as int) =~= views(es@));
    assert(views(out@) =~= rewritten_exprs(views(es@), views(table@)));
    out
}

/// Rewrites the dependency calls of a block and records them.
pub fn rewrite_block(b: &Block, table: &Vec<(String, String)>, found: &mut Vec<Injection>) -> (out:
    Block)
    ensures
        out@ == rewritten_block(b@, views(table@)),
        views(final(found)@) == collect(views(old(found)@), sites_block(b@, views(table@))),
    decreases b,
{
    proof {
        lemma_exprs_view(b.stmts@);
    }
    let ghost start = views(found@);
    let stmts = rewrite_list(&b.stmts, table, found);
    proof {
        lemma_exprs_view(stmts@);
    }
    let tail = match &b.tail {
        Some(e) => {
            let value = rewrite_expr(e, table, found);
            proof {
                lemma_collect_append(
                    start,
                    sites_list(views(b.stmts@), views(table@)),
                    sites_expr(e@, views(table@)),
                );
            }
            Some(value)
        },
        None => {
            assert(sites_list(views(b.stmts@), views(table@)) + Seq::<InjectionView>::empty()
                =~= sites_list(views(b.stmts@), views(table@)));
            None
        },
    };
    Block { stmts, tail }
}

/// Rewrites every call on a dependency field of the aggregate into a call on
/// the handler's own field, and lists what was rewritten: one injection for
/// each distinct pair of function and field, in the order of first occurrence.
pub fn modify_method_body(method_body: &mut Block, fields_params: &Vec<(String, String)>) -> (injections:
    Vec<Injection>)
    ensures
        final(method_body)@ == rewritten_block(old(method_body)@, views(fields_params@)),
        views(injections@) == injections_of(old(method_body)@, views(fields_params@)),
{
    let mut injections: Vec<Injection> = Vec::new();
    assert(views(injections@) =~= Seq::<InjectionView>::empty());
    let rewritten = rewrite_block(method_body, fields_params, &mut injections);
    *method_body = rewritten;
    injections
}

} // verus!
