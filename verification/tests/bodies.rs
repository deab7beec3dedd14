use toni_macros::body::{render_list, Block, Expr};
use toni_macros::metadata::Injection;
use toni_macros::normalize::{modify_return_method_body, normalize_expr};
use toni_macros::rewrite::{find_manager, modify_method_body};

fn text(source: &str) -> Expr {
    Expr::Verbatim(source.to_string())
}

fn field(member: &str) -> Expr {
    Expr::SelfField { member: member.to_string() }
}

fn call(receiver: Expr, method: &str, args: Vec<Expr>) -> Expr {
    Expr::MethodCall { receiver: Box::new(receiver), method: method.to_string(), args }
}

fn ret(value: Expr) -> Expr {
    Expr::Return { value: Some(Box::new(value)) }
}

fn boxed(inner: Expr) -> Expr {
    Expr::Boxed { inner: Box::new(inner) }
}

fn nested(stmts: Vec<Expr>, tail: Option<Expr>) -> Expr {
    Expr::Block { block: Box::new(Block { stmts, tail }) }
}

fn group(parts: Vec<Expr>) -> Expr {
    Expr::Group { parts }
}

fn table() -> Vec<(String, String)> {
    vec![
        ("repo".to_string(), "Repo".to_string()),
        ("mailer".to_string(), "Mailer".to_string()),
    ]
}

fn injection(manager: &str, function: &str, name: &str) -> Injection {
    Injection {
        provider_manager: manager.to_string(),
        source_function: function.to_string(),
        field_name: name.to_string(),
    }
}

#[test]
fn expressions_render_as_source() {
    assert_eq!(text("x + 1").render(), "x + 1");
    assert_eq!(field("repo").render(), "self.repo");
    assert_eq!(call(field("repo"), "find", vec![text("id")]).render(), "self.repo.find(id, )");
    assert_eq!(
        call(text("a"), "zip", vec![text("b"), text("c")]).render(),
        "a.zip(b, c, )"
    );
    assert_eq!(call(field("repo"), "all", vec![]).render(), "self.repo.all()");
    assert_eq!(Expr::Return { value: None }.render(), "return");
    assert_eq!(ret(text("x")).render(), "return x");
    assert_eq!(boxed(text("x")).render(), "Box::new(x)");
    assert_eq!(group(vec![text("a + "), field("n")]).render(), "a + self.n");
    assert_eq!(group(vec![]).render(), "");
}

#[test]
fn blocks_render_with_statements_and_value() {
    let block = Block { stmts: vec![text("let x = 1"), text("log(x)")], tail: Some(text("x")) };
    assert_eq!(block.render(), "{ let x = 1; log(x); x }");
    let no_value = Block { stmts: vec![text("log()")], tail: None };
    assert_eq!(no_value.render(), "{ log(); }");
    let empty = Block { stmts: vec![], tail: None };
    assert_eq!(empty.render(), "{ }");
    assert_eq!(nested(vec![], Some(text("1"))).render(), "{ 1 }");
}

#[test]
fn list_rendering_ends_every_piece() {
    assert_eq!(render_list(&vec![text("a"), text("b")], "; "), "a; b; ");
    assert_eq!(render_list(&vec![], ", "), "");
}

#[test]
fn rendered_blocks_are_rust_blocks() {
    let block = Block {
        stmts: vec![
            group(vec![text("let user = "), call(field("repo"), "find", vec![text("id")])]),
            group(vec![text("if user.is_none() "), nested(vec![ret(boxed(text("404")))], None)]),
        ],
        tail: Some(boxed(call(text("user"), "unwrap", vec![]))),
    };
    let parsed = syn::parse_str::<syn::Block>(&block.render());
    assert!(parsed.is_ok());
    assert_eq!(parsed.unwrap().stmts.len(), 3);
}

#[test]
fn manager_is_the_type_of_the_first_entry() {
    let mut fields = table();
    fields.push(("repo".to_string(), "Other".to_string()));
    assert_eq!(find_manager(&fields, "repo"), Some(&"Repo".to_string()));
    assert_eq!(find_manager(&fields, "mailer"), Some(&"Mailer".to_string()));
    assert_eq!(find_manager(&fields, "cache"), None);
    assert_eq!(find_manager(&Vec::new(), "repo"), None);
}

#[test]
fn dependency_calls_are_rewritten() {
    let mut body = Block {
        stmts: vec![group(vec![
            text("let user = "),
            call(field("repo"), "find", vec![text("id")]),
        ])],
        tail: Some(call(field("repo"), "save", vec![text("user")])),
    };
    let injections = modify_method_body(&mut body, &table());
    assert_eq!(
        body.render(),
        "{ let user = self.repo_find.find(id, ); self.repo_save.save(user, ) }"
    );
    assert_eq!(
        injections,
        vec![injection("Repo", "find", "repo_find"), injection("Repo", "save", "repo_save")]
    );
}

#[test]
fn injections_come_once_in_order_of_first_call() {
    let mut body = Block {
        stmts: vec![
            call(field("repo"), "find", vec![text("1")]),
            call(
                field("mailer"),
                "send",
                vec![call(field("repo"), "find", vec![text("2")]), call(field("repo"), "save", vec![])],
            ),
            call(field("mailer"), "send", vec![text("x")]),
        ],
        tail: Some(call(field("repo"), "find", vec![text("3")])),
    };
    let injections = modify_method_body(&mut body, &table());
    assert_eq!(
        injections,
        vec![
            injection("Repo", "find", "repo_find"),
            injection("Mailer", "send", "mailer_send"),
            injection("Repo", "save", "repo_save"),
        ]
    );
    assert_eq!(
        body.render(),
        "{ self.repo_find.find(1, ); self.mailer_send.send(self.repo_find.find(2, ), self.repo_save.save(), ); self.mailer_send.send(x, ); self.repo_find.find(3, ) }"
    );
}

#[test]
fn other_expressions_are_left_alone() {
    let mut body = Block {
        stmts: vec![
            call(field("cache"), "get", vec![text("k")]),
            field("repo"),
            call(text("repo"), "find", vec![field("repo")]),
            call(call(field("helper"), "make", vec![]), "find", vec![]),
        ],
        tail: Some(text("self.repo.find(1)")),
    };
    let before = body.render();
    let injections = modify_method_body(&mut body, &table());
    assert!(injections.is_empty());
    assert_eq!(body.render(), before);
}

#[test]
fn calls_are_found_at_every_depth() {
    let mut body = Block {
        stmts: vec![group(vec![
            text("if ok "),
            nested(
                vec![ret(boxed(call(
                    call(field("repo"), "find", vec![text("id")]),
                    "unwrap",
                    vec![],
                )))],
                None,
            ),
        ])],
        tail: None,
    };
    let injections = modify_method_body(&mut body, &table());
    assert_eq!(injections, vec![injection("Repo", "find", "repo_find")]);
    assert_eq!(
        body.render(),
        "{ if ok { return Box::new(self.repo_find.find(id, ).unwrap()); }; }"
    );
}

#[test]
fn empty_table_rewrites_nothing() {
    let mut body = Block { stmts: vec![], tail: Some(call(field("repo"), "find", vec![])) };
    let injections = modify_method_body(&mut body, &Vec::new());
    assert!(injections.is_empty());
    assert_eq!(body.render(), "{ self.repo.find() }");
}

#[test]
fn returned_values_are_wrapped() {
    let mut body = Block {
        stmts: vec![group(vec![text("if x "), nested(vec![ret(text("a"))], None)])],
        tail: Some(text("b")),
    };
    modify_return_method_body(&mut body);
    assert_eq!(body.render(), "{ if x { return Box::new(a); }; Box::new(b) }");
}

#[test]
fn final_return_is_wrapped_once() {
    let mut body = Block { stmts: vec![], tail: Some(ret(text("c"))) };
    modify_return_method_body(&mut body);
    assert_eq!(body.render(), "{ return Box::new(c) }");
}

#[test]
fn wrapped_values_stay_as_they_are() {
    let mut body = Block { stmts: vec![ret(boxed(text("a")))], tail: Some(boxed(text("b"))) };
    modify_return_method_body(&mut body);
    assert_eq!(body.render(), "{ return Box::new(a); Box::new(b) }");
}

#[test]
fn bare_return_and_missing_value_stay() {
    let mut body = Block { stmts: vec![Expr::Return { value: None }, text("log()")], tail: None };
    modify_return_method_body(&mut body);
    assert_eq!(body.render(), "{ return; log(); }");
}

#[test]
fn value_of_a_nested_block_is_not_wrapped() {
    let mut body = Block {
        stmts: vec![group(vec![text("let y = "), nested(vec![], Some(text("1")))])],
        tail: Some(nested(vec![ret(text("2"))], Some(text("3")))),
    };
    modify_return_method_body(&mut body);
    assert_eq!(body.render(), "{ let y = { 1 }; Box::new({ return Box::new(2); 3 }) }");
}

#[test]
fn returns_inside_arguments_and_receivers_are_wrapped() {
    let e = call(nested(vec![ret(text("a"))], None), "m", vec![ret(text("b"))]);
    assert_eq!(
        normalize_expr(&e).render(),
        "{ return Box::new(a); }.m(return Box::new(b), )"
    );
}

#[test]
fn normalizing_twice_is_normalizing_once() {
    let mut body = Block {
        stmts: vec![
            group(vec![text("if x "), nested(vec![ret(text("a"))], Some(text("u")))]),
            ret(boxed(text("b"))),
            Expr::Return { value: None },
            ret(call(field("repo"), "find", vec![ret(text("c"))])),
        ],
        tail: Some(call(text("d"), "e", vec![])),
    };
    modify_return_method_body(&mut body);
    let once = body.render();
    let mut again = Block {
        stmts: vec![
            group(vec![text("if x "), nested(vec![ret(boxed(text("a")))], Some(text("u")))]),
            ret(boxed(text("b"))),
            Expr::Return { value: None },
            ret(boxed(call(field("repo"), "find", vec![ret(boxed(text("c")))]))),
        ],
        tail: Some(boxed(call(text("d"), "e", vec![]))),
    };
    assert_eq!(body, again);
    modify_return_method_body(&mut again);
    assert_eq!(again, body);
    assert_eq!(again.render(), once);
}

#[test]
fn rewriting_and_normalizing_commute_on_a_body() {
    let make = || Block {
        stmts: vec![ret(call(field("repo"), "find", vec![text("1")]))],
        tail: Some(call(field("mailer"), "send", vec![])),
    };
    let mut first = make();
    modify_method_body(&mut first, &table());
    modify_return_method_body(&mut first);
    let mut second = make();
    modify_return_method_body(&mut second);
    modify_method_body(&mut second, &table());
    assert_eq!(first, second);
    assert_eq!(
        first.render(),
        "{ return Box::new(self.repo_find.find(1, )); Box::new(self.mailer_send.send()) }"
    );
}
