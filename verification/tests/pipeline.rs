use toni_macros::attribute::Annotation;
use toni_macros::body::{Block, Expr};
use toni_macros::controller_struct::handle_controller_struct;
use toni_macros::definition::{
    extract_controller_prefix, extract_struct_dependencies, AggregateDefinition, ImplItem,
    MethodContainer, MethodDefinition,
};
use toni_macros::error::ControllerGenerationError;
use toni_macros::http::HttpMethod;
use toni_macros::impl_functions::process_impl_functions;
use toni_macros::metadata::MetadataInfo;
use toni_macros::output::generate_output;
use toni_macros::registry::DependencyInfo;

fn source(text: &str) -> Expr {
    Expr::Verbatim(text.to_string())
}

fn on_field(field: &str, method: &str, args: Vec<Expr>) -> Expr {
    Expr::MethodCall {
        receiver: Box::new(Expr::SelfField { member: field.to_string() }),
        method: method.to_string(),
        args,
    }
}

fn annotated(verb: &str, arguments: &str, name: &str, body: Block) -> ImplItem {
    ImplItem::Method(MethodDefinition {
        name: name.to_string(),
        annotations: vec![Annotation {
            name: verb.to_string(),
            arguments: Some(arguments.to_string()),
        }],
        signature: format!("#[{}({})] fn {}(&self, req: HttpRequest) -> Body", verb, arguments, name),
        body,
    })
}

fn plain(name: &str, body: Block) -> ImplItem {
    ImplItem::Method(MethodDefinition {
        name: name.to_string(),
        annotations: vec![Annotation { name: "inline".to_string(), arguments: None }],
        signature: format!("#[inline] fn {}(&self) -> u8", name),
        body,
    })
}

fn aggregate(prefix: Option<&str>, dependencies: &[(&str, &str)]) -> AggregateDefinition {
    AggregateDefinition {
        name: "UserController".to_string(),
        dependencies: dependencies.iter().map(|(f, t)| (f.to_string(), t.to_string())).collect(),
        prefix: prefix.map(|p| Annotation {
            name: "controller".to_string(),
            arguments: Some(p.to_string()),
        }),
        source: "pub struct UserController { }".to_string(),
    }
}

fn container(items: Vec<ImplItem>) -> MethodContainer {
    MethodContainer { header: "impl UserController".to_string(), items }
}

fn finding(argument: &str) -> Block {
    Block { stmts: vec![], tail: Some(on_field("repo", "find", vec![source(argument)])) }
}

fn manager_of(name: &str, metadata: Vec<MetadataInfo>, types: Vec<String>) -> String {
    let handlers: Vec<String> = metadata.iter().map(|m| m.struct_name.clone()).collect();
    format!(
        "const {}_MANAGER: (&str, &str) = (\"{}\", \"{}\");",
        name.to_uppercase(),
        handlers.join(","),
        types.join(",")
    )
}

#[test]
fn prefix_is_the_literal_of_the_annotation() {
    assert_eq!(extract_controller_prefix(&aggregate(Some("\"/users\""), &[])).unwrap(), "/users");
    assert_eq!(extract_controller_prefix(&aggregate(Some("\"\""), &[])).unwrap(), "");
}

#[test]
fn absent_prefix_is_empty() {
    assert_eq!(extract_controller_prefix(&aggregate(None, &[])).unwrap(), "");
}

#[test]
fn malformed_prefix_is_invalid_format() {
    assert!(matches!(
        extract_controller_prefix(&aggregate(Some("users"), &[])),
        Err(ControllerGenerationError::InvalidAttributeFormat)
    ));
    let bare = AggregateDefinition {
        name: "A".to_string(),
        dependencies: vec![],
        prefix: Some(Annotation { name: "controller".to_string(), arguments: None }),
        source: "struct A;".to_string(),
    };
    assert!(matches!(
        extract_controller_prefix(&bare),
        Err(ControllerGenerationError::InvalidAttributeFormat)
    ));
}

#[test]
fn declared_types_are_listed_once() {
    let info = extract_struct_dependencies(&aggregate(
        None,
        &[("repo", "Repo"), ("mailer", "Mailer"), ("replica", "Repo")],
    ));
    assert_eq!(info.unique_types(), vec!["Repo".to_string(), "Mailer".to_string()]);
    assert!(info.unique_dependencies().is_empty());
    let none = extract_struct_dependencies(&aggregate(None, &[]));
    assert!(none.unique_types().is_empty());
}

#[test]
fn one_annotated_method_gives_one_handler() {
    let users = aggregate(Some("\"/users\""), &[]);
    let mut methods = container(vec![annotated(
        "GET",
        "\"/:id\"",
        "get_user",
        Block { stmts: vec![], tail: Some(source("Body::empty()")) },
    )]);
    let prefix = extract_controller_prefix(&users).unwrap();
    let mut registry = extract_struct_dependencies(&users);
    let (handlers, metadata) = process_impl_functions(
        &mut methods,
        &mut registry,
        &users.dependencies,
        "ControllerTrait",
        &prefix,
    )
    .unwrap();
    assert_eq!(handlers.len(), 1);
    assert_eq!(handlers[0].get_path(), "/users/:id");
    assert_eq!(handlers[0].get_method(), HttpMethod::Get);
    assert!(handlers[0].fields.is_empty());
    assert_eq!(metadata.len(), 1);
    assert!(metadata[0].dependencies.is_empty());
    assert!(registry.unique_dependencies().is_empty());
}

#[test]
fn same_call_in_two_methods_is_a_conflict() {
    let users = aggregate(None, &[("repo", "repo")]);
    let mut methods = container(vec![
        annotated("get", "\"/a\"", "first", finding("1")),
        annotated("get", "\"/b\"", "second", finding("2")),
    ]);
    let mut registry = DependencyInfo::new();
    let outcome =
        process_impl_functions(&mut methods, &mut registry, &users.dependencies, "ControllerTrait", "");
    match outcome {
        Err(ControllerGenerationError::DependencyConflict(identifier)) => {
            assert_eq!(identifier, "find_repo")
        }
        other => panic!("expected a conflict, got {:?}", other),
    }
    assert_eq!(registry.unique_dependencies(), vec!["find_repo".to_string()]);
}

#[test]
fn conflict_names_function_and_type() {
    let users = aggregate(None, &[("repo", "Repo")]);
    let mut methods = container(vec![
        annotated("get", "\"/a\"", "first", finding("1")),
        plain("helper", finding("0")),
        annotated("post", "\"/b\"", "second", finding("2")),
    ]);
    let mut registry = DependencyInfo::new();
    let outcome =
        process_impl_functions(&mut methods, &mut registry, &users.dependencies, "ControllerTrait", "");
    match outcome {
        Err(ControllerGenerationError::DependencyConflict(identifier)) => {
            assert_eq!(identifier, "find_Repo")
        }
        other => panic!("expected a conflict, got {:?}", other),
    }
}

#[test]
fn container_is_untouched_after_an_error() {
    let users = aggregate(None, &[("repo", "Repo")]);
    let make = || {
        container(vec![
            annotated("get", "\"/a\"", "first", finding("1")),
            annotated("get", "7", "second", finding("2")),
        ])
    };
    let mut methods = make();
    let mut registry = DependencyInfo::new();
    let outcome =
        process_impl_functions(&mut methods, &mut registry, &users.dependencies, "ControllerTrait", "");
    assert!(matches!(outcome, Err(ControllerGenerationError::InvalidAttributeFormat)));
    assert_eq!(methods, make());
    assert_eq!(registry.unique_dependencies(), vec!["find_Repo".to_string()]);
}

#[test]
fn first_error_wins() {
    let users = aggregate(None, &[("repo", "Repo")]);
    let mut registry = DependencyInfo::new();
    let mut malformed_first = container(vec![
        annotated("get", "1", "a", finding("1")),
        annotated("get", "\"/b\"", "b", finding("2")),
        annotated("get", "\"/c\"", "c", finding("3")),
    ]);
    assert!(matches!(
        process_impl_functions(
            &mut malformed_first,
            &mut registry,
            &users.dependencies,
            "ControllerTrait",
            ""
        ),
        Err(ControllerGenerationError::InvalidAttributeFormat)
    ));
    assert!(registry.unique_dependencies().is_empty());
    let mut conflict_first = container(vec![
        annotated("get", "\"/b\"", "b", finding("2")),
        annotated("get", "\"/c\"", "c", finding("3")),
        annotated("get", "1", "a", finding("1")),
    ]);
    assert!(matches!(
        process_impl_functions(
            &mut conflict_first,
            &mut registry,
            &users.dependencies,
            "ControllerTrait",
            ""
        ),
        Err(ControllerGenerationError::DependencyConflict(_))
    ));
}

#[test]
fn handlers_come_in_the_order_of_the_methods() {
    let users = aggregate(None, &[("repo", "Repo"), ("mailer", "Mailer")]);
    let mut methods = container(vec![
        ImplItem::Other("const LIMIT: usize = 10;".to_string()),
        annotated("post", "\"/\"", "create", Block {
            stmts: vec![on_field("repo", "save", vec![source("req")])],
            tail: Some(on_field("mailer", "send", vec![])),
        }),
        plain("helper", Block { stmts: vec![], tail: Some(source("1")) }),
        annotated("get", "\"/:id\"", "show", finding("id")),
        annotated("delete", "\"/:id\"", "remove", Block {
            stmts: vec![],
            tail: Some(on_field("repo", "delete", vec![source("id")])),
        }),
    ]);
    let mut registry = DependencyInfo::new();
    let (handlers, metadata) = process_impl_functions(
        &mut methods,
        &mut registry,
        &users.dependencies,
        "ControllerTrait",
        "/users",
    )
    .unwrap();
    let names: Vec<&str> = handlers.iter().map(|h| h.name.as_str()).collect();
    assert_eq!(names, vec!["createController", "showController", "removeController"]);
    let records: Vec<&str> = metadata.iter().map(|m| m.struct_name.as_str()).collect();
    assert_eq!(records, names);
    let verbs: Vec<HttpMethod> = handlers.iter().map(|h| h.get_method()).collect();
    assert_eq!(verbs, vec![HttpMethod::Post, HttpMethod::Get, HttpMethod::Delete]);
    let paths: Vec<String> = handlers.iter().map(|h| h.get_path()).collect();
    assert_eq!(paths, vec!["/users/", "/users/:id", "/users/:id"]);
    for (handler, record) in handlers.iter().zip(metadata.iter()) {
        assert_eq!(handler.fields.len(), record.dependencies.len());
        for (field, binding) in handler.fields.iter().zip(record.dependencies.iter()) {
            assert_eq!(field.field_name, binding.0);
        }
    }
    assert_eq!(metadata[0].dependencies.len(), 2);
    assert_eq!(metadata[1].dependencies.len(), 1);
    assert_eq!(
        registry.unique_dependencies(),
        vec![
            "save_Repo".to_string(),
            "send_Mailer".to_string(),
            "find_Repo".to_string(),
            "delete_Repo".to_string(),
        ]
    );
}

#[test]
fn annotated_methods_get_the_body_of_their_handler() {
    let users = aggregate(None, &[("repo", "Repo")]);
    let mut methods = container(vec![
        plain("helper", finding("0")),
        annotated("get", "\"/:id\"", "show", finding("id")),
        ImplItem::Other("type Id = u64;".to_string()),
    ]);
    let mut registry = DependencyInfo::new();
    let (handlers, _) = process_impl_functions(
        &mut methods,
        &mut registry,
        &users.dependencies,
        "ControllerTrait",
        "",
    )
    .unwrap();
    assert_eq!(methods.items.len(), 3);
    assert_eq!(methods.items[0], plain("helper", finding("0")));
    match &methods.items[1] {
        ImplItem::Method(method) => {
            assert_eq!(method.body, handlers[0].body);
            assert_eq!(method.body.render(), "{ Box::new(self.repo_find.find(id, )) }");
            assert_eq!(method.name, "show");
            assert_eq!(method.annotations.len(), 1);
        }
        _ => panic!("expected a method"),
    }
    assert_eq!(methods.items[2], ImplItem::Other("type Id = u64;".to_string()));
    assert_eq!(
        methods.render(),
        "impl UserController { #[inline] fn helper(&self) -> u8 { self.repo.find(0, ) } \
#[get(\"/:id\")] fn show(&self, req: HttpRequest) -> Body { Box::new(self.repo_find.find(id, )) } \
type Id = u64; }"
    );
}

#[test]
fn container_without_annotated_methods_gives_nothing() {
    let users = aggregate(None, &[("repo", "Repo")]);
    let make = || container(vec![plain("helper", finding("0"))]);
    let mut methods = make();
    let mut registry = DependencyInfo::new();
    let (handlers, metadata) = process_impl_functions(
        &mut methods,
        &mut registry,
        &users.dependencies,
        "ControllerTrait",
        "/x",
    )
    .unwrap();
    assert!(handlers.is_empty());
    assert!(metadata.is_empty());
    assert_eq!(methods, make());
    let mut empty = container(vec![]);
    let (handlers, metadata) =
        process_impl_functions(&mut empty, &mut registry, &users.dependencies, "ControllerTrait", "")
            .unwrap();
    assert!(handlers.is_empty() && metadata.is_empty());
    assert_eq!(empty.render(), "impl UserController { }");
}

#[test]
fn output_keeps_the_fixed_order() {
    let users = aggregate(None, &[]);
    let methods = container(vec![ImplItem::Other("const A: u8 = 1;".to_string())]);
    let text = generate_output(
        &users,
        &methods,
        &vec!["struct B; ".to_string(), "struct A; ".to_string(), "struct B2; ".to_string()],
        "struct Manager;",
    );
    assert_eq!(
        text,
        "#[allow(dead_code)] pub struct UserController { } #[allow(dead_code)] \
impl UserController { const A: u8 = 1; } struct B; struct A; struct B2; struct Manager;"
    );
    let bare = generate_output(&users, &container(vec![]), &Vec::new(), "");
    assert_eq!(
        bare,
        "#[allow(dead_code)] pub struct UserController { } #[allow(dead_code)] impl UserController { } "
    );
}

#[test]
fn expansion_of_one_route() {
    let users = aggregate(Some("\"/users\""), &[]);
    let methods = container(vec![annotated(
        "GET",
        "\"/:id\"",
        "get_user",
        Block { stmts: vec![], tail: Some(source("Body::empty()")) },
    )]);
    let text = handle_controller_struct(&users, methods, "ControllerTrait", manager_of).unwrap();
    let expected = "#[allow(dead_code)] pub struct UserController { } #[allow(dead_code)] \
impl UserController { #[GET(\"/:id\")] fn get_user(&self, req: HttpRequest) -> Body { Box::new(Body::empty()) } } \
struct get_userController { } \
impl ::tonirs_core::traits_helpers::ControllerTrait for get_userController { \
#[inline] fn execute(&self, req: ::tonirs_core::http_helpers::HttpRequest) -> Box<dyn ::tonirs_core::http_helpers::IntoResponse<Response = ::tonirs_core::http_helpers::HttpResponse>> { Box::new(Body::empty()) } \
#[inline] fn get_token(&self) -> String { \"get_userController\".to_string() } \
#[inline] fn get_path(&self) -> String { \"/users/:id\".to_string() } \
#[inline] fn get_method(&self) -> ::tonirs_core::http_helpers::HttpMethod { ::tonirs_core::http_helpers::HttpMethod::from_str(\"GET\").unwrap() } } \
const USERCONTROLLER_MANAGER: (&str, &str) = (\"get_userController\", \"\");";
    assert_eq!(text, expected);
}

#[test]
fn expansion_is_a_compilation_unit() {
    let users = aggregate(Some("\"/users\""), &[("repo", "Repo"), ("mailer", "Mailer")]);
    let methods = container(vec![
        annotated("post", "\"/\"", "create", Block {
            stmts: vec![Expr::Group {
                parts: vec![source("let user = "), on_field("repo", "save", vec![source("req")])],
            }],
            tail: Some(on_field("mailer", "send", vec![source("user")])),
        }),
        plain("helper", Block { stmts: vec![], tail: Some(source("1")) }),
        annotated("get", "\"/:id\"", "show", finding("id")),
    ]);
    let text = handle_controller_struct(&users, methods, "ControllerTrait", manager_of).unwrap();
    let file = syn::parse_str::<syn::File>(&text).unwrap();
    let kinds: Vec<String> = file
        .items
        .iter()
        .map(|item| match item {
            syn::Item::Struct(s) => format!("struct {}", s.ident),
            syn::Item::Impl(_) => "impl".to_string(),
            syn::Item::Const(c) => format!("const {}", c.ident),
            _ => "other".to_string(),
        })
        .collect();
    assert_eq!(
        kinds,
        vec![
            "struct UserController",
            "impl",
            "struct createController",
            "impl",
            "struct showController",
            "impl",
            "const USERCONTROLLER_MANAGER",
        ]
    );
    assert!(text.ends_with("(\"createController,showController\", \"Repo,Mailer\");"));
}

#[test]
fn expansion_runs_the_same_twice() {
    let run = || {
        let users = aggregate(Some("\"/users\""), &[("repo", "Repo")]);
        let methods = container(vec![
            annotated("get", "\"/:id\"", "show", finding("id")),
            annotated("put", "\"/:id\"", "update", Block {
                stmts: vec![],
                tail: Some(on_field("repo", "save", vec![source("req")])),
            }),
        ]);
        handle_controller_struct(&users, methods, "ControllerTrait", manager_of).unwrap()
    };
    let first = run();
    let second = run();
    assert_eq!(first, second);
    assert_eq!(first.as_bytes(), second.as_bytes());
}

#[test]
fn expansion_stops_at_a_malformed_prefix() {
    let users = aggregate(Some("42"), &[("repo", "Repo")]);
    let methods = container(vec![annotated("get", "\"/:id\"", "show", finding("id"))]);
    let outcome = handle_controller_struct(&users, methods, "ControllerTrait", |_, _, _| {
        panic!("the manager generator must not run")
    });
    assert!(matches!(outcome, Err(ControllerGenerationError::InvalidAttributeFormat)));
}

#[test]
fn expansion_stops_at_a_malformed_route() {
    let users = aggregate(Some("\"/users\""), &[]);
    let methods = container(vec![annotated("Get", "123", "show", finding("id"))]);
    let outcome = handle_controller_struct(&users, methods, "ControllerTrait", |_, _, _| {
        panic!("the manager generator must not run")
    });
    assert!(matches!(outcome, Err(ControllerGenerationError::InvalidAttributeFormat)));
}

#[test]
fn expansion_stops_at_a_conflict() {
    let users = aggregate(None, &[("repo", "Repo")]);
    let methods = container(vec![
        annotated("get", "\"/a\"", "first", finding("1")),
        annotated("get", "\"/b\"", "second", finding("2")),
    ]);
    let outcome = handle_controller_struct(&users, methods, "ControllerTrait", |_, _, _| {
        panic!("the manager generator must not run")
    });
    match outcome {
        Err(ControllerGenerationError::DependencyConflict(identifier)) => {
            assert_eq!(identifier, "find_Repo")
        }
        other => panic!("expected a conflict, got {:?}", other),
    }
}

#[test]
fn manager_generator_sees_name_records_and_types() {
    let users = aggregate(None, &[("repo", "Repo"), ("backup", "Repo"), ("mailer", "Mailer")]);
    let methods = container(vec![
        annotated("get", "\"/a\"", "first", finding("1")),
        annotated("get", "\"/b\"", "second", Block {
            stmts: vec![],
            tail: Some(on_field("mailer", "send", vec![])),
        }),
    ]);
    let text = handle_controller_struct(&users, methods, "ControllerTrait", |name, metadata, types| {
        assert_eq!(name, "UserController");
        assert_eq!(
            metadata,
            vec![
                MetadataInfo {
                    struct_name: "firstController".to_string(),
                    dependencies: vec![("repo_find".to_string(), "find_Repo".to_string())],
                },
                MetadataInfo {
                    struct_name: "secondController".to_string(),
                    dependencies: vec![("mailer_send".to_string(), "send_Mailer".to_string())],
                },
            ]
        );
        assert_eq!(types, vec!["Repo".to_string(), "Mailer".to_string()]);
        "struct UserControllerManager;".to_string()
    })
    .unwrap();
    assert!(text.ends_with("struct UserControllerManager;"));
}
