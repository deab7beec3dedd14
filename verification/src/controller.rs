//! The handler synthesizer: one annotated method becomes one handler and its
//! metadata record.

use vstd::prelude::*;
use vstd::string::StringExecFns;

use crate::attribute::{
    attr_to_literal, attr_to_string, is_http_method_attribute, literal_argument, route_of,
    Annotation, AnnotationView,
};
use crate::body::{block_text, Block, BlockView};
use crate::definition::{MethodDefinition, MethodView};
use crate::error::{ControllerGenerationError, ErrorView};
use crate::http::HttpMethod;
use crate::metadata::{
    FieldDefinition, FieldDefinitionView, Injection, InjectionView, MetadataInfo,
    MetadataInfoView,
};
use crate::naming::{
    create_provider_name_by_fn_and_struct_ident, create_struct_name, create_type_reference,
    provider_name, struct_name, type_reference,
};
use crate::normalize::{modify_return_method_body, normalized_body};
use crate::registry::{register_all, DependencyInfo};
use crate::rewrite::{injections_of, rewrite_block, rewritten_block, Table};
use crate::text::{concat, views};

verus! {

/// A synthesized handler: the type that stands for one annotated method.
#[derive(Debug, PartialEq, Eq)]
pub struct Handler {
    /// The name of the handler type.
    pub name: String,
    /// The fields of the handler type, one for each injection.
    pub fields: Vec<FieldDefinition>,
    /// What `execute` runs: the method's body, rewritten and normalized.
    pub body: Block,
    /// The token under which the handler is registered.
    pub token: String,
    /// The route: the aggregate's prefix, then the method's own path.
    pub path: String,
    /// The HTTP verb that the handler answers.
    pub method: HttpMethod,
    /// The name of the dispatch contract that the handler implements.
    pub contract: String,
}

/// The ghost model of a [`Handler`].
pub struct HandlerView {
    pub name: Seq<char>,
    pub fields: Seq<FieldDefinitionView>,
    pub body: BlockView,
    pub token: Seq<char>,
    pub path: Seq<char>,
    pub method: HttpMethod,
    pub contract: Seq<char>,
}

impl View for Handler {
    type V = HandlerView;

    open spec fn view(&self) -> HandlerView {
        HandlerView {
            name: self.name@,
            fields: views(self.fields@),
            body: self.body@,
            token: self.token@,
            path: self.path@,
            method: self.method,
            contract: self.contract@,
        }
    }
}

/// What stands for one character inside a string literal.
pub open spec fn escaped_char(c: char) -> Seq<char> {
    if c == '\\' {
        "\\\\"@
    } else if c == '"' {
        "\\\""@
    } else if c == '\n' {
        "\\n"@
    } else if c == '\r' {
        "\\r"@
    } else if c == '\t' {
        "\\t"@
    } else {
        seq![c]
    }
}

/// The characters of a text as they stand inside a string literal.
pub open spec fn escaped(value: Seq<char>) -> Seq<char>
    decreases value.len(),
{
    if value.len() == 0 {
        Seq::empty()
    } else {
        escaped(value.drop_last()) + escaped_char(value.last())
    }
}

/// The string literal that has `value` for its value.
pub open spec fn literal_text(value: Seq<char>) -> Seq<char> {
    "\""@ + escaped(value) + "\""@
}

/// The declarations of the fields of a handler type.
pub open spec fn fields_text(fields: Seq<FieldDefinitionView>) -> Seq<char>
    decreases fields.len(),
{
    if fields.len() == 0 {
        Seq::empty()
    } else {
        fields_text(fields.drop_last()) + fields.last().field_name + ": "@
            + fields.last().capability_type + ", "@
    }
}

/// The source text of a handler: the declaration of its type, and its
/// implementation of the dispatch contract.
pub open spec fn handler_text(handler: HandlerView) -> Seq<char> {
    "struct "@ + handler.name + " { "@ + fields_text(handler.fields) + "} "@
        + "impl ::tonirs_core::traits_helpers::"@ + handler.contract + " for "@ + handler.name
        + " { "@
        + "#[inline] fn execute(&self, req: ::tonirs_core::http_helpers::HttpRequest) -> Box<dyn ::tonirs_core::http_helpers::IntoResponse<Response = ::tonirs_core::http_helpers::HttpResponse>> "@
        + block_text(handler.body) + " "@ + "#[inline] fn get_token(&self) -> String { "@
        + literal_text(handler.token) + ".to_string() } "@
        + "#[inline] fn get_path(&self) -> String { "@ + literal_text(handler.path)
        + ".to_string() } "@
        + "#[inline] fn get_method(&self) -> ::tonirs_core::http_helpers::HttpMethod { ::tonirs_core::http_helpers::HttpMethod::from_str("@
        + literal_text(handler.method.spec_as_str()) + ").unwrap() } } "@
}

/// Writes `value` as a string literal.
pub fn render_literal(value: &str) -> (text: String)
    ensures
        text@ == literal_text(value@),
{
    let mut text = String::from_str("\"");
    let n = value.unicode_len();
    let mut i: usize = 0;
    while i < n
        invariant
            n == value@.len(),
            i <= n,
            text@ == "\""@ + escaped(value@.take(i as int)),
        decreases n - i,
    {
        let c = value.get_char(i);
        proof {
            let next = value@.take(i + 1);
            assert(next.drop_last() =~= value@.take(i as int));
            assert(next.last() == c);
        }
        if c == '\\' {
            text.append("\\\\");
        } else if c == '"' {
            text.append("\\\"");
        } else if c == '\n' {
            text.append("\\n");
        } else if c == '\r' {
            text.append("\\r");
        } else if c == '\t' {
            text.append("\\t");
        } else {
            let piece = value.substring_char(i, i + 1);
            assert(piece@ =~= seq![c]);
            text.append(piece);
        }
        i += 1;
    }
    assert(value@.take(n as int) =~= value@);
    text.append("\"");
    text
}

impl Handler {
    /// The token under which the handler is registered.
    pub fn get_token(&self) -> (token: String)
        ensures
            token@ == self@.token,
    {
        self.token.clone()
    }

    /// The route of the handler: the prefix and the method's own path, one
    /// after the other as they were given.
    pub fn get_path(&self) -> (path: String)
        ensures
            path@ == self@.path,
    {
        self.path.clone()
    }

    /// The HTTP verb that the handler answers.
    pub fn get_method(&self) -> (method: HttpMethod)
        ensures
            method == self@.method,
    {
        self.method
    }

    /// The source text of the handler.
    pub fn render(&self) -> (text: String)
        ensures
            text@ == handler_text(self@),
    {
        let mut fields = String::new();
        let mut i: usize = 0;
        while i < self.fields.len()
            invariant
                i <= self.fields.len(),
                fields@ == fields_text(views(self.fields@).take(i as int)),
            decreases self.fields.len() - i,
        {
            proof {
                let next = views(self.fields@).take(i + 1);
                assert(next.drop_last() =~= views(self.fields@).take(i as int));
                assert(next.last() == self.fields@[i as int]@);
            }
            fields.append(self.fields[i].field_name.as_str());
            fields.append(": ");
            fields.append(self.fields[i].capability_type.as_str());
            fields.append(", ");
            i += 1;
        }
        assert(views(self.fields@).take(self.fields.len() as int) =~= views(self.fields@));
        let body = self.body.render();
        let token = render_literal(self.token.as_str());
        let path = render_literal(self.path.as_str());
        let verb = render_literal(self.method.as_str());
        let mut text = String::from_str("struct ");
        text.append(self.name.as_str());
        text.append(" { ");
        text.append(fields.as_str());
        text.append("} ");
        text.append("impl ::tonirs_core::traits_helpers::");
        text.append(self.contract.as_str());
        text.append(" for ");
        text.append(self.name.as_str());
        text.append(" { ");
        text.append(
            "#[inline] fn execute(&self, req: ::tonirs_core::http_helpers::HttpRequest) -> Box<dyn ::tonirs_core::http_helpers::IntoResponse<Response = ::tonirs_core::http_helpers::HttpResponse>> ",
        );
        text.append(body.as_str());
        text.append(" ");
        text.append("#[inline] fn get_token(&self) -> String { ");
        text.append(token.as_str());
        text.append(".to_string() } ");
        text.append("#[inline] fn get_path(&self) -> String { ");
        text.append(path.as_str());
        text.append(".to_string() } ");
        text.append(
            "#[inline] fn get_method(&self) -> ::tonirs_core::http_helpers::HttpMethod { ::tonirs_core::http_helpers::HttpMethod::from_str(",
        );
        text.append(verb.as_str());
        text.append(").unwrap() } } ");
        text
    }
}

/// Assembles a handler from its parts. The route is the prefix followed by
/// the path, with nothing put between them and nothing taken away. The verb
/// must name a known HTTP method.
pub fn generate_controller_code(
    controller_name: &str,
    field_defs: Vec<FieldDefinition>,
    method_body: Block,
    controller_token: &str,
    route_prefix: &str,
    route_path: &str,
    http_method: &str,
    trait_name: &str,
) -> (handler: Handler)
    requires
        HttpMethod::spec_from_str(http_method@) is Some,
    ensures
        handler@ == (HandlerView {
            name: controller_name@,
            fields: views(field_defs@),
            body: method_body@,
            token: controller_token@,
            path: route_prefix@ + route_path@,
            method: HttpMethod::spec_from_str(http_method@).unwrap(),
            contract: trait_name@,
        }),
{
    let full_route_path = concat(route_prefix, route_path);
    let method = HttpMethod::from_str(http_method).unwrap();
    Handler {
        name: controller_name.to_string(),
        fields: field_defs,
        body: method_body,
        token: controller_token.to_string(),
        path: full_route_path,
        method,
        contract: trait_name.to_string(),
    }
}

/// The provider identifiers of the injections, in their order.
pub open spec fn provider_names(injections: Seq<InjectionView>) -> Seq<Seq<char>> {
    Seq::new(
        injections.len(),
        |i: int| provider_name(injections[i].source_function, injections[i].provider_manager),
    )
}

/// The fields that a handler has for the injections, in their order: each is
/// typed as a provider capability.
pub open spec fn field_definitions(injections: Seq<InjectionView>) -> Seq<FieldDefinitionView> {
    Seq::new(
        injections.len(),
        |i: int|
            FieldDefinitionView {
                field_name: injections[i].field_name,
                capability_type: type_reference("ProviderTrait"@, true, true, true),
            },
    )
}

/// The bindings that the metadata records for the injections, in their
/// order: each field with the provider identifier it is bound to.
pub open spec fn bindings(injections: Seq<InjectionView>) -> Seq<(Seq<char>, Seq<char>)> {
    Seq::new(
        injections.len(),
        |i: int|
            (
                injections[i].field_name,
                provider_name(injections[i].source_function, injections[i].provider_manager),
            ),
    )
}

/// The body that a handler runs: the method's body with its dependency calls
/// rewritten, then its returned values normalized.
pub open spec fn processed_body(body: BlockView, table: Table) -> BlockView {
    normalized_body(rewritten_block(body, table))
}

/// The handler that is synthesized for a method.
pub open spec fn handler_of(
    method: MethodView,
    table: Table,
    trait_name: Seq<char>,
    route_prefix: Seq<char>,
    verb: HttpMethod,
    route_path: Seq<char>,
) -> HandlerView {
    HandlerView {
        name: struct_name("Controller"@, method.name),
        fields: field_definitions(injections_of(method.body, table)),
        body: processed_body(method.body, table),
        token: struct_name("Controller"@, method.name),
        path: route_prefix + route_path,
        method: verb,
        contract: trait_name,
    }
}

/// The metadata record of the handler that is synthesized for a method.
pub open spec fn metadata_of(method: MethodView, table: Table) -> MetadataInfoView {
    MetadataInfoView {
        struct_name: struct_name("Controller"@, method.name),
        dependencies: bindings(injections_of(method.body, table)),
    }
}

/// What the synthesis of one handler gives, and what it leaves registered:
/// the provider identifiers of the method's injections are registered in
/// their order, and the first one that is registered already ends the
/// synthesis with a conflict.
pub open spec fn synthesis(
    method: MethodView,
    table: Table,
    registered: Seq<Seq<char>>,
    trait_name: Seq<char>,
    route_prefix: Seq<char>,
    verb: HttpMethod,
    route_path: Seq<char>,
) -> (Result<(HandlerView, MetadataInfoView), ErrorView>, Seq<Seq<char>>) {
    let (after, conflict) = register_all(
        registered,
        provider_names(injections_of(method.body, table)),
    );
    match conflict {
        Some(identifier) => (Err(ErrorView::DependencyConflict(identifier)), after),
        None => (
            Ok(
                (
                    handler_of(method, table, trait_name, route_prefix, verb, route_path),
                    metadata_of(method, table),
                ),
            ),
            after,
        ),
    }
}

/// What the generation from an annotated method gives, and what it leaves
/// registered: an annotation whose argument is not one string literal ends it
/// before anything is registered; else the handler is synthesized for the
/// annotation's verb and path.
pub open spec fn generation(
    method: MethodView,
    table: Table,
    registered: Seq<Seq<char>>,
    trait_name: Seq<char>,
    route_prefix: Seq<char>,
    attribute: AnnotationView,
) -> (Result<(HandlerView, MetadataInfoView), ErrorView>, Seq<Seq<char>>) {
    match route_of(attribute) {
        Ok((verb, route_path)) => synthesis(
            method,
            table,
            registered,
            trait_name,
            route_prefix,
            verb,
            route_path,
        ),
        Err(e) => (Err(e), registered),
    }
}

/// Routes are composed by concatenation alone: the route of a generated
/// handler is the prefix followed by the literal path of the annotation, so
/// it is as long as both together, begins with the one and ends with the
/// other.
pub proof fn lemma_route_composition(
    method: MethodView,
    table: Table,
    registered: Seq<Seq<char>>,
    trait_name: Seq<char>,
    route_prefix: Seq<char>,
    attribute: AnnotationView,
)
    requires
        generation(method, table, registered, trait_name, route_prefix, attribute).0 is Ok,
    ensures
        ({
            let handler = generation(
                method,
                table,
                registered,
                trait_name,
                route_prefix,
                attribute,
            ).0->Ok_0.0;
            &&& literal_argument(attribute) matches Some(route_path)
            &&& handler.path == route_prefix + route_path
            &&& handler.path.len() == route_prefix.len() + route_path.len()
            &&& handler.path.subrange(0, route_prefix.len() as int) == route_prefix
            &&& handler.path.subrange(route_prefix.len() as int, handler.path.len() as int)
                == route_path
        }),
{
    let route_path = literal_argument(attribute).unwrap();
    let path = route_prefix + route_path;
    assert(path.subrange(0, route_prefix.len() as int) =~= route_prefix);
    assert(path.subrange(route_prefix.len() as int, path.len() as int) =~= route_path);
}

/// The model of what a generation returns.
pub open spec fn outcome_view(
    outcome: Result<(Handler, MetadataInfo), ControllerGenerationError>,
) -> Result<(HandlerView, MetadataInfoView), ErrorView> {
    match outcome {
        Ok((handler, metadata)) => Ok((handler@, metadata@)),
        Err(e) => Err(e@),
    }
}

/// Synthesizes the handler of a method for a verb and a route path that were
/// read from its annotation already. The body is rewritten and normalized,
/// each injection is registered under its provider identifier, and the
/// handler gets one field and one binding for each injection. The first
/// identifier that is registered already ends the synthesis.
pub fn generate_controller_with_route(
    implementation_fn: &MethodDefinition,
    fields_params: &Vec<(String, String)>,
    unique_dependencies: &mut DependencyInfo,
    trait_reference_name: &str,
    route_prefix: &str,
    http_method: &str,
    route_path: &str,
) -> (outcome: Result<(Handler, MetadataInfo), ControllerGenerationError>)
    requires
        HttpMethod::spec_from_str(http_method@) is Some,
    ensures
        (outcome_view(outcome), final(unique_dependencies).dependencies()) == synthesis(
            implementation_fn@,
            views(fields_params@),
            old(unique_dependencies).dependencies(),
            trait_reference_name@,
            route_prefix@,
            HttpMethod::spec_from_str(http_method@).unwrap(),
            route_path@,
        ),
        final(unique_dependencies).types() == old(unique_dependencies).types(),
        old(unique_dependencies).wf() ==> final(unique_dependencies).wf(),
{
    let controller_name = create_struct_name("Controller", implementation_fn.name.as_str());
    let controller_token = controller_name.clone();

    let mut injections: Vec<Injection> = Vec::new();
    assert(views(injections@) =~= Seq::<InjectionView>::empty());
    let mut modified_block = rewrite_block(&implementation_fn.body, fields_params, &mut injections);
    modify_return_method_body(&mut modified_block);

    let ghost found = injections_of(implementation_fn@.body, views(fields_params@));
    let ghost names = provider_names(found);
    let ghost before = old(unique_dependencies).dependencies();
    let mut dependencies: Vec<(String, String)> = Vec::new();
    let mut field_definitions: Vec<FieldDefinition> = Vec::new();
    let mut i: usize = 0;
    while i < injections.len()
        invariant
            i <= injections.len(),
            views(injections@) == found,
            found == injections_of(implementation_fn@.body, views(fields_params@)),
            names == provider_names(found),
            before == old(unique_dependencies).dependencies(),
            HttpMethod::spec_from_str(http_method@) is Some,
            register_all(before, names.take(i as int)) == (
                unique_dependencies.dependencies(),
                None::<Seq<char>>,
            ),
            unique_dependencies.types() == old(unique_dependencies).types(),
            old(unique_dependencies).wf() ==> unique_dependencies.wf(),
            views(dependencies@) == bindings(found).take(i as int),
            views(field_definitions@) == self::field_definitions(found).take(i as int),
        decreases injections.len() - i,
    {
        let injection = &injections[i];
        let provider = create_provider_name_by_fn_and_struct_ident(
            injection.source_function.as_str(),
            injection.provider_manager.as_str(),
        );
        proof {
            assert(names.take(i + 1).drop_last() =~= names.take(i as int));
            assert(names.take(i + 1).last() == provider@);
            assert(found[i as int] == injection@);
        }
        match unique_dependencies.register(provider.clone()) {
            Ok(_) => {},
            Err(e) => {
                proof {
                    assert(register_all(before, names.take(i + 1)) == (
                        unique_dependencies.dependencies(),
                        Some(provider@),
                    ));
                    lemma_conflict_sticky(before, names, i + 1);
                }
                return Err(e);
            },
        }
        let binding = (injection.field_name.clone(), provider);
        let field = FieldDefinition {
            field_name: injection.field_name.clone(),
            capability_type: create_type_reference("ProviderTrait", true, true, true),
        };
        proof {
            crate::text::lemma_views_push(dependencies@, binding);
            crate::text::lemma_views_push(field_definitions@, field);
            assert(bindings(found).take(i + 1) =~= bindings(found).take(i as int).push(binding@));
            assert(self::field_definitions(found).take(i + 1) =~= self::field_definitions(
                found,
            ).take(i as int).push(field@));
        }
        dependencies.push(binding);
        field_definitions.push(field);
        i += 1;
    }
    proof {
        assert(names.take(injections.len() as int) =~= names);
        assert(bindings(found).take(injections.len() as int) =~= bindings(found));
        assert(self::field_definitions(found).take(injections.len() as int)
            =~= self::field_definitions(found));
    }
    let generated_code = generate_controller_code(
        controller_name.as_str(),
        field_definitions,
        modified_block,
        controller_token.as_str(),
        route_prefix,
        route_path,
        http_method,
        trait_reference_name,
    );
    Ok((generated_code, MetadataInfo { struct_name: controller_name, dependencies }))
}

/// A conflict that registering a prefix of the identifiers meets is the
/// conflict that registering all of them meets, with the same identifiers
/// left registered.
pub proof fn lemma_conflict_sticky(registered: Seq<Seq<char>>, identifiers: Seq<Seq<char>>, n: int)
    requires
        0 <= n <= identifiers.len(),
        register_all(registered, identifiers.take(n)).1 is Some,
    ensures
        register_all(registered, identifiers) == register_all(registered, identifiers.take(n)),
    decreases identifiers.len() - n,
{
    if n < identifiers.len() {
        assert(identifiers.take(n + 1).drop_last() =~= identifiers.take(n));
        lemma_conflict_sticky(registered, identifiers, n + 1);
    } else {
        assert(identifiers.take(n) =~= identifiers);
    }
}

/// Generates the handler of an annotated method and its metadata record.
///
/// The verb and the route path are read from the annotation; an annotation
/// whose argument is not one string literal gives `InvalidAttributeFormat`
/// and leaves the registry as it was. The handler's route is the prefix
/// followed by that path. A provider identifier that is registered already
/// gives `DependencyConflict` with the identifier; the identifiers before it
/// stay registered.
pub fn generate_controller_and_metadata(
    implementation_fn: &MethodDefinition,
    fields_params: &Vec<(String, String)>,
    unique_dependencies: &mut DependencyInfo,
    trait_reference_name: &str,
    route_prefix: &str,
    attribute: &Annotation,
) -> (outcome: Result<(Handler, MetadataInfo), ControllerGenerationError>)
    requires
        is_http_method_attribute(attribute@),
    ensures
        (outcome_view(outcome), final(unique_dependencies).dependencies()) == generation(
            implementation_fn@,
            views(fields_params@),
            old(unique_dependencies).dependencies(),
            trait_reference_name@,
            route_prefix@,
            attribute@,
        ),
        final(unique_dependencies).types() == old(unique_dependencies).types(),
        old(unique_dependencies).wf() ==> final(unique_dependencies).wf(),
{
    let http_method = match attr_to_string(attribute) {
        Ok(verb) => verb,
        Err(e) => {
            return Err(e);
        },
    };
    let route_path = match attr_to_literal(attribute) {
        Ok(path) => path,
        Err(e) => {
            return Err(e);
        },
    };
    generate_controller_with_route(
        implementation_fn,
        fields_params,
        unique_dependencies,
        trait_reference_name,
        route_prefix,
        http_method.as_str(),
        route_path.as_str(),
    )
}

} // verus!
