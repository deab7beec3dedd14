//! The expansion of one aggregate, from its two definitions to the
//! compilation unit.

use vstd::prelude::*;

use crate::controller::{handler_text, Handler, HandlerView};
use crate::definition::{
    declared_types, extract_controller_prefix, extract_struct_dependencies, prefix_of,
    AggregateDefinition, AggregateView, ContainerView, MethodContainer,
};
use crate::error::{ControllerGenerationError, ErrorView};
use crate::impl_functions::{process_impl_functions, processed_container, processing, Progress};
use crate::metadata::MetadataInfo;
use crate::output::{generate_output, output_text};
use crate::text::{lemma_views_push, views};

verus! {

/// The pass that the expansion of an aggregate makes over its methods, or the
/// error that ends the expansion: a malformed prefix annotation, or the first
/// error of the pass. The registry of the aggregate starts empty.
pub open spec fn expansion_pass(
    aggregate: AggregateView,
    container: ContainerView,
    trait_name: Seq<char>,
) -> Result<Progress, ErrorView> {
    match prefix_of(aggregate) {
        Err(e) => Err(e),
        Ok(prefix) => {
            let pass = processing(
                container.items,
                aggregate.dependencies,
                Seq::empty(),
                trait_name,
                prefix,
            );
            match pass.failure {
                Some(e) => Err(e),
                None => Ok(pass),
            }
        },
    }
}

/// The source texts of the handlers, in their order.
pub open spec fn handler_texts(handlers: Seq<HandlerView>) -> Seq<Seq<char>> {
    Seq::new(handlers.len(), |i: int| handler_text(handlers[i]))
}

/// The compilation unit of an aggregate whose pass succeeded, for a given
/// manager artifact.
pub open spec fn expansion_text(
    aggregate: AggregateView,
    container: ContainerView,
    pass: Progress,
    manager: Seq<char>,
) -> Seq<char> {
    output_text(
        aggregate.source,
        processed_container(container, aggregate.dependencies),
        handler_texts(pass.handlers),
        manager,
    )
}

/// Whether `outcome` is what the expansion of the aggregate comes to with the
/// manager artifact `manager`.
pub open spec fn is_expansion(
    aggregate: AggregateView,
    container: ContainerView,
    trait_name: Seq<char>,
    manager: Seq<char>,
    outcome: Result<Seq<char>, ErrorView>,
) -> bool {
    match expansion_pass(aggregate, container, trait_name) {
        Err(e) => outcome == Err::<Seq<char>, ErrorView>(e),
        Ok(pass) => outcome == Ok::<Seq<char>, ErrorView>(
            expansion_text(aggregate, container, pass, manager),
        ),
    }
}

/// The model of what an expansion returns.
pub open spec fn expansion_view(outcome: Result<String, ControllerGenerationError>) -> Result<
    Seq<char>,
    ErrorView,
> {
    match outcome {
        Ok(text) => Ok(text@),
        Err(e) => Err(e@),
    }
}

/// The expansion is a function of its inputs: for the same definitions and
/// the same manager artifact, two runs come to the same outcome, character
/// for character.
pub proof fn lemma_expansion_deterministic(
    aggregate: AggregateView,
    container: ContainerView,
    trait_name: Seq<char>,
    manager: Seq<char>,
    first: Result<Seq<char>, ErrorView>,
    second: Result<Seq<char>, ErrorView>,
)
    requires
        is_expansion(aggregate, container, trait_name, manager, first),
        is_expansion(aggregate, container, trait_name, manager, second),
    ensures
        first == second,
{
}

/// Renders the handlers, in their order.
fn render_handlers(handlers: &Vec<Handler>) -> (texts: Vec<String>)
    ensures
        views(texts@) == handler_texts(views(handlers@)),
{
    let mut texts: Vec<String> = Vec::new();
    let mut i: usize = 0;
    while i < handlers.len()
        invariant
            i <= handlers.len(),
            texts@.len() == i,
            forall|j: int| 0 <= j < i ==> (#[trigger] texts@[j])@ == handler_text(handlers@[j]@),
        decreases handlers.len() - i,
    {
        let text = handlers[i].render();
        texts.push(text);
        i += 1;
    }
    assert(views(texts@) =~= handler_texts(views(handlers@)));
    texts
}

/// Expands one aggregate into its compilation unit.
///
/// The route prefix and the dependency types are read from the aggregate, a
/// handler is synthesized for every annotated method of the container, the
/// manager generator is given the aggregate's name, the metadata records in
/// the order of the handlers and the aggregate's dependency types, and the
/// pieces are put together. The first error ends the expansion, and nothing
/// is put together then.
pub fn handle_controller_struct<F>(
    struct_attrs: &AggregateDefinition,
    impl_block: MethodContainer,
    trait_name: &str,
    generate_manager: F,
) -> (outcome: Result<String, ControllerGenerationError>) where
    F: FnOnce(&str, Vec<MetadataInfo>, Vec<String>) -> String,

    requires
        forall|name: &str, metadata: Vec<MetadataInfo>, types: Vec<String>|
            call_requires(generate_manager, (name, metadata, types)),
    ensures
        match expansion_pass(struct_attrs@, impl_block@, trait_name@) {
            Err(e) => expansion_view(outcome) == Err::<Seq<char>, ErrorView>(e),
            Ok(pass) => exists|
                name: &str,
                metadata: Vec<MetadataInfo>,
                types: Vec<String>,
                manager: String,
            |
                {
                    &&& name@ == struct_attrs@.name
                    &&& views(metadata@) == pass.metadata
                    &&& views(types@) == declared_types(struct_attrs@.dependencies)
                    &&& call_ensures(generate_manager, (name, metadata, types), manager)
                    &&& is_expansion(
                        struct_attrs@,
                        impl_block@,
                        trait_name@,
                        manager@,
                        expansion_view(outcome),
                    )
                },
        },
{
    let mut impl_block = impl_block;
    let prefix_path = match extract_controller_prefix(struct_attrs) {
        Ok(prefix) => prefix,
        Err(e) => {
            return Err(e);
        },
    };
    let mut dependencies = extract_struct_dependencies(struct_attrs);

    let (controllers, metadata) = match process_impl_functions(
        &mut impl_block,
        &mut dependencies,
        &struct_attrs.dependencies,
        trait_name,
        prefix_path.as_str(),
    ) {
        Ok(pair) => pair,
        Err(e) => {
            return Err(e);
        },
    };

    let providers = render_handlers(&controllers);
    let types = dependencies.unique_types();
    let name = struct_attrs.name.as_str();
    let manager = generate_manager(name, metadata, types);
    let expanded = generate_output(struct_attrs, &impl_block, &providers, manager.as_str());
    Ok(expanded)
}

} // verus!
