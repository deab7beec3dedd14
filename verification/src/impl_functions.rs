//! The pass over the method container: every annotated method, in source
//! order, becomes a handler.

use vstd::prelude::*;

use crate::attribute::{
    find_http_method_attribute, first_http_method_attribute, route_of, AnnotationView,
};
use crate::controller::{
    generate_controller_and_metadata, generation, handler_of, metadata_of, processed_body,
    provider_names, Handler, HandlerView,
};
use crate::definition::{
    is_annotated, ContainerView, ImplItem, ImplItemView, MethodContainer, MethodView,
};
use crate::error::{ControllerGenerationError, ErrorView};
use crate::metadata::{Injection, MetadataInfo, MetadataInfoView};
use crate::normalize::modify_return_method_body;
use crate::registry::{
    lemma_register_all_succeeds, register_all, DependencyInfo,
};
use crate::rewrite::{injections_of, rewrite_block, Table};
use crate::text::{lemma_views_push, no_duplicates, views};

verus! {

/// How far a pass over the items of a container has come.
pub struct Progress {
    /// The handlers synthesized so far, in the order of their methods.
    pub handlers: Seq<HandlerView>,
    /// Their metadata records, in the same order.
    pub metadata: Seq<MetadataInfoView>,
    /// The provider identifiers that are registered.
    pub registered: Seq<Seq<char>>,
    /// The error that ended the pass, if one did.
    pub failure: Option<ErrorView>,
}

/// The pass over `items` from the first to the last: each method with an
/// HTTP-verb annotation is generated from with what the earlier ones left
/// registered, and the first error ends the pass.
pub open spec fn processing(
    items: Seq<ImplItemView>,
    table: Table,
    registered: Seq<Seq<char>>,
    trait_name: Seq<char>,
    prefix_path: Seq<char>,
) -> Progress
    decreases items.len(),
{
    if items.len() == 0 {
        Progress {
            handlers: Seq::empty(),
            metadata: Seq::empty(),
            registered: registered,
            failure: None,
        }
    } else {
        let before = processing(items.drop_last(), table, registered, trait_name, prefix_path);
        if before.failure is Some || !is_annotated(items.last()) {
            before
        } else {
            let method = items.last()->Method_0;
            let attribute = method.annotations[first_http_method_attribute(
                method.annotations,
            ).unwrap()];
            let (outcome, after) = generation(
                method,
                table,
                before.registered,
                trait_name,
                prefix_path,
                attribute,
            );
            match outcome {
                Ok((handler, metadata)) => Progress {
                    handlers: before.handlers.push(handler),
                    metadata: before.metadata.push(metadata),
                    registered: after,
                    failure: None,
                },
                Err(e) => Progress {
                    handlers: before.handlers,
                    metadata: before.metadata,
                    registered: after,
                    failure: Some(e),
                },
            }
        }
    }
}

/// An item after a pass that succeeded: an annotated method has the body that
/// its handler runs, every other item is as it was.
pub open spec fn processed_item(item: ImplItemView, table: Table) -> ImplItemView {
    if is_annotated(item) {
        let method = item->Method_0;
        ImplItemView::Method(
            MethodView {
                name: method.name,
                annotations: method.annotations,
                signature: method.signature,
                body: processed_body(method.body, table),
            },
        )
    } else {
        item
    }
}

/// A container after a pass that succeeded.
pub open spec fn processed_container(container: ContainerView, table: Table) -> ContainerView {
    ContainerView {
        header: container.header,
        items: Seq::new(container.items.len(), |i: int| processed_item(container.items[i], table)),
    }
}

/// A pass that failed on a prefix of the items fails in the same way on all
/// of them.
pub proof fn lemma_failure_sticky(
    items: Seq<ImplItemView>,
    table: Table,
    registered: Seq<Seq<char>>,
    trait_name: Seq<char>,
    prefix_path: Seq<char>,
    n: int,
)
    requires
        0 <= n <= items.len(),
        processing(items.take(n), table, registered, trait_name, prefix_path).failure is Some,
    ensures
        processing(items, table, registered, trait_name, prefix_path) == processing(
            items.take(n),
            table,
            registered,
            trait_name,
            prefix_path,
        ),
    decreases items.len() - n,
{
    if n < items.len() {
        assert(items.take(n + 1).drop_last() =~= items.take(n));
        lemma_failure_sticky(items, table, registered, trait_name, prefix_path, n + 1);
    } else {
        assert(items.take(n) =~= items);
    }
}

/// Puts the body that its handler runs into every annotated method of the
/// container.
fn rewrite_annotated_bodies(impl_block: &mut MethodContainer, fields_params: &Vec<(String, String)>)
    ensures
        final(impl_block)@ == processed_container(old(impl_block)@, views(fields_params@)),
{
    let n = impl_block.items.len();
    let mut i: usize = 0;
    while i < n
        invariant
            i <= n,
            n == impl_block.items.len(),
            n == old(impl_block).items.len(),
            impl_block.header == old(impl_block).header,
            forall|j: int|
                0 <= j < i ==> (#[trigger] impl_block.items@[j])@ == processed_item(
                    old(impl_block).items@[j]@,
                    views(fields_params@),
                ),
            forall|j: int| i <= j < n ==> #[trigger] impl_block.items@[j] == old(impl_block).items@[j],
        decreases n - i,
    {
        match &mut impl_block.items[i] {
            ImplItem::Method(method) => {
                if find_http_method_attribute(&method.annotations).is_some() {
                    let mut scratch: Vec<Injection> = Vec::new();
                    let mut body = rewrite_block(&method.body, fields_params, &mut scratch);
                    modify_return_method_body(&mut body);
                    method.body = body;
                }
            },
            ImplItem::Other(_) => {},
        }
        i += 1;
    }
    assert(impl_block@.items =~= processed_container(
        old(impl_block)@,
        views(fields_params@),
    ).items);
}

/// Generates a handler and a metadata record from every method of the
/// container that carries an HTTP-verb annotation, in the order of the
/// methods.
///
/// The provider identifiers of all handlers go into one registry, so an
/// identifier that a second injection derives ends the pass with
/// `DependencyConflict`, and an annotation whose argument is not one string
/// literal ends it with `InvalidAttributeFormat`; the first error wins. After
/// a pass that succeeded, each annotated method of the container has the body
/// that its handler runs. After an error the container is as it was.
pub fn process_impl_functions(
    impl_block: &mut MethodContainer,
    dependencies: &mut DependencyInfo,
    fields_params: &Vec<(String, String)>,
    trait_name: &str,
    prefix_path: &str,
) -> (outcome: Result<(Vec<Handler>, Vec<MetadataInfo>), ControllerGenerationError>)
    ensures
        ({
            let pass = processing(
                old(impl_block)@.items,
                views(fields_params@),
                old(dependencies).dependencies(),
                trait_name@,
                prefix_path@,
            );
            &&& final(dependencies).dependencies() == pass.registered
            &&& match outcome {
                Ok((controllers, metadata)) => {
                    &&& pass.failure is None
                    &&& views(controllers@) == pass.handlers
                    &&& views(metadata@) == pass.metadata
                    &&& final(impl_block)@ == processed_container(
                        old(impl_block)@,
                        views(fields_params@),
                    )
                },
                Err(e) => pass.failure == Some(e@) && final(impl_block)@ == old(impl_block)@,
            }
        }),
        final(dependencies).types() == old(dependencies).types(),
        old(dependencies).wf() ==> final(dependencies).wf(),
{
    let mut controllers: Vec<Handler> = Vec::new();
    let mut metadata: Vec<MetadataInfo> = Vec::new();
    let ghost items = impl_block@.items;
    let ghost table = views(fields_params@);
    let ghost registered = dependencies.dependencies();
    let mut i: usize = 0;
    assert(views(controllers@) =~= Seq::<HandlerView>::empty());
    assert(views(metadata@) =~= Seq::<MetadataInfoView>::empty());
    while i < impl_block.items.len()
        invariant
            i <= impl_block.items.len(),
            *impl_block == *old(impl_block),
            items == impl_block@.items,
            table == views(fields_params@),
            registered == old(dependencies).dependencies(),
            dependencies.types() == old(dependencies).types(),
            old(dependencies).wf() ==> dependencies.wf(),
            processing(items.take(i as int), table, registered, trait_name@, prefix_path@)
                == (Progress {
                handlers: views(controllers@),
                metadata: views(metadata@),
                registered: dependencies.dependencies(),
                failure: None,
            }),
        decreases impl_block.items.len() - i,
    {
        proof {
            assert(items.take(i + 1).drop_last() =~= items.take(i as int));
            assert(items.take(i + 1).last() == impl_block.items@[i as int]@);
        }
        if let ImplItem::Method(method) = &impl_block.items[i] {
            if let Some(attr) = find_http_method_attribute(&method.annotations) {
                proof {
                    crate::attribute::lemma_first_http_method_attribute(method@.annotations);
                }
                match generate_controller_and_metadata(
                    method,
                    fields_params,
                    dependencies,
                    trait_name,
                    prefix_path,
                    attr,
                ) {
                    Ok((controller, meta)) => {
                        proof {
                            lemma_views_push(controllers@, controller);
                            lemma_views_push(metadata@, meta);
                        }
                        controllers.push(controller);
                        metadata.push(meta);
                    },
                    Err(e) => {
                        proof {
                            lemma_failure_sticky(
                                items,
                                table,
                                registered,
                                trait_name@,
                                prefix_path@,
                                i + 1,
                            );
                        }
                        return Err(e);
                    },
                }
            }
        }
        i += 1;
    }
    assert(items.take(impl_block.items.len() as int) =~= items);
    rewrite_annotated_bodies(impl_block, fields_params);
    Ok((controllers, metadata))
}

/// The methods among the items that carry an HTTP-verb annotation, in source
/// order.
pub open spec fn annotated_methods(items: Seq<ImplItemView>) -> Seq<MethodView>
    decreases items.len(),
{
    if items.len() == 0 {
        Seq::empty()
    } else if is_annotated(items.last()) {
        annotated_methods(items.drop_last()).push(items.last()->Method_0)
    } else {
        annotated_methods(items.drop_last())
    }
}

/// The annotation that makes a method a handler.
pub open spec fn verb_annotation(method: MethodView) -> AnnotationView {
    method.annotations[first_http_method_attribute(method.annotations).unwrap()]
}

/// Every one of the methods has one string literal for the argument of its
/// HTTP-verb annotation.
pub open spec fn well_annotated(methods: Seq<MethodView>) -> bool {
    forall|k: int| 0 <= k < methods.len() ==> route_of(verb_annotation(#[trigger] methods[k])) is Ok
}

/// The provider identifiers that the injections of the methods derive: those
/// of the first method in the order of its injections, then those of the
/// second, and so on.
pub open spec fn derived_identifiers(methods: Seq<MethodView>, table: Table) -> Seq<Seq<char>>
    decreases methods.len(),
{
    if methods.len() == 0 {
        Seq::empty()
    } else {
        derived_identifiers(methods.drop_last(), table) + provider_names(
            injections_of(methods.last().body, table),
        )
    }
}

/// The handlers come in the order of the annotated methods: where the pass
/// succeeds, there is one handler and one metadata record for each annotated
/// method, and the handler at each place is the one synthesized for the
/// method at that place.
pub proof fn lemma_handlers_follow_methods(
    items: Seq<ImplItemView>,
    table: Table,
    registered: Seq<Seq<char>>,
    trait_name: Seq<char>,
    prefix_path: Seq<char>,
)
    requires
        processing(items, table, registered, trait_name, prefix_path).failure is None,
    ensures
        ({
            let pass = processing(items, table, registered, trait_name, prefix_path);
            let methods = annotated_methods(items);
            &&& pass.handlers.len() == methods.len()
            &&& pass.metadata.len() == methods.len()
            &&& forall|k: int|
                0 <= k < methods.len() ==> {
                    &&& route_of(verb_annotation(#[trigger] methods[k])) matches Ok((verb, path))
                    &&& pass.handlers[k] == handler_of(
                        methods[k],
                        table,
                        trait_name,
                        prefix_path,
                        verb,
                        path,
                    )
                    &&& pass.metadata[k] == metadata_of(methods[k], table)
                }
        }),
    decreases items.len(),
{
    if items.len() > 0 {
        let front = items.drop_last();
        lemma_handlers_follow_methods(front, table, registered, trait_name, prefix_path);
    }
}

/// Fields, injections and bindings go together: every handler of a pass that
/// succeeded has one field for each injection of its method, its metadata
/// record has one binding for each, and the binding at each place is that of
/// the field at that place.
pub proof fn lemma_fields_match_injections(
    items: Seq<ImplItemView>,
    table: Table,
    registered: Seq<Seq<char>>,
    trait_name: Seq<char>,
    prefix_path: Seq<char>,
    k: int,
)
    requires
        processing(items, table, registered, trait_name, prefix_path).failure is None,
        0 <= k < annotated_methods(items).len(),
    ensures
        ({
            let pass = processing(items, table, registered, trait_name, prefix_path);
            let injections = injections_of(annotated_methods(items)[k].body, table);
            &&& 0 <= k < pass.handlers.len()
            &&& 0 <= k < pass.metadata.len()
            &&& pass.handlers[k].fields.len() == injections.len()
            &&& pass.metadata[k].dependencies.len() == injections.len()
            &&& forall|i: int|
                0 <= i < injections.len() ==> #[trigger] pass.handlers[k].fields[i].field_name
                    == pass.metadata[k].dependencies[i].0
        }),
{
    lemma_handlers_follow_methods(items, table, registered, trait_name, prefix_path);
    let methods = annotated_methods(items);
    assert(route_of(verb_annotation(methods[k])) is Ok);
}

/// Registering two runs of identifiers in turn: a conflict in the first run
/// ends it, else the second run goes on from what the first left registered.
pub proof fn lemma_register_all_append(
    registered: Seq<Seq<char>>,
    first: Seq<Seq<char>>,
    second: Seq<Seq<char>>,
)
    ensures
        register_all(registered, first + second) == if register_all(registered, first).1 is Some {
            register_all(registered, first)
        } else {
            register_all(register_all(registered, first).0, second)
        },
    decreases second.len(),
{
    if second.len() == 0 {
        assert(first + second =~= first);
    } else {
        lemma_register_all_append(registered, first, second.drop_last());
        assert((first + second).drop_last() =~= first + second.drop_last());
    }
}

/// Where every annotated method is well annotated, the pass comes to what
/// registering the derived identifiers of all methods, in order, comes to:
/// the same identifiers are left registered, and the pass fails exactly on a
/// conflict, with the identifier in conflict.
pub proof fn lemma_pass_registers_identifiers(
    items: Seq<ImplItemView>,
    table: Table,
    registered: Seq<Seq<char>>,
    trait_name: Seq<char>,
    prefix_path: Seq<char>,
)
    requires
        well_annotated(annotated_methods(items)),
    ensures
        ({
            let pass = processing(items, table, registered, trait_name, prefix_path);
            let (after, conflict) = register_all(
                registered,
                derived_identifiers(annotated_methods(items), table),
            );
            &&& pass.registered == after
            &&& pass.failure == match conflict {
                Some(identifier) => Some(ErrorView::DependencyConflict(identifier)),
                None => None,
            }
        }),
    decreases items.len(),
{
    if items.len() > 0 {
        let front = items.drop_last();
        let methods = annotated_methods(items);
        let earlier = annotated_methods(front);
        assert(well_annotated(earlier)) by {
            assert forall|k: int| 0 <= k < earlier.len() implies route_of(
                verb_annotation(#[trigger] earlier[k]),
            ) is Ok by {
                assert(earlier[k] == methods[k]);
            }
        }
        lemma_pass_registers_identifiers(front, table, registered, trait_name, prefix_path);
        if is_annotated(items.last()) {
            let method = items.last()->Method_0;
            assert(methods.last() == method);
            assert(methods.drop_last() =~= earlier);
            assert(route_of(verb_annotation(methods[methods.len() - 1])) is Ok);
            lemma_register_all_append(
                registered,
                derived_identifiers(earlier, table),
                provider_names(injections_of(method.body, table)),
            );
        }
    }
}

/// Uniqueness is enforced: where every annotated method is well annotated and
/// two injections of the aggregate's handlers, at any two places, derive the
/// same provider identifier, the pass fails with a dependency conflict.
pub proof fn lemma_conflict_enforced(
    items: Seq<ImplItemView>,
    table: Table,
    registered: Seq<Seq<char>>,
    trait_name: Seq<char>,
    prefix_path: Seq<char>,
    i: int,
    j: int,
)
    requires
        well_annotated(annotated_methods(items)),
        0 <= i < j < derived_identifiers(annotated_methods(items), table).len(),
        derived_identifiers(annotated_methods(items), table)[i] == derived_identifiers(
            annotated_methods(items),
            table,
        )[j],
    ensures
        processing(items, table, registered, trait_name, prefix_path).failure matches Some(
            ErrorView::DependencyConflict(_),
        ),
{
    let identifiers = derived_identifiers(annotated_methods(items), table);
    lemma_pass_registers_identifiers(items, table, registered, trait_name, prefix_path);
    lemma_register_all_succeeds(registered, identifiers);
    assert(!no_duplicates(identifiers));
}

/// A pass succeeds exactly where every derived identifier is new: where
/// every annotated method is well annotated, there is no failure if and only
/// if the derived identifiers differ from each other and from what was
/// registered before, and all of them are registered then.
pub proof fn lemma_pass_succeeds(
    items: Seq<ImplItemView>,
    table: Table,
    registered: Seq<Seq<char>>,
    trait_name: Seq<char>,
    prefix_path: Seq<char>,
)
    requires
        well_annotated(annotated_methods(items)),
    ensures
        ({
            let pass = processing(items, table, registered, trait_name, prefix_path);
            let identifiers = derived_identifiers(annotated_methods(items), table);
            &&& pass.failure is None <==> {
                &&& no_duplicates(identifiers)
                &&& forall|i: int|
                    0 <= i < identifiers.len() ==> !registered.contains(#[trigger] identifiers[i])
            }
            &&& pass.failure is None ==> pass.registered == registered + identifiers
        }),
{
    let identifiers = derived_identifiers(annotated_methods(items), table);
    lemma_pass_registers_identifiers(items, table, registered, trait_name, prefix_path);
    lemma_register_all_succeeds(registered, identifiers);
}

} // verus!
