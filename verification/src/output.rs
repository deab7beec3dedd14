//! The output assembler: the pieces of an expansion as one compilation unit.

use vstd::prelude::*;
use vstd::string::StringExecFns;

use crate::definition::{container_text, AggregateDefinition, ContainerView, MethodContainer};
use crate::text::{concat_all, concat_strings, views};

verus! {

/// The compilation unit: the aggregate as it was written, the method
/// container, the synthesized fragments in their order, and the manager
/// artifact.
pub open spec fn output_text(
    aggregate_source: Seq<char>,
    container: ContainerView,
    providers: Seq<Seq<char>>,
    manager: Seq<char>,
) -> Seq<char> {
    "#[allow(dead_code)] "@ + aggregate_source + " #[allow(dead_code)] "@ + container_text(
        container,
    ) + " "@ + concat_all(providers) + manager
}

/// Puts the pieces of an expansion together in their fixed order: the
/// aggregate's definition, the method container, every synthesized fragment
/// in the order given, and the manager artifact. Nothing is reordered and
/// nothing is left out.
pub fn generate_output(
    struct_attrs: &AggregateDefinition,
    impl_block: &MethodContainer,
    providers: &Vec<String>,
    manager: &str,
) -> (expanded: String)
    ensures
        expanded@ == output_text(struct_attrs@.source, impl_block@, views(providers@), manager@),
{
    let container = impl_block.render();
    let fragments = concat_strings(providers);
    let mut expanded = String::from_str("#[allow(dead_code)] ");
    expanded.append(struct_attrs.source.as_str());
    expanded.append(" #[allow(dead_code)] ");
    expanded.append(container.as_str());
    expanded.append(" ");
    expanded.append(fragments.as_str());
    expanded.append(manager);
    expanded
}

} // verus!
