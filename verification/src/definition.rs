//! The two definitions that an expansion starts from: the aggregate and the
//! container of its methods.

use vstd::prelude::*;
use vstd::string::StringExecFns;

use crate::attribute::{
    attr_to_literal, first_http_method_attribute, literal_argument, Annotation, AnnotationView,
};
use crate::body::{block_text, Block, BlockView};
use crate::error::{ControllerGenerationError, ErrorView};
use crate::registry::DependencyInfo;
use crate::rewrite::Table;
use crate::text::views;

verus! {

/// The aggregate: a named structure with its declared dependency fields.
#[derive(Debug, PartialEq, Eq)]
pub struct AggregateDefinition {
    /// The aggregate's identifier.
    pub name: String,
    /// The field-to-type table: each dependency field with its declared type.
    pub dependencies: Vec<(String, String)>,
    /// The annotation that gives the routes of the aggregate their prefix.
    pub prefix: Option<Annotation>,
    /// The declaration as it was written.
    pub source: String,
}

/// The ghost model of an [`AggregateDefinition`].
pub struct AggregateView {
    pub name: Seq<char>,
    pub dependencies: Table,
    pub prefix: Option<AnnotationView>,
    pub source: Seq<char>,
}

impl View for AggregateDefinition {
    type V = AggregateView;

    open spec fn view(&self) -> AggregateView {
        AggregateView {
            name: self.name@,
            dependencies: views(self.dependencies@),
            prefix: match self.prefix {
                Some(annotation) => Some(annotation@),
                None => None,
            },
            source: self.source@,
        }
    }
}

/// One method of the container.
#[derive(Debug, PartialEq, Eq)]
pub struct MethodDefinition {
    /// The method's name.
    pub name: String,
    /// The annotations that the method carries.
    pub annotations: Vec<Annotation>,
    /// The text that precedes the body, as it was written: annotations,
    /// visibility and signature.
    pub signature: String,
    /// The body.
    pub body: Block,
}

/// The ghost model of a [`MethodDefinition`].
pub struct MethodView {
    pub name: Seq<char>,
    pub annotations: Seq<AnnotationView>,
    pub signature: Seq<char>,
    pub body: BlockView,
}

impl View for MethodDefinition {
    type V = MethodView;

    open spec fn view(&self) -> MethodView {
        MethodView {
            name: self.name@,
            annotations: views(self.annotations@),
            signature: self.signature@,
            body: self.body@,
        }
    }
}

/// One item of the container: a method, or anything else as text.
#[derive(Debug, PartialEq, Eq)]
pub enum ImplItem {
    Method(MethodDefinition),
    Other(String),
}

/// The ghost model of an [`ImplItem`].
pub enum ImplItemView {
    Method(MethodView),
    Other(Seq<char>),
}

impl View for ImplItem {
    type V = ImplItemView;

    open spec fn view(&self) -> ImplItemView {
        match self {
            ImplItem::Method(method) => ImplItemView::Method(method@),
            ImplItem::Other(text) => ImplItemView::Other(text@),
        }
    }
}

/// The container of the aggregate's methods.
#[derive(Debug, PartialEq, Eq)]
pub struct MethodContainer {
    /// The text that precedes the items, as it was written.
    pub header: String,
    /// The items in source order.
    pub items: Vec<ImplItem>,
}

/// The ghost model of a [`MethodContainer`].
pub struct ContainerView {
    pub header: Seq<char>,
    pub items: Seq<ImplItemView>,
}

impl View for MethodContainer {
    type V = ContainerView;

    open spec fn view(&self) -> ContainerView {
        ContainerView { header: self.header@, items: views(self.items@) }
    }
}

/// Whether the item is a method that carries an HTTP-verb annotation.
pub open spec fn is_annotated(item: ImplItemView) -> bool {
    match item {
        ImplItemView::Method(method) => first_http_method_attribute(method.annotations) is Some,
        ImplItemView::Other(_) => false,
    }
}

/// The source text of an item.
pub open spec fn item_text(item: ImplItemView) -> Seq<char> {
    match item {
        ImplItemView::Method(method) => method.signature + " "@ + block_text(method.body),
        ImplItemView::Other(text) => text,
    }
}

/// The source texts of the items, each followed by a blank.
pub open spec fn items_text(items: Seq<ImplItemView>) -> Seq<char>
    decreases items.len(),
{
    if items.len() == 0 {
        Seq::empty()
    } else {
        items_text(items.drop_last()) + item_text(items.last()) + " "@
    }
}

/// The source text of the container.
pub open spec fn container_text(container: ContainerView) -> Seq<char> {
    container.header + " { "@ + items_text(container.items) + "}"@
}

/// The dependency types of a field-to-type table, each once, in the order in
/// which they first occur.
pub open spec fn declared_types(table: Table) -> Seq<Seq<char>>
    decreases table.len(),
{
    if table.len() == 0 {
        Seq::empty()
    } else {
        let before = declared_types(table.drop_last());
        if before.contains(table.last().1) {
            before
        } else {
            before.push(table.last().1)
        }
    }
}

/// The route prefix of an aggregate: empty where it has no prefix annotation,
/// else the annotation's string literal.
pub open spec fn prefix_of(aggregate: AggregateView) -> Result<Seq<char>, ErrorView> {
    match aggregate.prefix {
        None => Ok(Seq::empty()),
        Some(annotation) => match literal_argument(annotation) {
            Some(prefix) => Ok(prefix),
            None => Err(ErrorView::InvalidAttributeFormat),
        },
    }
}

impl ImplItem {
    /// The source text of the item.
    pub fn render(&self) -> (text: String)
        ensures
            text@ == item_text(self@),
    {
        match self {
            ImplItem::Method(method) => {
                let mut text = method.signature.clone();
                text.append(" ");
                let body = method.body.render();
                text.append(body.as_str());
                text
            },
            ImplItem::Other(text) => text.clone(),
        }
    }
}

impl MethodContainer {
    /// The source text of the container.
    pub fn render(&self) -> (text: String)
        ensures
            text@ == container_text(self@),
    {
        let mut inner = String::new();
        let mut i: usize = 0;
        while i < self.items.len()
            invariant
                i <= self.items.len(),
                inner@ == items_text(views(self.items@).take(i as int)),
            decreases self.items.len() - i,
        {
            let piece = self.items[i].render();
            proof {
                let next = views(self.items@).take(i + 1);
                assert(next.drop_last() =~= views(self.items@).take(i as int));
                assert(next.last() == self.items@[i as int]@);
            }
            inner.append(piece.as_str());
            inner.append(" ");
            i += 1;
        }
        assert(views(self.items@).take(self.items.len() as int) =~= views(self.items@));
        let mut text = self.header.clone();
        text.append(" { ");
        text.append(inner.as_str());
        text.append("}");
        text
    }
}

/// Reads the route prefix of the aggregate. An aggregate without a prefix
/// annotation has the empty prefix; a prefix annotation whose argument is not
/// one string literal is an error.
pub fn extract_controller_prefix(aggregate: &AggregateDefinition) -> (prefix: Result<
    String,
    ControllerGenerationError,
>)
    ensures
        match prefix {
            Ok(text) => prefix_of(aggregate@) == Ok::<Seq<char>, ErrorView>(text@),
            Err(e) => prefix_of(aggregate@) == Err::<Seq<char>, ErrorView>(e@),
        },
{
    match &aggregate.prefix {
        None => Ok(String::new()),
        Some(annotation) => attr_to_literal(annotation),
    }
}

/// Starts the registry of an aggregate: the types of its declared
/// dependencies, each once, and no provider identifier yet.
pub fn extract_struct_dependencies(aggregate: &AggregateDefinition) -> (info: DependencyInfo)
    ensures
        info.wf(),
        info.types() == declared_types(aggregate@.dependencies),
        info.dependencies() == Seq::<Seq<char>>::empty(),
{
    let mut info = DependencyInfo::new();
    let mut i: usize = 0;
    while i < aggregate.dependencies.len()
        invariant
            i <= aggregate.dependencies.len(),
            info.wf(),
            info.types() == declared_types(views(aggregate.dependencies@).take(i as int)),
            info.dependencies() == Seq::<Seq<char>>::empty(),
        decreases aggregate.dependencies.len() - i,
    {
        proof {
            let next = views(aggregate.dependencies@).take(i + 1);
            assert(next.drop_last() =~= views(aggregate.dependencies@).take(i as int));
            assert(next.last() == aggregate.dependencies@[i as int]@);
        }
        info.add_type(aggregate.dependencies[i].1.clone());
        i += 1;
    }
    assert(views(aggregate.dependencies@).take(aggregate.dependencies.len() as int) =~= views(
        aggregate.dependencies@,
    ));
    info
}

} // verus!
