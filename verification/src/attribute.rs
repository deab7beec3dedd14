//! Annotations, and the plain values that are read out of them.

use vstd::prelude::*;

use crate::error::{ControllerGenerationError, ErrorView};
use crate::http::{lemma_verb_round_trip, HttpMethod};
use crate::text::views;

verus! {

/// One annotation of a method or of an aggregate: `#[name]` or
/// `#[name(arguments)]`.
#[derive(Clone, Debug, PartialEq, Eq)]
pub struct Annotation {
    /// The name that the annotation goes by.
    pub name: String,
    /// The source text between the parentheses; `None` where the annotation
    /// has no parenthesised arguments.
    pub arguments: Option<String>,
}

/// The ghost model of an [`Annotation`].
pub struct AnnotationView {
    pub name: Seq<char>,
    pub arguments: Option<Seq<char>>,
}

impl View for Annotation {
    type V = AnnotationView;

    open spec fn view(&self) -> AnnotationView {
        AnnotationView {
            name: self.name@,
            arguments: match self.arguments {
                Some(text) => Some(text@),
                None => None,
            },
        }
    }
}

/// The value of the string literal that `text` is, or `None` where `text` is
/// anything else than one string literal. What `syn` makes of a piece of
/// source text is fixed by the text alone.
pub uninterp spec fn string_literal_value(text: Seq<char>) -> Option<Seq<char>>;

/// Reads `text` as a single string literal with `syn::parse_str::<syn::LitStr>`
/// and takes the literal's value with `LitStr::value`. Trusted: the result is
/// the value that goes by the name [`string_literal_value`], and `None` stands
/// for every error that `syn` reports (a lexing error, another kind of token,
/// tokens left over).
#[verifier::external_body]
fn parse_string_literal(text: &str) -> (value: Option<String>)
    ensures
        match value {
            Some(v) => string_literal_value(text@) == Some(v@),
            None => string_literal_value(text@) is None,
        },
{
    match syn::parse_str::<syn::LitStr>(text) {
        Ok(literal) => Some(literal.value()),
        Err(_) => None,
    }
}

/// The value of the single string literal that the annotation has for its
/// arguments, if that is their form.
pub open spec fn literal_argument(annotation: AnnotationView) -> Option<Seq<char>> {
    match annotation.arguments {
        Some(text) => string_literal_value(text),
        None => None,
    }
}

/// Whether the annotation marks a method as the handler of an HTTP verb.
pub open spec fn is_http_method_attribute(annotation: AnnotationView) -> bool {
    HttpMethod::spec_from_annotation(annotation.name) is Some
}

/// The place of the first HTTP-verb annotation among `annotations`.
pub open spec fn first_http_method_attribute(annotations: Seq<AnnotationView>) -> Option<int>
    decreases annotations.len(),
{
    if annotations.len() == 0 {
        None
    } else {
        match first_http_method_attribute(annotations.drop_last()) {
            Some(i) => Some(i),
            None => if is_http_method_attribute(annotations.last()) {
                Some(annotations.len() - 1)
            } else {
                None
            },
        }
    }
}

/// The first HTTP-verb annotation stands where no earlier one does; there is
/// none where no annotation is one.
pub proof fn lemma_first_http_method_attribute(annotations: Seq<AnnotationView>)
    ensures
        match first_http_method_attribute(annotations) {
            Some(i) => {
                &&& 0 <= i < annotations.len()
                &&& is_http_method_attribute(annotations[i])
                &&& forall|j: int| 0 <= j < i ==> !is_http_method_attribute(annotations[j])
            },
            None => forall|j: int|
                0 <= j < annotations.len() ==> !is_http_method_attribute(annotations[j]),
        },
    decreases annotations.len(),
{
    if annotations.len() > 0 {
        let front = annotations.drop_last();
        lemma_first_http_method_attribute(front);
        assert(forall|j: int| 0 <= j < front.len() ==> front[j] == annotations[j]);
    }
}

/// The verb token and the route path that an HTTP-verb annotation yields, or
/// the error where its arguments are not one string literal.
pub open spec fn route_of(annotation: AnnotationView) -> Result<
    (HttpMethod, Seq<char>),
    ErrorView,
> {
    match literal_argument(annotation) {
        Some(path) => Ok((HttpMethod::spec_from_annotation(annotation.name).unwrap(), path)),
        None => Err(ErrorView::InvalidAttributeFormat),
    }
}

impl Annotation {
    /// The value of the single string literal that stands between the
    /// parentheses, or `None` where the arguments have another form.
    pub fn literal_argument(&self) -> (value: Option<String>)
        ensures
            match value {
                Some(v) => literal_argument(self@) == Some(v@),
                None => literal_argument(self@) is None,
            },
    {
        match &self.arguments {
            Some(text) => parse_string_literal(text.as_str()),
            None => None,
        }
    }

    /// Whether this annotation names an HTTP verb.
    pub fn is_http_method(&self) -> (yes: bool)
        ensures
            yes == is_http_method_attribute(self@),
    {
        HttpMethod::from_annotation(self.name.as_str()).is_some()
    }
}

/// Finds the annotation that makes a method a handler: the first one whose
/// name is an HTTP verb.
pub fn find_http_method_attribute(annotations: &Vec<Annotation>) -> (found: Option<&Annotation>)
    ensures
        match found {
            Some(annotation) => {
                &&& first_http_method_attribute(views(annotations@)) is Some
                &&& *annotation == annotations@[first_http_method_attribute(
                    views(annotations@),
                ).unwrap()]
            },
            None => first_http_method_attribute(views(annotations@)) is None,
        },
{
    let mut i: usize = 0;
    while i < annotations.len()
        invariant
            i <= annotations.len(),
            first_http_method_attribute(views(annotations@).take(i as int)) is None,
        decreases annotations.len() - i,
    {
        assert(views(annotations@).take(i + 1).drop_last() =~= views(annotations@).take(
            i as int,
        ));
        if annotations[i].is_http_method() {
            proof {
                lemma_sticky(views(annotations@), i + 1);
            }
            return Some(&annotations[i]);
        }
        i += 1;
    }
    assert(views(annotations@).take(annotations.len() as int) =~= views(annotations@));
    None
}

/// Once a prefix holds an HTTP-verb annotation, the place found in the whole
/// sequence is the place found in the prefix.
proof fn lemma_sticky(annotations: Seq<AnnotationView>, n: int)
    requires
        0 <= n <= annotations.len(),
        first_http_method_attribute(annotations.take(n)) is Some,
    ensures
        first_http_method_attribute(annotations) == first_http_method_attribute(
            annotations.take(n),
        ),
    decreases annotations.len() - n,
{
    if n < annotations.len() {
        assert(annotations.take(n + 1).drop_last() =~= annotations.take(n));
        lemma_sticky(annotations, n + 1);
    } else {
        assert(annotations.take(n) =~= annotations);
    }
}

/// The verb token of an HTTP-verb annotation, in upper case. The annotation
/// must have the form of a verb with one string literal for its arguments.
pub fn attr_to_string(attribute: &Annotation) -> (verb: Result<String, ControllerGenerationError>)
    requires
        is_http_method_attribute(attribute@),
    ensures
        match verb {
            Ok(token) => {
                &&& route_of(attribute@) matches Ok((method, _))
                &&& token@ == method.spec_as_str()
                &&& HttpMethod::spec_from_str(token@) == Some(method)
            },
            Err(e) => route_of(attribute@) is Err && e@ == ErrorView::InvalidAttributeFormat,
        },
{
    match attribute.literal_argument() {
        Some(_) => {
            let method = HttpMethod::from_annotation(attribute.name.as_str()).unwrap();
            proof {
                lemma_verb_round_trip(method);
            }
            Ok(method.as_str().to_string())
        },
        None => Err(ControllerGenerationError::InvalidAttributeFormat),
    }
}

/// The string that an annotation has for its single literal argument: the
/// route path of an HTTP-verb annotation, the prefix of a prefix annotation.
pub fn attr_to_literal(attribute: &Annotation) -> (path: Result<String, ControllerGenerationError>)
    ensures
        match path {
            Ok(value) => literal_argument(attribute@) == Some(value@),
            Err(e) => literal_argument(attribute@) is None && e@
                == ErrorView::InvalidAttributeFormat,
        },
{
    match attribute.literal_argument() {
        Some(value) => Ok(value),
        None => Err(ControllerGenerationError::InvalidAttributeFormat),
    }
}

} // verus!
