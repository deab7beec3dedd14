//! The records that the synthesis of one handler leaves behind.

use vstd::prelude::*;

verus! {

/// One dependency call that was found in a method body and rewritten.
#[derive(Clone, Debug, PartialEq, Eq)]
pub struct Injection {
    /// The provider manager: the declared type of the aggregate's field.
    pub provider_manager: String,
    /// The function that the body calls on the field.
    pub source_function: String,
    /// The handler field through which the call is made after rewriting.
    pub field_name: String,
}

/// The ghost model of an [`Injection`].
pub struct InjectionView {
    pub provider_manager: Seq<char>,
    pub source_function: Seq<char>,
    pub field_name: Seq<char>,
}

impl View for Injection {
    type V = InjectionView;

    open spec fn view(&self) -> InjectionView {
        InjectionView {
            provider_manager: self.provider_manager@,
            source_function: self.source_function@,
            field_name: self.field_name@,
        }
    }
}

/// A field of a synthesized handler: its name and the text of its type, a
/// dependency-provider capability.
#[derive(Clone, Debug, PartialEq, Eq)]
pub struct FieldDefinition {
    pub field_name: String,
    pub capability_type: String,
}

/// The ghost model of a [`FieldDefinition`].
pub struct FieldDefinitionView {
    pub field_name: Seq<char>,
    pub capability_type: Seq<char>,
}

impl View for FieldDefinition {
    type V = FieldDefinitionView;

    open spec fn view(&self) -> FieldDefinitionView {
        FieldDefinitionView {
            field_name: self.field_name@,
            capability_type: self.capability_type@,
        }
    }
}

/// What the registration of one handler needs: the handler's name and, for
/// each of its fields in declaration order, the provider identifier that the
/// field is bound to.
#[derive(Clone, Debug, PartialEq, Eq)]
pub struct MetadataInfo {
    pub struct_name: String,
    pub dependencies: Vec<(String, String)>,
}

/// The ghost model of a [`MetadataInfo`].
pub struct MetadataInfoView {
    pub struct_name: Seq<char>,
    pub dependencies: Seq<(Seq<char>, Seq<char>)>,
}

impl View for MetadataInfo {
    type V = MetadataInfoView;

    open spec fn view(&self) -> MetadataInfoView {
        MetadataInfoView {
            struct_name: self.struct_name@,
            dependencies: crate::text::views(self.dependencies@),
        }
    }
}

} // verus!
