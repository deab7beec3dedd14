//! The registry of one aggregate: the dependency types it declares and the
//! provider identifiers that its handlers have claimed.

use vstd::prelude::*;

use crate::error::{ControllerGenerationError, ErrorView};
use crate::text::{contains_str, lemma_views_push, no_duplicates, views};

verus! {

/// What one expansion knows of its aggregate's dependencies. Both collections
/// are sets: a well-formed registry holds nothing twice.
#[derive(Clone, Debug)]
pub struct DependencyInfo {
    unique_types: Vec<String>,
    unique_dependencies: Vec<String>,
}

/// What registering `identifiers` one after the other makes of the registered
/// identifiers, and the first identifier that was already there, if any.
/// Nothing is registered from that identifier on.
pub open spec fn register_all(registered: Seq<Seq<char>>, identifiers: Seq<Seq<char>>) -> (
    Seq<Seq<char>>,
    Option<Seq<char>>,
)
    decreases identifiers.len(),
{
    if identifiers.len() == 0 {
        (registered, None)
    } else {
        let (before, conflict) = register_all(registered, identifiers.drop_last());
        if conflict is Some {
            (before, conflict)
        } else if before.contains(identifiers.last()) {
            (before, Some(identifiers.last()))
        } else {
            (before.push(identifiers.last()), None)
        }
    }
}

impl DependencyInfo {
    /// The dependency types of the aggregate.
    pub closed spec fn types(&self) -> Seq<Seq<char>> {
        views(self.unique_types@)
    }

    /// The provider identifiers registered so far, in the order in which they
    /// came.
    pub closed spec fn dependencies(&self) -> Seq<Seq<char>> {
        views(self.unique_dependencies@)
    }

    /// Neither collection holds a value twice.
    pub open spec fn wf(&self) -> bool {
        no_duplicates(self.types()) && no_duplicates(self.dependencies())
    }

    /// A registry that holds nothing.
    pub fn new() -> (info: DependencyInfo)
        ensures
            info.wf(),
            info.types() == Seq::<Seq<char>>::empty(),
            info.dependencies() == Seq::<Seq<char>>::empty(),
    {
        let info = DependencyInfo { unique_types: Vec::new(), unique_dependencies: Vec::new() };
        assert(info.types() =~= Seq::<Seq<char>>::empty());
        assert(info.dependencies() =~= Seq::<Seq<char>>::empty());
        info
    }

    /// Whether the provider identifier was registered.
    pub fn is_registered(&self, identifier: &str) -> (found: bool)
        ensures
            found == self.dependencies().contains(identifier@),
    {
        contains_str(&self.unique_dependencies, identifier)
    }

    /// Whether the aggregate declares a dependency of this type.
    pub fn has_type(&self, dependency_type: &str) -> (found: bool)
        ensures
            found == self.types().contains(dependency_type@),
    {
        contains_str(&self.unique_types, dependency_type)
    }

    /// Records a dependency type of the aggregate; a type that is there stays
    /// there once.
    pub fn add_type(&mut self, dependency_type: String)
        ensures
            final(self).dependencies() == old(self).dependencies(),
            final(self).types() == if old(self).types().contains(dependency_type@) {
                old(self).types()
            } else {
                old(self).types().push(dependency_type@)
            },
            old(self).wf() ==> final(self).wf(),
    {
        if !contains_str(&self.unique_types, dependency_type.as_str()) {
            proof {
                lemma_views_push(self.unique_types@, dependency_type);
            }
            self.unique_types.push(dependency_type);
        }
    }

    /// Claims a provider identifier for the aggregate. An identifier that was
    /// claimed before is a conflict: it comes back in the error and the
    /// registry stays as it was.
    pub fn register(&mut self, identifier: String) -> (outcome: Result<
        (),
        ControllerGenerationError,
    >)
        ensures
            final(self).types() == old(self).types(),
            match outcome {
                Ok(_) => {
                    &&& !old(self).dependencies().contains(identifier@)
                    &&& final(self).dependencies() == old(self).dependencies().push(identifier@)
                },
                Err(e) => {
                    &&& old(self).dependencies().contains(identifier@)
                    &&& e@ == ErrorView::DependencyConflict(identifier@)
                    &&& final(self).dependencies() == old(self).dependencies()
                },
            },
            old(self).wf() ==> final(self).wf(),
    {
        if contains_str(&self.unique_dependencies, identifier.as_str()) {
            return Err(ControllerGenerationError::DependencyConflict(identifier));
        }
        proof {
            lemma_views_push(self.unique_dependencies@, identifier);
        }
        self.unique_dependencies.push(identifier);
        Ok(())
    }

    /// The dependency types of the aggregate, each once.
    pub fn unique_types(&self) -> (types: Vec<String>)
        ensures
            views(types@) == self.types(),
    {
        let types = self.unique_types.clone();
        assert(views(types@) =~= self.types()) by {
            assert(types@ =~= self.unique_types@);
        }
        types
    }

    /// The provider identifiers registered so far.
    pub fn unique_dependencies(&self) -> (identifiers: Vec<String>)
        ensures
            views(identifiers@) == self.dependencies(),
    {
        let identifiers = self.unique_dependencies.clone();
        assert(views(identifiers@) =~= self.dependencies()) by {
            assert(identifiers@ =~= self.unique_dependencies@);
        }
        identifiers
    }
}

/// Registering keeps what was registered, in its place.
pub proof fn lemma_register_all_extends(registered: Seq<Seq<char>>, identifiers: Seq<Seq<char>>)
    ensures
        registered.is_prefix_of(register_all(registered, identifiers).0),
        no_duplicates(registered) ==> no_duplicates(register_all(registered, identifiers).0),
    decreases identifiers.len(),
{
    if identifiers.len() > 0 {
        lemma_register_all_extends(registered, identifiers.drop_last());
    }
}

/// Registration succeeds exactly where the identifiers are new to the registry
/// and differ from each other; all of them are then registered, in order.
pub proof fn lemma_register_all_succeeds(registered: Seq<Seq<char>>, identifiers: Seq<Seq<char>>)
    ensures
        register_all(registered, identifiers).1 is None <==> {
            &&& no_duplicates(identifiers)
            &&& forall|i: int|
                0 <= i < identifiers.len() ==> !registered.contains(#[trigger] identifiers[i])
        },
        register_all(registered, identifiers).1 is None ==> register_all(
            registered,
            identifiers,
        ).0 == registered + identifiers,
    decreases identifiers.len(),
{
    if identifiers.len() > 0 {
        let front = identifiers.drop_last();
        let last = identifiers.last();
        lemma_register_all_succeeds(registered, front);
        let (before, conflict) = register_all(registered, front);
        assert(forall|i: int| 0 <= i < front.len() ==> front[i] == identifiers[i]);
        if conflict is None {
            assert(before == registered + front);
            if before.contains(last) {
                let k = choose|k: int| 0 <= k < before.len() && before[k] == last;
                if k < registered.len() {
                    assert(registered[k] == last);
                    assert(registered.contains(identifiers[identifiers.len() - 1]));
                } else {
                    assert(identifiers[k - registered.len()] == identifiers[identifiers.len() - 1]);
                }
            } else {
                assert((registered + front).push(last) =~= registered + identifiers);
                assert forall|i: int, j: int| 0 <= i < j < identifiers.len() implies identifiers[i]
                    != identifiers[j] by {
                    if j == identifiers.len() - 1 {
                        assert(before[registered.len() + i] == identifiers[i]);
                    }
                }
                assert forall|i: int| 0 <= i < identifiers.len() implies !registered.contains(
                    #[trigger] identifiers[i],
                ) by {
                    if i == identifiers.len() - 1 {
                        if registered.contains(last) {
                            let k = choose|k: int| 0 <= k < registered.len() && registered[k] == last;
                            assert(before[k] == last);
                        }
                    } else {
                        assert(front[i] == identifiers[i]);
                    }
                }
            }
        } else {
            if no_duplicates(identifiers) && (forall|i: int|
                0 <= i < identifiers.len() ==> !registered.contains(#[trigger] identifiers[i])) {
                assert(no_duplicates(front));
                assert forall|i: int| 0 <= i < front.len() implies !registered.contains(
                    #[trigger] front[i],
                ) by {
                    assert(front[i] == identifiers[i]);
                }
            }
        }
    } else {
        assert(registered + identifiers =~= registered);
    }
}

/// A conflict names an identifier that was registered before or that stands
/// twice among the identifiers.
pub proof fn lemma_register_all_conflict(registered: Seq<Seq<char>>, identifiers: Seq<Seq<char>>)
    requires
        register_all(registered, identifiers).1 is Some,
    ensures
        ({
            let conflict = register_all(registered, identifiers).1.unwrap();
            exists|j: int|
                0 <= j < identifiers.len() && #[trigger] identifiers[j] == conflict && (
                registered.contains(conflict) || exists|i: int|
                    0 <= i < j && #[trigger] identifiers[i] == conflict)
        }),
    decreases identifiers.len(),
{
    let front = identifiers.drop_last();
    let last = identifiers.last();
    let (before, conflict) = register_all(registered, front);
    assert(forall|i: int| 0 <= i < front.len() ==> front[i] == identifiers[i]);
    if conflict is Some {
        lemma_register_all_conflict(registered, front);
        let c = conflict.unwrap();
        let j = choose|j: int|
            0 <= j < front.len() && #[trigger] front[j] == c && (registered.contains(c)
                || exists|i: int| 0 <= i < j && #[trigger] front[i] == c);
        assert(identifiers[j] == c);
        if !registered.contains(c) {
            let i = choose|i: int| 0 <= i < j && #[trigger] front[i] == c;
            assert(identifiers[i] == c);
        }
    } else {
        lemma_register_all_succeeds(registered, front);
        assert(before == registered + front);
        let j = identifiers.len() - 1;
        assert(identifiers[j] == last);
        let k = choose|k: int| 0 <= k < before.len() && before[k] == last;
        if k < registered.len() {
            assert(registered[k] == last);
        } else {
            assert(identifiers[k - registered.len()] == last);
        }
    }
}

} // verus!
