use vstd::prelude::*;
use crate::error::ModelError;
use crate::names::lemma_name_codes;
use crate::structs::annotated_relationship_element::{
    AnnotatedRelationshipElement,
    AnnotatedRelationshipElementView,
};
use crate::structs::asset_administration_shell::{
    AssetAdministrationShell,
    AssetAdministrationShellView,
};
use crate::structs::basic_event_element::{BasicEventElement, BasicEventElementView};
use crate::structs::capability::{Capability, CapabilityView};
use crate::structs::concept_description::{ConceptDescription, ConceptDescriptionView};
use crate::structs::entity::{Entity, EntityView};
use crate::structs::extension::{Extension, ExtensionView};
use crate::structs::operation::{Operation, OperationView};
use crate::structs::relationship_element::{RelationshipElement, RelationshipElementView};
use crate::structs::submodel::{Submodel, SubmodelView};
use crate::structs::submodel_element_collection::{
    SubmodelElementCollection,
    SubmodelElementCollectionView,
};
use crate::structs::submodel_element_list::{SubmodelElementList, SubmodelElementListView};
use crate::traits::has_extensions::THasExtensions;
use crate::wire::{
    add_member,
    fail,
    fail_at,
    find,
    lemma_lookup_push,
    lookup,
    member,
    outcome,
    same_text,
    tagged,
    DecodeError,
    DecodeErrorView,
    DecodeFault,
    Field,
    FieldView,
    Wire,
    WireView,
};

verus! {

/// Any of the elements that can be extended by proprietary extensions.
#[derive(Debug, PartialEq)]
pub enum HasExtensions {
    BasicEventElement(BasicEventElement),
    Capability(Capability),
    SubmodelElementCollection(SubmodelElementCollection),
    RelationshipElement(RelationshipElement),
    AnnotatedRelationshipElement(AnnotatedRelationshipElement),
    AssetAdministrationShell(AssetAdministrationShell),
    Entity(Entity),
    Operation(Operation),
    SubmodelElementList(SubmodelElementList),
    Submodel(Submodel),
    ConceptDescription(ConceptDescription),
}

/// The mathematical form of a [`HasExtensions`].
#[verifier::ext_equal]
pub enum HasExtensionsView {
    BasicEventElement(BasicEventElementView),
    Capability(CapabilityView),
    SubmodelElementCollection(SubmodelElementCollectionView),
    RelationshipElement(RelationshipElementView),
    AnnotatedRelationshipElement(AnnotatedRelationshipElementView),
    AssetAdministrationShell(AssetAdministrationShellView),
    Entity(EntityView),
    Operation(OperationView),
    SubmodelElementList(SubmodelElementListView),
    Submodel(SubmodelView),
    ConceptDescription(ConceptDescriptionView),
}

impl View for HasExtensions {
    type V = HasExtensionsView;

    open spec fn view(&self) -> HasExtensionsView {
        match self {
            HasExtensions::BasicEventElement(x) => HasExtensionsView::BasicEventElement(x@),
            HasExtensions::Capability(x) => HasExtensionsView::Capability(x@),
            HasExtensions::SubmodelElementCollection(x) =>
                HasExtensionsView::SubmodelElementCollection(x@),
            HasExtensions::RelationshipElement(x) => HasExtensionsView::RelationshipElement(x@),
            HasExtensions::AnnotatedRelationshipElement(x) =>
                HasExtensionsView::AnnotatedRelationshipElement(x@),
            HasExtensions::AssetAdministrationShell(x) =>
                HasExtensionsView::AssetAdministrationShell(x@),
            HasExtensions::Entity(x) => HasExtensionsView::Entity(x@),
            HasExtensions::Operation(x) => HasExtensionsView::Operation(x@),
            HasExtensions::SubmodelElementList(x) => HasExtensionsView::SubmodelElementList(x@),
            HasExtensions::Submodel(x) => HasExtensionsView::Submodel(x@),
            HasExtensions::ConceptDescription(x) => HasExtensionsView::ConceptDescription(x@),
        }
    }
}

impl DeepView for HasExtensions {
    type V = HasExtensionsView;

    open spec fn deep_view(&self) -> HasExtensionsView {
        self@
    }
}

impl Clone for HasExtensions {
    fn clone(&self) -> (r: HasExtensions)
        ensures
            r@ == self@,
    {
        match self {
            HasExtensions::BasicEventElement(x) => HasExtensions::BasicEventElement(x.clone()),
            HasExtensions::Capability(x) => HasExtensions::Capability(x.clone()),
            HasExtensions::SubmodelElementCollection(x) =>
                HasExtensions::SubmodelElementCollection(x.clone()),
            HasExtensions::RelationshipElement(x) => HasExtensions::RelationshipElement(x.clone()),
            HasExtensions::AnnotatedRelationshipElement(x) =>
                HasExtensions::AnnotatedRelationshipElement(x.clone()),
            HasExtensions::AssetAdministrationShell(x) =>
                HasExtensions::AssetAdministrationShell(x.clone()),
            HasExtensions::Entity(x) => HasExtensions::Entity(x.clone()),
            HasExtensions::Operation(x) => HasExtensions::Operation(x.clone()),
            HasExtensions::SubmodelElementList(x) => HasExtensions::SubmodelElementList(x.clone()),
            HasExtensions::Submodel(x) => HasExtensions::Submodel(x.clone()),
            HasExtensions::ConceptDescription(x) => HasExtensions::ConceptDescription(x.clone()),
        }
    }
}

impl THasExtensions for HasExtensions {
    open spec fn extensions_view(&self) -> Seq<ExtensionView> {
        match self {
            HasExtensions::BasicEventElement(x) => x.extensions_view(),
            HasExtensions::Capability(x) => x.extensions_view(),
            HasExtensions::SubmodelElementCollection(x) => x.extensions_view(),
            HasExtensions::RelationshipElement(x) => x.extensions_view(),
            HasExtensions::AnnotatedRelationshipElement(x) => x.extensions_view(),
            HasExtensions::AssetAdministrationShell(x) => x.extensions_view(),
            HasExtensions::Entity(x) => x.extensions_view(),
            HasExtensions::Operation(x) => x.extensions_view(),
            HasExtensions::SubmodelElementList(x) => x.extensions_view(),
            HasExtensions::Submodel(x) => x.extensions_view(),
            HasExtensions::ConceptDescription(x) => x.extensions_view(),
        }
    }

    fn set_extensions(&mut self, extensions: Vec<Extension>)
        ensures
            final(self)@ == old(self)@.with_extensions(extensions.deep_view()),
    {
        match self {
            HasExtensions::BasicEventElement(x) => x.set_extensions(extensions),
            HasExtensions::Capability(x) => x.set_extensions(extensions),
            HasExtensions::SubmodelElementCollection(x) => x.set_extensions(extensions),
            HasExtensions::RelationshipElement(x) => x.set_extensions(extensions),
            HasExtensions::AnnotatedRelationshipElement(x) => x.set_extensions(extensions),
            HasExtensions::AssetAdministrationShell(x) => x.set_extensions(extensions),
            HasExtensions::Entity(x) => x.set_extensions(extensions),
            HasExtensions::Operation(x) => x.set_extensions(extensions),
            HasExtensions::SubmodelElementList(x) => x.set_extensions(extensions),
            HasExtensions::Submodel(x) => x.set_extensions(extensions),
            HasExtensions::ConceptDescription(x) => x.set_extensions(extensions),
        }
    }

    fn get_extensions(&self) -> (r: &Vec<Extension>) {
        match self {
            HasExtensions::BasicEventElement(x) => x.get_extensions(),
            HasExtensions::Capability(x) => x.get_extensions(),
            HasExtensions::SubmodelElementCollection(x) => x.get_extensions(),
            HasExtensions::RelationshipElement(x) => x.get_extensions(),
            HasExtensions::AnnotatedRelationshipElement(x) => x.get_extensions(),
            HasExtensions::AssetAdministrationShell(x) => x.get_extensions(),
            HasExtensions::Entity(x) => x.get_extensions(),
            HasExtensions::Operation(x) => x.get_extensions(),
            HasExtensions::SubmodelElementList(x) => x.get_extensions(),
            HasExtensions::Submodel(x) => x.get_extensions(),
            HasExtensions::ConceptDescription(x) => x.get_extensions(),
        }
    }

    fn get_mut_extensions(&mut self) -> (r: &mut Vec<Extension>)
        ensures
            final(self)@ == old(self)@.with_extensions(final(r).deep_view()),
    {
        match self {
            HasExtensions::BasicEventElement(x) => x.get_mut_extensions(),
            HasExtensions::Capability(x) => x.get_mut_extensions(),
            HasExtensions::SubmodelElementCollection(x) => x.get_mut_extensions(),
            HasExtensions::RelationshipElement(x) => x.get_mut_extensions(),
            HasExtensions::AnnotatedRelationshipElement(x) => x.get_mut_extensions(),
            HasExtensions::AssetAdministrationShell(x) => x.get_mut_extensions(),
            HasExtensions::Entity(x) => x.get_mut_extensions(),
            HasExtensions::Operation(x) => x.get_mut_extensions(),
            HasExtensions::SubmodelElementList(x) => x.get_mut_extensions(),
            HasExtensions::Submodel(x) => x.get_mut_extensions(),
            HasExtensions::ConceptDescription(x) => x.get_mut_extensions(),
        }
    }

    fn add_extension(&mut self, extension: Extension)
        ensures
            final(self)@ ==
                old(self)@.with_extensions(old(self).extensions_view().push(extension@)),
    {
        match self {
            HasExtensions::BasicEventElement(x) => x.add_extension(extension),
            HasExtensions::Capability(x) => x.add_extension(extension),
            HasExtensions::SubmodelElementCollection(x) => x.add_extension(extension),
            HasExtensions::RelationshipElement(x) => x.add_extension(extension),
            HasExtensions::AnnotatedRelationshipElement(x) => x.add_extension(extension),
            HasExtensions::AssetAdministrationShell(x) => x.add_extension(extension),
            HasExtensions::Entity(x) => x.add_extension(extension),
            HasExtensions::Operation(x) => x.add_extension(extension),
            HasExtensions::SubmodelElementList(x) => x.add_extension(extension),
            HasExtensions::Submodel(x) => x.add_extension(extension),
            HasExtensions::ConceptDescription(x) => x.add_extension(extension),
        }
    }

    fn remove_extension(&mut self, index: usize) -> (r: Result<Extension, ModelError>)
        ensures
            match r {
                Ok(item) =>
                    final(self)@ ==
                    old(self)@.with_extensions(old(self).extensions_view().remove(
                    index as int)),
                Err(e) => final(self)@ == old(self)@,
            },
    {
        match self {
            HasExtensions::BasicEventElement(x) => x.remove_extension(index),
            HasExtensions::Capability(x) => x.remove_extension(index),
            HasExtensions::SubmodelElementCollection(x) => x.remove_extension(index),
            HasExtensions::RelationshipElement(x) => x.remove_extension(index),
            HasExtensions::AnnotatedRelationshipElement(x) => x.remove_extension(index),
            HasExtensions::AssetAdministrationShell(x) => x.remove_extension(index),
            HasExtensions::Entity(x) => x.remove_extension(index),
            HasExtensions::Operation(x) => x.remove_extension(index),
            HasExtensions::SubmodelElementList(x) => x.remove_extension(index),
            HasExtensions::Submodel(x) => x.remove_extension(index),
            HasExtensions::ConceptDescription(x) => x.remove_extension(index),
        }
    }
}

impl HasExtensionsView {
    /// Whether every reference in the value is well formed.
    pub open spec fn well_formed(self) -> bool {
        match self {
            HasExtensionsView::BasicEventElement(x) => x.well_formed(),
            HasExtensionsView::Capability(x) => x.well_formed(),
            HasExtensionsView::SubmodelElementCollection(x) => x.well_formed(),
            HasExtensionsView::RelationshipElement(x) => x.well_formed(),
            HasExtensionsView::AnnotatedRelationshipElement(x) => x.well_formed(),
            HasExtensionsView::AssetAdministrationShell(x) => x.well_formed(),
            HasExtensionsView::Entity(x) => x.well_formed(),
            HasExtensionsView::Operation(x) => x.well_formed(),
            HasExtensionsView::SubmodelElementList(x) => x.well_formed(),
            HasExtensionsView::Submodel(x) => x.well_formed(),
            HasExtensionsView::ConceptDescription(x) => x.well_formed(),
        }
    }

    /// The same value with the extensions of the element replaced.
    pub open spec fn with_extensions(self, extensions: Seq<ExtensionView>) -> HasExtensionsView {
        match self {
            HasExtensionsView::BasicEventElement(x) =>
                HasExtensionsView::BasicEventElement(x.with_extensions(extensions)),
            HasExtensionsView::Capability(x) =>
                HasExtensionsView::Capability(x.with_extensions(extensions)),
            HasExtensionsView::SubmodelElementCollection(x) =>
                HasExtensionsView::SubmodelElementCollection(x.with_extensions(extensions)),
            HasExtensionsView::RelationshipElement(x) =>
                HasExtensionsView::RelationshipElement(x.with_extensions(extensions)),
            HasExtensionsView::AnnotatedRelationshipElement(x) =>
                HasExtensionsView::AnnotatedRelationshipElement(x.with_extensions(extensions)),
            HasExtensionsView::AssetAdministrationShell(x) =>
                HasExtensionsView::AssetAdministrationShell(x.with_extensions(extensions)),
            HasExtensionsView::Entity(x) =>
                HasExtensionsView::Entity(x.with_extensions(extensions)),
            HasExtensionsView::Operation(x) =>
                HasExtensionsView::Operation(x.with_extensions(extensions)),
            HasExtensionsView::SubmodelElementList(x) =>
                HasExtensionsView::SubmodelElementList(x.with_extensions(extensions)),
            HasExtensionsView::Submodel(x) =>
                HasExtensionsView::Submodel(x.with_extensions(extensions)),
            HasExtensionsView::ConceptDescription(x) =>
                HasExtensionsView::ConceptDescription(x.with_extensions(extensions)),
        }
    }

    /// The name of the type of the value, which tells the variants apart on
    /// the wire.
    pub open spec fn model_type(self) -> Seq<char> {
        match self {
            HasExtensionsView::BasicEventElement(_) => "BasicEventElement"@,
            HasExtensionsView::Capability(_) => "Capability"@,
            HasExtensionsView::SubmodelElementCollection(_) => "SubmodelElementCollection"@,
            HasExtensionsView::RelationshipElement(_) => "RelationshipElement"@,
            HasExtensionsView::AnnotatedRelationshipElement(_) => "AnnotatedRelationshipElement"@,
            HasExtensionsView::AssetAdministrationShell(_) => "AssetAdministrationShell"@,
            HasExtensionsView::Entity(_) => "Entity"@,
            HasExtensionsView::Operation(_) => "Operation"@,
            HasExtensionsView::SubmodelElementList(_) => "SubmodelElementList"@,
            HasExtensionsView::Submodel(_) => "Submodel"@,
            HasExtensionsView::ConceptDescription(_) => "ConceptDescription"@,
        }
    }

    /// Whether `tag` is the name of a type that is accepted in this place.
    pub open spec fn knows(tag: Seq<char>) -> bool {
        tag == "BasicEventElement"@
            || tag == "Capability"@
            || tag == "SubmodelElementCollection"@
            || tag == "RelationshipElement"@
            || tag == "AnnotatedRelationshipElement"@
            || tag == "AssetAdministrationShell"@
            || tag == "Entity"@
            || tag == "Operation"@
            || tag == "SubmodelElementList"@
            || tag == "Submodel"@
            || tag == "ConceptDescription"@
    }

    /// The value on the wire: a record that begins with the name of the
    /// type and goes on with the members of the value.
    pub open spec fn to_wire(self) -> WireView {
        WireView::Record(
            match self {
                HasExtensionsView::BasicEventElement(x) =>
                    x.members_after(tagged(Some("BasicEventElement"@))),
                HasExtensionsView::Capability(x) => x.members_after(tagged(Some("Capability"@))),
                HasExtensionsView::SubmodelElementCollection(x) =>
                    x.members_after(tagged(Some("SubmodelElementCollection"@))),
                HasExtensionsView::RelationshipElement(x) =>
                    x.members_after(tagged(Some("RelationshipElement"@))),
                HasExtensionsView::AnnotatedRelationshipElement(x) =>
                    x.members_after(tagged(Some("AnnotatedRelationshipElement"@))),
                HasExtensionsView::AssetAdministrationShell(x) =>
                    x.members_after(tagged(Some("AssetAdministrationShell"@))),
                HasExtensionsView::Entity(x) => x.members_after(tagged(Some("Entity"@))),
                HasExtensionsView::Operation(x) => x.members_after(tagged(Some("Operation"@))),
                HasExtensionsView::SubmodelElementList(x) =>
                    x.members_after(tagged(Some("SubmodelElementList"@))),
                HasExtensionsView::Submodel(x) => x.members_after(tagged(Some("Submodel"@))),
                HasExtensionsView::ConceptDescription(x) =>
                    x.members_after(tagged(Some("ConceptDescription"@))),
            },
        )
    }

    /// The value that a wire value stands for: that of the type that the
    /// member `modelType` names. A name of no accepted type is refused.
    pub open spec fn from_wire(w: WireView) -> Result<HasExtensionsView, DecodeErrorView> {
        match w {
            WireView::Record(fields) => match lookup(fields, "modelType"@) {
                None => Err(fail_at(DecodeFault::MissingField, "modelType"@)),
                Some(WireView::Text(tag)) => HasExtensionsView::from_tagged(tag, fields),
                Some(_) => Err(fail_at(DecodeFault::ExpectedText, "modelType"@)),
            },
            _ => Err(fail(DecodeFault::ExpectedRecord)),
        }
    }

    /// The value of the type called `tag` that the members of a record stand
    /// for.
    #[verifier::opaque]
    pub open spec fn from_tagged(tag: Seq<char>, fields: Seq<FieldView>) -> Result<
        HasExtensionsView,
        DecodeErrorView,
    > {
        if tag == "BasicEventElement"@ {
            match BasicEventElementView::from_members(fields) {
                Ok(x) => Ok(HasExtensionsView::BasicEventElement(x)),
                Err(e) => Err(e),
            }
        } else if tag == "Capability"@ {
            match CapabilityView::from_members(fields) {
                Ok(x) => Ok(HasExtensionsView::Capability(x)),
                Err(e) => Err(e),
            }
        } else if tag == "SubmodelElementCollection"@ {
            match SubmodelElementCollectionView::from_members(fields) {
                Ok(x) => Ok(HasExtensionsView::SubmodelElementCollection(x)),
                Err(e) => Err(e),
            }
        } else if tag == "RelationshipElement"@ {
            match RelationshipElementView::from_members(fields) {
                Ok(x) => Ok(HasExtensionsView::RelationshipElement(x)),
                Err(e) => Err(e),
            }
        } else if tag == "AnnotatedRelationshipElement"@ {
            match AnnotatedRelationshipElementView::from_members(fields) {
                Ok(x) => Ok(HasExtensionsView::AnnotatedRelationshipElement(x)),
                Err(e) => Err(e),
            }
        } else if tag == "AssetAdministrationShell"@ {
            match AssetAdministrationShellView::from_members(fields) {
                Ok(x) => Ok(HasExtensionsView::AssetAdministrationShell(x)),
                Err(e) => Err(e),
            }
        } else if tag == "Entity"@ {
            match EntityView::from_members(fields) {
                Ok(x) => Ok(HasExtensionsView::Entity(x)),
                Err(e) => Err(e),
            }
        } else if tag == "Operation"@ {
            match OperationView::from_members(fields) {
                Ok(x) => Ok(HasExtensionsView::Operation(x)),
                Err(e) => Err(e),
            }
        } else if tag == "SubmodelElementList"@ {
            match SubmodelElementListView::from_members(fields) {
                Ok(x) => Ok(HasExtensionsView::SubmodelElementList(x)),
                Err(e) => Err(e),
            }
        } else if tag == "Submodel"@ {
            match SubmodelView::from_members(fields) {
                Ok(x) => Ok(HasExtensionsView::Submodel(x)),
                Err(e) => Err(e),
            }
        } else if tag == "ConceptDescription"@ {
            match ConceptDescriptionView::from_members(fields) {
                Ok(x) => Ok(HasExtensionsView::ConceptDescription(x)),
                Err(e) => Err(e),
            }
        } else {
            Err(fail_at(DecodeFault::UnknownDiscriminant, "modelType"@))
        }
    }

    /// What is encoded carries the exact name of its type as its type name.
    pub proof fn lemma_model_type(self)
        ensures
            self.to_wire() matches WireView::Record(fields) && lookup(fields, "modelType"@) == Some(
                WireView::Text(self.model_type()),
            ),
            HasExtensionsView::knows(self.model_type()),
    {
        broadcast use lemma_lookup_push;

        match self {
            HasExtensionsView::BasicEventElement(x) => {
                x.lemma_model_type_kept(Some("BasicEventElement"@));
            },
            HasExtensionsView::Capability(x) => {
                x.lemma_model_type_kept(Some("Capability"@));
            },
            HasExtensionsView::SubmodelElementCollection(x) => {
                x.lemma_model_type_kept(Some("SubmodelElementCollection"@));
            },
            HasExtensionsView::RelationshipElement(x) => {
                x.lemma_model_type_kept(Some("RelationshipElement"@));
            },
            HasExtensionsView::AnnotatedRelationshipElement(x) => {
                x.lemma_model_type_kept(Some("AnnotatedRelationshipElement"@));
            },
            HasExtensionsView::AssetAdministrationShell(x) => {
                x.lemma_model_type_kept(Some("AssetAdministrationShell"@));
            },
            HasExtensionsView::Entity(x) => {
                x.lemma_model_type_kept(Some("Entity"@));
            },
            HasExtensionsView::Operation(x) => {
                x.lemma_model_type_kept(Some("Operation"@));
            },
            HasExtensionsView::SubmodelElementList(x) => {
                x.lemma_model_type_kept(Some("SubmodelElementList"@));
            },
            HasExtensionsView::Submodel(x) => {
                x.lemma_model_type_kept(Some("Submodel"@));
            },
            HasExtensionsView::ConceptDescription(x) => {
                x.lemma_model_type_kept(Some("ConceptDescription"@));
            },
        }
    }

    /// A record whose type name is that of no accepted type is refused.
    pub proof fn lemma_unknown_model_type(fields: Seq<FieldView>, tag: Seq<char>)
        requires
            lookup(fields, "modelType"@) == Some(WireView::Text(tag)),
            !HasExtensionsView::knows(tag),
        ensures
            HasExtensionsView::from_wire(WireView::Record(fields)) ==
                Err::<HasExtensionsView, DecodeErrorView>(
                fail_at(DecodeFault::UnknownDiscriminant, "modelType"@),
            ),
    {
        reveal(HasExtensionsView::from_tagged);
    }

    /// A value of the variant `BasicEventElement` is found again from what it is on the wire.
    proof fn lemma_round_trip_basic_event_element(x: BasicEventElementView)
        requires
            x.well_formed(),
        ensures
            HasExtensionsView::from_wire(HasExtensionsView::BasicEventElement(x).to_wire()) ==
                Ok::<HasExtensionsView, DecodeErrorView>(
                HasExtensionsView::BasicEventElement(x),
            ),
    {
        broadcast use lemma_lookup_push;

        reveal(HasExtensionsView::from_tagged);
        lemma_name_codes();
        x.lemma_members_round_trip(Some("BasicEventElement"@));
        x.lemma_model_type_kept(Some("BasicEventElement"@));
    }

    /// A value of the variant `Capability` is found again from what it is on the wire.
    proof fn lemma_round_trip_capability(x: CapabilityView)
        requires
            x.well_formed(),
        ensures
            HasExtensionsView::from_wire(HasExtensionsView::Capability(x).to_wire()) ==
                Ok::<HasExtensionsView, DecodeErrorView>(
                HasExtensionsView::Capability(x),
            ),
    {
        broadcast use lemma_lookup_push;

        reveal(HasExtensionsView::from_tagged);
        lemma_name_codes();
        x.lemma_members_round_trip(Some("Capability"@));
        x.lemma_model_type_kept(Some("Capability"@));
    }

    /// A value of the variant `SubmodelElementCollection` is found again from what it is on the
    /// wire.
    proof fn lemma_round_trip_submodel_element_collection(x: SubmodelElementCollectionView)
        requires
            x.well_formed(),
        ensures
            HasExtensionsView::from_wire(HasExtensionsView::SubmodelElementCollection(
                x).to_wire()) == Ok::<HasExtensionsView, DecodeErrorView>(
                HasExtensionsView::SubmodelElementCollection(x),
            ),
    {
        broadcast use lemma_lookup_push;

        reveal(HasExtensionsView::from_tagged);
        lemma_name_codes();
        x.lemma_members_round_trip(Some("SubmodelElementCollection"@));
        x.lemma_model_type_kept(Some("SubmodelElementCollection"@));
    }

    /// A value of the variant `RelationshipElement` is found again from what it is on the wire.
    proof fn lemma_round_trip_relationship_element(x: RelationshipElementView)
        requires
            x.well_formed(),
        ensures
            HasExtensionsView::from_wire(HasExtensionsView::RelationshipElement(x).to_wire()) ==
                Ok::<HasExtensionsView, DecodeErrorView>(
                HasExtensionsView::RelationshipElement(x),
            ),
    {
        broadcast use lemma_lookup_push;

        reveal(HasExtensionsView::from_tagged);
        lemma_name_codes();
        x.lemma_members_round_trip(Some("RelationshipElement"@));
        x.lemma_model_type_kept(Some("RelationshipElement"@));
    }

    /// A value of the variant `AnnotatedRelationshipElement` is found again from what it is on the
    /// wire.
    proof fn lemma_round_trip_annotated_relationship_element(x: AnnotatedRelationshipElementView)
        requires
            x.well_formed(),
        ensures
            HasExtensionsView::from_wire(HasExtensionsView::AnnotatedRelationshipElement(
                x).to_wire()) == Ok::<HasExtensionsView, DecodeErrorView>(
                HasExtensionsView::AnnotatedRelationshipElement(x),
            ),
    {
        broadcast use lemma_lookup_push;

        reveal(HasExtensionsView::from_tagged);
        lemma_name_codes();
        x.lemma_members_round_trip(Some("AnnotatedRelationshipElement"@));
        x.lemma_model_type_kept(Some("AnnotatedRelationshipElement"@));
    }

    /// A value of the variant `AssetAdministrationShell` is found again from what it is on the
    /// wire.
    proof fn lemma_round_trip_asset_administration_shell(x: AssetAdministrationShellView)
        requires
            x.well_formed(),
        ensures
            HasExtensionsView::from_wire(HasExtensionsView::AssetAdministrationShell(
                x).to_wire()) == Ok::<HasExtensionsView, DecodeErrorView>(
                HasExtensionsView::AssetAdministrationShell(x),
            ),
    {
        broadcast use lemma_lookup_push;

        reveal(HasExtensionsView::from_tagged);
        lemma_name_codes();
        x.lemma_members_round_trip(Some("AssetAdministrationShell"@));
        x.lemma_model_type_kept(Some("AssetAdministrationShell"@));
    }

    /// A value of the variant `Entity` is found again from what it is on the wire.
    proof fn lemma_round_trip_entity(x: EntityView)
        requires
            x.well_formed(),
        ensures
            HasExtensionsView::from_wire(HasExtensionsView::Entity(x).to_wire()) ==
                Ok::<HasExtensionsView, DecodeErrorView>(
                HasExtensionsView::Entity(x),
            ),
    {
        broadcast use lemma_lookup_push;

        reveal(HasExtensionsView::from_tagged);
        lemma_name_codes();
        x.lemma_members_round_trip(Some("Entity"@));
        x.lemma_model_type_kept(Some("Entity"@));
    }

    /// A value of the variant `Operation` is found again from what it is on the wire.
    proof fn lemma_round_trip_operation(x: OperationView)
        requires
            x.well_formed(),
        ensures
            HasExtensionsView::from_wire(HasExtensionsView::Operation(x).to_wire()) ==
                Ok::<HasExtensionsView, DecodeErrorView>(
                HasExtensionsView::Operation(x),
            ),
    {
        broadcast use lemma_lookup_push;

        reveal(HasExtensionsView::from_tagged);
        lemma_name_codes();
        x.lemma_members_round_trip(Some("Operation"@));
        x.lemma_model_type_kept(Some("Operation"@));
    }

    /// A value of the variant `SubmodelElementList` is found again from what it is on the wire.
    proof fn lemma_round_trip_submodel_element_list(x: SubmodelElementListView)
        requires
            x.well_formed(),
        ensures
            HasExtensionsView::from_wire(HasExtensionsView::SubmodelElementList(x).to_wire()) ==
                Ok::<HasExtensionsView, DecodeErrorView>(
                HasExtensionsView::SubmodelElementList(x),
            ),
    {
        broadcast use lemma_lookup_push;

        reveal(HasExtensionsView::from_tagged);
        lemma_name_codes();
        x.lemma_members_round_trip(Some("SubmodelElementList"@));
        x.lemma_model_type_kept(Some("SubmodelElementList"@));
    }

    /// A value of the variant `Submodel` is found again from what it is on the wire.
    proof fn lemma_round_trip_submodel(x: SubmodelView)
        requires
            x.well_formed(),
        ensures
            HasExtensionsView::from_wire(HasExtensionsView::Submodel(x).to_wire()) ==
                Ok::<HasExtensionsView, DecodeErrorView>(
                HasExtensionsView::Submodel(x),
            ),
    {
        broadcast use lemma_lookup_push;

        reveal(HasExtensionsView::from_tagged);
        lemma_name_codes();
        x.lemma_members_round_trip(Some("Submodel"@));
        x.lemma_model_type_kept(Some("Submodel"@));
    }

    /// A value of the variant `ConceptDescription` is found again from what it is on the wire.
    proof fn lemma_round_trip_concept_description(x: ConceptDescriptionView)
        requires
            x.well_formed(),
        ensures
            HasExtensionsView::from_wire(HasExtensionsView::ConceptDescription(x).to_wire()) ==
                Ok::<HasExtensionsView, DecodeErrorView>(
                HasExtensionsView::ConceptDescription(x),
            ),
    {
        broadcast use lemma_lookup_push;

        reveal(HasExtensionsView::from_tagged);
        lemma_name_codes();
        x.lemma_members_round_trip(Some("ConceptDescription"@));
        x.lemma_model_type_kept(Some("ConceptDescription"@));
    }

    /// Every value is found again from what it is on the wire.
    pub proof fn lemma_round_trip(self)
        requires
            self.well_formed(),
        ensures
            HasExtensionsView::from_wire(self.to_wire()) ==
                Ok::<HasExtensionsView, DecodeErrorView>(self),
    {
        match self {
            HasExtensionsView::BasicEventElement(x) => {
                HasExtensionsView::lemma_round_trip_basic_event_element(x);
            },
            HasExtensionsView::Capability(x) => {
                HasExtensionsView::lemma_round_trip_capability(x);
            },
            HasExtensionsView::SubmodelElementCollection(x) => {
                HasExtensionsView::lemma_round_trip_submodel_element_collection(x);
            },
            HasExtensionsView::RelationshipElement(x) => {
                HasExtensionsView::lemma_round_trip_relationship_element(x);
            },
            HasExtensionsView::AnnotatedRelationshipElement(x) => {
                HasExtensionsView::lemma_round_trip_annotated_relationship_element(x);
            },
            HasExtensionsView::AssetAdministrationShell(x) => {
                HasExtensionsView::lemma_round_trip_asset_administration_shell(x);
            },
            HasExtensionsView::Entity(x) => {
                HasExtensionsView::lemma_round_trip_entity(x);
            },
            HasExtensionsView::Operation(x) => {
                HasExtensionsView::lemma_round_trip_operation(x);
            },
            HasExtensionsView::SubmodelElementList(x) => {
                HasExtensionsView::lemma_round_trip_submodel_element_list(x);
            },
            HasExtensionsView::Submodel(x) => {
                HasExtensionsView::lemma_round_trip_submodel(x);
            },
            HasExtensionsView::ConceptDescription(x) => {
                HasExtensionsView::lemma_round_trip_concept_description(x);
            },
        }
    }
}

impl HasExtensions {
    /// The name of the type of the value.
    pub fn model_type(&self) -> (s: &'static str)
        ensures
            s@ == self@.model_type(),
    {
        match self {
            HasExtensions::BasicEventElement(_) => "BasicEventElement",
            HasExtensions::Capability(_) => "Capability",
            HasExtensions::SubmodelElementCollection(_) => "SubmodelElementCollection",
            HasExtensions::RelationshipElement(_) => "RelationshipElement",
            HasExtensions::AnnotatedRelationshipElement(_) => "AnnotatedRelationshipElement",
            HasExtensions::AssetAdministrationShell(_) => "AssetAdministrationShell",
            HasExtensions::Entity(_) => "Entity",
            HasExtensions::Operation(_) => "Operation",
            HasExtensions::SubmodelElementList(_) => "SubmodelElementList",
            HasExtensions::Submodel(_) => "Submodel",
            HasExtensions::ConceptDescription(_) => "ConceptDescription",
        }
    }

    /// The value as it travels: a record that begins with the name of the
    /// type. What comes out decodes to the same value again.
    pub fn encode(&self) -> (w: Wire)
        ensures
            w@ == self@.to_wire(),
            self@.well_formed(),
            HasExtensionsView::from_wire(w@) == Ok::<HasExtensionsView, DecodeErrorView>(self@),
    {
        let mut fields: Vec<Field> = Vec::new();
        assert(fields.deep_view() =~= Seq::<FieldView>::empty());
        add_member(&mut fields, "modelType", Wire::text(self.model_type()));
        match self {
            HasExtensions::BasicEventElement(x) => x.encode_members(&mut fields),
            HasExtensions::Capability(x) => x.encode_members(&mut fields),
            HasExtensions::SubmodelElementCollection(x) => x.encode_members(&mut fields),
            HasExtensions::RelationshipElement(x) => x.encode_members(&mut fields),
            HasExtensions::AnnotatedRelationshipElement(x) => x.encode_members(&mut fields),
            HasExtensions::AssetAdministrationShell(x) => x.encode_members(&mut fields),
            HasExtensions::Entity(x) => x.encode_members(&mut fields),
            HasExtensions::Operation(x) => x.encode_members(&mut fields),
            HasExtensions::SubmodelElementList(x) => x.encode_members(&mut fields),
            HasExtensions::Submodel(x) => x.encode_members(&mut fields),
            HasExtensions::ConceptDescription(x) => x.encode_members(&mut fields),
        }
        proof {
            self@.lemma_round_trip();
        }
        Wire::record(fields)
    }

    /// The value that `w` stands for.
    pub fn decode(w: &Wire) -> (r: Result<HasExtensions, DecodeError>)
        ensures
            outcome(r) == HasExtensionsView::from_wire(w@),
    {
        let fields = match w.members() {
            Some(fields) => fields,
            None => {
                return Err(DecodeError::new(DecodeFault::ExpectedRecord));
            },
        };
        let tag = match find(fields, "modelType") {
            None => {
                return Err(DecodeError::at(DecodeFault::MissingField, "modelType"));
            },
            Some(Wire::Text(tag)) => tag,
            Some(_) => {
                return Err(DecodeError::at(DecodeFault::ExpectedText, "modelType"));
            },
        };
        proof {
            reveal(HasExtensionsView::from_tagged);
        }
        if same_text(tag.as_str(), "BasicEventElement") {
            match BasicEventElement::decode_members(fields) {
                Ok(x) => Ok(HasExtensions::BasicEventElement(x)),
                Err(e) => Err(e),
            }
        } else if same_text(tag.as_str(), "Capability") {
            match Capability::decode_members(fields) {
                Ok(x) => Ok(HasExtensions::Capability(x)),
                Err(e) => Err(e),
            }
        } else if same_text(tag.as_str(), "SubmodelElementCollection") {
            match SubmodelElementCollection::decode_members(fields) {
                Ok(x) => Ok(HasExtensions::SubmodelElementCollection(x)),
                Err(e) => Err(e),
            }
        } else if same_text(tag.as_str(), "RelationshipElement") {
            match RelationshipElement::decode_members(fields) {
                Ok(x) => Ok(HasExtensions::RelationshipElement(x)),
                Err(e) => Err(e),
            }
        } else if same_text(tag.as_str(), "AnnotatedRelationshipElement") {
            match AnnotatedRelationshipElement::decode_members(fields) {
                Ok(x) => Ok(HasExtensions::AnnotatedRelationshipElement(x)),
                Err(e) => Err(e),
            }
        } else if same_text(tag.as_str(), "AssetAdministrationShell") {
            match AssetAdministrationShell::decode_members(fields) {
                Ok(x) => Ok(HasExtensions::AssetAdministrationShell(x)),
                Err(e) => Err(e),
            }
        } else if same_text(tag.as_str(), "Entity") {
            match Entity::decode_members(fields) {
                Ok(x) => Ok(HasExtensions::Entity(x)),
                Err(e) => Err(e),
            }
        } else if same_text(tag.as_str(), "Operation") {
            match Operation::decode_members(fields) {
                Ok(x) => Ok(HasExtensions::Operation(x)),
                Err(e) => Err(e),
            }
        } else if same_text(tag.as_str(), "SubmodelElementList") {
            match SubmodelElementList::decode_members(fields) {
                Ok(x) => Ok(HasExtensions::SubmodelElementList(x)),
                Err(e) => Err(e),
            }
        } else if same_text(tag.as_str(), "Submodel") {
            match Submodel::decode_members(fields) {
                Ok(x) => Ok(HasExtensions::Submodel(x)),
                Err(e) => Err(e),
            }
        } else if same_text(tag.as_str(), "ConceptDescription") {
            match ConceptDescription::decode_members(fields) {
                Ok(x) => Ok(HasExtensions::ConceptDescription(x)),
                Err(e) => Err(e),
            }
        } else {
            Err(DecodeError::at(DecodeFault::UnknownDiscriminant, "modelType"))
        }
    }
}

} // verus!
