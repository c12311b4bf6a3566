use vstd::prelude::*;
use crate::error::ModelError;
use crate::names::lemma_name_codes;
use crate::structs::annotated_relationship_element::{
    AnnotatedRelationshipElement,
    AnnotatedRelationshipElementView,
};
use crate::structs::basic_event_element::{BasicEventElement, BasicEventElementView};
use crate::structs::blob::{Blob, BlobView};
use crate::structs::capability::{Capability, CapabilityView};
use crate::structs::entity::{Entity, EntityView};
use crate::structs::file::{File, FileView};
use crate::structs::multi_language_property::{MultiLanguageProperty, MultiLanguagePropertyView};
use crate::structs::operation::{Operation, OperationView};
use crate::structs::property::{Property, PropertyView};
use crate::structs::qualifier::{Qualifier, QualifierView};
use crate::structs::range::{Range, RangeView};
use crate::structs::reference_element::{ReferenceElement, ReferenceElementView};
use crate::structs::relationship_element::{RelationshipElement, RelationshipElementView};
use crate::structs::submodel::{Submodel, SubmodelView};
use crate::structs::submodel_element_collection::{
    SubmodelElementCollection,
    SubmodelElementCollectionView,
};
use crate::structs::submodel_element_list::{SubmodelElementList, SubmodelElementListView};
use crate::traits::qualifiable::TQualifiable;
use crate::wire::{
    add_member,
    fail,
    fail_at,
    find,
    lemma_lookup_push,
    lookup,
    member,
    outcome,
    same_text,
    tagged,
    DecodeError,
    DecodeErrorView,
    DecodeFault,
    Field,
    FieldView,
    Wire,
    WireView,
};

verus! {

/// Any of the elements that can be qualified.
#[derive(Debug, PartialEq)]
pub enum Qualifiable {
    AnnotatedRelationshipElement(AnnotatedRelationshipElement),
    BasicEventElement(BasicEventElement),
    Blob(Blob),
    Capability(Capability),
    Entity(Entity),
    File(File),
    MultiLanguageProperty(MultiLanguageProperty),
    Operation(Operation),
    Property(Property),
    Range(Range),
    ReferenceElement(ReferenceElement),
    RelationshipElement(RelationshipElement),
    Submodel(Submodel),
    SubmodelElementCollection(SubmodelElementCollection),
    SubmodelElementList(SubmodelElementList),
}

/// The mathematical form of a [`Qualifiable`].
#[verifier::ext_equal]
pub enum QualifiableView {
    AnnotatedRelationshipElement(AnnotatedRelationshipElementView),
    BasicEventElement(BasicEventElementView),
    Blob(BlobView),
    Capability(CapabilityView),
    Entity(EntityView),
    File(FileView),
    MultiLanguageProperty(MultiLanguagePropertyView),
    Operation(OperationView),
    Property(PropertyView),
    Range(RangeView),
    ReferenceElement(ReferenceElementView),
    RelationshipElement(RelationshipElementView),
    Submodel(SubmodelView),
    SubmodelElementCollection(SubmodelElementCollectionView),
    SubmodelElementList(SubmodelElementListView),
}

impl View for Qualifiable {
    type V = QualifiableView;

    open spec fn view(&self) -> QualifiableView {
        match self {
            Qualifiable::AnnotatedRelationshipElement(x) =>
                QualifiableView::AnnotatedRelationshipElement(x@),
            Qualifiable::BasicEventElement(x) => QualifiableView::BasicEventElement(x@),
            Qualifiable::Blob(x) => QualifiableView::Blob(x@),
            Qualifiable::Capability(x) => QualifiableView::Capability(x@),
            Qualifiable::Entity(x) => QualifiableView::Entity(x@),
            Qualifiable::File(x) => QualifiableView::File(x@),
            Qualifiable::MultiLanguageProperty(x) => QualifiableView::MultiLanguageProperty(x@),
            Qualifiable::Operation(x) => QualifiableView::Operation(x@),
            Qualifiable::Property(x) => QualifiableView::Property(x@),
            Qualifiable::Range(x) => QualifiableView::Range(x@),
            Qualifiable::ReferenceElement(x) => QualifiableView::ReferenceElement(x@),
            Qualifiable::RelationshipElement(x) => QualifiableView::RelationshipElement(x@),
            Qualifiable::Submodel(x) => QualifiableView::Submodel(x@),
            Qualifiable::SubmodelElementCollection(x) =>
                QualifiableView::SubmodelElementCollection(x@),
            Qualifiable::SubmodelElementList(x) => QualifiableView::SubmodelElementList(x@),
        }
    }
}

impl DeepView for Qualifiable {
    type V = QualifiableView;

    open spec fn deep_view(&self) -> QualifiableView {
        self@
    }
}

impl Clone for Qualifiable {
    fn clone(&self) -> (r: Qualifiable)
        ensures
            r@ == self@,
    {
        match self {
            Qualifiable::AnnotatedRelationshipElement(x) =>
                Qualifiable::AnnotatedRelationshipElement(x.clone()),
            Qualifiable::BasicEventElement(x) => Qualifiable::BasicEventElement(x.clone()),
            Qualifiable::Blob(x) => Qualifiable::Blob(x.clone()),
            Qualifiable::Capability(x) => Qualifiable::Capability(x.clone()),
            Qualifiable::Entity(x) => Qualifiable::Entity(x.clone()),
            Qualifiable::File(x) => Qualifiable::File(x.clone()),
            Qualifiable::MultiLanguageProperty(x) => Qualifiable::MultiLanguageProperty(x.clone()),
            Qualifiable::Operation(x) => Qualifiable::Operation(x.clone()),
            Qualifiable::Property(x) => Qualifiable::Property(x.clone()),
            Qualifiable::Range(x) => Qualifiable::Range(x.clone()),
            Qualifiable::ReferenceElement(x) => Qualifiable::ReferenceElement(x.clone()),
            Qualifiable::RelationshipElement(x) => Qualifiable::RelationshipElement(x.clone()),
            Qualifiable::Submodel(x) => Qualifiable::Submodel(x.clone()),
            Qualifiable::SubmodelElementCollection(x) =>
                Qualifiable::SubmodelElementCollection(x.clone()),
            Qualifiable::SubmodelElementList(x) => Qualifiable::SubmodelElementList(x.clone()),
        }
    }
}

impl TQualifiable for Qualifiable {
    open spec fn qualifiers_view(&self) -> Seq<QualifierView> {
        match self {
            Qualifiable::AnnotatedRelationshipElement(x) => x.qualifiers_view(),
            Qualifiable::BasicEventElement(x) => x.qualifiers_view(),
            Qualifiable::Blob(x) => x.qualifiers_view(),
            Qualifiable::Capability(x) => x.qualifiers_view(),
            Qualifiable::Entity(x) => x.qualifiers_view(),
            Qualifiable::File(x) => x.qualifiers_view(),
            Qualifiable::MultiLanguageProperty(x) => x.qualifiers_view(),
            Qualifiable::Operation(x) => x.qualifiers_view(),
            Qualifiable::Property(x) => x.qualifiers_view(),
            Qualifiable::Range(x) => x.qualifiers_view(),
            Qualifiable::ReferenceElement(x) => x.qualifiers_view(),
            Qualifiable::RelationshipElement(x) => x.qualifiers_view(),
            Qualifiable::Submodel(x) => x.qualifiers_view(),
            Qualifiable::SubmodelElementCollection(x) => x.qualifiers_view(),
            Qualifiable::SubmodelElementList(x) => x.qualifiers_view(),
        }
    }

    fn set_qualifiers(&mut self, qualifiers: Vec<Qualifier>)
        ensures
            final(self)@ == old(self)@.with_qualifiers(qualifiers.deep_view()),
    {
        match self {
            Qualifiable::AnnotatedRelationshipElement(x) => x.set_qualifiers(qualifiers),
            Qualifiable::BasicEventElement(x) => x.set_qualifiers(qualifiers),
            Qualifiable::Blob(x) => x.set_qualifiers(qualifiers),
            Qualifiable::Capability(x) => x.set_qualifiers(qualifiers),
            Qualifiable::Entity(x) => x.set_qualifiers(qualifiers),
            Qualifiable::File(x) => x.set_qualifiers(qualifiers),
            Qualifiable::MultiLanguageProperty(x) => x.set_qualifiers(qualifiers),
            Qualifiable::Operation(x) => x.set_qualifiers(qualifiers),
            Qualifiable::Property(x) => x.set_qualifiers(qualifiers),
            Qualifiable::Range(x) => x.set_qualifiers(qualifiers),
            Qualifiable::ReferenceElement(x) => x.set_qualifiers(qualifiers),
            Qualifiable::RelationshipElement(x) => x.set_qualifiers(qualifiers),
            Qualifiable::Submodel(x) => x.set_qualifiers(qualifiers),
            Qualifiable::SubmodelElementCollection(x) => x.set_qualifiers(qualifiers),
            Qualifiable::SubmodelElementList(x) => x.set_qualifiers(qualifiers),
        }
    }

    fn get_qualifiers(&self) -> (r: &Vec<Qualifier>) {
        match self {
            Qualifiable::AnnotatedRelationshipElement(x) => x.get_qualifiers(),
            Qualifiable::BasicEventElement(x) => x.get_qualifiers(),
            Qualifiable::Blob(x) => x.get_qualifiers(),
            Qualifiable::Capability(x) => x.get_qualifiers(),
            Qualifiable::Entity(x) => x.get_qualifiers(),
            Qualifiable::File(x) => x.get_qualifiers(),
            Qualifiable::MultiLanguageProperty(x) => x.get_qualifiers(),
            Qualifiable::Operation(x) => x.get_qualifiers(),
            Qualifiable::Property(x) => x.get_qualifiers(),
            Qualifiable::Range(x) => x.get_qualifiers(),
            Qualifiable::ReferenceElement(x) => x.get_qualifiers(),
            Qualifiable::RelationshipElement(x) => x.get_qualifiers(),
            Qualifiable::Submodel(x) => x.get_qualifiers(),
            Qualifiable::SubmodelElementCollection(x) => x.get_qualifiers(),
            Qualifiable::SubmodelElementList(x) => x.get_qualifiers(),
        }
    }

    fn get_mut_qualifiers(&mut self) -> (r: &mut Vec<Qualifier>)
        ensures
            final(self)@ == old(self)@.with_qualifiers(final(r).deep_view()),
    {
        match self {
            Qualifiable::AnnotatedRelationshipElement(x) => x.get_mut_qualifiers(),
            Qualifiable::BasicEventElement(x) => x.get_mut_qualifiers(),
            Qualifiable::Blob(x) => x.get_mut_qualifiers(),
            Qualifiable::Capability(x) => x.get_mut_qualifiers(),
            Qualifiable::Entity(x) => x.get_mut_qualifiers(),
            Qualifiable::File(x) => x.get_mut_qualifiers(),
            Qualifiable::MultiLanguageProperty(x) => x.get_mut_qualifiers(),
            Qualifiable::Operation(x) => x.get_mut_qualifiers(),
            Qualifiable::Property(x) => x.get_mut_qualifiers(),
            Qualifiable::Range(x) => x.get_mut_qualifiers(),
            Qualifiable::ReferenceElement(x) => x.get_mut_qualifiers(),
            Qualifiable::RelationshipElement(x) => x.get_mut_qualifiers(),
            Qualifiable::Submodel(x) => x.get_mut_qualifiers(),
            Qualifiable::SubmodelElementCollection(x) => x.get_mut_qualifiers(),
            Qualifiable::SubmodelElementList(x) => x.get_mut_qualifiers(),
        }
    }

    fn add_qualifier(&mut self, qualifier: Qualifier)
        ensures
            final(self)@ ==
                old(self)@.with_qualifiers(old(self).qualifiers_view().push(qualifier@)),
    {
        match self {
            Qualifiable::AnnotatedRelationshipElement(x) => x.add_qualifier(qualifier),
            Qualifiable::BasicEventElement(x) => x.add_qualifier(qualifier),
            Qualifiable::Blob(x) => x.add_qualifier(qualifier),
            Qualifiable::Capability(x) => x.add_qualifier(qualifier),
            Qualifiable::Entity(x) => x.add_qualifier(qualifier),
            Qualifiable::File(x) => x.add_qualifier(qualifier),
            Qualifiable::MultiLanguageProperty(x) => x.add_qualifier(qualifier),
            Qualifiable::Operation(x) => x.add_qualifier(qualifier),
            Qualifiable::Property(x) => x.add_qualifier(qualifier),
            Qualifiable::Range(x) => x.add_qualifier(qualifier),
            Qualifiable::ReferenceElement(x) => x.add_qualifier(qualifier),
            Qualifiable::RelationshipElement(x) => x.add_qualifier(qualifier),
            Qualifiable::Submodel(x) => x.add_qualifier(qualifier),
            Qualifiable::SubmodelElementCollection(x) => x.add_qualifier(qualifier),
            Qualifiable::SubmodelElementList(x) => x.add_qualifier(qualifier),
        }
    }

    fn remove_qualifier(&mut self, index: usize) -> (r: Result<Qualifier, ModelError>)
        ensures
            match r {
                Ok(item) =>
                    final(self)@ ==
                    old(self)@.with_qualifiers(old(self).qualifiers_view().remove(
                    index as int)),
                Err(e) => final(self)@ == old(self)@,
            },
    {
        match self {
            Qualifiable::AnnotatedRelationshipElement(x) => x.remove_qualifier(index),
            Qualifiable::BasicEventElement(x) => x.remove_qualifier(index),
            Qualifiable::Blob(x) => x.remove_qualifier(index),
            Qualifiable::Capability(x) => x.remove_qualifier(index),
            Qualifiable::Entity(x) => x.remove_qualifier(index),
            Qualifiable::File(x) => x.remove_qualifier(index),
            Qualifiable::MultiLanguageProperty(x) => x.remove_qualifier(index),
            Qualifiable::Operation(x) => x.remove_qualifier(index),
            Qualifiable::Property(x) => x.remove_qualifier(index),
            Qualifiable::Range(x) => x.remove_qualifier(index),
            Qualifiable::ReferenceElement(x) => x.remove_qualifier(index),
            Qualifiable::RelationshipElement(x) => x.remove_qualifier(index),
            Qualifiable::Submodel(x) => x.remove_qualifier(index),
            Qualifiable::SubmodelElementCollection(x) => x.remove_qualifier(index),
            Qualifiable::SubmodelElementList(x) => x.remove_qualifier(index),
        }
    }
}

impl QualifiableView {
    /// Whether every reference in the value is well formed.
    pub open spec fn well_formed(self) -> bool {
        match self {
            QualifiableView::AnnotatedRelationshipElement(x) => x.well_formed(),
            QualifiableView::BasicEventElement(x) => x.well_formed(),
            QualifiableView::Blob(x) => x.well_formed(),
            QualifiableView::Capability(x) => x.well_formed(),
            QualifiableView::Entity(x) => x.well_formed(),
            QualifiableView::File(x) => x.well_formed(),
            QualifiableView::MultiLanguageProperty(x) => x.well_formed(),
            QualifiableView::Operation(x) => x.well_formed(),
            QualifiableView::Property(x) => x.well_formed(),
            QualifiableView::Range(x) => x.well_formed(),
            QualifiableView::ReferenceElement(x) => x.well_formed(),
            QualifiableView::RelationshipElement(x) => x.well_formed(),
            QualifiableView::Submodel(x) => x.well_formed(),
            QualifiableView::SubmodelElementCollection(x) => x.well_formed(),
            QualifiableView::SubmodelElementList(x) => x.well_formed(),
        }
    }

    /// The same value with the additional qualifications of the element replaced.
    pub open spec fn with_qualifiers(self, qualifiers: Seq<QualifierView>) -> QualifiableView {
        match self {
            QualifiableView::AnnotatedRelationshipElement(x) =>
                QualifiableView::AnnotatedRelationshipElement(x.with_qualifiers(qualifiers)),
            QualifiableView::BasicEventElement(x) =>
                QualifiableView::BasicEventElement(x.with_qualifiers(qualifiers)),
            QualifiableView::Blob(x) => QualifiableView::Blob(x.with_qualifiers(qualifiers)),
            QualifiableView::Capability(x) =>
                QualifiableView::Capability(x.with_qualifiers(qualifiers)),
            QualifiableView::Entity(x) => QualifiableView::Entity(x.with_qualifiers(qualifiers)),
            QualifiableView::File(x) => QualifiableView::File(x.with_qualifiers(qualifiers)),
            QualifiableView::MultiLanguageProperty(x) =>
                QualifiableView::MultiLanguageProperty(x.with_qualifiers(qualifiers)),
            QualifiableView::Operation(x) =>
                QualifiableView::Operation(x.with_qualifiers(qualifiers)),
            QualifiableView::Property(x) =>
                QualifiableView::Property(x.with_qualifiers(qualifiers)),
            QualifiableView::Range(x) => QualifiableView::Range(x.with_qualifiers(qualifiers)),
            QualifiableView::ReferenceElement(x) =>
                QualifiableView::ReferenceElement(x.with_qualifiers(qualifiers)),
            QualifiableView::RelationshipElement(x) =>
                QualifiableView::RelationshipElement(x.with_qualifiers(qualifiers)),
            QualifiableView::Submodel(x) =>
                QualifiableView::Submodel(x.with_qualifiers(qualifiers)),
            QualifiableView::SubmodelElementCollection(x) =>
                QualifiableView::SubmodelElementCollection(x.with_qualifiers(qualifiers)),
            QualifiableView::SubmodelElementList(x) =>
                QualifiableView::SubmodelElementList(x.with_qualifiers(qualifiers)),
        }
    }

    /// The name of the type of the value, which tells the variants apart on
    /// the wire.
    pub open spec fn model_type(self) -> Seq<char> {
        match self {
            QualifiableView::AnnotatedRelationshipElement(_) => "AnnotatedRelationshipElement"@,
            QualifiableView::BasicEventElement(_) => "BasicEventElement"@,
            QualifiableView::Blob(_) => "Blob"@,
            QualifiableView::Capability(_) => "Capability"@,
            QualifiableView::Entity(_) => "Entity"@,
            QualifiableView::File(_) => "File"@,
            QualifiableView::MultiLanguageProperty(_) => "MultiLanguageProperty"@,
            QualifiableView::Operation(_) => "Operation"@,
            QualifiableView::Property(_) => "Property"@,
            QualifiableView::Range(_) => "Range"@,
            QualifiableView::ReferenceElement(_) => "ReferenceElement"@,
            QualifiableView::RelationshipElement(_) => "RelationshipElement"@,
            QualifiableView::Submodel(_) => "Submodel"@,
            QualifiableView::SubmodelElementCollection(_) => "SubmodelElementCollection"@,
            QualifiableView::SubmodelElementList(_) => "SubmodelElementList"@,
        }
    }

    /// Whether `tag` is the name of a type that is accepted in this place.
    pub open spec fn knows(tag: Seq<char>) -> bool {
        tag == "AnnotatedRelationshipElement"@
            || tag == "BasicEventElement"@
            || tag == "Blob"@
            || tag == "Capability"@
            || tag == "Entity"@
            || tag == "File"@
            || tag == "MultiLanguageProperty"@
            || tag == "Operation"@
            || tag == "Property"@
            || tag == "Range"@
            || tag == "ReferenceElement"@
            || tag == "RelationshipElement"@
            || tag == "Submodel"@
            || tag == "SubmodelElementCollection"@
            || tag == "SubmodelElementList"@
    }

    /// The value on the wire: a record that begins with the name of the
    /// type and goes on with the members of the value.
    pub open spec fn to_wire(self) -> WireView {
        WireView::Record(
            match self {
                QualifiableView::AnnotatedRelationshipElement(x) =>
                    x.members_after(tagged(Some("AnnotatedRelationshipElement"@))),
                QualifiableView::BasicEventElement(x) =>
                    x.members_after(tagged(Some("BasicEventElement"@))),
                QualifiableView::Blob(x) => x.members_after(tagged(Some("Blob"@))),
                QualifiableView::Capability(x) => x.members_after(tagged(Some("Capability"@))),
                QualifiableView::Entity(x) => x.members_after(tagged(Some("Entity"@))),
                QualifiableView::File(x) => x.members_after(tagged(Some("File"@))),
                QualifiableView::MultiLanguageProperty(x) =>
                    x.members_after(tagged(Some("MultiLanguageProperty"@))),
                QualifiableView::Operation(x) => x.members_after(tagged(Some("Operation"@))),
                QualifiableView::Property(x) => x.members_after(tagged(Some("Property"@))),
                QualifiableView::Range(x) => x.members_after(tagged(Some("Range"@))),
                QualifiableView::ReferenceElement(x) =>
                    x.members_after(tagged(Some("ReferenceElement"@))),
                QualifiableView::RelationshipElement(x) =>
                    x.members_after(tagged(Some("RelationshipElement"@))),
                QualifiableView::Submodel(x) => x.members_after(tagged(Some("Submodel"@))),
                QualifiableView::SubmodelElementCollection(x) =>
                    x.members_after(tagged(Some("SubmodelElementCollection"@))),
                QualifiableView::SubmodelElementList(x) =>
                    x.members_after(tagged(Some("SubmodelElementList"@))),
            },
        )
    }

    /// The value that a wire value stands for: that of the type that the
    /// member `modelType` names. A name of no accepted type is refused.
    pub open spec fn from_wire(w: WireView) -> Result<QualifiableView, DecodeErrorView> {
        match w {
            WireView::Record(fields) => match lookup(fields, "modelType"@) {
                None => Err(fail_at(DecodeFault::MissingField, "modelType"@)),
                Some(WireView::Text(tag)) => QualifiableView::from_tagged(tag, fields),
                Some(_) => Err(fail_at(DecodeFault::ExpectedText, "modelType"@)),
            },
            _ => Err(fail(DecodeFault::ExpectedRecord)),
        }
    }

    /// The value of the type called `tag` that the members of a record stand
    /// for.
    #[verifier::opaque]
    pub open spec fn from_tagged(tag: Seq<char>, fields: Seq<FieldView>) -> Result<
        QualifiableView,
        DecodeErrorView,
    > {
        if tag == "AnnotatedRelationshipElement"@ {
            match AnnotatedRelationshipElementView::from_members(fields) {
                Ok(x) => Ok(QualifiableView::AnnotatedRelationshipElement(x)),
                Err(e) => Err(e),
            }
        } else if tag == "BasicEventElement"@ {
            match BasicEventElementView::from_members(fields) {
                Ok(x) => Ok(QualifiableView::BasicEventElement(x)),
                Err(e) => Err(e),
            }
        } else if tag == "Blob"@ {
            match BlobView::from_members(fields) {
                Ok(x) => Ok(QualifiableView::Blob(x)),
                Err(e) => Err(e),
            }
        } else if tag == "Capability"@ {
            match CapabilityView::from_members(fields) {
                Ok(x) => Ok(QualifiableView::Capability(x)),
                Err(e) => Err(e),
            }
        } else if tag == "Entity"@ {
            match EntityView::from_members(fields) {
                Ok(x) => Ok(QualifiableView::Entity(x)),
                Err(e) => Err(e),
            }
        } else if tag == "File"@ {
            match FileView::from_members(fields) {
                Ok(x) => Ok(QualifiableView::File(x)),
                Err(e) => Err(e),
            }
        } else if tag == "MultiLanguageProperty"@ {
            match MultiLanguagePropertyView::from_members(fields) {
                Ok(x) => Ok(QualifiableView::MultiLanguageProperty(x)),
                Err(e) => Err(e),
            }
        } else if tag == "Operation"@ {
            match OperationView::from_members(fields) {
                Ok(x) => Ok(QualifiableView::Operation(x)),
                Err(e) => Err(e),
            }
        } else if tag == "Property"@ {
            match PropertyView::from_members(fields) {
                Ok(x) => Ok(QualifiableView::Property(x)),
                Err(e) => Err(e),
            }
        } else if tag == "Range"@ {
            match RangeView::from_members(fields) {
                Ok(x) => Ok(QualifiableView::Range(x)),
                Err(e) => Err(e),
            }
        } else if tag == "ReferenceElement"@ {
            match ReferenceElementView::from_members(fields) {
                Ok(x) => Ok(QualifiableView::ReferenceElement(x)),
                Err(e) => Err(e),
            }
        } else if tag == "RelationshipElement"@ {
            match RelationshipElementView::from_members(fields) {
                Ok(x) => Ok(QualifiableView::RelationshipElement(x)),
                Err(e) => Err(e),
            }
        } else if tag == "Submodel"@ {
            match SubmodelView::from_members(fields) {
                Ok(x) => Ok(QualifiableView::Submodel(x)),
                Err(e) => Err(e),
            }
        } else if tag == "SubmodelElementCollection"@ {
            match SubmodelElementCollectionView::from_members(fields) {
                Ok(x) => Ok(QualifiableView::SubmodelElementCollection(x)),
                Err(e) => Err(e),
            }
        } else if tag == "SubmodelElementList"@ {
            match SubmodelElementListView::from_members(fields) {
                Ok(x) => Ok(QualifiableView::SubmodelElementList(x)),
                Err(e) => Err(e),
            }
        } else {
            Err(fail_at(DecodeFault::UnknownDiscriminant, "modelType"@))
        }
    }

    /// What is encoded carries the exact name of its type as its type name.
    pub proof fn lemma_model_type(self)
        ensures
            self.to_wire() matches WireView::Record(fields) && lookup(fields, "modelType"@) == Some(
                WireView::Text(self.model_type()),
            ),
            QualifiableView::knows(self.model_type()),
    {
        broadcast use lemma_lookup_push;

        match self {
            QualifiableView::AnnotatedRelationshipElement(x) => {
                x.lemma_model_type_kept(Some("AnnotatedRelationshipElement"@));
            },
            QualifiableView::BasicEventElement(x) => {
                x.lemma_model_type_kept(Some("BasicEventElement"@));
            },
            QualifiableView::Blob(x) => {
                x.lemma_model_type_kept(Some("Blob"@));
            },
            QualifiableView::Capability(x) => {
                x.lemma_model_type_kept(Some("Capability"@));
            },
            QualifiableView::Entity(x) => {
                x.lemma_model_type_kept(Some("Entity"@));
            },
            QualifiableView::File(x) => {
                x.lemma_model_type_kept(Some("File"@));
            },
            QualifiableView::MultiLanguageProperty(x) => {
                x.lemma_model_type_kept(Some("MultiLanguageProperty"@));
            },
            QualifiableView::Operation(x) => {
                x.lemma_model_type_kept(Some("Operation"@));
            },
            QualifiableView::Property(x) => {
                x.lemma_model_type_kept(Some("Property"@));
            },
            QualifiableView::Range(x) => {
                x.lemma_model_type_kept(Some("Range"@));
            },
            QualifiableView::ReferenceElement(x) => {
                x.lemma_model_type_kept(Some("ReferenceElement"@));
            },
            QualifiableView::RelationshipElement(x) => {
                x.lemma_model_type_kept(Some("RelationshipElement"@));
            },
            QualifiableView::Submodel(x) => {
                x.lemma_model_type_kept(Some("Submodel"@));
            },
            QualifiableView::SubmodelElementCollection(x) => {
                x.lemma_model_type_kept(Some("SubmodelElementCollection"@));
            },
            QualifiableView::SubmodelElementList(x) => {
                x.lemma_model_type_kept(Some("SubmodelElementList"@));
            },
        }
    }

    /// A record whose type name is that of no accepted type is refused.
    pub proof fn lemma_unknown_model_type(fields: Seq<FieldView>, tag: Seq<char>)
        requires
            lookup(fields, "modelType"@) == Some(WireView::Text(tag)),
            !QualifiableView::knows(tag),
        ensures
            QualifiableView::from_wire(WireView::Record(fields)) ==
                Err::<QualifiableView, DecodeErrorView>(
                fail_at(DecodeFault::UnknownDiscriminant, "modelType"@),
            ),
    {
        reveal(QualifiableView::from_tagged);
    }

    /// A value of the variant `AnnotatedRelationshipElement` is found again from what it is on the
    /// wire.
    proof fn lemma_round_trip_annotated_relationship_element(x: AnnotatedRelationshipElementView)
        requires
            x.well_formed(),
        ensures
            QualifiableView::from_wire(QualifiableView::AnnotatedRelationshipElement(
                x).to_wire()) == Ok::<QualifiableView, DecodeErrorView>(
                QualifiableView::AnnotatedRelationshipElement(x),
            ),
    {
        broadcast use lemma_lookup_push;

        reveal(QualifiableView::from_tagged);
        lemma_name_codes();
        x.lemma_members_round_trip(Some("AnnotatedRelationshipElement"@));
        x.lemma_model_type_kept(Some("AnnotatedRelationshipElement"@));
    }

    /// A value of the variant `BasicEventElement` is found again from what it is on the wire.
    proof fn lemma_round_trip_basic_event_element(x: BasicEventElementView)
        requires
            x.well_formed(),
        ensures
            QualifiableView::from_wire(QualifiableView::BasicEventElement(x).to_wire()) ==
                Ok::<QualifiableView, DecodeErrorView>(
                QualifiableView::BasicEventElement(x),
            ),
    {
        broadcast use lemma_lookup_push;

        reveal(QualifiableView::from_tagged);
        lemma_name_codes();
        x.lemma_members_round_trip(Some("BasicEventElement"@));
        x.lemma_model_type_kept(Some("BasicEventElement"@));
    }

    /// A value of the variant `Blob` is found again from what it is on the wire.
    proof fn lemma_round_trip_blob(x: BlobView)
        requires
            x.well_formed(),
        ensures
            QualifiableView::from_wire(QualifiableView::Blob(x).to_wire()) ==
                Ok::<QualifiableView, DecodeErrorView>(
                QualifiableView::Blob(x),
            ),
    {
        broadcast use lemma_lookup_push;

        reveal(QualifiableView::from_tagged);
        lemma_name_codes();
        x.lemma_members_round_trip(Some("Blob"@));
        x.lemma_model_type_kept(Some("Blob"@));
    }

    /// A value of the variant `Capability` is found again from what it is on the wire.
    proof fn lemma_round_trip_capability(x: CapabilityView)
        requires
            x.well_formed(),
        ensures
            QualifiableView::from_wire(QualifiableView::Capability(x).to_wire()) ==
                Ok::<QualifiableView, DecodeErrorView>(
                QualifiableView::Capability(x),
            ),
    {
        broadcast use lemma_lookup_push;

        reveal(QualifiableView::from_tagged);
        lemma_name_codes();
        x.lemma_members_round_trip(Some("Capability"@));
        x.lemma_model_type_kept(Some("Capability"@));
    }

    /// A value of the variant `Entity` is found again from what it is on the wire.
    proof fn lemma_round_trip_entity(x: EntityView)
        requires
            x.well_formed(),
        ensures
            QualifiableView::from_wire(QualifiableView::Entity(x).to_wire()) ==
                Ok::<QualifiableView, DecodeErrorView>(
                QualifiableView::Entity(x),
            ),
    {
        broadcast use lemma_lookup_push;

        reveal(QualifiableView::from_tagged);
        lemma_name_codes();
        x.lemma_members_round_trip(Some("Entity"@));
        x.lemma_model_type_kept(Some("Entity"@));
    }

    /// A value of the variant `File` is found again from what it is on the wire.
    proof fn lemma_round_trip_file(x: FileView)
        requires
            x.well_formed(),
        ensures
            QualifiableView::from_wire(QualifiableView::File(x).to_wire()) ==
                Ok::<QualifiableView, DecodeErrorView>(
                QualifiableView::File(x),
            ),
    {
        broadcast use lemma_lookup_push;

        reveal(QualifiableView::from_tagged);
        lemma_name_codes();
        x.lemma_members_round_trip(Some("File"@));
        x.lemma_model_type_kept(Some("File"@));
    }

    /// A value of the variant `MultiLanguageProperty` is found again from what it is on the wire.
    proof fn lemma_round_trip_multi_language_property(x: MultiLanguagePropertyView)
        requires
            x.well_formed(),
        ensures
            QualifiableView::from_wire(QualifiableView::MultiLanguageProperty(x).to_wire()) ==
                Ok::<QualifiableView, DecodeErrorView>(
                QualifiableView::MultiLanguageProperty(x),
            ),
    {
        broadcast use lemma_lookup_push;

        reveal(QualifiableView::from_tagged);
        lemma_name_codes();
        x.lemma_members_round_trip(Some("MultiLanguageProperty"@));
        x.lemma_model_type_kept(Some("MultiLanguageProperty"@));
    }

    /// A value of the variant `Operation` is found again from what it is on the wire.
    proof fn lemma_round_trip_operation(x: OperationView)
        requires
            x.well_formed(),
        ensures
            QualifiableView::from_wire(QualifiableView::Operation(x).to_wire()) ==
                Ok::<QualifiableView, DecodeErrorView>(
                QualifiableView::Operation(x),
            ),
    {
        broadcast use lemma_lookup_push;

        reveal(QualifiableView::from_tagged);
        lemma_name_codes();
        x.lemma_members_round_trip(Some("Operation"@));
        x.lemma_model_type_kept(Some("Operation"@));
    }

    /// A value of the variant `Property` is found again from what it is on the wire.
    proof fn lemma_round_trip_property(x: PropertyView)
        requires
            x.well_formed(),
        ensures
            QualifiableView::from_wire(QualifiableView::Property(x).to_wire()) ==
                Ok::<QualifiableView, DecodeErrorView>(
                QualifiableView::Property(x),
            ),
    {
        broadcast use lemma_lookup_push;

        reveal(QualifiableView::from_tagged);
        lemma_name_codes();
        x.lemma_members_round_trip(Some("Property"@));
        x.lemma_model_type_kept(Some("Property"@));
    }

    /// A value of the variant `Range` is found again from what it is on the wire.
    proof fn lemma_round_trip_range(x: RangeView)
        requires
            x.well_formed(),
        ensures
            QualifiableView::from_wire(QualifiableView::Range(x).to_wire()) ==
                Ok::<QualifiableView, DecodeErrorView>(
                QualifiableView::Range(x),
            ),
    {
        broadcast use lemma_lookup_push;

        reveal(QualifiableView::from_tagged);
        lemma_name_codes();
        x.lemma_members_round_trip(Some("Range"@));
        x.lemma_model_type_kept(Some("Range"@));
    }

    /// A value of the variant `ReferenceElement` is found again from what it is on the wire.
    proof fn lemma_round_trip_reference_element(x: ReferenceElementView)
        requires
            x.well_formed(),
        ensures
            QualifiableView::from_wire(QualifiableView::ReferenceElement(x).to_wire()) ==
                Ok::<QualifiableView, DecodeErrorView>(
                QualifiableView::ReferenceElement(x),
            ),
    {
        broadcast use lemma_lookup_push;

        reveal(QualifiableView::from_tagged);
        lemma_name_codes();
        x.lemma_members_round_trip(Some("ReferenceElement"@));
        x.lemma_model_type_kept(Some("ReferenceElement"@));
    }

    /// A value of the variant `RelationshipElement` is found again from what it is on the wire.
    proof fn lemma_round_trip_relationship_element(x: RelationshipElementView)
        requires
            x.well_formed(),
        ensures
            QualifiableView::from_wire(QualifiableView::RelationshipElement(x).to_wire()) ==
                Ok::<QualifiableView, DecodeErrorView>(
                QualifiableView::RelationshipElement(x),
            ),
    {
        broadcast use lemma_lookup_push;

        reveal(QualifiableView::from_tagged);
        lemma_name_codes();
        x.lemma_members_round_trip(Some("RelationshipElement"@));
        x.lemma_model_type_kept(Some("RelationshipElement"@));
    }

    /// A value of the variant `Submodel` is found again from what it is on the wire.
    proof fn lemma_round_trip_submodel(x: SubmodelView)
        requires
            x.well_formed(),
        ensures
            QualifiableView::from_wire(QualifiableView::Submodel(x).to_wire()) ==
                Ok::<QualifiableView, DecodeErrorView>(
                QualifiableView::Submodel(x),
            ),
    {
        broadcast use lemma_lookup_push;

        reveal(QualifiableView::from_tagged);
        lemma_name_codes();
        x.lemma_members_round_trip(Some("Submodel"@));
        x.lemma_model_type_kept(Some("Submodel"@));
    }

    /// A value of the variant `SubmodelElementCollection` is found again from what it is on the
    /// wire.
    proof fn lemma_round_trip_submodel_element_collection(x: SubmodelElementCollectionView)
        requires
            x.well_formed(),
        ensures
            QualifiableView::from_wire(QualifiableView::SubmodelElementCollection(x).to_wire()) ==
                Ok::<QualifiableView, DecodeErrorView>(
                QualifiableView::SubmodelElementCollection(x),
            ),
    {
        broadcast use lemma_lookup_push;

        reveal(QualifiableView::from_tagged);
        lemma_name_codes();
        x.lemma_members_round_trip(Some("SubmodelElementCollection"@));
        x.lemma_model_type_kept(Some("SubmodelElementCollection"@));
    }

    /// A value of the variant `SubmodelElementList` is found again from what it is on the wire.
    proof fn lemma_round_trip_submodel_element_list(x: SubmodelElementListView)
        requires
            x.well_formed(),
        ensures
            QualifiableView::from_wire(QualifiableView::SubmodelElementList(x).to_wire()) ==
                Ok::<QualifiableView, DecodeErrorView>(
                QualifiableView::SubmodelElementList(x),
            ),
    {
        broadcast use lemma_lookup_push;

        reveal(QualifiableView::from_tagged);
        lemma_name_codes();
        x.lemma_members_round_trip(Some("SubmodelElementList"@));
        x.lemma_model_type_kept(Some("SubmodelElementList"@));
    }

    /// Every value is found again from what it is on the wire.
    pub proof fn lemma_round_trip(self)
        requires
            self.well_formed(),
        ensures
            QualifiableView::from_wire(self.to_wire()) ==
                Ok::<QualifiableView, DecodeErrorView>(self),
    {
        match self {
            QualifiableView::AnnotatedRelationshipElement(x) => {
                QualifiableView::lemma_round_trip_annotated_relationship_element(x);
            },
            QualifiableView::BasicEventElement(x) => {
                QualifiableView::lemma_round_trip_basic_event_element(x);
            },
            QualifiableView::Blob(x) => {
                QualifiableView::lemma_round_trip_blob(x);
            },
            QualifiableView::Capability(x) => {
                QualifiableView::lemma_round_trip_capability(x);
            },
            QualifiableView::Entity(x) => {
                QualifiableView::lemma_round_trip_entity(x);
            },
            QualifiableView::File(x) => {
                QualifiableView::lemma_round_trip_file(x);
            },
            QualifiableView::MultiLanguageProperty(x) => {
                QualifiableView::lemma_round_trip_multi_language_property(x);
            },
            QualifiableView::Operation(x) => {
                QualifiableView::lemma_round_trip_operation(x);
            },
            QualifiableView::Property(x) => {
                QualifiableView::lemma_round_trip_property(x);
            },
            QualifiableView::Range(x) => {
                QualifiableView::lemma_round_trip_range(x);
            },
            QualifiableView::ReferenceElement(x) => {
                QualifiableView::lemma_round_trip_reference_element(x);
            },
            QualifiableView::RelationshipElement(x) => {
                QualifiableView::lemma_round_trip_relationship_element(x);
            },
            QualifiableView::Submodel(x) => {
                QualifiableView::lemma_round_trip_submodel(x);
            },
            QualifiableView::SubmodelElementCollection(x) => {
                QualifiableView::lemma_round_trip_submodel_element_collection(x);
            },
            QualifiableView::SubmodelElementList(x) => {
                QualifiableView::lemma_round_trip_submodel_element_list(x);
            },
        }
    }
}

impl Qualifiable {
    /// The name of the type of the value.
    pub fn model_type(&self) -> (s: &'static str)
        ensures
            s@ == self@.model_type(),
    {
        match self {
            Qualifiable::AnnotatedRelationshipElement(_) => "AnnotatedRelationshipElement",
            Qualifiable::BasicEventElement(_) => "BasicEventElement",
            Qualifiable::Blob(_) => "Blob",
            Qualifiable::Capability(_) => "Capability",
            Qualifiable::Entity(_) => "Entity",
            Qualifiable::File(_) => "File",
            Qualifiable::MultiLanguageProperty(_) => "MultiLanguageProperty",
            Qualifiable::Operation(_) => "Operation",
            Qualifiable::Property(_) => "Property",
            Qualifiable::Range(_) => "Range",
            Qualifiable::ReferenceElement(_) => "ReferenceElement",
            Qualifiable::RelationshipElement(_) => "RelationshipElement",
            Qualifiable::Submodel(_) => "Submodel",
            Qualifiable::SubmodelElementCollection(_) => "SubmodelElementCollection",
            Qualifiable::SubmodelElementList(_) => "SubmodelElementList",
        }
    }

    /// The value as it travels: a record that begins with the name of the
    /// type. What comes out decodes to the same value again.
    pub fn encode(&self) -> (w: Wire)
        ensures
            w@ == self@.to_wire(),
            self@.well_formed(),
            QualifiableView::from_wire(w@) == Ok::<QualifiableView, DecodeErrorView>(self@),
    {
        let mut fields: Vec<Field> = Vec::new();
        assert(fields.deep_view() =~= Seq::<FieldView>::empty());
        add_member(&mut fields, "modelType", Wire::text(self.model_type()));
        match self {
            Qualifiable::AnnotatedRelationshipElement(x) => x.encode_members(&mut fields),
            Qualifiable::BasicEventElement(x) => x.encode_members(&mut fields),
            Qualifiable::Blob(x) => x.encode_members(&mut fields),
            Qualifiable::Capability(x) => x.encode_members(&mut fields),
            Qualifiable::Entity(x) => x.encode_members(&mut fields),
            Qualifiable::File(x) => x.encode_members(&mut fields),
            Qualifiable::MultiLanguageProperty(x) => x.encode_members(&mut fields),
            Qualifiable::Operation(x) => x.encode_members(&mut fields),
            Qualifiable::Property(x) => x.encode_members(&mut fields),
            Qualifiable::Range(x) => x.encode_members(&mut fields),
            Qualifiable::ReferenceElement(x) => x.encode_members(&mut fields),
            Qualifiable::RelationshipElement(x) => x.encode_members(&mut fields),
            Qualifiable::Submodel(x) => x.encode_members(&mut fields),
            Qualifiable::SubmodelElementCollection(x) => x.encode_members(&mut fields),
            Qualifiable::SubmodelElementList(x) => x.encode_members(&mut fields),
        }
        proof {
            self@.lemma_round_trip();
        }
        Wire::record(fields)
    }

    /// The value that `w` stands for.
    pub fn decode(w: &Wire) -> (r: Result<Qualifiable, DecodeError>)
        ensures
            outcome(r) == QualifiableView::from_wire(w@),
    {
        let fields = match w.members() {
            Some(fields) => fields,
            None => {
                return Err(DecodeError::new(DecodeFault::ExpectedRecord));
            },
        };
        let tag = match find(fields, "modelType") {
            None => {
                return Err(DecodeError::at(DecodeFault::MissingField, "modelType"));
            },
            Some(Wire::Text(tag)) => tag,
            Some(_) => {
                return Err(DecodeError::at(DecodeFault::ExpectedText, "modelType"));
            },
        };
        proof {
            reveal(QualifiableView::from_tagged);
        }
        if same_text(tag.as_str(), "AnnotatedRelationshipElement") {
            match AnnotatedRelationshipElement::decode_members(fields) {
                Ok(x) => Ok(Qualifiable::AnnotatedRelationshipElement(x)),
                Err(e) => Err(e),
            }
        } else if same_text(tag.as_str(), "BasicEventElement") {
            match BasicEventElement::decode_members(fields) {
                Ok(x) => Ok(Qualifiable::BasicEventElement(x)),
                Err(e) => Err(e),
            }
        } else if same_text(tag.as_str(), "Blob") {
            match Blob::decode_members(fields) {
                Ok(x) => Ok(Qualifiable::Blob(x)),
                Err(e) => Err(e),
            }
        } else if same_text(tag.as_str(), "Capability") {
            match Capability::decode_members(fields) {
                Ok(x) => Ok(Qualifiable::Capability(x)),
                Err(e) => Err(e),
            }
        } else if same_text(tag.as_str(), "Entity") {
            match Entity::decode_members(fields) {
                Ok(x) => Ok(Qualifiable::Entity(x)),
                Err(e) => Err(e),
            }
        } else if same_text(tag.as_str(), "File") {
            match File::decode_members(fields) {
                Ok(x) => Ok(Qualifiable::File(x)),
                Err(e) => Err(e),
            }
        } else if same_text(tag.as_str(), "MultiLanguageProperty") {
            match MultiLanguageProperty::decode_members(fields) {
                Ok(x) => Ok(Qualifiable::MultiLanguageProperty(x)),
                Err(e) => Err(e),
            }
        } else if same_text(tag.as_str(), "Operation") {
            match Operation::decode_members(fields) {
                Ok(x) => Ok(Qualifiable::Operation(x)),
                Err(e) => Err(e),
            }
        } else if same_text(tag.as_str(), "Property") {
            match Property::decode_members(fields) {
                Ok(x) => Ok(Qualifiable::Property(x)),
                Err(e) => Err(e),
            }
        } else if same_text(tag.as_str(), "Range") {
            match Range::decode_members(fields) {
                Ok(x) => Ok(Qualifiable::Range(x)),
                Err(e) => Err(e),
            }
        } else if same_text(tag.as_str(), "ReferenceElement") {
            match ReferenceElement::decode_members(fields) {
                Ok(x) => Ok(Qualifiable::ReferenceElement(x)),
                Err(e) => Err(e),
            }
        } else if same_text(tag.as_str(), "RelationshipElement") {
            match RelationshipElement::decode_members(fields) {
                Ok(x) => Ok(Qualifiable::RelationshipElement(x)),
                Err(e) => Err(e),
            }
        } else if same_text(tag.as_str(), "Submodel") {
            match Submodel::decode_members(fields) {
                Ok(x) => Ok(Qualifiable::Submodel(x)),
                Err(e) => Err(e),
            }
        } else if same_text(tag.as_str(), "SubmodelElementCollection") {
            match SubmodelElementCollection::decode_members(fields) {
                Ok(x) => Ok(Qualifiable::SubmodelElementCollection(x)),
                Err(e) => Err(e),
            }
        } else if same_text(tag.as_str(), "SubmodelElementList") {
            match SubmodelElementList::decode_members(fields) {
                Ok(x) => Ok(Qualifiable::SubmodelElementList(x)),
                Err(e) => Err(e),
            }
        } else {
            Err(DecodeError::at(DecodeFault::UnknownDiscriminant, "modelType"))
        }
    }
}

} // verus!
