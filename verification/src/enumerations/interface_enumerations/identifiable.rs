use vstd::prelude::*;
use crate::error::ModelError;
use crate::names::lemma_name_codes;
use crate::structs::administrative_information::AdministrativeInformation;
use crate::structs::asset_administration_shell::{
    AssetAdministrationShell,
    AssetAdministrationShellView,
};
use crate::structs::concept_description::{ConceptDescription, ConceptDescriptionView};
use crate::structs::multi_language_name_type::MultiLanguageNameType;
use crate::structs::multi_language_text_type::MultiLanguageTextType;
use crate::structs::submodel::{Submodel, SubmodelView};
use crate::traits::identifiable::{IdentityAspect, TIdentifiable};
use crate::traits::referable::{ReferableAspect, TReferable};
use crate::wire::{
    add_member,
    fail,
    fail_at,
    find,
    lemma_lookup_push,
    lookup,
    member,
    outcome,
    same_text,
    tagged,
    DecodeError,
    DecodeErrorView,
    DecodeFault,
    Field,
    FieldView,
    Wire,
    WireView,
};

verus! {

/// Any of the elements that have a globally unique identifier.
#[derive(Debug, PartialEq)]
pub enum Identifiable {
    AssetAdministrationShell(AssetAdministrationShell),
    Submodel(Submodel),
    ConceptDescription(ConceptDescription),
}

/// The mathematical form of an [`Identifiable`].
#[verifier::ext_equal]
pub enum IdentifiableView {
    AssetAdministrationShell(AssetAdministrationShellView),
    Submodel(SubmodelView),
    ConceptDescription(ConceptDescriptionView),
}

impl View for Identifiable {
    type V = IdentifiableView;

    open spec fn view(&self) -> IdentifiableView {
        match self {
            Identifiable::AssetAdministrationShell(x) =>
                IdentifiableView::AssetAdministrationShell(x@),
            Identifiable::Submodel(x) => IdentifiableView::Submodel(x@),
            Identifiable::ConceptDescription(x) => IdentifiableView::ConceptDescription(x@),
        }
    }
}

impl DeepView for Identifiable {
    type V = IdentifiableView;

    open spec fn deep_view(&self) -> IdentifiableView {
        self@
    }
}

impl Clone for Identifiable {
    fn clone(&self) -> (r: Identifiable)
        ensures
            r@ == self@,
    {
        match self {
            Identifiable::AssetAdministrationShell(x) =>
                Identifiable::AssetAdministrationShell(x.clone()),
            Identifiable::Submodel(x) => Identifiable::Submodel(x.clone()),
            Identifiable::ConceptDescription(x) => Identifiable::ConceptDescription(x.clone()),
        }
    }
}

impl TReferable for Identifiable {
    open spec fn referable(&self) -> ReferableAspect {
        match self {
            Identifiable::AssetAdministrationShell(x) => x.referable(),
            Identifiable::Submodel(x) => x.referable(),
            Identifiable::ConceptDescription(x) => x.referable(),
        }
    }

    fn set_category(&mut self, category: String)
        ensures
            final(self)@ ==
                old(self)@.with_referable(ReferableAspect { category: Some(category@),
                ..old(self).referable() }),
    {
        match self {
            Identifiable::AssetAdministrationShell(x) => x.set_category(category),
            Identifiable::Submodel(x) => x.set_category(category),
            Identifiable::ConceptDescription(x) => x.set_category(category),
        }
    }

    fn get_category(&self) -> (r: Option<&String>) {
        match self {
            Identifiable::AssetAdministrationShell(x) => x.get_category(),
            Identifiable::Submodel(x) => x.get_category(),
            Identifiable::ConceptDescription(x) => x.get_category(),
        }
    }

    fn get_mut_category(&mut self) -> (r: Option<&mut String>)
        ensures
            match r {
                Some(m) =>
                    final(self)@ ==
                    old(self)@.with_referable(ReferableAspect { category: Some(final(m)@),
                    ..old(self).referable() }),
                None => final(self)@ == old(self)@,
            },
    {
        match self {
            Identifiable::AssetAdministrationShell(x) => x.get_mut_category(),
            Identifiable::Submodel(x) => x.get_mut_category(),
            Identifiable::ConceptDescription(x) => x.get_mut_category(),
        }
    }

    fn set_id_short(&mut self, id_short: String)
        ensures
            final(self)@ ==
                old(self)@.with_referable(ReferableAspect { id_short: Some(id_short@),
                ..old(self).referable() }),
    {
        match self {
            Identifiable::AssetAdministrationShell(x) => x.set_id_short(id_short),
            Identifiable::Submodel(x) => x.set_id_short(id_short),
            Identifiable::ConceptDescription(x) => x.set_id_short(id_short),
        }
    }

    fn get_id_short(&self) -> (r: Option<&String>) {
        match self {
            Identifiable::AssetAdministrationShell(x) => x.get_id_short(),
            Identifiable::Submodel(x) => x.get_id_short(),
            Identifiable::ConceptDescription(x) => x.get_id_short(),
        }
    }

    fn get_mut_id_short(&mut self) -> (r: Option<&mut String>)
        ensures
            match r {
                Some(m) =>
                    final(self)@ ==
                    old(self)@.with_referable(ReferableAspect { id_short: Some(final(m)@),
                    ..old(self).referable() }),
                None => final(self)@ == old(self)@,
            },
    {
        match self {
            Identifiable::AssetAdministrationShell(x) => x.get_mut_id_short(),
            Identifiable::Submodel(x) => x.get_mut_id_short(),
            Identifiable::ConceptDescription(x) => x.get_mut_id_short(),
        }
    }

    fn set_display_name(&mut self, display_name: Vec<MultiLanguageNameType>)
        ensures
            final(self)@ ==
                old(self)@.with_referable(ReferableAspect { display_name: display_name.deep_view(),
                ..old(self).referable() }),
    {
        match self {
            Identifiable::AssetAdministrationShell(x) => x.set_display_name(display_name),
            Identifiable::Submodel(x) => x.set_display_name(display_name),
            Identifiable::ConceptDescription(x) => x.set_display_name(display_name),
        }
    }

    fn get_display_name(&self) -> (r: &Vec<MultiLanguageNameType>) {
        match self {
            Identifiable::AssetAdministrationShell(x) => x.get_display_name(),
            Identifiable::Submodel(x) => x.get_display_name(),
            Identifiable::ConceptDescription(x) => x.get_display_name(),
        }
    }

    fn get_mut_display_name(&mut self) -> (r: &mut Vec<MultiLanguageNameType>)
        ensures
            final(self)@ ==
                old(self)@.with_referable(ReferableAspect { display_name: final(r).deep_view(),
                ..old(self).referable() }),
    {
        match self {
            Identifiable::AssetAdministrationShell(x) => x.get_mut_display_name(),
            Identifiable::Submodel(x) => x.get_mut_display_name(),
            Identifiable::ConceptDescription(x) => x.get_mut_display_name(),
        }
    }

    fn add_display_name(&mut self, display_name: MultiLanguageNameType)
        ensures
            final(self)@ ==
                old(self)@.with_referable(ReferableAspect {
                display_name: old(self).referable().display_name.push(display_name@),
                ..old(self).referable() }),
    {
        match self {
            Identifiable::AssetAdministrationShell(x) => x.add_display_name(display_name),
            Identifiable::Submodel(x) => x.add_display_name(display_name),
            Identifiable::ConceptDescription(x) => x.add_display_name(display_name),
        }
    }

    fn remove_display_name(&mut self, index: usize) -> (r: Result<MultiLanguageNameType,
        ModelError>)
        ensures
            match r {
                Ok(item) =>
                    final(self)@ ==
                    old(self)@.with_referable(ReferableAspect {
                    display_name: old(self).referable().display_name.remove(index as int),
                    ..old(self).referable() }),
                Err(e) => final(self)@ == old(self)@,
            },
    {
        match self {
            Identifiable::AssetAdministrationShell(x) => x.remove_display_name(index),
            Identifiable::Submodel(x) => x.remove_display_name(index),
            Identifiable::ConceptDescription(x) => x.remove_display_name(index),
        }
    }

    fn set_description(&mut self, description: Vec<MultiLanguageTextType>)
        ensures
            final(self)@ ==
                old(self)@.with_referable(ReferableAspect { description: description.deep_view(),
                ..old(self).referable() }),
    {
        match self {
            Identifiable::AssetAdministrationShell(x) => x.set_description(description),
            Identifiable::Submodel(x) => x.set_description(description),
            Identifiable::ConceptDescription(x) => x.set_description(description),
        }
    }

    fn get_description(&self) -> (r: &Vec<MultiLanguageTextType>) {
        match self {
            Identifiable::AssetAdministrationShell(x) => x.get_description(),
            Identifiable::Submodel(x) => x.get_description(),
            Identifiable::ConceptDescription(x) => x.get_description(),
        }
    }

    fn get_mut_description(&mut self) -> (r: &mut Vec<MultiLanguageTextType>)
        ensures
            final(self)@ ==
                old(self)@.with_referable(ReferableAspect { description: final(r).deep_view(),
                ..old(self).referable() }),
    {
        match self {
            Identifiable::AssetAdministrationShell(x) => x.get_mut_description(),
            Identifiable::Submodel(x) => x.get_mut_description(),
            Identifiable::ConceptDescription(x) => x.get_mut_description(),
        }
    }

    fn add_description(&mut self, description: MultiLanguageTextType)
        ensures
            final(self)@ ==
                old(self)@.with_referable(ReferableAspect {
                description: old(self).referable().description.push(description@),
                ..old(self).referable() }),
    {
        match self {
            Identifiable::AssetAdministrationShell(x) => x.add_description(description),
            Identifiable::Submodel(x) => x.add_description(description),
            Identifiable::ConceptDescription(x) => x.add_description(description),
        }
    }

    fn remove_description(&mut self, index: usize) -> (r: Result<MultiLanguageTextType, ModelError>)
        ensures
            match r {
                Ok(item) =>
                    final(self)@ ==
                    old(self)@.with_referable(ReferableAspect {
                    description: old(self).referable().description.remove(index as int),
                    ..old(self).referable() }),
                Err(e) => final(self)@ == old(self)@,
            },
    {
        match self {
            Identifiable::AssetAdministrationShell(x) => x.remove_description(index),
            Identifiable::Submodel(x) => x.remove_description(index),
            Identifiable::ConceptDescription(x) => x.remove_description(index),
        }
    }
}

impl TIdentifiable for Identifiable {
    open spec fn identity(&self) -> IdentityAspect {
        match self {
            Identifiable::AssetAdministrationShell(x) => x.identity(),
            Identifiable::Submodel(x) => x.identity(),
            Identifiable::ConceptDescription(x) => x.identity(),
        }
    }

    fn set_administration(&mut self, administrative_information: AdministrativeInformation)
        ensures
            final(self)@ ==
                old(self)@.with_identity(IdentityAspect {
                administrative_information: Some(administrative_information@),
                ..old(self).identity() }),
    {
        match self {
            Identifiable::AssetAdministrationShell(x) =>
                x.set_administration(administrative_information),
            Identifiable::Submodel(x) => x.set_administration(administrative_information),
            Identifiable::ConceptDescription(x) => x.set_administration(administrative_information),
        }
    }

    fn get_administration(&self) -> (r: Option<&AdministrativeInformation>) {
        match self {
            Identifiable::AssetAdministrationShell(x) => x.get_administration(),
            Identifiable::Submodel(x) => x.get_administration(),
            Identifiable::ConceptDescription(x) => x.get_administration(),
        }
    }

    fn get_mut_administration(&mut self) -> (r: Option<&mut AdministrativeInformation>)
        ensures
            match r {
                Some(m) =>
                    final(self)@ ==
                    old(self)@.with_identity(IdentityAspect {
                    administrative_information: Some(final(m)@), ..old(self).identity() }),
                None => final(self)@ == old(self)@,
            },
    {
        match self {
            Identifiable::AssetAdministrationShell(x) => x.get_mut_administration(),
            Identifiable::Submodel(x) => x.get_mut_administration(),
            Identifiable::ConceptDescription(x) => x.get_mut_administration(),
        }
    }

    fn set_id(&mut self, id: String)
        ensures
            final(self)@ ==
                old(self)@.with_identity(IdentityAspect { id: id@, ..old(self).identity() }),
    {
        match self {
            Identifiable::AssetAdministrationShell(x) => x.set_id(id),
            Identifiable::Submodel(x) => x.set_id(id),
            Identifiable::ConceptDescription(x) => x.set_id(id),
        }
    }

    fn get_id(&self) -> (r: &String) {
        match self {
            Identifiable::AssetAdministrationShell(x) => x.get_id(),
            Identifiable::Submodel(x) => x.get_id(),
            Identifiable::ConceptDescription(x) => x.get_id(),
        }
    }

    fn get_mut_id(&mut self) -> (r: &mut String)
        ensures
            final(self)@ ==
                old(self)@.with_identity(IdentityAspect { id: final(r)@, ..old(self).identity() }),
    {
        match self {
            Identifiable::AssetAdministrationShell(x) => x.get_mut_id(),
            Identifiable::Submodel(x) => x.get_mut_id(),
            Identifiable::ConceptDescription(x) => x.get_mut_id(),
        }
    }
}

impl IdentifiableView {
    /// Whether every reference in the value is well formed.
    pub open spec fn well_formed(self) -> bool {
        match self {
            IdentifiableView::AssetAdministrationShell(x) => x.well_formed(),
            IdentifiableView::Submodel(x) => x.well_formed(),
            IdentifiableView::ConceptDescription(x) => x.well_formed(),
        }
    }

    /// The same value with what it carries of the aspect replaced.
    pub open spec fn with_referable(self, aspect: ReferableAspect) -> IdentifiableView {
        match self {
            IdentifiableView::AssetAdministrationShell(x) =>
                IdentifiableView::AssetAdministrationShell(x.with_referable(aspect)),
            IdentifiableView::Submodel(x) => IdentifiableView::Submodel(x.with_referable(aspect)),
            IdentifiableView::ConceptDescription(x) =>
                IdentifiableView::ConceptDescription(x.with_referable(aspect)),
        }
    }

    /// The same value with what it carries of the aspect replaced.
    pub open spec fn with_identity(self, aspect: IdentityAspect) -> IdentifiableView {
        match self {
            IdentifiableView::AssetAdministrationShell(x) =>
                IdentifiableView::AssetAdministrationShell(x.with_identity(aspect)),
            IdentifiableView::Submodel(x) => IdentifiableView::Submodel(x.with_identity(aspect)),
            IdentifiableView::ConceptDescription(x) =>
                IdentifiableView::ConceptDescription(x.with_identity(aspect)),
        }
    }

    /// The name of the type of the value, which tells the variants apart on
    /// the wire.
    pub open spec fn model_type(self) -> Seq<char> {
        match self {
            IdentifiableView::AssetAdministrationShell(_) => "AssetAdministrationShell"@,
            IdentifiableView::Submodel(_) => "Submodel"@,
            IdentifiableView::ConceptDescription(_) => "ConceptDescription"@,
        }
    }

    /// Whether `tag` is the name of a type that is accepted in this place.
    pub open spec fn knows(tag: Seq<char>) -> bool {
        tag == "AssetAdministrationShell"@
            || tag == "Submodel"@
            || tag == "ConceptDescription"@
    }

    /// The value on the wire: a record that begins with the name of the
    /// type and goes on with the members of the value.
    pub open spec fn to_wire(self) -> WireView {
        WireView::Record(
            match self {
                IdentifiableView::AssetAdministrationShell(x) =>
                    x.members_after(tagged(Some("AssetAdministrationShell"@))),
                IdentifiableView::Submodel(x) => x.members_after(tagged(Some("Submodel"@))),
                IdentifiableView::ConceptDescription(x) =>
                    x.members_after(tagged(Some("ConceptDescription"@))),
            },
        )
    }

    /// The value that a wire value stands for: that of the type that the
    /// member `modelType` names. A name of no accepted type is refused.
    pub open spec fn from_wire(w: WireView) -> Result<IdentifiableView, DecodeErrorView> {
        match w {
            WireView::Record(fields) => match lookup(fields, "modelType"@) {
                None => Err(fail_at(DecodeFault::MissingField, "modelType"@)),
                Some(WireView::Text(tag)) => IdentifiableView::from_tagged(tag, fields),
                Some(_) => Err(fail_at(DecodeFault::ExpectedText, "modelType"@)),
            },
            _ => Err(fail(DecodeFault::ExpectedRecord)),
        }
    }

    /// The value of the type called `tag` that the members of a record stand
    /// for.
    #[verifier::opaque]
    pub open spec fn from_tagged(tag: Seq<char>, fields: Seq<FieldView>) -> Result<
        IdentifiableView,
        DecodeErrorView,
    > {
        if tag == "AssetAdministrationShell"@ {
            match AssetAdministrationShellView::from_members(fields) {
                Ok(x) => Ok(IdentifiableView::AssetAdministrationShell(x)),
                Err(e) => Err(e),
            }
        } else if tag == "Submodel"@ {
            match SubmodelView::from_members(fields) {
                Ok(x) => Ok(IdentifiableView::Submodel(x)),
                Err(e) => Err(e),
            }
        } else if tag == "ConceptDescription"@ {
            match ConceptDescriptionView::from_members(fields) {
                Ok(x) => Ok(IdentifiableView::ConceptDescription(x)),
                Err(e) => Err(e),
            }
        } else {
            Err(fail_at(DecodeFault::UnknownDiscriminant, "modelType"@))
        }
    }

    /// What is encoded carries the exact name of its type as its type name.
    pub proof fn lemma_model_type(self)
        ensures
            self.to_wire() matches WireView::Record(fields) && lookup(fields, "modelType"@) == Some(
                WireView::Text(self.model_type()),
            ),
            IdentifiableView::knows(self.model_type()),
    {
        broadcast use lemma_lookup_push;

        match self {
            IdentifiableView::AssetAdministrationShell(x) => {
                x.lemma_model_type_kept(Some("AssetAdministrationShell"@));
            },
            IdentifiableView::Submodel(x) => {
                x.lemma_model_type_kept(Some("Submodel"@));
            },
            IdentifiableView::ConceptDescription(x) => {
                x.lemma_model_type_kept(Some("ConceptDescription"@));
            },
        }
    }

    /// A record whose type name is that of no accepted type is refused.
    pub proof fn lemma_unknown_model_type(fields: Seq<FieldView>, tag: Seq<char>)
        requires
            lookup(fields, "modelType"@) == Some(WireView::Text(tag)),
            !IdentifiableView::knows(tag),
        ensures
            IdentifiableView::from_wire(WireView::Record(fields)) ==
                Err::<IdentifiableView, DecodeErrorView>(
                fail_at(DecodeFault::UnknownDiscriminant, "modelType"@),
            ),
    {
        reveal(IdentifiableView::from_tagged);
    }

    /// A value of the variant `AssetAdministrationShell` is found again from what it is on the
    /// wire.
    proof fn lemma_round_trip_asset_administration_shell(x: AssetAdministrationShellView)
        requires
            x.well_formed(),
        ensures
            IdentifiableView::from_wire(IdentifiableView::AssetAdministrationShell(x).to_wire()) ==
                Ok::<IdentifiableView, DecodeErrorView>(
                IdentifiableView::AssetAdministrationShell(x),
            ),
    {
        broadcast use lemma_lookup_push;

        reveal(IdentifiableView::from_tagged);
        lemma_name_codes();
        x.lemma_members_round_trip(Some("AssetAdministrationShell"@));
        x.lemma_model_type_kept(Some("AssetAdministrationShell"@));
    }

    /// A value of the variant `Submodel` is found again from what it is on the wire.
    proof fn lemma_round_trip_submodel(x: SubmodelView)
        requires
            x.well_formed(),
        ensures
            IdentifiableView::from_wire(IdentifiableView::Submodel(x).to_wire()) ==
                Ok::<IdentifiableView, DecodeErrorView>(
                IdentifiableView::Submodel(x),
            ),
    {
        broadcast use lemma_lookup_push;

        reveal(IdentifiableView::from_tagged);
        lemma_name_codes();
        x.lemma_members_round_trip(Some("Submodel"@));
        x.lemma_model_type_kept(Some("Submodel"@));
    }

    /// A value of the variant `ConceptDescription` is found again from what it is on the wire.
    proof fn lemma_round_trip_concept_description(x: ConceptDescriptionView)
        requires
            x.well_formed(),
        ensures
            IdentifiableView::from_wire(IdentifiableView::ConceptDescription(x).to_wire()) ==
                Ok::<IdentifiableView, DecodeErrorView>(
                IdentifiableView::ConceptDescription(x),
            ),
    {
        broadcast use lemma_lookup_push;

        reveal(IdentifiableView::from_tagged);
        lemma_name_codes();
        x.lemma_members_round_trip(Some("ConceptDescription"@));
        x.lemma_model_type_kept(Some("ConceptDescription"@));
    }

    /// Every value is found again from what it is on the wire.
    pub proof fn lemma_round_trip(self)
        requires
            self.well_formed(),
        ensures
            IdentifiableView::from_wire(self.to_wire()) ==
                Ok::<IdentifiableView, DecodeErrorView>(self),
    {
        match self {
            IdentifiableView::AssetAdministrationShell(x) => {
                IdentifiableView::lemma_round_trip_asset_administration_shell(x);
            },
            IdentifiableView::Submodel(x) => {
                IdentifiableView::lemma_round_trip_submodel(x);
            },
            IdentifiableView::ConceptDescription(x) => {
                IdentifiableView::lemma_round_trip_concept_description(x);
            },
        }
    }
}

impl Identifiable {
    /// The name of the type of the value.
    pub fn model_type(&self) -> (s: &'static str)
        ensures
            s@ == self@.model_type(),
    {
        match self {
            Identifiable::AssetAdministrationShell(_) => "AssetAdministrationShell",
            Identifiable::Submodel(_) => "Submodel",
            Identifiable::ConceptDescription(_) => "ConceptDescription",
        }
    }

    /// The value as it travels: a record that begins with the name of the
    /// type. What comes out decodes to the same value again.
    pub fn encode(&self) -> (w: Wire)
        ensures
            w@ == self@.to_wire(),
            self@.well_formed(),
            IdentifiableView::from_wire(w@) == Ok::<IdentifiableView, DecodeErrorView>(self@),
    {
        let mut fields: Vec<Field> = Vec::new();
        assert(fields.deep_view() =~= Seq::<FieldView>::empty());
        add_member(&mut fields, "modelType", Wire::text(self.model_type()));
        match self {
            Identifiable::AssetAdministrationShell(x) => x.encode_members(&mut fields),
            Identifiable::Submodel(x) => x.encode_members(&mut fields),
            Identifiable::ConceptDescription(x) => x.encode_members(&mut fields),
        }
        proof {
            self@.lemma_round_trip();
        }
        Wire::record(fields)
    }

    /// The value that `w` stands for.
    pub fn decode(w: &Wire) -> (r: Result<Identifiable, DecodeError>)
        ensures
            outcome(r) == IdentifiableView::from_wire(w@),
    {
        let fields = match w.members() {
            Some(fields) => fields,
            None => {
                return Err(DecodeError::new(DecodeFault::ExpectedRecord));
            },
        };
        let tag = match find(fields, "modelType") {
            None => {
                return Err(DecodeError::at(DecodeFault::MissingField, "modelType"));
            },
            Some(Wire::Text(tag)) => tag,
            Some(_) => {
                return Err(DecodeError::at(DecodeFault::ExpectedText, "modelType"));
            },
        };
        proof {
            reveal(IdentifiableView::from_tagged);
        }
        if same_text(tag.as_str(), "AssetAdministrationShell") {
            match AssetAdministrationShell::decode_members(fields) {
                Ok(x) => Ok(Identifiable::AssetAdministrationShell(x)),
                Err(e) => Err(e),
            }
        } else if same_text(tag.as_str(), "Submodel") {
            match Submodel::decode_members(fields) {
                Ok(x) => Ok(Identifiable::Submodel(x)),
                Err(e) => Err(e),
            }
        } else if same_text(tag.as_str(), "ConceptDescription") {
            match ConceptDescription::decode_members(fields) {
                Ok(x) => Ok(Identifiable::ConceptDescription(x)),
                Err(e) => Err(e),
            }
        } else {
            Err(DecodeError::at(DecodeFault::UnknownDiscriminant, "modelType"))
        }
    }
}

} // verus!
