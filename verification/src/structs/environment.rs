use vstd::prelude::*;
use crate::error::ModelError;
use crate::names::lemma_name_codes;
use crate::structs::asset_administration_shell::{
    AssetAdministrationShell,
    AssetAdministrationShellView,
};
use crate::structs::concept_description::{ConceptDescription, ConceptDescriptionView};
use crate::structs::submodel::{Submodel, SubmodelView};
use crate::traits::identifiable::TIdentifiable;
use crate::validation::{all_distinct, distinct};
use crate::wire::{
    add_member,
    fail,
    fail_at,
    find,
    in_field,
    lemma_lookup_push,
    lookup,
    member,
    outcome,
    tagged,
    DecodeError,
    DecodeErrorView,
    DecodeFault,
    Field,
    FieldView,
    Wire,
    WireView,
};

verus! {

/// Container for the sets of different identifiables.
#[derive(Debug, PartialEq)]
pub struct Environment {
    /// The asset administration shells.
    asset_administration_shells: Vec<AssetAdministrationShell>,
    /// The submodels.
    submodels: Vec<Submodel>,
    /// The concept descriptions.
    concept_descriptions: Vec<ConceptDescription>,
}

/// The mathematical form of an [`Environment`].
#[verifier::ext_equal]
pub struct EnvironmentView {
    pub asset_administration_shells: Seq<AssetAdministrationShellView>,
    pub submodels: Seq<SubmodelView>,
    pub concept_descriptions: Seq<ConceptDescriptionView>,
}

impl View for Environment {
    type V = EnvironmentView;

    closed spec fn view(&self) -> EnvironmentView {
        EnvironmentView {
            asset_administration_shells: self.asset_administration_shells.deep_view(),
            submodels: self.submodels.deep_view(),
            concept_descriptions: self.concept_descriptions.deep_view(),
        }
    }
}

impl DeepView for Environment {
    type V = EnvironmentView;

    open spec fn deep_view(&self) -> EnvironmentView {
        self@
    }
}

impl Clone for Environment {
    fn clone(&self) -> (r: Environment)
        ensures
            r@ == self@,
    {
        Environment {
            asset_administration_shells: AssetAdministrationShell::clone_list(
                &self.asset_administration_shells),
            submodels: Submodel::clone_list(&self.submodels),
            concept_descriptions: ConceptDescription::clone_list(&self.concept_descriptions),
        }
    }
}

impl Environment {
    /// Creates an environment with everything absent or empty.
    pub fn new() -> (r: Environment)
        ensures
            r@ == (EnvironmentView {
                asset_administration_shells: Seq::empty(),
                submodels: Seq::empty(),
                concept_descriptions: Seq::empty(),
            }),
    {
        Environment {
            asset_administration_shells: Vec::new(),
            submodels: Vec::new(),
            concept_descriptions: Vec::new(),
        }
    }

    /// Sets the asset administration shells.
    pub fn set_asset_administration_shells(&mut self,
        asset_administration_shells: Vec<AssetAdministrationShell>)
        ensures
            final(self)@ ==
                (EnvironmentView {
                asset_administration_shells: asset_administration_shells.deep_view(),
                ..old(self)@ }),
    {
        self.asset_administration_shells = asset_administration_shells;
    }

    /// Returns the asset administration shells.
    pub fn get_asset_administration_shells(&self) -> (r: &Vec<AssetAdministrationShell>)
        ensures
            r.deep_view() == self@.asset_administration_shells,
    {
        &self.asset_administration_shells
    }

    /// Adds an asset administration shell at the end.
    pub fn add_asset_administration_shell(&mut self,
        asset_administration_shell: AssetAdministrationShell)
        ensures
            final(self)@ ==
                (EnvironmentView {
                asset_administration_shells: old(self)@.asset_administration_shells.push(
                asset_administration_shell@), ..old(self)@ }),
    {
        self.asset_administration_shells.push(asset_administration_shell);
    }

    /// Removes and returns the asset administration shell at position `index`. Where there is none,
    /// nothing changes and the index is reported as out of range.
    pub fn remove_asset_administration_shell(&mut self, index: usize)
        -> (r: Result<AssetAdministrationShell, ModelError>)
        ensures
            match r {
                Ok(item) => index < old(self)@.asset_administration_shells.len()
                    && item@ == old(self)@.asset_administration_shells[index as int]
                    && final(self)@ ==
                        (EnvironmentView {
                        asset_administration_shells: old(self)@.asset_administration_shells.remove(
                        index as int), ..old(self)@ }),
                Err(e) => index >= old(self)@.asset_administration_shells.len()
                    && e == ModelError::IndexOutOfRange
                    && final(self)@ == old(self)@,
            },
    {
        if index < self.asset_administration_shells.len() {
            Ok(self.asset_administration_shells.remove(index))
        } else {
            Err(ModelError::IndexOutOfRange)
        }
    }

    /// Sets the submodels.
    pub fn set_submodels(&mut self, submodels: Vec<Submodel>)
        ensures
            final(self)@ == (EnvironmentView { submodels: submodels.deep_view(), ..old(self)@ }),
    {
        self.submodels = submodels;
    }

    /// Returns the submodels.
    pub fn get_submodels(&self) -> (r: &Vec<Submodel>)
        ensures
            r.deep_view() == self@.submodels,
    {
        &self.submodels
    }

    /// Adds a submodel at the end.
    pub fn add_submodel(&mut self, submodel: Submodel)
        ensures
            final(self)@ ==
                (EnvironmentView { submodels: old(self)@.submodels.push(submodel@), ..old(self)@ }),
    {
        self.submodels.push(submodel);
    }

    /// Removes and returns the submodel at position `index`. Where there is none,
    /// nothing changes and the index is reported as out of range.
    pub fn remove_submodel(&mut self, index: usize) -> (r: Result<Submodel, ModelError>)
        ensures
            match r {
                Ok(item) => index < old(self)@.submodels.len()
                    && item@ == old(self)@.submodels[index as int]
                    && final(self)@ ==
                        (EnvironmentView { submodels: old(self)@.submodels.remove(index as int),
                        ..old(self)@ }),
                Err(e) => index >= old(self)@.submodels.len() && e == ModelError::IndexOutOfRange
                    && final(self)@ == old(self)@,
            },
    {
        if index < self.submodels.len() {
            Ok(self.submodels.remove(index))
        } else {
            Err(ModelError::IndexOutOfRange)
        }
    }

    /// Sets the concept descriptions.
    pub fn set_concept_descriptions(&mut self, concept_descriptions: Vec<ConceptDescription>)
        ensures
            final(self)@ ==
                (EnvironmentView { concept_descriptions: concept_descriptions.deep_view(),
                ..old(self)@ }),
    {
        self.concept_descriptions = concept_descriptions;
    }

    /// Returns the concept descriptions.
    pub fn get_concept_descriptions(&self) -> (r: &Vec<ConceptDescription>)
        ensures
            r.deep_view() == self@.concept_descriptions,
    {
        &self.concept_descriptions
    }

    /// Adds a concept description at the end.
    pub fn add_concept_description(&mut self, concept_description: ConceptDescription)
        ensures
            final(self)@ ==
                (EnvironmentView { concept_descriptions: old(self)@.concept_descriptions.push(
                concept_description@), ..old(self)@ }),
    {
        self.concept_descriptions.push(concept_description);
    }

    /// Removes and returns the concept description at position `index`. Where there is none,
    /// nothing changes and the index is reported as out of range.
    pub fn remove_concept_description(&mut self, index: usize) -> (r: Result<ConceptDescription,
        ModelError>)
        ensures
            match r {
                Ok(item) => index < old(self)@.concept_descriptions.len()
                    && item@ == old(self)@.concept_descriptions[index as int]
                    && final(self)@ ==
                        (EnvironmentView {
                        concept_descriptions: old(self)@.concept_descriptions.remove(
                        index as int), ..old(self)@ }),
                Err(e) => index >= old(self)@.concept_descriptions.len()
                    && e == ModelError::IndexOutOfRange
                    && final(self)@ == old(self)@,
            },
    {
        if index < self.concept_descriptions.len() {
            Ok(self.concept_descriptions.remove(index))
        } else {
            Err(ModelError::IndexOutOfRange)
        }
    }
}

impl EnvironmentView {
    /// Whether every reference in the value is well formed.
    pub open spec fn well_formed(self) -> bool {
        &&& (forall|i: int| 0 <= i < self.asset_administration_shells.len() ==>
            (#[trigger] self.asset_administration_shells[i]).well_formed())
        &&& (forall|i: int| 0 <= i < self.submodels.len() ==>
            (#[trigger] self.submodels[i]).well_formed())
        &&& (forall|i: int| 0 <= i < self.concept_descriptions.len() ==>
            (#[trigger] self.concept_descriptions[i]).well_formed())
    }

    /// The members of a record that begins with `before` and goes on with
    /// the members of the value, in their order.
    #[verifier::opaque]
    pub open spec fn members_after(self, before: Seq<FieldView>) -> Seq<FieldView> {
        before
            .push(member("assetAdministrationShells"@,
                AssetAdministrationShellView::list_to_wire(self.asset_administration_shells)))
            .push(member("submodels"@, SubmodelView::list_to_wire(self.submodels)))
            .push(member("conceptDescriptions"@,
                ConceptDescriptionView::list_to_wire(self.concept_descriptions)))
    }

    /// The value on the wire: the record of its members.
    pub open spec fn to_wire(self) -> WireView {
        WireView::Record(self.members_after(Seq::empty()))
    }

    /// The value that the members of a record stand for. Members of other
    /// names are passed over; of two members of one name the first counts;
    /// the first member in the order above that cannot be decoded decides
    /// the failure.
    #[verifier::opaque]
    pub open spec fn from_members(fields: Seq<FieldView>) -> Result<EnvironmentView,
        DecodeErrorView> {
        let asset_administration_shells = match lookup(fields, "assetAdministrationShells"@) {
            None => Err(fail_at(DecodeFault::MissingField, "assetAdministrationShells"@)),
            Some(x) =>
                in_field("assetAdministrationShells"@,
                AssetAdministrationShellView::list_from_wire(x)),
        };
        let submodels = match lookup(fields, "submodels"@) {
            None => Err(fail_at(DecodeFault::MissingField, "submodels"@)),
            Some(x) => in_field("submodels"@, SubmodelView::list_from_wire(x)),
        };
        let concept_descriptions = match lookup(fields, "conceptDescriptions"@) {
            None => Err(fail_at(DecodeFault::MissingField, "conceptDescriptions"@)),
            Some(x) => in_field("conceptDescriptions"@, ConceptDescriptionView::list_from_wire(x)),
        };
        if asset_administration_shells is Err {
            Err(asset_administration_shells->Err_0)
        } else if submodels is Err {
            Err(submodels->Err_0)
        } else if concept_descriptions is Err {
            Err(concept_descriptions->Err_0)
        } else {
            Ok(EnvironmentView {
                asset_administration_shells: asset_administration_shells->Ok_0,
                submodels: submodels->Ok_0,
                concept_descriptions: concept_descriptions->Ok_0,
            })
        }
    }

    /// The value that a wire value stands for.
    pub open spec fn from_wire(w: WireView) -> Result<EnvironmentView, DecodeErrorView> {
        match w {
            WireView::Record(fields) => EnvironmentView::from_members(fields),
            _ => Err(fail(DecodeFault::ExpectedRecord)),
        }
    }

    /// The members of the value hide no type name that the record begins with.
    pub proof fn lemma_model_type_kept(self, tag: Option<Seq<char>>)
        ensures
            lookup(self.members_after(tagged(tag)), "modelType"@) == lookup(
                tagged(tag),
                "modelType"@,
            ),
    {
        broadcast use lemma_lookup_push;

        reveal(EnvironmentView::members_after);
        lemma_name_codes();
    }

    /// The value is found again from the members of its record, whether the
    /// record begins with a type name or not.
    pub proof fn lemma_members_round_trip(self, tag: Option<Seq<char>>)
        requires
            self.well_formed(),
        ensures
            EnvironmentView::from_members(self.members_after(tagged(tag))) ==
                Ok::<EnvironmentView, DecodeErrorView>(
                self,
            ),
    {
        broadcast use lemma_lookup_push;

        reveal(EnvironmentView::members_after);
        reveal(EnvironmentView::from_members);
        lemma_name_codes();
        AssetAdministrationShellView::lemma_list_round_trip(self.asset_administration_shells);
        SubmodelView::lemma_list_round_trip(self.submodels);
        ConceptDescriptionView::lemma_list_round_trip(self.concept_descriptions);
    }

    /// Every value is found again from what it is on the wire.
    pub proof fn lemma_round_trip(self)
        requires
            self.well_formed(),
        ensures
            EnvironmentView::from_wire(self.to_wire()) ==
                Ok::<EnvironmentView, DecodeErrorView>(self),
    {
        self.lemma_members_round_trip(None);
    }
}

impl Environment {
    /// The value as it travels: the record of its members. What comes out
    /// decodes to the same value again.
    pub fn encode(&self) -> (w: Wire)
        ensures
            w@ == self@.to_wire(),
            self@.well_formed(),
            EnvironmentView::from_wire(w@) == Ok::<EnvironmentView, DecodeErrorView>(self@),
    {
        let mut fields: Vec<Field> = Vec::new();
        assert(fields.deep_view() =~= Seq::<FieldView>::empty());
        self.encode_members(&mut fields);
        proof {
            self@.lemma_round_trip();
        }
        Wire::record(fields)
    }

    /// Appends the members of the value, as they travel, to `fields`.
    pub fn encode_members(&self, fields: &mut Vec<Field>)
        ensures
            final(fields).deep_view() == self@.members_after(old(fields).deep_view()),
            self@.well_formed(),
    {
        reveal(EnvironmentView::members_after);
        add_member(fields, "assetAdministrationShells",
            AssetAdministrationShell::encode_list(&self.asset_administration_shells));
        add_member(fields, "submodels", Submodel::encode_list(&self.submodels));
        add_member(fields, "conceptDescriptions",
            ConceptDescription::encode_list(&self.concept_descriptions));
    }

    /// The value that `w` stands for.
    pub fn decode(w: &Wire) -> (r: Result<Environment, DecodeError>)
        ensures
            outcome(r) == EnvironmentView::from_wire(w@),
    {
        match w.members() {
            Some(fields) => Environment::decode_members(fields),
            None => Err(DecodeError::new(DecodeFault::ExpectedRecord)),
        }
    }

    /// The value that the members `fields` of a record stand for.
    pub fn decode_members(fields: &Vec<Field>) -> (r: Result<Environment, DecodeError>)
        ensures
            outcome(r) == EnvironmentView::from_members(fields.deep_view()),
    {
        reveal(EnvironmentView::from_members);
        let asset_administration_shells = match find(fields, "assetAdministrationShells") {
            None => Err(DecodeError::at(DecodeFault::MissingField, "assetAdministrationShells")),
            Some(x) => match AssetAdministrationShell::decode_list(x) {
                Ok(v) => Ok(v),
                Err(e) => Err(e.under_field("assetAdministrationShells")),
            },
        };
        let submodels = match find(fields, "submodels") {
            None => Err(DecodeError::at(DecodeFault::MissingField, "submodels")),
            Some(x) => match Submodel::decode_list(x) {
                Ok(v) => Ok(v),
                Err(e) => Err(e.under_field("submodels")),
            },
        };
        let concept_descriptions = match find(fields, "conceptDescriptions") {
            None => Err(DecodeError::at(DecodeFault::MissingField, "conceptDescriptions")),
            Some(x) => match ConceptDescription::decode_list(x) {
                Ok(v) => Ok(v),
                Err(e) => Err(e.under_field("conceptDescriptions")),
            },
        };
        let asset_administration_shells = match asset_administration_shells {
            Ok(v) => v,
            Err(e) => {
                return Err(e);
            },
        };
        let submodels = match submodels {
            Ok(v) => v,
            Err(e) => {
                return Err(e);
            },
        };
        let concept_descriptions = match concept_descriptions {
            Ok(v) => v,
            Err(e) => {
                return Err(e);
            },
        };
        let r = Environment { asset_administration_shells, submodels, concept_descriptions };
        assert(r@ =~= EnvironmentView::from_members(fields.deep_view())->Ok_0);
        Ok(r)
    }
}

impl EnvironmentView {
    /// Whether the value and everything below it keeps what a document must
    /// keep: no language twice in one collection of texts, no short ID twice
    /// among the elements of one container, no empty and no repeated ID.
    pub open spec fn consistent(self) -> bool {
        &&& (forall|i: int| 0 <= i < self.asset_administration_shells.len() ==>
            (#[trigger] self.asset_administration_shells[i]).consistent())
        &&& (forall|i: int| 0 <= i < self.submodels.len() ==>
            (#[trigger] self.submodels[i]).consistent())
        &&& (forall|i: int| 0 <= i < self.concept_descriptions.len() ==>
            (#[trigger] self.concept_descriptions[i]).consistent())
        &&& distinct(self.ids())
    }

    /// The IDs of the shells, the submodels and the concept descriptions, in
    /// this order.
    pub open spec fn ids(self) -> Seq<Seq<char>> {
        Seq::new(
            self.asset_administration_shells.len(),
            |i: int| self.asset_administration_shells[i].id,
        ) + Seq::new(self.submodels.len(), |i: int| self.submodels[i].id) + Seq::new(
            self.concept_descriptions.len(),
            |i: int| self.concept_descriptions[i].id,
        )
    }
}

impl Environment {
    /// Whether the value and everything below it keeps what a document must
    /// keep.
    pub fn is_consistent(&self) -> (b: bool)
        ensures
            b == self@.consistent(),
    {
        let asset_administration_shells_below = AssetAdministrationShell::all_consistent(
            &self.asset_administration_shells);
        let submodels_below = Submodel::all_consistent(&self.submodels);
        let concept_descriptions_below = ConceptDescription::all_consistent(
            &self.concept_descriptions);
        let ids = self.ids_distinct();
        asset_administration_shells_below && submodels_below && concept_descriptions_below && ids
    }

    /// Whether no two of the shells, submodels and concept descriptions have
    /// the same ID.
    pub fn ids_distinct(&self) -> (b: bool)
        ensures
            b == distinct(self@.ids()),
    {
        let mut ids: Vec<&String> = Vec::new();
        let ghost shells = Seq::new(
            self@.asset_administration_shells.len(),
            |i: int| self@.asset_administration_shells[i].id,
        );
        let ghost submodels = Seq::new(self@.submodels.len(), |i: int| self@.submodels[i].id);
        let ghost concepts = Seq::new(
            self@.concept_descriptions.len(),
            |i: int| self@.concept_descriptions[i].id,
        );
        let mut i: usize = 0;
        assert(ids.deep_view() =~= shells.take(0));
        while i < self.asset_administration_shells.len()
            invariant
                i <= self.asset_administration_shells.len(),
                shells.len() == self.asset_administration_shells.len(),
                forall|j: int|
                    0 <= j < shells.len() ==> shells[j]
                        == (#[trigger] self.asset_administration_shells.deep_view()[j]).id,
                ids.deep_view() == shells.take(i as int),
            decreases self.asset_administration_shells.len() - i,
        {
            let ghost before = ids.deep_view();
            let id = self.asset_administration_shells[i].get_id();
            ids.push(id);
            assert(ids.deep_view() =~= before.push(id@));
            assert(id@ == self.asset_administration_shells.deep_view()[i as int].id);
            assert(ids.deep_view() =~= shells.take(i + 1));
            i += 1;
        }
        assert(shells.take(shells.len() as int) =~= shells);
        assert(shells + submodels.take(0) =~= shells);
        let mut i: usize = 0;
        while i < self.submodels.len()
            invariant
                i <= self.submodels.len(),
                submodels.len() == self.submodels.len(),
                forall|j: int|
                    0 <= j < submodels.len() ==> submodels[j]
                        == (#[trigger] self.submodels.deep_view()[j]).id,
                ids.deep_view() == shells + submodels.take(i as int),
            decreases self.submodels.len() - i,
        {
            let ghost before = ids.deep_view();
            let id = self.submodels[i].get_id();
            ids.push(id);
            assert(ids.deep_view() =~= before.push(id@));
            assert(id@ == self.submodels.deep_view()[i as int].id);
            assert(ids.deep_view() =~= shells + submodels.take(i + 1));
            i += 1;
        }
        assert(submodels.take(submodels.len() as int) =~= submodels);
        assert(shells + submodels + concepts.take(0) =~= shells + submodels);
        let mut i: usize = 0;
        while i < self.concept_descriptions.len()
            invariant
                i <= self.concept_descriptions.len(),
                concepts.len() == self.concept_descriptions.len(),
                forall|j: int|
                    0 <= j < concepts.len() ==> concepts[j]
                        == (#[trigger] self.concept_descriptions.deep_view()[j]).id,
                ids.deep_view() == shells + submodels + concepts.take(i as int),
            decreases self.concept_descriptions.len() - i,
        {
            let ghost before = ids.deep_view();
            let id = self.concept_descriptions[i].get_id();
            ids.push(id);
            assert(ids.deep_view() =~= before.push(id@));
            assert(id@ == self.concept_descriptions.deep_view()[i as int].id);
            assert(ids.deep_view() =~= shells + submodels + concepts.take(i + 1));
            i += 1;
        }
        assert(concepts.take(concepts.len() as int) =~= concepts);
        all_distinct(&ids)
    }
}

} // verus!
