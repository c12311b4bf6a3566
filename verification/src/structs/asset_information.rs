use vstd::prelude::*;
use crate::enumerations::asset_kind::AssetKind;
use crate::error::ModelError;
use crate::names::lemma_name_codes;
use crate::structs::resource::{Resource, ResourceView};
use crate::structs::specific_asset_id::{SpecificAssetId, SpecificAssetIdView};
use crate::wire::{
    add_member,
    decode_text,
    encode_optional_text,
    fail,
    fail_at,
    find,
    find_present,
    in_field,
    lemma_lookup_push,
    lookup,
    member,
    optional,
    optional_text_encode,
    outcome,
    present,
    tagged,
    text_decode,
    DecodeError,
    DecodeErrorView,
    DecodeFault,
    Field,
    FieldView,
    Wire,
    WireView,
};

verus! {

/// In asset information, identifying meta data of the asset that is represented by an Asset
/// Administration Shell is defined.
#[derive(Debug, PartialEq)]
pub struct AssetInformation {
    /// The kind of the asset: type, instance or role.
    asset_kind: AssetKind,
    /// The global identifier of the asset the Asset Administration Shell is representing.
    global_asset_id: Option<String>,
    /// The supplementary identifiers of the asset.
    specific_asset_ids: Vec<SpecificAssetId>,
    /// The type of the asset.
    asset_type: Option<String>,
    /// The thumbnail of the asset.
    default_thumbnail: Option<Resource>,
}

/// The mathematical form of an [`AssetInformation`].
#[verifier::ext_equal]
pub struct AssetInformationView {
    pub asset_kind: AssetKind,
    pub global_asset_id: Option<Seq<char>>,
    pub specific_asset_ids: Seq<SpecificAssetIdView>,
    pub asset_type: Option<Seq<char>>,
    pub default_thumbnail: Option<ResourceView>,
}

impl View for AssetInformation {
    type V = AssetInformationView;

    closed spec fn view(&self) -> AssetInformationView {
        AssetInformationView {
            asset_kind: self.asset_kind,
            global_asset_id: self.global_asset_id.deep_view(),
            specific_asset_ids: self.specific_asset_ids.deep_view(),
            asset_type: self.asset_type.deep_view(),
            default_thumbnail: self.default_thumbnail.deep_view(),
        }
    }
}

impl DeepView for AssetInformation {
    type V = AssetInformationView;

    open spec fn deep_view(&self) -> AssetInformationView {
        self@
    }
}

impl Clone for AssetInformation {
    fn clone(&self) -> (r: AssetInformation)
        ensures
            r@ == self@,
    {
        AssetInformation {
            asset_kind: self.asset_kind,
            global_asset_id: self.global_asset_id.clone(),
            specific_asset_ids: SpecificAssetId::clone_list(&self.specific_asset_ids),
            asset_type: self.asset_type.clone(),
            default_thumbnail: match &self.default_thumbnail {
                Some(v) => Some(v.clone()),
                None => None,
            },
        }
    }
}

impl AssetInformation {
    /// Creates an piece of asset information from what it must have; everything else is
    /// absent or empty.
    pub fn new(asset_kind: AssetKind) -> (r: AssetInformation)
        ensures
            r@ == (AssetInformationView {
                asset_kind,
                global_asset_id: None,
                specific_asset_ids: Seq::empty(),
                asset_type: None,
                default_thumbnail: None,
            }),
    {
        AssetInformation {
            asset_kind,
            global_asset_id: None,
            specific_asset_ids: Vec::new(),
            asset_type: None,
            default_thumbnail: None,
        }
    }

    /// Sets the kind of the asset: type, instance or role.
    pub fn set_asset_kind(&mut self, asset_kind: AssetKind)
        ensures
            final(self)@ == (AssetInformationView { asset_kind, ..old(self)@ }),
    {
        self.asset_kind = asset_kind;
    }

    /// Returns the kind of the asset: type, instance or role.
    pub fn get_asset_kind(&self) -> (r: &AssetKind)
        ensures
            *r == self@.asset_kind,
    {
        &self.asset_kind
    }

    /// Sets the global identifier of the asset the Asset Administration Shell is representing.
    pub fn set_global_asset_id(&mut self, global_asset_id: String)
        ensures
            final(self)@ ==
                (AssetInformationView { global_asset_id: Some(global_asset_id@), ..old(self)@ }),
    {
        self.global_asset_id = Some(global_asset_id);
    }

    /// Returns the global identifier of the asset the Asset Administration Shell is representing,
    /// if there is one.
    pub fn get_global_asset_id(&self) -> (r: Option<&String>)
        ensures
            r.deep_view() == self@.global_asset_id,
    {
        self.global_asset_id.as_ref()
    }

    /// Sets the supplementary identifiers of the asset.
    pub fn set_specific_asset_ids(&mut self, specific_asset_ids: Vec<SpecificAssetId>)
        ensures
            final(self)@ ==
                (AssetInformationView { specific_asset_ids: specific_asset_ids.deep_view(),
                ..old(self)@ }),
    {
        self.specific_asset_ids = specific_asset_ids;
    }

    /// Returns the supplementary identifiers of the asset.
    pub fn get_specific_asset_ids(&self) -> (r: &Vec<SpecificAssetId>)
        ensures
            r.deep_view() == self@.specific_asset_ids,
    {
        &self.specific_asset_ids
    }

    /// Adds a supplementary identifier of the asset at the end.
    pub fn add_specific_asset_id(&mut self, specific_asset_id: SpecificAssetId)
        ensures
            final(self)@ ==
                (AssetInformationView { specific_asset_ids: old(self)@.specific_asset_ids.push(
                specific_asset_id@), ..old(self)@ }),
    {
        self.specific_asset_ids.push(specific_asset_id);
    }

    /// Removes and returns the supplementary identifier of the asset at position `index`. Where
    /// there is none,
    /// nothing changes and the index is reported as out of range.
    pub fn remove_specific_asset_id(&mut self, index: usize) -> (r: Result<SpecificAssetId,
        ModelError>)
        ensures
            match r {
                Ok(item) => index < old(self)@.specific_asset_ids.len()
                    && item@ == old(self)@.specific_asset_ids[index as int]
                    && final(self)@ ==
                        (AssetInformationView {
                        specific_asset_ids: old(self)@.specific_asset_ids.remove(index as int),
                        ..old(self)@ }),
                Err(e) => index >= old(self)@.specific_asset_ids.len()
                    && e == ModelError::IndexOutOfRange
                    && final(self)@ == old(self)@,
            },
    {
        if index < self.specific_asset_ids.len() {
            Ok(self.specific_asset_ids.remove(index))
        } else {
            Err(ModelError::IndexOutOfRange)
        }
    }

    /// Sets the type of the asset.
    pub fn set_asset_type(&mut self, asset_type: String)
        ensures
            final(self)@ == (AssetInformationView { asset_type: Some(asset_type@), ..old(self)@ }),
    {
        self.asset_type = Some(asset_type);
    }

    /// Returns the type of the asset, if there is one.
    pub fn get_asset_type(&self) -> (r: Option<&String>)
        ensures
            r.deep_view() == self@.asset_type,
    {
        self.asset_type.as_ref()
    }

    /// Sets the thumbnail of the asset.
    pub fn set_default_thumbnail(&mut self, thumbnail: Resource)
        ensures
            final(self)@ ==
                (AssetInformationView { default_thumbnail: Some(thumbnail@), ..old(self)@ }),
    {
        self.default_thumbnail = Some(thumbnail);
    }

    /// Returns the thumbnail of the asset, if there is one.
    pub fn get_default_thumbnail(&self) -> (r: Option<&Resource>)
        ensures
            r.deep_view() == self@.default_thumbnail,
    {
        self.default_thumbnail.as_ref()
    }
}

impl AssetInformationView {
    /// Whether every reference in the value is well formed.
    pub open spec fn well_formed(self) -> bool {
        &&& (forall|i: int| 0 <= i < self.specific_asset_ids.len() ==>
            (#[trigger] self.specific_asset_ids[i]).well_formed())
    }

    /// The members of a record that begins with `before` and goes on with
    /// the members of the value, in their order.
    #[verifier::opaque]
    pub open spec fn members_after(self, before: Seq<FieldView>) -> Seq<FieldView> {
        before
            .push(member("assetKind"@, self.asset_kind.to_wire()))
            .push(member("globalAssetId"@, optional_text_encode(self.global_asset_id)))
            .push(member("specificAssetIds"@,
                SpecificAssetIdView::list_to_wire(self.specific_asset_ids)))
            .push(member("assetType"@, optional_text_encode(self.asset_type)))
            .push(member("defaultThumbnail"@,
                ResourceView::optional_to_wire(self.default_thumbnail)))
    }

    /// The value on the wire: the record of its members.
    pub open spec fn to_wire(self) -> WireView {
        WireView::Record(self.members_after(Seq::empty()))
    }

    /// The value that the members of a record stand for. Members of other
    /// names are passed over; of two members of one name the first counts;
    /// the first member in the order above that cannot be decoded decides
    /// the failure.
    #[verifier::opaque]
    pub open spec fn from_members(fields: Seq<FieldView>) -> Result<AssetInformationView,
        DecodeErrorView> {
        let asset_kind = match lookup(fields, "assetKind"@) {
            None => Err(fail_at(DecodeFault::MissingField, "assetKind"@)),
            Some(x) => in_field("assetKind"@, AssetKind::from_wire(x)),
        };
        let global_asset_id = match present(fields, "globalAssetId"@) {
            None => Ok(None),
            Some(x) => optional(in_field("globalAssetId"@, text_decode(x))),
        };
        let specific_asset_ids = match lookup(fields, "specificAssetIds"@) {
            None => Err(fail_at(DecodeFault::MissingField, "specificAssetIds"@)),
            Some(x) => in_field("specificAssetIds"@, SpecificAssetIdView::list_from_wire(x)),
        };
        let asset_type = match present(fields, "assetType"@) {
            None => Ok(None),
            Some(x) => optional(in_field("assetType"@, text_decode(x))),
        };
        let default_thumbnail = match present(fields, "defaultThumbnail"@) {
            None => Ok(None),
            Some(x) => optional(in_field("defaultThumbnail"@, ResourceView::from_wire(x))),
        };
        if asset_kind is Err {
            Err(asset_kind->Err_0)
        } else if global_asset_id is Err {
            Err(global_asset_id->Err_0)
        } else if specific_asset_ids is Err {
            Err(specific_asset_ids->Err_0)
        } else if asset_type is Err {
            Err(asset_type->Err_0)
        } else if default_thumbnail is Err {
            Err(default_thumbnail->Err_0)
        } else {
            Ok(AssetInformationView {
                asset_kind: asset_kind->Ok_0,
                global_asset_id: global_asset_id->Ok_0,
                specific_asset_ids: specific_asset_ids->Ok_0,
                asset_type: asset_type->Ok_0,
                default_thumbnail: default_thumbnail->Ok_0,
            })
        }
    }

    /// The value that a wire value stands for.
    pub open spec fn from_wire(w: WireView) -> Result<AssetInformationView, DecodeErrorView> {
        match w {
            WireView::Record(fields) => AssetInformationView::from_members(fields),
            _ => Err(fail(DecodeFault::ExpectedRecord)),
        }
    }

    /// The members of the value hide no type name that the record begins with.
    pub proof fn lemma_model_type_kept(self, tag: Option<Seq<char>>)
        ensures
            lookup(self.members_after(tagged(tag)), "modelType"@) == lookup(
                tagged(tag),
                "modelType"@,
            ),
    {
        broadcast use lemma_lookup_push;

        reveal(AssetInformationView::members_after);
        lemma_name_codes();
    }

    /// The value is found again from the members of its record, whether the
    /// record begins with a type name or not.
    pub proof fn lemma_members_round_trip(self, tag: Option<Seq<char>>)
        requires
            self.well_formed(),
        ensures
            AssetInformationView::from_members(self.members_after(tagged(tag))) ==
                Ok::<AssetInformationView, DecodeErrorView>(
                self,
            ),
    {
        broadcast use lemma_lookup_push;

        reveal(AssetInformationView::members_after);
        reveal(AssetInformationView::from_members);
        lemma_name_codes();
        self.asset_kind.lemma_round_trip();
        SpecificAssetIdView::lemma_list_round_trip(self.specific_asset_ids);
        match self.default_thumbnail {
            Some(v) => {
                v.lemma_round_trip();
            },
            None => {},
        }
    }

    /// Every value is found again from what it is on the wire.
    pub proof fn lemma_round_trip(self)
        requires
            self.well_formed(),
        ensures
            AssetInformationView::from_wire(self.to_wire()) ==
                Ok::<AssetInformationView, DecodeErrorView>(self),
    {
        self.lemma_members_round_trip(None);
    }
}

impl AssetInformation {
    /// The value as it travels: the record of its members. What comes out
    /// decodes to the same value again.
    pub fn encode(&self) -> (w: Wire)
        ensures
            w@ == self@.to_wire(),
            self@.well_formed(),
            AssetInformationView::from_wire(w@) ==
                Ok::<AssetInformationView, DecodeErrorView>(self@),
    {
        let mut fields: Vec<Field> = Vec::new();
        assert(fields.deep_view() =~= Seq::<FieldView>::empty());
        self.encode_members(&mut fields);
        proof {
            self@.lemma_round_trip();
        }
        Wire::record(fields)
    }

    /// Appends the members of the value, as they travel, to `fields`.
    pub fn encode_members(&self, fields: &mut Vec<Field>)
        ensures
            final(fields).deep_view() == self@.members_after(old(fields).deep_view()),
            self@.well_formed(),
    {
        reveal(AssetInformationView::members_after);
        add_member(fields, "assetKind", self.asset_kind.encode());
        add_member(fields, "globalAssetId", encode_optional_text(&self.global_asset_id));
        add_member(fields, "specificAssetIds",
            SpecificAssetId::encode_list(&self.specific_asset_ids));
        add_member(fields, "assetType", encode_optional_text(&self.asset_type));
        add_member(fields, "defaultThumbnail", Resource::encode_optional(&self.default_thumbnail));
    }

    /// The value that `w` stands for.
    pub fn decode(w: &Wire) -> (r: Result<AssetInformation, DecodeError>)
        ensures
            outcome(r) == AssetInformationView::from_wire(w@),
    {
        match w.members() {
            Some(fields) => AssetInformation::decode_members(fields),
            None => Err(DecodeError::new(DecodeFault::ExpectedRecord)),
        }
    }

    /// The value that the members `fields` of a record stand for.
    pub fn decode_members(fields: &Vec<Field>) -> (r: Result<AssetInformation, DecodeError>)
        ensures
            outcome(r) == AssetInformationView::from_members(fields.deep_view()),
    {
        reveal(AssetInformationView::from_members);
        let asset_kind = match find(fields, "assetKind") {
            None => Err(DecodeError::at(DecodeFault::MissingField, "assetKind")),
            Some(x) => match AssetKind::decode(x) {
                Ok(v) => Ok(v),
                Err(e) => Err(e.under_field("assetKind")),
            },
        };
        let global_asset_id = match find_present(fields, "globalAssetId") {
            None => Ok(None),
            Some(x) => match decode_text(x) {
                Ok(v) => Ok(Some(v)),
                Err(e) => Err(e.under_field("globalAssetId")),
            },
        };
        let specific_asset_ids = match find(fields, "specificAssetIds") {
            None => Err(DecodeError::at(DecodeFault::MissingField, "specificAssetIds")),
            Some(x) => match SpecificAssetId::decode_list(x) {
                Ok(v) => Ok(v),
                Err(e) => Err(e.under_field("specificAssetIds")),
            },
        };
        let asset_type = match find_present(fields, "assetType") {
            None => Ok(None),
            Some(x) => match decode_text(x) {
                Ok(v) => Ok(Some(v)),
                Err(e) => Err(e.under_field("assetType")),
            },
        };
        let default_thumbnail = match find_present(fields, "defaultThumbnail") {
            None => Ok(None),
            Some(x) => match Resource::decode(x) {
                Ok(v) => Ok(Some(v)),
                Err(e) => Err(e.under_field("defaultThumbnail")),
            },
        };
        let asset_kind = match asset_kind {
            Ok(v) => v,
            Err(e) => {
                return Err(e);
            },
        };
        let global_asset_id = match global_asset_id {
            Ok(v) => v,
            Err(e) => {
                return Err(e);
            },
        };
        let specific_asset_ids = match specific_asset_ids {
            Ok(v) => v,
            Err(e) => {
                return Err(e);
            },
        };
        let asset_type = match asset_type {
            Ok(v) => v,
            Err(e) => {
                return Err(e);
            },
        };
        let default_thumbnail = match default_thumbnail {
            Ok(v) => v,
            Err(e) => {
                return Err(e);
            },
        };
        let r = AssetInformation { asset_kind, global_asset_id, specific_asset_ids, asset_type,
            default_thumbnail };
        assert(r@ =~= AssetInformationView::from_members(fields.deep_view())->Ok_0);
        Ok(r)
    }
}

} // verus!
