use vstd::prelude::*;
use crate::enumerations::direction::Direction;
use crate::enumerations::interface_enumerations::referable::{Referable, ReferableView};
use crate::enumerations::state_of_event::StateOfEvent;
use crate::error::ModelError;
use crate::names::lemma_name_codes;
use crate::structs::extension::{Extension, ExtensionView};
use crate::structs::multi_language_name_type::{MultiLanguageNameType, MultiLanguageNameTypeView};
use crate::structs::multi_language_text_type::{MultiLanguageTextType, MultiLanguageTextTypeView};
use crate::structs::qualifier::{Qualifier, QualifierView};
use crate::structs::reference::{Reference, ReferenceView};
use crate::traits::event_element::TEventElement;
use crate::traits::has_data_specification::THasDataSpecification;
use crate::traits::has_extensions::THasExtensions;
use crate::traits::has_semantics::{SemanticsAspect, THasSemantics};
use crate::traits::qualifiable::TQualifiable;
use crate::traits::referable::{ReferableAspect, TReferable};
use crate::traits::submodel_element::TSubmodelElement;
use crate::validation::distinct;
use crate::wire::{
    add_member,
    decode_text,
    encode_optional_text,
    fail,
    fail_at,
    find,
    find_present,
    in_field,
    lemma_lookup_push,
    lemma_lookup_smaller,
    lookup,
    member,
    optional,
    optional_text_encode,
    outcome,
    present,
    tagged,
    text_decode,
    DecodeError,
    DecodeErrorView,
    DecodeFault,
    Field,
    FieldView,
    Wire,
    WireView,
};

verus! {

/// A basic event element.
#[derive(Debug, PartialEq)]
pub struct BasicEventElement {
    /// The reference to the referable, e.g. a data element or a submodel, that is being observed.
    observed: Reference,
    /// The direction of the event.
    direction: Direction,
    /// The state of the event.
    state: StateOfEvent,
    /// The information for the outer message infrastructure to schedule the event for the
    /// respective communication channel.
    message_topic: Option<String>,
    /// The information about which outer message infrastructure shall handle messages for the event
    /// element.
    message_broker: Option<Referable>,
    /// The timestamp in UTC when the last event was received or sent.
    last_update: Option<String>,
    /// The minimum interval between two events, which bounds the frequency of events.
    min_interval: Option<String>,
    /// The maximum interval between two messages about the status of the event.
    max_interval: Option<String>,
    /// The category, a value that gives further meta information.
    category: Option<String>,
    /// The short ID of the element.
    id_short: Option<String>,
    /// The display name of the element, one entry for each language.
    display_name: Vec<MultiLanguageNameType>,
    /// The description of the element, one entry for each language.
    description: Vec<MultiLanguageTextType>,
    /// The extensions of the element.
    extensions: Vec<Extension>,
    /// The identifier of the semantic definition of the element, its main semantic ID.
    semantic_id: Option<Reference>,
    /// The identifiers of supplemental semantic definitions of the element.
    supplemental_semantic_ids: Vec<Reference>,
    /// The additional qualifications of the element.
    qualifiers: Vec<Qualifier>,
    /// The external references to the data specification templates used by the element.
    data_specifications: Vec<Reference>,
}

/// The mathematical form of a [`BasicEventElement`].
#[verifier::ext_equal]
pub struct BasicEventElementView {
    pub observed: ReferenceView,
    pub direction: Direction,
    pub state: StateOfEvent,
    pub message_topic: Option<Seq<char>>,
    pub message_broker: Option<ReferableView>,
    pub last_update: Option<Seq<char>>,
    pub min_interval: Option<Seq<char>>,
    pub max_interval: Option<Seq<char>>,
    pub category: Option<Seq<char>>,
    pub id_short: Option<Seq<char>>,
    pub display_name: Seq<MultiLanguageNameTypeView>,
    pub description: Seq<MultiLanguageTextTypeView>,
    pub extensions: Seq<ExtensionView>,
    pub semantic_id: Option<ReferenceView>,
    pub supplemental_semantic_ids: Seq<ReferenceView>,
    pub qualifiers: Seq<QualifierView>,
    pub data_specifications: Seq<ReferenceView>,
}

impl BasicEventElement {
    /// The mathematical form of the value.
    pub closed spec fn model(&self) -> BasicEventElementView
        decreases self,
    {
        BasicEventElementView {
            observed: self.observed@,
            direction: self.direction,
            state: self.state,
            message_topic: self.message_topic.deep_view(),
            message_broker: match self.message_broker {
                Some(v) => Some(v.model()),
                None => None,
            },
            last_update: self.last_update.deep_view(),
            min_interval: self.min_interval.deep_view(),
            max_interval: self.max_interval.deep_view(),
            category: self.category.deep_view(),
            id_short: self.id_short.deep_view(),
            display_name: self.display_name.deep_view(),
            description: self.description.deep_view(),
            extensions: self.extensions.deep_view(),
            semantic_id: self.semantic_id.deep_view(),
            supplemental_semantic_ids: self.supplemental_semantic_ids.deep_view(),
            qualifiers: self.qualifiers.deep_view(),
            data_specifications: self.data_specifications.deep_view(),
        }
    }
}

/// The mathematical form of a basic event element, field by field.
broadcast proof fn lemma_model(e: BasicEventElement)
    ensures
        #[trigger] e.model() == (BasicEventElementView {
            observed: e.observed@,
            direction: e.direction,
            state: e.state,
            message_topic: e.message_topic.deep_view(),
            message_broker: e.message_broker.deep_view(),
            last_update: e.last_update.deep_view(),
            min_interval: e.min_interval.deep_view(),
            max_interval: e.max_interval.deep_view(),
            category: e.category.deep_view(),
            id_short: e.id_short.deep_view(),
            display_name: e.display_name.deep_view(),
            description: e.description.deep_view(),
            extensions: e.extensions.deep_view(),
            semantic_id: e.semantic_id.deep_view(),
            supplemental_semantic_ids: e.supplemental_semantic_ids.deep_view(),
            qualifiers: e.qualifiers.deep_view(),
            data_specifications: e.data_specifications.deep_view(),
        }),
{
    assert(e.model().message_broker =~= e.message_broker.deep_view());
}

impl View for BasicEventElement {
    type V = BasicEventElementView;

    open spec fn view(&self) -> BasicEventElementView {
        self.model()
    }
}

impl DeepView for BasicEventElement {
    type V = BasicEventElementView;

    open spec fn deep_view(&self) -> BasicEventElementView {
        self@
    }
}

impl Clone for BasicEventElement {
    fn clone(&self) -> (r: BasicEventElement)
        ensures
            r@ == self@,
        decreases self,
    {
        broadcast use lemma_model;

        BasicEventElement {
            observed: self.observed.clone(),
            direction: self.direction,
            state: self.state,
            message_topic: self.message_topic.clone(),
            message_broker: match &self.message_broker {
                Some(v) => Some(v.clone()),
                None => None,
            },
            last_update: self.last_update.clone(),
            min_interval: self.min_interval.clone(),
            max_interval: self.max_interval.clone(),
            category: self.category.clone(),
            id_short: self.id_short.clone(),
            display_name: MultiLanguageNameType::clone_list(&self.display_name),
            description: MultiLanguageTextType::clone_list(&self.description),
            extensions: Extension::clone_list(&self.extensions),
            semantic_id: match &self.semantic_id {
                Some(v) => Some(v.clone()),
                None => None,
            },
            supplemental_semantic_ids: Reference::clone_list(&self.supplemental_semantic_ids),
            qualifiers: Qualifier::clone_list(&self.qualifiers),
            data_specifications: Reference::clone_list(&self.data_specifications),
        }
    }
}

impl BasicEventElement {
    /// Creates a basic event element from what it must have; everything else is
    /// absent or empty.
    pub fn new(observed: Reference, direction: Direction, state: StateOfEvent)
        -> (r: BasicEventElement)
        ensures
            r@ == (BasicEventElementView {
                observed: observed@,
                direction,
                state,
                message_topic: None,
                message_broker: None,
                last_update: None,
                min_interval: None,
                max_interval: None,
                category: None,
                id_short: None,
                display_name: Seq::empty(),
                description: Seq::empty(),
                extensions: Seq::empty(),
                semantic_id: None,
                supplemental_semantic_ids: Seq::empty(),
                qualifiers: Seq::empty(),
                data_specifications: Seq::empty(),
            }),
    {
        broadcast use lemma_model;

        BasicEventElement {
            observed,
            direction,
            state,
            message_topic: None,
            message_broker: None,
            last_update: None,
            min_interval: None,
            max_interval: None,
            category: None,
            id_short: None,
            display_name: Vec::new(),
            description: Vec::new(),
            extensions: Vec::new(),
            semantic_id: None,
            supplemental_semantic_ids: Vec::new(),
            qualifiers: Vec::new(),
            data_specifications: Vec::new(),
        }
    }

    /// Sets the reference to the referable, e.g. a data element or a submodel, that is being
    /// observed.
    pub fn set_observed(&mut self, observed: Reference)
        ensures
            final(self)@ == (BasicEventElementView { observed: observed@, ..old(self)@ }),
    {
        broadcast use lemma_model;

        self.observed = observed;
    }

    /// Returns the reference to the referable, e.g. a data element or a submodel, that is being
    /// observed.
    pub fn get_observed(&self) -> (r: &Reference)
        ensures
            r@ == self@.observed,
    {
        broadcast use lemma_model;

        &self.observed
    }

    /// Returns the reference to the referable, e.g. a data element or a submodel, that is being
    /// observed, open to change.
    pub fn get_mut_observed(&mut self) -> (r: &mut Reference)
        ensures
            r@ == old(self)@.observed,
            final(self)@ == (BasicEventElementView { observed: final(r)@, ..old(self)@ }),
    {
        broadcast use lemma_model;

        &mut self.observed
    }

    /// Sets the direction of the event.
    pub fn set_direction(&mut self, direction: Direction)
        ensures
            final(self)@ == (BasicEventElementView { direction, ..old(self)@ }),
    {
        broadcast use lemma_model;

        self.direction = direction;
    }

    /// Returns the direction of the event.
    pub fn get_direction(&self) -> (r: &Direction)
        ensures
            *r == self@.direction,
    {
        broadcast use lemma_model;

        &self.direction
    }

    /// Returns the direction of the event, open to change.
    pub fn get_mut_direction(&mut self) -> (r: &mut Direction)
        ensures
            *r == old(self)@.direction,
            final(self)@ == (BasicEventElementView { direction: *final(r), ..old(self)@ }),
    {
        broadcast use lemma_model;

        &mut self.direction
    }

    /// Sets the state of the event.
    pub fn set_state(&mut self, state: StateOfEvent)
        ensures
            final(self)@ == (BasicEventElementView { state, ..old(self)@ }),
    {
        broadcast use lemma_model;

        self.state = state;
    }

    /// Returns the state of the event.
    pub fn get_state(&self) -> (r: &StateOfEvent)
        ensures
            *r == self@.state,
    {
        broadcast use lemma_model;

        &self.state
    }

    /// Returns the state of the event, open to change.
    pub fn get_mut_state(&mut self) -> (r: &mut StateOfEvent)
        ensures
            *r == old(self)@.state,
            final(self)@ == (BasicEventElementView { state: *final(r), ..old(self)@ }),
    {
        broadcast use lemma_model;

        &mut self.state
    }

    /// Sets the information for the outer message infrastructure to schedule the event for the
    /// respective communication channel.
    pub fn set_message_topic(&mut self, topic: String)
        ensures
            final(self)@ == (BasicEventElementView { message_topic: Some(topic@), ..old(self)@ }),
    {
        broadcast use lemma_model;

        self.message_topic = Some(topic);
    }

    /// Returns the information for the outer message infrastructure to schedule the event for the
    /// respective communication channel, if there is one.
    pub fn get_message_topic(&self) -> (r: Option<&String>)
        ensures
            r.deep_view() == self@.message_topic,
    {
        broadcast use lemma_model;

        self.message_topic.as_ref()
    }

    /// Returns the information for the outer message infrastructure to schedule the event for the
    /// respective communication channel, open to change, if there is one.
    pub fn get_mutable_message_topic(&mut self) -> (r: Option<&mut String>)
        ensures
            match r {
                Some(m) => old(self)@.message_topic == Some(m@)
                    && final(self)@ ==
                    (BasicEventElementView { message_topic: Some(final(m)@), ..old(self)@ }),
                None => old(self)@.message_topic is None && final(self)@ == old(self)@,
            },
    {
        broadcast use lemma_model;

        self.message_topic.as_mut()
    }

    /// Sets the information about which outer message infrastructure shall handle messages for the
    /// event element.
    pub fn set_message_broker(&mut self, message_broker: Referable)
        ensures
            final(self)@ ==
                (BasicEventElementView { message_broker: Some(message_broker@), ..old(self)@ }),
    {
        broadcast use lemma_model;

        self.message_broker = Some(message_broker);
    }

    /// Returns the information about which outer message infrastructure shall handle messages for
    /// the event element, if there is one.
    pub fn get_message_broker(&self) -> (r: Option<&Referable>)
        ensures
            r.deep_view() == self@.message_broker,
    {
        broadcast use lemma_model;

        self.message_broker.as_ref()
    }

    /// Returns the information about which outer message infrastructure shall handle messages for
    /// the event element, open to change, if there is one.
    pub fn get_mut_message_broker(&mut self) -> (r: Option<&mut Referable>)
        ensures
            match r {
                Some(m) => old(self)@.message_broker == Some(m@)
                    && final(self)@ ==
                    (BasicEventElementView { message_broker: Some(final(m)@), ..old(self)@ }),
                None => old(self)@.message_broker is None && final(self)@ == old(self)@,
            },
    {
        broadcast use lemma_model;

        self.message_broker.as_mut()
    }

    /// Sets the timestamp in UTC when the last event was received or sent.
    pub fn set_last_update(&mut self, last_update: String)
        ensures
            final(self)@ ==
                (BasicEventElementView { last_update: Some(last_update@), ..old(self)@ }),
    {
        broadcast use lemma_model;

        self.last_update = Some(last_update);
    }

    /// Returns the timestamp in UTC when the last event was received or sent, if there is one.
    pub fn get_last_update(&self) -> (r: Option<&String>)
        ensures
            r.deep_view() == self@.last_update,
    {
        broadcast use lemma_model;

        self.last_update.as_ref()
    }

    /// Returns the timestamp in UTC when the last event was received or sent, open to change, if
    /// there is one.
    pub fn get_mut_last_update(&mut self) -> (r: Option<&mut String>)
        ensures
            match r {
                Some(m) => old(self)@.last_update == Some(m@)
                    && final(self)@ ==
                    (BasicEventElementView { last_update: Some(final(m)@), ..old(self)@ }),
                None => old(self)@.last_update is None && final(self)@ == old(self)@,
            },
    {
        broadcast use lemma_model;

        self.last_update.as_mut()
    }

    /// Sets the minimum interval between two events, which bounds the frequency of events.
    pub fn set_min_interval(&mut self, interval: String)
        ensures
            final(self)@ == (BasicEventElementView { min_interval: Some(interval@), ..old(self)@ }),
    {
        broadcast use lemma_model;

        self.min_interval = Some(interval);
    }

    /// Returns the minimum interval between two events, which bounds the frequency of events, if
    /// there is one.
    pub fn get_min_interval(&self) -> (r: Option<&String>)
        ensures
            r.deep_view() == self@.min_interval,
    {
        broadcast use lemma_model;

        self.min_interval.as_ref()
    }

    /// Returns the minimum interval between two events, which bounds the frequency of events, open
    /// to change, if there is one.
    pub fn get_mut_min_interval(&mut self) -> (r: Option<&mut String>)
        ensures
            match r {
                Some(m) => old(self)@.min_interval == Some(m@)
                    && final(self)@ ==
                    (BasicEventElementView { min_interval: Some(final(m)@), ..old(self)@ }),
                None => old(self)@.min_interval is None && final(self)@ == old(self)@,
            },
    {
        broadcast use lemma_model;

        self.min_interval.as_mut()
    }

    /// Sets the maximum interval between two messages about the status of the event.
    pub fn set_max_interval(&mut self, interval: String)
        ensures
            final(self)@ == (BasicEventElementView { max_interval: Some(interval@), ..old(self)@ }),
    {
        broadcast use lemma_model;

        self.max_interval = Some(interval);
    }

    /// Returns the maximum interval between two messages about the status of the event, if there is
    /// one.
    pub fn get_max_interval(&self) -> (r: Option<&String>)
        ensures
            r.deep_view() == self@.max_interval,
    {
        broadcast use lemma_model;

        self.max_interval.as_ref()
    }

    /// Returns the maximum interval between two messages about the status of the event, open to
    /// change, if there is one.
    pub fn get_mut_max_interval(&mut self) -> (r: Option<&mut String>)
        ensures
            match r {
                Some(m) => old(self)@.max_interval == Some(m@)
                    && final(self)@ ==
                    (BasicEventElementView { max_interval: Some(final(m)@), ..old(self)@ }),
                None => old(self)@.max_interval is None && final(self)@ == old(self)@,
            },
    {
        broadcast use lemma_model;

        self.max_interval.as_mut()
    }
}

impl TReferable for BasicEventElement {
    open spec fn referable(&self) -> ReferableAspect {
        ReferableAspect {
            category: self@.category,
            id_short: self@.id_short,
            display_name: self@.display_name,
            description: self@.description,
        }
    }

    fn set_category(&mut self, category: String)
        ensures
            final(self)@ == (BasicEventElementView { category: Some(category@), ..old(self)@ }),
    {
        broadcast use lemma_model;

        self.category = Some(category);
    }

    fn get_category(&self) -> (r: Option<&String>) {
        broadcast use lemma_model;

        self.category.as_ref()
    }

    fn get_mut_category(&mut self) -> (r: Option<&mut String>)
        ensures
            match r {
                Some(m) =>
                    final(self)@ ==
                    (BasicEventElementView { category: Some(final(m)@), ..old(self)@ }),
                None => final(self)@ == old(self)@,
            },
    {
        broadcast use lemma_model;

        self.category.as_mut()
    }

    fn set_id_short(&mut self, id_short: String)
        ensures
            final(self)@ == (BasicEventElementView { id_short: Some(id_short@), ..old(self)@ }),
    {
        broadcast use lemma_model;

        self.id_short = Some(id_short);
    }

    fn get_id_short(&self) -> (r: Option<&String>) {
        broadcast use lemma_model;

        self.id_short.as_ref()
    }

    fn get_mut_id_short(&mut self) -> (r: Option<&mut String>)
        ensures
            match r {
                Some(m) =>
                    final(self)@ ==
                    (BasicEventElementView { id_short: Some(final(m)@), ..old(self)@ }),
                None => final(self)@ == old(self)@,
            },
    {
        broadcast use lemma_model;

        self.id_short.as_mut()
    }

    fn set_display_name(&mut self, display_name: Vec<MultiLanguageNameType>)
        ensures
            final(self)@ ==
                (BasicEventElementView { display_name: display_name.deep_view(), ..old(self)@ }),
    {
        broadcast use lemma_model;

        self.display_name = display_name;
    }

    fn get_display_name(&self) -> (r: &Vec<MultiLanguageNameType>) {
        broadcast use lemma_model;

        &self.display_name
    }

    fn get_mut_display_name(&mut self) -> (r: &mut Vec<MultiLanguageNameType>)
        ensures
            final(self)@ ==
                (BasicEventElementView { display_name: final(r).deep_view(), ..old(self)@ }),
    {
        broadcast use lemma_model;

        &mut self.display_name
    }

    fn add_display_name(&mut self, display_name: MultiLanguageNameType)
        ensures
            final(self)@ ==
                (BasicEventElementView { display_name: old(self)@.display_name.push(display_name@),
                ..old(self)@ }),
    {
        broadcast use lemma_model;

        self.display_name.push(display_name);
    }

    fn remove_display_name(&mut self, index: usize) -> (r: Result<MultiLanguageNameType,
        ModelError>)
        ensures
            match r {
                Ok(item) =>
                    final(self)@ ==
                    (BasicEventElementView { display_name: old(self)@.display_name.remove(
                    index as int), ..old(self)@ }),
                Err(e) => final(self)@ == old(self)@,
            },
    {
        broadcast use lemma_model;

        if index < self.display_name.len() {
            Ok(self.display_name.remove(index))
        } else {
            Err(ModelError::IndexOutOfRange)
        }
    }

    fn set_description(&mut self, description: Vec<MultiLanguageTextType>)
        ensures
            final(self)@ ==
                (BasicEventElementView { description: description.deep_view(), ..old(self)@ }),
    {
        broadcast use lemma_model;

        self.description = description;
    }

    fn get_description(&self) -> (r: &Vec<MultiLanguageTextType>) {
        broadcast use lemma_model;

        &self.description
    }

    fn get_mut_description(&mut self) -> (r: &mut Vec<MultiLanguageTextType>)
        ensures
            final(self)@ ==
                (BasicEventElementView { description: final(r).deep_view(), ..old(self)@ }),
    {
        broadcast use lemma_model;

        &mut self.description
    }

    fn add_description(&mut self, description: MultiLanguageTextType)
        ensures
            final(self)@ ==
                (BasicEventElementView { description: old(self)@.description.push(description@),
                ..old(self)@ }),
    {
        broadcast use lemma_model;

        self.description.push(description);
    }

    fn remove_description(&mut self, index: usize) -> (r: Result<MultiLanguageTextType, ModelError>)
        ensures
            match r {
                Ok(item) =>
                    final(self)@ ==
                    (BasicEventElementView { description: old(self)@.description.remove(
                    index as int), ..old(self)@ }),
                Err(e) => final(self)@ == old(self)@,
            },
    {
        broadcast use lemma_model;

        if index < self.description.len() {
            Ok(self.description.remove(index))
        } else {
            Err(ModelError::IndexOutOfRange)
        }
    }
}

impl THasExtensions for BasicEventElement {
    open spec fn extensions_view(&self) -> Seq<ExtensionView> {
        self@.extensions
    }

    fn set_extensions(&mut self, extensions: Vec<Extension>)
        ensures
            final(self)@ ==
                (BasicEventElementView { extensions: extensions.deep_view(), ..old(self)@ }),
    {
        broadcast use lemma_model;

        self.extensions = extensions;
    }

    fn get_extensions(&self) -> (r: &Vec<Extension>) {
        broadcast use lemma_model;

        &self.extensions
    }

    fn get_mut_extensions(&mut self) -> (r: &mut Vec<Extension>)
        ensures
            final(self)@ ==
                (BasicEventElementView { extensions: final(r).deep_view(), ..old(self)@ }),
    {
        broadcast use lemma_model;

        &mut self.extensions
    }

    fn add_extension(&mut self, extension: Extension)
        ensures
            final(self)@ ==
                (BasicEventElementView { extensions: old(self)@.extensions.push(extension@),
                ..old(self)@ }),
    {
        broadcast use lemma_model;

        self.extensions.push(extension);
    }

    fn remove_extension(&mut self, index: usize) -> (r: Result<Extension, ModelError>)
        ensures
            match r {
                Ok(item) =>
                    final(self)@ ==
                    (BasicEventElementView { extensions: old(self)@.extensions.remove(
                    index as int), ..old(self)@ }),
                Err(e) => final(self)@ == old(self)@,
            },
    {
        broadcast use lemma_model;

        if index < self.extensions.len() {
            Ok(self.extensions.remove(index))
        } else {
            Err(ModelError::IndexOutOfRange)
        }
    }
}

impl THasSemantics for BasicEventElement {
    open spec fn semantics(&self) -> SemanticsAspect {
        SemanticsAspect {
            semantic_id: self@.semantic_id,
            supplemental_semantic_ids: self@.supplemental_semantic_ids,
        }
    }

    fn set_semantic_id(&mut self, semantic_id: Reference)
        ensures
            final(self)@ ==
                (BasicEventElementView { semantic_id: Some(semantic_id@), ..old(self)@ }),
    {
        broadcast use lemma_model;

        self.semantic_id = Some(semantic_id);
    }

    fn get_semantic_id(&self) -> (r: Option<&Reference>) {
        broadcast use lemma_model;

        self.semantic_id.as_ref()
    }

    fn get_mut_semantic_id(&mut self) -> (r: Option<&mut Reference>)
        ensures
            match r {
                Some(m) =>
                    final(self)@ ==
                    (BasicEventElementView { semantic_id: Some(final(m)@), ..old(self)@ }),
                None => final(self)@ == old(self)@,
            },
    {
        broadcast use lemma_model;

        self.semantic_id.as_mut()
    }

    fn set_supplemental_semantic_ids(&mut self, supplemental_semantic_ids: Vec<Reference>)
        ensures
            final(self)@ ==
                (BasicEventElementView {
                supplemental_semantic_ids: supplemental_semantic_ids.deep_view(),
                ..old(self)@ }),
    {
        broadcast use lemma_model;

        self.supplemental_semantic_ids = supplemental_semantic_ids;
    }

    fn get_supplemental_semantic_ids(&self) -> (r: &Vec<Reference>) {
        broadcast use lemma_model;

        &self.supplemental_semantic_ids
    }

    fn get_mut_supplemental_semantic_ids(&mut self) -> (r: &mut Vec<Reference>)
        ensures
            final(self)@ ==
                (BasicEventElementView { supplemental_semantic_ids: final(r).deep_view(),
                ..old(self)@ }),
    {
        broadcast use lemma_model;

        &mut self.supplemental_semantic_ids
    }

    fn add_supplemental_semantic_id(&mut self, supplemental_semantic_id: Reference)
        ensures
            final(self)@ ==
                (BasicEventElementView {
                supplemental_semantic_ids: old(self)@.supplemental_semantic_ids.push(
                supplemental_semantic_id@), ..old(self)@ }),
    {
        broadcast use lemma_model;

        self.supplemental_semantic_ids.push(supplemental_semantic_id);
    }

    fn remove_supplemental_semantic_id(&mut self, index: usize) -> (r: Result<Reference,
        ModelError>)
        ensures
            match r {
                Ok(item) =>
                    final(self)@ ==
                    (BasicEventElementView {
                    supplemental_semantic_ids: old(self)@.supplemental_semantic_ids.remove(
                    index as int), ..old(self)@ }),
                Err(e) => final(self)@ == old(self)@,
            },
    {
        broadcast use lemma_model;

        if index < self.supplemental_semantic_ids.len() {
            Ok(self.supplemental_semantic_ids.remove(index))
        } else {
            Err(ModelError::IndexOutOfRange)
        }
    }
}

impl TQualifiable for BasicEventElement {
    open spec fn qualifiers_view(&self) -> Seq<QualifierView> {
        self@.qualifiers
    }

    fn set_qualifiers(&mut self, qualifiers: Vec<Qualifier>)
        ensures
            final(self)@ ==
                (BasicEventElementView { qualifiers: qualifiers.deep_view(), ..old(self)@ }),
    {
        broadcast use lemma_model;

        self.qualifiers = qualifiers;
    }

    fn get_qualifiers(&self) -> (r: &Vec<Qualifier>) {
        broadcast use lemma_model;

        &self.qualifiers
    }

    fn get_mut_qualifiers(&mut self) -> (r: &mut Vec<Qualifier>)
        ensures
            final(self)@ ==
                (BasicEventElementView { qualifiers: final(r).deep_view(), ..old(self)@ }),
    {
        broadcast use lemma_model;

        &mut self.qualifiers
    }

    fn add_qualifier(&mut self, qualifier: Qualifier)
        ensures
            final(self)@ ==
                (BasicEventElementView { qualifiers: old(self)@.qualifiers.push(qualifier@),
                ..old(self)@ }),
    {
        broadcast use lemma_model;

        self.qualifiers.push(qualifier);
    }

    fn remove_qualifier(&mut self, index: usize) -> (r: Result<Qualifier, ModelError>)
        ensures
            match r {
                Ok(item) =>
                    final(self)@ ==
                    (BasicEventElementView { qualifiers: old(self)@.qualifiers.remove(
                    index as int), ..old(self)@ }),
                Err(e) => final(self)@ == old(self)@,
            },
    {
        broadcast use lemma_model;

        if index < self.qualifiers.len() {
            Ok(self.qualifiers.remove(index))
        } else {
            Err(ModelError::IndexOutOfRange)
        }
    }
}

impl THasDataSpecification for BasicEventElement {
    open spec fn data_specifications_view(&self) -> Seq<ReferenceView> {
        self@.data_specifications
    }

    fn set_data_specifications(&mut self, data_specifications: Vec<Reference>)
        ensures
            final(self)@ ==
                (BasicEventElementView { data_specifications: data_specifications.deep_view(),
                ..old(self)@ }),
    {
        broadcast use lemma_model;

        self.data_specifications = data_specifications;
    }

    fn get_data_specifications(&self) -> (r: &Vec<Reference>) {
        broadcast use lemma_model;

        &self.data_specifications
    }

    fn get_mut_data_specifications(&mut self) -> (r: &mut Vec<Reference>)
        ensures
            final(self)@ ==
                (BasicEventElementView { data_specifications: final(r).deep_view(), ..old(self)@ }),
    {
        broadcast use lemma_model;

        &mut self.data_specifications
    }

    fn add_data_specification(&mut self, data_specification: Reference)
        ensures
            final(self)@ ==
                (BasicEventElementView { data_specifications: old(self)@.data_specifications.push(
                data_specification@), ..old(self)@ }),
    {
        broadcast use lemma_model;

        self.data_specifications.push(data_specification);
    }

    fn remove_data_specification(&mut self, index: usize) -> (r: Result<Reference, ModelError>)
        ensures
            match r {
                Ok(item) =>
                    final(self)@ ==
                    (BasicEventElementView {
                    data_specifications: old(self)@.data_specifications.remove(
                    index as int), ..old(self)@ }),
                Err(e) => final(self)@ == old(self)@,
            },
    {
        broadcast use lemma_model;

        if index < self.data_specifications.len() {
            Ok(self.data_specifications.remove(index))
        } else {
            Err(ModelError::IndexOutOfRange)
        }
    }
}

impl TSubmodelElement for BasicEventElement {
}

impl TEventElement for BasicEventElement {
}

impl BasicEventElementView {
    /// The same value with what it carries of the aspect replaced.
    pub open spec fn with_referable(self, aspect: ReferableAspect) -> BasicEventElementView {
        BasicEventElementView {
            category: aspect.category,
            id_short: aspect.id_short,
            display_name: aspect.display_name,
            description: aspect.description,
            ..self
        }
    }

    /// The same value with the extensions of the element replaced.
    pub open spec fn with_extensions(self, extensions: Seq<ExtensionView>)
        -> BasicEventElementView {
        BasicEventElementView {
            extensions,
            ..self
        }
    }

    /// The same value with what it carries of the aspect replaced.
    pub open spec fn with_semantics(self, aspect: SemanticsAspect) -> BasicEventElementView {
        BasicEventElementView {
            semantic_id: aspect.semantic_id,
            supplemental_semantic_ids: aspect.supplemental_semantic_ids,
            ..self
        }
    }

    /// The same value with the additional qualifications of the element replaced.
    pub open spec fn with_qualifiers(self, qualifiers: Seq<QualifierView>)
        -> BasicEventElementView {
        BasicEventElementView {
            qualifiers,
            ..self
        }
    }

    /// The same value with the external references to the data specification templates used by the
    /// element replaced.
    pub open spec fn with_data_specifications(self, data_specifications: Seq<ReferenceView>)
        -> BasicEventElementView {
        BasicEventElementView {
            data_specifications,
            ..self
        }
    }

    /// Whether every reference in the value is well formed.
    pub open spec fn well_formed(self) -> bool
        decreases self, 0nat,
    {
        &&& self.observed.well_formed()
        &&& (self.message_broker matches Some(v) ==> v.well_formed())
        &&& (forall|i: int| 0 <= i < self.extensions.len() ==>
            (#[trigger] self.extensions[i]).well_formed())
        &&& (self.semantic_id matches Some(v) ==> v.well_formed())
        &&& (forall|i: int| 0 <= i < self.supplemental_semantic_ids.len() ==>
            (#[trigger] self.supplemental_semantic_ids[i]).well_formed())
        &&& (forall|i: int| 0 <= i < self.qualifiers.len() ==>
            (#[trigger] self.qualifiers[i]).well_formed())
        &&& (forall|i: int| 0 <= i < self.data_specifications.len() ==>
            (#[trigger] self.data_specifications[i]).well_formed())
    }

    /// The members of a record that begins with `before` and goes on with
    /// the members of the value, in their order.
    pub open spec fn members_after(self, before: Seq<FieldView>) -> Seq<FieldView>
        decreases self, 1nat,
    {
        self.layout(before)
    }

    /// The members of the value, one by one, behind `before`.
    #[verifier::opaque]
    pub open spec fn layout(self, before: Seq<FieldView>) -> Seq<FieldView>
        decreases self, 0nat,
    {
        before
            .push(member("observed"@, self.observed.to_wire()))
            .push(member("direction"@, self.direction.to_wire()))
            .push(member("state"@, self.state.to_wire()))
            .push(member("messageTopic"@, optional_text_encode(self.message_topic)))
            .push(member("messageBroker"@, ReferableView::optional_to_wire(self.message_broker)))
            .push(member("lastUpdate"@, optional_text_encode(self.last_update)))
            .push(member("minInterval"@, optional_text_encode(self.min_interval)))
            .push(member("maxInterval"@, optional_text_encode(self.max_interval)))
            .push(member("category"@, optional_text_encode(self.category)))
            .push(member("idShort"@, optional_text_encode(self.id_short)))
            .push(member("displayName"@,
                MultiLanguageNameTypeView::list_to_wire(self.display_name)))
            .push(member("description"@, MultiLanguageTextTypeView::list_to_wire(self.description)))
            .push(member("extensions"@, ExtensionView::list_to_wire(self.extensions)))
            .push(member("semanticId"@, ReferenceView::optional_to_wire(self.semantic_id)))
            .push(member("supplementalSemanticIds"@,
                ReferenceView::list_to_wire(self.supplemental_semantic_ids)))
            .push(member("qualifiers"@, QualifierView::list_to_wire(self.qualifiers)))
            .push(member("embeddedDataSpecifications"@,
                ReferenceView::list_to_wire(self.data_specifications)))
    }

    /// The value on the wire: the record of its members.
    pub open spec fn to_wire(self) -> WireView
        decreases self, 2nat,
    {
        WireView::Record(self.members_after(Seq::empty()))
    }

    /// The value that the members of a record stand for. Members of other
    /// names are passed over; of two members of one name the first counts;
    /// the first member in the order above that cannot be decoded decides
    /// the failure.
    pub open spec fn from_members(fields: Seq<FieldView>) -> Result<BasicEventElementView,
        DecodeErrorView>
        decreases fields, 1nat,
    {
        BasicEventElementView::parse(fields)
    }

    /// The value that the members of a record stand for, member by member.
    #[verifier::opaque]
    pub open spec fn parse(fields: Seq<FieldView>) -> Result<BasicEventElementView, DecodeErrorView>
        decreases fields, 0nat,
    {
        let observed = match lookup(fields, "observed"@) {
            None => Err(fail_at(DecodeFault::MissingField, "observed"@)),
            Some(x) => in_field("observed"@, ReferenceView::from_wire(x)),
        };
        let direction = match lookup(fields, "direction"@) {
            None => Err(fail_at(DecodeFault::MissingField, "direction"@)),
            Some(x) => in_field("direction"@, Direction::from_wire(x)),
        };
        let state = match lookup(fields, "state"@) {
            None => Err(fail_at(DecodeFault::MissingField, "state"@)),
            Some(x) => in_field("state"@, StateOfEvent::from_wire(x)),
        };
        let message_topic = match present(fields, "messageTopic"@) {
            None => Ok(None),
            Some(x) => optional(in_field("messageTopic"@, text_decode(x))),
        };
        let message_broker = match present(fields, "messageBroker"@) {
            None => Ok(None),
            Some(x) => {
                proof {
                    lemma_lookup_smaller(fields, "messageBroker"@);
                }
                optional(in_field("messageBroker"@, ReferableView::from_wire(x)))
            },
        };
        let last_update = match present(fields, "lastUpdate"@) {
            None => Ok(None),
            Some(x) => optional(in_field("lastUpdate"@, text_decode(x))),
        };
        let min_interval = match present(fields, "minInterval"@) {
            None => Ok(None),
            Some(x) => optional(in_field("minInterval"@, text_decode(x))),
        };
        let max_interval = match present(fields, "maxInterval"@) {
            None => Ok(None),
            Some(x) => optional(in_field("maxInterval"@, text_decode(x))),
        };
        let category = match present(fields, "category"@) {
            None => Ok(None),
            Some(x) => optional(in_field("category"@, text_decode(x))),
        };
        let id_short = match present(fields, "idShort"@) {
            None => Ok(None),
            Some(x) => optional(in_field("idShort"@, text_decode(x))),
        };
        let display_name = match lookup(fields, "displayName"@) {
            None => Err(fail_at(DecodeFault::MissingField, "displayName"@)),
            Some(x) => in_field("displayName"@, MultiLanguageNameTypeView::list_from_wire(x)),
        };
        let description = match lookup(fields, "description"@) {
            None => Err(fail_at(DecodeFault::MissingField, "description"@)),
            Some(x) => in_field("description"@, MultiLanguageTextTypeView::list_from_wire(x)),
        };
        let extensions = match lookup(fields, "extensions"@) {
            None => Err(fail_at(DecodeFault::MissingField, "extensions"@)),
            Some(x) => in_field("extensions"@, ExtensionView::list_from_wire(x)),
        };
        let semantic_id = match present(fields, "semanticId"@) {
            None => Ok(None),
            Some(x) => optional(in_field("semanticId"@, ReferenceView::from_wire(x))),
        };
        let supplemental_semantic_ids = match lookup(fields, "supplementalSemanticIds"@) {
            None => Err(fail_at(DecodeFault::MissingField, "supplementalSemanticIds"@)),
            Some(x) => in_field("supplementalSemanticIds"@, ReferenceView::list_from_wire(x)),
        };
        let qualifiers = match lookup(fields, "qualifiers"@) {
            None => Err(fail_at(DecodeFault::MissingField, "qualifiers"@)),
            Some(x) => in_field("qualifiers"@, QualifierView::list_from_wire(x)),
        };
        let data_specifications = match lookup(fields, "embeddedDataSpecifications"@) {
            None => Err(fail_at(DecodeFault::MissingField, "embeddedDataSpecifications"@)),
            Some(x) => in_field("embeddedDataSpecifications"@, ReferenceView::list_from_wire(x)),
        };
        if observed is Err {
            Err(observed->Err_0)
        } else if direction is Err {
            Err(direction->Err_0)
        } else if state is Err {
            Err(state->Err_0)
        } else if message_topic is Err {
            Err(message_topic->Err_0)
        } else if message_broker is Err {
            Err(message_broker->Err_0)
        } else if last_update is Err {
            Err(last_update->Err_0)
        } else if min_interval is Err {
            Err(min_interval->Err_0)
        } else if max_interval is Err {
            Err(max_interval->Err_0)
        } else if category is Err {
            Err(category->Err_0)
        } else if id_short is Err {
            Err(id_short->Err_0)
        } else if display_name is Err {
            Err(display_name->Err_0)
        } else if description is Err {
            Err(description->Err_0)
        } else if extensions is Err {
            Err(extensions->Err_0)
        } else if semantic_id is Err {
            Err(semantic_id->Err_0)
        } else if supplemental_semantic_ids is Err {
            Err(supplemental_semantic_ids->Err_0)
        } else if qualifiers is Err {
            Err(qualifiers->Err_0)
        } else if data_specifications is Err {
            Err(data_specifications->Err_0)
        } else {
            Ok(BasicEventElementView {
                observed: observed->Ok_0,
                direction: direction->Ok_0,
                state: state->Ok_0,
                message_topic: message_topic->Ok_0,
                message_broker: message_broker->Ok_0,
                last_update: last_update->Ok_0,
                min_interval: min_interval->Ok_0,
                max_interval: max_interval->Ok_0,
                category: category->Ok_0,
                id_short: id_short->Ok_0,
                display_name: display_name->Ok_0,
                description: description->Ok_0,
                extensions: extensions->Ok_0,
                semantic_id: semantic_id->Ok_0,
                supplemental_semantic_ids: supplemental_semantic_ids->Ok_0,
                qualifiers: qualifiers->Ok_0,
                data_specifications: data_specifications->Ok_0,
            })
        }
    }

    /// The value that a wire value stands for.
    pub open spec fn from_wire(w: WireView) -> Result<BasicEventElementView, DecodeErrorView>
        decreases w, 0nat,
    {
        match w {
            WireView::Record(fields) => BasicEventElementView::from_members(fields),
            _ => Err(fail(DecodeFault::ExpectedRecord)),
        }
    }

    /// The members of the value hide no type name that the record begins with.
    pub proof fn lemma_model_type_kept(self, tag: Option<Seq<char>>)
        ensures
            lookup(self.members_after(tagged(tag)), "modelType"@) == lookup(
                tagged(tag),
                "modelType"@,
            ),
    {
        broadcast use lemma_lookup_push;

        reveal(BasicEventElementView::layout);
        lemma_name_codes();
    }

    /// The value is found again from the members of its record, whether the
    /// record begins with a type name or not.
    #[verifier::rlimit(50)]
    pub proof fn lemma_members_round_trip(self, tag: Option<Seq<char>>)
        requires
            self.well_formed(),
        ensures
            BasicEventElementView::from_members(self.members_after(tagged(tag))) ==
                Ok::<BasicEventElementView, DecodeErrorView>(
                self,
            ),
        decreases self, 0nat,
    {
        broadcast use lemma_lookup_push;

        reveal(BasicEventElementView::layout);
        reveal(BasicEventElementView::parse);
        lemma_name_codes();
        self.observed.lemma_round_trip();
        self.direction.lemma_round_trip();
        self.state.lemma_round_trip();
        match self.message_broker {
            Some(v) => {
                v.lemma_round_trip();
            },
            None => {},
        }
        MultiLanguageNameTypeView::lemma_list_round_trip(self.display_name);
        MultiLanguageTextTypeView::lemma_list_round_trip(self.description);
        ExtensionView::lemma_list_round_trip(self.extensions);
        match self.semantic_id {
            Some(v) => {
                v.lemma_round_trip();
            },
            None => {},
        }
        ReferenceView::lemma_list_round_trip(self.supplemental_semantic_ids);
        QualifierView::lemma_list_round_trip(self.qualifiers);
        ReferenceView::lemma_list_round_trip(self.data_specifications);
    }

    /// Every value is found again from what it is on the wire.
    pub proof fn lemma_round_trip(self)
        requires
            self.well_formed(),
        ensures
            BasicEventElementView::from_wire(self.to_wire()) ==
                Ok::<BasicEventElementView, DecodeErrorView>(self),
        decreases self, 2nat,
    {
        self.lemma_members_round_trip(None);
    }
}

impl BasicEventElement {
    /// The value as it travels: the record of its members. What comes out
    /// decodes to the same value again.
    pub fn encode(&self) -> (w: Wire)
        ensures
            w@ == self@.to_wire(),
            self@.well_formed(),
            BasicEventElementView::from_wire(w@) ==
                Ok::<BasicEventElementView, DecodeErrorView>(self@),
        decreases self, 2nat,
    {
        let mut fields: Vec<Field> = Vec::new();
        assert(fields.deep_view() =~= Seq::<FieldView>::empty());
        self.encode_members(&mut fields);
        proof {
            self@.lemma_round_trip();
        }
        Wire::record(fields)
    }

    /// Appends the members of the value, as they travel, to `fields`.
    pub fn encode_members(&self, fields: &mut Vec<Field>)
        ensures
            final(fields).deep_view() == self@.members_after(old(fields).deep_view()),
            self@.well_formed(),
        decreases self, 0nat,
    {
        broadcast use lemma_model;

        reveal(BasicEventElementView::layout);
        add_member(fields, "observed", self.observed.encode());
        add_member(fields, "direction", self.direction.encode());
        add_member(fields, "state", self.state.encode());
        add_member(fields, "messageTopic", encode_optional_text(&self.message_topic));
        add_member(fields, "messageBroker", Referable::encode_optional(&self.message_broker));
        add_member(fields, "lastUpdate", encode_optional_text(&self.last_update));
        add_member(fields, "minInterval", encode_optional_text(&self.min_interval));
        add_member(fields, "maxInterval", encode_optional_text(&self.max_interval));
        add_member(fields, "category", encode_optional_text(&self.category));
        add_member(fields, "idShort", encode_optional_text(&self.id_short));
        add_member(fields, "displayName", MultiLanguageNameType::encode_list(&self.display_name));
        add_member(fields, "description", MultiLanguageTextType::encode_list(&self.description));
        add_member(fields, "extensions", Extension::encode_list(&self.extensions));
        add_member(fields, "semanticId", Reference::encode_optional(&self.semantic_id));
        add_member(fields, "supplementalSemanticIds",
            Reference::encode_list(&self.supplemental_semantic_ids));
        add_member(fields, "qualifiers", Qualifier::encode_list(&self.qualifiers));
        add_member(fields, "embeddedDataSpecifications",
            Reference::encode_list(&self.data_specifications));
    }

    /// The value that `w` stands for.
    pub fn decode(w: &Wire) -> (r: Result<BasicEventElement, DecodeError>)
        ensures
            outcome(r) == BasicEventElementView::from_wire(w@),
        decreases w, 0nat,
    {
        match w.members() {
            Some(fields) => BasicEventElement::decode_members(fields),
            None => Err(DecodeError::new(DecodeFault::ExpectedRecord)),
        }
    }

    /// The value that the members `fields` of a record stand for.
    #[verifier::rlimit(50)]
    pub fn decode_members(fields: &Vec<Field>) -> (r: Result<BasicEventElement, DecodeError>)
        ensures
            outcome(r) == BasicEventElementView::from_members(fields.deep_view()),
        decreases fields, 0nat,
    {
        broadcast use lemma_model;

        reveal(BasicEventElementView::parse);
        let observed = match find(fields, "observed") {
            None => Err(DecodeError::at(DecodeFault::MissingField, "observed")),
            Some(x) => match Reference::decode(x) {
                Ok(v) => Ok(v),
                Err(e) => Err(e.under_field("observed")),
            },
        };
        let direction = match find(fields, "direction") {
            None => Err(DecodeError::at(DecodeFault::MissingField, "direction")),
            Some(x) => match Direction::decode(x) {
                Ok(v) => Ok(v),
                Err(e) => Err(e.under_field("direction")),
            },
        };
        let state = match find(fields, "state") {
            None => Err(DecodeError::at(DecodeFault::MissingField, "state")),
            Some(x) => match StateOfEvent::decode(x) {
                Ok(v) => Ok(v),
                Err(e) => Err(e.under_field("state")),
            },
        };
        let message_topic = match find_present(fields, "messageTopic") {
            None => Ok(None),
            Some(x) => match decode_text(x) {
                Ok(v) => Ok(Some(v)),
                Err(e) => Err(e.under_field("messageTopic")),
            },
        };
        let message_broker = match find_present(fields, "messageBroker") {
            None => Ok(None),
            Some(x) => match Referable::decode(x) {
                Ok(v) => Ok(Some(v)),
                Err(e) => Err(e.under_field("messageBroker")),
            },
        };
        let last_update = match find_present(fields, "lastUpdate") {
            None => Ok(None),
            Some(x) => match decode_text(x) {
                Ok(v) => Ok(Some(v)),
                Err(e) => Err(e.under_field("lastUpdate")),
            },
        };
        let min_interval = match find_present(fields, "minInterval") {
            None => Ok(None),
            Some(x) => match decode_text(x) {
                Ok(v) => Ok(Some(v)),
                Err(e) => Err(e.under_field("minInterval")),
            },
        };
        let max_interval = match find_present(fields, "maxInterval") {
            None => Ok(None),
            Some(x) => match decode_text(x) {
                Ok(v) => Ok(Some(v)),
                Err(e) => Err(e.under_field("maxInterval")),
            },
        };
        let category = match find_present(fields, "category") {
            None => Ok(None),
            Some(x) => match decode_text(x) {
                Ok(v) => Ok(Some(v)),
                Err(e) => Err(e.under_field("category")),
            },
        };
        let id_short = match find_present(fields, "idShort") {
            None => Ok(None),
            Some(x) => match decode_text(x) {
                Ok(v) => Ok(Some(v)),
                Err(e) => Err(e.under_field("idShort")),
            },
        };
        let display_name = match find(fields, "displayName") {
            None => Err(DecodeError::at(DecodeFault::MissingField, "displayName")),
            Some(x) => match MultiLanguageNameType::decode_list(x) {
                Ok(v) => Ok(v),
                Err(e) => Err(e.under_field("displayName")),
            },
        };
        let description = match find(fields, "description") {
            None => Err(DecodeError::at(DecodeFault::MissingField, "description")),
            Some(x) => match MultiLanguageTextType::decode_list(x) {
                Ok(v) => Ok(v),
                Err(e) => Err(e.under_field("description")),
            },
        };
        let extensions = match find(fields, "extensions") {
            None => Err(DecodeError::at(DecodeFault::MissingField, "extensions")),
            Some(x) => match Extension::decode_list(x) {
                Ok(v) => Ok(v),
                Err(e) => Err(e.under_field("extensions")),
            },
        };
        let semantic_id = match find_present(fields, "semanticId") {
            None => Ok(None),
            Some(x) => match Reference::decode(x) {
                Ok(v) => Ok(Some(v)),
                Err(e) => Err(e.under_field("semanticId")),
            },
        };
        let supplemental_semantic_ids = match find(fields, "supplementalSemanticIds") {
            None => Err(DecodeError::at(DecodeFault::MissingField, "supplementalSemanticIds")),
            Some(x) => match Reference::decode_list(x) {
                Ok(v) => Ok(v),
                Err(e) => Err(e.under_field("supplementalSemanticIds")),
            },
        };
        let qualifiers = match find(fields, "qualifiers") {
            None => Err(DecodeError::at(DecodeFault::MissingField, "qualifiers")),
            Some(x) => match Qualifier::decode_list(x) {
                Ok(v) => Ok(v),
                Err(e) => Err(e.under_field("qualifiers")),
            },
        };
        let data_specifications = match find(fields, "embeddedDataSpecifications") {
            None => Err(DecodeError::at(DecodeFault::MissingField, "embeddedDataSpecifications")),
            Some(x) => match Reference::decode_list(x) {
                Ok(v) => Ok(v),
                Err(e) => Err(e.under_field("embeddedDataSpecifications")),
            },
        };
        let observed = match observed {
            Ok(v) => v,
            Err(e) => {
                return Err(e);
            },
        };
        let direction = match direction {
            Ok(v) => v,
            Err(e) => {
                return Err(e);
            },
        };
        let state = match state {
            Ok(v) => v,
            Err(e) => {
                return Err(e);
            },
        };
        let message_topic = match message_topic {
            Ok(v) => v,
            Err(e) => {
                return Err(e);
            },
        };
        let message_broker = match message_broker {
            Ok(v) => v,
            Err(e) => {
                return Err(e);
            },
        };
        let last_update = match last_update {
            Ok(v) => v,
            Err(e) => {
                return Err(e);
            },
        };
        let min_interval = match min_interval {
            Ok(v) => v,
            Err(e) => {
                return Err(e);
            },
        };
        let max_interval = match max_interval {
            Ok(v) => v,
            Err(e) => {
                return Err(e);
            },
        };
        let category = match category {
            Ok(v) => v,
            Err(e) => {
                return Err(e);
            },
        };
        let id_short = match id_short {
            Ok(v) => v,
            Err(e) => {
                return Err(e);
            },
        };
        let display_name = match display_name {
            Ok(v) => v,
            Err(e) => {
                return Err(e);
            },
        };
        let description = match description {
            Ok(v) => v,
            Err(e) => {
                return Err(e);
            },
        };
        let extensions = match extensions {
            Ok(v) => v,
            Err(e) => {
                return Err(e);
            },
        };
        let semantic_id = match semantic_id {
            Ok(v) => v,
            Err(e) => {
                return Err(e);
            },
        };
        let supplemental_semantic_ids = match supplemental_semantic_ids {
            Ok(v) => v,
            Err(e) => {
                return Err(e);
            },
        };
        let qualifiers = match qualifiers {
            Ok(v) => v,
            Err(e) => {
                return Err(e);
            },
        };
        let data_specifications = match data_specifications {
            Ok(v) => v,
            Err(e) => {
                return Err(e);
            },
        };
        let r = BasicEventElement { observed, direction, state, message_topic, message_broker,
            last_update, min_interval, max_interval, category, id_short, display_name, description,
            extensions, semantic_id, supplemental_semantic_ids, qualifiers,
            data_specifications };
        assert(r@ =~= BasicEventElementView::from_members(fields.deep_view())->Ok_0);
        Ok(r)
    }
}

impl BasicEventElementView {
    /// Whether the value and everything below it keeps what a document must
    /// keep: no language twice in one collection of texts, no short ID twice
    /// among the elements of one container, no empty and no repeated ID.
    pub open spec fn consistent(self) -> bool
        decreases self, 0nat,
    {
        &&& (self.message_broker matches Some(v) ==> v.consistent())
        &&& distinct(MultiLanguageNameTypeView::languages(self.display_name))
        &&& distinct(MultiLanguageTextTypeView::languages(self.description))
    }
}

impl BasicEventElement {
    /// Whether the value and everything below it keeps what a document must
    /// keep.
    pub fn is_consistent(&self) -> (b: bool)
        ensures
            b == self@.consistent(),
        decreases self, 1nat,
    {
        broadcast use lemma_model;

        let message_broker_below = match &self.message_broker {
            Some(v) => v.is_consistent(),
            None => true,
        };
        let display_name_languages = MultiLanguageNameType::languages_distinct(&self.display_name);
        let description_languages = MultiLanguageTextType::languages_distinct(&self.description);
        message_broker_below && display_name_languages && description_languages
    }
}

} // verus!
