use vstd::prelude::*;
use crate::structs::reference::{Reference, ReferenceView};

verus! {

/// The payload that is sent when an event is raised.
#[derive(Debug, PartialEq)]
pub struct EventPayload {
    /// The reference to the source event element.
    source: Reference,
    /// The semantic ID of the source event element.
    source_semantic_id: Option<Reference>,
    /// The reference to the referable which defines the scope of the event.
    observable_reference: Reference,
    /// The semantic ID of the referable which defines the scope of the event.
    observable_semantic_id: Option<Reference>,
    /// The information for the outer message infrastructure to schedule the event for the
    /// respective communication channel.
    topic: Option<String>,
    /// The subject who or which initiated the creation.
    subject_id: Option<Reference>,
    /// The timestamp in UTC when the event was triggered.
    time_stamp: String,
    /// The event-specific payload.
    payload: Vec<u8>,
}

/// The mathematical form of an [`EventPayload`].
#[verifier::ext_equal]
pub struct EventPayloadView {
    pub source: ReferenceView,
    pub source_semantic_id: Option<ReferenceView>,
    pub observable_reference: ReferenceView,
    pub observable_semantic_id: Option<ReferenceView>,
    pub topic: Option<Seq<char>>,
    pub subject_id: Option<ReferenceView>,
    pub time_stamp: Seq<char>,
    pub payload: Seq<u8>,
}

impl View for EventPayload {
    type V = EventPayloadView;

    closed spec fn view(&self) -> EventPayloadView {
        EventPayloadView {
            source: self.source@,
            source_semantic_id: self.source_semantic_id.deep_view(),
            observable_reference: self.observable_reference@,
            observable_semantic_id: self.observable_semantic_id.deep_view(),
            topic: self.topic.deep_view(),
            subject_id: self.subject_id.deep_view(),
            time_stamp: self.time_stamp@,
            payload: self.payload@,
        }
    }
}

impl DeepView for EventPayload {
    type V = EventPayloadView;

    open spec fn deep_view(&self) -> EventPayloadView {
        self@
    }
}

impl Clone for EventPayload {
    fn clone(&self) -> (r: EventPayload)
        ensures
            r@ == self@,
    {
        EventPayload {
            source: self.source.clone(),
            source_semantic_id: match &self.source_semantic_id {
                Some(v) => Some(v.clone()),
                None => None,
            },
            observable_reference: self.observable_reference.clone(),
            observable_semantic_id: match &self.observable_semantic_id {
                Some(v) => Some(v.clone()),
                None => None,
            },
            topic: self.topic.clone(),
            subject_id: match &self.subject_id {
                Some(v) => Some(v.clone()),
                None => None,
            },
            time_stamp: self.time_stamp.clone(),
            payload: self.payload.clone(),
        }
    }
}

impl EventPayload {
    /// Creates an event payload from what it must have; everything else is
    /// absent or empty.
    pub fn new(source: Reference, observable_reference: Reference, time_stamp: String)
        -> (r: EventPayload)
        ensures
            r@ == (EventPayloadView {
                source: source@,
                source_semantic_id: None,
                observable_reference: observable_reference@,
                observable_semantic_id: None,
                topic: None,
                subject_id: None,
                time_stamp: time_stamp@,
                payload: Seq::empty(),
            }),
    {
        EventPayload {
            source,
            source_semantic_id: None,
            observable_reference,
            observable_semantic_id: None,
            topic: None,
            subject_id: None,
            time_stamp,
            payload: Vec::new(),
        }
    }

    /// Sets the reference to the source event element.
    pub fn set_source(&mut self, source: Reference)
        ensures
            final(self)@ == (EventPayloadView { source: source@, ..old(self)@ }),
    {
        self.source = source;
    }

    /// Returns the reference to the source event element.
    pub fn get_source(&self) -> (r: &Reference)
        ensures
            r@ == self@.source,
    {
        &self.source
    }

    /// Sets the semantic ID of the source event element.
    pub fn set_source_semantic_id(&mut self, source_semantic_id: Reference)
        ensures
            final(self)@ ==
                (EventPayloadView { source_semantic_id: Some(source_semantic_id@), ..old(self)@ }),
    {
        self.source_semantic_id = Some(source_semantic_id);
    }

    /// Returns the semantic ID of the source event element, if there is one.
    pub fn get_source_semantic_id(&self) -> (r: Option<&Reference>)
        ensures
            r.deep_view() == self@.source_semantic_id,
    {
        self.source_semantic_id.as_ref()
    }

    /// Sets the reference to the referable which defines the scope of the event.
    pub fn set_observable_reference(&mut self, observable_reference: Reference)
        ensures
            final(self)@ ==
                (EventPayloadView { observable_reference: observable_reference@, ..old(self)@ }),
    {
        self.observable_reference = observable_reference;
    }

    /// Returns the reference to the referable which defines the scope of the event.
    pub fn get_observable_reference(&self) -> (r: &Reference)
        ensures
            r@ == self@.observable_reference,
    {
        &self.observable_reference
    }

    /// Sets the semantic ID of the referable which defines the scope of the event.
    pub fn set_observable_semantic_id(&mut self, observable_semantic_id: Reference)
        ensures
            final(self)@ ==
                (EventPayloadView { observable_semantic_id: Some(observable_semantic_id@),
                ..old(self)@ }),
    {
        self.observable_semantic_id = Some(observable_semantic_id);
    }

    /// Returns the semantic ID of the referable which defines the scope of the event, if there is
    /// one.
    pub fn get_observable_semantic_id(&self) -> (r: Option<&Reference>)
        ensures
            r.deep_view() == self@.observable_semantic_id,
    {
        self.observable_semantic_id.as_ref()
    }

    /// Sets the information for the outer message infrastructure to schedule the event for the
    /// respective communication channel.
    pub fn set_topic(&mut self, topic: String)
        ensures
            final(self)@ == (EventPayloadView { topic: Some(topic@), ..old(self)@ }),
    {
        self.topic = Some(topic);
    }

    /// Returns the information for the outer message infrastructure to schedule the event for the
    /// respective communication channel, if there is one.
    pub fn get_topic(&self) -> (r: Option<&String>)
        ensures
            r.deep_view() == self@.topic,
    {
        self.topic.as_ref()
    }

    /// Sets the subject who or which initiated the creation.
    pub fn set_subject_id(&mut self, subject_id: Reference)
        ensures
            final(self)@ == (EventPayloadView { subject_id: Some(subject_id@), ..old(self)@ }),
    {
        self.subject_id = Some(subject_id);
    }

    /// Returns the subject who or which initiated the creation, if there is one.
    pub fn get_subject_id(&self) -> (r: Option<&Reference>)
        ensures
            r.deep_view() == self@.subject_id,
    {
        self.subject_id.as_ref()
    }

    /// Sets the timestamp in UTC when the event was triggered.
    pub fn set_time_stamp(&mut self, time_stamp: String)
        ensures
            final(self)@ == (EventPayloadView { time_stamp: time_stamp@, ..old(self)@ }),
    {
        self.time_stamp = time_stamp;
    }

    /// Returns the timestamp in UTC when the event was triggered.
    pub fn get_time_stamp(&self) -> (r: &String)
        ensures
            r@ == self@.time_stamp,
    {
        &self.time_stamp
    }

    /// Sets the event-specific payload.
    pub fn set_payload(&mut self, payload: Vec<u8>)
        ensures
            final(self)@ == (EventPayloadView { payload: payload@, ..old(self)@ }),
    {
        self.payload = payload;
    }

    /// Returns the event-specific payload.
    pub fn get_payload(&self) -> (r: &Vec<u8>)
        ensures
            r@ == self@.payload,
    {
        &self.payload
    }
}

} // verus!
