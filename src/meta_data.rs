use vstd::prelude::*;
use vstd::string::StringExecFns;

use crate::builders::{ExternalReference, ExternalReferenceBuilder};
use crate::error::{ErrorKind, Error, ErrorView};
use crate::resources::Resource;
use crate::time_elements::{timestamp_from_iso8601, utc_instant, Timestamp};

verus! {

/// The version of the record schema that `MetaDataBuilder` declares.
pub const SCHEMA_VERSION: &'static str = "2.0.2";

/// A change made to a record after it was created.
#[derive(Clone, Debug)]
pub struct Update {
    pub timestamp: Option<Timestamp>,
    pub updated_by: String,
    pub comment: String,
}

impl View for Update {
    /// `(timestamp, updated_by, comment)`
    type V = (Option<Timestamp>, Seq<char>, Seq<char>);

    open spec fn view(&self) -> Self::V {
        (self.timestamp, self.updated_by@, self.comment@)
    }
}

/// Who made a record and when, and the resources its terms come from.
#[derive(Clone, Debug)]
pub struct MetaData {
    pub created: Option<Timestamp>,
    pub created_by: String,
    pub submitted_by: String,
    pub resources: Vec<Resource>,
    pub updates: Vec<Update>,
    pub phenopacket_schema_version: String,
    pub external_references: Vec<ExternalReference>,
}

pub ghost struct MetaDataView {
    pub created: Option<Timestamp>,
    pub created_by: Seq<char>,
    pub submitted_by: Seq<char>,
    pub resources: Seq<<Resource as View>::V>,
    pub updates: Seq<<Update as View>::V>,
    pub phenopacket_schema_version: Seq<char>,
    pub external_references: Seq<<ExternalReference as View>::V>,
}

pub open spec fn resources_view(v: Seq<Resource>) -> Seq<<Resource as View>::V> {
    v.map_values(|r: Resource| r@)
}

pub open spec fn updates_view(v: Seq<Update>) -> Seq<<Update as View>::V> {
    v.map_values(|u: Update| u@)
}

pub open spec fn references_view(v: Seq<ExternalReference>) -> Seq<<ExternalReference as View>::V> {
    v.map_values(|r: ExternalReference| r@)
}

impl View for MetaData {
    type V = MetaDataView;

    open spec fn view(&self) -> MetaDataView {
        MetaDataView {
            created: self.created,
            created_by: self.created_by@,
            submitted_by: self.submitted_by@,
            resources: resources_view(self.resources@),
            updates: updates_view(self.updates@),
            phenopacket_schema_version: self.phenopacket_schema_version@,
            external_references: references_view(self.external_references@),
        }
    }
}

/// Metadata created at `created` by `created_by`, with nothing else set
/// but the schema version.
pub open spec fn fresh_meta_data(created: Timestamp, created_by: Seq<char>) -> MetaDataView {
    MetaDataView {
        created: Some(created),
        created_by,
        submitted_by: Seq::empty(),
        resources: Seq::empty(),
        updates: Seq::empty(),
        phenopacket_schema_version: SCHEMA_VERSION@,
        external_references: Seq::empty(),
    }
}

/// Builds `MetaData` one field at a time.
pub struct MetaDataBuilder {
    meta_data: MetaData,
}

impl View for MetaDataBuilder {
    type V = MetaDataView;

    closed spec fn view(&self) -> MetaDataView {
        self.meta_data@
    }
}

impl MetaDataBuilder {
    /// A builder for metadata created at `created` by `created_by`.
    pub fn from_created(created: Timestamp, created_by: &str) -> (r: Self)
        ensures
            r@ == fresh_meta_data(created, created_by@),
    {
        let r = MetaDataBuilder {
            meta_data: MetaData {
                created: Some(created),
                created_by: String::from_str(created_by),
                submitted_by: String::new(),
                resources: Vec::new(),
                updates: Vec::new(),
                phenopacket_schema_version: String::from_str(SCHEMA_VERSION),
                external_references: Vec::new(),
            },
        };
        assert(resources_view(r.meta_data.resources@) =~= Seq::<<Resource as View>::V>::empty());
        assert(updates_view(r.meta_data.updates@) =~= Seq::<<Update as View>::V>::empty());
        assert(references_view(r.meta_data.external_references@) =~= Seq::<
            <ExternalReference as View>::V,
        >::empty());
        r
    }

    /// A builder for metadata created at the instant that the RFC-3339 text
    /// `created_iso` names; `InvalidTimestamp` where it names none.
    pub fn builder_from_iso8601(created_iso: &str, created_by: &str) -> (r: Result<Self, Error>)
        ensures
            match utc_instant(created_iso@) {
                Some((secs, nanos)) => r matches Ok(b) && b@ == fresh_meta_data(
                    Timestamp { seconds: secs, nanos },
                    created_by@,
                ),
                None => r matches Err(e) && e@ == ErrorView::Text(
                    ErrorKind::InvalidTimestamp,
                    created_iso@,
                ),
            },
    {
        let created = timestamp_from_iso8601(created_iso)?;
        Ok(Self::from_created(created, created_by))
    }

    pub fn submitted_by(self, submitter: &str) -> (r: Self)
        ensures
            r@ == (MetaDataView { submitted_by: submitter@, ..self@ }),
    {
        let mut s = self;
        s.meta_data.submitted_by = String::from_str(submitter);
        s
    }

    pub fn add_resource(self, resource: Resource) -> (r: Self)
        ensures
            r@ == (MetaDataView { resources: self@.resources.push(resource@), ..self@ }),
    {
        let mut s = self;
        let ghost before = s.meta_data.resources@;
        s.meta_data.resources.push(resource);
        assert(resources_view(s.meta_data.resources@) =~= resources_view(before).push(resource@));
        s
    }

    pub fn add_update(self, update: Update) -> (r: Self)
        ensures
            r@ == (MetaDataView { updates: self@.updates.push(update@), ..self@ }),
    {
        let mut s = self;
        let ghost before = s.meta_data.updates@;
        s.meta_data.updates.push(update);
        assert(updates_view(s.meta_data.updates@) =~= updates_view(before).push(update@));
        s
    }

    pub fn add_external_reference(self, reference: ExternalReference) -> (r: Self)
        ensures
            r@ == (MetaDataView {
                external_references: self@.external_references.push(reference@),
                ..self@
            }),
    {
        let mut s = self;
        let ghost before = s.meta_data.external_references@;
        s.meta_data.external_references.push(reference);
        assert(references_view(s.meta_data.external_references@) =~= references_view(before).push(
            reference@,
        ));
        s
    }

    /// Adds a reference with an id and a description, and no link.
    pub fn add_external_reference_by_id(self, id: &str, description: &str) -> (r: Self)
        ensures
            r@ == (MetaDataView {
                external_references: self@.external_references.push(
                    (id@, Seq::<char>::empty(), description@),
                ),
                ..self@
            }),
    {
        self.add_external_reference(ExternalReferenceBuilder::of(id, description))
    }

    /// The metadata with the fields set so far.
    pub fn build(self) -> (r: MetaData)
        ensures
            r@ == self@,
    {
        self.meta_data
    }
}

} // verus!
