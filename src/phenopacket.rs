use vstd::prelude::*;
use vstd::string::StringExecFns;

use crate::curie::{curie_check_outcome, curie_fault, ontology_class, SuffixPolicy};
use crate::disease::{Disease, DiseaseView};
use crate::error::{Error, ErrorView};
use crate::individual::{Individual, IndividualView};
use crate::interpretation::Interpretation;
use crate::meta_data::{MetaData, MetaDataView};
use crate::phenotypic_feature::{
    bare_feature, PhenotypicFeature, PhenotypicFeatureBuilder, PhenotypicFeatureView,
};

verus! {

// Measurements, biosamples, medical actions and files of the phenopacket
// schema are carried through unchanged; nothing here looks inside them.
#[verifier::external_type_specification]
#[verifier::external_body]
pub struct ExMeasurement(phenopackets::schema::v2::core::Measurement);

#[verifier::external_type_specification]
#[verifier::external_body]
pub struct ExBiosample(phenopackets::schema::v2::core::Biosample);

#[verifier::external_type_specification]
#[verifier::external_body]
pub struct ExMedicalAction(phenopackets::schema::v2::core::MedicalAction);

#[verifier::external_type_specification]
#[verifier::external_body]
pub struct ExFile(phenopackets::schema::v2::core::File);

/// A case report: the subject, what was observed, what was concluded,
/// and how the record came about.
pub struct Phenopacket {
    pub id: String,
    pub subject: Option<Individual>,
    pub phenotypic_features: Vec<PhenotypicFeature>,
    pub measurements: Vec<phenopackets::schema::v2::core::Measurement>,
    pub biosamples: Vec<phenopackets::schema::v2::core::Biosample>,
    pub interpretations: Vec<Interpretation>,
    pub diseases: Vec<Disease>,
    pub medical_actions: Vec<phenopackets::schema::v2::core::MedicalAction>,
    pub files: Vec<phenopackets::schema::v2::core::File>,
    pub meta_data: MetaData,
}

pub ghost struct PhenopacketView {
    pub id: Seq<char>,
    pub subject: Option<IndividualView>,
    pub phenotypic_features: Seq<PhenotypicFeatureView>,
    pub measurements: Seq<phenopackets::schema::v2::core::Measurement>,
    pub biosamples: Seq<phenopackets::schema::v2::core::Biosample>,
    pub interpretations: Seq<Interpretation>,
    pub diseases: Seq<DiseaseView>,
    pub medical_actions: Seq<phenopackets::schema::v2::core::MedicalAction>,
    pub files: Seq<phenopackets::schema::v2::core::File>,
    pub meta_data: MetaDataView,
}

pub open spec fn features_view(v: Seq<PhenotypicFeature>) -> Seq<PhenotypicFeatureView> {
    v.map_values(|f: PhenotypicFeature| f@)
}

pub open spec fn diseases_view(v: Seq<Disease>) -> Seq<DiseaseView> {
    v.map_values(|d: Disease| d@)
}

impl View for Phenopacket {
    type V = PhenopacketView;

    open spec fn view(&self) -> PhenopacketView {
        PhenopacketView {
            id: self.id@,
            subject: match self.subject {
                Some(s) => Some(s@),
                None => None,
            },
            phenotypic_features: features_view(self.phenotypic_features@),
            measurements: self.measurements@,
            biosamples: self.biosamples@,
            interpretations: self.interpretations@,
            diseases: diseases_view(self.diseases@),
            medical_actions: self.medical_actions@,
            files: self.files@,
            meta_data: self.meta_data@,
        }
    }
}

/// A case report with an id and metadata and nothing else.
pub open spec fn bare_phenopacket(id: Seq<char>, meta_data: MetaDataView) -> PhenopacketView {
    PhenopacketView {
        id,
        subject: None,
        phenotypic_features: Seq::empty(),
        measurements: Seq::empty(),
        biosamples: Seq::empty(),
        interpretations: Seq::empty(),
        diseases: Seq::empty(),
        medical_actions: Seq::empty(),
        files: Seq::empty(),
        meta_data,
    }
}

/// Builds a `Phenopacket` one part at a time.
pub struct PhenopacketBuilder {
    packet: Phenopacket,
}

impl View for PhenopacketBuilder {
    type V = PhenopacketView;

    closed spec fn view(&self) -> PhenopacketView {
        self.packet@
    }
}

impl PhenopacketBuilder {
    pub fn builder(id: &str, metadata: MetaData) -> (r: Self)
        ensures
            r@ == bare_phenopacket(id@, metadata@),
    {
        let r = PhenopacketBuilder {
            packet: Phenopacket {
                id: String::from_str(id),
                subject: None,
                phenotypic_features: Vec::new(),
                measurements: Vec::new(),
                biosamples: Vec::new(),
                interpretations: Vec::new(),
                diseases: Vec::new(),
                medical_actions: Vec::new(),
                files: Vec::new(),
                meta_data: metadata,
            },
        };
        assert(features_view(r.packet.phenotypic_features@) =~= Seq::<
            PhenotypicFeatureView,
        >::empty());
        assert(diseases_view(r.packet.diseases@) =~= Seq::<DiseaseView>::empty());
        r
    }

    pub fn individual(self, subject: Individual) -> (r: Self)
        ensures
            r@ == (PhenopacketView { subject: Some(subject@), ..self@ }),
    {
        let mut s = self;
        s.packet.subject = Some(subject);
        s
    }

    /// Adds an observed feature whose term id is validated as a CURIE.
    pub fn add_phenotypic_feature_from_str(self, term_id: &str, term_label: &str) -> (r: Result<
        Self,
        Error,
    >)
        ensures
            match r {
                Ok(b) => curie_fault(SuffixPolicy::Alphanumeric, term_id@) is None && b@ == (
                PhenopacketView {
                    phenotypic_features: self@.phenotypic_features.push(
                        bare_feature((term_id@, term_label@)),
                    ),
                    ..self@
                }),
                Err(e) => curie_check_outcome(SuffixPolicy::Alphanumeric, term_id@) == Err::<
                    (),
                    ErrorView,
                >(e@),
            },
    {
        let clz = ontology_class(term_id, term_label)?;
        let pf = PhenotypicFeatureBuilder::of(clz);
        Ok(self.add_phenotypic_feature(pf))
    }

    pub fn add_phenotypic_feature(self, feature: PhenotypicFeature) -> (r: Self)
        ensures
            r@ == (PhenopacketView {
                phenotypic_features: self@.phenotypic_features.push(feature@),
                ..self@
            }),
    {
        let mut s = self;
        let ghost before = s.packet.phenotypic_features@;
        s.packet.phenotypic_features.push(feature);
        assert(features_view(s.packet.phenotypic_features@) =~= features_view(before).push(
            feature@,
        ));
        s
    }

    pub fn add_phenotypic_features(self, features: Vec<PhenotypicFeature>) -> (r: Self)
        ensures
            r@ == (PhenopacketView {
                phenotypic_features: self@.phenotypic_features + features_view(features@),
                ..self@
            }),
    {
        let mut s = self;
        let mut more = features;
        let ghost before = s.packet.phenotypic_features@;
        let ghost added = more@;
        s.packet.phenotypic_features.append(&mut more);
        assert(features_view(s.packet.phenotypic_features@) =~= features_view(before)
            + features_view(added));
        s
    }

    pub fn add_measurement(self, measurement: phenopackets::schema::v2::core::Measurement) -> (r:
        Self)
        ensures
            r@ == (PhenopacketView {
                measurements: self@.measurements.push(measurement),
                ..self@
            }),
    {
        let mut s = self;
        s.packet.measurements.push(measurement);
        s
    }

    pub fn add_measurements(
        self,
        measurements: Vec<phenopackets::schema::v2::core::Measurement>,
    ) -> (r: Self)
        ensures
            r@ == (PhenopacketView {
                measurements: self@.measurements + measurements@,
                ..self@
            }),
    {
        let mut s = self;
        let mut more = measurements;
        s.packet.measurements.append(&mut more);
        s
    }

    pub fn add_biosample(self, sample: phenopackets::schema::v2::core::Biosample) -> (r: Self)
        ensures
            r@ == (PhenopacketView { biosamples: self@.biosamples.push(sample), ..self@ }),
    {
        let mut s = self;
        s.packet.biosamples.push(sample);
        s
    }

    pub fn add_biosamples(self, samples: Vec<phenopackets::schema::v2::core::Biosample>) -> (r:
        Self)
        ensures
            r@ == (PhenopacketView { biosamples: self@.biosamples + samples@, ..self@ }),
    {
        let mut s = self;
        let mut more = samples;
        s.packet.biosamples.append(&mut more);
        s
    }

    pub fn add_interpretation(self, interpretation: Interpretation) -> (r: Self)
        ensures
            r@ == (PhenopacketView {
                interpretations: self@.interpretations.push(interpretation),
                ..self@
            }),
    {
        let mut s = self;
        s.packet.interpretations.push(interpretation);
        s
    }

    pub fn add_disease(self, disease: Disease) -> (r: Self)
        ensures
            r@ == (PhenopacketView { diseases: self@.diseases.push(disease@), ..self@ }),
    {
        let mut s = self;
        let ghost before = s.packet.diseases@;
        s.packet.diseases.push(disease);
        assert(diseases_view(s.packet.diseases@) =~= diseases_view(before).push(disease@));
        s
    }

    pub fn add_diseases(self, diseases: Vec<Disease>) -> (r: Self)
        ensures
            r@ == (PhenopacketView {
                diseases: self@.diseases + diseases_view(diseases@),
                ..self@
            }),
    {
        let mut s = self;
        let mut more = diseases;
        let ghost before = s.packet.diseases@;
        let ghost added = more@;
        s.packet.diseases.append(&mut more);
        assert(diseases_view(s.packet.diseases@) =~= diseases_view(before) + diseases_view(added));
        s
    }

    pub fn add_medical_action(self, action: phenopackets::schema::v2::core::MedicalAction) -> (r:
        Self)
        ensures
            r@ == (PhenopacketView {
                medical_actions: self@.medical_actions.push(action),
                ..self@
            }),
    {
        let mut s = self;
        s.packet.medical_actions.push(action);
        s
    }

    pub fn add_medical_actions(
        self,
        actions: Vec<phenopackets::schema::v2::core::MedicalAction>,
    ) -> (r: Self)
        ensures
            r@ == (PhenopacketView {
                medical_actions: self@.medical_actions + actions@,
                ..self@
            }),
    {
        let mut s = self;
        let mut more = actions;
        s.packet.medical_actions.append(&mut more);
        s
    }

    pub fn add_file(self, file: phenopackets::schema::v2::core::File) -> (r: Self)
        ensures
            r@ == (PhenopacketView { files: self@.files.push(file), ..self@ }),
    {
        let mut s = self;
        s.packet.files.push(file);
        s
    }

    /// The case report with the parts added so far.
    pub fn build(self) -> (r: Phenopacket)
        ensures
            r@ == self@,
    {
        self.packet
    }
}

} // verus!
