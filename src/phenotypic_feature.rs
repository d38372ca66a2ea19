use vstd::prelude::*;
use vstd::string::StringExecFns;

use crate::builders::ExternalReference;
use crate::curie::OntologyClass;
use crate::disease::classes_view;
use crate::individual::{class_view, time_view};
use crate::time_elements::{TimeElement, TimeElementView};

verus! {

/// What supports an observation: a kind of evidence and the source.
#[derive(Clone, Debug)]
pub struct Evidence {
    pub evidence_code: Option<OntologyClass>,
    pub reference: Option<ExternalReference>,
}

pub ghost struct EvidenceView {
    pub evidence_code: Option<(Seq<char>, Seq<char>)>,
    pub reference: Option<(Seq<char>, Seq<char>, Seq<char>)>,
}

impl View for Evidence {
    type V = EvidenceView;

    open spec fn view(&self) -> EvidenceView {
        EvidenceView {
            evidence_code: class_view(self.evidence_code),
            reference: match self.reference {
                Some(r) => Some(r@),
                None => None,
            },
        }
    }
}

pub open spec fn evidence_view(v: Seq<Evidence>) -> Seq<EvidenceView> {
    v.map_values(|e: Evidence| e@)
}

/// A phenotypic feature observed in (or excluded for) the subject.
#[derive(Clone, Debug)]
pub struct PhenotypicFeature {
    pub description: String,
    pub feature_type: OntologyClass,
    pub excluded: bool,
    pub severity: Option<OntologyClass>,
    pub modifiers: Vec<OntologyClass>,
    pub onset: Option<TimeElement>,
    pub resolution: Option<TimeElement>,
    pub evidence: Vec<Evidence>,
}

pub ghost struct PhenotypicFeatureView {
    pub description: Seq<char>,
    pub feature_type: (Seq<char>, Seq<char>),
    pub excluded: bool,
    pub severity: Option<(Seq<char>, Seq<char>)>,
    pub modifiers: Seq<(Seq<char>, Seq<char>)>,
    pub onset: Option<TimeElementView>,
    pub resolution: Option<TimeElementView>,
    pub evidence: Seq<EvidenceView>,
}

impl View for PhenotypicFeature {
    type V = PhenotypicFeatureView;

    open spec fn view(&self) -> PhenotypicFeatureView {
        PhenotypicFeatureView {
            description: self.description@,
            feature_type: self.feature_type@,
            excluded: self.excluded,
            severity: class_view(self.severity),
            modifiers: classes_view(self.modifiers@),
            onset: time_view(self.onset),
            resolution: time_view(self.resolution),
            evidence: evidence_view(self.evidence@),
        }
    }
}

/// An observed feature of type `t` with nothing else set.
pub open spec fn bare_feature(t: (Seq<char>, Seq<char>)) -> PhenotypicFeatureView {
    PhenotypicFeatureView {
        description: Seq::empty(),
        feature_type: t,
        excluded: false,
        severity: None,
        modifiers: Seq::empty(),
        onset: None,
        resolution: None,
        evidence: Seq::empty(),
    }
}

fn class_of(id: &str, label: &str) -> (r: OntologyClass)
    ensures
        r@ == (id@, label@),
{
    OntologyClass { id: String::from_str(id), label: String::from_str(label) }
}

/// Builds a `PhenotypicFeature` one field at a time.
pub struct PhenotypicFeatureBuilder {
    feature: PhenotypicFeature,
}

impl View for PhenotypicFeatureBuilder {
    type V = PhenotypicFeatureView;

    closed spec fn view(&self) -> PhenotypicFeatureView {
        self.feature@
    }
}

impl PhenotypicFeatureBuilder {
    pub fn new(feature: OntologyClass) -> (r: Self)
        ensures
            r@ == bare_feature(feature@),
    {
        PhenotypicFeatureBuilder { feature: Self::of(feature) }
    }

    /// An observed feature with nothing but its type set.
    pub fn of(feature: OntologyClass) -> (r: PhenotypicFeature)
        ensures
            r@ == bare_feature(feature@),
    {
        let r = PhenotypicFeature {
            description: String::new(),
            feature_type: feature,
            excluded: false,
            severity: None,
            modifiers: Vec::new(),
            onset: None,
            resolution: None,
            evidence: Vec::new(),
        };
        assert(classes_view(r.modifiers@) =~= Seq::<(Seq<char>, Seq<char>)>::empty());
        assert(evidence_view(r.evidence@) =~= Seq::<EvidenceView>::empty());
        r
    }

    pub fn of_id_label(id: &str, label: &str) -> (r: PhenotypicFeature)
        ensures
            r@ == bare_feature((id@, label@)),
    {
        Self::of(class_of(id, label))
    }

    pub fn builder(feature: OntologyClass) -> (r: Self)
        ensures
            r@ == bare_feature(feature@),
    {
        Self::new(feature)
    }

    pub fn builder_id_label(id: &str, label: &str) -> (r: Self)
        ensures
            r@ == bare_feature((id@, label@)),
    {
        Self::new(class_of(id, label))
    }

    pub fn onset(self, time: TimeElement) -> (r: Self)
        ensures
            r@ == (PhenotypicFeatureView { onset: Some(time@), ..self@ }),
    {
        let mut s = self;
        s.feature.onset = Some(time);
        s
    }

    pub fn resolution(self, time: TimeElement) -> (r: Self)
        ensures
            r@ == (PhenotypicFeatureView { resolution: Some(time@), ..self@ }),
    {
        let mut s = self;
        s.feature.resolution = Some(time);
        s
    }

    pub fn severity(self, severity: OntologyClass) -> (r: Self)
        ensures
            r@ == (PhenotypicFeatureView { severity: Some(severity@), ..self@ }),
    {
        let mut s = self;
        s.feature.severity = Some(severity);
        s
    }

    pub fn severity_id_label(self, id: &str, label: &str) -> (r: Self)
        ensures
            r@ == (PhenotypicFeatureView { severity: Some((id@, label@)), ..self@ }),
    {
        self.severity(class_of(id, label))
    }

    pub fn excluded(self) -> (r: Self)
        ensures
            r@ == (PhenotypicFeatureView { excluded: true, ..self@ }),
    {
        let mut s = self;
        s.feature.excluded = true;
        s
    }

    pub fn add_evidence(self, evidence: Evidence) -> (r: Self)
        ensures
            r@ == (PhenotypicFeatureView { evidence: self@.evidence.push(evidence@), ..self@ }),
    {
        let mut s = self;
        let ghost before = s.feature.evidence@;
        s.feature.evidence.push(evidence);
        assert(evidence_view(s.feature.evidence@) =~= evidence_view(before).push(evidence@));
        s
    }

    pub fn add_all_evidence(self, evidence_list: Vec<Evidence>) -> (r: Self)
        ensures
            r@ == (PhenotypicFeatureView {
                evidence: self@.evidence + evidence_view(evidence_list@),
                ..self@
            }),
    {
        let mut s = self;
        let mut more = evidence_list;
        let ghost before = s.feature.evidence@;
        s.feature.evidence.append(&mut more);
        assert(evidence_view(s.feature.evidence@) =~= evidence_view(before) + evidence_view(
            evidence_list@,
        ));
        s
    }

    pub fn add_modifier(self, modifier: OntologyClass) -> (r: Self)
        ensures
            r@ == (PhenotypicFeatureView { modifiers: self@.modifiers.push(modifier@), ..self@ }),
    {
        let mut s = self;
        let ghost before = s.feature.modifiers@;
        s.feature.modifiers.push(modifier);
        assert(classes_view(s.feature.modifiers@) =~= classes_view(before).push(modifier@));
        s
    }

    pub fn add_all_modifiers(self, modifiers: Vec<OntologyClass>) -> (r: Self)
        ensures
            r@ == (PhenotypicFeatureView {
                modifiers: self@.modifiers + classes_view(modifiers@),
                ..self@
            }),
    {
        let mut s = self;
        let mut more = modifiers;
        let ghost before = s.feature.modifiers@;
        s.feature.modifiers.append(&mut more);
        assert(classes_view(s.feature.modifiers@) =~= classes_view(before) + classes_view(
            modifiers@,
        ));
        s
    }

    pub fn description(self, text: &str) -> (r: Self)
        ensures
            r@ == (PhenotypicFeatureView { description: text@, ..self@ }),
    {
        let mut s = self;
        s.feature.description = String::from_str(text);
        s
    }

    /// The feature with the fields set so far.
    pub fn build(self) -> (r: PhenotypicFeature)
        ensures
            r@ == self@,
    {
        self.feature
    }
}

} // verus!
