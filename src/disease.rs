use vstd::prelude::*;
use vstd::string::StringExecFns;

use crate::curie::OntologyClass;
use crate::individual::{class_view, time_view};
use crate::time_elements::{TimeElement, TimeElementView};

verus! {

/// A disease diagnosed in (or excluded for) the subject.
#[derive(Clone, Debug)]
pub struct Disease {
    pub term: OntologyClass,
    pub excluded: bool,
    pub onset: Option<TimeElement>,
    pub resolution: Option<TimeElement>,
    pub disease_stage: Vec<OntologyClass>,
    pub clinical_tnm_finding: Vec<OntologyClass>,
    pub primary_site: Option<OntologyClass>,
    pub laterality: Option<OntologyClass>,
}

pub ghost struct DiseaseView {
    pub term: (Seq<char>, Seq<char>),
    pub excluded: bool,
    pub onset: Option<TimeElementView>,
    pub resolution: Option<TimeElementView>,
    pub disease_stage: Seq<(Seq<char>, Seq<char>)>,
    pub clinical_tnm_finding: Seq<(Seq<char>, Seq<char>)>,
    pub primary_site: Option<(Seq<char>, Seq<char>)>,
    pub laterality: Option<(Seq<char>, Seq<char>)>,
}

pub open spec fn classes_view(v: Seq<OntologyClass>) -> Seq<(Seq<char>, Seq<char>)> {
    v.map_values(|c: OntologyClass| c@)
}

impl View for Disease {
    type V = DiseaseView;

    open spec fn view(&self) -> DiseaseView {
        DiseaseView {
            term: self.term@,
            excluded: self.excluded,
            onset: time_view(self.onset),
            resolution: time_view(self.resolution),
            disease_stage: classes_view(self.disease_stage@),
            clinical_tnm_finding: classes_view(self.clinical_tnm_finding@),
            primary_site: class_view(self.primary_site),
            laterality: class_view(self.laterality),
        }
    }
}

/// A disease with only its term set.
pub open spec fn bare_disease(term: (Seq<char>, Seq<char>)) -> DiseaseView {
    DiseaseView {
        term,
        excluded: false,
        onset: None,
        resolution: None,
        disease_stage: Seq::empty(),
        clinical_tnm_finding: Seq::empty(),
        primary_site: None,
        laterality: None,
    }
}

/// Builds a `Disease` one field at a time.
pub struct DiseaseBuilder {
    disease: Disease,
}

impl View for DiseaseBuilder {
    type V = DiseaseView;

    closed spec fn view(&self) -> DiseaseView {
        self.disease@
    }
}

impl DiseaseBuilder {
    /// A disease with only its term set.
    pub fn of_term(term: OntologyClass) -> (r: Disease)
        ensures
            r@ == bare_disease(term@),
    {
        let r = Disease {
            term,
            excluded: false,
            onset: None,
            resolution: None,
            disease_stage: Vec::new(),
            clinical_tnm_finding: Vec::new(),
            primary_site: None,
            laterality: None,
        };
        assert(classes_view(r.disease_stage@) =~= Seq::<(Seq<char>, Seq<char>)>::empty());
        assert(classes_view(r.clinical_tnm_finding@) =~= Seq::<(Seq<char>, Seq<char>)>::empty());
        r
    }

    /// A disease with only its term, given as id and label, set.
    pub fn of(id: &str, label: &str) -> (r: Disease)
        ensures
            r@ == bare_disease((id@, label@)),
    {
        Self::of_term(OntologyClass { id: String::from_str(id), label: String::from_str(label) })
    }

    pub fn builder(id: &str, label: &str) -> (r: Self)
        ensures
            r@ == bare_disease((id@, label@)),
    {
        DiseaseBuilder { disease: Self::of(id, label) }
    }

    pub fn excluded(self) -> (r: Self)
        ensures
            r@ == (DiseaseView { excluded: true, ..self@ }),
    {
        let mut s = self;
        s.disease.excluded = true;
        s
    }

    pub fn onset(self, onset: TimeElement) -> (r: Self)
        ensures
            r@ == (DiseaseView { onset: Some(onset@), ..self@ }),
    {
        let mut s = self;
        s.disease.onset = Some(onset);
        s
    }

    pub fn resolution(self, resolution: TimeElement) -> (r: Self)
        ensures
            r@ == (DiseaseView { resolution: Some(resolution@), ..self@ }),
    {
        let mut s = self;
        s.disease.resolution = Some(resolution);
        s
    }

    pub fn add_disease_stage(self, stage: OntologyClass) -> (r: Self)
        ensures
            r@ == (DiseaseView { disease_stage: self@.disease_stage.push(stage@), ..self@ }),
    {
        let mut s = self;
        let ghost before = s.disease.disease_stage@;
        s.disease.disease_stage.push(stage);
        assert(classes_view(s.disease.disease_stage@) =~= classes_view(before).push(stage@));
        s
    }

    pub fn add_clinical_tnm_finding(self, tnm_finding: OntologyClass) -> (r: Self)
        ensures
            r@ == (DiseaseView {
                clinical_tnm_finding: self@.clinical_tnm_finding.push(tnm_finding@),
                ..self@
            }),
    {
        let mut s = self;
        let ghost before = s.disease.clinical_tnm_finding@;
        s.disease.clinical_tnm_finding.push(tnm_finding);
        assert(classes_view(s.disease.clinical_tnm_finding@) =~= classes_view(before).push(
            tnm_finding@,
        ));
        s
    }

    pub fn primary_site(self, site: OntologyClass) -> (r: Self)
        ensures
            r@ == (DiseaseView { primary_site: Some(site@), ..self@ }),
    {
        let mut s = self;
        s.disease.primary_site = Some(site);
        s
    }

    pub fn laterality(self, laterality: OntologyClass) -> (r: Self)
        ensures
            r@ == (DiseaseView { laterality: Some(laterality@), ..self@ }),
    {
        let mut s = self;
        s.disease.laterality = Some(laterality);
        s
    }

    /// The disease with the fields set so far.
    pub fn build(self) -> (r: Disease)
        ensures
            r@ == self@,
    {
        self.disease
    }
}

} // verus!
