use vstd::prelude::*;
use vstd::string::StringExecFns;

use crate::builders::strings_view;
use crate::curie::{curie_check_outcome, curie_fault, ontology_class, OntologyClass, SuffixPolicy};
use crate::error::{Error, ErrorView};
use crate::time_elements::{
    temporal_outcome, time_element_from_str, utc_instant, TimeElement, TimeElementView, Timestamp,
};

verus! {

/// Whether a person is known to be alive.
#[derive(Clone, Copy, Debug, PartialEq, Eq, Structural)]
pub enum LifeStatus {
    UnknownStatus,
    Alive,
    Deceased,
}

/// Observed apparent sex.
#[derive(Clone, Copy, Debug, PartialEq, Eq, Structural)]
pub enum Sex {
    UnknownSex,
    Female,
    Male,
    OtherSex,
}

/// Chromosomal sex.
#[derive(Clone, Copy, Debug, PartialEq, Eq, Structural)]
pub enum KaryotypicSex {
    UnknownKaryotype,
    Xx,
    Xy,
    Xo,
    Xxy,
    Xxx,
    Xxyy,
    Xxxy,
    Xxxx,
    Xyy,
    OtherKaryotype,
}

pub open spec fn time_view(t: Option<TimeElement>) -> Option<TimeElementView> {
    match t {
        Some(e) => Some(e@),
        None => None,
    }
}

pub open spec fn class_view(c: Option<OntologyClass>) -> Option<(Seq<char>, Seq<char>)> {
    match c {
        Some(o) => Some(o@),
        None => None,
    }
}

/// Whether a person is alive, and for a deceased one when and of what.
#[derive(Clone, Debug)]
pub struct VitalStatus {
    pub status: LifeStatus,
    pub time_of_death: Option<TimeElement>,
    pub cause_of_death: Option<OntologyClass>,
    pub survival_time_in_days: u32,
}

pub ghost struct VitalStatusView {
    pub status: LifeStatus,
    pub time_of_death: Option<TimeElementView>,
    pub cause_of_death: Option<(Seq<char>, Seq<char>)>,
    pub survival_time_in_days: u32,
}

impl View for VitalStatus {
    type V = VitalStatusView;

    open spec fn view(&self) -> VitalStatusView {
        VitalStatusView {
            status: self.status,
            time_of_death: time_view(self.time_of_death),
            cause_of_death: class_view(self.cause_of_death),
            survival_time_in_days: self.survival_time_in_days,
        }
    }
}

/// Builds a `VitalStatus`; survival time not given counts as zero days.
pub struct VitalStatusBuilder {
    status: LifeStatus,
    time_of_death: Option<TimeElement>,
    cause_of_death: Option<OntologyClass>,
    survival_time_in_days: Option<i32>,
}

impl VitalStatusBuilder {
    /// The vital status that `build` gives from the fields set so far.
    pub closed spec fn spec_result(&self) -> VitalStatusView {
        VitalStatusView {
            status: self.status,
            time_of_death: time_view(self.time_of_death),
            cause_of_death: class_view(self.cause_of_death),
            survival_time_in_days: match self.survival_time_in_days {
                Some(d) => d as u32,
                None => 0,
            },
        }
    }

    pub fn new(status: LifeStatus) -> (r: Self)
        ensures
            r.spec_result() == (VitalStatusView {
                status,
                time_of_death: None,
                cause_of_death: None,
                survival_time_in_days: 0,
            }),
    {
        VitalStatusBuilder {
            status,
            time_of_death: None,
            cause_of_death: None,
            survival_time_in_days: None,
        }
    }

    pub fn alive() -> (r: Self)
        ensures
            r.spec_result() == (VitalStatusView {
                status: LifeStatus::Alive,
                time_of_death: None,
                cause_of_death: None,
                survival_time_in_days: 0,
            }),
    {
        Self::new(LifeStatus::Alive)
    }

    pub fn deceased() -> (r: Self)
        ensures
            r.spec_result() == (VitalStatusView {
                status: LifeStatus::Deceased,
                time_of_death: None,
                cause_of_death: None,
                survival_time_in_days: 0,
            }),
    {
        Self::new(LifeStatus::Deceased)
    }

    pub fn time_of_death(self, time: TimeElement) -> (r: Result<Self, Error>)
        ensures
            r matches Ok(b) && b.spec_result() == (VitalStatusView {
                time_of_death: Some(time@),
                ..self.spec_result()
            }),
    {
        let mut s = self;
        s.time_of_death = Some(time);
        Ok(s)
    }

    pub fn cause_of_death(self, cause: OntologyClass) -> (r: Result<Self, Error>)
        ensures
            r matches Ok(b) && b.spec_result() == (VitalStatusView {
                cause_of_death: Some(cause@),
                ..self.spec_result()
            }),
    {
        let mut s = self;
        s.cause_of_death = Some(cause);
        Ok(s)
    }

    /// Sets the cause of death from an id, validated as a CURIE, and a label.
    pub fn cause_of_death_str(self, id: &str, label: &str) -> (r: Result<Self, Error>)
        ensures
            match r {
                Ok(b) => curie_fault(SuffixPolicy::Alphanumeric, id@) is None && b.spec_result() == (
                VitalStatusView { cause_of_death: Some((id@, label@)), ..self.spec_result() }),
                Err(e) => curie_check_outcome(SuffixPolicy::Alphanumeric, id@) == Err::<
                    (),
                    ErrorView,
                >(e@),
            },
    {
        let cause = ontology_class(id, label)?;
        let mut s = self;
        s.cause_of_death = Some(cause);
        Ok(s)
    }

    pub fn survival_time_in_days(self, days: i32) -> (r: Self)
        ensures
            r.spec_result() == (VitalStatusView {
                survival_time_in_days: days as u32,
                ..self.spec_result()
            }),
    {
        let mut s = self;
        s.survival_time_in_days = Some(days);
        s
    }

    /// The vital status; a negative survival time is stored as its
    /// two's-complement bit pattern, as an unsigned count.
    pub fn build(self) -> (r: Result<VitalStatus, Error>)
        ensures
            r matches Ok(v) && v@ == self.spec_result(),
    {
        let days: u32 = match self.survival_time_in_days {
            Some(d) => d as u32,
            None => 0,
        };
        Ok(
            VitalStatus {
                status: self.status,
                time_of_death: self.time_of_death,
                cause_of_death: self.cause_of_death,
                survival_time_in_days: days,
            },
        )
    }
}

/// The subject of a record.
#[derive(Clone, Debug)]
pub struct Individual {
    pub id: String,
    pub alternate_ids: Vec<String>,
    pub date_of_birth: Option<Timestamp>,
    pub time_at_last_encounter: Option<TimeElement>,
    pub vital_status: Option<VitalStatus>,
    pub sex: Sex,
    pub karyotypic_sex: KaryotypicSex,
    pub gender: Option<OntologyClass>,
    pub taxonomy: Option<OntologyClass>,
}

pub ghost struct IndividualView {
    pub id: Seq<char>,
    pub alternate_ids: Seq<Seq<char>>,
    pub date_of_birth: Option<Timestamp>,
    pub time_at_last_encounter: Option<TimeElementView>,
    pub vital_status: Option<VitalStatusView>,
    pub sex: Sex,
    pub karyotypic_sex: KaryotypicSex,
    pub gender: Option<(Seq<char>, Seq<char>)>,
    pub taxonomy: Option<(Seq<char>, Seq<char>)>,
}

impl View for Individual {
    type V = IndividualView;

    open spec fn view(&self) -> IndividualView {
        IndividualView {
            id: self.id@,
            alternate_ids: strings_view(self.alternate_ids@),
            date_of_birth: self.date_of_birth,
            time_at_last_encounter: time_view(self.time_at_last_encounter),
            vital_status: match self.vital_status {
                Some(v) => Some(v@),
                None => None,
            },
            sex: self.sex,
            karyotypic_sex: self.karyotypic_sex,
            gender: class_view(self.gender),
            taxonomy: class_view(self.taxonomy),
        }
    }
}

/// Builds an `Individual` one field at a time.
pub struct IndividualBuilder {
    individual: Individual,
}

impl View for IndividualBuilder {
    type V = IndividualView;

    closed spec fn view(&self) -> IndividualView {
        self.individual@
    }
}

impl IndividualBuilder {
    /// An individual with an id only: no other ids, dates, status, gender
    /// or taxonomy, and unknown sex and karyotype.
    pub fn new(id: &str) -> (r: Self)
        ensures
            r@ == (IndividualView {
                id: id@,
                alternate_ids: Seq::empty(),
                date_of_birth: None,
                time_at_last_encounter: None,
                vital_status: None,
                sex: Sex::UnknownSex,
                karyotypic_sex: KaryotypicSex::UnknownKaryotype,
                gender: None,
                taxonomy: None,
            }),
    {
        let r = IndividualBuilder {
            individual: Individual {
                id: String::from_str(id),
                alternate_ids: Vec::new(),
                date_of_birth: None,
                time_at_last_encounter: None,
                vital_status: None,
                sex: Sex::UnknownSex,
                karyotypic_sex: KaryotypicSex::UnknownKaryotype,
                gender: None,
                taxonomy: None,
            },
        };
        assert(strings_view(r.individual.alternate_ids@) =~= Seq::<Seq<char>>::empty());
        r
    }

    pub fn add_alternate_id(self, alt_id: &str) -> (r: Self)
        ensures
            r@ == (IndividualView {
                alternate_ids: self@.alternate_ids.push(alt_id@),
                ..self@
            }),
    {
        let mut s = self;
        let ghost before = s.individual.alternate_ids@;
        s.individual.alternate_ids.push(String::from_str(alt_id));
        assert(strings_view(s.individual.alternate_ids@) =~= strings_view(before).push(alt_id@));
        s
    }

    pub fn add_all_alternate_ids(self, alt_id_list: &Vec<String>) -> (r: Self)
        ensures
            r@ == (IndividualView {
                alternate_ids: self@.alternate_ids + strings_view(alt_id_list@),
                ..self@
            }),
    {
        let mut s = self;
        let ghost start = self@;
        let mut i: usize = 0;
        while i < alt_id_list.len()
            invariant
                0 <= i <= alt_id_list@.len(),
                s@ == (IndividualView {
                    alternate_ids: start.alternate_ids + strings_view(alt_id_list@).take(i as int),
                    ..start
                }),
            decreases alt_id_list@.len() - i,
        {
            let ghost before = s.individual.alternate_ids@;
            s.individual.alternate_ids.push(alt_id_list[i].clone());
            assert(strings_view(s.individual.alternate_ids@) =~= strings_view(before).push(
                alt_id_list@[i as int]@,
            ));
            i = i + 1;
            assert(start.alternate_ids + strings_view(alt_id_list@).take(i as int) =~= (
            start.alternate_ids + strings_view(alt_id_list@).take(i as int - 1)).push(
                alt_id_list@[i - 1]@,
            ));
        }
        assert(strings_view(alt_id_list@).take(i as int) =~= strings_view(alt_id_list@));
        s
    }

    /// Sets the date of birth, an instant (usually midnight UTC of the day).
    pub fn date_of_birth(self, date: Timestamp) -> (r: Self)
        ensures
            r@ == (IndividualView { date_of_birth: Some(date), ..self@ }),
    {
        let mut s = self;
        s.individual.date_of_birth = Some(date);
        s
    }

    /// Sets the time at last encounter from a temporal expression, read by
    /// the temporal parser; its error is handed back unchanged.
    pub fn timestamp_at_last_encounter(self, timestamp_str: &str) -> (r: Result<Self, Error>)
        ensures
            match (r, temporal_outcome(timestamp_str@, utc_instant(timestamp_str@))) {
                (Ok(b), Ok(t)) => b@ == (IndividualView {
                    time_at_last_encounter: Some(t),
                    ..self@
                }),
                (Err(e), Err(v)) => e@ == v,
                _ => false,
            },
    {
        let ts = time_element_from_str(timestamp_str);
        match ts {
            Ok(t) => {
                let mut s = self;
                s.individual.time_at_last_encounter = Some(t);
                Ok(s)
            },
            Err(e) => Err(e),
        }
    }

    pub fn age_at_last_encounter(self, time_element: TimeElement) -> (r: Self)
        ensures
            r@ == (IndividualView { time_at_last_encounter: Some(time_element@), ..self@ }),
    {
        let mut s = self;
        s.individual.time_at_last_encounter = Some(time_element);
        s
    }

    /// Marks the individual as alive.
    pub fn alive(self) -> (r: Result<Self, Error>)
        ensures
            r matches Ok(b) && b@ == (IndividualView {
                vital_status: Some(
                    VitalStatusView {
                        status: LifeStatus::Alive,
                        time_of_death: None,
                        cause_of_death: None,
                        survival_time_in_days: 0,
                    },
                ),
                ..self@
            }),
    {
        let vstatus = VitalStatusBuilder::alive().build()?;
        let mut s = self;
        s.individual.vital_status = Some(vstatus);
        Ok(s)
    }

    /// Marks the individual as deceased.
    pub fn deceased(self) -> (r: Result<Self, Error>)
        ensures
            r matches Ok(b) && b@ == (IndividualView {
                vital_status: Some(
                    VitalStatusView {
                        status: LifeStatus::Deceased,
                        time_of_death: None,
                        cause_of_death: None,
                        survival_time_in_days: 0,
                    },
                ),
                ..self@
            }),
    {
        let vstatus = VitalStatusBuilder::deceased().build()?;
        let mut s = self;
        s.individual.vital_status = Some(vstatus);
        Ok(s)
    }

    pub fn vital_status(self, vital_status: VitalStatus) -> (r: Self)
        ensures
            r@ == (IndividualView { vital_status: Some(vital_status@), ..self@ }),
    {
        let mut s = self;
        s.individual.vital_status = Some(vital_status);
        s
    }

    fn with_sex(self, sex: Sex) -> (r: Self)
        ensures
            r@ == (IndividualView { sex, ..self@ }),
    {
        let mut s = self;
        s.individual.sex = sex;
        s
    }

    pub fn male(self) -> (r: Self)
        ensures
            r@ == (IndividualView { sex: Sex::Male, ..self@ }),
    {
        self.with_sex(Sex::Male)
    }

    pub fn female(self) -> (r: Self)
        ensures
            r@ == (IndividualView { sex: Sex::Female, ..self@ }),
    {
        self.with_sex(Sex::Female)
    }

    pub fn unknown_sex(self) -> (r: Self)
        ensures
            r@ == (IndividualView { sex: Sex::UnknownSex, ..self@ }),
    {
        self.with_sex(Sex::UnknownSex)
    }

    pub fn other_sex(self) -> (r: Self)
        ensures
            r@ == (IndividualView { sex: Sex::OtherSex, ..self@ }),
    {
        self.with_sex(Sex::OtherSex)
    }

    /// Sets the taxonomy to Homo sapiens (`NCBITaxon:9606`), validated as
    /// a CURIE.
    pub fn homo_sapiens(self) -> (r: Result<Self, Error>)
        ensures
            match r {
                Ok(b) => b@ == (IndividualView {
                    taxonomy: Some(("NCBITaxon:9606"@, "Homo sapiens"@)),
                    ..self@
                }),
                Err(e) => curie_check_outcome(SuffixPolicy::Alphanumeric, "NCBITaxon:9606"@)
                    == Err::<(), ErrorView>(e@),
            },
    {
        let clz = ontology_class("NCBITaxon:9606", "Homo sapiens")?;
        let mut s = self;
        s.individual.taxonomy = Some(clz);
        Ok(s)
    }

    /// The individual with the fields set so far.
    pub fn build(self) -> (r: Result<Individual, Error>)
        ensures
            r matches Ok(i) && i@ == self@,
    {
        Ok(self.individual)
    }

    fn with_karyotype(self, k: KaryotypicSex) -> (r: Self)
        ensures
            r@ == (IndividualView { karyotypic_sex: k, ..self@ }),
    {
        let mut s = self;
        s.individual.karyotypic_sex = k;
        s
    }

    #[allow(non_snake_case)]
    pub fn XX(self) -> (r: Self)
        ensures
            r@ == (IndividualView { karyotypic_sex: KaryotypicSex::Xx, ..self@ }),
    {
        self.with_karyotype(KaryotypicSex::Xx)
    }

    #[allow(non_snake_case)]
    pub fn XY(self) -> (r: Self)
        ensures
            r@ == (IndividualView { karyotypic_sex: KaryotypicSex::Xy, ..self@ }),
    {
        self.with_karyotype(KaryotypicSex::Xy)
    }

    #[allow(non_snake_case)]
    pub fn XO(self) -> (r: Self)
        ensures
            r@ == (IndividualView { karyotypic_sex: KaryotypicSex::Xo, ..self@ }),
    {
        self.with_karyotype(KaryotypicSex::Xo)
    }

    #[allow(non_snake_case)]
    pub fn XXY(self) -> (r: Self)
        ensures
            r@ == (IndividualView { karyotypic_sex: KaryotypicSex::Xxy, ..self@ }),
    {
        self.with_karyotype(KaryotypicSex::Xxy)
    }

    #[allow(non_snake_case)]
    pub fn XXX(self) -> (r: Self)
        ensures
            r@ == (IndividualView { karyotypic_sex: KaryotypicSex::Xxx, ..self@ }),
    {
        self.with_karyotype(KaryotypicSex::Xxx)
    }

    #[allow(non_snake_case)]
    pub fn XXYY(self) -> (r: Self)
        ensures
            r@ == (IndividualView { karyotypic_sex: KaryotypicSex::Xxyy, ..self@ }),
    {
        self.with_karyotype(KaryotypicSex::Xxyy)
    }

    #[allow(non_snake_case)]
    pub fn XXXY(self) -> (r: Self)
        ensures
            r@ == (IndividualView { karyotypic_sex: KaryotypicSex::Xxxy, ..self@ }),
    {
        self.with_karyotype(KaryotypicSex::Xxxy)
    }

    #[allow(non_snake_case)]
    pub fn XXXX(self) -> (r: Self)
        ensures
            r@ == (IndividualView { karyotypic_sex: KaryotypicSex::Xxxx, ..self@ }),
    {
        self.with_karyotype(KaryotypicSex::Xxxx)
    }
}

} // verus!
