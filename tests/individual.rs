use phenopacket_tools::error::{Error, ErrorKind};
use phenopacket_tools::individual::{
    IndividualBuilder, KaryotypicSex, LifeStatus, Sex, VitalStatusBuilder,
};
use phenopacket_tools::time_elements::{TimeElement, Timestamp};

#[test]
fn individual_defaults() {
    let ind = IndividualBuilder::new("proband A").build().unwrap();
    assert_eq!(ind.id, "proband A");
    assert!(ind.alternate_ids.is_empty());
    assert_eq!(ind.sex, Sex::UnknownSex);
    assert_eq!(ind.karyotypic_sex, KaryotypicSex::UnknownKaryotype);
    assert!(ind.vital_status.is_none());
    assert!(ind.taxonomy.is_none());
}

#[test]
fn individual_fields_are_set() {
    let ind = IndividualBuilder::new("p1")
        .male()
        .XY()
        .add_alternate_id("alt:1")
        .add_all_alternate_ids(&vec!["alt:2".to_string(), "alt:3".to_string()])
        .date_of_birth(Timestamp { seconds: 86_400, nanos: 0 })
        .homo_sapiens()
        .unwrap()
        .alive()
        .unwrap()
        .build()
        .unwrap();
    assert_eq!(ind.sex, Sex::Male);
    assert_eq!(ind.karyotypic_sex, KaryotypicSex::Xy);
    assert_eq!(ind.alternate_ids, vec!["alt:1", "alt:2", "alt:3"]);
    assert_eq!(ind.date_of_birth, Some(Timestamp { seconds: 86_400, nanos: 0 }));
    let tax = ind.taxonomy.unwrap();
    assert_eq!(tax.id, "NCBITaxon:9606");
    assert_eq!(tax.label, "Homo sapiens");
    assert_eq!(ind.vital_status.unwrap().status, LifeStatus::Alive);
}

#[test]
fn individual_last_encounter_goes_through_the_parser() {
    let ind = IndividualBuilder::new("p").timestamp_at_last_encounter("P2Y").unwrap().build().unwrap();
    assert!(matches!(ind.time_at_last_encounter, Some(TimeElement::Age(a)) if a == "P2Y"));
    let r = IndividualBuilder::new("p").timestamp_at_last_encounter("two years");
    assert!(matches!(r, Err(Error::UnrecognizedTemporalExpression(s)) if s == "two years"));
    let ind = IndividualBuilder::new("p").female().XXXX().deceased().unwrap().build().unwrap();
    assert_eq!(ind.vital_status.unwrap().status, LifeStatus::Deceased);
    assert_eq!(ind.karyotypic_sex, KaryotypicSex::Xxxx);
}

#[test]
fn vital_status_builder() {
    let vs = VitalStatusBuilder::alive().build().unwrap();
    assert_eq!(vs.status, LifeStatus::Alive);
    assert_eq!(vs.survival_time_in_days, 0);
    let death = phenopacket_tools::time_elements::time_element_from_str("P72Y").unwrap();
    let vs = VitalStatusBuilder::deceased()
        .time_of_death(death)
        .unwrap()
        .cause_of_death_str("MONDO:0005148", "type 2 diabetes mellitus")
        .unwrap()
        .survival_time_in_days(30)
        .build()
        .unwrap();
    assert_eq!(vs.status, LifeStatus::Deceased);
    assert!(matches!(vs.time_of_death, Some(TimeElement::Age(a)) if a == "P72Y"));
    assert_eq!(vs.cause_of_death.unwrap().id, "MONDO:0005148");
    assert_eq!(vs.survival_time_in_days, 30);
    let r = VitalStatusBuilder::deceased().cause_of_death_str("MONDO0005148", "x");
    assert_eq!(r.err().map(|e| e.kind()), Some(ErrorKind::MissingSeparator));
}
