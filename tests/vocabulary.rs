use phenopacket_tools::onset::get_onset_by_label;
use phenopacket_tools::resources::{Expressions, Resources, DEFAULT_CHEBI_VERSION, DEFAULT_UCUM_VERSION};
use phenopacket_tools::vocabulary::{bilateral, left, right, unilateral, AllelicState, Unit};

#[test]
fn onset_lookup_by_label() {
    let clz = get_onset_by_label("Late onset").unwrap();
    assert_eq!(clz.id, "HP:0003584");
    assert_eq!(clz.label, "Late onset");
    assert!(get_onset_by_label("Late").is_none());
    assert!(get_onset_by_label("").is_none());
}

#[test]
fn allelic_states() {
    assert_eq!(AllelicState::heterozygous().id, "GENO:0000135");
    assert_eq!(AllelicState::homozygous().id, "GENO:0000136");
    assert_eq!(AllelicState::hemizygous().id, "GENO:0000134");
    let u = AllelicState::unspecified_zygosity();
    assert_eq!((u.id.as_str(), u.label.as_str()), ("GENO:0000137", "unspecified zygosity"));
}

#[test]
fn lateralities() {
    assert_eq!(right().id, "HP:0012834");
    assert_eq!(left().label, "Left");
    assert_eq!(unilateral().id, "HP:0012833");
    assert_eq!(bilateral().id, "HP:0012832");
}

#[test]
fn units() {
    let u = Unit::mm_hg();
    assert_eq!(u.id, "UCUM:mm[Hg]");
    assert_eq!(u.label, "millimetres of mercury");
    assert_eq!(Unit::degree().label, "degree (plane angle)");
    assert_eq!(Unit::enzyme_unit_per_liter().id, "UCUM:U.L-1");
}

#[test]
fn test_ctor() {
    let chebi = Resources::chebi_version(DEFAULT_CHEBI_VERSION);
    assert_eq!(chebi.id, "chebi");
    assert_eq!(chebi.name, "Chemical Entities of Biological Interest");
    assert_eq!(chebi.namespace_prefix, "CHEBI");
    assert_eq!(chebi.iri_prefix, "https://purl.obolibrary.org/obo/CHEBI_");
    assert_eq!(chebi.url, "https://www.ebi.ac.uk/chebi");
    assert_eq!(chebi.version, "241");
    let hp = Resources::hpo_version("v2025-03-03");
    assert_eq!(hp.id, "hp");
    assert_eq!(hp.namespace_prefix, "HP");
    assert_eq!(hp.iri_prefix, "http://purl.obolibrary.org/obo/HP_");
    assert_eq!(hp.version, "v2025-03-03");
    let ucum = Resources::ucum();
    assert_eq!(ucum.id, "ucum");
    assert_eq!(ucum.name, "Unified Code for Units of Measure");
    assert_eq!(ucum.version, DEFAULT_UCUM_VERSION);
}

#[test]
fn expressions() {
    let e = Expressions::hgvs_cdna("NM_004006.1:c.3>T");
    assert_eq!(e.syntax, "hgvs.c");
    assert_eq!(e.value, "NM_004006.1:c.3>T");
    assert_eq!(e.version, "");
    assert_eq!(Expressions::hgvs_genomic("x").syntax, "hgvs.g");
    assert_eq!(Expressions::transcript_reference("NM_000321.2").syntax, "transcript_reference");
}
