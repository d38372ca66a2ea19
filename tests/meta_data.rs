use phenopacket_tools::builders::ExternalReferenceBuilder;
use phenopacket_tools::error::Error;
use phenopacket_tools::meta_data::{MetaDataBuilder, Update};
use phenopacket_tools::resources::Resources;
use phenopacket_tools::time_elements::Timestamp;

#[test]
fn test_create_metadata() {
    let created = "2019-07-21T00:25:54.662Z";
    let created_by = "Earnest B. Biocurator";
    let phenopacket_schema_version = "2.0.2";
    let hpo = Resources::hpo_version("v2025-03-03");
    let geno = Resources::geno_version("2023-10-08");
    let ext_res = ExternalReferenceBuilder::new()
        .id("PMID:30808312")
        .description("Bao M, et al. COL6A1 mutation leading to Bethlem myopathy with recurrent hematuria: a case report. BMC Neurol. 2019;19(1):32.")
        .build();
    let mdata = MetaDataBuilder::builder_from_iso8601(created, created_by)
        .unwrap()
        .add_resource(hpo)
        .add_resource(geno)
        .add_external_reference(ext_res)
        .build();
    assert_eq!(created_by, mdata.created_by);
    assert_eq!(phenopacket_schema_version, mdata.phenopacket_schema_version);
    assert_eq!(2, mdata.resources.len());
    assert_eq!(mdata.created, Some(Timestamp { seconds: 1563668754, nanos: 662_000_000 }));
}

#[test]
fn metadata_from_bad_time_is_refused() {
    let r = MetaDataBuilder::builder_from_iso8601("July 2019", "someone");
    assert!(matches!(r, Err(Error::InvalidTimestamp(s)) if s == "July 2019"));
}

#[test]
fn metadata_other_fields() {
    let update = Update {
        timestamp: Some(Timestamp { seconds: 10, nanos: 0 }),
        updated_by: "curator".to_string(),
        comment: "fixed onset".to_string(),
    };
    let mdata = MetaDataBuilder::from_created(Timestamp { seconds: 5, nanos: 0 }, "a")
        .submitted_by("b")
        .add_update(update)
        .add_external_reference_by_id("PMID:1", "paper")
        .build();
    assert_eq!(mdata.submitted_by, "b");
    assert_eq!(mdata.updates[0].comment, "fixed onset");
    assert_eq!(mdata.external_references[0].id, "PMID:1");
    assert_eq!(mdata.external_references[0].reference, "");
    assert!(mdata.resources.is_empty());
}
