use phenopacket_tools::vcf_record::VcfRecordBuilder;

#[test]
fn vcf_builder_keeps_required_fields() {
    let vcf = VcfRecordBuilder::builder("GRCh37", "chr1", 123_456, "C", "G").build();
    assert_eq!("GRCh37", vcf.genome_assembly);
    assert_eq!("chr1", vcf.chrom);
    assert_eq!(123_456, vcf.pos);
    assert_eq!("C", vcf.ref_allele);
    assert_eq!("G", vcf.alt);
    assert_eq!("", vcf.filter);
    assert_eq!("", vcf.id);
}

#[test]
fn vcf_of_matches_builder() {
    let vcf = VcfRecordBuilder::of("GRCh38", "chr2", 7, "A", "T");
    assert_eq!("chr2", vcf.chrom);
    assert_eq!("", vcf.qual);
}

#[test]
fn vcf_optional_fields() {
    let vcf = VcfRecordBuilder::builder("GRCh38", "chr3", 1, "A", "T")
        .id("rs123")
        .qual("50")
        .info("DP=10")
        .build();
    assert_eq!("rs123", vcf.id);
    assert_eq!("50", vcf.qual);
    assert_eq!("DP=10", vcf.info);
}

#[test]
fn vcf_pass_filter() {
    let vcf = VcfRecordBuilder::builder("GRCh38", "chr3", 1, "A", "T").pass().build();
    assert_eq!("PASS", vcf.filter);
    let vcf = VcfRecordBuilder::builder("GRCh38", "chr3", 1, "A", "T").filter("q10").filter("pass").build();
    assert_eq!("PASS", vcf.filter);
}

#[test]
fn vcf_filters_are_joined() {
    let vcf = VcfRecordBuilder::builder("GRCh38", "chr3", 1, "A", "T").filter("q10").filter("s50").build();
    assert_eq!("q10;s50", vcf.filter);
    let vcf = VcfRecordBuilder::builder("GRCh38", "chr3", 1, "A", "T").pass().filter("q10").build();
    assert_eq!("q10", vcf.filter);
}

#[test]
fn vcf_filter_text_is_split_and_trimmed() {
    let vcf = VcfRecordBuilder::builder("GRCh38", "chr3", 1, "A", "T").filter(" q10 ; ;s50;").build();
    assert_eq!("q10;s50", vcf.filter);
    let vcf = VcfRecordBuilder::builder("GRCh38", "chr3", 1, "A", "T").filter("q10;PaSs;s50").build();
    assert_eq!("s50", vcf.filter);
    let vcf = VcfRecordBuilder::builder("GRCh38", "chr3", 1, "A", "T").filter("q10;Pass").build();
    assert_eq!("PASS", vcf.filter);
    let vcf = VcfRecordBuilder::builder("GRCh38", "chr3", 1, "A", "T").filter(";;").build();
    assert_eq!("", vcf.filter);
}

#[test]
fn builder_vcf_record_shortcut() {
    let vcf = phenopacket_tools::builders::Builder::vcf_record("GRCh38", "chr5", 99, "G", "GA");
    assert_eq!("chr5", vcf.chrom);
    assert_eq!(99, vcf.pos);
    assert_eq!("GA", vcf.alt);
    assert_eq!("", vcf.filter);
}
