use phenopacket_tools::gene_descriptor::GeneDescriptorBuilder;

#[test]
fn test_simple_gene_descriptor() {
    let value_id = "HGNC:3477";
    let symbol = "ETF1";
    let g_d = GeneDescriptorBuilder::of(value_id, symbol);
    assert_eq!(value_id, g_d.value_id);
    assert_eq!(symbol, g_d.symbol);
    assert_eq!(0, g_d.alternate_ids.len());
    assert_eq!(String::default(), g_d.description);
}

#[test]
fn gene_descriptor_builder_sets_fields() {
    let g = GeneDescriptorBuilder::builder("HGNC:2211", "COL6A1")
        .description("collagen type VI alpha 1 chain")
        .add_alternate_id("ensembl:ENSG00000142156")
        .add_all_alternate_ids(vec!["ncbigene:1291".to_string()])
        .add_xref("omim:120220")
        .add_all_xrefs(vec!["x1".to_string(), "x2".to_string()])
        .add_alternate_symbol("OPLL")
        .add_all_alternate_symbols(vec!["BTHLM1".to_string()])
        .build();
    assert_eq!(g.description, "collagen type VI alpha 1 chain");
    assert_eq!(g.alternate_ids, vec!["ensembl:ENSG00000142156", "ncbigene:1291"]);
    assert_eq!(g.xrefs, vec!["omim:120220", "x1", "x2"]);
    assert_eq!(g.alternate_symbols, vec!["OPLL", "BTHLM1"]);
}
