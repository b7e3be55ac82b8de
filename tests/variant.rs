use vcfexpress::error::VcfExprError;
use vcfexpress::header::{Cardinality, HeaderSchema, TagDef, TagInfo, ValueType};
use vcfexpress::record::{FormatField, InfoField, TagValues, VariantRecord};
use vcfexpress::value::GuestValue;
use vcfexpress::variant::{Field, HeaderMap, Variant};

fn def(id: &str, value_type: ValueType, cardinality: Cardinality) -> TagDef {
    TagDef { id: id.to_string(), info: TagInfo { value_type, cardinality }, description: String::new() }
}

fn header() -> HeaderSchema {
    HeaderSchema {
        contigs: vec!["chr1".to_string()],
        info: vec![
            def("DP", ValueType::Integer, Cardinality::Fixed(1)),
            def("AF", ValueType::Float, Cardinality::PerAllele),
            def("DB", ValueType::Flag, Cardinality::Fixed(0)),
            def("ANN", ValueType::String, Cardinality::Variable),
        ],
        format: vec![
            def("GT", ValueType::String, Cardinality::Fixed(1)),
            def("AD", ValueType::Integer, Cardinality::PerAllele),
            def("GQ", ValueType::Integer, Cardinality::Fixed(1)),
        ],
        samples: vec!["NA12878".to_string(), "NA12879".to_string()],
    }
}

fn record() -> VariantRecord {
    VariantRecord {
        rid: Some(0),
        pos: 6,
        id: "rs1234".to_string(),
        alleles: vec!["A".to_string(), "AT".to_string()],
        qual: 0x41f0_0000,
        filters: vec!["PASS".to_string()],
        info: vec![
            InfoField { tag: "DP".to_string(), values: TagValues::Integer(vec![10]) },
            InfoField { tag: "AF".to_string(), values: TagValues::Float(vec![0.25f32.to_bits(), 0.5f32.to_bits()]) },
        ],
        format: vec![
            FormatField {
                tag: "GT".to_string(),
                samples: vec![TagValues::Integer(vec![2, 5]), TagValues::Integer(vec![4, 4])],
            },
            FormatField {
                tag: "AD".to_string(),
                samples: vec![TagValues::Integer(vec![3, 7]), TagValues::Integer(vec![0, 9])],
            },
            FormatField {
                tag: "GQ".to_string(),
                samples: vec![TagValues::Integer(vec![30]), TagValues::Integer(vec![])],
            },
        ],
    }
}

fn text(g: &GuestValue) -> String {
    match g {
        GuestValue::Text(s) => s.clone(),
        other => panic!("not text: {:?}", other),
    }
}

fn list(g: &GuestValue) -> &Vec<GuestValue> {
    match g {
        GuestValue::List(v) => v,
        other => panic!("not a list: {:?}", other),
    }
}

fn integer_of(g: &GuestValue) -> i64 {
    match g {
        GuestValue::Integer(i) => *i,
        other => panic!("not an integer: {:?}", other),
    }
}

fn table_get<'a>(g: &'a GuestValue, key: &str) -> &'a GuestValue {
    match g {
        GuestValue::Table(entries) => &entries.iter().find(|e| e.key == key).expect("key").value,
        other => panic!("not a table: {:?}", other),
    }
}

fn render(g: &GuestValue) -> String {
    match g {
        GuestValue::Nil => "nil".to_string(),
        GuestValue::Bool(b) => b.to_string(),
        GuestValue::Integer(i) => i.to_string(),
        GuestValue::Float(b) => f32::from_bits(*b).to_string(),
        GuestValue::Text(s) => s.clone(),
        GuestValue::List(v) => v.iter().map(render).collect::<Vec<_>>().join(","),
        GuestValue::Table(_) => "table".to_string(),
    }
}

#[test]
fn test_javascript_expressions() {
    let h = header();
    let mut variant = Variant::new(record(), &h, HeaderMap::new());
    assert_eq!(render(&variant.get("start").unwrap()), "6");
    assert_eq!(render(&variant.get("id").unwrap()), "rs1234");
    variant.set("id", GuestValue::Text("rsabc".to_string())).unwrap();
    assert_eq!(render(&variant.get("id").unwrap()), "rsabc");
    assert_eq!(render(&variant.get("REF").unwrap()), "A");
    variant.set("REF", GuestValue::Text("T".to_string())).unwrap();
    assert_eq!(render(&variant.get("REF").unwrap()), "T");
    variant
        .set("ALT", GuestValue::List(vec![GuestValue::Text("A".to_string()), GuestValue::Text("G".to_string())]))
        .unwrap();
    assert_eq!(render(&variant.get("REF").unwrap()), "T");
    let alt = variant.get("ALT").unwrap();
    assert_eq!(render(&list(&alt)[0]), "A");
    assert_eq!(render(&list(&alt)[1]), "G");
    assert_eq!(render(&variant.get("FILTER").unwrap()), "PASS");
    assert_eq!(render(&variant.info("DP", None).unwrap()), "10");
    let s = variant.sample("NA12878").unwrap();
    assert_eq!(render(&list(table_get(&s, "GT"))[0]), "0");
    assert_eq!(render(&list(table_get(&s, "GT"))[1]), "1");
    assert_eq!(render(&list(table_get(&s, "phase"))[1]), "true");
}

#[test]
fn sample_genotype_access() {
    let h = header();
    let mut variant = Variant::new(record(), &h, HeaderMap::new());
    let s = variant.sample("NA12878").unwrap();
    let gt: Vec<i64> = list(table_get(&s, "GT")).iter().map(integer_of).collect();
    assert_eq!(gt, vec![0, 1]);
    let phase: Vec<String> = list(table_get(&s, "phase")).iter().map(render).collect();
    assert_eq!(phase, vec!["false", "true"]);
    assert_eq!(render(table_get(&s, "AD")), "3,7");
    assert_eq!(render(table_get(&s, "GQ")), "30");
    let s2 = variant.sample("NA12879").unwrap();
    assert_eq!(render(table_get(&s2, "GQ")), "nil");
    assert!(matches!(variant.sample("NA00000"), Err(VcfExprError::UnknownSample(n)) if n == "NA00000"));
}

#[test]
fn sample_with_undeclared_format_tag_fails() {
    let h = header();
    let mut r = record();
    r.format.push(FormatField { tag: "XX".to_string(), samples: vec![TagValues::Integer(vec![1]), TagValues::Integer(vec![2])] });
    let mut variant = Variant::new(r, &h, HeaderMap::new());
    assert!(matches!(variant.sample("NA12878"), Err(VcfExprError::UnknownTag(t)) if t == "XX"));
}

#[test]
fn info_dispatch_by_declaration() {
    let h = header();
    let mut variant = Variant::new(record(), &h, HeaderMap::new());
    assert_eq!(integer_of(&variant.info("DP", None).unwrap()), 10);
    let af = variant.info("AF", None).unwrap();
    assert_eq!(list(&af).len(), 2);
    assert_eq!(render(&af), "0.25,0.5");
    assert_eq!(render(&variant.info("AF", Some(2)).unwrap()), "0.5");
    assert_eq!(render(&variant.info("AF", Some(1)).unwrap()), "0.25");
    assert_eq!(render(&variant.info("AF", Some(3)).unwrap()), "nil");
    assert_eq!(render(&variant.info("AF", Some(0)).unwrap()), "nil");
    assert_eq!(render(&variant.info("DB", None).unwrap()), "false");
    assert_eq!(render(&variant.info("ANN", None).unwrap()), "nil");
    assert!(matches!(variant.info("AFx", None), Err(VcfExprError::UnknownTag(t)) if t == "AFx"));
    assert_eq!(variant.info_type("AF").unwrap().value_type, ValueType::Float);
}

#[test]
fn info_flag_present() {
    let h = header();
    let mut r = record();
    r.set_info("DB", TagValues::Flag);
    let mut variant = Variant::new(r, &h, HeaderMap::new());
    assert_eq!(render(&variant.info("DB", None).unwrap()), "true");
}

#[test]
fn format_dispatch_by_declaration() {
    let h = header();
    let mut variant = Variant::new(record(), &h, HeaderMap::new());
    let gq = variant.format("GQ").unwrap();
    assert_eq!(list(&gq).len(), 2);
    assert_eq!(render(&list(&gq)[0]), "30");
    assert_eq!(render(&list(&gq)[1]), "nil");
    let ad = variant.format("AD").unwrap();
    assert_eq!(render(&list(&ad)[0]), "3,7");
    assert_eq!(render(&list(&ad)[1]), "0,9");
    assert!(matches!(variant.format("DP"), Err(VcfExprError::UnknownTag(_))));
}

#[test]
fn derived_and_read_only_fields() {
    let h = header();
    let mut variant = Variant::new(record(), &h, HeaderMap::new());
    assert_eq!(text(&variant.get("chrom").unwrap()), "chr1");
    assert_eq!(integer_of(&variant.get("stop").unwrap()), 7);
    assert_eq!(integer_of(&variant.get("end").unwrap()), 7);
    assert_eq!(render(&variant.get("qual").unwrap()), "30");
    assert!(matches!(variant.set("chrom", GuestValue::Text("chr2".to_string())), Err(VcfExprError::FieldNotFound(n)) if n == "chrom"));
    assert!(matches!(variant.get("chromosome"), Err(VcfExprError::FieldNotFound(n)) if n == "chromosome"));
    assert!(matches!(variant.set("pos", GuestValue::Text("x".to_string())), Err(VcfExprError::TypeMismatch(n)) if n == "pos"));
    variant.set("pos", GuestValue::Integer(99)).unwrap();
    assert_eq!(integer_of(&variant.get("pos").unwrap()), 99);
    assert_eq!(Field::from_name("end"), Some(Field::Stop));
    assert_eq!(Field::from_name("End"), None);
}

#[test]
fn chrom_unset_is_empty_and_alt_sentinel() {
    let h = header();
    let mut r = record();
    r.rid = None;
    r.alleles = vec!["A".to_string()];
    r.filters = vec![];
    let variant = Variant::new(r, &h, HeaderMap::new());
    assert_eq!(text(&variant.get("chrom").unwrap()), "");
    assert_eq!(render(&variant.get("ALT").unwrap()), ".");
    assert_eq!(render(&variant.get("FILTER").unwrap()), "nil");
    assert_eq!(list(&variant.get("filters").unwrap()).len(), 0);
}

#[test]
fn set_filters_and_alt_checks_types() {
    let h = header();
    let mut variant = Variant::new(record(), &h, HeaderMap::new());
    variant
        .set("filters", GuestValue::List(vec![GuestValue::Text("q10".to_string()), GuestValue::Text("lowdp".to_string())]))
        .unwrap();
    assert_eq!(render(&variant.get("filters").unwrap()), "q10,lowdp");
    assert_eq!(render(&variant.get("FILTER").unwrap()), "q10");
    let bad = GuestValue::List(vec![GuestValue::Text("C".to_string()), GuestValue::Integer(1)]);
    assert!(matches!(variant.set("ALT", bad), Err(VcfExprError::TypeMismatch(n)) if n == "ALT"));
    let rec = variant.take();
    assert_eq!(rec.alleles, vec!["A".to_string(), "AT".to_string()]);
}

#[test]
fn record_sample_subset_follows_indices() {
    let mut h = header();
    let keep = h.subset_samples(&vec!["NA12879".to_string()]).unwrap();
    let mut r = record();
    r.subset_samples(&keep);
    r.subset_samples(&vec![0, 5]);
    let mut variant = Variant::new(r, &h, HeaderMap::new());
    let ad = variant.format("AD").unwrap();
    assert_eq!(list(&ad).len(), 2);
    assert_eq!(render(&list(&ad)[0]), "0,9");
    assert_eq!(render(&list(&ad)[1]), "");
    let s = variant.sample("NA12879").unwrap();
    let gt: Vec<i64> = list(table_get(&s, "GT")).iter().map(integer_of).collect();
    assert_eq!(gt, vec![1, 1]);
}
