use vcfexpress::commands::reads_stdin;
use vcfexpress::error::{ConfigIssue, VcfExprError};
use vcfexpress::header::{HeaderSchema, TagKind};
use vcfexpress::record::{InfoField, TagValues, VariantRecord};
use vcfexpress::sink::{get_vcf_format, select_sink, OutputSink, StringOrVariant, VcfFormat};
use vcfexpress::value::GuestValue;
use vcfexpress::variant::{HeaderMap, Variant};
use vcfexpress::vcfexpress::{
    load_info_expressions, process_template, write_back, Action, Event, InfoFormatValue, Outcome,
    PendingUpdate, Stage, VCFExpress,
};

fn table(pairs: &[(&str, &str)]) -> Vec<(String, String)> {
    pairs.iter().map(|(k, v)| (k.to_string(), v.to_string())).collect()
}

fn header() -> HeaderSchema {
    let mut h = HeaderSchema {
        contigs: vec!["chr1".to_string()],
        info: vec![],
        format: vec![],
        samples: vec!["NA12878".to_string(), "NA12879".to_string()],
    };
    h.add_info(&table(&[("ID", "DP"), ("Number", "1"), ("Type", "Integer"), ("Description", "Total Depth")])).unwrap();
    h.add_info(&table(&[("ID", "AF"), ("Number", "A"), ("Type", "Float"), ("Description", "freq")])).unwrap();
    h.add_info(&table(&[("ID", "AFx"), ("Number", "A"), ("Type", "Float"), ("Description", "freq x")])).unwrap();
    h.add_info(&table(&[("ID", "AFmax"), ("Number", "1"), ("Type", "Float"), ("Description", "max")])).unwrap();
    h.add_info(&table(&[("ID", "HIT"), ("Number", "0"), ("Type", "Flag"), ("Description", "hit")])).unwrap();
    h.add_info(&table(&[("ID", "NOTE"), ("Number", "1"), ("Type", "String"), ("Description", "note")])).unwrap();
    h.add_format(&table(&[("ID", "GT"), ("Number", "1"), ("Type", "String"), ("Description", "Genotype")])).unwrap();
    h
}

fn record() -> VariantRecord {
    VariantRecord {
        rid: Some(0),
        pos: 6,
        id: "rs1234".to_string(),
        alleles: vec!["A".to_string(), "AT".to_string()],
        qual: 0,
        filters: vec!["PASS".to_string()],
        info: vec![
            InfoField { tag: "DP".to_string(), values: TagValues::Integer(vec![10]) },
            InfoField { tag: "AF".to_string(), values: TagValues::Float(vec![0.25f32.to_bits()]) },
            InfoField { tag: "AFx".to_string(), values: TagValues::Float(vec![0.75f32.to_bits()]) },
        ],
        format: vec![],
    }
}

fn strings(v: &[&str]) -> Vec<String> {
    v.iter().map(|s| s.to_string()).collect()
}

#[test]
fn test_process_template_with_none() {
    assert_eq!(process_template(None), None);
}

#[test]
fn test_process_template_with_backticks() {
    let template = Some("`print('Hello, World!')`".to_string());
    let result = process_template(template);
    assert!(result.is_some());
    assert_eq!(result.unwrap(), "return `print('Hello, World!')`");
}

#[test]
fn test_process_template_without_backticks() {
    let template = Some("print('Hello, World!')".to_string());
    let result = process_template(template);
    assert!(result.is_some());
    assert_eq!(result.unwrap(), "return  `print('Hello, World!')`");
}

#[test]
fn test_process_template_with_return() {
    let template = Some("return `42`".to_string());
    let result = process_template(template);
    assert!(result.is_some());
    assert_eq!(result.unwrap(), "return `42`");
}

#[test]
fn template_with_return_but_no_backticks() {
    assert_eq!(process_template(Some("return x".to_string())).unwrap(), " `return x`");
}

#[test]
fn vcf_format_by_suffix() {
    assert_eq!(get_vcf_format("out.bcf"), VcfFormat::Bcf);
    assert_eq!(get_vcf_format("out.bcf.gz"), VcfFormat::Bcf);
    assert_eq!(get_vcf_format("out.vcf.gz"), VcfFormat::Vcf);
    assert_eq!(get_vcf_format("out.vcf"), VcfFormat::Vcf);
    assert_eq!(get_vcf_format("bcf"), VcfFormat::Vcf);
}

#[test]
fn sink_selection() {
    assert_eq!(select_sink(false, &None).unwrap(), OutputSink::Structured { format: VcfFormat::Vcf, compressed: false });
    assert_eq!(
        select_sink(false, &Some("x.bcf".to_string())).unwrap(),
        OutputSink::Structured { format: VcfFormat::Bcf, compressed: false }
    );
    assert_eq!(
        select_sink(false, &Some("x.vcf.gz".to_string())).unwrap(),
        OutputSink::Structured { format: VcfFormat::Vcf, compressed: true }
    );
    assert_eq!(select_sink(true, &None).unwrap(), OutputSink::TextStdout);
    assert_eq!(select_sink(true, &Some("-".to_string())).unwrap(), OutputSink::TextStdout);
    assert_eq!(select_sink(true, &Some("out.txt".to_string())).unwrap(), OutputSink::TextFile);
    assert!(matches!(
        select_sink(true, &Some("out.vcf.gz".to_string())),
        Err(VcfExprError::Config(ConfigIssue::TemplateWithStructuredOutput))
    ));
}

#[test]
fn construction_rejects_template_with_structured_output() {
    let h = header();
    let r = VCFExpress::new(&h, strings(&["return true"]), vec![], Some("{chrom}".to_string()), Some("out.bcf".to_string()));
    assert!(matches!(r, Err(VcfExprError::Config(ConfigIssue::TemplateWithStructuredOutput))));
    // the conflict is reported before the set-expressions are read
    let r = VCFExpress::new(&h, vec![], strings(&["nope"]), Some("{chrom}".to_string()), Some("o.gz".to_string()));
    assert!(matches!(r, Err(VcfExprError::Config(ConfigIssue::TemplateWithStructuredOutput))));
}

#[test]
fn set_expression_parsing() {
    let h = header();
    let sets = load_info_expressions(&h, &strings(&["AFmax=max(a, b)", "DP=1+1=2"])).unwrap();
    assert_eq!(sets[0].tag, "AFmax");
    assert_eq!(sets[0].source, "max(a, b)");
    assert_eq!(sets[1].tag, "DP");
    assert_eq!(sets[1].source, "1+1=2");
    assert!(matches!(load_info_expressions(&h, &strings(&["DP=1", "nothing"])), Err(VcfExprError::InvalidSetExpression(s)) if s == "nothing"));
    assert!(matches!(load_info_expressions(&h, &strings(&["XX=1", "nothing"])), Err(VcfExprError::UnknownTag(s)) if s == "XX"));
}

#[test]
fn stdin_paths() {
    assert!(reads_stdin("-"));
    assert!(reads_stdin("stdin"));
    assert!(!reads_stdin("in.vcf"));
}

/// Drives one record through the pipeline, answering each script call with `answer`.
fn run(
    p: &mut VCFExpress,
    h: &HeaderSchema,
    rec: VariantRecord,
    mut answer: impl FnMut(&Action, &mut Variant) -> Event,
) -> Result<StringOrVariant, VcfExprError> {
    let (mut ev, mut action) = p.begin();
    let mut variant = Variant::new(rec, h, HeaderMap::new());
    let outcome = loop {
        match action {
            Action::Finish(o) => break o,
            Action::Abort(e) => return Err(e),
            ref a => {
                let event = answer(a, &mut variant);
                action = p.evaluate(&mut ev, event);
            }
        }
    };
    Ok(p.finish(ev, variant.take(), outcome))
}

#[test]
fn early_exit_stops_at_first_passing_filter() {
    let h = header();
    let mut p = VCFExpress::new(&h, strings(&["f0", "f1", "f2"]), vec![], None, None).unwrap();
    let results = [false, true, true];
    let mut calls: Vec<usize> = Vec::new();
    let out = run(&mut p, &h, record(), |a, _| match a {
        Action::CallFilter(i) => {
            calls.push(*i);
            Event::Value(GuestValue::Bool(results[*i]))
        }
        other => panic!("unexpected {:?}", other),
    })
    .unwrap();
    assert_eq!(calls, vec![0, 1]);
    assert!(matches!(out, StringOrVariant::Variant(_)));
    assert_eq!(p.variants_evaluated, 1);
    assert_eq!(p.variants_passing, 1);
}

#[test]
fn no_passing_filter_rejects() {
    let h = header();
    let mut p = VCFExpress::new(&h, strings(&["f0", "f1"]), vec![], None, None).unwrap();
    let mut calls = 0;
    let out = run(&mut p, &h, record(), |_, _| {
        calls += 1;
        Event::Value(GuestValue::Nil)
    })
    .unwrap();
    assert_eq!(calls, 2);
    assert!(matches!(out, StringOrVariant::Suppressed));
    assert_eq!(p.variants_passing, 0);
}

#[test]
fn scenario_pass_through() {
    let h = header();
    let mut p = VCFExpress::new(&h, strings(&["return variant.id == \"rs1234\""]), vec![], None, None).unwrap();
    let out = run(&mut p, &h, record(), |a, v| match a {
        Action::CallFilter(0) => {
            let id = v.get("id").unwrap();
            Event::Value(GuestValue::Bool(matches!(id, GuestValue::Text(ref s) if s == "rs1234")))
        }
        other => panic!("unexpected {:?}", other),
    })
    .unwrap();
    match out {
        StringOrVariant::Variant(rec) => {
            let input = record();
            assert_eq!(rec.id, input.id);
            assert_eq!(rec.alleles, input.alleles);
            assert_eq!(rec.filters, input.filters);
            assert_eq!(rec.pos, input.pos);
            assert_eq!(rec.info.len(), input.info.len());
            assert!(matches!(rec.info_values("DP"), Some(TagValues::Integer(v)) if v == &vec![10]));
        }
        other => panic!("unexpected {:?}", other),
    }
    assert!(p.sink.accepts(&StringOrVariant::Variant(record())).is_ok());
}

#[test]
fn scenario_template() {
    let h = header();
    let mut p = VCFExpress::new(&h, strings(&["return true"]), vec![], Some("{chrom}:{pos}".to_string()), None).unwrap();
    assert_eq!(p.sink, OutputSink::TextStdout);
    assert_eq!(p.template.as_deref(), Some("return  `{chrom}:{pos}`"));
    let out = run(&mut p, &h, record(), |a, v| match a {
        Action::CallFilter(_) => Event::Value(GuestValue::Bool(true)),
        Action::CallTemplate => {
            let chrom = match v.get("chrom").unwrap() {
                GuestValue::Text(s) => s,
                other => panic!("{:?}", other),
            };
            let pos = match v.get("pos").unwrap() {
                GuestValue::Integer(i) => i,
                other => panic!("{:?}", other),
            };
            Event::Value(GuestValue::Text(format!("{}:{}", chrom, pos)))
        }
        other => panic!("unexpected {:?}", other),
    })
    .unwrap();
    assert!(matches!(&out, StringOrVariant::String(s) if s == "chr1:6"));
    assert!(p.sink.accepts(&out).is_ok());
    assert!(matches!(
        p.sink.accepts(&StringOrVariant::Variant(record())),
        Err(VcfExprError::Config(ConfigIssue::RecordToTextSink))
    ));
    let structured = OutputSink::Structured { format: VcfFormat::Vcf, compressed: false };
    assert!(matches!(structured.accepts(&out), Err(VcfExprError::Config(ConfigIssue::TextToRecordSink))));
    assert!(structured.accepts(&StringOrVariant::Suppressed).is_ok());
}

#[test]
fn scenario_set_expression() {
    let h = header();
    let mut p = VCFExpress::new(
        &h,
        strings(&["return true"]),
        strings(&["AFmax=max(info('AF'), info('AFx'))"]),
        None,
        None,
    )
    .unwrap();
    assert_eq!(p.set_expressions[0].info.value_type, vcfexpress::header::ValueType::Float);
    let mut order: Vec<String> = Vec::new();
    let out = run(&mut p, &h, record(), |a, v| {
        match a {
            Action::CallSetExpression(0) => {
                order.push("set".to_string());
                let first = |g: GuestValue| match g {
                    GuestValue::List(items) => match items[0] {
                        GuestValue::Float(b) => f32::from_bits(b),
                        _ => panic!(),
                    },
                    _ => panic!(),
                };
                let af = first(v.info("AF", None).unwrap());
                let afx = first(v.info("AFx", None).unwrap());
                Event::Value(GuestValue::Float(af.max(afx).to_bits()))
            }
            Action::CallFilter(_) => {
                order.push("filter".to_string());
                Event::Value(GuestValue::Bool(true))
            }
            other => panic!("unexpected {:?}", other),
        }
    })
    .unwrap();
    assert_eq!(order, vec!["set", "filter"]);
    match out {
        StringOrVariant::Variant(rec) => match rec.info_values("AFmax") {
            Some(TagValues::Float(v)) => assert_eq!(v, &vec![0.75f32.to_bits()]),
            other => panic!("unexpected {:?}", other),
        },
        other => panic!("unexpected {:?}", other),
    }
}

#[test]
fn set_expression_type_mismatch_aborts() {
    let h = header();
    let mut p = VCFExpress::new(&h, strings(&["return true"]), strings(&["DP=x"]), None, None).unwrap();
    let r = run(&mut p, &h, record(), |_, _| Event::Value(GuestValue::Text("ten".to_string())));
    assert!(matches!(r, Err(VcfExprError::TypeMismatch(t)) if t == "DP"));
    let r = run(&mut p, &h, record(), |_, _| Event::Value(GuestValue::Integer(1 << 40)));
    assert!(matches!(r, Err(VcfExprError::TypeMismatch(t)) if t == "DP"));
}

#[test]
fn failing_script_aborts() {
    let h = header();
    let mut p = VCFExpress::new(&h, strings(&["boom"]), vec![], None, None).unwrap();
    let r = run(&mut p, &h, record(), |_, _| Event::Failed("attempt to call a nil value".to_string()));
    assert!(matches!(r, Err(VcfExprError::Expression(m)) if m == "attempt to call a nil value"));
}

#[test]
fn template_must_give_text() {
    let h = header();
    let mut p = VCFExpress::new(&h, strings(&["return 1"]), vec![], Some("x".to_string()), None).unwrap();
    let r = run(&mut p, &h, record(), |a, _| match a {
        Action::CallFilter(_) => Event::Value(GuestValue::Integer(1)),
        _ => Event::Value(GuestValue::Integer(7)),
    });
    assert!(matches!(r, Err(VcfExprError::TypeMismatch(t)) if t == "template"));
}

#[test]
fn flag_string_and_integer_updates_are_written() {
    let h = header();
    let mut p = VCFExpress::new(
        &h,
        strings(&["true"]),
        strings(&["HIT=1", "NOTE=2", "DP=3"]),
        None,
        None,
    )
    .unwrap();
    let out = run(&mut p, &h, record(), |a, _| match a {
        Action::CallSetExpression(0) => Event::Value(GuestValue::Integer(0)),
        Action::CallSetExpression(1) => Event::Value(GuestValue::Integer(-42)),
        Action::CallSetExpression(2) => Event::Value(GuestValue::Integer(12)),
        _ => Event::Value(GuestValue::Bool(true)),
    })
    .unwrap();
    match out {
        StringOrVariant::Variant(rec) => {
            assert!(matches!(rec.info_values("HIT"), Some(TagValues::Flag)));
            assert!(matches!(rec.info_values("NOTE"), Some(TagValues::Text(v)) if v == &vec!["-42".to_string()]));
            assert!(matches!(rec.info_values("DP"), Some(TagValues::Integer(v)) if v == &vec![12]));
        }
        other => panic!("unexpected {:?}", other),
    }
}

#[test]
fn false_flag_clears_and_last_update_wins() {
    let mut rec = record();
    rec.set_info("HIT", TagValues::Flag);
    let updates = vec![
        PendingUpdate { tag: "HIT".to_string(), value: InfoFormatValue::Bool(false) },
        PendingUpdate { tag: "DP".to_string(), value: InfoFormatValue::Integer(1) },
        PendingUpdate { tag: "DP".to_string(), value: InfoFormatValue::Integer(2) },
    ];
    write_back(&mut rec, &updates);
    assert!(rec.info_values("HIT").is_none());
    assert!(matches!(rec.info_values("DP"), Some(TagValues::Integer(v)) if v == &vec![2]));
    assert!(rec.info_values("AF").is_some());
}

#[test]
fn no_filters_rejects_after_set_expressions() {
    let h = header();
    let mut p = VCFExpress::new(&h, vec![], vec![], None, None).unwrap();
    let (ev, action) = p.begin();
    assert_eq!(ev.stage, Stage::Done);
    assert!(matches!(action, Action::Finish(Outcome::Rejected)));
    let _ = h.tag_type("DP", TagKind::Info).unwrap();
}
