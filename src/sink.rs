use vstd::prelude::*;

use crate::error::{ConfigIssue, ErrorView, VcfExprError, err_view};
use crate::record::VariantRecord;
use crate::text::{ends_with, has_suffix, str_eq};

verus! {

/// Encoding of structured output.
#[derive(Clone, Copy, Debug, PartialEq, Eq, Structural)]
pub enum VcfFormat {
    Vcf,
    Bcf,
}

/// Where the outcome of each record goes; fixed at construction.
#[derive(Clone, Copy, Debug, PartialEq, Eq, Structural)]
pub enum OutputSink {
    /// Records through the variant-format encoder, to the output path or stdout.
    Structured { format: VcfFormat, compressed: bool },
    /// One line of text per passing record, to the output path.
    TextFile,
    /// One line of text per passing record, to stdout.
    TextStdout,
}

/// What evaluating one record gives: a rendered line, the record itself, or nothing.
#[derive(Debug)]
pub enum StringOrVariant {
    String(String),
    Variant(VariantRecord),
    Suppressed,
}

/// Binary encoding for ".bcf" and ".bcf.gz" paths, text otherwise.
pub open spec fn spec_vcf_format(path: Seq<char>) -> VcfFormat {
    if has_suffix(path, ".bcf"@) || has_suffix(path, ".bcf.gz"@) {
        VcfFormat::Bcf
    } else {
        VcfFormat::Vcf
    }
}

/// An output path whose suffix asks for structured records (".bcf" or ".gz").
pub open spec fn requests_structured(path: Seq<char>) -> bool {
    has_suffix(path, ".bcf"@) || has_suffix(path, ".gz"@)
}

/// The sink for a run with or without a template, writing to `output`
/// (stdout when absent, and for text also when "-"); a template with an
/// output path that asks for structured records is a configuration error.
pub open spec fn spec_sink(template: bool, output: Option<Seq<char>>) -> Result<OutputSink, ErrorView> {
    if !template {
        match output {
            Some(p) => Ok(
                OutputSink::Structured { format: spec_vcf_format(p), compressed: has_suffix(p, ".gz"@) },
            ),
            None => Ok(OutputSink::Structured { format: VcfFormat::Vcf, compressed: false }),
        }
    } else {
        match output {
            Some(p) => if requests_structured(p) {
                Err(ErrorView::Config(ConfigIssue::TemplateWithStructuredOutput))
            } else if p == "-"@ {
                Ok(OutputSink::TextStdout)
            } else {
                Ok(OutputSink::TextFile)
            },
            None => Ok(OutputSink::TextStdout),
        }
    }
}

pub open spec fn opt_view(s: Option<String>) -> Option<Seq<char>> {
    match s {
        Some(x) => Some(x@),
        None => None,
    }
}

/// Encoding of structured output written to `path`.
pub fn get_vcf_format(path: &str) -> (f: VcfFormat)
    ensures
        f == spec_vcf_format(path@),
{
    if ends_with(path, ".bcf") || ends_with(path, ".bcf.gz") {
        VcfFormat::Bcf
    } else {
        VcfFormat::Vcf
    }
}

/// Chooses the sink from the presence of a template and the output path.
pub fn select_sink(template: bool, output: &Option<String>) -> (r: Result<OutputSink, VcfExprError>)
    ensures
        match spec_sink(template, opt_view(*output)) {
            Ok(s) => r == Ok::<OutputSink, VcfExprError>(s),
            Err(e) => err_view(r) == Some(e),
        },
{
    match output {
        Some(p) => {
            if !template {
                Ok(
                    OutputSink::Structured {
                        format: get_vcf_format(p.as_str()),
                        compressed: ends_with(p.as_str(), ".gz"),
                    },
                )
            } else if ends_with(p.as_str(), ".bcf") || ends_with(p.as_str(), ".gz") {
                Err(VcfExprError::Config(ConfigIssue::TemplateWithStructuredOutput))
            } else if str_eq(p.as_str(), "-") {
                Ok(OutputSink::TextStdout)
            } else {
                Ok(OutputSink::TextFile)
            }
        },
        None => {
            if !template {
                Ok(OutputSink::Structured { format: VcfFormat::Vcf, compressed: false })
            } else {
                Ok(OutputSink::TextStdout)
            }
        },
    }
}

impl OutputSink {
    pub open spec fn is_text(self) -> bool {
        !(self is Structured)
    }

    /// Whether the sink takes this outcome: records go only to the structured
    /// sink, lines only to a text sink; nothing is always taken.
    pub fn accepts(&self, out: &StringOrVariant) -> (r: Result<(), VcfExprError>)
        ensures
            match out {
                StringOrVariant::Variant(_) => if self.is_text() {
                    err_view(r) == Some(ErrorView::Config(ConfigIssue::RecordToTextSink))
                } else {
                    r is Ok
                },
                StringOrVariant::String(_) => if self.is_text() {
                    r is Ok
                } else {
                    err_view(r) == Some(ErrorView::Config(ConfigIssue::TextToRecordSink))
                },
                StringOrVariant::Suppressed => r is Ok,
            },
    {
        match out {
            StringOrVariant::Variant(_) => match self {
                OutputSink::Structured { .. } => Ok(()),
                _ => Err(VcfExprError::Config(ConfigIssue::RecordToTextSink)),
            },
            StringOrVariant::String(_) => match self {
                OutputSink::Structured { .. } => Err(
                    VcfExprError::Config(ConfigIssue::TextToRecordSink),
                ),
                _ => Ok(()),
            },
            StringOrVariant::Suppressed => Ok(()),
        }
    }
}

} // verus!
