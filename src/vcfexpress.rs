use vstd::prelude::*;

use crate::error::{ConfigIssue, ErrorView, VcfExprError, err_view};
use crate::header::{HeaderSchema, TagInfo, TagKind, ValueType, declared};
use crate::record::{TagValues, ValuesView, VariantRecord, info_view};
use crate::sink::{
    OutputSink, StringOrVariant, opt_view, requests_structured, select_sink, spec_sink,
};
use crate::text::{append_signed, contains, contains_str, first_char, signed_decimal, split_once};
use crate::value::GuestValue;

verus! {

/// Script source of a template: prefixed with "return " unless it already
/// returns, and wrapped in backticks (an interpolated string) unless it
/// already holds one.
pub open spec fn template_source(t: Seq<char>) -> Seq<char> {
    let pre = if contains(t, "return "@) {
        Seq::<char>::empty()
    } else {
        "return "@
    };
    if contains(t, "`"@) {
        pre + t
    } else {
        pre + " `"@ + t + "`"@
    }
}

/// The script source for an optional template.
pub fn process_template(template: Option<String>) -> (r: Option<String>)
    ensures
        match template {
            Some(t) => r matches Some(s) && s@ == template_source(t@),
            None => r is None,
        },
{
    match template {
        None => None,
        Some(t) => {
            let mut s = String::new();
            if !contains_str(t.as_str(), "return ") {
                s.append("return ");
            }
            if contains_str(t.as_str(), "`") {
                s.append(t.as_str());
            } else {
                s.append(" `");
                s.append(t.as_str());
                s.append("`");
            }
            proof {
                if contains(t@, "return "@) {
                    assert(Seq::<char>::empty() + t@ =~= t@);
                    assert(Seq::<char>::empty() + " `"@ + t@ + "`"@ =~= " `"@ + t@ + "`"@);
                }
            }
            Some(s)
        },
    }
}

/// A set-expression: the INFO tag it writes, the tag's declared type, and
/// the script that computes the value.
#[derive(Clone, Debug)]
pub struct SetExpression {
    pub tag: String,
    pub info: TagInfo,
    pub source: String,
}

/// Outcome of reading a `name=expr` set-expression against a header.
pub open spec fn spec_set_expression(header: HeaderSchema, e: Seq<char>) -> Result<
    (Seq<char>, TagInfo, Seq<char>),
    ErrorView,
> {
    match first_char(e, '=') {
        None => Err(ErrorView::InvalidSetExpression(e)),
        Some(i) => {
            let name = e.subrange(0, i);
            match declared(header.info@, name) {
                None => Err(ErrorView::UnknownTag(name)),
                Some(t) => Ok((name, t, e.subrange(i + 1, e.len() as int))),
            }
        },
    }
}

/// `s` is the set-expression that `e` reads as.
pub open spec fn reads_as(header: HeaderSchema, e: Seq<char>, s: SetExpression) -> bool {
    spec_set_expression(header, e) == Ok::<(Seq<char>, TagInfo, Seq<char>), ErrorView>(
        (s.tag@, s.info, s.source@),
    )
}

/// The set-expressions, each read against the header; the first one that
/// cannot be read is the error.
pub open spec fn loads_as(
    header: HeaderSchema,
    exprs: Seq<String>,
    r: Result<Vec<SetExpression>, VcfExprError>,
) -> bool {
    if forall|k: int| 0 <= k < exprs.len() ==> (#[trigger] spec_set_expression(header, exprs[k]@)) is Ok {
        r matches Ok(v) && v@.len() == exprs.len() && forall|k: int|
            0 <= k < exprs.len() ==> reads_as(header, exprs[k]@, #[trigger] v@[k])
    } else {
        exists|k: int|
            0 <= k < exprs.len() && (forall|j: int|
                0 <= j < k ==> (#[trigger] spec_set_expression(header, exprs[j]@)) is Ok) && Some(
                spec_set_expression(header, exprs[k]@)->Err_0,
            ) == err_view(r) && spec_set_expression(header, exprs[k]@) is Err
    }
}

/// Reads one `name=expr` set-expression.
pub fn parse_set_expression(header: &HeaderSchema, e: &str) -> (r: Result<
    SetExpression,
    VcfExprError,
>)
    ensures
        match spec_set_expression(*header, e@) {
            Ok(p) => r matches Ok(s) && s.tag@ == p.0 && s.info == p.1 && s.source@ == p.2,
            Err(v) => err_view(r) == Some(v),
        },
{
    match split_once(e, '=') {
        None => Err(VcfExprError::InvalidSetExpression(e.to_owned())),
        Some((name, source)) => {
            let info = header.tag_type(name.as_str(), TagKind::Info)?;
            Ok(SetExpression { tag: name, info, source })
        },
    }
}

/// Reads every set-expression against the header.
pub fn load_info_expressions(header: &HeaderSchema, exprs: &Vec<String>) -> (r: Result<
    Vec<SetExpression>,
    VcfExprError,
>)
    ensures
        loads_as(*header, exprs@, r),
{
    let mut out: Vec<SetExpression> = Vec::new();
    for k in 0..exprs.len()
        invariant
            out@.len() == k,
            forall|j: int| 0 <= j < k ==> (#[trigger] spec_set_expression(*header, exprs@[j]@)) is Ok,
            forall|j: int| 0 <= j < k ==> reads_as(*header, exprs@[j]@, #[trigger] out@[j]),
    {
        match parse_set_expression(header, exprs[k].as_str()) {
            Ok(s) => out.push(s),
            Err(e) => {
                assert(spec_set_expression(*header, exprs@[k as int]@) is Err);
                return Err(e);
            },
        }
    }
    Ok(out)
}

/// A typed value staged for an INFO tag. A float is a bit pattern.
#[derive(Clone, Debug)]
pub enum InfoFormatValue {
    Bool(bool),
    Float(u32),
    Integer(i32),
    String(String),
}

pub enum UpdateView {
    Bool(bool),
    Float(u32),
    Integer(i32),
    String(Seq<char>),
}

impl View for InfoFormatValue {
    type V = UpdateView;

    open spec fn view(&self) -> UpdateView {
        match self {
            InfoFormatValue::Bool(b) => UpdateView::Bool(*b),
            InfoFormatValue::Float(f) => UpdateView::Float(*f),
            InfoFormatValue::Integer(i) => UpdateView::Integer(*i),
            InfoFormatValue::String(s) => UpdateView::String(s@),
        }
    }
}

/// An INFO write staged by a set-expression.
#[derive(Clone, Debug)]
pub struct PendingUpdate {
    pub tag: String,
    pub value: InfoFormatValue,
}

/// Guest truthiness: everything but nil and false.
pub open spec fn truthy(g: GuestValue) -> bool {
    !(g is Nil) && !(g matches GuestValue::Bool(b) && !b)
}

/// A guest result coerced to a declared type: flags take truthiness, floats
/// take floats, integers take integers in range, strings take text and
/// integers (in decimal).
pub open spec fn coerce(t: ValueType, g: GuestValue) -> Option<UpdateView> {
    match t {
        ValueType::Flag => Some(UpdateView::Bool(truthy(g))),
        ValueType::Float => match g {
            GuestValue::Float(b) => Some(UpdateView::Float(b)),
            _ => None,
        },
        ValueType::Integer => match g {
            GuestValue::Integer(n) => if i32::MIN <= n <= i32::MAX {
                Some(UpdateView::Integer(n as i32))
            } else {
                None
            },
            _ => None,
        },
        ValueType::String => match g {
            GuestValue::Text(s) => Some(UpdateView::String(s@)),
            GuestValue::Integer(n) => Some(UpdateView::String(signed_decimal(n as int))),
            _ => None,
        },
    }
}

fn is_truthy(g: &GuestValue) -> (b: bool)
    ensures
        b == truthy(*g),
{
    match g {
        GuestValue::Nil => false,
        GuestValue::Bool(b) => *b,
        _ => true,
    }
}

fn coerce_value(t: ValueType, g: GuestValue) -> (r: Option<InfoFormatValue>)
    ensures
        match coerce(t, g) {
            Some(u) => r matches Some(v) && v@ == u,
            None => r is None,
        },
{
    match t {
        ValueType::Flag => Some(InfoFormatValue::Bool(is_truthy(&g))),
        ValueType::Float => match g {
            GuestValue::Float(b) => Some(InfoFormatValue::Float(b)),
            _ => None,
        },
        ValueType::Integer => match g {
            GuestValue::Integer(n) => {
                if i32::MIN as i64 <= n && n <= i32::MAX as i64 {
                    Some(InfoFormatValue::Integer(n as i32))
                } else {
                    None
                }
            },
            _ => None,
        },
        ValueType::String => match g {
            GuestValue::Text(s) => Some(InfoFormatValue::String(s)),
            GuestValue::Integer(n) => {
                let mut s = String::new();
                append_signed(&mut s, n);
                assert(Seq::<char>::empty() + signed_decimal(n as int) =~= signed_decimal(n as int));
                Some(InfoFormatValue::String(s))
            },
            _ => None,
        },
    }
}

/// Where the evaluation of one record stands: waiting for the result of a
/// set-expression, of a filter, or of the template, or done.
#[derive(Clone, Copy, Debug, PartialEq, Eq, Structural)]
pub enum Stage {
    SetExpressions(usize),
    Filters(usize),
    Template,
    Done,
}

/// The evaluation of one record: its stage and the INFO writes staged so far.
pub struct Evaluation {
    pub stage: Stage,
    pub updates: Vec<PendingUpdate>,
}

/// What the guest runtime reports for the script it was asked to run.
#[derive(Debug)]
pub enum Event {
    /// The script returned this value.
    Value(GuestValue),
    /// The script failed; carries its message.
    Failed(String),
}

/// How a record left the filters.
#[derive(Debug)]
pub enum Outcome {
    Rejected,
    Structured,
    Text(String),
}

/// What the runner does next.
#[derive(Debug)]
pub enum Action {
    /// Run the set-expression of this index with the record bound.
    CallSetExpression(usize),
    /// Run the filter of this index with the record bound.
    CallFilter(usize),
    /// Run the template with the record bound.
    CallTemplate,
    /// The record is evaluated: write back the staged updates and emit.
    Finish(Outcome),
    /// Stop the run with this error.
    Abort(VcfExprError),
}

pub enum OutcomeView {
    Rejected,
    Structured,
    Text(Seq<char>),
}

pub enum ActionView {
    CallSetExpression(nat),
    CallFilter(nat),
    CallTemplate,
    Finish(OutcomeView),
    Abort(ErrorView),
}

impl View for Outcome {
    type V = OutcomeView;

    open spec fn view(&self) -> OutcomeView {
        match self {
            Outcome::Rejected => OutcomeView::Rejected,
            Outcome::Structured => OutcomeView::Structured,
            Outcome::Text(s) => OutcomeView::Text(s@),
        }
    }
}

impl View for Action {
    type V = ActionView;

    open spec fn view(&self) -> ActionView {
        match self {
            Action::CallSetExpression(i) => ActionView::CallSetExpression(*i as nat),
            Action::CallFilter(i) => ActionView::CallFilter(*i as nat),
            Action::CallTemplate => ActionView::CallTemplate,
            Action::Finish(o) => ActionView::Finish(o@),
            Action::Abort(e) => ActionView::Abort(e@),
        }
    }
}

/// The step after filter `i` of `n` returned a value of truthiness `passed`:
/// the first passing filter ends the loop (with the template, if any), a
/// failing one hands over to the next, and the last failing one rejects.
pub open spec fn filter_next(n: nat, template: bool, i: nat, passed: bool) -> (Stage, ActionView) {
    if passed {
        if template {
            (Stage::Template, ActionView::CallTemplate)
        } else {
            (Stage::Done, ActionView::Finish(OutcomeView::Structured))
        }
    } else if i + 1 < n {
        (Stage::Filters((i + 1) as usize), ActionView::CallFilter(i + 1))
    } else {
        (Stage::Done, ActionView::Finish(OutcomeView::Rejected))
    }
}

/// Filters run, in order, when the filter at each index `j` would return a
/// value of truthiness `results[j]`, starting from filter `i`.
pub open spec fn filters_run(n: nat, template: bool, results: Seq<bool>, i: nat) -> Seq<nat>
    decreases n - i,
{
    if i >= n || i >= results.len() {
        Seq::empty()
    } else {
        seq![i] + match filter_next(n, template, i, results[i as int]).1 {
            ActionView::CallFilter(j) => if j > i {
                filters_run(n, template, results, j)
            } else {
                Seq::empty()
            },
            _ => Seq::empty(),
        }
    }
}

/// Effect of a staged update on its tag: a flag is set or cleared, any
/// other value becomes the tag's single value.
pub open spec fn update_effect(u: UpdateView) -> Option<ValuesView> {
    match u {
        UpdateView::Bool(b) => if b {
            Some(ValuesView::Flag)
        } else {
            None
        },
        UpdateView::Float(f) => Some(ValuesView::Float(seq![f])),
        UpdateView::Integer(i) => Some(ValuesView::Integer(seq![i])),
        UpdateView::String(s) => Some(ValuesView::Text(seq![s])),
    }
}

/// The effect of the last update staged for `tag`, if any.
pub open spec fn staged(updates: Seq<PendingUpdate>, tag: Seq<char>) -> Option<Option<ValuesView>>
    decreases updates.len(),
{
    if updates.len() == 0 {
        None
    } else if updates.last().tag@ == tag {
        Some(update_effect(updates.last().value@))
    } else {
        staged(updates.drop_last(), tag)
    }
}

/// `new` is `old` with the staged updates written to its INFO tags.
pub open spec fn written_back(old: VariantRecord, new: VariantRecord, updates: Seq<PendingUpdate>) -> bool {
    &&& new.same_but_info(&old)
    &&& forall|t: Seq<char>|
        info_view(new.info@, t) == match staged(updates, t) {
            Some(e) => e,
            None => info_view(old.info@, t),
        }
}

/// The filter-and-rewrite pipeline: filter sources, set-expressions with
/// their resolved types, the template's script source, the sink, and counts
/// of the records evaluated and passed.
pub struct VCFExpress {
    pub expressions: Vec<String>,
    pub set_expressions: Vec<SetExpression>,
    pub template: Option<String>,
    pub sink: OutputSink,
    pub variants_evaluated: u64,
    pub variants_passing: u64,
}

impl VCFExpress {
    pub open spec fn n_filters(&self) -> nat {
        self.expressions@.len()
    }

    pub open spec fn n_sets(&self) -> nat {
        self.set_expressions@.len()
    }

    /// Where a record goes once its set-expressions are staged.
    pub open spec fn after_sets(&self) -> (Stage, ActionView) {
        if self.n_filters() > 0 {
            (Stage::Filters(0), ActionView::CallFilter(0))
        } else {
            (Stage::Done, ActionView::Finish(OutcomeView::Rejected))
        }
    }

    /// Where a record's evaluation starts.
    pub open spec fn first_step(&self) -> (Stage, ActionView) {
        if self.n_sets() > 0 {
            (Stage::SetExpressions(0), ActionView::CallSetExpression(0))
        } else {
            self.after_sets()
        }
    }

    /// The stage waits for a script that exists.
    pub open spec fn awaiting(&self, stage: Stage) -> bool {
        match stage {
            Stage::SetExpressions(i) => i < self.n_sets(),
            Stage::Filters(i) => i < self.n_filters(),
            Stage::Template => self.template is Some,
            Stage::Done => false,
        }
    }

    /// Builds the pipeline: chooses the sink (a template with an output
    /// path that asks for structured records is refused first), reads the
    /// set-expressions against the header, and derives the template's script.
    pub fn new(
        header: &HeaderSchema,
        expression: Vec<String>,
        set_expression: Vec<String>,
        template: Option<String>,
        output: Option<String>,
    ) -> (r: Result<VCFExpress, VcfExprError>)
        ensures
            match spec_sink(template is Some, opt_view(output)) {
                Err(e) => err_view(r) == Some(e),
                Ok(sink) => {
                    loads_as(*header, set_expression@, match r {
                        Ok(p) => Ok(p.set_expressions),
                        Err(e) => Err(e),
                    }) && (r matches Ok(p) ==> p.sink == sink && p.expressions == expression
                        && p.variants_evaluated == 0 && p.variants_passing == 0 && match template {
                        Some(t) => p.template matches Some(s) && s@ == template_source(t@),
                        None => p.template is None,
                    })
                },
            },
    {
        let sink = select_sink(template.is_some(), &output)?;
        let set_expressions = load_info_expressions(header, &set_expression)?;
        Ok(
            VCFExpress {
                expressions: expression,
                set_expressions,
                template: process_template(template),
                sink,
                variants_evaluated: 0,
                variants_passing: 0,
            },
        )
    }

    fn next_after_sets(&self) -> (r: (Stage, Action))
        ensures
            (r.0, r.1@) == self.after_sets(),
    {
        if self.expressions.len() > 0 {
            (Stage::Filters(0), Action::CallFilter(0))
        } else {
            (Stage::Done, Action::Finish(Outcome::Rejected))
        }
    }

    /// Starts the evaluation of a record and counts it.
    pub fn begin(&mut self) -> (r: (Evaluation, Action))
        ensures
            (r.0.stage, r.1@) == old(self).first_step(),
            r.0.updates@.len() == 0,
            final(self).variants_evaluated == if old(self).variants_evaluated < u64::MAX {
                (old(self).variants_evaluated + 1) as u64
            } else {
                u64::MAX
            },
            final(self).variants_passing == old(self).variants_passing,
            final(self).expressions == old(self).expressions,
            final(self).set_expressions == old(self).set_expressions,
            final(self).template == old(self).template,
            final(self).sink == old(self).sink,
    {
        if self.variants_evaluated < u64::MAX {
            self.variants_evaluated = self.variants_evaluated + 1;
        }
        let (stage, action) = if self.set_expressions.len() > 0 {
            (Stage::SetExpressions(0), Action::CallSetExpression(0))
        } else {
            self.next_after_sets()
        };
        (Evaluation { stage, updates: Vec::new() }, action)
    }

    /// Takes the result of the script that the last action asked for and
    /// says what comes next. A failed script aborts. A set-expression's
    /// value is coerced to its tag's type and staged (a value that does not
    /// fit aborts). A filter's value passes by truthiness. The template's
    /// value must be text and becomes the record's line.
    pub fn evaluate(&mut self, ev: &mut Evaluation, event: Event) -> (action: Action)
        requires
            old(self).awaiting(old(ev).stage),
        ensures
            final(self).expressions == old(self).expressions,
            final(self).set_expressions == old(self).set_expressions,
            final(self).template == old(self).template,
            final(self).sink == old(self).sink,
            final(self).variants_evaluated == old(self).variants_evaluated,
            match event {
                Event::Failed(m) => action@ == ActionView::Abort(ErrorView::Expression(m@))
                    && final(ev).stage == Stage::Done && final(ev).updates@ == old(ev).updates@
                    && final(self).variants_passing == old(self).variants_passing,
                Event::Value(g) => match old(ev).stage {
                    Stage::SetExpressions(i) => {
                        let s = old(self).set_expressions@[i as int];
                        &&& final(self).variants_passing == old(self).variants_passing
                        &&& match coerce(s.info.value_type, g) {
                            None => action@ == ActionView::Abort(ErrorView::TypeMismatch(s.tag@))
                                && final(ev).stage == Stage::Done && final(ev).updates@ == old(
                                ev,
                            ).updates@,
                            Some(u) => {
                                &&& final(ev).updates@.len() == old(ev).updates@.len() + 1
                                &&& final(ev).updates@.drop_last() == old(ev).updates@
                                &&& final(ev).updates@.last().tag@ == s.tag@
                                &&& final(ev).updates@.last().value@ == u
                                &&& (final(ev).stage, action@) == if i + 1 < old(self).n_sets() {
                                    (
                                        Stage::SetExpressions((i + 1) as usize),
                                        ActionView::CallSetExpression((i + 1) as nat),
                                    )
                                } else {
                                    old(self).after_sets()
                                }
                            },
                        }
                    },
                    Stage::Filters(i) => {
                        &&& (final(ev).stage, action@) == filter_next(
                            old(self).n_filters(),
                            old(self).template is Some,
                            i as nat,
                            truthy(g),
                        )
                        &&& final(ev).updates@ == old(ev).updates@
                        &&& final(self).variants_passing == if truthy(g)
                            && old(self).variants_passing < u64::MAX {
                            (old(self).variants_passing + 1) as u64
                        } else {
                            old(self).variants_passing
                        }
                    },
                    _ => {
                        &&& final(ev).stage == Stage::Done
                        &&& final(ev).updates@ == old(ev).updates@
                        &&& final(self).variants_passing == old(self).variants_passing
                        &&& match g {
                            GuestValue::Text(t) => action@ == ActionView::Finish(
                                OutcomeView::Text(t@),
                            ),
                            _ => action@ == ActionView::Abort(ErrorView::TypeMismatch("template"@)),
                        }
                    },
                },
            },
    {
        let g = match event {
            Event::Failed(m) => {
                ev.stage = Stage::Done;
                return Action::Abort(VcfExprError::Expression(m));
            },
            Event::Value(g) => g,
        };
        match ev.stage {
            Stage::SetExpressions(i) => {
                let tag = self.set_expressions[i].tag.clone();
                match coerce_value(self.set_expressions[i].info.value_type, g) {
                    None => {
                        ev.stage = Stage::Done;
                        Action::Abort(VcfExprError::TypeMismatch(tag))
                    },
                    Some(value) => {
                        let ghost before = ev.updates@;
                        ev.updates.push(PendingUpdate { tag, value });
                        assert(ev.updates@.drop_last() =~= before);
                        if i < self.set_expressions.len() - 1 {
                            ev.stage = Stage::SetExpressions(i + 1);
                            Action::CallSetExpression(i + 1)
                        } else {
                            let (stage, action) = self.next_after_sets();
                            ev.stage = stage;
                            action
                        }
                    },
                }
            },
            Stage::Filters(i) => {
                if is_truthy(&g) {
                    if self.variants_passing < u64::MAX {
                        self.variants_passing = self.variants_passing + 1;
                    }
                    if self.template.is_some() {
                        ev.stage = Stage::Template;
                        Action::CallTemplate
                    } else {
                        ev.stage = Stage::Done;
                        Action::Finish(Outcome::Structured)
                    }
                } else if i < self.expressions.len() - 1 {
                    ev.stage = Stage::Filters(i + 1);
                    Action::CallFilter(i + 1)
                } else {
                    ev.stage = Stage::Done;
                    Action::Finish(Outcome::Rejected)
                }
            },
            _ => {
                ev.stage = Stage::Done;
                match g {
                    GuestValue::Text(t) => Action::Finish(Outcome::Text(t)),
                    _ => Action::Abort(VcfExprError::TypeMismatch("template".to_owned())),
                }
            },
        }
    }

    /// Writes back the record's staged updates and gives what the sink
    /// receives: the record for a structured pass, the line for a template
    /// pass, nothing for a rejected record.
    pub fn finish(&self, ev: Evaluation, record: VariantRecord, outcome: Outcome) -> (r:
        StringOrVariant)
        ensures
            match outcome {
                Outcome::Structured => r matches StringOrVariant::Variant(rec) && written_back(
                    record,
                    rec,
                    ev.updates@,
                ) && (ev.updates@.len() == 0 ==> rec == record),
                Outcome::Text(t) => r matches StringOrVariant::String(u) && u@ == t@,
                Outcome::Rejected => r is Suppressed,
            },
    {
        let mut record = record;
        write_back(&mut record, &ev.updates);
        match outcome {
            Outcome::Structured => StringOrVariant::Variant(record),
            Outcome::Text(t) => StringOrVariant::String(t),
            Outcome::Rejected => StringOrVariant::Suppressed,
        }
    }
}

/// Writes each staged update, in order, to the record's INFO tags.
pub fn write_back(record: &mut VariantRecord, updates: &Vec<PendingUpdate>)
    ensures
        written_back(*old(record), *final(record), updates@),
        updates@.len() == 0 ==> *final(record) == *old(record),
{
    for k in 0..updates.len()
        invariant
            written_back(*old(record), *record, updates@.take(k as int)),
            k == 0 ==> *record == *old(record),
    {
        let u = &updates[k];
        let ghost prev = *record;
        let tag = u.tag.as_str();
        match &u.value {
            InfoFormatValue::Bool(b) => {
                if *b {
                    record.set_info(tag, TagValues::Flag);
                } else {
                    record.clear_info(tag);
                }
                assert(info_view(record.info@, u.tag@) == update_effect(u.value@));
            },
            InfoFormatValue::Float(f) => {
                let v = vec![*f];
                assert(v@ =~= seq![*f]);
                record.set_info(tag, TagValues::Float(v));
                assert(info_view(record.info@, u.tag@) == update_effect(u.value@));
            },
            InfoFormatValue::Integer(i) => {
                let v = vec![*i];
                assert(v@ =~= seq![*i]);
                record.set_info(tag, TagValues::Integer(v));
                assert(info_view(record.info@, u.tag@) == update_effect(u.value@));
            },
            InfoFormatValue::String(s) => {
                let v = vec![s.clone()];
                assert(v@.map_values(|x: String| x@) =~= seq![s@]);
                record.set_info(tag, TagValues::Text(v));
                assert(info_view(record.info@, u.tag@) == update_effect(u.value@));
            },
        }
        assert(info_view(record.info@, u.tag@) == update_effect(u.value@));
        assert(forall|t: Seq<char>| t != u.tag@ ==> info_view(record.info@, t) == info_view(prev.info@, t));
        proof {
            let ups = updates@.take(k + 1);
            assert(ups.drop_last() =~= updates@.take(k as int));
            assert(ups.last() == *u);
            assert forall|t: Seq<char>| info_view(record.info@, t) == match staged(ups, t) {
                Some(e) => e,
                None => info_view(old(record).info@, t),
            } by {
                if t == u.tag@ {
                    assert(staged(ups, t) == Some(update_effect(u.value@)));
                } else {
                    assert(staged(ups, t) == staged(updates@.take(k as int), t));
                    assert(written_back(*old(record), prev, updates@.take(k as int)));
                    assert(info_view(prev.info@, t) == match staged(updates@.take(k as int), t) {
                        Some(e) => e,
                        None => info_view(old(record).info@, t),
                    });
                }
            }
        }
    }
    assert(updates@.take(updates.len() as int) =~= updates@);
}


/// A template together with an output path that asks for structured records
/// is a configuration error, whatever the path's other suffixes; `new`
/// reports it before reading any set-expression.
pub proof fn lemma_template_conflict(output: Seq<char>)
    requires
        requests_structured(output),
    ensures
        spec_sink(true, Some(output)) == Err::<OutputSink, ErrorView>(
            ErrorView::Config(ConfigIssue::TemplateWithStructuredOutput),
        ),
{
}

/// `k` is the first filter whose result passes.
pub open spec fn first_pass(results: Seq<bool>, k: int) -> bool {
    0 <= k < results.len() && results[k] && forall|j: int| 0 <= j < k ==> !results[j]
}

proof fn lemma_run_until(n: nat, template: bool, results: Seq<bool>, i: nat, k: nat)
    requires
        results.len() == n,
        i <= k < n,
        results[k as int] || k + 1 == n,
        forall|j: int| i <= j < k ==> !results[j],
    ensures
        filters_run(n, template, results, i) == Seq::new((k + 1 - i) as nat, |j: int| (i + j) as nat),
    decreases k - i,
{
    let run = filters_run(n, template, results, i);
    if i == k {
        assert(run =~= Seq::new((k + 1 - i) as nat, |j: int| (i + j) as nat));
    } else {
        lemma_run_until(n, template, results, i + 1, k);
        assert(run =~= Seq::new((k + 1 - i) as nat, |j: int| (i + j) as nat));
    }
}

/// Filters run in declaration order and stop at the first that passes: when
/// filter `j` would return a value of truthiness `results[j]`, the filters
/// invoked are exactly those up to the first passing one, and all of them
/// when none passes. No filter after the first passing one is ever invoked.
pub proof fn lemma_early_exit(n: nat, template: bool, results: Seq<bool>)
    requires
        results.len() == n,
    ensures
        forall|k: int|
            first_pass(results, k) ==> filters_run(n, template, results, 0) == Seq::new(
                (k + 1) as nat,
                |j: int| j as nat,
            ),
        (forall|j: int| 0 <= j < n ==> !results[j]) ==> filters_run(n, template, results, 0)
            == Seq::new(n, |j: int| j as nat),
{
    assert forall|k: int| first_pass(results, k) implies filters_run(n, template, results, 0)
        == Seq::new((k + 1) as nat, |j: int| j as nat) by {
        lemma_run_until(n, template, results, 0, k as nat);
        assert(Seq::new((k + 1) as nat, |j: int| (0 + j) as nat) =~= Seq::new(
            (k + 1) as nat,
            |j: int| j as nat,
        ));
    }
    if (forall|j: int| 0 <= j < n ==> !results[j]) && n > 0 {
        lemma_run_until(n, template, results, 0, (n - 1) as nat);
        assert(Seq::new(n, |j: int| (0 + j) as nat) =~= Seq::new(n, |j: int| j as nat));
    } else if n == 0 {
        assert(filters_run(n, template, results, 0) =~= Seq::new(n, |j: int| j as nat));
    }
}

} // verus!
