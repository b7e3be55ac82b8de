use vstd::prelude::*;

use crate::error::{ErrorView, VcfExprError, err_view};
use crate::genotypes::{
    GenotypeAllele, code_phased, decode, decode_call, format_genotype, genotype_text, spec_decode,
};
use crate::text::{chars_of, str_eq};
use crate::header::{Cardinality, HeaderSchema, TagDef, TagInfo, TagKind, ValueType, declared};
use crate::lookup::{Keyed, first_index, lemma_first_index_push, position};
use crate::record::{FormatField, TagValues, VariantRecord, info_value};
use crate::value::{
    GuestValue, TableEntry, first_scalar, first_value, is_list_of, scalar, scalar_at, values_count,
    values_len, values_list, values_seq,
};

verus! {

/// A resolved tag type held by the cache.
#[derive(Clone, Debug)]
pub struct CachedTag {
    pub id: String,
    pub info: TagInfo,
}

impl Keyed for CachedTag {
    open spec fn key_view(&self) -> Seq<char> {
        self.id@
    }

    fn key(&self) -> (k: &str) {
        self.id.as_str()
    }
}

/// Cache of tag types resolved from a header: the first resolution of a tag
/// reads the header, later ones read the cache.
#[derive(Clone, Debug)]
pub struct HeaderMap {
    info: Vec<CachedTag>,
    format: Vec<CachedTag>,
}

impl HeaderMap {
    /// Every cached type is what the header declares.
    pub closed spec fn agrees(&self, header: &HeaderSchema) -> bool {
        &&& forall|i: int|
            0 <= i < self.info.len() ==> declared(header.info@, #[trigger] self.info@[i].id@)
                == Some(self.info@[i].info)
        &&& forall|i: int|
            0 <= i < self.format.len() ==> declared(header.format@, #[trigger] self.format@[i].id@)
                == Some(self.format@[i].info)
    }

    pub fn new() -> (m: HeaderMap)
        ensures
            forall|h: &HeaderSchema| m.agrees(h),
    {
        HeaderMap { info: Vec::new(), format: Vec::new() }
    }

    /// Declared type and cardinality of a tag, memoized.
    pub fn resolve(&mut self, header: &HeaderSchema, kind: TagKind, key: &str) -> (r: Result<
        TagInfo,
        VcfExprError,
    >)
        requires
            old(self).agrees(header),
        ensures
            final(self).agrees(header),
            match declared(header.tags(kind), key@) {
                Some(t) => r == Ok::<TagInfo, VcfExprError>(t),
                None => err_view(r) == Some(ErrorView::UnknownTag(key@)),
            },
    {
        let cached = match kind {
            TagKind::Info => position(&self.info, key),
            TagKind::Format => position(&self.format, key),
        };
        if let Some(i) = cached {
            let t = match kind {
                TagKind::Info => self.info[i].info,
                TagKind::Format => self.format[i].info,
            };
            return Ok(t);
        }
        let t = header.tag_type(key, kind)?;
        let entry = CachedTag { id: key.to_owned(), info: t };
        match kind {
            TagKind::Info => {
                self.info.push(entry);
                assert(self.format@ == old(self).format@);
                assert forall|i: int| 0 <= i < self.info.len() implies declared(
                    header.info@,
                    #[trigger] self.info@[i].id@,
                ) == Some(self.info@[i].info) by {
                    if i < old(self).info.len() {
                        assert(self.info@[i] == old(self).info@[i]);
                    }
                }
            },
            TagKind::Format => {
                self.format.push(entry);
                assert(self.info@ == old(self).info@);
                assert forall|i: int| 0 <= i < self.format.len() implies declared(
                    header.format@,
                    #[trigger] self.format@[i].id@,
                ) == Some(self.format@[i].info) by {
                    if i < old(self).format.len() {
                        assert(self.format@[i] == old(self).format@[i]);
                    }
                }
            },
        }
        Ok(t)
    }

    /// Declaring a tag in the header changes no type that the cache holds.
    pub proof fn lemma_declare_keeps_cache(
        &self,
        before: &HeaderSchema,
        after: &HeaderSchema,
        kind: TagKind,
        def: TagDef,
    )
        requires
            self.agrees(before),
            after.tags(kind) == before.tags(kind).push(def),
            kind == TagKind::Info ==> after.format@ == before.format@,
            kind == TagKind::Format ==> after.info@ == before.info@,
        ensures
            self.agrees(after),
    {
        assert forall|i: int| 0 <= i < self.info.len() implies declared(
            after.info@,
            #[trigger] self.info@[i].id@,
        ) == Some(self.info@[i].info) by {
            if kind == TagKind::Info {
                lemma_first_index_push(before.info@, def, self.info@[i].id@);
            }
        }
        assert forall|i: int| 0 <= i < self.format.len() implies declared(
            after.format@,
            #[trigger] self.format@[i].id@,
        ) == Some(self.format@[i].info) by {
            if kind == TagKind::Format {
                lemma_first_index_push(before.format@, def, self.format@[i].id@);
            }
        }
    }
}

impl Default for HeaderMap {
    fn default() -> (m: HeaderMap)
        ensures
            forall|h: &HeaderSchema| m.agrees(h),
    {
        HeaderMap::new()
    }
}

/// What `info(tag, index)` gives for a tag declared as `t` whose values on the
/// record are `present`; `index` is 1-based.
pub open spec fn info_result(
    t: TagInfo,
    present: Option<TagValues>,
    index: Option<usize>,
    g: GuestValue,
) -> bool {
    if t.value_type == ValueType::Flag {
        g == GuestValue::Bool(present is Some)
    } else {
        match present {
            None => g == GuestValue::Nil,
            Some(v) => match index {
                Some(k) => g == (if 1 <= k <= values_len(v) {
                    scalar_at(v, k - 1)
                } else {
                    GuestValue::Nil
                }),
                None => if t.cardinality == Cardinality::Fixed(1) {
                    g == first_scalar(v)
                } else {
                    is_list_of(g, values_seq(v))
                },
            },
        }
    }
}

/// What `format(tag)` gives for one sample's values.
pub open spec fn sample_slot(t: TagInfo, v: TagValues, g: GuestValue) -> bool {
    if t.cardinality == Cardinality::Fixed(1) {
        g == first_scalar(v)
    } else {
        is_list_of(g, values_seq(v))
    }
}

/// What `format(tag)` gives for a tag declared as `t` whose field on the
/// record is `present`: one slot per sample.
pub open spec fn format_result(t: TagInfo, present: Option<FormatField>, g: GuestValue) -> bool {
    match present {
        None => g == GuestValue::Nil,
        Some(f) => g matches GuestValue::List(items) && items.len() == f.samples.len() && forall|
            s: int,
        |
            0 <= s < items.len() ==> sample_slot(t, f.samples@[s], #[trigger] items@[s]),
    }
}

/// The first FORMAT field of the tag, if any.
pub open spec fn format_value(format: Seq<FormatField>, tag: Seq<char>) -> Option<FormatField> {
    match first_index(format, tag) {
        Some(i) => Some(format[i]),
        None => None,
    }
}

fn slot_value(t: TagInfo, v: &TagValues) -> (g: GuestValue)
    ensures
        sample_slot(t, *v, g),
{
    if t.cardinality == Cardinality::Fixed(1) {
        first_value(v)
    } else {
        values_list(v)
    }
}

/// Tag of the genotype FORMAT field.
pub const GENOTYPE_TAG: &'static str = "GT";

/// Key under which `sample` lists the phase of each genotype slot.
pub const PHASE_KEY: &'static str = "phase";

/// Packed genotype codes of sample `s` in a FORMAT field, if it holds integers.
pub open spec fn gt_codes(f: FormatField, s: int) -> Option<Seq<i32>> {
    if 0 <= s < f.samples.len() {
        match f.samples@[s] {
            TagValues::Integer(x) => Some(x@),
            _ => None,
        }
    } else {
        None
    }
}

/// The guest value of an allele: its index, or nil when missing.
pub open spec fn allele_guest(a: GenotypeAllele) -> GuestValue {
    match a.index {
        Some(i) => GuestValue::Integer(i as i64),
        None => GuestValue::Nil,
    }
}

pub open spec fn alleles_seq(codes: Seq<i32>) -> Seq<GuestValue> {
    codes.map_values(|c: i32| allele_guest(spec_decode(c)))
}

pub open spec fn phases_seq(codes: Seq<i32>) -> Seq<GuestValue> {
    codes.map_values(|c: i32| GuestValue::Bool(code_phased(c)))
}

/// What `sample` gives for one FORMAT field of sample `s` declared as `t`: the
/// decoded allele indices for genotypes, else the sample's slot.
pub open spec fn sample_entry(t: TagInfo, f: FormatField, s: int, g: GuestValue) -> bool {
    if f.tag@ == GENOTYPE_TAG@ && gt_codes(f, s) is Some {
        is_list_of(g, alleles_seq(gt_codes(f, s)->0))
    } else if 0 <= s < f.samples.len() {
        sample_slot(t, f.samples@[s], g)
    } else {
        g == GuestValue::Nil
    }
}

/// Genotype codes of sample `s` on a record, if it has a genotype field.
pub open spec fn sample_genotype(format: Seq<FormatField>, s: int) -> Option<Seq<i32>> {
    match format_value(format, GENOTYPE_TAG@) {
        Some(f) => gt_codes(f, s),
        None => None,
    }
}

/// Whether every FORMAT field of the record is declared.
pub open spec fn format_declared(header: HeaderSchema, format: Seq<FormatField>, upto: int) -> bool {
    forall|j: int| 0 <= j < upto ==> (#[trigger] declared(header.format@, format[j].tag@)) is Some
}

/// The table that `sample` gives for sample `s`: one entry per FORMAT field,
/// in order, then the phases when the sample has a genotype.
pub open spec fn sample_table(
    header: HeaderSchema,
    format: Seq<FormatField>,
    s: int,
    entries: Seq<TableEntry>,
) -> bool {
    let n = format.len() as int;
    &&& entries.len() == n + (if sample_genotype(format, s) is Some {
        1int
    } else {
        0int
    })
    &&& forall|k: int|
        0 <= k < n ==> entries[k].key@ == format[k].tag@ && sample_entry(
            declared(header.format@, format[k].tag@)->0,
            format[k],
            s,
            #[trigger] entries[k].value,
        )
    &&& sample_genotype(format, s) matches Some(codes) ==> entries[n].key@ == PHASE_KEY@
        && is_list_of(entries[n].value, phases_seq(codes))
}

fn allele_list(codes: &Vec<i32>) -> (g: GuestValue)
    ensures
        is_list_of(g, alleles_seq(codes@)),
{
    let mut items: Vec<GuestValue> = Vec::new();
    for i in 0..codes.len()
        invariant
            items@ =~= alleles_seq(codes@.take(i as int)),
    {
        let a = decode(codes[i]);
        let g = match a.index {
            Some(x) => GuestValue::Integer(x as i64),
            None => GuestValue::Nil,
        };
        items.push(g);
        assert(codes@.take(i + 1) =~= codes@.take(i as int).push(codes@[i as int]));
    }
    assert(codes@.take(codes.len() as int) =~= codes@);
    GuestValue::List(items)
}

fn phase_list(codes: &Vec<i32>) -> (g: GuestValue)
    ensures
        is_list_of(g, phases_seq(codes@)),
{
    let mut items: Vec<GuestValue> = Vec::new();
    for i in 0..codes.len()
        invariant
            items@ =~= phases_seq(codes@.take(i as int)),
    {
        items.push(GuestValue::Bool(decode(codes[i]).phased));
        assert(codes@.take(i + 1) =~= codes@.take(i as int).push(codes@[i as int]));
    }
    assert(codes@.take(codes.len() as int) =~= codes@);
    GuestValue::List(items)
}

fn sample_codes(f: &FormatField, s: usize) -> (r: Option<&Vec<i32>>)
    ensures
        match gt_codes(*f, s as int) {
            Some(c) => r matches Some(v) && v@ == c,
            None => r is None,
        },
{
    if s < f.samples.len() {
        match &f.samples[s] {
            TagValues::Integer(x) => Some(x),
            _ => None,
        }
    } else {
        None
    }
}

/// The record fields that guest code reaches by name.
#[derive(Clone, Copy, Debug, PartialEq, Eq, Structural)]
pub enum Field {
    /// Contig name; read-only.
    Chrom,
    /// 0-based start, under `pos` and `start`.
    Pos,
    /// Start plus the reference allele's length, under `stop` and `end`; read-only.
    Stop,
    Qual,
    Id,
    /// The reference allele, under `REF`.
    Ref,
    /// The alternate alleles, under `ALT`.
    Alt,
    /// Active filter names, under `filters`.
    Filters,
    /// First active filter name, under `FILTER`; read-only.
    Filter,
    /// Rendered genotype call of each sample; read-only.
    Genotypes,
}

/// The field a guest name refers to.
pub open spec fn spec_field(name: Seq<char>) -> Option<Field> {
    if name == "chrom"@ {
        Some(Field::Chrom)
    } else if name == "pos"@ || name == "start"@ {
        Some(Field::Pos)
    } else if name == "stop"@ || name == "end"@ {
        Some(Field::Stop)
    } else if name == "qual"@ {
        Some(Field::Qual)
    } else if name == "id"@ {
        Some(Field::Id)
    } else if name == "REF"@ {
        Some(Field::Ref)
    } else if name == "ALT"@ {
        Some(Field::Alt)
    } else if name == "filters"@ {
        Some(Field::Filters)
    } else if name == "FILTER"@ {
        Some(Field::Filter)
    } else if name == "genotypes"@ {
        Some(Field::Genotypes)
    } else {
        None
    }
}

impl Field {
    /// Looks up a field by its guest name.
    pub fn from_name(name: &str) -> (r: Option<Field>)
        ensures
            r == spec_field(name@),
    {
        if str_eq(name, "chrom") {
            Some(Field::Chrom)
        } else if str_eq(name, "pos") || str_eq(name, "start") {
            Some(Field::Pos)
        } else if str_eq(name, "stop") || str_eq(name, "end") {
            Some(Field::Stop)
        } else if str_eq(name, "qual") {
            Some(Field::Qual)
        } else if str_eq(name, "id") {
            Some(Field::Id)
        } else if str_eq(name, "REF") {
            Some(Field::Ref)
        } else if str_eq(name, "ALT") {
            Some(Field::Alt)
        } else if str_eq(name, "filters") {
            Some(Field::Filters)
        } else if str_eq(name, "FILTER") {
            Some(Field::Filter)
        } else if str_eq(name, "genotypes") {
            Some(Field::Genotypes)
        } else {
            None
        }
    }

    pub open spec fn settable(self) -> bool {
        match self {
            Field::Pos | Field::Qual | Field::Id | Field::Ref | Field::Alt | Field::Filters => true,
            _ => false,
        }
    }
}

/// End of a record: start plus reference length, saturating.
pub open spec fn stop_of(pos: i64, ref_len: nat) -> i64 {
    if pos + ref_len > i64::MAX {
        i64::MAX
    } else {
        (pos + ref_len) as i64
    }
}

pub open spec fn ref_len(r: VariantRecord) -> nat {
    if r.alleles.len() > 0 {
        r.alleles@[0]@.len()
    } else {
        0
    }
}

/// Text values of a list of strings.
pub open spec fn texts_seq(v: Seq<String>) -> Seq<GuestValue> {
    v.map_values(|s: String| GuestValue::Text(s))
}

pub open spec fn all_text(items: Seq<GuestValue>) -> bool {
    forall|i: int| 0 <= i < items.len() ==> items[i] is Text
}

pub open spec fn text_strings(items: Seq<GuestValue>) -> Seq<String> {
    items.map_values(|g: GuestValue| g->Text_0)
}

/// Decoded genotype call of sample `s`, as `genotypes` gives it.
pub open spec fn sample_call(format: Seq<FormatField>, s: int) -> Seq<GenotypeAllele> {
    match sample_genotype(format, s) {
        Some(c) => c.map_values(|c: i32| spec_decode(c)),
        None => Seq::empty(),
    }
}

pub open spec fn genotype_count(format: Seq<FormatField>) -> nat {
    match format_value(format, GENOTYPE_TAG@) {
        Some(f) => f.samples@.len(),
        None => 0,
    }
}

/// What reading `field` gives on a record read against `header`.
pub open spec fn field_result(header: HeaderSchema, r: VariantRecord, field: Field, g: GuestValue) -> bool {
    match field {
        Field::Chrom => match r.rid {
            Some(i) if i < header.contigs.len() => g == GuestValue::Text(header.contigs@[i as int]),
            _ => g matches GuestValue::Text(s) && s@.len() == 0,
        },
        Field::Pos => g == GuestValue::Integer(r.pos),
        Field::Stop => g == GuestValue::Integer(stop_of(r.pos, ref_len(r))),
        Field::Qual => g == GuestValue::Float(r.qual),
        Field::Id => g == GuestValue::Text(r.id),
        Field::Ref => if r.alleles.len() > 0 {
            g == GuestValue::Text(r.alleles@[0])
        } else {
            g == GuestValue::Nil
        },
        Field::Alt => if r.alleles.len() > 1 {
            is_list_of(g, texts_seq(r.alleles@.skip(1)))
        } else {
            g matches GuestValue::List(v) && v.len() == 1 && (v@[0] matches GuestValue::Text(s)
                && s@ == "."@)
        },
        Field::Filters => is_list_of(g, texts_seq(r.filters@)),
        Field::Filter => if r.filters.len() > 0 {
            g == GuestValue::Text(r.filters@[0])
        } else {
            g == GuestValue::Nil
        },
        Field::Genotypes => g matches GuestValue::List(v) && v.len() == genotype_count(r.format@)
            && forall|s: int|
            0 <= s < v.len() ==> ((#[trigger] v@[s]) matches GuestValue::Text(t) && t@
                == genotype_text(sample_call(r.format@, s))),
    }
}

/// Whether `value` has the type that `field` takes.
pub open spec fn value_fits(field: Field, value: GuestValue) -> bool {
    match field {
        Field::Pos => value is Integer,
        Field::Qual => value is Float,
        Field::Id | Field::Ref => value is Text,
        Field::Alt | Field::Filters => value matches GuestValue::List(v) && all_text(v@),
        _ => false,
    }
}

/// The record after writing a fitting `value` to a settable `field`: REF
/// replaces allele 0 only, ALT replaces the alleles after it.
pub open spec fn set_result(old: VariantRecord, new: VariantRecord, field: Field, value: GuestValue) -> bool {
    &&& new.rid == old.rid
    &&& new.info == old.info
    &&& new.format == old.format
    &&& field != Field::Pos ==> new.pos == old.pos
    &&& field != Field::Qual ==> new.qual == old.qual
    &&& field != Field::Id ==> new.id == old.id
    &&& field != Field::Ref && field != Field::Alt ==> new.alleles == old.alleles
    &&& field != Field::Filters ==> new.filters == old.filters
    &&& match field {
        Field::Pos => new.pos == value->Integer_0,
        Field::Qual => new.qual == value->Float_0,
        Field::Id => new.id == value->Text_0,
        Field::Ref => if old.alleles.len() > 0 {
            new.alleles@ == old.alleles@.update(0, value->Text_0)
        } else {
            new.alleles@ == seq![value->Text_0]
        },
        Field::Alt => new.alleles@.len() > 0 && (old.alleles.len() > 0 ==> new.alleles@[0]
            == old.alleles@[0]) && (old.alleles.len() == 0 ==> new.alleles@[0]@.len() == 0)
            && new.alleles@.skip(1) == text_strings(value->List_0@),
        Field::Filters => new.filters@ == text_strings(value->List_0@),
        _ => true,
    }
}

fn text_list(v: &Vec<String>, from: usize) -> (g: GuestValue)
    requires
        from <= v.len(),
    ensures
        is_list_of(g, texts_seq(v@.skip(from as int))),
{
    let mut items: Vec<GuestValue> = Vec::new();
    let mut i: usize = from;
    while i < v.len()
        invariant
            from <= i <= v.len(),
            items@ =~= texts_seq(v@.subrange(from as int, i as int)),
        decreases v.len() - i,
    {
        items.push(GuestValue::Text(v[i].clone()));
        assert(v@.subrange(from as int, i + 1) =~= v@.subrange(from as int, i as int).push(
            v@[i as int],
        ));
        i = i + 1;
    }
    assert(v@.subrange(from as int, v.len() as int) =~= v@.skip(from as int));
    GuestValue::List(items)
}

/// The strings of a list of texts; `None` when an item is not a text.
fn strings_of(items: &Vec<GuestValue>) -> (r: Option<Vec<String>>)
    ensures
        match r {
            Some(v) => all_text(items@) && v@ == text_strings(items@),
            None => !all_text(items@),
        },
{
    let mut out: Vec<String> = Vec::new();
    for i in 0..items.len()
        invariant
            all_text(items@.take(i as int)),
            out@ =~= text_strings(items@.take(i as int)),
    {
        match &items[i] {
            GuestValue::Text(s) => out.push(s.clone()),
            _ => {
                assert(!(items@[i as int] is Text));
                return None;
            },
        }
        assert(items@.take(i + 1) =~= items@.take(i as int).push(items@[i as int]));
    }
    assert(items@.take(items.len() as int) =~= items@);
    Some(out)
}

/// One record exposed to guest code, with the header it was read against
/// and the tag type cache.
pub struct Variant<'a> {
    pub record: VariantRecord,
    pub header: &'a HeaderSchema,
    pub header_map: HeaderMap,
}

impl<'a> Variant<'a> {
    /// The cache holds only what the header declares.
    pub open spec fn wf(&self) -> bool {
        self.header_map.agrees(self.header)
    }

    /// Only the cache may have changed.
    pub open spec fn same_record(&self, other: &Variant<'a>) -> bool {
        &&& self.record == other.record
        &&& self.header == other.header
        &&& self.wf()
    }

    pub fn new(record: VariantRecord, header: &'a HeaderSchema, header_map: HeaderMap) -> (v:
        Variant<'a>)
        requires
            header_map.agrees(header),
        ensures
            v.record == record,
            v.header == header,
            v.header_map == header_map,
            v.wf(),
    {
        Variant { record, header, header_map }
    }

    pub fn record(&self) -> (r: &VariantRecord)
        ensures
            *r == self.record,
    {
        &self.record
    }

    pub fn header(&self) -> (h: &HeaderSchema)
        ensures
            *h == *self.header,
    {
        self.header
    }

    /// Hands the record back.
    pub fn take(self) -> (r: VariantRecord)
        ensures
            r == self.record,
    {
        self.record
    }

    /// Hands the record and the cache back.
    pub fn into_parts(self) -> (r: (VariantRecord, HeaderMap))
        ensures
            r.0 == self.record,
            r.1 == self.header_map,
    {
        (self.record, self.header_map)
    }

    /// Declared type and cardinality of an INFO tag.
    pub fn info_type(&mut self, key: &str) -> (r: Result<TagInfo, VcfExprError>)
        requires
            old(self).wf(),
        ensures
            final(self).same_record(old(self)),
            match declared(old(self).header.info@, key@) {
                Some(t) => r == Ok::<TagInfo, VcfExprError>(t),
                None => err_view(r) == Some(ErrorView::UnknownTag(key@)),
            },
    {
        self.header_map.resolve(self.header, TagKind::Info, key)
    }

    /// Value of an INFO tag: a flag gives whether it is set; an absent tag
    /// gives nil; with a 1-based index, the value at that index (nil when out
    /// of range); a tag declared with one value gives that value; any other
    /// tag gives the list of its values.
    pub fn info(&mut self, tag: &str, index: Option<usize>) -> (r: Result<GuestValue, VcfExprError>)
        requires
            old(self).wf(),
        ensures
            final(self).same_record(old(self)),
            match declared(old(self).header.info@, tag@) {
                Some(t) => r matches Ok(g) && info_result(
                    t,
                    info_value(old(self).record.info@, tag@),
                    index,
                    g,
                ),
                None => err_view(r) == Some(ErrorView::UnknownTag(tag@)),
            },
    {
        let t = self.header_map.resolve(self.header, TagKind::Info, tag)?;
        let present = self.record.info_values(tag);
        if t.value_type == ValueType::Flag {
            return Ok(GuestValue::Bool(present.is_some()));
        }
        match present {
            None => Ok(GuestValue::Nil),
            Some(v) => match index {
                Some(k) => {
                    if 1 <= k && k <= values_count(v) {
                        Ok(scalar(v, k - 1))
                    } else {
                        Ok(GuestValue::Nil)
                    }
                },
                None => {
                    if t.cardinality == Cardinality::Fixed(1) {
                        Ok(first_value(v))
                    } else {
                        Ok(values_list(v))
                    }
                },
            },
        }
    }

    /// Value of a FORMAT tag across samples: nil when absent, else one slot
    /// per sample, holding the sample's value for a tag declared with one
    /// value and the list of its values otherwise.
    pub fn format(&mut self, tag: &str) -> (r: Result<GuestValue, VcfExprError>)
        requires
            old(self).wf(),
        ensures
            final(self).same_record(old(self)),
            match declared(old(self).header.format@, tag@) {
                Some(t) => r matches Ok(g) && format_result(
                    t,
                    format_value(old(self).record.format@, tag@),
                    g,
                ),
                None => err_view(r) == Some(ErrorView::UnknownTag(tag@)),
            },
    {
        let t = self.header_map.resolve(self.header, TagKind::Format, tag)?;
        match self.record.format_field(tag) {
            None => Ok(GuestValue::Nil),
            Some(f) => {
                let n = f.samples.len();
                let mut items: Vec<GuestValue> = Vec::new();
                for s in 0..n
                    invariant
                        n == f.samples.len(),
                        items.len() == s,
                        forall|j: int|
                            0 <= j < s ==> sample_slot(t, f.samples@[j], #[trigger] items@[j]),
                {
                    items.push(slot_value(t, &f.samples[s]));
                }
                Ok(GuestValue::List(items))
            },
        }
    }

    /// Every FORMAT value of one sample, by tag, with genotype codes decoded
    /// to allele indices and their phases listed under `phase`.
    pub fn sample(&mut self, name: &str) -> (r: Result<GuestValue, VcfExprError>)
        requires
            old(self).wf(),
        ensures
            final(self).same_record(old(self)),
            match first_index(old(self).header.samples@, name@) {
                None => err_view(r) == Some(ErrorView::UnknownSample(name@)),
                Some(s) => {
                    let format = old(self).record.format@;
                    if format_declared(*old(self).header, format, format.len() as int) {
                        r matches Ok(GuestValue::Table(entries)) && sample_table(
                            *old(self).header,
                            format,
                            s,
                            entries@,
                        )
                    } else {
                        exists|k: int|
                            0 <= k < format.len() && format_declared(*old(self).header, format, k)
                                && declared(old(self).header.format@, format[k].tag@) is None
                                && err_view(r) == Some(ErrorView::UnknownTag(format[k].tag@))
                    }
                },
            },
    {
        let s = self.header.sample_index(name)?;
        let n = self.record.format.len();
        let mut entries: Vec<TableEntry> = Vec::new();
        for k in 0..n
            invariant
                n == self.record.format.len(),
                self.same_record(old(self)),
                first_index(old(self).header.samples@, name@) == Some(s as int),
                format_declared(*self.header, self.record.format@, k as int),
                entries.len() == k,
                forall|j: int|
                    0 <= j < k ==> entries@[j].key@ == self.record.format@[j].tag@ && sample_entry(
                        declared(self.header.format@, self.record.format@[j].tag@)->0,
                        self.record.format@[j],
                        s as int,
                        #[trigger] entries@[j].value,
                    ),
        {
            let f = &self.record.format[k];
            let t = match self.header_map.resolve(self.header, TagKind::Format, &f.tag) {
                Ok(t) => t,
                Err(e) => {
                    assert(declared(self.header.format@, self.record.format@[k as int].tag@) is None);
                    assert(0 <= k < self.record.format@.len() && format_declared(
                        *self.header,
                        self.record.format@,
                        k as int,
                    ) && declared(self.header.format@, self.record.format@[k as int].tag@) is None
                        && err_view(Err::<GuestValue, VcfExprError>(e)) == Some(
                        ErrorView::UnknownTag(self.record.format@[k as int].tag@),
                    ));
                    return Err(e);
                },
            };
            let is_gt = f.tag.as_str().to_owned() == GENOTYPE_TAG.to_owned();
            let codes = sample_codes(f, s);
            let value = if is_gt && codes.is_some() {
                allele_list(codes.unwrap())
            } else if s < f.samples.len() {
                slot_value(t, &f.samples[s])
            } else {
                GuestValue::Nil
            };
            entries.push(TableEntry { key: f.tag.clone(), value });
            assert(format_declared(*self.header, self.record.format@, k + 1)) by {
                assert(declared(self.header.format@, self.record.format@[k as int].tag@) is Some);
            }
        }
        let gt = match self.record.format_field(GENOTYPE_TAG) {
            Some(f) => sample_codes(f, s),
            None => None,
        };
        if let Some(codes) = gt {
            entries.push(TableEntry { key: PHASE_KEY.to_owned(), value: phase_list(codes) });
        }
        Ok(GuestValue::Table(entries))
    }

    /// Decoded genotype call of every sample, by sample index: empty when the
    /// record has no genotype field or a sample holds no codes.
    pub fn genotypes(&self) -> (r: Vec<Vec<GenotypeAllele>>)
        ensures
            match format_value(self.record.format@, GENOTYPE_TAG@) {
                None => r@.len() == 0,
                Some(f) => r@.len() == f.samples.len() && forall|s: int|
                    0 <= s < r@.len() ==> (#[trigger] r@[s])@ == (match gt_codes(f, s) {
                        Some(c) => c.map_values(|c: i32| spec_decode(c)),
                        None => Seq::empty(),
                    }),
            },
    {
        let mut out: Vec<Vec<GenotypeAllele>> = Vec::new();
        if let Some(f) = self.record.format_field(GENOTYPE_TAG) {
            for s in 0..f.samples.len()
                invariant
                    format_value(self.record.format@, GENOTYPE_TAG@) == Some(*f),
                    out.len() == s,
                    forall|j: int|
                        0 <= j < s ==> (#[trigger] out@[j])@ == (match gt_codes(*f, j) {
                            Some(c) => c.map_values(|c: i32| spec_decode(c)),
                            None => Seq::empty(),
                        }),
            {
                match sample_codes(f, s) {
                    Some(codes) => out.push(decode_call(codes)),
                    None => out.push(Vec::new()),
                }
            }
        }
        out
    }

    /// Reads a field.
    pub fn field_value(&self, field: Field) -> (g: GuestValue)
        ensures
            field_result(*self.header, self.record, field, g),
    {
        let r = &self.record;
        match field {
            Field::Chrom => match r.rid {
                Some(i) => {
                    if (i as usize) < self.header.contigs.len() {
                        GuestValue::Text(self.header.contigs[i as usize].clone())
                    } else {
                        GuestValue::Text(String::new())
                    }
                },
                None => GuestValue::Text(String::new()),
            },
            Field::Pos => GuestValue::Integer(r.pos),
            Field::Stop => {
                let len: usize = if r.alleles.len() > 0 {
                    chars_of(r.alleles[0].as_str()).len()
                } else {
                    0
                };
                let end: i128 = r.pos as i128 + len as i128;
                if end > i64::MAX as i128 {
                    GuestValue::Integer(i64::MAX)
                } else {
                    GuestValue::Integer(end as i64)
                }
            },
            Field::Qual => GuestValue::Float(r.qual),
            Field::Id => GuestValue::Text(r.id.clone()),
            Field::Ref => {
                if r.alleles.len() > 0 {
                    GuestValue::Text(r.alleles[0].clone())
                } else {
                    GuestValue::Nil
                }
            },
            Field::Alt => {
                if r.alleles.len() > 1 {
                    text_list(&r.alleles, 1)
                } else {
                    let mut items: Vec<GuestValue> = Vec::new();
                    let dot = ".".to_owned();
                    items.push(GuestValue::Text(dot));
                    GuestValue::List(items)
                }
            },
            Field::Filters => {
                assert(r.filters@.skip(0) =~= r.filters@);
                text_list(&r.filters, 0)
            },
            Field::Filter => {
                if r.filters.len() > 0 {
                    GuestValue::Text(r.filters[0].clone())
                } else {
                    GuestValue::Nil
                }
            },
            Field::Genotypes => {
                let calls = self.genotypes();
                let mut items: Vec<GuestValue> = Vec::new();
                for s in 0..calls.len()
                    invariant
                        items.len() == s,
                        calls@.len() == genotype_count(r.format@),
                        forall|j: int|
                            0 <= j < calls@.len() ==> (#[trigger] calls@[j])@ == sample_call(
                                r.format@,
                                j,
                            ),
                        forall|j: int|
                            0 <= j < s ==> ((#[trigger] items@[j]) matches GuestValue::Text(t)
                                && t@ == genotype_text(sample_call(r.format@, j))),
                {
                    items.push(GuestValue::Text(format_genotype(&calls[s])));
                }
                GuestValue::List(items)
            },
        }
    }

    /// Reads a field by its guest name.
    pub fn get(&self, name: &str) -> (r: Result<GuestValue, VcfExprError>)
        ensures
            match spec_field(name@) {
                Some(f) => r matches Ok(g) && field_result(*self.header, self.record, f, g),
                None => err_view(r) == Some(ErrorView::FieldNotFound(name@)),
            },
    {
        match Field::from_name(name) {
            Some(f) => Ok(self.field_value(f)),
            None => Err(VcfExprError::FieldNotFound(name.to_owned())),
        }
    }

    /// Writes a field by its guest name; unknown and read-only names are
    /// refused, as is a value of the wrong type.
    pub fn set(&mut self, name: &str, value: GuestValue) -> (r: Result<(), VcfExprError>)
        requires
            old(self).wf(),
        ensures
            final(self).header == old(self).header,
            final(self).header_map == old(self).header_map,
            final(self).wf(),
            match spec_field(name@) {
                Some(f) if f.settable() => if value_fits(f, value) {
                    r is Ok && set_result(old(self).record, final(self).record, f, value)
                } else {
                    err_view(r) == Some(ErrorView::TypeMismatch(name@)) && final(self).record
                        == old(self).record
                },
                _ => err_view(r) == Some(ErrorView::FieldNotFound(name@)) && final(self).record
                    == old(self).record,
            },
    {
        let field = match Field::from_name(name) {
            Some(f) => f,
            None => {
                return Err(VcfExprError::FieldNotFound(name.to_owned()));
            },
        };
        match (field, value) {
            (Field::Pos, GuestValue::Integer(x)) => {
                self.record.pos = x;
                Ok(())
            },
            (Field::Qual, GuestValue::Float(x)) => {
                self.record.qual = x;
                Ok(())
            },
            (Field::Id, GuestValue::Text(s)) => {
                self.record.id = s;
                Ok(())
            },
            (Field::Ref, GuestValue::Text(s)) => {
                if self.record.alleles.len() > 0 {
                    self.record.alleles.set(0, s);
                } else {
                    self.record.alleles.push(s);
                    assert(self.record.alleles@ =~= seq![s]);
                }
                Ok(())
            },
            (Field::Alt, GuestValue::List(items)) => {
                match strings_of(&items) {
                    Some(alts) => {
                        let mut alleles: Vec<String> = Vec::new();
                        if self.record.alleles.len() > 0 {
                            alleles.push(self.record.alleles[0].clone());
                        } else {
                            alleles.push(String::new());
                        }
                        for i in 0..alts.len()
                            invariant
                                alleles@.len() == i + 1,
                                old(self).record.alleles.len() > 0 ==> alleles@[0]
                                    == old(self).record.alleles@[0],
                                old(self).record.alleles.len() == 0 ==> alleles@[0]@.len() == 0,
                                alleles@.skip(1) =~= alts@.take(i as int),
                        {
                            alleles.push(alts[i].clone());
                            assert(alleles@.skip(1) =~= alts@.take(i + 1));
                        }
                        assert(alts@.take(alts.len() as int) =~= alts@);
                        self.record.alleles = alleles;
                        Ok(())
                    },
                    None => Err(VcfExprError::TypeMismatch(name.to_owned())),
                }
            },
            (Field::Filters, GuestValue::List(items)) => {
                match strings_of(&items) {
                    Some(names) => {
                        self.record.filters = names;
                        Ok(())
                    },
                    None => Err(VcfExprError::TypeMismatch(name.to_owned())),
                }
            },
            (Field::Pos, _) | (Field::Qual, _) | (Field::Id, _) | (Field::Ref, _) | (
                Field::Alt,
                _,
            ) | (Field::Filters, _) => Err(VcfExprError::TypeMismatch(name.to_owned())),
            _ => Err(VcfExprError::FieldNotFound(name.to_owned())),
        }
    }
}

} // verus!
