use vstd::prelude::*;

use crate::lookup::{
    Keyed, first_index, has_key, is_first, lemma_first_index_found, lemma_first_index_push,
    lemma_first_index_spec, lemma_first_index_update, position,
};
use crate::text::str_eq;

verus! {

/// Values of one tag, typed. A float is held as its IEEE-754 single-precision
/// bit pattern, as the binary variant format stores it.
#[derive(Clone, Debug)]
pub enum TagValues {
    Integer(Vec<i32>),
    Float(Vec<u32>),
    Text(Vec<String>),
    Flag,
}

/// Tag values as mathematical sequences.
pub enum ValuesView {
    Integer(Seq<i32>),
    Float(Seq<u32>),
    Text(Seq<Seq<char>>),
    Flag,
}

impl View for TagValues {
    type V = ValuesView;

    open spec fn view(&self) -> ValuesView {
        match self {
            TagValues::Integer(x) => ValuesView::Integer(x@),
            TagValues::Float(x) => ValuesView::Float(x@),
            TagValues::Text(x) => ValuesView::Text(x@.map_values(|s: String| s@)),
            TagValues::Flag => ValuesView::Flag,
        }
    }
}

impl TagValues {
    /// A copy holding the same values.
    pub fn copy(&self) -> (r: TagValues)
        ensures
            r@ == self@,
    {
        match self {
            TagValues::Integer(x) => {
                let y = x.clone();
                assert(y@ =~= x@);
                TagValues::Integer(y)
            },
            TagValues::Float(x) => {
                let y = x.clone();
                assert(y@ =~= x@);
                TagValues::Float(y)
            },
            TagValues::Text(x) => {
                let y = x.clone();
                assert(y@.map_values(|s: String| s@) =~= x@.map_values(|s: String| s@));
                TagValues::Text(y)
            },
            TagValues::Flag => TagValues::Flag,
        }
    }
}

/// Values of sample `keep` in a FORMAT field, empty when it has none.
pub open spec fn kept_sample(f: FormatField, keep: int) -> ValuesView {
    if 0 <= keep < f.samples.len() {
        f.samples@[keep]@
    } else {
        ValuesView::Integer(Seq::empty())
    }
}

/// `new` holds the samples `keep` of `old`, in that order.
pub open spec fn subset_of(old: FormatField, new: FormatField, keep: Seq<usize>) -> bool {
    &&& new.tag == old.tag
    &&& new.samples.len() == keep.len()
    &&& forall|j: int| 0 <= j < keep.len() ==> (#[trigger] new.samples@[j])@ == kept_sample(old, keep[j] as int)
}

fn subset_field(f: &FormatField, keep: &Vec<usize>) -> (r: FormatField)
    ensures
        subset_of(*f, r, keep@),
{
    let mut samples: Vec<TagValues> = Vec::new();
    for j in 0..keep.len()
        invariant
            samples.len() == j,
            forall|i: int| 0 <= i < j ==> (#[trigger] samples@[i])@ == kept_sample(*f, keep@[i] as int),
    {
        let k = keep[j];
        if k < f.samples.len() {
            samples.push(f.samples[k].copy());
        } else {
            samples.push(TagValues::Integer(Vec::new()));
        }
    }
    FormatField { tag: f.tag.clone(), samples }
}

/// A site-level tag and its values.
#[derive(Clone, Debug)]
pub struct InfoField {
    pub tag: String,
    pub values: TagValues,
}

/// A per-sample tag and its values, one entry per sample, by sample index.
#[derive(Clone, Debug)]
pub struct FormatField {
    pub tag: String,
    pub samples: Vec<TagValues>,
}

impl Keyed for InfoField {
    open spec fn key_view(&self) -> Seq<char> {
        self.tag@
    }

    fn key(&self) -> (k: &str) {
        self.tag.as_str()
    }
}

impl Keyed for FormatField {
    open spec fn key_view(&self) -> Seq<char> {
        self.tag@
    }

    fn key(&self) -> (k: &str) {
        self.tag.as_str()
    }
}

/// One row of a variant-call file. `rid` names a contig of the header,
/// `pos` is 0-based, `alleles` holds the reference allele first and then the
/// alternates, `qual` is a float bit pattern. Where a tag occurs twice among
/// `info` or `format`, the first occurrence counts.
#[derive(Clone, Debug)]
pub struct VariantRecord {
    pub rid: Option<u32>,
    pub pos: i64,
    pub id: String,
    pub alleles: Vec<String>,
    pub qual: u32,
    pub filters: Vec<String>,
    pub info: Vec<InfoField>,
    pub format: Vec<FormatField>,
}

/// Values of the first INFO entry for `tag`.
pub open spec fn info_value(info: Seq<InfoField>, tag: Seq<char>) -> Option<TagValues> {
    match first_index(info, tag) {
        Some(i) => Some(info[i].values),
        None => None,
    }
}

/// View of the values of the first INFO entry for `tag`.
pub open spec fn info_view(info: Seq<InfoField>, tag: Seq<char>) -> Option<ValuesView> {
    match info_value(info, tag) {
        Some(v) => Some(v@),
        None => None,
    }
}

proof fn lemma_first_index_remove<T: Keyed>(s: Seq<T>, i: int, key: Seq<char>)
    requires
        0 <= i < s.len(),
        s[i].key_view() != key,
    ensures
        match first_index(s, key) {
            Some(k) => first_index(s.remove(i), key) == Some(if k < i { k } else { k - 1 }),
            None => first_index(s.remove(i), key) is None,
        },
{
    let r = s.remove(i);
    lemma_first_index_spec(s, key);
    lemma_first_index_spec(r, key);
    match first_index(s, key) {
        Some(k) => {
            let k2 = if k < i { k } else { k - 1 };
            assert forall|j: int| 0 <= j < k2 implies r[j].key_view() != key by {
                if j < i {
                    assert(r[j] == s[j]);
                } else {
                    assert(r[j] == s[j + 1]);
                }
            }
            assert(is_first(r, key, k2));
            lemma_first_index_found(r, key, k2);
        },
        None => {
            if has_key(r, key) {
                let w = choose|w: int| 0 <= w < r.len() && r[w].key_view() == key;
                if w < i {
                    assert(s[w] == r[w]);
                } else {
                    assert(s[w + 1] == r[w]);
                }
            }
        },
    }
}

impl VariantRecord {
    /// Everything but the INFO entries is the same.
    pub open spec fn same_but_info(&self, other: &VariantRecord) -> bool {
        &&& self.rid == other.rid
        &&& self.pos == other.pos
        &&& self.id == other.id
        &&& self.alleles == other.alleles
        &&& self.qual == other.qual
        &&& self.filters == other.filters
        &&& self.format == other.format
    }

    /// Keeps, in every FORMAT field, the samples at the indices `keep`, in
    /// that order; an index past a field's samples gives an empty value.
    pub fn subset_samples(&mut self, keep: &Vec<usize>)
        ensures
            final(self).rid == old(self).rid,
            final(self).pos == old(self).pos,
            final(self).id == old(self).id,
            final(self).alleles == old(self).alleles,
            final(self).qual == old(self).qual,
            final(self).filters == old(self).filters,
            final(self).info == old(self).info,
            final(self).format.len() == old(self).format.len(),
            forall|i: int|
                0 <= i < old(self).format.len() ==> subset_of(
                    old(self).format@[i],
                    #[trigger] final(self).format@[i],
                    keep@,
                ),
    {
        let mut format: Vec<FormatField> = Vec::new();
        for i in 0..self.format.len()
            invariant
                format.len() == i,
                forall|k: int| 0 <= k < i ==> subset_of(self.format@[k], #[trigger] format@[k], keep@),
        {
            format.push(subset_field(&self.format[i], keep));
        }
        self.format = format;
    }

    /// Values of the INFO tag, if present.
    pub fn info_values(&self, tag: &str) -> (r: Option<&TagValues>)
        ensures
            match info_value(self.info@, tag@) {
                Some(v) => r == Some(&v),
                None => r is None,
            },
    {
        match position(&self.info, tag) {
            Some(i) => Some(&self.info[i].values),
            None => None,
        }
    }

    /// Values of the FORMAT tag, if present.
    pub fn format_field(&self, tag: &str) -> (r: Option<&FormatField>)
        ensures
            match first_index(self.format@, tag@) {
                Some(i) => r == Some(&self.format@[i]),
                None => r is None,
            },
    {
        match position(&self.format, tag) {
            Some(i) => Some(&self.format[i]),
            None => None,
        }
    }

    /// Sets the values of an INFO tag, replacing those it had.
    pub fn set_info(&mut self, tag: &str, values: TagValues)
        ensures
            final(self).same_but_info(old(self)),
            info_value(final(self).info@, tag@) == Some(values),
            forall|t: Seq<char>|
                t != tag@ ==> info_value(final(self).info@, t) == info_value(old(self).info@, t),
    {
        let ghost old_info = self.info@;
        match position(&self.info, tag) {
            Some(i) => {
                let field = InfoField { tag: tag.to_owned(), values };
                self.info.set(i, field);
                proof {
                    assert forall|t: Seq<char>| true implies first_index(self.info@, t)
                        == first_index(old_info, t) by {
                        lemma_first_index_update(old_info, i as int, field, t);
                    }
                    lemma_first_index_found(self.info@, tag@, i as int);
                }
            },
            None => {
                let field = InfoField { tag: tag.to_owned(), values };
                self.info.push(field);
                proof {
                    assert forall|t: Seq<char>| true implies info_value(self.info@, t) == (
                    if t == tag@ {
                        Some(values)
                    } else {
                        info_value(old_info, t)
                    }) by {
                        lemma_first_index_push(old_info, field, t);
                    }
                }
            },
        }
    }

    /// Removes every INFO entry of the tag.
    pub fn clear_info(&mut self, tag: &str)
        ensures
            final(self).same_but_info(old(self)),
            info_value(final(self).info@, tag@) is None,
            forall|t: Seq<char>|
                t != tag@ ==> info_value(final(self).info@, t) == info_value(old(self).info@, t),
    {
        let ghost old_info = self.info@;
        let mut i: usize = 0;
        while i < self.info.len()
            invariant
                self.same_but_info(old(self)),
                i <= self.info.len(),
                forall|j: int| 0 <= j < i ==> self.info@[j].key_view() != tag@,
                forall|t: Seq<char>|
                    t != tag@ ==> info_value(self.info@, t) == info_value(old_info, t),
            decreases self.info.len() - i,
        {
            if str_eq(self.info[i].tag.as_str(), tag) {
                let ghost before = self.info@;
                self.info.remove(i);
                proof {
                    assert forall|t: Seq<char>| t != tag@ implies info_value(self.info@, t)
                        == info_value(old_info, t) by {
                        lemma_first_index_remove(before, i as int, t);
                    }
                    assert forall|j: int| 0 <= j < i implies self.info@[j].key_view() != tag@ by {
                        assert(self.info@[j] == before[j]);
                    }
                }
            } else {
                i = i + 1;
            }
        }
        proof {
            lemma_first_index_spec(self.info@, tag@);
        }
    }
}

} // verus!
