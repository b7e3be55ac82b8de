use vstd::prelude::*;

use crate::error::{ErrorView, VcfExprError, err_view};
use crate::lookup::{Keyed, first_index, has_key, lemma_first_index_spec, position};
use crate::text::{chars_of, str_eq};

verus! {

/// Declared value type of a tag.
#[derive(Clone, Copy, Debug, PartialEq, Eq, Structural)]
pub enum ValueType {
    Integer,
    Float,
    String,
    Flag,
}

/// Declared number of values of a tag.
#[derive(Clone, Copy, Debug, PartialEq, Eq, Structural)]
pub enum Cardinality {
    Fixed(u32),
    PerAllele,
    PerGenotype,
    Variable,
}

/// What the header declares of a tag.
#[derive(Clone, Copy, Debug, PartialEq, Eq, Structural)]
pub struct TagInfo {
    pub value_type: ValueType,
    pub cardinality: Cardinality,
}

/// Site-level (INFO) or per-sample (FORMAT) tags.
#[derive(Clone, Copy, Debug, PartialEq, Eq, Structural)]
pub enum TagKind {
    Info,
    Format,
}

/// One tag declaration of the header.
#[derive(Clone, Debug)]
pub struct TagDef {
    pub id: String,
    pub info: TagInfo,
    pub description: String,
}

impl Keyed for TagDef {
    open spec fn key_view(&self) -> Seq<char> {
        self.id@
    }

    fn key(&self) -> (k: &str) {
        self.id.as_str()
    }
}

/// The header schema: contig names (by reference id), tag declarations and
/// sample names (by sample index). Where an id is declared twice, the first
/// declaration counts.
#[derive(Clone, Debug)]
pub struct HeaderSchema {
    pub contigs: Vec<String>,
    pub info: Vec<TagDef>,
    pub format: Vec<TagDef>,
    pub samples: Vec<String>,
}

/// What the first declaration of `id` among `tags` says.
pub open spec fn declared(tags: Seq<TagDef>, id: Seq<char>) -> Option<TagInfo> {
    match first_index(tags, id) {
        Some(i) => Some(tags[i].info),
        None => None,
    }
}

/// Type of a `Type=` value.
pub open spec fn spec_value_type(s: Seq<char>) -> Option<ValueType> {
    if s == "Integer"@ {
        Some(ValueType::Integer)
    } else if s == "Float"@ {
        Some(ValueType::Float)
    } else if s == "String"@ || s == "Character"@ {
        Some(ValueType::String)
    } else if s == "Flag"@ {
        Some(ValueType::Flag)
    } else {
        None
    }
}

pub open spec fn is_digit(c: char) -> bool {
    '0' <= c <= '9'
}

pub open spec fn all_digits(s: Seq<char>) -> bool {
    forall|i: int| 0 <= i < s.len() ==> is_digit(s[i])
}

/// Value of a run of decimal digits.
pub open spec fn digits_value(s: Seq<char>) -> nat
    decreases s.len(),
{
    if s.len() == 0 {
        0
    } else {
        digits_value(s.drop_last()) * 10 + (s.last() as nat - '0' as nat) as nat
    }
}

/// Cardinality of a `Number=` value: a count, "A" or "R" (one per allele),
/// "G" (one per genotype) or "." (any number).
pub open spec fn spec_cardinality(s: Seq<char>) -> Option<Cardinality> {
    if s == "A"@ || s == "R"@ {
        Some(Cardinality::PerAllele)
    } else if s == "G"@ {
        Some(Cardinality::PerGenotype)
    } else if s == "."@ {
        Some(Cardinality::Variable)
    } else if s.len() > 0 && all_digits(s) && digits_value(s) <= u32::MAX {
        Some(Cardinality::Fixed(digits_value(s) as u32))
    } else {
        None
    }
}

impl HeaderSchema {
    pub open spec fn tags(&self, kind: TagKind) -> Seq<TagDef> {
        match kind {
            TagKind::Info => self.info@,
            TagKind::Format => self.format@,
        }
    }

    fn tag_list(&self, kind: TagKind) -> (r: &Vec<TagDef>)
        ensures
            r@ == self.tags(kind),
    {
        match kind {
            TagKind::Info => &self.info,
            TagKind::Format => &self.format,
        }
    }

    /// The first declaration of `key` among the tags of `kind`.
    pub fn find_record(&self, key: &str, kind: TagKind) -> (r: Result<&TagDef, VcfExprError>)
        ensures
            match first_index(self.tags(kind), key@) {
                Some(i) => r == Ok::<&TagDef, VcfExprError>(&self.tags(kind)[i]),
                None => err_view(r) == Some(ErrorView::UnknownTag(key@)),
            },
    {
        let tags = self.tag_list(kind);
        match position(tags, key) {
            Some(i) => Ok(&tags[i]),
            None => Err(VcfExprError::UnknownTag(key.to_owned())),
        }
    }

    /// Declared type and cardinality of a tag.
    pub fn tag_type(&self, key: &str, kind: TagKind) -> (r: Result<TagInfo, VcfExprError>)
        ensures
            match declared(self.tags(kind), key@) {
                Some(t) => r == Ok::<TagInfo, VcfExprError>(t),
                None => err_view(r) == Some(ErrorView::UnknownTag(key@)),
            },
    {
        match self.find_record(key, kind) {
            Ok(def) => Ok(def.info),
            Err(e) => Err(e),
        }
    }

    /// Index of a sample by name.
    pub fn sample_index(&self, name: &str) -> (r: Result<usize, VcfExprError>)
        ensures
            match first_index(self.samples@, name@) {
                Some(i) => r matches Ok(j) && j as int == i,
                None => err_view(r) == Some(ErrorView::UnknownSample(name@)),
            },
    {
        match position(&self.samples, name) {
            Some(i) => Ok(i),
            None => Err(VcfExprError::UnknownSample(name.to_owned())),
        }
    }
}

/// Reads a `Type=` value.
pub fn parse_value_type(s: &str) -> (r: Option<ValueType>)
    ensures
        r == spec_value_type(s@),
{
    if str_eq(s, "Integer") {
        Some(ValueType::Integer)
    } else if str_eq(s, "Float") {
        Some(ValueType::Float)
    } else if str_eq(s, "String") || str_eq(s, "Character") {
        Some(ValueType::String)
    } else if str_eq(s, "Flag") {
        Some(ValueType::Flag)
    } else {
        None
    }
}

proof fn lemma_digits_prefix_le(s: Seq<char>, k: int)
    requires
        all_digits(s),
        0 <= k <= s.len(),
    ensures
        digits_value(s.take(k)) <= digits_value(s),
    decreases s.len(),
{
    if k < s.len() {
        assert(s.drop_last().take(k) =~= s.take(k));
        lemma_digits_prefix_le(s.drop_last(), k);
    } else {
        assert(s.take(k) =~= s);
    }
}

/// Reads a `Number=` value.
pub fn parse_number(s: &str) -> (r: Option<Cardinality>)
    ensures
        r == spec_cardinality(s@),
{
    let is_a = str_eq(s, "A");
    let is_r = str_eq(s, "R");
    if is_a || is_r {
        return Some(Cardinality::PerAllele);
    }
    if str_eq(s, "G") {
        return Some(Cardinality::PerGenotype);
    }
    if str_eq(s, ".") {
        return Some(Cardinality::Variable);
    }
    let cs = chars_of(s);
    if cs.len() == 0 {
        return None;
    }
    let mut v: u64 = 0;
    let mut i: usize = 0;
    while i < cs.len()
        invariant
            cs@ == s@,
            s@ != "A"@ && s@ != "R"@ && s@ != "G"@ && s@ != "."@,
            i <= cs.len(),
            all_digits(cs@.take(i as int)),
            v == digits_value(cs@.take(i as int)),
            v <= u32::MAX,
        decreases cs.len() - i,
    {
        let c = cs[i];
        if !('0' <= c && c <= '9') {
            assert(!is_digit(cs@[i as int]));
            assert(!all_digits(s@));
            return None;
        }
        let d = (c as u32 - '0' as u32) as u64;
        assert(cs@.take(i + 1).drop_last() =~= cs@.take(i as int));
        assert(cs@.take(i + 1).last() == c);
        assert(all_digits(cs@.take(i + 1)));
        v = v * 10 + d;
        assert(v == digits_value(cs@.take(i + 1)));
        if v > u32::MAX as u64 {
            proof {
                if all_digits(cs@) {
                    lemma_digits_prefix_le(cs@, i + 1);
                }
            }
            return None;
        }
        i = i + 1;
    }
    assert(cs@.take(cs.len() as int) =~= cs@);
    Some(Cardinality::Fixed(v as u32))
}

/// Value of `key` in a declaration table (the first pair whose first part is
/// `key`); a missing key is reported for the `add_<func>` call.
pub fn handle_hash_get<'a>(tbl: &'a Vec<(String, String)>, key: &str, func: &str) -> (r: Result<
    &'a str,
    VcfExprError,
>)
    ensures
        match first_index(tbl@, key@) {
            Some(i) => r matches Ok(v) && v@ == tbl@[i].1@,
            None => err_view(r) == Some(ErrorView::MissingKey(key@, func@)),
        },
{
    match position(tbl, key) {
        Some(i) => Ok(tbl[i].1.as_str()),
        None => Err(VcfExprError::MissingKey { key: key.to_owned(), func: func.to_owned() }),
    }
}

/// Value of `key` in a declaration table.
pub open spec fn table_value(tbl: Seq<(String, String)>, key: Seq<char>) -> Option<Seq<char>> {
    match first_index(tbl, key) {
        Some(i) => Some(tbl[i].1@),
        None => None,
    }
}

/// A declaration read from a table: id, type and cardinality, the Number and
/// Type texts as given, and the description.
pub struct Declaration {
    pub id: Seq<char>,
    pub info: TagInfo,
    pub number: Seq<char>,
    pub type_text: Seq<char>,
    pub description: Seq<char>,
}

/// Outcome of declaring a tag from a table, against the tags already declared:
/// the keys are read in the order ID, Number, Type, Description.
pub open spec fn spec_declare(tags: Seq<TagDef>, tbl: Seq<(String, String)>, func: Seq<char>) -> Result<
    Declaration,
    ErrorView,
> {
    if table_value(tbl, "ID"@) is None {
        Err(ErrorView::MissingKey("ID"@, func))
    } else if table_value(tbl, "Number"@) is None {
        Err(ErrorView::MissingKey("Number"@, func))
    } else if table_value(tbl, "Type"@) is None {
        Err(ErrorView::MissingKey("Type"@, func))
    } else if table_value(tbl, "Description"@) is None {
        Err(ErrorView::MissingKey("Description"@, func))
    } else {
        let id = table_value(tbl, "ID"@)->0;
        let number = table_value(tbl, "Number"@)->0;
        let type_text = table_value(tbl, "Type"@)->0;
        let description = table_value(tbl, "Description"@)->0;
        if spec_cardinality(number) is None {
            Err(ErrorView::InvalidDeclaration(number))
        } else if spec_value_type(type_text) is None {
            Err(ErrorView::InvalidDeclaration(type_text))
        } else if has_key(tags, id) {
            Err(ErrorView::DuplicateTag(id))
        } else {
            Ok(
                Declaration {
                    id,
                    info: TagInfo {
                        value_type: spec_value_type(type_text)->0,
                        cardinality: spec_cardinality(number)->0,
                    },
                    number,
                    type_text,
                    description,
                },
            )
        }
    }
}

/// Header line of a declaration; a FORMAT description is quoted.
pub open spec fn declaration_line(kind: TagKind, d: Declaration) -> Seq<char> {
    match kind {
        TagKind::Info => "##INFO=<ID="@ + d.id + ",Number="@ + d.number + ",Type="@ + d.type_text
            + ",Description="@ + d.description + ">"@,
        TagKind::Format => "##FORMAT=<ID="@ + d.id + ",Number="@ + d.number + ",Type="@
            + d.type_text + ",Description=\""@ + d.description + "\">"@,
    }
}

impl HeaderSchema {
    /// Only the tags of `kind` may have changed, and only by appending `d`.
    pub open spec fn declares(&self, old: &HeaderSchema, kind: TagKind, d: Declaration) -> bool {
        &&& self.contigs@ == old.contigs@
        &&& self.samples@ == old.samples@
        &&& self.tags(kind).len() == old.tags(kind).len() + 1
        &&& self.tags(kind).drop_last() == old.tags(kind)
        &&& self.tags(kind).last().id@ == d.id
        &&& self.tags(kind).last().info == d.info
        &&& self.tags(kind).last().description@ == d.description
        &&& match kind {
            TagKind::Info => self.format@ == old.format@,
            TagKind::Format => self.info@ == old.info@,
        }
    }

    fn declare(&mut self, kind: TagKind, tbl: &Vec<(String, String)>, func: &str) -> (r: Result<
        String,
        VcfExprError,
    >)
        ensures
            match spec_declare(old(self).tags(kind), tbl@, func@) {
                Ok(d) => r matches Ok(line) && line@ == declaration_line(kind, d)
                    && final(self).declares(old(self), kind, d),
                Err(e) => err_view(r) == Some(e) && *final(self) == *old(self),
            },
    {
        let id = handle_hash_get(tbl, "ID", func)?;
        let number = handle_hash_get(tbl, "Number", func)?;
        let type_text = handle_hash_get(tbl, "Type", func)?;
        let description = handle_hash_get(tbl, "Description", func)?;
        let cardinality = match parse_number(number) {
            Some(c) => c,
            None => {
                return Err(VcfExprError::InvalidDeclaration(number.to_owned()));
            },
        };
        let value_type = match parse_value_type(type_text) {
            Some(t) => t,
            None => {
                return Err(VcfExprError::InvalidDeclaration(type_text.to_owned()));
            },
        };
        if position(self.tag_list(kind), id).is_some() {
            return Err(VcfExprError::DuplicateTag(id.to_owned()));
        }
        let def = TagDef {
            id: id.to_owned(),
            info: TagInfo { value_type, cardinality },
            description: description.to_owned(),
        };
        let mut line = String::new();
        match kind {
            TagKind::Info => {
                self.info.push(def);
                line.append("##INFO=<ID=");
            },
            TagKind::Format => {
                self.format.push(def);
                line.append("##FORMAT=<ID=");
            },
        }
        line.append(id);
        line.append(",Number=");
        line.append(number);
        line.append(",Type=");
        line.append(type_text);
        match kind {
            TagKind::Info => {
                line.append(",Description=");
                line.append(description);
                line.append(">");
            },
            TagKind::Format => {
                line.append(",Description=\"");
                line.append(description);
                line.append("\">");
            },
        }
        assert(self.tags(kind).drop_last() =~= old(self).tags(kind));
        Ok(line)
    }

    /// Declares an INFO tag from a table with the keys ID, Number, Type and
    /// Description; returns the header line that declares it.
    pub fn add_info(&mut self, tbl: &Vec<(String, String)>) -> (r: Result<String, VcfExprError>)
        ensures
            match spec_declare(old(self).info@, tbl@, "info"@) {
                Ok(d) => r matches Ok(line) && line@ == declaration_line(TagKind::Info, d)
                    && final(self).declares(old(self), TagKind::Info, d),
                Err(e) => err_view(r) == Some(e) && *final(self) == *old(self),
            },
    {
        self.declare(TagKind::Info, tbl, "info")
    }

    /// Declares a FORMAT tag from a table with the keys ID, Number, Type and
    /// Description; returns the header line that declares it.
    pub fn add_format(&mut self, tbl: &Vec<(String, String)>) -> (r: Result<String, VcfExprError>)
        ensures
            match spec_declare(old(self).format@, tbl@, "format"@) {
                Ok(d) => r matches Ok(line) && line@ == declaration_line(TagKind::Format, d)
                    && final(self).declares(old(self), TagKind::Format, d),
                Err(e) => err_view(r) == Some(e) && *final(self) == *old(self),
            },
    {
        self.declare(TagKind::Format, tbl, "format")
    }
}

impl HeaderSchema {
    /// Keeps only the named samples, in the order given; returns the index
    /// each had. A name that is not a sample is refused (the first such
    /// name), and the header stays as it was.
    pub fn subset_samples(&mut self, names: &Vec<String>) -> (r: Result<Vec<usize>, VcfExprError>)
        ensures
            final(self).contigs == old(self).contigs,
            final(self).info == old(self).info,
            final(self).format == old(self).format,
            if forall|k: int| 0 <= k < names.len() ==> has_key(old(self).samples@, #[trigger] names@[k]@) {
                r matches Ok(idx) && idx.len() == names.len() && final(self).samples@ == names@
                    && forall|k: int|
                    0 <= k < names.len() ==> first_index(old(self).samples@, names@[k]@) == Some(
                        (#[trigger] idx@[k]) as int,
                    )
            } else {
                *final(self) == *old(self) && exists|k: int|
                    0 <= k < names.len() && !has_key(old(self).samples@, names@[k]@) && (forall|
                        j: int,
                    |
                        0 <= j < k ==> has_key(old(self).samples@, #[trigger] names@[j]@))
                        && err_view(r) == Some(ErrorView::UnknownSample(names@[k]@))
            },
    {
        let mut idx: Vec<usize> = Vec::new();
        for k in 0..names.len()
            invariant
                idx.len() == k,
                forall|j: int| 0 <= j < k ==> has_key(self.samples@, #[trigger] names@[j]@),
                forall|j: int|
                    0 <= j < k ==> first_index(self.samples@, names@[j]@) == Some((#[trigger] idx@[j]) as int),
        {
            match position(&self.samples, names[k].as_str()) {
                Some(i) => {
                    proof {
                        lemma_first_index_spec(self.samples@, names@[k as int]@);
                    }
                    idx.push(i);
                },
                None => {
                    assert(!has_key(self.samples@, names@[k as int]@));
                    return Err(VcfExprError::UnknownSample(names[k].clone()));
                },
            }
        }
        let kept = names.clone();
        assert(kept@ =~= names@);
        self.samples = kept;
        Ok(idx)
    }
}

} // verus!
