use vstd::prelude::*;

use crate::text::{append_decimal, decimal, push_char};

verus! {

/// Largest allele index that a packed code can carry.
pub const MAX_ALLELE_INDEX: u32 = 0x3fff_fffe;

/// One ploidy slot of a genotype call: the allele it names (absent for a
/// missing call) and whether it is phased to the slot before it.
#[derive(Clone, Copy, Debug, PartialEq, Eq, Structural)]
pub struct GenotypeAllele {
    pub index: Option<u32>,
    pub phased: bool,
}

impl GenotypeAllele {
    /// An allele that a packed code can carry.
    pub open spec fn encodable(self) -> bool {
        self.index matches Some(a) ==> a <= MAX_ALLELE_INDEX
    }
}

/// Allele index carried by a packed code: `(code >> 1) - 1`, absent when negative.
pub open spec fn code_index(code: i32) -> Option<u32> {
    let a = (code >> 1) as int - 1;
    if a >= 0 {
        Some(a as u32)
    } else {
        None
    }
}

/// Phase bit of a packed code.
pub open spec fn code_phased(code: i32) -> bool {
    code & 1 == 1
}

pub open spec fn spec_decode(code: i32) -> GenotypeAllele {
    GenotypeAllele { index: code_index(code), phased: code_phased(code) }
}

pub open spec fn phase_bit(phased: bool) -> i32 {
    if phased {
        1
    } else {
        0
    }
}

/// Packed code of an allele: `((index + 1) << 1) | phase`, and the bare phase
/// bit for a missing call.
pub open spec fn spec_encode(g: GenotypeAllele) -> i32 {
    match g.index {
        Some(a) => (((a + 1) as i32) << 1) | phase_bit(g.phased),
        None => phase_bit(g.phased),
    }
}

/// Decodes a packed genotype code.
pub fn decode(code: i32) -> (g: GenotypeAllele)
    ensures
        g == spec_decode(code),
{
    let half: i32 = code >> 1;
    let index = if half >= 1 {
        Some((half - 1) as u32)
    } else {
        None
    };
    GenotypeAllele { index, phased: code & 1 == 1 }
}

/// Packs an allele into its genotype code.
pub fn encode(g: GenotypeAllele) -> (code: i32)
    requires
        g.encodable(),
    ensures
        code == spec_encode(g),
{
    let bit: i32 = if g.phased {
        1
    } else {
        0
    };
    match g.index {
        Some(a) => (((a + 1) as i32) << 1) | bit,
        None => bit,
    }
}

/// Decoding a packed code gives back the allele and phase it was packed from.
pub proof fn lemma_decode_encode(g: GenotypeAllele)
    requires
        g.encodable(),
    ensures
        spec_decode(spec_encode(g)) == g,
{
    let p = phase_bit(g.phased);
    assert(p & 1 == p && p >> 1 == 0) by (bit_vector)
        requires
            p == 0 || p == 1,
    ;
    if let Some(a) = g.index {
        let x = (a + 1) as i32;
        assert(((x << 1) | p) >> 1 == x && ((x << 1) | p) & 1 == p) by (bit_vector)
            requires
                1 <= x <= 0x3fff_ffff,
                p == 0 || p == 1,
        ;
    }
}

/// Display text of one allele: its index in decimal, or "." when missing.
pub open spec fn allele_text(g: GenotypeAllele) -> Seq<char> {
    match g.index {
        Some(a) => decimal(a as nat),
        None => seq!['.'],
    }
}

pub open spec fn separator(g: GenotypeAllele) -> char {
    if g.phased {
        '|'
    } else {
        '/'
    }
}

/// Display text of a genotype call: the first allele unprefixed, each later
/// allele preceded by "|" when it is phased and "/" when it is not.
pub open spec fn genotype_text(call: Seq<GenotypeAllele>) -> Seq<char>
    decreases call.len(),
{
    if call.len() == 0 {
        seq![]
    } else if call.len() == 1 {
        allele_text(call[0])
    } else {
        genotype_text(call.drop_last()) + seq![separator(call.last())] + allele_text(
            call.last(),
        )
    }
}

fn append_allele(s: &mut String, g: GenotypeAllele)
    ensures
        final(s)@ == old(s)@ + allele_text(g),
{
    match g.index {
        Some(a) => append_decimal(s, a as u64),
        None => {
            push_char(s, '.');
            assert(old(s)@.push('.') =~= old(s)@ + seq!['.']);
        },
    }
}

/// Renders a genotype call, e.g. "0|1/1".
pub fn format_genotype(call: &Vec<GenotypeAllele>) -> (s: String)
    ensures
        s@ == genotype_text(call@),
{
    let mut s = String::new();
    let n = call.len();
    let mut i: usize = 0;
    while i < n
        invariant
            n == call.len(),
            i <= n,
            s@ == genotype_text(call@.take(i as int)),
        decreases n - i,
    {
        let ghost prev = s@;
        if i > 0 {
            push_char(&mut s, if call[i].phased { '|' } else { '/' });
        }
        append_allele(&mut s, call[i]);
        assert(call@.take(i + 1).drop_last() =~= call@.take(i as int));
        if i == 0 {
            assert(prev =~= seq![]);
        } else {
            assert(prev.push(separator(call[i as int])) =~= prev + seq![separator(call[i as int])]);
        }
        i = i + 1;
    }
    assert(call@.take(n as int) =~= call@);
    s
}

/// Decodes every code of one sample's genotype call.
pub fn decode_call(codes: &Vec<i32>) -> (call: Vec<GenotypeAllele>)
    ensures
        call@ == codes@.map_values(|c: i32| spec_decode(c)),
{
    let mut call: Vec<GenotypeAllele> = Vec::new();
    for i in 0..codes.len()
        invariant
            call@ == codes@.take(i as int).map_values(|c: i32| spec_decode(c)),
    {
        call.push(decode(codes[i]));
        assert(codes@.take(i + 1).map_values(|c: i32| spec_decode(c)) =~= codes@.take(
            i as int,
        ).map_values(|c: i32| spec_decode(c)).push(spec_decode(codes@[i as int])));
    }
    assert(codes@.take(codes.len() as int) =~= codes@);
    call
}

} // verus!
