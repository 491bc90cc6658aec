use vstd::prelude::*;

verus! {

/// A real-valued sampling parameter (a temperature, a penalty, a bias),
/// carried as the bit pattern of an IEEE 754 double so that the configuration
/// holds it exactly without doing arithmetic on it.
#[derive(Clone, Copy, Debug, PartialEq, Eq, Structural)]
pub struct Real {
    pub bits: u64,
}

/// Bit pattern of `0.0`.
pub const ZERO_BITS: u64 = 0;

/// Bit pattern of `1.0`.
pub const ONE_BITS: u64 = 0x3FF0_0000_0000_0000;

impl Real {
    pub open spec fn spec_zero() -> Real {
        Real { bits: ZERO_BITS }
    }

    pub open spec fn spec_one() -> Real {
        Real { bits: ONE_BITS }
    }

    /// The value with the given bit pattern.
    pub fn from_bits(bits: u64) -> (r: Real)
        ensures
            r.bits == bits,
    {
        Real { bits }
    }

    /// `0.0`
    pub fn zero() -> (r: Real)
        ensures
            r == Real::spec_zero(),
    {
        Real { bits: ZERO_BITS }
    }

    /// `1.0`
    pub fn one() -> (r: Real)
        ensures
            r == Real::spec_one(),
    {
        Real { bits: ONE_BITS }
    }
}

/// A value when one was set, else the default.
pub open spec fn or_default<T>(o: Option<T>, d: T) -> T {
    match o {
        Some(v) => v,
        None => d,
    }
}

/// The texts of a list of strings.
pub open spec fn texts_view(v: Seq<String>) -> Seq<Seq<char>> {
    v.map_values(|s: String| s@)
}

/// The texts of an optional list of strings.
pub open spec fn opt_texts_view(o: Option<Vec<String>>) -> Option<Seq<Seq<char>>> {
    match o {
        Some(v) => Some(texts_view(v@)),
        None => None,
    }
}

/// The views of a list of (token, bias) entries.
pub open spec fn bias_view(v: Seq<(String, Real)>) -> Seq<(Seq<char>, Real)> {
    v.map_values(|e: (String, Real)| (e.0@, e.1))
}

/// The token-to-bias table that a list of (token, bias) entries stands for:
/// each token with the bias of its last entry.
pub open spec fn bias_table(entries: Seq<(Seq<char>, Real)>) -> Map<Seq<char>, Real>
    decreases entries.len(),
{
    if entries.len() == 0 {
        Map::empty()
    } else {
        bias_table(entries.drop_last()).insert(entries.last().0, entries.last().1)
    }
}

/// The table of a list of (token, bias) entries, from the entries as held.
pub open spec fn bias_map(v: Seq<(String, Real)>) -> Map<Seq<char>, Real> {
    bias_table(bias_view(v))
}

/// A copy of an optional text.
pub fn copy_opt_text(o: &Option<String>) -> (r: Option<String>)
    ensures
        r is Some <==> o is Some,
        r is Some ==> r->Some_0@ == o->Some_0@,
{
    match o {
        Some(s) => Some(s.clone()),
        None => None,
    }
}

/// A copy of a list of strings.
pub fn copy_texts(v: &Vec<String>) -> (r: Vec<String>)
    ensures
        texts_view(r@) == texts_view(v@),
{
    let mut r: Vec<String> = Vec::new();
    let mut i: usize = 0;
    while i < v.len()
        invariant
            i <= v@.len(),
            texts_view(r@) =~= texts_view(v@).subrange(0, i as int),
        decreases v@.len() - i,
    {
        let ghost before = r@;
        r.push(v[i].clone());
        assert(texts_view(r@) =~= texts_view(before).push(v@[i as int]@));
        i = i + 1;
    }
    assert(texts_view(v@).subrange(0, v@.len() as int) =~= texts_view(v@));
    r
}

/// A copy of an optional list of strings.
pub fn copy_opt_texts(o: &Option<Vec<String>>) -> (r: Option<Vec<String>>)
    ensures
        opt_texts_view(r) == opt_texts_view(*o),
{
    match o {
        Some(v) => Some(copy_texts(v)),
        None => None,
    }
}

/// A copy of a list of (token, bias) entries.
pub fn copy_bias(v: &Vec<(String, Real)>) -> (r: Vec<(String, Real)>)
    ensures
        bias_view(r@) == bias_view(v@),
{
    let mut r: Vec<(String, Real)> = Vec::new();
    let mut i: usize = 0;
    while i < v.len()
        invariant
            i <= v@.len(),
            bias_view(r@) =~= bias_view(v@).subrange(0, i as int),
        decreases v@.len() - i,
    {
        let ghost before = r@;
        let entry = (v[i].0.clone(), v[i].1);
        r.push(entry);
        assert(bias_view(r@) =~= bias_view(before).push((v@[i as int].0@, v@[i as int].1)));
        i = i + 1;
    }
    assert(bias_view(v@).subrange(0, v@.len() as int) =~= bias_view(v@));
    r
}

/// A copy of an optional list of (token, bias) entries.
pub fn copy_opt_bias(o: &Option<Vec<(String, Real)>>) -> (r: Option<Vec<(String, Real)>>)
    ensures
        r is Some <==> o is Some,
        r is Some ==> bias_view(r->Some_0@) == bias_view(o->Some_0@),
{
    match o {
        Some(v) => Some(copy_bias(v)),
        None => None,
    }
}

} // verus!
