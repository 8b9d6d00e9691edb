//! Matching declared dependency keys against the requested identifiers.
use vstd::prelude::*;

verus! {

/// The characters of `s` with leading and trailing whitespace removed, as
/// `str::trim` computes them.
pub uninterp spec fn trimmed(s: Seq<char>) -> Seq<char>;

/// Relies on `str::trim`: the trimmed text depends on the characters alone.
#[verifier::external_body]
fn trim_owned(s: &str) -> (r: String)
    ensures
        r@ == trimmed(s@),
{
    String::from(s.trim())
}

/// A list of strings as character sequences.
pub open spec fn strings_view(pkgids: Seq<String>) -> Seq<Seq<char>> {
    pkgids.map_values(|s: String| s@)
}

/// A declared key is selected iff, trimmed, it equals some trimmed identifier.
pub open spec fn key_selected(pkgids: Seq<Seq<char>>, key: Seq<char>) -> bool {
    exists|i: int| 0 <= i < pkgids.len() && #[trigger] trimmed(pkgids[i]) == trimmed(key)
}

/// Whether `s` is one of `v`.
pub fn contains_string(v: &Vec<String>, s: &String) -> (r: bool)
    ensures
        r == strings_view(v@).contains(s@),
{
    let mut i: usize = 0;
    while i < v.len()
        invariant
            0 <= i <= v.len(),
            forall|j: int| 0 <= j < i ==> (#[trigger] strings_view(v@)[j]) != s@,
        decreases v.len() - i,
    {
        if v[i] == *s {
            assert(strings_view(v@)[i as int] == s@);
            return true;
        }
        i = i + 1;
    }
    false
}

/// Each identifier with leading and trailing whitespace removed.
pub fn trim_all(pkgids: &Vec<String>) -> (r: Vec<String>)
    ensures
        r@.len() == pkgids@.len(),
        forall|i: int| 0 <= i < pkgids@.len() ==> (#[trigger] r@[i])@ == trimmed(pkgids@[i]@),
{
    let mut out: Vec<String> = Vec::new();
    let mut i: usize = 0;
    while i < pkgids.len()
        invariant
            0 <= i <= pkgids.len(),
            out@.len() == i,
            forall|j: int| 0 <= j < i ==> (#[trigger] out@[j])@ == trimmed(pkgids@[j]@),
        decreases pkgids.len() - i,
    {
        out.push(trim_owned(pkgids[i].as_str()));
        i = i + 1;
    }
    out
}

/// Whether `key`, compared trimmed and exactly, is one of `pkgids`.
pub fn key_is_selected(pkgids: &Vec<String>, key: &str) -> (r: bool)
    ensures
        r == key_selected(strings_view(pkgids@), key@),
{
    let ids = trim_all(pkgids);
    let k = trim_owned(key);
    let r = contains_string(&ids, &k);
    proof {
        let sv = strings_view(pkgids@);
        if r {
            let j = choose|j: int| 0 <= j < ids@.len() && strings_view(ids@)[j] == k@;
            assert(trimmed(sv[j]) == trimmed(key@));
        }
        if key_selected(sv, key@) {
            let j = choose|j: int| 0 <= j < sv.len() && #[trigger] trimmed(sv[j]) == trimmed(key@);
            assert(strings_view(ids@)[j] == k@);
        }
    }
    r
}

} // verus!
