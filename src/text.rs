use vstd::prelude::*;

verus! {

pub uninterp spec fn lower_of(s: Seq<char>) -> Seq<char>;

/// Relies on str::to_lowercase: the result depends on the characters alone,
/// and the empty string stays empty.
#[verifier::external_body]
pub(crate) fn lowercase(s: &str) -> (r: String)
    ensures
        r@ == lower_of(s@),
        s@.len() == 0 ==> r@.len() == 0,
{
    s.to_lowercase()
}

/// Relies on str::chars: the characters of the string, in order.
#[verifier::external_body]
pub(crate) fn chars_of(s: &str) -> (r: Vec<char>)
    ensures
        r@ == s@,
{
    s.chars().collect()
}

/// Whether `c` occurs in `s`.
pub fn contains_char(s: &str, c: char) -> (r: bool)
    ensures
        r == s@.contains(c),
{
    let v = chars_of(s);
    let mut i: usize = 0;
    while i < v.len()
        invariant
            v@ == s@,
            i <= v.len(),
            forall|j: int| 0 <= j < i ==> v@[j] != c,
        decreases v.len() - i,
    {
        if v[i] == c {
            return true;
        }
        i = i + 1;
    }
    false
}

/// `a` followed by `b`, as a new string.
pub fn join2(a: &str, b: &str) -> (r: String)
    ensures
        r@ == a@ + b@,
{
    let s = String::from_str(a);
    s.concat(b)
}

/// Relies on `FromIterator<char>` for `String`: the characters in order.
#[verifier::external_body]
pub(crate) fn string_of(v: &Vec<char>) -> (r: String)
    ensures
        r@ == v@,
{
    v.iter().collect()
}

/// `s` with every occurrence of `p` taken out, scanning from the left and
/// never letting two occurrences overlap.
pub open spec fn remove_all(s: Seq<char>, p: Seq<char>) -> Seq<char>
    decreases s.len(),
{
    if s.len() == 0 {
        s
    } else if 0 < p.len() <= s.len() && s.subrange(0, p.len() as int) == p {
        remove_all(s.subrange(p.len() as int, s.len() as int), p)
    } else {
        seq![s[0]] + remove_all(s.subrange(1, s.len() as int), p)
    }
}

/// Whether `p` occurs in `v` at position `i`.
fn occurs_at(v: &Vec<char>, p: &Vec<char>, i: usize) -> (r: bool)
    requires
        i <= v@.len(),
    ensures
        r == (p@.len() <= v@.len() - i && v@.subrange(i as int, i + p@.len()) == p@),
{
    if p.len() > v.len() - i {
        return false;
    }
    let mut j: usize = 0;
    while j < p.len()
        invariant
            i <= v@.len(),
            p@.len() <= v@.len() - i,
            v@.len() <= usize::MAX,
            j <= p@.len(),
            forall|t: int| 0 <= t < j ==> v@[i + t] == p@[t],
        decreases p.len() - j,
    {
        let at: usize = i + j;
        if v[at] != p[j] {
            assert(v@.subrange(i as int, i + p@.len())[j as int] != p@[j as int]);
            return false;
        }
        j = j + 1;
    }
    assert(v@.subrange(i as int, i + p@.len()) =~= p@);
    true
}

/// `s` with every occurrence of `p` taken out, as `str::replace(s, p, "")` does.
pub fn remove_all_of(s: &str, p: &str) -> (r: String)
    requires
        p@.len() > 0,
    ensures
        r@ == remove_all(s@, p@),
{
    let v = chars_of(s);
    let pv = chars_of(p);
    let mut out: Vec<char> = Vec::new();
    let mut i: usize = 0;
    assert(v@.subrange(0, v@.len() as int) =~= v@);
    assert(out@ + remove_all(s@, p@) =~= remove_all(s@, p@));
    while i < v.len()
        invariant
            v@ == s@,
            pv@ == p@,
            p@.len() > 0,
            i <= v@.len(),
            out@ + remove_all(v@.subrange(i as int, v@.len() as int), p@) == remove_all(s@, p@),
        decreases v.len() - i,
    {
        let ghost rest = v@.subrange(i as int, v@.len() as int);
        if occurs_at(&v, &pv, i) {
            assert(rest.subrange(0, p@.len() as int) =~= v@.subrange(i as int, i + p@.len()));
            assert(rest.subrange(p@.len() as int, rest.len() as int) =~= v@.subrange(i + p@.len(), v@.len() as int));
            i = i + pv.len();
        } else {
            assert(rest.len() < p@.len() || rest.subrange(0, p@.len() as int) =~= v@.subrange(i as int, i + p@.len()));
            assert(rest.subrange(1, rest.len() as int) =~= v@.subrange(i + 1, v@.len() as int));
            assert(out@.push(v@[i as int]) + remove_all(v@.subrange(i + 1, v@.len() as int), p@) =~= out@ + remove_all(rest, p@));
            out.push(v[i]);
            i = i + 1;
        }
    }
    assert(v@.subrange(i as int, v@.len() as int) =~= Seq::<char>::empty());
    assert(out@ =~= out@ + remove_all(Seq::<char>::empty(), p@));
    string_of(&out)
}

} // verus!
