//! An ordered multimap of HTTP headers with case-insensitive names.
//!
//! Header names are compared ASCII-case-insensitively; values are kept
//! verbatim. `set_header` overwrites: it removes every entry whose name
//! matches and appends the new pair at the end.

use vstd::prelude::*;

verus! {

/// ASCII lower-casing of one character: `'A'..='Z'` map to `'a'..='z'`,
/// everything else is unchanged.
pub open spec fn lower_char(c: char) -> char {
    if 'A' <= c && c <= 'Z' {
        (((c as u8) + 32) as char)
    } else {
        c
    }
}

/// ASCII lower-casing of a character sequence.
pub open spec fn lower(s: Seq<char>) -> Seq<char> {
    s.map_values(|c: char| lower_char(c))
}

/// Header-name equality: equal up to ASCII case.
pub open spec fn name_eq(a: Seq<char>, b: Seq<char>) -> bool {
    lower(a) == lower(b)
}

/// One header: a name and a value.
#[derive(Debug)]
pub struct Header {
    pub name: String,
    pub value: String,
}

impl View for Header {
    type V = (Seq<char>, Seq<char>);

    open spec fn view(&self) -> (Seq<char>, Seq<char>) {
        (self.name@, self.value@)
    }
}

impl Clone for Header {
    fn clone(&self) -> (r: Self)
        ensures
            r@ == self@,
    {
        Header { name: self.name.clone(), value: self.value.clone() }
    }
}

/// The value of the first header whose name matches `name`, if any.
pub open spec fn first_value(s: Seq<(Seq<char>, Seq<char>)>, name: Seq<char>) -> Option<Seq<char>>
    decreases s.len(),
{
    if s.len() == 0 {
        None
    } else if name_eq(s[0].0, name) {
        Some(s[0].1)
    } else {
        first_value(s.drop_first(), name)
    }
}

/// The sequence with every entry whose name matches `name` removed.
pub open spec fn remove_name(
    s: Seq<(Seq<char>, Seq<char>)>,
    name: Seq<char>,
) -> Seq<(Seq<char>, Seq<char>)>
    decreases s.len(),
{
    if s.len() == 0 {
        Seq::empty()
    } else if name_eq(s[0].0, name) {
        remove_name(s.drop_first(), name)
    } else {
        seq![s[0]] + remove_name(s.drop_first(), name)
    }
}

/// Overwrite semantics: drop all entries named `name`, then append the pair.
pub open spec fn spec_set_header(
    s: Seq<(Seq<char>, Seq<char>)>,
    name: Seq<char>,
    value: Seq<char>,
) -> Seq<(Seq<char>, Seq<char>)> {
    remove_name(s, name).push((name, value))
}

/// Names of different lengths never match: lower-casing keeps length.
pub proof fn lemma_name_neq_len(a: Seq<char>, b: Seq<char>)
    requires
        a.len() != b.len(),
    ensures
        !name_eq(a, b),
{
    assert(lower(a).len() == a.len());
    assert(lower(b).len() == b.len());
}

/// Names that differ at one position after lower-casing never match.
pub proof fn lemma_name_neq_at(a: Seq<char>, b: Seq<char>, i: int)
    requires
        0 <= i < a.len(),
        0 <= i < b.len(),
        lower_char(a[i]) != lower_char(b[i]),
    ensures
        !name_eq(a, b),
{
    if name_eq(a, b) {
        assert(lower(a)[i] == lower(b)[i]);
        assert(lower(a)[i] == lower_char(a[i]));
        assert(lower(b)[i] == lower_char(b[i]));
    }
}

/// How `remove_name` treats an entry appended at the end.
pub proof fn lemma_remove_name_push(
    s: Seq<(Seq<char>, Seq<char>)>,
    p: (Seq<char>, Seq<char>),
    n: Seq<char>,
)
    ensures
        remove_name(s.push(p), n) == (if name_eq(p.0, n) {
            remove_name(s, n)
        } else {
            remove_name(s, n).push(p)
        }),
    decreases s.len(),
{
    if s.len() == 0 {
        assert(s =~= Seq::<(Seq<char>, Seq<char>)>::empty());
        assert(s.push(p)[0] == p);
        assert(s.push(p).drop_first() =~= s);
        assert(remove_name(s, n) == Seq::<(Seq<char>, Seq<char>)>::empty());
        if name_eq(p.0, n) {
            assert(remove_name(s.push(p), n) =~= remove_name(s, n));
        } else {
            assert(remove_name(s.push(p), n) =~= remove_name(s, n).push(p));
        }
    } else {
        assert(s.push(p)[0] == s[0]);
        assert(s.push(p).drop_first() =~= s.drop_first().push(p));
        lemma_remove_name_push(s.drop_first(), p, n);
        if name_eq(p.0, n) {
            assert(remove_name(s.push(p), n) =~= remove_name(s, n));
        } else {
            assert(remove_name(s.push(p), n) =~= remove_name(s, n).push(p));
        }
    }
}

/// How `first_value` treats an entry appended at the end.
pub proof fn lemma_first_value_push(
    s: Seq<(Seq<char>, Seq<char>)>,
    p: (Seq<char>, Seq<char>),
    n: Seq<char>,
)
    ensures
        first_value(s.push(p), n) == (if first_value(s, n) is Some {
            first_value(s, n)
        } else if name_eq(p.0, n) {
            Some(p.1)
        } else {
            None::<Seq<char>>
        }),
    decreases s.len(),
{
    if s.len() == 0 {
        assert(s =~= Seq::<(Seq<char>, Seq<char>)>::empty());
        assert(s.push(p)[0] == p);
        assert(s.push(p).drop_first() =~= s);
        assert(first_value(s, n) is None);
    } else {
        assert(s.push(p)[0] == s[0]);
        assert(s.push(p).drop_first() =~= s.drop_first().push(p));
        lemma_first_value_push(s.drop_first(), p, n);
    }
}

/// Removing entries of one name leaves the first value of any other name
/// unchanged.
pub proof fn lemma_first_value_remove_other(
    s: Seq<(Seq<char>, Seq<char>)>,
    m: Seq<char>,
    n: Seq<char>,
)
    requires
        !name_eq(m, n),
    ensures
        first_value(remove_name(s, m), n) == first_value(s, n),
    decreases s.len(),
{
    if s.len() == 0 {
    } else {
        lemma_first_value_remove_other(s.drop_first(), m, n);
        if name_eq(s[0].0, m) {
            assert(!name_eq(s[0].0, n));
        } else {
            let rest = remove_name(s.drop_first(), m);
            assert((seq![s[0]] + rest)[0] == s[0]);
            assert((seq![s[0]] + rest).drop_first() =~= rest);
        }
    }
}

/// After removing a name, no value under that name is left.
pub proof fn lemma_first_value_remove_same(
    s: Seq<(Seq<char>, Seq<char>)>,
    m: Seq<char>,
    n: Seq<char>,
)
    requires
        name_eq(m, n),
    ensures
        first_value(remove_name(s, m), n) is None,
    decreases s.len(),
{
    if s.len() == 0 {
    } else {
        lemma_first_value_remove_same(s.drop_first(), m, n);
        if !name_eq(s[0].0, m) {
            let rest = remove_name(s.drop_first(), m);
            assert((seq![s[0]] + rest)[0] == s[0]);
            assert(!name_eq(s[0].0, n));
            assert((seq![s[0]] + rest).drop_first() =~= rest);
        }
    }
}

/// What `spec_set_header` does to lookups: the written name now maps to the
/// written value, every other name is untouched.
pub proof fn lemma_first_value_set(
    s: Seq<(Seq<char>, Seq<char>)>,
    m: Seq<char>,
    v: Seq<char>,
    n: Seq<char>,
)
    ensures
        first_value(spec_set_header(s, m, v), n) == (if name_eq(m, n) {
            Some(v)
        } else {
            first_value(s, n)
        }),
{
    if name_eq(m, n) {
        lemma_first_value_remove_same(s, m, n);
        lemma_first_value_push(remove_name(s, m), (m, v), n);
    } else {
        lemma_first_value_remove_other(s, m, n);
        lemma_first_value_push(remove_name(s, m), (m, v), n);
    }
}

/// An ordered list of headers; one name may occur more than once.
#[derive(Debug)]
pub struct HeaderMap {
    pub entries: Vec<Header>,
}

impl View for HeaderMap {
    type V = Seq<(Seq<char>, Seq<char>)>;

    open spec fn view(&self) -> Seq<(Seq<char>, Seq<char>)> {
        self.entries@.map_values(|h: Header| h@)
    }
}

/// Lower-case one character, as `lower_char` describes.
pub fn lower_char_exec(c: char) -> (r: char)
    ensures
        r == lower_char(c),
{
    let u = c as u32;
    if 65 <= u && u <= 90 {
        ((u + 32) as u8) as char
    } else {
        c
    }
}

/// Whether two header names are equal up to ASCII case.
pub fn names_match(a: &str, b: &str) -> (r: bool)
    ensures
        r == name_eq(a@, b@),
{
    let alen = a.unicode_len();
    let blen = b.unicode_len();
    if alen != blen {
        assert(lower(a@).len() != lower(b@).len());
        return false;
    }
    let mut i: usize = 0;
    while i < alen
        invariant
            alen == a@.len(),
            blen == b@.len(),
            alen == blen,
            i <= alen,
            forall|j: int| 0 <= j < i ==> lower_char(a@[j]) == lower_char(b@[j]),
        decreases alen - i,
    {
        let ca = a.get_char(i);
        let cb = b.get_char(i);
        if lower_char_exec(ca) != lower_char_exec(cb) {
            assert(lower(a@)[i as int] != lower(b@)[i as int]);
            return false;
        }
        i += 1;
    }
    assert(lower(a@) =~= lower(b@));
    true
}

impl HeaderMap {
    /// An empty header map.
    pub fn new() -> (r: HeaderMap)
        ensures
            r@ == Seq::<(Seq<char>, Seq<char>)>::empty(),
    {
        let r = HeaderMap { entries: Vec::new() };
        assert(r@ =~= Seq::<(Seq<char>, Seq<char>)>::empty());
        r
    }

    /// The value of the first header named `name` (case-insensitively), if any.
    pub fn get_header(&self, name: &str) -> (r: Option<String>)
        ensures
            match r {
                Some(v) => first_value(self@, name@) == Some(v@),
                None => first_value(self@, name@) is None,
            },
    {
        let ghost full = self@;
        assert(full.skip(0) =~= full);
        let mut i: usize = 0;
        while i < self.entries.len()
            invariant
                i <= self.entries.len(),
                full == self@,
                first_value(full.skip(i as int), name@) == first_value(full, name@),
            decreases self.entries.len() - i,
        {
            assert(full.skip(i as int)[0] == full[i as int]);
            if names_match(self.entries[i].name.as_str(), name) {
                return Some(self.entries[i].value.clone());
            }
            assert(full.skip(i as int).drop_first() =~= full.skip(i as int + 1));
            i += 1;
        }
        assert(full.skip(i as int) =~= Seq::<(Seq<char>, Seq<char>)>::empty());
        None
    }

    /// Overwrite a header: drop every entry whose name matches `name`
    /// (case-insensitively) and append the new pair at the end.
    pub fn set_header(&mut self, name: &str, value: &str)
        ensures
            final(self)@ == spec_set_header(old(self)@, name@, value@),
    {
        let ghost orig = self@;
        let mut kept: Vec<Header> = Vec::new();
        assert(orig.take(0) =~= Seq::<(Seq<char>, Seq<char>)>::empty());
        assert(kept@.map_values(|h: Header| h@) =~= remove_name(orig.take(0), name@));
        let mut i: usize = 0;
        while i < self.entries.len()
            invariant
                i <= self.entries.len(),
                self@ == orig,
                orig.len() == self.entries@.len(),
                kept@.map_values(|h: Header| h@) == remove_name(orig.take(i as int), name@),
            decreases self.entries.len() - i,
        {
            let ghost prev = kept@.map_values(|h: Header| h@);
            if !names_match(self.entries[i].name.as_str(), name) {
                let copy = self.entries[i].clone();
                kept.push(copy);
                assert(kept@.map_values(|h: Header| h@) =~= prev.push(orig[i as int]));
            }
            proof {
                assert(orig.take(i as int + 1) =~= orig.take(i as int).push(orig[i as int]));
                lemma_remove_name_push(orig.take(i as int), orig[i as int], name@);
            }
            i += 1;
        }
        proof {
            assert(orig.take(orig.len() as int) =~= orig);
        }
        kept.push(Header { name: name.to_owned(), value: value.to_owned() });
        assert(kept@.map_values(|h: Header| h@) =~= remove_name(orig, name@).push((name@, value@)));
        self.entries = kept;
    }
}

} // verus!
