//! A model of an HTTP header map: an ordered list of name/value pairs.
//! Setting a name removes every pair whose name matches it, so at most one
//! pair per set name survives; appending keeps duplicates, as inbound
//! requests may legitimately carry repeated headers.  Names match
//! ASCII-case-insensitively, as HTTP header names do; a stored pair keeps
//! the spelling it was given.

use vstd::prelude::*;

verus! {

/// `c` with an ASCII capital letter lowered; any other character unchanged.
pub open spec fn lower_char(c: char) -> char {
    if 'A' <= c && c <= 'Z' {
        (((c as u8) + 32) as char)
    } else {
        c
    }
}

/// `s` with every ASCII capital letter lowered.
pub open spec fn lower_seq(s: Seq<char>) -> Seq<char> {
    s.map_values(|c: char| lower_char(c))
}

/// Two header names denote the same header: they are equal up to ASCII
/// case.
pub open spec fn name_matches(a: Seq<char>, b: Seq<char>) -> bool {
    lower_seq(a) == lower_seq(b)
}

/// The pairs of `hs` with every pair whose name matches `name` removed,
/// order otherwise kept.
pub open spec fn remove_name(
    hs: Seq<(Seq<char>, Seq<char>)>,
    name: Seq<char>,
) -> Seq<(Seq<char>, Seq<char>)>
    decreases hs.len(),
{
    if hs.len() == 0 {
        Seq::<(Seq<char>, Seq<char>)>::empty()
    } else {
        let rest = remove_name(hs.drop_last(), name);
        if name_matches(hs.last().0, name) {
            rest
        } else {
            rest.push(hs.last())
        }
    }
}

/// The pairs of `hs` after `name` is set to `value`: every earlier pair
/// whose name matches is removed and the new pair appended.
pub open spec fn header_insert(
    hs: Seq<(Seq<char>, Seq<char>)>,
    name: Seq<char>,
    value: Seq<char>,
) -> Seq<(Seq<char>, Seq<char>)> {
    remove_name(hs, name).push((name, value))
}

/// How many pairs of `hs` have a name matching `name`.
pub open spec fn count_name(hs: Seq<(Seq<char>, Seq<char>)>, name: Seq<char>) -> nat
    decreases hs.len(),
{
    if hs.len() == 0 {
        0
    } else {
        count_name(hs.drop_last(), name) + (if name_matches(hs.last().0, name) {
            1nat
        } else {
            0nat
        })
    }
}

/// The value of the last pair of `hs` whose name matches `name`, if any.
pub open spec fn lookup_name(hs: Seq<(Seq<char>, Seq<char>)>, name: Seq<char>) -> Option<
    Seq<char>,
>
    decreases hs.len(),
{
    if hs.len() == 0 {
        Option::None
    } else if name_matches(hs.last().0, name) {
        Option::Some(hs.last().1)
    } else {
        lookup_name(hs.drop_last(), name)
    }
}

fn exec_lower_char(c: char) -> (l: char)
    ensures
        l == lower_char(c),
{
    if 'A' <= c && c <= 'Z' {
        ((c as u8) + 32) as char
    } else {
        c
    }
}

/// Decides whether two header names denote the same header (equal up to
/// ASCII case).
fn names_equal(a: &String, b: &String) -> (eq: bool)
    ensures
        eq == name_matches(a@, b@),
{
    let n = a.as_str().unicode_len();
    let m = b.as_str().unicode_len();
    if n != m {
        proof {
            assert(lower_seq(a@).len() != lower_seq(b@).len());
        }
        return false;
    }
    let mut i: usize = 0;
    while i < n
        invariant
            n == a@.len(),
            n == b@.len(),
            0 <= i <= n,
            forall|j: int| 0 <= j < i ==> #[trigger] lower_char(a@[j]) == lower_char(b@[j]),
        decreases n - i,
    {
        if exec_lower_char(a.as_str().get_char(i)) != exec_lower_char(b.as_str().get_char(i)) {
            proof {
                assert(lower_seq(a@)[i as int] != lower_seq(b@)[i as int]);
            }
            return false;
        }
        i = i + 1;
    }
    proof {
        assert(lower_seq(a@) =~= lower_seq(b@));
    }
    true
}

/// An ordered collection of header name/value pairs.
pub struct Headers {
    entries: Vec<(String, String)>,
}

impl View for Headers {
    type V = Seq<(Seq<char>, Seq<char>)>;

    closed spec fn view(&self) -> Seq<(Seq<char>, Seq<char>)> {
        self.entries@.map_values(|e: (String, String)| (e.0@, e.1@))
    }
}

impl Headers {
    /// An empty header map.
    pub fn new() -> (h: Headers)
        ensures
            h@ =~= Seq::<(Seq<char>, Seq<char>)>::empty(),
    {
        Headers { entries: Vec::new() }
    }

    /// The number of pairs held.
    pub fn len(&self) -> (n: usize)
        ensures
            n == self@.len(),
    {
        self.entries.len()
    }

    /// Appends one pair, keeping any pair already carrying the same name:
    /// the verbatim copy for inbound headers, which may repeat.
    pub fn append(&mut self, name: String, value: String)
        ensures
            final(self)@ == old(self)@.push((name@, value@)),
    {
        self.entries.push((name, value));
        proof {
            assert(final(self)@ =~= old(self)@.push((name@, value@)));
        }
    }

    /// Sets `name` to `value`, removing every pair whose name matches
    /// `name`, so exactly one pair with that name remains.
    pub fn insert(&mut self, name: String, value: String)
        ensures
            final(self)@ == header_insert(old(self)@, name@, value@),
    {
        let ghost v = self@;
        let n = self.entries.len();
        let mut out: Vec<(String, String)> = Vec::new();
        let mut i: usize = 0;
        proof {
            assert(v.take(0) =~= Seq::<(Seq<char>, Seq<char>)>::empty());
            assert(out@.map_values(|e: (String, String)| (e.0@, e.1@)) =~= remove_name(
                v.take(0),
                name@,
            ));
        }
        while i < n
            invariant
                n == self.entries.len(),
                v == self@,
                0 <= i <= n,
                out@.map_values(|e: (String, String)| (e.0@, e.1@)) == remove_name(
                    v.take(i as int),
                    name@,
                ),
            decreases n - i,
        {
            proof {
                assert(v.take(i + 1).drop_last() =~= v.take(i as int));
                assert(v.take(i + 1).last() == v[i as int]);
                assert(v[i as int] == (self.entries@[i as int].0@, self.entries@[i as int].1@));
            }
            let same_name = names_equal(&self.entries[i].0, &name);
            if !same_name {
                let entry = (self.entries[i].0.clone(), self.entries[i].1.clone());
                out.push(entry);
                proof {
                    assert(out@.map_values(|e: (String, String)| (e.0@, e.1@)) =~= remove_name(
                        v.take(i as int),
                        name@,
                    ).push(v[i as int]));
                }
            }
            i = i + 1;
        }
        proof {
            assert(v.take(n as int) =~= v);
        }
        out.push((name, value));
        self.entries = out;
        proof {
            assert(final(self)@ =~= remove_name(v, name@).push((name@, value@)));
        }
    }

    /// The pairs held, in order.
    pub fn entries(&self) -> (r: &Vec<(String, String)>)
        ensures
            r@.map_values(|e: (String, String)| (e.0@, e.1@)) == self@,
    {
        &self.entries
    }

    /// The value stored under `name` (matched up to ASCII case), if any.
    pub fn get_value(&self, name: &String) -> (r: Option<String>)
        ensures
            match r {
                Option::Some(value) => lookup_name(self@, name@) == Option::Some(value@),
                Option::None => lookup_name(self@, name@) is None,
            },
    {
        let ghost v = self@;
        let mut i = self.entries.len();
        proof {
            assert(v.take(self.entries.len() as int) =~= v);
        }
        while i > 0
            invariant
                i <= self.entries.len(),
                v == self@,
                lookup_name(v, name@) == lookup_name(v.take(i as int), name@),
            decreases i,
        {
            i = i - 1;
            proof {
                assert(v.take(i + 1).drop_last() =~= v.take(i as int));
                assert(v.take(i + 1).last() == v[i as int]);
                assert(v[i as int] == (self.entries@[i as int].0@, self.entries@[i as int].1@));
            }
            if names_equal(&self.entries[i].0, name) {
                return Option::Some(self.entries[i].1.clone());
            }
        }
        proof {
            assert(v.take(0) =~= Seq::<(Seq<char>, Seq<char>)>::empty());
        }
        Option::None
    }
}

/// Removing a name removes every pair whose name matches it.
pub proof fn lemma_remove_name_count(hs: Seq<(Seq<char>, Seq<char>)>, name: Seq<char>)
    ensures
        count_name(remove_name(hs, name), name) == 0,
    decreases hs.len(),
{
    if hs.len() > 0 {
        lemma_remove_name_count(hs.drop_last(), name);
        if !name_matches(hs.last().0, name) {
            let rest = remove_name(hs.drop_last(), name);
            assert(rest.push(hs.last()).drop_last() =~= rest);
            assert(rest.push(hs.last()).last() == hs.last());
        }
    }
}

/// Removing one name leaves the multiplicity of every non-matching name
/// unchanged.
pub proof fn lemma_remove_name_other(
    hs: Seq<(Seq<char>, Seq<char>)>,
    name: Seq<char>,
    other: Seq<char>,
)
    requires
        !name_matches(other, name),
    ensures
        count_name(remove_name(hs, name), other) == count_name(hs, other),
    decreases hs.len(),
{
    if hs.len() > 0 {
        lemma_remove_name_other(hs.drop_last(), name, other);
        if !name_matches(hs.last().0, name) {
            let rest = remove_name(hs.drop_last(), name);
            assert(rest.push(hs.last()).drop_last() =~= rest);
            assert(rest.push(hs.last()).last() == hs.last());
        }
    }
}

/// Setting a header overwrites rather than duplicates: afterwards exactly
/// one pair carries a name matching the inserted one, its value is the
/// inserted value, and the multiplicity of every non-matching name is
/// unchanged.
pub proof fn lemma_header_insert_unique(
    hs: Seq<(Seq<char>, Seq<char>)>,
    name: Seq<char>,
    value: Seq<char>,
)
    ensures
        count_name(header_insert(hs, name, value), name) == 1,
        forall|other: Seq<char>|
            !name_matches(other, name) ==> #[trigger] count_name(
                header_insert(hs, name, value),
                other,
            ) == count_name(hs, other),
        lookup_name(header_insert(hs, name, value), name) == Option::Some(value),
{
    let removed = remove_name(hs, name);
    let inserted = header_insert(hs, name, value);
    lemma_remove_name_count(hs, name);
    assert(inserted.drop_last() =~= removed);
    assert(inserted.last() == (name, value));
    assert forall|other: Seq<char>| !name_matches(other, name) implies #[trigger] count_name(
        inserted,
        other,
    ) == count_name(hs, other) by {
        lemma_remove_name_other(hs, name, other);
        assert(!name_matches(name, other));
    }
}

} // verus!
