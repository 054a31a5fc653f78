//! The per-request metadata snapshot and the header-field transformation.

use vstd::prelude::*;

verus! {

/// Uppercases an ASCII lowercase letter; every other character is unchanged.
pub open spec fn upper_char(c: char) -> char {
    if 97 <= c as u32 <= 122 {
        (((c as u32) - 32) as u8) as char
    } else {
        c
    }
}

/// One character of a header name, as it appears in a field key:
/// `-` becomes `_`, everything else is ASCII-uppercased.
pub open spec fn field_char(c: char) -> char {
    if c == '-' {
        '_'
    } else {
        upper_char(c)
    }
}

/// The field key under which a header is stored: `HTTP_` followed by the
/// transformed header name.
pub open spec fn field_key(name: Seq<char>) -> Seq<char> {
    "HTTP_"@ + name.map_values(|c: char| field_char(c))
}

/// Relies on `String::push`: appends exactly the given character.
#[verifier::external_body]
fn push_char(s: &mut String, c: char)
    ensures
        final(s)@ == old(s)@.push(c),
{
    s.push(c);
}

/// The mapping that a sequence of key/value pairs denotes: a later pair with
/// the same key overwrites an earlier one.
pub open spec fn pairs_map(s: Seq<(Seq<char>, Seq<char>)>) -> Map<Seq<char>, Seq<char>>
    decreases s.len(),
{
    if s.len() == 0 {
        Map::empty()
    } else {
        pairs_map(s.drop_last()).insert(s.last().0, s.last().1)
    }
}

/// No two pairs share a key.
pub open spec fn distinct_keys(s: Seq<(Seq<char>, Seq<char>)>) -> bool {
    forall|i: int, j: int| 0 <= i < j < s.len() ==> s[i].0 != s[j].0
}

/// The view of a sequence of owned string pairs.
pub open spec fn string_pair_views(s: Seq<(String, String)>) -> Seq<(Seq<char>, Seq<char>)> {
    s.map_values(|p: (String, String)| (p.0@, p.1@))
}

/// The view of a sequence of raw header name/value pairs.
pub open spec fn header_views(s: Seq<(String, Vec<u8>)>) -> Seq<(Seq<char>, Seq<u8>)> {
    s.map_values(|p: (String, Vec<u8>)| (p.0@, p.1@))
}

/// The field mapping built from a sequence of raw headers: every header
/// contributes the entry `field_key(name) -> lossy_text(value)`, and a later
/// header with the same field key overwrites an earlier one.
pub open spec fn cgi_fields(h: Seq<(Seq<char>, Seq<u8>)>) -> Map<Seq<char>, Seq<char>>
    decreases h.len(),
{
    if h.len() == 0 {
        Map::empty()
    } else {
        cgi_fields(h.drop_last()).insert(
            field_key(h.last().0),
            crate::headers::lossy_text(h.last().1),
        )
    }
}

/// Builds the field key for one header name.
pub fn cgi_key(name: &str) -> (r: String)
    ensures
        r@ == field_key(name@),
{
    let mut r = String::from_str("HTTP_");
    proof {
        reveal_strlit("HTTP_");
    }
    let n = name.unicode_len();
    let mut i: usize = 0;
    while i < n
        invariant
            n == name@.len(),
            i <= n,
            r@ == "HTTP_"@ + name@.take(i as int).map_values(|c: char| field_char(c)),
        decreases n - i,
    {
        let c = name.get_char(i);
        let t: char = if c == '-' {
            '_'
        } else {
            let u = c as u32;
            if 97 <= u && u <= 122 {
                ((u - 32) as u8) as char
            } else {
                c
            }
        };
        push_char(&mut r, t);
        proof {
            assert(name@.take(i + 1).map_values(|c: char| field_char(c)) =~= name@.take(
                i as int,
            ).map_values(|c: char| field_char(c)).push(field_char(name@[i as int])));
        }
        i = i + 1;
    }
    proof {
        assert(name@.take(n as int) =~= name@);
    }
    r
}

/// An immutable per-request snapshot of request metadata, keyed like a CGI
/// environment. Its view is the mapping the stored pairs denote.
pub struct RequestContext {
    fields: Vec<(String, String)>,
}

impl View for RequestContext {
    type V = Map<Seq<char>, Seq<char>>;

    closed spec fn view(&self) -> Map<Seq<char>, Seq<char>> {
        pairs_map(string_pair_views(self.fields@))
    }
}

/// A key occurs in a pair sequence exactly when the denoted mapping has it.
proof fn lemma_pairs_map_dom(s: Seq<(Seq<char>, Seq<char>)>)
    ensures
        forall|k: Seq<char>|
            pairs_map(s).contains_key(k) <==> exists|i: int| 0 <= i < s.len() && s[i].0 == k,
    decreases s.len(),
{
    if s.len() > 0 {
        lemma_pairs_map_dom(s.drop_last());
        assert forall|k: Seq<char>| pairs_map(s).contains_key(k) implies exists|i: int|
            0 <= i < s.len() && s[i].0 == k by {
            if k == s.last().0 {
                assert(s[s.len() - 1].0 == k);
            } else {
                assert(pairs_map(s.drop_last()).contains_key(k));
                let i = choose|i: int| 0 <= i < s.drop_last().len() && s.drop_last()[i].0 == k;
                assert(s.drop_last()[i] == s[i]);
            }
        }
        assert forall|k: Seq<char>| (exists|i: int| 0 <= i < s.len() && s[i].0 == k) implies
            pairs_map(s).contains_key(k) by {
            let i = choose|i: int| 0 <= i < s.len() && s[i].0 == k;
            if i < s.len() - 1 {
                assert(s.drop_last()[i].0 == k);
                assert(pairs_map(s.drop_last()).contains_key(k));
            }
        }
    }
}

/// The denoted mapping holds, at the key of a pair that no later pair
/// overrides, exactly that pair's value.
proof fn lemma_pairs_map_at(s: Seq<(Seq<char>, Seq<char>)>, i: int)
    requires
        0 <= i < s.len(),
        forall|j: int| i < j < s.len() ==> s[j].0 != s[i].0,
    ensures
        pairs_map(s).contains_key(s[i].0),
        pairs_map(s)[s[i].0] == s[i].1,
    decreases s.len(),
{
    if i == s.len() - 1 {
    } else {
        assert(forall|j: int|
            i < j < s.drop_last().len() ==> s.drop_last()[j].0 != s.drop_last()[i].0);
        lemma_pairs_map_at(s.drop_last(), i);
    }
}

/// A pair sequence with distinct keys denotes a mapping with one entry per
/// pair.
proof fn lemma_pairs_map_len(s: Seq<(Seq<char>, Seq<char>)>)
    requires
        distinct_keys(s),
    ensures
        pairs_map(s).dom().finite(),
        pairs_map(s).dom().len() == s.len(),
    decreases s.len(),
{
    if s.len() > 0 {
        assert(distinct_keys(s.drop_last()));
        lemma_pairs_map_len(s.drop_last());
        lemma_pairs_map_dom(s.drop_last());
        assert(!pairs_map(s.drop_last()).contains_key(s.last().0));
    }
}

impl RequestContext {
    /// The stored pairs have pairwise distinct keys, so the vector and the
    /// mapping it denotes carry the same entries.
    pub closed spec fn wf(&self) -> bool {
        distinct_keys(string_pair_views(self.fields@))
    }

    /// An empty snapshot.
    pub fn new() -> (r: RequestContext)
        ensures
            r.wf(),
            r@ == Map::<Seq<char>, Seq<char>>::empty(),
    {
        RequestContext { fields: Vec::new() }
    }

    /// Finds the position of a key among the stored pairs.
    fn position_of(&self, key: &String) -> (r: Option<usize>)
        ensures
            match r {
                Some(j) => j < self.fields@.len() && self.fields@[j as int].0@ == key@,
                None => forall|i: int| 0 <= i < self.fields@.len() ==> self.fields@[i].0@ != key@,
            },
    {
        let n = self.fields.len();
        let mut i: usize = 0;
        while i < n
            invariant
                n == self.fields@.len(),
                i <= n,
                forall|j: int| 0 <= j < i ==> self.fields@[j].0@ != key@,
            decreases n - i,
        {
            if self.fields[i].0.eq(key) {
                return Some(i);
            }
            i = i + 1;
        }
        None
    }

    /// Stores `value` under `key`, overwriting an entry with the same key.
    fn set_field(&mut self, key: String, value: String)
        requires
            old(self).wf(),
        ensures
            final(self).wf(),
            final(self)@ == old(self)@.insert(key@, value@),
    {
        let ghost s0 = string_pair_views(self.fields@);
        let ghost k = key@;
        let ghost v = value@;
        match self.position_of(&key) {
            Some(j) => {
                proof {
                    assert(s0[j as int].0 == k);
                }
                self.fields.remove(j);
                self.fields.insert(j, (key, value));
                proof {
                    let s1 = string_pair_views(self.fields@);
                    assert(s1 =~= s0.update(j as int, (k, v)));
                    lemma_pairs_map_update(s0, j as int, v);
                    assert(s0.update(j as int, (s0[j as int].0, v)) =~= s0.update(
                        j as int,
                        (k, v),
                    ));
                }
            },
            None => {
                proof {
                    assert(forall|i: int| 0 <= i < s0.len() ==> s0[i].0 != k);
                }
                self.fields.push((key, value));
                proof {
                    let s1 = string_pair_views(self.fields@);
                    assert(s1 =~= s0.push((k, v)));
                    assert(s1.drop_last() =~= s0);
                    assert(s1.last() == (k, v));
                    assert forall|a: int, b: int| 0 <= a < b < s1.len() implies s1[a].0
                        != s1[b].0 by {
                        if b == s1.len() - 1 {
                            assert(s1[a].0 == s0[a].0);
                        }
                    }
                }
            },
        }
    }

    /// Looks a field up by its key.
    pub fn get<'a>(&'a self, key: &String) -> (r: Option<&'a String>)
        requires
            self.wf(),
        ensures
            match r {
                Some(v) => self@.contains_key(key@) && v@ == self@[key@],
                None => !self@.contains_key(key@),
            },
    {
        proof {
            lemma_pairs_map_dom(string_pair_views(self.fields@));
        }
        match self.position_of(key) {
            Some(j) => {
                proof {
                    lemma_pairs_map_at(string_pair_views(self.fields@), j as int);
                }
                Some(&self.fields[j].1)
            },
            None => None,
        }
    }

    /// The number of fields.
    pub fn len(&self) -> (r: usize)
        requires
            self.wf(),
        ensures
            r == self@.dom().len(),
    {
        proof {
            lemma_pairs_map_len(string_pair_views(self.fields@));
        }
        self.fields.len()
    }

    /// Builds the snapshot from raw headers: every header becomes the field
    /// `HTTP_<name uppercased, - as _>` holding the lossily decoded value,
    /// and of duplicate names the last wins.
    pub fn from_headers(headers: &Vec<(String, Vec<u8>)>) -> (r: RequestContext)
        ensures
            r.wf(),
            r@ == cgi_fields(header_views(headers@)),
    {
        let mut r = RequestContext::new();
        let n = headers.len();
        let mut i: usize = 0;
        while i < n
            invariant
                n == headers@.len(),
                i <= n,
                r.wf(),
                r@ == cgi_fields(header_views(headers@).take(i as int)),
            decreases n - i,
        {
            let key = cgi_key(headers[i].0.as_str());
            let value = crate::headers::lossy_decode(&headers[i].1);
            r.set_field(key, value);
            proof {
                let h = header_views(headers@);
                assert(h.take(i + 1).drop_last() =~= h.take(i as int));
                assert(h.take(i + 1).last() == h[i as int]);
            }
            i = i + 1;
        }
        proof {
            assert(header_views(headers@).take(n as int) =~= header_views(headers@));
        }
        r
    }

    /// Builds the snapshot straight from a request's header map.
    pub fn from_header_map(m: &http::HeaderMap) -> (r: RequestContext)
        ensures
            r.wf(),
            r@ == cgi_fields(crate::headers::header_entries(*m)),
    {
        let pairs = crate::headers::collect_headers(m);
        RequestContext::from_headers(&pairs)
    }
}

impl Clone for RequestContext {
    /// Copies the snapshot; the copy denotes the same mapping.
    fn clone(&self) -> (r: Self)
        ensures
            r@ == self@,
            r.wf() == self.wf(),
    {
        let mut fields: Vec<(String, String)> = Vec::new();
        let n = self.fields.len();
        let mut i: usize = 0;
        while i < n
            invariant
                n == self.fields@.len(),
                i <= n,
                fields@ =~= self.fields@.take(i as int),
            decreases n - i,
        {
            let p = (self.fields[i].0.clone(), self.fields[i].1.clone());
            fields.push(p);
            i = i + 1;
        }
        proof {
            assert(fields@ =~= self.fields@);
        }
        RequestContext { fields }
    }
}

/// Replacing the value of the pair at a key's position, when keys are
/// distinct, denotes the same mapping as overwriting that key.
proof fn lemma_pairs_map_update(s: Seq<(Seq<char>, Seq<char>)>, j: int, v: Seq<char>)
    requires
        distinct_keys(s),
        0 <= j < s.len(),
    ensures
        distinct_keys(s.update(j, (s[j].0, v))),
        pairs_map(s.update(j, (s[j].0, v))) == pairs_map(s).insert(s[j].0, v),
    decreases s.len(),
{
    let t = s.update(j, (s[j].0, v));
    assert forall|a: int, b: int| 0 <= a < b < t.len() implies t[a].0 != t[b].0 by {
        assert(t[a].0 == s[a].0 && t[b].0 == s[b].0);
    }
    if j == s.len() - 1 {
        assert(t.drop_last() =~= s.drop_last());
        assert(pairs_map(t) =~= pairs_map(s).insert(s[j].0, v));
    } else {
        assert(distinct_keys(s.drop_last()));
        lemma_pairs_map_update(s.drop_last(), j, v);
        assert(t.drop_last() =~= s.drop_last().update(j, (s[j].0, v)));
        assert(t.last() == s.last());
        assert(s.last().0 != s[j].0);
        assert(pairs_map(t) == pairs_map(s.drop_last()).insert(s[j].0, v).insert(
            s.last().0,
            s.last().1,
        ));
        assert(pairs_map(s.drop_last()).insert(s[j].0, v).insert(s.last().0, s.last().1)
            =~= pairs_map(s.drop_last()).insert(s.last().0, s.last().1).insert(s[j].0, v));
    }
}

/// Every header in a sequence yields its field, and no field comes from
/// anything but a header: the domain of the built mapping is exactly the set
/// of transformed header names.
pub proof fn lemma_every_header_becomes_a_field(h: Seq<(Seq<char>, Seq<u8>)>)
    ensures
        forall|k: Seq<char>|
            cgi_fields(h).contains_key(k) <==> exists|i: int|
                0 <= i < h.len() && field_key(h[i].0) == k,
    decreases h.len(),
{
    if h.len() > 0 {
        lemma_every_header_becomes_a_field(h.drop_last());
        assert forall|k: Seq<char>| cgi_fields(h).contains_key(k) implies exists|i: int|
            0 <= i < h.len() && field_key(h[i].0) == k by {
            if k == field_key(h.last().0) {
                assert(field_key(h[h.len() - 1].0) == k);
            } else {
                assert(cgi_fields(h.drop_last()).contains_key(k));
                let i = choose|i: int|
                    0 <= i < h.drop_last().len() && field_key(h.drop_last()[i].0) == k;
                assert(h.drop_last()[i] == h[i]);
            }
        }
        assert forall|k: Seq<char>| (exists|i: int| 0 <= i < h.len() && field_key(h[i].0) == k)
            implies cgi_fields(h).contains_key(k) by {
            let i = choose|i: int| 0 <= i < h.len() && field_key(h[i].0) == k;
            if i < h.len() - 1 {
                assert(field_key(h.drop_last()[i].0) == k);
                assert(cgi_fields(h.drop_last()).contains_key(k));
            }
        }
    }
}

/// Of duplicate header names the last occurrence wins: the field of a header
/// that no later header shadows holds that header's decoded value.
pub proof fn lemma_last_occurrence_wins(h: Seq<(Seq<char>, Seq<u8>)>, i: int)
    requires
        0 <= i < h.len(),
        forall|j: int| i < j < h.len() ==> field_key(h[j].0) != field_key(h[i].0),
    ensures
        cgi_fields(h).contains_key(field_key(h[i].0)),
        cgi_fields(h)[field_key(h[i].0)] == crate::headers::lossy_text(h[i].1),
    decreases h.len(),
{
    if i == h.len() - 1 {
    } else {
        assert(forall|j: int|
            i < j < h.drop_last().len() ==> field_key(h.drop_last()[j].0) != field_key(
                h.drop_last()[i].0,
            ));
        lemma_last_occurrence_wins(h.drop_last(), i);
    }
}

/// The field key never depends on the case of the header name: names equal up
/// to ASCII case yield the same key.
pub proof fn lemma_field_key_case_insensitive(a: Seq<char>, b: Seq<char>)
    requires
        a.len() == b.len(),
        forall|i: int| 0 <= i < a.len() ==> upper_char(a[i]) == upper_char(b[i]),
    ensures
        field_key(a) == field_key(b),
{
    assert forall|i: int| 0 <= i < a.len() implies field_char(a[i]) == field_char(b[i]) by {
        if a[i] == '-' || b[i] == '-' {
            assert(upper_char('-') == '-');
            assert(a[i] == '-' && b[i] == '-');
        }
    }
    assert(a.map_values(|c: char| field_char(c)) =~= b.map_values(|c: char| field_char(c)));
}

} // verus!
