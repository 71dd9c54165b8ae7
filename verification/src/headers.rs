//! The header decoder and the header collection: an ordered multimap from
//! case-insensitive header name to one or more values, preserving insertion
//! order, where inserting an existing name appends and never overwrites.

use vstd::prelude::*;

use crate::error::VercelError;

verus! {

/// The characters a header name may contain (case is kept, but does not
/// distinguish names).
pub open spec fn is_name_char(c: char) -> bool {
    let u = c as u32;
    (33 <= u && u <= 39) || u == 42 || u == 43 || u == 45 || u == 46 || (48 <= u && u <= 57) || (65
        <= u && u <= 90) || (94 <= u && u <= 96) || (97 <= u && u <= 122) || u == 124 || u == 126
}

/// A legal header name: non-empty, every character legal.
pub open spec fn is_valid_header_name(s: Seq<char>) -> bool {
    s.len() > 0 && forall|i: int| 0 <= i < s.len() ==> is_name_char(s[i])
}

/// The characters a header value may contain: everything but the control
/// characters, horizontal tab excepted.
pub open spec fn is_value_char(c: char) -> bool {
    let u = c as u32;
    u == 9 || (32 <= u && u != 127)
}

/// A legal header value; the empty value is legal.
pub open spec fn is_valid_header_value(s: Seq<char>) -> bool {
    forall|i: int| 0 <= i < s.len() ==> is_value_char(s[i])
}

/// The identifying code of a character in a header name: ASCII letters fold
/// to lower case, everything else stands for itself.
pub open spec fn lower_code(c: char) -> u32 {
    if 65 <= c as u32 && c as u32 <= 90 {
        (c as u32 + 32) as u32
    } else {
        c as u32
    }
}

/// Case-insensitive identity of header names.
pub open spec fn ci_equal(a: Seq<char>, b: Seq<char>) -> bool {
    a.len() == b.len() && forall|i: int| 0 <= i < a.len() ==> lower_code(a[i]) == lower_code(b[i])
}

/// The values stored under a case-insensitive name, in insertion order.
pub open spec fn values_for(entries: Seq<(Seq<char>, Seq<char>)>, name: Seq<char>) -> Seq<
    Seq<char>,
>
    decreases entries.len(),
{
    if entries.len() == 0 {
        Seq::empty()
    } else {
        let rest = values_for(entries.drop_last(), name);
        if ci_equal(entries.last().0, name) {
            rest.push(entries.last().1)
        } else {
            rest
        }
    }
}

/// The message carried when a header name fails validation.
pub open spec fn name_error_message(name: Seq<char>) -> Seq<char> {
    "invalid header name: "@ + name
}

/// The message carried when a header value fails validation.
pub open spec fn value_error_message(value: Seq<char>) -> Seq<char> {
    "invalid header value: "@ + value
}

/// An ordered, duplicate-preserving collection of decoded header pairs.
#[derive(Debug)]
pub struct HeaderCollection {
    entries: Vec<(String, String)>,
}

impl View for HeaderCollection {
    type V = Seq<(Seq<char>, Seq<char>)>;

    closed spec fn view(&self) -> Seq<(Seq<char>, Seq<char>)> {
        self.entries@.map(|i: int, e: (String, String)| (e.0@, e.1@))
    }
}

impl HeaderCollection {
    /// Every stored name and value passed validation.
    pub open spec fn wf(&self) -> bool {
        forall|i: int|
            0 <= i < self@.len() ==> is_valid_header_name(#[trigger] self@[i].0)
                && is_valid_header_value(self@[i].1)
    }

    /// The empty collection.
    pub fn new() -> (h: HeaderCollection)
        ensures
            h@ == Seq::<(Seq<char>, Seq<char>)>::empty(),
    {
        let h = HeaderCollection { entries: Vec::new() };
        proof {
            assert(h@ =~= Seq::<(Seq<char>, Seq<char>)>::empty());
        }
        h
    }

    /// How many pairs the collection holds.
    pub fn len(&self) -> (n: usize)
        ensures
            n == self@.len(),
    {
        self.entries.len()
    }

    /// Appends one pair at the end; an existing name is never overwritten.
    pub fn append(&mut self, name: String, value: String)
        ensures
            final(self)@ == old(self)@.push((name@, value@)),
    {
        let ghost pre = self@;
        self.entries.push((name, value));
        proof {
            assert(self@ =~= pre.push((name@, value@)));
        }
    }

    /// The stored pairs, in insertion order.
    pub fn entries(&self) -> (r: &Vec<(String, String)>)
        ensures
            pairs_view(r@) == self@,
    {
        proof {
            assert(pairs_view(self.entries@) =~= self@);
        }
        &self.entries
    }

    /// All values stored under `name`, compared case-insensitively, in
    /// insertion order.
    pub fn get_all(&self, name: &str) -> (r: Vec<String>)
        ensures
            r@.map_values(|v: String| v@) == values_for(self@, name@),
    {
        let mut r: Vec<String> = Vec::new();
        let n = self.entries.len();
        let mut i: usize = 0;
        while i < n
            invariant
                n == self.entries@.len(),
                n == self@.len(),
                i <= n,
                r@.map_values(|v: String| v@) == values_for(self@.take(i as int), name@),
            decreases n - i,
        {
            let ghost pre = r@.map_values(|v: String| v@);
            if ci_eq(self.entries[i].0.as_str(), name) {
                r.push(self.entries[i].1.clone());
                proof {
                    assert(r@.map_values(|v: String| v@) =~= pre.push(self@[i as int].1));
                }
            }
            proof {
                assert(self@.take(i + 1 as int).drop_last() =~= self@.take(i as int));
                assert(self@.take(i + 1 as int).last() == self@[i as int]);
            }
            i = i + 1;
        }
        proof {
            assert(self@.take(n as int) =~= self@);
        }
        r
    }
}

fn lower_code_exec(c: char) -> (u: u32)
    ensures
        u == lower_code(c),
{
    let x = c as u32;
    if 65 <= x && x <= 90 {
        x + 32
    } else {
        x
    }
}

/// Case-insensitive string equality, proved against `ci_equal` on the views.
pub fn ci_eq(a: &str, b: &str) -> (r: bool)
    ensures
        r == ci_equal(a@, b@),
{
    let n = a.unicode_len();
    if n != b.unicode_len() {
        return false;
    }
    let mut i: usize = 0;
    while i < n
        invariant
            n == a@.len(),
            n == b@.len(),
            i <= n,
            forall|k: int| 0 <= k < i ==> lower_code(a@[k]) == lower_code(b@[k]),
        decreases n - i,
    {
        if lower_code_exec(a.get_char(i)) != lower_code_exec(b.get_char(i)) {
            return false;
        }
        i = i + 1;
    }
    true
}

fn valid_name_exec(s: &str) -> (b: bool)
    ensures
        b == is_valid_header_name(s@),
{
    let n = s.unicode_len();
    if n == 0 {
        return false;
    }
    let mut i: usize = 0;
    while i < n
        invariant
            n == s@.len(),
            i <= n,
            forall|k: int| 0 <= k < i ==> is_name_char(s@[k]),
        decreases n - i,
    {
        let u = lower_code_exec(s.get_char(i));
        let ok = (33 <= u && u <= 39) || u == 42 || u == 43 || u == 45 || u == 46 || (48 <= u && u
            <= 57) || (94 <= u && u <= 96) || (97 <= u && u <= 122) || u == 124 || u == 126;
        if !ok {
            return false;
        }
        i = i + 1;
    }
    true
}

fn valid_value_exec(s: &str) -> (b: bool)
    ensures
        b == is_valid_header_value(s@),
{
    let n = s.unicode_len();
    let mut i: usize = 0;
    while i < n
        invariant
            n == s@.len(),
            i <= n,
            forall|k: int| 0 <= k < i ==> is_value_char(s@[k]),
        decreases n - i,
    {
        let c = s.get_char(i);
        let u = c as u32;
        if !(u == 9 || (32 <= u && u != 127)) {
            return false;
        }
        i = i + 1;
    }
    true
}

/// Every pair of `pairs`, up to but not including `j`, passes validation.
pub open spec fn pairs_valid_before(pairs: Seq<(Seq<char>, Seq<char>)>, j: int) -> bool {
    forall|k: int|
        0 <= k < j ==> is_valid_header_name(#[trigger] pairs[k].0) && is_valid_header_value(
            pairs[k].1,
        )
}

/// The views of a sequence of owned string pairs.
pub open spec fn pairs_view(pairs: Seq<(String, String)>) -> Seq<(Seq<char>, Seq<char>)> {
    pairs.map(|i: int, p: (String, String)| (p.0@, p.1@))
}

/// The decode failed at the first invalid pair, whose index `j` saw every
/// earlier pair pass validation, and the message cites the offending name or
/// value.
pub open spec fn header_decode_failure(pairs: Seq<(Seq<char>, Seq<char>)>, msg: Seq<char>) -> bool {
    exists|j: int|
        0 <= j < pairs.len() && pairs_valid_before(pairs, j) && !(is_valid_header_name(
            #[trigger] pairs[j].0,
        ) && is_valid_header_value(pairs[j].1)) && msg == (if !is_valid_header_name(pairs[j].0) {
            name_error_message(pairs[j].0)
        } else {
            value_error_message(pairs[j].1)
        })
}

proof fn lemma_invalid_pair_refutes(pairs: Seq<(Seq<char>, Seq<char>)>, j: int)
    requires
        0 <= j < pairs.len(),
        !(is_valid_header_name(pairs[j].0) && is_valid_header_value(pairs[j].1)),
    ensures
        !pairs_valid_before(pairs, pairs.len() as int),
{
    if pairs_valid_before(pairs, pairs.len() as int) {
        assert(is_valid_header_name(pairs[j].0) && is_valid_header_value(pairs[j].1));
    }
}

proof fn lemma_decode_failure_at(pairs: Seq<(Seq<char>, Seq<char>)>, j: int, msg: Seq<char>)
    requires
        0 <= j < pairs.len(),
        pairs_valid_before(pairs, j),
        !(is_valid_header_name(pairs[j].0) && is_valid_header_value(pairs[j].1)),
        msg == (if !is_valid_header_name(pairs[j].0) {
            name_error_message(pairs[j].0)
        } else {
            value_error_message(pairs[j].1)
        }),
    ensures
        header_decode_failure(pairs, msg),
{
    assert(0 <= j < pairs.len() && pairs_valid_before(pairs, j) && !(is_valid_header_name(
        #[trigger] pairs[j].0,
    ) && is_valid_header_value(pairs[j].1)) && msg == (if !is_valid_header_name(pairs[j].0) {
        name_error_message(pairs[j].0)
    } else {
        value_error_message(pairs[j].1)
    }));
}

/// Decodes the ordered pairs into a header collection, in order, appending
/// each validated pair and failing fast on the first invalid one, with a
/// message citing the offending name or value.
pub fn decode_headers(pairs: &Vec<(String, String)>) -> (r: Result<HeaderCollection, VercelError>)
    ensures
        r is Ok <==> pairs_valid_before(pairs_view(pairs@), pairs@.len() as int),
        r matches Ok(h) ==> h@ == pairs_view(pairs@) && h.wf(),
        r matches Err(e) ==> header_decode_failure(pairs_view(pairs@), e@),
{
    let mut out = HeaderCollection::new();
    let n = pairs.len();
    let mut i: usize = 0;
    while i < n
        invariant
            n == pairs@.len(),
            i <= n,
            pairs_valid_before(pairs_view(pairs@), i as int),
            out@ == pairs_view(pairs@).take(i as int),
        decreases n - i,
    {
        proof {
            assert(pairs_view(pairs@)[i as int] == (pairs@[i as int].0@, pairs@[i as int].1@));
        }
        if !valid_name_exec(pairs[i].0.as_str()) {
            let msg = String::from_str("invalid header name: ").concat(pairs[i].0.as_str());
            let e = VercelError::new(msg.as_str());
            proof {
                let j = i as int;
                assert(!(is_valid_header_name(pairs_view(pairs@)[j].0) && is_valid_header_value(
                    pairs_view(pairs@)[j].1,
                )) && e@ == name_error_message(pairs_view(pairs@)[j].0));
                lemma_invalid_pair_refutes(pairs_view(pairs@), j);
                lemma_decode_failure_at(pairs_view(pairs@), j, e@);
            }
            return Err(e);
        }
        if !valid_value_exec(pairs[i].1.as_str()) {
            let msg = String::from_str("invalid header value: ").concat(pairs[i].1.as_str());
            let e = VercelError::new(msg.as_str());
            proof {
                let j = i as int;
                assert(is_valid_header_name(pairs_view(pairs@)[j].0) && !is_valid_header_value(
                    pairs_view(pairs@)[j].1,
                ) && e@ == value_error_message(pairs_view(pairs@)[j].1));
                lemma_invalid_pair_refutes(pairs_view(pairs@), j);
                lemma_decode_failure_at(pairs_view(pairs@), j, e@);
            }
            return Err(e);
        }
        out.append(pairs[i].0.clone(), pairs[i].1.clone());
        proof {
            assert(out@ =~= pairs_view(pairs@).take(i + 1 as int));
        }
        i = i + 1;
    }
    proof {
        assert(out@ =~= pairs_view(pairs@));
        assert forall|k: int|
            0 <= k < out@.len() implies is_valid_header_name(#[trigger] out@[k].0)
            && is_valid_header_value(out@[k].1) by {
            assert(out@[k] == pairs_view(pairs@)[k]);
            assert(is_valid_header_name(pairs_view(pairs@)[k].0));
            assert(is_valid_header_value(pairs_view(pairs@)[k].1));
        }
    }
    Ok(out)
}

/// Looking a name up is case-insensitive: names equal up to letter case see
/// exactly the same values, in the same order.
pub proof fn lemma_lookup_case_insensitive(
    entries: Seq<(Seq<char>, Seq<char>)>,
    n1: Seq<char>,
    n2: Seq<char>,
)
    requires
        ci_equal(n1, n2),
    ensures
        values_for(entries, n1) == values_for(entries, n2),
    decreases entries.len(),
{
    if entries.len() > 0 {
        lemma_lookup_case_insensitive(entries.drop_last(), n1, n2);
        assert(ci_equal(entries.last().0, n1) <==> ci_equal(entries.last().0, n2));
    }
}

/// Appending a pair leaves every other name's values unchanged and adds the
/// value at the end of its own name's values: append never overwrites.
pub proof fn lemma_append_preserves_values(
    entries: Seq<(Seq<char>, Seq<char>)>,
    name: Seq<char>,
    value: Seq<char>,
    probe: Seq<char>,
)
    ensures
        ci_equal(name, probe) ==> values_for(entries.push((name, value)), probe) == values_for(
            entries,
            probe,
        ).push(value),
        !ci_equal(name, probe) ==> values_for(entries.push((name, value)), probe) == values_for(
            entries,
            probe,
        ),
{
    assert(entries.push((name, value)).drop_last() =~= entries);
}

} // verus!
