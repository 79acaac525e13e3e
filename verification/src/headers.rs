//! The inbound header collection and the reads the engine makes of it.
//! Header names are matched ignoring ASCII case, as they arrive on the wire
//! in any casing; values are kept verbatim and in order.

use vstd::prelude::*;

verus! {

/// An ordered header collection. Extraction never mutates it; a copy minus
/// the `Host` entry is what forwarding sends on.
pub struct Headers {
    pub entries: Vec<(String, String)>,
}

/// The name/value character sequences of a list of header entries.
pub open spec fn entries_view(s: Seq<(String, String)>) -> Seq<(Seq<char>, Seq<char>)> {
    Seq::new(s.len(), |i: int| (s[i].0@, s[i].1@))
}

impl View for Headers {
    type V = Seq<(Seq<char>, Seq<char>)>;

    open spec fn view(&self) -> Seq<(Seq<char>, Seq<char>)> {
        entries_view(self.entries@)
    }
}

/// The code point a character counts as under ASCII case folding.
pub open spec fn fold_code(c: char) -> int {
    if 65 <= (c as u32) && (c as u32) <= 90 {
        (c as u32) as int + 32
    } else {
        (c as u32) as int
    }
}

/// Two header names are the same name: equal letter for letter, ignoring
/// ASCII case.
pub open spec fn same_name(a: Seq<char>, b: Seq<char>) -> bool {
    a.len() == b.len() && (forall|i: int| 0 <= i < a.len() ==> fold_code(a[i]) == fold_code(b[i]))
}

fn fold_char(c: char) -> (r: u32)
    ensures
        r as int == fold_code(c),
{
    let u = c as u32;
    if 65 <= u && u <= 90 {
        u + 32
    } else {
        u
    }
}

/// Whether `a` and `b` are the same header name.
pub fn name_eq(a: &str, b: &str) -> (r: bool)
    ensures
        r == same_name(a@, b@),
{
    let alen = a.unicode_len();
    let blen = b.unicode_len();
    if alen != blen {
        return false;
    }
    let mut i: usize = 0;
    while i < alen
        invariant
            alen == a@.len(),
            blen == b@.len(),
            alen == blen,
            i <= alen,
            forall|j: int| 0 <= j < i ==> fold_code(a@[j]) == fold_code(b@[j]),
        decreases alen - i,
    {
        if fold_char(a.get_char(i)) != fold_char(b.get_char(i)) {
            return false;
        }
        i += 1;
    }
    true
}

/// The value of the first entry named `name`, searching from position `i`.
pub open spec fn header_lookup_from(
    h: Seq<(Seq<char>, Seq<char>)>,
    name: Seq<char>,
    i: int,
) -> Option<Seq<char>>
    decreases h.len() - i,
{
    if i < 0 || i >= h.len() {
        None
    } else if same_name(h[i].0, name) {
        Some(h[i].1)
    } else {
        header_lookup_from(h, name, i + 1)
    }
}

/// The value of the first entry named `name`, if any.
pub open spec fn header_lookup(h: Seq<(Seq<char>, Seq<char>)>, name: Seq<char>) -> Option<
    Seq<char>,
> {
    header_lookup_from(h, name, 0)
}

/// The entries that forwarding relays: everything but `Host`, in order.
pub open spec fn forwarded_entries(h: Seq<(Seq<char>, Seq<char>)>) -> Seq<(Seq<char>, Seq<char>)>
    decreases h.len(),
{
    if h.len() == 0 {
        Seq::empty()
    } else if same_name(h.last().0, "host"@) {
        forwarded_entries(h.drop_last())
    } else {
        forwarded_entries(h.drop_last()) + seq![h.last()]
    }
}

impl Headers {
    /// Case-insensitive read of one header; a pure lookup, the collection is
    /// untouched.
    pub fn get(&self, name: &str) -> (r: Option<String>)
        ensures
            match r {
                Some(v) => header_lookup(self@, name@) == Some(v@),
                None => header_lookup(self@, name@) is None,
            },
    {
        let mut i: usize = 0;
        while i < self.entries.len()
            invariant
                i <= self.entries@.len(),
                header_lookup(self@, name@) == header_lookup_from(self@, name@, i as int),
            decreases self.entries@.len() - i,
        {
            if name_eq(self.entries[i].0.as_str(), name) {
                assert(self@[i as int].1 == self.entries@[i as int].1@);
                return Some(self.entries[i].1.clone());
            }
            i += 1;
        }
        None
    }

    /// The collection that forwarding sends on: every entry except `Host`.
    pub fn without_host(&self) -> (r: Headers)
        ensures
            r@ == forwarded_entries(self@),
    {
        let mut out: Vec<(String, String)> = Vec::new();
        let mut i: usize = 0;
        while i < self.entries.len()
            invariant
                i <= self.entries@.len(),
                entries_view(out@) == forwarded_entries(self@.take(i as int)),
            decreases self.entries@.len() - i,
        {
            proof {
                assert(self@.take(i as int + 1).drop_last() =~= self@.take(i as int));
                assert(self@.take(i as int + 1).last() == self@[i as int]);
            }
            if !name_eq(self.entries[i].0.as_str(), "host") {
                let k = self.entries[i].0.clone();
                let v = self.entries[i].1.clone();
                out.push((k, v));
                assert(entries_view(out@) =~= forwarded_entries(self@.take(i as int + 1)));
            } else {
                assert(entries_view(out@) =~= forwarded_entries(self@.take(i as int + 1)));
            }
            i += 1;
        }
        proof {
            assert(self@.take(self.entries@.len() as int) =~= self@);
        }
        Headers { entries: out }
    }
}

} // verus!
