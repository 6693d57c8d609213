//! The header collection attached to every outgoing request.
//!
//! Headers are a name-to-value collection with unique names. Values are
//! either text or a number, mirroring the two shapes the transport itself
//! writes: a textual content type and a numeric content length.

use vstd::prelude::*;

verus! {

/// The value of one header: caller-supplied text, or a number written by the
/// transport itself (the content length).
#[derive(Debug, Clone, PartialEq, Eq)]
pub enum HeaderValue {
    /// A textual header value.
    Text(String),
    /// A numeric header value.
    Number(u64),
}

impl HeaderValue {
    /// A copy of this value.
    pub fn duplicate(&self) -> (r: HeaderValue)
        ensures
            r == *self,
    {
        match self {
            HeaderValue::Text(s) => HeaderValue::Text(s.clone()),
            HeaderValue::Number(n) => HeaderValue::Number(*n),
        }
    }
}

/// One header: a name paired with its value.
#[derive(Debug, Clone, PartialEq, Eq)]
pub struct HeaderEntry {
    /// The header's name.
    pub name: String,
    /// The header's value.
    pub value: HeaderValue,
}

/// Whether some entry of `s` carries the name `name`.
pub open spec fn has_name(s: Seq<HeaderEntry>, name: Seq<char>) -> bool {
    exists|i: int| 0 <= i < s.len() && s[i].name@ == name
}

/// Whether some entry of `s` carries the name `name` with value `value`.
pub open spec fn maps_to(s: Seq<HeaderEntry>, name: Seq<char>, value: HeaderValue) -> bool {
    exists|i: int| 0 <= i < s.len() && s[i].name@ == name && s[i].value == value
}

/// Whether `s` maps `name` to the textual value `text`.
pub open spec fn maps_to_text(s: Seq<HeaderEntry>, name: Seq<char>, text: Seq<char>) -> bool {
    exists|i: int|
        0 <= i < s.len() && s[i].name@ == name && (s[i].value matches HeaderValue::Text(t) && t@
            == text)
}

/// Whether `s` maps `name` to the numeric value `n`.
pub open spec fn maps_to_number(s: Seq<HeaderEntry>, name: Seq<char>, n: u64) -> bool {
    exists|i: int| 0 <= i < s.len() && s[i].name@ == name && s[i].value == HeaderValue::Number(n)
}

/// A collection of headers whose names are pairwise distinct, so that each
/// name maps to at most one value.
#[derive(Debug, Clone, PartialEq, Eq)]
pub struct Headers {
    entries: Vec<HeaderEntry>,
}

impl View for Headers {
    type V = Seq<HeaderEntry>;

    closed spec fn view(&self) -> Seq<HeaderEntry> {
        self.entries@
    }
}

impl Headers {
    /// Names are pairwise distinct.
    pub open spec fn wf(self) -> bool {
        forall|i: int, j: int|
            0 <= i < j < self@.len() ==> self@[i].name@ != self@[j].name@
    }

    /// An empty header collection.
    pub fn new() -> (h: Headers)
        ensures
            h.wf(),
            h@ == Seq::<HeaderEntry>::empty(),
    {
        Headers { entries: Vec::new() }
    }

    /// How many headers are set.
    pub fn len(&self) -> (n: usize)
        ensures
            n == self@.len(),
    {
        self.entries.len()
    }

    /// The position of the entry named `name`, if one is set.
    fn find(&self, name: &String) -> (r: Option<usize>)
        ensures
            match r {
                Some(i) => i < self@.len() && self@[i as int].name@ == name@,
                None => !has_name(self@, name@),
            },
    {
        let n = self.entries.len();
        let mut i: usize = 0;
        while i < n
            invariant
                i <= n,
                n == self@.len(),
                forall|k: int| 0 <= k < i ==> self@[k].name@ != name@,
            decreases n - i,
        {
            if self.entries[i].name == *name {
                return Some(i);
            }
            i += 1;
        }
        None
    }

    /// The entry at position `i`.
    pub fn entry(&self, i: usize) -> (e: &HeaderEntry)
        requires
            i < self@.len(),
        ensures
            *e == self@[i as int],
    {
        &self.entries[i]
    }

    /// The value set for `name`, if any.
    pub fn get(&self, name: &String) -> (r: Option<&HeaderValue>)
        ensures
            r is Some <==> has_name(self@, name@),
            r matches Some(v) ==> maps_to(self@, name@, *v),
    {
        match self.find(name) {
            Some(i) => Some(&self.entries[i].value),
            None => None,
        }
    }

    /// Sets `name` to `value`, replacing any earlier value for that name and
    /// leaving every other header untouched.
    pub fn set(&mut self, name: String, value: HeaderValue)
        requires
            old(self).wf(),
        ensures
            final(self).wf(),
            maps_to(final(self)@, name@, value),
            forall|n: Seq<char>|
                n != name@ ==> (has_name(final(self)@, n) <==> has_name(old(self)@, n)),
            forall|n: Seq<char>, v: HeaderValue|
                n != name@ ==> (maps_to(final(self)@, n, v) <==> maps_to(old(self)@, n, v)),
            has_name(old(self)@, name@) ==> final(self)@.len() == old(self)@.len(),
            !has_name(old(self)@, name@) ==> final(self)@.len() == old(self)@.len() + 1,
    {
        let ghost orig = self@;
        match self.find(&name) {
            Some(i) => {
                self.entries[i] = HeaderEntry { name, value };
                proof {
                    let fin = self@;
                    assert(fin[i as int].name@ == name@ && fin[i as int].value == value);
                    assert(maps_to(fin, name@, value));
                    assert forall|k: int| 0 <= k < fin.len() implies fin[k].name@
                        == orig[k].name@ by {}
                    assert forall|n: Seq<char>, v: HeaderValue|
                        n != name@ && maps_to(orig, n, v) implies maps_to(fin, n, v) by {
                        let j = choose|j: int|
                            0 <= j < orig.len() && orig[j].name@ == n && orig[j].value == v;
                        assert(j != i);
                        assert(fin[j].name@ == n && fin[j].value == v);
                    }
                    assert forall|n: Seq<char>, v: HeaderValue|
                        n != name@ && maps_to(fin, n, v) implies maps_to(orig, n, v) by {
                        let j = choose|j: int|
                            0 <= j < fin.len() && fin[j].name@ == n && fin[j].value == v;
                        assert(j != i);
                        assert(orig[j].name@ == n && orig[j].value == v);
                    }
                    assert forall|n: Seq<char>|
                        n != name@ && has_name(orig, n) implies has_name(fin, n) by {
                        let j = choose|j: int| 0 <= j < orig.len() && orig[j].name@ == n;
                        assert(fin[j].name@ == n);
                    }
                    assert forall|n: Seq<char>|
                        n != name@ && has_name(fin, n) implies has_name(orig, n) by {
                        let j = choose|j: int| 0 <= j < fin.len() && fin[j].name@ == n;
                        assert(orig[j].name@ == n);
                    }
                }
            },
            None => {
                self.entries.push(HeaderEntry { name, value });
                proof {
                    let fin = self@;
                    let last = orig.len() as int;
                    assert(fin[last].name@ == name@ && fin[last].value == value);
                    assert(maps_to(fin, name@, value));
                    assert forall|n: Seq<char>, v: HeaderValue|
                        n != name@ && maps_to(fin, n, v) implies maps_to(orig, n, v) by {
                        let j = choose|j: int|
                            0 <= j < fin.len() && fin[j].name@ == n && fin[j].value == v;
                        assert(j != last);
                        assert(orig[j].name@ == n && orig[j].value == v);
                    }
                    assert forall|n: Seq<char>, v: HeaderValue|
                        n != name@ && maps_to(orig, n, v) implies maps_to(fin, n, v) by {
                        let j = choose|j: int|
                            0 <= j < orig.len() && orig[j].name@ == n && orig[j].value == v;
                        assert(fin[j].name@ == n && fin[j].value == v);
                    }
                    assert forall|n: Seq<char>|
                        n != name@ && has_name(fin, n) implies has_name(orig, n) by {
                        let j = choose|j: int| 0 <= j < fin.len() && fin[j].name@ == n;
                        assert(j != last);
                        assert(orig[j].name@ == n);
                    }
                    assert forall|n: Seq<char>|
                        n != name@ && has_name(orig, n) implies has_name(fin, n) by {
                        let j = choose|j: int| 0 <= j < orig.len() && orig[j].name@ == n;
                        assert(fin[j].name@ == n);
                    }
                }
            },
        }
    }
}

} // verus!
