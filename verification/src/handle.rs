//! The dispatcher handle bound to one destination.
//!
//! A handle carries a destination URI and the caller-configured decoration
//! headers. Every request sent through it is an HTTP POST to that URI with
//! the content type and content length set automatically from the payload,
//! and with the handle's own headers merged in on top — a caller-set header
//! overrides an automatically written one of the same name.

use vstd::prelude::*;

use crate::errors::Error;
use crate::headers::{has_name, maps_to, maps_to_number, maps_to_text, HeaderEntry, HeaderValue,
    Headers};
use crate::queue::{Request, SubmissionQueue};

verus! {

/// The name of the header that carries the payload's media type.
pub open spec fn content_type_name() -> Seq<char> {
    "Content-Type"@
}

/// The name of the header that carries the payload's length.
pub open spec fn content_length_name() -> Seq<char> {
    "Content-Length"@
}

/// What `create_request` builds from a handle and a payload: a request to
/// the handle's URI carrying exactly the payload, whose headers are the
/// automatically written content type (the JSON media type) and content
/// length (the payload's length), except where a handle header of the same
/// name overrides them, plus every handle header — and nothing else.
///
/// Header names are compared exactly; the two automatic names use the
/// canonical capitalization.
pub open spec fn built_from(
    r: Request,
    uri: Seq<char>,
    custom: Seq<HeaderEntry>,
    body: Seq<u8>,
) -> bool {
    &&& r.uri@ == uri
    &&& r.body@ == body
    &&& r.headers.wf()
    &&& forall|n: Seq<char>, v: HeaderValue| maps_to(custom, n, v) ==> maps_to(r.headers@, n, v)
    &&& !has_name(custom, content_type_name()) ==> maps_to_text(
        r.headers@,
        content_type_name(),
        "application/json"@,
    )
    &&& !has_name(custom, content_length_name()) ==> maps_to_number(
        r.headers@,
        content_length_name(),
        body.len() as u64,
    )
    &&& forall|n: Seq<char>|
        has_name(r.headers@, n) ==> n == content_type_name() || n == content_length_name()
            || has_name(custom, n)
}

/// A handle to one transport, valid for one destination URI.
pub struct HttpHandle {
    pub(crate) uri: String,
    pub(crate) headers: Headers,
}

impl HttpHandle {
    /// The destination URI.
    pub closed spec fn uri_spec(self) -> Seq<char> {
        self.uri@
    }

    /// The caller-configured decoration headers.
    pub closed spec fn headers_spec(self) -> Seq<HeaderEntry> {
        self.headers@
    }

    /// The decoration headers have pairwise distinct names.
    pub closed spec fn wf(self) -> bool {
        self.headers.wf()
    }

    /// A handle bound to `uri` with no decoration headers yet.
    pub(crate) fn new_bound(uri: String) -> (h: HttpHandle)
        ensures
            h.wf(),
            h.uri_spec() == uri@,
            h.headers_spec() == Seq::<HeaderEntry>::empty(),
    {
        HttpHandle { uri, headers: Headers::new() }
    }

    /// The destination URI, for the runtime that performs the actual call.
    pub fn uri(&self) -> (r: &String)
        ensures
            r@ == self.uri_spec(),
    {
        &self.uri
    }

    /// Configures a custom header for every request sent through this
    /// handle. Replaces any earlier value for the same name, including the
    /// automatically written content type and content length; other handles
    /// are not affected.
    pub fn set_header(&mut self, name: String, value: String)
        requires
            old(self).wf(),
        ensures
            final(self).wf(),
            final(self).uri_spec() == old(self).uri_spec(),
            maps_to_text(final(self).headers_spec(), name@, value@),
            forall|n: Seq<char>|
                n != name@ ==> (has_name(final(self).headers_spec(), n) <==> has_name(
                    old(self).headers_spec(),
                    n,
                )),
            forall|n: Seq<char>, v: HeaderValue|
                n != name@ ==> (maps_to(final(self).headers_spec(), n, v) <==> maps_to(
                    old(self).headers_spec(),
                    n,
                    v,
                )),
    {
        let ghost v = HeaderValue::Text(value);
        let ghost nm = name@;
        self.headers.set(name, HeaderValue::Text(value));
        proof {
            let s = self.headers@;
            let i = choose|i: int| 0 <= i < s.len() && s[i].name@ == nm && s[i].value == v;
            assert(maps_to_text(s, nm, value@));
        }
    }

    /// Builds the HTTP POST request for one payload: content type and
    /// content length are written automatically, then the handle's own
    /// headers are merged in, overriding on an equal name.
    pub fn create_request(&self, body: Vec<u8>) -> (r: Request)
        requires
            self.wf(),
        ensures
            built_from(r, self.uri_spec(), self.headers_spec(), body@),
    {
        let ghost custom = self.headers@;
        let ghost json = "application/json"@;
        let mut headers = Headers::new();
        let ct = String::from_str("Content-Type");
        let js = String::from_str("application/json");
        let ghost vjson = HeaderValue::Text(js);
        headers.set(ct, HeaderValue::Text(js));
        let len: u64 = body.len() as u64;
        let cl = String::from_str("Content-Length");
        proof {
            reveal_strlit("Content-Type");
            reveal_strlit("Content-Length");
            assert("Content-Type"@.len() == 12);
            assert("Content-Length"@.len() == 14);
            assert(content_type_name() != content_length_name());
        }
        headers.set(cl, HeaderValue::Number(len));
        proof {
            let s = headers@;
            assert(maps_to(s, content_type_name(), vjson));
            let j = choose|j: int|
                0 <= j < s.len() && s[j].name@ == content_type_name() && s[j].value == vjson;
            assert(maps_to_text(s, content_type_name(), json));
        }
        let n = self.headers.len();
        let mut i: usize = 0;
        while i < n
            invariant
                n == custom.len(),
                i <= n,
                self.wf(),
                custom == self.headers@,
                headers.wf(),
                forall|k: int| 0 <= k < i ==> maps_to(headers@, custom[k].name@, custom[k].value),
                (forall|k: int| 0 <= k < i ==> custom[k].name@ != content_type_name())
                    ==> maps_to_text(headers@, content_type_name(), json),
                (forall|k: int| 0 <= k < i ==> custom[k].name@ != content_length_name())
                    ==> maps_to_number(headers@, content_length_name(), len),
                forall|m: Seq<char>|
                    has_name(headers@, m) ==> m == content_type_name() || m
                        == content_length_name() || (exists|k: int|
                        0 <= k < i && custom[k].name@ == m),
            decreases n - i,
        {
            let e = self.headers.entry(i);
            let ghost before = headers@;
            let ghost cur = custom[i as int].name@;
            headers.set(e.name.clone(), e.value.duplicate());
            proof {
                assert forall|k: int|
                    0 <= k < i + 1 implies maps_to(headers@, custom[k].name@, custom[k].value) by {
                    if k < i {
                        assert(custom[k].name@ != cur);
                        assert(maps_to(before, custom[k].name@, custom[k].value));
                    }
                }
                if forall|k: int| 0 <= k < i + 1 ==> custom[k].name@ != content_type_name() {
                    assert(maps_to_text(before, content_type_name(), json));
                    let j = choose|j: int|
                        0 <= j < before.len() && before[j].name@ == content_type_name() && (
                        before[j].value matches HeaderValue::Text(t) && t@ == json);
                    assert(maps_to(before, content_type_name(), before[j].value));
                    assert(cur != content_type_name());
                    assert(maps_to(headers@, content_type_name(), before[j].value));
                    assert(maps_to_text(headers@, content_type_name(), json));
                }
                if forall|k: int| 0 <= k < i + 1 ==> custom[k].name@ != content_length_name() {
                    assert(maps_to_number(before, content_length_name(), len));
                    let j = choose|j: int|
                        0 <= j < before.len() && before[j].name@ == content_length_name()
                            && before[j].value == HeaderValue::Number(len);
                    assert(maps_to(before, content_length_name(), HeaderValue::Number(len)));
                    assert(cur != content_length_name());
                    assert(maps_to(headers@, content_length_name(), HeaderValue::Number(len)));
                }
                assert forall|m: Seq<char>| has_name(headers@, m) implies m == content_type_name()
                    || m == content_length_name() || (exists|k: int|
                    0 <= k < i + 1 && custom[k].name@ == m) by {
                    if m != cur {
                        assert(has_name(before, m));
                    } else {
                        assert(custom[i as int].name@ == m);
                    }
                }
            }
            i += 1;
        }
        proof {
            assert forall|nn: Seq<char>, v: HeaderValue|
                maps_to(custom, nn, v) implies maps_to(headers@, nn, v) by {
                let k = choose|k: int|
                    0 <= k < custom.len() && custom[k].name@ == nn && custom[k].value == v;
                assert(maps_to(headers@, custom[k].name@, custom[k].value));
            }
            if !has_name(custom, content_type_name()) {
                assert(maps_to_text(headers@, content_type_name(), json));
            }
            if !has_name(custom, content_length_name()) {
                assert(maps_to_number(headers@, content_length_name(), len));
            }
        }
        Request { uri: self.uri.clone(), headers, body }
    }

    /// Submits one payload: builds the request and appends it to the
    /// submission queue. A closed queue (the loop is gone) rejects the
    /// submission with `QueueClosed` and nothing is enqueued; otherwise the
    /// request built from this handle and the payload is now last in line.
    pub fn send(&self, queue: &mut SubmissionQueue, json_data: Vec<u8>) -> (r: Result<(), Error>)
        requires
            self.wf(),
        ensures
            old(queue).closed() ==> r == Err::<(), Error>(Error::QueueClosed) && *final(queue)
                == *old(queue),
            !old(queue).closed() ==> r == Ok::<(), Error>(()) && !final(queue).closed()
                && final(queue)@.len() == old(queue)@.len() + 1
                && final(queue)@.subrange(0, old(queue)@.len() as int) == old(queue)@
                && built_from(
                final(queue)@.last(),
                self.uri_spec(),
                self.headers_spec(),
                json_data@,
            ),
    {
        let ghost q0 = queue@;
        let ghost was_closed = queue.closed();
        let request = self.create_request(json_data);
        let r = queue.enqueue(request);
        proof {
            if !was_closed {
                assert(queue@.subrange(0, q0.len() as int) =~= q0);
            }
        }
        r
    }
}

} // verus!
