//! The transport front end: destination validation and the shared
//! identifier counter.
//!
//! One transport stands for one network client and one execution loop. All
//! handles derived from it share its identifier counter, so identifiers are
//! unique across every handle of one transport.

use vstd::prelude::*;

use crate::builder::{DefaultClient, HttpTransportBuilder};
use crate::errors::Error;
use crate::handle::HttpHandle;
use crate::headers::HeaderEntry;
use crate::id::IdCounter;

verus! {

/// Whether the characters of `s` form a valid destination URI.
pub uninterp spec fn uri_ok(s: Seq<char>) -> bool;

/// Relies on `hyper::Uri`'s `FromStr` impl: whether a string is accepted as
/// a URI is a function of its characters alone.
#[verifier::external_body]
fn uri_is_valid(s: &str) -> (r: bool)
    ensures
        r == uri_ok(s@),
{
    s.parse::<hyper::Uri>().is_ok()
}

/// The front end of one running transport: the source of request
/// identifiers and of destination-bound handles.
pub struct HttpTransport {
    id: IdCounter,
}

impl HttpTransport {
    /// The identifiers handed out so far.
    pub closed spec fn ids(self) -> Seq<u64> {
        self.id.issued()
    }

    /// The identifier the next `get_next_id` call returns.
    pub closed spec fn next_id_spec(self) -> u64 {
        self.id.next()
    }

    /// The counter has not wrapped: it has handed out exactly 1 .. n.
    pub closed spec fn wf(self) -> bool {
        self.id.wf()
    }

    /// A transport that has handed out nothing yet: its first identifier
    /// will be 1.
    pub open spec fn is_fresh(self) -> bool {
        &&& self.wf()
        &&& self.ids() == Seq::<u64>::empty()
        &&& self.next_id_spec() == 1
    }

    /// A front end whose counter starts at 1.
    pub(crate) fn fresh() -> (t: HttpTransport)
        ensures
            t.is_fresh(),
    {
        HttpTransport { id: IdCounter::new() }
    }

    /// A builder for a transport backed by the default plaintext client.
    pub fn new() -> (b: HttpTransportBuilder<DefaultClient>)
        ensures
            b.timeout_spec() is None,
    {
        HttpTransportBuilder::with_client(DefaultClient)
    }

    /// A handle bound to `uri`, carrying no decoration headers yet.
    ///
    /// Returns `InvalidDestination` exactly when the string is not a valid
    /// URI.
    pub fn handle(&self, uri: &str) -> (r: Result<HttpHandle, Error>)
        ensures
            r is Ok <==> uri_ok(uri@),
            r matches Ok(h) ==> h.wf() && h.uri_spec() == uri@ && h.headers_spec()
                == Seq::<HeaderEntry>::empty(),
            !uri_ok(uri@) ==> r == Err::<HttpHandle, Error>(Error::InvalidDestination),
    {
        if uri_is_valid(uri) {
            Ok(HttpHandle::new_bound(String::from_str(uri)))
        } else {
            Err(Error::InvalidDestination)
        }
    }

    /// Hands out the next request identifier; no two calls on one transport
    /// ever return the same value until the counter wraps at the integer's
    /// maximum.
    pub fn get_next_id(&mut self) -> (id: u64)
        ensures
            id == old(self).next_id_spec(),
            final(self).ids() == old(self).ids().push(id),
            old(self).next_id_spec() < u64::MAX ==> final(self).next_id_spec() == old(
                self,
            ).next_id_spec() + 1,
            old(self).wf() && old(self).next_id_spec() < u64::MAX ==> final(self).wf(),
    {
        self.id.next_id()
    }
}

/// Monotonic unique identifiers at the transport: while the counter has not
/// wrapped, the identifiers handed out are exactly the values 1 through n,
/// each exactly once, whatever interleaving of callers drew them.
pub proof fn lemma_transport_ids_unique(t: HttpTransport)
    requires
        t.wf(),
    ensures
        forall|i: int, j: int| 0 <= i < j < t.ids().len() ==> t.ids()[i] != t.ids()[j],
        forall|v: u64| t.ids().contains(v) <==> 1 <= v <= t.ids().len(),
{
    crate::id::lemma_issued_ids_unique(t.id);
}

} // verus!
