//! The requests that a plant has sent and whose answers it still gathers.
//!
//! A request is answered by one response, or by several responses of which
//! all but the last say that more follow (`has_more`). The plant gathers the
//! responses of each request under its request id and hands them to the
//! request's responder once the last one has arrived.

use vstd::prelude::*;
use crate::api::receiver_api::RithmicResponse;
use crate::text::str_equals;

verus! {

/// A request that waits for its answers: its id, whom to hand the answers
/// to, and the responses gathered so far.
pub struct PendingRequest<T> {
    pub request_id: String,
    pub responder: T,
    pub responses: Vec<RithmicResponse>,
}

/// The requests that wait for their answers, in the order in which they were
/// registered.
pub struct PendingRequests<T> {
    pub entries: Vec<PendingRequest<T>>,
}

/// Whether `k` is the first entry of `entries` registered under `id`.
pub open spec fn first_with_id<T>(entries: Seq<PendingRequest<T>>, id: Seq<char>, k: int) -> bool {
    &&& 0 <= k < entries.len()
    &&& entries[k].request_id@ == id
    &&& forall|j: int| 0 <= j < k ==> entries[j].request_id@ != id
}

/// Whether some entry of `entries` is registered under `id`.
pub open spec fn has_id<T>(entries: Seq<PendingRequest<T>>, id: Seq<char>) -> bool {
    exists|j: int| 0 <= j < entries.len() && entries[j].request_id@ == id
}

impl<T> PendingRequests<T> {
    /// No request waits.
    pub fn new() -> (r: Self)
        ensures
            r.entries@.len() == 0,
    {
        PendingRequests { entries: Vec::new() }
    }

    /// Registers a request that was sent under `request_id`, whose answers go
    /// to `responder`. It is served after the requests registered before it.
    pub fn register(&mut self, request_id: String, responder: T)
        ensures
            final(self).entries@.len() == old(self).entries@.len() + 1,
            final(self).entries@.take(old(self).entries@.len() as int) == old(self).entries@,
            final(self).entries@.last().request_id == request_id,
            final(self).entries@.last().responder == responder,
            final(self).entries@.last().responses@.len() == 0,
    {
        let entry = PendingRequest { request_id, responder, responses: Vec::new() };
        proof {
            assert(entry.responses@.len() == 0);
        }
        self.entries.push(entry);
    }

    fn find(&self, request_id: &str) -> (r: Option<usize>)
        ensures
            r matches Some(k) ==> first_with_id(self.entries@, request_id@, k as int),
            r is None ==> !has_id(self.entries@, request_id@),
    {
        let mut i: usize = 0;
        while i < self.entries.len()
            invariant
                i <= self.entries@.len(),
                forall|j: int| 0 <= j < i ==> self.entries@[j].request_id@ != request_id@,
            decreases self.entries@.len() - i,
        {
            if str_equals(self.entries[i].request_id.as_str(), request_id) {
                return Some(i);
            }
            i += 1;
        }
        None
    }

    /// Files a response under the first request registered with its request
    /// id. A response that says that more follow is gathered and the request
    /// keeps waiting; the last response completes the request, which is
    /// removed and returned with its responder and all its responses. A
    /// response for which no request waits is returned unfiled (`Err`).
    pub fn handle_response(&mut self, response: RithmicResponse) -> (r: Result<
        Option<(T, Vec<RithmicResponse>)>,
        RithmicResponse,
    >)
        ensures
            !has_id(old(self).entries@, response.request_id@) ==> r == Err::<
                Option<(T, Vec<RithmicResponse>)>,
                RithmicResponse,
            >(response) && final(self).entries@ == old(self).entries@,
            forall|k: int|
                #![trigger first_with_id(old(self).entries@, response.request_id@, k)]
                first_with_id(old(self).entries@, response.request_id@, k) ==> {
                    let e = old(self).entries@[k];
                    if response.has_more {
                        &&& r == Ok::<Option<(T, Vec<RithmicResponse>)>, RithmicResponse>(None)
                        &&& final(self).entries@.len() == old(self).entries@.len()
                        &&& forall|j: int|
                            0 <= j < old(self).entries@.len() && j != k ==> final(self).entries@[j]
                                == old(self).entries@[j]
                        &&& final(self).entries@[k].request_id == e.request_id
                        &&& final(self).entries@[k].responder == e.responder
                        &&& final(self).entries@[k].responses@ == e.responses@.push(response)
                    } else {
                        &&& r matches Ok(Some((t, v))) && t == e.responder && v@ == e.responses@.push(
                            response,
                        )
                        &&& final(self).entries@ == old(self).entries@.remove(k)
                    }
                },
    {
        let found = self.find(response.request_id.as_str());
        match found {
            None => Err(response),
            Some(k) => {
                let ghost old_entries = self.entries@;
                let mut entry = self.entries.remove(k);
                let more = response.has_more;
                let ghost pushed = entry.responses@.push(response);
                entry.responses.push(response);
                if more {
                    self.entries.insert(k, entry);
                    proof {
                        assert forall|j: int|
                            0 <= j < old_entries.len() && j != k implies self.entries@[j]
                            == old_entries[j] by {
                            if j < k {
                            } else {
                            }
                        }
                        assert forall|k2: int| first_with_id(old_entries, response.request_id@, k2)
                            implies k2 == k by {
                            if k2 < k {
                            } else if k2 > k {
                                assert(old_entries[k as int].request_id@ == response.request_id@);
                            }
                        }
                    }
                    Ok(None)
                } else {
                    proof {
                        assert forall|k2: int| first_with_id(old_entries, response.request_id@, k2)
                            implies k2 == k by {
                            if k2 > k {
                                assert(old_entries[k as int].request_id@ == response.request_id@);
                            }
                        }
                    }
                    Ok(Some((entry.responder, entry.responses)))
                }
            },
        }
    }
}

} // verus!
