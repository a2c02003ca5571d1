//! The endpoint pool: the ordered candidate connection endpoints the
//! bootstrap call returned, rotated cyclically. Rotation is
//! deterministic; a caller wanting load distribution shuffles the list
//! before building the pool.

use vstd::prelude::*;
use crate::common::MixerError;

verus! {

broadcast use vstd::seq::group_seq_axioms;

/// Candidate endpoints with a cyclic cursor. The ghost `served` counts
/// rotations; `returned` records every index handed out, so the
/// rotation law can be stated over the whole history.
pub struct EndpointPool {
    pub endpoints: Vec<String>,
    pub cursor: usize,
    pub served: Ghost<nat>,
    pub returned: Ghost<Seq<int>>,
}

impl EndpointPool {
    /// The endpoints, in order.
    pub open spec fn endpoints_view(&self) -> Seq<Seq<char>> {
        self.endpoints.deep_view()
    }

    /// How many rotations have been served.
    pub open spec fn served(&self) -> nat {
        self.served@
    }

    /// The index each past rotation returned, in order.
    pub open spec fn returned(&self) -> Seq<int> {
        self.returned@
    }

    /// The cursor always points at the next index to hand out, and the
    /// recorded history is exactly the cyclic walk.
    pub open spec fn wf(&self) -> bool {
        &&& self.endpoints@.len() > 0 ==> self.cursor as int == self.served@ as int
            % self.endpoints@.len() as int
        &&& self.endpoints@.len() == 0 ==> self.served@ == 0
        &&& self.returned@.len() == self.served@
        &&& forall|k: int|
            0 <= k < self.returned@.len() ==> #[trigger] self.returned@[k] == k
                % self.endpoints@.len() as int
    }

    /// A fresh pool over the given endpoints.
    pub fn new(endpoints: Vec<String>) -> (r: EndpointPool)
        ensures
            r.wf(),
            r.endpoints_view() == endpoints.deep_view(),
            r.served() == 0,
            r.returned() == Seq::<int>::empty(),
    {
        let p = EndpointPool {
            endpoints,
            cursor: 0,
            served: Ghost(0),
            returned: Ghost(Seq::empty()),
        };
        proof {
            if p.endpoints@.len() > 0 {
                assert(0int % (p.endpoints@.len() as int) == 0) by (nonlinear_arith)
                    requires
                        p.endpoints@.len() > 0,
                ;
            }
        }
        p
    }

    /// How many endpoints the pool holds.
    pub fn len(&self) -> (r: usize)
        ensures
            r == self.endpoints_view().len(),
    {
        self.endpoints.len()
    }

    /// The next endpoint after the previously returned one, wrapping to
    /// the first after the last; an empty pool is exhausted.
    pub fn rotate(&mut self) -> (r: Result<String, MixerError>)
        requires
            old(self).wf(),
        ensures
            final(self).wf(),
            final(self).endpoints_view() == old(self).endpoints_view(),
            old(self).endpoints_view().len() == 0 ==> (r matches Err(MixerError::ExhaustedPool)
                && *final(self) == *old(self)),
            old(self).endpoints_view().len() > 0 ==> {
                &&& r matches Ok(e) && e@ == old(self).endpoints_view()[
                    old(self).served() as int % old(self).endpoints_view().len() as int
                ]
                &&& final(self).served() == old(self).served() + 1
                &&& final(self).returned() == old(self).returned().push(
                    old(self).served() as int % old(self).endpoints_view().len() as int,
                )
            },
    {
        let m = self.endpoints.len();
        if m == 0 {
            return Err(MixerError::ExhaustedPool);
        }
        let ghost s = self.served@ as int;
        let e = self.endpoints[self.cursor].clone();
        proof {
            assert(self.endpoints.deep_view()[self.cursor as int] == self.endpoints@[
                self.cursor as int
            ]@);
        }
        self.served = Ghost(self.served@ + 1);
        self.returned = Ghost(self.returned@.push(self.cursor as int));
        let next = self.cursor + 1;
        if next == m {
            self.cursor = 0;
        } else {
            self.cursor = next;
        }
        proof {
            let mi = m as int;
            assert((s + 1) % mi == if s % mi + 1 == mi {
                0int
            } else {
                s % mi + 1
            }) by (nonlinear_arith)
                requires
                    mi > 0,
                    s >= 0,
            ;
        }
        Ok(e)
    }
}

/// Rotation law: the pool returns indexes cyclically. Counting calls
/// from one, the k-th successful rotation on a pool of size m returns
/// index (k-1) mod m; so a one-endpoint pool always returns its single
/// entry, and the walk wraps for any number of calls beyond m.
pub proof fn lemma_rotation_cycles(pool: EndpointPool)
    requires
        pool.wf(),
    ensures
        forall|k: int|
            0 <= k < pool.returned().len() ==> #[trigger] pool.returned()[k] == k
                % pool.endpoints_view().len() as int,
{
    assert(pool.endpoints_view().len() == pool.endpoints@.len());
}

} // verus!
