//! Sinks that admit transactions to the mempool, and the layers that build them. A sink
//! with a deny list turns away every transaction whose initiator is on it.

use crate::types::Address;
use vstd::prelude::*;

verus! {

/// Why a transaction was turned away.
#[derive(Debug, Clone, Copy, PartialEq, Eq, Structural)]
pub enum SubmitTxError {
    SenderInDenyList(Address),
}

/// Whether `a` is on `list`.
fn is_listed(list: &Vec<Address>, a: Address) -> (r: bool)
    ensures
        r == list@.contains(a),
{
    let mut i: usize = 0;
    while i < list.len()
        invariant
            i <= list@.len(),
            forall|j: int| 0 <= j < i ==> list@[j] != a,
        decreases list@.len() - i,
    {
        if list[i] == a {
            assert(list@[i as int] == a);
            return true;
        }
        i = i + 1;
    }
    false
}

/// The sink over the master database pool `P`, with an optional deny list.
#[derive(Debug)]
pub struct MasterPoolSink<P> {
    pool: P,
    deny_list: Option<Vec<Address>>,
}

impl<P> MasterPoolSink<P> {
    pub closed spec fn pool_spec(&self) -> P {
        self.pool
    }

    pub fn pool(&self) -> (r: &P)
        ensures
            *r == self.pool_spec(),
    {
        &self.pool
    }

    pub closed spec fn denied(&self) -> Option<Seq<Address>> {
        match self.deny_list {
            Some(l) => Some(l@),
            None => None,
        }
    }

    pub fn new(pool: P, deny_list: Option<Vec<Address>>) -> (r: MasterPoolSink<P>)
        ensures
            r.pool_spec() == pool,
            r.denied() == match deny_list {
                Some(l) => Some(l@),
                None => None::<Seq<Address>>,
            },
    {
        MasterPoolSink { pool, deny_list }
    }

    /// Admits a transaction from `initiator` unless the deny list holds it.
    pub fn check_initiator(&self, initiator: Address) -> (r: Result<(), SubmitTxError>)
        ensures
            r == if self.denied() matches Some(l) && l.contains(initiator) {
                Err(SubmitTxError::SenderInDenyList(initiator))
            } else {
                Ok(())
            },
    {
        match &self.deny_list {
            Some(l) => if is_listed(l, initiator) {
                Err(SubmitTxError::SenderInDenyList(initiator))
            } else {
                Ok(())
            },
            None => Ok(()),
        }
    }
}

/// A sink that turns away the initiators on its deny list and hands the rest to `S`.
#[derive(Debug)]
pub struct DenyListPoolSink<S> {
    deny_list: Vec<Address>,
    master_pool_sync: S,
}

impl<S> DenyListPoolSink<S> {
    pub closed spec fn denied(&self) -> Seq<Address> {
        self.deny_list@
    }

    pub closed spec fn inner(&self) -> S {
        self.master_pool_sync
    }

    pub fn new(master_pool_sync: S, deny_list: Vec<Address>) -> (r: DenyListPoolSink<S>)
        ensures
            r.denied() == deny_list@,
            r.inner() == master_pool_sync,
    {
        DenyListPoolSink { master_pool_sync, deny_list }
    }

    /// Admits a transaction from `initiator` unless the deny list holds it.
    pub fn check_initiator(&self, initiator: Address) -> (r: Result<(), SubmitTxError>)
        ensures
            r == if self.denied().contains(initiator) {
                Err(SubmitTxError::SenderInDenyList(initiator))
            } else {
                Ok(())
            },
    {
        if is_listed(&self.deny_list, initiator) {
            Err(SubmitTxError::SenderInDenyList(initiator))
        } else {
            Ok(())
        }
    }

    /// The sink that admitted transactions go to.
    pub fn master_pool_sink(&self) -> (r: &S)
        ensures
            *r == self.inner(),
    {
        &self.master_pool_sync
    }
}

/// What a sink layer takes from the running node: the master database pool.
#[derive(Debug)]
pub struct Input<P> {
    pub pool: P,
}

/// What a sink layer provides: the sink.
#[derive(Debug)]
pub struct Output<S> {
    pub tx_sink: S,
}

/// Provides a sink over the master pool, with an optional deny list.
#[derive(Debug)]
pub struct MasterPoolSinkLayer {
    deny_list: Option<Vec<Address>>,
}

impl MasterPoolSinkLayer {
    pub closed spec fn denied(&self) -> Option<Seq<Address>> {
        match self.deny_list {
            Some(l) => Some(l@),
            None => None,
        }
    }

    pub fn deny_list(deny_list: Option<Vec<Address>>) -> (r: MasterPoolSinkLayer)
        ensures
            r.denied() == match deny_list {
                Some(l) => Some(l@),
                None => None::<Seq<Address>>,
            },
    {
        MasterPoolSinkLayer { deny_list }
    }

    /// A layer whose sink has no deny list.
    pub fn default() -> (r: MasterPoolSinkLayer)
        ensures
            r.denied() is None,
    {
        MasterPoolSinkLayer { deny_list: None }
    }

    pub fn layer_name(&self) -> (r: &'static str)
        ensures
            r@ == "master_pook_sink_layer"@,
    {
        "master_pook_sink_layer"
    }

    pub fn wire<P>(self, input: Input<P>) -> (r: Output<MasterPoolSink<P>>)
        ensures
            r.tx_sink.pool_spec() == input.pool,
            r.tx_sink.denied() == self.denied(),
    {
        Output { tx_sink: MasterPoolSink::new(input.pool, self.deny_list) }
    }
}

/// Provides a sink with a deny list in front of a sink over the master pool.
#[derive(Debug)]
pub struct DenyListPoolSinkLayer {
    deny_list: Vec<Address>,
}

impl DenyListPoolSinkLayer {
    pub closed spec fn denied(&self) -> Seq<Address> {
        self.deny_list@
    }

    pub fn new(deny_list: Vec<Address>) -> (r: DenyListPoolSinkLayer)
        ensures
            r.denied() == deny_list@,
    {
        DenyListPoolSinkLayer { deny_list }
    }

    pub fn layer_name(&self) -> (r: &'static str)
        ensures
            r@ == "deny_list_pool_sink_layer"@,
    {
        "deny_list_pool_sink_layer"
    }

    pub fn wire<P>(self, input: Input<P>) -> (r: Output<DenyListPoolSink<MasterPoolSink<P>>>)
        ensures
            r.tx_sink.denied() == self.denied(),
            r.tx_sink.inner().pool_spec() == input.pool,
            r.tx_sink.inner().denied() is None,
    {
        Output { tx_sink: DenyListPoolSink::new(MasterPoolSink::new(input.pool, None), self.deny_list) }
    }
}

} // verus!
