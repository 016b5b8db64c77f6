use vstd::prelude::*;
use crate::descriptor::{TraitDescriptor, TraitView, Transport, trait_views};

verus! {

/// Some function of some trait uses the given transport. With no trait, or
/// with traits that declare no function, this is false for both transports.
pub open spec fn any_uses(traits: Seq<TraitView>, transport: Transport) -> bool {
    exists|i: int| 0 <= i < traits.len() && (#[trigger] traits[i]).has(transport)
}

/// Which transports the declared functions use, over all traits.
#[derive(Debug, Clone, Copy, PartialEq, Eq)]
pub struct TransportUse {
    /// At least one function carries a memory-call identifier.
    pub shared_memory: bool,
    /// At least one function carries none.
    pub direct_call: bool,
}

/// The transports in use among the functions of the given traits.
pub open spec fn transport_use(traits: Seq<TraitView>) -> TransportUse {
    TransportUse {
        shared_memory: any_uses(traits, Transport::SharedMemory),
        direct_call: any_uses(traits, Transport::DirectCall),
    }
}

/// Whether some function of some trait uses the given transport.
pub fn uses(traits: &Vec<TraitDescriptor>, transport: Transport) -> (found: bool)
    ensures
        found == any_uses(trait_views(traits@), transport),
{
    let mut i: usize = 0;
    while i < traits.len()
        invariant
            i <= traits.len(),
            forall|k: int| 0 <= k < i ==> !(#[trigger] trait_views(traits@)[k]).has(transport),
        decreases traits.len() - i,
    {
        if traits[i].has(transport) {
            assert(trait_views(traits@)[i as int] == traits@[i as int]@);
            return true;
        }
        assert(trait_views(traits@)[i as int] == traits@[i as int]@);
        i = i + 1;
    }
    false
}

/// Decides, over all functions of all traits, which transports are in use.
pub fn decide(traits: &Vec<TraitDescriptor>) -> (usage: TransportUse)
    ensures
        usage == transport_use(trait_views(traits@)),
{
    TransportUse {
        shared_memory: uses(traits, Transport::SharedMemory),
        direct_call: uses(traits, Transport::DirectCall),
    }
}

/// A function carries a memory-call identifier or it does not: every declared
/// function puts one of the two transports in use, and without any function
/// neither is.
pub proof fn lemma_every_function_counts(traits: Seq<TraitView>)
    ensures
        (exists|i: int| 0 <= i < traits.len() && (#[trigger] traits[i]).functions.len() > 0) <==> (
        transport_use(traits).shared_memory || transport_use(traits).direct_call),
{
    if exists|i: int| 0 <= i < traits.len() && (#[trigger] traits[i]).functions.len() > 0 {
        let i = choose|i: int| 0 <= i < traits.len() && (#[trigger] traits[i]).functions.len() > 0;
        let f = traits[i].functions[0];
        if f.mem_call_id.is_some() {
            assert(traits[i].has(Transport::SharedMemory));
        } else {
            assert(traits[i].has(Transport::DirectCall));
        }
    }
}

/// The two decisions read as statements about memory-call identifiers:
/// shared memory is in use exactly when some function carries an identifier,
/// a direct call exactly when some function carries none.
pub proof fn lemma_transport_by_identifier(traits: Seq<TraitView>)
    ensures
        transport_use(traits).shared_memory <==> (exists|i: int, j: int|
            0 <= i < traits.len() && 0 <= j < traits[i].functions.len() && (
            #[trigger] traits[i].functions[j]).mem_call_id.is_some()),
        transport_use(traits).direct_call <==> (exists|i: int, j: int|
            0 <= i < traits.len() && 0 <= j < traits[i].functions.len() && (
            #[trigger] traits[i].functions[j]).mem_call_id.is_none()),
{
    if any_uses(traits, Transport::SharedMemory) {
        let i = choose|i: int| 0 <= i < traits.len() && (#[trigger] traits[i]).has(Transport::SharedMemory);
        let j = choose|j: int|
            0 <= j < traits[i].functions.len() && (#[trigger] traits[i].functions[j]).selected()
                == Transport::SharedMemory;
        assert(traits[i].functions[j].mem_call_id.is_some());
    }
    if any_uses(traits, Transport::DirectCall) {
        let i = choose|i: int| 0 <= i < traits.len() && (#[trigger] traits[i]).has(Transport::DirectCall);
        let j = choose|j: int|
            0 <= j < traits[i].functions.len() && (#[trigger] traits[i].functions[j]).selected()
                == Transport::DirectCall;
        assert(traits[i].functions[j].mem_call_id.is_none());
    }
    if exists|i: int, j: int|
        0 <= i < traits.len() && 0 <= j < traits[i].functions.len() && (
        #[trigger] traits[i].functions[j]).mem_call_id.is_some() {
        let (i, j) = choose|i: int, j: int|
            0 <= i < traits.len() && 0 <= j < traits[i].functions.len() && (
            #[trigger] traits[i].functions[j]).mem_call_id.is_some();
        assert(traits[i].functions[j].selected() == Transport::SharedMemory);
        assert(traits[i].has(Transport::SharedMemory));
    }
    if exists|i: int, j: int|
        0 <= i < traits.len() && 0 <= j < traits[i].functions.len() && (
        #[trigger] traits[i].functions[j]).mem_call_id.is_none() {
        let (i, j) = choose|i: int, j: int|
            0 <= i < traits.len() && 0 <= j < traits[i].functions.len() && (
            #[trigger] traits[i].functions[j]).mem_call_id.is_none();
        assert(traits[i].functions[j].selected() == Transport::DirectCall);
        assert(traits[i].has(Transport::DirectCall));
    }
}

} // verus!
