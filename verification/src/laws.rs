use vstd::prelude::*;

use crate::keys::{sign_bytes, KeyBundle};
use crate::service::{spec_service_verify, svc_contains, svc_key_of};
use crate::state::{
    add_effect, contains_addr, increment_effect, record_of, spec_registry_verify,
    PQCNetworkState, PQCValidatorConfig,
};

verus! {

/// Inserting a record and then looking its address up returns the inserted
/// record unchanged: after any successful `add` of `v`, the registry
/// contains `v.address` and `lookup` — whose result is `record_of` at that
/// address — yields exactly `v`.
pub proof fn lemma_add_then_lookup(
    old_vs: Seq<PQCValidatorConfig>,
    new_vs: Seq<PQCValidatorConfig>,
    v: PQCValidatorConfig,
)
    requires
        add_effect(old_vs, new_vs, v),
    ensures
        contains_addr(new_vs, v.address@),
        record_of(new_vs, v.address@) == v,
{
}

/// A block signed with a registered record's own key bundle verifies against
/// that record: for any registered address, the signature its record
/// produces over `data` — which is what `sign_block_proposal` returns when
/// the node's bundle equals the registered one — resolves to true.
pub proof fn lemma_sign_then_verify(vs: Seq<PQCValidatorConfig>, addr: Seq<char>, data: Seq<u8>)
    requires
        contains_addr(vs, addr),
    ensures
        spec_registry_verify(
            vs,
            data,
            sign_bytes(record_of(vs, addr).key_bundle.key(), data),
            addr,
        ),
{
}

/// The service-side counterpart: a message signed with the key material
/// registered under an address verifies against the service at that address.
pub proof fn lemma_register_then_verify(
    es: Seq<(String, KeyBundle)>,
    addr: Seq<char>,
    data: Seq<u8>,
)
    requires
        svc_contains(es, addr),
    ensures
        spec_service_verify(es, data, sign_bytes(svc_key_of(es, addr), data), addr),
{
}

/// A signature over one message never verifies as a signature over another:
/// the same key bundle signs two messages identically only when the messages
/// are identical.
pub proof fn lemma_sign_injective(key: Seq<u8>, msg1: Seq<u8>, msg2: Seq<u8>)
    requires
        sign_bytes(key, msg1) == sign_bytes(key, msg2),
    ensures
        msg1 == msg2,
{
    assert(sign_bytes(key, msg1).len() == key.len() + msg1.len());
    assert(msg1.len() == msg2.len());
    assert forall|i: int| 0 <= i < msg1.len() implies msg1[i] == msg2[i] by {
        assert(sign_bytes(key, msg1)[key.len() + i] == msg1[i]);
        assert(sign_bytes(key, msg2)[key.len() + i] == msg2[i]);
    }
    assert(msg1 =~= msg2);
}

/// Chain height counts increments: along any chain of states that starts at
/// height zero and where each state follows from the one before by a single
/// height increment, the last state's height equals the number of
/// increments taken.
pub proof fn lemma_height_after_increments(chain: Seq<PQCNetworkState>)
    requires
        chain.len() >= 1,
        chain[0].current_height == 0,
        forall|i: int|
            0 <= i < chain.len() - 1 ==> #[trigger] increment_effect(chain[i], chain[i + 1]),
    ensures
        chain[chain.len() - 1].current_height == chain.len() - 1,
    decreases chain.len(),
{
    if chain.len() > 1 {
        let prefix = chain.drop_last();
        assert(prefix[0] == chain[0]);
        assert forall|i: int| 0 <= i < prefix.len() - 1 implies #[trigger] increment_effect(
            prefix[i],
            prefix[i + 1],
        ) by {
            assert(prefix[i] == chain[i]);
            assert(prefix[i + 1] == chain[i + 1]);
            assert(increment_effect(chain[i], chain[i + 1]));
        }
        lemma_height_after_increments(prefix);
        assert(chain[chain.len() - 2] == prefix[prefix.len() - 1]);
        assert(increment_effect(chain[chain.len() - 2], chain[chain.len() - 1]));
    }
}

} // verus!
