use vstd::prelude::*;

use crate::errors::PQCError;
use crate::keys::{sign_bytes, KeyBundle};
use crate::state::str_eq;

verus! {

/// Whether some entry of `es` is registered under the address `addr`.
pub open spec fn svc_contains(es: Seq<(String, KeyBundle)>, addr: Seq<char>) -> bool {
    exists|i: int| 0 <= i < es.len() && (#[trigger] es[i]).0@ == addr
}

/// The key material registered under `addr`; meaningful when the addresses
/// of `es` are distinct and one of them is `addr`.
pub open spec fn svc_key_of(es: Seq<(String, KeyBundle)>, addr: Seq<char>) -> Seq<u8> {
    es[choose|i: int| 0 <= i < es.len() && (#[trigger] es[i]).0@ == addr].1.key()
}

/// No two entries of `es` share an address.
pub open spec fn svc_distinct(es: Seq<(String, KeyBundle)>) -> bool {
    forall|i: int, j: int|
        0 <= i < j < es.len() ==> (#[trigger] es[i]).0@ != (#[trigger] es[j]).0@
}

/// How the service changes when key material `key` is registered under
/// `addr`: afterwards `addr` maps to `key` (silently replacing whatever it
/// mapped to before), every other address maps to what it mapped to before,
/// and the entry count grows exactly when the address was new.
pub open spec fn register_effect(
    old_es: Seq<(String, KeyBundle)>,
    new_es: Seq<(String, KeyBundle)>,
    addr: Seq<char>,
    key: Seq<u8>,
) -> bool {
    &&& svc_contains(new_es, addr)
    &&& svc_key_of(new_es, addr) == key
    &&& forall|a: Seq<char>|
        a != addr ==> (#[trigger] svc_contains(new_es, a) <==> svc_contains(old_es, a))
    &&& forall|a: Seq<char>|
        a != addr && svc_contains(old_es, a) ==> #[trigger] svc_key_of(new_es, a) == svc_key_of(
            old_es,
            a,
        )
    &&& new_es.len() == old_es.len() + (if svc_contains(old_es, addr) {
        0int
    } else {
        1int
    })
}

/// What verification against the service resolves to: the claimed signer
/// must be registered and the signature must be the registered key's
/// signature over the message. An unknown address resolves to false, never
/// to an error.
pub open spec fn spec_service_verify(
    es: Seq<(String, KeyBundle)>,
    msg: Seq<u8>,
    sig: Seq<u8>,
    addr: Seq<char>,
) -> bool {
    svc_contains(es, addr) && sig == sign_bytes(svc_key_of(es, addr), msg)
}

/// The least of three lengths: how many index-aligned triples a batch of
/// three input sequences holds.
pub open spec fn min3(a: int, b: int, c: int) -> int {
    if a <= b && a <= c {
        a
    } else if b <= c {
        b
    } else {
        c
    }
}

/// With distinct addresses, `svc_key_of` picks the key at any index whose
/// address matches.
proof fn svc_at(es: Seq<(String, KeyBundle)>, i: int)
    requires
        svc_distinct(es),
        0 <= i < es.len(),
    ensures
        svc_contains(es, es[i].0@),
        svc_key_of(es, es[i].0@) == es[i].1.key(),
{
    assert(svc_contains(es, es[i].0@));
    let j = choose|j: int| 0 <= j < es.len() && (#[trigger] es[j]).0@ == es[i].0@;
    if j != i {
        assert(es[i].0@ != es[j].0@);
    }
}

/// Overwriting index `i` with an entry of the same address is a map insert.
proof fn svc_update_effect(es: Seq<(String, KeyBundle)>, i: int, e: (String, KeyBundle))
    requires
        svc_distinct(es),
        0 <= i < es.len(),
        es[i].0@ == e.0@,
    ensures
        svc_distinct(es.update(i, e)),
        register_effect(es, es.update(i, e), e.0@, e.1.key()),
{
    let w = es.update(i, e);
    assert forall|p: int, q: int| 0 <= p < q < w.len() implies (#[trigger] w[p]).0@ != (
    #[trigger] w[q]).0@ by {
        assert(es[p].0@ != es[q].0@);
    }
    svc_at(es, i);
    svc_at(w, i);
    assert forall|a: Seq<char>| a != e.0@ implies (#[trigger] svc_contains(w, a) <==> svc_contains(
        es,
        a,
    )) by {
        if svc_contains(w, a) {
            let k = choose|k: int| 0 <= k < w.len() && (#[trigger] w[k]).0@ == a;
            assert(k != i);
            assert(es[k].0@ == a);
        }
        if svc_contains(es, a) {
            let k = choose|k: int| 0 <= k < es.len() && (#[trigger] es[k]).0@ == a;
            assert(k != i);
            assert(w[k].0@ == a);
        }
    }
    assert forall|a: Seq<char>| a != e.0@ && svc_contains(es, a) implies #[trigger] svc_key_of(
        w,
        a,
    ) == svc_key_of(es, a) by {
        let k = choose|k: int| 0 <= k < es.len() && (#[trigger] es[k]).0@ == a;
        assert(k != i);
        svc_at(es, k);
        svc_at(w, k);
    }
}

/// Appending an entry whose address is absent is a map insert.
proof fn svc_push_effect(es: Seq<(String, KeyBundle)>, e: (String, KeyBundle))
    requires
        svc_distinct(es),
        !svc_contains(es, e.0@),
    ensures
        svc_distinct(es.push(e)),
        register_effect(es, es.push(e), e.0@, e.1.key()),
{
    let n = es.len() as int;
    let w = es.push(e);
    assert forall|p: int, q: int| 0 <= p < q < w.len() implies (#[trigger] w[p]).0@ != (
    #[trigger] w[q]).0@ by {
        if q < n {
            assert(es[p].0@ != es[q].0@);
        } else {
            assert(w[p] == es[p]);
            if es[p].0@ == e.0@ {
                assert(svc_contains(es, e.0@));
            }
        }
    }
    assert(w[n] == e);
    svc_at(w, n);
    assert forall|a: Seq<char>| a != e.0@ implies (#[trigger] svc_contains(w, a) <==> svc_contains(
        es,
        a,
    )) by {
        if svc_contains(w, a) {
            let k = choose|k: int| 0 <= k < w.len() && (#[trigger] w[k]).0@ == a;
            assert(k != n);
            assert(es[k].0@ == a);
        }
        if svc_contains(es, a) {
            let k = choose|k: int| 0 <= k < es.len() && (#[trigger] es[k]).0@ == a;
            assert(w[k].0@ == a);
        }
    }
    assert forall|a: Seq<char>| a != e.0@ && svc_contains(es, a) implies #[trigger] svc_key_of(
        w,
        a,
    ) == svc_key_of(es, a) by {
        let k = choose|k: int| 0 <= k < es.len() && (#[trigger] es[k]).0@ == a;
        svc_at(es, k);
        svc_at(w, k);
    }
}

/// A stateless-per-call verification service: the key material registered
/// for each validator address, used to check signatures from arbitrary
/// validators, one at a time or in batches. Only verifying key material is
/// held here; entries persist until explicitly replaced.
pub struct PQCSignatureService {
    pub validators: Vec<(String, KeyBundle)>,
}

impl PQCSignatureService {
    /// The registered entries, in registration order.
    pub open spec fn entries(&self) -> Seq<(String, KeyBundle)> {
        self.validators@
    }

    /// The service's invariant: registered addresses are distinct.
    pub open spec fn wf(&self) -> bool {
        svc_distinct(self.entries())
    }

    /// A service with no registered validators.
    pub fn new() -> (s: PQCSignatureService)
        ensures
            s.wf(),
            s.entries() == Seq::<(String, KeyBundle)>::empty(),
    {
        let s = PQCSignatureService { validators: Vec::new() };
        proof {
            assert(s.entries() =~= Seq::<(String, KeyBundle)>::empty());
        }
        s
    }

    /// The index of the entry registered under `address`, if any.
    fn find_index(&self, address: &str) -> (r: Option<usize>)
        ensures
            match r {
                Some(i) => 0 <= i < self.entries().len() && self.entries()[i as int].0@
                    == address@,
                None => !svc_contains(self.entries(), address@),
            },
    {
        let n = self.validators.len();
        let mut i: usize = 0;
        while i < n
            invariant
                0 <= i <= n,
                n == self.entries().len(),
                forall|k: int| 0 <= k < i ==> (#[trigger] self.entries()[k]).0@ != address@,
            decreases n - i,
        {
            if str_eq(self.validators[i].0.as_str(), address) {
                return Some(i);
            }
            i = i + 1;
        }
        None
    }

    /// Register `keys` under `address`, silently replacing any key material
    /// already registered there (the same last-write-wins policy as the
    /// registry).
    pub fn register_validator(&mut self, address: String, keys: KeyBundle)
        requires
            old(self).wf(),
        ensures
            final(self).wf(),
            register_effect(old(self).entries(), final(self).entries(), address@, keys.key()),
    {
        let ghost old_es = self.validators@;
        let ghost e = (address, keys);
        match self.find_index(address.as_str()) {
            Some(i) => {
                self.validators[i] = (address, keys);
                proof {
                    svc_update_effect(old_es, i as int, e);
                }
            },
            None => {
                self.validators.push((address, keys));
                proof {
                    svc_push_effect(old_es, e);
                }
            },
        }
    }

    /// Check `signature` over `message` against the key material registered
    /// under `validator_address`. An unregistered address resolves to
    /// `Ok(false)`, not to an error.
    pub fn verify_signature(
        &self,
        message: &[u8],
        signature: &[u8],
        validator_address: &str,
    ) -> (r: Result<bool, PQCError>)
        requires
            self.wf(),
        ensures
            r is Ok,
            r->Ok_0 == spec_service_verify(self.entries(), message@, signature@, validator_address@),
            !svc_contains(self.entries(), validator_address@) ==> r->Ok_0 == false,
    {
        match self.find_index(validator_address) {
            Some(i) => {
                proof {
                    svc_at(self.entries(), i as int);
                }
                self.validators[i].1.verify(message, signature)
            },
            None => Ok(false),
        }
    }

    /// Verify a batch of index-aligned (message, signature, address) triples.
    ///
    /// The batch is truncated to the shortest of the three inputs — a safety
    /// measure against indexing past a shorter array, not an error. Each
    /// triple is verified independently: one failed verification does not
    /// short-circuit the rest, and results come back in input order.
    pub fn batch_verify_signatures(
        &self,
        messages: &[&[u8]],
        signatures: &[&[u8]],
        validator_addresses: &[&str],
    ) -> (r: Result<Vec<bool>, PQCError>)
        requires
            self.wf(),
        ensures
            r is Ok,
            r->Ok_0@.len() == min3(
                messages@.len() as int,
                signatures@.len() as int,
                validator_addresses@.len() as int,
            ),
            forall|j: int|
                0 <= j < r->Ok_0@.len() ==> r->Ok_0@[j] == spec_service_verify(
                    self.entries(),
                    messages@[j]@,
                    signatures@[j]@,
                    validator_addresses@[j]@,
                ),
    {
        let mut n = messages.len();
        if signatures.len() < n {
            n = signatures.len();
        }
        if validator_addresses.len() < n {
            n = validator_addresses.len();
        }
        let mut results: Vec<bool> = Vec::new();
        let mut i: usize = 0;
        while i < n
            invariant
                0 <= i <= n,
                self.wf(),
                n == min3(
                    messages@.len() as int,
                    signatures@.len() as int,
                    validator_addresses@.len() as int,
                ),
                results@.len() == i,
                forall|j: int|
                    0 <= j < i ==> results@[j] == spec_service_verify(
                        self.entries(),
                        messages@[j]@,
                        signatures@[j]@,
                        validator_addresses@[j]@,
                    ),
            decreases n - i,
        {
            let verified = match self.verify_signature(
                messages[i],
                signatures[i],
                validator_addresses[i],
            ) {
                Ok(b) => b,
                Err(e) => {
                    return Err(e);
                },
            };
            results.push(verified);
            i = i + 1;
        }
        Ok(results)
    }
}

} // verus!
