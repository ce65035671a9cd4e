use vstd::prelude::*;

use crate::errors::PQCError;
use crate::keys::{sign_bytes, KeyBundle};
use crate::params::ConsensusParams;

verus! {

/// Commission rates are fixed-point fractions of this scale: a rate of
/// `COMMISSION_RATE_SCALE` parts per million is a commission of one.
pub const COMMISSION_RATE_SCALE: u64 = 1000000;

/// One validator's record: identity, stake weight, commission, and the key
/// bundle its block signatures are checked against. The address is the
/// record's unique identifier within a registry.
#[derive(Debug, Clone)]
pub struct PQCValidatorConfig {
    pub name: String,
    pub address: String,
    pub voting_power: u64,
    /// Commission as a fraction of [`COMMISSION_RATE_SCALE`], so a value in
    /// [0, 1] without floating point; 50000 is a commission of 0.05.
    pub commission_rate_ppm: u64,
    pub key_bundle: KeyBundle,
}

impl PQCValidatorConfig {
    /// The record's data invariant: the commission is a fraction in [0, 1].
    pub open spec fn valid(&self) -> bool {
        self.commission_rate_ppm <= COMMISSION_RATE_SCALE
    }
}

/// Whether some record in `vs` carries the address `addr`.
pub open spec fn contains_addr(vs: Seq<PQCValidatorConfig>, addr: Seq<char>) -> bool {
    exists|i: int| 0 <= i < vs.len() && (#[trigger] vs[i]).address@ == addr
}

/// The record in `vs` carrying the address `addr`; meaningful when the
/// addresses of `vs` are distinct and one of them is `addr`.
pub open spec fn record_of(vs: Seq<PQCValidatorConfig>, addr: Seq<char>) -> PQCValidatorConfig {
    vs[choose|i: int| 0 <= i < vs.len() && (#[trigger] vs[i]).address@ == addr]
}

/// No two records of `vs` share an address.
pub open spec fn distinct_addrs(vs: Seq<PQCValidatorConfig>) -> bool {
    forall|i: int, j: int|
        0 <= i < j < vs.len() ==> (#[trigger] vs[i]).address@ != (#[trigger] vs[j]).address@
}

/// Every record of `vs` meets its data invariant.
pub open spec fn all_valid(vs: Seq<PQCValidatorConfig>) -> bool {
    forall|i: int| 0 <= i < vs.len() ==> (#[trigger] vs[i]).valid()
}

/// How a registry changes when `v` is inserted: afterwards `v` is the record
/// at its address (overwriting any previous holder), every other address maps
/// to what it mapped to before, and the record count grows exactly when the
/// address was new.
pub open spec fn add_effect(
    old_vs: Seq<PQCValidatorConfig>,
    new_vs: Seq<PQCValidatorConfig>,
    v: PQCValidatorConfig,
) -> bool {
    &&& contains_addr(new_vs, v.address@)
    &&& record_of(new_vs, v.address@) == v
    &&& forall|a: Seq<char>|
        a != v.address@ ==> (#[trigger] contains_addr(new_vs, a) <==> contains_addr(old_vs, a))
    &&& forall|a: Seq<char>|
        a != v.address@ && contains_addr(old_vs, a) ==> #[trigger] record_of(new_vs, a)
            == record_of(old_vs, a)
    &&& new_vs.len() == old_vs.len() + (if contains_addr(old_vs, v.address@) {
        0int
    } else {
        1int
    })
}

/// How a registry changes when the address `addr` is removed: afterwards no
/// record carries it, every other address maps to what it mapped to before,
/// and the record count shrinks exactly when the address was present.
pub open spec fn remove_effect(
    old_vs: Seq<PQCValidatorConfig>,
    new_vs: Seq<PQCValidatorConfig>,
    addr: Seq<char>,
) -> bool {
    &&& !contains_addr(new_vs, addr)
    &&& forall|a: Seq<char>|
        a != addr ==> (#[trigger] contains_addr(new_vs, a) <==> contains_addr(old_vs, a))
    &&& forall|a: Seq<char>|
        a != addr && contains_addr(old_vs, a) ==> #[trigger] record_of(new_vs, a) == record_of(
            old_vs,
            a,
        )
    &&& new_vs.len() == old_vs.len() - (if contains_addr(old_vs, addr) {
        1int
    } else {
        0int
    })
}

/// The record `c` with its voting power replaced by `p`.
pub open spec fn with_power(c: PQCValidatorConfig, p: u64) -> PQCValidatorConfig {
    PQCValidatorConfig { voting_power: p, ..c }
}

/// How a registry changes when the voting power of `addr` is set to `p`: the
/// record at `addr` keeps everything but its power, and every other address
/// maps to what it mapped to before.
pub open spec fn update_power_effect(
    old_vs: Seq<PQCValidatorConfig>,
    new_vs: Seq<PQCValidatorConfig>,
    addr: Seq<char>,
    p: u64,
) -> bool {
    &&& contains_addr(new_vs, addr)
    &&& record_of(new_vs, addr) == with_power(record_of(old_vs, addr), p)
    &&& forall|a: Seq<char>|
        a != addr ==> (#[trigger] contains_addr(new_vs, a) <==> contains_addr(old_vs, a))
    &&& forall|a: Seq<char>|
        a != addr && contains_addr(old_vs, a) ==> #[trigger] record_of(new_vs, a) == record_of(
            old_vs,
            a,
        )
    &&& new_vs.len() == old_vs.len()
}

/// What verification against a registry resolves to: the claimed signer must
/// be registered and the signature must be its record's signature over the
/// message. An unknown address resolves to false, never to an error.
pub open spec fn spec_registry_verify(
    vs: Seq<PQCValidatorConfig>,
    msg: Seq<u8>,
    sig: Seq<u8>,
    addr: Seq<char>,
) -> bool {
    contains_addr(vs, addr) && sig == sign_bytes(record_of(vs, addr).key_bundle.key(), msg)
}

/// With distinct addresses, `record_of` picks the record at any index whose
/// address matches.
proof fn lemma_record_at(vs: Seq<PQCValidatorConfig>, i: int)
    requires
        distinct_addrs(vs),
        0 <= i < vs.len(),
    ensures
        contains_addr(vs, vs[i].address@),
        record_of(vs, vs[i].address@) == vs[i],
{
    assert(contains_addr(vs, vs[i].address@));
    let j = choose|j: int| 0 <= j < vs.len() && (#[trigger] vs[j]).address@ == vs[i].address@;
    if j != i {
        assert(vs[i].address@ != vs[j].address@);
    }
}

/// Overwriting index `i` with a record of the same address is a map insert.
proof fn lemma_update_effect(vs: Seq<PQCValidatorConfig>, i: int, v: PQCValidatorConfig)
    requires
        distinct_addrs(vs),
        0 <= i < vs.len(),
        vs[i].address@ == v.address@,
    ensures
        distinct_addrs(vs.update(i, v)),
        add_effect(vs, vs.update(i, v), v),
{
    let w = vs.update(i, v);
    assert forall|p: int, q: int| 0 <= p < q < w.len() implies (#[trigger] w[p]).address@ != (
    #[trigger] w[q]).address@ by {
        assert(vs[p].address@ != vs[q].address@);
    }
    lemma_record_at(vs, i);
    lemma_record_at(w, i);
    assert forall|a: Seq<char>| a != v.address@ implies (#[trigger] contains_addr(w, a)
        <==> contains_addr(vs, a)) by {
        if contains_addr(w, a) {
            let k = choose|k: int| 0 <= k < w.len() && (#[trigger] w[k]).address@ == a;
            assert(k != i);
            assert(vs[k].address@ == a);
        }
        if contains_addr(vs, a) {
            let k = choose|k: int| 0 <= k < vs.len() && (#[trigger] vs[k]).address@ == a;
            assert(k != i);
            assert(w[k].address@ == a);
        }
    }
    assert forall|a: Seq<char>| a != v.address@ && contains_addr(vs, a) implies #[trigger] record_of(
        w,
        a,
    ) == record_of(vs, a) by {
        let k = choose|k: int| 0 <= k < vs.len() && (#[trigger] vs[k]).address@ == a;
        assert(k != i);
        lemma_record_at(vs, k);
        lemma_record_at(w, k);
    }
}

/// Appending a record whose address is absent is a map insert.
proof fn lemma_push_effect(vs: Seq<PQCValidatorConfig>, v: PQCValidatorConfig)
    requires
        distinct_addrs(vs),
        !contains_addr(vs, v.address@),
    ensures
        distinct_addrs(vs.push(v)),
        add_effect(vs, vs.push(v), v),
{
    let n = vs.len() as int;
    let w = vs.push(v);
    assert forall|p: int, q: int| 0 <= p < q < w.len() implies (#[trigger] w[p]).address@ != (
    #[trigger] w[q]).address@ by {
        if q < n {
            assert(vs[p].address@ != vs[q].address@);
        } else {
            assert(w[p] == vs[p]);
            if vs[p].address@ == v.address@ {
                assert(contains_addr(vs, v.address@));
            }
        }
    }
    assert(w[n] == v);
    lemma_record_at(w, n);
    assert forall|a: Seq<char>| a != v.address@ implies (#[trigger] contains_addr(w, a)
        <==> contains_addr(vs, a)) by {
        if contains_addr(w, a) {
            let k = choose|k: int| 0 <= k < w.len() && (#[trigger] w[k]).address@ == a;
            assert(k != n);
            assert(vs[k].address@ == a);
        }
        if contains_addr(vs, a) {
            let k = choose|k: int| 0 <= k < vs.len() && (#[trigger] vs[k]).address@ == a;
            assert(w[k].address@ == a);
        }
    }
    assert forall|a: Seq<char>| a != v.address@ && contains_addr(vs, a) implies #[trigger] record_of(
        w,
        a,
    ) == record_of(vs, a) by {
        let k = choose|k: int| 0 <= k < vs.len() && (#[trigger] vs[k]).address@ == a;
        lemma_record_at(vs, k);
        lemma_record_at(w, k);
    }
}

/// Removing index `i` is a map removal of the address stored there.
proof fn lemma_remove_effect(vs: Seq<PQCValidatorConfig>, i: int)
    requires
        distinct_addrs(vs),
        0 <= i < vs.len(),
    ensures
        distinct_addrs(vs.remove(i)),
        remove_effect(vs, vs.remove(i), vs[i].address@),
{
    let n = vs.len() as int;
    let w = vs.remove(i);
    vs.remove_ensures(i);
    let addr = vs[i].address@;
    assert forall|p: int, q: int| 0 <= p < q < w.len() implies (#[trigger] w[p]).address@ != (
    #[trigger] w[q]).address@ by {
        let p0: int = if p < i {
            p
        } else {
            p + 1
        };
        let q0: int = if q < i {
            q
        } else {
            q + 1
        };
        assert(w[p] == vs[p0]);
        assert(w[q] == vs[q0]);
        assert(vs[p0].address@ != vs[q0].address@);
    }
    lemma_record_at(vs, i);
    assert(!contains_addr(w, addr)) by {
        if contains_addr(w, addr) {
            let k = choose|k: int| 0 <= k < w.len() && (#[trigger] w[k]).address@ == addr;
            let k0: int = if k < i {
                k
            } else {
                k + 1
            };
            assert(w[k] == vs[k0]);
            assert(k0 != i);
            assert(vs[k0].address@ != vs[i].address@);
        }
    }
    assert forall|a: Seq<char>| a != addr implies (#[trigger] contains_addr(w, a)
        <==> contains_addr(vs, a)) by {
        if contains_addr(w, a) {
            let k = choose|k: int| 0 <= k < w.len() && (#[trigger] w[k]).address@ == a;
            let k0: int = if k < i {
                k
            } else {
                k + 1
            };
            assert(w[k] == vs[k0]);
            assert(contains_addr(vs, a));
        }
        if contains_addr(vs, a) {
            let k = choose|k: int| 0 <= k < vs.len() && (#[trigger] vs[k]).address@ == a;
            assert(k != i);
            let k1: int = if k < i {
                k
            } else {
                k - 1
            };
            assert(w[k1] == vs[k]);
            assert(contains_addr(w, a));
        }
    }
    assert forall|a: Seq<char>| a != addr && contains_addr(vs, a) implies #[trigger] record_of(
        w,
        a,
    ) == record_of(vs, a) by {
        let k = choose|k: int| 0 <= k < vs.len() && (#[trigger] vs[k]).address@ == a;
        assert(k != i);
        let k1: int = if k < i {
            k
        } else {
            k - 1
        };
        assert(w[k1] == vs[k]);
        lemma_record_at(vs, k);
        lemma_record_at(w, k1);
    }
}

/// Relies on `str`'s `PartialEq` implementation: two string slices are equal
/// exactly when they consist of the same characters.
#[verifier::external_body]
pub(crate) fn str_eq(a: &str, b: &str) -> (r: bool)
    ensures
        r == (a@ == b@),
{
    a == b
}

/// A node's view of the network: the validator registry, the chain height,
/// and the consensus parameters. The registry is the only shared mutation
/// surface; the height only ever grows.
#[derive(Debug, Clone)]
pub struct PQCNetworkState {
    pub validators: Vec<PQCValidatorConfig>,
    pub current_height: u64,
    pub consensus_params: ConsensusParams,
}

/// How one height increment changes a state: the height grows by one and the
/// registry and parameters stay as they were.
pub open spec fn increment_effect(old_s: PQCNetworkState, new_s: PQCNetworkState) -> bool {
    &&& new_s.current_height == old_s.current_height + 1
    &&& new_s.validator_seq() == old_s.validator_seq()
    &&& new_s.consensus_params == old_s.consensus_params
}

impl PQCNetworkState {
    /// The registry's records, in insertion order.
    pub open spec fn validator_seq(&self) -> Seq<PQCValidatorConfig> {
        self.validators@
    }

    /// The state's invariant: registry addresses are distinct and every
    /// record meets its own invariant.
    pub open spec fn wf(&self) -> bool {
        &&& distinct_addrs(self.validator_seq())
        &&& all_valid(self.validator_seq())
    }

    /// Whether the registry already holds as many records as the parameters
    /// allow.
    pub open spec fn at_capacity(&self) -> bool {
        self.validator_seq().len() >= self.consensus_params.max_validators
    }

    /// A state with an empty registry at height zero.
    pub fn new_state(params: ConsensusParams) -> (s: PQCNetworkState)
        ensures
            s.wf(),
            s.validator_seq() == Seq::<PQCValidatorConfig>::empty(),
            s.current_height == 0,
            s.consensus_params == params,
    {
        let s = PQCNetworkState { validators: Vec::new(), current_height: 0, consensus_params: params };
        proof {
            assert(s.validator_seq() =~= Seq::<PQCValidatorConfig>::empty());
        }
        s
    }

    /// The index of the record carrying `address`, if any.
    fn find_index(&self, address: &str) -> (r: Option<usize>)
        ensures
            match r {
                Some(i) => 0 <= i < self.validator_seq().len() && self.validator_seq()[
                    i as int
                ].address@ == address@,
                None => !contains_addr(self.validator_seq(), address@),
            },
    {
        let n = self.validators.len();
        let mut i: usize = 0;
        while i < n
            invariant
                0 <= i <= n,
                n == self.validator_seq().len(),
                forall|k: int| 0 <= k < i ==> (#[trigger] self.validator_seq()[k]).address@
                    != address@,
            decreases n - i,
        {
            if str_eq(self.validators[i].address.as_str(), address) {
                return Some(i);
            }
            i = i + 1;
        }
        None
    }

    /// How many validators the registry holds.
    pub fn validator_count(&self) -> (r: usize)
        ensures
            r == self.validator_seq().len(),
    {
        self.validators.len()
    }

    /// The registered record for `address`, or `None` when the address is
    /// unknown. Read-only.
    pub fn lookup(&self, address: &str) -> (r: Option<&PQCValidatorConfig>)
        requires
            self.wf(),
        ensures
            match r {
                Some(c) => contains_addr(self.validator_seq(), address@) && *c == record_of(
                    self.validator_seq(),
                    address@,
                ),
                None => !contains_addr(self.validator_seq(), address@),
            },
    {
        match self.find_index(address) {
            Some(i) => {
                proof {
                    lemma_record_at(self.validator_seq(), i as int);
                }
                Some(&self.validators[i])
            },
            None => None,
        }
    }

    /// Insert `v` into the registry, keyed by its address.
    ///
    /// Fails with `CapacityExceeded`, leaving the state unchanged, when the
    /// registry already holds `max_validators` records. Otherwise the insert
    /// succeeds; a record already carrying the same address is overwritten
    /// rather than rejected — re-adding an address deliberately replaces its
    /// record.
    pub fn add(&mut self, v: PQCValidatorConfig) -> (r: Result<(), PQCError>)
        requires
            old(self).wf(),
            v.valid(),
        ensures
            final(self).wf(),
            final(self).current_height == old(self).current_height,
            final(self).consensus_params == old(self).consensus_params,
            old(self).at_capacity() ==> r == Err::<(), PQCError>(PQCError::CapacityExceeded)
                && *final(self) == *old(self),
            !old(self).at_capacity() ==> r == Ok::<(), PQCError>(()) && add_effect(
                old(self).validator_seq(),
                final(self).validator_seq(),
                v,
            ),
    {
        if self.validators.len() >= self.consensus_params.max_validators as usize {
            return Err(PQCError::CapacityExceeded);
        }
        let ghost old_vs = self.validators@;
        let ghost vv = v;
        match self.find_index(v.address.as_str()) {
            Some(i) => {
                self.validators[i] = v;
                proof {
                    lemma_update_effect(old_vs, i as int, vv);
                    assert(self.validators@ == old_vs.update(i as int, vv));
                    assert forall|k: int| 0 <= k < self.validator_seq().len() implies (
                    #[trigger] self.validator_seq()[k]).valid() by {
                        if k != i {
                            assert(old_vs[k].valid());
                        }
                    }
                }
            },
            None => {
                self.validators.push(v);
                proof {
                    lemma_push_effect(old_vs, vv);
                    assert forall|k: int| 0 <= k < self.validator_seq().len() implies (
                    #[trigger] self.validator_seq()[k]).valid() by {
                        if k < old_vs.len() {
                            assert(old_vs[k].valid());
                        }
                    }
                }
            },
        }
        Ok(())
    }

    /// Remove the record carrying `address`, if any. Idempotent: removing an
    /// absent address succeeds as a no-op and leaves the state untouched.
    pub fn remove(&mut self, address: &str) -> (r: Result<(), PQCError>)
        requires
            old(self).wf(),
        ensures
            r == Ok::<(), PQCError>(()),
            final(self).wf(),
            final(self).current_height == old(self).current_height,
            final(self).consensus_params == old(self).consensus_params,
            remove_effect(old(self).validator_seq(), final(self).validator_seq(), address@),
            !contains_addr(old(self).validator_seq(), address@) ==> *final(self) == *old(self),
    {
        let ghost old_vs = self.validators@;
        match self.find_index(address) {
            Some(i) => {
                self.validators.remove(i);
                proof {
                    lemma_remove_effect(old_vs, i as int);
                    vs_remove_keeps_valid(old_vs, i as int);
                }
            },
            None => {},
        }
        Ok(())
    }

    /// Replace the voting power of the record carrying `address`. A no-op,
    /// not an error, when the address is unknown. The new power is not held
    /// against `min_stake`: that check is the caller's responsibility.
    pub fn update_voting_power(&mut self, address: &str, new_power: u64) -> (r: Result<
        (),
        PQCError,
    >)
        requires
            old(self).wf(),
        ensures
            r == Ok::<(), PQCError>(()),
            final(self).wf(),
            final(self).current_height == old(self).current_height,
            final(self).consensus_params == old(self).consensus_params,
            contains_addr(old(self).validator_seq(), address@) ==> update_power_effect(
                old(self).validator_seq(),
                final(self).validator_seq(),
                address@,
                new_power,
            ),
            !contains_addr(old(self).validator_seq(), address@) ==> *final(self) == *old(self),
    {
        let ghost old_vs = self.validators@;
        match self.find_index(address) {
            Some(i) => {
                self.validators[i].voting_power = new_power;
                proof {
                    let ghost w = with_power(old_vs[i as int], new_power);
                    assert(self.validators@ == old_vs.update(i as int, w));
                    lemma_record_at(old_vs, i as int);
                    lemma_update_same_power(old_vs, i as int, new_power);
                    assert forall|k: int| 0 <= k < self.validator_seq().len() implies (
                    #[trigger] self.validator_seq()[k]).valid() by {
                        assert(old_vs[k].valid());
                    }
                }
            },
            None => {},
        }
        Ok(())
    }
}

/// Removing an index keeps every remaining record's invariant.
proof fn vs_remove_keeps_valid(vs: Seq<PQCValidatorConfig>, i: int)
    requires
        all_valid(vs),
        0 <= i < vs.len(),
    ensures
        all_valid(vs.remove(i)),
{
    vs.remove_ensures(i);
    assert forall|k: int| 0 <= k < vs.remove(i).len() implies (#[trigger] vs.remove(i)[k]).valid() by {
        let k0: int = if k < i {
            k
        } else {
            k + 1
        };
        assert(vs.remove(i)[k] == vs[k0]);
        assert(vs[k0].valid());
    }
}

/// Replacing one record's voting power in place is `update_power_effect`.
proof fn lemma_update_same_power(vs: Seq<PQCValidatorConfig>, i: int, p: u64)
    requires
        distinct_addrs(vs),
        0 <= i < vs.len(),
    ensures
        distinct_addrs(vs.update(i, with_power(vs[i], p))),
        update_power_effect(vs, vs.update(i, with_power(vs[i], p)), vs[i].address@, p),
{
    let v = with_power(vs[i], p);
    assert(v.address@ == vs[i].address@);
    lemma_update_effect(vs, i, v);
    lemma_record_at(vs, i);
}

} // verus!
