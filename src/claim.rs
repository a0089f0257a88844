use vstd::prelude::*;
use crate::address::{Address, addr_eq};
use crate::error::BridgeError;

verus! {

/// The identity of an attested message: its emitter chain, emitter address and
/// sequence number. Two messages with one identity are one message.
#[derive(Clone, Copy, Debug, PartialEq, Eq)]
pub struct MessageId {
    pub emitter_chain: u16,
    pub emitter_address: Address,
    pub sequence: u64,
}

impl View for MessageId {
    type V = (u16, Seq<u8>, u64);

    open spec fn view(&self) -> (u16, Seq<u8>, u64) {
        (self.emitter_chain, self.emitter_address@, self.sequence)
    }
}

/// Whether two identities are the same.
pub fn id_eq(a: &MessageId, b: &MessageId) -> (r: bool)
    ensures
        r == (a@ == b@),
{
    a.emitter_chain == b.emitter_chain && a.sequence == b.sequence && addr_eq(
        &a.emitter_address,
        &b.emitter_address,
    )
}

/// The permanent record of one consumed message.
#[derive(Clone, Copy, Debug)]
pub struct ClaimRecord {
    pub id: MessageId,
    pub payer: Address,
}

/// What a sequence of claim records says: each consumed identity, with the
/// payer who consumed it.
pub open spec fn records_map(s: Seq<ClaimRecord>) -> Map<(u16, Seq<u8>, u64), Seq<u8>>
    decreases s.len(),
{
    if s.len() == 0 {
        Map::empty()
    } else {
        records_map(s.drop_last()).insert(s.last().id@, s.last().payer@)
    }
}

proof fn lemma_records_map_dom(s: Seq<ClaimRecord>, k: (u16, Seq<u8>, u64))
    ensures
        records_map(s).dom().contains(k) <==> exists|i: int| 0 <= i < s.len() && s[i].id@ == k,
    decreases s.len(),
{
    if s.len() > 0 {
        let t = s.drop_last();
        lemma_records_map_dom(t, k);
        if exists|i: int| 0 <= i < t.len() && t[i].id@ == k {
            let i = choose|i: int| 0 <= i < t.len() && t[i].id@ == k;
            assert(s[i] == t[i]);
        }
        if exists|i: int| 0 <= i < s.len() && s[i].id@ == k {
            let i = choose|i: int| 0 <= i < s.len() && s[i].id@ == k;
            if i < t.len() {
                assert(s[i] == t[i]);
            }
        }
    }
}

/// The consumed message identities, each with the payer who consumed it.
/// Records are only ever added.
pub struct ClaimLedger {
    records: Vec<ClaimRecord>,
}

impl View for ClaimLedger {
    type V = Map<(u16, Seq<u8>, u64), Seq<u8>>;

    closed spec fn view(&self) -> Map<(u16, Seq<u8>, u64), Seq<u8>> {
        records_map(self.records@)
    }
}

impl ClaimLedger {
    /// A ledger with no message consumed.
    pub fn new() -> (r: ClaimLedger)
        ensures
            r@ == Map::<(u16, Seq<u8>, u64), Seq<u8>>::empty(),
    {
        ClaimLedger { records: Vec::new() }
    }

    /// Whether the message with this identity has been consumed.
    pub fn is_claimed(&self, id: &MessageId) -> (r: bool)
        ensures
            r == self@.dom().contains(id@),
    {
        let mut i: usize = 0;
        while i < self.records.len()
            invariant
                i <= self.records@.len(),
                forall|j: int| 0 <= j < i ==> self.records@[j].id@ != id@,
            decreases self.records@.len() - i,
        {
            if id_eq(&self.records[i].id, id) {
                assert(self.records@[i as int].id@ == id@);
                proof {
                    lemma_records_map_dom(self.records@, id@);
                }
                return true;
            }
            i = i + 1;
        }
        assert(!(exists|j: int| 0 <= j < self.records@.len() && self.records@[j].id@ == id@));
        proof {
            lemma_records_map_dom(self.records@, id@);
        }
        false
    }

    /// The payer who consumed the message with this identity, if any did.
    pub fn payer_of(&self, id: &MessageId) -> (r: Option<Address>)
        ensures
            r is None <==> !self@.dom().contains(id@),
            r matches Some(p) ==> self@[id@] == p@,
    {
        proof {
            lemma_records_map_dom(self.records@, id@);
            assert(self.records@.subrange(0, self.records@.len() as int) =~= self.records@);
        }
        let mut i: usize = self.records.len();
        while i > 0
            invariant
                i <= self.records@.len(),
                self@.dom().contains(id@) <==> exists|j: int| 0 <= j < self.records@.len() && self.records@[j].id@ == id@,
                self@.dom().contains(id@) ==> records_map(self.records@.subrange(0, i as int)).dom().contains(id@)
                    && records_map(self.records@.subrange(0, i as int))[id@] == self@[id@],
            decreases i,
        {
            let ghost pre = self.records@.subrange(0, i as int);
            proof {
                assert(pre.drop_last() =~= self.records@.subrange(0, i - 1));
                assert(pre.last() == self.records@[i - 1]);
                assert(records_map(pre) == records_map(pre.drop_last()).insert(pre.last().id@, pre.last().payer@));
            }
            if id_eq(&self.records[i - 1].id, id) {
                assert(self.records@[i - 1].id@ == id@);
                return Some(self.records[i - 1].payer);
            }
            i = i - 1;
        }
        proof {
            assert(self.records@.subrange(0, 0) =~= Seq::<ClaimRecord>::empty());
        }
        None
    }

    /// Consumes the message with this identity on behalf of `payer`. The first
    /// claim of an identity succeeds and records its payer; every later one
    /// fails with `AlreadyClaimed` and changes nothing.
    pub fn claim(&mut self, id: MessageId, payer: Address) -> (r: Result<(), BridgeError>)
        ensures
            old(self)@.dom().contains(id@) ==> r == Err::<(), BridgeError>(BridgeError::AlreadyClaimed)
                && final(self)@ == old(self)@,
            !old(self)@.dom().contains(id@) ==> r is Ok && final(self)@ == old(self)@.insert(id@, payer@),
    {
        if self.is_claimed(&id) {
            return Err(BridgeError::AlreadyClaimed);
        }
        let ghost before = self.records@;
        self.records.push(ClaimRecord { id, payer });
        assert(self.records@.drop_last() =~= before);
        Ok(())
    }
}

} // verus!
