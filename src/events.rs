use ink_primitives::AccountId;
use vstd::prelude::*;
use vstd::std_specs::convert::IntoSpec;

use crate::primitives::same_account;

verus! {

/// Represents a raw event emitted by a contract.
pub struct ContractEvent {
    /// The account id of the contract that emitted the event.
    pub account_id: AccountId,
    /// The unparsed data of the event.
    pub data: Vec<u8>,
}

/// Represents a collection of events emitted by contracts in a single transaction, in the
/// order in which they were emitted.
pub struct ContractEvents {
    pub events: Vec<ContractEvent>,
}

/// A trait that allows to decode events emitted by a specific contract.
///
/// `for_contract` asks that `Event` be SCALE-decodable.
pub trait EventSource: Copy + Into<AccountId> {
    /// The type to decode the emitted events into.
    type Event;
}

/// The events of `events` that the contract at `id` emitted, in their order.
pub open spec fn emitted_by(events: Seq<ContractEvent>, id: AccountId) -> Seq<ContractEvent> {
    events.filter(|e: ContractEvent| e.account_id == id)
}

/// The events routed to a contract are exactly those that it emitted: each one carries its
/// account id, every event with that id is among them, and the order of emission is kept,
/// so that the events of two consecutive stretches of a transaction are those of the first
/// followed by those of the second.
pub proof fn lemma_emitted_by(events: Seq<ContractEvent>, later: Seq<ContractEvent>, id: AccountId)
    ensures
        forall|k: int|
            0 <= k < emitted_by(events, id).len() ==> (#[trigger] emitted_by(events, id)[k]).account_id == id,
        forall|i: int|
            0 <= i < events.len() && events[i].account_id == id ==> #[trigger] emitted_by(events, id).contains(events[i]),
        emitted_by(events + later, id) == emitted_by(events, id) + emitted_by(later, id),
{
    let pred = |e: ContractEvent| e.account_id == id;
    events.filter_lemma(pred);
    assert forall|i: int| 0 <= i < events.len() && events[i].account_id == id implies #[trigger] emitted_by(events, id).contains(events[i]) by {
        events.lemma_filter_contains(pred, i);
    }
    Seq::filter_distributes_over_add(events, later, pred);
}

/// Relies on parity-scale-codec's `Decode::decode`, which reads a value of `T` from the front
/// of the bytes and reports an `Error` where they do not hold one. Nothing is assumed of
/// which of the two comes back.
#[verifier::external_body]
fn decode_payload<T: parity_scale_codec::Decode>(data: &Vec<u8>) -> (r: Result<T, parity_scale_codec::Error>)
{
    T::decode(&mut data.as_slice())
}

impl ContractEvents {
    /// Returns the payloads of the events emitted by the contract at `account_id`, in the
    /// order in which they were emitted.
    pub fn payloads_for(&self, account_id: &AccountId) -> (r: Vec<Vec<u8>>)
        ensures
            r@.len() == emitted_by(self.events@, *account_id).len(),
            forall|k: int|
                0 <= k < r@.len() ==> #[trigger] r@[k]@ == emitted_by(self.events@, *account_id)[k].data@,
    {
        let ghost pred = |e: ContractEvent| e.account_id == *account_id;
        let mut r: Vec<Vec<u8>> = Vec::new();
        let mut i: usize = 0;
        while i < self.events.len()
            invariant
                i <= self.events@.len(),
                pred == (|e: ContractEvent| e.account_id == *account_id),
                r@.len() == self.events@.take(i as int).filter(pred).len(),
                forall|k: int|
                    0 <= k < r@.len() ==> #[trigger] r@[k]@ == self.events@.take(i as int).filter(pred)[k].data@,
            decreases self.events@.len() - i,
        {
            let event = &self.events[i];
            proof {
                assert(self.events@.take(i + 1).drop_last() =~= self.events@.take(i as int));
                reveal(Seq::filter);
            }
            if same_account(&event.account_id, account_id) {
                let data = event.data.clone();
                assert(data@ =~= event.data@);
                r.push(data);
            }
            i = i + 1;
        }
        assert(self.events@.take(i as int) =~= self.events@);
        r
    }

    /// Returns the events emitted by a specific contract, each decoded on its own.
    ///
    /// There is one result per event that the contract emitted, in their order. An error
    /// says that that event could not be decoded into `C::Event`, which happens when the
    /// metadata that the contract wrapper was generated from is out of date; it does not
    /// affect the other events.
    ///
    /// The contract is the account id that `contract.into()` gives; the payloads that are
    /// decoded are those that `payloads_for` returns for it.
    pub fn for_contract<C: EventSource>(&self, contract: C) -> (r: Vec<Result<C::Event, parity_scale_codec::Error>>)
        where
            C::Event: parity_scale_codec::Decode,
        ensures
            exists|id: AccountId|
                (C::obeys_into_spec() ==> id == contract.into_spec())
                    && r@.len() == #[trigger] emitted_by(self.events@, id).len(),
    {
        let account_id: AccountId = contract.into();
        let payloads = self.payloads_for(&account_id);
        let mut r: Vec<Result<C::Event, parity_scale_codec::Error>> = Vec::new();
        let mut i: usize = 0;
        while i < payloads.len()
            invariant
                i <= payloads@.len(),
                r@.len() == i,
            decreases payloads@.len() - i,
        {
            r.push(decode_payload::<C::Event>(&payloads[i]));
            i = i + 1;
        }
        assert(r@.len() == emitted_by(self.events@, account_id).len());
        r
    }
}

} // verus!
