//! Properties that relate several operations of the registry.
use vstd::prelude::*;
use crate::errors::{DispatchError, RegistryError};
use crate::fees::payer_account;
use crate::handlers::{
    id_taken, refused, register_org_spec, register_user_spec, unregister_org_spec,
    unregister_user_spec,
};
use crate::events::{expected_kind, first_dispatch_result, first_of_kind, kind_of, message_result};
use crate::messages::{dispatch_spec, is_success_event, Message};
use crate::registry::{balance_of, State};
use crate::transaction::{
    after_admission, success_events, transaction_refusal, BlockContext, Event, SystemEvent, Transaction,
};

verus! {

/// An id that was used once and is held by no live org or user can be registered neither as an
/// org nor as a user.
pub proof fn lemma_retired_id_refused(s: State, author: Seq<u8>, id: Seq<u8>, org_account: Seq<u8>)
    requires
        s.retired.contains(id),
        !id_taken(s, id),
    ensures
        register_org_spec(s, author, id, org_account) == Err::<State, DispatchError>(refused(RegistryError::IdRetired)),
        register_user_spec(s, author, id) == Err::<State, DispatchError>(refused(RegistryError::IdRetired)),
{
}

/// No message ever takes an id out of the retired set.
pub proof fn lemma_dispatch_keeps_retired(s: State, author: Seq<u8>, m: Message, seed: Seq<u8>)
    requires
        dispatch_spec(s, author, m, seed) is Ok,
    ensures
        s.retired.subset_of(dispatch_spec(s, author, m, seed)->Ok_0.retired),
{
}

/// Registering an org, unregistering it, then registering its id again as an org or a user
/// fails with `IdRetired`.
pub proof fn lemma_org_id_not_reused(
    s0: State,
    author: Seq<u8>,
    id: Seq<u8>,
    org_account: Seq<u8>,
    later_author: Seq<u8>,
    later_account: Seq<u8>,
)
    requires
        register_org_spec(s0, author, id, org_account) is Ok,
        unregister_org_spec(register_org_spec(s0, author, id, org_account)->Ok_0, author, id) is Ok,
    ensures
        ({
            let s2 = unregister_org_spec(register_org_spec(s0, author, id, org_account)->Ok_0, author, id)->Ok_0;
            &&& register_org_spec(s2, later_author, id, later_account) == Err::<State, DispatchError>(
                refused(RegistryError::IdRetired),
            )
            &&& register_user_spec(s2, later_author, id) == Err::<State, DispatchError>(
                refused(RegistryError::IdRetired),
            )
        }),
{
    let s1 = register_org_spec(s0, author, id, org_account)->Ok_0;
    let s2 = unregister_org_spec(s1, author, id)->Ok_0;
    assert(!s2.orgs.contains_key(id));
    assert(!s2.users.contains_key(id));
    assert(s2.retired.contains(id));
    lemma_retired_id_refused(s2, later_author, id, later_account);
}

/// Registering a user, unregistering it, then registering its id again as a user or an org
/// fails with `IdRetired`.
pub proof fn lemma_user_id_not_reused(
    s0: State,
    author: Seq<u8>,
    id: Seq<u8>,
    later_author: Seq<u8>,
    later_account: Seq<u8>,
)
    requires
        register_user_spec(s0, author, id) is Ok,
        unregister_user_spec(register_user_spec(s0, author, id)->Ok_0, author, id) is Ok,
    ensures
        ({
            let s2 = unregister_user_spec(register_user_spec(s0, author, id)->Ok_0, author, id)->Ok_0;
            &&& register_user_spec(s2, later_author, id) == Err::<State, DispatchError>(
                refused(RegistryError::IdRetired),
            )
            &&& register_org_spec(s2, later_author, id, later_account) == Err::<State, DispatchError>(
                refused(RegistryError::IdRetired),
            )
        }),
{
    let s1 = register_user_spec(s0, author, id)->Ok_0;
    let s2 = unregister_user_spec(s1, author, id)->Ok_0;
    assert(!s2.orgs.contains_key(id));
    assert(!s2.users.contains_key(id));
    assert(s2.retired.contains(id));
    lemma_retired_id_refused(s2, later_author, id, later_account);
}

/// A transaction that is admitted but whose message fails costs its payer exactly the declared
/// fee, and changes no org, user, project, checkpoint or retired id. (When the payer also
/// authors the block, the fee's reward comes back to it; that case is left out.)
pub proof fn lemma_failed_message_costs_fee(s: State, tx: Transaction, block: BlockContext)
    requires
        transaction_refusal(s, tx, block) is None,
        dispatch_spec(after_admission(s, tx, block), tx.author@, tx.message, block.seed@) is Err,
        block.author is None || block.author->Some_0@ != payer_account(s, tx.author@, tx.message),
    ensures
        ({
            let payer = payer_account(s, tx.author@, tx.message);
            let t = after_admission(s, tx, block);
            &&& balance_of(t, payer) == balance_of(s, payer) - tx.fee
            &&& balance_of(t, payer) < balance_of(s, payer)
            &&& t.orgs == s.orgs
            &&& t.users == s.users
            &&& t.projects == s.projects
            &&& t.checkpoints == s.checkpoints
            &&& t.retired == s.retired
        }),
{
}

/// The result read back from the events of an applied transaction is the outcome of its
/// message: success when the message succeeded, and the very error when it failed.
pub proof fn lemma_result_from_applied_events(m: Message, events: Seq<Event>, e: DispatchError)
    ensures
        success_events(events, m) ==> message_result(m, events) is Ok && message_result(m, events)->Ok_0 is Ok,
        message_result(m, seq![Event::System(SystemEvent::ExtrinsicFailed(e))]) == Ok::<
            Result<Option<crate::bytes::CheckpointId>, DispatchError>,
            crate::events::EventParseError,
        >(Err(e)),
{
    let failed = seq![Event::System(SystemEvent::ExtrinsicFailed(e))];
    assert(first_dispatch_result(failed) == Some(Err::<(), DispatchError>(e)));
    if success_events(events, m) {
        if events.len() == 1 {
            assert(first_dispatch_result(events) == Some(Ok::<(), DispatchError>(())));
        } else {
            let ev = events[0]->Registry_0;
            assert(events.drop_first()[0] == events[1]);
            assert(first_dispatch_result(events.drop_first()) == Some(Ok::<(), DispatchError>(())));
            assert(first_dispatch_result(events) == Some(Ok::<(), DispatchError>(())));
            assert(is_success_event(m, Some(ev)));
            assert(expected_kind(m) == Some(kind_of(ev)));
            assert(first_of_kind(events, kind_of(ev)) == Some(ev));
        }
    }
}

} // verus!
