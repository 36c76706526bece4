//! Reading a transaction's outcome back from a block's event log.
use vstd::prelude::*;
use crate::bytes::{CheckpointId, H256};
use crate::codec::{blake2_256, blake2_256_of};
use crate::errors::DispatchError;
use crate::messages::{Message, RegistryEvent};
use crate::transaction::{Event, SystemEvent};

verus! {

/// The kinds of events a client looks for.
#[derive(Clone, Copy, Debug, PartialEq, Eq, Structural)]
pub enum EventKind {
    System,
    MemberRegistered,
    OrgRegistered,
    OrgUnregistered,
    ProjectRegistered,
    UserRegistered,
    UserUnregistered,
    CheckpointCreated,
    CheckpointSet,
}

/// The event log lacks an event that it must hold.
#[derive(Clone, Copy, Debug, PartialEq, Eq, Structural)]
pub struct EventParseError {
    pub missing: EventKind,
}

/// The kind of a registry event.
pub open spec fn kind_of(e: RegistryEvent) -> EventKind {
    match e {
        RegistryEvent::MemberRegistered(..) => EventKind::MemberRegistered,
        RegistryEvent::OrgRegistered(..) => EventKind::OrgRegistered,
        RegistryEvent::OrgUnregistered(..) => EventKind::OrgUnregistered,
        RegistryEvent::ProjectRegistered(..) => EventKind::ProjectRegistered,
        RegistryEvent::UserRegistered(..) => EventKind::UserRegistered,
        RegistryEvent::UserUnregistered(..) => EventKind::UserUnregistered,
        RegistryEvent::CheckpointCreated(..) => EventKind::CheckpointCreated,
        RegistryEvent::CheckpointSet(..) => EventKind::CheckpointSet,
    }
}

/// The kind of event that a message emits when it succeeds; transfers emit none.
pub open spec fn expected_kind(m: Message) -> Option<EventKind> {
    match m {
        Message::RegisterOrg { .. } => Some(EventKind::OrgRegistered),
        Message::UnregisterOrg { .. } => Some(EventKind::OrgUnregistered),
        Message::RegisterUser { .. } => Some(EventKind::UserRegistered),
        Message::UnregisterUser { .. } => Some(EventKind::UserUnregistered),
        Message::RegisterMember { .. } => Some(EventKind::MemberRegistered),
        Message::RegisterProject { .. } => Some(EventKind::ProjectRegistered),
        Message::SetCheckpoint { .. } => Some(EventKind::CheckpointSet),
        Message::CreateCheckpoint { .. } => Some(EventKind::CheckpointCreated),
        Message::Transfer { .. } => None,
        Message::TransferFromOrg { .. } => None,
    }
}

} // verus!
verus! {

/// The outcome that the first system event of the log reports.
pub open spec fn first_dispatch_result(events: Seq<Event>) -> Option<Result<(), DispatchError>>
    decreases events.len(),
{
    if events.len() == 0 {
        None
    } else {
        match events[0] {
            Event::System(SystemEvent::ExtrinsicSuccess) => Some(Ok(())),
            Event::System(SystemEvent::ExtrinsicFailed(e)) => Some(Err(e)),
            Event::Registry(_) => first_dispatch_result(events.drop_first()),
        }
    }
}

/// The first registry event of kind `k` in the log.
pub open spec fn first_of_kind(events: Seq<Event>, k: EventKind) -> Option<RegistryEvent>
    decreases events.len(),
{
    if events.len() == 0 {
        None
    } else {
        match events[0] {
            Event::Registry(e) => if kind_of(e) == k {
                Some(e)
            } else {
                first_of_kind(events.drop_first(), k)
            },
            Event::System(_) => first_of_kind(events.drop_first(), k),
        }
    }
}

/// The checkpoint id that an event carries as a message's result: the id of a created
/// checkpoint, nothing for other events.
pub open spec fn result_value(e: RegistryEvent) -> Option<CheckpointId> {
    match e {
        RegistryEvent::CheckpointCreated(id) => Some(id),
        _ => None,
    }
}

/// The result of a message read from the events of its transaction.
pub open spec fn message_result(m: Message, events: Seq<Event>)
    -> Result<Result<Option<CheckpointId>, DispatchError>, EventParseError>
{
    match first_dispatch_result(events) {
        None => Err(EventParseError { missing: EventKind::System }),
        Some(Err(e)) => Ok(Err(e)),
        Some(Ok(())) => match expected_kind(m) {
            None => Ok(Ok(None)),
            Some(k) => match first_of_kind(events, k) {
                None => Err(EventParseError { missing: k }),
                Some(e) => Ok(Ok(result_value(e))),
            },
        },
    }
}

fn event_kind(e: &RegistryEvent) -> (r: EventKind)
    ensures
        r == kind_of(*e),
{
    match e {
        RegistryEvent::MemberRegistered(..) => EventKind::MemberRegistered,
        RegistryEvent::OrgRegistered(..) => EventKind::OrgRegistered,
        RegistryEvent::OrgUnregistered(..) => EventKind::OrgUnregistered,
        RegistryEvent::ProjectRegistered(..) => EventKind::ProjectRegistered,
        RegistryEvent::UserRegistered(..) => EventKind::UserRegistered,
        RegistryEvent::UserUnregistered(..) => EventKind::UserUnregistered,
        RegistryEvent::CheckpointCreated(..) => EventKind::CheckpointCreated,
        RegistryEvent::CheckpointSet(..) => EventKind::CheckpointSet,
    }
}

/// The kind of event that `m` emits when it succeeds.
pub fn expected_event_kind(m: &Message) -> (r: Option<EventKind>)
    ensures
        r == expected_kind(*m),
{
    match m {
        Message::RegisterOrg { .. } => Some(EventKind::OrgRegistered),
        Message::UnregisterOrg { .. } => Some(EventKind::OrgUnregistered),
        Message::RegisterUser { .. } => Some(EventKind::UserRegistered),
        Message::UnregisterUser { .. } => Some(EventKind::UserUnregistered),
        Message::RegisterMember { .. } => Some(EventKind::MemberRegistered),
        Message::RegisterProject { .. } => Some(EventKind::ProjectRegistered),
        Message::SetCheckpoint { .. } => Some(EventKind::CheckpointSet),
        Message::CreateCheckpoint { .. } => Some(EventKind::CheckpointCreated),
        Message::Transfer { .. } => None,
        Message::TransferFromOrg { .. } => None,
    }
}

/// The outcome reported by the first system event of the log.
pub fn get_dispatch_result(events: &Vec<Event>) -> (r: Result<Result<(), DispatchError>, EventParseError>)
    ensures
        match first_dispatch_result(events@) {
            Some(d) => r == Ok::<Result<(), DispatchError>, EventParseError>(d),
            None => r == Err::<Result<(), DispatchError>, EventParseError>(EventParseError { missing: EventKind::System }),
        },
{
    let mut i: usize = 0;
    assert(events@.skip(0) =~= events@);
    while i < events.len()
        invariant
            0 <= i <= events@.len(),
            first_dispatch_result(events@) == first_dispatch_result(events@.skip(i as int)),
        decreases events@.len() - i,
    {
        assert(events@.skip(i as int)[0] == events@[i as int]);
        assert(events@.skip(i as int).drop_first() =~= events@.skip(i + 1));
        match &events[i] {
            Event::System(SystemEvent::ExtrinsicSuccess) => return Ok(Ok(())),
            Event::System(SystemEvent::ExtrinsicFailed(e)) => return Ok(Err(*e)),
            Event::Registry(_) => {},
        }
        i = i + 1;
    }
    Err(EventParseError { missing: EventKind::System })
}

/// The position of the first registry event of kind `k` in the log.
pub fn find_event(events: &Vec<Event>, k: EventKind) -> (r: Option<usize>)
    ensures
        r is None <==> first_of_kind(events@, k) is None,
        r matches Some(i) ==> i < events@.len() && events@[i as int] is Registry
            && first_of_kind(events@, k) == Some(events@[i as int]->Registry_0),
{
    let mut i: usize = 0;
    assert(events@.skip(0) =~= events@);
    while i < events.len()
        invariant
            0 <= i <= events@.len(),
            first_of_kind(events@, k) == first_of_kind(events@.skip(i as int), k),
        decreases events@.len() - i,
    {
        assert(events@.skip(i as int)[0] == events@[i as int]);
        assert(events@.skip(i as int).drop_first() =~= events@.skip(i + 1));
        match &events[i] {
            Event::Registry(e) => {
                if event_kind(e) == k {
                    return Some(i);
                }
            },
            Event::System(_) => {},
        }
        i = i + 1;
    }
    None
}

/// The result of `message`, read from the events of the transaction that carried it: the
/// failure that the system event reports, or else the message's own event, which must be there.
/// A created checkpoint's id comes back as the value.
pub fn result_from_events(message: &Message, events: &Vec<Event>)
    -> (r: Result<Result<Option<CheckpointId>, DispatchError>, EventParseError>)
    ensures
        r == message_result(*message, events@),
{
    match get_dispatch_result(events) {
        Err(e) => Err(e),
        Ok(Err(e)) => Ok(Err(e)),
        Ok(Ok(())) => match expected_event_kind(message) {
            None => Ok(Ok(None)),
            Some(k) => match find_event(events, k) {
                None => Err(EventParseError { missing: k }),
                Some(i) => match &events[i] {
                    Event::Registry(RegistryEvent::CheckpointCreated(id)) => Ok(Ok(Some(*id))),
                    _ => Ok(Ok(None)),
                },
            },
        },
    }
}

/// The phase of block execution in which an event was emitted.
#[derive(Clone, Copy, Debug, PartialEq, Eq, Structural)]
pub enum Phase {
    Initialization,
    /// While applying the extrinsic at the given position of the block.
    ApplyExtrinsic(u32),
    Finalization,
}

/// An event of a block, with the phase that emitted it.
#[derive(Clone, Debug)]
pub struct EventRecord {
    pub phase: Phase,
    pub event: Event,
}

/// The position of the first extrinsic whose Blake2-256 hash is `tx_hash`.
pub open spec fn tx_position(extrinsics: Seq<Seq<u8>>, tx_hash: Seq<u8>) -> Option<int> {
    if exists|i: int| 0 <= i < extrinsics.len() && blake2_256_of(#[trigger] extrinsics[i])@ == tx_hash {
        Some(choose|i: int|
            0 <= i < extrinsics.len() && blake2_256_of(#[trigger] extrinsics[i])@ == tx_hash
                && forall|j: int| 0 <= j < i ==> blake2_256_of(#[trigger] extrinsics[j])@ != tx_hash)
    } else {
        None
    }
}

/// The events of the records emitted while applying the extrinsic at `index`, in log order.
pub open spec fn events_at(records: Seq<EventRecord>, index: int) -> Seq<Event>
    decreases records.len(),
{
    if records.len() == 0 {
        Seq::empty()
    } else {
        let rest = events_at(records.drop_first(), index);
        if records[0].phase == Phase::ApplyExtrinsic(index as u32) && 0 <= index <= u32::MAX {
            seq![records[0].event] + rest
        } else {
            rest
        }
    }
}

/// The events of the records emitted while applying the extrinsic at `index`, in log order.
pub fn events_at_index(records: Vec<EventRecord>, index: usize) -> (r: Vec<Event>)
    ensures
        r@ == events_at(records@, index as int),
{
    let mut out: Vec<Event> = Vec::new();
    let mut rest = records;
    let ghost all = rest@;
    while rest.len() > 0
        invariant
            out@ + events_at(rest@, index as int) == events_at(all, index as int),
        decreases rest@.len(),
    {
        let ghost before = rest@;
        let rec = rest.remove(0);
        assert(rest@ =~= before.drop_first());
        let matches_tx = match rec.phase {
            Phase::ApplyExtrinsic(i) => index <= u32::MAX as usize && i == index as u32,
            _ => false,
        };
        if matches_tx {
            out.push(rec.event);
            assert(out@ + events_at(rest@, index as int) =~= events_at(all, index as int));
        }
    }
    out
}

/// The position of the first extrinsic whose hash is `tx_hash`.
fn tx_index(tx_hash: &H256, extrinsics: &Vec<Vec<u8>>) -> (r: Option<usize>)
    ensures
        r is None <==> tx_position(extrinsics@.map_values(|x: Vec<u8>| x@), tx_hash@) is None,
        r matches Some(i) ==> i < extrinsics@.len()
            && tx_position(extrinsics@.map_values(|x: Vec<u8>| x@), tx_hash@) == Some(i as int),
{
    let ghost xs = extrinsics@.map_values(|x: Vec<u8>| x@);
    let mut index: usize = 0;
    while index < extrinsics.len()
        invariant
            0 <= index <= extrinsics@.len(),
            xs == extrinsics@.map_values(|x: Vec<u8>| x@),
            forall|j: int| 0 <= j < index ==> blake2_256_of(#[trigger] xs[j])@ != tx_hash@,
        decreases extrinsics@.len() - index,
    {
        let h = H256 { bytes: blake2_256(extrinsics[index].as_slice()) };
        assert(xs[index as int] == extrinsics@[index as int]@);
        if h.same(tx_hash) {
            let ghost pos = tx_position(xs, tx_hash@);
            assert(blake2_256_of(xs[index as int])@ == tx_hash@);
            assert(pos == Some(index as int)) by {
                let c = pos->Some_0;
                if c < index {
                    assert(blake2_256_of(xs[c])@ != tx_hash@);
                }
                if c > index {
                    assert(blake2_256_of(xs[index as int])@ == tx_hash@);
                }
            };
            return Some(index);
        }
        index = index + 1;
    }
    None
}

/// The events that the transaction with hash `tx_hash` emitted in a block, given the block's
/// extrinsics (encoded) and its event records. `None` when no extrinsic of the block has that
/// hash.
pub fn extract_transaction_events(tx_hash: &H256, extrinsics: &Vec<Vec<u8>>, records: Vec<EventRecord>) -> (r: Option<Vec<Event>>)
    ensures
        tx_position(extrinsics@.map_values(|x: Vec<u8>| x@), tx_hash@) is None ==> r is None,
        tx_position(extrinsics@.map_values(|x: Vec<u8>| x@), tx_hash@) matches Some(i) ==> r is Some
            && r->Some_0@ == events_at(records@, i),
{
    let index = match tx_index(tx_hash, extrinsics) {
        Some(i) => i,
        None => return None,
    };
    Some(events_at_index(records, index))
}

} // verus!
