//! The script-hash service: a one-shot history query over the mempool and a
//! subscription that filters the activity bus by script hash.
//!
//! The service decides; the transport around it looks the mempool up, reads
//! the bus and writes to the client.

use crate::limits::SCRIPT_HASH_LEN;
use vstd::array::array_as_slice;
use vstd::prelude::*;
use vstd::slice::slice_to_vec;

verus! {

/// The condition under which a call fails.
#[derive(Clone, Copy, Debug, PartialEq, Eq, Structural)]
pub enum StatusCode {
    /// The request is malformed.
    InvalidArgument,
    /// The request asks for what is not provided yet.
    Unimplemented,
    /// The stream was cut by a delivery failure.
    Aborted,
}

/// A failed call: its condition and a description.
#[derive(Clone, Debug)]
pub struct Status {
    pub code: StatusCode,
    pub message: String,
}

/// A history query.
#[derive(Clone, Debug)]
pub struct HistoryRequest {
    pub script_hash: Vec<u8>,
    pub include_mempool_items: bool,
}

/// An unconfirmed transaction that touches the script hash asked for.
#[derive(Clone, Debug)]
pub struct MempoolItem {
    pub tx_id: Vec<u8>,
    pub fee: u64,
    pub has_unconfirmed_parent: bool,
}

/// A confirmed transaction that touches the script hash asked for.
#[derive(Clone, Debug)]
pub struct ConfirmedItem {
    pub tx_id: Vec<u8>,
    pub block_height: u32,
}

/// The answer to a history query.
#[derive(Clone, Debug)]
pub struct HistoryResponse {
    pub confirmed_items: Vec<ConfirmedItem>,
    pub confirmed_continuation: Option<Vec<u8>>,
    pub mempool_items: Vec<MempoolItem>,
}

/// A request to follow a script hash.
#[derive(Clone, Debug)]
pub struct SubscribeRequest {
    pub script_hash: Vec<u8>,
}

/// One item of a subscription stream.
#[derive(Clone, Debug)]
pub struct SubscribeResponse {
    pub confirmed_status: Vec<u8>,
    pub unconfirmed_status: Vec<u8>,
}

/// What the bus delivers: a script hash with its new status, or the
/// description of a delivery failure.
pub type BusEvent = Result<([u8; 32], [u8; 32]), String>;

/// What a subscription makes of one bus event.
#[derive(Debug)]
pub enum Delivery {
    /// The item is to be written to the client.
    Emit(SubscribeResponse),
    /// The event is for another script hash: nothing is written.
    Skip,
    /// The stream ends with this failure.
    Abort(Status),
    /// The stream has ended before: nothing is written.
    Closed,
}

/// The bytes are a script hash: there are exactly 32 of them.
pub open spec fn is_script_hash(bytes: Seq<u8>) -> bool {
    bytes.len() == SCRIPT_HASH_LEN
}

/// `status` is the rejection of a script hash of the wrong length.
pub open spec fn is_length_rejection(status: Status) -> bool {
    status.code == StatusCode::InvalidArgument && status.message@
        == "incorrect script hash length"@
}

/// `item` reports the unconfirmed transaction `tx_id`, with the fee and the
/// parent flag at the values reported for every transaction.
pub open spec fn is_mempool_item_of(item: MempoolItem, tx_id: [u8; 32]) -> bool {
    item.tx_id@ == tx_id@ && item.fee == 0 && !item.has_unconfirmed_parent
}

/// `reply` is the history answer for the unconfirmed transactions `tx_ids`:
/// one mempool item for each, in order, and no confirmed history.
pub open spec fn is_history_of(reply: HistoryResponse, tx_ids: Seq<[u8; 32]>) -> bool {
    &&& reply.confirmed_items@.len() == 0
    &&& reply.confirmed_continuation is None
    &&& reply.mempool_items@.len() == tx_ids.len()
    &&& forall|i: int|
        0 <= i < tx_ids.len() ==> is_mempool_item_of(#[trigger] reply.mempool_items@[i], tx_ids[i])
}

/// Reads a script hash from the bytes of a request: the same 32 bytes, or the
/// rejection where there are more or fewer.
pub fn parse_script_hash(bytes: &[u8]) -> (res: Result<[u8; 32], Status>)
    ensures
        match res {
            Ok(hash) => is_script_hash(bytes@) && hash@ == bytes@,
            Err(status) => !is_script_hash(bytes@) && is_length_rejection(status),
        },
{
    if bytes.len() != SCRIPT_HASH_LEN {
        return Err(
            Status {
                code: StatusCode::InvalidArgument,
                message: "incorrect script hash length".to_owned(),
            },
        );
    }
    let mut hash = [0u8; 32];
    for i in 0..SCRIPT_HASH_LEN
        invariant
            bytes@.len() == SCRIPT_HASH_LEN,
            forall|j: int| 0 <= j < i ==> hash@[j] == bytes@[j],
    {
        hash[i] = bytes[i];
    }
    assert(hash@ =~= bytes@);
    Ok(hash)
}

/// Compares two script hashes byte by byte.
pub fn same_script_hash(a: &[u8; 32], b: &[u8; 32]) -> (same: bool)
    ensures
        same == (a@ == b@),
{
    for i in 0..SCRIPT_HASH_LEN
        invariant
            forall|j: int| 0 <= j < i ==> a@[j] == b@[j],
    {
        if a[i] != b[i] {
            return false;
        }
    }
    assert(a@ =~= b@);
    true
}

/// The history answer for the unconfirmed transactions that the mempool
/// reports for a script hash. An empty list gives an empty answer.
pub fn history_reply(tx_ids: &Vec<[u8; 32]>) -> (reply: HistoryResponse)
    ensures
        is_history_of(reply, tx_ids@),
{
    let mut mempool_items: Vec<MempoolItem> = Vec::new();
    for i in 0..tx_ids.len()
        invariant
            mempool_items@.len() == i,
            forall|j: int|
                0 <= j < i ==> is_mempool_item_of(#[trigger] mempool_items@[j], tx_ids@[j]),
    {
        let tx_id = slice_to_vec(array_as_slice(&tx_ids[i]));
        mempool_items.push(MempoolItem { tx_id, fee: 0, has_unconfirmed_parent: false });
    }
    HistoryResponse { confirmed_items: Vec::new(), confirmed_continuation: None, mempool_items }
}

/// A live subscription to one script hash.
pub struct Subscription {
    script_hash: [u8; 32],
    open: bool,
}

/// A subscription as a mathematical value.
pub struct SubscriptionView {
    pub script_hash: Seq<u8>,
    pub open: bool,
}

impl View for Subscription {
    type V = SubscriptionView;

    closed spec fn view(&self) -> SubscriptionView {
        SubscriptionView { script_hash: self.script_hash@, open: self.open }
    }
}

/// The event reports activity on the script hash `hash`.
pub open spec fn is_activity_on(event: BusEvent, hash: Seq<u8>) -> bool {
    event matches Ok((event_hash, _)) && event_hash@ == hash
}

/// The subscription after an event: a delivery failure closes it, nothing
/// else changes it.
pub open spec fn after_event(sub: SubscriptionView, event: BusEvent) -> SubscriptionView {
    SubscriptionView { open: sub.open && event is Ok, ..sub }
}

/// `delivery` is what the subscription makes of the event: nothing once it is
/// closed; the end of the stream, with the description, for a delivery
/// failure; the unconfirmed status alone for activity on its script hash; and
/// nothing for activity on any other.
pub open spec fn is_delivery_of(delivery: Delivery, sub: SubscriptionView, event: BusEvent) -> bool {
    if !sub.open {
        delivery is Closed
    } else {
        match event {
            Err(description) => delivery matches Delivery::Abort(status) && status.code
                == StatusCode::Aborted && status.message@ == description@,
            Ok((event_hash, event_status)) => if event_hash@ == sub.script_hash {
                delivery matches Delivery::Emit(item) && item.confirmed_status@.len() == 0
                    && item.unconfirmed_status@ == event_status@
            } else {
                delivery is Skip
            },
        }
    }
}

/// An event for another script hash gives the client nothing and leaves the
/// subscription as it was.
pub proof fn lemma_foreign_activity_is_dropped(
    sub: SubscriptionView,
    event: BusEvent,
    delivery: Delivery,
)
    requires
        event is Ok,
        !is_activity_on(event, sub.script_hash),
        is_delivery_of(delivery, sub, event),
    ensures
        !(delivery is Emit),
        !(delivery is Abort),
        after_event(sub, event) == sub,
{
}

/// Only activity on the script hash of an open subscription is written to
/// the client.
pub proof fn lemma_emits_only_own_activity(
    sub: SubscriptionView,
    event: BusEvent,
    delivery: Delivery,
)
    requires
        is_delivery_of(delivery, sub, event),
        delivery is Emit,
    ensures
        sub.open,
        is_activity_on(event, sub.script_hash),
{
}

/// After a delivery failure nothing more is written to the client.
pub proof fn lemma_closed_stays_closed(
    sub: SubscriptionView,
    event: BusEvent,
    later: BusEvent,
    delivery: Delivery,
)
    requires
        sub.open,
        event is Err,
        is_delivery_of(delivery, after_event(sub, event), later),
    ensures
        delivery is Closed,
        !after_event(after_event(sub, event), later).open,
{
}

impl Subscription {
    /// The script hash followed.
    pub fn script_hash(&self) -> (hash: [u8; 32])
        ensures
            hash@ == self@.script_hash,
    {
        self.script_hash
    }

    /// Whether the stream is still open.
    pub fn is_open(&self) -> (open: bool)
        ensures
            open == self@.open,
    {
        self.open
    }

    /// Takes one event from the bus and says what goes to the client.
    pub fn deliver(&mut self, event: &BusEvent) -> (delivery: Delivery)
        ensures
            is_delivery_of(delivery, old(self)@, *event),
            final(self)@ == after_event(old(self)@, *event),
    {
        if !self.open {
            return Delivery::Closed;
        }
        match event {
            Err(description) => {
                self.open = false;
                Delivery::Abort(Status { code: StatusCode::Aborted, message: description.clone() })
            },
            Ok((event_hash, event_status)) => {
                if same_script_hash(event_hash, &self.script_hash) {
                    Delivery::Emit(
                        SubscribeResponse {
                            confirmed_status: Vec::new(),
                            unconfirmed_status: slice_to_vec(array_as_slice(event_status)),
                        },
                    )
                } else {
                    Delivery::Skip
                }
            },
        }
    }
}

/// The script-hash service, holding the handles of its collaborators: the
/// database and the activity bus.
#[derive(Clone)]
pub struct ScriptHashService<D, B> {
    db: D,
    script_hash_bus: B,
}

impl<D, B> ScriptHashService<D, B> {
    /// A service over the given database and bus.
    pub fn new(db: D, script_hash_bus: B) -> (service: Self)
        ensures
            service.spec_db() == db,
            service.spec_script_hash_bus() == script_hash_bus,
    {
        ScriptHashService { db, script_hash_bus }
    }

    /// The database of the service.
    pub closed spec fn spec_db(&self) -> D {
        self.db
    }

    /// The bus of the service.
    pub closed spec fn spec_script_hash_bus(&self) -> B {
        self.script_hash_bus
    }

    /// The database handle.
    pub fn db(&self) -> (db: &D)
        ensures
            *db == self.spec_db(),
    {
        &self.db
    }

    /// The bus handle, from which every subscription reads.
    pub fn script_hash_bus(&self) -> (bus: &B)
        ensures
            *bus == self.spec_script_hash_bus(),
    {
        &self.script_hash_bus
    }

    /// Decides a history query before any lookup. A script hash of the wrong
    /// length is rejected; a query without the mempool is not provided yet;
    /// any other is to be answered from the mempool entry of the script hash
    /// returned.
    pub fn history(&self, request: &HistoryRequest) -> (res: Result<[u8; 32], Status>)
        ensures
            match res {
                Ok(hash) => is_script_hash(request.script_hash@) && request.include_mempool_items
                    && hash@ == request.script_hash@,
                Err(status) => if !is_script_hash(request.script_hash@) {
                    is_length_rejection(status)
                } else {
                    !request.include_mempool_items && status.code == StatusCode::Unimplemented
                        && status.message@.len() == 0
                },
            },
    {
        let hash = match parse_script_hash(request.script_hash.as_slice()) {
            Ok(hash) => hash,
            Err(status) => {
                return Err(status);
            },
        };
        if !request.include_mempool_items {
            return Err(Status { code: StatusCode::Unimplemented, message: String::new() });
        }
        Ok(hash)
    }

    /// Opens a subscription. A script hash of the wrong length is rejected
    /// before the bus is touched; any other gives an open subscription to it.
    pub fn subscribe(&self, request: &SubscribeRequest) -> (res: Result<Subscription, Status>)
        ensures
            match res {
                Ok(sub) => is_script_hash(request.script_hash@) && sub@ == (SubscriptionView {
                    script_hash: request.script_hash@,
                    open: true,
                }),
                Err(status) => !is_script_hash(request.script_hash@) && is_length_rejection(
                    status,
                ),
            },
    {
        match parse_script_hash(request.script_hash.as_slice()) {
            Ok(script_hash) => Ok(Subscription { script_hash, open: true }),
            Err(status) => Err(status),
        }
    }
}

} // verus!
