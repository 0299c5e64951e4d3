//! Legacy messages, when they are unlocked, and the keys that encrypt them.
use vstd::prelude::*;

use crate::host::{Address, Env};
use crate::inheritance::claims::email_listed;
use crate::inheritance::hashing::{hash_data, hash_of, Digest, MAX_HASH_INPUT_LEN};
use crate::inheritance::state::{
    list_of, messages_filed, InheritanceContract, InheritanceView, MessageBookView,
};
use crate::inheritance::types::{
    BatchMessagesCreatedEvent, CreateLegacyMessageParams, CreateLegacyMessageParamsView,
    InheritanceError, InheritanceEvent, InheritanceEventView, InheritancePlan,
    LegacyMessageMetadata, LegacyMessageMetadataView, MessageAccessedEvent, MessageCreatedEvent,
    MessageDeletedEvent, MessageFinalizedEvent, MessageKeyRotatedEvent, MessageUnlockedEvent,
    MessageUpdatedEvent,
};
use crate::list::{
    lemma_push_contains, lemma_without_contains, lemma_without_distinct, list_without, without,
    Duplicate, List,
};
use crate::math::saturating_sum32;
use crate::table::Key;

verus! {

/// Most messages of a batch.
pub const BATCH_MESSAGE_LIMIT: usize = 10;

impl InheritanceView {
    /// The version of the key that encrypts messages of a vault; zero if it has none.
    pub open spec fn key_version(self, vault_id: u64) -> u32 {
        if self.messages.key_versions.contains_key(vault_id) {
            self.messages.key_versions[vault_id]
        } else {
            0
        }
    }

    /// The reference to the key that encrypts messages of a vault.
    pub open spec fn current_key(self, vault_id: u64) -> Option<Seq<u8>> {
        let key = (vault_id, self.key_version(vault_id));
        if self.messages.keys.contains_key(key) {
            Some(self.messages.keys[key])
        } else {
            None
        }
    }

    /// Why a key is not rotated.
    pub open spec fn rotate_key_error(
        self,
        owner: Address,
        vault_id: u64,
        new_key_reference: Seq<u8>,
    ) -> Option<InheritanceError> {
        if self.owner_error(vault_id, owner) is Some {
            self.owner_error(vault_id, owner)
        } else if new_key_reference.len() == 0 {
            Some(InheritanceError::MissingRequiredField)
        } else {
            None
        }
    }

    /// The contract after a key was rotated.
    pub open spec fn key_rotated(self, vault_id: u64, new_key_reference: Seq<u8>)
        -> InheritanceView {
        let version = saturating_sum32(self.key_version(vault_id), 1);
        (InheritanceView {
            messages: MessageBookView {
                keys: self.messages.keys.insert((vault_id, version), new_key_reference),
                key_versions: self.messages.key_versions.insert(vault_id, version),
                ..self.messages
            },
            ..self
        }).with_event(
            InheritanceEventView::MessageKeyRotated(MessageKeyRotatedEvent { vault_id, version }),
        )
    }

    /// Why a message is not created.
    pub open spec fn create_message_error(
        self,
        now: u64,
        creator: Address,
        params: CreateLegacyMessageParamsView,
    ) -> Option<InheritanceError> {
        if self.owner_error(params.vault_id, creator) is Some {
            self.owner_error(params.vault_id, creator)
        } else if params.unlock_timestamp <= now {
            Some(InheritanceError::InvalidClaimCode)
        } else {
            None
        }
    }

    /// The key reference of a new message: the one that is stated, or, if none is, the
    /// current key of the vault.
    pub open spec fn resolved_key(self, params: CreateLegacyMessageParamsView) -> Seq<u8> {
        if params.key_reference.len() > 0 {
            params.key_reference
        } else {
            match self.current_key(params.vault_id) {
                Some(key) => key,
                None => Seq::empty(),
            }
        }
    }

    /// The message that is created.
    pub open spec fn new_message(
        self,
        now: u64,
        creator: Address,
        params: CreateLegacyMessageParamsView,
        key_reference: Seq<u8>,
    ) -> LegacyMessageMetadataView {
        LegacyMessageMetadataView {
            vault_id: params.vault_id,
            message_id: self.messages.next_id,
            message_hash: params.message_hash,
            creator,
            key_reference,
            unlock_timestamp: params.unlock_timestamp,
            is_unlocked: false,
            is_finalized: false,
            created_at: now,
        }
    }

    /// The contract after a message was created.
    pub open spec fn message_created(
        self,
        now: u64,
        creator: Address,
        params: CreateLegacyMessageParamsView,
        key_reference: Seq<u8>,
    ) -> InheritanceView {
        let id = self.messages.next_id;
        let vault_id = params.vault_id;
        (InheritanceView {
            messages: MessageBookView {
                next_id: (id + 1) as u64,
                records: self.messages.records.insert(
                    id,
                    self.new_message(now, creator, params, key_reference),
                ),
                by_vault: self.messages.by_vault.insert(
                    vault_id,
                    list_of(self.messages.by_vault, vault_id).push(id),
                ),
                ..self.messages
            },
            ..self
        }).with_event(
            InheritanceEventView::MessageCreated(
                MessageCreatedEvent { vault_id, message_id: id, timestamp: now },
            ),
        )
    }

    /// The contract with another state of one message.
    pub open spec fn with_message(self, message_id: u64, message: LegacyMessageMetadataView)
        -> InheritanceView {
        InheritanceView {
            messages: MessageBookView {
                records: self.messages.records.insert(message_id, message),
                ..self.messages
            },
            ..self
        }
    }

    /// Why a message is not available to its creator.
    pub open spec fn creator_error(self, creator: Address, message_id: u64) -> Option<
        InheritanceError,
    > {
        if !self.messages.records.contains_key(message_id) {
            Some(InheritanceError::PlanNotFound)
        } else if self.messages.records[message_id].creator != creator {
            Some(InheritanceError::Unauthorized)
        } else if self.messages.records[message_id].is_finalized {
            Some(InheritanceError::WillAlreadyFinalized)
        } else {
            None
        }
    }

    /// Why a message is not updated.
    pub open spec fn update_message_error(self, creator: Address, message_id: u64) -> Option<
        InheritanceError,
    > {
        if self.creator_error(creator, message_id) is Some {
            self.creator_error(creator, message_id)
        } else if self.messages.records[message_id].is_unlocked {
            Some(InheritanceError::AlreadyClaimed)
        } else {
            None
        }
    }

    /// The contract after a message was updated.
    pub open spec fn message_updated(
        self,
        now: u64,
        message_id: u64,
        params: CreateLegacyMessageParamsView,
    ) -> InheritanceView {
        let message = self.messages.records[message_id];
        self.with_message(
            message_id,
            LegacyMessageMetadataView {
                message_hash: params.message_hash,
                unlock_timestamp: params.unlock_timestamp,
                key_reference: params.key_reference,
                ..message
            },
        ).with_event(
            InheritanceEventView::MessageUpdated(
                MessageUpdatedEvent { vault_id: message.vault_id, message_id, timestamp: now },
            ),
        )
    }

    /// The contract after a message was finalized.
    pub open spec fn message_finalized(self, now: u64, message_id: u64) -> InheritanceView {
        let message = self.messages.records[message_id];
        self.with_message(
            message_id,
            LegacyMessageMetadataView { is_finalized: true, ..message },
        ).with_event(
            InheritanceEventView::MessageFinalized(
                MessageFinalizedEvent { vault_id: message.vault_id, message_id, timestamp: now },
            ),
        )
    }

    /// The contract after a message was deleted.
    pub open spec fn message_deleted(self, now: u64, message_id: u64) -> InheritanceView {
        let vault_id = self.messages.records[message_id].vault_id;
        (InheritanceView {
            messages: MessageBookView {
                records: self.messages.records.remove(message_id),
                by_vault: self.messages.by_vault.insert(
                    vault_id,
                    without(list_of(self.messages.by_vault, vault_id), message_id),
                ),
                ..self.messages
            },
            ..self
        }).with_event(
            InheritanceEventView::MessageDeleted(
                MessageDeletedEvent { vault_id, message_id, timestamp: now },
            ),
        )
    }

    /// Inheritance was triggered for the vault, at a time other than zero.
    pub open spec fn vault_triggered(self, vault_id: u64) -> bool {
        self.triggered(vault_id) && self.triggers.infos[vault_id].triggered_at > 0
    }

    /// A message can be read now: it was unlocked, its time has come, or inheritance
    /// was triggered for its vault.
    pub open spec fn message_readable(self, now: u64, message_id: u64) -> bool {
        let message = self.messages.records[message_id];
        message.is_unlocked || now >= message.unlock_timestamp || self.vault_triggered(
            message.vault_id,
        )
    }

    /// Why a message is not shown. `caller` is what the ledger writes the caller's
    /// address as.
    pub open spec fn access_error(self, now: u64, caller: Seq<u8>, message_id: u64) -> Option<
        InheritanceError,
    > {
        let vault_id = self.messages.records[message_id].vault_id;
        if !self.messages.records.contains_key(message_id) {
            Some(InheritanceError::PlanNotFound)
        } else if !self.message_readable(now, message_id) {
            Some(InheritanceError::ClaimNotAllowedYet)
        } else if !self.plans.records.contains_key(vault_id) {
            Some(InheritanceError::PlanNotFound)
        } else if !email_listed(self.plans.records[vault_id], hash_of(caller)) {
            Some(InheritanceError::Unauthorized)
        } else {
            None
        }
    }

    /// The contract after a message was unlocked; nothing changes if it was already, or
    /// if there is no such message.
    pub open spec fn message_unlocked(self, now: u64, vault_id: u64, message_id: u64)
        -> InheritanceView {
        let message = self.messages.records[message_id];
        if !self.messages.records.contains_key(message_id) || message.is_unlocked {
            self
        } else {
            self.with_message(
                message_id,
                LegacyMessageMetadataView { is_unlocked: true, ..message },
            ).with_event(
                InheritanceEventView::MessageUnlocked(
                    MessageUnlockedEvent { vault_id, message_id, timestamp: now },
                ),
            )
        }
    }

    /// The contract after a message was shown.
    pub open spec fn message_accessed(self, now: u64, message_id: u64) -> InheritanceView {
        let vault_id = self.messages.records[message_id].vault_id;
        self.message_unlocked(now, vault_id, message_id).with_event(
            InheritanceEventView::MessageAccessed(
                MessageAccessedEvent { vault_id, message_id, timestamp: now },
            ),
        )
    }

    /// The contract after the first `n` of some messages of a vault were unlocked.
    pub open spec fn messages_unlocked(self, now: u64, vault_id: u64, ids: Seq<u64>, n: int)
        -> InheritanceView
        decreases n,
    {
        if n <= 0 {
            self
        } else {
            self.messages_unlocked(now, vault_id, ids, n - 1).message_unlocked(
                now,
                vault_id,
                ids[n - 1],
            )
        }
    }

    /// The contract after the first `n` messages of a batch; one that cannot be created
    /// is passed over.
    pub open spec fn batch_messages(
        self,
        now: u64,
        creator: Address,
        batch: Seq<CreateLegacyMessageParamsView>,
        n: int,
    ) -> InheritanceView
        decreases n,
    {
        if n <= 0 {
            self
        } else {
            let before = self.batch_messages(now, creator, batch, n - 1);
            if before.create_message_error(now, creator, batch[n - 1]) is None {
                before.message_created(
                    now,
                    creator,
                    batch[n - 1],
                    before.resolved_key(batch[n - 1]),
                )
            } else {
                before
            }
        }
    }

    /// Ids of the messages that the first `n` entries of a batch create.
    pub open spec fn batch_ids(
        self,
        now: u64,
        creator: Address,
        batch: Seq<CreateLegacyMessageParamsView>,
        n: int,
    ) -> Seq<u64>
        decreases n,
    {
        if n <= 0 {
            Seq::empty()
        } else {
            let before = self.batch_messages(now, creator, batch, n - 1);
            let ids = self.batch_ids(now, creator, batch, n - 1);
            if before.create_message_error(now, creator, batch[n - 1]) is None {
                ids.push(before.messages.next_id)
            } else {
                ids
            }
        }
    }

    /// The vault of the first message that a batch creates in a vault other than zero.
    pub open spec fn batch_vault(
        self,
        now: u64,
        creator: Address,
        batch: Seq<CreateLegacyMessageParamsView>,
        n: int,
    ) -> u64
        decreases n,
    {
        if n <= 0 {
            0
        } else {
            let before = self.batch_messages(now, creator, batch, n - 1);
            let vault = self.batch_vault(now, creator, batch, n - 1);
            if vault == 0 && before.create_message_error(now, creator, batch[n - 1]) is None {
                batch[n - 1].vault_id
            } else {
                vault
            }
        }
    }

    /// The contract after a batch of messages.
    pub open spec fn batch_messages_created(
        self,
        now: u64,
        creator: Address,
        batch: Seq<CreateLegacyMessageParamsView>,
    ) -> InheritanceView {
        let n = batch.len() as int;
        let count = self.batch_ids(now, creator, batch, n).len();
        self.batch_messages(now, creator, batch, n).with_event(
            InheritanceEventView::BatchMessagesCreated(
                BatchMessagesCreatedEvent {
                    vault_id: self.batch_vault(now, creator, batch, n),
                    success_count: count as u32,
                    fail_count: (n - count) as u32,
                },
            ),
        )
    }
}

/// A finalized message is permanent: it can be neither updated, nor deleted, nor
/// finalized again.
pub proof fn law_finalized_message_is_permanent(
    contract: InheritanceView,
    now: u64,
    creator: Address,
    message_id: u64,
    who: Address,
)
    requires
        contract.creator_error(creator, message_id) is None,
    ensures
        ({
            let after = contract.message_finalized(now, message_id);
            &&& after.creator_error(who, message_id) is Some
            &&& after.update_message_error(who, message_id) is Some
        }),
{
}

/// A message stays locked until its time has come or inheritance was triggered: a fresh
/// one cannot be read before that.
pub proof fn law_fresh_message_is_locked(
    contract: InheritanceView,
    now: u64,
    creator: Address,
    params: CreateLegacyMessageParamsView,
    later: u64,
    caller: Seq<u8>,
)
    requires
        contract.create_message_error(now, creator, params) is None,
        later < params.unlock_timestamp,
        !contract.vault_triggered(params.vault_id),
    ensures
        ({
            let id = contract.messages.next_id;
            let key = contract.resolved_key(params);
            contract.message_created(now, creator, params, key).access_error(later, caller, id)
                == Some(InheritanceError::ClaimNotAllowedYet)
        }),
{
}

/// A message that was deleted is gone, and its vault no longer lists it; the other
/// messages stay.
pub proof fn law_deleted_message_is_gone(
    contract: InheritanceView,
    now: u64,
    creator: Address,
    message_id: u64,
    other: u64,
)
    requires
        contract.well_formed(),
        contract.creator_error(creator, message_id) is None,
    ensures
        ({
            let vault_id = contract.messages.records[message_id].vault_id;
            let after = contract.message_deleted(now, message_id);
            &&& !after.messages.records.contains_key(message_id)
            &&& list_of(after.messages.by_vault, vault_id).contains(other) <==> list_of(
                contract.messages.by_vault,
                vault_id,
            ).contains(other) && other != message_id
            &&& other != message_id && contract.messages.records.contains_key(other)
                ==> after.messages.records.contains_key(other) && after.messages.records[other]
                == contract.messages.records[other]
        }),
{
    let vault_id = contract.messages.records[message_id].vault_id;
    lemma_without_contains(list_of(contract.messages.by_vault, vault_id), message_id, other);
}

/// Once inheritance is triggered, unlocking the messages of a vault leaves none of them
/// locked.
pub proof fn law_inheritance_unlocks_messages(
    contract: InheritanceView,
    now: u64,
    vault_id: u64,
    message_id: u64,
)
    requires
        contract.well_formed(),
        list_of(contract.messages.by_vault, vault_id).contains(message_id),
    ensures
        ({
            let ids = list_of(contract.messages.by_vault, vault_id);
            let after = contract.messages_unlocked(now, vault_id, ids, ids.len() as int);
            after.messages.records.contains_key(message_id)
                && after.messages.records[message_id].is_unlocked
        }),
{
    let ids = list_of(contract.messages.by_vault, vault_id);
    let i = choose|i: int| 0 <= i < ids.len() && ids[i] == message_id;
    reveal(messages_filed);
    assert(contract.messages.records.contains_key(message_id));
    lemma_unlocked(contract, now, vault_id, ids, ids.len() as int, i);
}

proof fn lemma_unlocked(
    contract: InheritanceView,
    now: u64,
    vault_id: u64,
    ids: Seq<u64>,
    n: int,
    i: int,
)
    requires
        0 <= n <= ids.len(),
        0 <= i < ids.len(),
        contract.messages.records.contains_key(ids[i]),
    ensures
        ({
            let after = contract.messages_unlocked(now, vault_id, ids, n);
            &&& after.messages.records.contains_key(ids[i])
            &&& i < n ==> after.messages.records[ids[i]].is_unlocked
        }),
    decreases n,
{
    if n > 0 {
        lemma_unlocked(contract, now, vault_id, ids, n - 1, i);
    }
}

/// Rotating a key makes the new reference the current one; the older references stay on
/// file. This holds until the versions run out.
pub proof fn law_rotated_key_is_current(
    contract: InheritanceView,
    vault_id: u64,
    new_key_reference: Seq<u8>,
    version: u32,
)
    requires
        version <= contract.key_version(vault_id),
        contract.key_version(vault_id) < u32::MAX,
    ensures
        ({
            let after = contract.key_rotated(vault_id, new_key_reference);
            &&& after.current_key(vault_id) == Some(new_key_reference)
            &&& after.key_version(vault_id) == contract.key_version(vault_id) + 1
            &&& contract.messages.keys.contains_key((vault_id, version))
                ==> after.messages.keys[(vault_id, version)] == contract.messages.keys[(
                vault_id,
                version,
            )]
        }),
{
}

/// A batch of messages changes no keys and none of the messages before it.
proof fn lemma_batch_messages(
    contract: InheritanceView,
    now: u64,
    creator: Address,
    batch: Seq<CreateLegacyMessageParamsView>,
    i: int,
    n: int,
    id: u64,
)
    requires
        0 <= i <= n,
        contract.messages.next_id + n <= u64::MAX,
        id < contract.batch_messages(now, creator, batch, i).messages.next_id,
    ensures
        ({
            let before = contract.batch_messages(now, creator, batch, i).messages;
            let after = contract.batch_messages(now, creator, batch, n).messages;
            &&& after.keys == before.keys
            &&& after.key_versions == before.key_versions
            &&& id < after.next_id <= contract.messages.next_id + n
            &&& before.records.contains_key(id) ==> after.records.contains_key(id)
                && after.records[id] == before.records[id]
        }),
    decreases n,
{
    if i < n {
        lemma_batch_messages(contract, now, creator, batch, i, n - 1, id);
    } else {
        lemma_batch_keys(contract, now, creator, batch, n);
    }
}

proof fn lemma_batch_keys(
    contract: InheritanceView,
    now: u64,
    creator: Address,
    batch: Seq<CreateLegacyMessageParamsView>,
    n: int,
)
    requires
        0 <= n,
        contract.messages.next_id + n <= u64::MAX,
    ensures
        ({
            let after = contract.batch_messages(now, creator, batch, n).messages;
            &&& after.keys == contract.messages.keys
            &&& after.key_versions == contract.messages.key_versions
            &&& after.next_id <= contract.messages.next_id + n
        }),
    decreases n,
{
    if n > 0 {
        lemma_batch_keys(contract, now, creator, batch, n - 1);
    }
}

/// New messages refer to the current key of their vault by an empty key reference,
/// whether they are created alone or at some place of a batch.
pub proof fn law_empty_reference_means_current_key(
    contract: InheritanceView,
    now: u64,
    creator: Address,
    batch: Seq<CreateLegacyMessageParamsView>,
    i: int,
)
    requires
        0 <= i < batch.len(),
        contract.messages.next_id + batch.len() <= u64::MAX,
        batch[i].key_reference.len() == 0,
        contract.batch_messages(now, creator, batch, i).create_message_error(
            now,
            creator,
            batch[i],
        ) is None,
        contract.current_key(batch[i].vault_id) is Some,
    ensures
        ({
            let alone = contract.message_created(
                now,
                creator,
                batch[i],
                contract.resolved_key(batch[i]),
            );
            let id = contract.batch_messages(now, creator, batch, i).messages.next_id;
            let together = contract.batch_messages_created(now, creator, batch).messages;
            let key = contract.current_key(batch[i].vault_id)->0;
            &&& alone.messages.records[contract.messages.next_id].key_reference == key
            &&& together.records.contains_key(id)
            &&& together.records[id].key_reference == key
        }),
{
    lemma_batch_keys(contract, now, creator, batch, i);
    let id = contract.batch_messages(now, creator, batch, i).messages.next_id;
    lemma_batch_messages(contract, now, creator, batch, i + 1, batch.len() as int, id);
}

proof fn lemma_message_update(
    contract: InheritanceView,
    message_id: u64,
    message: LegacyMessageMetadataView,
)
    requires
        contract.well_formed(),
        contract.messages.records.contains_key(message_id),
        message.vault_id == contract.messages.records[message_id].vault_id,
        message.message_id == contract.messages.records[message_id].message_id,
    ensures
        contract.with_message(message_id, message).well_formed(),
{
    reveal(messages_filed);
    let before = contract.messages;
    let after = contract.with_message(message_id, message).messages;
    assert forall|vault: u64, id: u64| #[trigger]
        list_of(after.by_vault, vault).contains(id) <==> after.records.contains_key(id)
            && after.records[id].vault_id == vault by {
        assert(list_of(before.by_vault, vault).contains(id) <==> before.records.contains_key(id)
            && before.records[id].vault_id == vault);
    }
}

proof fn lemma_message_created(
    contract: InheritanceView,
    now: u64,
    creator: Address,
    params: CreateLegacyMessageParamsView,
    key_reference: Seq<u8>,
)
    requires
        contract.well_formed(),
        contract.messages.next_id < u64::MAX,
    ensures
        contract.message_created(now, creator, params, key_reference).well_formed(),
{
    reveal(messages_filed);
    let before = contract.messages;
    let after = contract.message_created(now, creator, params, key_reference).messages;
    let id = before.next_id;
    assert(!before.records.contains_key(id));
    assert forall|other: u64| #[trigger] after.records.contains_key(other) implies other
        < after.next_id && after.records[other].message_id == other by {
        if other != id {
            assert(before.records.contains_key(other));
        }
    }
    assert forall|vault: u64, other: u64| #[trigger]
        list_of(after.by_vault, vault).contains(other) <==> after.records.contains_key(other)
            && after.records[other].vault_id == vault by {
        assert(list_of(before.by_vault, vault).contains(other) <==> before.records.contains_key(
            other,
        ) && before.records[other].vault_id == vault);
        lemma_push_contains(list_of(before.by_vault, params.vault_id), id, other);
    }
    assert forall|vault: u64| (#[trigger] list_of(after.by_vault, vault)).no_duplicates() by {
        assert(list_of(before.by_vault, vault).no_duplicates());
        assert(!list_of(before.by_vault, params.vault_id).contains(id));
    }
}

proof fn lemma_message_deleted(contract: InheritanceView, now: u64, message_id: u64)
    requires
        contract.well_formed(),
        contract.messages.records.contains_key(message_id),
    ensures
        contract.message_deleted(now, message_id).well_formed(),
{
    reveal(messages_filed);
    let before = contract.messages;
    let after = contract.message_deleted(now, message_id).messages;
    let vault_id = before.records[message_id].vault_id;
    let ids = list_of(before.by_vault, vault_id);
    assert forall|vault: u64, id: u64| #[trigger]
        list_of(after.by_vault, vault).contains(id) <==> after.records.contains_key(id)
            && after.records[id].vault_id == vault by {
        assert(list_of(before.by_vault, vault).contains(id) <==> before.records.contains_key(id)
            && before.records[id].vault_id == vault);
        lemma_without_contains(ids, message_id, id);
    }
    assert forall|vault: u64| (#[trigger] list_of(after.by_vault, vault)).no_duplicates() by {
        assert(list_of(before.by_vault, vault).no_duplicates());
        assert(list_of(before.by_vault, vault_id).no_duplicates());
        lemma_without_distinct(ids, message_id);
    }
}

/// A longer part of a batch creates at least as many messages.
proof fn lemma_batch_ids_grow(
    contract: InheritanceView,
    now: u64,
    creator: Address,
    batch: Seq<CreateLegacyMessageParamsView>,
    i: int,
    n: int,
)
    requires
        0 <= i <= n,
    ensures
        contract.batch_ids(now, creator, batch, i).len() <= contract.batch_ids(
            now,
            creator,
            batch,
            n,
        ).len(),
    decreases n,
{
    if i < n {
        lemma_batch_ids_grow(contract, now, creator, batch, i, n - 1);
    }
}

impl InheritanceContract {
    /// Rotate the key reference used for message encryption for a vault/plan.
    ///
    /// Stores a versioned key reference on-chain; new messages can reference
    /// the current key by passing an empty `key_reference`. Returns the version.
    pub fn rotate_vault_message_key(
        &mut self,
        env: &Env,
        owner: Address,
        vault_id: u64,
        new_key_reference: Vec<u8>,
    ) -> (result: Result<u32, InheritanceError>)
        requires
            old(self)@.well_formed(),
            env.authorized(owner),
        ensures
            ({
                let error = old(self)@.rotate_key_error(owner, vault_id, new_key_reference@);
                match result {
                    Err(e) => error == Some(e) && final(self)@ == old(self)@,
                    Ok(version) => error is None && version == saturating_sum32(
                        old(self)@.key_version(vault_id),
                        1,
                    ) && final(self)@ == old(self)@.key_rotated(vault_id, new_key_reference@),
                }
            }),
            final(self)@.well_formed(),
    {
        match self.require_owner(vault_id, owner) {
            Ok(_) => {},
            Err(e) => {
                return Err(e);
            },
        }
        if new_key_reference.len() == 0 {
            return Err(InheritanceError::MissingRequiredField);
        }
        let version: u32 = self.get_vault_message_key_version(vault_id).saturating_add(1);
        self.messages.keys.set((vault_id, version), new_key_reference);
        self.messages.key_versions.set(vault_id, version);
        self.publish(
            InheritanceEvent::MessageKeyRotated(MessageKeyRotatedEvent { vault_id, version }),
        );
        Ok(version)
    }

    /// The reference to the key that encrypts messages of a vault.
    pub fn get_vault_message_key(&self, vault_id: u64) -> (key: Option<Vec<u8>>)
        ensures
            match key {
                Some(k) => self@.current_key(vault_id) == Some(k@),
                None => self@.current_key(vault_id) is None,
            },
    {
        let version: u32 = self.get_vault_message_key_version(vault_id);
        match self.messages.keys.get((vault_id, version)) {
            Some(key) => Some(key.clone()),
            None => None,
        }
    }

    /// The version of the key that encrypts messages of a vault.
    pub fn get_vault_message_key_version(&self, vault_id: u64) -> (version: u32)
        ensures
            version == self@.key_version(vault_id),
    {
        match self.messages.key_versions.get(vault_id) {
            Some(version) => *version,
            None => 0,
        }
    }

    /// Refuses a message.
    pub fn check_message(
        &self,
        env: &Env,
        creator: Address,
        params: &CreateLegacyMessageParams,
    ) -> (error: Option<InheritanceError>)
        ensures
            error == self@.create_message_error(env.timestamp, creator, params@),
    {
        match self.require_owner(params.vault_id, creator) {
            Ok(_) => {},
            Err(e) => {
                return Some(e);
            },
        }
        if params.unlock_timestamp <= env.timestamp {
            return Some(InheritanceError::InvalidClaimCode);
        }
        None
    }

    /// Files a message. Returns its id.
    fn file_message(
        &mut self,
        env: &Env,
        creator: Address,
        params: &CreateLegacyMessageParams,
        key_reference: Vec<u8>,
    ) -> (id: u64)
        requires
            old(self)@.well_formed(),
            old(self)@.messages.next_id < u64::MAX,
        ensures
            id == old(self)@.messages.next_id,
            final(self)@ == old(self)@.message_created(
                env.timestamp,
                creator,
                params@,
                key_reference@,
            ),
            final(self)@.well_formed(),
    {
        proof {
            lemma_message_created(self@, env.timestamp, creator, params@, key_reference@);
        }
        let message_id: u64 = self.messages.next_id;
        let vault_id: u64 = params.vault_id;
        self.messages.records.set(
            message_id,
            LegacyMessageMetadata {
                vault_id,
                message_id,
                message_hash: params.message_hash,
                creator,
                key_reference,
                unlock_timestamp: params.unlock_timestamp,
                is_unlocked: false,
                is_finalized: false,
                created_at: env.timestamp,
            },
        );
        let mut ids = self.get_vault_messages(vault_id);
        ids.push(message_id);
        self.messages.by_vault.set(vault_id, ids);
        self.messages.next_id = message_id + 1;
        self.publish(
            InheritanceEvent::MessageCreated(
                MessageCreatedEvent { vault_id, message_id, timestamp: env.timestamp },
            ),
        );
        message_id
    }

    /// The key reference of a new message: the one that is stated, or the current one
    /// of the vault.
    fn resolve_key(&self, params: &CreateLegacyMessageParams) -> (key: Vec<u8>)
        ensures
            key@ == self@.resolved_key(params@),
    {
        if params.key_reference.len() > 0 {
            params.key_reference.clone()
        } else {
            match self.get_vault_message_key(params.vault_id) {
                Some(key) => key,
                None => Vec::new(),
            }
        }
    }

    /// Create a new legacy message with metadata stored on-chain. The creator must be
    /// the vault owner, and the message must unlock in the future. Without a key
    /// reference the current key of the vault is taken. Returns the message's id.
    pub fn create_legacy_message(
        &mut self,
        env: &Env,
        creator: Address,
        params: CreateLegacyMessageParams,
    ) -> (result: Result<u64, InheritanceError>)
        requires
            old(self)@.well_formed(),
            old(self)@.create_message_error(env.timestamp, creator, params@) is None ==> old(
                self,
            )@.messages.next_id < u64::MAX,
        ensures
            ({
                let error = old(self)@.create_message_error(env.timestamp, creator, params@);
                match result {
                    Err(e) => error == Some(e) && final(self)@ == old(self)@,
                    Ok(id) => error is None && id == old(self)@.messages.next_id && final(self)@
                        == old(self)@.message_created(
                        env.timestamp,
                        creator,
                        params@,
                        old(self)@.resolved_key(params@),
                    ),
                }
            }),
            final(self)@.well_formed(),
    {
        match self.check_message(env, creator, &params) {
            Some(e) => {
                return Err(e);
            },
            None => {},
        }
        let key_reference: Vec<u8> = self.resolve_key(&params);
        Ok(self.file_message(env, creator, &params, key_reference))
    }

    /// Refuses a caller who did not create the message, or a message that is finalized.
    fn check_creator(&self, creator: Address, message_id: u64) -> (error: Option<InheritanceError>)
        ensures
            error == self@.creator_error(creator, message_id),
    {
        match self.messages.records.get(message_id) {
            Some(message) => {
                if message.creator != creator {
                    Some(InheritanceError::Unauthorized)
                } else if message.is_finalized {
                    Some(InheritanceError::WillAlreadyFinalized)
                } else {
                    None
                }
            },
            None => Some(InheritanceError::PlanNotFound),
        }
    }

    /// Update a message that is neither finalized nor unlocked. Its vault stays.
    pub fn update_legacy_message(
        &mut self,
        env: &Env,
        creator: Address,
        message_id: u64,
        params: CreateLegacyMessageParams,
    ) -> (result: Result<(), InheritanceError>)
        requires
            old(self)@.well_formed(),
            env.authorized(creator),
        ensures
            ({
                let error = old(self)@.update_message_error(creator, message_id);
                match result {
                    Err(e) => error == Some(e) && final(self)@ == old(self)@,
                    Ok(()) => error is None && final(self)@ == old(self)@.message_updated(
                        env.timestamp,
                        message_id,
                        params@,
                    ),
                }
            }),
            final(self)@.well_formed(),
    {
        match self.check_creator(creator, message_id) {
            Some(e) => {
                return Err(e);
            },
            None => {},
        }
        let vault_id: u64 = match self.messages.records.get(message_id) {
            Some(message) => {
                if message.is_unlocked {
                    return Err(InheritanceError::AlreadyClaimed);
                }
                message.vault_id
            },
            None => {
                return Err(InheritanceError::PlanNotFound);
            },
        };
        let ghost before = self@;
        let message = self.messages.records.at_mut(message_id);
        message.message_hash = params.message_hash;
        message.unlock_timestamp = params.unlock_timestamp;
        message.key_reference = params.key_reference;
        proof {
            lemma_message_update(before, message_id, message@);
        }
        self.publish(
            InheritanceEvent::MessageUpdated(
                MessageUpdatedEvent { vault_id, message_id, timestamp: env.timestamp },
            ),
        );
        Ok(())
    }

    /// Finalize a message: it can no longer be updated or deleted.
    pub fn finalize_legacy_message(&mut self, env: &Env, creator: Address, message_id: u64) -> (
    result: Result<(), InheritanceError>)
        requires
            old(self)@.well_formed(),
            env.authorized(creator),
        ensures
            ({
                let error = old(self)@.creator_error(creator, message_id);
                match result {
                    Err(e) => error == Some(e) && final(self)@ == old(self)@,
                    Ok(()) => error is None && final(self)@ == old(self)@.message_finalized(
                        env.timestamp,
                        message_id,
                    ),
                }
            }),
            final(self)@.well_formed(),
    {
        match self.check_creator(creator, message_id) {
            Some(e) => {
                return Err(e);
            },
            None => {},
        }
        let ghost before = self@;
        let message = self.messages.records.at_mut(message_id);
        message.is_finalized = true;
        let vault_id: u64 = message.vault_id;
        proof {
            lemma_message_update(before, message_id, message@);
        }
        self.publish(
            InheritanceEvent::MessageFinalized(
                MessageFinalizedEvent { vault_id, message_id, timestamp: env.timestamp },
            ),
        );
        Ok(())
    }

    /// Get metadata for a specific legacy message.
    pub fn get_legacy_message(&self, message_id: u64) -> (message: Option<LegacyMessageMetadata>)
        ensures
            match message {
                Some(m) => self@.messages.records.contains_key(message_id) && m@
                    == self@.messages.records[message_id],
                None => !self@.messages.records.contains_key(message_id),
            },
    {
        match self.messages.records.get(message_id) {
            Some(message) => Some(message.duplicate()),
            None => None,
        }
    }

    /// Get all message ids for a specific vault.
    pub fn get_vault_messages(&self, vault_id: u64) -> (ids: Vec<u64>)
        ensures
            ids@ == list_of(self@.messages.by_vault, vault_id),
    {
        match self.messages.by_vault.get(vault_id) {
            Some(ids) => ids.clone(),
            None => Vec::new(),
        }
    }

    /// Delete a legacy message before it has been finalized.
    pub fn delete_legacy_message(&mut self, env: &Env, owner: Address, message_id: u64) -> (result:
        Result<(), InheritanceError>)
        requires
            old(self)@.well_formed(),
            env.authorized(owner),
        ensures
            ({
                let error = old(self)@.creator_error(owner, message_id);
                match result {
                    Err(e) => error == Some(e) && final(self)@ == old(self)@,
                    Ok(()) => error is None && final(self)@ == old(self)@.message_deleted(
                        env.timestamp,
                        message_id,
                    ),
                }
            }),
            final(self)@.well_formed(),
    {
        match self.check_creator(owner, message_id) {
            Some(e) => {
                return Err(e);
            },
            None => {},
        }
        let vault_id: u64 = match self.messages.records.get(message_id) {
            Some(message) => message.vault_id,
            None => {
                return Err(InheritanceError::PlanNotFound);
            },
        };
        proof {
            lemma_message_deleted(self@, env.timestamp, message_id);
        }
        self.messages.records.remove(message_id);
        let ids = self.get_vault_messages(vault_id);
        self.messages.by_vault.set(vault_id, list_without(&ids, &message_id));
        self.publish(
            InheritanceEvent::MessageDeleted(
                MessageDeletedEvent { vault_id, message_id, timestamp: env.timestamp },
            ),
        );
        Ok(())
    }

    /// Whether the plan has a beneficiary with the email.
    pub fn is_email_listed(plan: &InheritancePlan, hashed_email: &Digest) -> (listed: bool)
        ensures
            listed == email_listed(plan@, *hashed_email),
    {
        let mut i: usize = 0;
        while i < plan.beneficiaries.len()
            invariant
                i <= plan@.beneficiaries.len(),
                forall|j: int|
                    0 <= j < i ==> (#[trigger] plan@.beneficiaries[j]).hashed_email
                        != *hashed_email,
            decreases plan@.beneficiaries.len() - i,
        {
            if plan.beneficiaries.get(i).hashed_email.same(hashed_email) {
                proof {
                    assert(plan@.beneficiaries[i as int].hashed_email == *hashed_email);
                }
                return true;
            }
            i += 1;
        }
        false
    }

    fn is_vault_triggered(&self, vault_id: u64) -> (triggered: bool)
        ensures
            triggered == self@.vault_triggered(vault_id),
    {
        match self.triggers.infos.get(vault_id) {
            Some(info) => info.triggered_at > 0,
            None => false,
        }
    }

    /// Unlocks a message that is locked.
    fn unlock_message(&mut self, env: &Env, vault_id: u64, message_id: u64)
        requires
            old(self)@.well_formed(),
        ensures
            final(self)@ == old(self)@.message_unlocked(env.timestamp, vault_id, message_id),
            final(self)@.well_formed(),
    {
        match self.messages.records.get(message_id) {
            Some(message) => {
                if message.is_unlocked {
                    return ;
                }
            },
            None => {
                return ;
            },
        }
        let ghost before = self@;
        let message = self.messages.records.at_mut(message_id);
        message.is_unlocked = true;
        proof {
            lemma_message_update(before, message_id, message@);
        }
        self.publish(
            InheritanceEvent::MessageUnlocked(
                MessageUnlockedEvent { vault_id, message_id, timestamp: env.timestamp },
            ),
        );
    }

    /// Access a legacy message. The caller must be a beneficiary of the vault, and the
    /// message must be unlocked, by its timestamp or by triggered inheritance.
    ///
    /// `caller` is what the ledger writes the caller's address as; its hash is held
    /// against the hashed emails of the beneficiaries.
    pub fn access_legacy_message(&mut self, env: &Env, caller: Vec<u8>, message_id: u64) -> (result:
        Result<LegacyMessageMetadata, InheritanceError>)
        requires
            old(self)@.well_formed(),
            caller@.len() <= MAX_HASH_INPUT_LEN,
        ensures
            ({
                let error = old(self)@.access_error(env.timestamp, caller@, message_id);
                match result {
                    Err(e) => error == Some(e) && final(self)@ == old(self)@,
                    Ok(message) => error is None && message@ == (LegacyMessageMetadataView {
                        is_unlocked: true,
                        ..old(self)@.messages.records[message_id]
                    }) && final(self)@ == old(self)@.message_accessed(env.timestamp, message_id),
                }
            }),
            final(self)@.well_formed(),
    {
        let vault_id: u64 = match self.messages.records.get(message_id) {
            Some(message) => {
                if !message.is_unlocked && env.timestamp < message.unlock_timestamp
                    && !self.is_vault_triggered(message.vault_id) {
                    return Err(InheritanceError::ClaimNotAllowedYet);
                }
                message.vault_id
            },
            None => {
                return Err(InheritanceError::PlanNotFound);
            },
        };
        match self.plans.records.get(vault_id) {
            Some(plan) => {
                if !Self::is_email_listed(plan, &hash_data(&caller)) {
                    return Err(InheritanceError::Unauthorized);
                }
            },
            None => {
                return Err(InheritanceError::PlanNotFound);
            },
        }
        self.unlock_message(env, vault_id, message_id);
        self.publish(
            InheritanceEvent::MessageAccessed(
                MessageAccessedEvent { vault_id, message_id, timestamp: env.timestamp },
            ),
        );
        match self.messages.records.get(message_id) {
            Some(message) => Ok(message.duplicate()),
            None => Err(InheritanceError::PlanNotFound),
        }
    }

    /// Unlock all messages of a vault for which inheritance was triggered.
    pub fn unlock_messages_on_inheritance(&mut self, env: &Env, vault_id: u64) -> (result: Result<
        (),
        InheritanceError,
    >)
        requires
            old(self)@.well_formed(),
        ensures
            ({
                let ids = list_of(old(self)@.messages.by_vault, vault_id);
                match result {
                    Err(e) => !old(self)@.vault_triggered(vault_id) && e
                        == InheritanceError::InheritanceNotTriggered && final(self)@ == old(self)@,
                    Ok(()) => old(self)@.vault_triggered(vault_id) && final(self)@ == old(
                        self,
                    )@.messages_unlocked(env.timestamp, vault_id, ids, ids.len() as int),
                }
            }),
            final(self)@.well_formed(),
    {
        if !self.is_vault_triggered(vault_id) {
            return Err(InheritanceError::InheritanceNotTriggered);
        }
        let ghost start = self@;
        let ids = self.get_vault_messages(vault_id);
        let mut i: usize = 0;
        while i < ids.len()
            invariant
                i <= ids@.len(),
                self@ == start.messages_unlocked(env.timestamp, vault_id, ids@, i as int),
                self@.well_formed(),
            decreases ids@.len() - i,
        {
            self.unlock_message(env, vault_id, ids[i]);
            i += 1;
        }
        Ok(())
    }

    /// Create several messages. One that cannot be created is counted as a failure and
    /// passed over; an empty key reference stands for the current key of the vault.
    /// Returns the ids of the messages, and how many failed.
    pub fn batch_create_messages(
        &mut self,
        env: &Env,
        creator: Address,
        params_list: List<CreateLegacyMessageParams>,
    ) -> (result: Result<(Vec<u64>, u32), InheritanceError>)
        requires
            old(self)@.well_formed(),
            env.authorized(creator),
            params_list@.len() <= BATCH_MESSAGE_LIMIT ==> old(self)@.messages.next_id
                + old(self)@.batch_ids(
                env.timestamp,
                creator,
                params_list@,
                params_list@.len() as int,
            ).len() <= u64::MAX,
        ensures
            ({
                let n = params_list@.len() as int;
                let ids = old(self)@.batch_ids(env.timestamp, creator, params_list@, n);
                match result {
                    Err(e) => n > BATCH_MESSAGE_LIMIT && e == InheritanceError::TooManyBeneficiaries
                        && final(self)@ == old(self)@,
                    Ok((created, fail)) => n <= BATCH_MESSAGE_LIMIT && created@ == ids && fail == n
                        - ids.len() && final(self)@ == old(self)@.batch_messages_created(
                        env.timestamp,
                        creator,
                        params_list@,
                    ),
                }
            }),
            final(self)@.well_formed(),
    {
        if params_list.len() > BATCH_MESSAGE_LIMIT {
            return Err(InheritanceError::TooManyBeneficiaries);
        }
        let ghost start = self@;
        let mut created: Vec<u64> = Vec::new();
        let mut fail: u32 = 0;
        let mut vault: u64 = 0;
        let mut i: usize = 0;
        while i < params_list.len()
            invariant
                i <= params_list@.len() <= BATCH_MESSAGE_LIMIT,
                start.messages.next_id + start.batch_ids(
                    env.timestamp,
                    creator,
                    params_list@,
                    params_list@.len() as int,
                ).len() <= u64::MAX,
                self@ == start.batch_messages(env.timestamp, creator, params_list@, i as int),
                self@.well_formed(),
                created@ == start.batch_ids(env.timestamp, creator, params_list@, i as int),
                vault == start.batch_vault(env.timestamp, creator, params_list@, i as int),
                created@.len() + fail == i,
                self@.messages.next_id == start.messages.next_id + created@.len(),
            decreases params_list@.len() - i,
        {
            let params = params_list.get(i);
            match self.check_message(env, creator, params) {
                Some(_) => {
                    fail += 1;
                },
                None => {
                    proof {
                        lemma_batch_ids_grow(
                            start,
                            env.timestamp,
                            creator,
                            params_list@,
                            i + 1,
                            params_list@.len() as int,
                        );
                    }
                    let key_reference: Vec<u8> = self.resolve_key(params);
                    let id: u64 = self.file_message(env, creator, params, key_reference);
                    if vault == 0 {
                        vault = params.vault_id;
                    }
                    created.push(id);
                },
            }
            i += 1;
        }
        let success: u32 = created.len() as u32;
        self.publish(
            InheritanceEvent::BatchMessagesCreated(
                BatchMessagesCreatedEvent {
                    vault_id: vault,
                    success_count: success,
                    fail_count: fail,
                },
            ),
        );
        Ok((created, fail))
    }
}

/// A message is created by the owner of the vault, to be unlocked in the future; it is
/// changed, finalized and deleted by its creator until it is finalized, and changed
/// only while it is locked. A key is rotated by the owner, to one that is not empty.
pub proof fn law_message_calls_are_admitted(
    contract: InheritanceView,
    now: u64,
    caller: Address,
    params: CreateLegacyMessageParamsView,
    message_id: u64,
    vault_id: u64,
    key_reference: Seq<u8>,
)
    ensures
        ({
            let plans = contract.plans.records;
            let filed = contract.messages.records.contains_key(message_id);
            let message = contract.messages.records[message_id];
            &&& contract.create_message_error(now, caller, params) is None <==> {
                &&& plans.contains_key(params.vault_id)
                &&& plans[params.vault_id].owner == caller
                &&& params.unlock_timestamp > now
            }
            &&& contract.creator_error(caller, message_id) is None <==> filed && message.creator
                == caller && !message.is_finalized
            &&& contract.update_message_error(caller, message_id) is None <==> filed
                && message.creator == caller && !message.is_finalized && !message.is_unlocked
            &&& contract.rotate_key_error(caller, vault_id, key_reference) is None
                <==> plans.contains_key(vault_id) && plans[vault_id].owner == caller
                && key_reference.len() > 0
        }),
{
}

/// A message is shown exactly to a beneficiary of its vault, once it was unlocked, its
/// time has come, or inheritance was triggered for the vault.
pub proof fn law_messages_are_for_beneficiaries(
    contract: InheritanceView,
    now: u64,
    caller: Seq<u8>,
    message_id: u64,
)
    ensures
        ({
            let message = contract.messages.records[message_id];
            let vault_id = message.vault_id;
            let plan = contract.plans.records[vault_id];
            contract.access_error(now, caller, message_id) is None <==> {
                &&& contract.messages.records.contains_key(message_id)
                &&& message.is_unlocked || now >= message.unlock_timestamp || (
                contract.triggers.infos.contains_key(vault_id)
                    && contract.triggers.infos[vault_id].triggered_at > 0)
                &&& contract.plans.records.contains_key(vault_id)
                &&& exists|i: int|
                    0 <= i < plan.beneficiaries.len() && (
                    #[trigger] plan.beneficiaries[i]).hashed_email == hash_of(caller)
            }
        }),
{
}

/// A message that was created is filed under the next id for its vault, as stated,
/// locked and open to changes; where no key is stated the current one of the vault is
/// taken. It is announced, and all else stays.
pub proof fn law_creating_messages(
    contract: InheritanceView,
    now: u64,
    creator: Address,
    params: CreateLegacyMessageParamsView,
    key_reference: Seq<u8>,
)
    requires
        contract.messages.next_id < 0xffff_ffff_ffff_ffff,
    ensures
        ({
            let id = contract.messages.next_id;
            let vault_id = params.vault_id;
            let after = contract.message_created(now, creator, params, key_reference);
            &&& after.messages.next_id == id + 1
            &&& after == (InheritanceView {
                messages: MessageBookView {
                    next_id: after.messages.next_id,
                    records: contract.messages.records.insert(
                        id,
                        LegacyMessageMetadataView {
                            vault_id,
                            message_id: id,
                            message_hash: params.message_hash,
                            creator,
                            key_reference,
                            unlock_timestamp: params.unlock_timestamp,
                            is_unlocked: false,
                            is_finalized: false,
                            created_at: now,
                        },
                    ),
                    by_vault: contract.messages.by_vault.insert(
                        vault_id,
                        list_of(contract.messages.by_vault, vault_id).push(id),
                    ),
                    ..contract.messages
                },
                events: contract.events.push(
                    InheritanceEventView::MessageCreated(
                        MessageCreatedEvent { vault_id, message_id: id, timestamp: now },
                    ),
                ),
                ..contract
            })
        }),
        ({
            let keys = contract.messages.keys;
            let version = if contract.messages.key_versions.contains_key(params.vault_id) {
                contract.messages.key_versions[params.vault_id]
            } else {
                0
            };
            contract.resolved_key(params) == if params.key_reference.len() > 0 {
                params.key_reference
            } else if keys.contains_key((params.vault_id, version)) {
                keys[(params.vault_id, version)]
            } else {
                Seq::empty()
            }
        }),
{
}

/// A change replaces hash, time and key of a message; finalizing marks it; deleting
/// takes it out of the records and of the list of its vault. Each is announced, and all
/// else stays.
pub proof fn law_changing_messages(
    contract: InheritanceView,
    now: u64,
    message_id: u64,
    params: CreateLegacyMessageParamsView,
)
    ensures
        ({
            let message = contract.messages.records[message_id];
            let vault_id = message.vault_id;
            let records = contract.messages.records;
            &&& contract.message_updated(now, message_id, params) == (InheritanceView {
                messages: MessageBookView {
                    records: records.insert(
                        message_id,
                        LegacyMessageMetadataView {
                            message_hash: params.message_hash,
                            unlock_timestamp: params.unlock_timestamp,
                            key_reference: params.key_reference,
                            ..message
                        },
                    ),
                    ..contract.messages
                },
                events: contract.events.push(
                    InheritanceEventView::MessageUpdated(
                        MessageUpdatedEvent { vault_id, message_id, timestamp: now },
                    ),
                ),
                ..contract
            })
            &&& contract.message_finalized(now, message_id) == (InheritanceView {
                messages: MessageBookView {
                    records: records.insert(
                        message_id,
                        LegacyMessageMetadataView { is_finalized: true, ..message },
                    ),
                    ..contract.messages
                },
                events: contract.events.push(
                    InheritanceEventView::MessageFinalized(
                        MessageFinalizedEvent { vault_id, message_id, timestamp: now },
                    ),
                ),
                ..contract
            })
            &&& contract.message_deleted(now, message_id) == (InheritanceView {
                messages: MessageBookView {
                    records: records.remove(message_id),
                    by_vault: contract.messages.by_vault.insert(
                        vault_id,
                        without(list_of(contract.messages.by_vault, vault_id), message_id),
                    ),
                    ..contract.messages
                },
                events: contract.events.push(
                    InheritanceEventView::MessageDeleted(
                        MessageDeletedEvent { vault_id, message_id, timestamp: now },
                    ),
                ),
                ..contract
            })
        }),
{
}

/// A locked message that is shown, or whose vault is unlocked, is unlocked from then
/// on, which is announced once; the reading is announced every time.
pub proof fn law_unlocking_messages(
    contract: InheritanceView,
    now: u64,
    vault_id: u64,
    message_id: u64,
    ids: Seq<u64>,
    n: int,
)
    requires
        0 <= n < ids.len(),
    ensures
        ({
            let filed = contract.messages.records.contains_key(message_id);
            let message = contract.messages.records[message_id];
            let after = contract.message_unlocked(now, vault_id, message_id);
            &&& !filed || message.is_unlocked ==> after == contract
            &&& filed && !message.is_unlocked ==> after == (InheritanceView {
                messages: MessageBookView {
                    records: contract.messages.records.insert(
                        message_id,
                        LegacyMessageMetadataView { is_unlocked: true, ..message },
                    ),
                    ..contract.messages
                },
                events: contract.events.push(
                    InheritanceEventView::MessageUnlocked(
                        MessageUnlockedEvent { vault_id, message_id, timestamp: now },
                    ),
                ),
                ..contract
            })
            &&& {
                let unlocked = contract.message_unlocked(now, message.vault_id, message_id);
                contract.message_accessed(now, message_id) == (InheritanceView {
                    events: unlocked.events.push(
                        InheritanceEventView::MessageAccessed(
                            MessageAccessedEvent {
                                vault_id: message.vault_id,
                                message_id,
                                timestamp: now,
                            },
                        ),
                    ),
                    ..unlocked
                })
            }
        }),
        contract.messages_unlocked(now, vault_id, ids, 0) == contract,
        contract.messages_unlocked(now, vault_id, ids, n + 1) == contract.messages_unlocked(
            now,
            vault_id,
            ids,
            n,
        ).message_unlocked(now, vault_id, ids[n]),
{
}

/// The key of a vault gets the next version, starting from one; those before it are
/// kept. It is announced, and all else stays.
pub proof fn law_rotating_keys(contract: InheritanceView, vault_id: u64, key_reference: Seq<u8>)
    ensures
        ({
            let before = contract.key_version(vault_id);
            let after = contract.key_rotated(vault_id, key_reference);
            let version = after.key_version(vault_id);
            &&& !contract.messages.key_versions.contains_key(vault_id) ==> before == 0
            &&& contract.messages.key_versions.contains_key(vault_id) ==> before
                == contract.messages.key_versions[vault_id]
            &&& before < 0xffff_ffff ==> version == before + 1
            &&& after.current_key(vault_id) == Some(key_reference)
            &&& after == (InheritanceView {
                messages: MessageBookView {
                    keys: contract.messages.keys.insert((vault_id, version), key_reference),
                    key_versions: contract.messages.key_versions.insert(vault_id, version),
                    ..contract.messages
                },
                events: contract.events.push(
                    InheritanceEventView::MessageKeyRotated(
                        MessageKeyRotatedEvent { vault_id, version },
                    ),
                ),
                ..contract
            })
        }),
{
}

/// A batch creates its messages one after the other, passes over those that cannot be
/// created, and gives out the ids of the others in their order. What is announced at
/// the end is how many were created, how many not, and the vault of the first.
pub proof fn law_message_batches(
    contract: InheritanceView,
    now: u64,
    creator: Address,
    batch: Seq<CreateLegacyMessageParamsView>,
    n: int,
)
    requires
        0 <= n < batch.len() <= 10,
    ensures
        ({
            let before = contract.batch_messages(now, creator, batch, n);
            let after = contract.batch_messages(now, creator, batch, n + 1);
            let ids = contract.batch_ids(now, creator, batch, n);
            let ids_after = contract.batch_ids(now, creator, batch, n + 1);
            let vault = contract.batch_vault(now, creator, batch, n);
            let vault_after = contract.batch_vault(now, creator, batch, n + 1);
            let fits = before.create_message_error(now, creator, batch[n]) is None;
            &&& contract.batch_messages(now, creator, batch, 0) == contract
            &&& contract.batch_ids(now, creator, batch, 0).len() == 0
            &&& contract.batch_vault(now, creator, batch, 0) == 0
            &&& fits ==> {
                &&& after == before.message_created(
                    now,
                    creator,
                    batch[n],
                    before.resolved_key(batch[n]),
                )
                &&& ids_after == ids.push(before.messages.next_id)
                &&& vault_after == if vault == 0 {
                    batch[n].vault_id
                } else {
                    vault
                }
            }
            &&& !fits ==> after == before && ids_after == ids && vault_after == vault
        }),
        ({
            let all = batch.len() as int;
            let after = contract.batch_messages_created(now, creator, batch);
            let last = contract.batch_messages(now, creator, batch, all);
            &&& after == (InheritanceView { events: after.events, ..last })
            &&& after.events.drop_last() == last.events
            &&& after.events.len() == last.events.len() + 1
            &&& {
                &&& after.events.last() matches InheritanceEventView::BatchMessagesCreated(event)
                &&& event.vault_id == contract.batch_vault(now, creator, batch, all)
                &&& event.success_count == contract.batch_ids(now, creator, batch, all).len()
                &&& event.success_count + event.fail_count == all
            }
        }),
{
    let all = batch.len() as int;
    lemma_few_ids(contract, now, creator, batch, all);
    let after = contract.batch_messages_created(now, creator, batch);
    assert(after.events.drop_last() =~= contract.batch_messages(now, creator, batch, all).events);
}

/// At most as many ids are given out as there are entries.
proof fn lemma_few_ids(
    contract: InheritanceView,
    now: u64,
    creator: Address,
    batch: Seq<CreateLegacyMessageParamsView>,
    n: int,
)
    requires
        0 <= n,
    ensures
        contract.batch_ids(now, creator, batch, n).len() <= n,
    decreases n,
{
    if n > 0 {
        lemma_few_ids(contract, now, creator, batch, n - 1);
    }
}

/// A batch holds at most ten messages.
pub proof fn law_limits()
    ensures
        BATCH_MESSAGE_LIMIT == 10,
{
}

/// Why a key is not rotated: every reason that is given holds.
pub proof fn law_reason_rotate_key(
    contract: InheritanceView,
    owner: Address,
    vault_id: u64,
    new_key_reference: Seq<u8>,
)
    ensures
        match contract.rotate_key_error(owner, vault_id, new_key_reference) {
            None => true,
            Some(InheritanceError::MissingRequiredField) => new_key_reference.len() == 0,
            Some(error) => contract.owner_error(vault_id, owner) == Some(error),
        },
{
}

/// Why a message is not created: every reason that is given holds.
pub proof fn law_reason_create_message(
    contract: InheritanceView,
    now: u64,
    creator: Address,
    params: CreateLegacyMessageParamsView,
)
    ensures
        match contract.create_message_error(now, creator, params) {
            None => true,
            Some(InheritanceError::InvalidClaimCode) => params.unlock_timestamp <= now,
            Some(error) => contract.owner_error(params.vault_id, creator) == Some(error),
        },
{
}

/// Why a message is not available to its creator: every reason that is given holds.
pub proof fn law_reason_creator(contract: InheritanceView, creator: Address, message_id: u64)
    ensures
        match contract.creator_error(creator, message_id) {
            None => true,
            Some(InheritanceError::PlanNotFound) =>
                !contract.messages.records.contains_key(message_id),
            Some(InheritanceError::Unauthorized) => contract.messages.records[message_id].creator
                != creator,
            Some(InheritanceError::WillAlreadyFinalized) =>
                contract.messages.records[message_id].is_finalized,
            Some(_) => false,
        },
{
}

/// Why a message is not updated: every reason that is given holds.
pub proof fn law_reason_update_message(contract: InheritanceView, creator: Address, message_id: u64)
    ensures
        match contract.update_message_error(creator, message_id) {
            None => true,
            Some(InheritanceError::AlreadyClaimed) =>
                contract.messages.records[message_id].is_unlocked,
            Some(error) => contract.creator_error(creator, message_id) == Some(error),
        },
{
}

/// Why a message is not shown: every reason that is given holds.
pub proof fn law_reason_access(
    contract: InheritanceView,
    now: u64,
    caller: Seq<u8>,
    message_id: u64,
)
    ensures
        ({
            let vault_id = contract.messages.records[message_id].vault_id;
            match contract.access_error(now, caller, message_id) {
                None => true,
                Some(InheritanceError::PlanNotFound) =>
                    !contract.messages.records.contains_key(message_id)
                    || !contract.plans.records.contains_key(vault_id),
                Some(InheritanceError::ClaimNotAllowedYet) => !contract.message_readable(now,
                    message_id),
                Some(InheritanceError::Unauthorized) =>
                    !email_listed(contract.plans.records[vault_id], hash_of(caller)),
                Some(_) => false,
            }
        }),
{
}

} // verus!
