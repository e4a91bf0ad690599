//! The integration table: one row per owner, found by owner id, with every
//! token sealed before it is stored and opened after it is read.
//!
//! The table lives in memory.  Every change is entered in a journal as the
//! one statement that durable storage is to run for it, so that whoever
//! keeps the table on disk writes what an operation changed and nothing
//! else.

use crate::db::encryption::{
    decrypt_token, encrypt_token, is_sealing_of, opened_blob, sealable, CipherError,
};
use crate::db::models::{
    IntegrationRecord, OneDriveAccessToken, OneDriveIntegration, OneDriveRefreshToken, Row,
};
use crate::time::Timestamp;
use vstd::prelude::*;

verus! {

/// Why a table operation did not go through.
#[derive(Clone, Copy, Debug, PartialEq, Eq, Structural)]
pub enum StoreError {
    /// A token could not be sealed or opened.
    Cipher(CipherError),
    /// The owner has no active row to update.
    IntegrationNotFound,
    /// The table cannot take another row.
    StoreUnavailable,
}

/// Whether `table` has a row for `owner`.
pub open spec fn has_owner(table: Seq<Row>, owner: i64) -> bool {
    exists|i: int| 0 <= i < table.len() && (#[trigger] table[i]).owner_id == owner
}

/// Where the row for `owner` stands in `table`.
pub open spec fn index_of(table: Seq<Row>, owner: i64) -> int {
    choose|i: int| 0 <= i < table.len() && (#[trigger] table[i]).owner_id == owner
}

/// The row for `owner`, active or not.
pub open spec fn row_of(table: Seq<Row>, owner: i64) -> Option<Row> {
    if has_owner(table, owner) {
        Some(table[index_of(table, owner)])
    } else {
        None
    }
}

/// The row for `owner` where it is active.
pub open spec fn active_row(table: Seq<Row>, owner: i64) -> Option<Row> {
    match row_of(table, owner) {
        Some(row) => if row.is_active {
            Some(row)
        } else {
            None
        },
        None => None,
    }
}

/// No owner has two rows.
pub open spec fn distinct_owners(table: Seq<Row>) -> bool {
    forall|i: int, j: int|
        0 <= i < j < table.len() ==> (#[trigger] table[i]).owner_id != (#[trigger] table[j]).owner_id
}

/// How many rows `table` has for `owner`.
pub open spec fn rows_for(table: Seq<Row>, owner: i64) -> nat
    decreases table.len(),
{
    if table.len() == 0 {
        0
    } else {
        rows_for(table.drop_last(), owner) + if table.last().owner_id == owner {
            1nat
        } else {
            0nat
        }
    }
}

/// What holds of every table: owners are distinct, every row is well
/// formed, and every id in use lies below the next one to be given out.
pub open spec fn table_wf(table: Seq<Row>, next_id: int) -> bool {
    &&& distinct_owners(table)
    &&& forall|i: int| 0 <= i < table.len() ==> (#[trigger] table[i]).well_formed()
    &&& forall|i: int| 0 <= i < table.len() ==> (#[trigger] table[i]).id < next_id
    &&& 1 <= next_id <= i32::MAX + 1
}

/// Whether a refresh token for `owner` can be stored: the owner has a row
/// already, or an id is left for a new one.
pub open spec fn has_room(table: Seq<Row>, next_id: int, owner: i64) -> bool {
    has_owner(table, owner) || next_id <= i32::MAX
}

/// The table after a refresh token was stored for `owner`: the owner's row
/// takes the user and the blob, is active again and was updated `now`; an
/// owner without a row gets a new one, with the next id.
pub open spec fn with_refresh_token(
    table: Seq<Row>,
    next_id: int,
    owner: i64,
    user: i64,
    blob: Seq<char>,
    now: Timestamp,
) -> Seq<Row> {
    if has_owner(table, owner) {
        let i = index_of(table, owner);
        table.update(
            i,
            Row {
                user_id: user,
                encrypted_refresh_token: blob,
                is_active: true,
                updated_at: now,
                ..table[i]
            },
        )
    } else {
        table.push(
            Row {
                id: next_id as i32,
                owner_id: owner,
                user_id: user,
                encrypted_refresh_token: blob,
                encrypted_access_token: None,
                access_token_expires_at: None,
                is_active: true,
                created_at: now,
                updated_at: now,
            },
        )
    }
}

/// The id that the next new row gets, after a refresh token was stored for
/// `owner`.
pub open spec fn next_id_after(table: Seq<Row>, next_id: int, owner: i64) -> int {
    if has_owner(table, owner) {
        next_id
    } else {
        next_id + 1
    }
}

/// The table after an access token was stored for `owner`, who has a row.
pub open spec fn with_access_token(
    table: Seq<Row>,
    owner: i64,
    blob: Seq<char>,
    expires_at: Timestamp,
    now: Timestamp,
) -> Seq<Row> {
    let i = index_of(table, owner);
    table.update(
        i,
        Row {
            encrypted_access_token: Some(blob),
            access_token_expires_at: Some(expires_at),
            updated_at: now,
            ..table[i]
        },
    )
}

/// The table after the row of `owner`, who has one, was switched off.
pub open spec fn with_deactivated(table: Seq<Row>, owner: i64, now: Timestamp) -> Seq<Row> {
    let i = index_of(table, owner);
    table.update(i, Row { is_active: false, updated_at: now, ..table[i] })
}

/// One change of the table, as durable storage is to make it: a single
/// statement that touches the columns named here and no others.
#[derive(Debug)]
pub enum StoreWrite {
    /// Insert the owner's row, or on conflict set user, refresh token and
    /// update time and switch the row on.
    RefreshToken { owner_id: i64, user_id: i64, encrypted_refresh_token: String, at: Timestamp },
    /// Set access token, expiry and update time in the owner's active row.
    AccessToken {
        owner_id: i64,
        encrypted_access_token: String,
        expires_at: Timestamp,
        at: Timestamp,
    },
    /// Switch the owner's active row off and set its update time.
    Deactivation { owner_id: i64, at: Timestamp },
}

/// A [`StoreWrite`] as a mathematical value.
pub enum Change {
    RefreshToken { owner_id: i64, user_id: i64, encrypted_refresh_token: Seq<char>, at: Timestamp },
    AccessToken {
        owner_id: i64,
        encrypted_access_token: Seq<char>,
        expires_at: Timestamp,
        at: Timestamp,
    },
    Deactivation { owner_id: i64, at: Timestamp },
}

impl View for StoreWrite {
    type V = Change;

    open spec fn view(&self) -> Change {
        match self {
            StoreWrite::RefreshToken { owner_id, user_id, encrypted_refresh_token, at } => {
                Change::RefreshToken {
                    owner_id: *owner_id,
                    user_id: *user_id,
                    encrypted_refresh_token: encrypted_refresh_token@,
                    at: *at,
                }
            },
            StoreWrite::AccessToken { owner_id, encrypted_access_token, expires_at, at } => {
                Change::AccessToken {
                    owner_id: *owner_id,
                    encrypted_access_token: encrypted_access_token@,
                    expires_at: *expires_at,
                    at: *at,
                }
            },
            StoreWrite::Deactivation { owner_id, at } => Change::Deactivation {
                owner_id: *owner_id,
                at: *at,
            },
        }
    }
}

/// The changes that a sequence of writes stands for.
pub open spec fn changes_of(writes: Seq<StoreWrite>) -> Seq<Change> {
    writes.map_values(|w: StoreWrite| w@)
}

/// A table with the id that its next new row gets.
pub struct Snapshot {
    pub table: Seq<Row>,
    pub next_id: int,
}

/// The snapshot after one change.
pub open spec fn applied(before: Snapshot, change: Change) -> Snapshot {
    match change {
        Change::RefreshToken { owner_id, user_id, encrypted_refresh_token, at } => Snapshot {
            table: with_refresh_token(
                before.table,
                before.next_id,
                owner_id,
                user_id,
                encrypted_refresh_token,
                at,
            ),
            next_id: next_id_after(before.table, before.next_id, owner_id),
        },
        Change::AccessToken { owner_id, encrypted_access_token, expires_at, at } => Snapshot {
            table: with_access_token(before.table, owner_id, encrypted_access_token, expires_at, at),
            next_id: before.next_id,
        },
        Change::Deactivation { owner_id, at } => Snapshot {
            table: with_deactivated(before.table, owner_id, at),
            next_id: before.next_id,
        },
    }
}

/// The snapshot after a sequence of changes, made in order.
pub open spec fn replayed(before: Snapshot, changes: Seq<Change>) -> Snapshot
    decreases changes.len(),
{
    if changes.len() == 0 {
        before
    } else {
        applied(replayed(before, changes.drop_last()), changes.last())
    }
}

/// What a read of the cached access token of `owner` gives at `now`: the
/// opened token and its expiry where the owner's active row holds a token
/// that expires strictly after `now`, nothing where it does not, and the
/// cipher's error where the stored blob does not open.
pub open spec fn cached_access_token(
    table: Seq<Row>,
    owner: i64,
    secret: Seq<char>,
    now: Timestamp,
) -> Result<Option<(Seq<char>, Timestamp)>, CipherError> {
    match active_row(table, owner) {
        Some(row) => match (row.encrypted_access_token, row.access_token_expires_at) {
            (Some(blob), Some(expires_at)) => if expires_at.is_after(now) {
                match opened_blob(blob, secret) {
                    Ok(token) => Ok(Some((token, expires_at))),
                    Err(e) => Err(e),
                }
            } else {
                Ok(None)
            },
            _ => Ok(None),
        },
        None => Ok(None),
    }
}

/// What a read of the refresh token of `owner` gives.
pub open spec fn stored_refresh_token(table: Seq<Row>, owner: i64, secret: Seq<char>) -> Result<
    Option<Seq<char>>,
    CipherError,
> {
    match active_row(table, owner) {
        Some(row) => match opened_blob(row.encrypted_refresh_token, secret) {
            Ok(token) => Ok(Some(token)),
            Err(e) => Err(e),
        },
        None => Ok(None),
    }
}

/// In a table with distinct owners, a row that belongs to `owner` is the
/// row of `owner`.
pub proof fn lemma_row_found(table: Seq<Row>, owner: i64, i: int)
    requires
        distinct_owners(table),
        0 <= i < table.len(),
        table[i].owner_id == owner,
    ensures
        has_owner(table, owner),
        index_of(table, owner) == i,
        row_of(table, owner) == Some(table[i]),
{
    let j = index_of(table, owner);
    assert(0 <= j < table.len() && table[j].owner_id == owner);
    if j < i {
        assert(table[j].owner_id != table[i].owner_id);
    } else if i < j {
        assert(table[i].owner_id != table[j].owner_id);
    }
}

/// A table with distinct owners has one row for an owner it knows and none
/// for any other.
pub proof fn lemma_rows_for(table: Seq<Row>, owner: i64)
    requires
        distinct_owners(table),
    ensures
        rows_for(table, owner) == if has_owner(table, owner) {
            1nat
        } else {
            0nat
        },
    decreases table.len(),
{
    if table.len() > 0 {
        let rest = table.drop_last();
        let last = table.len() - 1;
        assert forall|a: int, b: int| 0 <= a < b < rest.len() implies (#[trigger] rest[a]).owner_id
            != (#[trigger] rest[b]).owner_id by {
            assert(table[a].owner_id != table[b].owner_id);
        }
        lemma_rows_for(rest, owner);
        if has_owner(rest, owner) {
            let i = index_of(rest, owner);
            assert(table[i] == rest[i]);
            assert(table[i].owner_id != table[last].owner_id);
        } else if table[last].owner_id != owner {
            if has_owner(table, owner) {
                let i = index_of(table, owner);
                assert(rest[i] == table[i]);
            }
        }
    }
}

/// Storing a refresh token keeps the table's invariant, and afterwards the
/// owner's row is active and holds the user and the blob.
pub proof fn lemma_refresh_token_stored(
    table: Seq<Row>,
    next_id: int,
    owner: i64,
    user: i64,
    blob: Seq<char>,
    now: Timestamp,
)
    requires
        table_wf(table, next_id),
        has_room(table, next_id, owner),
    ensures
        table_wf(
            with_refresh_token(table, next_id, owner, user, blob, now),
            next_id_after(table, next_id, owner),
        ),
        active_row(with_refresh_token(table, next_id, owner, user, blob, now), owner) matches Some(
            row,
        ) && row.user_id == user && row.encrypted_refresh_token == blob,
{
    let after = with_refresh_token(table, next_id, owner, user, blob, now);
    if has_owner(table, owner) {
        let i = index_of(table, owner);
        lemma_update_keeps_wf(table, next_id, i, after[i]);
        lemma_row_found(after, owner, i);
    } else {
        let last = table.len() as int;
        assert forall|a: int, b: int| 0 <= a < b < after.len() implies (#[trigger] after[a]).owner_id
            != (#[trigger] after[b]).owner_id by {
            if b < last {
                assert(table[a].owner_id != table[b].owner_id);
            } else {
                assert(table[a].owner_id != owner);
            }
        }
        assert forall|a: int| 0 <= a < after.len() implies (#[trigger] after[a]).well_formed() by {
            if a < last {
                assert(table[a].well_formed());
            }
        }
        assert forall|a: int| 0 <= a < after.len() implies (#[trigger] after[a]).id < next_id
            + 1 by {
            if a < last {
                assert(table[a].id < next_id);
            }
        }
        lemma_row_found(after, owner, last);
    }
}

/// Redelivery is harmless: after the same owner's refresh token was stored
/// twice, the table has exactly one row for that owner, as many rows as
/// after the first time, and the row is active and holds what the second
/// delivery brought.
pub proof fn lemma_redelivery_supersedes(
    table: Seq<Row>,
    next_id: int,
    owner: i64,
    first_user: i64,
    first_blob: Seq<char>,
    first_now: Timestamp,
    second_user: i64,
    second_blob: Seq<char>,
    second_now: Timestamp,
)
    requires
        table_wf(table, next_id),
        has_room(table, next_id, owner),
    ensures
        ({
            let once = with_refresh_token(table, next_id, owner, first_user, first_blob, first_now);
            let twice = with_refresh_token(
                once,
                next_id_after(table, next_id, owner),
                owner,
                second_user,
                second_blob,
                second_now,
            );
            &&& rows_for(once, owner) == 1
            &&& rows_for(twice, owner) == 1
            &&& twice.len() == once.len()
            &&& active_row(twice, owner) matches Some(row) && row.user_id == second_user
                && row.encrypted_refresh_token == second_blob
        }),
{
    let once = with_refresh_token(table, next_id, owner, first_user, first_blob, first_now);
    let mid_id = next_id_after(table, next_id, owner);
    lemma_refresh_token_stored(table, next_id, owner, first_user, first_blob, first_now);
    lemma_rows_for(once, owner);
    lemma_refresh_token_stored(once, mid_id, owner, second_user, second_blob, second_now);
    let twice = with_refresh_token(once, mid_id, owner, second_user, second_blob, second_now);
    lemma_rows_for(twice, owner);
}

/// Operations are scoped to one owner: storing a refresh token, storing an
/// access token or switching off the integration of `owner` leaves the row
/// of every other owner as it was.
pub proof fn lemma_other_owners_untouched(
    table: Seq<Row>,
    next_id: int,
    owner: i64,
    other: i64,
    user: i64,
    blob: Seq<char>,
    expires_at: Timestamp,
    now: Timestamp,
)
    requires
        table_wf(table, next_id),
        other != owner,
    ensures
        row_of(with_refresh_token(table, next_id, owner, user, blob, now), other) == row_of(
            table,
            other,
        ),
        has_owner(table, owner) ==> row_of(
            with_access_token(table, owner, blob, expires_at, now),
            other,
        ) == row_of(table, other),
        has_owner(table, owner) ==> row_of(with_deactivated(table, owner, now), other) == row_of(
            table,
            other,
        ),
{
    let stored = with_refresh_token(table, next_id, owner, user, blob, now);
    lemma_same_owners_same_rows(table, stored, owner, other);
    if has_owner(table, owner) {
        lemma_same_owners_same_rows(
            table,
            with_access_token(table, owner, blob, expires_at, now),
            owner,
            other,
        );
        lemma_same_owners_same_rows(table, with_deactivated(table, owner, now), owner, other);
    }
}

/// Where `after` is `before` with the row of `owner` replaced by one of
/// the same owner, or with a row for `owner` appended, the row of any
/// other owner is the same in both.
proof fn lemma_same_owners_same_rows(before: Seq<Row>, after: Seq<Row>, owner: i64, other: i64)
    requires
        distinct_owners(before),
        other != owner,
        before.len() <= after.len() <= before.len() + 1,
        forall|i: int|
            0 <= i < before.len() ==> (#[trigger] after[i]).owner_id == before[i].owner_id,
        forall|i: int|
            0 <= i < before.len() && before[i].owner_id != owner ==> (#[trigger] after[i])
                == before[i],
        after.len() > before.len() ==> after[before.len() as int].owner_id == owner,
        after.len() > before.len() ==> !has_owner(before, owner),
    ensures
        row_of(after, other) == row_of(before, other),
{
    assert forall|a: int, b: int| 0 <= a < b < after.len() implies (#[trigger] after[a]).owner_id
        != (#[trigger] after[b]).owner_id by {
        if b < before.len() {
            assert(before[a].owner_id != before[b].owner_id);
        } else {
            assert(before[a].owner_id != owner);
        }
    }
    if has_owner(before, other) {
        let i = index_of(before, other);
        assert(after[i] == before[i]);
        lemma_row_found(after, other, i);
    } else if has_owner(after, other) {
        let i = index_of(after, other);
        if i < before.len() {
            assert(before[i].owner_id == other);
        }
    }
}

/// Replaying a journal with one more change is replaying the journal and
/// then making the change.
proof fn lemma_replay_push(base: Snapshot, changes: Seq<Change>, change: Change)
    ensures
        replayed(base, changes.push(change)) == applied(replayed(base, changes), change),
{
    assert(changes.push(change).drop_last() == changes);
}

/// What was entered in a journal after a given point, made in order on
/// the table as it was at that point, gives the table as it is: replaying
/// a journal is replaying any front part of it and then the rest.
pub proof fn lemma_replay_from(base: Snapshot, earlier: Seq<Change>, whole: Seq<Change>)
    requires
        earlier.is_prefix_of(whole),
    ensures
        replayed(base, whole) == replayed(
            replayed(base, earlier),
            whole.subrange(earlier.len() as int, whole.len() as int),
        ),
    decreases whole.len(),
{
    let rest = whole.subrange(earlier.len() as int, whole.len() as int);
    if earlier.len() == whole.len() {
        assert(earlier == whole);
    } else {
        assert(earlier.is_prefix_of(whole.drop_last()));
        lemma_replay_from(base, earlier, whole.drop_last());
        assert(rest.drop_last() == whole.drop_last().subrange(
            earlier.len() as int,
            whole.len() - 1,
        ));
        assert(rest.last() == whole.last());
    }
}

/// Replacing a row by one of the same owner and id keeps the invariant.
proof fn lemma_update_keeps_wf(table: Seq<Row>, next_id: int, i: int, row: Row)
    requires
        table_wf(table, next_id),
        0 <= i < table.len(),
        row.owner_id == table[i].owner_id,
        row.id == table[i].id,
        row.well_formed(),
    ensures
        table_wf(table.update(i, row), next_id),
{
    let after = table.update(i, row);
    assert forall|a: int, b: int| 0 <= a < b < after.len() implies (#[trigger] after[a]).owner_id
        != (#[trigger] after[b]).owner_id by {
        assert(table[a].owner_id != table[b].owner_id);
    }
    assert forall|a: int| 0 <= a < after.len() implies (#[trigger] after[a]).well_formed() by {
        if a != i {
            assert(table[a].well_formed());
        }
    }
    assert forall|a: int| 0 <= a < after.len() implies (#[trigger] after[a]).id < next_id by {
        assert(table[a].id < next_id);
    }
}

/// The integration table.
pub struct TokenStore {
    records: Vec<IntegrationRecord>,
    next_id: i64,
    journal: Vec<StoreWrite>,
    base: Ghost<Snapshot>,
}

/// The rows that a sequence of records stands for.
pub open spec fn rows_of(records: Seq<IntegrationRecord>) -> Seq<Row> {
    records.map_values(|r: IntegrationRecord| r@)
}

/// Whether rows read back from durable storage make a table: owners are
/// distinct and every row is well formed.
pub open spec fn restorable(table: Seq<Row>) -> bool {
    &&& distinct_owners(table)
    &&& forall|i: int| 0 <= i < table.len() ==> (#[trigger] table[i]).well_formed()
}

/// The least id, from 1 up, that lies above every id in `table`.
pub open spec fn first_free_id(table: Seq<Row>) -> int
    decreases table.len(),
{
    if table.len() == 0 {
        1
    } else {
        let rest = first_free_id(table.drop_last());
        if table.last().id >= rest {
            table.last().id + 1
        } else {
            rest
        }
    }
}

impl View for TokenStore {
    type V = Seq<Row>;

    closed spec fn view(&self) -> Seq<Row> {
        rows_of(self.records@)
    }
}

impl TokenStore {
    /// The id that the next new row gets.
    pub closed spec fn next_id(&self) -> int {
        self.next_id as int
    }

    /// The table and its next id, as one value.
    pub open spec fn snapshot(&self) -> Snapshot {
        Snapshot { table: self@, next_id: self.next_id() }
    }

    /// The changes that were made since the journal was last taken, oldest
    /// first.
    pub closed spec fn journal(&self) -> Seq<Change> {
        changes_of(self.journal@)
    }

    /// The table as it was when the journal was last taken.
    pub closed spec fn base(&self) -> Snapshot {
        self.base@
    }

    /// The table's invariant: the rows make a table, and the journal,
    /// replayed on the table as it was when the journal was last taken,
    /// gives the table as it is.
    pub open spec fn wf(&self) -> bool {
        &&& table_wf(self@, self.next_id())
        &&& self.snapshot() == replayed(self.base(), self.journal())
    }

    /// An empty table.
    pub fn new() -> (store: TokenStore)
        ensures
            store.wf(),
            store@ == Seq::<Row>::empty(),
            store.next_id() == 1,
            store.journal() == Seq::<Change>::empty(),
    {
        let store = TokenStore {
            records: Vec::new(),
            next_id: 1,
            journal: Vec::new(),
            base: Ghost(Snapshot { table: Seq::empty(), next_id: 1 }),
        };
        assert(store@ =~= Seq::<Row>::empty());
        assert(store.journal() =~= Seq::<Change>::empty());
        store
    }

    /// Hands out the journal and starts a new one.  The table is as
    /// before; what is handed out, made in order on durable storage that
    /// held the table as it was when the journal was last taken, brings
    /// that storage to the table as it is.
    pub fn take_writes(&mut self) -> (writes: Vec<StoreWrite>)
        requires
            old(self).wf(),
        ensures
            final(self).wf(),
            final(self)@ == old(self)@,
            final(self).next_id() == old(self).next_id(),
            changes_of(writes@) == old(self).journal(),
            old(self).snapshot() == replayed(old(self).base(), changes_of(writes@)),
            final(self).journal() == Seq::<Change>::empty(),
            final(self).base() == final(self).snapshot(),
    {
        let mut writes: Vec<StoreWrite> = Vec::new();
        std::mem::swap(&mut self.journal, &mut writes);
        self.base = Ghost(self.snapshot());
        assert(self.journal() =~= Seq::<Change>::empty());
        writes
    }

    /// The table that holds `records`, as read back from durable storage.
    /// `None` exactly where two of them share an owner or one holds an
    /// access token without an expiry, or an expiry without a token.
    pub fn from_records(records: Vec<IntegrationRecord>) -> (r: Option<TokenStore>)
        ensures
            r is Some <==> restorable(rows_of(records@)),
            r matches Some(store) ==> {
                &&& store.wf()
                &&& store@ == rows_of(records@)
                &&& store.next_id() == first_free_id(store@)
                &&& store.journal() == Seq::<Change>::empty()
            },
    {
        let ghost rows = rows_of(records@);
        let mut next_id: i64 = 1;
        let mut i: usize = 0;
        while i < records.len()
            invariant
                0 <= i <= records.len(),
                rows == rows_of(records@),
                rows.len() == records@.len(),
                restorable(rows.subrange(0, i as int)),
                next_id == first_free_id(rows.subrange(0, i as int)),
                1 <= next_id <= i32::MAX + 1,
                forall|k: int| 0 <= k < i ==> (#[trigger] rows[k]).id < next_id,
            decreases records.len() - i,
        {
            let ghost seen = rows.subrange(0, i as int);
            let ghost grown = rows.subrange(0, i + 1);
            assert(grown.drop_last() == seen);
            assert(grown.last() == rows[i as int]);
            assert(rows[i as int] == records@[i as int]@);
            if records[i].encrypted_access_token.is_some()
                != records[i].access_token_expires_at.is_some() {
                assert(!rows[i as int].well_formed());
                return None;
            }
            let mut j: usize = 0;
            while j < i
                invariant
                    0 <= j <= i < records.len(),
                    rows == rows_of(records@),
                    rows.len() == records@.len(),
                    forall|k: int| 0 <= k < j ==> (#[trigger] rows[k]).owner_id != rows[i as int].owner_id,
                decreases i - j,
            {
                assert(rows[j as int] == records@[j as int]@);
                assert(rows[i as int] == records@[i as int]@);
                if records[j].owner_id == records[i].owner_id {
                    assert(rows[j as int].owner_id == rows[i as int].owner_id);
                    return None;
                }
                j += 1;
            }
            if records[i].id as i64 >= next_id {
                next_id = records[i].id as i64 + 1;
            }
            proof {
                assert forall|a: int, b: int| 0 <= a < b < grown.len() implies (#[trigger] grown[a]).owner_id
                    != (#[trigger] grown[b]).owner_id by {
                    if b < i {
                        assert(seen[a].owner_id != seen[b].owner_id);
                    } else {
                        assert(rows[a].owner_id != rows[i as int].owner_id);
                    }
                }
                assert forall|a: int| 0 <= a < grown.len() implies (#[trigger] grown[a]).well_formed() by {
                    if a < i {
                        assert(seen[a].well_formed());
                    }
                }
            }
            i += 1;
        }
        assert(rows.subrange(0, i as int) == rows);
        let store = TokenStore {
            records,
            next_id,
            journal: Vec::new(),
            base: Ghost(Snapshot { table: rows, next_id: next_id as int }),
        };
        assert(store.journal() =~= Seq::<Change>::empty());
        Some(store)
    }

    /// Number of rows.
    pub fn len(&self) -> (n: usize)
        ensures
            n == self@.len(),
    {
        self.records.len()
    }

    /// Enters a change in the journal.
    fn log(&mut self, write: StoreWrite)
        ensures
            final(self)@ == old(self)@,
            final(self).next_id() == old(self).next_id(),
            final(self).base() == old(self).base(),
            final(self).journal() == old(self).journal().push(write@),
            replayed(final(self).base(), final(self).journal()) == applied(
                replayed(old(self).base(), old(self).journal()),
                write@,
            ),
    {
        self.journal.push(write);
        proof {
            assert(self.journal() =~= old(self).journal().push(write@));
            lemma_replay_push(self.base(), old(self).journal(), write@);
        }
    }

    /// Where the row of `owner_id` stands.
    fn position(&self, owner_id: i64) -> (r: Option<usize>)
        requires
            self.wf(),
        ensures
            match r {
                Some(i) => {
                    &&& i < self@.len()
                    &&& self@[i as int] == self.records@[i as int]@
                    &&& has_owner(self@, owner_id)
                    &&& index_of(self@, owner_id) == i
                },
                None => !has_owner(self@, owner_id),
            },
    {
        let mut i: usize = 0;
        while i < self.records.len()
            invariant
                0 <= i <= self.records.len(),
                self.wf(),
                self@.len() == self.records@.len(),
                forall|j: int| 0 <= j < i ==> (#[trigger] self@[j]).owner_id != owner_id,
            decreases self.records.len() - i,
        {
            if self.records[i].owner_id == owner_id {
                proof {
                    lemma_row_found(self@, owner_id, i as int);
                }
                return Some(i);
            }
            i += 1;
        }
        None
    }

    /// Stores a sealed refresh token for `owner_id`: the owner's row takes
    /// the user and the blob and is active again; an owner without a row
    /// gets one.  This alone creates rows.  It fails, and changes nothing,
    /// exactly where a row would have to be created and no id is left.
    pub fn put_refresh_token(
        &mut self,
        owner_id: i64,
        user_id: i64,
        blob: String,
        now: Timestamp,
    ) -> (r: Result<OneDriveIntegration, StoreError>)
        requires
            old(self).wf(),
        ensures
            final(self).wf(),
            r is Ok <==> has_room(old(self)@, old(self).next_id(), owner_id),
            match r {
                Ok(meta) => {
                    &&& final(self)@ == with_refresh_token(
                        old(self)@,
                        old(self).next_id(),
                        owner_id,
                        user_id,
                        blob@,
                        now,
                    )
                    &&& final(self).next_id() == next_id_after(
                        old(self)@,
                        old(self).next_id(),
                        owner_id,
                    )
                    &&& active_row(final(self)@, owner_id) matches Some(row) && {
                        &&& row.encrypted_refresh_token == blob@
                        &&& row.user_id == user_id
                        &&& meta == row.metadata()
                    }
                    &&& final(self).journal() == old(self).journal().push(
                        Change::RefreshToken {
                            owner_id,
                            user_id,
                            encrypted_refresh_token: blob@,
                            at: now,
                        },
                    )
                },
                Err(e) => {
                    &&& e == StoreError::StoreUnavailable
                    &&& final(self)@ == old(self)@
                    &&& final(self).next_id() == old(self).next_id()
                    &&& final(self).journal() == old(self).journal()
                },
            },
            final(self).base() == old(self).base(),
    {
        let write = StoreWrite::RefreshToken {
            owner_id,
            user_id,
            encrypted_refresh_token: blob.clone(),
            at: now,
        };
        match self.position(owner_id) {
            Some(i) => {
                let ghost before = self@;
                self.records[i].user_id = user_id;
                self.records[i].encrypted_refresh_token = blob;
                self.records[i].is_active = true;
                self.records[i].updated_at = now;
                let meta = self.records[i].metadata();
                proof {
                    assert(self@ =~= with_refresh_token(
                        before,
                        self.next_id(),
                        owner_id,
                        user_id,
                        blob@,
                        now,
                    ));
                    lemma_update_keeps_wf(before, self.next_id(), i as int, self@[i as int]);
                    lemma_row_found(self@, owner_id, i as int);
                }
                self.log(write);
                Ok(meta)
            },
            None => {
                if self.next_id > 0x7fff_ffff {
                    return Err(StoreError::StoreUnavailable);
                }
                let ghost before = self@;
                let record = IntegrationRecord {
                    id: self.next_id as i32,
                    owner_id,
                    user_id,
                    encrypted_refresh_token: blob,
                    encrypted_access_token: None,
                    access_token_expires_at: None,
                    is_active: true,
                    created_at: now,
                    updated_at: now,
                };
                let meta = record.metadata();
                self.records.push(record);
                self.next_id = self.next_id + 1;
                proof {
                    assert(self@ =~= before.push(record@));
                    lemma_row_found(self@, owner_id, before.len() as int);
                }
                self.log(write);
                Ok(meta)
            },
        }
    }

    /// Stores a sealed access token and its expiry in the active row of
    /// `owner_id`.  It fails, and changes nothing, exactly where the owner
    /// has no active row.
    pub fn put_access_token(
        &mut self,
        owner_id: i64,
        blob: String,
        expires_at: Timestamp,
        now: Timestamp,
    ) -> (r: Result<OneDriveIntegration, StoreError>)
        requires
            old(self).wf(),
        ensures
            final(self).wf(),
            final(self).next_id() == old(self).next_id(),
            r is Ok <==> active_row(old(self)@, owner_id) is Some,
            match r {
                Ok(meta) => {
                    &&& final(self)@ == with_access_token(
                        old(self)@,
                        owner_id,
                        blob@,
                        expires_at,
                        now,
                    )
                    &&& active_row(final(self)@, owner_id) matches Some(row) && {
                        &&& row.encrypted_access_token == Some(blob@)
                        &&& row.access_token_expires_at == Some(expires_at)
                        &&& meta == row.metadata()
                    }
                    &&& final(self).journal() == old(self).journal().push(
                        Change::AccessToken {
                            owner_id,
                            encrypted_access_token: blob@,
                            expires_at,
                            at: now,
                        },
                    )
                },
                Err(e) => {
                    &&& e == StoreError::IntegrationNotFound
                    &&& final(self)@ == old(self)@
                    &&& final(self).journal() == old(self).journal()
                },
            },
            final(self).base() == old(self).base(),
    {
        let write = StoreWrite::AccessToken {
            owner_id,
            encrypted_access_token: blob.clone(),
            expires_at,
            at: now,
        };
        match self.position(owner_id) {
            Some(i) => {
                if !self.records[i].is_active {
                    return Err(StoreError::IntegrationNotFound);
                }
                let ghost before = self@;
                self.records[i].encrypted_access_token = Some(blob);
                self.records[i].access_token_expires_at = Some(expires_at);
                self.records[i].updated_at = now;
                let meta = self.records[i].metadata();
                proof {
                    assert(self@ =~= with_access_token(before, owner_id, blob@, expires_at, now));
                    lemma_update_keeps_wf(before, self.next_id(), i as int, self@[i as int]);
                    lemma_row_found(self@, owner_id, i as int);
                }
                self.log(write);
                Ok(meta)
            },
            None => Err(StoreError::IntegrationNotFound),
        }
    }

    /// Switches the active row of `owner_id` off.  Returns whether there
    /// was one; where there was none, nothing changes.
    pub fn deactivate(&mut self, owner_id: i64, now: Timestamp) -> (affected: bool)
        requires
            old(self).wf(),
        ensures
            final(self).wf(),
            final(self).next_id() == old(self).next_id(),
            affected == (active_row(old(self)@, owner_id) is Some),
            affected ==> final(self)@ == with_deactivated(old(self)@, owner_id, now),
            !affected ==> final(self)@ == old(self)@,
            active_row(final(self)@, owner_id) is None,
            final(self).base() == old(self).base(),
            final(self).journal() == if affected {
                old(self).journal().push(Change::Deactivation { owner_id, at: now })
            } else {
                old(self).journal()
            },
    {
        match self.position(owner_id) {
            Some(i) => {
                if !self.records[i].is_active {
                    return false;
                }
                let ghost before = self@;
                self.records[i].is_active = false;
                self.records[i].updated_at = now;
                proof {
                    assert(self@ =~= with_deactivated(before, owner_id, now));
                    lemma_update_keeps_wf(before, self.next_id(), i as int, self@[i as int]);
                    lemma_row_found(self@, owner_id, i as int);
                }
                self.log(StoreWrite::Deactivation { owner_id, at: now });
                true
            },
            None => false,
        }
    }

    /// The row of `owner_id`, active or not, as it is stored.
    pub fn record(&self, owner_id: i64) -> (r: Option<&IntegrationRecord>)
        requires
            self.wf(),
        ensures
            match r {
                Some(record) => row_of(self@, owner_id) == Some(record@),
                None => row_of(self@, owner_id) is None,
            },
    {
        match self.position(owner_id) {
            Some(i) => Some(&self.records[i]),
            None => None,
        }
    }
}

/// Metadata of the active integration of `owner_id`; no token is touched.
pub fn get_integration(store: &TokenStore, owner_id: i64) -> (r: Option<OneDriveIntegration>)
    requires
        store.wf(),
    ensures
        match active_row(store@, owner_id) {
            Some(row) => r == Some(row.metadata()),
            None => r is None,
        },
{
    match store.record(owner_id) {
        Some(record) => if record.is_active {
            Some(record.metadata())
        } else {
            None
        },
        None => None,
    }
}

/// The refresh token of the active integration of `owner_id`, opened.
pub fn get_refresh_token(store: &TokenStore, owner_id: i64, encryption_key: &str) -> (r: Result<
    Option<OneDriveRefreshToken>,
    StoreError,
>)
    requires
        store.wf(),
    ensures
        match stored_refresh_token(store@, owner_id, encryption_key@) {
            Ok(Some(token)) => r matches Ok(Some(found)) && found.refresh_token@ == token,
            Ok(None) => r matches Ok(None),
            Err(e) => r matches Err(err) && err == StoreError::Cipher(e),
        },
{
    match store.record(owner_id) {
        Some(record) => {
            if !record.is_active {
                return Ok(None);
            }
            match decrypt_token(record.encrypted_refresh_token.as_str(), encryption_key) {
                Ok(refresh_token) => Ok(Some(OneDriveRefreshToken { refresh_token })),
                Err(e) => Err(StoreError::Cipher(e)),
            }
        },
        None => Ok(None),
    }
}

/// The cached access token of `owner_id`, opened, where the active
/// integration holds one that expires strictly after `now`.  An expired or
/// missing token is no error: the answer is `None`.
pub fn get_access_token(
    store: &TokenStore,
    owner_id: i64,
    encryption_key: &str,
    now: Timestamp,
) -> (r: Result<Option<OneDriveAccessToken>, StoreError>)
    requires
        store.wf(),
    ensures
        match cached_access_token(store@, owner_id, encryption_key@, now) {
            Ok(Some((token, expires_at))) => r matches Ok(Some(found)) && found.access_token@
                == token && found.expires_at == expires_at,
            Ok(None) => r matches Ok(None),
            Err(e) => r matches Err(err) && err == StoreError::Cipher(e),
        },
{
    match store.record(owner_id) {
        Some(record) => {
            if !record.is_active {
                return Ok(None);
            }
            match (&record.encrypted_access_token, record.access_token_expires_at) {
                (Some(blob), Some(expires_at)) => {
                    if !expires_at.later_than(&now) {
                        return Ok(None);
                    }
                    match decrypt_token(blob.as_str(), encryption_key) {
                        Ok(access_token) => Ok(Some(OneDriveAccessToken { access_token, expires_at })),
                        Err(e) => Err(StoreError::Cipher(e)),
                    }
                },
                _ => Ok(None),
            }
        },
        None => Ok(None),
    }
}

/// Seals `refresh_token` and stores it for `owner_id`, creating the
/// integration where the owner has none and reactivating it where it was
/// switched off.
///
/// On success the owner's row is active and holds a blob that opens to
/// `refresh_token`; the rest of the table is as before.  On failure
/// nothing changes.  A token that cannot be sealed, and a table that has
/// no room, always fail.
pub fn save_refresh_token(
    store: &mut TokenStore,
    owner_id: i64,
    user_id: i64,
    refresh_token: &str,
    encryption_key: &str,
    now: Timestamp,
) -> (r: Result<OneDriveIntegration, StoreError>)
    requires
        old(store).wf(),
    ensures
        final(store).wf(),
        match r {
            Ok(meta) => {
                &&& active_row(final(store)@, owner_id) matches Some(row) && {
                    &&& final(store)@ == with_refresh_token(
                        old(store)@,
                        old(store).next_id(),
                        owner_id,
                        user_id,
                        row.encrypted_refresh_token,
                        now,
                    )
                    &&& is_sealing_of(row.encrypted_refresh_token, refresh_token@, encryption_key@)
                    &&& stored_refresh_token(final(store)@, owner_id, encryption_key@) == Ok::<
                        Option<Seq<char>>,
                        CipherError,
                    >(Some(refresh_token@))
                    &&& row.user_id == user_id
                    &&& meta == row.metadata()
                    &&& final(store).journal() == old(store).journal().push(
                        Change::RefreshToken {
                            owner_id,
                            user_id,
                            encrypted_refresh_token: row.encrypted_refresh_token,
                            at: now,
                        },
                    )
                }
                &&& final(store).next_id() == next_id_after(
                    old(store)@,
                    old(store).next_id(),
                    owner_id,
                )
            },
            Err(e) => {
                &&& final(store)@ == old(store)@
                &&& final(store).next_id() == old(store).next_id()
                &&& final(store).journal() == old(store).journal()
                &&& {
                    ||| e == StoreError::Cipher(CipherError::NonceUnavailable)
                    ||| (e == StoreError::Cipher(CipherError::EncryptionFailed) && !sealable(
                        refresh_token@,
                    ))
                    ||| (e == StoreError::StoreUnavailable && !has_room(
                        old(store)@,
                        old(store).next_id(),
                        owner_id,
                    ))
                }
            },
        },
        !sealable(refresh_token@) ==> r is Err,
        !has_room(old(store)@, old(store).next_id(), owner_id) ==> r is Err,
        final(store).base() == old(store).base(),
{
    let encrypted_refresh_token = match encrypt_token(refresh_token, encryption_key) {
        Ok(blob) => blob,
        Err(e) => { return Err(StoreError::Cipher(e)); },
    };
    store.put_refresh_token(owner_id, user_id, encrypted_refresh_token, now)
}

/// Seals `access_token` and stores it with its expiry in the active
/// integration of `owner_id`.
///
/// On success the owner's row holds a blob that opens to `access_token`
/// and the given expiry; the rest of the table is as before.  On failure
/// nothing changes.  An owner without an active integration, and a token
/// that cannot be sealed, always fail.
pub fn save_access_token(
    store: &mut TokenStore,
    owner_id: i64,
    access_token: &str,
    expires_at: Timestamp,
    encryption_key: &str,
    now: Timestamp,
) -> (r: Result<OneDriveIntegration, StoreError>)
    requires
        old(store).wf(),
    ensures
        final(store).wf(),
        final(store).next_id() == old(store).next_id(),
        match r {
            Ok(meta) => {
                &&& active_row(old(store)@, owner_id) is Some
                &&& active_row(final(store)@, owner_id) matches Some(row) && {
                    &&& row.encrypted_access_token matches Some(blob) && {
                        &&& final(store)@ == with_access_token(
                            old(store)@,
                            owner_id,
                            blob,
                            expires_at,
                            now,
                        )
                        &&& is_sealing_of(blob, access_token@, encryption_key@)
                        &&& opened_blob(blob, encryption_key@) == Ok::<Seq<char>, CipherError>(
                            access_token@,
                        )
                        &&& final(store).journal() == old(store).journal().push(
                            Change::AccessToken {
                                owner_id,
                                encrypted_access_token: blob,
                                expires_at,
                                at: now,
                            },
                        )
                    }
                    &&& row.access_token_expires_at == Some(expires_at)
                    &&& meta == row.metadata()
                }
            },
            Err(e) => {
                &&& final(store)@ == old(store)@
                &&& final(store).journal() == old(store).journal()
                &&& {
                    ||| e == StoreError::Cipher(CipherError::NonceUnavailable)
                    ||| (e == StoreError::Cipher(CipherError::EncryptionFailed) && !sealable(
                        access_token@,
                    ))
                    ||| (e == StoreError::IntegrationNotFound && active_row(
                        old(store)@,
                        owner_id,
                    ) is None)
                }
            },
        },
        !sealable(access_token@) ==> r is Err,
        active_row(old(store)@, owner_id) is None ==> r is Err,
        final(store).base() == old(store).base(),
{
    let encrypted_access_token = match encrypt_token(access_token, encryption_key) {
        Ok(blob) => blob,
        Err(e) => { return Err(StoreError::Cipher(e)); },
    };
    store.put_access_token(owner_id, encrypted_access_token, expires_at, now)
}

/// Switches the active integration of `owner_id` off and says whether
/// there was one.  A second call finds none and returns `false`.
pub fn deactivate_integration(store: &mut TokenStore, owner_id: i64, now: Timestamp) -> (affected:
    bool)
    requires
        old(store).wf(),
    ensures
        final(store).wf(),
        final(store).next_id() == old(store).next_id(),
        affected == (active_row(old(store)@, owner_id) is Some),
        affected ==> final(store)@ == with_deactivated(old(store)@, owner_id, now),
        !affected ==> final(store)@ == old(store)@,
        active_row(final(store)@, owner_id) is None,
        final(store).base() == old(store).base(),
        final(store).journal() == if affected {
            old(store).journal().push(Change::Deactivation { owner_id, at: now })
        } else {
            old(store).journal()
        },
{
    store.deactivate(owner_id, now)
}

} // verus!
