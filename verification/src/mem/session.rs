//! In-memory session store.

use vstd::prelude::*;
use crate::hashing::LookupKey;
use crate::secret::{SessionId, SubjectId};
use crate::store::session::{ActiveSessionRecord, SessionRecord};

verus! {

#[derive(Debug)]
struct MemSessionRow {
    id: SessionId,
    lookup_key: LookupKey,
    subject: SubjectId,
    created_at: u64,
    expires_at: u64,
    revoked_at: Option<u64>,
    last_seen_at: Option<u64>,
}

/// A stored session row as the contracts see it.
pub struct SessionRowView {
    /// Session record identifier.
    pub id: Seq<char>,
    /// Lookup key of the session secret.
    pub lookup_key: Seq<char>,
    /// Authenticated subject.
    pub subject: Seq<char>,
    /// Creation time.
    pub created_at: u64,
    /// Absolute expiry.
    pub expires_at: u64,
    /// Revocation time, if revoked.
    pub revoked_at: Option<u64>,
    /// Last-touched time, if ever touched.
    pub last_seen_at: Option<u64>,
}

spec fn row_view(r: MemSessionRow) -> SessionRowView {
    SessionRowView {
        id: r.id@,
        lookup_key: r.lookup_key@,
        subject: r.subject@,
        created_at: r.created_at,
        expires_at: r.expires_at,
        revoked_at: r.revoked_at,
        last_seen_at: r.last_seen_at,
    }
}

/// Whether a row is an active session for one of `candidates` at `now`:
/// unrevoked, unexpired, and answering to a candidate lookup key.
pub open spec fn is_active_match(row: SessionRowView, candidates: Seq<Seq<char>>, now: u64) -> bool {
    &&& row.revoked_at is None
    &&& row.expires_at > now
    &&& candidates.contains(row.lookup_key)
}

/// Non-production in-memory session store.
#[derive(Debug, Default)]
pub struct MemSessionStore {
    rows: Vec<MemSessionRow>,
}

fn key_in(k: &LookupKey, candidates: &[LookupKey]) -> (r: bool)
    ensures
        r == candidates@.map_values(|c: LookupKey| c@).contains(k@),
{
    let n = candidates.len();
    let ghost cv = candidates@.map_values(|c: LookupKey| c@);
    let mut i: usize = 0;
    while i < n
        invariant
            n == candidates@.len(),
            cv == candidates@.map_values(|c: LookupKey| c@),
            i <= n,
            forall|a: int| 0 <= a < i ==> cv[a] != k@,
        decreases n - i,
    {
        if k.ct_eq(&candidates[i]) {
            assert(cv[i as int] == k@);
            return true;
        }
        i = i + 1;
    }
    false
}

/// The rows after revoking `session_id` at `now`: each unrevoked row with
/// that identifier gets revocation time `now`; every other row is unchanged.
pub open spec fn after_revoke(rows: Seq<SessionRowView>, session_id: Seq<char>, now: u64) -> Seq<SessionRowView> {
    rows.map_values(
        |row: SessionRowView|
            if row.id == session_id && row.revoked_at is None {
                SessionRowView { revoked_at: Some(now), ..row }
            } else {
                row
            },
    )
}

/// The rows after touching `session_id` at `now`: each row with that
/// identifier gets last-seen time `now`.
pub open spec fn after_touch(rows: Seq<SessionRowView>, session_id: Seq<char>, now: u64) -> Seq<SessionRowView> {
    rows.map_values(
        |row: SessionRowView|
            if row.id == session_id {
                SessionRowView { last_seen_at: Some(now), ..row }
            } else {
                row
            },
    )
}

impl MemSessionStore {
    /// The stored rows, in insertion order.
    pub closed spec fn rows(&self) -> Seq<SessionRowView> {
        self.rows@.map_values(|r: MemSessionRow| row_view(r))
    }

    /// An empty store.
    pub fn new() -> (r: Self)
        ensures
            r.rows().len() == 0,
    {
        MemSessionStore { rows: Vec::new() }
    }

    /// The first row, in insertion order, that is an active session for one
    /// of `candidates` at `now`.
    pub fn find_active_session(&self, candidates: &[LookupKey], now: u64) -> (r: Option<ActiveSessionRecord>)
        ensures
            match r {
                Some(rec) => exists|i: int|
                    0 <= i < self.rows().len() && is_active_match(
                        #[trigger] self.rows()[i],
                        candidates@.map_values(|c: LookupKey| c@),
                        now,
                    ) && (forall|k: int| 0 <= k < i ==> !is_active_match(
                        #[trigger] self.rows()[k],
                        candidates@.map_values(|c: LookupKey| c@),
                        now,
                    )) && rec.id@ == self.rows()[i].id && rec.subject@ == self.rows()[i].subject
                        && rec.created_at == self.rows()[i].created_at && rec.expires_at
                        == self.rows()[i].expires_at && rec.last_seen_at == self.rows()[i].last_seen_at
                        && rec.revoked_at == self.rows()[i].revoked_at,
                None => forall|i: int|
                    0 <= i < self.rows().len() ==> !is_active_match(
                        #[trigger] self.rows()[i],
                        candidates@.map_values(|c: LookupKey| c@),
                        now,
                    ),
            },
    {
        let ghost cv = candidates@.map_values(|c: LookupKey| c@);
        let n = self.rows.len();
        let mut i: usize = 0;
        while i < n
            invariant
                n == self.rows@.len(),
                i <= n,
                cv == candidates@.map_values(|c: LookupKey| c@),
                forall|k: int| 0 <= k < i ==> !is_active_match(#[trigger] self.rows()[k], cv, now),
            decreases n - i,
        {
            let row = &self.rows[i];
            assert(self.rows()[i as int] == row_view(*row));
            if row.revoked_at.is_none() && row.expires_at > now && key_in(&row.lookup_key, candidates) {
                return Some(
                    ActiveSessionRecord {
                        id: row.id.clone(),
                        subject: row.subject.clone(),
                        created_at: row.created_at,
                        expires_at: row.expires_at,
                        last_seen_at: row.last_seen_at,
                        revoked_at: row.revoked_at,
                    },
                );
            }
            i = i + 1;
        }
        None
    }

    /// Insert a new, unrevoked, never-touched session row.
    pub fn insert_session(&mut self, record: SessionRecord)
        ensures
            final(self).rows() == old(self).rows().push(
                SessionRowView {
                    id: record.id@,
                    lookup_key: record.lookup_key@,
                    subject: record.subject@,
                    created_at: record.created_at,
                    expires_at: record.expires_at,
                    revoked_at: None,
                    last_seen_at: None,
                },
            ),
    {
        let row = MemSessionRow {
            id: record.id,
            lookup_key: record.lookup_key,
            subject: record.subject,
            created_at: record.created_at,
            expires_at: record.expires_at,
            revoked_at: None,
            last_seen_at: None,
        };
        self.rows.push(row);
        assert(self.rows() == old(self).rows().push(row_view(row)));
    }

    /// Revoke every unrevoked row with `session_id` at `now`. Revocation is
    /// monotonic: a revoked row keeps its first revocation time.
    pub fn revoke_session(&mut self, session_id: &SessionId, now: u64)
        ensures
            final(self).rows() == after_revoke(old(self).rows(), session_id@, now),
            final(self).rows().len() == old(self).rows().len(),
            forall|k: int|
                0 <= k < old(self).rows().len() && old(self).rows()[k].id != session_id@ ==> #[trigger] final(self).rows()[k]
                    == old(self).rows()[k],
            forall|k: int|
                0 <= k < old(self).rows().len() && old(self).rows()[k].revoked_at is Some ==> #[trigger] final(self).rows()[k] == old(self).rows()[k],
    {
        let ghost old_rows = self.rows();
        let n = self.rows.len();
        let mut i: usize = 0;
        while i < n
            invariant
                n == self.rows@.len(),
                old_rows.len() == n,
                i <= n,
                forall|k: int| 0 <= k < i ==> #[trigger] self.rows()[k] == (if old_rows[k].id
                    == session_id@ && old_rows[k].revoked_at is None {
                    SessionRowView { revoked_at: Some(now), ..old_rows[k] }
                } else {
                    old_rows[k]
                }),
                forall|k: int| i <= k < n ==> #[trigger] self.rows()[k] == old_rows[k],
            decreases n - i,
        {
            let ghost before = self.rows();
            assert(before[i as int] == row_view(self.rows@[i as int]));
            if self.rows[i].id.same_as(session_id) && self.rows[i].revoked_at.is_none() {
                let mut row = self.rows.remove(i);
                row.revoked_at = Some(now);
                let ghost updated = row_view(row);
                self.rows.insert(i, row);
                assert(self.rows()[i as int] == updated);
            }
            assert forall|k: int| 0 <= k < n && k != i implies #[trigger] self.rows()[k] == before[k] by {
            }
            i = i + 1;
        }
        assert(self.rows() == after_revoke(old_rows, session_id@, now));
    }

    /// Record that every row with `session_id` was used at `now`.
    pub fn touch_session(&mut self, session_id: &SessionId, now: u64)
        ensures
            final(self).rows() == after_touch(old(self).rows(), session_id@, now),
    {
        let ghost old_rows = self.rows();
        let n = self.rows.len();
        let mut i: usize = 0;
        while i < n
            invariant
                n == self.rows@.len(),
                old_rows.len() == n,
                i <= n,
                forall|k: int| 0 <= k < i ==> #[trigger] self.rows()[k] == (if old_rows[k].id
                    == session_id@ {
                    SessionRowView { last_seen_at: Some(now), ..old_rows[k] }
                } else {
                    old_rows[k]
                }),
                forall|k: int| i <= k < n ==> #[trigger] self.rows()[k] == old_rows[k],
            decreases n - i,
        {
            let ghost before = self.rows();
            assert(before[i as int] == row_view(self.rows@[i as int]));
            if self.rows[i].id.same_as(session_id) {
                let mut row = self.rows.remove(i);
                row.last_seen_at = Some(now);
                let ghost updated = row_view(row);
                self.rows.insert(i, row);
                assert(self.rows()[i as int] == updated);
            }
            assert forall|k: int| 0 <= k < n && k != i implies #[trigger] self.rows()[k] == before[k] by {
            }
            i = i + 1;
        }
        assert(self.rows() == after_touch(old_rows, session_id@, now));
    }
}

/// Logout is effective: after a session is revoked, no lookup with any
/// candidate keys at any time finds a row with its identifier.
pub proof fn lemma_revoked_session_never_found(rows: Seq<SessionRowView>, session_id: Seq<char>, now: u64, candidates: Seq<Seq<char>>, later: u64)
    ensures
        forall|k: int|
            0 <= k < rows.len() && rows[k].id == session_id ==> !is_active_match(
                #[trigger] after_revoke(rows, session_id, now)[k],
                candidates,
                later,
            ),
{
}

/// Logging one session out leaves every other session as it was: a row
/// carrying another session id is unchanged by the revocation, so a session
/// that was active before stays active, and a lookup finds it all the same.
pub proof fn lemma_revoke_spares_other_sessions(
    rows: Seq<SessionRowView>,
    session_id: Seq<char>,
    now: u64,
    candidates: Seq<Seq<char>>,
    at: u64,
)
    ensures
        after_revoke(rows, session_id, now).len() == rows.len(),
        forall|k: int|
            0 <= k < rows.len() && rows[k].id != session_id ==> #[trigger] after_revoke(rows, session_id, now)[k]
                == rows[k],
        forall|k: int|
            0 <= k < rows.len() && rows[k].id != session_id ==> (is_active_match(
                #[trigger] after_revoke(rows, session_id, now)[k],
                candidates,
                at,
            ) == is_active_match(rows[k], candidates, at)),
{
}

/// Touching a session changes nothing but its last-seen time: whether a row
/// is found, and what it records, stay as they were.
pub proof fn lemma_touch_keeps_activity(rows: Seq<SessionRowView>, session_id: Seq<char>, now: u64, candidates: Seq<Seq<char>>, at: u64)
    ensures
        after_touch(rows, session_id, now).len() == rows.len(),
        forall|k: int|
            0 <= k < rows.len() ==> (is_active_match(#[trigger] after_touch(rows, session_id, now)[k], candidates, at)
                == is_active_match(rows[k], candidates, at)),
{
}

} // verus!
