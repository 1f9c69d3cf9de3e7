//! In-memory code store.

use vstd::prelude::*;
use crate::hashing::{KeyVersion, LookupKey};
use crate::secret::{CodeId, SubjectId};
use crate::state::claim::{ClaimOutcome, classify_claim};
use crate::store::code::{ClaimRequest, CodeRecord, RedeemableCode};
use crate::store::error::StoreError;
use crate::text::{opt_view, opt_str_view, clone_opt_string, opt_string_is, push_str, u64_to_decimal, debug_str, debug_plain, decimal};

verus! {

#[derive(Debug)]
struct MemCodeRow {
    id: CodeId,
    lookup_keys: Vec<LookupKey>,
    key_version: KeyVersion,
    purpose: Option<String>,
    scope: Option<String>,
    grant: Option<String>,
    expires_at: u64,
    used_at: Option<u64>,
    revoked_at: Option<u64>,
    used_by: Option<SubjectId>,
}

/// A stored code row as the contracts see it.
pub struct CodeRowView {
    /// Record identifier.
    pub id: Seq<char>,
    /// Lookup keys the row answers to.
    pub lookup_keys: Seq<Seq<char>>,
    /// Key version of the lookup key.
    pub key_version: Seq<char>,
    /// Purpose label.
    pub purpose: Option<Seq<char>>,
    /// Scope.
    pub scope: Option<Seq<char>>,
    /// Grant payload.
    pub grant: Option<Seq<char>>,
    /// Expiry, Unix seconds.
    pub expires_at: u64,
    /// Claim time, if claimed.
    pub used_at: Option<u64>,
    /// Revocation time, if revoked.
    pub revoked_at: Option<u64>,
    /// Claiming subject, if claimed.
    pub used_by: Option<Seq<char>>,
}

spec fn row_view(r: MemCodeRow) -> CodeRowView {
    CodeRowView {
        id: r.id@,
        lookup_keys: r.lookup_keys@.map_values(|k: LookupKey| k@),
        key_version: r.key_version@,
        purpose: opt_view(r.purpose),
        scope: opt_view(r.scope),
        grant: opt_view(r.grant),
        expires_at: r.expires_at,
        used_at: r.used_at,
        revoked_at: r.revoked_at,
        used_by: match r.used_by {
            Some(s) => Some(s@),
            None => None,
        },
    }
}

/// Whether a row's scope satisfies an optional scope restriction.
pub open spec fn scope_ok(row_scope: Option<Seq<char>>, scope: Option<Seq<char>>) -> bool {
    match scope {
        Some(s) => row_scope == Some(s),
        None => true,
    }
}

/// Whether a row is redeemable at `now` within an optional scope.
pub open spec fn is_redeemable_at(row: CodeRowView, now: u64, scope: Option<Seq<char>>) -> bool {
    &&& row.used_at is None
    &&& row.revoked_at is None
    &&& row.expires_at > now
    &&& scope_ok(row.scope, scope)
}

/// Whether a row answers to one of the candidate lookup keys.
pub open spec fn matches_any(row: CodeRowView, candidates: Seq<Seq<char>>) -> bool {
    exists|i: int, j: int|
        0 <= i < candidates.len() && 0 <= j < row.lookup_keys.len() && #[trigger] candidates[i]
            == #[trigger] row.lookup_keys[j]
}

/// Whether a row is what a lookup with these arguments finds.
pub open spec fn is_find_match(row: CodeRowView, candidates: Seq<Seq<char>>, now: u64, scope: Option<Seq<char>>) -> bool {
    is_redeemable_at(row, now, scope) && matches_any(row, candidates)
}

/// Whether a claim request applies to a row: same ID, unclaimed, unrevoked,
/// unexpired, and matching the requested purpose and scope if given.
pub open spec fn is_claimable(row: CodeRowView, id: Seq<char>, now: u64, purpose: Option<Seq<char>>, scope: Option<Seq<char>>) -> bool {
    &&& row.id == id
    &&& row.used_at is None
    &&& row.revoked_at is None
    &&& row.expires_at > now
    &&& (purpose matches Some(p) ==> row.purpose == Some(p))
    &&& (scope matches Some(s) ==> row.scope == Some(s))
}

/// The row after a claim request: marked used by `subject` at `now` when the
/// request applies to it, unchanged otherwise.
pub open spec fn after_claim(row: CodeRowView, id: Seq<char>, subject: Seq<char>, now: u64, purpose: Option<Seq<char>>, scope: Option<Seq<char>>) -> CodeRowView {
    if is_claimable(row, id, now, purpose, scope) {
        CodeRowView { used_at: Some(now), used_by: Some(subject), ..row }
    } else {
        row
    }
}

/// How many rows a claim request applies to.
pub open spec fn claimable_count(rows: Seq<CodeRowView>, id: Seq<char>, now: u64, purpose: Option<Seq<char>>, scope: Option<Seq<char>>) -> nat
    decreases rows.len(),
{
    if rows.len() == 0 {
        0
    } else {
        claimable_count(rows.drop_last(), id, now, purpose, scope) + if is_claimable(
            rows.last(),
            id,
            now,
            purpose,
            scope,
        ) {
            1nat
        } else {
            0nat
        }
    }
}

/// Whether a revocation request applies to a row: same ID, unclaimed,
/// unrevoked, within the scope if given.
pub open spec fn is_revocable(row: CodeRowView, id: Seq<char>, scope: Option<Seq<char>>) -> bool {
    &&& row.id == id
    &&& row.used_at is None
    &&& row.revoked_at is None
    &&& (scope matches Some(s) ==> row.scope == Some(s))
}

/// Whether some row already answers to `key`.
pub open spec fn has_lookup_key(rows: Seq<CodeRowView>, key: Seq<char>) -> bool {
    exists|i: int, j: int|
        0 <= i < rows.len() && 0 <= j < rows[i].lookup_keys.len() && #[trigger] rows[i].lookup_keys[j]
            == key
}

/// Non-production in-memory code store.
#[derive(Debug, Default)]
pub struct MemCodeStore {
    rows: Vec<MemCodeRow>,
}

fn matches_any_exec(keys: &Vec<LookupKey>, candidates: &[LookupKey]) -> (r: bool)
    ensures
        r == exists|i: int, j: int|
            0 <= i < candidates@.len() && 0 <= j < keys@.len() && #[trigger] candidates@[i]@
                == #[trigger] keys@[j]@,
{
    let nc = candidates.len();
    let nk = keys.len();
    let mut i: usize = 0;
    while i < nc
        invariant
            nc == candidates@.len(),
            nk == keys@.len(),
            i <= nc,
            forall|a: int, b: int| 0 <= a < i && 0 <= b < nk ==> #[trigger] candidates@[a]@ != #[trigger] keys@[b]@,
        decreases nc - i,
    {
        let mut j: usize = 0;
        while j < nk
            invariant
                nc == candidates@.len(),
                nk == keys@.len(),
                i < nc,
                j <= nk,
                forall|a: int, b: int| 0 <= a < i && 0 <= b < nk ==> #[trigger] candidates@[a]@ != #[trigger] keys@[b]@,
                forall|b: int| 0 <= b < j ==> candidates@[i as int]@ != #[trigger] keys@[b]@,
            decreases nk - j,
        {
            if keys[j].ct_eq(&candidates[i]) {
                return true;
            }
            j = j + 1;
        }
        i = i + 1;
    }
    false
}

fn vec_of_one(k: &LookupKey) -> (r: Vec<LookupKey>)
    ensures
        r@.len() == 1,
        r@[0]@ == k@,
{
    let mut v: Vec<LookupKey> = Vec::new();
    v.push(k.clone());
    v
}

impl MemCodeStore {
    /// The stored rows, in insertion order.
    pub closed spec fn rows(&self) -> Seq<CodeRowView> {
        self.rows@.map_values(|r: MemCodeRow| row_view(r))
    }

    /// An empty store.
    pub fn new() -> (r: Self)
        ensures
            r.rows().len() == 0,
    {
        MemCodeStore { rows: Vec::new() }
    }

    /// Find the first row, in insertion order, that is redeemable at `now`
    /// within `scope` and answers to one of `candidates`.
    pub fn find_redeemable(&self, candidates: &[LookupKey], now: u64, scope: Option<&str>) -> (r: Option<RedeemableCode>)
        ensures
            match r {
                Some(c) => exists|i: int|
                    0 <= i < self.rows().len() && is_find_match(
                        #[trigger] self.rows()[i],
                        candidates@.map_values(|k: LookupKey| k@),
                        now,
                        opt_str_view(scope),
                    ) && (forall|k: int| 0 <= k < i ==> !is_find_match(
                        #[trigger] self.rows()[k],
                        candidates@.map_values(|k: LookupKey| k@),
                        now,
                        opt_str_view(scope),
                    )) && c.id@ == self.rows()[i].id && c.key_version@ == self.rows()[i].key_version
                        && opt_view(c.grant) == self.rows()[i].grant && opt_view(c.purpose)
                        == self.rows()[i].purpose && opt_view(c.scope) == self.rows()[i].scope
                        && c.expires_at == self.rows()[i].expires_at,
                None => forall|i: int|
                    0 <= i < self.rows().len() ==> !is_find_match(
                        #[trigger] self.rows()[i],
                        candidates@.map_values(|k: LookupKey| k@),
                        now,
                        opt_str_view(scope),
                    ),
            },
    {
        let ghost cands = candidates@.map_values(|k: LookupKey| k@);
        let n = self.rows.len();
        let mut i: usize = 0;
        while i < n
            invariant
                n == self.rows@.len(),
                i <= n,
                cands == candidates@.map_values(|k: LookupKey| k@),
                forall|k: int| 0 <= k < i ==> !is_find_match(
                    #[trigger] self.rows()[k],
                    cands,
                    now,
                    opt_str_view(scope),
                ),
            decreases n - i,
        {
            let row = &self.rows[i];
            assert(self.rows()[i as int] == row_view(*row));
            let scope_match = match scope {
                Some(s) => opt_string_is(&row.scope, s),
                None => true,
            };
            let redeemable = row.used_at.is_none() && row.revoked_at.is_none() && row.expires_at
                > now && scope_match;
            let keys_match = matches_any_exec(&row.lookup_keys, candidates);
            proof {
                let rv = row_view(*row);
                assert(redeemable == is_redeemable_at(rv, now, opt_str_view(scope)));
                if keys_match {
                    let (a, b) = choose|a: int, b: int|
                        0 <= a < candidates@.len() && 0 <= b < row.lookup_keys@.len()
                            && #[trigger] candidates@[a]@ == #[trigger] row.lookup_keys@[b]@;
                    assert(cands[a] == rv.lookup_keys[b]);
                }
                if matches_any(rv, cands) {
                    let (a, b) = choose|a: int, b: int|
                        0 <= a < cands.len() && 0 <= b < rv.lookup_keys.len() && #[trigger] cands[a]
                            == #[trigger] rv.lookup_keys[b];
                    assert(candidates@[a]@ == row.lookup_keys@[b]@);
                }
            }
            if redeemable && keys_match {
                return Some(
                    RedeemableCode {
                        id: row.id.clone(),
                        key_version: row.key_version.clone(),
                        grant: clone_opt_string(&row.grant),
                        purpose: clone_opt_string(&row.purpose),
                        scope: clone_opt_string(&row.scope),
                        expires_at: row.expires_at,
                    },
                );
            }
            i = i + 1;
        }
        None
    }

    /// Atomically claim the rows a request applies to: mark each used by the
    /// request's subject at its time. Exactly one applicable row wins; none
    /// loses; more than one is a store invariant violation, reported as an
    /// error (the rows are marked all the same, as a non-atomic backend would).
    pub fn claim_code(&mut self, req: &ClaimRequest) -> (r: Result<ClaimOutcome, StoreError>)
        ensures
            final(self).rows() == old(self).rows().map_values(
                |row: CodeRowView|
                    after_claim(
                        row,
                        req.code_id@,
                        req.subject@,
                        req.now,
                        opt_str_view(req.purpose),
                        opt_str_view(req.scope),
                    ),
            ),
            claimable_count(
                old(self).rows(),
                req.code_id@,
                req.now,
                opt_str_view(req.purpose),
                opt_str_view(req.scope),
            ) > 1 ==> (r matches Err(StoreError::InvariantViolation(m)) && (debug_plain(req.code_id@) ==> m@
                == "claim_code changed "@ + decimal(
                claimable_count(
                    old(self).rows(),
                    req.code_id@,
                    req.now,
                    opt_str_view(req.purpose),
                    opt_str_view(req.scope),
                ),
            ) + " rows for CodeId(\""@ + req.code_id@ + "\")"@)),
            claimable_count(
                old(self).rows(),
                req.code_id@,
                req.now,
                opt_str_view(req.purpose),
                opt_str_view(req.scope),
            ) == 1 ==> r == Ok::<ClaimOutcome, StoreError>(ClaimOutcome::Won),
            claimable_count(
                old(self).rows(),
                req.code_id@,
                req.now,
                opt_str_view(req.purpose),
                opt_str_view(req.scope),
            ) == 0 ==> r == Ok::<ClaimOutcome, StoreError>(ClaimOutcome::Lost),
            final(self).rows().len() == old(self).rows().len(),
            forall|k: int|
                0 <= k < old(self).rows().len() && old(self).rows()[k].id != req.code_id@ ==> #[trigger] final(self).rows()[k]
                    == old(self).rows()[k],
            forall|k: int|
                0 <= k < old(self).rows().len() && (old(self).rows()[k].used_at is Some || old(self).rows()[k].revoked_at is Some || old(self).rows()[k].expires_at <= req.now) ==> #[trigger] final(self).rows()[k]
                    == old(self).rows()[k],
            (exists|i: int|
                0 <= i < old(self).rows().len() && is_lone_open_code(
                    old(self).rows(),
                    i,
                    req.code_id@,
                    req.now,
                    opt_str_view(req.purpose),
                    opt_str_view(req.scope),
                )) ==> r == Ok::<ClaimOutcome, StoreError>(ClaimOutcome::Won),
    {
        proof {
            let rows = self.rows();
            if exists|i: int|
                0 <= i < rows.len() && is_lone_open_code(
                    rows,
                    i,
                    req.code_id@,
                    req.now,
                    opt_str_view(req.purpose),
                    opt_str_view(req.scope),
                ) {
                let i = choose|i: int|
                    0 <= i < rows.len() && is_lone_open_code(
                        rows,
                        i,
                        req.code_id@,
                        req.now,
                        opt_str_view(req.purpose),
                        opt_str_view(req.scope),
                    );
                lemma_lone_open_code_claimable_once(
                    rows,
                    i,
                    req.code_id@,
                    req.now,
                    opt_str_view(req.purpose),
                    opt_str_view(req.scope),
                );
            }
        }
        let ghost id = req.code_id@;
        let ghost subj = req.subject@;
        let ghost pv = opt_str_view(req.purpose);
        let ghost sv = opt_str_view(req.scope);
        let ghost old_rows = self.rows();
        let n = self.rows.len();
        let mut changed: usize = 0;
        let mut i: usize = 0;
        while i < n
            invariant
                n == self.rows@.len(),
                old_rows.len() == n,
                i <= n,
                changed <= i,
                changed == claimable_count(old_rows.take(i as int), id, req.now, pv, sv),
                id == req.code_id@,
                subj == req.subject@,
                pv == opt_str_view(req.purpose),
                sv == opt_str_view(req.scope),
                forall|k: int| 0 <= k < i ==> #[trigger] self.rows()[k] == after_claim(
                    old_rows[k],
                    id,
                    subj,
                    req.now,
                    pv,
                    sv,
                ),
                forall|k: int| i <= k < n ==> #[trigger] self.rows()[k] == old_rows[k],
            decreases n - i,
        {
            assert(old_rows.take(i + 1).drop_last() == old_rows.take(i as int));
            let ghost before = self.rows();
            assert(before[i as int] == row_view(self.rows@[i as int]));
            assert(old_rows[i as int] == before[i as int]);
            let purpose_ok = match req.purpose {
                Some(p) => opt_string_is(&self.rows[i].purpose, p),
                None => true,
            };
            let scope_ok = match req.scope {
                Some(sc) => opt_string_is(&self.rows[i].scope, sc),
                None => true,
            };
            let applies = self.rows[i].id.same_as(req.code_id) && self.rows[i].used_at.is_none()
                && self.rows[i].revoked_at.is_none() && self.rows[i].expires_at > req.now
                && purpose_ok && scope_ok;
            assert(applies == is_claimable(old_rows[i as int], id, req.now, pv, sv));
            if applies {
                let mut row = self.rows.remove(i);
                row.used_at = Some(req.now);
                row.used_by = Some(req.subject.clone());
                let ghost updated = row_view(row);
                self.rows.insert(i, row);
                assert(self.rows()[i as int] == updated);
                changed = changed + 1;
            }
            assert(self.rows()[i as int] == after_claim(old_rows[i as int], id, subj, req.now, pv, sv));
            assert forall|k: int| 0 <= k < n && k != i implies #[trigger] self.rows()[k] == before[k] by {
            }
            i = i + 1;
        }
        assert(old_rows.take(n as int) == old_rows);
        assert(self.rows() == old_rows.map_values(
            |row: CodeRowView| after_claim(row, id, subj, req.now, pv, sv),
        ));
        if changed > 1 {
            let mut msg = "claim_code changed ".to_owned();
            let num = u64_to_decimal(changed as u64);
            push_str(&mut msg, num.as_str());
            push_str(&mut msg, " rows for CodeId(");
            let quoted = debug_str(req.code_id.as_str());
            push_str(&mut msg, quoted.as_str());
            push_str(&mut msg, ")");
            proof {
                reveal_strlit("claim_code changed ");
                reveal_strlit(" rows for CodeId(");
                reveal_strlit(" rows for CodeId(\"");
                reveal_strlit(")");
                reveal_strlit("\")");
                if debug_plain(req.code_id@) {
                    assert(" rows for CodeId(\""@ == " rows for CodeId("@ + seq!['"']);
                    assert("\")"@ == seq!['"'] + ")"@);
                    assert(msg@ == "claim_code changed "@ + decimal(changed as nat) + " rows for CodeId(\""@
                        + req.code_id@ + "\")"@);
                }
            }
            return Err(StoreError::InvariantViolation(msg));
        }
        Ok(classify_claim(changed))
    }

    /// Insert a code record, rejecting a lookup key some row already answers
    /// to (the uniqueness constraint a database would enforce).
    pub fn insert_code(&mut self, record: CodeRecord) -> (r: Result<(), StoreError>)
        ensures
            has_lookup_key(old(self).rows(), record.lookup_key@) ==> r is Err && final(self).rows()
                == old(self).rows(),
            !has_lookup_key(old(self).rows(), record.lookup_key@) ==> r is Ok && final(self).rows()
                == old(self).rows().push(
                CodeRowView {
                    id: record.id@,
                    lookup_keys: seq![record.lookup_key@],
                    key_version: record.key_version@,
                    purpose: opt_view(record.purpose),
                    scope: opt_view(record.scope),
                    grant: opt_view(record.grant),
                    expires_at: record.expires_at,
                    used_at: None,
                    revoked_at: None,
                    used_by: None,
                },
            ),
    {
        let n = self.rows.len();
        let mut i: usize = 0;
        while i < n
            invariant
                n == self.rows@.len(),
                i <= n,
                forall|a: int, b: int|
                    0 <= a < i && 0 <= b < self.rows()[a].lookup_keys.len() ==> #[trigger] self.rows()[a].lookup_keys[b]
                        != record.lookup_key@,
            decreases n - i,
        {
            let one = vec_of_one(&record.lookup_key);
            let dup = matches_any_exec(&self.rows[i].lookup_keys, one.as_slice());
            proof {
                let rv = self.rows()[i as int];
                assert(rv == row_view(self.rows@[i as int]));
                if dup {
                    let (a, b) = choose|a: int, b: int|
                        0 <= a < one@.len() && 0 <= b < self.rows@[i as int].lookup_keys@.len()
                            && #[trigger] one@[a]@ == #[trigger] self.rows@[i as int].lookup_keys@[b]@;
                    assert(rv.lookup_keys[b] == record.lookup_key@);
                    assert(has_lookup_key(self.rows(), record.lookup_key@));
                }
                if !dup {
                    assert forall|b: int| 0 <= b < rv.lookup_keys.len() implies #[trigger] rv.lookup_keys[b]
                        != record.lookup_key@ by {
                        assert(rv.lookup_keys[b] == self.rows@[i as int].lookup_keys@[b]@);
                        if rv.lookup_keys[b] == record.lookup_key@ {
                            assert(one@[0]@ == self.rows@[i as int].lookup_keys@[b]@);
                        }
                    }
                }
            }
            if dup {
                return Err(StoreError::Backend("duplicate lookup key (unique constraint)".to_owned()));
            }
            i = i + 1;
        }
        let ghost lk = record.lookup_key@;
        let mut keys: Vec<LookupKey> = Vec::new();
        keys.push(record.lookup_key);
        let row = MemCodeRow {
            id: record.id,
            lookup_keys: keys,
            key_version: record.key_version,
            purpose: record.purpose,
            scope: record.scope,
            grant: record.grant,
            expires_at: record.expires_at,
            used_at: None,
            revoked_at: None,
            used_by: None,
        };
        assert(row_view(row).lookup_keys == seq![lk]);
        self.rows.push(row);
        assert(self.rows() == old(self).rows().push(row_view(row)));
        Ok(())
    }

    /// Revoke the rows with `code_id` that are unclaimed, unrevoked, and
    /// within `scope` if given. Revocation is permanent: a revoked row is
    /// never touched again.
    pub fn revoke_code(&mut self, code_id: &CodeId, scope: Option<&str>, now: u64) -> (r: Result<(), StoreError>)
        ensures
            r is Ok,
            final(self).rows().len() == old(self).rows().len(),
            forall|k: int|
                0 <= k < old(self).rows().len() && old(self).rows()[k].id != code_id@ ==> #[trigger] final(self).rows()[k]
                    == old(self).rows()[k],
            forall|k: int|
                0 <= k < old(self).rows().len() && (old(self).rows()[k].used_at is Some || old(self).rows()[k].revoked_at is Some) ==> #[trigger] final(self).rows()[k] == old(self).rows()[k],
            final(self).rows() == old(self).rows().map_values(
                |row: CodeRowView|
                    if is_revocable(row, code_id@, opt_str_view(scope)) {
                        CodeRowView { revoked_at: Some(now), ..row }
                    } else {
                        row
                    },
            ),
    {
        let ghost old_rows = self.rows();
        let ghost sv = opt_str_view(scope);
        let n = self.rows.len();
        let mut i: usize = 0;
        while i < n
            invariant
                n == self.rows@.len(),
                old_rows.len() == n,
                i <= n,
                sv == opt_str_view(scope),
                forall|k: int| 0 <= k < i ==> #[trigger] self.rows()[k] == (if is_revocable(
                    old_rows[k],
                    code_id@,
                    sv,
                ) {
                    CodeRowView { revoked_at: Some(now), ..old_rows[k] }
                } else {
                    old_rows[k]
                }),
                forall|k: int| i <= k < n ==> #[trigger] self.rows()[k] == old_rows[k],
            decreases n - i,
        {
            let ghost before = self.rows();
            assert(before[i as int] == row_view(self.rows@[i as int]));
            assert(old_rows[i as int] == before[i as int]);
            let scope_ok = match scope {
                Some(sc) => opt_string_is(&self.rows[i].scope, sc),
                None => true,
            };
            let applies = self.rows[i].id.same_as(code_id) && self.rows[i].used_at.is_none()
                && self.rows[i].revoked_at.is_none() && scope_ok;
            assert(applies == is_revocable(old_rows[i as int], code_id@, sv));
            if applies {
                let mut row = self.rows.remove(i);
                row.revoked_at = Some(now);
                let ghost updated = row_view(row);
                self.rows.insert(i, row);
                assert(self.rows()[i as int] == updated);
            }
            assert forall|k: int| 0 <= k < n && k != i implies #[trigger] self.rows()[k] == before[k] by {
            }
            i = i + 1;
        }
        assert(self.rows() == old_rows.map_values(
            |row: CodeRowView|
                if is_revocable(row, code_id@, sv) {
                    CodeRowView { revoked_at: Some(now), ..row }
                } else {
                    row
                },
        ));
        Ok(())
    }
}

/// Whether row `i` is the only row carrying code id `id` and is open for a
/// claim at `now`: never claimed, never revoked, not yet expired, and with
/// the requested purpose and scope where the request names them.
pub open spec fn is_lone_open_code(
    rows: Seq<CodeRowView>,
    i: int,
    id: Seq<char>,
    now: u64,
    purpose: Option<Seq<char>>,
    scope: Option<Seq<char>>,
) -> bool {
    &&& rows[i].id == id
    &&& rows[i].used_at is None
    &&& rows[i].revoked_at is None
    &&& now < rows[i].expires_at
    &&& (purpose matches Some(p) ==> rows[i].purpose == Some(p))
    &&& (scope matches Some(s) ==> rows[i].scope == Some(s))
    &&& forall|k: int| 0 <= k < rows.len() && k != i ==> rows[k].id != id
}

/// Exactly one applicable row counts once.
proof fn lemma_count_single(
    rows: Seq<CodeRowView>,
    i: int,
    id: Seq<char>,
    now: u64,
    purpose: Option<Seq<char>>,
    scope: Option<Seq<char>>,
)
    requires
        0 <= i < rows.len(),
        is_claimable(rows[i], id, now, purpose, scope),
        forall|k: int| 0 <= k < rows.len() && k != i ==> !is_claimable(#[trigger] rows[k], id, now, purpose, scope),
    ensures
        claimable_count(rows, id, now, purpose, scope) == 1,
    decreases rows.len(),
{
    let init = rows.drop_last();
    if i == rows.len() - 1 {
        assert forall|k: int| 0 <= k < init.len() implies !is_claimable(#[trigger] init[k], id, now, purpose, scope) by {
            assert(init[k] == rows[k]);
        }
        lemma_count_zero(init, id, now, purpose, scope);
    } else {
        assert forall|k: int| 0 <= k < init.len() && k != i implies !is_claimable(
            #[trigger] init[k],
            id,
            now,
            purpose,
            scope,
        ) by {
            assert(init[k] == rows[k]);
        }
        assert(init[i] == rows[i]);
        lemma_count_single(init, i, id, now, purpose, scope);
        assert(!is_claimable(rows[rows.len() - 1], id, now, purpose, scope));
    }
}

/// A claim concerns its own code only. Whatever other codes the store holds,
/// a claim request never changes a row carrying another code id, and when
/// the requested code is held by exactly one open row, that row is the one
/// claim the request applies to, so the request wins.
pub proof fn lemma_lone_open_code_claimable_once(
    rows: Seq<CodeRowView>,
    i: int,
    id: Seq<char>,
    now: u64,
    purpose: Option<Seq<char>>,
    scope: Option<Seq<char>>,
)
    requires
        0 <= i < rows.len(),
        is_lone_open_code(rows, i, id, now, purpose, scope),
    ensures
        claimable_count(rows, id, now, purpose, scope) == 1,
{
    assert forall|k: int| 0 <= k < rows.len() && k != i implies !is_claimable(#[trigger] rows[k], id, now, purpose, scope) by {
        assert(rows[k].id != id);
    }
    lemma_count_single(rows, i, id, now, purpose, scope);
}

/// A claim or a revocation leaves every row carrying another code id as it
/// was: redeeming or revoking one code never burns or revokes another.
pub proof fn lemma_other_codes_untouched(
    row: CodeRowView,
    id: Seq<char>,
    subject: Seq<char>,
    now: u64,
    purpose: Option<Seq<char>>,
    scope: Option<Seq<char>>,
    candidates: Seq<Seq<char>>,
    later: u64,
    find_scope: Option<Seq<char>>,
)
    requires
        row.id != id,
    ensures
        after_claim(row, id, subject, now, purpose, scope) == row,
        !is_claimable(row, id, now, purpose, scope),
        !is_revocable(row, id, scope),
        is_find_match(after_claim(row, id, subject, now, purpose, scope), candidates, later, find_scope)
            == is_find_match(row, candidates, later, find_scope),
{
}

/// No row left to claim means the claim request applies to none.
proof fn lemma_count_zero(rows: Seq<CodeRowView>, id: Seq<char>, now: u64, purpose: Option<Seq<char>>, scope: Option<Seq<char>>)
    requires
        forall|k: int| 0 <= k < rows.len() ==> !is_claimable(#[trigger] rows[k], id, now, purpose, scope),
    ensures
        claimable_count(rows, id, now, purpose, scope) == 0,
    decreases rows.len(),
{
    if rows.len() > 0 {
        let init = rows.drop_last();
        assert forall|k: int| 0 <= k < init.len() implies !is_claimable(#[trigger] init[k], id, now, purpose, scope) by {
            assert(init[k] == rows[k]);
        }
        lemma_count_zero(init, id, now, purpose, scope);
    }
}

/// Claims are single-use: after any claim attempt, repeating the same request
/// finds nothing left to claim (so it can only be lost).
pub proof fn lemma_claim_single_use(rows: Seq<CodeRowView>, id: Seq<char>, subject: Seq<char>, now: u64, purpose: Option<Seq<char>>, scope: Option<Seq<char>>)
    ensures
        claimable_count(
            rows.map_values(|row: CodeRowView| after_claim(row, id, subject, now, purpose, scope)),
            id,
            now,
            purpose,
            scope,
        ) == 0,
{
    let after = rows.map_values(|row: CodeRowView| after_claim(row, id, subject, now, purpose, scope));
    assert forall|k: int| 0 <= k < after.len() implies !is_claimable(#[trigger] after[k], id, now, purpose, scope) by {
        assert(after[k] == after_claim(rows[k], id, subject, now, purpose, scope));
    }
    lemma_count_zero(after, id, now, purpose, scope);
}

/// A row that a claim marks used is never found redeemable again.
pub proof fn lemma_claimed_row_not_redeemable(row: CodeRowView, id: Seq<char>, subject: Seq<char>, now: u64, purpose: Option<Seq<char>>, scope: Option<Seq<char>>, later: u64, find_scope: Option<Seq<char>>)
    requires
        is_claimable(row, id, now, purpose, scope),
    ensures
        !is_redeemable_at(after_claim(row, id, subject, now, purpose, scope), later, find_scope),
        after_claim(row, id, subject, now, purpose, scope).used_by == Some(subject),
{
}

/// Revocation is permanent: a row revoked before a revocation request keeps
/// its revocation time, and a revoked row is never redeemable.
pub proof fn lemma_revocation_permanent(row: CodeRowView, id: Seq<char>, scope: Option<Seq<char>>, now: u64, later: u64, find_scope: Option<Seq<char>>)
    ensures
        row.revoked_at is Some ==> !is_revocable(row, id, scope),
        is_revocable(row, id, scope) ==> !is_redeemable_at(
            CodeRowView { revoked_at: Some(now), ..row },
            later,
            find_scope,
        ),
{
}

} // verus!
