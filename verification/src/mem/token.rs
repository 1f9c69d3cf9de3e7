//! In-memory form-token store.

use vstd::prelude::*;
use crate::hashing::LookupKey;
use crate::state::token::{TokenConsumeOutcome, classify_token_consume, token_consume_outcome};
use crate::store::error::StoreError;
use crate::store::token::{FormTokenRecord, TokenSubject, TokenSubjectView};
use crate::text::{opt_view, opt_str_view, clone_opt_string, opt_string_is, str_eq, push_str, u64_to_decimal};

verus! {

#[derive(Debug)]
struct MemTokenRow {
    lookup_key: LookupKey,
    subject: TokenSubject,
    purpose: String,
    bound_resource: Option<String>,
    expires_at: u64,
    consumed_at: Option<u64>,
    result_ref: Option<String>,
}

/// A stored form-token row as the contracts see it.
pub struct TokenRowView {
    /// Lookup key of the token secret.
    pub lookup_key: Seq<char>,
    /// Subject binding.
    pub subject: TokenSubjectView,
    /// Purpose label.
    pub purpose: Seq<char>,
    /// Bound resource, if any.
    pub bound_resource: Option<Seq<char>>,
    /// Expiry, Unix seconds.
    pub expires_at: u64,
    /// Consumption time, if consumed.
    pub consumed_at: Option<u64>,
    /// Result reference recorded for replays.
    pub result_ref: Option<Seq<char>>,
}

spec fn row_view(r: MemTokenRow) -> TokenRowView {
    TokenRowView {
        lookup_key: r.lookup_key@,
        subject: r.subject@,
        purpose: r.purpose@,
        bound_resource: opt_view(r.bound_resource),
        expires_at: r.expires_at,
        consumed_at: r.consumed_at,
        result_ref: opt_view(r.result_ref),
    }
}

/// Whether a row is bound to this lookup key, subject and purpose.
pub open spec fn is_bound(row: TokenRowView, key: Seq<char>, subject: TokenSubjectView, purpose: Seq<char>) -> bool {
    &&& row.lookup_key == key
    &&& row.subject == subject
    &&& row.purpose == purpose
}

/// Whether a consume request takes this row: bound to the request, not yet
/// consumed, unexpired, and with exactly the requested bound resource (a
/// request without one only matches a row without one).
pub open spec fn is_consumable(
    row: TokenRowView,
    key: Seq<char>,
    subject: TokenSubjectView,
    purpose: Seq<char>,
    bound_resource: Option<Seq<char>>,
    now: u64,
) -> bool {
    &&& is_bound(row, key, subject, purpose)
    &&& row.consumed_at is None
    &&& row.expires_at > now
    &&& row.bound_resource == bound_resource
}

/// The row after a consume request: consumed at `now` if the request takes it.
pub open spec fn after_consume(
    row: TokenRowView,
    key: Seq<char>,
    subject: TokenSubjectView,
    purpose: Seq<char>,
    bound_resource: Option<Seq<char>>,
    now: u64,
) -> TokenRowView {
    if is_consumable(row, key, subject, purpose, bound_resource, now) {
        TokenRowView { consumed_at: Some(now), ..row }
    } else {
        row
    }
}

/// How many rows a consume request takes.
pub open spec fn consumable_count(
    rows: Seq<TokenRowView>,
    key: Seq<char>,
    subject: TokenSubjectView,
    purpose: Seq<char>,
    bound_resource: Option<Seq<char>>,
    now: u64,
) -> nat
    decreases rows.len(),
{
    if rows.len() == 0 {
        0
    } else {
        consumable_count(rows.drop_last(), key, subject, purpose, bound_resource, now) + if is_consumable(
            rows.last(),
            key,
            subject,
            purpose,
            bound_resource,
            now,
        ) {
            1nat
        } else {
            0nat
        }
    }
}

/// The index of the last row bound to this key, subject and purpose.
pub open spec fn last_bound(rows: Seq<TokenRowView>, key: Seq<char>, subject: TokenSubjectView, purpose: Seq<char>) -> Option<int>
    decreases rows.len(),
{
    if rows.len() == 0 {
        None
    } else if is_bound(rows.last(), key, subject, purpose) {
        Some(rows.len() - 1)
    } else {
        last_bound(rows.drop_last(), key, subject, purpose)
    }
}

/// Whether a stored bound resource matches a request's, for classifying a
/// consume that took no row: the same resource, and a request without one
/// matches only a row without one.
pub open spec fn follow_up_binding_ok(stored: Option<Seq<char>>, requested: Option<Seq<char>>) -> bool {
    stored == requested
}

/// What a consume request that took no row answers: `Invalid` without a
/// bound row; otherwise the classification of the last bound row, with its
/// result reference when that classification is a replay.
pub open spec fn unconsumed_answer(
    rows: Seq<TokenRowView>,
    key: Seq<char>,
    subject: TokenSubjectView,
    purpose: Seq<char>,
    bound_resource: Option<Seq<char>>,
) -> (TokenConsumeOutcome, Option<Seq<char>>) {
    match last_bound(rows, key, subject, purpose) {
        None => (TokenConsumeOutcome::Invalid, None),
        Some(i) => {
            let outcome = token_consume_outcome(
                0,
                true,
                rows[i].consumed_at is Some,
                follow_up_binding_ok(rows[i].bound_resource, bound_resource),
            );
            (outcome, if outcome == TokenConsumeOutcome::Replay { rows[i].result_ref } else { None })
        },
    }
}

/// The rows after recording `result_ref` under the lookup key `key`: every
/// consumed row answering to it gets it.
pub open spec fn after_set_result(rows: Seq<TokenRowView>, key: Seq<char>, result_ref: Seq<char>) -> Seq<TokenRowView> {
    rows.map_values(
        |row: TokenRowView|
            if row.lookup_key == key && row.consumed_at is Some {
                TokenRowView { result_ref: Some(result_ref), ..row }
            } else {
                row
            },
    )
}

/// Whether some row is bound to this key, subject and purpose.
pub open spec fn has_bound(rows: Seq<TokenRowView>, key: Seq<char>, subject: TokenSubjectView, purpose: Seq<char>) -> bool {
    exists|j: int| 0 <= j < rows.len() && is_bound(#[trigger] rows[j], key, subject, purpose)
}

/// Whether `i` is the first candidate key some row is bound to (with this
/// subject and purpose): candidates are tried in order, and a request is
/// handled under the first one that matches.
pub open spec fn is_first_matching(
    rows: Seq<TokenRowView>,
    keys: Seq<Seq<char>>,
    subject: TokenSubjectView,
    purpose: Seq<char>,
    i: int,
) -> bool {
    &&& 0 <= i < keys.len()
    &&& has_bound(rows, keys[i], subject, purpose)
    &&& forall|k: int| 0 <= k < i ==> !has_bound(rows, #[trigger] keys[k], subject, purpose)
}

/// The lookup keys of candidate lookup keys.
pub open spec fn key_views(candidates: Seq<LookupKey>) -> Seq<Seq<char>> {
    candidates.map_values(|c: LookupKey| c@)
}

/// Whether `r` and the rows `after` are what a consume request under `key`
/// makes of the rows `before`: every row the request takes is consumed at
/// `now`; one taken row proceeds, more than one is a store error, and none is
/// answered by [`unconsumed_answer`].
pub open spec fn consumed_under(
    before: Seq<TokenRowView>,
    after: Seq<TokenRowView>,
    key: Seq<char>,
    subject: TokenSubjectView,
    purpose: Seq<char>,
    bound_resource: Option<Seq<char>>,
    now: u64,
    r: Result<(TokenConsumeOutcome, Option<String>), StoreError>,
) -> bool {
    let n = consumable_count(before, key, subject, purpose, bound_resource, now);
    &&& after == before.map_values(
        |row: TokenRowView| after_consume(row, key, subject, purpose, bound_resource, now),
    )
    &&& n > 1 ==> r is Err
    &&& n == 1 ==> match r {
        Ok((o, rr)) => o == TokenConsumeOutcome::Proceed && rr is None,
        Err(_) => false,
    }
    &&& n == 0 ==> match r {
        Ok((o, rr)) => (o, opt_view(rr)) == unconsumed_answer(before, key, subject, purpose, bound_resource),
        Err(_) => false,
    }
}

/// Whether a consume request with candidate keys `keys` could take `row` at
/// `now`: the row answers to one of the keys, has the requested subject,
/// purpose and bound resource, is not yet consumed and has not expired.
pub open spec fn takes_row_of(
    row: TokenRowView,
    keys: Seq<Seq<char>>,
    subject: TokenSubjectView,
    purpose: Seq<char>,
    bound_resource: Option<Seq<char>>,
    now: u64,
) -> bool {
    &&& keys.contains(row.lookup_key)
    &&& row.subject == subject
    &&& row.purpose == purpose
    &&& row.bound_resource == bound_resource
    &&& row.consumed_at is None
    &&& now < row.expires_at
}

/// A token serves only the form it was issued for: a consume request never
/// takes, nor finds bound, a row with another lookup key, subject or
/// purpose, and never takes a row bound to another resource.
pub proof fn lemma_consume_respects_binding(
    row: TokenRowView,
    key: Seq<char>,
    subject: TokenSubjectView,
    purpose: Seq<char>,
    bound_resource: Option<Seq<char>>,
    now: u64,
)
    ensures
        row.lookup_key != key || row.subject != subject || row.purpose != purpose ==> !is_bound(
            row,
            key,
            subject,
            purpose,
        ),
        row.lookup_key != key || row.subject != subject || row.purpose != purpose || row.bound_resource
            != bound_resource || row.consumed_at is Some || row.expires_at <= now ==> after_consume(
            row,
            key,
            subject,
            purpose,
            bound_resource,
            now,
        ) == row,
{
}

/// Non-production in-memory form-token store.
#[derive(Debug, Default)]
pub struct MemFormTokenStore {
    rows: Vec<MemTokenRow>,
}

fn bound_resource_is(stored: &Option<String>, requested: Option<&str>) -> (r: bool)
    ensures
        r == (opt_view(*stored) == opt_str_view(requested)),
{
    match (requested, stored) {
        (Some(expected), Some(s)) => str_eq(expected, s.as_str()),
        (None, None) => true,
        _ => false,
    }
}

impl MemFormTokenStore {
    /// The stored rows, in insertion order.
    pub closed spec fn rows(&self) -> Seq<TokenRowView> {
        self.rows@.map_values(|r: MemTokenRow| row_view(r))
    }

    /// An empty store.
    pub fn new() -> (r: Self)
        ensures
            r.rows().len() == 0,
    {
        MemFormTokenStore { rows: Vec::new() }
    }

    /// Insert a new, unconsumed token row.
    pub fn insert_form_token(&mut self, record: FormTokenRecord)
        ensures
            final(self).rows() == old(self).rows().push(
                TokenRowView {
                    lookup_key: record.lookup_key@,
                    subject: record.subject@,
                    purpose: record.purpose@,
                    bound_resource: opt_view(record.bound_resource),
                    expires_at: record.expires_at,
                    consumed_at: None,
                    result_ref: None,
                },
            ),
    {
        let row = MemTokenRow {
            lookup_key: record.lookup_key,
            subject: record.subject,
            purpose: record.purpose,
            bound_resource: record.bound_resource,
            expires_at: record.expires_at,
            consumed_at: None,
            result_ref: None,
        };
        self.rows.push(row);
        assert(self.rows() == old(self).rows().push(row_view(row)));
    }

    /// Consume a token under one lookup key: mark consumed at `now` every row
    /// the request takes (see [`is_consumable`]). One taken row proceeds;
    /// more than one is a store invariant violation; none is classified from
    /// the last row bound to the key, subject and purpose.
    fn consume_with_key(
        &mut self,
        lookup_key: &LookupKey,
        subject: &TokenSubject,
        purpose: &str,
        bound_resource: Option<&str>,
        now: u64,
    ) -> (r: Result<(TokenConsumeOutcome, Option<String>), StoreError>)
        ensures
            consumed_under(
                old(self).rows(),
                final(self).rows(),
                lookup_key@,
                subject@,
                purpose@,
                opt_str_view(bound_resource),
                now,
                r,
            ),
    {
        let ghost key = lookup_key@;
        let ghost subj = subject@;
        let ghost pv = purpose@;
        let ghost brv = opt_str_view(bound_resource);
        let ghost old_rows = self.rows();
        let n = self.rows.len();
        let mut changed: usize = 0;
        let mut found_row_idx: Option<usize> = None;
        let mut i: usize = 0;
        while i < n
            invariant
                n == self.rows@.len(),
                old_rows.len() == n,
                i <= n,
                changed <= i,
                key == lookup_key@,
                subj == subject@,
                pv == purpose@,
                brv == opt_str_view(bound_resource),
                changed == consumable_count(old_rows.take(i as int), key, subj, pv, brv, now),
                match found_row_idx {
                    None => last_bound(old_rows.take(i as int), key, subj, pv) is None,
                    Some(f) => f < i && last_bound(old_rows.take(i as int), key, subj, pv) == Some(f as int),
                },
                forall|k: int| 0 <= k < i ==> #[trigger] self.rows()[k] == after_consume(
                    old_rows[k],
                    key,
                    subj,
                    pv,
                    brv,
                    now,
                ),
                forall|k: int| i <= k < n ==> #[trigger] self.rows()[k] == old_rows[k],
            decreases n - i,
        {
            assert(old_rows.take(i + 1).drop_last() == old_rows.take(i as int));
            assert(old_rows.take(i + 1).last() == old_rows[i as int]);
            let ghost before = self.rows();
            assert(before[i as int] == row_view(self.rows@[i as int]));
            assert(old_rows[i as int] == before[i as int]);
            let bound = self.rows[i].lookup_key.ct_eq(lookup_key) && self.rows[i].subject.same_as(subject)
                && str_eq(self.rows[i].purpose.as_str(), purpose);
            assert(bound == is_bound(old_rows[i as int], key, subj, pv));
            if bound {
                found_row_idx = Some(i);
                if self.rows[i].consumed_at.is_none() && self.rows[i].expires_at > now {
                    let br_ok = bound_resource_is(&self.rows[i].bound_resource, bound_resource);
                    if br_ok {
                        let mut row = self.rows.remove(i);
                        row.consumed_at = Some(now);
                        let ghost updated = row_view(row);
                        self.rows.insert(i, row);
                        assert(self.rows()[i as int] == updated);
                        changed = changed + 1;
                    }
                }
            }
            assert(self.rows()[i as int] == after_consume(old_rows[i as int], key, subj, pv, brv, now));
            assert forall|k: int| 0 <= k < n && k != i implies #[trigger] self.rows()[k] == before[k] by {
            }
            i = i + 1;
        }
        assert(old_rows.take(n as int) == old_rows);
        assert(self.rows() == old_rows.map_values(
            |row: TokenRowView| after_consume(row, key, subj, pv, brv, now),
        ));
        if changed > 1 {
            let mut msg = "consume_form_token changed ".to_owned();
            let num = u64_to_decimal(changed as u64);
            push_str(&mut msg, num.as_str());
            push_str(&mut msg, " rows");
            return Err(StoreError::InvariantViolation(msg));
        }
        if changed == 1 {
            return Ok((TokenConsumeOutcome::Proceed, None));
        }
        proof {
            lemma_unconsumed_rows_unchanged(old_rows, key, subj, pv, brv, now);
            assert(self.rows() == old_rows);
        }
        match found_row_idx {
            None => Ok((TokenConsumeOutcome::Invalid, None)),
            Some(idx) => {
                assert(self.rows()[idx as int] == row_view(self.rows@[idx as int]));
                let row = &self.rows[idx];
                let already_consumed = row.consumed_at.is_some();
                let binding_ok = bound_resource_is(&row.bound_resource, bound_resource);
                let outcome = classify_token_consume(0, true, already_consumed, binding_ok);
                let result_ref = if outcome == TokenConsumeOutcome::Replay {
                    clone_opt_string(&row.result_ref)
                } else {
                    None
                };
                Ok((outcome, result_ref))
            },
        }
    }

    /// Atomically consume a form token. The candidate lookup keys are tried
    /// in order and the request is handled under the first one some row is
    /// bound to (with this subject and purpose), so tokens made under a
    /// previous key stay usable during rotation; see [`consumed_under`]. With
    /// no matching candidate nothing changes and the token is invalid.
    pub fn consume_form_token(
        &mut self,
        candidates: &[LookupKey],
        subject: &TokenSubject,
        purpose: &str,
        bound_resource: Option<&str>,
        now: u64,
    ) -> (r: Result<(TokenConsumeOutcome, Option<String>), StoreError>)
        requires
            candidates@.len() > 0,
        ensures
            forall|i: int|
                is_first_matching(old(self).rows(), key_views(candidates@), subject@, purpose@, i)
                    ==> consumed_under(
                    old(self).rows(),
                    final(self).rows(),
                    #[trigger] key_views(candidates@)[i],
                    subject@,
                    purpose@,
                    opt_str_view(bound_resource),
                    now,
                    r,
                ),
            (forall|i: int|
                0 <= i < candidates@.len() ==> !has_bound(
                    old(self).rows(),
                    #[trigger] key_views(candidates@)[i],
                    subject@,
                    purpose@,
                )) ==> final(self).rows() == old(self).rows() && r matches Ok(
                (TokenConsumeOutcome::Invalid, None),
            ),
            final(self).rows().len() == old(self).rows().len(),
            forall|k: int|
                0 <= k < old(self).rows().len() && !takes_row_of(
                    old(self).rows()[k],
                    key_views(candidates@),
                    subject@,
                    purpose@,
                    opt_str_view(bound_resource),
                    now,
                ) ==> #[trigger] final(self).rows()[k] == old(self).rows()[k],
            (forall|k: int| 0 <= k < old(self).rows().len() ==> #[trigger] old(self).rows()[k].purpose != purpose@)
                ==> final(self).rows() == old(self).rows() && r matches Ok((TokenConsumeOutcome::Invalid, None)),
    {
        proof {
            let rows = self.rows();
            let cv = key_views(candidates@);
            if forall|k: int| 0 <= k < rows.len() ==> #[trigger] rows[k].purpose != purpose@ {
                assert forall|i: int| 0 <= i < candidates@.len() implies !has_bound(
                    rows,
                    #[trigger] cv[i],
                    subject@,
                    purpose@,
                ) by {
                    assert forall|j: int| 0 <= j < rows.len() implies !is_bound(
                        #[trigger] rows[j],
                        cv[i],
                        subject@,
                        purpose@,
                    ) by {
                        lemma_consume_respects_binding(rows[j], cv[i], subject@, purpose@, opt_str_view(bound_resource), now);
                    }
                }
            }
        }
        let ghost cv = key_views(candidates@);
        let n = candidates.len();
        let mut i: usize = 0;
        while i < n
            invariant
                n == candidates@.len(),
                cv == key_views(candidates@),
                i <= n,
                self.rows() == old(self).rows(),
                forall|k: int| 0 <= k < i ==> !has_bound(self.rows(), #[trigger] cv[k], subject@, purpose@),
            decreases n - i,
        {
            if self.any_bound(&candidates[i], subject, purpose) {
                let ghost before = self.rows();
                assert(cv[i as int] == candidates@[i as int]@);
                let r = self.consume_with_key(&candidates[i], subject, purpose, bound_resource, now);
                proof {
                    assert forall|k: int|
                        0 <= k < before.len() && !takes_row_of(
                            before[k],
                            cv,
                            subject@,
                            purpose@,
                            opt_str_view(bound_resource),
                            now,
                        ) implies #[trigger] self.rows()[k] == before[k] by {
                        if before[k].lookup_key == cv[i as int] {
                            assert(cv.contains(before[k].lookup_key));
                        }
                        lemma_consume_respects_binding(
                            before[k],
                            cv[i as int],
                            subject@,
                            purpose@,
                            opt_str_view(bound_resource),
                            now,
                        );
                    }
                    assert(is_first_matching(before, cv, subject@, purpose@, i as int));
                    assert forall|j: int| is_first_matching(before, cv, subject@, purpose@, j) implies j
                        == i by {
                        if j < i {
                            assert(!has_bound(before, cv[j], subject@, purpose@));
                        }
                        if j > i {
                            assert(!has_bound(before, cv[i as int], subject@, purpose@));
                        }
                    }
                }
                return r;
            }
            i = i + 1;
        }
        Ok((TokenConsumeOutcome::Invalid, None))
    }

    fn any_bound(&self, key: &LookupKey, subject: &TokenSubject, purpose: &str) -> (r: bool)
        ensures
            r == has_bound(self.rows(), key@, subject@, purpose@),
    {
        let n = self.rows.len();
        let mut i: usize = 0;
        while i < n
            invariant
                n == self.rows@.len(),
                i <= n,
                forall|j: int| 0 <= j < i ==> !is_bound(#[trigger] self.rows()[j], key@, subject@, purpose@),
            decreases n - i,
        {
            assert(self.rows()[i as int] == row_view(self.rows@[i as int]));
            if self.rows[i].lookup_key.ct_eq(key) && self.rows[i].subject.same_as(subject) && str_eq(
                self.rows[i].purpose.as_str(),
                purpose,
            ) {
                assert(is_bound(self.rows()[i as int], key@, subject@, purpose@));
                return true;
            }
            i = i + 1;
        }
        false
    }

    /// Record `result_ref` for replays on every consumed row answering to the
    /// first candidate key, the one derived under the active key.
    pub fn set_token_result(&mut self, candidates: &[LookupKey], result_ref: &str)
        requires
            candidates@.len() > 0,
        ensures
            final(self).rows() == after_set_result(old(self).rows(), candidates@[0]@, result_ref@),
    {
        let key = &candidates[0];
        let ghost old_rows = self.rows();
        let n = self.rows.len();
        let mut i: usize = 0;
        while i < n
            invariant
                n == self.rows@.len(),
                old_rows.len() == n,
                i <= n,
                forall|k: int| 0 <= k < i ==> #[trigger] self.rows()[k] == (if old_rows[k].lookup_key == key@
                    && old_rows[k].consumed_at is Some {
                    TokenRowView { result_ref: Some(result_ref@), ..old_rows[k] }
                } else {
                    old_rows[k]
                }),
                forall|k: int| i <= k < n ==> #[trigger] self.rows()[k] == old_rows[k],
            decreases n - i,
        {
            let ghost before = self.rows();
            assert(before[i as int] == row_view(self.rows@[i as int]));
            if self.rows[i].consumed_at.is_some() && self.rows[i].lookup_key.ct_eq(key) {
                let mut row = self.rows.remove(i);
                row.result_ref = Some(result_ref.to_owned());
                let ghost updated = row_view(row);
                self.rows.insert(i, row);
                assert(self.rows()[i as int] == updated);
            }
            assert forall|k: int| 0 <= k < n && k != i implies #[trigger] self.rows()[k] == before[k] by {
            }
            i = i + 1;
        }
        assert(self.rows() == after_set_result(old_rows, key@, result_ref@));
    }
}

/// A consume request that takes no row leaves every row as it was.
proof fn lemma_unconsumed_rows_unchanged(
    rows: Seq<TokenRowView>,
    key: Seq<char>,
    subject: TokenSubjectView,
    purpose: Seq<char>,
    bound_resource: Option<Seq<char>>,
    now: u64,
)
    requires
        consumable_count(rows, key, subject, purpose, bound_resource, now) == 0,
    ensures
        forall|k: int| 0 <= k < rows.len() ==> !is_consumable(#[trigger] rows[k], key, subject, purpose, bound_resource, now),
        rows.map_values(|row: TokenRowView| after_consume(row, key, subject, purpose, bound_resource, now)) == rows,
    decreases rows.len(),
{
    if rows.len() > 0 {
        let init = rows.drop_last();
        lemma_unconsumed_rows_unchanged(init, key, subject, purpose, bound_resource, now);
        assert forall|k: int| 0 <= k < rows.len() implies !is_consumable(#[trigger] rows[k], key, subject, purpose, bound_resource, now) by {
            if k < rows.len() - 1 {
                assert(rows[k] == init[k]);
            }
        }
    }
    assert(rows.map_values(|row: TokenRowView| after_consume(row, key, subject, purpose, bound_resource, now)) =~= rows);
}

/// A request that no row takes counts zero.
proof fn lemma_none_consumable(
    rows: Seq<TokenRowView>,
    key: Seq<char>,
    subject: TokenSubjectView,
    purpose: Seq<char>,
    bound_resource: Option<Seq<char>>,
    now: u64,
)
    requires
        forall|k: int| 0 <= k < rows.len() ==> !is_consumable(#[trigger] rows[k], key, subject, purpose, bound_resource, now),
    ensures
        consumable_count(rows, key, subject, purpose, bound_resource, now) == 0,
    decreases rows.len(),
{
    if rows.len() > 0 {
        let init = rows.drop_last();
        assert forall|k: int| 0 <= k < init.len() implies !is_consumable(#[trigger] init[k], key, subject, purpose, bound_resource, now) by {
            assert(init[k] == rows[k]);
        }
        lemma_none_consumable(init, key, subject, purpose, bound_resource, now);
    }
}

/// Form tokens are single use: after any consume request, repeating it at
/// the same time or later takes no row, so it can never proceed a second
/// time.
pub proof fn lemma_consume_single_use(
    rows: Seq<TokenRowView>,
    key: Seq<char>,
    subject: TokenSubjectView,
    purpose: Seq<char>,
    bound_resource: Option<Seq<char>>,
    now: u64,
    later: u64,
)
    requires
        now <= later,
    ensures
        consumable_count(
            rows.map_values(|row: TokenRowView| after_consume(row, key, subject, purpose, bound_resource, now)),
            key,
            subject,
            purpose,
            bound_resource,
            later,
        ) == 0,
{
    let after = rows.map_values(|row: TokenRowView| after_consume(row, key, subject, purpose, bound_resource, now));
    assert forall|k: int| 0 <= k < after.len() implies !is_consumable(#[trigger] after[k], key, subject, purpose, bound_resource, later) by {
        assert(after[k] == after_consume(rows[k], key, subject, purpose, bound_resource, now));
    }
    lemma_none_consumable(after, key, subject, purpose, bound_resource, later);
}

/// The replay promise: when a request took the only row bound to its key,
/// subject and purpose, repeating it answers `Replay` with the result
/// reference recorded since (or none).
pub proof fn lemma_second_consume_replays(
    rows: Seq<TokenRowView>,
    i: int,
    key: Seq<char>,
    subject: TokenSubjectView,
    purpose: Seq<char>,
    bound_resource: Option<Seq<char>>,
    now: u64,
    later: u64,
    result_ref: Seq<char>,
)
    requires
        0 <= i < rows.len(),
        is_consumable(rows[i], key, subject, purpose, bound_resource, now),
        forall|k: int| 0 <= k < rows.len() && k != i ==> !is_bound(#[trigger] rows[k], key, subject, purpose),
    ensures
        unconsumed_answer(
            after_set_result(
                rows.map_values(|row: TokenRowView| after_consume(row, key, subject, purpose, bound_resource, now)),
                key,
                result_ref,
            ),
            key,
            subject,
            purpose,
            bound_resource,
        ) == (TokenConsumeOutcome::Replay, Some(result_ref)),
{
    let consumed = rows.map_values(|row: TokenRowView| after_consume(row, key, subject, purpose, bound_resource, now));
    let stored = after_set_result(consumed, key, result_ref);
    assert(stored[i].consumed_at == Some(now));
    assert(stored[i].result_ref == Some(result_ref));
    lemma_last_bound_is_only(stored, i, key, subject, purpose);
}

/// The last bound row of a sequence with only one bound row is that row.
proof fn lemma_last_bound_is_only(rows: Seq<TokenRowView>, i: int, key: Seq<char>, subject: TokenSubjectView, purpose: Seq<char>)
    requires
        0 <= i < rows.len(),
        is_bound(rows[i], key, subject, purpose),
        forall|k: int| 0 <= k < rows.len() && k != i ==> !is_bound(#[trigger] rows[k], key, subject, purpose),
    ensures
        last_bound(rows, key, subject, purpose) == Some(i),
    decreases rows.len(),
{
    if i < rows.len() - 1 {
        let init = rows.drop_last();
        assert(!is_bound(rows[rows.len() - 1], key, subject, purpose));
        assert forall|k: int| 0 <= k < init.len() && k != i implies !is_bound(#[trigger] init[k], key, subject, purpose) by {
            assert(init[k] == rows[k]);
        }
        lemma_last_bound_is_only(init, i, key, subject, purpose);
    }
}

/// A result reference appears only by being set: consuming leaves every
/// row's result reference as it was, so a token consumed but not yet given a
/// result replays with none.
pub proof fn lemma_consume_keeps_result_refs(
    rows: Seq<TokenRowView>,
    key: Seq<char>,
    subject: TokenSubjectView,
    purpose: Seq<char>,
    bound_resource: Option<Seq<char>>,
    now: u64,
)
    ensures
        forall|k: int|
            0 <= k < rows.len() ==> (#[trigger] after_consume_all(rows, key, subject, purpose, bound_resource, now)[k]).result_ref
                == rows[k].result_ref,
{
}

/// Every row after a consume request under `key`.
pub open spec fn after_consume_all(
    rows: Seq<TokenRowView>,
    key: Seq<char>,
    subject: TokenSubjectView,
    purpose: Seq<char>,
    bound_resource: Option<Seq<char>>,
    now: u64,
) -> Seq<TokenRowView> {
    rows.map_values(|row: TokenRowView| after_consume(row, key, subject, purpose, bound_resource, now))
}

} // verus!
