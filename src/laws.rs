use vstd::prelude::*;
use crate::auth::{is_federated_record, marked_verified, stored_code, stored_code_accepted};
use crate::models::User;
use crate::store::{has_email, has_id, has_username, records_unique, verified_record};
use crate::totp::{code_accepted, current_code_spec, totp_code_of, window_of};

verus! {

/// Within one 30-second window the current code does not change, whether the
/// secret is taken as bytes or as its stored text.
pub proof fn law_code_constant_within_window(secret: Seq<u8>, stored: Seq<char>, t1: int, t2: int)
    requires
        window_of(t1) == window_of(t2),
    ensures
        current_code_spec(secret, t1) == current_code_spec(secret, t2),
        stored_code(stored, t1) == stored_code(stored, t2),
{
}

/// The current code is always accepted; any accepted code is the code of the
/// current window or of one of the two adjacent windows.
pub proof fn law_accepts_exactly_tolerated_codes(secret: Seq<u8>, stored: Seq<char>, candidate: Seq<char>, t: int)
    requires
        0 <= t <= u64::MAX,
    ensures
        code_accepted(secret, current_code_spec(secret, t), t),
        code_accepted(secret, candidate, t) ==> {
            ||| candidate == totp_code_of(secret, window_of(t) - 1)
            ||| candidate == totp_code_of(secret, window_of(t))
            ||| candidate == totp_code_of(secret, window_of(t) + 1)
        },
        stored_code(stored, t) matches Some(c) ==> stored_code_accepted(stored, c, t) == Some(true),
{
}

/// Of two signups with the same username, once the first is written the
/// second is refused, and exactly one record carries that username.
pub proof fn law_signup_atomic(records: Seq<User>, first: User, second_id: u128, second_email: Seq<char>)
    requires
        records_unique(records),
        !has_id(records, first.id),
        !has_username(records, first.username@),
        !has_email(records, first.email@),
    ensures
        records_unique(records.push(first)),
        has_id(records.push(first), second_id) || has_username(records.push(first), first.username@)
            || has_email(records.push(first), second_email),
        has_username(records.push(first), first.username@),
        forall|i: int, j: int|
            0 <= i < records.len() + 1 && 0 <= j < records.len() + 1
                && (#[trigger] records.push(first)[i]).username@ == first.username@
                && (#[trigger] records.push(first)[j]).username@ == first.username@ ==> i == j,
{
    let after = records.push(first);
    let last = records.len() as int;
    assert(after[last] == first);
    assert forall|i: int, j: int|
        0 <= i < after.len() && 0 <= j < after.len() && i != j implies {
            &&& (#[trigger] after[i]).id != (#[trigger] after[j]).id
            &&& after[i].username@ != after[j].username@
            &&& after[i].email@ != after[j].email@
        } by {
        if i == last {
            assert(records[j] == after[j]);
        } else if j == last {
            assert(records[i] == after[i]);
        } else {
            assert(records[i] == after[i] && records[j] == after[j]);
        }
    }
}

/// A second accepted verification, after the first has marked the account,
/// changes nothing: the flag is set once, and the secret that accepted the
/// code is unchanged, so the same code is accepted again.
pub proof fn law_verify_idempotent(before: Seq<User>, middle: Seq<User>, after: Seq<User>, u: User, again: User)
    requires
        records_unique(before),
        marked_verified(before, middle, u),
        middle.contains(again),
        again.username@ == u.username@,
        marked_verified(middle, after, again),
    ensures
        again == verified_record(u),
        again.otp_secret == u.otp_secret,
        again.is_verified(),
        after == middle,
{
    let i = choose|i: int| 0 <= i < before.len() && before[i] == u
        && middle == before.update(i, #[trigger] verified_record(u));
    let k = choose|k: int| 0 <= k < middle.len() && middle[k] == again;
    if k != i {
        assert(before[k] == middle[k]);
        assert(before[k].username@ != before[i].username@);
    }
    let m = choose|m: int| 0 <= m < middle.len() && middle[m] == again
        && after == middle.update(m, #[trigger] verified_record(again));
    if m != i {
        assert(before[m] == middle[m]);
        assert(before[m].username@ != before[i].username@);
    }
    assert(verified_record(verified_record(u)) == verified_record(u));
    assert(after =~= middle);
}

/// After a federated sign-in resolved an email to the record `u` (an existing
/// one, or one provisioned for it), every record with that email is `u`: a
/// second sign-in with the same email resolves to the same record, and no
/// duplicate is created.
pub proof fn law_federated_deterministic(before: Seq<User>, after: Seq<User>, u: User, id: u128, email: Seq<char>)
    requires
        records_unique(after),
        (before.contains(u) && u.email@ == email && after == before)
            || (!has_email(before, email) && is_federated_record(u, id, email) && after == before.push(u)),
    ensures
        after.contains(u),
        u.email@ == email,
        forall|v: User| #[trigger] after.contains(v) && v.email@ == email ==> v == u,
{
    if after != before {
        assert(after[before.len() as int] == u);
    }
    assert(after.contains(u));
    assert forall|v: User| #[trigger] after.contains(v) && v.email@ == email implies v == u by {
        let i = choose|i: int| 0 <= i < after.len() && after[i] == v;
        let j = choose|j: int| 0 <= j < after.len() && after[j] == u;
        assert(after[i].email@ == after[j].email@);
    }
}

} // verus!
