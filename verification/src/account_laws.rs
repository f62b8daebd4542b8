//! What holds of the account store under every sequence of logins.

use vstd::prelude::*;

use crate::account::{
    created, has_key, is_first_match, no_match, refreshed, status_for, upserted, AccountView,
    CredentialView, LoginFlow,
};

verus! {

/// Whether at most one record has the key.
pub open spec fn at_most_one(
    accounts: Seq<AccountView>,
    email: Seq<char>,
    provider: Seq<char>,
) -> bool {
    forall|i: int, j: int|
        0 <= i < j < accounts.len() ==> !(has_key(#[trigger] accounts[i], email, provider)
            && has_key(#[trigger] accounts[j], email, provider))
}

/// Whether the record at `i`, and no other, has the key.
pub open spec fn is_only_match(
    accounts: Seq<AccountView>,
    email: Seq<char>,
    provider: Seq<char>,
    i: int,
) -> bool {
    &&& 0 <= i < accounts.len()
    &&& has_key(accounts[i], email, provider)
    &&& forall|j: int|
        0 <= j < accounts.len() && has_key(#[trigger] accounts[j], email, provider) ==> j == i
}

/// A store has no two first records with one key.
pub proof fn first_match_is_one(
    accounts: Seq<AccountView>,
    email: Seq<char>,
    provider: Seq<char>,
    i: int,
    k: int,
)
    requires
        is_first_match(accounts, email, provider, i),
        is_first_match(accounts, email, provider, k),
    ensures
        i == k,
{
    if i < k {
        assert(has_key(accounts[i], email, provider));
    }
    if k < i {
        assert(has_key(accounts[k], email, provider));
    }
}

/// A store either has a first record with the key or has none with it.
pub proof fn match_or_none(accounts: Seq<AccountView>, email: Seq<char>, provider: Seq<char>)
    ensures
        (exists|i: int| is_first_match(accounts, email, provider, i)) != no_match(
            accounts,
            email,
            provider,
        ),
    decreases accounts.len(),
{
    if accounts.len() == 0 {
    } else {
        let front = accounts.drop_last();
        let last = accounts.len() - 1;
        match_or_none(front, email, provider);
        if exists|i: int| is_first_match(front, email, provider, i) {
            let i = choose|i: int| is_first_match(front, email, provider, i);
            assert(forall|j: int| 0 <= j < i ==> front[j] == accounts[j]);
            assert(front[i] == accounts[i]);
            assert(is_first_match(accounts, email, provider, i));
            assert(has_key(accounts[i], email, provider));
        } else {
            assert(forall|j: int| 0 <= j < last ==> front[j] == accounts[j]);
            if has_key(accounts[last], email, provider) {
                assert forall|j: int| 0 <= j < last implies !has_key(
                    #[trigger] accounts[j],
                    email,
                    provider,
                ) by {
                    assert(!has_key(front[j], email, provider));
                }
                assert(is_first_match(accounts, email, provider, last));
            } else {
                assert forall|j: int| 0 <= j < accounts.len() implies !has_key(
                    #[trigger] accounts[j],
                    email,
                    provider,
                ) by {
                    if j < last {
                        assert(!has_key(front[j], email, provider));
                    }
                }
                if exists|i: int| is_first_match(accounts, email, provider, i) {
                    let i = choose|i: int| is_first_match(accounts, email, provider, i);
                    assert(has_key(accounts[i], email, provider));
                }
            }
        }
    }
}

/// A login leaves exactly one record with its key in a store that had at most
/// one: the record that was there, refreshed, or the new one. The store grows
/// by one record where it had none with the key, and not at all otherwise.
pub proof fn login_leaves_one_record(
    accounts: Seq<AccountView>,
    id: Seq<char>,
    added_at: Seq<char>,
    email: Seq<char>,
    provider: Seq<char>,
    flow: LoginFlow,
    label: Seq<char>,
    c: CredentialView,
) -> (i: int)
    requires
        at_most_one(accounts, email, provider),
    ensures
        is_only_match(
            upserted(accounts, id, added_at, email, provider, flow, label, c),
            email,
            provider,
            i,
        ),
        no_match(accounts, email, provider) ==> i == 0 && upserted(
            accounts,
            id,
            added_at,
            email,
            provider,
            flow,
            label,
            c,
        ) == seq![created(id, added_at, email, provider, flow, label, c)] + accounts,
        !no_match(accounts, email, provider) ==> is_first_match(accounts, email, provider, i)
            && upserted(accounts, id, added_at, email, provider, flow, label, c)
            == accounts.update(i, refreshed(accounts[i], flow, label, c)),
        at_most_one(
            upserted(accounts, id, added_at, email, provider, flow, label, c),
            email,
            provider,
        ),
{
    match_or_none(accounts, email, provider);
    let after = upserted(accounts, id, added_at, email, provider, flow, label, c);
    if exists|k: int| is_first_match(accounts, email, provider, k) {
        let k = choose|k: int| is_first_match(accounts, email, provider, k);
        assert(after == accounts.update(k, refreshed(accounts[k], flow, label, c)));
        assert(has_key(after[k], email, provider));
        assert forall|j: int| 0 <= j < after.len() && has_key(
            #[trigger] after[j],
            email,
            provider,
        ) implies j == k by {
            if j != k {
                assert(after[j] == accounts[j]);
                assert(has_key(accounts[k], email, provider));
                if j < k {
                    assert(!(has_key(accounts[j], email, provider) && has_key(
                        accounts[k],
                        email,
                        provider,
                    )));
                } else {
                    assert(!(has_key(accounts[k], email, provider) && has_key(
                        accounts[j],
                        email,
                        provider,
                    )));
                }
            }
        }
        k
    } else {
        let fresh = created(id, added_at, email, provider, flow, label, c);
        assert(after == seq![fresh] + accounts);
        assert(has_key(after[0], email, provider));
        assert forall|j: int| 0 <= j < after.len() && has_key(
            #[trigger] after[j],
            email,
            provider,
        ) implies j == 0 by {
            if j > 0 {
                assert(after[j] == accounts[j - 1]);
                assert(!has_key(accounts[j - 1], email, provider));
            }
        }
        0
    }
}

/// Two logins with the same identity and provider leave exactly one record
/// with that key, in a store that had at most one; the second login adds no
/// record, and the record holds what the second login brought.
pub proof fn second_login_refreshes_the_record(
    accounts: Seq<AccountView>,
    email: Seq<char>,
    provider: Seq<char>,
    first_id: Seq<char>,
    first_added_at: Seq<char>,
    first_flow: LoginFlow,
    first_label: Seq<char>,
    first: CredentialView,
    second_id: Seq<char>,
    second_added_at: Seq<char>,
    second_flow: LoginFlow,
    second_label: Seq<char>,
    second: CredentialView,
) -> (i: int)
    requires
        at_most_one(accounts, email, provider),
    ensures
        ({
            let once = upserted(
                accounts,
                first_id,
                first_added_at,
                email,
                provider,
                first_flow,
                first_label,
                first,
            );
            let twice = upserted(
                once,
                second_id,
                second_added_at,
                email,
                provider,
                second_flow,
                second_label,
                second,
            );
            &&& twice.len() == once.len()
            &&& is_only_match(twice, email, provider, i)
            &&& twice[i] == refreshed(once[i], second_flow, second_label, second)
            &&& twice[i].access_token == Some(second.access_token)
            &&& twice[i].refresh_token == Some(second.refresh_token)
            &&& twice[i].user_id == second.user_id
            &&& twice[i].usage_data == Some(second.usage_data)
            &&& twice[i].status == status_for(second.banned)
            &&& twice[i].id == once[i].id
            &&& forall|j: int| 0 <= j < twice.len() && j != i ==> twice[j] == once[j]
        }),
{
    let once = upserted(
        accounts,
        first_id,
        first_added_at,
        email,
        provider,
        first_flow,
        first_label,
        first,
    );
    let k = login_leaves_one_record(
        accounts,
        first_id,
        first_added_at,
        email,
        provider,
        first_flow,
        first_label,
        first,
    );
    assert(has_key(once[k], email, provider));
    let i = login_leaves_one_record(
        once,
        second_id,
        second_added_at,
        email,
        provider,
        second_flow,
        second_label,
        second,
    );
    i
}

/// Whether two records are accounts of one identity with one provider.
pub open spec fn same_key(a: AccountView, b: AccountView) -> bool {
    a.provider is Some && a.email == b.email && a.provider == b.provider
}

/// Whether every identity has at most one record with each provider.
pub open spec fn keys_are_single(accounts: Seq<AccountView>) -> bool {
    forall|i: int, j: int|
        0 <= i < j < accounts.len() ==> !same_key(#[trigger] accounts[i], #[trigger] accounts[j])
}

/// A store in which every identity has at most one record with each provider
/// is still such a store after a login, whatever the login brings.
pub proof fn login_keeps_keys_single(
    accounts: Seq<AccountView>,
    id: Seq<char>,
    added_at: Seq<char>,
    email: Seq<char>,
    provider: Seq<char>,
    flow: LoginFlow,
    label: Seq<char>,
    c: CredentialView,
)
    requires
        keys_are_single(accounts),
    ensures
        keys_are_single(upserted(accounts, id, added_at, email, provider, flow, label, c)),
{
    match_or_none(accounts, email, provider);
    let after = upserted(accounts, id, added_at, email, provider, flow, label, c);
    if exists|k: int| is_first_match(accounts, email, provider, k) {
        let k = choose|k: int| is_first_match(accounts, email, provider, k);
        assert(after == accounts.update(k, refreshed(accounts[k], flow, label, c)));
        assert forall|i: int, j: int| 0 <= i < j < after.len() implies !same_key(
            #[trigger] after[i],
            #[trigger] after[j],
        ) by {
            assert(after[i].email == accounts[i].email && after[i].provider
                == accounts[i].provider);
            assert(after[j].email == accounts[j].email && after[j].provider
                == accounts[j].provider);
            assert(!same_key(accounts[i], accounts[j]));
        }
    } else {
        let fresh = created(id, added_at, email, provider, flow, label, c);
        assert(after == seq![fresh] + accounts);
        assert forall|i: int, j: int| 0 <= i < j < after.len() implies !same_key(
            #[trigger] after[i],
            #[trigger] after[j],
        ) by {
            assert(after[j] == accounts[j - 1]);
            if i == 0 {
                assert(!has_key(accounts[j - 1], email, provider));
            } else {
                assert(after[i] == accounts[i - 1]);
                assert(!same_key(accounts[i - 1], accounts[j - 1]));
            }
        }
    }
}

} // verus!
