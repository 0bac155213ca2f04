//! What the accounts hold after an instruction's writes, zeroing and lamport moves are carried
//! out on them, in order. Creating accounts and invoking other programs are the runtime's and
//! the invoked program's work, and are not modelled here.

use crate::account::{accounts_view, AccountInfo, AccountView, Effect, EffectView};
use crate::codec::{
    account_type_is, data_encodable, data_is_utf8, metadata_of_data, sp_data, sp_metadata,
    sp_metadata_head, sp_opt_creators, sp_string, sp_u32, sp_u8,
};
use crate::decode::lemma_sp_creators_len;
use crate::state::{Key, MetadataView};
use vstd::prelude::*;
use vstd::utf8::valid_utf8;

verus! {

/// `n` zero bytes.
pub open spec fn zeros(n: nat) -> Seq<u8> {
    Seq::new(n, |i: int| 0u8)
}

/// An account's data with `bytes` written at its start, after zeroing all of it when `clean`.
pub open spec fn written(data: Seq<u8>, bytes: Seq<u8>, clean: bool) -> Seq<u8> {
    let base = if clean {
        zeros(data.len())
    } else {
        data
    };
    bytes + base.skip(bytes.len() as int)
}

/// An account's data with its first `len` bytes (all of them where it is shorter) zeroed.
pub open spec fn zeroed_prefix(data: Seq<u8>, len: nat) -> Seq<u8> {
    let n = if len < data.len() {
        len
    } else {
        data.len()
    };
    zeros(n) + data.skip(n as int)
}

pub open spec fn with_data(a: AccountView, data: Seq<u8>) -> AccountView {
    AccountView { data, ..a }
}

pub open spec fn with_lamports(a: AccountView, lamports: u64) -> AccountView {
    AccountView { lamports, ..a }
}

/// The accounts after one effect: a write must fit in the account's data, a lamport move must
/// not overflow the receiving balance, and the accounts named must exist. Creating an account
/// and invoking another program give `None`: what they do is not the library's to say.
pub open spec fn apply_effect(accs: Seq<AccountView>, e: EffectView) -> Option<Seq<AccountView>> {
    match e {
        EffectView::Write { account, bytes, clean } => {
            let i = account as int;
            if i < accs.len() && bytes.len() <= accs[i].data.len() {
                Some(accs.update(i, with_data(accs[i], written(accs[i].data, bytes, clean))))
            } else {
                None
            }
        },
        EffectView::Zero { account, len } => {
            let i = account as int;
            if i < accs.len() {
                Some(accs.update(i, with_data(accs[i], zeroed_prefix(accs[i].data, len as nat))))
            } else {
                None
            }
        },
        EffectView::DrainLamports { from, to } => {
            let (f, t) = (from as int, to as int);
            if f < accs.len() && t < accs.len() {
                let drained = accs.update(f, with_lamports(accs[f], 0));
                let total = drained[t].lamports + accs[f].lamports;
                if total > u64::MAX {
                    None
                } else {
                    Some(drained.update(t, with_lamports(drained[t], total as u64)))
                }
            } else {
                None
            }
        },
        _ => None,
    }
}

/// The accounts after a list of effects, carried out in order; `None` when one of them cannot
/// be carried out here.
pub open spec fn apply_effects(accs: Seq<AccountView>, effs: Seq<EffectView>) -> Option<
    Seq<AccountView>,
>
    decreases effs.len(),
{
    if effs.len() == 0 {
        Some(accs)
    } else {
        match apply_effect(accs, effs[0]) {
            None => None,
            Some(next) => apply_effects(next, effs.skip(1)),
        }
    }
}

/// The data of an account after writing `bytes` at its start (zeroing all of it first when
/// `clean`).
fn written_data(data: &Vec<u8>, bytes: &Vec<u8>, clean: bool) -> (out: Vec<u8>)
    requires
        bytes@.len() <= data@.len(),
    ensures
        out@ == written(data@, bytes@, clean),
{
    let mut out: Vec<u8> = Vec::new();
    let mut k: usize = 0;
    while k < data.len()
        invariant
            k <= data@.len(),
            bytes@.len() <= data@.len(),
            out@.len() == k,
            forall|j: int| 0 <= j < k ==> out@[j] == (if j < bytes@.len() {
                bytes@[j]
            } else if clean {
                0u8
            } else {
                data@[j]
            }),
        decreases data@.len() - k,
    {
        let b = if k < bytes.len() {
            bytes[k]
        } else if clean {
            0u8
        } else {
            data[k]
        };
        out.push(b);
        k = k + 1;
    }
    assert(out@ =~= written(data@, bytes@, clean));
    out
}

/// The data of an account with its first `len` bytes zeroed.
fn zeroed_data(data: &Vec<u8>, len: usize) -> (out: Vec<u8>)
    ensures
        out@ == zeroed_prefix(data@, len as nat),
{
    let mut out: Vec<u8> = Vec::new();
    let mut k: usize = 0;
    while k < data.len()
        invariant
            k <= data@.len(),
            out@.len() == k,
            forall|j: int| 0 <= j < k ==> out@[j] == (if j < len {
                0u8
            } else {
                data@[j]
            }),
        decreases data@.len() - k,
    {
        let b = if k < len {
            0u8
        } else {
            data[k]
        };
        out.push(b);
        k = k + 1;
    }
    assert(out@ =~= zeroed_prefix(data@, len as nat));
    out
}

proof fn lemma_accounts_view_update(v: Seq<AccountInfo>, i: int, a: AccountInfo)
    requires
        0 <= i < v.len(),
    ensures
        accounts_view(v.update(i, a)) == accounts_view(v).update(i, a@),
{
    assert(accounts_view(v.update(i, a)) =~= accounts_view(v).update(i, a@));
}

/// Carries out one effect on the accounts, where the library can: a write, a zeroing or a
/// lamport move. Returns whether it could; the accounts are left as they were when it could not.
pub fn apply_effect_to(accounts: &mut Vec<AccountInfo>, e: &Effect) -> (ok: bool)
    ensures
        ok == apply_effect(accounts_view(old(accounts)@), e@) is Some,
        ok ==> accounts_view(final(accounts)@) == apply_effect(accounts_view(old(accounts)@), e@).unwrap(),
        !ok ==> final(accounts)@ == old(accounts)@,
{
    let ghost before = accounts_view(accounts@);
    match e {
        Effect::Write { account, bytes, clean } => {
            let i = *account;
            if i < accounts.len() && bytes.len() <= accounts[i].data.len() {
                let mut a = accounts[i].clone_account();
                a.data = written_data(&accounts[i].data, bytes, *clean);
                proof {
                    lemma_accounts_view_update(accounts@, i as int, a);
                }
                accounts.set(i, a);
                assert(accounts_view(accounts@) =~= before.update(
                    i as int,
                    with_data(before[i as int], written(before[i as int].data, bytes@, *clean)),
                ));
                true
            } else {
                false
            }
        },
        Effect::Zero { account, len } => {
            let i = *account;
            if i < accounts.len() {
                let mut a = accounts[i].clone_account();
                a.data = zeroed_data(&accounts[i].data, *len);
                proof {
                    lemma_accounts_view_update(accounts@, i as int, a);
                }
                accounts.set(i, a);
                assert(accounts_view(accounts@) =~= before.update(
                    i as int,
                    with_data(before[i as int], zeroed_prefix(before[i as int].data, *len as nat)),
                ));
                true
            } else {
                false
            }
        },
        Effect::DrainLamports { from, to } => {
            let (f, t) = (*from, *to);
            if f < accounts.len() && t < accounts.len() {
                let amount = accounts[f].lamports;
                let to_before = if t == f {
                    0
                } else {
                    accounts[t].lamports
                };
                match to_before.checked_add(amount) {
                    None => false,
                    Some(total) => {
                        let mut a = accounts[f].clone_account();
                        a.lamports = 0;
                        proof {
                            lemma_accounts_view_update(accounts@, f as int, a);
                        }
                        accounts.set(f, a);
                        let ghost drained = accounts_view(accounts@);
                        assert(drained =~= before.update(f as int, with_lamports(before[f as int], 0)));
                        let mut b = accounts[t].clone_account();
                        b.lamports = total;
                        proof {
                            lemma_accounts_view_update(accounts@, t as int, b);
                        }
                        accounts.set(t, b);
                        assert(accounts_view(accounts@) =~= drained.update(
                            t as int,
                            with_lamports(drained[t as int], total),
                        ));
                        true
                    },
                }
            } else {
                false
            }
        },
        _ => false,
    }
}

/// Carries out a list of effects in order, where the library can (writes, zeroing and lamport
/// moves); stops and returns `false` at the first it cannot.
pub fn apply_effects_to(accounts: &mut Vec<AccountInfo>, effects: &Vec<Effect>) -> (ok: bool)
    ensures
        ok == apply_effects(accounts_view(old(accounts)@), crate::account::effects_view(effects@)) is Some,
        ok ==> accounts_view(final(accounts)@) == apply_effects(
            accounts_view(old(accounts)@),
            crate::account::effects_view(effects@),
        ).unwrap(),
{
    let ghost all = crate::account::effects_view(effects@);
    let ghost start = accounts_view(accounts@);
    let mut k: usize = 0;
    assert(all.skip(0) =~= all);
    while k < effects.len()
        invariant
            k <= effects@.len(),
            all == crate::account::effects_view(effects@),
            all.len() == effects@.len(),
            start == accounts_view(old(accounts)@),
            apply_effects(start, all) == apply_effects(accounts_view(accounts@), all.skip(k as int)),
        decreases effects@.len() - k,
    {
        let ghost cur = accounts_view(accounts@);
        assert(all.skip(k as int)[0] == effects@[k as int]@);
        assert(all.skip(k as int).skip(1) =~= all.skip(k + 1));
        let ok = apply_effect_to(accounts, &effects[k]);
        if !ok {
            assert(apply_effects(cur, all.skip(k as int)) is None);
            return false;
        }
        k = k + 1;
    }
    assert(all.skip(k as int) =~= Seq::<EffectView>::empty());
    assert(apply_effects(accounts_view(accounts@), all.skip(k as int)) == Some(accounts_view(accounts@)));
    true
}

/// The accounts after a single write of `bytes` at the start of account `i`.
pub proof fn lemma_apply_single_write(accs: Seq<AccountView>, i: usize, bytes: Seq<u8>, clean: bool)
    requires
        i < accs.len(),
        bytes.len() <= accs[i as int].data.len(),
    ensures
        apply_effects(accs, seq![EffectView::Write { account: i, bytes, clean }]) == Some(
            accs.update(i as int, with_data(accs[i as int], written(accs[i as int].data, bytes, clean))),
        ),
{
    let e = EffectView::Write { account: i, bytes, clean };
    let next = accs.update(i as int, with_data(accs[i as int], written(accs[i as int].data, bytes, clean)));
    assert(apply_effect(accs, e) == Some(next));
    assert(seq![e].skip(1) =~= Seq::<EffectView>::empty());
    reveal_with_fuel(apply_effects, 2);
}

/// The accounts after two writes to different accounts.
pub proof fn lemma_apply_two_writes(
    accs: Seq<AccountView>,
    i: usize,
    bi: Seq<u8>,
    ci: bool,
    j: usize,
    bj: Seq<u8>,
    cj: bool,
)
    requires
        i < accs.len(),
        j < accs.len(),
        i != j,
        bi.len() <= accs[i as int].data.len(),
        bj.len() <= accs[j as int].data.len(),
    ensures
        apply_effects(
            accs,
            seq![EffectView::Write { account: i, bytes: bi, clean: ci }, EffectView::Write { account: j, bytes: bj, clean: cj }],
        ) == Some(
            accs.update(i as int, with_data(accs[i as int], written(accs[i as int].data, bi, ci))).update(
                j as int,
                with_data(accs[j as int], written(accs[j as int].data, bj, cj)),
            ),
        ),
{
    let e1 = EffectView::Write { account: i, bytes: bi, clean: ci };
    let e2 = EffectView::Write { account: j, bytes: bj, clean: cj };
    let effs = seq![e1, e2];
    let mid = accs.update(i as int, with_data(accs[i as int], written(accs[i as int].data, bi, ci)));
    assert(apply_effect(accs, e1) == Some(mid));
    assert(effs.skip(1) =~= seq![e2]);
    assert(mid[j as int] == accs[j as int]);
    lemma_apply_single_write(mid, j, bj, cj);
    reveal_with_fuel(apply_effects, 2);
}

/// Writing bytes that the data already starts with leaves the data as it is.
pub proof fn lemma_rewrite_same(bytes: Seq<u8>, t: Seq<u8>)
    ensures
        written(bytes + t, bytes, false) == bytes + t,
{
    assert((bytes + t).skip(bytes.len() as int) =~= t);
}

/// A string read from bytes has a length that fits in four bytes and is UTF-8.
proof fn lemma_sp_string_valid(s: Seq<u8>)
    ensures
        sp_string(s) matches Some((x, _)) ==> x.len() <= u32::MAX && valid_utf8(x),
{
    reveal(sp_string);
    if let Some((n, r)) = sp_u32(s) {
        if r.len() >= n && valid_utf8(r.take(n as int)) {
            assert(r.take(n as int).len() == n);
        }
    }
}

/// Descriptive fields read from bytes can be written back: their lengths fit in four bytes and
/// their strings are UTF-8.
pub proof fn lemma_sp_data_valid(s: Seq<u8>)
    ensures
        sp_data(s) matches Some((d, _)) ==> data_encodable(d) && data_is_utf8(d),
{
    reveal(sp_data);
    reveal(sp_opt_creators);
    lemma_sp_string_valid(s);
    if let Some((name, r1)) = sp_string(s) {
        lemma_sp_string_valid(r1);
        if let Some((symbol, r2)) = sp_string(r1) {
            lemma_sp_string_valid(r2);
            if let Some((uri, r3)) = sp_string(r2) {
                if let Some((fee, r4)) = crate::codec::sp_u16(r3) {
                    if let Some((t, r)) = sp_u8(r4) {
                        if t == 1 {
                            if let Some((n, r5)) = sp_u32(r) {
                                lemma_sp_creators_len(r5, n as nat);
                            }
                        }
                    }
                }
            }
        }
    }
}

/// A metadata record that an account holds can be written back: its descriptive fields are
/// valid and its key is that of a metadata record (or uninitialized).
pub proof fn lemma_metadata_of_data_valid(s: Seq<u8>)
    ensures
        metadata_of_data(s) matches Some(m) ==> data_encodable(m.data) && data_is_utf8(m.data) && (
        m.key == Key::MetadataV1 || m.key == Key::Uninitialized),
{
    reveal(sp_metadata_head);
    if account_type_is(s, Key::MetadataV1, 0) {
        if let Some((kb, r0)) = sp_u8(s) {
            if let Some(key) = crate::state::key_of_byte(kb) {
                if let Some((ua, r1)) = crate::codec::sp_pubkey(r0) {
                    if let Some((mint, r2)) = crate::codec::sp_pubkey(r1) {
                        lemma_sp_data_valid(r2);
                    }
                }
            }
        }
    }
}

} // verus!
