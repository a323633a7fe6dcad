//! What measurements of the bounty engine are set up with.

use crate::bounty::Module;
use crate::bounty::state::State;
use crate::ledger::AccountId;
use vstd::prelude::*;

verus! {

/// The byte of `num` at position `byte_number`, the least significant byte first.
pub open spec fn byte_of(num: u32, byte_number: u8) -> u8 {
    if byte_number == 0 {
        (num % 256) as u8
    } else if byte_number == 1 {
        (num / 0x100 % 256) as u8
    } else if byte_number == 2 {
        (num / 0x1_0000 % 256) as u8
    } else {
        (num / 0x100_0000 % 256) as u8
    }
}

/// The byte of `num` at position `byte_number`, the least significant byte first.
pub fn get_byte(num: u32, byte_number: u8) -> (byte: u8)
    requires
        byte_number < 4,
    ensures
        byte == byte_of(num, byte_number),
{
    let shift: u32 = 8 * (byte_number as u32);
    assert(((num & (0xffu32 << shift)) >> shift) == (if shift == 0 {
        num % 256
    } else if shift == 8 {
        num / 0x100 % 256
    } else if shift == 16 {
        num / 0x1_0000 % 256
    } else {
        num / 0x100_0000 % 256
    })) by (bit_vector)
        requires
            shift == 0 || shift == 8 || shift == 16 || shift == 24,
    ;
    ((num & (0xffu32 << shift)) >> shift) as u8
}

/// A handle for the member with this index, distinct for each index: the four bytes of the
/// index, the least significant first.
pub fn handle_from_id(id: u32) -> (handle: Vec<u8>)
    ensures
        handle@ == seq![byte_of(id, 0), byte_of(id, 1), byte_of(id, 2), byte_of(id, 3)],
{
    let mut handle: Vec<u8> = Vec::new();
    let mut i: u8 = 0;
    while i < 4
        invariant
            i <= 4,
            handle@.len() == i,
            forall|k: int| 0 <= k < i ==> handle@[k] == byte_of(id, k as u8),
        decreases 4 - i,
    {
        handle.push(get_byte(id, i));
        i += 1;
    }
    assert(handle@ =~= seq![byte_of(id, 0), byte_of(id, 1), byte_of(id, 2), byte_of(id, 3)]);
    handle
}

/// Handles of different indices differ.
pub proof fn lemma_handles_are_distinct(a: u32, b: u32)
    requires
        a != b,
    ensures
        seq![byte_of(a, 0), byte_of(a, 1), byte_of(a, 2), byte_of(a, 3)] != seq![
            byte_of(b, 0),
            byte_of(b, 1),
            byte_of(b, 2),
            byte_of(b, 3),
        ],
{
    let ha = seq![byte_of(a, 0), byte_of(a, 1), byte_of(a, 2), byte_of(a, 3)];
    let hb = seq![byte_of(b, 0), byte_of(b, 1), byte_of(b, 2), byte_of(b, 3)];
    if ha == hb {
        assert(ha[0] == hb[0] && ha[1] == hb[1] && ha[2] == hb[2] && ha[3] == hb[3]);
        assert(a == b) by (bit_vector)
            requires
                a % 256 == b % 256,
                a / 0x100 % 256 == b / 0x100 % 256,
                a / 0x1_0000 % 256 == b / 0x1_0000 % 256,
                a / 0x100_0000 % 256 == b / 0x100_0000 % 256,
        ;
    }
}

/// Makes the account the controller account of the member with the index `id`, and makes the
/// largest balance what the account holds, so that the member can pay for whatever is
/// measured.
pub fn member_funded_account(module: &mut Module, account_id: u64, id: u32) -> (ids: (u64, u64))
    requires
        old(module).wf(),
    ensures
        final(module).wf(),
        ids == (account_id, id as u64),
        final(module)@.balances[AccountId::External(account_id)] == u64::MAX,
        final(module)@ == (State {
            members: old(module)@.members.insert(id as u64, account_id),
            balances: old(module)@.balances.insert(
                AccountId::External(account_id),
                u64::MAX as nat,
            ),
            total_issuance: (old(module)@.total_issuance
                - old(module)@.balances[AccountId::External(account_id)] + u64::MAX) as nat,
            ..old(module)@
        }),
{
    let member_id = id as u64;
    module.set_member_account(member_id, account_id);
    module.set_account_balance(account_id, u64::MAX);
    (account_id, member_id)
}

} // verus!
