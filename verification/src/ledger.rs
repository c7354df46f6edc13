//! The ledger as the engine assumes it.
//!
//! The engine does not keep the ledger; it only plans calls to it. What those
//! calls achieve is stated against this model: the open token holdings by
//! address, and what each instruction does to them. An instruction that the
//! model refuses fails on the ledger, and the whole plan with it.

use vstd::prelude::*;
use crate::instruction::{CloseAccount, Instruction, SetAuthority, Transfer};
use crate::pubkey::Pubkey;

verus! {

/// An open token holding: which asset or currency it keeps, who controls it,
/// and how much it keeps.
pub struct Holding {
    pub mint: Pubkey,
    pub authority: Pubkey,
    pub amount: u64,
}

/// The open holdings of a ledger, by address.
pub type Ledger = Map<Pubkey, Holding>;

/// A transfer moves `amount` from one open holding to another of the same
/// mint, under the authority of the first, which must keep at least that
/// much. A holding's balance never exceeds `u64::MAX`.
pub open spec fn transfer(ledger: Ledger, accounts: Transfer, amount: u64) -> Option<Ledger> {
    if ledger.contains_key(accounts.from) && ledger.contains_key(accounts.to) {
        let source = ledger[accounts.from];
        let target = ledger[accounts.to];
        if source.authority != accounts.authority || source.mint != target.mint || source.amount
            < amount {
            None
        } else if accounts.from == accounts.to {
            Some(ledger)
        } else if target.amount + amount > u64::MAX {
            None
        } else {
            Some(
                ledger.insert(
                    accounts.from,
                    Holding { amount: (source.amount - amount) as u64, ..source },
                ).insert(accounts.to, Holding { amount: (target.amount + amount) as u64, ..target }),
            )
        }
    } else {
        None
    }
}

/// A change of custody hands an open holding from its current authority to a
/// new one.
pub open spec fn set_authority(ledger: Ledger, accounts: SetAuthority, new_authority: Pubkey)
    -> Option<Ledger> {
    if ledger.contains_key(accounts.account_or_mint) && ledger[accounts.account_or_mint].authority
        == accounts.current_authority {
        Some(
            ledger.insert(
                accounts.account_or_mint,
                Holding { authority: new_authority, ..ledger[accounts.account_or_mint] },
            ),
        )
    } else {
        None
    }
}

/// A closure removes an open, empty holding, under its authority.
pub open spec fn close_account(ledger: Ledger, accounts: CloseAccount) -> Option<Ledger> {
    if ledger.contains_key(accounts.account) && ledger[accounts.account].authority
        == accounts.authority && ledger[accounts.account].amount == 0 {
        Some(ledger.remove(accounts.account))
    } else {
        None
    }
}

/// The ledger after one instruction, or `None` where the ledger refuses it.
pub open spec fn step(ledger: Ledger, instruction: Instruction) -> Option<Ledger> {
    match instruction {
        Instruction::Transfer { accounts, amount, .. } => transfer(ledger, accounts, amount),
        Instruction::SetAuthority { accounts, new_authority, .. } => set_authority(
            ledger,
            accounts,
            new_authority,
        ),
        Instruction::CloseAccount { accounts, .. } => close_account(ledger, accounts),
    }
}

/// The ledger after the instructions in order, or `None` where the ledger
/// refuses one of them.
pub open spec fn run(ledger: Ledger, instructions: Seq<Instruction>) -> Option<Ledger>
    decreases instructions.len(),
{
    if instructions.len() == 0 {
        Some(ledger)
    } else {
        match step(ledger, instructions.first()) {
            Some(next) => run(next, instructions.drop_first()),
            None => None,
        }
    }
}

/// Running one instruction is taking one step.
pub proof fn lemma_run_one(ledger: Ledger, instruction: Instruction)
    ensures
        run(ledger, seq![instruction]) == step(ledger, instruction),
{
    let only = seq![instruction];
    assert(only.first() == instruction);
    assert(only.drop_first() =~= Seq::<Instruction>::empty());
    if step(ledger, instruction) is Some {
        assert(run(step(ledger, instruction).unwrap(), only.drop_first()) == step(
            ledger,
            instruction,
        ));
    }
}

/// Running two sequences one after the other is running them joined.
pub proof fn lemma_run_joined(ledger: Ledger, first: Seq<Instruction>, second: Seq<Instruction>)
    ensures
        run(ledger, first + second) == match run(ledger, first) {
            Some(between) => run(between, second),
            None => None,
        },
    decreases first.len(),
{
    if first.len() == 0 {
        assert(first + second =~= second);
    } else {
        assert((first + second).first() == first.first());
        assert((first + second).drop_first() =~= first.drop_first() + second);
        if step(ledger, first.first()) is Some {
            lemma_run_joined(step(ledger, first.first()).unwrap(), first.drop_first(), second);
        }
    }
}

/// Running two instructions is taking two steps.
pub proof fn lemma_run_two(ledger: Ledger, first: Instruction, second: Instruction)
    ensures
        run(ledger, seq![first, second]) == match step(ledger, first) {
            Some(between) => step(between, second),
            None => None,
        },
{
    assert(seq![first, second] =~= seq![first] + seq![second]);
    lemma_run_joined(ledger, seq![first], seq![second]);
    lemma_run_one(ledger, first);
    if step(ledger, first) is Some {
        lemma_run_one(step(ledger, first).unwrap(), second);
    }
}

/// How much of `mint` the holding at `key` keeps; nothing where there is no
/// such holding.
pub open spec fn held(ledger: Ledger, key: Pubkey, mint: Pubkey) -> nat {
    if ledger.contains_key(key) && ledger[key].mint == mint {
        ledger[key].amount as nat
    } else {
        0
    }
}

/// How much of `mint` the holdings at `keys` keep together.
pub open spec fn total(ledger: Ledger, keys: Set<Pubkey>, mint: Pubkey) -> nat
    decreases keys.len(),
    when keys.finite()
{
    if keys.len() == 0 {
        0
    } else {
        let key = keys.choose();
        held(ledger, key, mint) + total(ledger, keys.remove(key), mint)
    }
}

/// How much of `mint` exists on the ledger.
pub open spec fn supply(ledger: Ledger, mint: Pubkey) -> nat {
    total(ledger, ledger.dom(), mint)
}

/// Any one key can be taken out of a total first.
pub proof fn lemma_total_remove(ledger: Ledger, keys: Set<Pubkey>, mint: Pubkey, key: Pubkey)
    requires
        keys.finite(),
        keys.contains(key),
    ensures
        total(ledger, keys, mint) == held(ledger, key, mint) + total(
            ledger,
            keys.remove(key),
            mint,
        ),
    decreases keys.len(),
{
    let first = keys.choose();
    if first != key {
        lemma_total_remove(ledger, keys.remove(first), mint, key);
        lemma_total_remove(ledger, keys.remove(key), mint, first);
        assert(keys.remove(first).remove(key) =~= keys.remove(key).remove(first));
    }
}

/// Two ledgers that agree on every holding at `keys` have the same total
/// there.
pub proof fn lemma_total_agree(a: Ledger, b: Ledger, keys: Set<Pubkey>, mint: Pubkey)
    requires
        keys.finite(),
        forall|key: Pubkey| keys.contains(key) ==> held(a, key, mint) == held(b, key, mint),
    ensures
        total(a, keys, mint) == total(b, keys, mint),
    decreases keys.len(),
{
    if keys.len() != 0 {
        let key = keys.choose();
        lemma_total_agree(a, b, keys.remove(key), mint);
    }
}

/// No instruction creates or destroys tokens.
pub proof fn lemma_step_conserves(ledger: Ledger, instruction: Instruction, mint: Pubkey)
    requires
        ledger.dom().finite(),
        step(ledger, instruction) is Some,
    ensures
        step(ledger, instruction).unwrap().dom().finite(),
        supply(step(ledger, instruction).unwrap(), mint) == supply(ledger, mint),
{
    let next = step(ledger, instruction).unwrap();
    let keys = ledger.dom();
    match instruction {
        Instruction::Transfer { accounts, amount, .. } => {
            let from = accounts.from;
            let to = accounts.to;
            if from != to {
                assert(next.dom() =~= keys);
                let rest = keys.remove(from).remove(to);
                lemma_total_remove(ledger, keys, mint, from);
                lemma_total_remove(ledger, keys.remove(from), mint, to);
                lemma_total_remove(next, keys, mint, from);
                lemma_total_remove(next, keys.remove(from), mint, to);
                lemma_total_agree(ledger, next, rest, mint);
            }
        },
        Instruction::SetAuthority { accounts, .. } => {
            assert(next.dom() =~= keys);
            lemma_total_agree(ledger, next, keys, mint);
        },
        Instruction::CloseAccount { accounts, .. } => {
            assert(next.dom() =~= keys.remove(accounts.account));
            lemma_total_remove(ledger, keys, mint, accounts.account);
            lemma_total_agree(ledger, next, keys.remove(accounts.account), mint);
        },
    }
}

/// No sequence of instructions creates or destroys tokens.
pub proof fn lemma_run_conserves(ledger: Ledger, instructions: Seq<Instruction>, mint: Pubkey)
    requires
        ledger.dom().finite(),
        run(ledger, instructions) is Some,
    ensures
        run(ledger, instructions).unwrap().dom().finite(),
        supply(run(ledger, instructions).unwrap(), mint) == supply(ledger, mint),
    decreases instructions.len(),
{
    if instructions.len() != 0 {
        let next = step(ledger, instructions.first()).unwrap();
        lemma_step_conserves(ledger, instructions.first(), mint);
        lemma_run_conserves(next, instructions.drop_first(), mint);
    }
}

} // verus!
