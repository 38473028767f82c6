use crate::address::Address;
use crate::context::{BatchPayment, SplitPayment, TransferByName};
use crate::payments::{batch_total, batch_transfers, split_transfers};
use crate::split::{lemma_split_is_exact, paid_before, shares_of, split_leg, total_bps};
use crate::state::{BatchPaymentEntry, SplitRecipient, VaultTransfer};
use vstd::prelude::*;

verus! {

/// The sum of the amounts of a list of movements.
pub open spec fn total_moved(transfers: Seq<VaultTransfer>) -> int
    decreases transfers.len(),
{
    if transfers.len() == 0 {
        0
    } else {
        total_moved(transfers.drop_last()) + transfers.last().amount
    }
}

/// What a list of movements takes out of `vault`.
pub open spec fn debited_from(transfers: Seq<VaultTransfer>, vault: Address) -> int
    decreases transfers.len(),
{
    if transfers.len() == 0 {
        0
    } else {
        debited_from(transfers.drop_last(), vault) + if transfers.last().from == vault {
            transfers.last().amount as int
        } else {
            0
        }
    }
}

/// What a list of movements puts into `vault`.
pub open spec fn credited_to(transfers: Seq<VaultTransfer>, vault: Address) -> int
    decreases transfers.len(),
{
    if transfers.len() == 0 {
        0
    } else {
        credited_to(transfers.drop_last(), vault) + if transfers.last().to == vault {
            transfers.last().amount as int
        } else {
            0
        }
    }
}

/// By how much a list of movements changes the balance of `vault`.
pub open spec fn net_change(transfers: Seq<VaultTransfer>, vault: Address) -> int {
    credited_to(transfers, vault) - debited_from(transfers, vault)
}

/// The sum, over a list of vaults, of the changes of their balances.
pub open spec fn net_change_of_all(transfers: Seq<VaultTransfer>, vaults: Seq<Address>) -> int
    decreases vaults.len(),
{
    if vaults.len() == 0 {
        0
    } else {
        net_change_of_all(transfers, vaults.drop_last()) + net_change(transfers, vaults.last())
    }
}

/// Whether every movement goes from one of `vaults` to one of `vaults`.
pub open spec fn moves_within(transfers: Seq<VaultTransfer>, vaults: Seq<Address>) -> bool {
    forall|i: int|
        0 <= i < transfers.len() ==> vaults.contains((#[trigger] transfers[i]).from)
            && vaults.contains(transfers[i].to)
}

/// Whether every movement comes out of `vault`.
pub open spec fn all_from(transfers: Seq<VaultTransfer>, vault: Address) -> bool {
    forall|i: int| 0 <= i < transfers.len() ==> (#[trigger] transfers[i]).from == vault
}

/// Over a list of vaults, the changes that one more movement adds.
proof fn lemma_one_more_movement(
    transfers: Seq<VaultTransfer>,
    movement: VaultTransfer,
    vaults: Seq<Address>,
)
    requires
        vaults.no_duplicates(),
    ensures
        net_change_of_all(transfers.push(movement), vaults) == net_change_of_all(
            transfers,
            vaults,
        ) + (if vaults.contains(movement.to) {
            movement.amount as int
        } else {
            0
        }) - (if vaults.contains(movement.from) {
            movement.amount as int
        } else {
            0
        }),
    decreases vaults.len(),
{
    let more = transfers.push(movement);
    assert(more.drop_last() =~= transfers);
    if vaults.len() > 0 {
        let rest = vaults.drop_last();
        let last = vaults.last();
        assert(rest.no_duplicates());
        lemma_one_more_movement(transfers, movement, rest);
        assert(forall|a: Address| vaults.contains(a) <==> rest.contains(a) || a == last) by {
            assert forall|a: Address| vaults.contains(a) implies rest.contains(a) || a == last by {
                let i = choose|i: int| 0 <= i < vaults.len() && vaults[i] == a;
                if i < vaults.len() - 1 {
                    assert(rest[i] == a);
                }
            }
            assert forall|a: Address| rest.contains(a) || a == last implies vaults.contains(a) by {
                if rest.contains(a) {
                    let i = choose|i: int| 0 <= i < rest.len() && rest[i] == a;
                    assert(vaults[i] == a);
                } else {
                    assert(vaults[vaults.len() - 1] == a);
                }
            }
        }
        assert(!rest.contains(last)) by {
            if rest.contains(last) {
                let i = choose|i: int| 0 <= i < rest.len() && rest[i] == last;
                assert(vaults[i] == vaults[vaults.len() - 1]);
            }
        }
    }
}

/// Movements create and destroy nothing: over any list of distinct vaults
/// that holds both ends of every movement, the balances add up to the same
/// after the movements as before.
pub proof fn lemma_movements_conserve(transfers: Seq<VaultTransfer>, vaults: Seq<Address>)
    requires
        vaults.no_duplicates(),
        moves_within(transfers, vaults),
    ensures
        net_change_of_all(transfers, vaults) == 0,
    decreases transfers.len(),
{
    if transfers.len() == 0 {
        assert(transfers =~= Seq::<VaultTransfer>::empty());
        lemma_nothing_moved(vaults);
    } else {
        let before = transfers.drop_last();
        let last = transfers.last();
        assert(moves_within(before, vaults)) by {
            assert forall|i: int| 0 <= i < before.len() implies vaults.contains(
                (#[trigger] before[i]).from,
            ) && vaults.contains(before[i].to) by {
                assert(before[i] == transfers[i]);
            }
        }
        lemma_movements_conserve(before, vaults);
        lemma_one_more_movement(before, last, vaults);
        assert(before.push(last) =~= transfers);
        assert(transfers[transfers.len() - 1] == last);
    }
}

/// No movements change no balance.
proof fn lemma_nothing_moved(vaults: Seq<Address>)
    ensures
        net_change_of_all(Seq::<VaultTransfer>::empty(), vaults) == 0,
    decreases vaults.len(),
{
    if vaults.len() > 0 {
        lemma_nothing_moved(vaults.drop_last());
    }
}

/// Movements that all come out of one vault take out of it exactly what
/// they put into their destinations together.
pub proof fn lemma_debit_is_total(transfers: Seq<VaultTransfer>, vault: Address)
    requires
        all_from(transfers, vault),
    ensures
        debited_from(transfers, vault) == total_moved(transfers),
    decreases transfers.len(),
{
    if transfers.len() > 0 {
        let before = transfers.drop_last();
        assert(all_from(before, vault)) by {
            assert forall|i: int| 0 <= i < before.len() implies (#[trigger] before[i]).from
                == vault by {
                assert(before[i] == transfers[i]);
            }
        }
        lemma_debit_is_total(before, vault);
        assert(transfers[transfers.len() - 1].from == vault);
    }
}

/// A direct transfer takes out of the sender's vault exactly the amount
/// that it puts into the receiver's.
pub proof fn lemma_transfer_conserves(ctx: TransferByName, amount: u64)
    ensures
        ({
            let movement = VaultTransfer {
                from: ctx.sender_vault,
                to: ctx.receiver_vault,
                authority: ctx.sender_vault,
                amount,
            };
            &&& debited_from(seq![movement], ctx.sender_vault) == amount
            &&& credited_to(seq![movement], ctx.receiver_vault) == amount
            &&& total_moved(seq![movement]) == amount
        }),
{
    let movement = VaultTransfer {
        from: ctx.sender_vault,
        to: ctx.receiver_vault,
        authority: ctx.sender_vault,
        amount,
    };
    reveal_with_fuel(debited_from, 2);
    reveal_with_fuel(credited_to, 2);
    reveal_with_fuel(total_moved, 2);
    assert(seq![movement].drop_last() =~= Seq::<VaultTransfer>::empty());
    assert(seq![movement].last() == movement);
}

/// The first `upto` movements of a batch move the sum of the first `upto`
/// amounts.
proof fn lemma_batch_prefix_total(ctx: BatchPayment, payments: Seq<BatchPaymentEntry>, upto: int)
    requires
        0 <= upto <= payments.len(),
    ensures
        total_moved(batch_transfers(ctx, payments).take(upto)) == batch_total(payments, upto),
    decreases upto,
{
    let all = batch_transfers(ctx, payments);
    if upto > 0 {
        lemma_batch_prefix_total(ctx, payments, upto - 1);
        assert(all.take(upto).drop_last() =~= all.take(upto - 1));
        assert(all.take(upto).last() == all[upto - 1]);
    }
}

/// A batch takes out of the sender's vault exactly the sum of the amounts
/// of its payments, which is what it puts into the recipients' vaults
/// together and what the sender is charged.
pub proof fn lemma_batch_conserves(ctx: BatchPayment, payments: Seq<BatchPaymentEntry>)
    ensures
        all_from(batch_transfers(ctx, payments), ctx.sender_vault),
        total_moved(batch_transfers(ctx, payments)) == batch_total(
            payments,
            payments.len() as int,
        ),
        debited_from(batch_transfers(ctx, payments), ctx.sender_vault) == batch_total(
            payments,
            payments.len() as int,
        ),
{
    let all = batch_transfers(ctx, payments);
    lemma_batch_prefix_total(ctx, payments, payments.len() as int);
    assert(all.take(payments.len() as int) =~= all);
    lemma_debit_is_total(all, ctx.sender_vault);
}

/// The movements of a split to its first `upto` recipients come out of the
/// sender's vault and move what those recipients get together.
proof fn lemma_split_prefix_total(
    ctx: SplitPayment,
    total: u64,
    recipients: Seq<SplitRecipient>,
    upto: int,
)
    requires
        recipients.len() >= 1,
        total_bps(shares_of(recipients)) == 10000,
        0 <= upto <= recipients.len(),
    ensures
        all_from(split_transfers(ctx, total, recipients, upto), ctx.sender_vault),
        total_moved(split_transfers(ctx, total, recipients, upto)) == paid_before(
            total,
            shares_of(recipients),
            upto,
        ),
    decreases upto,
{
    if upto > 0 {
        lemma_split_prefix_total(ctx, total, recipients, upto - 1);
        lemma_split_is_exact(total, shares_of(recipients));
        let before = split_transfers(ctx, total, recipients, upto - 1);
        let amount = split_leg(total, shares_of(recipients), upto - 1);
        assert(0 <= amount <= total);
        if amount != 0 {
            let all = split_transfers(ctx, total, recipients, upto);
            assert(all.drop_last() =~= before);
            assert(all.last().amount == amount);
            assert forall|i: int| 0 <= i < all.len() implies (#[trigger] all[i]).from
                == ctx.sender_vault by {
                if i < before.len() {
                    assert(all[i] == before[i]);
                }
            }
        }
    }
}

/// A split takes out of the sender's vault exactly the total, which is
/// what it puts into the recipients' vaults together and what the sender
/// is charged: the shares that round down lose nothing and gain nothing.
pub proof fn lemma_split_conserves(ctx: SplitPayment, total: u64, recipients: Seq<SplitRecipient>)
    requires
        recipients.len() >= 1,
        total_bps(shares_of(recipients)) == 10000,
    ensures
        all_from(
            split_transfers(ctx, total, recipients, recipients.len() as int),
            ctx.sender_vault,
        ),
        total_moved(split_transfers(ctx, total, recipients, recipients.len() as int)) == total,
        debited_from(
            split_transfers(ctx, total, recipients, recipients.len() as int),
            ctx.sender_vault,
        ) == total,
{
    let n = recipients.len() as int;
    lemma_split_prefix_total(ctx, total, recipients, n);
    lemma_split_is_exact(total, shares_of(recipients));
    lemma_debit_is_total(split_transfers(ctx, total, recipients, n), ctx.sender_vault);
}

} // verus!
