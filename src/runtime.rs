use vstd::prelude::*;

use crate::balances::{self, ledger_after_transfer, transfer_result};
use crate::support::{DispatchError, DispatchResult, Extrinsic};
use crate::system::{self, nonce_in, saturating_inc};
use crate::types::{AccountId, Balance, Block};

verus! {

/// Every call that a block can carry. The caller of an extrinsic is the
/// account that each call acts for.
#[derive(Debug)]
pub enum RuntimeCall {
    /// Move `amount` from the caller to `to`.
    BalancesTransfer { to: AccountId, amount: Balance },
}

/// What dispatching `call` for `caller` returns on `ledger`.
pub open spec fn dispatch_result(
    ledger: Map<Seq<char>, u128>,
    caller: Seq<char>,
    call: RuntimeCall,
) -> DispatchResult {
    match call {
        RuntimeCall::BalancesTransfer { to, amount } => transfer_result(
            ledger,
            caller,
            to@,
            amount,
        ),
    }
}

/// The ledger after dispatching `call` for `caller`.
pub open spec fn ledger_after_dispatch(
    ledger: Map<Seq<char>, u128>,
    caller: Seq<char>,
    call: RuntimeCall,
) -> Map<Seq<char>, u128> {
    match call {
        RuntimeCall::BalancesTransfer { to, amount } => ledger_after_transfer(
            ledger,
            caller,
            to@,
            amount,
        ),
    }
}

/// The ledger after the extrinsics `exts` are dispatched in order.
pub open spec fn ledger_after(
    ledger: Map<Seq<char>, u128>,
    exts: Seq<Extrinsic<AccountId, RuntimeCall>>,
) -> Map<Seq<char>, u128>
    decreases exts.len(),
{
    if exts.len() == 0 {
        ledger
    } else {
        ledger_after_dispatch(
            ledger_after(ledger, exts.drop_last()),
            exts.last().caller@,
            exts.last().call,
        )
    }
}

/// The nonces after each extrinsic of `exts` counts one call by its caller.
pub open spec fn nonces_after(
    nonces: Map<Seq<char>, u32>,
    exts: Seq<Extrinsic<AccountId, RuntimeCall>>,
) -> Map<Seq<char>, u32>
    decreases exts.len(),
{
    if exts.len() == 0 {
        nonces
    } else {
        let before = nonces_after(nonces, exts.drop_last());
        let who = exts.last().caller@;
        before.insert(who, saturating_inc(nonce_in(before, who)))
    }
}

/// The extrinsics of `exts` whose call fails when they are dispatched in
/// order on `ledger`: the position of each, with its error.
pub open spec fn failures(
    ledger: Map<Seq<char>, u128>,
    exts: Seq<Extrinsic<AccountId, RuntimeCall>>,
) -> Seq<(usize, DispatchError)>
    decreases exts.len(),
{
    if exts.len() == 0 {
        Seq::empty()
    } else {
        let before = failures(ledger, exts.drop_last());
        match dispatch_result(
            ledger_after(ledger, exts.drop_last()),
            exts.last().caller@,
            exts.last().call,
        ) {
            Err(e) => before.push(((exts.len() - 1) as usize, e)),
            Ok(()) => before,
        }
    }
}

/// How many of the extrinsics `exts` were submitted by `who`.
pub open spec fn calls_by(exts: Seq<Extrinsic<AccountId, RuntimeCall>>, who: Seq<char>) -> nat
    decreases exts.len(),
{
    if exts.len() == 0 {
        0
    } else {
        calls_by(exts.drop_last(), who) + if exts.last().caller@ == who {
            1nat
        } else {
            0nat
        }
    }
}

/// A nonce after a run of extrinsics is the nonce before plus the calls
/// that its account made among them, held at `u32::MAX`.
proof fn lemma_nonce_after(
    nonces: Map<Seq<char>, u32>,
    exts: Seq<Extrinsic<AccountId, RuntimeCall>>,
    who: Seq<char>,
)
    ensures
        nonce_in(nonces_after(nonces, exts), who) == if nonce_in(nonces, who) + calls_by(exts, who)
            <= u32::MAX {
            nonce_in(nonces, who) + calls_by(exts, who)
        } else {
            u32::MAX as int
        },
    decreases exts.len(),
{
    if exts.len() > 0 {
        lemma_nonce_after(nonces, exts.drop_last(), who);
    }
}

/// The whole state of the chain: the clock and nonces, and the ledger.
#[derive(Debug)]
pub struct Runtime {
    pub system: system::Pallet,
    pub balances: balances::Pallet,
}

impl Runtime {
    /// The genesis state: height zero, no nonces, no balances.
    pub fn new() -> (r: Self)
        ensures
            r.system.height() == 0,
            r.system.nonces() == Map::<Seq<char>, u32>::empty(),
            r.balances@ == Map::<Seq<char>, u128>::empty(),
            forall|who: Seq<char>| r.balances.balance_of(who) == 0 && r.system.nonce_of(who) == 0,
    {
        Runtime { system: system::Pallet::new(), balances: balances::Pallet::new() }
    }

    /// Carries out `call` for `caller`, routed by the kind of call. A failing
    /// call changes nothing.
    pub fn dispatch(&mut self, caller: AccountId, call: RuntimeCall) -> (r: DispatchResult)
        ensures
            r == dispatch_result(old(self).balances@, caller@, call),
            final(self).balances@ == ledger_after_dispatch(old(self).balances@, caller@, call),
            final(self).system == old(self).system,
    {
        match call {
            RuntimeCall::BalancesTransfer { to, amount } => {
                self.balances.transfer(&caller, &to, amount)
            },
        }
    }

    /// Executes `block`: advances the height, then, if the block declares
    /// that height, runs each extrinsic in order. Each one counts a call by
    /// its caller, whatever its outcome; one that fails leaves the ledger as
    /// it was and the next ones still run. Returns the position and error of
    /// each failed extrinsic; a block of another height is refused whole.
    pub fn execute_block(&mut self, block: Block) -> (r: Result<
        Vec<(usize, DispatchError)>,
        DispatchError,
    >)
        ensures
            final(self).system.height() == saturating_inc(old(self).system.height()),
            r is Err <==> block.header.block_number != saturating_inc(old(self).system.height()),
            r is Err ==> {
                &&& r == Err::<Vec<(usize, DispatchError)>, DispatchError>(
                    DispatchError::InvalidBlockHeight,
                )
                &&& final(self).balances@ == old(self).balances@
                &&& final(self).system.nonces() == old(self).system.nonces()
            },
            old(self).system.height() < u32::MAX && block.header.block_number != old(
                self,
            ).system.height() + 1 ==> r is Err,
            r matches Ok(report) ==> {
                &&& final(self).balances@ == ledger_after(
                    old(self).balances@,
                    block.extrinsics@,
                )
                &&& final(self).system.nonces() == nonces_after(
                    old(self).system.nonces(),
                    block.extrinsics@,
                )
                &&& report@ == failures(old(self).balances@, block.extrinsics@)
            },
            r is Ok ==> forall|who: Seq<char>|
                old(self).system.nonce_of(who) + calls_by(block.extrinsics@, who) <= u32::MAX
                    ==> #[trigger] final(self).system.nonce_of(who) == old(self).system.nonce_of(
                    who,
                ) + calls_by(block.extrinsics@, who),
    {
        self.system.inc_block_number();
        if block.header.block_number != self.system.block_number() {
            return Err(DispatchError::InvalidBlockHeight);
        }
        let ghost ledger0 = self.balances@;
        let ghost nonces0 = self.system.nonces();
        let ghost height = self.system.height();
        let ghost exts = block.extrinsics@;
        proof {
            assert(exts.len() == block.extrinsics.len());
        }
        let mut report: Vec<(usize, DispatchError)> = Vec::new();
        let mut index: usize = 0;
        for ext in it: block.extrinsics.into_iter()
            invariant
                it.seq() == exts,
                exts.len() <= usize::MAX,
                index == it.index(),
                self.balances@ == ledger_after(ledger0, exts.take(index as int)),
                self.system.nonces() == nonces_after(nonces0, exts.take(index as int)),
                self.system.height() == height,
                report@ == failures(ledger0, exts.take(index as int)),
        {
            let ghost done = exts.take(index as int);
            let ghost next = exts.take(index as int + 1);
            proof {
                assert(next.drop_last() =~= done);
            }
            let Extrinsic { caller, call } = ext;
            self.system.inc_nonce(&caller);
            match self.dispatch(caller, call) {
                Ok(()) => {},
                Err(e) => {
                    report.push((index, e));
                },
            }
            index = index + 1;
        }
        proof {
            assert(exts.take(exts.len() as int) =~= exts);
            assert forall|who: Seq<char>|
                nonce_in(nonces0, who) + calls_by(exts, who) <= u32::MAX implies #[trigger] nonce_in(
                self.system.nonces(),
                who,
            ) == nonce_in(nonces0, who) + calls_by(exts, who) by {
                lemma_nonce_after(nonces0, exts, who);
            }
        }
        Ok(report)
    }
}

} // verus!
