use vstd::prelude::*;

verus! {

/// Why a block or one of its calls was refused.
#[derive(PartialEq, Eq, Structural, Debug, Clone, Copy)]
pub enum DispatchError {
    /// The sender's balance is smaller than the amount.
    InsufficientFunds,
    /// The recipient's balance plus the amount exceeds the balance type's maximum.
    BalanceOverflow,
    /// The block's declared height is not the height the chain has advanced to.
    InvalidBlockHeight,
    /// The call names no module that can carry it out.
    UnroutableCall,
}

impl DispatchError {
    /// A short description of the error.
    pub fn message(&self) -> (r: &'static str)
        ensures
            r@ == match self {
                DispatchError::InsufficientFunds => "Not enough founds."@,
                DispatchError::BalanceOverflow => "overflow to_balance"@,
                DispatchError::InvalidBlockHeight => "Invalid block number"@,
                DispatchError::UnroutableCall => "Unroutable call"@,
            },
    {
        match self {
            DispatchError::InsufficientFunds => "Not enough founds.",
            DispatchError::BalanceOverflow => "overflow to_balance",
            DispatchError::InvalidBlockHeight => "Invalid block number",
            DispatchError::UnroutableCall => "Unroutable call",
        }
    }
}

/// The outcome of dispatching a call or executing a block.
pub type DispatchResult = Result<(), DispatchError>;

/// The header of a block: the height it declares.
pub struct Header<BlockNumber> {
    pub block_number: BlockNumber,
}

/// A call together with the account that submitted it.
pub struct Extrinsic<Caller, Call> {
    pub caller: Caller,
    pub call: Call,
}

/// A header and the extrinsics to run, in order.
pub struct Block<Header, Extrinsic> {
    pub header: Header,
    pub extrinsics: Vec<Extrinsic>,
}

} // verus!
