use vstd::prelude::*;

use crate::runtime::RuntimeCall;
use crate::support;

verus! {

/// An account: its view is the sequence of characters that names it.
pub type AccountId = String;

pub type Balance = u128;

pub type BlockNumber = u32;

pub type Nonce = u32;

pub type Extrinsic = support::Extrinsic<AccountId, RuntimeCall>;

pub type Header = support::Header<BlockNumber>;

pub type Block = support::Block<Header, Extrinsic>;

} // verus!
