//! Plain records of a wallet deployment.

use vstd::prelude::*;

verus! {

/// The parameters an account was created with.
#[derive(Clone, Copy, Debug, PartialEq, Eq, Structural)]
pub struct CreateAccountParams {
    pub nonce: u32,
}

/// What is known of a deployed wallet.
#[derive(Clone, Copy, Debug, PartialEq, Eq, Structural)]
pub struct EverWalletInfo {
    pub create_account_params: CreateAccountParams,
}

} // verus!
