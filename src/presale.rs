use vstd::prelude::*;

use crate::pubkey::Pubkey;

verus! {

/// The failures of the position-NFT presale.
#[derive(Debug, Clone, Copy, PartialEq, Eq, Structural)]
pub enum MintError {
    MaxSupplyReached,
    Unauthorized,
}

/// Number of NFTs that the presale can mint.
pub const MAX_SUPPLY: u64 = 20_000;

/// Seconds after the presale opens during which only whitelisted buyers may mint.
pub const WHITELIST_WINDOW: i64 = 3_600;

/// Price of the next NFT by how many have been minted: four rounds of 5000, each dearer
/// than the last.
pub open spec fn round_price(total_minted: int) -> Option<u64> {
    if total_minted < 5_000 {
        Some(10_000_000u64)
    } else if total_minted < 10_000 {
        Some(15_000_000u64)
    } else if total_minted < 15_000 {
        Some(20_000_000u64)
    } else if total_minted < 20_000 {
        Some(25_000_000u64)
    } else {
        None
    }
}

/// Price of the next NFT, in lamports, once `total_minted` have been minted. Fails with
/// `MaxSupplyReached` once all have been.
pub fn get_round_price(current_time: i64, presale_start: i64, total_minted: u64) -> (r: Result<
    u64,
    MintError,
>)
    ensures
        round_price(total_minted as int) matches Some(p) ==> r == Ok::<u64, MintError>(p),
        round_price(total_minted as int) is None ==> r == Err::<u64, MintError>(
            MintError::MaxSupplyReached,
        ),
{
    if total_minted < 5_000 {
        Ok(10_000_000)
    } else if total_minted < 10_000 {
        Ok(15_000_000)
    } else if total_minted < 15_000 {
        Ok(20_000_000)
    } else if total_minted < 20_000 {
        Ok(25_000_000)
    } else {
        Err(MintError::MaxSupplyReached)
    }
}

/// Whether a buyer may mint at `current_time`: supply must remain, and the presale must
/// have opened for a whitelisted buyer, or have been open for `WHITELIST_WINDOW` seconds
/// for anyone. Fails with `MaxSupplyReached` or `Unauthorized`.
pub fn check_mint_allowed(
    total_minted: u64,
    current_time: i64,
    presale_start: i64,
    is_whitelisted: bool,
) -> (r: Result<(), MintError>)
    ensures
        total_minted >= MAX_SUPPLY ==> r == Err::<(), MintError>(MintError::MaxSupplyReached),
        total_minted < MAX_SUPPLY && ((current_time > presale_start && is_whitelisted)
            || current_time > presale_start + WHITELIST_WINDOW) ==> r == Ok::<(), MintError>(()),
        total_minted < MAX_SUPPLY && !((current_time > presale_start && is_whitelisted)
            || current_time > presale_start + WHITELIST_WINDOW) ==> r == Err::<(), MintError>(
            MintError::Unauthorized,
        ),
{
    if total_minted >= MAX_SUPPLY {
        return Err(MintError::MaxSupplyReached);
    }
    let open_to_all = (current_time as i128) > (presale_start as i128) + (WHITELIST_WINDOW as i128);
    if (current_time > presale_start && is_whitelisted) || open_to_all {
        Ok(())
    } else {
        Err(MintError::Unauthorized)
    }
}

/// The presale's record: how many NFTs have been minted, when the sale opens, who runs
/// it, and what the minted NFTs are called.
#[derive(Debug, PartialEq, Eq)]
pub struct State {
    pub total_minted: u64,
    /// Opening time, in seconds since the epoch.
    pub presale_start: i64,
    pub admin: Pubkey,
    /// Collection that minted NFTs join.
    pub collection: Pubkey,
    /// Collection whose holders get a discount.
    pub genesis_collection: Pubkey,
    pub nft_name: String,
    pub nft_symbol: String,
    pub nft_uri: String,
}

/// What the presale knows of one buyer.
#[derive(Debug, Clone, Copy, PartialEq, Eq, Structural)]
pub struct UserInfo {
    pub is_whitelisted: bool,
}

/// Sets the presale up, run by `signer`, who becomes its admin, with nothing minted.
pub fn initialize(
    state: &mut State,
    signer: Pubkey,
    presale_start: i64,
    nft_name: String,
    nft_symbol: String,
    nft_uri: String,
)
    ensures
        final(state).total_minted == 0,
        final(state).presale_start == presale_start,
        final(state).admin == signer,
        final(state).collection == old(state).collection,
        final(state).genesis_collection == old(state).genesis_collection,
        final(state).nft_name@ == nft_name@,
        final(state).nft_symbol@ == nft_symbol@,
        final(state).nft_uri@ == nft_uri@,
{
    state.total_minted = 0;
    state.presale_start = presale_start;
    state.nft_name = nft_name;
    state.nft_symbol = nft_symbol;
    state.nft_uri = nft_uri;
    state.admin = signer;
}

/// Puts the buyer on the whitelist.
pub fn add_to_whitelist(user_info: &mut UserInfo)
    ensures
        final(user_info).is_whitelisted,
{
    user_info.is_whitelisted = true;
}

/// Replaces the presale's settings. Fails with `Unauthorized`, changing nothing, unless
/// `signer` is the admin.
pub fn update_presale_info(
    state: &mut State,
    signer: Pubkey,
    collection: Pubkey,
    genesis_collection: Pubkey,
    presale_start: i64,
    nft_name: String,
    nft_symbol: String,
    nft_uri: String,
    total_minted: u64,
) -> (r: Result<(), MintError>)
    ensures
        signer.bytes@ != old(state).admin.bytes@ ==> r == Err::<(), MintError>(
            MintError::Unauthorized,
        ) && *final(state) == *old(state),
        signer.bytes@ == old(state).admin.bytes@ ==> {
            &&& r == Ok::<(), MintError>(())
            &&& final(state).total_minted == total_minted
            &&& final(state).presale_start == presale_start
            &&& final(state).admin == old(state).admin
            &&& final(state).collection == collection
            &&& final(state).genesis_collection == genesis_collection
            &&& final(state).nft_name@ == nft_name@
            &&& final(state).nft_symbol@ == nft_symbol@
            &&& final(state).nft_uri@ == nft_uri@
        },
{
    if !signer.equals(&state.admin) {
        return Err(MintError::Unauthorized);
    }
    state.presale_start = presale_start;
    state.nft_name = nft_name;
    state.nft_symbol = nft_symbol;
    state.nft_uri = nft_uri;
    state.total_minted = total_minted;
    state.collection = collection;
    state.genesis_collection = genesis_collection;
    Ok(())
}

/// Mints one NFT at `current_time` for a buyer: checks the supply and the schedule as
/// `check_mint_allowed` does, counts the mint and returns the round's price, before any
/// discount. Fails, changing nothing, as `check_mint_allowed` does.
pub fn mint(state: &mut State, current_time: i64, is_whitelisted: bool) -> (r: Result<u64, MintError>)
    ensures
        old(state).total_minted >= MAX_SUPPLY ==> r == Err::<u64, MintError>(
            MintError::MaxSupplyReached,
        ),
        old(state).total_minted < MAX_SUPPLY && !((current_time > old(state).presale_start
            && is_whitelisted) || current_time > old(state).presale_start + WHITELIST_WINDOW)
            ==> r == Err::<u64, MintError>(MintError::Unauthorized),
        r is Err ==> *final(state) == *old(state),
        old(state).total_minted < MAX_SUPPLY && ((current_time > old(state).presale_start
            && is_whitelisted) || current_time > old(state).presale_start + WHITELIST_WINDOW) ==> {
            &&& round_price(old(state).total_minted as int) matches Some(p)
            &&& r == Ok::<u64, MintError>(p)
            &&& final(state).total_minted == old(state).total_minted + 1
            &&& final(state).presale_start == old(state).presale_start
            &&& final(state).admin == old(state).admin
            &&& final(state).collection == old(state).collection
            &&& final(state).genesis_collection == old(state).genesis_collection
            &&& final(state).nft_name == old(state).nft_name
            &&& final(state).nft_symbol == old(state).nft_symbol
            &&& final(state).nft_uri == old(state).nft_uri
        },
{
    match check_mint_allowed(state.total_minted, current_time, state.presale_start, is_whitelisted) {
        Ok(()) => {},
        Err(e) => return Err(e),
    }
    let price = match get_round_price(current_time, state.presale_start, state.total_minted) {
        Ok(p) => p,
        Err(e) => return Err(e),
    };
    state.total_minted = state.total_minted + 1;
    Ok(price)
}

/// Whether an NFT whose metadata names `collection` belongs to the genesis collection,
/// whose holders get the discount.
pub fn holds_genesis_collection(state: &State, collection: Option<Pubkey>) -> (r: bool)
    ensures
        r == (collection matches Some(c) && c.bytes@ == state.genesis_collection.bytes@),
{
    match collection {
        Some(c) => c.equals(&state.genesis_collection),
        None => false,
    }
}

} // verus!
