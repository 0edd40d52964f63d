use vstd::prelude::*;
use crate::nft::error::{nft_error, ErrorCode};
use crate::api::state::{lemma_mint_share_sum_nonneg, mint_share_sum};
use crate::nft::state::{recipients_valid, Config, ConfigView, NftType, Recipient};
use crate::pda::{spl_token_id, spl_token_id_bytes};
use crate::program_error::ProgramErrorCode;
use crate::pubkey::Pubkey;
use crate::token::{token_account_decodes, token_account_fields, unpack_token_account, AccountInfo};

verus! {

/// The metadata of an NFT as a user asks for it: name, symbol, URI and the
/// seller fee in basis points (10000 = 100%).
#[derive(Clone, Debug)]
pub struct NftArgs {
    pub name: String,
    pub symbol: String,
    pub uri: String,
    pub fees: u16,
}

/// A creator of an NFT: its address, whether it has signed, and its share in
/// percent.
#[derive(Clone, Copy, Debug)]
pub struct Creator {
    pub address: Pubkey,
    pub verified: bool,
    pub share: u8,
}

/// What the Token Metadata program is asked to record of a new NFT.
#[derive(Clone, Debug)]
pub struct TokenBuilder {
    pub name: String,
    pub symbol: String,
    pub uri: String,
    pub creators: Option<Vec<Creator>>,
    pub seller_fee_basis_points: u16,
}

/// The mint recorded in the data of a token account.
pub open spec fn token_mint_of(a: AccountInfo) -> Seq<u8> {
    token_account_fields(a.data@).0
}

/// The owner recorded in the data of a token account.
pub open spec fn token_owner_of(a: AccountInfo) -> Seq<u8> {
    token_account_fields(a.data@).1
}

/// What is wrong with `a` as a token account, checked in the programs'
/// order: the program that owns it, the layout of its data, and whether it is
/// initialized.
pub open spec fn token_account_fault(a: AccountInfo) -> Option<ProgramErrorCode> {
    if a.owner@ != spl_token_id_bytes() {
        Some(nft_error(ErrorCode::IllegalOwner))
    } else if !token_account_decodes(a.data@) {
        Some(ProgramErrorCode::InvalidAccountData)
    } else if a.data@[108] == 0 {
        Some(ProgramErrorCode::UninitializedAccount)
    } else {
        None
    }
}

/// What is wrong with `a` as a recipient's token account for `mint`.
pub open spec fn recipient_account_fault(mint: Seq<u8>, a: AccountInfo) -> Option<
    ProgramErrorCode,
> {
    match token_account_fault(a) {
        Some(e) => Some(e),
        None => if token_mint_of(a) != mint {
            Some(nft_error(ErrorCode::WrongRecipientsList))
        } else {
            None
        },
    }
}

/// The first fault in a list of checks made in order.
pub open spec fn first_fault(faults: Seq<Option<ProgramErrorCode>>) -> Option<ProgramErrorCode>
    decreases faults.len(),
{
    if faults.len() == 0 {
        None
    } else {
        match first_fault(faults.drop_last()) {
            Some(e) => Some(e),
            None => faults.last(),
        }
    }
}

/// A list of checks finds nothing exactly where no check does.
pub proof fn lemma_first_fault_none(faults: Seq<Option<ProgramErrorCode>>)
    ensures
        first_fault(faults) is None <==> forall|i: int|
            0 <= i < faults.len() ==> #[trigger] faults[i] is None,
    decreases faults.len(),
{
    if faults.len() > 0 {
        lemma_first_fault_none(faults.drop_last());
        if first_fault(faults) is None {
            assert forall|i: int| 0 <= i < faults.len() implies #[trigger] faults[i] is None by {
                if i < faults.len() - 1 {
                    assert(faults.drop_last()[i] == faults[i]);
                }
            }
        }
        if forall|i: int| 0 <= i < faults.len() ==> #[trigger] faults[i] is None {
            assert forall|i: int| 0 <= i < faults.drop_last().len() implies #[trigger] faults.drop_last()[i] is None by {
                assert(faults[i] is None);
            }
        }
    }
}

/// A fault found among the first `n` checks is the first fault of all.
pub proof fn lemma_first_fault_extends(faults: Seq<Option<ProgramErrorCode>>, n: int)
    requires
        0 <= n <= faults.len(),
        first_fault(faults.take(n)) is Some,
    ensures
        first_fault(faults) == first_fault(faults.take(n)),
    decreases faults.len(),
{
    if n < faults.len() {
        assert(faults.drop_last().take(n) =~= faults.take(n));
        lemma_first_fault_extends(faults.drop_last(), n);
    } else {
        assert(faults.take(n) =~= faults);
    }
}

/// The first `n + 1` checks find what the first `n` find or, where those find
/// nothing, what check `n` finds.
pub proof fn lemma_first_fault_step(faults: Seq<Option<ProgramErrorCode>>, n: int)
    requires
        0 <= n < faults.len(),
    ensures
        first_fault(faults.take(n + 1)) == (match first_fault(faults.take(n)) {
            Some(e) => Some(e),
            None => faults[n],
        }),
{
    assert(faults.take(n + 1).drop_last() =~= faults.take(n));
}

/// The checks of each account as a recipient's token account for `mint`.
pub open spec fn recipient_faults(mint: Seq<u8>, accounts: Seq<AccountInfo>) -> Seq<
    Option<ProgramErrorCode>,
> {
    Seq::new(accounts.len(), |i: int| recipient_account_fault(mint, accounts[i]))
}

/// Whether one of the accounts holds tokens of `address`.
pub open spec fn address_covered(address: Seq<u8>, accounts: Seq<AccountInfo>) -> bool {
    exists|j: int| 0 <= j < accounts.len() && #[trigger] token_owner_of(accounts[j]) == address
}

/// Whether each recipient has one of the accounts.
pub open spec fn recipients_covered(c: ConfigView, accounts: Seq<AccountInfo>) -> bool {
    forall|k: int|
        0 <= k < c.recipients.len() ==> address_covered(#[trigger] c.recipients[k].address@, accounts)
}

/// The outcome of checking `accounts` as the recipients' token accounts: as
/// many accounts as recipients, each a token account of the configured mint,
/// and an account for each recipient.
pub open spec fn spec_check_recipients(c: ConfigView, accounts: Seq<AccountInfo>) -> Result<
    (),
    ProgramErrorCode,
> {
    if c.recipients.len() != accounts.len() {
        Err(nft_error(ErrorCode::WrongRecipientsList))
    } else {
        match first_fault(recipient_faults(c.mint, accounts)) {
            Some(e) => Err(e),
            None => if recipients_covered(c, accounts) {
                Ok(())
            } else {
                Err(nft_error(ErrorCode::WrongRecipientsList))
            },
        }
    }
}

/// Checks the token accounts that an NFT's mint fee goes to: one for each
/// recipient of the configuration, in any order.
pub fn check_recipients(config: &Config, accounts: &[AccountInfo]) -> (r: Result<
    (),
    ProgramErrorCode,
>)
    ensures
        r == spec_check_recipients(config@, accounts@),
{
    if config.recipients.len() != accounts.len() {
        return Err(ErrorCode::WrongRecipientsList.to_program_error());
    }
    let ghost faults = recipient_faults(config@.mint, accounts@);
    let token_program = spl_token_id();
    let mut owners: Vec<Pubkey> = Vec::new();
    let mut i: usize = 0;
    while i < accounts.len()
        invariant
            i <= accounts@.len(),
            config@.recipients.len() == accounts@.len(),
            faults == recipient_faults(config@.mint, accounts@),
            token_program@ == spl_token_id_bytes(),
            owners@.len() == i,
            forall|j: int| 0 <= j < i ==> (#[trigger] owners@[j])@ == token_owner_of(accounts@[j]),
            first_fault(faults.take(i as int)) is None,
        decreases accounts@.len() - i,
    {
        let account = &accounts[i];
        proof {
            lemma_first_fault_step(faults, i as int);
        }
        if !account.owner.same(&token_program) {
            proof {
                lemma_first_fault_extends(faults, i + 1);
            }
            return Err(ErrorCode::IllegalOwner.to_program_error());
        }
        let token_account = match unpack_token_account(account.data.as_slice()) {
            Ok(a) => a,
            Err(e) => {
                proof {
                    lemma_first_fault_extends(faults, i + 1);
                }
                return Err(e);
            },
        };
        if !token_account.mint.same(&config.mint) {
            proof {
                lemma_first_fault_extends(faults, i + 1);
            }
            return Err(ErrorCode::WrongRecipientsList.to_program_error());
        }
        owners.push(token_account.owner);
        i = i + 1;
    }
    proof {
        assert(faults.take(i as int) =~= faults);
    }
    let mut k: usize = 0;
    while k < config.recipients.len()
        invariant
            k <= config.recipients@.len(),
            config@.recipients.len() == accounts@.len(),
            faults == recipient_faults(config@.mint, accounts@),
            first_fault(faults) is None,
            owners@.len() == accounts@.len(),
            forall|j: int|
                0 <= j < owners@.len() ==> (#[trigger] owners@[j])@ == token_owner_of(accounts@[j]),
            forall|kk: int|
                0 <= kk < k ==> address_covered(
                    #[trigger] config@.recipients[kk].address@,
                    accounts@,
                ),
        decreases config.recipients@.len() - k,
    {
        let address = config.recipients[k].address;
        let mut found = false;
        let mut j: usize = 0;
        while j < owners.len()
            invariant
                j <= owners@.len(),
                owners@.len() == accounts@.len(),
                forall|jj: int|
                    0 <= jj < owners@.len() ==> (#[trigger] owners@[jj])@ == token_owner_of(
                        accounts@[jj],
                    ),
                found ==> address_covered(address@, accounts@),
                !found ==> forall|jj: int| 0 <= jj < j ==> (#[trigger] owners@[jj])@ != address@,
            decreases owners@.len() - j,
        {
            if owners[j].same(&address) {
                found = true;
            }
            j = j + 1;
        }
        if !found {
            proof {
                assert forall|jj: int| 0 <= jj < accounts@.len() implies #[trigger] token_owner_of(
                    accounts@[jj],
                ) != address@ by {
                    assert(owners@[jj]@ == token_owner_of(accounts@[jj]));
                }
                assert(!recipients_covered(config@, accounts@)) by {
                    assert(!address_covered(config@.recipients[k as int].address@, accounts@));
                }
            }
            return Err(ErrorCode::WrongRecipientsList.to_program_error());
        }
        k = k + 1;
    }
    proof {
        lemma_first_fault_none(faults);
    }
    Ok(())
}

/// The position of the first recipient with address `address`, or the number
/// of recipients where none has it.
pub open spec fn recipient_index(rs: Seq<Recipient>, address: Seq<u8>) -> nat
    decreases rs.len(),
{
    if rs.len() == 0 {
        0
    } else if rs[0].address@ == address {
        0
    } else {
        1 + recipient_index(rs.drop_first(), address)
    }
}

pub proof fn lemma_recipient_index(rs: Seq<Recipient>, address: Seq<u8>)
    ensures
        recipient_index(rs, address) <= rs.len(),
        recipient_index(rs, address) < rs.len() ==> rs[recipient_index(rs, address) as int].address@
            == address,
        forall|k: int|
            0 <= k < recipient_index(rs, address) ==> (#[trigger] rs[k]).address@ != address,
    decreases rs.len(),
{
    if rs.len() > 0 && rs[0].address@ != address {
        lemma_recipient_index(rs.drop_first(), address);
        assert forall|k: int| 0 <= k < recipient_index(rs, address) implies (#[trigger] rs[k]).address@
            != address by {
            if k > 0 {
                assert(rs[k] == rs.drop_first()[k - 1]);
            }
        }
    }
}

/// The part of `fee` that a recipient with `share` percent is owed, rounded
/// down.
pub open spec fn share_amount(fee: u64, share: u8) -> int {
    (fee * share) / 100
}

/// What the holder of token account `a` is owed of `fee`: the share of the
/// first recipient whose address owns the account.
pub open spec fn account_amount(rs: Seq<Recipient>, fee: u64, a: AccountInfo) -> int {
    share_amount(fee, rs[recipient_index(rs, token_owner_of(a)) as int].mint_share)
}

/// The checks of the accounts after the first, which are read as token
/// accounts.
pub open spec fn amount_faults(accounts: Seq<AccountInfo>) -> Seq<Option<ProgramErrorCode>> {
    Seq::new(
        accounts.len(),
        |i: int|
            if i == 0 {
                None
            } else {
                token_account_fault(accounts[i])
            },
    )
}

/// What the holders of accounts `1 .. n` are owed.
pub open spec fn others_total(rs: Seq<Recipient>, fee: u64, accounts: Seq<AccountInfo>, n: int) -> int
    decreases n,
{
    if n <= 1 {
        0
    } else {
        others_total(rs, fee, accounts, n - 1) + account_amount(rs, fee, accounts[n - 1])
    }
}

/// Whether accounts `1 ..= i` pass the token-account checks.
pub open spec fn no_fault_through(accounts: Seq<AccountInfo>, i: int) -> bool {
    forall|j: int| 1 <= j <= i ==> token_account_fault(#[trigger] accounts[j]) is None
}

/// The inputs on which computing the amounts does not panic: with some
/// recipients, each account read before a fault is found belongs to a
/// recipient and is owed an amount that fits in 64 bits, and where no fault
/// is found the amounts of the accounts after the first do not pass the fee.
pub open spec fn amounts_computable(c: ConfigView, fee: u64, accounts: Seq<AccountInfo>) -> bool {
    c.recipients.len() > 0 ==> {
        &&& forall|i: int|
            1 <= i < accounts.len() && no_fault_through(accounts, i) ==> recipient_index(
                c.recipients,
                #[trigger] token_owner_of(accounts[i]),
            ) < c.recipients.len() && account_amount(c.recipients, fee, accounts[i]) <= u64::MAX
        &&& first_fault(amount_faults(accounts)) is None ==> others_total(
            c.recipients,
            fee,
            accounts,
            accounts.len() as int,
        ) <= fee
    }
}

/// The amounts owed: to the holder of each account after the first, its
/// recipient's share of the fee; to the holder of the first, the rest.
pub open spec fn spec_amounts(c: ConfigView, fee: u64, accounts: Seq<AccountInfo>) -> Seq<u64> {
    Seq::new(
        if accounts.len() == 0 {
            1
        } else {
            accounts.len()
        },
        |i: int|
            if i == 0 {
                (fee - others_total(c.recipients, fee, accounts, accounts.len() as int)) as u64
            } else {
                account_amount(c.recipients, fee, accounts[i]) as u64
            },
    )
}

/// The outcome of computing how the fee of `nft_type` is split among the
/// holders of `accounts`: nothing to split without recipients, the first
/// fault of the accounts after the first, or the amounts.
pub open spec fn spec_calculate_amounts(
    c: ConfigView,
    accounts: Seq<AccountInfo>,
    nft_type: NftType,
) -> Result<Seq<u64>, ProgramErrorCode> {
    if c.recipients.len() == 0 {
        Ok(Seq::empty())
    } else {
        match first_fault(amount_faults(accounts)) {
            Some(e) => Err(e),
            None => Ok(spec_amounts(c, c.fees.fee_of(nft_type), accounts)),
        }
    }
}

/// The position of the first recipient with address `address`.
pub fn recipient_position(recipients: &Vec<Recipient>, address: &Pubkey) -> (r: usize)
    ensures
        r == recipient_index(recipients@, address@),
{
    proof {
        lemma_recipient_index(recipients@, address@);
    }
    let mut k: usize = 0;
    while k < recipients.len()
        invariant
            k <= recipients@.len(),
            recipient_index(recipients@, address@) <= recipients@.len(),
            recipient_index(recipients@, address@) < recipients@.len() ==> recipients@[recipient_index(
                recipients@,
                address@,
            ) as int].address@ == address@,
            forall|kk: int|
                0 <= kk < recipient_index(recipients@, address@) ==> (#[trigger] recipients@[kk]).address@
                    != address@,
            forall|kk: int| 0 <= kk < k ==> (#[trigger] recipients@[kk]).address@ != address@,
        decreases recipients@.len() - k,
    {
        if recipients[k].address.same(address) {
            return k;
        }
        k = k + 1;
    }
    k
}

proof fn lemma_others_total_monotone(rs: Seq<Recipient>, fee: u64, accounts: Seq<AccountInfo>, i: int, n: int)
    requires
        i <= n,
    ensures
        others_total(rs, fee, accounts, i) <= others_total(rs, fee, accounts, n),
    decreases n - i,
{
    if i < n {
        lemma_others_total_monotone(rs, fee, accounts, i, n - 1);
        if n > 1 {
            let share = rs[recipient_index(rs, token_owner_of(accounts[n - 1])) as int].mint_share;
            assert(fee * share >= 0) by (nonlinear_arith);
        }
    }
}

/// Splits the fee of `nft_type` among the holders of the recipients' token
/// accounts: each account after the first gets its recipient's share, rounded
/// down, and the first gets the rest.
pub fn calculate_amounts(config: &Config, remaining_accounts: &[AccountInfo], nft_type: NftType) -> (r:
    Result<Vec<u64>, ProgramErrorCode>)
    requires
        amounts_computable(config@, config.fees.fee_of(nft_type), remaining_accounts@),
    ensures
        r is Ok <==> spec_calculate_amounts(config@, remaining_accounts@, nft_type) is Ok,
        r matches Ok(v) ==> spec_calculate_amounts(config@, remaining_accounts@, nft_type) == Ok::<
            Seq<u64>,
            ProgramErrorCode,
        >(v@),
        r matches Err(e) ==> spec_calculate_amounts(config@, remaining_accounts@, nft_type) == Err::<
            Seq<u64>,
            ProgramErrorCode,
        >(e),
{
    if config.recipients.len() == 0 {
        return Ok(Vec::new());
    }
    let fees = config.fees.of(nft_type);
    let ghost rs = config@.recipients;
    let ghost faults = amount_faults(remaining_accounts@);
    let token_program = spl_token_id();
    let mut amounts: Vec<u64> = Vec::new();
    amounts.push(0);
    let mut i: usize = 1;
    while i < remaining_accounts.len()
        invariant
            1 <= i,
            i <= remaining_accounts@.len() || i == 1,
            rs == config@.recipients,
            rs.len() > 0,
            fees == config.fees.fee_of(nft_type),
            faults == amount_faults(remaining_accounts@),
            token_program@ == spl_token_id_bytes(),
            amounts_computable(config@, fees, remaining_accounts@),
            amounts@.len() == i,
            amounts@[0] == 0,
            forall|j: int|
                1 <= j < i ==> #[trigger] amounts@[j] == account_amount(rs, fees, remaining_accounts@[j]),
            no_fault_through(remaining_accounts@, i - 1),
        decreases remaining_accounts@.len() - i,
    {
        let account = &remaining_accounts[i];
        proof {
            assert(faults.take(i as int) =~= Seq::new(
                i as nat,
                |j: int|
                    if j == 0 {
                        None
                    } else {
                        token_account_fault(remaining_accounts@[j])
                    },
            ));
            lemma_first_fault_none(faults.take(i as int));
            lemma_first_fault_step(faults, i as int);
        }
        if !account.owner.same(&token_program) {
            proof {
                lemma_first_fault_extends(faults, i + 1);
            }
            return Err(ErrorCode::IllegalOwner.to_program_error());
        }
        let token_account = match unpack_token_account(account.data.as_slice()) {
            Ok(a) => a,
            Err(e) => {
                proof {
                    lemma_first_fault_extends(faults, i + 1);
                }
                return Err(e);
            },
        };
        assert(no_fault_through(remaining_accounts@, i as int));
        assert(token_owner_of(remaining_accounts@[i as int]) == token_account.owner@);
        let k = recipient_position(&config.recipients, &token_account.owner);
        proof {
            lemma_recipient_index(rs, token_account.owner@);
        }
        let share = config.recipients[k].mint_share;
        let wide: u128 = (fees as u128) * (share as u128) / 100;
        let amount = wide as u64;
        amounts.push(amount);
        i = i + 1;
    }
    proof {
        if remaining_accounts@.len() > 0 {
            assert(faults.take(i as int) =~= faults);
            lemma_first_fault_none(faults);
        } else {
            assert(faults =~= Seq::<Option<ProgramErrorCode>>::empty());
        }
    }
    let ghost n: int = remaining_accounts@.len() as int;
    let mut total: u64 = 0;
    let mut j: usize = 0;
    while j < amounts.len()
        invariant
            j <= amounts@.len(),
            amounts@.len() == (if n == 0 { 1 } else { n }),
            n == remaining_accounts@.len(),
            amounts@[0] == 0,
            forall|jj: int|
                1 <= jj < amounts@.len() ==> #[trigger] amounts@[jj] == account_amount(
                    rs,
                    fees,
                    remaining_accounts@[jj],
                ),
            others_total(rs, fees, remaining_accounts@, n) <= fees,
            total == others_total(rs, fees, remaining_accounts@, j as int),
        decreases amounts@.len() - j,
    {
        proof {
            if j + 1 <= n {
                lemma_others_total_monotone(rs, fees, remaining_accounts@, j + 1, n);
            }
        }
        total = total + amounts[j];
        j = j + 1;
    }
    amounts.set(0, fees - total);
    proof {
        assert(amounts@ =~= spec_amounts(config@, fees, remaining_accounts@));
    }
    Ok(amounts)
}

/// The transfers of the fee's parts, in the accounts' order, leaving out the
/// payer's own token account: the first `n` accounts with their amounts.
pub open spec fn spec_transfers(
    payer_token_account: Seq<u8>,
    accounts: Seq<AccountInfo>,
    amounts: Seq<u64>,
    n: int,
) -> Seq<(Seq<u8>, u64)>
    decreases n,
{
    if n <= 0 {
        Seq::empty()
    } else {
        let before = spec_transfers(payer_token_account, accounts, amounts, n - 1);
        if accounts[n - 1].key@ == payer_token_account {
            before
        } else {
            before.push((accounts[n - 1].key@, amounts[n - 1]))
        }
    }
}

/// The view of a list of transfers.
pub open spec fn transfers_view(transfers: Seq<(Pubkey, u64)>) -> Seq<(Seq<u8>, u64)> {
    transfers.map_values(|t: (Pubkey, u64)| (t.0@, t.1))
}

/// The transfers that pay each account its amount, pairing accounts and
/// amounts in order as far as both go, and skipping the payer's own token
/// account.
pub fn chill_transfers(
    payer_token_account: &Pubkey,
    remaining_accounts: &[AccountInfo],
    amounts: &Vec<u64>,
) -> (r: Vec<(Pubkey, u64)>)
    ensures
        transfers_view(r@) == spec_transfers(
            payer_token_account@,
            remaining_accounts@,
            amounts@,
            if remaining_accounts@.len() < amounts@.len() {
                remaining_accounts@.len() as int
            } else {
                amounts@.len() as int
            },
        ),
{
    let n = if remaining_accounts.len() < amounts.len() {
        remaining_accounts.len()
    } else {
        amounts.len()
    };
    let mut r: Vec<(Pubkey, u64)> = Vec::new();
    let mut i: usize = 0;
    while i < n
        invariant
            i <= n,
            n <= remaining_accounts@.len(),
            n <= amounts@.len(),
            transfers_view(r@) == spec_transfers(
                payer_token_account@,
                remaining_accounts@,
                amounts@,
                i as int,
            ),
        decreases n - i,
    {
        let account = &remaining_accounts[i];
        if !account.key.same(payer_token_account) {
            let ghost before = r@;
            r.push((account.key, amounts[i]));
            proof {
                assert(transfers_view(r@) =~= transfers_view(before).push(
                    (account.key@, amounts@[i as int]),
                ));
            }
        }
        i = i + 1;
    }
    r
}

/// The sum of a list of amounts.
pub open spec fn amounts_sum(amounts: Seq<u64>) -> int
    decreases amounts.len(),
{
    if amounts.len() == 0 {
        0
    } else {
        amounts_sum(amounts.drop_last()) + amounts.last()
    }
}

proof fn lemma_share_le_sum(rs: Seq<Recipient>, k: int)
    requires
        0 <= k < rs.len(),
    ensures
        rs[k].mint_share <= mint_share_sum(rs),
    decreases rs.len(),
{
    lemma_mint_share_sum_nonneg(rs.drop_last());
    if k < rs.len() - 1 {
        lemma_share_le_sum(rs.drop_last(), k);
    }
}

proof fn lemma_share_amount_le(fee: u64, share: u8)
    requires
        share <= 100,
    ensures
        0 <= share_amount(fee, share) <= fee,
{
    assert(0 <= fee * share <= fee * 100) by (nonlinear_arith)
        requires
            share <= 100,
    ;
}

proof fn lemma_two_shares_le(fee: u64, s1: u8, s2: u8)
    requires
        s1 + s2 <= 100,
    ensures
        share_amount(fee, s1) + share_amount(fee, s2) <= fee,
{
    let a: int = fee * s1;
    let b: int = fee * s2;
    assert(a + b <= fee * 100 && a >= 0 && b >= 0) by (nonlinear_arith)
        requires
            s1 + s2 <= 100,
            a == fee * s1,
            b == fee * s2,
    ;
    assert(a / 100 + b / 100 <= (a + b) / 100) by (nonlinear_arith)
        requires
            a >= 0,
            b >= 0,
    ;
    assert((a + b) / 100 <= fee) by (nonlinear_arith)
        requires
            0 <= a + b <= fee * 100,
    ;
}

proof fn lemma_amounts_sum_prefix(
    c: ConfigView,
    fee: u64,
    accounts: Seq<AccountInfo>,
    m: int,
)
    requires
        1 <= m <= accounts.len(),
        forall|i: int|
            1 <= i < accounts.len() ==> 0 <= #[trigger] account_amount(c.recipients, fee, accounts[i])
                <= u64::MAX,
    ensures
        amounts_sum(spec_amounts(c, fee, accounts).take(m)) == spec_amounts(c, fee, accounts)[0]
            + others_total(c.recipients, fee, accounts, m),
    decreases m,
{
    let s = spec_amounts(c, fee, accounts);
    if m == 1 {
        assert(s.take(1).drop_last() =~= Seq::<u64>::empty());
        assert(s.take(1).last() == s[0]);
        assert(amounts_sum(s.take(1).drop_last()) == 0);
        assert(amounts_sum(s.take(1)) == amounts_sum(s.take(1).drop_last()) + s.take(1).last());
    } else {
        lemma_amounts_sum_prefix(c, fee, accounts, m - 1);
        assert(s.take(m).drop_last() =~= s.take(m - 1));
        assert(s.take(m).last() == s[m - 1]);
        assert(s[m - 1] == account_amount(c.recipients, fee, accounts[m - 1]));
        assert(amounts_sum(s.take(m)) == amounts_sum(s.take(m).drop_last()) + s.take(m).last());
    }
}

/// Once `check_recipients` has accepted the token accounts of a configuration
/// whose recipients `initialize` accepted, the fee of any kind of NFT is
/// split without panic or failure, and the parts add up to the whole fee.
pub proof fn lemma_checked_accounts_split_fee(
    c: ConfigView,
    accounts: Seq<AccountInfo>,
    nft_type: NftType,
)
    requires
        recipients_valid(c.recipients),
        spec_check_recipients(c, accounts) is Ok,
    ensures
        amounts_computable(c, c.fees.fee_of(nft_type), accounts),
        spec_calculate_amounts(c, accounts, nft_type) is Ok,
        c.recipients.len() > 0 ==> amounts_sum(spec_calculate_amounts(c, accounts, nft_type)->Ok_0)
            == c.fees.fee_of(nft_type),
{
    broadcast use vstd::seq_lib::seq_to_set_is_finite;

    let rs = c.recipients;
    let fee = c.fees.fee_of(nft_type);
    let n = accounts.len() as int;
    let rfaults = recipient_faults(c.mint, accounts);
    lemma_first_fault_none(rfaults);
    assert forall|i: int| 0 <= i < n implies token_account_fault(#[trigger] accounts[i]) is None by {
        assert(rfaults[i] is None);
    }
    let afaults = amount_faults(accounts);
    lemma_first_fault_none(afaults);
    // Each account's owner is a recipient's address: the recipients' distinct
    // addresses all appear among as many owners.
    let owners = Seq::new(n as nat, |j: int| token_owner_of(accounts[j]));
    let addresses = Seq::new(n as nat, |k: int| rs[k].address@);
    assert(addresses.no_duplicates());
    addresses.unique_seq_to_set();
    owners.lemma_cardinality_of_set();
    assert(addresses.to_set().subset_of(owners.to_set())) by {
        assert forall|x: Seq<u8>| addresses.to_set().contains(x) implies owners.to_set().contains(x) by {
            let k = choose|k: int| 0 <= k < addresses.len() && addresses[k] == x;
            assert(address_covered(rs[k].address@, accounts));
            let j = choose|j: int| 0 <= j < accounts.len() && #[trigger] token_owner_of(accounts[j]) == x;
            assert(owners[j] == x);
        }
    }
    vstd::set_lib::lemma_len_subset(addresses.to_set(), owners.to_set());
    vstd::set_lib::lemma_subset_equality(addresses.to_set(), owners.to_set());
    owners.lemma_no_dup_set_cardinality();
    assert forall|i: int| 0 <= i < n implies recipient_index(rs, #[trigger] token_owner_of(accounts[i]))
        < rs.len() && rs[recipient_index(rs, token_owner_of(accounts[i])) as int].mint_share <= 100 by {
        assert(owners[i] == token_owner_of(accounts[i]));
        assert(owners.to_set().contains(owners[i]));
        let k = choose|k: int| 0 <= k < addresses.len() && addresses[k] == owners[i];
        lemma_recipient_index(rs, token_owner_of(accounts[i]));
        assert(rs[k].address@ == token_owner_of(accounts[i]));
        let idx = recipient_index(rs, token_owner_of(accounts[i])) as int;
        lemma_share_le_sum(rs, idx);
    }
    assert forall|i: int| 1 <= i < n implies 0 <= #[trigger] account_amount(rs, fee, accounts[i])
        <= fee by {
        assert(recipient_index(rs, token_owner_of(accounts[i])) < rs.len());
        let idx = recipient_index(rs, token_owner_of(accounts[i])) as int;
        lemma_share_amount_le(fee, rs[idx].mint_share);
    }
    if rs.len() > 0 {
        // At most three recipients: the owed amounts of the accounts after the
        // first come from different recipients' shares.
        if n == 2 {
            assert(others_total(rs, fee, accounts, 2) == account_amount(rs, fee, accounts[1])) by {
                reveal_with_fuel(others_total, 2);
            }
        } else if n == 3 {
            let o1 = token_owner_of(accounts[1]);
            let o2 = token_owner_of(accounts[2]);
            assert(owners[1] == o1 && owners[2] == o2);
            assert(o1 != o2);
            assert(recipient_index(rs, o1) < rs.len() && recipient_index(rs, o2) < rs.len());
            lemma_recipient_index(rs, o1);
            lemma_recipient_index(rs, o2);
            let k1 = recipient_index(rs, o1) as int;
            let k2 = recipient_index(rs, o2) as int;
            assert(k1 != k2);
            assert(mint_share_sum(rs) == rs[0].mint_share + rs[1].mint_share + rs[2].mint_share) by {
                reveal_with_fuel(mint_share_sum, 4);
                assert(rs.drop_last().drop_last().drop_last() =~= Seq::<Recipient>::empty());
            }
            lemma_two_shares_le(fee, rs[k1].mint_share, rs[k2].mint_share);
            assert(others_total(rs, fee, accounts, 3) == account_amount(rs, fee, accounts[1])
                + account_amount(rs, fee, accounts[2])) by {
                reveal_with_fuel(others_total, 3);
            }
        }
        assert(others_total(rs, fee, accounts, n) <= fee);
        assert forall|i: int| 1 <= i < n implies 0 <= #[trigger] account_amount(rs, fee, accounts[i])
            <= u64::MAX by {
            assert(0 <= account_amount(rs, fee, accounts[i]) <= fee);
        }
        lemma_amounts_sum_prefix(c, fee, accounts, n);
        assert(spec_amounts(c, fee, accounts).take(n) =~= spec_amounts(c, fee, accounts));
    }
}

/// Minting with the NFT program pays the holder of each account after the
/// first the mint share of its recipient (the one whose address holds the
/// account) of the configured fee of the NFT's kind, rounded down; recipients
/// have distinct addresses, as `initialize` ensures.
pub proof fn lemma_split_pays_mint_shares(
    c: ConfigView,
    accounts: Seq<AccountInfo>,
    nft_type: NftType,
    i: int,
    k: int,
)
    requires
        crate::nft::state::addresses_distinct(c.recipients),
        1 <= i < accounts.len(),
        0 <= k < c.recipients.len(),
        c.recipients[k].address@ == token_owner_of(accounts[i]),
    ensures
        spec_calculate_amounts(c, accounts, nft_type) matches Ok(v) ==> v[i] == ((
        c.fees.fee_of(nft_type) * c.recipients[k].mint_share) / 100) as u64,
{
    let rs = c.recipients;
    let owner = token_owner_of(accounts[i]);
    lemma_recipient_index(rs, owner);
    let idx = recipient_index(rs, owner) as int;
    if idx < k {
        assert(rs[idx].address@ == rs[k].address@);
    } else if idx > k {
        assert(rs[k].address@ != owner);
    }
    assert(idx == k);
}

} // verus!
