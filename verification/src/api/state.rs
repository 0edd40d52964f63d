use vstd::prelude::*;
use vstd::bytes::{spec_u32_from_le_bytes, spec_u32_to_le_bytes, spec_u64_from_le_bytes, spec_u64_to_le_bytes};
use crate::api::error::{api_error_number, ChillApiError};
use crate::bytes::{copy_prefix, push_pubkey, push_u32, push_u64, read_pubkey, read_u32, read_u64};
use crate::program_error::ProgramErrorCode;
use crate::nft::state::NftType;
use crate::pubkey::Pubkey;

verus! {

/// Whether an account holds a configuration.
#[derive(Clone, Copy, Debug, PartialEq, Eq, Structural)]
pub enum StateType {
    Uninitialized,
    Config,
}

impl StateType {
    pub const LEN: usize = 1;
}

/// The Borsh byte of a state type: its variant's position.
pub open spec fn state_type_byte(t: StateType) -> u8 {
    match t {
        StateType::Uninitialized => 0,
        StateType::Config => 1,
    }
}

/// The mint fee of each kind of NFT.
#[derive(Clone, Copy, Debug, Default, PartialEq, Eq, Structural)]
pub struct Fees {
    pub character: u64,
    pub pet: u64,
    pub emote: u64,
    pub tileset: u64,
    pub item: u64,
}

impl Fees {
    pub const LEN: usize = 40;

    /// The configured mint fee of `nft_type`; the configuration holds no fee
    /// for worlds.
    pub open spec fn fee_of(self, nft_type: NftType) -> Option<u64> {
        match nft_type {
            NftType::Character => Some(self.character),
            NftType::Pet => Some(self.pet),
            NftType::Emote => Some(self.emote),
            NftType::Tileset => Some(self.tileset),
            NftType::Item => Some(self.item),
            NftType::World => None,
        }
    }

    /// The configured mint fee of `nft_type`; `None` for a world, which the
    /// configuration holds no fee for.
    pub fn of(&self, nft_type: NftType) -> (r: Option<u64>)
        ensures
            r == self.fee_of(nft_type),
    {
        match nft_type {
            NftType::Character => Some(self.character),
            NftType::Pet => Some(self.pet),
            NftType::Emote => Some(self.emote),
            NftType::Tileset => Some(self.tileset),
            NftType::Item => Some(self.item),
            NftType::World => None,
        }
    }

    /// The Borsh encoding of the fees.
    pub fn try_to_vec(&self) -> (r: Vec<u8>)
        ensures
            r@ == encode_fees(*self),
    {
        let mut out: Vec<u8> = Vec::new();
        push_u64(&mut out, self.character);
        push_u64(&mut out, self.pet);
        push_u64(&mut out, self.emote);
        push_u64(&mut out, self.tileset);
        push_u64(&mut out, self.item);
        assert(out@ =~= encode_fees(*self));
        out
    }
}

/// A recipient of mint fees, with its shares in percent.
#[derive(Clone, Copy, Debug, PartialEq, Eq)]
pub struct Recipient {
    pub address: Pubkey,
    pub mint_share: u8,
    pub transaction_share: u8,
}

impl Recipient {
    pub const LEN: usize = 34;

    /// The Borsh encoding of the recipient.
    pub fn try_to_vec(&self) -> (r: Vec<u8>)
        ensures
            r@ == encode_recipient(self@),
    {
        let mut out: Vec<u8> = Vec::new();
        push_pubkey(&mut out, &self.address);
        out.push(self.mint_share);
        out.push(self.transaction_share);
        assert(out@ =~= encode_recipient(self@));
        out
    }
}

pub struct RecipientView {
    pub address: Seq<u8>,
    pub mint_share: u8,
    pub transaction_share: u8,
}

impl View for Recipient {
    type V = RecipientView;

    open spec fn view(&self) -> RecipientView {
        RecipientView {
            address: self.address@,
            mint_share: self.mint_share,
            transaction_share: self.transaction_share,
        }
    }
}

/// The configuration of the NFT program: its token mint, fees and fee
/// recipients.
#[derive(Clone, Debug, PartialEq)]
pub struct Config {
    pub state_type: StateType,
    pub mint: Pubkey,
    pub fees: Fees,
    pub recipients: Vec<Recipient>,
}

pub struct ConfigView {
    pub state_type: StateType,
    pub mint: Seq<u8>,
    pub fees: Fees,
    pub recipients: Seq<RecipientView>,
}

impl View for Config {
    type V = ConfigView;

    open spec fn view(&self) -> ConfigView {
        ConfigView {
            state_type: self.state_type,
            mint: self.mint@,
            fees: self.fees,
            recipients: self.recipients@.map_values(|r: Recipient| r@),
        }
    }
}

/// The Borsh encoding of the fees: each fee in 8 little-endian bytes.
pub open spec fn encode_fees(f: Fees) -> Seq<u8> {
    spec_u64_to_le_bytes(f.character) + spec_u64_to_le_bytes(f.pet) + spec_u64_to_le_bytes(f.emote)
        + spec_u64_to_le_bytes(f.tileset) + spec_u64_to_le_bytes(f.item)
}

/// The Borsh encoding of a recipient: its address, then its two shares.
pub open spec fn encode_recipient(r: RecipientView) -> Seq<u8> {
    r.address + seq![r.mint_share, r.transaction_share]
}

/// The recipients' encodings one after another.
pub open spec fn encode_recipients(rs: Seq<RecipientView>) -> Seq<u8>
    decreases rs.len(),
{
    if rs.len() == 0 {
        Seq::empty()
    } else {
        encode_recipients(rs.drop_last()) + encode_recipient(rs.last())
    }
}

/// The Borsh encoding of a configuration: the state type's byte, the mint,
/// the fees, the number of recipients in 4 little-endian bytes, then the
/// recipients.
pub open spec fn encode_config(c: ConfigView) -> Seq<u8> {
    seq![state_type_byte(c.state_type)] + c.mint + encode_fees(c.fees) + spec_u32_to_le_bytes(
        c.recipients.len() as u32,
    ) + encode_recipients(c.recipients)
}

/// The fees encoded at `pos` in `b`.
pub open spec fn decode_fees(b: Seq<u8>, pos: int) -> Fees {
    Fees {
        character: spec_u64_from_le_bytes(b.subrange(pos, pos + 8)),
        pet: spec_u64_from_le_bytes(b.subrange(pos + 8, pos + 16)),
        emote: spec_u64_from_le_bytes(b.subrange(pos + 16, pos + 24)),
        tileset: spec_u64_from_le_bytes(b.subrange(pos + 24, pos + 32)),
        item: spec_u64_from_le_bytes(b.subrange(pos + 32, pos + 40)),
    }
}

/// The recipient encoded at `pos` in `b`.
pub open spec fn decode_recipient(b: Seq<u8>, pos: int) -> RecipientView {
    RecipientView {
        address: b.subrange(pos, pos + 32),
        mint_share: b[pos + 32],
        transaction_share: b[pos + 33],
    }
}

/// Where the recipients start in an encoded configuration.
pub open spec fn recipients_start() -> int {
    77
}

/// The configuration that the start of `b` encodes, or `None` where the
/// bytes run out or the state type's byte is no variant.
pub open spec fn decode_config(b: Seq<u8>) -> Option<ConfigView> {
    if b.len() < recipients_start() || b[0] > 1 {
        None
    } else {
        let n = spec_u32_from_le_bytes(b.subrange(73, 77));
        if b.len() < recipients_start() + 34 * n {
            None
        } else {
            Some(
                ConfigView {
                    state_type: if b[0] == 0 {
                        StateType::Uninitialized
                    } else {
                        StateType::Config
                    },
                    mint: b.subrange(1, 33),
                    fees: decode_fees(b, 33),
                    recipients: Seq::new(
                        n as nat,
                        |i: int| decode_recipient(b, recipients_start() + 34 * i),
                    ),
                },
            )
        }
    }
}

/// The configuration's parts have the sizes that their encodings assume.
pub open spec fn config_view_wf(c: ConfigView) -> bool {
    &&& c.mint.len() == 32
    &&& c.recipients.len() <= u32::MAX
    &&& forall|i: int| 0 <= i < c.recipients.len() ==> (#[trigger] c.recipients[i]).address.len() == 32
}

pub proof fn lemma_encode_recipients_len(rs: Seq<RecipientView>)
    requires
        forall|i: int| 0 <= i < rs.len() ==> (#[trigger] rs[i]).address.len() == 32,
    ensures
        encode_recipients(rs).len() == 34 * rs.len(),
    decreases rs.len(),
{
    if rs.len() > 0 {
        lemma_encode_recipients_len(rs.drop_last());
        assert(rs.last() == rs[rs.len() - 1]);
    }
}

/// Recipient `i` is encoded at `34 * i`.
pub proof fn lemma_encode_recipients_at(rs: Seq<RecipientView>, i: int)
    requires
        forall|k: int| 0 <= k < rs.len() ==> (#[trigger] rs[k]).address.len() == 32,
        0 <= i < rs.len(),
    ensures
        encode_recipients(rs).subrange(34 * i, 34 * i + 34) == encode_recipient(rs[i]),
    decreases rs.len(),
{
    let prefix = encode_recipients(rs.drop_last());
    lemma_encode_recipients_len(rs.drop_last());
    assert(rs.last() == rs[rs.len() - 1]);
    if i == rs.len() - 1 {
        assert(encode_recipients(rs).subrange(34 * i, 34 * i + 34) =~= encode_recipient(rs[i]));
    } else {
        lemma_encode_recipients_at(rs.drop_last(), i);
        assert(rs.drop_last()[i] == rs[i]);
        assert(encode_recipients(rs).subrange(34 * i, 34 * i + 34) =~= prefix.subrange(
            34 * i,
            34 * i + 34,
        ));
    }
}

/// Decoding an encoded configuration gives it back, whatever bytes follow.
pub proof fn lemma_config_roundtrip(c: ConfigView, rest: Seq<u8>)
    requires
        config_view_wf(c),
    ensures
        decode_config(encode_config(c) + rest) == Some(c),
{
    vstd::bytes::lemma_auto_spec_u64_to_from_le_bytes();
    vstd::bytes::lemma_auto_spec_u32_to_from_le_bytes();
    let b = encode_config(c) + rest;
    let n = c.recipients.len();
    lemma_encode_recipients_len(c.recipients);
    let le = |v: u64| spec_u64_to_le_bytes(v);
    assert(b.subrange(1, 33) =~= c.mint);
    assert(b.subrange(73, 77) =~= spec_u32_to_le_bytes(n as u32));
    assert(b.subrange(33, 41) =~= spec_u64_to_le_bytes(c.fees.character));
    assert(b.subrange(41, 49) =~= spec_u64_to_le_bytes(c.fees.pet));
    assert(b.subrange(49, 57) =~= spec_u64_to_le_bytes(c.fees.emote));
    assert(b.subrange(57, 65) =~= spec_u64_to_le_bytes(c.fees.tileset));
    assert(b.subrange(65, 73) =~= spec_u64_to_le_bytes(c.fees.item));
    let d = decode_config(b).unwrap();
    assert(d.fees == c.fees);
    assert forall|i: int| 0 <= i < n implies #[trigger] d.recipients[i] == c.recipients[i] by {
        lemma_encode_recipients_at(c.recipients, i);
        let e = encode_recipients(c.recipients);
        assert(b.subrange(77 + 34 * i, 77 + 34 * i + 34) =~= e.subrange(34 * i, 34 * i + 34));
        let r = c.recipients[i];
        assert(encode_recipient(r).subrange(0, 32) =~= r.address);
        assert(b.subrange(77 + 34 * i, 77 + 34 * i + 32) =~= encode_recipient(r).subrange(0, 32));
        assert(b[77 + 34 * i + 32] == encode_recipient(r)[32]);
        assert(b[77 + 34 * i + 33] == encode_recipient(r)[33]);
    }
    assert(d.recipients =~= c.recipients);
    assert(d.mint =~= c.mint);
}

impl Config {
    pub const LEN: usize = 179;

    pub const VECTOR_PREFIX: usize = 4;

    pub const MAX_RECIPIENT_NUMBER: usize = 3;

    pub fn state_type(&self) -> (r: StateType)
        ensures
            r == self@.state_type,
    {
        self.state_type
    }

    pub fn is_initialized(&self) -> (r: bool)
        ensures
            r == (self@.state_type == StateType::Config),
    {
        match self.state_type {
            StateType::Config => true,
            StateType::Uninitialized => false,
        }
    }

    /// A configuration of an initialized account, refused where there are
    /// more than three recipients or, with some recipients, their mint shares
    /// or their transaction shares do not add up to 100.
    pub fn new(mint: &Pubkey, fees: Fees, recipients: Vec<Recipient>) -> (r: Result<
        Config,
        ProgramErrorCode,
    >)
        ensures
            recipients@.len() > Config::MAX_RECIPIENT_NUMBER ==> r == Err::<Config, ProgramErrorCode>(
                ProgramErrorCode::Custom(
                    api_error_number(ChillApiError::MaximumRecipientsNumberExceeded),
                ),
            ),
            recipients@.len() <= Config::MAX_RECIPIENT_NUMBER && recipients@.len() > 0 && (
            mint_share_sum(recipients@) != 100 || transaction_share_sum(recipients@) != 100) ==> r
                == Err::<Config, ProgramErrorCode>(
                ProgramErrorCode::Custom(api_error_number(ChillApiError::InvalidShares)),
            ),
            r is Ok <==> (recipients@.len() <= Config::MAX_RECIPIENT_NUMBER && (recipients@.len()
                == 0 || (mint_share_sum(recipients@) == 100 && transaction_share_sum(recipients@)
                == 100))),
            r matches Ok(c) ==> c.state_type == StateType::Config && c.mint == *mint && c.fees
                == fees && c.recipients == recipients,
    {
        if recipients.len() > Self::MAX_RECIPIENT_NUMBER {
            return Err(ChillApiError::MaximumRecipientsNumberExceeded.to_program_error());
        }
        if recipients.len() > 0 {
            let mint_share_sum = sum_mint_shares(&recipients);
            let transaction_share_sum = sum_transaction_shares(&recipients);
            if mint_share_sum != 100 || transaction_share_sum != 100 {
                return Err(ChillApiError::InvalidShares.to_program_error());
            }
        }
        Ok(Config { state_type: StateType::Config, mint: *mint, fees, recipients })
    }

    /// A configuration whose state type is `Config`, with the zero mint, no
    /// fees and no recipients.
    pub fn default() -> (r: Config)
        ensures
            r@.state_type == StateType::Config,
            r@.mint == Pubkey::zero_bytes(),
            r.fees == (Fees { character: 0, pet: 0, emote: 0, tileset: 0, item: 0 }),
            r@.recipients.len() == 0,
    {
        Config {
            state_type: StateType::Config,
            mint: Pubkey::zero(),
            fees: Fees { character: 0, pet: 0, emote: 0, tileset: 0, item: 0 },
            recipients: Vec::new(),
        }
    }

    /// The Borsh encoding of the configuration.
    pub fn try_to_vec(&self) -> (r: Vec<u8>)
        requires
            self.recipients@.len() <= u32::MAX,
        ensures
            r@ == encode_config(self@),
    {
        let mut out: Vec<u8> = Vec::new();
        let tag: u8 = match self.state_type {
            StateType::Uninitialized => 0,
            StateType::Config => 1,
        };
        out.push(tag);
        push_pubkey(&mut out, &self.mint);
        push_u64(&mut out, self.fees.character);
        push_u64(&mut out, self.fees.pet);
        push_u64(&mut out, self.fees.emote);
        push_u64(&mut out, self.fees.tileset);
        push_u64(&mut out, self.fees.item);
        let n = self.recipients.len();
        push_u32(&mut out, n as u32);
        let ghost head = out@;
        let ghost rs = self@.recipients;
        let mut i: usize = 0;
        while i < n
            invariant
                0 <= i <= n,
                n == self.recipients@.len(),
                rs == self@.recipients,
                out@ == head + encode_recipients(rs.take(i as int)),
            decreases n - i,
        {
            let r = &self.recipients[i];
            push_pubkey(&mut out, &r.address);
            out.push(r.mint_share);
            out.push(r.transaction_share);
            proof {
                assert(rs.take(i + 1).drop_last() =~= rs.take(i as int));
                assert(rs.take(i + 1).last() == rs[i as int]);
                assert(out@ =~= head + encode_recipients(rs.take(i + 1)));
            }
            i = i + 1;
        }
        proof {
            assert(rs.take(n as int) =~= rs);
            assert(out@ =~= encode_config(self@));
        }
        out
    }

    /// Writes the configuration's encoding over the start of `dst`, which
    /// must be long enough (the program panics otherwise).
    pub fn pack_into_slice(&self, dst: &mut [u8])
        requires
            self.recipients@.len() <= u32::MAX,
            encode_config(self@).len() <= old(dst)@.len(),
        ensures
            final(dst)@ == encode_config(self@) + old(dst)@.subrange(
                encode_config(self@).len() as int,
                old(dst)@.len() as int,
            ),
    {
        let bytes = self.try_to_vec();
        copy_prefix(dst, bytes.as_slice());
    }

    /// Decodes a configuration from the start of `src`, ignoring what follows.
    pub fn unpack_from_slice(src: &[u8]) -> (r: Result<Config, ProgramErrorCode>)
        ensures
            match decode_config(src@) {
                Some(c) => r is Ok && r->Ok_0@ == c,
                None => r == Err::<Config, ProgramErrorCode>(ProgramErrorCode::BorshIoError),
            },
    {
        if src.len() < 77 || src[0] > 1 {
            return Err(ProgramErrorCode::BorshIoError);
        }
        let state_type = if src[0] == 0 {
            StateType::Uninitialized
        } else {
            StateType::Config
        };
        let mint = read_pubkey(src, 1);
        let fees = Fees {
            character: read_u64(src, 33),
            pet: read_u64(src, 41),
            emote: read_u64(src, 49),
            tileset: read_u64(src, 57),
            item: read_u64(src, 65),
        };
        let n = read_u32(src, 73) as usize;
        let ghost b = src@;
        if (src.len() - 77) / 34 < n {
            return Err(ProgramErrorCode::BorshIoError);
        }
        proof {
            assert(34 * n <= src@.len() - 77) by (nonlinear_arith)
                requires
                    n <= (src@.len() - 77) / 34,
                    src@.len() >= 77,
            ;
        }
        let mut recipients: Vec<Recipient> = Vec::new();
        let mut i: usize = 0;
        while i < n
            invariant
                0 <= i <= n,
                b == src@,
                77 + 34 * n <= b.len(),
                b.len() <= usize::MAX,
                recipients@.map_values(|r: Recipient| r@) =~= Seq::new(
                    i as nat,
                    |k: int| decode_recipient(b, recipients_start() + 34 * k),
                ),
            decreases n - i,
        {
            proof {
                assert(77 + 34 * i + 34 <= 77 + 34 * n) by (nonlinear_arith)
                    requires
                        i < n,
                ;
            }
            let pos = 77 + 34 * i;
            let address = read_pubkey(src, pos);
            let r = Recipient {
                address,
                mint_share: src[pos + 32],
                transaction_share: src[pos + 33],
            };
            assert(r@ == decode_recipient(b, recipients_start() + 34 * i));
            let ghost prev = recipients@;
            recipients.push(r);
            proof {
                assert(recipients@.map_values(|r: Recipient| r@) =~= prev.map_values(
                    |r: Recipient| r@,
                ).push(r@));
            }
            i = i + 1;
            proof {
                assert(recipients@.map_values(|r: Recipient| r@) =~= Seq::new(
                    i as nat,
                    |k: int| decode_recipient(b, recipients_start() + 34 * k),
                ));
            }
        }
        let c = Config { state_type, mint, fees, recipients };
        proof {
            assert(c@.mint =~= b.subrange(1, 33));
        }
        Ok(c)
    }

    /// Decodes an account's data of exactly `LEN` bytes.
    pub fn unpack_unchecked(input: &[u8]) -> (r: Result<Config, ProgramErrorCode>)
        ensures
            input@.len() != Config::LEN ==> r == Err::<Config, ProgramErrorCode>(
                ProgramErrorCode::InvalidAccountData,
            ),
            input@.len() == Config::LEN ==> match decode_config(input@) {
                Some(c) => r is Ok && r->Ok_0@ == c,
                None => r == Err::<Config, ProgramErrorCode>(ProgramErrorCode::BorshIoError),
            },
    {
        if input.len() != Self::LEN {
            return Err(ProgramErrorCode::InvalidAccountData);
        }
        Self::unpack_from_slice(input)
    }

    /// Decodes an account's data of exactly `LEN` bytes that holds an
    /// initialized configuration.
    pub fn unpack(input: &[u8]) -> (r: Result<Config, ProgramErrorCode>)
        ensures
            input@.len() != Config::LEN ==> r == Err::<Config, ProgramErrorCode>(
                ProgramErrorCode::InvalidAccountData,
            ),
            input@.len() == Config::LEN ==> match decode_config(input@) {
                Some(c) => if c.state_type == StateType::Config {
                    r is Ok && r->Ok_0@ == c
                } else {
                    r == Err::<Config, ProgramErrorCode>(ProgramErrorCode::UninitializedAccount)
                },
                None => r == Err::<Config, ProgramErrorCode>(ProgramErrorCode::BorshIoError),
            },
    {
        let value = match Self::unpack_unchecked(input) {
            Ok(v) => v,
            Err(e) => {
                return Err(e);
            },
        };
        if value.is_initialized() {
            Ok(value)
        } else {
            Err(ProgramErrorCode::UninitializedAccount)
        }
    }

    /// Writes the configuration into an account's data of exactly `LEN`
    /// bytes; the encoding must fit (the program panics otherwise).
    pub fn pack(src: Config, dst: &mut [u8]) -> (r: Result<(), ProgramErrorCode>)
        requires
            old(dst)@.len() == Config::LEN ==> encode_config(src@).len() <= Config::LEN,
            src.recipients@.len() <= u32::MAX,
        ensures
            old(dst)@.len() != Config::LEN ==> r == Err::<(), ProgramErrorCode>(
                ProgramErrorCode::InvalidAccountData,
            ) && final(dst)@ == old(dst)@,
            old(dst)@.len() == Config::LEN ==> r is Ok && final(dst)@ == encode_config(src@) + old(
                dst,
            )@.subrange(encode_config(src@).len() as int, Config::LEN as int),
    {
        if dst.len() != Self::LEN {
            return Err(ProgramErrorCode::InvalidAccountData);
        }
        src.pack_into_slice(dst);
        Ok(())
    }
}

/// The sum of the recipients' mint shares.
pub open spec fn mint_share_sum(rs: Seq<Recipient>) -> int
    decreases rs.len(),
{
    if rs.len() == 0 {
        0
    } else {
        mint_share_sum(rs.drop_last()) + rs.last().mint_share
    }
}

pub proof fn lemma_mint_share_sum_monotone(rs: Seq<Recipient>, i: int)
    requires
        0 <= i <= rs.len(),
    ensures
        0 <= mint_share_sum(rs.take(i)) <= mint_share_sum(rs),
    decreases rs.len(),
{
    if i < rs.len() {
        assert(rs.drop_last().take(i) =~= rs.take(i));
        lemma_mint_share_sum_monotone(rs.drop_last(), i);
    } else {
        assert(rs.take(i) =~= rs);
        lemma_mint_share_sum_nonneg(rs);
    }
}

pub proof fn lemma_mint_share_sum_nonneg(rs: Seq<Recipient>)
    ensures
        mint_share_sum(rs) >= 0,
    decreases rs.len(),
{
    if rs.len() > 0 {
        lemma_mint_share_sum_nonneg(rs.drop_last());
    }
}

/// Every mint share is at most 255, so the sum is at most 255 per recipient.
pub proof fn lemma_mint_share_sum_bound(rs: Seq<Recipient>)
    ensures
        mint_share_sum(rs) <= 255 * rs.len(),
    decreases rs.len(),
{
    if rs.len() > 0 {
        lemma_mint_share_sum_bound(rs.drop_last());
    }
}

/// Adds up the recipients' mint shares, in 64 bits so that no sum of
/// fewer than 2^32 shares can overflow.
pub fn sum_mint_shares(recipients: &Vec<Recipient>) -> (r: u64)
    requires
        recipients@.len() <= u32::MAX,
    ensures
        r == mint_share_sum(recipients@),
{
    let mut sum: u64 = 0;
    let mut i: usize = 0;
    while i < recipients.len()
        invariant
            0 <= i <= recipients@.len(),
            recipients@.len() <= u32::MAX,
            sum == mint_share_sum(recipients@.take(i as int)),
        decreases recipients@.len() - i,
    {
        proof {
            assert(recipients@.take(i + 1).drop_last() =~= recipients@.take(i as int));
            lemma_mint_share_sum_bound(recipients@.take(i as int));
        }
        sum = sum + recipients[i].mint_share as u64;
        i = i + 1;
    }
    proof {
        assert(recipients@.take(i as int) =~= recipients@);
    }
    sum
}

/// The sum of the recipients' transaction shares.
pub open spec fn transaction_share_sum(rs: Seq<Recipient>) -> int
    decreases rs.len(),
{
    if rs.len() == 0 {
        0
    } else {
        transaction_share_sum(rs.drop_last()) + rs.last().transaction_share
    }
}

pub proof fn lemma_transaction_share_sum_monotone(rs: Seq<Recipient>, i: int)
    requires
        0 <= i <= rs.len(),
    ensures
        0 <= transaction_share_sum(rs.take(i)) <= transaction_share_sum(rs),
    decreases rs.len(),
{
    if i < rs.len() {
        assert(rs.drop_last().take(i) =~= rs.take(i));
        lemma_transaction_share_sum_monotone(rs.drop_last(), i);
    } else {
        assert(rs.take(i) =~= rs);
        lemma_transaction_share_sum_nonneg(rs);
    }
}

pub proof fn lemma_transaction_share_sum_nonneg(rs: Seq<Recipient>)
    ensures
        transaction_share_sum(rs) >= 0,
    decreases rs.len(),
{
    if rs.len() > 0 {
        lemma_transaction_share_sum_nonneg(rs.drop_last());
    }
}

/// Every transaction share is at most 255, so the sum is at most 255 per recipient.
pub proof fn lemma_transaction_share_sum_bound(rs: Seq<Recipient>)
    ensures
        transaction_share_sum(rs) <= 255 * rs.len(),
    decreases rs.len(),
{
    if rs.len() > 0 {
        lemma_transaction_share_sum_bound(rs.drop_last());
    }
}

/// Adds up the recipients' transaction shares, in 64 bits so that no sum of
/// fewer than 2^32 shares can overflow.
pub fn sum_transaction_shares(recipients: &Vec<Recipient>) -> (r: u64)
    requires
        recipients@.len() <= u32::MAX,
    ensures
        r == transaction_share_sum(recipients@),
{
    let mut sum: u64 = 0;
    let mut i: usize = 0;
    while i < recipients.len()
        invariant
            0 <= i <= recipients@.len(),
            recipients@.len() <= u32::MAX,
            sum == transaction_share_sum(recipients@.take(i as int)),
        decreases recipients@.len() - i,
    {
        proof {
            assert(recipients@.take(i + 1).drop_last() =~= recipients@.take(i as int));
            lemma_transaction_share_sum_bound(recipients@.take(i as int));
        }
        sum = sum + recipients[i].transaction_share as u64;
        i = i + 1;
    }
    proof {
        assert(recipients@.take(i as int) =~= recipients@);
    }
    sum
}

/// The fee charged for minting an NFT of a kind is the configuration's field
/// of that kind; the configuration holds none for worlds.
pub proof fn lemma_api_fee_of_each_kind(f: Fees)
    ensures
        f.fee_of(NftType::Character) == Some(f.character),
        f.fee_of(NftType::Pet) == Some(f.pet),
        f.fee_of(NftType::Emote) == Some(f.emote),
        f.fee_of(NftType::Tileset) == Some(f.tileset),
        f.fee_of(NftType::Item) == Some(f.item),
        f.fee_of(NftType::World) is None,
{
}

} // verus!
