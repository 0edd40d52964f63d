use vstd::prelude::*;
use vstd::bytes::spec_u64_to_le_bytes;
use crate::api::state::{
    decode_fees, decode_recipient, encode_fees, encode_recipient, mint_share_sum,
    sum_mint_shares, sum_transaction_shares, transaction_share_sum, RecipientView,
};
use crate::bytes::{copy_prefix, push_pubkey, push_u64, read_pubkey, read_u64};
use crate::chill_program::error::{chill_error_number, ChillError};
use crate::program_error::ProgramErrorCode;
use crate::pubkey::Pubkey;

pub use crate::api::state::{Fees, Recipient};

verus! {

/// Whether an account holds a configuration.
#[derive(Clone, Copy, Debug, PartialEq, Eq, Structural)]
pub enum StateType {
    Uninitialized,
    Config,
}

/// The configuration of the NFT program in a fixed layout: the state type's
/// byte, the mint, the fees, then three recipient slots of 34 bytes; an
/// all-zero slot holds no recipient.
#[derive(Clone, Debug, PartialEq)]
pub struct Config {
    pub state_type: StateType,
    pub mint: Pubkey,
    pub fees: Fees,
    pub recipients: Vec<Recipient>,
}

pub struct ConfigView {
    pub state_type: StateType,
    pub mint: Seq<u8>,
    pub fees: Fees,
    pub recipients: Seq<RecipientView>,
}

impl View for Config {
    type V = ConfigView;

    open spec fn view(&self) -> ConfigView {
        ConfigView {
            state_type: self.state_type,
            mint: self.mint@,
            fees: self.fees,
            recipients: self.recipients@.map_values(|r: Recipient| r@),
        }
    }
}

/// Where the recipient slots start.
pub open spec fn slots_start() -> int {
    73
}

/// The layout's first 73 bytes: the state type's byte, the mint, the fees.
pub open spec fn encode_header(c: ConfigView) -> Seq<u8> {
    seq![
        match c.state_type {
            StateType::Uninitialized => 0u8,
            StateType::Config => 1u8,
        },
    ] + c.mint + encode_fees(c.fees)
}

/// The bytes of a 175-byte buffer `old` once `c` is written over it: the
/// header, then the recipients in the first slots; the slots past the last
/// recipient keep their bytes.
pub open spec fn packed(c: ConfigView, old: Seq<u8>) -> Seq<u8> {
    Seq::new(
        old.len(),
        |k: int|
            if k < slots_start() {
                encode_header(c)[k]
            } else if k < slots_start() + 34 * c.recipients.len() {
                encode_recipient(c.recipients[(k - slots_start()) / 34])[(k - slots_start()) % 34]
            } else {
                old[k]
            },
    )
}

/// A slot holds a recipient unless its address is all zeros and its mint
/// share is zero.
pub open spec fn holds_recipient(r: RecipientView) -> bool {
    r.address != Pubkey::zero_bytes() || r.mint_share != 0
}

/// The recipients in the three slots of `b`, those that hold one, in order.
pub open spec fn slot_recipients(b: Seq<u8>, count: int) -> Seq<RecipientView>
    decreases count,
{
    if count <= 0 {
        Seq::empty()
    } else {
        let r = decode_recipient(b, slots_start() + 34 * (count - 1));
        if holds_recipient(r) {
            slot_recipients(b, count - 1).push(r)
        } else {
            slot_recipients(b, count - 1)
        }
    }
}

/// What `unpack_from_slice` reads from the first 175 bytes of `b`: `None`
/// where the state type's byte is no variant, `Some(Err(..))` where it is
/// not `Config`.
pub open spec fn decode_config(b: Seq<u8>) -> Result<ConfigView, ProgramErrorCode> {
    if b[0] > 1 {
        Err(ProgramErrorCode::BorshIoError)
    } else if b[0] == 0 {
        Err(ProgramErrorCode::InvalidAccountData)
    } else {
        Ok(
            ConfigView {
                state_type: StateType::Config,
                mint: b.subrange(1, 33),
                fees: decode_fees(b, 33),
                recipients: slot_recipients(b, 3),
            },
        )
    }
}

impl Config {
    pub const LEN: usize = 175;

    pub const MAX_RECIPIENT_NUMBER: usize = 3;

    pub fn is_initialized(&self) -> (r: bool)
        ensures
            r == (self.state_type == StateType::Config),
    {
        match self.state_type {
            StateType::Config => true,
            StateType::Uninitialized => false,
        }
    }

    /// A configuration of an initialized account, refused where there are
    /// more than three recipients or, with some recipients, their mint shares
    /// or their transaction shares do not add up to 100.
    pub fn new(mint: &Pubkey, fees: Fees, recipients: Vec<Recipient>) -> (r: Result<
        Config,
        ProgramErrorCode,
    >)
        ensures
            recipients@.len() > Config::MAX_RECIPIENT_NUMBER ==> r == Err::<
                Config,
                ProgramErrorCode,
            >(
                ProgramErrorCode::Custom(
                    chill_error_number(ChillError::MaximumRecipientsNumberExceeded),
                ),
            ),
            recipients@.len() <= Config::MAX_RECIPIENT_NUMBER && recipients@.len() > 0 && (
            mint_share_sum(recipients@) != 100 || transaction_share_sum(recipients@) != 100) ==> r
                == Err::<Config, ProgramErrorCode>(
                ProgramErrorCode::Custom(chill_error_number(ChillError::InvalidShares)),
            ),
            r is Ok <==> (recipients@.len() <= Config::MAX_RECIPIENT_NUMBER && (recipients@.len()
                == 0 || (mint_share_sum(recipients@) == 100 && transaction_share_sum(recipients@)
                == 100))),
            r matches Ok(c) ==> c.state_type == StateType::Config && c.mint == *mint && c.fees
                == fees && c.recipients == recipients,
    {
        if recipients.len() > Self::MAX_RECIPIENT_NUMBER {
            return Err(ChillError::MaximumRecipientsNumberExceeded.to_program_error());
        }
        if recipients.len() > 0 {
            let mint_share_sum = sum_mint_shares(&recipients);
            let transaction_share_sum = sum_transaction_shares(&recipients);
            if mint_share_sum != 100 || transaction_share_sum != 100 {
                return Err(ChillError::InvalidShares.to_program_error());
            }
        }
        Ok(Config { state_type: StateType::Config, mint: *mint, fees, recipients })
    }

    /// The configuration of an initialized account with the zero mint, no
    /// fees and no recipients.
    pub fn default() -> (r: Config)
        ensures
            r.state_type == StateType::Config,
            r@.mint == Pubkey::zero_bytes(),
            r.fees == (Fees { character: 0, pet: 0, emote: 0, tileset: 0, item: 0 }),
            r@.recipients.len() == 0,
    {
        Config {
            state_type: StateType::Config,
            mint: Pubkey::zero(),
            fees: Fees { character: 0, pet: 0, emote: 0, tileset: 0, item: 0 },
            recipients: Vec::new(),
        }
    }

    /// Writes the layout over the first 175 bytes of `dst`, which must be
    /// that long, for at most three recipients (the program panics
    /// otherwise).
    pub fn pack_into_slice(&self, dst: &mut [u8])
        requires
            old(dst)@.len() >= Config::LEN,
            self.recipients@.len() <= Config::MAX_RECIPIENT_NUMBER,
        ensures
            final(dst)@ == packed(self@, old(dst)@.subrange(0, Config::LEN as int)) + old(
                dst,
            )@.subrange(Config::LEN as int, old(dst)@.len() as int),
    {
        let mut header: Vec<u8> = Vec::new();
        let tag: u8 = match self.state_type {
            StateType::Uninitialized => 0,
            StateType::Config => 1,
        };
        header.push(tag);
        push_pubkey(&mut header, &self.mint);
        push_u64(&mut header, self.fees.character);
        push_u64(&mut header, self.fees.pet);
        push_u64(&mut header, self.fees.emote);
        push_u64(&mut header, self.fees.tileset);
        push_u64(&mut header, self.fees.item);
        let n = self.recipients.len();
        let mut i: usize = 0;
        while i < n
            invariant
                0 <= i <= n,
                n == self.recipients@.len(),
                n <= 3,
                header@ == encode_header(self@) + Seq::new(
                    (34 * i) as nat,
                    |k: int| encode_recipient(self@.recipients[k / 34])[k % 34],
                ),
            decreases n - i,
        {
            let ghost before = header@;
            let r = &self.recipients[i];
            push_pubkey(&mut header, &r.address);
            header.push(r.mint_share);
            header.push(r.transaction_share);
            proof {
                let rv = self@.recipients[i as int];
                assert(rv == r@);
                assert(header@ == before + encode_recipient(rv));
                let f = |k: int| encode_recipient(self@.recipients[k / 34])[k % 34];
                let s_new = Seq::new((34 * (i + 1)) as nat, f);
                let s_old = Seq::new((34 * i) as nat, f);
                assert(encode_recipient(rv).len() == 34);
                assert forall|k: int| 0 <= k < s_new.len() implies #[trigger] s_new[k] == (s_old
                    + encode_recipient(rv))[k] by {
                    if k >= 34 * i {
                        assert(k / 34 == i) by (nonlinear_arith)
                            requires
                                34 * i <= k < 34 * (i + 1),
                        ;
                        assert(k % 34 == k - 34 * i) by (nonlinear_arith)
                            requires
                                34 * i <= k < 34 * (i + 1),
                        ;
                    }
                }
                assert(s_new =~= s_old + encode_recipient(rv));
                assert(header@ =~= encode_header(self@) + s_new);
            }
            i = i + 1;
        }
        let ghost before = dst@;
        proof {
            vstd::bytes::lemma_auto_spec_u64_to_from_le_bytes();
            assert(encode_header(self@).len() == 73);
            assert(header@.len() == 73 + 34 * n);
        }
        copy_prefix(dst, header.as_slice());
        proof {
            let c = self@;
            let f = |k: int| encode_recipient(self@.recipients[k / 34])[k % 34];
            let old175 = before.subrange(0, Config::LEN as int);
            assert forall|k: int| 0 <= k < dst@.len() implies #[trigger] dst@[k] == (packed(
                c,
                old175,
            ) + before.subrange(Config::LEN as int, before.len() as int))[k] by {
                if 73 <= k < 73 + 34 * n {
                    assert(header@[k] == Seq::new((34 * n) as nat, f)[k - 73]);
                }
            }
            assert(dst@ =~= packed(c, old175) + before.subrange(
                Config::LEN as int,
                before.len() as int,
            ));
        }
    }

    /// Reads the layout from the first 175 bytes of `src`: refused where the
    /// state type's byte is no variant or is not `Config`; `src` must hold
    /// the whole layout (the program panics otherwise).
    pub fn unpack_from_slice(src: &[u8]) -> (r: Result<Config, ProgramErrorCode>)
        requires
            src@.len() >= Config::LEN,
        ensures
            match decode_config(src@) {
                Ok(c) => r is Ok && r->Ok_0@ == c,
                Err(e) => r == Err::<Config, ProgramErrorCode>(e),
            },
    {
        if src[0] > 1 {
            return Err(ProgramErrorCode::BorshIoError);
        }
        if src[0] != 1 {
            return Err(ProgramErrorCode::InvalidAccountData);
        }
        let mint = read_pubkey(src, 1);
        let fees = Fees {
            character: read_u64(src, 33),
            pet: read_u64(src, 41),
            emote: read_u64(src, 49),
            tileset: read_u64(src, 57),
            item: read_u64(src, 65),
        };
        let mut recipients: Vec<Recipient> = Vec::new();
        let zero_pubkey = Pubkey::zero();
        let ghost b = src@;
        let mut i: usize = 0;
        while i < 3
            invariant
                0 <= i <= 3,
                b == src@,
                b.len() >= 175,
                zero_pubkey@ == Pubkey::zero_bytes(),
                recipients@.map_values(|r: Recipient| r@) =~= slot_recipients(b, i as int),
            decreases 3 - i,
        {
            let pos = 73 + 34 * i;
            let address = read_pubkey(src, pos);
            let recipient = Recipient {
                address,
                mint_share: src[pos + 32],
                transaction_share: src[pos + 33],
            };
            assert(recipient@ == decode_recipient(b, slots_start() + 34 * i));
            let ghost prev = recipients@;
            if !recipient.address.same(&zero_pubkey) || recipient.mint_share != 0 {
                recipients.push(recipient);
                proof {
                    assert(recipients@.map_values(|r: Recipient| r@) =~= prev.map_values(
                        |r: Recipient| r@,
                    ).push(recipient@));
                }
            }
            i = i + 1;
        }
        let c = Config { state_type: StateType::Config, mint, fees, recipients };
        proof {
            assert(c@.mint =~= b.subrange(1, 33));
        }
        Ok(c)
    }

    /// Reads an account's data of exactly 175 bytes.
    pub fn unpack_unchecked(input: &[u8]) -> (r: Result<Config, ProgramErrorCode>)
        ensures
            input@.len() != Config::LEN ==> r == Err::<Config, ProgramErrorCode>(
                ProgramErrorCode::InvalidAccountData,
            ),
            input@.len() == Config::LEN ==> match decode_config(input@) {
                Ok(c) => r is Ok && r->Ok_0@ == c,
                Err(e) => r == Err::<Config, ProgramErrorCode>(e),
            },
    {
        if input.len() != Self::LEN {
            return Err(ProgramErrorCode::InvalidAccountData);
        }
        Self::unpack_from_slice(input)
    }

    /// Reads an account's data of exactly 175 bytes that holds an initialized
    /// configuration.
    pub fn unpack(input: &[u8]) -> (r: Result<Config, ProgramErrorCode>)
        ensures
            input@.len() != Config::LEN ==> r == Err::<Config, ProgramErrorCode>(
                ProgramErrorCode::InvalidAccountData,
            ),
            input@.len() == Config::LEN ==> match decode_config(input@) {
                Ok(c) => r is Ok && r->Ok_0@ == c,
                Err(e) => r == Err::<Config, ProgramErrorCode>(e),
            },
    {
        let value = match Self::unpack_unchecked(input) {
            Ok(v) => v,
            Err(e) => {
                return Err(e);
            },
        };
        if value.is_initialized() {
            Ok(value)
        } else {
            Err(ProgramErrorCode::UninitializedAccount)
        }
    }

    /// Writes the configuration into an account's data of exactly 175
    /// bytes, for at most three recipients (the program panics otherwise).
    pub fn pack(src: Config, dst: &mut [u8]) -> (r: Result<(), ProgramErrorCode>)
        requires
            old(dst)@.len() == Config::LEN ==> src.recipients@.len()
                <= Config::MAX_RECIPIENT_NUMBER,
        ensures
            old(dst)@.len() != Config::LEN ==> r == Err::<(), ProgramErrorCode>(
                ProgramErrorCode::InvalidAccountData,
            ) && final(dst)@ == old(dst)@,
            old(dst)@.len() == Config::LEN ==> r is Ok && final(dst)@ == packed(src@, old(dst)@),
    {
        if dst.len() != Self::LEN {
            return Err(ProgramErrorCode::InvalidAccountData);
        }
        let ghost before = dst@;
        src.pack_into_slice(dst);
        proof {
            assert(before.subrange(0, Config::LEN as int) =~= before);
            assert(dst@ =~= packed(src@, before));
        }
        Ok(())
    }
}

/// The parts of a configuration have the sizes that the layout assumes, and
/// each recipient is told apart from an empty slot.
pub open spec fn packable(c: ConfigView) -> bool {
    &&& c.mint.len() == 32
    &&& c.recipients.len() <= 3
    &&& forall|i: int|
        0 <= i < c.recipients.len() ==> (#[trigger] c.recipients[i]).address.len() == 32
            && holds_recipient(c.recipients[i])
}

proof fn lemma_packed_slot(c: ConfigView, old: Seq<u8>, j: int)
    requires
        packable(c),
        old.len() == 175,
        0 <= j < 3,
    ensures
        j < c.recipients.len() ==> decode_recipient(packed(c, old), slots_start() + 34 * j)
            == c.recipients[j],
        j >= c.recipients.len() ==> decode_recipient(packed(c, old), slots_start() + 34 * j)
            == decode_recipient(old, slots_start() + 34 * j),
{
    let b = packed(c, old);
    let n = c.recipients.len();
    let p = slots_start() + 34 * j;
    if j < n {
        let r = c.recipients[j];
        assert forall|t: int| 0 <= t < 34 implies b[p + t] == encode_recipient(r)[t] by {
            assert((p + t - slots_start()) / 34 == j) by (nonlinear_arith)
                requires
                    p == 73 + 34 * j,
                    0 <= t < 34,
            ;
            assert((p + t - slots_start()) % 34 == t) by (nonlinear_arith)
                requires
                    p == 73 + 34 * j,
                    0 <= t < 34,
            ;
            assert(p + t < slots_start() + 34 * n) by (nonlinear_arith)
                requires
                    p == 73 + 34 * j,
                    0 <= t < 34,
                    j < n,
            ;
        }
        assert(b.subrange(p, p + 32) =~= r.address) by {
            assert forall|t: int| 0 <= t < 32 implies b.subrange(p, p + 32)[t] == r.address[t] by {
                assert(b[p + t] == encode_recipient(r)[t]);
            }
        }
        assert(b[p + 32] == encode_recipient(r)[32]);
        assert(b[p + 33] == encode_recipient(r)[33]);
    } else {
        let sb = b.subrange(p, p + 34);
        let so = old.subrange(p, p + 34);
        assert forall|t: int| 0 <= t < 34 implies #[trigger] sb[t] == so[t] by {
            assert(p + t >= slots_start() + 34 * n) by (nonlinear_arith)
                requires
                    p == 73 + 34 * j,
                    0 <= t,
                    j >= n,
            ;
        }
        let b32 = b.subrange(p, p + 32);
        let o32 = old.subrange(p, p + 32);
        assert forall|t: int| 0 <= t < 32 implies #[trigger] b32[t] == o32[t] by {
            assert(sb[t] == so[t]);
        }
        assert(b32 =~= o32);
        assert(b[p + 32] == sb[32]);
        assert(b[p + 33] == sb[33]);
    }
}

proof fn lemma_packed_slots(c: ConfigView, old: Seq<u8>, m: int)
    requires
        packable(c),
        old.len() == 175,
        0 <= m <= 3,
        forall|k: int| slots_start() + 34 * c.recipients.len() <= k < 175 ==> old[k] == 0,
    ensures
        slot_recipients(packed(c, old), m) == c.recipients.take(
            if m <= c.recipients.len() {
                m
            } else {
                c.recipients.len() as int
            },
        ),
    decreases m,
{
    let n = c.recipients.len();
    let b = packed(c, old);
    if m > 0 {
        lemma_packed_slots(c, old, m - 1);
        lemma_packed_slot(c, old, m - 1);
        if m - 1 < n {
            assert(c.recipients.take(m - 1).push(c.recipients[m - 1]) =~= c.recipients.take(m));
        } else {
            let p = slots_start() + 34 * (m - 1);
            assert(p >= slots_start() + 34 * n) by (nonlinear_arith)
                requires
                    p == 73 + 34 * (m - 1),
                    m - 1 >= n,
            ;
            assert(decode_recipient(old, p).address =~= Pubkey::zero_bytes());
        }
    } else {
        assert(c.recipients.take(0) =~= Seq::<RecipientView>::empty());
    }
}

/// Reading back what `pack` wrote gives the configuration, where the slots
/// past its recipients were zero, as in a fresh account.
pub proof fn lemma_config_roundtrip(c: ConfigView, old: Seq<u8>)
    requires
        packable(c),
        c.state_type == StateType::Config,
        old.len() == 175,
        forall|k: int| slots_start() + 34 * c.recipients.len() <= k < 175 ==> old[k] == 0,
    ensures
        decode_config(packed(c, old)) == Ok::<ConfigView, ProgramErrorCode>(c),
{
    vstd::bytes::lemma_auto_spec_u64_to_from_le_bytes();
    let b = packed(c, old);
    let h = encode_header(c);
    assert(h.len() == 73);
    assert forall|k: int| 0 <= k < 73 implies b[k] == h[k] by {}
    lemma_packed_slots(c, old, 3);
    assert(c.recipients.take(c.recipients.len() as int) =~= c.recipients);
    assert(b.subrange(1, 33) =~= c.mint);
    assert(b.subrange(33, 41) =~= spec_u64_to_le_bytes(c.fees.character));
    assert(b.subrange(41, 49) =~= spec_u64_to_le_bytes(c.fees.pet));
    assert(b.subrange(49, 57) =~= spec_u64_to_le_bytes(c.fees.emote));
    assert(b.subrange(57, 65) =~= spec_u64_to_le_bytes(c.fees.tileset));
    assert(b.subrange(65, 73) =~= spec_u64_to_le_bytes(c.fees.item));
    assert(decode_fees(b, 33) == c.fees);
}

} // verus!
