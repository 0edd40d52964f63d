use vstd::prelude::*;
use crate::api::state::{mint_share_sum, transaction_share_sum};
use crate::pubkey::Pubkey;

pub use crate::api::state::Recipient;

verus! {

pub const DESCRIMINATOR_LEN: usize = 8;

pub const VECTOR_PREFIX_LEN: usize = 4;

/// The share, in percent, that the primary wallet keeps among the creators of
/// an NFT that another user creates.
pub const AUTHORITY_SHARE: u8 = 2;

/// The mint fee of each kind of NFT, in the token's smallest unit.
#[derive(Clone, Copy, Debug, Default, PartialEq, Eq, Structural)]
pub struct Fees {
    pub character: u64,
    pub pet: u64,
    pub emote: u64,
    pub tileset: u64,
    pub item: u64,
    pub world: u64,
}

impl Fees {
    pub const LEN: usize = 48;

    /// The fee of `nft_type`.
    pub open spec fn fee_of(self, nft_type: NftType) -> u64 {
        match nft_type {
            NftType::Character => self.character,
            NftType::Pet => self.pet,
            NftType::Emote => self.emote,
            NftType::Tileset => self.tileset,
            NftType::Item => self.item,
            NftType::World => self.world,
        }
    }

    /// The fee of `nft_type`.
    pub fn of(&self, nft_type: NftType) -> (r: u64)
        ensures
            r == self.fee_of(nft_type),
    {
        match nft_type {
            NftType::Character => self.character,
            NftType::Pet => self.pet,
            NftType::Emote => self.emote,
            NftType::Tileset => self.tileset,
            NftType::Item => self.item,
            NftType::World => self.world,
        }
    }
}

/// The kinds of NFT.
#[derive(Clone, Copy, Debug, PartialEq, Eq, Structural)]
pub enum NftType {
    Character,
    Pet,
    Emote,
    Tileset,
    Item,
    World,
}

impl NftType {
    pub const LEN: usize = 1;

    /// The kind's number: its position in the enum.
    pub open spec fn number(self) -> u8 {
        match self {
            NftType::Character => 0,
            NftType::Pet => 1,
            NftType::Emote => 2,
            NftType::Tileset => 3,
            NftType::Item => 4,
            NftType::World => 5,
        }
    }

    /// The kind's name.
    pub open spec fn name(self) -> Seq<char> {
        match self {
            NftType::Character => "character"@,
            NftType::Pet => "pet"@,
            NftType::Emote => "emote"@,
            NftType::Tileset => "tileset"@,
            NftType::Item => "item"@,
            NftType::World => "world"@,
        }
    }

    /// The kind's number.
    pub fn into_u8(self) -> (r: u8)
        ensures
            r == self.number(),
    {
        match self {
            NftType::Character => 0,
            NftType::Pet => 1,
            NftType::Emote => 2,
            NftType::Tileset => 3,
            NftType::Item => 4,
            NftType::World => 5,
        }
    }

    /// The kind with number `number`; "Wrong nft type" for a number past the
    /// last kind.
    pub fn try_from_u8(number: u8) -> (r: Result<NftType, String>)
        ensures
            r is Ok <==> number <= 5,
            r matches Ok(t) ==> t.number() == number,
            r matches Err(e) ==> e@ == "Wrong nft type"@,
    {
        match number {
            0 => Ok(NftType::Character),
            1 => Ok(NftType::Pet),
            2 => Ok(NftType::Emote),
            3 => Ok(NftType::Tileset),
            4 => Ok(NftType::Item),
            5 => Ok(NftType::World),
            _ => Err("Wrong nft type".to_owned()),
        }
    }

    /// The kind named `string`; "Wrong nft type" for any other string.
    pub fn try_from_str(string: &str) -> (r: Result<NftType, String>)
        ensures
            forall|t: NftType| #[trigger] t.name() == string@ ==> r == Ok::<NftType, String>(t),
            r matches Ok(t) ==> t.name() == string@,
            r matches Err(e) ==> e@ == "Wrong nft type"@,
    {
        let s = string.to_owned();
        let r = if s == "character".to_owned() {
            Ok(NftType::Character)
        } else if s == "pet".to_owned() {
            Ok(NftType::Pet)
        } else if s == "emote".to_owned() {
            Ok(NftType::Emote)
        } else if s == "tileset".to_owned() {
            Ok(NftType::Tileset)
        } else if s == "item".to_owned() {
            Ok(NftType::Item)
        } else if s == "world".to_owned() {
            Ok(NftType::World)
        } else {
            Err("Wrong nft type".to_owned())
        };
        proof {
            assert forall|t: NftType| #[trigger] t.name() == string@ implies r == Ok::<
                NftType,
                String,
            >(t) by {
                if let Ok(t0) = r {
                    lemma_name_injective(t, t0);
                } else {
                    match t {
                        NftType::Character => {},
                        NftType::Pet => {},
                        NftType::Emote => {},
                        NftType::Tileset => {},
                        NftType::Item => {},
                        NftType::World => {},
                    }
                }
            }
        }
        r
    }
}

/// Different kinds have different numbers, each at most 5: `try_from_u8`
/// gives back the kind whose number `into_u8` gave.
pub proof fn lemma_number_injective(t1: NftType, t2: NftType)
    ensures
        t1.number() <= 5,
        t1.number() == t2.number() ==> t1 == t2,
{
}

/// Different kinds have different names: `try_from_str` gives back the kind
/// whose name it is given.
pub proof fn lemma_name_injective(t1: NftType, t2: NftType)
    ensures
        t1.name() == t2.name() ==> t1 == t2,
{
    reveal_strlit("character");
    reveal_strlit("pet");
    reveal_strlit("emote");
    reveal_strlit("tileset");
    reveal_strlit("item");
    reveal_strlit("world");
    assert("character"@.len() == 9);
    assert("pet"@.len() == 3);
    assert("emote"@.len() == 5 && "emote"@[0] == 'e');
    assert("tileset"@.len() == 7);
    assert("item"@.len() == 4);
    assert("world"@.len() == 5 && "world"@[0] == 'w');
    if t1.name() == t2.name() && t1 != t2 {
        if t1.name().len() == 5 {
            assert(t1.name()[0] == t2.name()[0]);
        }
    }
}

/// The configuration of the NFT program: the primary wallet, the token in
/// which fees are paid, the fees and the fee recipients.
#[derive(Clone, Debug)]
pub struct Config {
    pub bump: u8,
    pub primary_wallet: Pubkey,
    pub mint: Pubkey,
    pub fees: Fees,
    pub recipients: Vec<Recipient>,
}

pub struct ConfigView {
    pub bump: u8,
    pub primary_wallet: Seq<u8>,
    pub mint: Seq<u8>,
    pub fees: Fees,
    pub recipients: Seq<Recipient>,
}

impl View for Config {
    type V = ConfigView;

    open spec fn view(&self) -> ConfigView {
        ConfigView {
            bump: self.bump,
            primary_wallet: self.primary_wallet@,
            mint: self.mint@,
            fees: self.fees,
            recipients: self.recipients@,
        }
    }
}

impl Config {
    pub const MAX_RECIPIENT_NUMBER: usize = 3;

    pub const LEN: usize = 227;

    pub const SEED: &'static str = "config";
}

/// Whether no two recipients have the same address.
pub open spec fn addresses_distinct(rs: Seq<Recipient>) -> bool {
    forall|i: int, j: int|
        0 <= i < rs.len() && 0 <= j < rs.len() && i != j ==> #[trigger] rs[i].address@
            != #[trigger] rs[j].address@
}

/// The recipients that the program accepts: at most three, with distinct
/// addresses, and, where there are any, mint shares and transaction shares
/// that each add up to 100.
pub open spec fn recipients_valid(rs: Seq<Recipient>) -> bool {
    &&& rs.len() <= Config::MAX_RECIPIENT_NUMBER
    &&& addresses_distinct(rs)
    &&& rs.len() > 0 ==> mint_share_sum(rs) == 100 && transaction_share_sum(rs) == 100
}

/// The NFT program's own record of an NFT: its kind.
#[derive(Clone, Copy, Debug, PartialEq, Eq, Structural)]
pub struct ChillNftMetadata {
    pub bump: u8,
    pub nft_type: NftType,
}

impl ChillNftMetadata {
    pub const LEN: usize = 10;

    pub const SEED: &'static str = "chill-metadata";
}

/// The fee of each kind of NFT is the configuration's field of that kind.
pub proof fn lemma_fee_of_each_kind(f: Fees)
    ensures
        f.fee_of(NftType::Character) == f.character,
        f.fee_of(NftType::Pet) == f.pet,
        f.fee_of(NftType::Emote) == f.emote,
        f.fee_of(NftType::Tileset) == f.tileset,
        f.fee_of(NftType::Item) == f.item,
        f.fee_of(NftType::World) == f.world,
{
}

} // verus!
