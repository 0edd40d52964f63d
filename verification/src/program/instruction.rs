use vstd::prelude::*;
use vstd::bytes::{spec_u32_from_le_bytes, spec_u32_to_le_bytes, spec_u64_to_le_bytes};
use vstd::string::StringSliceAdditionalSpecFns;
use crate::api::pda::config as config_address;
use crate::api::state::{
    decode_fees, decode_recipient, encode_fees, encode_recipient, encode_recipients,
    lemma_encode_recipients_at, lemma_encode_recipients_len, Fees, Recipient, RecipientView,
};
use crate::bytes::{push_pubkey, push_u32, push_u64, read_pubkey, read_u32, read_u64};
use crate::instruction::{metas_view, AccountMeta, Instruction};
use crate::pda::{program_address, system_program_id};
use crate::program_error::ProgramErrorCode;
use crate::pubkey::Pubkey;

verus! {

/// The instructions of the configuration program.
#[derive(Clone, Debug)]
pub enum ChillInstruction {
    /// Sets up the configuration of a mint. Accounts: the authority (signer,
    /// written), the configuration (written), the mint, the System program.
    Initialize { fees: Fees, recipients: Vec<Recipient> },
    /// Mints an NFT.
    MintNft,
}

/// An instruction as a value.
pub enum ChillInstructionView {
    Initialize { fees: Fees, recipients: Seq<RecipientView> },
    MintNft,
}

impl View for ChillInstruction {
    type V = ChillInstructionView;

    open spec fn view(&self) -> ChillInstructionView {
        match self {
            ChillInstruction::Initialize { fees, recipients } => ChillInstructionView::Initialize {
                fees: *fees,
                recipients: recipients@.map_values(|r: Recipient| r@),
            },
            ChillInstruction::MintNft => ChillInstructionView::MintNft,
        }
    }
}

/// The Borsh encoding of an instruction: the variant's byte, then, for
/// `Initialize`, the fees, the number of recipients in 4 little-endian bytes
/// and the recipients.
pub open spec fn encode_instruction(v: ChillInstructionView) -> Seq<u8> {
    match v {
        ChillInstructionView::Initialize { fees, recipients } => seq![0u8] + encode_fees(fees)
            + spec_u32_to_le_bytes(recipients.len() as u32) + encode_recipients(recipients),
        ChillInstructionView::MintNft => seq![1u8],
    }
}

/// The instruction that `b` encodes, all of it, or `None`.
pub open spec fn decode_instruction(b: Seq<u8>) -> Option<ChillInstructionView> {
    if b.len() == 0 {
        None
    } else if b[0] == 1 {
        if b.len() == 1 {
            Some(ChillInstructionView::MintNft)
        } else {
            None
        }
    } else if b[0] == 0 {
        if b.len() < 45 {
            None
        } else {
            let n = spec_u32_from_le_bytes(b.subrange(41, 45));
            if b.len() != 45 + 34 * n {
                None
            } else {
                Some(
                    ChillInstructionView::Initialize {
                        fees: decode_fees(b, 1),
                        recipients: Seq::new(n as nat, |i: int| decode_recipient(b, 45 + 34 * i)),
                    },
                )
            }
        }
    } else {
        None
    }
}

/// The parts of an instruction have the sizes that their encodings assume.
pub open spec fn instruction_view_wf(v: ChillInstructionView) -> bool {
    match v {
        ChillInstructionView::Initialize { fees, recipients } => {
            &&& recipients.len() <= u32::MAX
            &&& forall|i: int|
                0 <= i < recipients.len() ==> (#[trigger] recipients[i]).address.len() == 32
        },
        ChillInstructionView::MintNft => true,
    }
}

/// Decoding an encoded instruction gives it back.
pub proof fn lemma_instruction_roundtrip(v: ChillInstructionView)
    requires
        instruction_view_wf(v),
    ensures
        decode_instruction(encode_instruction(v)) == Some(v),
{
    vstd::bytes::lemma_auto_spec_u64_to_from_le_bytes();
    vstd::bytes::lemma_auto_spec_u32_to_from_le_bytes();
    if let ChillInstructionView::Initialize { fees, recipients } = v {
        let b = encode_instruction(v);
        let n = recipients.len();
        lemma_encode_recipients_len(recipients);
        assert(b.subrange(41, 45) =~= spec_u32_to_le_bytes(n as u32));
        assert(b.subrange(1, 9) =~= spec_u64_to_le_bytes(fees.character));
        assert(b.subrange(9, 17) =~= spec_u64_to_le_bytes(fees.pet));
        assert(b.subrange(17, 25) =~= spec_u64_to_le_bytes(fees.emote));
        assert(b.subrange(25, 33) =~= spec_u64_to_le_bytes(fees.tileset));
        assert(b.subrange(33, 41) =~= spec_u64_to_le_bytes(fees.item));
        let d = decode_instruction(b).unwrap();
        if let ChillInstructionView::Initialize { fees: dfees, recipients: drs } = d {
            assert(dfees == fees);
            assert forall|i: int| 0 <= i < n implies #[trigger] drs[i] == recipients[i] by {
                lemma_encode_recipients_at(recipients, i);
                let e = encode_recipients(recipients);
                assert(b.subrange(45 + 34 * i, 45 + 34 * i + 34) =~= e.subrange(34 * i, 34 * i + 34));
                let r = recipients[i];
                assert(encode_recipient(r).subrange(0, 32) =~= r.address);
                assert(b.subrange(45 + 34 * i, 45 + 34 * i + 32) =~= encode_recipient(r).subrange(
                    0,
                    32,
                ));
                assert(b[45 + 34 * i + 32] == encode_recipient(r)[32]);
                assert(b[45 + 34 * i + 33] == encode_recipient(r)[33]);
            }
            assert(drs =~= recipients);
        }
    } else {
        assert(encode_instruction(v) =~= seq![1u8]);
    }
}

impl ChillInstruction {
    /// The Borsh encoding of the instruction.
    pub fn try_to_vec(&self) -> (r: Vec<u8>)
        requires
            self is Initialize ==> self->recipients@.len() <= u32::MAX,
        ensures
            r@ == encode_instruction(self@),
    {
        let mut out: Vec<u8> = Vec::new();
        match self {
            ChillInstruction::Initialize { fees, recipients } => {
                out.push(0u8);
                push_u64(&mut out, fees.character);
                push_u64(&mut out, fees.pet);
                push_u64(&mut out, fees.emote);
                push_u64(&mut out, fees.tileset);
                push_u64(&mut out, fees.item);
                let n = recipients.len();
                push_u32(&mut out, n as u32);
                let ghost head = out@;
                let ghost rs = recipients@.map_values(|r: Recipient| r@);
                let mut i: usize = 0;
                while i < n
                    invariant
                        0 <= i <= n,
                        n == recipients@.len(),
                        rs == recipients@.map_values(|r: Recipient| r@),
                        out@ == head + encode_recipients(rs.take(i as int)),
                    decreases n - i,
                {
                    let r = &recipients[i];
                    push_pubkey(&mut out, &r.address);
                    out.push(r.mint_share);
                    out.push(r.transaction_share);
                    proof {
                        assert(rs.take(i + 1).drop_last() =~= rs.take(i as int));
                        assert(rs.take(i + 1).last() == rs[i as int]);
                        assert(out@ =~= head + encode_recipients(rs.take(i + 1)));
                    }
                    i = i + 1;
                }
                proof {
                    assert(rs.take(n as int) =~= rs);
                    assert(out@ =~= encode_instruction(self@));
                }
            },
            ChillInstruction::MintNft => {
                out.push(1u8);
                assert(out@ =~= encode_instruction(self@));
            },
        }
        out
    }

    /// Decodes an instruction that takes up all of `data`; a Borsh error
    /// where the bytes are no instruction or where bytes are left over.
    pub fn try_from_slice(data: &[u8]) -> (r: Result<ChillInstruction, ProgramErrorCode>)
        ensures
            match decode_instruction(data@) {
                Some(v) => r is Ok && r->Ok_0@ == v,
                None => r == Err::<ChillInstruction, ProgramErrorCode>(
                    ProgramErrorCode::BorshIoError,
                ),
            },
    {
        if data.len() == 0 {
            return Err(ProgramErrorCode::BorshIoError);
        }
        if data[0] == 1 {
            if data.len() == 1 {
                return Ok(ChillInstruction::MintNft);
            }
            return Err(ProgramErrorCode::BorshIoError);
        }
        if data[0] != 0 || data.len() < 45 {
            return Err(ProgramErrorCode::BorshIoError);
        }
        let fees = Fees {
            character: read_u64(data, 1),
            pet: read_u64(data, 9),
            emote: read_u64(data, 17),
            tileset: read_u64(data, 25),
            item: read_u64(data, 33),
        };
        let n = read_u32(data, 41);
        let ghost b = data@;
        if (data.len() as u64) != 45 + 34 * (n as u64) {
            return Err(ProgramErrorCode::BorshIoError);
        }
        let n = n as usize;
        let mut recipients: Vec<Recipient> = Vec::new();
        let mut i: usize = 0;
        while i < n
            invariant
                0 <= i <= n,
                b == data@,
                b.len() == 45 + 34 * n,
                b.len() <= usize::MAX,
                recipients@.map_values(|r: Recipient| r@) =~= Seq::new(
                    i as nat,
                    |k: int| decode_recipient(b, 45 + 34 * k),
                ),
            decreases n - i,
        {
            proof {
                assert(45 + 34 * i + 34 <= 45 + 34 * n) by (nonlinear_arith)
                    requires
                        i < n,
                ;
            }
            let pos = 45 + 34 * i;
            let address = read_pubkey(data, pos);
            let r = Recipient { address, mint_share: data[pos + 32], transaction_share: data[pos + 33] };
            assert(r@ == decode_recipient(b, 45 + 34 * i));
            let ghost prev = recipients@;
            recipients.push(r);
            proof {
                assert(recipients@.map_values(|r: Recipient| r@) =~= prev.map_values(
                    |r: Recipient| r@,
                ).push(r@));
            }
            i = i + 1;
            proof {
                assert(recipients@.map_values(|r: Recipient| r@) =~= Seq::new(
                    i as nat,
                    |k: int| decode_recipient(b, 45 + 34 * k),
                ));
            }
        }
        Ok(ChillInstruction::Initialize { fees, recipients })
    }
}

/// The accounts of an `Initialize` instruction: the authority (signer,
/// written), the configuration (written), the mint, the System program.
pub open spec fn initialize_metas(authority: Seq<u8>, config: Seq<u8>, mint: Seq<u8>) -> Seq<
    (Seq<u8>, bool, bool),
> {
    seq![(authority, true, true), (config, false, true), (mint, false, false), (Pubkey::zero_bytes(), false, false)]
}

/// The instruction that sets up the configuration of `mint` under
/// `program_id`, at its configuration's address.
pub fn initialize(
    program_id: Pubkey,
    authority: Pubkey,
    mint: Pubkey,
    fees: Fees,
    recipients: Vec<Recipient>,
) -> (r: Instruction)
    requires
        recipients@.len() <= u32::MAX,
    ensures
        r.program_id == program_id,
        metas_view(r.accounts@) == initialize_metas(
            authority@,
            program_address(seq!["config".spec_bytes(), mint@], program_id@).0,
            mint@,
        ),
        r.data@ == encode_instruction(
            ChillInstructionView::Initialize {
                fees,
                recipients: recipients@.map_values(|x: Recipient| x@),
            },
        ),
{
    let (config, _) = config_address(&mint, &program_id);
    let ins = ChillInstruction::Initialize { fees, recipients };
    let data = ins.try_to_vec();
    let mut accounts: Vec<AccountMeta> = Vec::new();
    accounts.push(AccountMeta::new(authority, true));
    accounts.push(AccountMeta::new(config, false));
    accounts.push(AccountMeta::new_readonly(mint, false));
    accounts.push(AccountMeta::new_readonly(system_program_id(), false));
    proof {
        assert(metas_view(accounts@) =~= initialize_metas(authority@, config@, mint@));
    }
    Instruction { program_id, accounts, data }
}

} // verus!
