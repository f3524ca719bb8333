use vstd::prelude::*;

use crate::address::Address;

verus! {

broadcast use vstd::array::group_array_axioms;

/// The tag that starts the seeds of the program's treasury account.
pub open spec fn treasury_tag() -> Seq<u8> {
    seq![84u8, 82, 69, 65, 83, 85, 82, 89]
}

/// The tag that starts the seeds of a reward token's mint.
pub open spec fn mint_tag() -> Seq<u8> {
    seq![77u8, 73, 78, 84]
}

/// The tag that starts the seeds of a merchant's earned USDC account.
pub open spec fn earned_tag() -> Seq<u8> {
    seq![69u8, 65, 82, 78, 69, 68]
}

/// The tag that starts the seeds of a reward token's USDC reserve account.
pub open spec fn reserve_tag() -> Seq<u8> {
    seq![82u8, 69, 83, 69, 82, 86, 69]
}

/// The seeds of each program-derived account of the program, without the bump.
#[derive(Clone, Copy, Debug, PartialEq)]
pub enum PdaSeeds {
    /// `["TREASURY", usdc_mint]`: the program's USDC treasury.
    Treasury { mint: Address },
    /// `["MINT", token_data]`: the mint of a reward token.
    Mint { token_data: Address },
    /// `["EARNED", token_data, usdc_mint]`: USDC earned by the merchant.
    Earned { token_data: Address, mint: Address },
    /// `["RESERVE", token_data, usdc_mint]`: USDC backing a reward token.
    Reserve { token_data: Address, mint: Address },
}

/// The seeds together with the bump that makes them an off-curve address:
/// what a program signs with when the account is the authority of a transfer.
#[derive(Clone, Copy, Debug, PartialEq)]
pub struct PdaSigner {
    pub seeds: PdaSeeds,
    pub bump: u8,
}

impl PdaSeeds {
    /// The byte strings of the seeds.
    pub open spec fn seed_list(self) -> Seq<Seq<u8>> {
        match self {
            PdaSeeds::Treasury { mint } => seq![treasury_tag(), mint.bytes@],
            PdaSeeds::Mint { token_data } => seq![mint_tag(), token_data.bytes@],
            PdaSeeds::Earned { token_data, mint } => seq![earned_tag(), token_data.bytes@, mint.bytes@],
            PdaSeeds::Reserve { token_data, mint } => seq![reserve_tag(), token_data.bytes@, mint.bytes@],
        }
    }

    /// The byte strings of the seeds, as the runtime takes them.
    pub fn seeds(&self) -> (s: Vec<Vec<u8>>)
        ensures
            s.deep_view() == self.seed_list(),
    {
        let mut s: Vec<Vec<u8>> = Vec::new();
        match self {
            PdaSeeds::Treasury { mint } => {
                s.push(vec![84u8, 82, 69, 65, 83, 85, 82, 89]);
                s.push(address_seed(mint));
            },
            PdaSeeds::Mint { token_data } => {
                s.push(vec![77u8, 73, 78, 84]);
                s.push(address_seed(token_data));
            },
            PdaSeeds::Earned { token_data, mint } => {
                s.push(vec![69u8, 65, 82, 78, 69, 68]);
                s.push(address_seed(token_data));
                s.push(address_seed(mint));
            },
            PdaSeeds::Reserve { token_data, mint } => {
                s.push(vec![82u8, 69, 83, 69, 82, 86, 69]);
                s.push(address_seed(token_data));
                s.push(address_seed(mint));
            },
        }
        proof {
            assert forall|i: int| 0 <= i < s.len() implies #[trigger] s.deep_view()[i]
                == s@[i]@ by {
                lemma_bytes_deep_view(s@[i]);
            }
        }
        assert(s.deep_view() =~= self.seed_list());
        s
    }
}

/// The deep view of a byte vector is its view.
proof fn lemma_bytes_deep_view(v: Vec<u8>)
    ensures
        v.deep_view() == v@,
{
    assert(v.deep_view() =~= v@);
}

impl PdaSigner {
    /// The seeds followed by the one-byte bump seed.
    pub open spec fn signer_seed_list(self) -> Seq<Seq<u8>> {
        self.seeds.seed_list().push(seq![self.bump])
    }

    /// The signer seeds, as a cross-program invocation takes them.
    pub fn signer_seeds(&self) -> (s: Vec<Vec<u8>>)
        ensures
            s.deep_view() == self.signer_seed_list(),
    {
        let mut s = self.seeds.seeds();
        let ghost before = s.deep_view();
        let ghost before_vecs = s@;
        let last = vec![self.bump];
        s.push(last);
        proof {
            lemma_bytes_deep_view(last);
            assert(s.deep_view()[before.len() as int] == last@);
            assert(last@ =~= seq![self.bump]);
            assert(s.deep_view().len() == before.len() + 1);
            assert forall|i: int| 0 <= i < before.len() implies #[trigger] s.deep_view()[i]
                == before[i] by {
                assert(s@[i] == before_vecs[i]);
            }
        }
        assert(s.deep_view() =~= self.signer_seed_list());
        s
    }
}

/// The bytes of an address as one seed.
fn address_seed(a: &Address) -> (v: Vec<u8>)
    ensures
        v@ == a.bytes@,
{
    let mut v: Vec<u8> = Vec::new();
    let mut i: usize = 0;
    while i < 32
        invariant
            i <= 32,
            v@ == a.bytes@.take(i as int),
        decreases 32 - i,
    {
        v.push(a.bytes[i]);
        i = i + 1;
        assert(v@ =~= a.bytes@.take(i as int));
    }
    assert(a.bytes@.take(32) =~= a.bytes@);
    v
}

/// The program-derived address of `seeds` under `program_id` and its bump,
/// as `Pubkey::try_find_program_address` computes it (a hash search over the
/// bump seeds from 255 down); `None` where no bump gives an off-curve address.
pub uninterp spec fn program_address(seeds: Seq<Seq<u8>>, program_id: Seq<u8>) -> Option<
    (Seq<u8>, u8),
>;

/// The plain view of a derived address and its bump.
pub open spec fn found_view(found: Option<(Address, u8)>) -> Option<(Seq<u8>, u8)> {
    match found {
        Some((a, bump)) => Some((a.bytes@, bump)),
        None => None,
    }
}

/// Calls `Pubkey::try_find_program_address` of the Solana program library.
/// Trusted: its result is `program_address` of the seeds and the program id,
/// taken byte for byte; nothing more is claimed of it.
#[verifier::external_body]
fn try_find_program_address(seeds: &Vec<Vec<u8>>, program_id: &Address) -> (found: Option<
    (Address, u8),
>)
    ensures
        found_view(found) == program_address(seeds.deep_view(), program_id.bytes@),
{
    let slices: Vec<&[u8]> = seeds.iter().map(Vec::as_slice).collect();
    let id = anchor_lang::prelude::Pubkey::new_from_array(program_id.bytes);
    match anchor_lang::prelude::Pubkey::try_find_program_address(&slices, &id) {
        Some((key, bump)) => Some((Address { bytes: key.to_bytes() }, bump)),
        None => None,
    }
}

/// The address that `seeds` derive under `program_id`, with its bump.
pub fn find_program_address(seeds: &PdaSeeds, program_id: &Address) -> (found: Option<
    (Address, u8),
>)
    ensures
        found_view(found) == program_address(seeds.seed_list(), program_id.bytes@),
{
    let s = seeds.seeds();
    try_find_program_address(&s, program_id)
}

} // verus!
