//! Identities and the deterministic addressing of an event's sub-accounts.

use anchor_lang::prelude::Pubkey;
use vstd::prelude::*;

verus! {

/// A 32-byte identity: an organizer, a buyer, an asset, or a derived sub-account.
#[derive(Clone, Copy, Debug, PartialEq, Eq)]
pub struct Address {
    pub bytes: [u8; 32],
}

impl View for Address {
    type V = Seq<u8>;

    open spec fn view(&self) -> Seq<u8> {
        self.bytes@
    }
}

impl Address {
    /// Whether two identities are the same, byte for byte.
    pub fn same(&self, other: &Address) -> (r: bool)
        ensures
            r == (self@ == other@),
    {
        let mut i: usize = 0;
        while i < 32
            invariant
                i <= 32,
                forall|j: int| 0 <= j < i ==> self.bytes@[j] == other.bytes@[j],
            decreases 32 - i,
        {
            if self.bytes[i] != other.bytes[i] {
                return false;
            }
            i += 1;
        }
        assert(self.bytes@ =~= other.bytes@);
        true
    }
}

/// The identity under which this ledger is deployed. Every derived address is
/// bound to it.
pub open spec fn id_view() -> Seq<u8> {
    seq![
        216u8, 151u8, 202u8, 1u8, 234u8, 209u8, 131u8, 35u8,
        44u8, 104u8, 101u8, 151u8, 31u8, 64u8, 181u8, 205u8,
        230u8, 112u8, 130u8, 103u8, 200u8, 223u8, 80u8, 2u8,
        246u8, 8u8, 249u8, 186u8, 93u8, 56u8, 137u8, 2u8,
    ]
}

/// The deployment identity as a value.
pub fn id() -> (r: Address)
    ensures
        r@ == id_view(),
{
    let r = Address {
        bytes: [
            216u8, 151u8, 202u8, 1u8, 234u8, 209u8, 131u8, 35u8,
            44u8, 104u8, 101u8, 151u8, 31u8, 64u8, 181u8, 205u8,
            230u8, 112u8, 130u8, 103u8, 200u8, 223u8, 80u8, 2u8,
            246u8, 8u8, 249u8, 186u8, 93u8, 56u8, 137u8, 2u8,
        ],
    };
    assert(r@ =~= id_view());
    r
}

/// The address and nonce that `Pubkey::try_find_program_address` yields for the
/// seeds `[label, parent]` under `program`, or `None` where it finds no nonce.
pub uninterp spec fn derived_address(label: Seq<char>, parent: Seq<u8>, program: Seq<u8>) -> Option<(Seq<u8>, u8)>;

/// The address that `Pubkey::create_program_address` yields for the seeds
/// `[label, parent, [nonce]]` under `program`, or `None` where it rejects them.
pub uninterp spec fn address_at_nonce(label: Seq<char>, parent: Seq<u8>, nonce: u8, program: Seq<u8>) -> Option<Seq<u8>>;

/// Calls `Pubkey::try_find_program_address` on the seeds `[label, parent]`.
/// The result is the named function of the arguments. A nonce that the search
/// returns is one at which `Pubkey::create_program_address` gives that same
/// address: the search returns what that function returned for the nonce.
#[verifier::external_body]
fn find_address(label: &str, parent: &Address, program: &Address) -> (r: Option<(Address, u8)>)
    ensures
        derived_address(label@, parent@, program@) == (match r {
            Some((a, n)) => Some((a@, n)),
            None => None,
        }),
        r matches Some((a, n)) ==> address_at_nonce(label@, parent@, n, program@) == Some(a@),
{
    let pid = Pubkey::new_from_array(program.bytes);
    match Pubkey::try_find_program_address(&[label.as_bytes(), &parent.bytes], &pid) {
        Some((key, nonce)) => Some((Address { bytes: key.to_bytes() }, nonce)),
        None => None,
    }
}

/// Calls `Pubkey::create_program_address` on the seeds `[label, parent, [nonce]]`.
/// The result is the named function of the arguments; an error of the outside
/// function is `None`.
#[verifier::external_body]
fn create_address(label: &str, parent: &Address, nonce: u8, program: &Address) -> (r: Option<Address>)
    ensures
        address_at_nonce(label@, parent@, nonce, program@) == (match r {
            Some(a) => Some(a@),
            None => None,
        }),
{
    let pid = Pubkey::new_from_array(program.bytes);
    match Pubkey::create_program_address(&[label.as_bytes(), &parent.bytes, &[nonce]], &pid) {
        Ok(key) => Some(Address { bytes: key.to_bytes() }),
        Err(_) => None,
    }
}

/// Where the sub-account `label` of `parent` lives under this deployment.
pub open spec fn derivation(label: Seq<char>, parent: Seq<u8>) -> Option<(Seq<u8>, u8)> {
    derived_address(label, parent, id_view())
}

/// Whether `at` is the address of the sub-account `label` of `parent` at `nonce`.
pub open spec fn verifies(label: Seq<char>, parent: Seq<u8>, nonce: u8, at: Seq<u8>) -> bool {
    address_at_nonce(label, parent, nonce, id_view()) == Some(at)
}

/// Derives the address and nonce of the sub-account `label` of `parent`.
/// `None` means that no nonce gives a usable address.
pub fn derive(label: &str, parent: &Address) -> (r: Option<(Address, u8)>)
    ensures
        derivation(label@, parent@) == (match r {
            Some((a, n)) => Some((a@, n)),
            None => None,
        }),
        r matches Some((a, n)) ==> verifies(label@, parent@, n, a@),
{
    let program = id();
    find_address(label, parent, &program)
}

/// Recomputes the address of the sub-account `label` of `parent` from a stored
/// nonce and compares it with the address that was presented.
pub fn verify(label: &str, parent: &Address, nonce: u8, at: &Address) -> (ok: bool)
    ensures
        ok == verifies(label@, parent@, nonce, at@),
{
    let program = id();
    match create_address(label, parent, nonce, &program) {
        Some(a) => a.same(at),
        None => false,
    }
}

} // verus!
