//! Identity tokens and deterministic sub-account derivation.
//!
//! A sub-account partitions one underlying account address space per
//! logical owner: byte 0 holds the identity's byte length, the next
//! bytes hold the identity itself, and the remainder is zero.

use vstd::prelude::*;

verus! {

/// Width in bytes of a derived sub-account.
pub const SUB_ACCOUNT_WIDTH: usize = 32;

/// Greatest byte length of an identity token that the identity
/// resolver hands out.
pub const IDENTITY_MAX_LEN: usize = 29;

/// An identity token: the raw bytes that identify a caller.
pub struct Identity {
    pub bytes: Vec<u8>,
}

impl View for Identity {
    type V = Seq<u8>;

    open spec fn view(&self) -> Seq<u8> {
        self.bytes@
    }
}

impl Identity {
    /// Tokens from the identity resolver are at most
    /// `IDENTITY_MAX_LEN` bytes long.
    pub open spec fn wf(&self) -> bool {
        self@.len() <= IDENTITY_MAX_LEN
    }

    /// Byte-for-byte comparison of two identity tokens.
    pub fn same_as(&self, other: &Identity) -> (r: bool)
        ensures
            r <==> self@ == other@,
    {
        if self.bytes.len() != other.bytes.len() {
            return false;
        }
        let mut i: usize = 0;
        while i < self.bytes.len()
            invariant
                i <= self@.len(),
                self@.len() == other@.len(),
                forall|j: int| 0 <= j < i ==> self@[j] == other@[j],
            decreases self@.len() - i,
        {
            if self.bytes[i] != other.bytes[i] {
                return false;
            }
            i = i + 1;
        }
        proof {
            assert(self@ =~= other@);
        }
        true
    }
}

/// A fixed-width sub-account: a partition of one underlying account.
pub struct SubAccount {
    pub bytes: Vec<u8>,
}

impl View for SubAccount {
    type V = Seq<u8>;

    open spec fn view(&self) -> Seq<u8> {
        self.bytes@
    }
}

impl SubAccount {
    pub open spec fn wf(&self) -> bool {
        self@.len() == SUB_ACCOUNT_WIDTH
    }
}

/// The sub-account derived from an identity: byte 0 is the identity's
/// length, bytes 1 ..= len hold its bytes, and the rest is zero.
pub open spec fn subaccount_of(id: Seq<u8>) -> Seq<u8> {
    Seq::new(
        SUB_ACCOUNT_WIDTH as nat,
        |i: int|
            if i == 0 {
                id.len() as u8
            } else if i <= id.len() {
                id[i - 1]
            } else {
                0u8
            },
    )
}

/// Derives the sub-account that routes funds for `identity`.
pub fn principal_to_subaccount(identity: &Identity) -> (r: SubAccount)
    requires
        identity@.len() < SUB_ACCOUNT_WIDTH,
    ensures
        r@ == subaccount_of(identity@),
        r.wf(),
{
    let len: usize = identity.bytes.len();
    let mut bytes: Vec<u8> = Vec::new();
    bytes.push(len as u8);
    let mut i: usize = 0;
    while i < len
        invariant
            i <= len,
            len == identity@.len() < SUB_ACCOUNT_WIDTH,
            bytes@.len() == i + 1,
            bytes@[0] == len as u8,
            forall|j: int| 1 <= j <= i ==> bytes@[j] == identity@[j - 1],
        decreases len - i,
    {
        bytes.push(identity.bytes[i]);
        i = i + 1;
    }
    while bytes.len() < SUB_ACCOUNT_WIDTH
        invariant
            len == identity@.len() < SUB_ACCOUNT_WIDTH,
            len + 1 <= bytes@.len() <= SUB_ACCOUNT_WIDTH,
            bytes@[0] == len as u8,
            forall|j: int| 1 <= j <= len ==> bytes@[j] == identity@[j - 1],
            forall|j: int| len < j < bytes@.len() ==> bytes@[j] == 0u8,
        decreases SUB_ACCOUNT_WIDTH - bytes@.len(),
    {
        bytes.push(0u8);
    }
    let r = SubAccount { bytes };
    proof {
        assert(r@ =~= subaccount_of(identity@));
    }
    r
}

/// Guarded derivation: `None` exactly when the identity is too long
/// for the fixed-width sub-account.
pub fn try_principal_to_subaccount(identity: &Identity) -> (r: Option<SubAccount>)
    ensures
        identity@.len() < SUB_ACCOUNT_WIDTH ==> (r matches Some(s) && s@ == subaccount_of(
            identity@,
        )),
        identity@.len() >= SUB_ACCOUNT_WIDTH ==> r is None,
{
    if identity.bytes.len() < SUB_ACCOUNT_WIDTH {
        Some(principal_to_subaccount(identity))
    } else {
        None
    }
}

/// The 32-byte account identifier the value-transfer ledger computes
/// from an owner and a sub-account. A digest of its arguments alone;
/// its definition belongs to the ledger, not to this crate.
pub uninterp spec fn account_id_of(owner: Seq<u8>, sub: Seq<u8>) -> Seq<u8>;

/// Relies on ic_ledger_types::AccountIdentifier::new: the account
/// identifier is a 32-byte digest computed from the owner principal
/// and the sub-account alone. Relies on candid::Principal::from_slice,
/// which panics on more than 29 bytes, hence the length bound.
#[verifier::external_body]
fn account_id_bytes(owner: &Identity, sub: &SubAccount) -> (r: Vec<u8>)
    requires
        owner@.len() <= IDENTITY_MAX_LEN,
        sub@.len() == SUB_ACCOUNT_WIDTH,
    ensures
        r@ == account_id_of(owner@, sub@),
        r@.len() == 32,
{
    let principal = candid::Principal::from_slice(&owner.bytes);
    let mut arr: [u8; 32] = [0u8; 32];
    arr.copy_from_slice(&sub.bytes);
    let account = ic_ledger_types::AccountIdentifier::new(
        &principal,
        &ic_ledger_types::Subaccount(arr),
    );
    account.as_bytes().to_vec()
}

/// The account that routes funds for an identity: the ledger's
/// account identifier for the identity under its own derived
/// sub-account.
pub fn account_for(owner: &Identity) -> (r: Vec<u8>)
    requires
        owner.wf(),
    ensures
        r@ == account_id_of(owner@, subaccount_of(owner@)),
        r@.len() == 32,
{
    let sub = principal_to_subaccount(owner);
    account_id_bytes(owner, &sub)
}

/// Derivation never collides: two distinct identities of valid length
/// have distinct sub-accounts.
pub proof fn lemma_subaccount_of_injective(a: Seq<u8>, b: Seq<u8>)
    requires
        a.len() < SUB_ACCOUNT_WIDTH,
        b.len() < SUB_ACCOUNT_WIDTH,
        a != b,
    ensures
        subaccount_of(a) != subaccount_of(b),
{
    if a.len() != b.len() {
        assert(subaccount_of(a)[0] != subaccount_of(b)[0]);
    } else {
        assert(exists|i: int| 0 <= i < a.len() && a[i] != b[i]) by {
            if forall|i: int| 0 <= i < a.len() ==> a[i] == b[i] {
                assert(a =~= b);
            }
        }
        let i = choose|i: int| 0 <= i < a.len() && a[i] != b[i];
        assert(subaccount_of(a)[i + 1] != subaccount_of(b)[i + 1]);
    }
}

} // verus!
