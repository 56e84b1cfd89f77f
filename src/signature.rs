use vstd::prelude::*;
use crate::derivation::{same_address, Address};
use crate::errors::SigError;

verus! {

/// An instruction of the enclosing transaction, as the instructions sysvar hands it out.
#[derive(Debug)]
pub struct Instruction {
    pub program_id: Address,
    pub num_accounts: usize,
    pub data: Vec<u8>,
}

/// What a signature check reads: the signer and instruction zero of the same transaction.
#[derive(Debug)]
pub struct Verify {
    pub sender: Address,
    pub instruction: Instruction,
}

/// The id of the ledger's built-in Ed25519 verification program
/// ("Ed25519SigVerify111111111111111111111111111").
pub open spec fn ed25519_program_id() -> Seq<u8> {
    seq![3u8, 125u8, 70u8, 214u8, 124u8, 147u8, 251u8, 190u8, 18u8, 249u8, 66u8, 143u8, 131u8, 141u8, 64u8, 255u8, 5u8, 112u8, 116u8, 73u8, 39u8, 244u8, 138u8, 100u8, 252u8, 202u8, 112u8, 68u8, 128u8, 0u8, 0u8, 0u8]
}

/// The id of the ledger's built-in secp256k1 recovery program
/// ("KeccakSecp256k11111111111111111111111111111").
pub open spec fn secp256k1_program_id() -> Seq<u8> {
    seq![4u8, 198u8, 252u8, 32u8, 240u8, 80u8, 204u8, 240u8, 85u8, 132u8, 215u8, 33u8, 28u8, 159u8, 140u8, 245u8, 158u8, 193u8, 71u8, 133u8, 187u8, 22u8, 106u8, 30u8, 40u8, 48u8, 232u8, 18u8, 32u8, 0u8, 0u8, 0u8]
}

/// Relies on solana_program's `ed25519_program::ID`, declared as
/// "Ed25519SigVerify111111111111111111111111111".
#[verifier::external_body]
fn ed25519_program_address() -> (r: Address)
    ensures
        r@ == ed25519_program_id(),
{
    solana_program::ed25519_program::ID.to_bytes()
}

/// Relies on solana_program's `secp256k1_program::ID`, declared as
/// "KeccakSecp256k11111111111111111111111111111".
#[verifier::external_body]
fn secp256k1_program_address() -> (r: Address)
    ensures
        r@ == secp256k1_program_id(),
{
    solana_program::secp256k1_program::ID.to_bytes()
}

/// Little-endian bytes of a 16-bit offset or size.
pub open spec fn le16(n: u16) -> Seq<u8> {
    seq![(n % 256) as u8, (n / 256) as u8]
}

/// The instruction data that asks the Ed25519 program to check one signature whose key,
/// signature and message sit in the instruction itself: a 16-byte header of offsets, then
/// key, signature and message.
pub open spec fn ed25519_data(pubkey: Seq<u8>, msg: Seq<u8>, sig: Seq<u8>) -> Seq<u8> {
    seq![1u8, 0u8] + le16(48) + le16(0xffff) + le16(16) + le16(0xffff) + le16(112) + le16(
        msg.len() as u16,
    ) + le16(0xffff) + pubkey + sig + msg
}

/// The instruction data that asks the secp256k1 program to recover one signer: a 12-byte
/// header of offsets, then Ethereum address, signature, recovery id and message.
pub open spec fn secp256k1_data(eth_address: Seq<u8>, msg: Seq<u8>, sig: Seq<u8>, recovery_id: u8) -> Seq<u8> {
    seq![1u8] + le16(32) + seq![0u8] + le16(12) + seq![0u8] + le16(97) + le16(msg.len() as u16)
        + seq![0u8] + eth_address + sig + seq![recovery_id] + msg
}

/// An instruction without accounts whose data checks exactly `(pubkey, msg, sig)`.
pub open spec fn ed25519_layout_ok(ix: Instruction, pubkey: Seq<u8>, msg: Seq<u8>, sig: Seq<u8>) -> bool {
    &&& ix.num_accounts == 0
    &&& pubkey.len() == 32
    &&& sig.len() == 64
    &&& msg.len() <= 0xffff
    &&& ix.data@ == ed25519_data(pubkey, msg, sig)
}

/// An instruction without accounts whose data recovers exactly `(eth_address, msg, sig, recovery_id)`.
pub open spec fn secp256k1_layout_ok(
    ix: Instruction,
    eth_address: Seq<u8>,
    msg: Seq<u8>,
    sig: Seq<u8>,
    recovery_id: u8,
) -> bool {
    &&& ix.num_accounts == 0
    &&& msg.len() <= 0xffff
    &&& ix.data@ == secp256k1_data(eth_address, msg, sig, recovery_id)
}

/// Instruction zero targets the Ed25519 program and checks exactly the claimed triple.
pub open spec fn ed25519_verified(ctx: Verify, pubkey: Seq<u8>, msg: Seq<u8>, sig: Seq<u8>) -> bool {
    ctx.instruction.program_id@ == ed25519_program_id() && ed25519_layout_ok(ctx.instruction, pubkey, msg, sig)
}

/// Instruction zero targets the secp256k1 program and recovers exactly the claimed signer.
pub open spec fn secp256k1_verified(
    ctx: Verify,
    eth_address: Seq<u8>,
    msg: Seq<u8>,
    sig: Seq<u8>,
    recovery_id: u8,
) -> bool {
    ctx.instruction.program_id@ == secp256k1_program_id() && secp256k1_layout_ok(
        ctx.instruction,
        eth_address,
        msg,
        sig,
        recovery_id,
    )
}

fn push_le16(out: &mut Vec<u8>, n: u16)
    ensures
        final(out)@ == old(out)@ + le16(n),
{
    out.push((n % 256) as u8);
    out.push((n / 256) as u8);
    assert(final(out)@ =~= old(out)@ + le16(n));
}

fn append_bytes(out: &mut Vec<u8>, s: &[u8])
    ensures
        final(out)@ == old(out)@ + s@,
{
    let ghost start = out@;
    let mut i: usize = 0;
    while i < s.len()
        invariant
            0 <= i <= s@.len(),
            out@ == start + s@.subrange(0, i as int),
        decreases s@.len() - i,
    {
        out.push(s[i]);
        i = i + 1;
        assert(out@ =~= start + s@.subrange(0, i as int));
    }
    assert(s@.subrange(0, s@.len() as int) =~= s@);
}

fn bytes_equal(a: &Vec<u8>, b: &Vec<u8>) -> (r: bool)
    ensures
        r == (a@ == b@),
{
    if a.len() != b.len() {
        return false;
    }
    let mut i: usize = 0;
    while i < a.len()
        invariant
            0 <= i <= a@.len(),
            a@.len() == b@.len(),
            forall|j: int| 0 <= j < i ==> a@[j] == b@[j],
        decreases a@.len() - i,
    {
        if a[i] != b[i] {
            return false;
        }
        i = i + 1;
    }
    assert(a@ =~= b@);
    true
}

/// Checks the accounts and data of an instruction against the claimed Ed25519 triple;
/// `targets_ed25519` says whether the instruction's program is the Ed25519 program.
pub fn verify_ed25519_ix(
    ix: &Instruction,
    targets_ed25519: bool,
    pubkey: &Vec<u8>,
    msg: &Vec<u8>,
    sig: &Vec<u8>,
) -> (r: bool)
    ensures
        r == (targets_ed25519 && ed25519_layout_ok(*ix, pubkey@, msg@, sig@)),
{
    if !targets_ed25519 || ix.num_accounts != 0 || pubkey.len() != 32 || sig.len() != 64
        || msg.len() > 0xffff {
        return false;
    }
    let mut expected: Vec<u8> = Vec::new();
    expected.push(1u8);
    expected.push(0u8);
    push_le16(&mut expected, 48);
    push_le16(&mut expected, 0xffff);
    push_le16(&mut expected, 16);
    push_le16(&mut expected, 0xffff);
    push_le16(&mut expected, 112);
    push_le16(&mut expected, msg.len() as u16);
    push_le16(&mut expected, 0xffff);
    append_bytes(&mut expected, pubkey.as_slice());
    append_bytes(&mut expected, sig.as_slice());
    append_bytes(&mut expected, msg.as_slice());
    assert(expected@ =~= ed25519_data(pubkey@, msg@, sig@));
    bytes_equal(&ix.data, &expected)
}

/// Checks the accounts and data of an instruction against the claimed secp256k1 signer;
/// `targets_secp256k1` says whether the instruction's program is the secp256k1 program.
pub fn verify_secp256k1_ix(
    ix: &Instruction,
    targets_secp256k1: bool,
    eth_address: &[u8; 20],
    msg: &Vec<u8>,
    sig: &[u8; 64],
    recovery_id: u8,
) -> (r: Result<(), SigError>)
    ensures
        r is Ok <==> (targets_secp256k1 && secp256k1_layout_ok(*ix, eth_address@, msg@, sig@, recovery_id)),
        r is Err ==> r == Err::<(), SigError>(SigError::SigVerificationFailed),
{
    if !targets_secp256k1 || ix.num_accounts != 0 || msg.len() > 0xffff {
        return Err(SigError::SigVerificationFailed);
    }
    let mut expected: Vec<u8> = Vec::new();
    expected.push(1u8);
    push_le16(&mut expected, 32);
    expected.push(0u8);
    push_le16(&mut expected, 12);
    expected.push(0u8);
    push_le16(&mut expected, 97);
    push_le16(&mut expected, msg.len() as u16);
    expected.push(0u8);
    append_bytes(&mut expected, eth_address.as_slice());
    append_bytes(&mut expected, sig.as_slice());
    expected.push(recovery_id);
    append_bytes(&mut expected, msg.as_slice());
    assert(expected@ =~= secp256k1_data(eth_address@, msg@, sig@, recovery_id));
    if bytes_equal(&ix.data, &expected) {
        Ok(())
    } else {
        Err(SigError::SigVerificationFailed)
    }
}

/// Whether instruction zero of the transaction is an Ed25519 verification of exactly
/// `(pubkey, msg, sig)`.
pub fn verify_ed25519(ctx: &Verify, pubkey: &Vec<u8>, msg: &Vec<u8>, sig: &Vec<u8>) -> (r: bool)
    ensures
        r == ed25519_verified(*ctx, pubkey@, msg@, sig@),
{
    let targets = same_address(&ctx.instruction.program_id, &ed25519_program_address());
    verify_ed25519_ix(&ctx.instruction, targets, pubkey, msg, sig)
}

/// Succeeds only when instruction zero of the transaction is a secp256k1 recovery of exactly
/// `(eth_address, msg, sig, recovery_id)`.
pub fn verify_secp(
    ctx: &Verify,
    eth_address: &[u8; 20],
    msg: &Vec<u8>,
    sig: &[u8; 64],
    recovery_id: u8,
) -> (r: Result<(), SigError>)
    ensures
        r is Ok <==> secp256k1_verified(*ctx, eth_address@, msg@, sig@, recovery_id),
        r is Err ==> r == Err::<(), SigError>(SigError::SigVerificationFailed),
{
    let targets = same_address(&ctx.instruction.program_id, &secp256k1_program_address());
    verify_secp256k1_ix(&ctx.instruction, targets, eth_address, msg, sig, recovery_id)
}

/// A changed byte of the key, the signature or the message no longer matches an Ed25519
/// instruction that matched the unchanged triple.
pub proof fn lemma_ed25519_rejects_mutation(
    ix: Instruction,
    pubkey: Seq<u8>,
    msg: Seq<u8>,
    sig: Seq<u8>,
    i: int,
    b: u8,
)
    requires
        ed25519_layout_ok(ix, pubkey, msg, sig),
    ensures
        0 <= i < pubkey.len() && b != pubkey[i] ==> !ed25519_layout_ok(ix, pubkey.update(i, b), msg, sig),
        0 <= i < sig.len() && b != sig[i] ==> !ed25519_layout_ok(ix, pubkey, msg, sig.update(i, b)),
        0 <= i < msg.len() && b != msg[i] ==> !ed25519_layout_ok(ix, pubkey, msg.update(i, b), sig),
{
    let d = ed25519_data(pubkey, msg, sig);
    if 0 <= i < pubkey.len() && b != pubkey[i] {
        let p2 = pubkey.update(i, b);
        assert(d[16 + i] == pubkey[i]);
        assert(ed25519_data(p2, msg, sig)[16 + i] == b);
    }
    if 0 <= i < sig.len() && b != sig[i] {
        let s2 = sig.update(i, b);
        assert(d[48 + i] == sig[i]);
        assert(ed25519_data(pubkey, msg, s2)[48 + i] == b);
    }
    if 0 <= i < msg.len() && b != msg[i] {
        let m2 = msg.update(i, b);
        assert(d[112 + i] == msg[i]);
        assert(ed25519_data(pubkey, m2, sig)[112 + i] == b);
    }
}

} // verus!
