use token_nft::errors::SigError;
use token_nft::signature::{verify_ed25519, verify_ed25519_ix, verify_secp, verify_secp256k1_ix, Instruction, Verify};

const SENDER: [u8; 32] = [1u8; 32];

fn ed25519_data(pk: &[u8], msg: &[u8], sig: &[u8]) -> Vec<u8> {
    let mut d = vec![1u8, 0u8];
    for v in [48u16, 0xffff, 16, 0xffff, 112, msg.len() as u16, 0xffff] {
        d.extend_from_slice(&v.to_le_bytes());
    }
    d.extend_from_slice(pk);
    d.extend_from_slice(sig);
    d.extend_from_slice(msg);
    d
}

fn secp_data(eth: &[u8], msg: &[u8], sig: &[u8], recovery_id: u8) -> Vec<u8> {
    let mut d = vec![1u8];
    d.extend_from_slice(&32u16.to_le_bytes());
    d.push(0);
    d.extend_from_slice(&12u16.to_le_bytes());
    d.push(0);
    d.extend_from_slice(&97u16.to_le_bytes());
    d.extend_from_slice(&(msg.len() as u16).to_le_bytes());
    d.push(0);
    d.extend_from_slice(eth);
    d.extend_from_slice(sig);
    d.push(recovery_id);
    d.extend_from_slice(msg);
    d
}

fn ed_ctx(program: [u8; 32], data: Vec<u8>) -> Verify {
    Verify { sender: SENDER, instruction: Instruction { program_id: program, num_accounts: 0, data } }
}

fn ed_id() -> [u8; 32] {
    solana_program::ed25519_program::ID.to_bytes()
}

fn secp_id() -> [u8; 32] {
    solana_program::secp256k1_program::ID.to_bytes()
}

#[test]
fn ed25519_matching_instruction_verifies() {
    let pk = vec![7u8; 32];
    let sig = vec![9u8; 64];
    let msg = b"hello".to_vec();
    let ctx = ed_ctx(ed_id(), ed25519_data(&pk, &msg, &sig));
    assert!(verify_ed25519(&ctx, &pk, &msg, &sig));
}

#[test]
fn ed25519_header_layout_is_exact() {
    let pk = vec![7u8; 32];
    let sig = vec![9u8; 64];
    let msg = vec![3u8; 300];
    let data = ed25519_data(&pk, &msg, &sig);
    assert_eq!(&data[0..16], &[1, 0, 48, 0, 255, 255, 16, 0, 255, 255, 112, 0, 44, 1, 255, 255]);
    assert!(verify_ed25519(&ed_ctx(ed_id(), data), &pk, &msg, &sig));
}

#[test]
fn ed25519_single_byte_mutations_fail() {
    let pk = vec![7u8; 32];
    let sig = vec![9u8; 64];
    let msg = b"hello".to_vec();
    let ctx = ed_ctx(ed_id(), ed25519_data(&pk, &msg, &sig));
    let mut pk2 = pk.clone();
    pk2[5] ^= 1;
    assert!(!verify_ed25519(&ctx, &pk2, &msg, &sig));
    let mut sig2 = sig.clone();
    sig2[63] ^= 1;
    assert!(!verify_ed25519(&ctx, &pk, &msg, &sig2));
    let mut msg2 = msg.clone();
    msg2[0] ^= 1;
    assert!(!verify_ed25519(&ctx, &pk, &msg2, &sig));
}

#[test]
fn ed25519_other_program_fails() {
    let pk = vec![7u8; 32];
    let sig = vec![9u8; 64];
    let msg = b"hello".to_vec();
    let ctx = ed_ctx(secp_id(), ed25519_data(&pk, &msg, &sig));
    assert!(!verify_ed25519(&ctx, &pk, &msg, &sig));
}

#[test]
fn ed25519_instruction_with_accounts_fails() {
    let pk = vec![7u8; 32];
    let sig = vec![9u8; 64];
    let msg = b"hello".to_vec();
    let ix = Instruction { program_id: ed_id(), num_accounts: 1, data: ed25519_data(&pk, &msg, &sig) };
    assert!(!verify_ed25519_ix(&ix, true, &pk, &msg, &sig));
    let ix = Instruction { program_id: ed_id(), num_accounts: 0, data: ed25519_data(&pk, &msg, &sig) };
    assert!(verify_ed25519_ix(&ix, true, &pk, &msg, &sig));
    assert!(!verify_ed25519_ix(&ix, false, &pk, &msg, &sig));
}

#[test]
fn ed25519_short_key_fails() {
    let pk = vec![7u8; 31];
    let sig = vec![9u8; 64];
    let msg = b"hello".to_vec();
    let ctx = ed_ctx(ed_id(), ed25519_data(&pk, &msg, &sig));
    assert!(!verify_ed25519(&ctx, &pk, &msg, &sig));
}

#[test]
fn secp_matching_instruction_verifies() {
    let eth = [4u8; 20];
    let sig = [5u8; 64];
    let msg = b"payload".to_vec();
    let ctx = ed_ctx(secp_id(), secp_data(&eth, &msg, &sig, 1));
    assert_eq!(verify_secp(&ctx, &eth, &msg, &sig, 1), Ok(()));
}

#[test]
fn secp_mismatch_fails() {
    let eth = [4u8; 20];
    let sig = [5u8; 64];
    let msg = b"payload".to_vec();
    let ctx = ed_ctx(secp_id(), secp_data(&eth, &msg, &sig, 1));
    assert_eq!(verify_secp(&ctx, &eth, &msg, &sig, 0), Err(SigError::SigVerificationFailed));
    let mut eth2 = eth;
    eth2[19] = 0;
    assert_eq!(verify_secp(&ctx, &eth2, &msg, &sig, 1), Err(SigError::SigVerificationFailed));
    let other = ed_ctx(ed_id(), secp_data(&eth, &msg, &sig, 1));
    assert_eq!(verify_secp(&other, &eth, &msg, &sig, 1), Err(SigError::SigVerificationFailed));
    let ix = Instruction { program_id: secp_id(), num_accounts: 0, data: secp_data(&eth, &msg, &sig, 1) };
    assert_eq!(verify_secp256k1_ix(&ix, true, &eth, &msg, &sig, 1), Ok(()));
    assert_eq!(verify_secp256k1_ix(&ix, false, &eth, &msg, &sig, 1), Err(SigError::SigVerificationFailed));
}

#[test]
fn error_messages() {
    assert_eq!(SigError::SigVerificationFailed.message(), "Signature verification failed.");
    assert_eq!(token_nft::errors::MarketPlaceError::InsufficientBalance.message(), "Insufficient balance !");
}
