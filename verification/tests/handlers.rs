use base64::Engine;
use solana_sdk::signer::Signer;
use solana_toolbox::errors::AppError;
use solana_toolbox::handlers::{
    create_token, generate_keypair, mint_token, send_sol, send_token, sign_message,
    verify_message,
};
use solana_toolbox::instruction::{
    built_or_rejected, Instruction, InstructionAccount, TOKEN_PROGRAM_ID,
};
use solana_toolbox::keys::{Keypair, PublicKey};
use solana_toolbox::models::{
    AccountMeta, CreateTokenRequest, InstructionResponse, KeypairResponse, MintTokenRequest,
    SendSolRequest, SendSolResponse, SendTokenAccount, SendTokenRequest, SendTokenResponse,
    SignMessageRequest, SignMessageResponse, VerifyMessageRequest, VerifyMessageResponse,
};
use solana_toolbox::utils::validate_secret_key;
use spl_token::solana_program::program_error::ProgramError;

const SECRET_TEXT: &str =
    "49W385L4rePHy6PAaQUovbD2aacgN4HsKXSMeUzRg4fmwXszN91JuMFrQRj3vMDpZuRF3ZknQBuRBoWQJEfXstMw";
const PUBLIC_TEXT: &str = "FVen3X669xLzsi6N2V91DoiyzHzg1uAgqiT8jZ9nS96Z";
const EMPTY_MESSAGE_SIGNATURE: &str =
    "5VZDAMNgrHKQhuLMgG6CioSHfx645dl02HPgZSJJAVVfuIIVkKM7rMYeOXAc+bRr0lv18FlbviRlUUFDjnoQCw==";
const SECOND_SECRET_TEXT: &str =
    "2Y4QjyJVZf9tTmTPP1SY9ACpFYTo7brW9iCQ8SunQht5yQ2r1U9KsVv5aMsCGnzj3NR8KG9P3NY7FKBiYbbTJ2no";
const SECOND_PUBLIC_TEXT: &str = "586Z7H2vpX9qNhN2T4e9Utugie3ogjbxzGaMtM3E6HR5";
const LETTER_R_SIGNATURE: &str =
    "kqAJqfDUyrhyDoILX2QlQKKye1QWUD+Ps3YiI+vbadoIWsHkPhWZbkWPNhPQ8R2MOHsurrQwKu6wDSkWErsMAA==";
const TOKEN_PROGRAM: &str = "TokenkegQfeZyiNwAJbNbGKPFXCWuBvf9Ss623VQ5DA";
const SYSTEM_PROGRAM: &str = "11111111111111111111111111111111";
const RENT_SYSVAR: &str = "SysvarRent111111111111111111111111111111111";
const WRAPPED_SOL: &str = "So11111111111111111111111111111111111111112";
const USDC_MINT: &str = "EPjFWdd5AufqSSqeM2qN1xzybapC8G4wEGGkZwyTDt1v";

fn invalid_input(detail: &str) -> AppError {
    AppError::InvalidInput(detail.to_string())
}

fn invalid_key(text: &str) -> AppError {
    AppError::InvalidInput(format!("Invalid public key: {}", text))
}

fn sign(secret: &str, message: &str) -> Result<SignMessageResponse, AppError> {
    sign_message(SignMessageRequest { message: message.to_string(), secret: secret.to_string() })
}

fn verify(
    pubkey: &str,
    signature: &str,
    message: &str,
) -> Result<VerifyMessageResponse, AppError> {
    verify_message(VerifyMessageRequest {
        message: message.to_string(),
        signature: signature.to_string(),
        pubkey: pubkey.to_string(),
    })
}

fn valid(pubkey: &str, message: &str) -> Result<VerifyMessageResponse, AppError> {
    Ok(VerifyMessageResponse {
        valid: true,
        message: message.to_string(),
        pubkey: pubkey.to_string(),
    })
}

fn not_valid(pubkey: &str, message: &str) -> Result<VerifyMessageResponse, AppError> {
    Ok(VerifyMessageResponse {
        valid: false,
        message: message.to_string(),
        pubkey: pubkey.to_string(),
    })
}

#[test]
fn generate_keypair_secret_is_64_bytes_ending_in_derived_public_key() {
    for _ in 0..8 {
        let KeypairResponse { pubkey, secret } = generate_keypair();
        let bytes = bs58::decode(&secret).into_vec().unwrap();
        assert_eq!(bytes.len(), 64);
        let mut seed = [0u8; 32];
        seed.copy_from_slice(&bytes[..32]);
        let derived = solana_sdk::signer::keypair::Keypair::new_from_array(seed).pubkey();
        assert_eq!(&bytes[32..], derived.to_bytes().as_slice());
        assert_eq!(pubkey, derived.to_string());
        assert_eq!(pubkey, bs58::encode(&bytes[32..]).into_string());
    }
}

#[test]
fn generate_keypair_gives_a_new_keypair_each_time() {
    let first = generate_keypair();
    let second = generate_keypair();
    assert_ne!(first.secret, second.secret);
    assert_ne!(first.pubkey, second.pubkey);
}

#[test]
fn generate_keypair_secret_is_accepted_for_signing() {
    let generated = generate_keypair();
    let keypair = validate_secret_key(&generated.secret).unwrap();
    assert_eq!(keypair.pubkey().text(), generated.pubkey);
    let signed = sign(&generated.secret, "hello").unwrap();
    assert_eq!(signed.public_key, generated.pubkey);
    assert_eq!(
        verify(&signed.public_key, &signed.signature, "hello"),
        valid(&generated.pubkey, "hello")
    );
}

#[test]
fn keypair_response_of_known_keypair() {
    let keypair = validate_secret_key(SECRET_TEXT).unwrap();
    assert_eq!(
        KeypairResponse::from_keypair(&keypair),
        KeypairResponse { pubkey: PUBLIC_TEXT.to_string(), secret: SECRET_TEXT.to_string() }
    );
}

#[test]
fn sign_message_gives_known_signature_of_empty_message() {
    assert_eq!(
        sign(SECRET_TEXT, ""),
        Ok(SignMessageResponse {
            signature: EMPTY_MESSAGE_SIGNATURE.to_string(),
            public_key: PUBLIC_TEXT.to_string(),
            message: String::new(),
        })
    );
}

#[test]
fn sign_message_gives_known_signature_of_one_byte() {
    assert_eq!(
        sign(SECOND_SECRET_TEXT, "r"),
        Ok(SignMessageResponse {
            signature: LETTER_R_SIGNATURE.to_string(),
            public_key: SECOND_PUBLIC_TEXT.to_string(),
            message: "r".to_string(),
        })
    );
}

#[test]
fn sign_message_is_deterministic() {
    let first = sign(SECRET_TEXT, "the same message").unwrap();
    let second = sign(SECRET_TEXT, "the same message").unwrap();
    assert_eq!(first, second);
    assert_ne!(first.signature, sign(SECRET_TEXT, "another message").unwrap().signature);
    assert_ne!(first.signature, sign(SECOND_SECRET_TEXT, "the same message").unwrap().signature);
}

#[test]
fn sign_message_signs_the_utf8_bytes() {
    let message = "grüße, 世界 🌍";
    let signed = sign(SECRET_TEXT, message).unwrap();
    let keypair = solana_sdk::signer::keypair::Keypair::try_from(
        bs58::decode(SECRET_TEXT).into_vec().unwrap().as_slice(),
    )
    .unwrap();
    let expected = keypair.sign_message(message.as_bytes());
    assert_eq!(
        signed.signature,
        base64::engine::general_purpose::STANDARD.encode(expected.as_ref())
    );
    assert_eq!(signed.message, message);
}

#[test]
fn sign_message_rejects_bad_secrets() {
    assert_eq!(sign("not base58!", "m"), Err(invalid_input("Invalid base58 secret key")));
    assert_eq!(sign("0", "m"), Err(invalid_input("Invalid base58 secret key")));
    assert_eq!(sign(PUBLIC_TEXT, "m"), Err(invalid_input("Secret key must be 64 bytes, got 32")));
    assert_eq!(sign("", "m"), Err(invalid_input("Secret key must be 64 bytes, got 0")));
    let longer = bs58::encode([3u8; 65]).into_string();
    assert_eq!(sign(&longer, "m"), Err(invalid_input("Secret key must be 64 bytes, got 65")));
    let mismatched = bs58::encode([3u8; 64]).into_string();
    assert_eq!(
        sign(&mismatched, "m"),
        Err(invalid_input("Invalid secret key format: signature error"))
    );
}

#[test]
fn verify_message_accepts_what_sign_message_gave() {
    for message in ["", "a", "hello world", "line\nbreak", "grüße, 世界 🌍"] {
        for secret in [SECRET_TEXT, SECOND_SECRET_TEXT] {
            let signed = sign(secret, message).unwrap();
            assert_eq!(
                verify(&signed.public_key, &signed.signature, &signed.message),
                valid(&signed.public_key, message)
            );
        }
    }
}

#[test]
fn verify_message_accepts_known_signatures() {
    assert_eq!(verify(PUBLIC_TEXT, EMPTY_MESSAGE_SIGNATURE, ""), valid(PUBLIC_TEXT, ""));
    assert_eq!(verify(SECOND_PUBLIC_TEXT, LETTER_R_SIGNATURE, "r"), valid(SECOND_PUBLIC_TEXT, "r"));
}

#[test]
fn verify_message_refuses_a_message_changed_in_one_byte() {
    let message = "transfer 10 tokens to alice";
    let signed = sign(SECRET_TEXT, message).unwrap();
    for position in 0..message.len() {
        for flip in [1u8, 2, 32] {
            let mut bytes = message.as_bytes().to_vec();
            bytes[position] ^= flip;
            let changed = String::from_utf8(bytes).unwrap();
            assert_eq!(
                verify(&signed.public_key, &signed.signature, &changed),
                not_valid(&signed.public_key, &changed)
            );
        }
    }
}

#[test]
fn verify_message_refuses_a_longer_or_shorter_message() {
    let signed = sign(SECRET_TEXT, "message").unwrap();
    assert_eq!(
        verify(PUBLIC_TEXT, &signed.signature, "message "),
        not_valid(PUBLIC_TEXT, "message ")
    );
    assert_eq!(verify(PUBLIC_TEXT, &signed.signature, "messag"), not_valid(PUBLIC_TEXT, "messag"));
    assert_eq!(verify(PUBLIC_TEXT, &signed.signature, ""), not_valid(PUBLIC_TEXT, ""));
}

#[test]
fn verify_message_refuses_another_key() {
    let signed = sign(SECRET_TEXT, "message").unwrap();
    assert_eq!(
        verify(SECOND_PUBLIC_TEXT, &signed.signature, "message"),
        not_valid(SECOND_PUBLIC_TEXT, "message")
    );
    assert_eq!(
        verify(TOKEN_PROGRAM, &signed.signature, "message"),
        not_valid(TOKEN_PROGRAM, "message")
    );
}

#[test]
fn verify_message_answers_false_for_a_wrong_signature() {
    let zeros = base64::engine::general_purpose::STANDARD.encode([0u8; 64]);
    assert_eq!(verify(PUBLIC_TEXT, &zeros, "message"), not_valid(PUBLIC_TEXT, "message"));
    let signed = sign(SECRET_TEXT, "message").unwrap();
    let mut bytes = base64::engine::general_purpose::STANDARD.decode(&signed.signature).unwrap();
    bytes[10] ^= 0x40;
    let tampered = base64::engine::general_purpose::STANDARD.encode(&bytes);
    assert_eq!(verify(PUBLIC_TEXT, &tampered, "message"), not_valid(PUBLIC_TEXT, "message"));
}

#[test]
fn verify_message_rejects_text_that_is_not_base64() {
    for bad in ["not base64!", "####", "AAA", "AAAA=", "A===", " AAAA", "AAAA\n"] {
        assert_eq!(verify(PUBLIC_TEXT, bad, "m"), Err(invalid_input("Invalid base64 signature")));
    }
    let unpadded = EMPTY_MESSAGE_SIGNATURE.trim_end_matches('=');
    assert_eq!(verify(PUBLIC_TEXT, unpadded, ""), Err(invalid_input("Invalid base64 signature")));
    let url_safe = base64::engine::general_purpose::URL_SAFE.encode([0xffu8; 64]);
    assert_eq!(verify(PUBLIC_TEXT, &url_safe, ""), Err(invalid_input("Invalid base64 signature")));
}

#[test]
fn verify_message_rejects_a_signature_of_another_length() {
    for length in [0usize, 1, 32, 63, 65, 128] {
        let text = base64::engine::general_purpose::STANDARD.encode(vec![5u8; length]);
        assert_eq!(verify(PUBLIC_TEXT, &text, "m"), Err(invalid_input("Invalid signature format")));
    }
}

#[test]
fn verify_message_checks_the_public_key_first() {
    assert_eq!(verify("bad key", "not base64!", "m"), Err(invalid_key("bad key")));
    assert_eq!(verify("O0Il", EMPTY_MESSAGE_SIGNATURE, ""), Err(invalid_key("O0Il")));
    assert_eq!(verify(SECRET_TEXT, EMPTY_MESSAGE_SIGNATURE, ""), Err(invalid_key(SECRET_TEXT)));
    assert_eq!(verify("", EMPTY_MESSAGE_SIGNATURE, ""), Err(invalid_key("")));
}

fn sol(from: &str, to: &str, lamports: u64) -> Result<SendSolResponse, AppError> {
    send_sol(SendSolRequest { from: from.to_string(), to: to.to_string(), lamports })
}

#[test]
fn send_sol_of_one_lamport() {
    assert_eq!(
        sol(PUBLIC_TEXT, SECOND_PUBLIC_TEXT, 1),
        Ok(SendSolResponse {
            program_id: SYSTEM_PROGRAM.to_string(),
            accounts: vec![PUBLIC_TEXT.to_string(), SECOND_PUBLIC_TEXT.to_string()],
            instruction_data: "AgAAAAEAAAAAAAAA".to_string(),
        })
    );
}

#[test]
fn send_sol_writes_lamports_in_little_endian_order() {
    let sent = sol(PUBLIC_TEXT, SECOND_PUBLIC_TEXT, 0x0102_0304_0506_0708).unwrap();
    assert_eq!(
        base64::engine::general_purpose::STANDARD.decode(&sent.instruction_data).unwrap(),
        vec![2, 0, 0, 0, 8, 7, 6, 5, 4, 3, 2, 1]
    );
    let sent = sol(PUBLIC_TEXT, PUBLIC_TEXT, u64::MAX).unwrap();
    assert_eq!(
        base64::engine::general_purpose::STANDARD.decode(&sent.instruction_data).unwrap(),
        vec![2, 0, 0, 0, 255, 255, 255, 255, 255, 255, 255, 255]
    );
    assert_eq!(sent.accounts, vec![PUBLIC_TEXT.to_string(), PUBLIC_TEXT.to_string()]);
}

#[test]
fn send_sol_rejects_zero_lamports() {
    assert_eq!(
        sol(PUBLIC_TEXT, SECOND_PUBLIC_TEXT, 0),
        Err(invalid_input("Amount must be greater than 0"))
    );
}

#[test]
fn send_sol_checks_sender_then_recipient_then_amount() {
    assert_eq!(sol("bad sender", "bad recipient", 0), Err(invalid_key("bad sender")));
    assert_eq!(sol(PUBLIC_TEXT, "bad recipient", 0), Err(invalid_key("bad recipient")));
    assert_eq!(sol("bad sender", SECOND_PUBLIC_TEXT, 5), Err(invalid_key("bad sender")));
    assert_eq!(sol(PUBLIC_TEXT, "", 5), Err(invalid_key("")));
}

fn create(
    mint_authority: &str,
    mint: &str,
    decimals: u8,
) -> Result<InstructionResponse, AppError> {
    create_token(CreateTokenRequest {
        mint_authority: mint_authority.to_string(),
        mint: mint.to_string(),
        decimals,
    })
}

fn account(pubkey: &str, is_signer: bool, is_writable: bool) -> AccountMeta {
    AccountMeta { pubkey: pubkey.to_string(), is_signer, is_writable }
}

#[test]
fn create_token_with_nine_decimals() {
    assert_eq!(
        create(TOKEN_PROGRAM, USDC_MINT, 9),
        Ok(InstructionResponse {
            program_id: TOKEN_PROGRAM.to_string(),
            accounts: vec![account(USDC_MINT, false, true), account(RENT_SYSVAR, false, false)],
            instruction_data: "AAkG3fbh12Whk9nL4UbO63msHLSF7V9bN5E6jPWFfv8AqQA=".to_string(),
        })
    );
}

#[test]
fn create_token_payload_holds_decimals_and_authority() {
    for decimals in [0u8, 6, 255] {
        let created = create(PUBLIC_TEXT, WRAPPED_SOL, decimals).unwrap();
        let mut expected = vec![0u8, decimals];
        expected.extend(bs58::decode(PUBLIC_TEXT).into_vec().unwrap());
        expected.push(0);
        assert_eq!(
            base64::engine::general_purpose::STANDARD.decode(&created.instruction_data).unwrap(),
            expected
        );
        assert_eq!(created.program_id, TOKEN_PROGRAM);
        assert_eq!(created.accounts[0], account(WRAPPED_SOL, false, true));
    }
}

#[test]
fn create_token_checks_authority_then_mint() {
    assert_eq!(create("bad authority", "bad mint", 9), Err(invalid_key("bad authority")));
    assert_eq!(create(PUBLIC_TEXT, "bad mint", 9), Err(invalid_key("bad mint")));
    assert_eq!(create("l0", USDC_MINT, 9), Err(invalid_key("l0")));
}

fn mint(
    mint: &str,
    destination: &str,
    authority: &str,
    amount: u64,
) -> Result<InstructionResponse, AppError> {
    mint_token(MintTokenRequest {
        mint: mint.to_string(),
        destination: destination.to_string(),
        authority: authority.to_string(),
        amount,
    })
}

#[test]
fn mint_token_of_a_thousand() {
    assert_eq!(
        mint(USDC_MINT, SECOND_PUBLIC_TEXT, PUBLIC_TEXT, 1000),
        Ok(InstructionResponse {
            program_id: TOKEN_PROGRAM.to_string(),
            accounts: vec![
                account(USDC_MINT, false, true),
                account(SECOND_PUBLIC_TEXT, false, true),
                account(PUBLIC_TEXT, true, false),
            ],
            instruction_data: "B+gDAAAAAAAA".to_string(),
        })
    );
}

#[test]
fn mint_token_accepts_zero_and_largest_amount() {
    let minted = mint(USDC_MINT, SECOND_PUBLIC_TEXT, PUBLIC_TEXT, 0).unwrap();
    assert_eq!(
        base64::engine::general_purpose::STANDARD.decode(&minted.instruction_data).unwrap(),
        vec![7, 0, 0, 0, 0, 0, 0, 0, 0]
    );
    let minted = mint(USDC_MINT, SECOND_PUBLIC_TEXT, PUBLIC_TEXT, u64::MAX).unwrap();
    assert_eq!(
        base64::engine::general_purpose::STANDARD.decode(&minted.instruction_data).unwrap(),
        vec![7, 255, 255, 255, 255, 255, 255, 255, 255]
    );
}

#[test]
fn mint_token_checks_mint_then_destination_then_authority() {
    assert_eq!(
        mint("bad mint", "bad destination", "bad authority", 1),
        Err(invalid_key("bad mint"))
    );
    assert_eq!(
        mint(USDC_MINT, "bad destination", "bad authority", 1),
        Err(invalid_key("bad destination"))
    );
    assert_eq!(
        mint(USDC_MINT, SECOND_PUBLIC_TEXT, "bad authority", 1),
        Err(invalid_key("bad authority"))
    );
}

fn token(
    destination: &str,
    mint: &str,
    owner: &str,
    amount: u64,
) -> Result<SendTokenResponse, AppError> {
    send_token(SendTokenRequest {
        destination: destination.to_string(),
        mint: mint.to_string(),
        owner: owner.to_string(),
        amount,
    })
}

fn associated(owner: &str, mint: &str) -> String {
    let owner: solana_sdk::pubkey::Pubkey = owner.parse().unwrap();
    let mint: solana_sdk::pubkey::Pubkey = mint.parse().unwrap();
    spl_associated_token_account::get_associated_token_address(&owner, &mint).to_string()
}

#[test]
fn send_token_of_five() {
    let source = associated(PUBLIC_TEXT, USDC_MINT);
    let target = associated(SECOND_PUBLIC_TEXT, USDC_MINT);
    assert_ne!(source, PUBLIC_TEXT);
    assert_ne!(source, USDC_MINT);
    assert_ne!(target, SECOND_PUBLIC_TEXT);
    assert_ne!(source, target);
    assert_eq!(
        token(SECOND_PUBLIC_TEXT, USDC_MINT, PUBLIC_TEXT, 5),
        Ok(SendTokenResponse {
            program_id: TOKEN_PROGRAM.to_string(),
            accounts: vec![
                SendTokenAccount { pubkey: source, is_signer: false },
                SendTokenAccount { pubkey: target, is_signer: false },
                SendTokenAccount { pubkey: PUBLIC_TEXT.to_string(), is_signer: true },
            ],
            instruction_data: "AwUAAAAAAAAA".to_string(),
        })
    );
}

#[test]
fn send_token_derives_accounts_from_the_mint() {
    let first = token(SECOND_PUBLIC_TEXT, USDC_MINT, PUBLIC_TEXT, 5).unwrap();
    let second = token(SECOND_PUBLIC_TEXT, WRAPPED_SOL, PUBLIC_TEXT, 5).unwrap();
    assert_ne!(first.accounts[0], second.accounts[0]);
    assert_ne!(first.accounts[1], second.accounts[1]);
    assert_eq!(first.accounts[2], second.accounts[2]);
    assert_eq!(second.accounts[0].pubkey, associated(PUBLIC_TEXT, WRAPPED_SOL));
}

#[test]
fn send_token_rejects_zero_amount() {
    assert_eq!(
        token(SECOND_PUBLIC_TEXT, USDC_MINT, PUBLIC_TEXT, 0),
        Err(invalid_input("Amount must be greater than 0"))
    );
}

#[test]
fn send_token_checks_destination_then_mint_then_owner_then_amount() {
    assert_eq!(
        token("bad destination", "bad mint", "bad owner", 0),
        Err(invalid_key("bad destination"))
    );
    assert_eq!(
        token(SECOND_PUBLIC_TEXT, "bad mint", "bad owner", 0),
        Err(invalid_key("bad mint"))
    );
    assert_eq!(
        token(SECOND_PUBLIC_TEXT, USDC_MINT, "bad owner", 0),
        Err(invalid_key("bad owner"))
    );
}

fn sample_instruction() -> Instruction {
    Instruction::new(
        TOKEN_PROGRAM_ID,
        vec![
            InstructionAccount::new([0u8; 32], true, false),
            InstructionAccount::new(TOKEN_PROGRAM_ID, false, true),
        ],
        vec![1, 2, 3, 4],
    )
}

#[test]
fn instruction_new_keeps_its_parts() {
    let instruction = sample_instruction();
    assert_eq!(instruction.program_id, PublicKey { bytes: TOKEN_PROGRAM_ID });
    assert_eq!(instruction.accounts.len(), 2);
    assert_eq!(
        instruction.accounts[0],
        InstructionAccount {
            pubkey: PublicKey { bytes: [0u8; 32] },
            is_signer: true,
            is_writable: false,
        }
    );
    assert_eq!(instruction.data, vec![1, 2, 3, 4]);
}

#[test]
fn instruction_response_keeps_order_and_flags() {
    assert_eq!(
        InstructionResponse::from_instruction(&sample_instruction()),
        InstructionResponse {
            program_id: TOKEN_PROGRAM.to_string(),
            accounts: vec![
                account(SYSTEM_PROGRAM, true, false),
                account(TOKEN_PROGRAM, false, true),
            ],
            instruction_data: "AQIDBA==".to_string(),
        }
    );
}

#[test]
fn send_sol_response_lists_plain_addresses() {
    assert_eq!(
        SendSolResponse::from_instruction(&sample_instruction()),
        SendSolResponse {
            program_id: TOKEN_PROGRAM.to_string(),
            accounts: vec![SYSTEM_PROGRAM.to_string(), TOKEN_PROGRAM.to_string()],
            instruction_data: "AQIDBA==".to_string(),
        }
    );
}

#[test]
fn send_token_response_keeps_signer_flags() {
    assert_eq!(
        SendTokenResponse::from_instruction(&sample_instruction()),
        SendTokenResponse {
            program_id: TOKEN_PROGRAM.to_string(),
            accounts: vec![
                SendTokenAccount { pubkey: SYSTEM_PROGRAM.to_string(), is_signer: true },
                SendTokenAccount { pubkey: TOKEN_PROGRAM.to_string(), is_signer: false },
            ],
            instruction_data: "AQIDBA==".to_string(),
        }
    );
}

#[test]
fn responses_of_an_instruction_without_accounts_or_payload() {
    let instruction = Instruction::new([0u8; 32], vec![], vec![]);
    assert_eq!(
        InstructionResponse::from_instruction(&instruction),
        InstructionResponse {
            program_id: SYSTEM_PROGRAM.to_string(),
            accounts: vec![],
            instruction_data: String::new(),
        }
    );
    assert_eq!(SendSolResponse::from_instruction(&instruction).accounts, Vec::<String>::new());
    assert_eq!(SendTokenResponse::from_instruction(&instruction).accounts, vec![]);
}

#[test]
fn built_or_rejected_keeps_an_instruction() {
    assert_eq!(built_or_rejected(Ok(sample_instruction()), "reason"), Ok(sample_instruction()));
}

#[test]
fn built_or_rejected_turns_a_refusal_into_a_crypto_error() {
    assert_eq!(
        built_or_rejected(
            Err(ProgramError::IncorrectProgramId),
            "Failed to create mint instruction"
        ),
        Err(AppError::CryptoError("Failed to create mint instruction".to_string()))
    );
    assert_eq!(
        built_or_rejected(Err(ProgramError::InvalidArgument), ""),
        Err(AppError::CryptoError(String::new()))
    );
}

#[test]
fn keypair_halves_are_seed_and_public_key() {
    let keypair: Keypair = validate_secret_key(SECOND_SECRET_TEXT).unwrap();
    let bytes = keypair.to_bytes();
    assert_eq!(bs58::encode(&bytes[32..]).into_string(), SECOND_PUBLIC_TEXT);
    assert_eq!(bs58::encode(bytes).into_string(), SECOND_SECRET_TEXT);
    assert_eq!(keypair.pubkey().bytes.as_slice(), &bytes[32..]);
}
