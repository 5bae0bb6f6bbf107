use aes::cipher::generic_array::GenericArray;
use aes::cipher::{BlockEncrypt, KeyInit};
use base64::Engine;
use jm_downloader_rs::crypto::{ecb_decrypt, md5_hex_of, to_hex_lower};
use jm_downloader_rs::jm_client::{
    decrypt_data, generate_token, generate_tokenparam, strip_padding,
};
use jm_downloader_rs::AppError;

fn encrypt_payload(ts: u64, plain: &[u8]) -> String {
    let key = format!("{:x}", md5::compute(format!("{}185Hcomic3PAPP7R", ts)));
    let cipher = aes::Aes256::new(GenericArray::from_slice(key.as_bytes()));
    let mut out = Vec::new();
    for chunk in plain.chunks(16) {
        let mut block = GenericArray::clone_from_slice(chunk);
        cipher.encrypt_block(&mut block);
        out.extend_from_slice(&block);
    }
    base64::engine::general_purpose::STANDARD.encode(out)
}

fn pkcs7(text: &[u8]) -> Vec<u8> {
    let pad = 16 - text.len() % 16;
    let mut v = text.to_vec();
    v.extend(std::iter::repeat(pad as u8).take(pad));
    v
}

fn internal_message(r: Result<String, AppError>) -> String {
    match r {
        Err(AppError::Internal(m)) => m,
        other => panic!("expected an internal error, got {:?}", other),
    }
}

#[test]
fn md5_hex_of_known_texts() {
    assert_eq!(md5_hex_of(""), "d41d8cd98f00b204e9800998ecf8427e");
    assert_eq!(md5_hex_of("abc"), "900150983cd24fb0d6963f7d28e17f72");
    assert_eq!(md5_hex_of("abcdefghijklmnopqrstuvwxyz"), "c3fcd3d76192e4007dfb496cca67e13b");
}

#[test]
fn hex_forms() {
    assert_eq!(to_hex_lower(&[]), "");
    assert_eq!(to_hex_lower(&[0x00, 0x0f, 0xa0, 0xff]), "000fa0ff");
    assert_eq!(to_hex_lower(&[0xbe, 0xef, 0x09]), "beef09");
}

#[test]
fn token_is_md5_of_time_and_secret() {
    assert_eq!(generate_token(1_700_000_000, "18comicAPP"), "1c6fa345eea2e10d5a30880ec2a7e0b3");
    assert_eq!(
        generate_token(1_700_000_000, "18comicAPPContent"),
        "8be524e958f97f014ddf2a570b011305"
    );
    assert_eq!(generate_token(0, ""), format!("{:x}", md5::compute("0")));
    for (ts, secret) in [(0u64, ""), (1, "18comicAPP"), (u64::MAX, "18comicAPPContent")] {
        let token = generate_token(ts, secret);
        assert_eq!(token.len(), 32);
        assert!(token.chars().all(|c| matches!(c, '0'..='9' | 'a'..='f')));
    }
}

#[test]
fn tokenparam_is_time_and_version() {
    assert_eq!(generate_tokenparam(1_700_000_000), "1700000000,2.0.13");
    assert_eq!(generate_tokenparam(0), "0,2.0.13");
}

#[test]
fn decrypt_round_trip() {
    let ts = 1_700_000_000u64;
    let text = "{\"name\":\"Foo\",\"series\":[]}";
    let data = encrypt_payload(ts, &pkcs7(text.as_bytes()));
    assert_eq!(decrypt_data(ts, &data), Ok(text.to_string()));
}

#[test]
fn decrypt_round_trip_of_a_whole_number_of_blocks() {
    let ts = 42u64;
    let text = "0123456789abcdef0123456789abcdef";
    let data = encrypt_payload(ts, &pkcs7(text.as_bytes()));
    assert_eq!(decrypt_data(ts, &data), Ok(text.to_string()));
}

#[test]
fn decrypt_non_ascii_text() {
    let ts = 7u64;
    let text = "{\"name\":\"漫画\"}";
    let data = encrypt_payload(ts, &pkcs7(text.as_bytes()));
    assert_eq!(decrypt_data(ts, &data), Ok(text.to_string()));
}

#[test]
fn decrypt_depends_on_the_time() {
    let text = "{\"name\":\"Foo\"}";
    let data = encrypt_payload(1, &pkcs7(text.as_bytes()));
    assert_ne!(decrypt_data(2, &data), Ok(text.to_string()));
}

#[test]
fn decrypt_refuses_bad_base64() {
    let m = internal_message(decrypt_data(1, "***not base64***"));
    assert!(m.starts_with("Base64解码失败: "), "{}", m);
}

#[test]
fn decrypt_refuses_empty_payload() {
    assert_eq!(decrypt_data(1, ""), Err(AppError::Internal("解密数据长度无效".to_string())));
}

#[test]
fn decrypt_refuses_a_partial_block() {
    let data = base64::engine::general_purpose::STANDARD.encode([1u8; 17]);
    assert_eq!(decrypt_data(1, &data), Err(AppError::Internal("解密数据长度无效".to_string())));
}

#[test]
fn decrypt_refuses_a_pad_length_beyond_the_data() {
    let mut plain = vec![b'a'; 16];
    plain[15] = 17;
    let data = encrypt_payload(5, &plain);
    assert_eq!(decrypt_data(5, &data), Err(AppError::Internal("解密数据填充长度无效".to_string())));
}

#[test]
fn decrypt_strips_as_the_last_byte_says() {
    let mut plain = b"abcdefghijklmnop".to_vec();
    plain[15] = 0;
    let data = encrypt_payload(5, &plain);
    assert_eq!(decrypt_data(5, &data), Ok("abcdefghijklmno\u{0}".to_string()));
    plain[15] = 16;
    let data = encrypt_payload(5, &plain);
    assert_eq!(decrypt_data(5, &data), Ok(String::new()));
}

#[test]
fn decrypt_refuses_text_that_is_no_utf8() {
    let mut plain = vec![0xffu8; 16];
    plain[15] = 1;
    let data = encrypt_payload(9, &plain);
    let m = internal_message(decrypt_data(9, &data));
    assert!(m.starts_with("解密数据转UTF-8失败: "), "{}", m);
}

#[test]
fn strip_padding_cases() {
    assert_eq!(strip_padding(vec![]), None);
    assert_eq!(strip_padding(vec![1, 2, 3, 2]), Some(vec![1, 2]));
    assert_eq!(strip_padding(vec![1, 2, 3, 4]), Some(vec![]));
    assert_eq!(strip_padding(vec![1, 2, 3, 5]), None);
    assert_eq!(strip_padding(vec![1, 2, 3, 0]), Some(vec![1, 2, 3, 0]));
}

#[test]
fn ecb_decrypts_each_block_by_itself() {
    let key = [7u8; 32];
    let cipher = aes::Aes256::new(GenericArray::from_slice(&key));
    let mut one = GenericArray::clone_from_slice(b"first block 0000");
    let mut two = GenericArray::clone_from_slice(b"second block 111");
    cipher.encrypt_block(&mut one);
    cipher.encrypt_block(&mut two);
    let mut data = one.to_vec();
    data.extend_from_slice(&two);
    assert_eq!(ecb_decrypt(&key, &data), b"first block 0000second block 111".to_vec());
    let mut swapped = two.to_vec();
    swapped.extend_from_slice(&one);
    assert_eq!(ecb_decrypt(&key, &swapped), b"second block 111first block 0000".to_vec());
    assert_eq!(ecb_decrypt(&key, &[]), Vec::<u8>::new());
}
