use lsctl::environment::SecretRequest;
use lsctl::secrets::{
    access_arguments, decode_payload, decrypt_arguments, secret_command, secret_outcome,
    stdout_or_bail, SecretCommand,
};

fn list(items: &[&str]) -> Vec<String> {
    items.iter().map(|s| s.to_string()).collect()
}

#[test]
fn decrypt_arguments_name_the_key() {
    assert_eq!(
        decrypt_arguments("proj", "global", "ring", "key", "data.kms"),
        list(&[
            "kms",
            "decrypt",
            "--project",
            "proj",
            "--location",
            "global",
            "--keyring",
            "ring",
            "--key",
            "key",
            "--plaintext-file",
            "-",
            "--ciphertext-file",
            "data.kms",
        ])
    );
}

#[test]
fn access_arguments_name_the_version() {
    assert_eq!(
        access_arguments("proj", "token", 12),
        list(&["secrets", "versions", "access", "12", "--secret", "token", "--project", "proj"])
    );
}

#[test]
fn a_ciphertext_is_decoded_for_the_command() {
    let request = SecretRequest::Decrypt {
        project: "p".to_string(),
        location: "l".to_string(),
        key_ring: "r".to_string(),
        key: "k".to_string(),
        ciphertext: "aGVsbG8gd29ybGQ=".to_string(),
    };
    let command = secret_command(&request).unwrap();
    assert_eq!(command.input, b"hello world".to_vec());
    assert_eq!(command.arguments, decrypt_arguments("p", "l", "r", "k", "-"));
}

#[test]
fn a_ciphertext_that_is_no_base64_fails_the_lookup() {
    let request = SecretRequest::Decrypt {
        project: "p".to_string(),
        location: "l".to_string(),
        key_ring: "r".to_string(),
        key: "k".to_string(),
        ciphertext: "not base64!".to_string(),
    };
    assert!(secret_command(&request).is_err());
}

#[test]
fn a_fetch_has_no_input() {
    let request =
        SecretRequest::Fetch { project: "p".to_string(), name: "n".to_string(), version: 3 };
    assert_eq!(
        secret_command(&request),
        Ok(SecretCommand { arguments: access_arguments("p", "n", 3), input: vec![] })
    );
}

#[test]
fn output_of_a_command_that_succeeded() {
    assert_eq!(stdout_or_bail(true, b"plain".to_vec(), b"warn".to_vec(), "m"), Ok("plain".to_string()));
    assert!(stdout_or_bail(true, vec![0xff, 0xfe], vec![], "m").is_err());
}

#[test]
fn a_command_that_failed_is_reported_with_what_it_wrote() {
    assert_eq!(
        stdout_or_bail(false, b"out".to_vec(), b"err".to_vec(), "Failed to decrypt ciphertext"),
        Err("Failed to decrypt ciphertext, out, err".to_string())
    );
    assert_eq!(
        stdout_or_bail(false, vec![b'a', 0xff], vec![], "m"),
        Err("m, a\u{fffd}, ".to_string())
    );
    let request =
        SecretRequest::Fetch { project: "p".to_string(), name: "n".to_string(), version: 3 };
    assert_eq!(
        secret_outcome(&request, false, vec![], b"denied".to_vec()),
        Err("Failed to access secret version, , denied".to_string())
    );
}

#[test]
fn what_a_fetch_wrote_is_decoded_from_base64() {
    let request =
        SecretRequest::Fetch { project: "p".to_string(), name: "n".to_string(), version: 3 };
    assert_eq!(
        secret_outcome(&request, true, b"c2VjcmV0".to_vec(), vec![]),
        Ok("secret".to_string())
    );
    assert_eq!(secret_outcome(&request, true, vec![], vec![]), Ok(String::new()));
    assert!(secret_outcome(&request, true, b"secret!".to_vec(), vec![]).is_err());
    assert!(secret_outcome(&request, true, b"//4=".to_vec(), vec![]).is_err());
    assert!(secret_outcome(&request, true, vec![0xff], vec![]).is_err());
    assert_eq!(
        secret_outcome(&request, false, b"c2VjcmV0".to_vec(), vec![]),
        Err("Failed to access secret version, c2VjcmV0, ".to_string())
    );
}

#[test]
fn what_a_decryption_wrote_is_the_plaintext() {
    let request = SecretRequest::Decrypt {
        project: "p".to_string(),
        location: "l".to_string(),
        key_ring: "r".to_string(),
        key: "k".to_string(),
        ciphertext: "Yw==".to_string(),
    };
    assert_eq!(
        secret_outcome(&request, true, b"c2VjcmV0".to_vec(), vec![]),
        Ok("c2VjcmV0".to_string())
    );
    assert!(secret_outcome(&request, true, vec![0xff], vec![]).is_err());
    assert_eq!(
        secret_outcome(&request, false, vec![], b"denied".to_vec()),
        Err("Failed to decrypt ciphertext, , denied".to_string())
    );
}

#[test]
fn a_payload_is_decoded_from_base64() {
    assert_eq!(decode_payload("c2VjcmV0"), Ok("secret".to_string()));
    assert!(decode_payload("%%%").is_err());
    assert!(decode_payload("//4=").is_err());
}
