//! What the secret services are asked, and what their answers mean.
//!
//! The services are reached through the `gcloud` command line tool. This
//! module says which command answers a lookup and how the outcome of the
//! command is read; running the command is the caller's part. A ciphertext
//! goes to the key management service decoded from base64, and the payload
//! of a secret comes back from the secret store in base64 and is decoded.

use vstd::prelude::*;
use vstd::utf8::{decode_utf8, valid_utf8};
use crate::environment::{SecretRequest, SecretRequestView};
use crate::text::{decimal, decimal_text, strings};
use crate::views::views;

verus! {

/// The bytes that `base64::decode` reads from a text, if it reads any.
pub uninterp spec fn base64_decoded(text: Seq<char>) -> Option<Seq<u8>>;

/// The text that `String::from_utf8_lossy` makes of bytes.
pub uninterp spec fn lossy_text(bytes: Seq<u8>) -> Seq<char>;

/// `base64::decode`: the bytes named `base64_decoded` of the text, and an
/// error, with its message, exactly where there are none.
#[verifier::external_body]
fn base64_decode(text: &str) -> (r: Result<Vec<u8>, String>)
    ensures
        r matches Ok(bytes) ==> base64_decoded(text@) == Some(bytes@),
        r is Err ==> base64_decoded(text@) is None,
{
    match base64::decode(text) {
        Ok(bytes) => Ok(bytes),
        Err(e) => Err(e.to_string()),
    }
}

/// `String::from_utf8`: the text that the bytes encode, and an error, with
/// its message, exactly where they are no UTF-8.
#[verifier::external_body]
fn utf8_text(bytes: Vec<u8>) -> (r: Result<String, String>)
    ensures
        r is Ok == valid_utf8(bytes@),
        r matches Ok(s) ==> s@ == decode_utf8(bytes@),
{
    match String::from_utf8(bytes) {
        Ok(s) => Ok(s),
        Err(e) => Err(e.to_string()),
    }
}

/// `String::from_utf8_lossy`: the text named `lossy_text` of the bytes,
/// which is the text that they encode where they are UTF-8.
#[verifier::external_body]
fn utf8_lossy(bytes: &Vec<u8>) -> (r: String)
    ensures
        r@ == lossy_text(bytes@),
        valid_utf8(bytes@) ==> r@ == decode_utf8(bytes@),
{
    String::from_utf8_lossy(bytes).into_owned()
}

/// What the failure of a command is reported as: the message, then what
/// the command wrote to its output and to its error stream.
pub open spec fn bail_message(message: Seq<char>, stdout: Seq<u8>, stderr: Seq<u8>) -> Seq<char> {
    message + ", "@ + lossy_text(stdout) + ", "@ + lossy_text(stderr)
}

/// Reads the outcome of a command: what it wrote to its output, where it
/// succeeded and wrote UTF-8. A command that failed is reported with
/// `failure_message` and what it wrote.
pub fn stdout_or_bail(success: bool, stdout: Vec<u8>, stderr: Vec<u8>, failure_message: &str) -> (r:
    Result<String, String>)
    ensures
        r is Ok == (success && valid_utf8(stdout@)),
        r matches Ok(text) ==> text@ == decode_utf8(stdout@),
        !success ==> (r matches Err(e) && e@ == bail_message(failure_message@, stdout@, stderr@)),
{
    if !success {
        let mut message = String::from_str(failure_message);
        message.append(", ");
        message.append(utf8_lossy(&stdout).as_str());
        message.append(", ");
        message.append(utf8_lossy(&stderr).as_str());
        return Err(message);
    }
    utf8_text(stdout)
}

/// The arguments with which `gcloud` decrypts the ciphertext in
/// `ciphertext_file` and writes the plaintext to its output.
pub open spec fn decrypt_args(
    project: Seq<char>,
    location: Seq<char>,
    key_ring: Seq<char>,
    key: Seq<char>,
    ciphertext_file: Seq<char>,
) -> Seq<Seq<char>> {
    seq![
        "kms"@,
        "decrypt"@,
        "--project"@,
        project,
        "--location"@,
        location,
        "--keyring"@,
        key_ring,
        "--key"@,
        key,
        "--plaintext-file"@,
        "-"@,
        "--ciphertext-file"@,
        ciphertext_file,
    ]
}

/// The arguments with which `gcloud` writes a version of a secret to its
/// output.
pub open spec fn access_args(project: Seq<char>, name: Seq<char>, version: u16) -> Seq<Seq<char>> {
    seq![
        "secrets"@,
        "versions"@,
        "access"@,
        decimal(version as nat),
        "--secret"@,
        name,
        "--project"@,
        project,
    ]
}

/// The arguments with which `gcloud` decrypts the ciphertext in
/// `ciphertext_file`.
pub fn decrypt_arguments(
    project: &str,
    location: &str,
    key_ring: &str,
    key: &str,
    ciphertext_file: &str,
) -> (r: Vec<String>)
    ensures
        views(r@) == decrypt_args(project@, location@, key_ring@, key@, ciphertext_file@),
{
    let items = vec![
        "kms",
        "decrypt",
        "--project",
        project,
        "--location",
        location,
        "--keyring",
        key_ring,
        "--key",
        key,
        "--plaintext-file",
        "-",
        "--ciphertext-file",
        ciphertext_file,
    ];
    let out = strings(&items);
    assert(views(out@) =~= decrypt_args(project@, location@, key_ring@, key@, ciphertext_file@));
    out
}

/// The arguments with which `gcloud` accesses a version of a secret.
pub fn access_arguments(project: &str, name: &str, version: u16) -> (r: Vec<String>)
    ensures
        views(r@) == access_args(project@, name@, version),
{
    let number = decimal_text(version as u64);
    let items = vec![
        "secrets",
        "versions",
        "access",
        number.as_str(),
        "--secret",
        name,
        "--project",
        project,
    ];
    let out = strings(&items);
    assert(views(out@) =~= access_args(project@, name@, version));
    out
}

/// A command that answers a lookup: the arguments of `gcloud`, and what it
/// is to read from its input.
#[derive(Debug, PartialEq, Eq)]
pub struct SecretCommand {
    pub arguments: Vec<String>,
    pub input: Vec<u8>,
}

/// The command that answers a lookup. A ciphertext is decoded from base64
/// and handed to the command on its input; where it is no base64 the
/// lookup has failed before anything is run.
pub fn secret_command(request: &SecretRequest) -> (r: Result<SecretCommand, String>)
    ensures
        match request@ {
            SecretRequestView::Decrypt { project, location, key_ring, key, ciphertext } => {
                &&& r is Ok == base64_decoded(ciphertext) is Some
                &&& r matches Ok(c) ==> views(c.arguments@) == decrypt_args(
                    project,
                    location,
                    key_ring,
                    key,
                    "-"@,
                ) && Some(c.input@) == base64_decoded(ciphertext)
            },
            SecretRequestView::Fetch { project, name, version } => {
                &&& r matches Ok(c)
                &&& views(c.arguments@) == access_args(project, name, version)
                &&& c.input@ == Seq::<u8>::empty()
            },
        },
{
    match request {
        SecretRequest::Decrypt { project, location, key_ring, key, ciphertext } => {
            let input = base64_decode(ciphertext.as_str())?;
            let arguments = decrypt_arguments(
                project.as_str(),
                location.as_str(),
                key_ring.as_str(),
                key.as_str(),
                "-",
            );
            Ok(SecretCommand { arguments, input })
        },
        SecretRequest::Fetch { project, name, version } => {
            let arguments = access_arguments(project.as_str(), name.as_str(), *version);
            Ok(SecretCommand { arguments, input: Vec::new() })
        },
    }
}

/// What a failed lookup of this kind is reported with.
pub open spec fn failure_message(request: SecretRequestView) -> Seq<char> {
    match request {
        SecretRequestView::Decrypt { .. } => "Failed to decrypt ciphertext"@,
        SecretRequestView::Fetch { .. } => "Failed to access secret version"@,
    }
}

/// What the command that answered a lookup gives, where it succeeded and
/// wrote UTF-8: for a decryption what it wrote, the plaintext; for a fetch
/// the text that the payload encodes, which the command wrote in base64.
pub open spec fn plaintext_of(request: SecretRequestView, stdout: Seq<u8>) -> Option<Seq<char>> {
    match request {
        SecretRequestView::Decrypt { .. } => Some(decode_utf8(stdout)),
        SecretRequestView::Fetch { .. } => match base64_decoded(decode_utf8(stdout)) {
            Some(bytes) => if valid_utf8(bytes) {
                Some(decode_utf8(bytes))
            } else {
                None
            },
            None => None,
        },
    }
}

/// Reads the outcome of the command that answered a lookup: the plaintext,
/// or what the failure is reported as. What a decryption wrote is the
/// plaintext; what a fetch wrote is the payload of the secret in base64,
/// and is decoded.
pub fn secret_outcome(
    request: &SecretRequest,
    success: bool,
    stdout: Vec<u8>,
    stderr: Vec<u8>,
) -> (r:
    Result<String, String>)
    ensures
        r is Ok == (success && valid_utf8(stdout@) && plaintext_of(request@, stdout@) is Some),
        r matches Ok(text) ==> plaintext_of(request@, stdout@) == Some(text@),
        !success ==> (r matches Err(e) && e@ == bail_message(
            failure_message(request@),
            stdout@,
            stderr@,
        )),
{
    match request {
        SecretRequest::Decrypt { .. } => stdout_or_bail(
            success,
            stdout,
            stderr,
            "Failed to decrypt ciphertext",
        ),
        SecretRequest::Fetch { .. } => {
            let payload = stdout_or_bail(
                success,
                stdout,
                stderr,
                "Failed to access secret version",
            )?;
            decode_payload(payload.as_str())
        },
    }
}

/// Reads a payload that a secret service hands out in base64: the text
/// that its bytes encode.
pub fn decode_payload(payload: &str) -> (r: Result<String, String>)
    ensures
        r is Ok == (base64_decoded(payload@) is Some && valid_utf8(base64_decoded(payload@)->0)),
        r matches Ok(text) ==> text@ == decode_utf8(base64_decoded(payload@)->0),
{
    let bytes = base64_decode(payload)?;
    utf8_text(bytes)
}

} // verus!
