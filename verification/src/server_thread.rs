//! Decisions of the thread that serves one connected server: which
//! decrypted messages are forwarding requests, and what is sent to the
//! target domain's server.

use vstd::prelude::*;
use vstd::utf8::encode_utf8;

use crate::aesgcm::{
    is_base64_char, key_from_text, opened_envelope, sealable, sealed_envelope, AesGcmEncryptor,
    NONCE_LEN,
};
use crate::models::{domains_views, Domains, DomainsView};
use crate::server_manager::{capture_group, domain_position, find_domain, group_at, regex_captures, regex_captures_of};
use crate::text::{is_white_space, lemma_trimmed_idempotent, lemma_trimmed_line, trimmed};

verus! {

/// A forwarding request: `SEND <id>@<host> <user>@<host> [#]<user>@<domain> <text>`;
/// the named group `domain` (group 1) is the target domain.
pub const SEND_PATTERN: &'static str = r"^SEND\x20\d{1,5}@[a-zA-Z\d.]{5,200}\x20[a-zA-Z\d]{5,20}@[a-zA-Z\d.]{5,200}\x20#?[a-zA-Z\d]{5,20}@(?P<domain>[a-zA-Z\d.]{5,200})\x20[\x20-\xFF]{1,500}$";

/// The target domain of a forwarding request, matched on the trimmed message.
pub open spec fn send_target(message: Seq<char>) -> Option<Seq<char>> {
    match regex_captures_of(SEND_PATTERN@, trimmed(message)) {
        Some(caps) => capture_group(caps, 1),
        None => None,
    }
}

/// The target of a request is capture group 1 of the request pattern on the
/// trimmed message, whatever characters the message holds (Latin-1 letters
/// in the text part included); without a match there is no target; and
/// white space around the message changes nothing.
pub proof fn law_send_target_is_pattern_group(message: Seq<char>)
    ensures
        regex_captures_of(SEND_PATTERN@, trimmed(message)) matches Some(caps) ==> send_target(
            message,
        ) == capture_group(caps, 1),
        regex_captures_of(SEND_PATTERN@, trimmed(message)) is None ==> send_target(message) is None,
        send_target(message) == send_target(trimmed(message)),
{
    lemma_trimmed_idempotent(message);
}

/// The target domain of a forwarding request, or `None` when the message is
/// not one.
pub fn send_request_domain(message: &str) -> (res: Option<String>)
    ensures
        res.deep_view() == send_target(message@),
{
    let pattern = SEND_PATTERN;
    match regex_captures(pattern, message.trim()) {
        Some(caps) => group_at(&caps, 1),
        None => None,
    }
}

/// What is to be sent for one forwarding request.
pub enum SendPlan {
    /// No configured domain has the target name: nothing is sent.
    NoRoute,
    /// The target domain's key text is not a base64 AES-256 key.
    BadKey,
    /// The message is too long to be encrypted.
    TooLong,
    /// Write `frame` to the target domain's connection.
    Deliver { frame: String },
}

/// `plan` is right for forwarding `message` to `domain`: the first
/// configured domain of that name is the target; the frame is the message's
/// envelope under the target's key, with any nonce, and a newline.
pub open spec fn send_plan_spec(
    domains: Seq<DomainsView>,
    message: Seq<char>,
    domain: Seq<char>,
    plan: SendPlan,
) -> bool {
    match find_domain(domains, domain) {
        None => plan is NoRoute,
        Some(target) => match key_from_text(target.base_64_aes) {
            None => plan is BadKey,
            Some(key) => if !sealable(message) {
                plan is TooLong
            } else {
                plan matches SendPlan::Deliver { frame } && (exists|nonce: Seq<u8>|
                    nonce.len() == NONCE_LEN && frame@ == #[trigger] sealed_envelope(
                        key,
                        nonce,
                        message,
                    ).push('\n')) && opened_envelope(key, frame@) == Some(message)
            },
        },
    }
}

/// Prepares the forwarding of `message` to the server of `domain`: finds the
/// first configured domain of that name, makes an encryptor from its key and
/// encrypts the message into a newline-terminated frame.
pub fn prepare_send(domain_list: &Vec<Domains>, message: &String, domain: &String) -> (res:
    SendPlan)
    ensures
        send_plan_spec(domains_views(domain_list@), message@, domain@, res),
{
    let i = match domain_position(domain_list, domain) {
        Some(i) => i,
        None => return SendPlan::NoRoute,
    };
    let aes = match AesGcmEncryptor::try_new(domain_list[i].base_key().as_str()) {
        Some(aes) => aes,
        None => return SendPlan::BadKey,
    };
    let byte_len = message.as_str().as_bytes().len();
    assert(byte_len == encode_utf8(message@).len());
    if byte_len as u64 > crate::aesgcm::AES_GCM_MAX_PLAINTEXT || byte_len > usize::MAX / 4 {
        return SendPlan::TooLong;
    }
    match aes.encrypt_string(message.clone()) {
        Ok(s) => {
            let mut frame = s;
            let ghost env = frame@;
            frame.push('\n');
            proof {
                assert forall|k: int| 0 <= k < env.len() implies !is_white_space(#[trigger] env[k]) by {
                    assert(is_base64_char(env[k]));
                }
                lemma_trimmed_line(env, '\n');
            }
            SendPlan::Deliver { frame }
        },
        Err(_) => SendPlan::TooLong,
    }
}

/// What the serving thread does with one message received from its server.
pub enum ClientAction {
    /// The message does not open under the server's key.
    Undecryptable,
    /// The decrypted message is not a forwarding request.
    NoSendMatch { message: String },
    /// The decrypted message asks to be forwarded to `domain`.
    Forward { message: String, domain: String },
}

/// Decides what to do with one received message: open it with the server's
/// key and find the target domain of a forwarding request.
pub fn route_client_message(decryptor: &AesGcmEncryptor, received: &str) -> (res: ClientAction)
    ensures
        match opened_envelope(decryptor@, received@) {
            None => res is Undecryptable,
            Some(plain) => match send_target(plain) {
                None => res matches ClientAction::NoSendMatch { message } && message@ == plain,
                Some(target) => res matches ClientAction::Forward { message, domain }
                    && message@ == plain && domain@ == target,
            },
        },
{
    let message = match decryptor.try_decrypt_string(received) {
        Some(m) => m,
        None => return ClientAction::Undecryptable,
    };
    match send_request_domain(message.as_str()) {
        None => ClientAction::NoSendMatch { message },
        Some(domain) => ClientAction::Forward { message, domain },
    }
}

} // verus!
