//! The handshake: an ephemeral key pair, the login message, and the shared
//! secret that comes of the server's answer.

use crate::app::{App, AppState};
use crate::time::Timestamp;
use crate::wire::{
    ClientMsg, ClientMsgBody, ClientMsgBodyView, ClientMsgView, Credentials, ServerMsg,
};
use vstd::prelude::*;

verus! {

/// `x25519_dalek::EphemeralSecret`: a secret key that can be used for one
/// key agreement. Nothing of it is visible here.
#[verifier::external_type_specification]
#[verifier::external_body]
pub struct ExEphemeralSecret(x25519_dalek::EphemeralSecret);

/// Calls `x25519_dalek::EphemeralSecret::random_from_rng` with
/// `rand_core::OsRng`. Nothing is claimed of the secret: it is drawn from
/// the operating system's randomness, and the call aborts where the system
/// has none to give.
#[verifier::external_body]
fn random_secret() -> (out: x25519_dalek::EphemeralSecret) {
    x25519_dalek::EphemeralSecret::random_from_rng(rand_core::OsRng)
}

/// The public key that belongs to a secret key, in bytes: what
/// `x25519_dalek::PublicKey::from` computes from the secret key. It depends
/// on the secret key alone, which has no bytes to show and so stands here as
/// it is.
pub uninterp spec fn public_key_bytes(secret: x25519_dalek::EphemeralSecret) -> [u8; 32];

/// Calls `x25519_dalek::PublicKey::from` on the secret and hands out the
/// bytes of the public key. The contract names the bytes: the outside
/// function multiplies the base point of the curve by the secret key and
/// uses nothing else.
#[verifier::external_body]
fn public_key_of(secret: &x25519_dalek::EphemeralSecret) -> (out: [u8; 32])
    ensures
        out == public_key_bytes(*secret),
{
    x25519_dalek::PublicKey::from(secret).to_bytes()
}

/// The secret that a secret key and the other side's public key agree on,
/// in bytes: what `x25519_dalek::EphemeralSecret::diffie_hellman` computes
/// from the two. It depends on the two alone; the secret key has no bytes to
/// show and so stands here as it is.
pub uninterp spec fn shared_secret_bytes(
    secret: x25519_dalek::EphemeralSecret,
    their_public: [u8; 32],
) -> [u8; 32];

/// Calls `x25519_dalek::EphemeralSecret::diffie_hellman` with the public
/// key that `their_public` holds and hands out the bytes of the shared
/// secret. The contract names the bytes: the outside function multiplies
/// the other side's point by the secret key and uses nothing else.
#[verifier::external_body]
fn agree(secret: x25519_dalek::EphemeralSecret, their_public: [u8; 32]) -> (out: [u8; 32])
    ensures
        out == shared_secret_bytes(secret, their_public),
{
    secret.diffie_hellman(&x25519_dalek::PublicKey::from(their_public)).to_bytes()
}

/// A fresh secret key and the public key that belongs to it. Which secret
/// key it is, chance decides; the public key is the one of that secret key.
pub fn create_key_pair() -> (out: (x25519_dalek::EphemeralSecret, [u8; 32]))
    ensures
        out.1 == public_key_bytes(out.0),
{
    let secret = random_secret();
    let public = public_key_of(&secret);
    (secret, public)
}

/// The message that logs `username` in with the public key `client_public`.
pub open spec fn login_request(
    username: Seq<char>,
    client_public: [u8; 32],
    now: Timestamp,
) -> ClientMsgView {
    ClientMsgView {
        token: None,
        body: ClientMsgBodyView::Login(username, client_public),
        timestamp: now,
    }
}

/// The message that logs the user of `app` in: it carries no token, the
/// user's name and the client's public key.
pub fn login_msg(app: &App, client_public: [u8; 32], now: Timestamp) -> (out: ClientMsg)
    ensures
        out@ == login_request(app@.username, client_public, now),
{
    ClientMsg {
        token: None,
        body: ClientMsgBody::Login(app.username().clone(), client_public),
        timestamp: now,
    }
}

/// The state of a session that has `token` and `secret`.
pub open spec fn logged_in(state: AppState, token: Seq<char>, secret: [u8; 32]) -> AppState {
    AppState { token: Some(token), secret: Some(secret), ..state }
}

/// Reads the server's answer to the login. Where it reports a success, the
/// shared secret is agreed from the client's secret key and the server's
/// public key, the token and that secret are stored, and the answer is
/// `true`. Any other answer leaves the client as it is.
pub fn handle_login_success(
    app: &mut App,
    client_secret: x25519_dalek::EphemeralSecret,
    reply: ServerMsg,
) -> (out: bool)
    ensures
        out == reply.login() is Some,
        out ==> final(app)@ == logged_in(
            old(app)@,
            reply.login()->0.token@,
            shared_secret_bytes(client_secret, reply.login()->0.public_key),
        ),
        !out ==> final(app)@ == old(app)@,
{
    match reply.into_login() {
        Some(Credentials { token, public_key }) => {
            let shared = agree(client_secret, public_key);
            app.set_shared_secret(shared);
            app.store_token(token);
            true
        },
        None => false,
    }
}

} // verus!
