//! The keys by which the router proves who it is.
use key_utils::{Secp256k1PublicKey, Secp256k1SecretKey};
use vstd::prelude::*;

verus! {

/// A pair of keys, as bytes.
#[derive(Clone, Copy)]
pub struct KeyPair {
    pub public_key: [u8; 32],
    pub private_key: [u8; 32],
}

/// The public and the private key that a text stands for, if it stands for a secret key.
pub uninterp spec fn key_pair_of_secret(text: Seq<char>) -> Option<(Seq<u8>, Seq<u8>)>;

/// Parses a `Secp256k1SecretKey` of `key_utils` from a text, turns it into its
/// `Secp256k1PublicKey`, and both into bytes: functions of the text. There is no result where the
/// text is not that of a secret key.
#[verifier::external_body]
pub(crate) fn parse_secret(text: &String) -> (keys: Option<KeyPair>)
    ensures
        match keys {
            Some(k) => key_pair_of_secret(text@) == Some((k.public_key@, k.private_key@)),
            None => key_pair_of_secret(text@) is None,
        },
{
    let secret: Secp256k1SecretKey = text.parse().ok()?;
    Some(KeyPair {
        public_key: Secp256k1PublicKey::from(secret).into_bytes(),
        private_key: secret.into_bytes(),
    })
}

/// The public key that a text stands for, if it stands for one.
pub uninterp spec fn public_key_of(text: Seq<char>) -> Option<Seq<u8>>;

/// Parses a `Secp256k1PublicKey` of `key_utils` from a text, and turns it into bytes: functions of
/// the text. There is no result where the text is not that of a public key.
#[verifier::external_body]
pub(crate) fn parse_public(text: &String) -> (key: Option<[u8; 32]>)
    ensures
        match key {
            Some(k) => public_key_of(text@) == Some(k@),
            None => public_key_of(text@) is None,
        },
{
    let key: Secp256k1PublicKey = text.parse().ok()?;
    Some(key.into_bytes())
}

/// The keys that two texts stand for, if the first stands for a public key and the second for a
/// secret one. Whether they belong together is not looked at.
pub fn authority_keys(public_key: &String, secret_key: &String) -> (keys: Option<KeyPair>)
    ensures
        match keys {
            Some(k) => {
                &&& public_key_of(public_key@) == Some(k.public_key@)
                &&& key_pair_of_secret(secret_key@) matches Some((_, private_key))
                &&& private_key == k.private_key@
            },
            None => public_key_of(public_key@) is None || key_pair_of_secret(secret_key@) is None,
        },
{
    match (parse_public(public_key), parse_secret(secret_key)) {
        (Some(public_key), Some(pair)) => Some(
            KeyPair { public_key, private_key: pair.private_key },
        ),
        _ => None,
    }
}

/// The keys are those that the two texts stand for, each its own, and there are some exactly if both
/// texts stand for one.
pub proof fn law_keys_of_two_texts(public_key: String, secret_key: String, keys: Option<KeyPair>)
    requires
        call_ensures(authority_keys, (&public_key, &secret_key), keys),
    ensures
        keys is Some <==> public_key_of(public_key@) is Some && key_pair_of_secret(
            secret_key@,
        ) is Some,
        keys matches Some(pair) ==> {
            &&& public_key_of(public_key@) == Some(pair.public_key@)
            &&& key_pair_of_secret(secret_key@) matches Some((_, private_key)) && private_key
                == pair.private_key@
        },
{
}

} // verus!
