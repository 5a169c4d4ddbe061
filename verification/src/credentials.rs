//! Credential records and the parsing of one stored credential file.
//!
//! A credential file is a JSON object with the signer's public key and,
//! optionally, its private key; the account id is the file's name and the
//! network is the directory it sits in, so both are supplied by the caller.

use vstd::prelude::*;
use vstd::utf8::encode_utf8;
use crate::compare::eq_str;
use crate::json::json_lookup_str;
use crate::json::spec_json_str;

verus! {

/// A signer's key material: the account, its public key, the network the
/// record belongs to, and the private key where the file held one. Without
/// a private key the account can be displayed and selected but cannot sign.
#[derive(Debug)]
pub struct NearCredential {
    pub account_id: String,
    pub public_key: String,
    pub network: String,
    pub private_key: Option<String>,
}

/// Parses the content of one credential file.
///
/// Returns a credential exactly when the content is a JSON object with a
/// string `public_key`; the private key is taken from the string
/// `private_key` where present and left out where not.
pub fn parse_credential_file(content: &str, account_id: String, network: String) -> (r: Option<
    NearCredential,
>)
    ensures
        match spec_json_str(encode_utf8(content@), "public_key"@) {
            Some(pk) => {
                &&& r is Some
                &&& r.unwrap().account_id@ == account_id@
                &&& r.unwrap().public_key@ == pk
                &&& r.unwrap().network@ == network@
                &&& match spec_json_str(encode_utf8(content@), "private_key"@) {
                    Some(sk) => r.unwrap().private_key is Some
                        && r.unwrap().private_key.unwrap()@ == sk,
                    None => r.unwrap().private_key is None,
                }
            },
            None => r is None,
        },
{
    let bytes = content.as_bytes();
    let public_key = match json_lookup_str(bytes, "public_key") {
        Some(pk) => pk,
        None => {
            return None;
        },
    };
    let private_key = json_lookup_str(bytes, "private_key");
    Some(NearCredential { account_id, public_key, network, private_key })
}

/// A field-by-field copy of a credential.
pub fn clone_credential(c: &NearCredential) -> (r: NearCredential)
    ensures
        r == *c,
{
    let private_key = match &c.private_key {
        Some(k) => Some(k.clone()),
        None => None,
    };
    NearCredential {
        account_id: c.account_id.clone(),
        public_key: c.public_key.clone(),
        network: c.network.clone(),
        private_key,
    }
}

/// The credentials that belong to the named network, in their stored order.
pub open spec fn spec_network_credentials(creds: Seq<NearCredential>, label: Seq<char>) -> Seq<
    NearCredential,
>
    decreases creds.len(),
{
    if creds.len() == 0 {
        seq![]
    } else if creds[0].network@ == label {
        seq![creds[0]] + spec_network_credentials(creds.drop_first(), label)
    } else {
        spec_network_credentials(creds.drop_first(), label)
    }
}

/// Appending one credential appends it to the selection exactly when its
/// network matches.
proof fn lemma_network_credentials_snoc(
    creds: Seq<NearCredential>,
    label: Seq<char>,
    c: NearCredential,
)
    ensures
        spec_network_credentials(creds.push(c), label) == if c.network@ == label {
            spec_network_credentials(creds, label).push(c)
        } else {
            spec_network_credentials(creds, label)
        },
    decreases creds.len(),
{
    if creds.len() == 0 {
        assert(creds.push(c).len() == 1);
        assert(creds.push(c)[0] == c);
        assert(creds.push(c).drop_first() =~= Seq::<NearCredential>::empty());
        assert(spec_network_credentials(Seq::<NearCredential>::empty(), label) == Seq::<
            NearCredential,
        >::empty());
        assert(spec_network_credentials(creds, label) == Seq::<NearCredential>::empty());
        if c.network@ == label {
            assert(spec_network_credentials(creds.push(c), label) == seq![c] + Seq::<
                NearCredential,
            >::empty());
            assert(seq![c] + Seq::<NearCredential>::empty() =~= Seq::<
                NearCredential,
            >::empty().push(c));
        }
    } else {
        assert(creds.push(c).drop_first() =~= creds.drop_first().push(c));
        lemma_network_credentials_snoc(creds.drop_first(), label, c);
        assert(creds.push(c)[0] == creds[0]);
        if creds[0].network@ == label {
            if c.network@ == label {
                assert(seq![creds[0]] + spec_network_credentials(creds.drop_first(), label).push(c)
                    =~= (seq![creds[0]] + spec_network_credentials(creds.drop_first(), label)).push(
                    c,
                ));
            }
        }
    }
}

/// Selects the credentials whose network is `label`, in their stored order.
pub fn credentials_for_network(creds: &Vec<NearCredential>, label: &str) -> (r: Vec<
    NearCredential,
>)
    ensures
        r@ == spec_network_credentials(creds@, label@),
{
    let mut out: Vec<NearCredential> = Vec::new();
    let n = creds.len();
    let mut i: usize = 0;
    while i < n
        invariant
            n == creds@.len(),
            0 <= i <= n,
            out@ == spec_network_credentials(creds@.take(i as int), label@),
        decreases n - i,
    {
        let c = &creds[i];
        if eq_str(c.network.as_str(), label) {
            out.push(clone_credential(c));
        }
        proof {
            assert(creds@.take(i + 1) =~= creds@.take(i as int).push(creds@[i as int]));
            lemma_network_credentials_snoc(creds@.take(i as int), label@, creds@[i as int]);
        }
        i = i + 1;
    }
    proof {
        assert(creds@.take(n as int) =~= creds@);
    }
    out
}

} // verus!
