//! Content hashes of campaign contracts and scoped identifiers of
//! economic intents.

use vstd::prelude::*;
use vstd::string::*;
use vstd::utf8::*;
use sha2::Digest;
use crate::text::starts_with;

verus! {

/// The SHA-256 digest of a byte sequence.
pub uninterp spec fn sha256(data: Seq<u8>) -> Seq<u8>;

/// Calls `sha2::Sha256::digest`. Trusted to return the SHA-256 digest of
/// `data`, a function of `data` alone, which is 32 bytes long (the hasher's
/// output size is `U32`).
#[verifier::external_body]
fn sha256_digest(data: &[u8]) -> (r: Vec<u8>)
    ensures
        r@ == sha256(data@),
        r@.len() == 32,
{
    sha2::Sha256::digest(data).to_vec()
}

pub open spec fn hex_char(n: u8) -> char {
    if n < 10 { (('0' as u32) + n) as char } else { (('a' as u32) + n - 10) as char }
}

/// Lower-case hexadecimal text of `data`, two digits per byte.
pub open spec fn hex_lower(data: Seq<u8>) -> Seq<char>
    decreases data.len(),
{
    if data.len() == 0 {
        Seq::empty()
    } else {
        hex_lower(data.drop_last()) + seq![hex_char(data.last() / 16), hex_char(data.last() % 16)]
    }
}

fn hex_digit(n: u8) -> (r: &'static str)
    requires
        n < 16,
    ensures
        r@ == seq![hex_char(n)],
{
    proof {
        reveal_strlit("0");
        reveal_strlit("1");
        reveal_strlit("2");
        reveal_strlit("3");
        reveal_strlit("4");
        reveal_strlit("5");
        reveal_strlit("6");
        reveal_strlit("7");
        reveal_strlit("8");
        reveal_strlit("9");
        reveal_strlit("a");
        reveal_strlit("b");
        reveal_strlit("c");
        reveal_strlit("d");
        reveal_strlit("e");
        reveal_strlit("f");
    }
    let r = match n {
        0 => "0",
        1 => "1",
        2 => "2",
        3 => "3",
        4 => "4",
        5 => "5",
        6 => "6",
        7 => "7",
        8 => "8",
        9 => "9",
        10 => "a",
        11 => "b",
        12 => "c",
        13 => "d",
        14 => "e",
        _ => "f",
    };
    assert(r@ =~= seq![hex_char(n)]);
    r
}

/// Appends the lower-case hexadecimal text of `data` to `out`.
fn push_hex(out: &mut String, data: &[u8])
    ensures
        final(out)@ == old(out)@ + hex_lower(data@),
{
    let mut i: usize = 0;
    while i < data.len()
        invariant
            i <= data@.len(),
            out@ == old(out)@ + hex_lower(data@.take(i as int)),
        decreases data@.len() - i,
    {
        let byte = data[i];
        out.append(hex_digit(byte / 16));
        out.append(hex_digit(byte % 16));
        assert(data@.take(i + 1).drop_last() =~= data@.take(i as int));
        assert(data@.take(i + 1).last() == byte);
        assert(out@ =~= old(out)@ + hex_lower(data@.take(i + 1)));
        i = i + 1;
    }
    assert(data@.take(data@.len() as int) =~= data@);
}

proof fn lemma_hex_lower_len(data: Seq<u8>)
    ensures
        hex_lower(data).len() == 2 * data.len(),
    decreases data.len(),
{
    if data.len() > 0 {
        lemma_hex_lower_len(data.drop_last());
    }
}

/// The content hash of a canonical JSON payload: the lower-case hex text of
/// its SHA-256 digest, 64 characters long.
pub fn canonical_json_hash(json: &[u8]) -> (r: String)
    ensures
        r@ == hex_lower(sha256(json@)),
        r@.len() == 64,
{
    let digest = sha256_digest(json);
    let mut out = String::new();
    push_hex(&mut out, digest.as_slice());
    proof {
        lemma_hex_lower_len(digest@);
    }
    out
}

/// The text hashed to scope a campaign to a CEX account.
pub open spec fn cex_scope_text(account_id: Seq<char>, campaign_id: Seq<char>) -> Seq<char> {
    "trnm-cex-campaign-scope-v1"@ + seq!['\0'] + account_id + seq!['\0'] + campaign_id
}

/// `cex-campaign-` followed by the hex SHA-256 of the UTF-8 scope text.
pub open spec fn spec_cex_scoped_campaign_id(account_id: Seq<char>, campaign_id: Seq<char>) -> Seq<char> {
    "cex-campaign-"@ + hex_lower(sha256(encode_utf8(cex_scope_text(account_id, campaign_id))))
}

/// The campaign id under which a campaign is known to one CEX account.
pub fn cex_scoped_campaign_id(account_id: &str, campaign_id: &str) -> (r: String)
    ensures
        r@ == spec_cex_scoped_campaign_id(account_id@, campaign_id@),
{
    proof {
        reveal_strlit("\0");
    }
    let scope = "trnm-cex-campaign-scope-v1".to_owned().concat("\0").concat(account_id).concat("\0").concat(campaign_id);
    assert(scope@ =~= cex_scope_text(account_id@, campaign_id@));
    let digest = sha256_digest(scope.as_str().as_bytes());
    let mut out = "cex-campaign-".to_owned();
    push_hex(&mut out, digest.as_slice());
    out
}

/// `{campaign_id}:{intent_id}`, unless the intent id already carries that prefix.
pub open spec fn spec_scoped_intent_id(campaign_id: Seq<char>, intent_id: Seq<char>) -> Seq<char> {
    let prefix = campaign_id + seq![':'];
    if prefix.len() <= intent_id.len() && intent_id.subrange(0, prefix.len() as int) == prefix {
        intent_id
    } else {
        prefix + intent_id
    }
}

/// Scopes an economic intent id to its campaign.
pub fn scoped_economic_intent_id(campaign_id: &str, intent_id: &str) -> (r: String)
    ensures
        r@ == spec_scoped_intent_id(campaign_id@, intent_id@),
{
    proof {
        reveal_strlit(":");
    }
    let prefix = campaign_id.to_owned().concat(":");
    assert(prefix@ =~= campaign_id@ + seq![':']);
    if starts_with(intent_id, prefix.as_str()) {
        intent_id.to_owned()
    } else {
        prefix.concat(intent_id)
    }
}

/// Scoping is idempotent: an id that was scoped to a campaign is left as it
/// is when scoped to that campaign again.
pub proof fn lemma_scoping_is_idempotent(campaign_id: Seq<char>, intent_id: Seq<char>)
    ensures
        spec_scoped_intent_id(campaign_id, spec_scoped_intent_id(campaign_id, intent_id))
            == spec_scoped_intent_id(campaign_id, intent_id),
{
    let prefix = campaign_id + seq![':'];
    let once = spec_scoped_intent_id(campaign_id, intent_id);
    if !(prefix.len() <= intent_id.len() && intent_id.subrange(0, prefix.len() as int) == prefix) {
        assert((prefix + intent_id).subrange(0, prefix.len() as int) =~= prefix);
    }
    assert(once.subrange(0, prefix.len() as int) == prefix);
}

} // verus!
