//! What is sent to the business API: the addresses of its endpoints, the
//! bearer header and the report of a paid collaborator.
use vstd::prelude::*;
use vstd::arithmetic::power::{lemma_pow0, lemma_pow_positive, pow};
use vstd::arithmetic::div_mod::{lemma_basic_div, lemma_div_denominator, lemma_fundamental_div_mod};
use crate::modelsext::ProcessPayment;
use crate::text::{hex_digit, lemma_hex_digit_injective};

verus! {

/// The `i`-th hexadecimal digit of a 128-bit value, the most significant
/// first (`i` from 0 to 31).
pub open spec fn nibble(v: u128, i: int) -> int {
    (v as int / pow(16, (31 - i) as nat)) % 16
}

/// The 32 lower-case hexadecimal digits of a 128-bit value, the most
/// significant first.
pub open spec fn hex_of_u128(v: u128) -> Seq<char> {
    Seq::new(32, |i: int| hex_digit(nibble(v, i)))
}

/// The text of the UUID whose 128-bit value is `v`: its hexadecimal digits
/// in groups of 8, 4, 4, 4 and 12, joined by hyphens.
pub open spec fn uuid_text(v: u128) -> Seq<char> {
    let h = hex_of_u128(v);
    h.subrange(0, 8) + seq!['-'] + h.subrange(8, 12) + seq!['-'] + h.subrange(12, 16) + seq!['-']
        + h.subrange(16, 20) + seq!['-'] + h.subrange(20, 32)
}

/// Calls `uuid::Uuid::from_u128` and writes the UUID with `to_string`.
/// `from_u128` takes the value's bytes most significant first
/// (`to_be_bytes`), and `Display` writes the hyphenated lower-case form
/// (`format_hyphenated`): the contract says that the text is `uuid_text`.
#[verifier::external_body]
fn uuid_to_string(v: u128) -> (res: String)
    ensures
        res@ == uuid_text(v),
{
    uuid::Uuid::from_u128(v).to_string()
}

/// The business API's endpoint that issues tokens.
pub fn authenticate_url(server: &str) -> (res: String)
    ensures
        res@ == server@ + "/api/v1/authenticate"@,
{
    String::from_str(server).concat("/api/v1/authenticate")
}

/// The business API's endpoint that takes reports of paid collaborators.
pub fn order_process_url(server: &str) -> (res: String)
    ensures
        res@ == server@ + "/api/v1/order/process/"@,
{
    String::from_str(server).concat("/api/v1/order/process/")
}

/// The `Authorization` header that carries a token: `Bearer ` and the token.
pub fn bearer_authorization(jwt: &str) -> (res: String)
    ensures
        res@ == crate::authorization::bearer_prefix() + jwt@,
{
    proof {
        reveal_strlit("Bearer ");
    }
    String::from_str("Bearer ").concat(jwt)
}

/// The report that a collaborator of a pre-sale was paid: the pre-sale's
/// UUID as text and the collaborator's Lightning address.
pub fn process_payment(presell_id: u128, lnaddress: String) -> (res: ProcessPayment)
    ensures
        res.invoiceUid@ == uuid_text(presell_id),
        res.lnAddress@ == lnaddress@,
{
    ProcessPayment { invoiceUid: uuid_to_string(presell_id), lnAddress: lnaddress }
}

proof fn lemma_pow16_step(k: nat)
    ensures
        pow(16, k + 1) == pow(16, k) * 16,
{
    reveal(pow);
}

proof fn lemma_pow16_32()
    ensures
        pow(16, 32) == 0x1_0000_0000_0000_0000_0000_0000_0000_0000int,
{
    reveal_with_fuel(pow, 33);
}

/// Values with the same hexadecimal digits from position `31 - k` back to
/// the first have the same quotient by sixteen to the `k`.
proof fn lemma_quotients_agree(a: u128, b: u128, k: nat)
    requires
        k <= 32,
        forall|i: int| 0 <= i < 32 ==> #[trigger] nibble(a, i) == nibble(b, i),
    ensures
        a as int / pow(16, k) == b as int / pow(16, k),
    decreases 32 - k,
{
    lemma_pow_positive(16, k);
    if k == 32 {
        lemma_pow16_32();
        lemma_basic_div(a as int, pow(16, 32));
        lemma_basic_div(b as int, pow(16, 32));
    } else {
        lemma_quotients_agree(a, b, k + 1);
        let p = pow(16, k);
        lemma_pow16_step(k);
        lemma_div_denominator(a as int, p, 16);
        lemma_div_denominator(b as int, p, 16);
        let qa = a as int / p;
        let qb = b as int / p;
        lemma_fundamental_div_mod(qa, 16);
        lemma_fundamental_div_mod(qb, 16);
        assert(nibble(a, 31 - k) == nibble(b, 31 - k));
        assert((31 - (31 - k)) as nat == k);
    }
}

/// Distinct pre-sales are reported under distinct UUID texts: the text of a
/// UUID gives back its 128-bit value.
pub proof fn lemma_uuid_text_injective(a: u128, b: u128)
    requires
        uuid_text(a) == uuid_text(b),
    ensures
        a == b,
{
    let ha = hex_of_u128(a);
    let hb = hex_of_u128(b);
    assert forall|i: int| 0 <= i < 32 implies #[trigger] nibble(a, i) == nibble(b, i) by {
        let j = if i < 8 {
            i
        } else if i < 12 {
            i + 1
        } else if i < 16 {
            i + 2
        } else if i < 20 {
            i + 3
        } else {
            i + 4
        };
        assert(uuid_text(a)[j] == ha[i]);
        assert(uuid_text(b)[j] == hb[i]);
        lemma_pow_positive(16, (31 - i) as nat);
        lemma_hex_digit_injective(nibble(a, i), nibble(b, i));
    }
    lemma_quotients_agree(a, b, 0);
    lemma_pow0(16);
}

} // verus!
