//! Lightning addresses (`user@domain`, LUD-16): the LNURL-pay endpoint an
//! address names, and the callback address that asks it for an invoice of an
//! amount.
use vstd::prelude::*;
use crate::text::{decimal_text, push_u64_decimal};

verus! {

/// `i` is the position of the first `@` in `s`.
pub open spec fn is_first_at(s: Seq<char>, i: int) -> bool {
    &&& 0 <= i < s.len()
    &&& s[i] == '@'
    &&& forall|k: int| 0 <= k < i ==> s[k] != '@'
}

/// The LNURL-pay endpoint of a Lightning address, split at its first `@`:
/// `https://`, the part after it, `/.well-known/lnurlp/`, the part before
/// it; `None` where the address holds no `@`.
pub open spec fn lnurlp_endpoint_of(address: Seq<char>) -> Option<Seq<char>> {
    if exists|i: int| is_first_at(address, i) {
        let i = choose|i: int| is_first_at(address, i);
        Some(
            "https://"@ + address.subrange(i + 1, address.len() as int) + "/.well-known/lnurlp/"@
                + address.subrange(0, i),
        )
    } else {
        None
    }
}

/// The LNURL-pay endpoint of a Lightning address; `None` where the address
/// holds no `@`.
pub fn lnurlp_endpoint(address: &str) -> (res: Option<String>)
    ensures
        match res {
            Some(url) => lnurlp_endpoint_of(address@) == Some(url@),
            None => lnurlp_endpoint_of(address@) is None,
        },
{
    let n = address.unicode_len();
    let mut i: usize = 0;
    while i < n
        invariant
            i <= n,
            n == address@.len(),
            forall|k: int| 0 <= k < i ==> address@[k] != '@',
        decreases n - i,
    {
        if address.get_char(i) == '@' {
            proof {
                assert(is_first_at(address@, i as int));
                let j = choose|j: int| is_first_at(address@, j);
                assert(j == i) by {
                    if j < i {
                        assert(address@[j] != '@');
                    } else if j > i {
                        assert(address@[i as int] != '@');
                    }
                }
            }
            let user = address.substring_char(0, i);
            let domain = address.substring_char(i + 1, n);
            let mut url = String::from_str("https://");
            url.append(domain);
            url.append("/.well-known/lnurlp/");
            url.append(user);
            return Some(url);
        }
        i = i + 1;
    }
    None
}

/// Some character of `s` is `c`.
pub open spec fn holds_char(s: Seq<char>, c: char) -> bool {
    exists|k: int| 0 <= k < s.len() && s[k] == c
}

fn contains_char(s: &str, c: char) -> (res: bool)
    ensures
        res == holds_char(s@, c),
{
    let n = s.unicode_len();
    let mut i: usize = 0;
    while i < n
        invariant
            i <= n,
            n == s@.len(),
            forall|k: int| 0 <= k < i ==> s@[k] != c,
        decreases n - i,
    {
        if s.get_char(i) == c {
            return true;
        }
        i = i + 1;
    }
    false
}

/// An amount of satoshis in millisatoshis, held at `u64::MAX` where the
/// product would not fit.
pub open spec fn msat_of(amount_sat: u64) -> int {
    if amount_sat * 1000 > u64::MAX {
        u64::MAX as int
    } else {
        amount_sat * 1000
    }
}

/// The address that asks a Lightning address's service for an invoice: its
/// callback, `&` where the callback already holds a query (`?`) and `?`
/// otherwise, then `amount=` and the amount in millisatoshis.
pub open spec fn callback_url_of(callback: Seq<char>, amount_sat: u64) -> Seq<char> {
    callback + (if holds_char(callback, '?') {
        "&"@
    } else {
        "?"@
    }) + "amount="@ + decimal_text(msat_of(amount_sat) as nat)
}

/// The address that asks for an invoice of `amount_sat` satoshis.
pub fn callback_url(callback: &str, amount_sat: u64) -> (res: String)
    ensures
        res@ == callback_url_of(callback@, amount_sat),
{
    let mut url = String::from_str(callback);
    if contains_char(callback, '?') {
        url.append("&");
    } else {
        url.append("?");
    }
    url.append("amount=");
    let msat: u64 = if amount_sat > u64::MAX / 1000 {
        u64::MAX
    } else {
        amount_sat * 1000
    };
    push_u64_decimal(&mut url, msat);
    url
}

} // verus!
