use vstd::prelude::*;

verus! {

/// The decimal digit character for `d` (below 10).
pub open spec fn digit_char(d: nat) -> char {
    (48 + d) as char
}

/// `n` written in decimal, without leading zeros.
pub open spec fn decimal_text(n: nat) -> Seq<char>
    decreases n,
{
    if n < 10 {
        seq![digit_char(n)]
    } else {
        decimal_text(n / 10) + seq![digit_char(n % 10)]
    }
}

/// An IPv4 address in dotted-decimal notation, such as `192.168.1.1`.
pub open spec fn dotted_decimal(octets: [u8; 4]) -> Seq<char> {
    decimal_text(octets[0] as nat) + seq!['.'] + decimal_text(octets[1] as nat) + seq!['.']
        + decimal_text(octets[2] as nat) + seq!['.'] + decimal_text(octets[3] as nat)
}

/// The URL of the captive portal served at `ap_ip`: `http://<address>/`.
pub open spec fn captive_url_text(ap_ip: [u8; 4]) -> Seq<char> {
    seq!['h', 't', 't', 'p', ':', '/', '/'] + dotted_decimal(ap_ip) + seq!['/']
}

/// The character is a decimal digit.
pub open spec fn is_digit(c: char) -> bool {
    '0' <= c && c <= '9'
}

/// The number that a string of decimal digits denotes.
pub open spec fn decimal_value(s: Seq<char>) -> int
    decreases s.len(),
{
    if s.len() == 0 {
        0
    } else {
        decimal_value(s.drop_last()) * 10 + (s.last() as int - 48)
    }
}

/// The decimal text of a number is one or more digits, without a leading zero
/// unless the number is zero, and reads back as the number.
pub proof fn law_decimal_text_reads_back(n: nat)
    ensures
        decimal_text(n).len() >= 1,
        forall|i: int| 0 <= i < decimal_text(n).len() ==> is_digit(#[trigger] decimal_text(n)[i]),
        decimal_text(n)[0] == '0' ==> n == 0,
        decimal_value(decimal_text(n)) == n,
    decreases n,
{
    if n >= 10 {
        law_decimal_text_reads_back(n / 10);
        let t = decimal_text(n);
        assert(t.drop_last() =~= decimal_text(n / 10));
        assert(t[0] == decimal_text(n / 10)[0]);
        assert(digit_char(n % 10) as int == 48 + n % 10);
        assert(t.last() == digit_char(n % 10));
        assert(decimal_value(t) == (n / 10) * 10 + n % 10);
        assert((n / 10) * 10 + n % 10 == n);
    } else {
        assert(digit_char(n) as int == 48 + n);
        assert(decimal_text(n).drop_last() =~= Seq::<char>::empty());
        assert(decimal_value(Seq::<char>::empty()) == 0);
    }
}

/// Two texts that each hold no dot, each followed by a dot and a rest, are
/// equal as wholes only when the texts and the rests are equal.
proof fn lemma_split_at_dot(x1: Seq<char>, r1: Seq<char>, x2: Seq<char>, r2: Seq<char>)
    requires
        forall|i: int| 0 <= i < x1.len() ==> #[trigger] x1[i] != '.',
        forall|i: int| 0 <= i < x2.len() ==> #[trigger] x2[i] != '.',
        x1 + seq!['.'] + r1 == x2 + seq!['.'] + r2,
    ensures
        x1 == x2,
        r1 == r2,
{
    let w = x1 + seq!['.'] + r1;
    let v = x2 + seq!['.'] + r2;
    if x1.len() < x2.len() {
        assert(w[x1.len() as int] == '.');
        assert(v[x1.len() as int] == x2[x1.len() as int]);
    } else if x2.len() < x1.len() {
        assert(v[x2.len() as int] == '.');
        assert(w[x2.len() as int] == x1[x2.len() as int]);
    } else {
        assert(x1 =~= w.subrange(0, x1.len() as int));
        assert(x2 =~= v.subrange(0, x2.len() as int));
        assert(r1 =~= w.subrange(x1.len() as int + 1, w.len() as int));
        assert(r2 =~= v.subrange(x2.len() as int + 1, v.len() as int));
    }
}

/// Decimal texts of two numbers are equal only when the numbers are.
proof fn lemma_decimal_text_injective(a: nat, b: nat)
    requires
        decimal_text(a) == decimal_text(b),
    ensures
        a == b,
{
    law_decimal_text_reads_back(a);
    law_decimal_text_reads_back(b);
}

/// A decimal text holds no dot.
proof fn lemma_decimal_text_has_no_dot(n: nat)
    ensures
        forall|i: int| 0 <= i < decimal_text(n).len() ==> #[trigger] decimal_text(n)[i] != '.',
{
    law_decimal_text_reads_back(n);
    assert forall|i: int| 0 <= i < decimal_text(n).len() implies #[trigger] decimal_text(n)[i]
        != '.' by {
        assert(is_digit(decimal_text(n)[i]));
    }
}

/// The URL is `http://`, then the four octets of the address in order, each in
/// decimal and joined by dots, then `/`.
pub proof fn law_captive_url_layout(ap_ip: [u8; 4])
    ensures
        captive_url_text(ap_ip) == seq!['h', 't', 't', 'p', ':', '/', '/'] + decimal_text(
            ap_ip[0] as nat,
        ) + seq!['.'] + decimal_text(ap_ip[1] as nat) + seq!['.'] + decimal_text(ap_ip[2] as nat)
            + seq!['.'] + decimal_text(ap_ip[3] as nat) + seq!['/'],
{
    assert(captive_url_text(ap_ip) =~= seq!['h', 't', 't', 'p', ':', '/', '/'] + decimal_text(
        ap_ip[0] as nat,
    ) + seq!['.'] + decimal_text(ap_ip[1] as nat) + seq!['.'] + decimal_text(ap_ip[2] as nat)
        + seq!['.'] + decimal_text(ap_ip[3] as nat) + seq!['/']);
}

/// Different addresses give different URLs: the URL names the access point
/// it was made for and no other.
pub proof fn law_captive_url_injective(a: [u8; 4], b: [u8; 4])
    requires
        captive_url_text(a) == captive_url_text(b),
    ensures
        a == b,
{
    let prefix = seq!['h', 't', 't', 'p', ':', '/', '/'];
    let ua = captive_url_text(a);
    let ub = captive_url_text(b);
    let da = dotted_decimal(a);
    let db = dotted_decimal(b);
    assert(da =~= ua.subrange(7, ua.len() - 1));
    assert(db =~= ub.subrange(7, ub.len() - 1));
    let a0 = decimal_text(a[0] as nat);
    let a1 = decimal_text(a[1] as nat);
    let a2 = decimal_text(a[2] as nat);
    let a3 = decimal_text(a[3] as nat);
    let b0 = decimal_text(b[0] as nat);
    let b1 = decimal_text(b[1] as nat);
    let b2 = decimal_text(b[2] as nat);
    let b3 = decimal_text(b[3] as nat);
    lemma_decimal_text_has_no_dot(a[0] as nat);
    lemma_decimal_text_has_no_dot(a[1] as nat);
    lemma_decimal_text_has_no_dot(a[2] as nat);
    lemma_decimal_text_has_no_dot(b[0] as nat);
    lemma_decimal_text_has_no_dot(b[1] as nat);
    lemma_decimal_text_has_no_dot(b[2] as nat);
    let ra1 = a1 + seq!['.'] + a2 + seq!['.'] + a3;
    let rb1 = b1 + seq!['.'] + b2 + seq!['.'] + b3;
    let ra2 = a2 + seq!['.'] + a3;
    let rb2 = b2 + seq!['.'] + b3;
    assert(da =~= a0 + seq!['.'] + ra1);
    assert(db =~= b0 + seq!['.'] + rb1);
    lemma_split_at_dot(a0, ra1, b0, rb1);
    assert(ra1 =~= a1 + seq!['.'] + ra2);
    assert(rb1 =~= b1 + seq!['.'] + rb2);
    lemma_split_at_dot(a1, ra2, b1, rb2);
    lemma_split_at_dot(a2, a3, b2, b3);
    lemma_decimal_text_injective(a[0] as nat, b[0] as nat);
    lemma_decimal_text_injective(a[1] as nat, b[1] as nat);
    lemma_decimal_text_injective(a[2] as nat, b[2] as nat);
    lemma_decimal_text_injective(a[3] as nat, b[3] as nat);
    assert(a =~= b);
}

/// Writes an IPv4 address with `core::net::Ipv4Addr`'s `Display` (through
/// `ToString::to_string`). Claimed of the outside code: the text is the
/// address in dotted-decimal notation, four decimal numbers without leading
/// zeros joined by dots, as its documentation describes.
#[verifier::external_body]
fn ipv4_text(octets: [u8; 4]) -> (text: String)
    ensures
        text@ == dotted_decimal(octets),
{
    core::net::Ipv4Addr::from(octets).to_string()
}

/// The captive-portal URL that the DHCP server hands to clients, for the
/// access point's address.
pub fn captive_portal_url(ap_ip: [u8; 4]) -> (url: String)
    ensures
        url@ == captive_url_text(ap_ip),
        url@ == seq!['h', 't', 't', 'p', ':', '/', '/'] + decimal_text(ap_ip[0] as nat) + seq!['.']
            + decimal_text(ap_ip[1] as nat) + seq!['.'] + decimal_text(ap_ip[2] as nat) + seq!['.']
            + decimal_text(ap_ip[3] as nat) + seq!['/'],
{
    proof {
        law_captive_url_layout(ap_ip);
    }
    let address = ipv4_text(ap_ip);
    let mut url = String::from_str("http://");
    url.append(address.as_str());
    url.append("/");
    proof {
        reveal_strlit("http://");
        reveal_strlit("/");
        assert(url@ =~= captive_url_text(ap_ip));
    }
    url
}

} // verus!
