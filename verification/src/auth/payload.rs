//! The JSON payload of a token names its claims unambiguously: two sets of
//! claims with the same payload text are the same claims.
use vstd::prelude::*;

use crate::auth::jwt::{
    claims_payload, hyphenated, json_escape, json_escape_char, json_string, ClaimsView,
};
use crate::text::{
    all_digits, decimal, hex_char, hex_digits, is_ascii_digit, lemma_decimal_digits,
    lemma_hex_digits_len,
};

verus! {

/// The code of each hexadecimal digit: `0`-`9`, then `a`-`f`.
proof fn lemma_hex_char_code(d: nat)
    requires
        d < 16,
    ensures
        hex_char(d) as u32 == (if d < 10 {
            48 + d
        } else {
            87 + d
        }),
{
    let s = seq!['0', '1', '2', '3', '4', '5', '6', '7', '8', '9', 'a', 'b', 'c', 'd', 'e', 'f'];
    assert(hex_char(d) == s[d as int]);
}

/// Distinct digits are written with distinct characters.
proof fn lemma_hex_char_injective(a: nat, b: nat)
    requires
        a < 16,
        b < 16,
        hex_char(a) == hex_char(b),
    ensures
        a == b,
{
    lemma_hex_char_code(a);
    lemma_hex_char_code(b);
}

/// Every character is written with at least one character.
proof fn lemma_escape_char_nonempty(c: char)
    ensures
        json_escape_char(c).len() >= 1,
{
}

/// Escaping a text writes its first character, then the rest.
proof fn lemma_json_escape_front(s: Seq<char>)
    requires
        s.len() > 0,
    ensures
        json_escape(s) == json_escape_char(s[0]) + json_escape(s.drop_first()),
    decreases s.len(),
{
    if s.len() == 1 {
        assert(s.drop_last() =~= Seq::<char>::empty());
        assert(s.drop_first() =~= Seq::<char>::empty());
        assert(json_escape(s) =~= json_escape_char(s[0]) + json_escape(s.drop_first()));
    } else {
        let t = s.drop_last();
        lemma_json_escape_front(t);
        assert(t.drop_first() =~= s.drop_first().drop_last());
        assert(s.drop_first().last() == s.last());
        assert(t[0] == s[0]);
        assert(json_escape(s) =~= json_escape_char(s[0]) + json_escape(s.drop_first()));
    }
}

/// The written forms of characters form a prefix code: where the forms of
/// `a` and `b` start two equal texts, `a` and `b` are the same and so are
/// the texts after them.
proof fn lemma_escape_unit(a: char, b: char, x: Seq<char>, y: Seq<char>)
    requires
        json_escape_char(a) + x == json_escape_char(b) + y,
    ensures
        a == b,
        x == y,
{
    let ea = json_escape_char(a);
    let eb = json_escape_char(b);
    let w = ea + x;
    assert(w[0] == ea[0]);
    assert((eb + y)[0] == eb[0]);
    if ea.len() == 6 && eb.len() == 6 {
        assert(w[4] == ea[4] && w[5] == ea[5]);
        assert((eb + y)[4] == eb[4] && (eb + y)[5] == eb[5]);
        lemma_hex_char_injective((a as u32 / 16) as nat, (b as u32 / 16) as nat);
        lemma_hex_char_injective((a as u32 % 16) as nat, (b as u32 % 16) as nat);
        assert(a as u32 == b as u32);
    } else if ea.len() >= 2 && eb.len() >= 2 {
        assert(w[1] == ea[1]);
        assert((eb + y)[1] == eb[1]);
    }
    assert(a == b);
    assert(x =~= w.subrange(ea.len() as int, w.len() as int));
    assert(y =~= (eb + y).subrange(eb.len() as int, w.len() as int));
}

/// Distinct texts are written differently inside a JSON string.
pub proof fn lemma_json_escape_injective(s: Seq<char>, t: Seq<char>)
    requires
        json_escape(s) == json_escape(t),
    ensures
        s == t,
    decreases s.len(),
{
    if s.len() == 0 && t.len() == 0 {
        assert(s =~= t);
    } else if s.len() == 0 {
        lemma_json_escape_front(t);
        lemma_escape_char_nonempty(t[0]);
        assert(json_escape(s).len() == 0);
        assert(json_escape(t).len() > 0);
    } else if t.len() == 0 {
        lemma_json_escape_front(s);
        lemma_escape_char_nonempty(s[0]);
        assert(json_escape(t).len() == 0);
        assert(json_escape(s).len() > 0);
    } else {
        lemma_json_escape_front(s);
        lemma_json_escape_front(t);
        lemma_escape_unit(s[0], t[0], json_escape(s.drop_first()), json_escape(t.drop_first()));
        lemma_json_escape_injective(s.drop_first(), t.drop_first());
        assert(s =~= seq![s[0]] + s.drop_first());
        assert(t =~= seq![t[0]] + t.drop_first());
        assert(s =~= t);
    }
}

/// `16^w`.
pub open spec fn pow16(w: nat) -> nat
    decreases w,
{
    if w == 0 {
        1
    } else {
        16 * pow16((w - 1) as nat)
    }
}

/// Equal runs of `w` hexadecimal digits denote values equal modulo `16^w`.
proof fn lemma_hex_digits_injective(v: nat, u: nat, w: nat)
    requires
        hex_digits(v, w) == hex_digits(u, w),
    ensures
        pow16(w) > 0,
        v % pow16(w) == u % pow16(w),
    decreases w,
{
    if w > 0 {
        let p = pow16((w - 1) as nat);
        let hv = hex_digits(v, w);
        let hu = hex_digits(u, w);
        assert(hv.last() == hex_char(v % 16));
        assert(hu.last() == hex_char(u % 16));
        lemma_hex_char_injective(v % 16, u % 16);
        assert(hv.drop_last() =~= hex_digits(v / 16, (w - 1) as nat));
        assert(hu.drop_last() =~= hex_digits(u / 16, (w - 1) as nat));
        lemma_hex_digits_injective(v / 16, u / 16, (w - 1) as nat);
        vstd::arithmetic::div_mod::lemma_mod_breakdown(v as int, 16, p as int);
        vstd::arithmetic::div_mod::lemma_mod_breakdown(u as int, 16, p as int);
    }
}

/// The 32 digits inside the hyphenated form of a UUID.
proof fn lemma_hyphenated_digits(v: u128)
    ensures
        hyphenated(v).len() == 36,
        hex_digits(v as nat, 32) == hyphenated(v).subrange(0, 8) + hyphenated(v).subrange(9, 13)
            + hyphenated(v).subrange(14, 18) + hyphenated(v).subrange(19, 23) + hyphenated(
            v,
        ).subrange(24, 36),
{
    lemma_hex_digits_len(v as nat, 32);
    let h = hex_digits(v as nat, 32);
    let y = hyphenated(v);
    assert(h =~= y.subrange(0, 8) + y.subrange(9, 13) + y.subrange(14, 18) + y.subrange(19, 23)
        + y.subrange(24, 36));
}

/// Distinct UUIDs have distinct hyphenated forms.
pub proof fn lemma_hyphenated_injective(v: u128, u: u128)
    requires
        hyphenated(v) == hyphenated(u),
    ensures
        v == u,
{
    lemma_hyphenated_digits(v);
    lemma_hyphenated_digits(u);
    lemma_hex_digits_injective(v as nat, u as nat, 32);
    reveal_with_fuel(pow16, 33);
    assert(pow16(32) == 0x1_0000_0000_0000_0000_0000_0000_0000_0000);
}

/// Where a run of digits is followed by a non-digit, the run is read
/// unambiguously: two such readings of one text agree.
proof fn lemma_digits_then_stop(d1: Seq<char>, x: Seq<char>, d2: Seq<char>, y: Seq<char>)
    requires
        all_digits(d1),
        all_digits(d2),
        x.len() > 0,
        y.len() > 0,
        !is_ascii_digit(x[0]),
        !is_ascii_digit(y[0]),
        d1 + x == d2 + y,
    ensures
        d1 == d2,
        x == y,
{
    let w = d1 + x;
    if d1.len() < d2.len() {
        assert(w[d1.len() as int] == x[0]);
        assert((d2 + y)[d1.len() as int] == d2[d1.len() as int]);
    } else if d2.len() < d1.len() {
        assert((d2 + y)[d2.len() as int] == y[0]);
        assert(w[d2.len() as int] == d1[d2.len() as int]);
    }
    assert(d1 =~= w.subrange(0, d1.len() as int));
    assert(d2 =~= (d2 + y).subrange(0, d2.len() as int));
    assert(x =~= w.subrange(d1.len() as int, w.len() as int));
    assert(y =~= (d2 + y).subrange(d2.len() as int, w.len() as int));
}

/// What follows the expiry's digits in a payload.
spec fn after_exp(c: ClaimsView) -> Seq<char> {
    ",\"iat\":"@ + decimal(c.iat as nat) + ",\"typ\":"@ + json_string(c.typ) + "}"@
}

/// What follows the issue time's digits in a payload.
spec fn after_iat(c: ClaimsView) -> Seq<char> {
    ",\"typ\":"@ + json_string(c.typ) + "}"@
}

/// The pieces of a payload: the subject's UUID at a fixed place, then the
/// expiry's digits and what follows them, then the issue time's digits and
/// what follows them.
proof fn lemma_payload_parts(c: ClaimsView)
    ensures
        claims_payload(c).len() >= 52,
        claims_payload(c).subrange(8, 44) == hyphenated(c.sub),
        claims_payload(c).subrange(52, claims_payload(c).len() as int) == decimal(c.exp as nat)
            + after_exp(c),
        after_exp(c).subrange(7, after_exp(c).len() as int) == decimal(c.iat as nat) + after_iat(
            c,
        ),
        after_exp(c)[0] == ',',
        after_iat(c)[0] == ',',
        after_iat(c).len() >= 10,
        after_iat(c).subrange(8, after_iat(c).len() - 2) == json_escape(c.typ),
{
    reveal_strlit("{\"sub\":\"");
    reveal_strlit("\",\"exp\":");
    reveal_strlit(",\"iat\":");
    reveal_strlit(",\"typ\":");
    reveal_strlit("}");
    lemma_hyphenated_digits(c.sub);
    let p = claims_payload(c);
    let a = "{\"sub\":\""@;
    let b = "\",\"exp\":"@;
    assert(p =~= a + hyphenated(c.sub) + b + (decimal(c.exp as nat) + after_exp(c)));
    assert(p.subrange(8, 44) =~= hyphenated(c.sub));
    assert(p.subrange(52, p.len() as int) =~= decimal(c.exp as nat) + after_exp(c));
    let e = after_exp(c);
    assert(e.subrange(7, e.len() as int) =~= decimal(c.iat as nat) + after_iat(c));
    let t = after_iat(c);
    assert(t.subrange(8, t.len() - 2) =~= json_escape(c.typ));
}

/// A payload names its claims: two sets of claims with the same payload
/// text are the same claims. So the payload that a token is read back as
/// determines the subject, the expiry, the issue time and the kind.
pub proof fn lemma_payload_determines_claims(c1: ClaimsView, c2: ClaimsView)
    requires
        claims_payload(c1) == claims_payload(c2),
    ensures
        c1 == c2,
{
    lemma_payload_parts(c1);
    lemma_payload_parts(c2);
    let p = claims_payload(c1);
    lemma_hyphenated_injective(c1.sub, c2.sub);
    lemma_decimal_digits(c1.exp as nat);
    lemma_decimal_digits(c2.exp as nat);
    lemma_digits_then_stop(decimal(c1.exp as nat), after_exp(c1), decimal(c2.exp as nat), after_exp(c2));
    lemma_decimal_digits(c1.iat as nat);
    lemma_decimal_digits(c2.iat as nat);
    lemma_digits_then_stop(decimal(c1.iat as nat), after_iat(c1), decimal(c2.iat as nat), after_iat(c2));
    lemma_json_escape_injective(c1.typ, c2.typ);
}

} // verus!
