//! Dotted-decimal IPv4 text: its fields, their values, and a parser.
use vstd::prelude::*;

verus! {

/// The byte `.` that separates the fields of an address.
pub const DOT: u8 = 0x2e;

/// The byte `+` that may stand before the digits of a field.
pub const PLUS: u8 = 0x2b;

/// The fields of `b` between `.` separators, as `str::split(".")` yields them:
/// an empty text has one empty field, and each `.` starts a new field.
pub open spec fn split_dots(b: Seq<u8>) -> Seq<Seq<u8>>
    decreases b.len(),
{
    if b.len() == 0 {
        seq![Seq::<u8>::empty()]
    } else {
        let init = split_dots(b.drop_last());
        if b.last() == DOT {
            init.push(Seq::<u8>::empty())
        } else {
            init.update(init.len() - 1, init.last().push(b.last()))
        }
    }
}

pub open spec fn is_digit(c: u8) -> bool {
    0x30 <= c && c <= 0x39
}

pub open spec fn all_digits(d: Seq<u8>) -> bool {
    forall|i: int| 0 <= i < d.len() ==> is_digit(#[trigger] d[i])
}

/// The number that a sequence of decimal digits writes.
pub open spec fn digits_value(d: Seq<u8>) -> nat
    decreases d.len(),
{
    if d.len() == 0 {
        0
    } else {
        digits_value(d.drop_last()) * 10 + (d.last() - 0x30) as nat
    }
}

/// The digits of a field: one leading `+` is dropped, as unsigned
/// radix-10 parsing does.
pub open spec fn unsigned_digits(f: Seq<u8>) -> Seq<u8> {
    if f.len() > 0 && f[0] == PLUS {
        f.drop_first()
    } else {
        f
    }
}

/// A field that unsigned radix-10 parsing into a `u8` accepts: an optional `+`,
/// then at least one decimal digit, with a value of at most 255.
pub open spec fn valid_octet(f: Seq<u8>) -> bool {
    let d = unsigned_digits(f);
    &&& d.len() > 0
    &&& all_digits(d)
    &&& digits_value(d) <= 255
}

pub open spec fn octet_value(f: Seq<u8>) -> u8 {
    digits_value(unsigned_digits(f)) as u8
}

/// An address text that `parse_ip` accepts: at most four fields, each a valid octet.
pub open spec fn valid_ip_text(b: Seq<u8>) -> bool {
    let fs = split_dots(b);
    &&& fs.len() <= 4
    &&& forall|i: int| 0 <= i < fs.len() ==> valid_octet(#[trigger] fs[i])
}

/// The four octets of an address text; fields that the text lacks are 0.
pub open spec fn ip_octets(b: Seq<u8>) -> Seq<u8> {
    let fs = split_dots(b);
    Seq::new(4, |i: int| if i < fs.len() { octet_value(fs[i]) } else { 0u8 })
}

pub proof fn lemma_split_nonempty(b: Seq<u8>)
    ensures
        split_dots(b).len() >= 1,
    decreases b.len(),
{
    if b.len() > 0 {
        lemma_split_nonempty(b.drop_last());
    }
}

proof fn lemma_split_step(b: Seq<u8>, n: int)
    requires
        0 <= n < b.len(),
    ensures
        split_dots(b.take(n + 1)) == (if b[n] == DOT {
            split_dots(b.take(n)).push(Seq::<u8>::empty())
        } else {
            split_dots(b.take(n)).update(
                split_dots(b.take(n)).len() - 1,
                split_dots(b.take(n)).last().push(b[n]),
            )
        }),
{
    assert(b.take(n + 1).drop_last() =~= b.take(n));
}

/// The fields of a prefix of `b`: all but the last are fields of `b`, and the
/// last is a prefix of the field of `b` at the same place.
pub proof fn lemma_split_take(b: Seq<u8>, n: int)
    requires
        0 <= n <= b.len(),
    ensures
        1 <= split_dots(b.take(n)).len() <= split_dots(b).len(),
        forall|k: int|
            0 <= k < split_dots(b.take(n)).len() - 1 ==> #[trigger] split_dots(b.take(n))[k]
                == split_dots(b)[k],
        split_dots(b.take(n)).last().len() <= split_dots(b)[split_dots(b.take(n)).len()
            - 1].len(),
        split_dots(b)[split_dots(b.take(n)).len() - 1].take(
            split_dots(b.take(n)).last().len() as int,
        ) == split_dots(b.take(n)).last(),
    decreases b.len() - n,
{
    lemma_split_nonempty(b.take(n));
    if n == b.len() {
        assert(b.take(n) =~= b);
        assert(split_dots(b)[split_dots(b).len() - 1].take(split_dots(b).last().len() as int)
            =~= split_dots(b).last());
    } else {
        lemma_split_take(b, n + 1);
        lemma_split_step(b, n);
        let p = split_dots(b.take(n));
        let q = split_dots(b.take(n + 1));
        let f = split_dots(b);
        if b[n] == DOT {
            assert(q.len() == p.len() + 1);
            assert forall|k: int| 0 <= k < p.len() - 1 implies #[trigger] p[k] == f[k] by {
                assert(q[k] == p[k]);
            }
            assert(q[p.len() - 1] == p.last());
            assert(f[p.len() - 1] == p.last());
            assert(f[p.len() - 1].take(p.last().len() as int) =~= p.last());
        } else {
            assert(q.len() == p.len());
            assert(q.last() == p.last().push(b[n]));
            assert forall|k: int| 0 <= k < p.len() - 1 implies #[trigger] p[k] == f[k] by {
                assert(q[k] == p[k]);
            }
            assert(f[p.len() - 1].take(q.last().len() as int) == q.last());
            assert(f[p.len() - 1].take(p.last().len() as int) =~= q.last().take(
                p.last().len() as int,
            ));
            assert(q.last().take(p.last().len() as int) =~= p.last());
        }
    }
}

pub open spec fn has_no_dot(a: Seq<u8>) -> bool {
    forall|i: int| 0 <= i < a.len() ==> #[trigger] a[i] != DOT
}

/// A text without `.` is a single field.
pub proof fn lemma_split_no_dot(a: Seq<u8>)
    requires
        has_no_dot(a),
    ensures
        split_dots(a) == seq![a],
    decreases a.len(),
{
    if a.len() == 0 {
        assert(a =~= Seq::<u8>::empty());
    } else {
        lemma_split_no_dot(a.drop_last());
        assert(a.drop_last().push(a.last()) =~= a);
        assert(seq![a.drop_last()].update(0, a.drop_last().push(a.last())) =~= seq![a]);
    }
}

/// The fields of `a . c` are the fields of `a` followed by those of `c`.
pub proof fn lemma_split_join(a: Seq<u8>, c: Seq<u8>)
    ensures
        split_dots(a.push(DOT) + c) == split_dots(a) + split_dots(c),
    decreases c.len(),
{
    let x = a.push(DOT) + c;
    lemma_split_nonempty(a);
    lemma_split_nonempty(c);
    if c.len() == 0 {
        assert(x =~= a.push(DOT));
        assert(x.drop_last() =~= a);
        assert(split_dots(a).push(Seq::<u8>::empty()) =~= split_dots(a) + split_dots(c));
    } else {
        lemma_split_join(a, c.drop_last());
        assert(x.drop_last() =~= a.push(DOT) + c.drop_last());
        assert(x.last() == c.last());
        lemma_split_nonempty(c.drop_last());
        let sa = split_dots(a);
        let sc = split_dots(c.drop_last());
        if c.last() == DOT {
            assert((sa + sc).push(Seq::<u8>::empty()) =~= sa + sc.push(Seq::<u8>::empty()));
        } else {
            assert((sa + sc).update((sa + sc).len() - 1, (sa + sc).last().push(c.last())) =~= sa
                + sc.update(sc.len() - 1, sc.last().push(c.last())));
        }
    }
}

/// The value of a prefix of a digit sequence is at most the value of the whole.
pub proof fn lemma_digits_prefix_le(d: Seq<u8>, k: int)
    requires
        0 <= k <= d.len(),
        all_digits(d),
    ensures
        digits_value(d.take(k)) <= digits_value(d),
    decreases d.len() - k,
{
    if k == d.len() {
        assert(d.take(k) =~= d);
    } else {
        lemma_digits_prefix_le(d, k + 1);
        assert(d.take(k + 1).drop_last() =~= d.take(k));
        assert(is_digit(d[k]));
    }
}

/// The decimal digits of `n`, without leading zeros.
pub open spec fn decimal(n: nat) -> Seq<u8>
    decreases n,
{
    if n < 10 {
        seq![(0x30 + n) as u8]
    } else {
        decimal(n / 10).push((0x30 + n % 10) as u8)
    }
}

/// The dotted-decimal text of four octets, such as `192.168.2.1`.
pub open spec fn dotted_quad(octets: Seq<u8>) -> Seq<u8> {
    decimal(octets[0] as nat).push(DOT) + (decimal(octets[1] as nat).push(DOT) + (decimal(
        octets[2] as nat,
    ).push(DOT) + decimal(octets[3] as nat)))
}

pub proof fn lemma_decimal(n: nat)
    ensures
        decimal(n).len() > 0,
        all_digits(decimal(n)),
        has_no_dot(decimal(n)),
        digits_value(decimal(n)) == n,
    decreases n,
{
    if n < 10 {
        assert(decimal(n).drop_last() =~= Seq::<u8>::empty());
        assert(decimal(n).last() == 0x30 + n);
        assert(digits_value(decimal(n)) == digits_value(decimal(n).drop_last()) * 10 + (
        decimal(n).last() - 0x30) as nat);
    } else {
        lemma_decimal(n / 10);
        assert(decimal(n).drop_last() =~= decimal(n / 10));
        assert(n == (n / 10) * 10 + n % 10);
        assert(decimal(n).last() == 0x30 + n % 10);
        assert(digits_value(decimal(n)) == digits_value(decimal(n).drop_last()) * 10 + (
        decimal(n).last() - 0x30) as nat);
    }
}

proof fn lemma_decimal_octet(n: u8)
    ensures
        valid_octet(decimal(n as nat)),
        octet_value(decimal(n as nat)) == n,
        has_no_dot(decimal(n as nat)),
{
    lemma_decimal(n as nat);
    let d = decimal(n as nat);
    assert(is_digit(d[0]));
    assert(unsigned_digits(d) == d);
}

/// `parse_ip` reads back every address written in dotted decimal: the text
/// of four octets is accepted and gives those four octets.
pub proof fn lemma_dotted_quad_round_trip(octets: Seq<u8>)
    requires
        octets.len() == 4,
    ensures
        valid_ip_text(dotted_quad(octets)),
        ip_octets(dotted_quad(octets)) == octets,
{
    let d0 = decimal(octets[0] as nat);
    let d1 = decimal(octets[1] as nat);
    let d2 = decimal(octets[2] as nat);
    let d3 = decimal(octets[3] as nat);
    lemma_decimal_octet(octets[0]);
    lemma_decimal_octet(octets[1]);
    lemma_decimal_octet(octets[2]);
    lemma_decimal_octet(octets[3]);
    lemma_split_no_dot(d0);
    lemma_split_no_dot(d1);
    lemma_split_no_dot(d2);
    lemma_split_no_dot(d3);
    lemma_split_join(d2, d3);
    lemma_split_join(d1, d2.push(DOT) + d3);
    lemma_split_join(d0, d1.push(DOT) + (d2.push(DOT) + d3));
    let f = split_dots(dotted_quad(octets));
    assert(f =~= seq![d0, d1, d2, d3]);
    assert(ip_octets(dotted_quad(octets)) =~= octets);
}

/// Parses the field `b[start..end]`, which must be a valid octet.
pub fn parse_octet(b: &[u8], start: usize, end: usize) -> (r: u8)
    requires
        start <= end <= b@.len(),
        valid_octet(b@.subrange(start as int, end as int)),
    ensures
        r == octet_value(b@.subrange(start as int, end as int)),
{
    let ghost f = b@.subrange(start as int, end as int);
    let mut j: usize = start;
    if start < end && b[start] == PLUS {
        j = start + 1;
    }
    let ghost d = unsigned_digits(f);
    assert(d =~= b@.subrange(j as int, end as int));
    let mut v: u16 = 0;
    let mut k: usize = j;
    while k < end
        invariant
            start <= j <= k <= end <= b@.len(),
            d == b@.subrange(j as int, end as int),
            all_digits(d),
            digits_value(d) <= 255,
            v as nat == digits_value(d.take(k - j)),
        decreases end - k,
    {
        proof {
            lemma_digits_prefix_le(d, k - j + 1);
            assert(d.take(k - j + 1).drop_last() =~= d.take(k - j));
            assert(d[k - j] == b@[k as int]);
            assert(is_digit(d[k - j]));
        }
        v = v * 10 + (b[k] - 0x30) as u16;
        k = k + 1;
    }
    assert(d.take(k - j) =~= d);
    v as u8
}

} // verus!
