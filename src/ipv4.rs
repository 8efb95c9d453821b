use vstd::prelude::*;
use vstd::string::StrSliceExecFns;

verus! {

/// An IPv4 address, held as its four octets from the most significant one.
#[derive(Clone, Copy, Debug, PartialEq, Eq, Structural, Hash)]
pub struct Ipv4 {
    pub a: u8,
    pub b: u8,
    pub c: u8,
    pub d: u8,
}

/// The character of a decimal digit.
pub open spec fn digit_char(d: nat) -> char {
    if d == 0 {
        '0'
    } else if d == 1 {
        '1'
    } else if d == 2 {
        '2'
    } else if d == 3 {
        '3'
    } else if d == 4 {
        '4'
    } else if d == 5 {
        '5'
    } else if d == 6 {
        '6'
    } else if d == 7 {
        '7'
    } else if d == 8 {
        '8'
    } else {
        '9'
    }
}

pub open spec fn is_digit_char(c: char) -> bool {
    '0' <= c && c <= '9'
}

/// Decimal text of a natural number, without leading zeros.
pub open spec fn decimal(n: nat) -> Seq<char>
    decreases n,
{
    if n < 10 {
        seq![digit_char(n)]
    } else {
        decimal(n / 10).push(digit_char(n % 10))
    }
}

/// Two texts joined by a dot.
pub open spec fn dot_join(p: Seq<char>, r: Seq<char>) -> Seq<char> {
    p + seq!['.'] + r
}

/// Dotted-decimal text of an address, as in `192.168.0.1`.
pub open spec fn ipv4_text(ip: Ipv4) -> Seq<char> {
    dot_join(
        decimal(ip.a as nat),
        dot_join(decimal(ip.b as nat), dot_join(decimal(ip.c as nat), decimal(ip.d as nat))),
    )
}

pub open spec fn has_no_dot(s: Seq<char>) -> bool {
    forall|i: int| 0 <= i < s.len() ==> #[trigger] s[i] != '.'
}

pub proof fn lemma_decimal_digits(n: nat)
    ensures
        decimal(n).len() >= 1,
        n < 10 <==> decimal(n).len() == 1,
        forall|i: int| 0 <= i < decimal(n).len() ==> is_digit_char(#[trigger] decimal(n)[i]),
    decreases n,
{
    if n >= 10 {
        lemma_decimal_digits(n / 10);
    }
}

/// Different numbers have different decimal texts.
pub proof fn lemma_decimal_injective(x: nat, y: nat)
    requires
        decimal(x) == decimal(y),
    ensures
        x == y,
    decreases x,
{
    lemma_decimal_digits(x);
    lemma_decimal_digits(y);
    if x >= 10 && y >= 10 {
        let dx = decimal(x);
        let dy = decimal(y);
        assert(dx.last() == digit_char(x % 10));
        assert(dy.last() == digit_char(y % 10));
        assert(decimal(x / 10) =~= dx.drop_last());
        assert(decimal(y / 10) =~= dy.drop_last());
        lemma_decimal_injective(x / 10, y / 10);
        assert(x % 10 == y % 10);
    } else if x < 10 && y < 10 {
        assert(decimal(x)[0] == digit_char(x));
        assert(decimal(y)[0] == digit_char(y));
    }
}

/// A separator that occurs in neither prefix splits two equal texts at the same place.
pub proof fn lemma_split_at_separator(p1: Seq<char>, r1: Seq<char>, p2: Seq<char>, r2: Seq<char>)
    requires
        dot_join(p1, r1) == dot_join(p2, r2),
        has_no_dot(p1),
        has_no_dot(p2),
    ensures
        p1 == p2,
        r1 == r2,
{
    let s1 = dot_join(p1, r1);
    let s2 = dot_join(p2, r2);
    if p1.len() < p2.len() {
        assert(s1[p1.len() as int] == '.');
        assert(s2[p1.len() as int] == p2[p1.len() as int]);
    } else if p2.len() < p1.len() {
        assert(s2[p2.len() as int] == '.');
        assert(s1[p2.len() as int] == p1[p2.len() as int]);
    }
    assert(p1 =~= s1.subrange(0, p1.len() as int));
    assert(p2 =~= s2.subrange(0, p2.len() as int));
    assert(r1 =~= s1.subrange(p1.len() as int + 1, s1.len() as int));
    assert(r2 =~= s2.subrange(p2.len() as int + 1, s2.len() as int));
}

proof fn lemma_decimal_no_dot(n: nat)
    ensures
        has_no_dot(decimal(n)),
{
    lemma_decimal_digits(n);
    assert forall|i: int| 0 <= i < decimal(n).len() implies #[trigger] decimal(n)[i] != '.' by {
        assert(is_digit_char(decimal(n)[i]));
    }
}

/// Different addresses have different dotted-decimal texts.
pub proof fn lemma_ipv4_text_injective(x: Ipv4, y: Ipv4)
    requires
        ipv4_text(x) == ipv4_text(y),
    ensures
        x == y,
{
    let (xa, xb, xc, xd) = (decimal(x.a as nat), decimal(x.b as nat), decimal(x.c as nat), decimal(x.d as nat));
    let (ya, yb, yc, yd) = (decimal(y.a as nat), decimal(y.b as nat), decimal(y.c as nat), decimal(y.d as nat));
    lemma_decimal_no_dot(x.a as nat);
    lemma_decimal_no_dot(y.a as nat);
    lemma_decimal_no_dot(x.b as nat);
    lemma_decimal_no_dot(y.b as nat);
    lemma_decimal_no_dot(x.c as nat);
    lemma_decimal_no_dot(y.c as nat);
    lemma_split_at_separator(xa, dot_join(xb, dot_join(xc, xd)), ya, dot_join(yb, dot_join(yc, yd)));
    lemma_split_at_separator(xb, dot_join(xc, xd), yb, dot_join(yc, yd));
    lemma_split_at_separator(xc, xd, yc, yd);
    lemma_decimal_injective(x.a as nat, y.a as nat);
    lemma_decimal_injective(x.b as nat, y.b as nat);
    lemma_decimal_injective(x.c as nat, y.c as nat);
    lemma_decimal_injective(x.d as nat, y.d as nat);
}

fn digit_text(d: u8) -> (r: &'static str)
    requires
        d < 10,
    ensures
        r@ == seq![digit_char(d as nat)],
{
    if d == 0 {
        proof { reveal_strlit("0"); }
        "0"
    } else if d == 1 {
        proof { reveal_strlit("1"); }
        "1"
    } else if d == 2 {
        proof { reveal_strlit("2"); }
        "2"
    } else if d == 3 {
        proof { reveal_strlit("3"); }
        "3"
    } else if d == 4 {
        proof { reveal_strlit("4"); }
        "4"
    } else if d == 5 {
        proof { reveal_strlit("5"); }
        "5"
    } else if d == 6 {
        proof { reveal_strlit("6"); }
        "6"
    } else if d == 7 {
        proof { reveal_strlit("7"); }
        "7"
    } else if d == 8 {
        proof { reveal_strlit("8"); }
        "8"
    } else {
        proof { reveal_strlit("9"); }
        "9"
    }
}

/// Appends the decimal text of `n` to `s`.
fn append_decimal(s: &mut String, n: u8)
    ensures
        final(s)@ == old(s)@ + decimal(n as nat),
{
    let ghost start = s@;
    if n >= 100 {
        s.append(digit_text(n / 100));
    }
    if n >= 10 {
        s.append(digit_text((n / 10) % 10));
    }
    s.append(digit_text(n % 10));
    proof {
        let n = n as nat;
        if n >= 100 {
            assert((n / 10) / 10 == n / 100);
            assert(decimal(n / 100) == seq![digit_char(n / 100)]);
            assert(decimal(n / 10) =~= seq![digit_char(n / 100)].push(digit_char((n / 10) % 10)));
        } else if n >= 10 {
            assert(decimal(n / 10) == seq![digit_char(n / 10)]);
            assert((n / 10) % 10 == n / 10);
        }
        assert(s@ =~= start + decimal(n));
    }
}

impl Ipv4 {
    pub fn new(a: u8, b: u8, c: u8, d: u8) -> (r: Ipv4)
        ensures
            r == (Ipv4 { a, b, c, d }),
    {
        Ipv4 { a, b, c, d }
    }

    /// Dotted-decimal text of the address.
    pub fn to_text(&self) -> (r: String)
        ensures
            r@ == ipv4_text(*self),
    {
        let mut s = String::new();
        append_decimal(&mut s, self.a);
        s.append(".");
        append_decimal(&mut s, self.b);
        s.append(".");
        append_decimal(&mut s, self.c);
        s.append(".");
        append_decimal(&mut s, self.d);
        proof {
            reveal_strlit(".");
            assert(s@ =~= ipv4_text(*self));
        }
        s
    }
}

/// The number that a text of decimal digits denotes.
pub open spec fn digits_value(s: Seq<char>) -> int
    decreases s.len(),
{
    if s.len() == 0 {
        0
    } else {
        digits_value(s.drop_last()) * 10 + (s.last() as int - 48)
    }
}

proof fn lemma_digit_char_value(d: nat)
    requires
        d < 10,
    ensures
        digit_char(d) as int == 48 + d,
{
}

proof fn lemma_digits_value_of_decimal(n: nat)
    ensures
        digits_value(decimal(n)) == n,
        n < 10 ==> decimal(n).len() == 1,
        n < 100 ==> decimal(n).len() <= 2,
        n < 1000 ==> decimal(n).len() <= 3,
        n < 10000 ==> decimal(n).len() <= 4,
        n < 100000 ==> decimal(n).len() <= 5,
    decreases n,
{
    lemma_digit_char_value(n % 10);
    if n >= 10 {
        lemma_digits_value_of_decimal(n / 10);
        assert(decimal(n) == decimal(n / 10).push(digit_char(n % 10)));
        assert(decimal(n).drop_last() =~= decimal(n / 10));
        assert(decimal(n).last() == digit_char(n % 10));
        assert(digits_value(decimal(n)) == digits_value(decimal(n / 10)) * 10 + (n % 10));
        assert((n / 10) * 10 + n % 10 == n);
    } else {
        assert(decimal(n).drop_last() =~= Seq::<char>::empty());
        assert(decimal(n).last() == digit_char(n));
        assert(digits_value(decimal(n)) == digits_value(Seq::<char>::empty()) * 10 + (n % 10));
    }
}

/// Appends the decimal text of `n` to `s`.
fn append_decimal_u32(s: &mut String, n: u32)
    ensures
        final(s)@ == old(s)@ + decimal(n as nat),
    decreases n,
{
    let ghost start = s@;
    if n >= 10 {
        append_decimal_u32(s, n / 10);
    }
    s.append(digit_text((n % 10) as u8));
    proof {
        if n >= 10 {
            assert(s@ =~= start + decimal(n as nat));
        } else {
            assert(s@ =~= start + decimal(n as nat));
        }
    }
}

/// Reads the decimal text of a number no larger than `max`: the number whose text,
/// without leading zeros, is exactly `t`.
pub fn parse_decimal(t: &str, max: u32) -> (r: Option<u32>)
    requires
        max < 100000,
    ensures
        r matches Some(n) ==> n <= max && decimal(n as nat) == t@,
        r is None ==> forall|n: nat| n <= max ==> decimal(n) != t@,
{
    let len = t.unicode_len();
    if len == 0 || len > 5 {
        proof {
            assert forall|n: nat| n <= max implies decimal(n) != t@ by {
                lemma_digits_value_of_decimal(n);
                lemma_decimal_digits(n);
            }
        }
        return None;
    }
    let mut value: u32 = 0;
    let mut i: usize = 0;
    while i < len
        invariant
            len == t@.len(),
            1 <= len <= 5,
            i <= len,
            value as int == digits_value(t@.subrange(0, i as int)),
            i == 0 ==> value == 0,
            value < 100000,
            i <= 1 ==> value < 10,
            i <= 2 ==> value < 100,
            i <= 3 ==> value < 1000,
            i <= 4 ==> value < 10000,
            forall|j: int| 0 <= j < i ==> is_digit_char(#[trigger] t@[j]),
        decreases len - i,
    {
        let c = t.get_char(i);
        if c < '0' || c > '9' {
            proof {
                assert forall|n: nat| n <= max implies decimal(n) != t@ by {
                    lemma_decimal_digits(n);
                    if decimal(n) == t@ {
                        assert(is_digit_char(decimal(n)[i as int]));
                    }
                }
            }
            return None;
        }
        proof {
            assert(t@.subrange(0, i + 1).drop_last() =~= t@.subrange(0, i as int));
            assert(t@.subrange(0, i + 1).last() == c);
        }
        value = value * 10 + (c as u32 - 48);
        i += 1;
    }
    assert(t@.subrange(0, len as int) =~= t@);
    if value > max {
        proof {
            assert forall|n: nat| n <= max implies decimal(n) != t@ by {
                lemma_digits_value_of_decimal(n);
            }
        }
        return None;
    }
    let mut text = String::new();
    append_decimal_u32(&mut text, value);
    let same = text == String::from_str(t);
    if same {
        Some(value)
    } else {
        proof {
            assert forall|n: nat| n <= max implies decimal(n) != t@ by {
                lemma_digits_value_of_decimal(n);
                assert(text@ =~= decimal(value as nat));
            }
        }
        None
    }
}

/// Splits `s` at its first dot.
fn split_at_dot(s: &str) -> (r: Option<(&str, &str)>)
    ensures
        r matches Some((h, t)) ==> s@ == dot_join(h@, t@) && has_no_dot(h@),
        r is None ==> has_no_dot(s@),
{
    let len = s.unicode_len();
    let mut i: usize = 0;
    while i < len
        invariant
            len == s@.len(),
            i <= len,
            forall|j: int| 0 <= j < i ==> #[trigger] s@[j] != '.',
        decreases len - i,
    {
        if s.get_char(i) == '.' {
            let h = s.substring_char(0, i);
            let t = s.substring_char(i + 1, len);
            assert(s@ =~= dot_join(h@, t@));
            return Some((h, t));
        }
        i += 1;
    }
    None
}

proof fn lemma_dot_join_has_dot(p: Seq<char>, r: Seq<char>)
    ensures
        !has_no_dot(dot_join(p, r)),
{
    assert(dot_join(p, r)[p.len() as int] == '.');
}

/// Reads dotted-decimal text: the address whose text is exactly `s`, if there is one.
pub fn parse_ipv4(s: &str) -> (r: Option<Ipv4>)
    ensures
        r matches Some(ip) ==> ipv4_text(ip) == s@,
        r is None ==> forall|ip: Ipv4| ipv4_text(ip) != s@,
{
    let (h1, t1) = match split_at_dot(s) {
        Some(p) => p,
        None => {
            proof {
                assert forall|ip: Ipv4| ipv4_text(ip) != s@ by {
                    lemma_dot_join_has_dot(decimal(ip.a as nat), dot_join(decimal(ip.b as nat), dot_join(decimal(ip.c as nat), decimal(ip.d as nat))));
                }
            }
            return None;
        },
    };
    let (h2, t2) = match split_at_dot(t1) {
        Some(p) => p,
        None => {
            proof {
                assert forall|ip: Ipv4| ipv4_text(ip) != s@ by {
                    if ipv4_text(ip) == s@ {
                        lemma_decimal_no_dot(ip.a as nat);
                        lemma_split_at_separator(h1@, t1@, decimal(ip.a as nat), dot_join(decimal(ip.b as nat), dot_join(decimal(ip.c as nat), decimal(ip.d as nat))));
                        lemma_dot_join_has_dot(decimal(ip.b as nat), dot_join(decimal(ip.c as nat), decimal(ip.d as nat)));
                    }
                }
            }
            return None;
        },
    };
    let (h3, t3) = match split_at_dot(t2) {
        Some(p) => p,
        None => {
            proof {
                assert forall|ip: Ipv4| ipv4_text(ip) != s@ by {
                    if ipv4_text(ip) == s@ {
                        lemma_decimal_no_dot(ip.a as nat);
                        lemma_decimal_no_dot(ip.b as nat);
                        lemma_split_at_separator(h1@, t1@, decimal(ip.a as nat), dot_join(decimal(ip.b as nat), dot_join(decimal(ip.c as nat), decimal(ip.d as nat))));
                        lemma_split_at_separator(h2@, t2@, decimal(ip.b as nat), dot_join(decimal(ip.c as nat), decimal(ip.d as nat)));
                        lemma_dot_join_has_dot(decimal(ip.c as nat), decimal(ip.d as nat));
                    }
                }
            }
            return None;
        },
    };
    let a = parse_decimal(h1, 255);
    let b = parse_decimal(h2, 255);
    let c = parse_decimal(h3, 255);
    let d = parse_decimal(t3, 255);
    proof {
        assert forall|ip: Ipv4| ipv4_text(ip) == s@ implies decimal(ip.a as nat) == h1@ && decimal(ip.b as nat) == h2@ && decimal(ip.c as nat) == h3@ && decimal(ip.d as nat) == t3@ by {
            lemma_decimal_no_dot(ip.a as nat);
            lemma_decimal_no_dot(ip.b as nat);
            lemma_decimal_no_dot(ip.c as nat);
            lemma_split_at_separator(h1@, t1@, decimal(ip.a as nat), dot_join(decimal(ip.b as nat), dot_join(decimal(ip.c as nat), decimal(ip.d as nat))));
            lemma_split_at_separator(h2@, t2@, decimal(ip.b as nat), dot_join(decimal(ip.c as nat), decimal(ip.d as nat)));
            lemma_split_at_separator(h3@, t3@, decimal(ip.c as nat), decimal(ip.d as nat));
        }
    }
    match (a, b, c, d) {
        (Some(a), Some(b), Some(c), Some(d)) => Some(Ipv4 { a: a as u8, b: b as u8, c: c as u8, d: d as u8 }),
        _ => None,
    }
}

} // verus!
