use vstd::prelude::*;

verus! {

/// A document identifier: a 96-bit value, written as 24 hexadecimal
/// characters in its text form. The server assigns identifiers; a client
/// only ever supplies one in text form, to be parsed by [`parse_object_id`].
#[derive(Clone, Copy, PartialEq, Eq, Structural, Debug)]
pub struct UserId {
    pub value: u128,
}

impl UserId {
    /// An identifier is well formed when it fits in 96 bits, the width of
    /// its 24-character hexadecimal text form.
    pub open spec fn wf(self) -> bool {
        self.value < 0x1000000000000000000000000
    }

    /// The canonical text form of this identifier: 24 lowercase hexadecimal
    /// characters whose digits denote its value. Parsing the result gives
    /// the identifier back.
    pub fn to_hex(&self) -> (r: String)
        requires
            self.wf(),
        ensures
            is_object_id_str(r@),
            hex_value(r@) == self.value as nat,
            forall|i: int|
                0 <= i < r@.len() ==> !('A' as int <= #[trigger] r@[i] as int <= 'F' as int),
    {
        let mut digits: Vec<u8> = Vec::new();
        let mut acc: u128 = self.value;
        let mut k: usize = 0;
        proof {
            assert(pow16(0) == 1);
            assert(digits_value_from(digits@, 0) == 0);
        }
        while k < 24
            invariant
                0 <= k <= 24,
                digits@.len() == k,
                forall|j: int| 0 <= j < k ==> (#[trigger] digits@[j]) < 16,
                self.value as nat == acc as nat * pow16(k as nat) + digits_value_from(digits@, 0),
            decreases 24 - k,
        {
            let d = (acc % 16) as u8;
            proof {
                lemma_digits_push(digits@, d, 0);
                let a2 = acc as nat / 16;
                let pk = pow16(k as nat);
                assert(acc as nat == 16 * a2 + d);
                assert(pow16((k + 1) as nat) == 16 * pk);
                assert((16 * a2 + d as nat) * pk == a2 * (16 * pk) + d as nat * pk)
                    by (nonlinear_arith);
            }
            digits.push(d);
            acc = acc / 16;
            k += 1;
        }
        proof {
            lemma_pow16_24();
            let av = acc as nat;
            let p = pow16(24);
            let dv = digits_value_from(digits@, 0);
            assert(av == 0) by (nonlinear_arith)
                requires
                    self.value as nat == av * p + dv,
                    self.value < p,
                    p > 0,
            {}
            assert(digits_value_from(digits@, 0) == self.value as nat);
        }
        let mut out = String::from_str("");
        let mut j: usize = 24;
        proof {
            reveal_strlit("");
        }
        while j > 0
            invariant
                0 <= j <= 24,
                digits@.len() == 24,
                forall|i: int| 0 <= i < 24 ==> (#[trigger] digits@[i]) < 16,
                digits_value_from(digits@, 0) == self.value as nat,
                out@.len() == 24 - j,
                hex_value(out@) == digits_value_from(digits@, j as int),
                forall|i: int| 0 <= i < out@.len() ==> is_hex_digit(#[trigger] out@[i]),
                forall|i: int|
                    0 <= i < out@.len() ==> !('A' as int <= #[trigger] out@[i] as int <= 'F' as int),
            decreases j,
        {
            j -= 1;
            let s = hex_str_of(digits[j]);
            let ghost prev = out@;
            out.append(s);
            proof {
                assert(out@ =~= prev.push(s@[0]));
                assert(out@.drop_last() =~= prev);
                assert(out@.last() == s@[0]);
                assert(hex_value(out@) == hex_value(out@.drop_last()) * 16 + hex_digit_value(
                    out@.last(),
                ));
            }
        }
        out
    }
}

/// The value of the digits of `ds` from position `k` on, least significant
/// digit first.
spec fn digits_value_from(ds: Seq<u8>, k: int) -> nat
    decreases ds.len() - k,
{
    if k < 0 || k >= ds.len() {
        0
    } else {
        (ds[k] + 16 * digits_value_from(ds, k + 1)) as nat
    }
}

proof fn lemma_digits_push(ds: Seq<u8>, d: u8, k: int)
    requires
        0 <= k <= ds.len(),
    ensures
        digits_value_from(ds.push(d), k) == digits_value_from(ds, k) + d * pow16(
            (ds.len() - k) as nat,
        ),
    decreases ds.len() - k,
{
    if k == ds.len() {
        assert(ds.push(d)[k] == d);
        assert(digits_value_from(ds.push(d), k + 1) == 0);
    } else {
        lemma_digits_push(ds, d, k + 1);
        assert(ds.push(d)[k] == ds[k]);
        let p = pow16((ds.len() - k - 1) as nat);
        assert(pow16((ds.len() - k) as nat) == 16 * p);
        assert(d * (16 * p) == 16 * (d * p)) by (nonlinear_arith);
    }
}

/// The lowercase hexadecimal character string for one digit value.
fn hex_str_of(d: u8) -> (r: &'static str)
    requires
        d < 16,
    ensures
        r@.len() == 1,
        is_hex_digit(r@[0]),
        hex_digit_value(r@[0]) == d as nat,
        !('A' as int <= r@[0] as int <= 'F' as int),
{
    let s = match d {
        0 => "0",
        1 => "1",
        2 => "2",
        3 => "3",
        4 => "4",
        5 => "5",
        6 => "6",
        7 => "7",
        8 => "8",
        9 => "9",
        10 => "a",
        11 => "b",
        12 => "c",
        13 => "d",
        14 => "e",
        _ => "f",
    };
    proof {
        reveal_strlit("0");
        reveal_strlit("1");
        reveal_strlit("2");
        reveal_strlit("3");
        reveal_strlit("4");
        reveal_strlit("5");
        reveal_strlit("6");
        reveal_strlit("7");
        reveal_strlit("8");
        reveal_strlit("9");
        reveal_strlit("a");
        reveal_strlit("b");
        reveal_strlit("c");
        reveal_strlit("d");
        reveal_strlit("e");
        reveal_strlit("f");
    }
    s
}

/// The user resource. `id` is absent until the store has persisted the
/// document; a client-supplied value is discarded before any insert.
pub struct User {
    pub id: Option<UserId>,
    pub name: String,
    pub email: String,
    pub age: i32,
}

/// Whether `c` is a hexadecimal digit, in either case.
pub open spec fn is_hex_digit(c: char) -> bool {
    ||| '0' as int <= c as int <= '9' as int
    ||| 'a' as int <= c as int <= 'f' as int
    ||| 'A' as int <= c as int <= 'F' as int
}

/// The numeric value of one hexadecimal digit.
pub open spec fn hex_digit_value(c: char) -> nat {
    if '0' as int <= c as int <= '9' as int {
        (c as int - '0' as int) as nat
    } else if 'a' as int <= c as int <= 'f' as int {
        (c as int - 'a' as int + 10) as nat
    } else {
        (c as int - 'A' as int + 10) as nat
    }
}

/// The numeric value of a big-endian string of hexadecimal digits.
pub open spec fn hex_value(s: Seq<char>) -> nat
    decreases s.len(),
{
    if s.len() == 0 {
        0
    } else {
        hex_value(s.drop_last()) * 16 + hex_digit_value(s.last())
    }
}

/// The text shape of a document identifier: exactly 24 hexadecimal digits.
pub open spec fn is_object_id_str(s: Seq<char>) -> bool {
    s.len() == 24 && (forall|i: int| 0 <= i < s.len() ==> is_hex_digit(#[trigger] s[i]))
}

/// 16 to the power `n`.
pub open spec fn pow16(n: nat) -> nat
    decreases n,
{
    if n == 0 {
        1
    } else {
        16 * pow16((n - 1) as nat)
    }
}

proof fn lemma_pow16_le(a: nat, b: nat)
    requires
        a <= b,
    ensures
        pow16(a) <= pow16(b),
    decreases b,
{
    if a < b {
        lemma_pow16_le(a, (b - 1) as nat);
        assert(pow16(b) == 16 * pow16((b - 1) as nat));
    }
}

proof fn lemma_pow16_24()
    ensures
        pow16(24) == 0x1000000000000000000000000,
{
    reveal_with_fuel(pow16, 25);
}

/// The value of one hexadecimal character, or `None` when it is not one.
fn hex_digit_of(c: char) -> (r: Option<u8>)
    ensures
        r is Some <==> is_hex_digit(c),
        r is Some ==> r->0 == hex_digit_value(c),
{
    let v = c as u32;
    if 48 <= v && v <= 57 {
        Some((v - 48) as u8)
    } else if 97 <= v && v <= 102 {
        Some((v - 87) as u8)
    } else if 65 <= v && v <= 70 {
        Some((v - 55) as u8)
    } else {
        None
    }
}

/// Parses the text form of a document identifier. Returns `Some` exactly
/// when the text is 24 hexadecimal characters, and then carries the value
/// those digits denote.
pub fn parse_object_id(s: &str) -> (r: Option<UserId>)
    ensures
        r is Some <==> is_object_id_str(s@),
        r is Some ==> r->0.value == hex_value(s@) && r->0.wf(),
{
    let n = s.unicode_len();
    if n != 24 {
        return None;
    }
    let mut acc: u128 = 0;
    let mut i: usize = 0;
    while i < 24
        invariant
            0 <= i <= 24,
            s@.len() == 24,
            forall|j: int| 0 <= j < i ==> is_hex_digit(#[trigger] s@[j]),
            acc == hex_value(s@.subrange(0, i as int)),
            acc < pow16(i as nat),
        decreases 24 - i,
    {
        let c = s.get_char(i);
        match hex_digit_of(c) {
            None => {
                return None;
            },
            Some(v) => {
                proof {
                    lemma_pow16_le(i as nat, 23);
                    lemma_pow16_le(23, 24);
                    lemma_pow16_24();
                    assert(pow16((i + 1) as nat) == 16 * pow16(i as nat));
                    let pre = s@.subrange(0, i as int);
                    let ext = s@.subrange(0, i + 1);
                    assert(ext.drop_last() =~= pre);
                    assert(ext.last() == s@[i as int]);
                }
                acc = acc * 16 + (v as u128);
            },
        }
        i += 1;
    }
    proof {
        assert(s@.subrange(0, 24) =~= s@);
        lemma_pow16_24();
    }
    Some(UserId { value: acc })
}

} // verus!
