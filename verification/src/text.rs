//! Decimal strings and character-level string comparison.
//!
//! The session credential is the decimal string form of a user id, so the
//! library needs to read and write unsigned decimal numerals, and to compare
//! strings (logins, permission names) character by character.

use vstd::prelude::*;

verus! {

use vstd::string::StrSliceExecFns;
use vstd::string::StringExecFns;

/// A decimal digit, `'0'` through `'9'`.
pub open spec fn is_dec_digit(c: char) -> bool {
    48 <= c as int && c as int <= 57
}

/// Numeric value of a decimal digit character.
pub open spec fn digit_val(c: char) -> int {
    c as int - 48
}

/// Every character of `s` is a decimal digit.
pub open spec fn all_dec_digits(s: Seq<char>) -> bool {
    forall|i: int| 0 <= i < s.len() ==> is_dec_digit(#[trigger] s[i])
}

/// Value of a digit string read as a base-ten numeral.
pub open spec fn dec_val(s: Seq<char>) -> int
    decreases s.len(),
{
    if s.len() == 0 {
        0
    } else {
        dec_val(s.drop_last()) * 10 + digit_val(s.last())
    }
}

/// A string is a valid session user id exactly when it is a nonempty,
/// all-digit numeral whose value fits in an `i32`. Anything else (empty,
/// signed, non-numeric, out of range) is not a user id.
pub open spec fn parse_user_id(s: Seq<char>) -> Option<int> {
    if s.len() > 0 && all_dec_digits(s) && dec_val(s) <= i32::MAX as int {
        Some(dec_val(s))
    } else {
        None
    }
}

/// The digit character for a value in `0..=9`.
pub open spec fn digit_char(d: int) -> char {
    if d == 0 {
        '0'
    } else if d == 1 {
        '1'
    } else if d == 2 {
        '2'
    } else if d == 3 {
        '3'
    } else if d == 4 {
        '4'
    } else if d == 5 {
        '5'
    } else if d == 6 {
        '6'
    } else if d == 7 {
        '7'
    } else if d == 8 {
        '8'
    } else {
        '9'
    }
}

/// The canonical decimal numeral for `n`, without leading zeros.
pub open spec fn dec_str(n: nat) -> Seq<char>
    decreases n,
{
    if n < 10 {
        seq![digit_char(n as int)]
    } else {
        dec_str(n / 10) + seq![digit_char((n % 10) as int)]
    }
}

/// A digit string never has a negative value.
pub proof fn lemma_dec_val_nonneg(s: Seq<char>)
    requires
        all_dec_digits(s),
    ensures
        dec_val(s) >= 0,
    decreases s.len(),
{
    if s.len() > 0 {
        assert(all_dec_digits(s.drop_last()));
        lemma_dec_val_nonneg(s.drop_last());
    }
}

/// Reading one more digit multiplies the prefix value by ten and adds it.
pub proof fn lemma_dec_val_step(s: Seq<char>, i: int)
    requires
        0 <= i < s.len(),
    ensures
        dec_val(s.take(i + 1)) == dec_val(s.take(i)) * 10 + digit_val(s[i]),
{
    assert(s.take(i + 1).drop_last() =~= s.take(i));
    assert(s.take(i + 1).last() == s[i]);
}

/// The value of a digit string is at least the value of any of its prefixes.
pub proof fn lemma_dec_val_take_mono(s: Seq<char>, i: int, j: int)
    requires
        all_dec_digits(s),
        0 <= i <= j <= s.len(),
    ensures
        dec_val(s.take(j)) >= dec_val(s.take(i)),
    decreases j - i,
{
    if i < j {
        lemma_dec_val_take_mono(s, i, j - 1);
        lemma_dec_val_step(s, j - 1);
        assert(all_dec_digits(s.take(j - 1)));
        lemma_dec_val_nonneg(s.take(j - 1));
        assert(is_dec_digit(s[j - 1]));
    }
}

/// The canonical numeral for `n` is all digits and reads back as `n`.
pub proof fn lemma_dec_str_val(n: nat)
    ensures
        all_dec_digits(dec_str(n)),
        dec_val(dec_str(n)) == n,
        dec_str(n).len() >= 1,
    decreases n,
{
    if n < 10 {
        let s = dec_str(n);
        assert(s =~= seq![digit_char(n as int)]);
        assert(s.drop_last() =~= Seq::<char>::empty());
        assert(s.last() == digit_char(n as int));
        assert(is_dec_digit(digit_char(n as int)));
        assert(digit_val(digit_char(n as int)) == n);
        assert(dec_val(s) == dec_val(s.drop_last()) * 10 + digit_val(s.last()));
        assert(dec_val(s) == n);
        assert(all_dec_digits(s));
    } else {
        lemma_dec_str_val(n / 10);
        let prefix = dec_str(n / 10);
        let whole = dec_str(n);
        assert(whole =~= prefix + seq![digit_char((n % 10) as int)]);
        assert(whole.drop_last() =~= prefix);
        assert(whole.last() == digit_char((n % 10) as int));
        assert(is_dec_digit(whole.last()));
        assert(digit_val(digit_char((n % 10) as int)) == n % 10);
        assert(forall|i: int|
            0 <= i < whole.len() ==> is_dec_digit(#[trigger] whole[i])) by {
            assert(forall|i: int|
                0 <= i < prefix.len() ==> is_dec_digit(#[trigger] prefix[i]));
        }
        assert(dec_val(whole) == dec_val(prefix) * 10 + (n % 10));
        assert(dec_val(prefix) == n / 10);
        vstd::arithmetic::div_mod::lemma_fundamental_div_mod(n as int, 10);
        assert(n == 10 * ((n as int) / 10) + (n as int) % 10);
    }
}

/// Reads an unsigned decimal numeral as a user id, `None` on anything that is
/// not a nonempty all-digit numeral with a value that fits in an `i32`.
pub fn parse_user_id_str(s: &str) -> (r: Option<i32>)
    ensures
        r is Some <==> parse_user_id(s@) is Some,
        r matches Some(v) ==> parse_user_id(s@) == Some(v as int) && v >= 0,
{
    let n = s.unicode_len();
    if n == 0 {
        return None;
    }
    let mut i: usize = 0;
    let mut acc: i64 = 0;
    while i < n
        invariant
            0 <= i <= n,
            n == s@.len(),
            0 <= acc <= i32::MAX as i64,
            all_dec_digits(s@.take(i as int)),
            acc as int == dec_val(s@.take(i as int)),
        decreases n - i,
    {
        let c = s.get_char(i);
        let cv = c as u32;
        if cv < 48 || cv > 57 {
            assert(!is_dec_digit(s@[i as int]));
            return None;
        }
        assert(is_dec_digit(s@[i as int]));
        let d = (cv - 48) as i64;
        proof {
            lemma_dec_val_step(s@, i as int);
        }
        acc = acc * 10 + d;
        if acc > i32::MAX as i64 {
            proof {
                assert(all_dec_digits(s@.take(i as int + 1)));
                if all_dec_digits(s@) {
                    lemma_dec_val_take_mono(s@, i as int + 1, s@.len() as int);
                    assert(s@.take(s@.len() as int) =~= s@);
                }
            }
            return None;
        }
        i = i + 1;
    }
    proof {
        assert(s@.take(n as int) =~= s@);
    }
    Some(acc as i32)
}

/// Writes `n` as its canonical decimal numeral.
pub fn to_dec_string(n: u32) -> (r: String)
    ensures
        r@ == dec_str(n as nat),
    decreases n,
{
    let d = n % 10;
    let ds = digit_str(d);
    if n < 10 {
        ds.to_owned()
    } else {
        let mut prefix = to_dec_string(n / 10);
        prefix.append(ds);
        prefix
    }
}

/// The one-character string for a digit value.
fn digit_str(d: u32) -> (r: &'static str)
    requires
        d < 10,
    ensures
        r@ == seq![digit_char(d as int)],
{
    if d == 0 {
        proof {
            reveal_strlit("0");
        }
        assert("0"@ =~= seq![digit_char(0)]);
        "0"
    } else if d == 1 {
        proof {
            reveal_strlit("1");
        }
        assert("1"@ =~= seq![digit_char(1)]);
        "1"
    } else if d == 2 {
        proof {
            reveal_strlit("2");
        }
        assert("2"@ =~= seq![digit_char(2)]);
        "2"
    } else if d == 3 {
        proof {
            reveal_strlit("3");
        }
        assert("3"@ =~= seq![digit_char(3)]);
        "3"
    } else if d == 4 {
        proof {
            reveal_strlit("4");
        }
        assert("4"@ =~= seq![digit_char(4)]);
        "4"
    } else if d == 5 {
        proof {
            reveal_strlit("5");
        }
        assert("5"@ =~= seq![digit_char(5)]);
        "5"
    } else if d == 6 {
        proof {
            reveal_strlit("6");
        }
        assert("6"@ =~= seq![digit_char(6)]);
        "6"
    } else if d == 7 {
        proof {
            reveal_strlit("7");
        }
        assert("7"@ =~= seq![digit_char(7)]);
        "7"
    } else if d == 8 {
        proof {
            reveal_strlit("8");
        }
        assert("8"@ =~= seq![digit_char(8)]);
        "8"
    } else {
        proof {
            reveal_strlit("9");
        }
        assert("9"@ =~= seq![digit_char(9)]);
        "9"
    }
}

/// Character-for-character string equality.
pub fn str_eq(a: &str, b: &str) -> (r: bool)
    ensures
        r == (a@ == b@),
{
    let la = a.unicode_len();
    let lb = b.unicode_len();
    if la != lb {
        return false;
    }
    let mut i: usize = 0;
    while i < la
        invariant
            0 <= i <= la,
            la == a@.len(),
            lb == b@.len(),
            la == lb,
            forall|j: int| 0 <= j < i ==> a@[j] == b@[j],
        decreases la - i,
    {
        if a.get_char(i) != b.get_char(i) {
            return false;
        }
        i = i + 1;
    }
    proof {
        assert(a@ =~= b@);
    }
    true
}

/// Whether `t` occurs among `names`.
pub open spec fn has_name(names: Seq<Seq<char>>, t: Seq<char>) -> bool {
    exists|i: int| 0 <= i < names.len() && names[i] == t
}

/// Whether some element of `v` reads as the string `name`.
pub fn names_contain(v: &Vec<String>, name: &str) -> (r: bool)
    ensures
        r == has_name(v.deep_view(), name@),
{
    let mut i: usize = 0;
    while i < v.len()
        invariant
            0 <= i <= v@.len(),
            forall|j: int| 0 <= j < i ==> v@[j]@ != name@,
        decreases v@.len() - i,
    {
        if str_eq(v[i].as_str(), name) {
            proof {
                assert(v.deep_view()[i as int] == name@);
            }
            return true;
        }
        i = i + 1;
    }
    proof {
        assert(forall|j: int|
            0 <= j < v.deep_view().len() ==> #[trigger] v.deep_view()[j] != name@);
    }
    false
}

/// Copies a list of strings, keeping each one's characters.
pub fn clone_names(v: &Vec<String>) -> (r: Vec<String>)
    ensures
        r.deep_view() == v.deep_view(),
{
    let mut out: Vec<String> = Vec::new();
    let mut i: usize = 0;
    proof {
        assert(out.deep_view() =~= v.deep_view().take(0));
    }
    while i < v.len()
        invariant
            0 <= i <= v@.len(),
            out.deep_view() == v.deep_view().take(i as int),
        decreases v@.len() - i,
    {
        let ghost pre_out = out.deep_view();
        out.push(v[i].clone());
        proof {
            assert(out.deep_view() =~= pre_out.push(v@[i as int]@));
            assert(v.deep_view().take(i as int + 1) =~= pre_out.push(v@[i as int]@));
        }
        i = i + 1;
    }
    proof {
        assert(v.deep_view().take(v@.len() as int) =~= v.deep_view());
    }
    out
}

} // verus!
