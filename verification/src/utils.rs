//! Small helpers on strings and on the environment's name.

use vstd::prelude::*;
use vstd::string::{StrSliceExecFns, StringExecFns};
use crate::config::AppEnv;

verus! {

/// Whether two string slices hold the same characters.
pub fn str_equal(a: &str, b: &str) -> (r: bool)
    ensures
        r == (a@ == b@),
{
    let x = a.as_bytes();
    let y = b.as_bytes();
    proof {
        vstd::utf8::encode_utf8_decode_utf8(a@);
        vstd::utf8::encode_utf8_decode_utf8(b@);
    }
    if x.len() != y.len() {
        return false;
    }
    let mut i: usize = 0;
    while i < x.len()
        invariant
            x@ == vstd::utf8::encode_utf8(a@),
            y@ == vstd::utf8::encode_utf8(b@),
            x@.len() == y@.len(),
            i <= x@.len(),
            forall|j: int| 0 <= j < i ==> x@[j] == y@[j],
        decreases x.len() - i,
    {
        if x[i] != y[i] {
            return false;
        }
        i += 1;
    }
    assert(x@ =~= y@);
    true
}

/// The characters of each string.
pub open spec fn texts(strings: Seq<String>) -> Seq<Seq<char>> {
    strings.map_values(|s: String| s@)
}

/// A copy of each string.
pub fn clone_texts(strings: &Vec<String>) -> (r: Vec<String>)
    ensures
        texts(r@) == texts(strings@),
{
    let mut copy: Vec<String> = Vec::new();
    let mut i: usize = 0;
    while i < strings.len()
        invariant
            i <= strings.len(),
            copy.len() == i,
            forall|j: int| 0 <= j < i ==> copy[j]@ == strings[j]@,
        decreases strings.len() - i,
    {
        copy.push(strings[i].clone());
        i += 1;
    }
    assert(texts(copy@) =~= texts(strings@));
    copy
}

/// Whether no two of the texts are the same.
pub open spec fn all_distinct(keys: Seq<Seq<char>>) -> bool {
    forall|i: int, j: int| 0 <= i < j < keys.len() ==> keys[i] != keys[j]
}

/// Whether no two of the texts are the same.
pub fn are_distinct(keys: &Vec<&str>) -> (r: bool)
    ensures
        r == all_distinct(Seq::new(keys@.len(), |i: int| keys@[i]@)),
{
    let ghost views = Seq::new(keys@.len(), |i: int| keys@[i]@);
    let mut j: usize = 0;
    while j < keys.len()
        invariant
            j <= keys.len(),
            views == Seq::new(keys@.len(), |i: int| keys@[i]@),
            forall|a: int, b: int| 0 <= a < b < j ==> views[a] != views[b],
        decreases keys.len() - j,
    {
        let mut i: usize = 0;
        while i < j
            invariant
                i <= j < keys.len(),
                views == Seq::new(keys@.len(), |i: int| keys@[i]@),
                forall|a: int| 0 <= a < i ==> views[a] != views[j as int],
            decreases j - i,
        {
            if str_equal(keys[i], keys[j]) {
                assert(views[i as int] == views[j as int]);
                return false;
            }
            i += 1;
        }
        j += 1;
    }
    true
}

/// The character that writes the digit `d`.
pub open spec fn digit_char(d: nat) -> char
    recommends
        d < 10,
{
    seq!['0', '1', '2', '3', '4', '5', '6', '7', '8', '9'][d as int]
}

/// Whether `c` is one of the ten digits `0` to `9`.
pub open spec fn is_digit(c: char) -> bool {
    exists|d: nat| d < 10 && c == #[trigger] digit_char(d)
}

/// The decimal numeral of `n`, without sign or leading zeros.
pub open spec fn decimal(n: nat) -> Seq<char>
    decreases n,
{
    if n < 10 {
        seq![digit_char(n)]
    } else {
        decimal(n / 10).push(digit_char(n % 10))
    }
}

/// The decimal numeral of `n`, with a minus sign where `n` is negative.
pub open spec fn signed_decimal(n: int) -> Seq<char> {
    if n < 0 {
        seq!['-'] + decimal((-n) as nat)
    } else {
        decimal(n as nat)
    }
}

/// The one-character string that writes the digit `d`.
pub fn digit_str(d: u8) -> (r: &'static str)
    requires
        d < 10,
    ensures
        r@ == seq![digit_char(d as nat)],
{
    proof {
        reveal_strlit("0");
        reveal_strlit("1");
        reveal_strlit("2");
        reveal_strlit("3");
        reveal_strlit("4");
        reveal_strlit("5");
        reveal_strlit("6");
        reveal_strlit("7");
        reveal_strlit("8");
        reveal_strlit("9");
    }
    let r = if d == 0 {
        "0"
    } else if d == 1 {
        "1"
    } else if d == 2 {
        "2"
    } else if d == 3 {
        "3"
    } else if d == 4 {
        "4"
    } else if d == 5 {
        "5"
    } else if d == 6 {
        "6"
    } else if d == 7 {
        "7"
    } else if d == 8 {
        "8"
    } else {
        "9"
    };
    assert(r@ =~= seq![digit_char(d as nat)]);
    r
}

/// Writes `n` in decimal.
pub fn u64_to_string(n: u64) -> (r: String)
    ensures
        r@ == decimal(n as nat),
    decreases n,
{
    if n < 10 {
        String::from_str(digit_str(n as u8))
    } else {
        let mut s = u64_to_string(n / 10);
        s.append(digit_str((n % 10) as u8));
        assert(s@ =~= decimal((n / 10) as nat).push(digit_char((n % 10) as nat)));
        s
    }
}

/// Writes `n` in decimal, with a minus sign where it is negative.
pub fn i64_to_string(n: i64) -> (r: String)
    ensures
        r@ == signed_decimal(n as int),
{
    if n < 0 {
        let magnitude: u64 = if n == i64::MIN {
            9_223_372_036_854_775_808u64
        } else {
            (-n) as u64
        };
        proof {
            reveal_strlit("-");
        }
        let mut s = String::from_str("-");
        let digits = u64_to_string(magnitude);
        s.append(digits.as_str());
        assert(s@ =~= seq!['-'] + decimal((-n) as nat));
        s
    } else {
        u64_to_string(n as u64)
    }
}

/// The text without the white space at its two ends.
pub uninterp spec fn str_trim(text: Seq<char>) -> Seq<char>;

/// The text in lower case.
pub uninterp spec fn str_to_lowercase(text: Seq<char>) -> Seq<char>;

/// The slice of `text` without the white space at its two ends.
///
/// Trusted: calls `str::trim`. What counts as white space is a table of
/// the Unicode standard; the result depends on the text alone and is given
/// the name `str_trim`.
#[verifier::external_body]
pub(crate) fn trim(text: &str) -> (r: &str)
    ensures
        r@ == str_trim(text@),
{
    text.trim()
}

/// `text` in lower case.
///
/// Trusted: calls `str::to_lowercase`. The lower case of a character is a
/// table of the Unicode standard; the result depends on the text alone and
/// is given the name `str_to_lowercase`.
#[verifier::external_body]
pub(crate) fn to_lowercase(text: &str) -> (r: String)
    ensures
        r@ == str_to_lowercase(text@),
{
    text.to_lowercase()
}

/// The index of the first `true` in `hits`.
pub open spec fn first_true(hits: Seq<bool>) -> Option<int>
    decreases hits.len(),
{
    if hits.len() == 0 {
        None
    } else if hits[0] {
        Some(0)
    } else {
        match first_true(hits.drop_first()) {
            Some(i) => Some(i + 1),
            None => None,
        }
    }
}

/// `first_true` gives an index that holds `true` with none before it that
/// does, or `None` where nothing holds `true`.
pub proof fn lemma_first_true(hits: Seq<bool>)
    ensures
        match first_true(hits) {
            Some(i) => 0 <= i < hits.len() && hits[i] && forall|j: int| 0 <= j < i ==> !hits[j],
            None => forall|j: int| 0 <= j < hits.len() ==> !hits[j],
        },
    decreases hits.len(),
{
    if hits.len() > 0 && !hits[0] {
        let rest = hits.drop_first();
        lemma_first_true(rest);
        match first_true(rest) {
            Some(i) => {
                assert forall|j: int| 0 <= j < i + 1 implies !hits[j] by {
                    if j > 0 {
                        assert(hits[j] == rest[j - 1]);
                    }
                }
            },
            None => {
                assert forall|j: int| 0 <= j < hits.len() implies !hits[j] by {
                    if j > 0 {
                        assert(hits[j] == rest[j - 1]);
                    }
                }
            },
        }
    }
}

/// For each character of `text`, whether it is `c`.
pub open spec fn char_hits(text: Seq<char>, c: char) -> Seq<bool> {
    Seq::new(text.len(), |i: int| text[i] == c)
}

/// The index of the first occurrence of `c` in `text`.
pub open spec fn spec_find_char(text: Seq<char>, c: char) -> Option<int> {
    first_true(char_hits(text, c))
}

/// The index of the first occurrence of `c` in `text`.
pub fn find_char(text: &str, c: char) -> (r: Option<usize>)
    ensures
        match r {
            Some(i) => spec_find_char(text@, c) == Some(i as int) && i < text@.len(),
            None => spec_find_char(text@, c) is None,
        },
{
    let ghost hits = char_hits(text@, c);
    let n = text.unicode_len();
    let mut i: usize = 0;
    while i < n
        invariant
            n == text@.len(),
            i <= n,
            hits == char_hits(text@, c),
            forall|j: int| 0 <= j < i ==> !hits[j],
        decreases n - i,
    {
        if text.get_char(i) == c {
            proof {
                lemma_first_true(hits);
                assert(hits[i as int]);
            }
            return Some(i);
        }
        i += 1;
    }
    proof {
        lemma_first_true(hits);
    }
    None
}

/// Whether the environment named by `env` is production. A missing or
/// unknown name means development.
pub open spec fn spec_is_prod(env: Option<Seq<char>>) -> bool {
    match env {
        Some(name) => AppEnv::spec_parse(name) == Some(AppEnv::Prod),
        None => false,
    }
}

/// Whether the environment named by `env` is production.
pub fn is_prod(env: Option<&str>) -> (r: bool)
    ensures
        r == spec_is_prod(
            match env {
                Some(name) => Some(name@),
                None => None,
            },
        ),
{
    match env {
        Some(name) => match AppEnv::parse(name) {
            Some(parsed) => parsed.is_prod(),
            None => false,
        },
        None => false,
    }
}

/// The interface documentation is served everywhere but in production.
pub fn should_add_openapi_routes(env: Option<&str>) -> (r: bool)
    ensures
        r == !spec_is_prod(
            match env {
                Some(name) => Some(name@),
                None => None,
            },
        ),
{
    !is_prod(env)
}

} // verus!
