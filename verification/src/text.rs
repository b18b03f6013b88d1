//! Small text utilities shared by the command builders and the crash
//! collector: decimal rendering of integers, file-name extraction from a
//! path, and the lossy byte-to-text conversion used on console output.
use vstd::prelude::*;
use vstd::string::{StrSliceExecFns, StringExecFns};

verus! {

/// What `String::from_utf8_lossy` returns on these bytes: a pure function
/// of the bytes alone, too long to state here.
pub uninterp spec fn lossy_of(b: Seq<u8>) -> Seq<char>;

/// Relies on `String::from_utf8_lossy`: the text is a function of the
/// bytes alone, and an empty input yields the empty string.
#[verifier::external_body]
pub fn utf8_lossy(bytes: &Vec<u8>) -> (s: String)
    ensures
        s@ == lossy_of(bytes@),
        bytes@.len() == 0 ==> s@.len() == 0,
{
    String::from_utf8_lossy(bytes.as_slice()).into_owned()
}

/// Relies on `String::push`: appends exactly the one character.
#[verifier::external_body]
pub(crate) fn push_char(s: &mut String, c: char)
    ensures
        final(s)@ == old(s)@.push(c),
{
    s.push(c)
}

/// The character for one decimal digit.
pub open spec fn spec_digit_char(d: nat) -> char
    recommends
        d < 10,
{
    if d == 0 {
        '0'
    } else if d == 1 {
        '1'
    } else if d == 2 {
        '2'
    } else if d == 3 {
        '3'
    } else if d == 4 {
        '4'
    } else if d == 5 {
        '5'
    } else if d == 6 {
        '6'
    } else if d == 7 {
        '7'
    } else if d == 8 {
        '8'
    } else {
        '9'
    }
}

/// The decimal digits of a number, most significant first, no sign and no
/// leading zero (a single zero for zero itself).
pub open spec fn spec_dec_digits(n: nat) -> Seq<char>
    decreases n,
{
    if n < 10 {
        seq![spec_digit_char(n)]
    } else {
        spec_dec_digits(n / 10).push(spec_digit_char(n % 10))
    }
}

fn digit_str(d: u64) -> (s: &'static str)
    requires
        d < 10,
    ensures
        s@ == seq![spec_digit_char(d as nat)],
{
    let r: &'static str = if d == 0 {
        "0"
    } else if d == 1 {
        "1"
    } else if d == 2 {
        "2"
    } else if d == 3 {
        "3"
    } else if d == 4 {
        "4"
    } else if d == 5 {
        "5"
    } else if d == 6 {
        "6"
    } else if d == 7 {
        "7"
    } else if d == 8 {
        "8"
    } else {
        "9"
    };
    proof {
        reveal_strlit("0");
        reveal_strlit("1");
        reveal_strlit("2");
        reveal_strlit("3");
        reveal_strlit("4");
        reveal_strlit("5");
        reveal_strlit("6");
        reveal_strlit("7");
        reveal_strlit("8");
        reveal_strlit("9");
        assert(r@ =~= seq![spec_digit_char(d as nat)]);
    }
    r
}

/// Render a number in decimal.
pub fn u64_to_dec(n: u64) -> (s: String)
    ensures
        s@ == spec_dec_digits(n as nat),
    decreases n,
{
    if n < 10 {
        String::from_str(digit_str(n))
    } else {
        let mut s = u64_to_dec(n / 10);
        s.append(digit_str(n % 10));
        proof {
            assert(s@ =~= spec_dec_digits((n / 10) as nat).push(spec_digit_char((n % 10) as nat)));
        }
        s
    }
}

/// The file-name component of a path: everything after the last `/`, or
/// the whole path when it holds none. Empty when the path ends in `/`.
pub open spec fn spec_file_name(p: Seq<char>) -> Seq<char>
    decreases p.len(),
{
    if p.len() == 0 {
        Seq::<char>::empty()
    } else if p[p.len() - 1] == '/' {
        Seq::<char>::empty()
    } else {
        spec_file_name(p.take(p.len() - 1)) + seq![p[p.len() - 1]]
    }
}

proof fn lemma_file_name_no_slash(p: Seq<char>)
    requires
        forall|j: int| 0 <= j < p.len() ==> p[j] != '/',
    ensures
        spec_file_name(p) == p,
    decreases p.len(),
{
    if p.len() == 0 {
        assert(spec_file_name(p) =~= p);
    } else {
        lemma_file_name_no_slash(p.take(p.len() - 1));
        assert(spec_file_name(p) =~= p);
    }
}

proof fn lemma_file_name_suffix(p: Seq<char>, k: int)
    requires
        0 <= k < p.len(),
        p[k] == '/',
        forall|j: int| k < j < p.len() ==> p[j] != '/',
    ensures
        spec_file_name(p) == p.skip(k + 1),
    decreases p.len(),
{
    if k == p.len() - 1 {
        assert(spec_file_name(p) =~= p.skip(k + 1));
    } else {
        let q = p.take(p.len() - 1);
        assert(q[k] == '/');
        lemma_file_name_suffix(q, k);
        assert(spec_file_name(p) =~= p.skip(k + 1));
    }
}

/// Extract the file-name component of a path.
pub fn file_name(path: &str) -> (r: String)
    ensures
        r@ == spec_file_name(path@),
{
    let n = path.unicode_len();
    let mut last_slash: Option<usize> = Option::None;
    let mut i: usize = 0;
    while i < n
        invariant
            i <= n,
            n == path@.len(),
            match last_slash {
                Option::Some(k) => {
                    &&& k < i
                    &&& path@[k as int] == '/'
                    &&& forall|j: int| k < j < i ==> path@[j] != '/'
                },
                Option::None => forall|j: int| 0 <= j < i ==> path@[j] != '/',
            },
        decreases n - i,
    {
        if path.get_char(i) == '/' {
            last_slash = Option::Some(i);
        }
        i = i + 1;
    }
    match last_slash {
        Option::Some(k) => {
            let tail = path.substring_char(k + 1, n);
            proof {
                lemma_file_name_suffix(path@, k as int);
                assert(tail@ =~= path@.skip(k + 1));
            }
            tail.to_owned()
        },
        Option::None => {
            proof {
                lemma_file_name_no_slash(path@);
            }
            path.to_owned()
        },
    }
}

} // verus!
