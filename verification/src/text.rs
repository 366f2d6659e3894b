//! Verified text utilities shared by the installer logic: substring search,
//! line and path-segment extraction, dash-delimited splitting, and decimal
//! rendering of integers.

use vstd::prelude::*;

verus! {

/// Index of the first occurrence of `c` in `s`, or -1 if `c` does not occur.
pub open spec fn find_char(s: Seq<char>, c: char) -> int
    decreases s.len(),
{
    if s.len() == 0 {
        -1
    } else if s.first() == c {
        0
    } else {
        let rest = find_char(s.drop_first(), c);
        if rest == -1 {
            -1
        } else {
            rest + 1
        }
    }
}

/// Index of the last occurrence of `c` in `s`, or -1 if `c` does not occur.
pub open spec fn rfind_char(s: Seq<char>, c: char) -> int
    decreases s.len(),
{
    if s.len() == 0 {
        -1
    } else if s.last() == c {
        s.len() - 1
    } else {
        rfind_char(s.drop_last(), c)
    }
}

/// `find_char` is exactly the least index holding `c`.
pub proof fn lemma_find_char(s: Seq<char>, c: char)
    ensures
        find_char(s, c) == -1 <==> (forall|i: int| 0 <= i < s.len() ==> s[i] != c),
        find_char(s, c) != -1 ==> {
            &&& 0 <= find_char(s, c) < s.len()
            &&& s[find_char(s, c)] == c
            &&& forall|j: int| 0 <= j < find_char(s, c) ==> s[j] != c
        },
    decreases s.len(),
{
    if s.len() != 0 && s.first() != c {
        lemma_find_char(s.drop_first(), c);
        assert(forall|i: int| 1 <= i < s.len() ==> s[i] == s.drop_first()[i - 1]);
    }
}

/// `rfind_char` is exactly the greatest index holding `c`.
pub proof fn lemma_rfind_char(s: Seq<char>, c: char)
    ensures
        rfind_char(s, c) == -1 <==> (forall|i: int| 0 <= i < s.len() ==> s[i] != c),
        rfind_char(s, c) != -1 ==> {
            &&& 0 <= rfind_char(s, c) < s.len()
            &&& s[rfind_char(s, c)] == c
            &&& forall|j: int| rfind_char(s, c) < j < s.len() ==> s[j] != c
        },
    decreases s.len(),
{
    if s.len() != 0 && s.last() != c {
        lemma_rfind_char(s.drop_last(), c);
        assert(forall|i: int| 0 <= i < s.len() - 1 ==> s[i] == s.drop_last()[i]);
    }
}

/// Character-wise string equality.
pub fn str_eq(a: &str, b: &str) -> (r: bool)
    ensures
        r == (a@ == b@),
{
    let a_len = a.unicode_len();
    let b_len = b.unicode_len();
    if a_len != b_len {
        return false;
    }
    let mut i: usize = 0;
    while i < a_len
        invariant
            a_len == a@.len(),
            b_len == b@.len(),
            a_len == b_len,
            i <= a_len,
            forall|j: int| 0 <= j < i ==> a@[j] == b@[j],
        decreases a_len - i,
    {
        if a.get_char(i) != b.get_char(i) {
            return false;
        }
        i = i + 1;
    }
    assert(a@ =~= b@);
    true
}

/// `needle` occurs in `hay` starting at position `i`.
pub open spec fn matches_at(hay: Seq<char>, needle: Seq<char>, i: int) -> bool {
    &&& 0 <= i
    &&& i + needle.len() <= hay.len()
    &&& hay.subrange(i, i + needle.len()) == needle
}

/// `needle` occurs somewhere in `hay`.
pub open spec fn contains_seq(hay: Seq<char>, needle: Seq<char>) -> bool {
    exists|i: int| matches_at(hay, needle, i)
}

/// Substring search: whether `needle` occurs in `hay`.
pub fn contains_str(hay: &str, needle: &str) -> (r: bool)
    ensures
        r == contains_seq(hay@, needle@),
{
    let hay_len = hay.unicode_len();
    let needle_len = needle.unicode_len();
    if needle_len == 0 {
        assert(hay@.subrange(0, 0) =~= needle@);
        assert(matches_at(hay@, needle@, 0));
        return true;
    }
    if needle_len > hay_len {
        assert(forall|i: int| !matches_at(hay@, needle@, i));
        return false;
    }
    let mut i: usize = 0;
    while i <= hay_len - needle_len
        invariant
            hay_len == hay@.len(),
            needle_len == needle@.len(),
            1 <= needle_len <= hay_len,
            i <= hay_len - needle_len + 1,
            forall|k: int| 0 <= k < i ==> !matches_at(hay@, needle@, k),
        decreases hay_len - i,
    {
        let mut j: usize = 0;
        let mut mismatch = false;
        while j < needle_len && !mismatch
            invariant
                hay_len == hay@.len(),
                needle_len == needle@.len(),
                i + needle_len <= hay_len,
                j <= needle_len,
                !mismatch ==> (forall|t: int| 0 <= t < j ==> hay@[i + t] == needle@[t]),
                mismatch ==> !matches_at(hay@, needle@, i as int),
            decreases needle_len - j + (if mismatch {
                0int
            } else {
                1int
            }),
        {
            if hay.get_char(i + j) != needle.get_char(j) {
                proof {
                    if matches_at(hay@, needle@, i as int) {
                        assert(hay@.subrange(i as int, i + needle@.len())[j as int] == hay@[i
                            + j]);
                    }
                }
                mismatch = true;
            } else {
                j = j + 1;
            }
        }
        if !mismatch {
            assert(hay@.subrange(i as int, i + needle@.len()) =~= needle@);
            assert(matches_at(hay@, needle@, i as int));
            return true;
        }
        i = i + 1;
    }
    assert forall|k: int| !matches_at(hay@, needle@, k) by {
        if 0 <= k < i {
        } else if k >= i {
            assert(k + needle@.len() > hay@.len());
        }
    }
    false
}

/// The prefix of `s` up to (not including) the first newline; all of `s`
/// when it has no newline.
pub open spec fn spec_first_line(s: Seq<char>) -> Seq<char> {
    if find_char(s, '\n') == -1 {
        s
    } else {
        s.subrange(0, find_char(s, '\n'))
    }
}

/// First line of a command's output: everything before the first newline.
pub fn first_line(s: &str) -> (r: String)
    ensures
        r@ == spec_first_line(s@),
{
    let len = s.unicode_len();
    let mut i: usize = 0;
    while i < len
        invariant
            len == s@.len(),
            i <= len,
            forall|j: int| 0 <= j < i ==> s@[j] != '\n',
        decreases len - i,
    {
        if s.get_char(i) == '\n' {
            proof {
                lemma_find_char(s@, '\n');
            }
            let r = s.substring_char(0, i).to_owned();
            return r;
        }
        i = i + 1;
    }
    proof {
        lemma_find_char(s@, '\n');
    }
    assert(s@.subrange(0, s@.len() as int) =~= s@);
    s.to_owned()
}

/// The part of `s` after the last `/`; all of `s` when it has none.
pub open spec fn spec_last_segment(s: Seq<char>) -> Seq<char> {
    if rfind_char(s, '/') == -1 {
        s
    } else {
        s.subrange(rfind_char(s, '/') + 1, s.len() as int)
    }
}

/// Final path segment of a URL: the characters after the last `/`.
/// Downloaded files are named after this segment.
pub fn last_url_segment(s: &str) -> (r: String)
    ensures
        r@ == spec_last_segment(s@),
{
    let len = s.unicode_len();
    let mut i: usize = len;
    while i > 0
        invariant
            len == s@.len(),
            i <= len,
            forall|j: int| i <= j < len ==> s@[j] != '/',
        decreases i,
    {
        if s.get_char(i - 1) == '/' {
            proof {
                lemma_rfind_char(s@, '/');
            }
            let r = s.substring_char(i, len).to_owned();
            return r;
        }
        i = i - 1;
    }
    proof {
        lemma_rfind_char(s@, '/');
    }
    assert(s@.subrange(0, s@.len() as int) =~= s@);
    s.to_owned()
}

/// The dash-delimited fields of `s`, in order. The empty string has one
/// empty field; every `-` opens a new field.
pub open spec fn dash_split(s: Seq<char>) -> Seq<Seq<char>>
    decreases s.len(),
{
    if s.len() == 0 {
        seq![Seq::<char>::empty()]
    } else {
        let prev = dash_split(s.drop_last());
        if s.last() == '-' {
            prev.push(Seq::<char>::empty())
        } else {
            prev.update(prev.len() - 1, prev.last().push(s.last()))
        }
    }
}

/// `dash_split` always yields at least one field.
pub proof fn lemma_dash_split_len(s: Seq<char>)
    ensures
        dash_split(s).len() >= 1,
    decreases s.len(),
{
    if s.len() != 0 {
        lemma_dash_split_len(s.drop_last());
    }
}

/// Split `s` at every `-`, as its sequence of fields.
pub fn dash_fields(s: &str) -> (fields: Vec<String>)
    ensures
        fields.deep_view() == dash_split(s@),
{
    let len = s.unicode_len();
    let mut done: Vec<String> = Vec::new();
    let mut current: String = String::new();
    let mut i: usize = 0;
    while i < len
        invariant
            len == s@.len(),
            i <= len,
            done.deep_view().push(current@) =~= dash_split(s@.subrange(0, i as int)),
        decreases len - i,
    {
        proof {
            assert(s@.subrange(0, i + 1).drop_last() =~= s@.subrange(0, i as int));
            assert(s@.subrange(0, i + 1).last() == s@[i as int]);
            lemma_dash_split_len(s@.subrange(0, i as int));
        }
        let ghost prev = dash_split(s@.subrange(0, i as int));
        if s.get_char(i) == '-' {
            done.push(current);
            current = String::new();
            assert(done.deep_view().push(current@) =~= prev.push(Seq::<char>::empty()));
        } else {
            let piece = s.substring_char(i, i + 1);
            assert(piece@ =~= seq![s@[i as int]]);
            current.append(piece);
            assert(current@ =~= prev.last().push(s@[i as int]));
            assert(done.deep_view().push(current@) =~= prev.update(
                prev.len() - 1,
                prev.last().push(s@[i as int]),
            ));
        }
        i = i + 1;
    }
    assert(s@.subrange(0, s@.len() as int) =~= s@);
    done.push(current);
    assert(done.deep_view() =~= dash_split(s@));
    done
}

/// The decimal digit character for `d`.
pub open spec fn spec_digit_char(d: int) -> char {
    if d == 0 {
        '0'
    } else if d == 1 {
        '1'
    } else if d == 2 {
        '2'
    } else if d == 3 {
        '3'
    } else if d == 4 {
        '4'
    } else if d == 5 {
        '5'
    } else if d == 6 {
        '6'
    } else if d == 7 {
        '7'
    } else if d == 8 {
        '8'
    } else {
        '9'
    }
}

/// The decimal rendering of `n`, most significant digit first.
pub open spec fn spec_dec_digits(n: nat) -> Seq<char>
    decreases n,
{
    if n < 10 {
        seq![spec_digit_char(n as int)]
    } else {
        spec_dec_digits(n / 10).push(spec_digit_char((n % 10) as int))
    }
}

/// The decimal rendering of a signed value: a leading `-` when negative.
pub open spec fn spec_dec_i64(n: int) -> Seq<char> {
    if n < 0 {
        seq!['-'] + spec_dec_digits((-n) as nat)
    } else {
        spec_dec_digits(n as nat)
    }
}

fn digit_string(d: u64) -> (r: String)
    requires
        d < 10,
    ensures
        r@ =~= seq![spec_digit_char(d as int)],
{
    let r = match d {
        0 => "0",
        1 => "1",
        2 => "2",
        3 => "3",
        4 => "4",
        5 => "5",
        6 => "6",
        7 => "7",
        8 => "8",
        _ => "9",
    };
    proof {
        reveal_strlit("0");
        reveal_strlit("1");
        reveal_strlit("2");
        reveal_strlit("3");
        reveal_strlit("4");
        reveal_strlit("5");
        reveal_strlit("6");
        reveal_strlit("7");
        reveal_strlit("8");
        reveal_strlit("9");
    }
    r.to_owned()
}

/// Render `n` in decimal.
pub fn u64_to_string(n: u64) -> (r: String)
    ensures
        r@ == spec_dec_digits(n as nat),
    decreases n,
{
    if n < 10 {
        digit_string(n)
    } else {
        let mut s = u64_to_string(n / 10);
        let d = digit_string(n % 10);
        s.append(d.as_str());
        assert(s@ =~= spec_dec_digits((n / 10) as nat).push(spec_digit_char((n % 10) as int)));
        s
    }
}

/// Render `n` in decimal, with a leading `-` when negative.
pub fn i64_to_string(n: i64) -> (r: String)
    ensures
        r@ == spec_dec_i64(n as int),
{
    if n >= 0 {
        u64_to_string(n as u64)
    } else {
        let magnitude: u64 = if n == i64::MIN {
            9223372036854775808u64
        } else {
            (-n) as u64
        };
        assert(magnitude == -(n as int));
        let mut s = "-".to_owned();
        proof {
            reveal_strlit("-");
        }
        let d = u64_to_string(magnitude);
        s.append(d.as_str());
        assert(s@ =~= spec_dec_i64(n as int));
        s
    }
}

} // verus!
