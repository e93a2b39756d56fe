//! Character-level text handling: decimal numbers, trimming, pattern removal
//! and comma separated lists.

use vstd::prelude::*;
use vstd::string::*;

verus! {

/// The character of a decimal digit.
pub open spec fn digit_char(d: int) -> char
    recommends
        0 <= d < 10,
{
    (d + 48) as char
}

/// The decimal representation of a natural number, most significant digit first.
pub open spec fn decimal(n: nat) -> Seq<char>
    decreases n,
{
    if n < 10 {
        seq![digit_char(n as int)]
    } else {
        decimal(n / 10).push(digit_char((n % 10) as int))
    }
}

/// Appends one character to a string (std's `String::push`).
#[verifier::external_body]
pub(crate) fn push_char(s: &mut String, c: char)
    ensures
        final(s)@ == old(s)@.push(c),
{
    s.push(c);
}

fn push_decimal(out: &mut String, n: u64)
    ensures
        final(out)@ == old(out)@ + decimal(n as nat),
    decreases n,
{
    if n >= 10 {
        push_decimal(out, n / 10);
    }
    let d: u64 = n % 10;
    let c: char = ((d as u8) + 48u8) as char;
    assert(c == digit_char(d as int));
    push_char(out, c);
    proof {
        if n >= 10 {
            assert(decimal(n as nat) == decimal((n / 10) as nat).push(digit_char((n % 10) as int)));
        }
    }
}

/// The decimal text of a number.
pub fn u64_to_decimal(n: u64) -> (res: String)
    ensures
        res@ == decimal(n as nat),
{
    let mut out = String::new();
    push_decimal(&mut out, n);
    out
}


/// Whether a character is an ASCII decimal digit.
pub open spec fn is_digit(c: char) -> bool {
    48 <= (c as int) <= 57
}

/// The value of a non-empty run of decimal digits, most significant first.
pub open spec fn digits_value(d: Seq<char>) -> int
    decreases d.len(),
{
    if d.len() == 0 {
        0
    } else {
        digits_value(d.drop_last()) * 10 + ((d.last() as int) - 48)
    }
}

/// Whether a sequence is one or more decimal digits.
pub open spec fn all_digits(d: Seq<char>) -> bool {
    d.len() > 0 && forall|i: int| 0 <= i < d.len() ==> #[trigger] is_digit(d[i])
}

/// The integer written by an optional sign (`+`, or `-` where `signed`) and
/// one or more decimal digits; `None` for any other text.
pub open spec fn signed_decimal_value(s: Seq<char>, signed: bool) -> Option<int> {
    if s.len() > 0 && s[0] == '-' && signed {
        if all_digits(s.skip(1)) { Some(-digits_value(s.skip(1))) } else { None }
    } else if s.len() > 0 && s[0] == '+' {
        if all_digits(s.skip(1)) { Some(digits_value(s.skip(1))) } else { None }
    } else if all_digits(s) {
        Some(digits_value(s))
    } else {
        None
    }
}

/// What `str::parse::<i64>` accepts and gives: an optional `+` or `-` sign,
/// then decimal digits, with the value in range of `i64`.
pub open spec fn parse_i64_spec(s: Seq<char>) -> Option<i64> {
    match signed_decimal_value(s, true) {
        Some(v) => if i64::MIN <= v <= i64::MAX { Some(v as i64) } else { None },
        None => None,
    }
}

/// What `str::parse::<u64>` accepts and gives: an optional `+` sign, then
/// decimal digits, with the value in range of `u64`.
pub open spec fn parse_u64_spec(s: Seq<char>) -> Option<u64> {
    match signed_decimal_value(s, false) {
        Some(v) => if 0 <= v <= u64::MAX { Some(v as u64) } else { None },
        None => None,
    }
}

/// The display text of the error that `str::parse::<i64>` gives for a text
/// it refuses. It depends on the text alone; std's documentation does not
/// say what it reads.
pub uninterp spec fn parse_i64_error_text(s: Seq<char>) -> Seq<char>;

/// std's `str::parse::<i64>`. Per std's documentation of `from_str_radix`, the
/// text must be an optional `+` or `-` sign followed by decimal digits only,
/// and the value must fit in `i64`. On failure the error's display text is
/// handed back; it is named `parse_i64_error_text`.
#[verifier::external_body]
pub(crate) fn parse_i64(s: &str) -> (res: Result<i64, String>)
    ensures
        res is Ok <==> parse_i64_spec(s@) is Some,
        res matches Ok(v) ==> parse_i64_spec(s@) == Some(v),
        res matches Err(e) ==> e@ == parse_i64_error_text(s@),
{
    match s.parse::<i64>() {
        Ok(v) => Ok(v),
        Err(e) => Err(e.to_string()),
    }
}

/// std's `str::parse::<u64>`: an optional `+` sign followed by decimal
/// digits only, with the value in range of `u64` (std's documentation of
/// `from_str_radix`). On failure the error's display text is handed back;
/// what that text says is not stated here.
#[verifier::external_body]
pub(crate) fn parse_u64(s: &str) -> (res: Result<u64, String>)
    ensures
        res is Ok <==> parse_u64_spec(s@) is Some,
        res matches Ok(v) ==> parse_u64_spec(s@) == Some(v),
{
    match s.parse::<u64>() {
        Ok(v) => Ok(v),
        Err(e) => Err(e.to_string()),
    }
}


/// Whether a character has Unicode's White_Space property (PropList.txt):
/// U+0009 to U+000D, U+0020, U+0085, U+00A0, U+1680, U+2000 to U+200A,
/// U+2028, U+2029, U+202F, U+205F and U+3000.
pub open spec fn white_space(c: char) -> bool {
    let v = c as int;
    ||| 0x9 <= v <= 0xd
    ||| v == 0x20
    ||| v == 0x85
    ||| v == 0xa0
    ||| v == 0x1680
    ||| 0x2000 <= v <= 0x200a
    ||| v == 0x2028
    ||| v == 0x2029
    ||| v == 0x202f
    ||| v == 0x205f
    ||| v == 0x3000
}

/// Whether a character is white space (what `char::is_whitespace` reports).
pub fn is_whitespace(c: char) -> (res: bool)
    ensures
        res == white_space(c),
{
    let v: u32 = c as u32;
    (0x9u32 <= v && v <= 0xdu32) || v == 0x20u32 || v == 0x85u32 || v == 0xa0u32
        || v == 0x1680u32 || (0x2000u32 <= v && v <= 0x200au32) || v == 0x2028u32
        || v == 0x2029u32 || v == 0x202fu32 || v == 0x205fu32 || v == 0x3000u32
}

/// The text without its leading white space.
pub open spec fn trim_start_spec(s: Seq<char>) -> Seq<char>
    decreases s.len(),
{
    if s.len() > 0 && white_space(s[0]) {
        trim_start_spec(s.drop_first())
    } else {
        s
    }
}

/// The text without its trailing white space.
pub open spec fn trim_end_spec(s: Seq<char>) -> Seq<char>
    decreases s.len(),
{
    if s.len() > 0 && white_space(s.last()) {
        trim_end_spec(s.drop_last())
    } else {
        s
    }
}

/// The text without leading and trailing white space (what `str::trim` gives).
pub open spec fn trim_spec(s: Seq<char>) -> Seq<char> {
    trim_end_spec(trim_start_spec(s))
}

/// Removes leading and trailing white space.
pub fn trim(s: &str) -> (res: &str)
    ensures
        res@ == trim_spec(s@),
{
    let len = s.unicode_len();
    let mut a: usize = 0;
    assert(s@.subrange(0, len as int) =~= s@);
    while a < len && is_whitespace(s.get_char(a))
        invariant
            len == s@.len(),
            a <= len,
            trim_start_spec(s@) == trim_start_spec(s@.subrange(a as int, len as int)),
        decreases len - a,
    {
        assert(s@.subrange(a as int, len as int).drop_first() =~= s@.subrange(a + 1, len as int));
        a = a + 1;
    }
    assert(trim_start_spec(s@) == s@.subrange(a as int, len as int));
    let mut b: usize = len;
    while b > a && is_whitespace(s.get_char(b - 1))
        invariant
            len == s@.len(),
            a <= b <= len,
            trim_spec(s@) == trim_end_spec(s@.subrange(a as int, b as int)),
        decreases b - a,
    {
        assert(s@.subrange(a as int, b as int).drop_last() =~= s@.subrange(a as int, b - 1));
        b = b - 1;
    }
    s.substring_char(a, b)
}

/// The text with every occurrence of `p` removed, occurrences found from the
/// left without overlapping (what `str::replace(p, "")` gives).
pub open spec fn remove_all_spec(s: Seq<char>, p: Seq<char>) -> Seq<char>
    decreases s.len(),
{
    if p.len() == 0 || s.len() < p.len() {
        s
    } else if s.subrange(0, p.len() as int) == p {
        remove_all_spec(s.skip(p.len() as int), p)
    } else {
        seq![s[0]] + remove_all_spec(s.skip(1), p)
    }
}

fn matches_at(s: &str, len: usize, i: usize, p: &str, plen: usize) -> (res: bool)
    requires
        len == s@.len(),
        plen == p@.len(),
        i + plen <= len,
    ensures
        res == (s@.subrange(i as int, i + plen) == p@),
{
    let mut j: usize = 0;
    while j < plen
        invariant
            len == s@.len(),
            plen == p@.len(),
            i + plen <= len,
            j <= plen,
            forall|k: int| 0 <= k < j ==> s@[i + k] == p@[k],
        decreases plen - j,
    {
        if s.get_char(i + j) != p.get_char(j) {
            assert(s@.subrange(i as int, i + plen)[j as int] != p@[j as int]);
            return false;
        }
        j = j + 1;
    }
    assert(s@.subrange(i as int, i + plen) =~= p@);
    true
}

/// Removes every occurrence of a pattern; an empty pattern removes nothing.
pub fn remove_all(s: &str, p: &str) -> (res: String)
    ensures
        res@ == remove_all_spec(s@, p@),
{
    let len = s.unicode_len();
    let plen = p.unicode_len();
    if plen == 0 {
        return String::from_str(s);
    }
    let mut out = String::new();
    let mut i: usize = 0;
    assert(s@.skip(0) =~= s@);
    assert(out@ + remove_all_spec(s@, p@) =~= remove_all_spec(s@, p@));
    while i < len
        invariant
            len == s@.len(),
            plen == p@.len(),
            plen > 0,
            i <= len,
            remove_all_spec(s@, p@) == out@ + remove_all_spec(s@.skip(i as int), p@),
        decreases len - i,
    {
        let ghost rest = s@.skip(i as int);
        if plen <= len - i && matches_at(s, len, i, p, plen) {
            assert(rest.subrange(0, plen as int) =~= s@.subrange(i as int, i + plen));
            assert(rest.skip(plen as int) =~= s@.skip(i + plen));
            i = i + plen;
        } else {
            let c = s.get_char(i);
            proof {
                assert(rest.skip(1) =~= s@.skip(i + 1));
                if plen <= len - i {
                    assert(rest.subrange(0, plen as int) =~= s@.subrange(i as int, i + plen));
                } else {
                    assert(remove_all_spec(rest.skip(1), p@) == rest.skip(1));
                    assert(rest =~= seq![c] + rest.skip(1));
                }
            }
            push_char(&mut out, c);
            i = i + 1;
        }
    }
    assert(s@.skip(len as int) =~= Seq::<char>::empty());
    out
}


/// The pieces of a text between separators, as `str::split(sep)` gives them:
/// one more piece than there are separators, empty pieces included.
pub open spec fn split_spec(s: Seq<char>, sep: char) -> Seq<Seq<char>>
    decreases s.len(),
{
    if s.len() == 0 {
        seq![Seq::empty()]
    } else {
        let prev = split_spec(s.drop_last(), sep);
        if s.last() == sep {
            prev.push(Seq::empty())
        } else {
            prev.update(prev.len() - 1, prev.last().push(s.last()))
        }
    }
}

/// A comma separated list of `i64` numbers, as read by splitting on `,` and
/// parsing every piece; `None` when some piece does not parse.
pub open spec fn number_list_spec(s: Seq<char>) -> Option<Seq<i64>> {
    let pieces = split_spec(s, ',');
    if forall|k: int| 0 <= k < pieces.len() ==> (#[trigger] parse_i64_spec(pieces[k])) is Some {
        Some(Seq::new(pieces.len(), |k: int| parse_i64_spec(pieces[k])->0))
    } else {
        None
    }
}

/// The first of the pieces that does not parse as an `i64`, if any.
pub open spec fn first_unparsed(pieces: Seq<Seq<char>>) -> Option<Seq<char>>
    decreases pieces.len(),
{
    if pieces.len() == 0 {
        None
    } else if parse_i64_spec(pieces[0]) is None {
        Some(pieces[0])
    } else {
        first_unparsed(pieces.drop_first())
    }
}

/// The error text of reading a comma separated list: that of the first
/// piece that does not parse.
pub open spec fn number_list_error(s: Seq<char>) -> Option<Seq<char>> {
    match first_unparsed(split_spec(s, ',')) {
        Some(p) => Some(parse_i64_error_text(p)),
        None => None,
    }
}

proof fn lemma_first_unparsed(pieces: Seq<Seq<char>>, k: int)
    requires
        0 <= k < pieces.len(),
        parse_i64_spec(pieces[k]) is None,
        forall|j: int| 0 <= j < k ==> (#[trigger] parse_i64_spec(pieces[j])) is Some,
    ensures
        first_unparsed(pieces) == Some(pieces[k]),
    decreases k,
{
    if k > 0 {
        let rest = pieces.drop_first();
        assert(parse_i64_spec(pieces[0]) is Some);
        assert forall|j: int| 0 <= j < k - 1 implies (#[trigger] parse_i64_spec(rest[j])) is Some by {
            assert(rest[j] == pieces[j + 1]);
        }
        lemma_first_unparsed(rest, k - 1);
    }
}

proof fn lemma_split_nonempty(s: Seq<char>, sep: char)
    ensures
        split_spec(s, sep).len() >= 1,
    decreases s.len(),
{
    if s.len() > 0 {
        lemma_split_nonempty(s.drop_last(), sep);
    }
}

/// The pieces that a prefix has completed stay the same in every longer prefix.
proof fn lemma_split_stable(s: Seq<char>, sep: char, j: int, m: int)
    requires
        0 <= j <= m <= s.len(),
    ensures
        split_spec(s.take(j), sep).len() <= split_spec(s.take(m), sep).len(),
        forall|k: int|
            0 <= k < split_spec(s.take(j), sep).len() - 1 ==> split_spec(s.take(j), sep)[k]
                == split_spec(s.take(m), sep)[k],
    decreases m - j,
{
    if j < m {
        lemma_split_stable(s, sep, j, m - 1);
        lemma_split_nonempty(s.take(m - 1), sep);
        assert(s.take(m).drop_last() =~= s.take(m - 1));
    }
}

/// Reads a comma separated list of `i64` numbers. On failure, the parse
/// error's text of the first piece that does not parse is handed back.
pub fn parse_number_list(s: &str) -> (res: Result<Vec<i64>, String>)
    ensures
        res is Ok <==> number_list_spec(s@) is Some,
        res matches Ok(v) ==> number_list_spec(s@) == Some(v@),
        res matches Err(e) ==> number_list_error(s@) == Some(e@),
{
    let len = s.unicode_len();
    let mut out: Vec<i64> = Vec::new();
    let mut start: usize = 0;
    let mut i: usize = 0;
    assert(s@.take(0) =~= Seq::<char>::empty());
    assert(s@.subrange(0, 0) =~= Seq::<char>::empty());
    while i < len
        invariant
            len == s@.len(),
            start <= i <= len,
            split_spec(s@.take(i as int), ',').len() == out@.len() + 1,
            split_spec(s@.take(i as int), ',').last() == s@.subrange(start as int, i as int),
            forall|k: int|
                0 <= k < out@.len() ==> parse_i64_spec(
                    #[trigger] split_spec(s@.take(i as int), ',')[k],
                ) == Some(out@[k]),
        decreases len - i,
    {
        let ghost prev = split_spec(s@.take(i as int), ',');
        let c = s.get_char(i);
        assert(s@.take(i + 1).drop_last() =~= s@.take(i as int));
        assert(s@.take(i + 1).last() == c);
        if c == ',' {
            let piece = s.substring_char(start, i);
            match parse_i64(piece) {
                Ok(v) => {
                    out.push(v);
                    start = i + 1;
                    i = i + 1;
                    assert(s@.subrange(start as int, i as int) =~= Seq::<char>::empty());
                },
                Err(e) => {
                    proof {
                        let k = prev.len() - 1;
                        lemma_split_stable(s@, ',', i + 1, len as int);
                        assert(s@.take(len as int) =~= s@);
                        assert(split_spec(s@.take(i + 1), ',')[k] == piece@);
                        let ps = split_spec(s@, ',');
                        assert(parse_i64_spec(ps[k]) is None);
                        assert forall|j: int| 0 <= j < k implies (#[trigger] parse_i64_spec(
                            ps[j],
                        )) is Some by {
                            assert(parse_i64_spec(prev[j]) == Some(out@[j]));
                        }
                        lemma_first_unparsed(ps, k);
                    }
                    return Err(e);
                },
            }
        } else {
            assert(s@.subrange(start as int, i + 1) =~= s@.subrange(start as int, i as int).push(c));
            i = i + 1;
        }
    }
    assert(s@.take(len as int) =~= s@);
    let last = s.substring_char(start, len);
    match parse_i64(last) {
        Ok(v) => {
            out.push(v);
            assert(number_list_spec(s@) == Some(out@)) by {
                let pieces = split_spec(s@, ',');
                assert(Seq::new(pieces.len(), |k: int| parse_i64_spec(pieces[k])->0) =~= out@);
            }
            Ok(out)
        },
        Err(e) => {
            proof {
                let ps = split_spec(s@, ',');
                let k = ps.len() - 1;
                assert forall|j: int| 0 <= j < k implies (#[trigger] parse_i64_spec(
                    ps[j],
                )) is Some by {
                    assert(parse_i64_spec(ps[j]) == Some(out@[j]));
                }
                lemma_first_unparsed(ps, k);
            }
            Err(e)
        },
    }
}


/// The decimal text of an integer, with a leading `-` when it is negative.
pub open spec fn signed_decimal(x: int) -> Seq<char> {
    if x < 0 {
        seq!['-'] + decimal((-x) as nat)
    } else {
        decimal(x as nat)
    }
}

/// Numbers written in decimal and joined by commas.
pub open spec fn comma_join(ids: Seq<i64>) -> Seq<char>
    decreases ids.len(),
{
    if ids.len() == 0 {
        seq![]
    } else if ids.len() == 1 {
        signed_decimal(ids[0] as int)
    } else {
        comma_join(ids.drop_last()) + seq![','] + signed_decimal(ids.last() as int)
    }
}

proof fn lemma_decimal_digits(n: nat)
    ensures
        all_digits(decimal(n)),
        digits_value(decimal(n)) == n,
    decreases n,
{
    if n >= 10 {
        lemma_decimal_digits(n / 10);
        let d = decimal(n / 10);
        let e = d.push(digit_char((n % 10) as int));
        assert(e.drop_last() =~= d);
        assert((digit_char((n % 10) as int) as int) == (n % 10) + 48);
        assert(digits_value(e) == digits_value(d) * 10 + (n % 10));
        assert(decimal(n) == e);
        assert forall|i: int| 0 <= i < e.len() implies #[trigger] is_digit(e[i]) by {
            if i < d.len() {
                assert(is_digit(d[i]));
            }
        }
    } else {
        assert(decimal(n).drop_last() =~= Seq::<char>::empty());
        assert((digit_char(n as int) as int) == n + 48);
        assert(digits_value(Seq::<char>::empty()) == 0);
        assert(digits_value(decimal(n)) == digits_value(decimal(n).drop_last()) * 10 + n);
    }
}

proof fn lemma_signed_decimal_parses(x: i64)
    ensures
        parse_i64_spec(signed_decimal(x as int)) == Some(x),
        !signed_decimal(x as int).contains(','),
{
    let s = signed_decimal(x as int);
    if x < 0 {
        let n = (-(x as int)) as nat;
        lemma_decimal_digits(n);
        assert(s.skip(1) =~= decimal(n));
        assert(s[0] == '-');
        if s.contains(',') {
            let i = choose|i: int| 0 <= i < s.len() && s[i] == ',';
            if i > 0 {
                assert(is_digit(decimal(n)[i - 1]));
            }
        }
    } else {
        lemma_decimal_digits(x as nat);
        assert(is_digit(s[0]));
        if s.contains(',') {
            let i = choose|i: int| 0 <= i < s.len() && s[i] == ',';
            assert(is_digit(s[i]));
        }
    }
}

proof fn lemma_split_plain_suffix(a: Seq<char>, b: Seq<char>, sep: char)
    requires
        !b.contains(sep),
    ensures
        split_spec(a + b, sep) == split_spec(a, sep).update(
            split_spec(a, sep).len() - 1,
            split_spec(a, sep).last() + b,
        ),
    decreases b.len(),
{
    lemma_split_nonempty(a, sep);
    if b.len() == 0 {
        assert(a + b =~= a);
        assert(split_spec(a, sep).last() + b =~= split_spec(a, sep).last());
        assert(split_spec(a, sep).update(split_spec(a, sep).len() - 1, split_spec(a, sep).last())
            =~= split_spec(a, sep));
    } else {
        let b0 = b.drop_last();
        assert(!b0.contains(sep)) by {
            if b0.contains(sep) {
                let i = choose|i: int| 0 <= i < b0.len() && b0[i] == sep;
                assert(b[i] == sep);
            }
        }
        lemma_split_plain_suffix(a, b0, sep);
        assert((a + b).drop_last() =~= a + b0);
        assert(b.last() != sep) by {
            assert(b[b.len() - 1] == b.last());
        }
        assert(split_spec(a, sep).last() + b =~= (split_spec(a, sep).last() + b0).push(b.last()));
        assert(split_spec(a + b, sep) =~= split_spec(a, sep).update(
            split_spec(a, sep).len() - 1,
            split_spec(a, sep).last() + b,
        ));
    }
}

proof fn lemma_split_comma_join(ids: Seq<i64>)
    requires
        ids.len() > 0,
    ensures
        split_spec(comma_join(ids), ',') == ids.map_values(|x: i64| signed_decimal(x as int)),
    decreases ids.len(),
{
    let pieces = ids.map_values(|x: i64| signed_decimal(x as int));
    lemma_signed_decimal_parses(ids.last());
    if ids.len() == 1 {
        lemma_signed_decimal_parses(ids[0]);
        lemma_split_plain_suffix(Seq::<char>::empty(), signed_decimal(ids[0] as int), ',');
        assert(Seq::<char>::empty() + signed_decimal(ids[0] as int) =~= comma_join(ids));
        assert(split_spec(Seq::<char>::empty(), ',').last() + signed_decimal(ids[0] as int)
            =~= signed_decimal(ids[0] as int));
        assert(split_spec(comma_join(ids), ',') =~= pieces);
    } else {
        let init = ids.drop_last();
        lemma_split_comma_join(init);
        let head = comma_join(init) + seq![','];
        assert(head.drop_last() =~= comma_join(init));
        let last = signed_decimal(ids.last() as int);
        lemma_split_plain_suffix(head, last, ',');
        assert(split_spec(head, ',').last() + last =~= last);
        assert(split_spec(comma_join(ids), ',') =~= pieces);
    }
}

/// Chat ids written in decimal and joined by commas are read back as the
/// same ids, in the same order.
pub proof fn law_number_list_read_back(ids: Seq<i64>)
    requires
        ids.len() > 0,
    ensures
        number_list_spec(comma_join(ids)) == Some(ids),
{
    lemma_split_comma_join(ids);
    let pieces = split_spec(comma_join(ids), ',');
    assert forall|k: int| 0 <= k < pieces.len() implies (#[trigger] parse_i64_spec(
        pieces[k],
    )) == Some(ids[k]) by {
        lemma_signed_decimal_parses(ids[k]);
    }
    assert(Seq::new(pieces.len(), |k: int| parse_i64_spec(pieces[k])->0) =~= ids);
}

} // verus!
