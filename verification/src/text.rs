//! Text building blocks: joining pieces with a separator, splitting a line
//! into words, and writing a number in decimal.

use vstd::prelude::*;

verus! {

/// The pieces of `parts`, in order, with `sep` between each two neighbours.
pub open spec fn join(parts: Seq<Seq<char>>, sep: Seq<char>) -> Seq<char>
    decreases parts.len(),
{
    if parts.len() == 0 {
        Seq::empty()
    } else if parts.len() == 1 {
        parts[0]
    } else {
        join(parts.drop_last(), sep) + sep + parts.last()
    }
}

/// What each string of `v` holds, in order.
pub open spec fn texts(v: Seq<String>) -> Seq<Seq<char>> {
    Seq::new(v.len(), |i: int| v[i]@)
}

/// Joins the strings of `parts`, putting `sep` between each two neighbours.
pub fn join_strings(parts: &Vec<String>, sep: &str) -> (out: String)
    ensures
        out@ == join(texts(parts@), sep@),
{
    let mut out = String::new();
    let mut i: usize = 0;
    while i < parts.len()
        invariant
            i <= parts.len(),
            out@ == join(texts(parts@).take(i as int), sep@),
        decreases parts.len() - i,
    {
        let ghost before = texts(parts@).take(i as int);
        let ghost after = texts(parts@).take(i + 1);
        proof {
            assert(after.drop_last() =~= before);
            assert(after.last() == parts@[i as int]@);
        }
        if i > 0 {
            out.append(sep);
        }
        out.append(parts[i].as_str());
        i = i + 1;
    }
    proof {
        assert(texts(parts@).take(parts.len() as int) =~= texts(parts@));
    }
    out
}

/// The sum of the lengths of the pieces of `parts`.
pub open spec fn total_len(parts: Seq<Seq<char>>) -> nat
    decreases parts.len(),
{
    if parts.len() == 0 {
        0
    } else {
        total_len(parts.drop_last()) + parts.last().len()
    }
}

/// Joining no pieces gives the empty text, whatever the separator.
pub proof fn join_of_nothing_is_empty(sep: Seq<char>)
    ensures
        join(Seq::empty(), sep) == Seq::<char>::empty(),
{
}

/// Joining a single piece gives that piece, with no separator added.
pub proof fn join_of_one_is_itself(piece: Seq<char>, sep: Seq<char>)
    ensures
        join(seq![piece], sep) == piece,
{
}

/// Adding a piece to a list that already holds one adds one separator and
/// then the piece.
pub proof fn join_of_one_more(parts: Seq<Seq<char>>, piece: Seq<char>, sep: Seq<char>)
    requires
        parts.len() >= 1,
    ensures
        join(parts.push(piece), sep) == join(parts, sep) + sep + piece,
{
    assert(parts.push(piece).drop_last() =~= parts);
}

/// Joining `n >= 1` pieces writes every piece once and the separator
/// `n - 1` times.
pub proof fn join_counts_separators(parts: Seq<Seq<char>>, sep: Seq<char>)
    requires
        parts.len() >= 1,
    ensures
        join(parts, sep).len() == total_len(parts) + (parts.len() - 1) * sep.len(),
    decreases parts.len(),
{
    if parts.len() == 1 {
        assert(total_len(parts.drop_last()) == 0);
    } else {
        let head = parts.drop_last();
        join_counts_separators(head, sep);
        let n = parts.len() as int;
        let l = sep.len() as int;
        assert((n - 2) * l + l == (n - 1) * l) by (nonlinear_arith);
    }
}

/// A joined text begins with its first piece and ends with its last one:
/// no separator leads or trails.
pub proof fn join_has_no_outer_separator(parts: Seq<Seq<char>>, sep: Seq<char>)
    requires
        parts.len() >= 1,
    ensures
        parts[0].is_prefix_of(join(parts, sep)),
        parts.last().is_suffix_of(join(parts, sep)),
    decreases parts.len(),
{
    let whole = join(parts, sep);
    if parts.len() == 1 {
        assert(whole.take(parts[0].len() as int) =~= parts[0]);
        assert(whole.skip(whole.len() - parts.last().len()) =~= parts.last());
    } else {
        let head = parts.drop_last();
        join_has_no_outer_separator(head, sep);
        let front = join(head, sep);
        assert(whole.take(parts[0].len() as int) =~= front.take(parts[0].len() as int));
        assert(whole.skip(whole.len() - parts.last().len()) =~= parts.last());
    }
}

/// The decimal digit that stands for `d`, for `d` below ten.
pub open spec fn digit(d: nat) -> char {
    if d == 0 {
        '0'
    } else if d == 1 {
        '1'
    } else if d == 2 {
        '2'
    } else if d == 3 {
        '3'
    } else if d == 4 {
        '4'
    } else if d == 5 {
        '5'
    } else if d == 6 {
        '6'
    } else if d == 7 {
        '7'
    } else if d == 8 {
        '8'
    } else {
        '9'
    }
}

/// `n` written in decimal, most significant digit first, without leading
/// zeros; zero is written `0`.
pub open spec fn decimal(n: nat) -> Seq<char>
    decreases n,
{
    if n < 10 {
        seq![digit(n)]
    } else {
        decimal(n / 10).push(digit(n % 10))
    }
}

fn digit_str(d: u64) -> (s: &'static str)
    requires
        d < 10,
    ensures
        s@ == seq![digit(d as nat)],
{
    proof {
        reveal_strlit("0");
        reveal_strlit("1");
        reveal_strlit("2");
        reveal_strlit("3");
        reveal_strlit("4");
        reveal_strlit("5");
        reveal_strlit("6");
        reveal_strlit("7");
        reveal_strlit("8");
        reveal_strlit("9");
    }
    let s: &'static str = if d == 0 {
        "0"
    } else if d == 1 {
        "1"
    } else if d == 2 {
        "2"
    } else if d == 3 {
        "3"
    } else if d == 4 {
        "4"
    } else if d == 5 {
        "5"
    } else if d == 6 {
        "6"
    } else if d == 7 {
        "7"
    } else if d == 8 {
        "8"
    } else {
        "9"
    };
    assert(s@ =~= seq![digit(d as nat)]);
    s
}

/// Writes `n` in decimal.
pub fn render_decimal(n: u64) -> (out: String)
    ensures
        out@ == decimal(n as nat),
    decreases n,
{
    if n < 10 {
        String::from_str(digit_str(n))
    } else {
        let mut out = render_decimal(n / 10);
        out.append(digit_str(n % 10));
        assert(out@ =~= decimal(n as nat));
        out
    }
}

/// Whether `c` separates words: the characters that Unicode gives the
/// property White_Space.
pub open spec fn is_space(c: char) -> bool {
    let n = c as u32;
    ||| 0x09 <= n <= 0x0D
    ||| n == 0x20
    ||| n == 0x85
    ||| n == 0xA0
    ||| n == 0x1680
    ||| 0x2000 <= n <= 0x200A
    ||| n == 0x2028
    ||| n == 0x2029
    ||| n == 0x202F
    ||| n == 0x205F
    ||| n == 0x3000
}

/// Tells whether `c` separates words.
pub fn is_space_char(c: char) -> (b: bool)
    ensures
        b == is_space(c),
{
    let n: u32 = c as u32;
    (0x09 <= n && n <= 0x0D) || n == 0x20 || n == 0x85 || n == 0xA0 || n == 0x1680 || (0x2000 <= n
        && n <= 0x200A) || n == 0x2028 || n == 0x2029 || n == 0x202F || n == 0x205F || n == 0x3000
}

/// The place of the first separating character of `s`, or the length of `s`
/// where it holds none.
pub open spec fn first_space(s: Seq<char>) -> int
    decreases s.len(),
{
    if s.len() == 0 || is_space(s[0]) {
        0
    } else {
        1 + first_space(s.skip(1))
    }
}

/// The words of `s`: the stretches between its separating characters. Each
/// separating character ends one word and begins the next, so a text with
/// `k` of them has `k + 1` words, some of which may be empty.
pub open spec fn split(s: Seq<char>) -> Seq<Seq<char>>
    decreases s.len(),
{
    let k = first_space(s);
    if 0 <= k < s.len() {
        seq![s.take(k)] + split(s.skip(k + 1))
    } else {
        seq![s]
    }
}

proof fn lemma_first_space(s: Seq<char>, k: int)
    requires
        0 <= k <= s.len(),
        forall|j: int| 0 <= j < k ==> !is_space(#[trigger] s[j]),
        k == s.len() || is_space(s[k]),
    ensures
        first_space(s) == k,
    decreases k,
{
    if k > 0 {
        let rest = s.skip(1);
        assert forall|j: int| 0 <= j < k - 1 implies !is_space(#[trigger] rest[j]) by {
            assert(rest[j] == s[j + 1]);
        }
        lemma_first_space(rest, k - 1);
    }
}

/// The first separating character, where there is one, is a separating
/// character, and none stands before it.
pub proof fn first_space_is_first(s: Seq<char>)
    ensures
        0 <= first_space(s) <= s.len(),
        first_space(s) < s.len() ==> is_space(s[first_space(s)]),
        forall|j: int| 0 <= j < first_space(s) ==> !is_space(#[trigger] s[j]),
    decreases s.len(),
{
    if s.len() == 0 || is_space(s[0]) {
    } else {
        let rest = s.skip(1);
        first_space_is_first(rest);
        assert forall|j: int| 0 <= j < first_space(s) implies !is_space(#[trigger] s[j]) by {
            if j > 0 {
                assert(s[j] == rest[j - 1]);
            }
        }
    }
}

/// Splitting never gives an empty list, and no word holds a separating
/// character.
pub proof fn split_gives_words(s: Seq<char>)
    ensures
        split(s).len() >= 1,
        forall|i: int, j: int|
            0 <= i < split(s).len() && 0 <= j < split(s)[i].len() ==> !is_space(
                #[trigger] split(s)[i][j],
            ),
    decreases s.len(),
{
    first_space_is_first(s);
    let k = first_space(s);
    if 0 <= k < s.len() {
        let rest = s.skip(k + 1);
        split_gives_words(rest);
        assert forall|i: int, j: int|
            0 <= i < split(s).len() && 0 <= j < split(s)[i].len() implies !is_space(
            #[trigger] split(s)[i][j],
        ) by {
            if i == 0 {
                assert(split(s)[0] == s.take(k));
                assert(s.take(k)[j] == s[j]);
            } else {
                assert(split(s)[i] == split(rest)[i - 1]);
            }
        }
    } else {
        assert(split(s)[0] == s);
    }
}

/// A word followed by a space is the first word of the line, and the words
/// of what follows the space come behind it.
pub proof fn split_after_word(word: Seq<char>, rest: Seq<char>)
    requires
        forall|j: int| 0 <= j < word.len() ==> !is_space(#[trigger] word[j]),
    ensures
        split(word + " "@ + rest) == seq![word] + split(rest),
{
    reveal_strlit(" ");
    let line = word + " "@ + rest;
    let k = word.len() as int;
    assert(line[k] == ' ');
    assert forall|j: int| 0 <= j < k implies !is_space(#[trigger] line[j]) by {
        assert(line[j] == word[j]);
    }
    lemma_first_space(line, k);
    assert(line.take(k) =~= word);
    assert(line.skip(k + 1) =~= rest);
}

/// Cuts `s` into its words.
pub fn split_words(s: &str) -> (out: Vec<String>)
    ensures
        texts(out@) == split(s@),
{
    let n: usize = s.unicode_len();
    let mut out: Vec<String> = Vec::new();
    let mut start: usize = 0;
    let mut i: usize = 0;
    assert(s@.skip(0) =~= s@);
    while i < n
        invariant
            start <= i <= n,
            n == s@.len(),
            texts(out@) + split(s@.skip(start as int)) == split(s@),
            forall|j: int| start <= j < i ==> !is_space(#[trigger] s@[j]),
        decreases n - i,
    {
        if is_space_char(s.get_char(i)) {
            let word = String::from_str(s.substring_char(start, i));
            proof {
                let tail = s@.skip(start as int);
                let k = i - start;
                lemma_first_space(tail, k);
                assert(tail.take(k) =~= s@.subrange(start as int, i as int));
                assert(tail.skip(k + 1) =~= s@.skip(i + 1));
                assert(texts(out@.push(word)) =~= texts(out@) + seq![word@]);
                assert(texts(out@) + (seq![word@] + split(s@.skip(i + 1))) =~= (texts(out@)
                    + seq![word@]) + split(s@.skip(i + 1)));
            }
            out.push(word);
            start = i + 1;
        }
        i = i + 1;
    }
    let word = String::from_str(s.substring_char(start, n));
    proof {
        let tail = s@.skip(start as int);
        lemma_first_space(tail, n - start);
        assert(tail =~= s@.subrange(start as int, n as int));
        assert(texts(out@.push(word)) =~= texts(out@) + seq![word@]);
    }
    out.push(word);
    out
}

} // verus!
