use vstd::prelude::*;
use vstd::std_specs::iter::IteratorSpec;

verus! {

broadcast use vstd::string::group_string_axioms;

// ---------------------------------------------------------------------------
// Characters
// ---------------------------------------------------------------------------
/// Unicode's `White_Space` property: the characters that `char::is_whitespace`
/// accepts, and on which `str::split_whitespace` and `str::trim` cut.
pub open spec fn is_space(c: char) -> bool {
    let n = c as u32;
    ||| 0x09 <= n <= 0x0D
    ||| n == 0x20
    ||| n == 0x85
    ||| n == 0xA0
    ||| n == 0x1680
    ||| 0x2000 <= n <= 0x200A
    ||| n == 0x2028
    ||| n == 0x2029
    ||| n == 0x202F
    ||| n == 0x205F
    ||| n == 0x3000
}

/// Whether a character is white space (see `is_space`).
pub fn is_space_char(c: char) -> (r: bool)
    ensures
        r == is_space(c),
{
    let n = c as u32;
    (0x09 <= n && n <= 0x0D) || n == 0x20 || n == 0x85 || n == 0xA0 || n == 0x1680 || (0x2000
        <= n && n <= 0x200A) || n == 0x2028 || n == 0x2029 || n == 0x202F || n == 0x205F || n
        == 0x3000
}

/// The views of a list of strings.
pub open spec fn views(v: Seq<String>) -> Seq<Seq<char>> {
    v.map_values(|w: String| w@)
}

/// Calls `String::push`; the contract claims that afterwards the string is
/// the old one followed by the character, as std's documentation says.
#[verifier::external_body]
fn push_char(s: &mut String, c: char)
    ensures
        final(s)@ == old(s)@.push(c),
{
    s.push(c);
}

/// Whether two texts are the same sequence of characters.
pub fn same_text(a: &str, b: &str) -> (r: bool)
    ensures
        r == (a@ == b@),
{
    let x = a.to_owned();
    let y = b.to_owned();
    x == y
}

/// The characters of a text, one by one.
pub fn chars_of(s: &str) -> (v: Vec<char>)
    ensures
        v@ == s@,
{
    let mut v: Vec<char> = Vec::new();
    let mut it = s.chars();
    assert(it.remaining() == s@);
    loop
        invariant
            v@ + it.remaining() == s@,
            it.decrease() is Some,
        ensures
            v@ == s@,
        decreases it.decrease()->0,
    {
        match it.next() {
            Some(c) => {
                v.push(c);
                assert(v@ + it.remaining() =~= s@);
            },
            None => {
                assert(v@ =~= s@);
                break;
            },
        }
    }
    v
}

/// A string made of the given characters.
pub fn string_of(cs: &Vec<char>) -> (s: String)
    ensures
        s@ == cs@,
{
    let mut s = String::new();
    let mut i: usize = 0;
    while i < cs.len()
        invariant
            i <= cs.len(),
            s@ == cs@.take(i as int),
        decreases cs.len() - i,
    {
        push_char(&mut s, cs[i]);
        i = i + 1;
        assert(s@ =~= cs@.take(i as int));
    }
    assert(cs@.take(cs.len() as int) =~= cs@);
    s
}

/// The concatenation of two texts.
pub fn concat(a: &str, b: &str) -> (s: String)
    ensures
        s@ == a@ + b@,
{
    let mut s = a.to_owned();
    s.append(b);
    s
}

// ---------------------------------------------------------------------------
// Blank texts (`trim().is_empty()`)
// ---------------------------------------------------------------------------
/// A text is blank when nothing but white space is left after trimming it.
pub open spec fn is_blank(s: Seq<char>) -> bool {
    forall|i: int| 0 <= i < s.len() ==> is_space(#[trigger] s[i])
}

/// Whether a text is blank, i.e. `s.trim().is_empty()`.
pub fn is_blank_text(s: &str) -> (r: bool)
    ensures
        r == is_blank(s@),
{
    let cs = chars_of(s);
    let mut i: usize = 0;
    while i < cs.len()
        invariant
            i <= cs.len(),
            cs@ == s@,
            forall|j: int| 0 <= j < i ==> is_space(#[trigger] cs@[j]),
        decreases cs.len() - i,
    {
        if !is_space_char(cs[i]) {
            return false;
        }
        i = i + 1;
    }
    true
}

// ---------------------------------------------------------------------------
// Splitting on white space (`split_whitespace`)
// ---------------------------------------------------------------------------
/// Reads a text from left to right and returns the words finished so far and
/// the word being read (empty between words).
pub open spec fn scan_words(s: Seq<char>) -> (Seq<Seq<char>>, Seq<char>)
    decreases s.len(),
{
    if s.len() == 0 {
        (seq![], seq![])
    } else {
        let (done, cur) = scan_words(s.drop_last());
        let c = s.last();
        if is_space(c) {
            if cur.len() > 0 {
                (done.push(cur), seq![])
            } else {
                (done, seq![])
            }
        } else {
            (done, cur.push(c))
        }
    }
}

/// The words of a text: its maximal runs of characters that are not white
/// space, in order.
pub open spec fn words(s: Seq<char>) -> Seq<Seq<char>> {
    let (done, cur) = scan_words(s);
    if cur.len() > 0 {
        done.push(cur)
    } else {
        done
    }
}

/// The words of a text, as `str::split_whitespace` cuts them.
pub fn split_words(s: &str) -> (ws: Vec<String>)
    ensures
        views(ws@) == words(s@),
{
    let cs = chars_of(s);
    let mut done: Vec<String> = Vec::new();
    let mut cur: Vec<char> = Vec::new();
    let mut i: usize = 0;
    while i < cs.len()
        invariant
            i <= cs.len(),
            cs@ == s@,
            (views(done@), cur@) == scan_words(cs@.take(i as int)),
        decreases cs.len() - i,
    {
        let c = cs[i];
        proof {
            assert(cs@.take(i + 1).drop_last() =~= cs@.take(i as int));
        }
        if is_space_char(c) {
            if cur.len() > 0 {
                let w = string_of(&cur);
                done.push(w);
                assert(views(done@) =~= scan_words(cs@.take(i + 1)).0);
            }
            cur = Vec::new();
            assert(cur@ =~= seq![]);
        } else {
            cur.push(c);
        }
        i = i + 1;
    }
    assert(cs@.take(cs.len() as int) =~= cs@);
    if cur.len() > 0 {
        let w = string_of(&cur);
        done.push(w);
        assert(views(done@) =~= words(s@));
    }
    done
}

/// The characters of a text that are not white space, in order.
pub open spec fn non_space(s: Seq<char>) -> Seq<char> {
    s.filter(|c: char| !is_space(c))
}

/// All words laid end to end.
pub open spec fn joined(ws: Seq<Seq<char>>) -> Seq<char>
    decreases ws.len(),
{
    if ws.len() == 0 {
        seq![]
    } else {
        joined(ws.drop_last()) + ws.last()
    }
}

proof fn lemma_joined_push(ws: Seq<Seq<char>>, w: Seq<char>)
    ensures
        joined(ws.push(w)) == joined(ws) + w,
{
    assert(ws.push(w).drop_last() =~= ws);
}

proof fn lemma_scan_words(s: Seq<char>)
    ensures
        forall|i: int|
            0 <= i < scan_words(s).0.len() ==> (#[trigger] scan_words(s).0[i]).len() > 0 && forall|
                j: int,
            |
                0 <= j < scan_words(s).0[i].len() ==> !is_space(#[trigger] scan_words(s).0[i][j]),
        forall|j: int|
            0 <= j < scan_words(s).1.len() ==> !is_space(#[trigger] scan_words(s).1[j]),
        joined(scan_words(s).0) + scan_words(s).1 == non_space(s),
    decreases s.len(),
{
    reveal(Seq::filter);
    if s.len() == 0 {
        assert(non_space(s) =~= seq![]);
    } else {
        let prev = s.drop_last();
        lemma_scan_words(prev);
        let (done, cur) = scan_words(prev);
        let c = s.last();
        assert(s =~= prev.push(c));
        assert(s.drop_last() == prev);
        if is_space(c) {
            if cur.len() > 0 {
                lemma_joined_push(done, cur);
                assert(joined(done.push(cur)) + seq![] =~= joined(done) + cur);
            } else {
                assert(joined(done) + seq![] =~= joined(done) + cur);
            }
        } else {
            assert(joined(done) + cur.push(c) =~= (joined(done) + cur).push(c));
        }
    }
}

/// Every word is non-empty and holds no white space, and the words laid end
/// to end are exactly the text's characters that are not white space.
pub proof fn lemma_words_are_the_non_space_runs(s: Seq<char>)
    ensures
        forall|i: int| 0 <= i < words(s).len() ==> (#[trigger] words(s)[i]).len() > 0,
        forall|i: int, j: int|
            0 <= i < words(s).len() && 0 <= j < words(s)[i].len() ==> !is_space(
                #[trigger] words(s)[i][j],
            ),
        joined(words(s)) == non_space(s),
{
    lemma_scan_words(s);
    let (done, cur) = scan_words(s);
    if cur.len() > 0 {
        lemma_joined_push(done, cur);
        assert forall|i: int, j: int|
            0 <= i < words(s).len() && 0 <= j < words(s)[i].len() implies !is_space(
            #[trigger] words(s)[i][j],
        ) by {
            if i < done.len() {
                assert(words(s)[i] == done[i]);
            } else {
                assert(words(s)[i] == cur);
            }
        }
    } else {
        assert(joined(done) + cur =~= joined(done));
    }
}

/// How the words of a text grow as it is read: an empty text has none;
/// white space added at the end changes nothing; a character that is not
/// white space joins the last word when it directly follows one, and starts
/// a new word at the start of the text or after white space.  These steps
/// fix the words of every text, so each word is a maximal run.
pub proof fn lemma_words_step(s: Seq<char>, c: char)
    ensures
        words(Seq::<char>::empty()) == Seq::<Seq<char>>::empty(),
        is_space(c) ==> words(s.push(c)) == words(s),
        !is_space(c) && s.len() > 0 && !is_space(s.last()) ==> words(s).len() > 0
            && words(s.push(c)) == words(s).drop_last().push(words(s).last().push(c)),
        !is_space(c) && (s.len() == 0 || is_space(s.last())) ==> words(s.push(c)) == words(
            s,
        ).push(seq![c]),
{
    let t = s.push(c);
    assert(t.drop_last() =~= s);
    assert(t.last() == c);
    let (done, cur) = scan_words(s);
    if s.len() > 0 {
        assert(s =~= s.drop_last().push(s.last()));
    }
    if !is_space(c) {
        if s.len() > 0 && !is_space(s.last()) {
            assert(cur.len() > 0);
            assert(words(s) == done.push(cur));
            assert(words(s).drop_last() =~= done);
        } else {
            assert(cur.len() == 0);
            assert(cur.push(c) =~= seq![c]);
        }
    }
}

/// A blank text has no words.
pub proof fn lemma_blank_has_no_words(s: Seq<char>)
    requires
        is_blank(s),
    ensures
        words(s).len() == 0,
{
    lemma_words_are_the_non_space_runs(s);
    lemma_non_space_of_blank(s);
    if words(s).len() > 0 {
        lemma_joined_len(words(s));
    }
}

proof fn lemma_non_space_of_blank(s: Seq<char>)
    requires
        is_blank(s),
    ensures
        non_space(s).len() == 0,
    decreases s.len(),
{
    reveal(Seq::filter);
    if s.len() > 0 {
        lemma_non_space_of_blank(s.drop_last());
        assert(s =~= s.drop_last().push(s.last()));
    }
}

proof fn lemma_joined_len(ws: Seq<Seq<char>>)
    requires
        ws.len() > 0,
        forall|i: int| 0 <= i < ws.len() ==> (#[trigger] ws[i]).len() > 0,
    ensures
        joined(ws).len() > 0,
{
    assert(ws.last() == ws[ws.len() - 1]);
}

// ---------------------------------------------------------------------------
// First line (`lines().next()`)
// ---------------------------------------------------------------------------
/// Position of the first line feed in a text, or its length if it has none.
pub open spec fn line_end(s: Seq<char>) -> int
    decreases s.len(),
{
    if s.len() == 0 {
        0
    } else if s[0] == '\n' {
        0
    } else {
        1 + line_end(s.drop_first())
    }
}

/// The first line of a text as `str::lines` yields it: everything before the
/// first line feed, without a carriage return that directly precedes that
/// line feed.  A text without a line feed is its own first line.
pub open spec fn first_line(s: Seq<char>) -> Seq<char> {
    let e = line_end(s);
    let head = s.take(e);
    if e < s.len() && head.len() > 0 && head.last() == '\r' {
        head.drop_last()
    } else {
        head
    }
}

proof fn lemma_line_end(s: Seq<char>)
    ensures
        0 <= line_end(s) <= s.len(),
        line_end(s) < s.len() ==> s[line_end(s)] == '\n',
        forall|j: int| 0 <= j < line_end(s) ==> s[j] != '\n',
    decreases s.len(),
{
    if s.len() > 0 && s[0] != '\n' {
        lemma_line_end(s.drop_first());
        assert forall|j: int| 0 <= j < line_end(s) implies s[j] != '\n' by {
            if j > 0 {
                assert(s[j] == s.drop_first()[j - 1]);
            }
        }
    }
}

/// The first line of a text (see `first_line`).
pub fn first_line_of(s: &str) -> (r: String)
    ensures
        r@ == first_line(s@),
{
    let cs = chars_of(s);
    let mut i: usize = 0;
    proof {
        lemma_line_end(s@);
    }
    while i < cs.len() && cs[i] != '\n'
        invariant
            i <= cs.len(),
            cs@ == s@,
            0 <= line_end(s@) <= s@.len(),
            line_end(s@) < s@.len() ==> s@[line_end(s@)] == '\n',
            forall|j: int| 0 <= j < line_end(s@) ==> s@[j] != '\n',
            i <= line_end(s@),
        decreases cs.len() - i,
    {
        i = i + 1;
    }
    assert(i == line_end(s@));
    let mut head: Vec<char> = Vec::new();
    let mut k: usize = 0;
    while k < i
        invariant
            k <= i <= cs.len(),
            head@ == cs@.take(k as int),
        decreases i - k,
    {
        head.push(cs[k]);
        k = k + 1;
        assert(head@ =~= cs@.take(k as int));
    }
    if i < cs.len() && head.len() > 0 && head[head.len() - 1] == '\r' {
        head.pop();
    }
    string_of(&head)
}

// ---------------------------------------------------------------------------
// Decimal numbers (`Display` for unsigned integers)
// ---------------------------------------------------------------------------
/// The decimal digit for a number below ten.
pub open spec fn digit(d: nat) -> char {
    if d == 0 {
        '0'
    } else if d == 1 {
        '1'
    } else if d == 2 {
        '2'
    } else if d == 3 {
        '3'
    } else if d == 4 {
        '4'
    } else if d == 5 {
        '5'
    } else if d == 6 {
        '6'
    } else if d == 7 {
        '7'
    } else if d == 8 {
        '8'
    } else {
        '9'
    }
}

/// A number written in decimal, without leading zeros.
pub open spec fn decimal(n: nat) -> Seq<char>
    decreases n,
{
    if n < 10 {
        seq![digit(n)]
    } else {
        decimal(n / 10).push(digit(n % 10))
    }
}

fn digit_char(d: u64) -> (c: char)
    requires
        d < 10,
    ensures
        c == digit(d as nat),
{
    if d == 0 {
        '0'
    } else if d == 1 {
        '1'
    } else if d == 2 {
        '2'
    } else if d == 3 {
        '3'
    } else if d == 4 {
        '4'
    } else if d == 5 {
        '5'
    } else if d == 6 {
        '6'
    } else if d == 7 {
        '7'
    } else if d == 8 {
        '8'
    } else {
        '9'
    }
}

/// A number written in decimal, as `format!("{}", n)` writes it.
pub fn decimal_text(n: u64) -> (s: String)
    ensures
        s@ == decimal(n as nat),
{
    let mut rev: Vec<char> = Vec::new();
    let mut m: u64 = n;
    // `rev` holds the digits already written, last digit first.
    while m >= 10
        invariant
            decimal(n as nat) == decimal(m as nat) + rev@.reverse(),
        decreases m,
    {
        let d = m % 10;
        let c = digit_char(d);
        proof {
            assert(decimal(m as nat) == decimal((m / 10) as nat).push(digit((m % 10) as nat)));
            assert(rev@.push(c).reverse() =~= seq![c] + rev@.reverse());
            assert(decimal(m as nat) + rev@.reverse() =~= decimal((m / 10) as nat) + rev@.push(
                c,
            ).reverse());
        }
        rev.push(c);
        m = m / 10;
    }
    let c = digit_char(m);
    rev.push(c);
    assert(rev@.reverse() =~= seq![c] + rev@.drop_last().reverse());
    let mut out: Vec<char> = Vec::new();
    let mut k: usize = rev.len();
    while k > 0
        invariant
            k <= rev.len(),
            out@ == rev@.reverse().take(rev.len() - k),
        decreases k,
    {
        k = k - 1;
        out.push(rev[k]);
        assert(out@ =~= rev@.reverse().take(rev.len() - k));
    }
    assert(out@ =~= rev@.reverse());
    string_of(&out)
}


/// An integer written in decimal, with a minus sign when it is negative.
pub open spec fn signed_decimal(n: int) -> Seq<char> {
    if n < 0 {
        seq!['-'] + decimal((-n) as nat)
    } else {
        decimal(n as nat)
    }
}

/// An integer written in decimal, as `format!("{}", n)` writes it.
pub fn signed_decimal_text(n: i64) -> (s: String)
    ensures
        s@ == signed_decimal(n as int),
{
    if n < 0 {
        let m: u64 = if n == i64::MIN {
            9223372036854775808u64
        } else {
            (-n) as u64
        };
        let digits = decimal_text(m);
        proof {
            reveal_strlit("-");
        }
        concat("-", digits.as_str())
    } else {
        decimal_text(n as u64)
    }
}

/// Three texts laid end to end.
pub fn concat3(a: &str, b: &str, c: &str) -> (s: String)
    ensures
        s@ == a@ + b@ + c@,
{
    let ab = concat(a, b);
    concat(ab.as_str(), c)
}

} // verus!
