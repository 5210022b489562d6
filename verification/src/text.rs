//! Text handling: Unicode whitespace, trimming, splitting into lines and
//! words, and reading the default gateway out of the Windows routing table.
use vstd::prelude::*;

verus! {

/// Unicode's `White_Space` property, which `char::is_whitespace` tests:
/// U+0009..U+000D, U+0020, U+0085, U+00A0, U+1680, U+2000..U+200A, U+2028,
/// U+2029, U+202F, U+205F and U+3000.
pub open spec fn is_white_space(c: char) -> bool {
    let v = c as u32;
    ||| 0x9 <= v <= 0xD
    ||| v == 0x20
    ||| v == 0x85
    ||| v == 0xA0
    ||| v == 0x1680
    ||| 0x2000 <= v <= 0x200A
    ||| v == 0x2028
    ||| v == 0x2029
    ||| v == 0x202F
    ||| v == 0x205F
    ||| v == 0x3000
}

/// `s` without its leading whitespace.
pub open spec fn trim_start(s: Seq<char>) -> Seq<char>
    decreases s.len(),
{
    if s.len() > 0 && is_white_space(s[0]) {
        trim_start(s.drop_first())
    } else {
        s
    }
}

/// `s` without its trailing whitespace.
pub open spec fn trim_end(s: Seq<char>) -> Seq<char>
    decreases s.len(),
{
    if s.len() > 0 && is_white_space(s.last()) {
        trim_end(s.drop_last())
    } else {
        s
    }
}

/// `s` without its leading and trailing whitespace (what `str::trim` gives).
pub open spec fn trimmed(s: Seq<char>) -> Seq<char> {
    trim_end(trim_start(s))
}

/// `trim_start(s)` is empty or starts with a non-whitespace character.
pub proof fn lemma_trim_start_shape(s: Seq<char>)
    ensures
        trim_start(s).len() == 0 || !is_white_space(trim_start(s)[0]),
    decreases s.len(),
{
    if s.len() > 0 && is_white_space(s[0]) {
        lemma_trim_start_shape(s.drop_first());
    }
}

/// `trim_end(s)` is a prefix of `s` that is empty or ends with a
/// non-whitespace character, and it is not empty when `s` starts with one.
pub proof fn lemma_trim_end_shape(s: Seq<char>)
    ensures
        trim_end(s).len() <= s.len(),
        trim_end(s) == s.take(trim_end(s).len() as int),
        trim_end(s).len() == 0 || !is_white_space(trim_end(s).last()),
        s.len() > 0 && !is_white_space(s[0]) ==> trim_end(s).len() > 0,
    decreases s.len(),
{
    if s.len() > 0 && is_white_space(s.last()) {
        lemma_trim_end_shape(s.drop_last());
    }
}

/// Trimming twice gives what trimming once gives.
pub proof fn lemma_trimmed_idempotent(s: Seq<char>)
    ensures
        trimmed(trimmed(s)) == trimmed(s),
{
    let ts = trim_start(s);
    lemma_trim_start_shape(s);
    lemma_trim_end_shape(ts);
}

/// The words of `s`: its maximal runs of non-whitespace characters, in order
/// (what `str::split_whitespace` yields). Read left to right, a
/// non-whitespace character extends the word that the character before it
/// belongs to, or starts a new word after whitespace or at the start.
pub open spec fn words(s: Seq<char>) -> Seq<Seq<char>>
    decreases s.len(),
{
    if s.len() == 0 {
        Seq::empty()
    } else {
        let prev = words(s.drop_last());
        let c = s.last();
        if is_white_space(c) {
            prev
        } else if s.len() >= 2 && !is_white_space(s[s.len() - 2]) {
            prev.drop_last().push(prev.last().push(c))
        } else {
            prev.push(seq![c])
        }
    }
}

/// The pieces of `s` between its `'\n'` characters. These are the lines that
/// `str::lines` yields, up to a trailing `'\r'` (whitespace) and a last empty
/// piece, neither of which holds a word.
pub open spec fn pieces(s: Seq<char>) -> Seq<Seq<char>>
    decreases s.len(),
{
    if s.len() == 0 {
        seq![Seq::empty()]
    } else {
        let prev = pieces(s.drop_last());
        if s.last() == '\n' {
            prev.push(Seq::empty())
        } else {
            prev.drop_last().push(prev.last().push(s.last()))
        }
    }
}

/// The text `0.0.0.0`.
pub open spec fn any_address() -> Seq<char> {
    seq!['0', '.', '0', '.', '0', '.', '0']
}

/// The gateway that a line of `route print` names for the default route: its
/// third word, when it has at least three words and the first two are both
/// `0.0.0.0` (network destination and netmask).
pub open spec fn default_route_gateway(line_words: Seq<Seq<char>>) -> Option<Seq<char>> {
    if line_words.len() >= 3 && line_words[0] == any_address() && line_words[1] == any_address() {
        Some(line_words[2])
    } else {
        None
    }
}

/// The gateway that the first default-route line among `lines` names.
pub open spec fn first_gateway(lines: Seq<Seq<char>>) -> Option<Seq<char>>
    decreases lines.len(),
{
    if lines.len() == 0 {
        None
    } else {
        match first_gateway(lines.drop_last()) {
            Some(g) => Some(g),
            None => default_route_gateway(words(lines.last())),
        }
    }
}

/// The default gateway that a `route print` table names, or the empty text
/// when no line names one.
pub open spec fn default_gateway_of(table: Seq<char>) -> Seq<char> {
    match first_gateway(pieces(table)) {
        Some(g) => g,
        None => Seq::empty(),
    }
}

proof fn lemma_first_gateway_none(lines: Seq<Seq<char>>)
    requires
        forall|j: int|
            0 <= j < lines.len() ==> !({
                let w = #[trigger] words(lines[j]);
                w.len() >= 3 && w[0] == seq!['0', '.', '0', '.', '0', '.', '0'] && w[1] == seq![
                    '0',
                    '.',
                    '0',
                    '.',
                    '0',
                    '.',
                    '0',
                ]
            }),
    ensures
        first_gateway(lines) is None,
    decreases lines.len(),
{
    if lines.len() > 0 {
        lemma_first_gateway_none(lines.drop_last());
        let w = words(lines[lines.len() - 1]);
        assert(any_address() =~= seq!['0', '.', '0', '.', '0', '.', '0']);
    }
}

proof fn lemma_first_gateway_at(lines: Seq<Seq<char>>, i: int)
    requires
        0 <= i < lines.len(),
        ({
            let w = words(lines[i]);
            w.len() >= 3 && w[0] == seq!['0', '.', '0', '.', '0', '.', '0'] && w[1] == seq![
                '0',
                '.',
                '0',
                '.',
                '0',
                '.',
                '0',
            ]
        }),
        forall|j: int|
            0 <= j < i ==> !({
                let w = #[trigger] words(lines[j]);
                w.len() >= 3 && w[0] == seq!['0', '.', '0', '.', '0', '.', '0'] && w[1] == seq![
                    '0',
                    '.',
                    '0',
                    '.',
                    '0',
                    '.',
                    '0',
                ]
            }),
    ensures
        first_gateway(lines) == Some(words(lines[i])[2]),
    decreases lines.len(),
{
    assert(any_address() =~= seq!['0', '.', '0', '.', '0', '.', '0']);
    if i < lines.len() - 1 {
        lemma_first_gateway_at(lines.drop_last(), i);
    } else {
        lemma_first_gateway_none(lines.drop_last());
    }
}

/// The gateway read from a routing table is the third word of its first
/// line whose first two words (destination and netmask) are both exactly
/// `0.0.0.0`; lines before it, whatever they hold (a `0.0.0.0 128.0.0.0`
/// route, say), play no part.
pub proof fn law_gateway_from_first_default_route(table: Seq<char>, i: int)
    requires
        0 <= i < pieces(table).len(),
        ({
            let w = words(pieces(table)[i]);
            w.len() >= 3 && w[0] == seq!['0', '.', '0', '.', '0', '.', '0'] && w[1] == seq![
                '0',
                '.',
                '0',
                '.',
                '0',
                '.',
                '0',
            ]
        }),
        forall|j: int|
            0 <= j < i ==> !({
                let w = #[trigger] words(pieces(table)[j]);
                w.len() >= 3 && w[0] == seq!['0', '.', '0', '.', '0', '.', '0'] && w[1] == seq![
                    '0',
                    '.',
                    '0',
                    '.',
                    '0',
                    '.',
                    '0',
                ]
            }),
    ensures
        default_gateway_of(table) == words(pieces(table)[i])[2],
{
    lemma_first_gateway_at(pieces(table), i);
}

/// A routing table none of whose lines starts with `0.0.0.0 0.0.0.0` and a
/// third word names no gateway.
pub proof fn law_no_default_route_no_gateway(table: Seq<char>)
    requires
        forall|j: int|
            0 <= j < pieces(table).len() ==> !({
                let w = #[trigger] words(pieces(table)[j]);
                w.len() >= 3 && w[0] == seq!['0', '.', '0', '.', '0', '.', '0'] && w[1] == seq![
                    '0',
                    '.',
                    '0',
                    '.',
                    '0',
                    '.',
                    '0',
                ]
            }),
    ensures
        default_gateway_of(table) == Seq::<char>::empty(),
{
    lemma_first_gateway_none(pieces(table));
}

proof fn lemma_trim_start_at(s: Seq<char>) -> (i: int)
    ensures
        0 <= i <= s.len(),
        trim_start(s) == s.subrange(i, s.len() as int),
        forall|k: int| 0 <= k < i ==> is_white_space(#[trigger] s[k]),
        i < s.len() ==> !is_white_space(s[i]),
    decreases s.len(),
{
    if s.len() > 0 && is_white_space(s[0]) {
        let j = lemma_trim_start_at(s.drop_first());
        assert(s.drop_first().subrange(j, s.len() - 1) =~= s.subrange(j + 1, s.len() as int));
        assert forall|k: int| 0 <= k < j + 1 implies is_white_space(#[trigger] s[k]) by {
            if k > 0 {
                assert(s[k] == s.drop_first()[k - 1]);
            }
        }
        j + 1
    } else {
        assert(s.subrange(0, s.len() as int) =~= s);
        0
    }
}

proof fn lemma_trim_end_at(s: Seq<char>) -> (j: int)
    ensures
        0 <= j <= s.len(),
        trim_end(s) == s.subrange(0, j),
        forall|k: int| j <= k < s.len() ==> is_white_space(#[trigger] s[k]),
        j > 0 ==> !is_white_space(s[j - 1]),
    decreases s.len(),
{
    if s.len() > 0 && is_white_space(s.last()) {
        let j = lemma_trim_end_at(s.drop_last());
        assert(s.drop_last().subrange(0, j) =~= s.subrange(0, j));
        assert forall|k: int| j <= k < s.len() implies is_white_space(#[trigger] s[k]) by {
            if k < s.len() - 1 {
                assert(s[k] == s.drop_last()[k]);
            }
        }
        j
    } else {
        assert(s.subrange(0, s.len() as int) =~= s);
        s.len() as int
    }
}

/// Trimming removes exactly the whitespace at both ends: the result is the
/// part of `s` from its first to its last non-whitespace character (empty
/// when there is none), and everything removed is whitespace.
pub proof fn law_trim_removes_only_outer_whitespace(s: Seq<char>) -> (r: (int, int))
    ensures
        0 <= r.0 <= r.1 <= s.len(),
        trimmed(s) == s.subrange(r.0, r.1),
        forall|k: int| 0 <= k < r.0 ==> is_white_space(#[trigger] s[k]),
        forall|k: int| r.1 <= k < s.len() ==> is_white_space(#[trigger] s[k]),
        r.0 < r.1 ==> !is_white_space(s[r.0]) && !is_white_space(s[r.1 - 1]),
{
    let i = lemma_trim_start_at(s);
    let t = s.subrange(i, s.len() as int);
    let j = lemma_trim_end_at(t);
    assert(t.subrange(0, j) =~= s.subrange(i, i + j));
    assert forall|k: int| i + j <= k < s.len() implies is_white_space(#[trigger] s[k]) by {
        assert(s[k] == t[k - i]);
    }
    if j > 0 {
        assert(s[i + j - 1] == t[j - 1]);
    }
    (i, i + j)
}

/// A non-empty text without whitespace is one word.
pub proof fn law_words_of_solid(s: Seq<char>)
    requires
        s.len() > 0,
        forall|k: int| 0 <= k < s.len() ==> !is_white_space(#[trigger] s[k]),
    ensures
        words(s) == seq![s],
    decreases s.len(),
{
    if s.len() == 1 {
        assert(s.drop_last() =~= Seq::<char>::empty());
        assert(words(s.drop_last()) =~= Seq::<Seq<char>>::empty());
        assert(seq![s.last()] =~= s);
        assert(words(s) =~= seq![s]);
    } else {
        assert forall|k: int| 0 <= k < s.drop_last().len() implies !is_white_space(
            #[trigger] s.drop_last()[k],
        ) by {
            assert(s.drop_last()[k] == s[k]);
        }
        law_words_of_solid(s.drop_last());
        assert(!is_white_space(s[s.len() - 2]));
        let prev = words(s.drop_last());
        assert(prev.last() == s.drop_last());
        assert(s.drop_last().push(s.last()) =~= s);
        assert(prev.drop_last().push(prev.last().push(s.last())) =~= seq![s]);
    }
}

proof fn lemma_words_nonempty(s: Seq<char>)
    requires
        s.len() > 0,
        !is_white_space(s.last()),
    ensures
        words(s).len() > 0,
{
}

/// A whitespace character separates words: the words of `a`, a whitespace
/// character, then `b` are the words of `a` followed by those of `b`.
pub proof fn law_words_split(a: Seq<char>, c: char, b: Seq<char>)
    requires
        is_white_space(c),
    ensures
        words(a + seq![c] + b) == words(a) + words(b),
    decreases b.len(),
{
    let s = a + seq![c] + b;
    if b.len() == 0 {
        assert(s.drop_last() =~= a);
        assert(words(a) + words(b) =~= words(a));
    } else {
        assert(s.drop_last() =~= a + seq![c] + b.drop_last());
        law_words_split(a, c, b.drop_last());
        let x = b.last();
        let p = words(a);
        let q = words(b.drop_last());
        if is_white_space(x) {
        } else if b.len() >= 2 && !is_white_space(b[b.len() - 2]) {
            assert(s[s.len() - 2] == b[b.len() - 2]);
            lemma_words_nonempty(b.drop_last());
            assert((p + q).drop_last().push((p + q).last().push(x)) =~= p + q.drop_last().push(
                q.last().push(x),
            ));
        } else {
            if b.len() >= 2 {
                assert(s[s.len() - 2] == b[b.len() - 2]);
            } else {
                assert(s[s.len() - 2] == c);
            }
            assert((p + q).push(seq![x]) =~= p + q.push(seq![x]));
        }
    }
}

/// A text without line breaks is one line.
pub proof fn law_pieces_of_line(s: Seq<char>)
    requires
        forall|k: int| 0 <= k < s.len() ==> #[trigger] s[k] != '\n',
    ensures
        pieces(s) == seq![s],
    decreases s.len(),
{
    if s.len() > 0 {
        assert forall|k: int| 0 <= k < s.drop_last().len() implies #[trigger] s.drop_last()[k]
            != '\n' by {
            assert(s.drop_last()[k] == s[k]);
        }
        law_pieces_of_line(s.drop_last());
        let prev = pieces(s.drop_last());
        assert(prev.last() == s.drop_last());
        assert(s.drop_last().push(s.last()) =~= s);
        assert(prev.drop_last().push(prev.last().push(s.last())) =~= seq![s]);
    } else {
        assert(s =~= Seq::<char>::empty());
    }
}

/// A line break separates lines: the lines of `a`, a line break, then `b`
/// are the lines of `a` followed by those of `b`.
pub proof fn law_pieces_split(a: Seq<char>, b: Seq<char>)
    ensures
        pieces(a + seq!['\n'] + b) == pieces(a) + pieces(b),
    decreases b.len(),
{
    let s = a + seq!['\n'] + b;
    if b.len() == 0 {
        assert(s.drop_last() =~= a);
        assert(pieces(a).push(Seq::empty()) =~= pieces(a) + pieces(b));
    } else {
        assert(s.drop_last() =~= a + seq!['\n'] + b.drop_last());
        law_pieces_split(a, b.drop_last());
        lemma_pieces_nonempty(b.drop_last());
        let p = pieces(a);
        let q = pieces(b.drop_last());
        let x = b.last();
        if x == '\n' {
            assert((p + q).push(Seq::empty()) =~= p + q.push(Seq::empty()));
        } else {
            assert((p + q).drop_last().push((p + q).last().push(x)) =~= p + q.drop_last().push(
                q.last().push(x),
            ));
        }
    }
}

/// The views of a vector of character vectors.
pub open spec fn char_seqs(v: Seq<Vec<char>>) -> Seq<Seq<char>> {
    v.map_values(|t: Vec<char>| t@)
}

/// Appends a character to a `String` (`String::push`), which the standard
/// library documents as appending the given char to the end of the string.
#[verifier::external_body]
fn push_char(s: &mut String, c: char)
    ensures
        final(s)@ == old(s)@.push(c),
{
    s.push(c)
}

/// Whether `c` is whitespace.
pub fn is_whitespace(c: char) -> (r: bool)
    ensures
        r == is_white_space(c),
{
    let v = c as u32;
    (0x9 <= v && v <= 0xD) || v == 0x20 || v == 0x85 || v == 0xA0 || v == 0x1680 || (0x2000 <= v
        && v <= 0x200A) || v == 0x2028 || v == 0x2029 || v == 0x202F || v == 0x205F || v == 0x3000
}

/// The characters of `s`.
pub fn chars_of(s: &str) -> (r: Vec<char>)
    ensures
        r@ == s@,
{
    let mut v: Vec<char> = Vec::new();
    for c in it: s.chars()
        invariant
            v@ == it.seq().take(it.index() as int),
            it.seq() == s@,
    {
        v.push(c);
    }
    v
}

/// The `String` made of the characters `v[from..to]`.
pub fn string_of(v: &Vec<char>, from: usize, to: usize) -> (r: String)
    requires
        from <= to <= v@.len(),
    ensures
        r@ == v@.subrange(from as int, to as int),
{
    let mut s = String::new();
    let mut i = from;
    while i < to
        invariant
            from <= i <= to <= v@.len(),
            s@ == v@.subrange(from as int, i as int),
        decreases to - i,
    {
        push_char(&mut s, v[i]);
        i = i + 1;
    }
    s
}

/// `s` without its leading and trailing whitespace.
pub fn trim(s: &str) -> (r: String)
    ensures
        r@ == trimmed(s@),
{
    let chars = chars_of(s);
    let n = chars.len();
    let mut i: usize = 0;
    assert(chars@.subrange(0, n as int) =~= chars@);
    while i < n && is_whitespace(chars[i])
        invariant
            i <= n,
            n == chars@.len(),
            trim_start(chars@) == trim_start(chars@.subrange(i as int, n as int)),
        decreases n - i,
    {
        assert(chars@.subrange(i as int, n as int).drop_first() =~= chars@.subrange(
            i + 1,
            n as int,
        ));
        i = i + 1;
    }
    let mut j: usize = n;
    while j > i && is_whitespace(chars[j - 1])
        invariant
            i <= j <= n,
            n == chars@.len(),
            trim_end(chars@.subrange(i as int, n as int)) == trim_end(
                chars@.subrange(i as int, j as int),
            ),
        decreases j,
    {
        assert(chars@.subrange(i as int, j as int).drop_last() =~= chars@.subrange(
            i as int,
            j - 1,
        ));
        j = j - 1;
    }
    string_of(&chars, i, j)
}

/// Whether the characters of `t` are `0.0.0.0`.
fn is_any_address(t: &Vec<char>) -> (r: bool)
    ensures
        r == (t@ == any_address()),
{
    let r = t.len() == 7 && t[0] == '0' && t[1] == '.' && t[2] == '0' && t[3] == '.' && t[4] == '0'
        && t[5] == '.' && t[6] == '0';
    proof {
        if r {
            assert(t@ =~= any_address());
        }
    }
    r
}

proof fn lemma_pieces_nonempty(s: Seq<char>)
    ensures
        pieces(s).len() >= 1,
    decreases s.len(),
{
    if s.len() > 0 {
        lemma_pieces_nonempty(s.drop_last());
    }
}

/// Once a complete line of a prefix names a default gateway, so does the
/// same line of every longer prefix.
proof fn lemma_found_gateway_stays(s: Seq<char>, k: int, g: Seq<char>)
    requires
        0 <= k <= s.len(),
        first_gateway(pieces(s.take(k)).drop_last()) == Some(g),
    ensures
        first_gateway(pieces(s).drop_last()) == Some(g),
    decreases s.len() - k,
{
    if k < s.len() {
        let x = s.take(k);
        let y = s.take(k + 1);
        assert(y.drop_last() =~= x);
        lemma_pieces_nonempty(x);
        if s[k] == '\n' {
            assert(pieces(y).drop_last() =~= pieces(x));
        } else {
            assert(pieces(y).drop_last() =~= pieces(x).drop_last());
        }
        lemma_found_gateway_stays(s, k + 1, g);
    } else {
        assert(s.take(k) =~= s);
    }
}

/// The default gateway that the output of `route print -4 0.0.0.0` names:
/// the third word of the first line whose first two words are `0.0.0.0`, or
/// the empty string when there is no such line.
pub fn default_gateway(table: &str) -> (gateway: String)
    ensures
        gateway@ == default_gateway_of(table@),
{
    let chars = chars_of(table);
    let n = chars.len();
    // The complete words of the current line, and the word being read.
    let mut line_words: Vec<Vec<char>> = Vec::new();
    let mut cur: Vec<char> = Vec::new();
    let mut i: usize = 0;
    while i < n
        invariant
            i <= n,
            n == chars@.len(),
            chars@ == table@,
            first_gateway(pieces(chars@.take(i as int)).drop_last()) is None,
            pieces(chars@.take(i as int)).len() >= 1,
            words(pieces(chars@.take(i as int)).last()) == if cur@.len() > 0 {
                char_seqs(line_words@).push(cur@)
            } else {
                char_seqs(line_words@)
            },
            cur@.len() > 0 <==> ({
                let cl = pieces(chars@.take(i as int)).last();
                cl.len() > 0 && !is_white_space(cl.last())
            }),
        decreases n - i,
    {
        let c = chars[i];
        let ghost p = chars@.take(i as int);
        let ghost q = chars@.take(i + 1);
        let ghost cl = pieces(p).last();
        assert(q.drop_last() =~= p);
        if c == '\n' {
            if cur.len() > 0 {
                line_words.push(cur);
                cur = Vec::new();
            }
            assert(pieces(q).drop_last() =~= pieces(p));
            if line_words.len() >= 3 && is_any_address(&line_words[0]) && is_any_address(
                &line_words[1],
            ) {
                proof {
                    lemma_found_gateway_stays(chars@, i + 1, line_words@[2]@);
                    lemma_pieces_nonempty(chars@);
                }
                let g = string_of(&line_words[2], 0, line_words[2].len());
                assert(line_words@[2]@.subrange(0, line_words@[2]@.len() as int)
                    =~= line_words@[2]@);
                return g;
            }
            line_words = Vec::new();
        } else {
            assert(pieces(q).drop_last() =~= pieces(p).drop_last());
            assert(cl.push(c).drop_last() =~= cl);
            if is_whitespace(c) {
                if cur.len() > 0 {
                    let ghost before = char_seqs(line_words@);
                    line_words.push(cur);
                    cur = Vec::new();
                    assert(char_seqs(line_words@) =~= before.push(words(cl).last()));
                }
            } else {
                let ghost before = char_seqs(line_words@);
                let ghost was_empty = cur@.len() == 0;
                cur.push(c);
                proof {
                    if was_empty {
                        assert(cur@ =~= seq![c]);
                    } else {
                        assert(words(cl).drop_last() =~= before);
                    }
                }
            }
        }
        i = i + 1;
    }
    if cur.len() > 0 {
        line_words.push(cur);
    }
    assert(chars@.take(n as int) =~= chars@);
    if line_words.len() >= 3 && is_any_address(&line_words[0]) && is_any_address(&line_words[1]) {
        string_of(&line_words[2], 0, line_words[2].len())
    } else {
        String::new()
    }
}

} // verus!
