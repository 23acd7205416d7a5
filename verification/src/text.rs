use vstd::prelude::*;
use vstd::string::StrSliceExecFns;
use vstd::string::StringExecFns;

verus! {

/// True when `pat` occurs in `s` starting at index `i`.
pub open spec fn occurs_at(s: Seq<char>, pat: Seq<char>, i: int) -> bool {
    &&& 0 <= i
    &&& i + pat.len() <= s.len()
    &&& forall|k: int| 0 <= k < pat.len() ==> s[i + k] == pat[k]
}

/// True when `pat` occurs somewhere in `s`.
pub open spec fn contains_seq(s: Seq<char>, pat: Seq<char>) -> bool {
    exists|i: int| occurs_at(s, pat, i)
}

/// The first index at or after `from` where `pat` occurs in `s`, if any.
pub open spec fn first_occurrence_from(s: Seq<char>, pat: Seq<char>, from: int) -> Option<int>
    decreases s.len() - from,
    when 0 <= from
{
    if from + pat.len() > s.len() {
        None
    } else if occurs_at(s, pat, from) {
        Some(from)
    } else {
        first_occurrence_from(s, pat, from + 1)
    }
}

/// An occurrence with none before it is the first occurrence.
pub proof fn lemma_first_occurrence_found(s: Seq<char>, pat: Seq<char>, from: int, i: int)
    requires
        0 <= from <= i,
        occurs_at(s, pat, i),
        forall|j: int| from <= j < i ==> !occurs_at(s, pat, j),
    ensures
        first_occurrence_from(s, pat, from) == Some(i),
    decreases i - from,
{
    if from < i {
        lemma_first_occurrence_found(s, pat, from + 1, i);
    }
}

/// Where no occurrence exists at or after `from`, there is no first occurrence.
pub proof fn lemma_first_occurrence_none(s: Seq<char>, pat: Seq<char>, from: int)
    requires
        0 <= from,
        forall|j: int| from <= j ==> !occurs_at(s, pat, j),
    ensures
        first_occurrence_from(s, pat, from) is None,
    decreases s.len() - from + 1,
{
    if from + pat.len() <= s.len() {
        lemma_first_occurrence_none(s, pat, from + 1);
    }
}

/// Whether `pat` occurs in `s` at exactly index `i`.
fn match_at(s: &str, pat: &str, i: usize, n: usize, m: usize) -> (r: bool)
    requires
        n == s@.len(),
        m == pat@.len(),
        i + m <= n,
    ensures
        r == occurs_at(s@, pat@, i as int),
{
    let mut k: usize = 0;
    while k < m
        invariant
            0 <= k <= m,
            i + m <= n,
            n == s@.len(),
            m == pat@.len(),
            forall|t: int| 0 <= t < k ==> s@[i + t] == pat@[t],
        decreases m - k,
    {
        if s.get_char(i + k) != pat.get_char(k) {
            assert(!occurs_at(s@, pat@, i as int));
            return false;
        }
        k += 1;
    }
    true
}

/// The index of the first occurrence of `pat` in `s`, if there is one.
pub fn find_sub(s: &str, pat: &str) -> (r: Option<usize>)
    ensures
        match r {
            Some(i) => {
                &&& occurs_at(s@, pat@, i as int)
                &&& forall|j: int| 0 <= j < i ==> !occurs_at(s@, pat@, j)
                &&& first_occurrence_from(s@, pat@, 0) == Some(i as int)
            },
            None => {
                &&& forall|j: int| !occurs_at(s@, pat@, j)
                &&& first_occurrence_from(s@, pat@, 0) is None
            },
        },
{
    let n = s.unicode_len();
    let m = pat.unicode_len();
    if m > n {
        proof {
            lemma_first_occurrence_none(s@, pat@, 0);
        }
        return None;
    }
    let mut i: usize = 0;
    while i <= n - m
        invariant
            m <= n,
            n == s@.len(),
            m == pat@.len(),
            0 <= i <= n - m + 1,
            forall|j: int| 0 <= j < i ==> !occurs_at(s@, pat@, j),
        decreases n - m + 1 - i,
    {
        if match_at(s, pat, i, n, m) {
            proof {
                lemma_first_occurrence_found(s@, pat@, 0, i as int);
            }
            return Some(i);
        }
        i += 1;
    }
    proof {
        assert(forall|j: int| j >= i ==> !occurs_at(s@, pat@, j));
        lemma_first_occurrence_none(s@, pat@, 0);
    }
    None
}

/// Whether `pat` occurs anywhere in `s`.
pub fn contains_sub(s: &str, pat: &str) -> (r: bool)
    ensures
        r == contains_seq(s@, pat@),
{
    match find_sub(s, pat) {
        Some(_) => true,
        None => false,
    }
}

/// The timestamp prefix and remaining title of a heading, split on the
/// first occurrence of " - "; no occurrence gives an empty timestamp and
/// the whole text as the title.
pub open spec fn spec_split_timestamp(s: Seq<char>) -> (Seq<char>, Seq<char>) {
    match first_occurrence_from(s, " - "@, 0) {
        Some(i) => (s.subrange(0, i), s.subrange(i + 3, s.len() as int)),
        None => (Seq::<char>::empty(), s),
    }
}

/// Splits a code-sample heading into its timestamp prefix and its title.
pub fn split_timestamp(text: &str) -> (r: (String, String))
    ensures
        r.0@ == spec_split_timestamp(text@).0,
        r.1@ == spec_split_timestamp(text@).1,
{
    proof {
        reveal_strlit(" - ");
    }
    match find_sub(text, " - ") {
        Some(i) => {
            let n = text.unicode_len();
            let ts = text.substring_char(0, i);
            let ti = text.substring_char(i + 3, n);
            (String::from_str(ts), String::from_str(ti))
        },
        None => (String::new(), String::from_str(text)),
    }
}

/// The views of each string in a sequence of strings.
pub open spec fn views_of(parts: Seq<String>) -> Seq<Seq<char>> {
    parts.map_values(|p: String| p@)
}

/// `parts` joined with `sep` between consecutive elements.
pub open spec fn spec_join(parts: Seq<Seq<char>>, sep: Seq<char>) -> Seq<char>
    decreases parts.len(),
{
    if parts.len() == 0 {
        Seq::<char>::empty()
    } else if parts.len() == 1 {
        parts[0]
    } else {
        spec_join(parts.drop_last(), sep) + sep + parts.last()
    }
}

/// Joins the strings of `parts` with `sep` between consecutive elements.
pub fn join_with(parts: &Vec<String>, sep: &str) -> (r: String)
    ensures
        r@ == spec_join(parts.deep_view(), sep@),
{
    let mut out = String::new();
    let mut i: usize = 0;
    while i < parts.len()
        invariant
            0 <= i <= parts.len(),
            out@ == spec_join(parts.deep_view().take(i as int), sep@),
        decreases parts.len() - i,
    {
        if i > 0 {
            out.append(sep);
        }
        out.append(parts[i].as_str());
        proof {
            let pv = parts.deep_view();
            assert(pv.take(i + 1).drop_last() =~= pv.take(i as int));
            assert(pv.take(i + 1).last() == pv[i as int]);
            assert(out@ =~= spec_join(pv.take(i + 1), sep@));
        }
        i += 1;
    }
    proof {
        assert(parts.deep_view().take(parts.len() as int) =~= parts.deep_view());
    }
    out
}

/// Whether `c` has the Unicode White_Space property, as char::is_whitespace
/// reports it.
pub open spec fn is_ws_char(c: char) -> bool {
    ||| c == ' '
    ||| c == '\t'
    ||| c == '\n'
    ||| c == '\u{000B}'
    ||| c == '\u{000C}'
    ||| c == '\r'
    ||| c == '\u{0085}'
    ||| c == '\u{00A0}'
    ||| c == '\u{1680}'
    ||| c == '\u{2000}'
    ||| c == '\u{2001}'
    ||| c == '\u{2002}'
    ||| c == '\u{2003}'
    ||| c == '\u{2004}'
    ||| c == '\u{2005}'
    ||| c == '\u{2006}'
    ||| c == '\u{2007}'
    ||| c == '\u{2008}'
    ||| c == '\u{2009}'
    ||| c == '\u{200A}'
    ||| c == '\u{2028}'
    ||| c == '\u{2029}'
    ||| c == '\u{202F}'
    ||| c == '\u{205F}'
    ||| c == '\u{3000}'
}

/// Whether `c` is whitespace in the sense of the Unicode White_Space property.
pub fn ws_char(c: char) -> (r: bool)
    ensures
        r == is_ws_char(c),
{
    c == ' ' || c == '\t' || c == '\n' || c == '\u{000B}' || c == '\u{000C}' || c == '\r'
        || c == '\u{0085}' || c == '\u{00A0}' || c == '\u{1680}' || c == '\u{2000}'
        || c == '\u{2001}' || c == '\u{2002}' || c == '\u{2003}' || c == '\u{2004}'
        || c == '\u{2005}' || c == '\u{2006}' || c == '\u{2007}' || c == '\u{2008}'
        || c == '\u{2009}' || c == '\u{200A}' || c == '\u{2028}' || c == '\u{2029}'
        || c == '\u{202F}' || c == '\u{205F}' || c == '\u{3000}'
}

/// The index of the first non-whitespace character at or after `from`;
/// `s.len()` if every later character is whitespace.
pub open spec fn scan_start(s: Seq<char>, from: int) -> int
    decreases s.len() - from,
    when 0 <= from <= s.len()
{
    if from >= s.len() {
        s.len() as int
    } else if !is_ws_char(s[from]) {
        from
    } else {
        scan_start(s, from + 1)
    }
}

/// One past the index of the last non-whitespace character before `upto`;
/// 0 if every earlier character is whitespace.
pub open spec fn scan_end(s: Seq<char>, upto: int) -> int
    decreases upto,
    when 0 <= upto <= s.len()
{
    if upto <= 0 {
        0
    } else if !is_ws_char(s[upto - 1]) {
        upto
    } else {
        scan_end(s, upto - 1)
    }
}

/// `s` with leading and trailing whitespace removed.
pub open spec fn spec_trim(s: Seq<char>) -> Seq<char> {
    let a = scan_start(s, 0);
    let b = scan_end(s, s.len() as int);
    if a < b {
        s.subrange(a, b)
    } else {
        Seq::<char>::empty()
    }
}

proof fn lemma_scan_end_le(s: Seq<char>, upto: int)
    requires
        0 <= upto <= s.len(),
    ensures
        0 <= scan_end(s, upto) <= upto,
    decreases upto,
{
    if upto > 0 && is_ws_char(s[upto - 1]) {
        lemma_scan_end_le(s, upto - 1);
    }
}

/// Removes leading and trailing whitespace.
pub fn trim_str(s: &str) -> (r: String)
    ensures
        r@ == spec_trim(s@),
{
    let n = s.unicode_len();
    let mut a: usize = 0;
    while a < n && ws_char(s.get_char(a))
        invariant
            0 <= a <= n,
            n == s@.len(),
            scan_start(s@, 0) == scan_start(s@, a as int),
        decreases n - a,
    {
        a += 1;
    }
    if a == n {
        proof {
            lemma_scan_end_le(s@, n as int);
        }
        return String::new();
    }
    let mut b: usize = n;
    while b > a && ws_char(s.get_char(b - 1))
        invariant
            a < b <= n,
            a < n,
            n == s@.len(),
            !is_ws_char(s@[a as int]),
            scan_end(s@, n as int) == scan_end(s@, b as int),
        decreases b,
    {
        proof {
            assert(b - 1 > a) by {
                if b - 1 == a {
                    assert(is_ws_char(s@[a as int]));
                }
            }
        }
        b -= 1;
    }
    String::from_str(s.substring_char(a, b))
}

/// Whether `c` is replaced by an underscore during filename sanitization.
pub open spec fn is_replaced_char(c: char) -> bool {
    ||| c == '/'
    ||| c == '\\'
    ||| c == ':'
    ||| c == '*'
    ||| c == '?'
    ||| c == '"'
    ||| c == '<'
    ||| c == '>'
    ||| c == '|'
    ||| c == ' '
}

/// Each filename-hostile character of `s` replaced by an underscore.
pub open spec fn spec_replace(s: Seq<char>) -> Seq<char> {
    s.map_values(|c: char| if is_replaced_char(c) { '_' } else { c })
}

fn replaced_char(c: char) -> (r: bool)
    ensures
        r == is_replaced_char(c),
{
    c == '/' || c == '\\' || c == ':' || c == '*' || c == '?' || c == '"' || c == '<' || c == '>'
        || c == '|' || c == ' '
}

/// Replaces every filename-hostile character with an underscore.
fn replace_chars(s: &str) -> (r: String)
    ensures
        r@ == spec_replace(s@),
{
    let n = s.unicode_len();
    let mut out = String::new();
    let mut i: usize = 0;
    while i < n
        invariant
            0 <= i <= n,
            n == s@.len(),
            out@ == spec_replace(s@.take(i as int)),
        decreases n - i,
    {
        let c = s.get_char(i);
        if replaced_char(c) {
            out.append("_");
            proof {
                reveal_strlit("_");
            }
        } else {
            out.append(s.substring_char(i, i + 1));
        }
        proof {
            assert(out@ =~= spec_replace(s@.take(i + 1)));
        }
        i += 1;
    }
    proof {
        assert(s@.take(n as int) =~= s@);
    }
    out
}

/// What str::to_lowercase returns; a function of the characters alone.
pub uninterp spec fn lower_of(s: Seq<char>) -> Seq<char>;

/// Relies on str::to_lowercase: the Unicode lowercase of the string,
/// determined by its characters alone; an empty string stays empty.
#[verifier::external_body]
pub(crate) fn lowercase(s: &str) -> (r: String)
    ensures
        r@ == lower_of(s@),
        s@.len() == 0 ==> r@.len() == 0,
{
    s.to_lowercase()
}

/// The sanitized form of a title used inside output filenames: hostile
/// characters replaced by underscores, the result lower-cased, then trimmed.
pub open spec fn spec_sanitize(s: Seq<char>) -> Seq<char> {
    spec_trim(lower_of(spec_replace(s)))
}

/// Makes a title safe for use inside a filename.
pub fn sanitize_filename(filename: &str) -> (r: String)
    ensures
        r@ == spec_sanitize(filename@),
{
    let replaced = replace_chars(filename);
    let lowered = lowercase(replaced.as_str());
    trim_str(lowered.as_str())
}

/// `s` with every zero-width-space character removed.
pub open spec fn spec_strip_zwsp(s: Seq<char>) -> Seq<char> {
    s.filter(|c: char| c != '\u{200B}')
}

/// Removes every zero-width-space character.
pub fn strip_zwsp(s: &str) -> (r: String)
    ensures
        r@ == spec_strip_zwsp(s@),
{
    let n = s.unicode_len();
    let mut out = String::new();
    let mut i: usize = 0;
    proof {
        reveal(Seq::<char>::filter);
        assert(out@ =~= spec_strip_zwsp(s@.take(0)));
    }
    while i < n
        invariant
            0 <= i <= n,
            n == s@.len(),
            out@ == spec_strip_zwsp(s@.take(i as int)),
        decreases n - i,
    {
        let c = s.get_char(i);
        if c != '\u{200B}' {
            out.append(s.substring_char(i, i + 1));
        }
        proof {
            reveal(Seq::<char>::filter);
            let t1 = s@.take(i + 1);
            assert(t1.drop_last() =~= s@.take(i as int));
            assert(t1.last() == s@[i as int]);
            assert(out@ =~= spec_strip_zwsp(t1));
        }
        i += 1;
    }
    proof {
        assert(s@.take(n as int) =~= s@);
    }
    out
}

} // verus!
