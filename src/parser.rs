//! Splits a raw foreground-window identifier into application name, window
//! title and bundle identifier.

use vstd::prelude::*;

verus! {

/// The structured form of an identifier: `name - window (bundle)`, where the
/// first two groups are as short as possible and the last runs to the final
/// closing parenthesis.
pub const APP_INFO_PATTERN: &'static str = r"^(.*?) - (.*?) \((.*?)\)$";

/// The application name given when an identifier is empty.
pub const UNKNOWN_APP: &'static str = "Unknown App";

/// No line break in `s` (what `.` of a regular expression matches).
pub open spec fn no_newline(s: Seq<char>) -> bool {
    forall|i: int| 0 <= i < s.len() ==> s[i] != '\n'
}

/// `s` reads `a - b (c)`, with no line break in any of the three parts.
pub open spec fn has_shape(s: Seq<char>, a: Seq<char>, b: Seq<char>, c: Seq<char>) -> bool {
    &&& no_newline(a)
    &&& no_newline(b)
    &&& no_newline(c)
    &&& s == a + " - "@ + b + " ("@ + c + ")"@
}

/// `s` can be read as `a - b (c)` in at least one way.
pub open spec fn matches_shape(s: Seq<char>) -> bool {
    exists|a: Seq<char>, b: Seq<char>, c: Seq<char>| has_shape(s, a, b, c)
}

/// `(a, b, c)` is the reading of `s` with the shortest `a`, and among those
/// the shortest `b`: the one that lazy groups pick.
pub open spec fn is_lazy_capture(s: Seq<char>, a: Seq<char>, b: Seq<char>, c: Seq<char>) -> bool {
    &&& has_shape(s, a, b, c)
    &&& forall|a2: Seq<char>, b2: Seq<char>, c2: Seq<char>|
        #[trigger] has_shape(s, a2, b2, c2) ==> a.len() < a2.len() || (a.len() == a2.len()
            && b.len() <= b2.len())
}

/// The separator ` - ` starts at position `i` of `s`.
pub open spec fn sep_at(s: Seq<char>, i: int) -> bool {
    0 <= i && i + 3 <= s.len() && s.subrange(i, i + 3) == " - "@
}

/// The opening ` (` starts at position `i` of `s`.
pub open spec fn open_at(s: Seq<char>, i: int) -> bool {
    0 <= i && i + 2 <= s.len() && s.subrange(i, i + 2) == " ("@
}

/// No separator starts before position `n` of `s`.
pub open spec fn no_sep_before(s: Seq<char>, n: int) -> bool {
    forall|j: int| 0 <= j < n ==> !sep_at(s, j)
}

/// `i` is where the first separator of `s` starts.
pub open spec fn is_first_sep(s: Seq<char>, i: int) -> bool {
    sep_at(s, i) && no_sep_before(s, i)
}

/// The reading of an identifier that does not have the structured form:
/// what stands before the first separator, what follows it, and no bundle.
pub open spec fn fallback_info(s: Seq<char>) -> (Seq<char>, Seq<char>, Seq<char>) {
    if s.len() == 0 {
        (UNKNOWN_APP@, Seq::empty(), Seq::empty())
    } else if exists|i: int| is_first_sep(s, i) {
        let i = choose|i: int| is_first_sep(s, i);
        (s.subrange(0, i), s.subrange(i + 3, s.len() as int), Seq::empty())
    } else {
        (s, Seq::empty(), Seq::empty())
    }
}

/// `(app, window, bundle)` is how the identifier `s` reads.
pub open spec fn parsed_as(s: Seq<char>, app: Seq<char>, window: Seq<char>, bundle: Seq<char>) -> bool {
    if matches_shape(s) {
        is_lazy_capture(s, app, window, bundle)
    } else {
        (app, window, bundle) == fallback_info(s)
    }
}

/// Relies on regex::Regex::new and regex::Regex::captures: with the pattern
/// above, a match exists exactly when the text reads `a - b (c)` with no line
/// break in a part, and the groups hold the leftmost-first (lazy) reading.
#[verifier::external_body]
fn capture_app_info(pattern: &str, text: &str) -> (r: Option<(String, String, String)>)
    requires
        pattern@ == APP_INFO_PATTERN@,
    ensures
        match r {
            Some(t) => is_lazy_capture(text@, t.0@, t.1@, t.2@),
            None => !matches_shape(text@),
        },
{
    let caps = regex::Regex::new(pattern).unwrap().captures(text)?;
    Some((caps[1].to_string(), caps[2].to_string(), caps[3].to_string()))
}

/// Where the parts of a reading `a - b (c)` stand in `s`.
proof fn lemma_shape_parts(s: Seq<char>, a: Seq<char>, b: Seq<char>, c: Seq<char>)
    requires
        has_shape(s, a, b, c),
    ensures
        s.len() == a.len() + b.len() + c.len() + 6,
        s.subrange(0, a.len() as int) == a,
        sep_at(s, a.len() as int),
        s.subrange(a.len() + 3 as int, (a.len() + 3 + b.len()) as int) == b,
        open_at(s, (a.len() + 3 + b.len()) as int),
        s.subrange((a.len() + b.len() + 5) as int, s.len() - 1) == c,
{
    reveal_strlit(" - ");
    reveal_strlit(" (");
    reveal_strlit(")");
    let n = a.len() as int;
    let m = b.len() as int;
    assert(s.subrange(0, n) =~= a);
    assert(s.subrange(n, n + 3) =~= " - "@);
    assert(s.subrange(n + 3, n + 3 + m) =~= b);
    assert(s.subrange(n + 3 + m, n + 5 + m) =~= " ("@);
    assert(s.subrange(n + m + 5, s.len() - 1) =~= c);
}

/// A reading is fixed by the lengths of its first two parts.
pub proof fn lemma_shape_unique(
    s: Seq<char>,
    a: Seq<char>,
    b: Seq<char>,
    c: Seq<char>,
    a2: Seq<char>,
    b2: Seq<char>,
    c2: Seq<char>,
)
    requires
        has_shape(s, a, b, c),
        has_shape(s, a2, b2, c2),
        a.len() == a2.len(),
        b.len() == b2.len(),
    ensures
        a == a2,
        b == b2,
        c == c2,
{
    lemma_shape_parts(s, a, b, c);
    lemma_shape_parts(s, a2, b2, c2);
}

/// Finds where the first separator ` - ` of `s` starts.
fn find_separator(s: &str) -> (r: Option<usize>)
    ensures
        match r {
            Some(i) => is_first_sep(s@, i as int),
            None => forall|j: int| !sep_at(s@, j),
        },
{
    let n = s.unicode_len();
    let mut i: usize = 0;
    while i < n && n - i >= 3
        invariant
            n == s@.len(),
            i <= n,
            no_sep_before(s@, i as int),
        decreases n - i,
    {
        proof {
            reveal_strlit(" - ");
        }
        if s.get_char(i) == ' ' && s.get_char(i + 1) == '-' && s.get_char(i + 2) == ' ' {
            assert(s@.subrange(i as int, i + 3) =~= " - "@);
            return Some(i);
        }
        assert(!sep_at(s@, i as int)) by {
            if sep_at(s@, i as int) {
                assert(s@.subrange(i as int, i + 3)[0] == ' ');
                assert(s@.subrange(i as int, i + 3)[1] == '-');
                assert(s@.subrange(i as int, i + 3)[2] == ' ');
            }
        }
        i = i + 1;
    }
    None
}

/// Reads an identifier that lacks the structured form.
fn fallback_app_info(app_info: &str) -> (r: (String, String, String))
    ensures
        (r.0@, r.1@, r.2@) == fallback_info(app_info@),
{
    let n = app_info.unicode_len();
    if n == 0 {
        return (String::from_str(UNKNOWN_APP), String::new(), String::new());
    }
    match find_separator(app_info) {
        Some(i) => {
            proof {
                let j = choose|j: int| is_first_sep(app_info@, j);
                assert(j == i);
            }
            (
                String::from_str(app_info.substring_char(0, i)),
                String::from_str(app_info.substring_char(i + 3, n)),
                String::new(),
            )
        },
        None => (String::from_str(app_info), String::new(), String::new()),
    }
}

/// Splits a raw identifier into application name, window title and bundle
/// identifier. The structured form `name - window (bundle)` gives its three
/// parts; any other text gives what precedes and follows its first ` - `
/// (`Unknown App` for an empty text) and an empty bundle.
pub fn parse_app_info(app_info: &str) -> (r: (String, String, String))
    ensures
        parsed_as(app_info@, r.0@, r.1@, r.2@),
{
    match capture_app_info(APP_INFO_PATTERN, app_info) {
        Some(t) => t,
        None => fallback_app_info(app_info),
    }
}

/// An identifier of the form `a - b (c)` reads as exactly `(a, b, c)`, where
/// no part holds a line break, no ` - ` starts inside `a` and no ` (` starts
/// inside `b` (otherwise shorter first parts would be read).
pub proof fn lemma_parse_structured(a: Seq<char>, b: Seq<char>, c: Seq<char>)
    requires
        no_newline(a),
        no_newline(b),
        no_newline(c),
        no_sep_before(a + " - "@ + b + " ("@ + c + ")"@, a.len() as int),
        forall|j: int|
            a.len() + 3 <= j < a.len() + 3 + b.len() ==> !open_at(
                a + " - "@ + b + " ("@ + c + ")"@,
                j,
            ),
    ensures
        forall|x: Seq<char>, y: Seq<char>, z: Seq<char>|
            parsed_as(a + " - "@ + b + " ("@ + c + ")"@, x, y, z) <==> (x == a && y == b && z
                == c),
{
    let s = a + " - "@ + b + " ("@ + c + ")"@;
    assert(has_shape(s, a, b, c));
    assert forall|a2: Seq<char>, b2: Seq<char>, c2: Seq<char>|
        #[trigger] has_shape(s, a2, b2, c2) implies a.len() < a2.len() || (a.len() == a2.len()
            && b.len() <= b2.len()) by {
        lemma_shape_parts(s, a2, b2, c2);
        lemma_shape_parts(s, a, b, c);
        if a2.len() < a.len() {
            assert(sep_at(s, a2.len() as int));
        } else if a2.len() == a.len() && b2.len() < b.len() {
            assert(open_at(s, (a.len() + 3 + b2.len()) as int));
        }
    }
    assert(is_lazy_capture(s, a, b, c));
    assert forall|x: Seq<char>, y: Seq<char>, z: Seq<char>|
        parsed_as(s, x, y, z) implies (x == a && y == b && z == c) by {
        assert(has_shape(s, x, y, z));
        lemma_shape_unique(s, a, b, c, x, y, z);
    }
}

} // verus!
