//! The preprocessor: reduces the comment-and-trailing-comma-tolerant input to
//! strict JSON text.
//!
//! Two passes run in order.  The first overwrites `//` line comments (the
//! newline stays) and `/* */` block comments with spaces, everywhere outside
//! string literals.  The second removes every comma that stands outside
//! string literals and is followed, across whitespace only, by a closing
//! brace `}`; a comma before a closing bracket `]` is deliberately left
//! alone.  Both passes track string literals, escape sequences included, so
//! the content of a string is never touched; on text with no comment and no
//! such comma outside strings — strict JSON in particular — preprocessing is
//! the identity, which [`lemma_preprocess_identity`] states.

use vstd::prelude::*;

verus! {

/// JSON insignificant whitespace.
pub open spec fn is_ws(c: char) -> bool {
    c == ' ' || c == '\t' || c == '\n' || c == '\r'
}

/// The first position at or after `i` holding a non-whitespace character
/// (or the length of `s` if there is none).
pub open spec fn skip_ws(s: Seq<char>, i: int) -> int
    decreases s.len() - i,
{
    if i < 0 || i >= s.len() {
        i
    } else if is_ws(s[i]) {
        skip_ws(s, i + 1)
    } else {
        i
    }
}

/// Whether the character at `i` is a comma whose next non-whitespace
/// character is a closing brace.  The comma pass drops exactly these
/// commas, and only outside string literals.
pub open spec fn dropped_comma_at(s: Seq<char>, i: int) -> bool {
    &&& 0 <= i < s.len()
    &&& s[i] == ','
    &&& {
        let j = skip_ws(s, i + 1);
        j < s.len() && s[j] == '}'
    }
}

/// The string-literal state of the comma pass, between two characters.
#[derive(Clone, Copy)]
pub enum LitState {
    /// Outside string literals.
    Code,
    /// Inside a string literal.
    InStr,
    /// Inside a string literal, right after a backslash.
    InStrEsc,
}

/// The comma pass's transition on one character.
pub open spec fn lit_step(st: LitState, c: char) -> LitState {
    match st {
        LitState::Code => {
            if c == '"' {
                LitState::InStr
            } else {
                LitState::Code
            }
        },
        LitState::InStr => {
            if c == '\\' {
                LitState::InStrEsc
            } else if c == '"' {
                LitState::Code
            } else {
                LitState::InStr
            }
        },
        LitState::InStrEsc => LitState::InStr,
    }
}

/// The comma pass's state before reading the character at `i`.
pub open spec fn lit_state_at(s: Seq<char>, i: int) -> LitState
    decreases i,
{
    if i <= 0 {
        LitState::Code
    } else {
        lit_step(lit_state_at(s, i - 1), s[i - 1])
    }
}

/// The comma pass, from position `i` on, in state `st`: every character is
/// kept except a comma that stands outside string literals and satisfies
/// [`dropped_comma_at`].
pub open spec fn strip_commas_from(s: Seq<char>, i: int, st: LitState) -> Seq<char>
    decreases s.len() - i,
{
    if i < 0 || i >= s.len() {
        Seq::empty()
    } else if st is Code && dropped_comma_at(s, i) {
        strip_commas_from(s, i + 1, lit_step(st, s[i]))
    } else {
        seq![s[i]] + strip_commas_from(s, i + 1, lit_step(st, s[i]))
    }
}

/// The whole comma pass.
pub open spec fn strip_commas_spec(s: Seq<char>) -> Seq<char> {
    strip_commas_from(s, 0, LitState::Code)
}

fn ws_char(c: char) -> (r: bool)
    ensures
        r == is_ws(c),
{
    c == ' ' || c == '\t' || c == '\n' || c == '\r'
}

fn lit_step_exec(st: LitState, c: char) -> (r: LitState)
    ensures
        r == lit_step(st, c),
{
    match st {
        LitState::Code => {
            if c == '"' {
                LitState::InStr
            } else {
                LitState::Code
            }
        },
        LitState::InStr => {
            if c == '\\' {
                LitState::InStrEsc
            } else if c == '"' {
                LitState::Code
            } else {
                LitState::InStr
            }
        },
        LitState::InStrEsc => LitState::InStr,
    }
}

/// The first non-whitespace position at or after `from`.
fn next_non_ws(v: &Vec<char>, from: usize) -> (j: usize)
    requires
        from <= v@.len(),
    ensures
        j == skip_ws(v@, from as int),
        from <= j <= v@.len(),
    decreases v@.len() - from,
{
    let mut j: usize = from;
    while j < v.len() && ws_char(v[j])
        invariant
            from <= j <= v@.len(),
            skip_ws(v@, from as int) == skip_ws(v@, j as int),
        decreases v@.len() - j,
    {
        j = j + 1;
    }
    j
}

/// Executes the comma pass: drops every comma outside string literals that
/// precedes, across whitespace only, a closing brace.
pub fn strip_trailing_commas(v: &Vec<char>) -> (r: Vec<char>)
    ensures
        r@ == strip_commas_spec(v@),
{
    let mut r: Vec<char> = Vec::new();
    let mut st = LitState::Code;
    let mut i: usize = 0;
    while i < v.len()
        invariant
            i <= v@.len(),
            strip_commas_spec(v@) == r@ + strip_commas_from(v@, i as int, st),
        decreases v@.len() - i,
    {
        let c = v[i];
        let mut drop_it = false;
        match st {
            LitState::Code => {
                if c == ',' {
                    let j = next_non_ws(v, i + 1);
                    if j < v.len() && v[j] == '}' {
                        drop_it = true;
                    }
                }
            },
            _ => (),
        }
        if !drop_it {
            r.push(c);
        }
        st = lit_step_exec(st, c);
        i = i + 1;
    }
    r
}

/// The scanner state of the comment pass, between two characters of the
/// input.
#[derive(Clone, Copy)]
pub enum ScanState {
    /// Outside strings and comments.
    Code,
    /// Outside strings and comments, right after a `/` that may open a
    /// comment; the `/` is held back until the next character decides.
    CodeSlash,
    /// Inside a string literal.
    InStr,
    /// Inside a string literal, right after a backslash.
    InStrEsc,
    /// Inside a `//` comment.
    LineComment,
    /// Inside a `/* */` comment.
    BlockComment,
    /// Inside a `/* */` comment, right after a `*` that may close it.
    BlockStar,
}

/// The scanner's transition on one character.
pub open spec fn scan_step(st: ScanState, c: char) -> ScanState {
    match st {
        ScanState::Code => {
            if c == '"' {
                ScanState::InStr
            } else if c == '/' {
                ScanState::CodeSlash
            } else {
                ScanState::Code
            }
        },
        ScanState::CodeSlash => {
            if c == '/' {
                ScanState::LineComment
            } else if c == '*' {
                ScanState::BlockComment
            } else if c == '"' {
                ScanState::InStr
            } else {
                ScanState::Code
            }
        },
        ScanState::InStr => {
            if c == '\\' {
                ScanState::InStrEsc
            } else if c == '"' {
                ScanState::Code
            } else {
                ScanState::InStr
            }
        },
        ScanState::InStrEsc => ScanState::InStr,
        ScanState::LineComment => {
            if c == '\n' {
                ScanState::Code
            } else {
                ScanState::LineComment
            }
        },
        ScanState::BlockComment => {
            if c == '*' {
                ScanState::BlockStar
            } else {
                ScanState::BlockComment
            }
        },
        ScanState::BlockStar => {
            if c == '/' {
                ScanState::Code
            } else if c == '*' {
                ScanState::BlockStar
            } else {
                ScanState::BlockComment
            }
        },
    }
}

/// What the scanner writes out on one character.  Comment characters become
/// spaces, a newline ends a line comment and survives, and a held-back `/`
/// is written once the next character shows it did not open a comment.
pub open spec fn scan_emit(st: ScanState, c: char) -> Seq<char> {
    match st {
        ScanState::Code => {
            if c == '/' {
                Seq::empty()
            } else {
                seq![c]
            }
        },
        ScanState::CodeSlash => {
            if c == '/' || c == '*' {
                seq![' ', ' ']
            } else {
                seq!['/', c]
            }
        },
        ScanState::InStr => seq![c],
        ScanState::InStrEsc => seq![c],
        ScanState::LineComment => {
            if c == '\n' {
                seq!['\n']
            } else {
                seq![' ']
            }
        },
        ScanState::BlockComment => seq![' '],
        ScanState::BlockStar => seq![' '],
    }
}

/// What the scanner writes out at the end of the input: only a still
/// held-back `/`.
pub open spec fn scan_flush(st: ScanState) -> Seq<char> {
    if st is CodeSlash {
        seq!['/']
    } else {
        Seq::empty()
    }
}

/// The comment pass, from position `i` on, in scanner state `st`.
pub open spec fn strip_comments_from(s: Seq<char>, i: int, st: ScanState) -> Seq<char>
    decreases s.len() - i,
{
    if i < 0 || i >= s.len() {
        scan_flush(st)
    } else {
        scan_emit(st, s[i]) + strip_comments_from(s, i + 1, scan_step(st, s[i]))
    }
}

/// The whole comment pass.
pub open spec fn strip_comments_spec(s: Seq<char>) -> Seq<char> {
    strip_comments_from(s, 0, ScanState::Code)
}

/// The comment pass's state before reading the character at `i`.
pub open spec fn scan_state_at(s: Seq<char>, i: int) -> ScanState
    decreases i,
{
    if i <= 0 {
        ScanState::Code
    } else {
        scan_step(scan_state_at(s, i - 1), s[i - 1])
    }
}

fn scan_step_exec(st: ScanState, c: char) -> (r: ScanState)
    ensures
        r == scan_step(st, c),
{
    match st {
        ScanState::Code => {
            if c == '"' {
                ScanState::InStr
            } else if c == '/' {
                ScanState::CodeSlash
            } else {
                ScanState::Code
            }
        },
        ScanState::CodeSlash => {
            if c == '/' {
                ScanState::LineComment
            } else if c == '*' {
                ScanState::BlockComment
            } else if c == '"' {
                ScanState::InStr
            } else {
                ScanState::Code
            }
        },
        ScanState::InStr => {
            if c == '\\' {
                ScanState::InStrEsc
            } else if c == '"' {
                ScanState::Code
            } else {
                ScanState::InStr
            }
        },
        ScanState::InStrEsc => ScanState::InStr,
        ScanState::LineComment => {
            if c == '\n' {
                ScanState::Code
            } else {
                ScanState::LineComment
            }
        },
        ScanState::BlockComment => {
            if c == '*' {
                ScanState::BlockStar
            } else {
                ScanState::BlockComment
            }
        },
        ScanState::BlockStar => {
            if c == '/' {
                ScanState::Code
            } else if c == '*' {
                ScanState::BlockStar
            } else {
                ScanState::BlockComment
            }
        },
    }
}

fn scan_emit_exec(st: ScanState, c: char) -> (e: Vec<char>)
    ensures
        e@ == scan_emit(st, c),
{
    let mut e: Vec<char> = Vec::new();
    match st {
        ScanState::Code => {
            if c != '/' {
                e.push(c);
            }
        },
        ScanState::CodeSlash => {
            if c == '/' || c == '*' {
                e.push(' ');
                e.push(' ');
            } else {
                e.push('/');
                e.push(c);
            }
        },
        ScanState::InStr => e.push(c),
        ScanState::InStrEsc => e.push(c),
        ScanState::LineComment => {
            if c == '\n' {
                e.push('\n');
            } else {
                e.push(' ');
            }
        },
        ScanState::BlockComment => e.push(' '),
        ScanState::BlockStar => e.push(' '),
    }
    proof {
        assert(e@ =~= scan_emit(st, c));
    }
    e
}

/// Executes the comment pass: blanks out comments outside string literals.
pub fn strip_comments(v: &Vec<char>) -> (r: Vec<char>)
    ensures
        r@ == strip_comments_spec(v@),
{
    let mut r: Vec<char> = Vec::new();
    let mut st = ScanState::Code;
    let mut i: usize = 0;
    while i < v.len()
        invariant
            i <= v@.len(),
            strip_comments_spec(v@) == r@ + strip_comments_from(v@, i as int, st),
        decreases v@.len() - i,
    {
        let c = v[i];
        let mut e = scan_emit_exec(st, c);
        r.append(&mut e);
        st = scan_step_exec(st, c);
        i = i + 1;
    }
    match st {
        ScanState::CodeSlash => r.push('/'),
        _ => (),
    }
    proof {
        assert(r@ =~= strip_comments_spec(v@));
    }
    r
}

/// Both passes in order: first the comments, then the trailing commas.
pub open spec fn preprocess_spec(s: Seq<char>) -> Seq<char> {
    strip_commas_spec(strip_comments_spec(s))
}

/// Reduces the tolerant input text to strict JSON text.
pub fn preprocess(v: &Vec<char>) -> (r: Vec<char>)
    ensures
        r@ == preprocess_spec(v@),
{
    let pass1 = strip_comments(v);
    strip_trailing_commas(&pass1)
}

/// A scanner state that is outside every comment, held-back slash included.
pub open spec fn plain_scan(st: ScanState) -> bool {
    st is Code || st is InStr || st is InStrEsc
}

/// Text with no `/` outside string literals never drives the scanner into a
/// comment state.
proof fn lemma_scan_states_stay_plain(s: Seq<char>, i: int)
    requires
        0 <= i <= s.len(),
        forall|j: int|
            0 <= j < s.len() ==> (#[trigger] scan_state_at(s, j) is Code ==> s[j] != '/'),
    ensures
        plain_scan(scan_state_at(s, i)),
    decreases i,
{
    if i > 0 {
        lemma_scan_states_stay_plain(s, i - 1);
    }
}

/// On text with no `/` outside string literals, the comment pass writes the
/// tail from `i` on out unchanged.
proof fn lemma_comments_identity_from(s: Seq<char>, i: int)
    requires
        0 <= i <= s.len(),
        forall|j: int|
            0 <= j < s.len() ==> (#[trigger] scan_state_at(s, j) is Code ==> s[j] != '/'),
    ensures
        strip_comments_from(s, i, scan_state_at(s, i)) == s.skip(i),
    decreases s.len() - i,
{
    lemma_scan_states_stay_plain(s, i);
    if i < s.len() {
        lemma_comments_identity_from(s, i + 1);
        assert(scan_emit(scan_state_at(s, i), s[i]) =~= seq![s[i]]);
        assert(seq![s[i]] + s.skip(i + 1) =~= s.skip(i));
    } else {
        assert(s.skip(i) =~= Seq::<char>::empty());
    }
}

/// On text with no comma outside string literals that precedes, across
/// whitespace only, a closing brace, the comma pass writes the tail from
/// `i` on out unchanged.
proof fn lemma_commas_identity_from(s: Seq<char>, i: int)
    requires
        0 <= i <= s.len(),
        forall|j: int|
            0 <= j < s.len() ==> !(#[trigger] lit_state_at(s, j) is Code && dropped_comma_at(
                s,
                j,
            )),
    ensures
        strip_commas_from(s, i, lit_state_at(s, i)) == s.skip(i),
    decreases s.len() - i,
{
    if i < s.len() {
        lemma_commas_identity_from(s, i + 1);
        assert(seq![s[i]] + s.skip(i + 1) =~= s.skip(i));
    } else {
        assert(s.skip(i) =~= Seq::<char>::empty());
    }
}

/// Preprocessing is the identity on text with no `/` and no trailing comma
/// before `}` outside string literals.  Strict JSON text satisfies both —a
/// bare `/` and a comma directly before a closing brace are not strict JSON
/// outside a string — so preprocessing never alters a strict JSON document,
/// string literal contents included.
pub proof fn lemma_preprocess_identity(s: Seq<char>)
    requires
        forall|j: int|
            0 <= j < s.len() ==> (#[trigger] scan_state_at(s, j) is Code ==> s[j] != '/'),
        forall|j: int|
            0 <= j < s.len() ==> !(#[trigger] lit_state_at(s, j) is Code && dropped_comma_at(
                s,
                j,
            )),
    ensures
        preprocess_spec(s) == s,
{
    lemma_comments_identity_from(s, 0);
    assert(s.skip(0) =~= s);
    lemma_commas_identity_from(s, 0);
}

} // verus!
