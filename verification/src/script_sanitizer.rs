//! Sanitation of user-supplied transformation scripts.
//!
//! Before a script is handed to the sandboxed runner, every `print(...)`
//! statement in it is removed, so that stray diagnostic output cannot corrupt
//! the JSON-only output channel.  The removal is grammar-aware: it tracks
//! nested call parentheses and both quoting styles, so a call spanning several
//! lines or containing nested calls is removed whole, while `print` appearing
//! inside a string literal or a comment is left untouched.

use vstd::prelude::*;

verus! {

/// The characters the scanner treats as whitespace (the Unicode
/// `White_Space` set, as `char::is_whitespace` defines it).
pub open spec fn is_space_char(c: char) -> bool {
    ||| c == '\u{9}'
    ||| c == '\u{A}'
    ||| c == '\u{B}'
    ||| c == '\u{C}'
    ||| c == '\u{D}'
    ||| c == ' '
    ||| c == '\u{85}'
    ||| c == '\u{A0}'
    ||| c == '\u{1680}'
    ||| c == '\u{2000}'
    ||| c == '\u{2001}'
    ||| c == '\u{2002}'
    ||| c == '\u{2003}'
    ||| c == '\u{2004}'
    ||| c == '\u{2005}'
    ||| c == '\u{2006}'
    ||| c == '\u{2007}'
    ||| c == '\u{2008}'
    ||| c == '\u{2009}'
    ||| c == '\u{200A}'
    ||| c == '\u{2028}'
    ||| c == '\u{2029}'
    ||| c == '\u{202F}'
    ||| c == '\u{205F}'
    ||| c == '\u{3000}'
}

/// Whitespace test matching [`is_space_char`].
fn is_space(c: char) -> (r: bool)
    ensures
        r == is_space_char(c),
{
    c == '\u{9}' || c == '\u{A}' || c == '\u{B}' || c == '\u{C}' || c == '\u{D}' || c == ' '
        || c == '\u{85}' || c == '\u{A0}' || c == '\u{1680}' || c == '\u{2000}' || c == '\u{2001}'
        || c == '\u{2002}' || c == '\u{2003}' || c == '\u{2004}' || c == '\u{2005}'
        || c == '\u{2006}' || c == '\u{2007}' || c == '\u{2008}' || c == '\u{2009}'
        || c == '\u{200A}' || c == '\u{2028}' || c == '\u{2029}' || c == '\u{202F}'
        || c == '\u{205F}' || c == '\u{3000}'
}

/// Scanner state: ordinary code, inside a quoted string (with a pending
/// backslash escape or not), or inside a `#` comment.
#[derive(Clone, Copy, Debug)]
pub enum ScanMode {
    Code,
    SingleQuoted { escaped: bool },
    DoubleQuoted { escaped: bool },
    Comment,
}

/// State while scanning the argument list of a `print` call: bare argument
/// text or inside one of the two string quoting styles.
#[derive(Clone, Copy, Debug)]
pub enum ArgScanMode {
    Bare,
    SingleQuoted { escaped: bool },
    DoubleQuoted { escaped: bool },
}

/// Successor state inside a quoted string: a backslash arms an escape, the
/// matching unescaped quote closes the string, anything else stays inside it.
pub open spec fn string_mode_next(double: bool, escaped: bool, c: char) -> ScanMode {
    if !escaped && c == '\\' {
        if double {
            ScanMode::DoubleQuoted { escaped: true }
        } else {
            ScanMode::SingleQuoted { escaped: true }
        }
    } else if !escaped && c == (if double {
        '"'
    } else {
        '\''
    }) {
        ScanMode::Code
    } else {
        if double {
            ScanMode::DoubleQuoted { escaped: false }
        } else {
            ScanMode::SingleQuoted { escaped: false }
        }
    }
}

/// First index at or after `i` whose character is not inline whitespace
/// (whitespace other than a newline), capped at the end of the text.
pub open spec fn skip_inline_space(s: Seq<char>, i: int) -> int
    decreases s.len() - i,
{
    if i < s.len() && is_space_char(s[i]) && s[i] != '\n' {
        skip_inline_space(s, i + 1)
    } else {
        i
    }
}

proof fn lemma_skip_inline_space_bounds(s: Seq<char>, i: int)
    requires
        0 <= i <= s.len(),
    ensures
        i <= skip_inline_space(s, i) <= s.len(),
    decreases s.len() - i,
{
    if i < s.len() && is_space_char(s[i]) && s[i] != '\n' {
        lemma_skip_inline_space_bounds(s, i + 1);
    }
}

/// Index just past the closing parenthesis of a call's argument list, given
/// `k` inside the list with `depth` parentheses currently open, honouring the
/// two quoting styles; the end of the text if the list never closes.
pub open spec fn print_args_end(s: Seq<char>, k: int, depth: int, m: ArgScanMode) -> int
    decreases s.len() - k,
{
    if k >= s.len() {
        s.len() as int
    } else {
        let c = s[k];
        match m {
            ArgScanMode::Bare => {
                if c == '\'' {
                    print_args_end(s, k + 1, depth, ArgScanMode::SingleQuoted { escaped: false })
                } else if c == '"' {
                    print_args_end(s, k + 1, depth, ArgScanMode::DoubleQuoted { escaped: false })
                } else if c == '(' {
                    print_args_end(s, k + 1, depth + 1, ArgScanMode::Bare)
                } else if c == ')' {
                    if depth == 1 {
                        k + 1
                    } else {
                        print_args_end(s, k + 1, depth - 1, ArgScanMode::Bare)
                    }
                } else {
                    print_args_end(s, k + 1, depth, ArgScanMode::Bare)
                }
            },
            ArgScanMode::SingleQuoted { escaped } => {
                let next = if !escaped && c == '\\' {
                    ArgScanMode::SingleQuoted { escaped: true }
                } else if !escaped && c == '\'' {
                    ArgScanMode::Bare
                } else {
                    ArgScanMode::SingleQuoted { escaped: false }
                };
                print_args_end(s, k + 1, depth, next)
            },
            ArgScanMode::DoubleQuoted { escaped } => {
                let next = if !escaped && c == '\\' {
                    ArgScanMode::DoubleQuoted { escaped: true }
                } else if !escaped && c == '"' {
                    ArgScanMode::Bare
                } else {
                    ArgScanMode::DoubleQuoted { escaped: false }
                };
                print_args_end(s, k + 1, depth, next)
            },
        }
    }
}

proof fn lemma_print_args_end_bounds(s: Seq<char>, k: int, depth: int, m: ArgScanMode)
    requires
        0 <= k <= s.len(),
    ensures
        k <= print_args_end(s, k, depth, m) <= s.len(),
        k < s.len() ==> k + 1 <= print_args_end(s, k, depth, m),
    decreases s.len() - k,
{
    if k < s.len() {
        lemma_print_args_end_bounds(s, k + 1, depth, ArgScanMode::Bare);
        lemma_print_args_end_bounds(s, k + 1, depth + 1, ArgScanMode::Bare);
        lemma_print_args_end_bounds(s, k + 1, depth - 1, ArgScanMode::Bare);
        lemma_print_args_end_bounds(s, k + 1, depth, ArgScanMode::SingleQuoted { escaped: true });
        lemma_print_args_end_bounds(s, k + 1, depth, ArgScanMode::SingleQuoted { escaped: false });
        lemma_print_args_end_bounds(s, k + 1, depth, ArgScanMode::DoubleQuoted { escaped: true });
        lemma_print_args_end_bounds(s, k + 1, depth, ArgScanMode::DoubleQuoted { escaped: false });
    }
}

/// Index at which scanning resumes after a removed `print` call whose opening
/// parenthesis stands at `open`: past the argument list, past trailing inline
/// whitespace, one optional semicolon, more inline whitespace, and one
/// optional newline.
pub open spec fn print_skip_end(s: Seq<char>, open: int) -> int {
    let k = print_args_end(s, open, 0, ArgScanMode::Bare);
    let t1 = skip_inline_space(s, k);
    let t2 = if t1 < s.len() && s[t1] == ';' {
        t1 + 1
    } else {
        t1
    };
    let t3 = skip_inline_space(s, t2);
    if t3 < s.len() && s[t3] == '\n' {
        t3 + 1
    } else {
        t3
    }
}

proof fn lemma_print_skip_end_bounds(s: Seq<char>, open: int)
    requires
        0 <= open < s.len(),
    ensures
        open + 1 <= print_skip_end(s, open) <= s.len(),
{
    lemma_print_args_end_bounds(s, open, 0, ArgScanMode::Bare);
    let k = print_args_end(s, open, 0, ArgScanMode::Bare);
    lemma_skip_inline_space_bounds(s, k);
    let t1 = skip_inline_space(s, k);
    let t2 = if t1 < s.len() && s[t1] == ';' {
        t1 + 1
    } else {
        t1
    };
    lemma_skip_inline_space_bounds(s, t2);
}

/// The five characters `print` stand at index `i`.
pub open spec fn is_print_token_at(s: Seq<char>, i: int) -> bool {
    &&& i + 5 <= s.len()
    &&& s[i] == 'p'
    &&& s[i + 1] == 'r'
    &&& s[i + 2] == 'i'
    &&& s[i + 3] == 'n'
    &&& s[i + 4] == 't'
}

/// Where the opening parenthesis of a `print` call starting at `i` would
/// stand: after the token and any inline whitespace.
pub open spec fn print_open_paren(s: Seq<char>, i: int) -> int {
    skip_inline_space(s, i + 5)
}

/// A removable `print` call starts at `i`: the token, optional inline
/// whitespace, then an opening parenthesis.
pub open spec fn print_call_starts_at(s: Seq<char>, i: int) -> bool {
    &&& is_print_token_at(s, i)
    &&& print_open_paren(s, i) < s.len()
    &&& s[print_open_paren(s, i)] == '('
}

/// The sanitised text from index `i` onward, scanning in mode `m`.
/// Ordinary code is copied; entering a string or a comment copies it
/// verbatim; a `print` call encountered in code is dropped entirely,
/// together with one trailing semicolon and newline.
pub open spec fn clean_from(s: Seq<char>, i: int, m: ScanMode) -> Seq<char>
    decreases s.len() - i,
    when 0 <= i
    via clean_from_decreases
{
    if i >= s.len() {
        Seq::empty()
    } else {
        let c = s[i];
        match m {
            ScanMode::Code => {
                if c == '\'' {
                    seq![c] + clean_from(s, i + 1, ScanMode::SingleQuoted { escaped: false })
                } else if c == '"' {
                    seq![c] + clean_from(s, i + 1, ScanMode::DoubleQuoted { escaped: false })
                } else if c == '#' {
                    seq![c] + clean_from(s, i + 1, ScanMode::Comment)
                } else if print_call_starts_at(s, i) {
                    clean_from(s, print_skip_end(s, print_open_paren(s, i)), ScanMode::Code)
                } else {
                    seq![c] + clean_from(s, i + 1, ScanMode::Code)
                }
            },
            ScanMode::Comment => {
                seq![c] + clean_from(
                    s,
                    i + 1,
                    if c == '\n' {
                        ScanMode::Code
                    } else {
                        ScanMode::Comment
                    },
                )
            },
            ScanMode::SingleQuoted { escaped } => {
                seq![c] + clean_from(s, i + 1, string_mode_next(false, escaped, c))
            },
            ScanMode::DoubleQuoted { escaped } => {
                seq![c] + clean_from(s, i + 1, string_mode_next(true, escaped, c))
            },
        }
    }
}

#[via_fn]
proof fn clean_from_decreases(s: Seq<char>, i: int, m: ScanMode) {
    if 0 <= i < s.len() && m is Code && print_call_starts_at(s, i) {
        lemma_skip_inline_space_bounds(s, i + 5);
        lemma_print_skip_end_bounds(s, print_open_paren(s, i));
    }
}

/// The whole sanitised script: scan from the start in code mode.
pub open spec fn clean_script_spec(s: Seq<char>) -> Seq<char> {
    clean_from(s, 0, ScanMode::Code)
}

} // verus!

verus! {

/// Appending one character to copied output and then the remainder is the
/// same as appending the remainder headed by that character.
proof fn lemma_push_concat(prefix: Seq<char>, c: char, rest: Seq<char>)
    ensures
        prefix.push(c) + rest == prefix + (seq![c] + rest),
{
    assert(prefix.push(c) + rest =~= prefix + (seq![c] + rest));
}

/// The characters of `s`, in order, as a vector.
fn char_seq_of_str(s: &str) -> (v: Vec<char>)
    ensures
        v@ == s@,
{
    let n = s.unicode_len();
    let mut v: Vec<char> = Vec::new();
    let mut i: usize = 0;
    while i < n
        invariant
            n as nat == s@.len(),
            i <= n,
            v@ == s@.subrange(0, i as int),
        decreases n - i,
    {
        let c = s.get_char(i);
        v.push(c);
        proof {
            assert(v@ =~= s@.subrange(0, i + 1));
        }
        i = i + 1;
    }
    proof {
        assert(s@.subrange(0, n as int) =~= s@);
    }
    v
}

/// Relies on `String: FromIterator<char>`: collecting characters yields the
/// string made of exactly those characters in order.
#[verifier::external_body]
fn string_from_chars(v: &Vec<char>) -> (s: String)
    ensures
        s@ == v@,
{
    v.iter().collect()
}

/// First index at or after `start` holding something other than inline
/// whitespace, as [`skip_inline_space`] defines it.
fn skip_inline_space_exec(v: &Vec<char>, start: usize) -> (j: usize)
    requires
        start as int <= v@.len(),
    ensures
        j as int == skip_inline_space(v@, start as int),
        start <= j,
        j as int <= v@.len(),
{
    let mut j = start;
    while j < v.len()
        invariant
            start <= j,
            j as int <= v@.len(),
            skip_inline_space(v@, start as int) == skip_inline_space(v@, j as int),
        ensures
            start <= j,
            j as int <= v@.len(),
            j as int == skip_inline_space(v@, start as int),
        decreases v@.len() - j,
    {
        let c = v[j];
        if is_space(c) && c != '\n' {
            j = j + 1;
        } else {
            break;
        }
    }
    j
}

/// Decides whether a removable `print` call starts at `i`, returning the
/// index of its opening parenthesis.
fn check_print_call(v: &Vec<char>, i: usize) -> (r: Option<usize>)
    requires
        (i as int) < v@.len(),
    ensures
        match r {
            Some(j) => print_call_starts_at(v@, i as int) && j as int == print_open_paren(
                v@,
                i as int,
            ) && i < j && (j as int) < v@.len(),
            None => !print_call_starts_at(v@, i as int),
        },
{
    if v.len() - i < 5 {
        return None;
    }
    if !(v[i] == 'p' && v[i + 1] == 'r' && v[i + 2] == 'i' && v[i + 3] == 'n' && v[i + 4] == 't') {
        return None;
    }
    let j = skip_inline_space_exec(v, i + 5);
    if j < v.len() {
        if v[j] == '(' {
            return Some(j);
        }
    }
    None
}

/// Index just past the closing parenthesis of the argument list opening at
/// `open`, as [`print_args_end`] defines it.
fn print_args_end_exec(v: &Vec<char>, open: usize) -> (k: usize)
    requires
        (open as int) < v@.len(),
        v@[open as int] == '(',
    ensures
        k as int == print_args_end(v@, open as int, 0, ArgScanMode::Bare),
        open < k,
        k as int <= v@.len(),
{
    let mut k = open;
    let mut depth: usize = 0;
    let mut m = ArgScanMode::Bare;
    let mut done = false;
    while !done && k < v.len()
        invariant
            (open as int) < v@.len(),
            v@[open as int] == '(',
            open <= k,
            k as int <= v@.len(),
            depth as int <= k as int - open as int,
            !done && k == open ==> depth == 0 && (m is Bare),
            !done && k > open ==> depth >= 1,
            !done ==> print_args_end(v@, open as int, 0, ArgScanMode::Bare) == print_args_end(
                v@,
                k as int,
                depth as int,
                m,
            ),
            done ==> print_args_end(v@, open as int, 0, ArgScanMode::Bare) == k as int && open < k,
        decreases v@.len() - k,
    {
        let c = v[k];
        match m {
            ArgScanMode::Bare => {
                if c == '\'' {
                    m = ArgScanMode::SingleQuoted { escaped: false };
                } else if c == '"' {
                    m = ArgScanMode::DoubleQuoted { escaped: false };
                } else if c == '(' {
                    depth = depth + 1;
                } else if c == ')' {
                    if depth == 1 {
                        done = true;
                    } else {
                        depth = depth - 1;
                    }
                }
            },
            ArgScanMode::SingleQuoted { escaped } => {
                if !escaped && c == '\\' {
                    m = ArgScanMode::SingleQuoted { escaped: true };
                } else if !escaped && c == '\'' {
                    m = ArgScanMode::Bare;
                } else {
                    m = ArgScanMode::SingleQuoted { escaped: false };
                }
            },
            ArgScanMode::DoubleQuoted { escaped } => {
                if !escaped && c == '\\' {
                    m = ArgScanMode::DoubleQuoted { escaped: true };
                } else if !escaped && c == '"' {
                    m = ArgScanMode::Bare;
                } else {
                    m = ArgScanMode::DoubleQuoted { escaped: false };
                }
            },
        }
        k = k + 1;
    }
    k
}

/// Index at which scanning resumes after the `print` call whose opening
/// parenthesis stands at `open`, as [`print_skip_end`] defines it.
fn print_skip_end_exec(v: &Vec<char>, open: usize) -> (e: usize)
    requires
        (open as int) < v@.len(),
        v@[open as int] == '(',
    ensures
        e as int == print_skip_end(v@, open as int),
        open < e,
        e as int <= v@.len(),
{
    let k = print_args_end_exec(v, open);
    let t1 = skip_inline_space_exec(v, k);
    let t2 = if t1 < v.len() {
        if v[t1] == ';' {
            t1 + 1
        } else {
            t1
        }
    } else {
        t1
    };
    let t3 = skip_inline_space_exec(v, t2);
    if t3 < v.len() {
        if v[t3] == '\n' {
            t3 + 1
        } else {
            t3
        }
    } else {
        t3
    }
}

/// Removes every `print(...)` statement that stands in code position from
/// `script`, leaving string literals and comments untouched; the result is
/// exactly [`clean_script_spec`] of the input.
pub fn clean_python_script(script: String) -> (result: String)
    ensures
        result@ == clean_script_spec(script@),
{
    let chars = char_seq_of_str(script.as_str());
    let ghost s = script@;
    let n = chars.len();
    let mut out: Vec<char> = Vec::new();
    let mut i: usize = 0;
    let mut mode = ScanMode::Code;
    proof {
        assert(Seq::<char>::empty() + clean_from(s, 0, ScanMode::Code) =~= clean_from(
            s,
            0,
            ScanMode::Code,
        ));
    }
    while i < n
        invariant
            chars@ == s,
            n as nat == chars@.len(),
            i <= n,
            clean_script_spec(s) == out@ + clean_from(s, i as int, mode),
        decreases n - i,
    {
        let c = chars[i];
        match mode {
            ScanMode::Code => {
                if c == '\'' {
                    proof {
                        lemma_push_concat(
                            out@,
                            c,
                            clean_from(s, i + 1, ScanMode::SingleQuoted { escaped: false }),
                        );
                    }
                    out.push(c);
                    mode = ScanMode::SingleQuoted { escaped: false };
                    i = i + 1;
                } else if c == '"' {
                    proof {
                        lemma_push_concat(
                            out@,
                            c,
                            clean_from(s, i + 1, ScanMode::DoubleQuoted { escaped: false }),
                        );
                    }
                    out.push(c);
                    mode = ScanMode::DoubleQuoted { escaped: false };
                    i = i + 1;
                } else if c == '#' {
                    proof {
                        lemma_push_concat(out@, c, clean_from(s, i + 1, ScanMode::Comment));
                    }
                    out.push(c);
                    mode = ScanMode::Comment;
                    i = i + 1;
                } else {
                    let pc = check_print_call(&chars, i);
                    match pc {
                        Some(j) => {
                            let e = print_skip_end_exec(&chars, j);
                            i = e;
                        },
                        None => {
                            proof {
                                lemma_push_concat(out@, c, clean_from(s, i + 1, ScanMode::Code));
                            }
                            out.push(c);
                            i = i + 1;
                        },
                    }
                }
            },
            ScanMode::Comment => {
                proof {
                    lemma_push_concat(
                        out@,
                        c,
                        clean_from(
                            s,
                            i + 1,
                            if c == '\n' {
                                ScanMode::Code
                            } else {
                                ScanMode::Comment
                            },
                        ),
                    );
                }
                out.push(c);
                mode = if c == '\n' {
                    ScanMode::Code
                } else {
                    ScanMode::Comment
                };
                i = i + 1;
            },
            ScanMode::SingleQuoted { escaped } => {
                proof {
                    lemma_push_concat(out@, c, clean_from(s, i + 1, string_mode_next(false, escaped, c)));
                }
                out.push(c);
                if !escaped && c == '\\' {
                    mode = ScanMode::SingleQuoted { escaped: true };
                } else if !escaped && c == '\'' {
                    mode = ScanMode::Code;
                } else {
                    mode = ScanMode::SingleQuoted { escaped: false };
                }
                i = i + 1;
            },
            ScanMode::DoubleQuoted { escaped } => {
                proof {
                    lemma_push_concat(out@, c, clean_from(s, i + 1, string_mode_next(true, escaped, c)));
                }
                out.push(c);
                if !escaped && c == '\\' {
                    mode = ScanMode::DoubleQuoted { escaped: true };
                } else if !escaped && c == '"' {
                    mode = ScanMode::Code;
                } else {
                    mode = ScanMode::DoubleQuoted { escaped: false };
                }
                i = i + 1;
            },
        }
    }
    proof {
        assert(out@ + clean_from(s, i as int, mode) =~= out@);
    }
    string_from_chars(&out)
}

} // verus!
