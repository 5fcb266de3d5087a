//! The syntax-fragment target: the captured output is spliced verbatim,
//! so it must itself be a well-formed token sequence of the host
//! language.
//!
//! Well-formedness is decided by a character-level scanner, defined once
//! as a pure step function and run by the executable checker.  The
//! scanner demands balanced `()`, `[]` and `{}` delimiters outside of
//! string literals, character literals and comments, terminated string
//! and character literals, and closed block comments (which nest).  A
//! quote can also open a lifetime, which has no closing quote; the
//! scanner tells the two apart one character later, as the host
//! language's lexer does.  Multi-character escapes inside a character
//! literal are skipped up to the closing quote.

use vstd::prelude::*;

use crate::error::PipelineError;
use crate::text::chars_of;

verus! {

/// A bracketing delimiter that must be balanced.
#[derive(Clone, Copy, Debug, PartialEq, Eq, Structural)]
pub enum Delim {
    Paren,
    Bracket,
    Brace,
}

/// Where the scanner stands between two characters.
#[derive(Clone, Copy, Debug, PartialEq, Eq, Structural)]
pub enum ScanMode {
    /// Ordinary code.
    Normal,
    /// Just after a `/` in ordinary code.
    Slash,
    /// Inside a line comment.
    LineComment,
    /// Inside a block comment.
    Block,
    /// Inside a block comment, just after a `*`.
    BlockStar,
    /// Inside a block comment, just after a `/`.
    BlockSlash,
    /// Inside a string literal.
    Str,
    /// Inside a string literal, just after a backslash.
    StrEscape,
    /// Just after an opening quote of a character literal or lifetime.
    CharPrefix,
    /// Just after the backslash of a character escape.
    CharEscape,
    /// Inside an escaped character literal, before its closing quote.
    CharEscaped,
    /// One character into a quote that may close as a character literal
    /// or continue as a lifetime.
    CharOrLifetime,
    /// The text can no longer be well-formed.
    Failed,
}

/// The scanner's full state: mode, block-comment nesting depth, and the
/// stack of open delimiters.
pub struct ScanState {
    pub mode: ScanMode,
    pub depth: nat,
    pub stack: Seq<Delim>,
}

/// The state before any character.
pub open spec fn init_state() -> ScanState {
    ScanState { mode: ScanMode::Normal, depth: 0, stack: Seq::empty() }
}

/// One character processed as ordinary code: delimiters push and pop,
/// quotes and slashes switch mode, everything else passes.
pub open spec fn normal_step(st: ScanState, c: char) -> ScanState {
    if c == '(' {
        ScanState { mode: ScanMode::Normal, depth: st.depth, stack: st.stack.push(Delim::Paren) }
    } else if c == '[' {
        ScanState { mode: ScanMode::Normal, depth: st.depth, stack: st.stack.push(Delim::Bracket) }
    } else if c == '{' {
        ScanState { mode: ScanMode::Normal, depth: st.depth, stack: st.stack.push(Delim::Brace) }
    } else if c == ')' {
        if st.stack.len() > 0 && st.stack.last() == Delim::Paren {
            ScanState { mode: ScanMode::Normal, depth: st.depth, stack: st.stack.drop_last() }
        } else {
            ScanState { mode: ScanMode::Failed, depth: st.depth, stack: st.stack }
        }
    } else if c == ']' {
        if st.stack.len() > 0 && st.stack.last() == Delim::Bracket {
            ScanState { mode: ScanMode::Normal, depth: st.depth, stack: st.stack.drop_last() }
        } else {
            ScanState { mode: ScanMode::Failed, depth: st.depth, stack: st.stack }
        }
    } else if c == '}' {
        if st.stack.len() > 0 && st.stack.last() == Delim::Brace {
            ScanState { mode: ScanMode::Normal, depth: st.depth, stack: st.stack.drop_last() }
        } else {
            ScanState { mode: ScanMode::Failed, depth: st.depth, stack: st.stack }
        }
    } else if c == '"' {
        ScanState { mode: ScanMode::Str, depth: st.depth, stack: st.stack }
    } else if c == '\'' {
        ScanState { mode: ScanMode::CharPrefix, depth: st.depth, stack: st.stack }
    } else if c == '/' {
        ScanState { mode: ScanMode::Slash, depth: st.depth, stack: st.stack }
    } else {
        ScanState { mode: ScanMode::Normal, depth: st.depth, stack: st.stack }
    }
}

/// The scanner's transition on one character.
pub open spec fn scan_step(st: ScanState, c: char) -> ScanState {
    match st.mode {
        ScanMode::Normal => normal_step(st, c),
        ScanMode::Slash => if c == '/' {
            ScanState { mode: ScanMode::LineComment, depth: st.depth, stack: st.stack }
        } else if c == '*' {
            ScanState { mode: ScanMode::Block, depth: 1, stack: st.stack }
        } else {
            normal_step(ScanState { mode: ScanMode::Normal, depth: st.depth, stack: st.stack }, c)
        },
        ScanMode::LineComment => if c == '\n' {
            ScanState { mode: ScanMode::Normal, depth: st.depth, stack: st.stack }
        } else {
            st
        },
        ScanMode::Block => if c == '*' {
            ScanState { mode: ScanMode::BlockStar, depth: st.depth, stack: st.stack }
        } else if c == '/' {
            ScanState { mode: ScanMode::BlockSlash, depth: st.depth, stack: st.stack }
        } else {
            st
        },
        ScanMode::BlockStar => if c == '/' {
            if st.depth <= 1 {
                ScanState { mode: ScanMode::Normal, depth: 0, stack: st.stack }
            } else {
                ScanState { mode: ScanMode::Block, depth: (st.depth - 1) as nat, stack: st.stack }
            }
        } else if c == '*' {
            st
        } else {
            ScanState { mode: ScanMode::Block, depth: st.depth, stack: st.stack }
        },
        ScanMode::BlockSlash => if c == '*' {
            ScanState { mode: ScanMode::Block, depth: st.depth + 1, stack: st.stack }
        } else if c == '/' {
            st
        } else {
            ScanState { mode: ScanMode::Block, depth: st.depth, stack: st.stack }
        },
        ScanMode::Str => if c == '"' {
            ScanState { mode: ScanMode::Normal, depth: st.depth, stack: st.stack }
        } else if c == '\\' {
            ScanState { mode: ScanMode::StrEscape, depth: st.depth, stack: st.stack }
        } else {
            st
        },
        ScanMode::StrEscape => ScanState { mode: ScanMode::Str, depth: st.depth, stack: st.stack },
        ScanMode::CharPrefix => if c == '\\' {
            ScanState { mode: ScanMode::CharEscape, depth: st.depth, stack: st.stack }
        } else if c == '\'' {
            ScanState { mode: ScanMode::Failed, depth: st.depth, stack: st.stack }
        } else {
            ScanState { mode: ScanMode::CharOrLifetime, depth: st.depth, stack: st.stack }
        },
        ScanMode::CharEscape => ScanState {
            mode: ScanMode::CharEscaped,
            depth: st.depth,
            stack: st.stack,
        },
        ScanMode::CharEscaped => if c == '\'' {
            ScanState { mode: ScanMode::Normal, depth: st.depth, stack: st.stack }
        } else {
            st
        },
        ScanMode::CharOrLifetime => if c == '\'' {
            ScanState { mode: ScanMode::Normal, depth: st.depth, stack: st.stack }
        } else {
            normal_step(ScanState { mode: ScanMode::Normal, depth: st.depth, stack: st.stack }, c)
        },
        ScanMode::Failed => st,
    }
}

/// The scanner run over a whole text.
pub open spec fn scan_from(st: ScanState, s: Seq<char>) -> ScanState
    decreases s.len(),
{
    if s.len() == 0 {
        st
    } else {
        scan_from(scan_step(st, s[0]), s.drop_first())
    }
}

/// A final state in which the text is a well-formed fragment: nothing
/// left open.  A pending slash, line comment or lifetime is complete as
/// it stands.
pub open spec fn accepting(st: ScanState) -> bool {
    st.stack.len() == 0 && (st.mode == ScanMode::Normal || st.mode == ScanMode::Slash
        || st.mode == ScanMode::LineComment || st.mode == ScanMode::CharOrLifetime)
}

/// The captured output is a well-formed token sequence.
pub open spec fn fragment_ok(s: Seq<char>) -> bool {
    accepting(scan_from(init_state(), s))
}

/// Scanning one more character is one more step.
proof fn lemma_scan_snoc(st: ScanState, s: Seq<char>, i: int)
    requires
        0 <= i < s.len(),
    ensures
        scan_from(st, s.subrange(0, i + 1)) == scan_step(scan_from(st, s.subrange(0, i)), s[i]),
    decreases i,
{
    let u = s.subrange(0, i + 1);
    assert(u[0] == s[0]);
    if i == 0 {
        assert(u.len() == 1);
        assert(u.drop_first() =~= Seq::<char>::empty());
        assert(s.subrange(0, 0) =~= Seq::<char>::empty());
        assert(scan_from(st, u) == scan_from(scan_step(st, u[0]), u.drop_first()));
        assert(scan_from(scan_step(st, u[0]), Seq::<char>::empty()) == scan_step(st, u[0]));
    } else {
        let st2 = scan_step(st, s[0]);
        let t = s.drop_first();
        lemma_scan_snoc(st2, t, i - 1);
        assert(u.drop_first() =~= t.subrange(0, i));
        assert(scan_from(st, u) == scan_from(st2, t.subrange(0, i)));
        let p = s.subrange(0, i);
        assert(p[0] == s[0]);
        assert(p.drop_first() =~= t.subrange(0, i - 1));
        assert(scan_from(st, p) == scan_from(st2, t.subrange(0, i - 1)));
        assert(t[i - 1] == s[i]);
    }
}

/// One step grows the nesting depth and the delimiter stack by at most
/// one each.
proof fn lemma_scan_step_growth(st: ScanState, c: char)
    ensures
        scan_step(st, c).depth <= st.depth + 1,
        scan_step(st, c).stack.len() <= st.stack.len() + 1,
{
}

/// Executable mirror of `normal_step`, updating the delimiter stack in
/// place and returning the next mode.
fn normal_step_exec(stack: &mut Vec<Delim>, c: char) -> (m: ScanMode)
    ensures
        forall|d: nat|
            #[trigger] normal_step(
                ScanState { mode: ScanMode::Normal, depth: d, stack: old(stack)@ },
                c,
            ) == (ScanState { mode: m, depth: d, stack: final(stack)@ }),
{
    if c == '(' {
        stack.push(Delim::Paren);
        ScanMode::Normal
    } else if c == '[' {
        stack.push(Delim::Bracket);
        ScanMode::Normal
    } else if c == '{' {
        stack.push(Delim::Brace);
        ScanMode::Normal
    } else if c == ')' {
        if stack.len() > 0 && *stack.last().unwrap() == Delim::Paren {
            stack.pop();
            proof {
                assert(stack@ =~= old(stack)@.drop_last());
            }
            ScanMode::Normal
        } else {
            ScanMode::Failed
        }
    } else if c == ']' {
        if stack.len() > 0 && *stack.last().unwrap() == Delim::Bracket {
            stack.pop();
            proof {
                assert(stack@ =~= old(stack)@.drop_last());
            }
            ScanMode::Normal
        } else {
            ScanMode::Failed
        }
    } else if c == '}' {
        if stack.len() > 0 && *stack.last().unwrap() == Delim::Brace {
            stack.pop();
            proof {
                assert(stack@ =~= old(stack)@.drop_last());
            }
            ScanMode::Normal
        } else {
            ScanMode::Failed
        }
    } else if c == '"' {
        ScanMode::Str
    } else if c == '\'' {
        ScanMode::CharPrefix
    } else if c == '/' {
        ScanMode::Slash
    } else {
        ScanMode::Normal
    }
}

/// Checks the captured output for splicing as raw syntax: the text is
/// handed back verbatim exactly when the scanner accepts it.
pub fn marshal_fragment(out: &str) -> (r: Result<String, PipelineError>)
    ensures
        match r {
            Ok(t) => fragment_ok(out@) && t@ == out@,
            Err(e) => !fragment_ok(out@) && e == PipelineError::FragmentParse,
        },
{
    let chars = chars_of(out);
    let n = chars.len();
    let mut mode = ScanMode::Normal;
    let mut depth: usize = 0;
    let mut stack: Vec<Delim> = Vec::new();
    let mut i: usize = 0;
    proof {
        assert(out@.subrange(0, 0) =~= Seq::<char>::empty());
    }
    while i < n
        invariant
            chars@ == out@,
            n == out@.len(),
            i <= n,
            depth <= i,
            scan_from(init_state(), out@.subrange(0, i as int)) == (ScanState {
                mode: mode,
                depth: depth as nat,
                stack: stack@,
            }),
        decreases n - i,
    {
        let c = chars[i];
        let ghost pre = scan_from(init_state(), out@.subrange(0, i as int));
        proof {
            lemma_scan_snoc(init_state(), out@, i as int);
            lemma_scan_step_growth(pre, c);
        }
        match mode {
            ScanMode::Normal => {
                mode = normal_step_exec(&mut stack, c);
            },
            ScanMode::Slash => {
                if c == '/' {
                    mode = ScanMode::LineComment;
                } else if c == '*' {
                    mode = ScanMode::Block;
                    depth = 1;
                } else {
                    mode = normal_step_exec(&mut stack, c);
                }
            },
            ScanMode::LineComment => {
                if c == '\n' {
                    mode = ScanMode::Normal;
                }
            },
            ScanMode::Block => {
                if c == '*' {
                    mode = ScanMode::BlockStar;
                } else if c == '/' {
                    mode = ScanMode::BlockSlash;
                }
            },
            ScanMode::BlockStar => {
                if c == '/' {
                    if depth <= 1 {
                        mode = ScanMode::Normal;
                        depth = 0;
                    } else {
                        mode = ScanMode::Block;
                        depth = depth - 1;
                    }
                } else if c == '*' {
                } else {
                    mode = ScanMode::Block;
                }
            },
            ScanMode::BlockSlash => {
                if c == '*' {
                    mode = ScanMode::Block;
                    depth = depth + 1;
                } else if c == '/' {
                } else {
                    mode = ScanMode::Block;
                }
            },
            ScanMode::Str => {
                if c == '"' {
                    mode = ScanMode::Normal;
                } else if c == '\\' {
                    mode = ScanMode::StrEscape;
                }
            },
            ScanMode::StrEscape => {
                mode = ScanMode::Str;
            },
            ScanMode::CharPrefix => {
                if c == '\\' {
                    mode = ScanMode::CharEscape;
                } else if c == '\'' {
                    mode = ScanMode::Failed;
                } else {
                    mode = ScanMode::CharOrLifetime;
                }
            },
            ScanMode::CharEscape => {
                mode = ScanMode::CharEscaped;
            },
            ScanMode::CharEscaped => {
                if c == '\'' {
                    mode = ScanMode::Normal;
                }
            },
            ScanMode::CharOrLifetime => {
                if c == '\'' {
                    mode = ScanMode::Normal;
                } else {
                    mode = normal_step_exec(&mut stack, c);
                }
            },
            ScanMode::Failed => {},
        }
        i = i + 1;
    }
    proof {
        assert(out@.subrange(0, n as int) =~= out@);
    }
    let ok = stack.len() == 0 && (mode == ScanMode::Normal || mode == ScanMode::Slash || mode
        == ScanMode::LineComment || mode == ScanMode::CharOrLifetime);
    if ok {
        Ok(out.to_owned())
    } else {
        Err(PipelineError::FragmentParse)
    }
}

} // verus!
