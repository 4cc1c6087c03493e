//! Emitted code fragments, and the fragment that reports an error at the
//! firmware's build.

use vstd::prelude::*;
use vstd::string::*;
use crate::error::{message_text, ConfigError, ConfigErrorView};

verus! {

/// A piece of generated initialization code.
#[derive(Clone, Debug, PartialEq, Eq)]
pub enum CodeFragment {
    /// Well-formed code; the empty text stands for "nothing to emit".
    Code(String),
    /// A fatal build-time message in place of code.
    Diagnostic(String),
    /// The family has no peripheral of the kind asked for.
    Unsupported,
}

/// Mathematical form of a [`CodeFragment`].
pub enum CodeFragmentView {
    Code(Seq<char>),
    Diagnostic(Seq<char>),
    Unsupported,
}

impl View for CodeFragment {
    type V = CodeFragmentView;

    open spec fn view(&self) -> CodeFragmentView {
        match self {
            CodeFragment::Code(text) => CodeFragmentView::Code(text@),
            CodeFragment::Diagnostic(message) => CodeFragmentView::Diagnostic(message@),
            CodeFragment::Unsupported => CodeFragmentView::Unsupported,
        }
    }
}

/// How one character of a message is written inside a string literal.
pub open spec fn escape_char(c: char) -> Seq<char> {
    if c == '\\' {
        seq!['\\', '\\']
    } else if c == '"' {
        seq!['\\', '"']
    } else if c == '\n' {
        seq!['\\', 'n']
    } else if c == '\r' {
        seq!['\\', 'r']
    } else if c == '\t' {
        seq!['\\', 't']
    } else {
        seq![c]
    }
}

/// A message as it is written inside a string literal.
pub open spec fn escaped(s: Seq<char>) -> Seq<char>
    decreases s.len(),
{
    if s.len() == 0 {
        Seq::empty()
    } else {
        escaped(s.drop_last()) + escape_char(s.last())
    }
}

/// The code of a fragment: the text itself, a `compile_error!` statement
/// that carries the message, or `None` where the peripheral is missing.
pub open spec fn rendered(f: CodeFragmentView) -> Seq<char> {
    match f {
        CodeFragmentView::Code(text) => text,
        CodeFragmentView::Diagnostic(message) => "compile_error!(\""@ + escaped(message) + "\");"@,
        CodeFragmentView::Unsupported => "None"@,
    }
}

/// The code that a fragment holds; a fragment of another kind holds none.
pub open spec fn code_text(f: CodeFragmentView) -> Seq<char> {
    match f {
        CodeFragmentView::Code(text) => text,
        _ => Seq::empty(),
    }
}

/// The fragment that reports an error.
pub open spec fn diagnostic_of(e: ConfigErrorView) -> CodeFragmentView {
    CodeFragmentView::Diagnostic(message_text(e))
}

/// Appends `s`, escaped for a string literal, to `out`.
pub fn push_escaped(out: &mut String, s: &str)
    ensures
        final(out)@ == old(out)@ + escaped(s@),
{
    let n: usize = s.unicode_len();
    let mut i: usize = 0;
    proof {
        assert(s@.take(0).len() == 0);
        assert(out@ =~= old(out)@ + escaped(s@.take(0)));
    }
    while i < n
        invariant
            n == s@.len(),
            i <= n,
            out@ == old(out)@ + escaped(s@.take(i as int)),
        decreases n - i,
    {
        let c: char = s.get_char(i);
        let ghost before = out@;
        if c == '\\' {
            out.push('\\');
            out.push('\\');
        } else if c == '"' {
            out.push('\\');
            out.push('"');
        } else if c == '\n' {
            out.push('\\');
            out.push('n');
        } else if c == '\r' {
            out.push('\\');
            out.push('r');
        } else if c == '\t' {
            out.push('\\');
            out.push('t');
        } else {
            out.push(c);
        }
        proof {
            let p = s@.take(i + 1);
            assert(p.drop_last() =~= s@.take(i as int));
            assert(p.last() == c);
            assert(out@ =~= before + escape_char(c));
            assert(out@ =~= old(out)@ + escaped(p));
        }
        i = i + 1;
    }
    proof {
        assert(s@.take(n as int) =~= s@);
    }
}

impl CodeFragment {
    /// The empty fragment.
    pub fn empty() -> (f: CodeFragment)
        ensures
            f@ == CodeFragmentView::Code(Seq::empty()),
    {
        CodeFragment::Code(String::new())
    }

    /// Whether the fragment reports an error.
    pub fn is_diagnostic(&self) -> (b: bool)
        ensures
            b == (self@ is Diagnostic),
    {
        match self {
            CodeFragment::Diagnostic(_) => true,
            _ => false,
        }
    }

    /// The code that the fragment stands for.
    pub fn render(&self) -> (text: String)
        ensures
            text@ == rendered(self@),
    {
        match self {
            CodeFragment::Code(text) => text.clone(),
            CodeFragment::Diagnostic(message) => {
                let mut text = String::from_str("compile_error!(\"");
                push_escaped(&mut text, message.as_str());
                text.append("\");");
                text
            },
            CodeFragment::Unsupported => String::from_str("None"),
        }
    }
}

/// Turns an error into the fragment that reports it when the firmware is
/// built.
pub fn diagnostic(e: &ConfigError) -> (f: CodeFragment)
    ensures
        f@ == diagnostic_of(e@),
{
    CodeFragment::Diagnostic(e.message())
}

} // verus!
