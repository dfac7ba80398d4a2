//! Lines of text about what was parsed, for whoever prints them.

use vstd::prelude::*;
use vstd::string::*;
use crate::text::{decimal_text, render_usize, text};
use crate::parser::ast::{Mutability, VarDecl, VarDeclSpec, Visibility};

verus! {

/// A visibility as a declaration writes it, followed by a space; nothing
/// where there is none.
pub open spec fn visibility_prefix(visibility: Option<Visibility>) -> Seq<char> {
    match visibility {
        Some(Visibility::Public) => "public "@,
        Some(Visibility::Private) => "private "@,
        Some(Visibility::Protected) => "protected "@,
        None => ""@,
    }
}

/// A mutability as a declaration writes it.
pub open spec fn mutability_word(mutability: Mutability) -> Seq<char> {
    match mutability {
        Mutability::Let => "let"@,
        Mutability::Mut => "mut"@,
    }
}

/// `number. [visibility] mutability name : type [(initialized)]`
pub open spec fn summary_line(number: usize, decl: VarDeclSpec) -> Seq<char> {
    decimal_text(number as nat) + ". "@ + visibility_prefix(decl.visibility) + mutability_word(
        decl.mutability,
    ) + " "@ + decl.name + " : "@ + (match decl.inferred_type {
        Some(t) => t.text(),
        None => "unknown"@,
    }) + (if decl.initializer is Some {
        " (initialized)"@
    } else {
        ""@
    })
}

/// The line that sums up the `number`-th declaration of a program.
pub fn declaration_summary(number: usize, decl: &VarDecl) -> (s: String)
    ensures
        s@ == summary_line(number, decl@),
{
    let mut s = render_usize(number);
    s.append(". ");
    match decl.visibility {
        Some(Visibility::Public) => s.append("public "),
        Some(Visibility::Private) => s.append("private "),
        Some(Visibility::Protected) => s.append("protected "),
        None => s.append(""),
    }
    match decl.mutability {
        Mutability::Let => s.append("let"),
        Mutability::Mut => s.append("mut"),
    }
    s.append(" ");
    s.append(decl.name.as_str());
    s.append(" : ");
    match &decl.inferred_type {
        Some(t) => {
            let name = t.name();
            s.append(name.as_str());
        },
        None => s.append("unknown"),
    }
    if decl.initializer.is_some() {
        s.append(" (initialized)");
    } else {
        s.append("");
    }
    s
}

/// `s` cut to at most `max_len` characters: as it is where it fits, else its
/// first `max_len - 3` characters followed by three dots.
pub open spec fn truncated(s: Seq<char>, max_len: int) -> Seq<char> {
    if s.len() <= max_len {
        s
    } else {
        s.subrange(0, max_len - 3) + "..."@
    }
}

/// Cuts `s` to at most `max_len` characters. There must be room for the
/// three dots.
pub fn truncate_string(s: &str, max_len: usize) -> (r: String)
    requires
        max_len >= 3,
    ensures
        r@ == truncated(s@, max_len as int),
{
    let n = s.unicode_len();
    if n <= max_len {
        text(s)
    } else {
        let mut r = text(s.substring_char(0, max_len - 3));
        r.append("...");
        r
    }
}

/// A cut string is never longer than asked for.
pub proof fn lemma_truncated_length(s: Seq<char>, max_len: int)
    requires
        max_len >= 3,
    ensures
        truncated(s, max_len).len() <= max_len,
        s.len() <= max_len ==> truncated(s, max_len) == s,
{
    reveal_strlit("...");
}

} // verus!
