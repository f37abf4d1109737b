//! The home directory and the tilde that stands for it.
//!
//! Paths have the form of Unix, where the backslash is an ordinary character.

use vstd::prelude::*;
use vstd::string::*;
use crate::outside::{expand_tilde_at, expand_tilde_here};

verus! {

/// The home directory, given what `~` expands to: that, or none if `~` stays as it is.
pub open spec fn home_given(tilde: Seq<char>) -> Option<Seq<char>> {
    if tilde == "~"@ {
        None
    } else {
        Some(tilde)
    }
}

/// Takes the home directory from what `~` expands to.
pub fn home_from_tilde(tilde: String) -> (res: Option<String>)
    ensures
        crate::text::opt_text(res) == home_given(tilde@),
{
    if tilde == "~".to_owned() {
        None
    } else {
        Some(tilde)
    }
}

/// Whether `out` is what a text was expanded to in this environment.
pub closed spec fn expanded_here(text: &str, out: String) -> bool {
    call_ensures(expand_tilde_here, (text,), out)
}

/// Reads the home directory from the environment: what `~` expands to there.
pub fn home_dir() -> (res: Option<String>)
    ensures
        exists|tilde: String| #[trigger]
            expanded_here("~", tilde) && crate::text::opt_text(res) == home_given(tilde@),
{
    proof {
        reveal_strlit("~");
    }
    let tilde = drawn_text(expand_tilde_here, "~");
    assert(expanded_here("~", tilde));
    home_from_tilde(tilde)
}

/// Expands a leading tilde to a home directory.
pub fn expand_tilde(text: &str, home: &Option<String>) -> (res: String)
    ensures
        res@ == crate::outside::expanded(text@, crate::text::opt_text(*home)),
{
    if text.unicode_len() > 1 && text.get_char(0) == '~' && text.get_char(1) == '\\' {
        text.to_owned()
    } else {
        expand_tilde_at(text, home)
    }
}

/// Draws a text from its source, which is handed another.
pub fn drawn_text<F: Fn(&str) -> String>(source: F, text: &str) -> (res: String)
    requires
        call_requires(source, (text,)),
    ensures
        call_ensures(source, (text,), res),
{
    source(text)
}

/// Draws a home directory from its source.
pub fn drawn_home<F: Fn() -> Option<String>>(source: F) -> (res: Option<String>)
    requires
        call_requires(source, ()),
    ensures
        call_ensures(source, (), res),
{
    source()
}

} // verus!
