//! The calls into other crates and into the parts of `std` that carry no specification.
//!
//! Nothing in this module is proved: each function states what its callee is relied on for.

use vstd::prelude::*;
use vstd::string::*;
use vstd::utf8::{decode_utf8, valid_utf8};
use crate::text::{opt_text, texts};

verus! {

/// The words that `shlex::split` finds in a command line, or `None` if it is erroneous.
pub uninterp spec fn shell_words(line: Seq<char>) -> Option<Seq<Seq<char>>>;

/// Splits a command line with `shlex::split`.
///
/// The words are a function of the line alone. `None` stands for a line that ends inside a
/// quotation or after an unescaped backslash.
#[verifier::external_body]
pub(crate) fn split_shell_words(line: &str) -> (res: Option<Vec<String>>)
    ensures
        match res {
            Some(words) => shell_words(line@) == Some(texts(words@)),
            None => shell_words(line@) is None,
        },
{
    shlex::split(line)
}

/// Whether a text begins with a tilde and a backslash, which `shellexpand` takes for a home
/// directory on Windows only.
pub open spec fn backslash_tilde(text: Seq<char>) -> bool {
    text.len() > 1 && text[0] == '~' && text[1] == '\\'
}

/// A text whose leading tilde is replaced by a home directory: `~` and what begins with `~/`. Any
/// other text stays as it is, and so does every text where there is no home directory.
pub open spec fn expanded(text: Seq<char>, home: Option<Seq<char>>) -> Seq<char> {
    match home {
        Some(dir) => if text.len() > 0 && text[0] == '~' && (text.len() == 1 || text[1] == '/') {
            dir + text.skip(1)
        } else {
            text
        },
        None => text,
    }
}

/// Expands a leading tilde to a given home directory with `shellexpand::tilde_with_context`.
///
/// The result is a function of the text and the home directory, on every platform: texts that the
/// platforms differ in are left out.
#[verifier::external_body]
pub(crate) fn expand_tilde_at(text: &str, home: &Option<String>) -> (res: String)
    requires
        !backslash_tilde(text@),
    ensures
        res@ == expanded(text@, opt_text(*home)),
{
    shellexpand::tilde_with_context(text, || home.as_deref()).into_owned()
}

/// Expands a leading tilde with `shellexpand::tilde`.
///
/// The call expands to the home directory that the environment gives, if it gives one. Which one
/// that is, is not stated.
#[verifier::external_body]
pub(crate) fn expand_tilde_here(text: &str) -> (res: String)
    requires
        !backslash_tilde(text@),
    ensures
        exists|home: Option<Seq<char>>| res@ == #[trigger] expanded(text@, home),
{
    shellexpand::tilde(text).into_owned()
}

/// The text that `alloy_chains::Chain` displays for a chain ID.
pub uninterp spec fn chain_display(id: u64) -> Seq<char>;

/// Displays the `alloy_chains::Chain` that has the given ID.
///
/// The text is a function of the ID: the name of a known chain, else the ID itself.
#[verifier::external_body]
pub(crate) fn display_chain(id: u64) -> (res: String)
    ensures
        res@ == chain_display(id),
{
    alloy_chains::Chain::from_id(id).to_string()
}

/// Why `url::Url::parse` rejects a text, or `None` if it accepts it.
pub uninterp spec fn url_error(text: Seq<char>) -> Option<Seq<char>>;

/// Parses a URL with `url::Url::parse` and keeps the reason of a rejection.
///
/// Whether the text is accepted, and the reason if it is not, depend on the text alone.
#[verifier::external_body]
pub(crate) fn parse_url(text: &str) -> (res: Result<(), String>)
    ensures
        match res {
            Ok(_) => url_error(text@) is None,
            Err(reason) => url_error(text@) == Some(reason@),
        },
{
    match url::Url::parse(text) {
        Ok(_) => Ok(()),
        Err(reason) => Err(reason.to_string()),
    }
}

/// The text that `FromUtf8Error` displays for bytes that are not UTF-8.
pub uninterp spec fn utf8_error_text(bytes: Seq<u8>) -> Seq<char>;

/// Decodes bytes with `String::from_utf8`.
///
/// The call succeeds exactly on valid UTF-8, with the text that the bytes encode. The text of
/// the error is a function of the bytes.
#[verifier::external_body]
pub(crate) fn decode_strict(bytes: Vec<u8>) -> (res: Result<String, String>)
    ensures
        match res {
            Ok(text) => valid_utf8(bytes@) && text@ == decode_utf8(bytes@),
            Err(reason) => !valid_utf8(bytes@) && reason@ == utf8_error_text(bytes@),
        },
{
    String::from_utf8(bytes).map_err(|reason| reason.to_string())
}

/// The text that `String::from_utf8_lossy` makes of bytes.
pub uninterp spec fn utf8_lossy(bytes: Seq<u8>) -> Seq<char>;

/// Decodes bytes with `String::from_utf8_lossy`.
///
/// The text is a function of the bytes. Valid UTF-8 is decoded exactly.
#[verifier::external_body]
pub(crate) fn decode_lossy(bytes: &[u8]) -> (res: String)
    ensures
        res@ == utf8_lossy(bytes@),
        valid_utf8(bytes@) ==> res@ == decode_utf8(bytes@),
{
    String::from_utf8_lossy(bytes).into_owned()
}

/// The quoted and escaped form that `Path` has under `{:?}`.
pub uninterp spec fn path_debug(path: Seq<char>) -> Seq<char>;

/// Renders a path with the `Debug` form of `std::path::Path`.
///
/// The form is a function of the text of the path.
#[verifier::external_body]
pub(crate) fn debug_path(path: &str) -> (res: String)
    ensures
        res@ == path_debug(path@),
{
    format!("{:?}", std::path::Path::new(path))
}

} // verus!
