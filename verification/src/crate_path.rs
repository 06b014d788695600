//! The path by which code that a procedural macro expands reaches GPUI.
//!
//! `gpui-kit` is preferred, because it re-exports GPUI and is the only direct
//! dependency that kit consumers need. `gpui-pre` keeps standalone component
//! consumers working, and `gpui` covers a local checkout of GPUI, or a
//! dependency that renames one of the others to the conventional name.

use proc_macro2::{Ident, Punct, Spacing, Span, TokenStream, TokenTree};
use vstd::prelude::*;
use vstd::string::*;

verus! {

#[verifier::external_type_specification]
#[verifier::external_body]
pub struct ExTokenStream(TokenStream);

#[verifier::external_type_specification]
#[verifier::external_body]
pub struct ExSynError(syn::Error);

/// The tokens of a stream, in order: each token's text, and whether it is a
/// punctuation mark joined to the token after it (never so for an identifier).
pub uninterp spec fn stream_tokens(stream: TokenStream) -> Seq<(Seq<char>, bool)>;

/// `proc_macro2::TokenStream::new`: a stream with no tokens.
#[verifier::external_body]
fn empty_stream() -> (stream: TokenStream)
    ensures
        stream_tokens(stream) == Seq::<(Seq<char>, bool)>::empty(),
{
    TokenStream::new()
}

/// `proc_macro2::Ident::new` at the call site, appended to `stream` by its
/// `Extend` impl. `Ident::new` panics on a string that is not an identifier;
/// `requires` admits only ASCII identifiers, which it accepts unchanged whether
/// or not it runs inside a procedural macro.
#[verifier::external_body]
fn push_ident(stream: &mut TokenStream, name: &str)
    requires
        is_ascii_ident(name@),
    ensures
        stream_tokens(*final(stream)) == stream_tokens(*old(stream)).push((name@, false)),
{
    stream.extend(std::iter::once(TokenTree::Ident(Ident::new(name, Span::call_site()))));
}

/// `proc_macro2::Punct::new` for a colon, appended to `stream` by its `Extend`
/// impl, joined to the next token when `joint` holds.
#[verifier::external_body]
fn push_colon(stream: &mut TokenStream, joint: bool)
    ensures
        stream_tokens(*final(stream)) == stream_tokens(*old(stream)).push((seq![':'], joint)),
{
    let spacing = if joint {
        Spacing::Joint
    } else {
        Spacing::Alone
    };
    stream.extend(std::iter::once(TokenTree::Punct(Punct::new(':', spacing))));
}

/// The messages an error holds, in order.
pub uninterp spec fn error_messages(error: syn::Error) -> Seq<Seq<char>>;

/// `syn::Error::new` at the call site: an error that holds exactly the given
/// message.
#[verifier::external_body]
fn call_site_error(message: &str) -> (error: syn::Error)
    ensures
        error_messages(error) == seq![message@],
{
    syn::Error::new(Span::call_site(), message)
}

/// How `proc_macro_crate` found a crate in the manifest of the crate being
/// compiled.
#[derive(Clone, Debug, PartialEq, Eq)]
pub enum FoundCrate {
    /// The searched crate is the crate being compiled.
    Itself,
    /// The searched crate is a dependency reachable under this name.
    Name(String),
}

/// That `found` is what one lookup of the package `name` in the manifest of the
/// crate being compiled gave. This records which package a lookup was for; it
/// does not say what a lookup gives, which depends on the manifests on disk.
pub uninterp spec fn looked_up(name: Seq<char>, found: Option<FoundCrate>) -> bool;

/// `proc_macro_crate::crate_name`, with its error dropped. What it finds
/// depends on the environment and on the manifests on disk, so the result is
/// only recorded as a lookup of `orig_name`; what holds of every outcome is that
/// a name it reports has every hyphen replaced by an underscore. It panics only
/// when its internal cache lock is poisoned by an earlier panic.
#[verifier::external_body]
fn crate_name(orig_name: &str) -> (found: Option<FoundCrate>)
    ensures
        looked_up(orig_name@, found),
        found matches Some(FoundCrate::Name(n)) ==> !n@.contains('-'),
{
    match proc_macro_crate::crate_name(orig_name) {
        Ok(proc_macro_crate::FoundCrate::Itself) => Some(FoundCrate::Itself),
        Ok(proc_macro_crate::FoundCrate::Name(name)) => Some(FoundCrate::Name(name)),
        Err(_) => None,
    }
}

/// An ASCII letter.
pub open spec fn is_ascii_letter(c: char) -> bool {
    ('a' <= c && c <= 'z') || ('A' <= c && c <= 'Z')
}

/// An ASCII digit.
pub open spec fn is_ascii_digit(c: char) -> bool {
    '0' <= c && c <= '9'
}

/// A character that may start an ASCII identifier.
pub open spec fn is_ascii_ident_start(c: char) -> bool {
    c == '_' || is_ascii_letter(c)
}

/// A character that may continue an ASCII identifier.
pub open spec fn is_ascii_ident_continue(c: char) -> bool {
    is_ascii_ident_start(c) || is_ascii_digit(c)
}

/// An identifier made of ASCII letters, digits and underscores, not starting
/// with a digit. These are the names that `proc_macro2::Ident::new` accepts
/// unchanged both inside a procedural macro, where the compiler checks them,
/// and outside one, where `proc_macro2` does: the two checks agree on them, and
/// Unicode normalisation leaves them as they are.
pub open spec fn is_ascii_ident(s: Seq<char>) -> bool {
    &&& s.len() > 0
    &&& is_ascii_ident_start(s[0])
    &&& forall|i: int| 1 <= i < s.len() ==> is_ascii_ident_continue(#[trigger] s[i])
}

/// Whether `s` is an identifier made of ASCII letters, digits and underscores.
pub fn check_ascii_ident(s: &str) -> (ok: bool)
    ensures
        ok == is_ascii_ident(s@),
{
    let len = s.unicode_len();
    if len == 0 {
        return false;
    }
    let first = s.get_char(0);
    if !(first == '_' || ('a' <= first && first <= 'z') || ('A' <= first && first <= 'Z')) {
        return false;
    }
    let mut i: usize = 1;
    while i < len
        invariant
            len == s@.len(),
            1 <= i <= len,
            is_ascii_ident_start(s@[0]),
            forall|j: int| 1 <= j < i ==> is_ascii_ident_continue(#[trigger] s@[j]),
        decreases len - i,
    {
        let c = s.get_char(i);
        if !(c == '_' || ('a' <= c && c <= 'z') || ('A' <= c && c <= 'Z') || ('0' <= c && c
            <= '9')) {
            return false;
        }
        i = i + 1;
    }
    true
}

/// The tokens of the path to a found crate: `crate` for the crate itself, and
/// `::name` for a dependency.
pub open spec fn spec_found_crate_path(found: FoundCrate) -> Seq<(Seq<char>, bool)> {
    match found {
        FoundCrate::Itself => seq![("crate"@, false)],
        FoundCrate::Name(name) => seq![(seq![':'], true), (seq![':'], false), (name@, false)],
    }
}

/// Whether a path to the found crate is written: its name, if it has one, is an
/// ASCII identifier.
pub open spec fn is_usable(found: FoundCrate) -> bool {
    match found {
        FoundCrate::Itself => true,
        FoundCrate::Name(name) => is_ascii_ident(name@),
    }
}

/// The path to a found crate: `crate` for the crate itself, and `::name` for a
/// dependency.
pub fn found_crate_path(found: FoundCrate) -> (path: TokenStream)
    requires
        is_usable(found),
    ensures
        stream_tokens(path) == spec_found_crate_path(found),
        found matches FoundCrate::Name(n) ==> stream_tokens(path) == seq![
            (seq![':'], true),
            (seq![':'], false),
            (n@, false),
        ],
        found is Itself ==> stream_tokens(path) == seq![(seq!['c', 'r', 'a', 't', 'e'], false)],
{
    proof {
        reveal_strlit("crate");
        assert("crate"@ =~= seq!['c', 'r', 'a', 't', 'e']);
    }
    let mut path = empty_stream();
    match found {
        FoundCrate::Itself => {
            proof {
                reveal_strlit("crate");
            }
            push_ident(&mut path, "crate");
        },
        FoundCrate::Name(name) => {
            push_colon(&mut path, true);
            push_colon(&mut path, false);
            push_ident(&mut path, name.as_str());
        },
    }
    path
}

/// Why no path to GPUI could be resolved.
#[derive(Clone, Copy, Debug, PartialEq, Eq, Structural)]
pub enum CratePathError {
    /// None of the candidate packages is a dependency of the crate being compiled.
    NotFound,
    /// The preferred candidate found is reachable under a name that is not an
    /// ASCII identifier.
    NotAnIdentifier,
}

/// The path chosen from the lookups of the candidates, in order of preference:
/// that of the first candidate found, if its name is an ASCII identifier.
pub open spec fn spec_select_path(lookups: Seq<Option<FoundCrate>>) -> Result<
    Seq<(Seq<char>, bool)>,
    CratePathError,
>
    decreases lookups.len(),
{
    if lookups.len() == 0 {
        Err(CratePathError::NotFound)
    } else {
        match lookups[0] {
            Some(found) => if is_usable(found) {
                Ok(spec_found_crate_path(found))
            } else {
                Err(CratePathError::NotAnIdentifier)
            },
            None => spec_select_path(lookups.drop_first()),
        }
    }
}

/// The path to GPUI, given what looking up each candidate found, in order of
/// preference.
pub fn select_path(lookups: &Vec<Option<FoundCrate>>) -> (res: Result<TokenStream, CratePathError>)
    ensures
        match (res, spec_select_path(lookups@)) {
            (Ok(path), Ok(tokens)) => stream_tokens(path) == tokens,
            (Err(e), Err(f)) => e == f,
            _ => false,
        },
{
    let mut i: usize = 0;
    assert(lookups@.skip(0) =~= lookups@);
    while i < lookups.len()
        invariant
            i <= lookups.len(),
            forall|j: int| 0 <= j < i ==> lookups@[j] is None,
            spec_select_path(lookups@) == spec_select_path(lookups@.skip(i as int)),
        decreases lookups.len() - i,
    {
        assert(lookups@.skip(i as int).drop_first() =~= lookups@.skip(i + 1));
        match &lookups[i] {
            Some(found) => {
                return match found {
                    FoundCrate::Itself => Ok(found_crate_path(FoundCrate::Itself)),
                    FoundCrate::Name(name) => if check_ascii_ident(name.as_str()) {
                        Ok(found_crate_path(FoundCrate::Name(name.clone())))
                    } else {
                        Err(CratePathError::NotAnIdentifier)
                    },
                };
            },
            None => {},
        }
        i = i + 1;
    }
    Err(CratePathError::NotFound)
}

/// A selected path is the path to a usable crate that one of the lookups found.
pub proof fn lemma_selected_path_is_found_path(lookups: Seq<Option<FoundCrate>>)
    ensures
        spec_select_path(lookups) matches Ok(tokens) ==> exists|found: FoundCrate|
            #![trigger spec_found_crate_path(found)]
            is_usable(found) && lookups.contains(Some(found)) && tokens == spec_found_crate_path(
                found,
            ),
    decreases lookups.len(),
{
    if lookups.len() > 0 {
        lemma_selected_path_is_found_path(lookups.drop_first());
        if lookups[0] is None {
            if spec_select_path(lookups) is Ok {
                let found = choose|found: FoundCrate|
                    #![trigger spec_found_crate_path(found)]
                    is_usable(found) && lookups.drop_first().contains(Some(found))
                        && spec_select_path(lookups).unwrap() == spec_found_crate_path(found);
                let k = choose|k: int| 0 <= k < lookups.drop_first().len() && lookups.drop_first()[k] == Some(found);
                assert(lookups[k + 1] == Some(found));
            }
        } else {
            assert(lookups[0] == Some(lookups[0].unwrap()));
        }
    }
}

/// The message of the error for each reason a path could not be resolved.
pub open spec fn spec_error_message(e: CratePathError) -> Seq<char> {
    match e {
        CratePathError::NotFound => "IntoPlot requires a direct dependency on `gpui-kit`, `gpui-pre` or `gpui`"@,
        CratePathError::NotAnIdentifier => "IntoPlot requires the GPUI dependency to be named by an ASCII identifier"@,
    }
}

/// The message of the error for each reason a path could not be resolved.
pub fn error_message(e: CratePathError) -> (message: &'static str)
    ensures
        message@ == spec_error_message(e),
{
    match e {
        CratePathError::NotFound => "IntoPlot requires a direct dependency on `gpui-kit`, `gpui-pre` or `gpui`",
        CratePathError::NotAnIdentifier => "IntoPlot requires the GPUI dependency to be named by an ASCII identifier",
    }
}

/// The packages that provide GPUI, most preferred first.
pub open spec fn spec_gpui_candidates() -> Seq<Seq<char>> {
    seq!["gpui-kit"@, "gpui-pre"@, "gpui"@]
}

/// The packages that provide GPUI, most preferred first: `gpui-kit`, then
/// `gpui-pre`, then `gpui`.
pub fn gpui_candidates() -> (candidates: Vec<&'static str>)
    ensures
        candidates@.len() == spec_gpui_candidates().len(),
        forall|i: int|
            0 <= i < candidates@.len() ==> (#[trigger] candidates@[i])@ == spec_gpui_candidates()[i],
{
    let mut candidates: Vec<&'static str> = Vec::new();
    candidates.push("gpui-kit");
    candidates.push("gpui-pre");
    candidates.push("gpui");
    candidates
}

/// The path to GPUI, or the error a macro reports, given what looking up each
/// candidate found, in order of preference.
pub fn gpui_from_lookups(lookups: &Vec<Option<FoundCrate>>) -> (res: Result<TokenStream, syn::Error>)
    ensures
        match (res, spec_select_path(lookups@)) {
            (Ok(path), Ok(tokens)) => stream_tokens(path) == tokens,
            (Err(e), Err(f)) => error_messages(e) == seq![spec_error_message(f)],
            _ => false,
        },
{
    match select_path(lookups) {
        Ok(path) => Ok(path),
        Err(e) => Err(call_site_error(error_message(e))),
    }
}

/// Whether `lookups` is a run of lookups of the candidates, most preferred
/// first, that stops at the first one found.
pub open spec fn is_candidate_run(lookups: Seq<Option<FoundCrate>>) -> bool {
    &&& 1 <= lookups.len() <= spec_gpui_candidates().len()
    &&& forall|j: int|
        0 <= j < lookups.len() ==> looked_up(spec_gpui_candidates()[j], #[trigger] lookups[j])
    &&& forall|j: int| 0 <= j < lookups.len() - 1 ==> (#[trigger] lookups[j]) is None
    &&& lookups.len() < spec_gpui_candidates().len() ==> lookups.last() is Some
}

/// Whether a result is what a macro reports for these lookups: the selected
/// path, or an error holding the message of why none was selected.
pub open spec fn reports(res: Result<TokenStream, syn::Error>, lookups: Seq<Option<FoundCrate>>) -> bool {
    match (res, spec_select_path(lookups)) {
        (Ok(path), Ok(tokens)) => stream_tokens(path) == tokens,
        (Err(e), Err(f)) => error_messages(e) == seq![spec_error_message(f)],
        _ => false,
    }
}

/// Resolves the GPUI API exposed to the crate where a macro is expanded: looks
/// up the candidate packages of [`gpui_candidates`] in the manifest of that
/// crate, most preferred first, stops at the first one found, and reports what
/// [`gpui_from_lookups`] makes of those lookups. What each lookup finds depends
/// on the manifests on disk.
pub fn gpui() -> (res: Result<TokenStream, syn::Error>)
    ensures
        exists|lookups: Seq<Option<FoundCrate>>|
            #![trigger is_candidate_run(lookups)]
            is_candidate_run(lookups) && reports(res, lookups),
        res matches Ok(path) ==> exists|found: FoundCrate|
            #![trigger spec_found_crate_path(found)]
            is_usable(found) && stream_tokens(path) == spec_found_crate_path(found),
{
    let candidates = gpui_candidates();
    let mut lookups: Vec<Option<FoundCrate>> = Vec::new();
    let mut found_one = false;
    let mut i: usize = 0;
    while i < candidates.len() && !found_one
        invariant
            i <= candidates.len(),
            candidates@.len() == spec_gpui_candidates().len(),
            forall|k: int|
                0 <= k < candidates@.len() ==> (#[trigger] candidates@[k])@
                    == spec_gpui_candidates()[k],
            lookups@.len() == i,
            forall|j: int|
                0 <= j < i ==> looked_up(spec_gpui_candidates()[j], #[trigger] lookups@[j]),
            found_one ==> i > 0 && lookups@[i - 1] is Some,
            !found_one ==> forall|j: int| 0 <= j < i ==> (#[trigger] lookups@[j]) is None,
            found_one ==> forall|j: int| 0 <= j < i - 1 ==> (#[trigger] lookups@[j]) is None,
        decreases candidates.len() - i,
    {
        let found = crate_name(candidates[i]);
        found_one = found.is_some();
        lookups.push(found);
        i = i + 1;
    }
    proof {
        lemma_selected_path_is_found_path(lookups@);
    }
    let res = gpui_from_lookups(&lookups);
    assert(is_candidate_run(lookups@) && reports(res, lookups@));
    res
}

/// Candidates are taken in order of preference: the first one found decides
/// the path, whatever the less preferred lookups found.
pub proof fn law_first_found_candidate_decides(lookups: Seq<Option<FoundCrate>>, k: int)
    requires
        0 <= k < lookups.len(),
        lookups[k] is Some,
        forall|j: int| 0 <= j < k ==> lookups[j] is None,
    ensures
        spec_select_path(lookups) == (if is_usable(lookups[k].unwrap()) {
            Ok(spec_found_crate_path(lookups[k].unwrap()))
        } else {
            Err(CratePathError::NotAnIdentifier)
        }),
    decreases k,
{
    if k > 0 {
        assert(lookups[0] is None);
        let rest = lookups.drop_first();
        assert forall|j: int| 0 <= j < k - 1 implies rest[j] is None by {
            assert(rest[j] == lookups[j + 1]);
        }
        law_first_found_candidate_decides(rest, k - 1);
    }
}

/// The path to a dependency is absolute, whatever its name: two colons, the
/// first joined to the second, then the name; the path to the crate itself is
/// the keyword `crate`.
pub proof fn law_dependency_path_is_absolute(name: String)
    ensures
        spec_found_crate_path(FoundCrate::Name(name)) == seq![
            (seq![':'], true),
            (seq![':'], false),
            (name@, false),
        ],
        spec_found_crate_path(FoundCrate::Itself) == seq![(seq!['c', 'r', 'a', 't', 'e'], false)],
{
    reveal_strlit("crate");
    assert("crate"@ =~= seq!['c', 'r', 'a', 't', 'e']);
}

/// The ASCII identifiers are exactly the non-empty strings of ASCII letters,
/// digits and underscores that do not start with a digit, of any length.
pub proof fn law_ascii_identifiers_are_exactly_these(s: Seq<char>)
    ensures
        is_ascii_ident(s) <==> (s.len() > 0 && (s[0] == '_' || ('a' <= s[0] && s[0] <= 'z') || (
        'A' <= s[0] && s[0] <= 'Z')) && forall|i: int|
            1 <= i < s.len() ==> (#[trigger] s[i] == '_' || ('a' <= s[i] && s[i] <= 'z') || ('A'
                <= s[i] && s[i] <= 'Z') || ('0' <= s[i] && s[i] <= '9'))),
{
}

/// Appending a letter, a digit or an underscore to an ASCII identifier gives an
/// ASCII identifier: there is no bound on the length of a name.
pub proof fn law_identifiers_grow(s: Seq<char>, c: char)
    requires
        is_ascii_ident(s),
        c == '_' || ('a' <= c && c <= 'z') || ('A' <= c && c <= 'Z') || ('0' <= c && c <= '9'),
    ensures
        is_ascii_ident(s.push(c)),
{
    assert forall|i: int| 1 <= i < s.push(c).len() implies is_ascii_ident_continue(
        #[trigger] s.push(c)[i],
    ) by {
        if i < s.len() {
            assert(s.push(c)[i] == s[i]);
        }
    }
}

/// A found dependency whose name is an ASCII identifier, looked up before any
/// other candidate was found, is written as the absolute path to that name.
pub proof fn law_found_identifier_is_written(lookups: Seq<Option<FoundCrate>>, k: int, name: String)
    requires
        0 <= k < lookups.len(),
        lookups[k] == Some(FoundCrate::Name(name)),
        forall|j: int| 0 <= j < k ==> lookups[j] is None,
        name@.len() > 0,
        name@[0] == '_' || ('a' <= name@[0] && name@[0] <= 'z') || ('A' <= name@[0] && name@[0]
            <= 'Z'),
        forall|i: int|
            1 <= i < name@.len() ==> (#[trigger] name@[i] == '_' || ('a' <= name@[i] && name@[i]
                <= 'z') || ('A' <= name@[i] && name@[i] <= 'Z') || ('0' <= name@[i] && name@[i]
                <= '9')),
    ensures
        spec_select_path(lookups) == Ok::<Seq<(Seq<char>, bool)>, CratePathError>(
            seq![(seq![':'], true), (seq![':'], false), (name@, false)],
        ),
{
    law_ascii_identifiers_are_exactly_these(name@);
    law_first_found_candidate_decides(lookups, k);
    law_dependency_path_is_absolute(name);
}

} // verus!
