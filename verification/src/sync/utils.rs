//! Which source files must be converted to the target format.
use vstd::prelude::*;

use crate::models::{format_extension, Format, SyncConfig};
use crate::paths::{extension, path_extension};
use crate::text::{eq_ignore_ascii_case, eq_ignore_ascii_case_spec, lemma_eq_ignore_ascii_case_equivalence};

verus! {

/// Some entry of `list` equals `ext` up to ASCII case.
pub open spec fn listed(list: Seq<String>, ext: Seq<char>) -> bool {
    exists|i: int| 0 <= i < list.len() && eq_ignore_ascii_case_spec(#[trigger] list[i]@, ext)
}

/// Whether a source file whose extension is `source_ext` must be converted
/// under `config`:
/// - never without a target format;
/// - always when the file has no extension;
/// - never when the extension already is the target's (in any case);
/// - with a whitelist, exactly when the extension is listed;
/// - else, with a blacklist, exactly when it is not listed;
/// - else always.
pub open spec fn needs_conversion_spec(config: SyncConfig, source_ext: Option<Seq<char>>) -> bool {
    match config.format {
        None => false,
        Some(format) => match source_ext {
            None => true,
            Some(ext) => {
                if eq_ignore_ascii_case_spec(ext, format_extension(format)) {
                    false
                } else {
                    match config.whitelist {
                        Some(whitelist) => listed(whitelist@, ext),
                        None => match config.blacklist {
                            Some(blacklist) => !listed(blacklist@, ext),
                            None => true,
                        },
                    }
                }
            },
        },
    }
}

/// Whether some entry of `list` equals `ext` up to ASCII case.
pub fn is_listed(list: &Vec<String>, ext: &str) -> (res: bool)
    ensures
        res == listed(list@, ext@),
{
    let mut i: usize = 0;
    while i < list.len()
        invariant
            i <= list.len(),
            forall|j: int| 0 <= j < i ==> !eq_ignore_ascii_case_spec(#[trigger] list@[j]@, ext@),
        decreases list.len() - i,
    {
        if eq_ignore_ascii_case(list[i].as_str(), ext) {
            assert(eq_ignore_ascii_case_spec(list@[i as int]@, ext@));
            return true;
        }
        i = i + 1;
    }
    false
}

/// Decides whether a source file with extension `source_ext` (`None`: the
/// file has none) must be converted to the configured format.
pub fn needs_conversion_for_extension(config: &SyncConfig, source_ext: Option<&str>) -> (res: bool)
    ensures
        res == needs_conversion_spec(*config, match source_ext {
            Some(e) => Some(e@),
            None => None,
        }),
{
    let target: &str = match &config.format {
        Some(f) => f.as_ref(),
        None => return false,
    };
    let ext: &str = match source_ext {
        Some(e) => e,
        None => return true,
    };
    if eq_ignore_ascii_case(ext, target) {
        return false;
    }
    match &config.whitelist {
        Some(whitelist) => is_listed(whitelist, ext),
        None => match &config.blacklist {
            Some(blacklist) => !is_listed(blacklist, ext),
            None => true,
        },
    }
}

/// Whether the file at `source_path` must be converted to the configured
/// format, judged by the extension of its file name.
pub fn needs_conversion(config: &SyncConfig, source_path: &str) -> (res: bool)
    ensures
        res == needs_conversion_spec(*config, path_extension(source_path@)),
{
    let ext = extension(source_path);
    match ext {
        Some(e) => needs_conversion_for_extension(config, Some(e.as_str())),
        None => needs_conversion_for_extension(config, None),
    }
}

/// Without a target format no file is converted.
pub proof fn lemma_no_format_no_conversion(config: SyncConfig, source_ext: Option<Seq<char>>)
    requires
        config.format is None,
    ensures
        !needs_conversion_spec(config, source_ext),
{
}

/// A file whose extension already is the target format's, in any case, is
/// not converted, whatever the lists say.
pub proof fn lemma_target_format_is_kept(config: SyncConfig, ext: Seq<char>)
    requires
        config.format matches Some(f) && eq_ignore_ascii_case_spec(ext, format_extension(f)),
    ensures
        !needs_conversion_spec(config, Some(ext)),
{
}

/// Whether a file is converted does not depend on the case of its
/// extension.
pub proof fn lemma_conversion_ignores_case(config: SyncConfig, a: Seq<char>, b: Seq<char>)
    requires
        eq_ignore_ascii_case_spec(a, b),
    ensures
        needs_conversion_spec(config, Some(a)) == needs_conversion_spec(config, Some(b)),
{
    lemma_eq_ignore_ascii_case_equivalence(a, b, b);
    if let Some(f) = config.format {
        let t = format_extension(f);
        lemma_eq_ignore_ascii_case_equivalence(b, a, t);
        lemma_eq_ignore_ascii_case_equivalence(a, b, t);
        assert forall|l: Seq<String>| listed(l, a) <==> listed(l, b) by {
            if listed(l, a) {
                let i = choose|i: int| 0 <= i < l.len() && eq_ignore_ascii_case_spec(#[trigger] l[i]@, a);
                lemma_eq_ignore_ascii_case_equivalence(l[i]@, a, b);
            }
            if listed(l, b) {
                let i = choose|i: int| 0 <= i < l.len() && eq_ignore_ascii_case_spec(#[trigger] l[i]@, b);
                lemma_eq_ignore_ascii_case_equivalence(l[i]@, b, a);
            }
        }
    }
}

/// With a target format, a file without extension is converted, and so is
/// one whose extension is not the target's when no list is given.
pub proof fn lemma_other_formats_are_converted(config: SyncConfig, ext: Seq<char>)
    requires
        config.format is Some,
    ensures
        needs_conversion_spec(config, None),
        config.whitelist is None && config.blacklist is None
            && !eq_ignore_ascii_case_spec(ext, format_extension(config.format->0))
            ==> needs_conversion_spec(config, Some(ext)),
{
}

/// With a target format and a whitelist, a file is converted exactly when
/// its extension is listed and is not already the target's; with a
/// blacklist instead, a listed extension is never converted.
pub proof fn lemma_lists_select_conversions(config: SyncConfig, ext: Seq<char>)
    requires
        config.format is Some,
    ensures
        config.whitelist matches Some(w) ==> (needs_conversion_spec(config, Some(ext))
            <==> listed(w@, ext) && !eq_ignore_ascii_case_spec(ext, format_extension(config.format->0))),
        config.whitelist is None ==> (config.blacklist matches Some(b) && listed(b@, ext)
            ==> !needs_conversion_spec(config, Some(ext))),
{
}

} // verus!
