//! Where a design is saved: the native format always carries the `json` extension.
use vstd::prelude::*;

use crate::scadnano::same_text;

verus! {

/// The extension that a chosen save path must be given: `json` when it has none, its
/// own extension followed by `.json` when that is not `json` already, and no change
/// (`None`) when it is.
pub open spec fn spec_json_extension(current: Option<Seq<char>>) -> Option<Seq<char>> {
    match current {
        None => Some("json"@),
        Some(e) => if e == "json"@ {
            None
        } else {
            Some(e + ".json"@)
        },
    }
}

pub open spec fn str_view(current: Option<&str>) -> Option<Seq<char>> {
    match current {
        Some(e) => Some(e@),
        None => None,
    }
}

pub open spec fn string_view(r: Option<String>) -> Option<Seq<char>> {
    match r {
        Some(e) => Some(e@),
        None => None,
    }
}

/// The extension that a path with extension `current` has once saved.
pub open spec fn saved_extension(current: Option<Seq<char>>) -> Seq<char> {
    match spec_json_extension(current) {
        Some(e) => e,
        None => current->0,
    }
}

/// Whatever extension a chosen path has, none included, the saved path's extension
/// ends in `json`; an extension that was `json` is kept as it is.
pub proof fn lemma_saved_extension_is_json(current: Option<Seq<char>>)
    ensures
        saved_extension(current).len() >= 4,
        saved_extension(current).subrange(
            saved_extension(current).len() - 4,
            saved_extension(current).len() as int,
        ) == "json"@,
        current == Some("json"@) ==> saved_extension(current) == "json"@,
{
    reveal_strlit("json");
    reveal_strlit(".json");
    let e = saved_extension(current);
    match current {
        None => {
            assert(e.subrange(e.len() - 4, e.len() as int) =~= "json"@);
        },
        Some(c) => {
            if c == "json"@ {
                assert(e.subrange(e.len() - 4, e.len() as int) =~= "json"@);
            } else {
                assert(e == c + ".json"@);
                assert(e.subrange(e.len() - 4, e.len() as int) =~= "json"@);
            }
        },
    }
}

/// The extension to set on a save path whose extension is `current`, or `None` to
/// leave the path as it is.
pub fn json_extension(current: Option<&str>) -> (r: Option<String>)
    ensures
        string_view(r) == spec_json_extension(str_view(current)),
        current is None ==> r is Some && r->0@ == "json"@,
        current is Some && current->0@ == "json"@ ==> r is None,
        current is Some && current->0@ != "json"@ ==> r is Some && r->0@ == current->0@ + ".json"@,
{
    match current {
        None => Some(String::from_str("json")),
        Some(e) => {
            if same_text(e, "json") {
                None
            } else {
                let mut s = String::from_str(e);
                s.append(".json");
                Some(s)
            }
        },
    }
}

} // verus!
