//! The extension filter: is a changed path relevant, going by its extension?

use vstd::prelude::*;

verus! {

/// What a changed path shows as its extension.
#[derive(Debug, Clone, PartialEq, Eq)]
pub enum PathExtension {
    /// The path has no extension component.
    Missing,
    /// The path has an extension that is not valid text.
    NotText,
    /// The extension, without the leading dot.
    Text(String),
}

/// The members of a list of extensions, as a set of texts.
pub open spec fn members(extensions: Seq<String>) -> Set<Seq<char>> {
    Set::new(
        |text: Seq<char>| exists|i: int| 0 <= i < extensions.len() && extensions[i]@ == text,
    )
}

/// The configured extensions as the set they stand for, if any are
/// configured.
pub open spec fn accepted_set(extensions: Option<&[String]>) -> Option<Set<Seq<char>>> {
    match extensions {
        None => None,
        Some(list) => Some(members(list@)),
    }
}

/// The rule of the filter. Without a set, or with an empty one, everything
/// passes. A path without an extension, or with one that is not text, always
/// passes. Any other path passes if and only if its extension is a member.
pub open spec fn filter_accepts(accepted: Option<Set<Seq<char>>>, ext: PathExtension) -> bool {
    match (accepted, ext) {
        (Some(set), PathExtension::Text(text)) => set =~= Set::empty() || set.contains(text@),
        _ => true,
    }
}

/// Whether `text` is one of `extensions`, compared character by character.
pub fn is_member(extensions: &[String], text: &String) -> (r: bool)
    ensures
        r == members(extensions@).contains(text@),
{
    let mut i: usize = 0;
    while i < extensions.len()
        invariant
            i <= extensions.len(),
            forall|k: int| 0 <= k < i ==> extensions@[k]@ != text@,
        decreases extensions.len() - i,
    {
        if extensions[i] == *text {
            return true;
        }
        i += 1;
    }
    false
}

/// Whether a change to a path with extension `ext` is relevant under the
/// configured `extensions`.
pub fn match_ext(extensions: Option<&[String]>, ext: &PathExtension) -> (r: bool)
    ensures
        r == filter_accepts(accepted_set(extensions), *ext),
{
    match (extensions, ext) {
        (Some(list), PathExtension::Text(text)) => {
            if list.len() == 0 {
                true
            } else {
                assert(members(list@).contains(list@[0]@));
                is_member(list, text)
            }
        },
        _ => true,
    }
}

/// With no set configured, or with an empty one, every path passes.
pub proof fn accept_all_without_extensions(ext: PathExtension)
    ensures
        filter_accepts(None, ext),
        filter_accepts(Some(Set::empty()), ext),
{
}

/// A path whose extension is missing or is not text passes every filter.
pub proof fn unclassifiable_paths_pass(accepted: Option<Set<Seq<char>>>, ext: PathExtension)
    requires
        ext is Missing || ext is NotText,
    ensures
        filter_accepts(accepted, ext),
{
}

/// Under a set with members, a textual extension passes exactly when it is
/// one of them.
pub proof fn textual_extension_passes_iff_member(set: Set<Seq<char>>, text: String)
    requires
        !(set =~= Set::empty()),
    ensures
        filter_accepts(Some(set), PathExtension::Text(text)) == set.contains(text@),
{
}

} // verus!
