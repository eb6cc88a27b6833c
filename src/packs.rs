//! Which datapacks a run stages, and where each one lands.

use vstd::prelude::*;

use crate::artifacts::opt_view;
use crate::layout::DATAPACKS_DIR;
use crate::text::{join_path, joined, same_text, split_on, split_text};

verus! {

/// The last named component of a path split at '/': empty and "." components
/// are skipped, and a path that ends in ".." or has no named component has
/// none.
pub open spec fn last_component(comps: Seq<Seq<char>>) -> Option<Seq<char>>
    decreases comps.len(),
{
    if comps.len() == 0 {
        None
    } else {
        let l = comps.last();
        if l.len() == 0 || l == "."@ {
            last_component(comps.drop_last())
        } else if l == ".."@ {
            None
        } else {
            Some(l)
        }
    }
}

/// The base name of a path, if it has one.
pub open spec fn base_name(p: Seq<char>) -> Option<Seq<char>> {
    last_component(split_on(p, '/'))
}

/// The base name of `path`: its last component, not counting trailing
/// slashes or "." components. A path that ends in "..", or has no named
/// component ("", "/", "."), has none.
pub fn pack_base_name(path: &str) -> (r: Option<String>)
    ensures
        opt_view(r) == base_name(path@),
{
    let pieces = split_text(path, '/');
    let ghost comps = pieces@.map_values(|p: String| p@);
    let mut k: usize = pieces.len();
    assert(comps.subrange(0, k as int) =~= comps);
    while k > 0
        invariant
            k <= pieces@.len(),
            comps == pieces@.map_values(|p: String| p@),
            comps == split_on(path@, '/'),
            last_component(comps) == last_component(comps.subrange(0, k as int)),
        decreases k,
    {
        let piece = &pieces[k - 1];
        let ghost sub = comps.subrange(0, k as int);
        assert(sub.last() == piece@);
        assert(sub.drop_last() =~= comps.subrange(0, k - 1));
        if piece.as_str().is_empty() || same_text(piece.as_str(), ".") {
            k = k - 1;
        } else if same_text(piece.as_str(), "..") {
            return None;
        } else {
            return Some(piece.clone());
        }
    }
    None
}

/// One source of datapacks, as given on the command line.
#[derive(Clone, Debug)]
pub enum PackSource {
    /// A filesystem pattern; each path that it matches is a pack.
    Pattern(String),
    /// A path taken as it stands.
    Literal(String),
}

impl PackSource {
    pub open spec fn is_literal(self) -> bool {
        self is Literal
    }

    pub open spec fn text(self) -> Seq<char> {
        match self {
            PackSource::Pattern(s) => s@,
            PackSource::Literal(s) => s@,
        }
    }
}

/// Splitting into a list was asked for, and no pack was given.
#[derive(Clone, Copy, Debug, PartialEq, Eq, Structural)]
pub struct MissingPackList;

/// `r` lists the pack sources that `packs` gives: in list mode the pieces of
/// the first argument between commas, taken literally; otherwise each argument
/// as a pattern.
pub open spec fn sources_of(packs: Seq<Seq<char>>, comma_separate: bool, r: Seq<PackSource>) -> bool {
    if comma_separate {
        let pieces = split_on(packs[0], ',');
        r.len() == pieces.len() && forall|k: int|
            0 <= k < r.len() ==> (#[trigger] r[k]).is_literal() && r[k].text() == pieces[k]
    } else {
        r.len() == packs.len() && forall|k: int|
            0 <= k < r.len() ==> !(#[trigger] r[k]).is_literal() && r[k].text() == packs[k]
    }
}

/// The pack sources of a run. In list mode only the first argument counts,
/// and it must be there.
pub fn pack_sources(packs: &Vec<String>, comma_separate: bool) -> (r: Result<
    Vec<PackSource>,
    MissingPackList,
>)
    ensures
        comma_separate && packs@.len() == 0 <==> r is Err,
        r matches Ok(v) ==> sources_of(packs@.map_values(|p: String| p@), comma_separate, v@),
{
    let ghost views = packs@.map_values(|p: String| p@);
    let mut out: Vec<PackSource> = Vec::new();
    if comma_separate {
        if packs.len() == 0 {
            return Err(MissingPackList);
        }
        let pieces = split_text(packs[0].as_str(), ',');
        assert(views[0] == packs@[0]@);
        let mut i: usize = 0;
        while i < pieces.len()
            invariant
                i <= pieces@.len(),
                pieces@.map_values(|p: String| p@) == split_on(views[0], ','),
                out@.len() == i,
                forall|k: int|
                    0 <= k < i ==> (#[trigger] out@[k]).is_literal() && out@[k].text()
                        == pieces@[k]@,
            decreases pieces@.len() - i,
        {
            out.push(PackSource::Literal(pieces[i].clone()));
            i = i + 1;
        }
        proof {
            let sp = split_on(views[0], ',');
            assert forall|k: int| 0 <= k < out@.len() implies (#[trigger] out@[k]).is_literal()
                && out@[k].text() == sp[k] by {
                assert(sp[k] == pieces@.map_values(|p: String| p@)[k]);
            }
        }
    } else {
        let mut i: usize = 0;
        while i < packs.len()
            invariant
                i <= packs@.len(),
                views == packs@.map_values(|p: String| p@),
                out@.len() == i,
                forall|k: int|
                    0 <= k < i ==> !(#[trigger] out@[k]).is_literal() && out@[k].text() == views[k],
            decreases packs@.len() - i,
        {
            out.push(PackSource::Pattern(packs[i].clone()));
            i = i + 1;
        }
    }
    Ok(out)
}

/// A pack to copy, and the path, relative to the instance root, that it is
/// copied to.
#[derive(Clone, Debug)]
pub struct PackCopy {
    pub source: String,
    pub dest: String,
}

/// A pack path without a base name.
#[derive(Clone, Debug)]
pub struct InvalidPackPath {
    pub path: String,
}

/// Where the pack at `source` goes: the datapack directory, under the pack's
/// own base name. A path without a base name is refused.
pub fn pack_copy(source: &str) -> (r: Result<PackCopy, InvalidPackPath>)
    ensures
        match base_name(source@) {
            Some(name) => r matches Ok(c) && c.source@ == source@ && c.dest@ == joined(
                DATAPACKS_DIR@,
                name,
            ),
            None => r matches Err(e) && e.path@ == source@,
        },
{
    match pack_base_name(source) {
        Some(name) => Ok(
            PackCopy {
                source: String::from_str(source),
                dest: join_path(DATAPACKS_DIR, name.as_str()),
            },
        ),
        None => Err(InvalidPackPath { path: String::from_str(source) }),
    }
}

/// Every path of `paths` has a base name.
pub open spec fn all_named(paths: Seq<Seq<char>>) -> bool {
    forall|k: int| 0 <= k < paths.len() ==> (#[trigger] base_name(paths[k])) is Some
}

/// The copies for the paths that one source expanded to, in order. An
/// expansion to no path gives no copy and no error; the first path without a
/// base name is refused.
pub fn plan_pack_copies(paths: &Vec<String>) -> (r: Result<Vec<PackCopy>, InvalidPackPath>)
    ensures
        paths@.len() == 0 ==> (r matches Ok(v) && v@.len() == 0),
        r is Ok <==> all_named(paths@.map_values(|p: String| p@)),
        r matches Ok(v) ==> v@.len() == paths@.len() && forall|k: int|
            0 <= k < v@.len() ==> (#[trigger] v@[k]).source@ == paths@[k]@ && v@[k].dest@
                == joined(DATAPACKS_DIR@, base_name(paths@[k]@)->0),
        r matches Err(e) ==> exists|k: int|
            0 <= k < paths@.len() && e.path@ == (#[trigger] paths@[k])@ && base_name(
                paths@[k]@,
            ) is None,
{
    let ghost views = paths@.map_values(|p: String| p@);
    let mut out: Vec<PackCopy> = Vec::new();
    let mut i: usize = 0;
    while i < paths.len()
        invariant
            i <= paths@.len(),
            views == paths@.map_values(|p: String| p@),
            out@.len() == i,
            forall|k: int| 0 <= k < i ==> (#[trigger] base_name(views[k])) is Some,
            forall|k: int|
                0 <= k < i ==> (#[trigger] out@[k]).source@ == paths@[k]@ && out@[k].dest@
                    == joined(DATAPACKS_DIR@, base_name(paths@[k]@)->0),
        decreases paths@.len() - i,
    {
        match pack_copy(paths[i].as_str()) {
            Ok(c) => {
                out.push(c);
            },
            Err(e) => {
                assert(base_name(views[i as int]) is None);
                return Err(e);
            },
        }
        i = i + 1;
    }
    assert(all_named(views));
    Ok(out)
}

} // verus!
