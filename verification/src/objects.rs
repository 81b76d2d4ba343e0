//! Which of asusd's objects offer an interface, read from the answer of its
//! object manager, and which of them the firmware-attribute section shows.
use vstd::prelude::*;
use crate::text::{chars_of, has_prefix, starts_with, text_is, views, owned};
use crate::tray::{lemma_lex_transitive, lex_less, lex_lt, sort_unique, strictly_sorted};

verus! {

/// An object as asusd's object manager lists it: its path and the names of
/// the interfaces it offers. The object manager names each path once.
pub struct ManagedObject {
    pub path: String,
    pub interfaces: Vec<String>,
}

/// Whether the object offers the interface `name`.
pub open spec fn offers(o: ManagedObject, name: Seq<char>) -> bool {
    exists|i: int| 0 <= i < o.interfaces@.len() && (#[trigger] o.interfaces@[i])@ == name
}

/// The paths of the objects that offer `name`, in the order listed.
pub open spec fn paths_offering(objs: Seq<ManagedObject>, name: Seq<char>) -> Seq<Seq<char>>
    decreases objs.len(),
{
    if objs.len() == 0 {
        Seq::empty()
    } else {
        let rest = paths_offering(objs.drop_last(), name);
        if offers(objs.last(), name) {
            rest.push(objs.last().path@)
        } else {
            rest
        }
    }
}

/// Whether the object offers the interface `name`.
pub fn object_offers(o: &ManagedObject, name: &str) -> (r: bool)
    ensures
        r == offers(*o, name@),
{
    let mut i: usize = 0;
    while i < o.interfaces.len()
        invariant
            i <= o.interfaces@.len(),
            forall|k: int| 0 <= k < i ==> (#[trigger] o.interfaces@[k])@ != name@,
        decreases o.interfaces@.len() - i,
    {
        if text_is(&chars_of(o.interfaces[i].as_str()), name) {
            return true;
        }
        i = i + 1;
    }
    false
}

/// The paths of the listed objects that offer the interface `name`, in the
/// order listed.
pub fn paths_with_interface(objects: &Vec<ManagedObject>, name: &str) -> (r: Vec<String>)
    ensures
        views(r@) == paths_offering(objects@, name@),
{
    let mut r: Vec<String> = Vec::new();
    let mut i: usize = 0;
    while i < objects.len()
        invariant
            i <= objects@.len(),
            views(r@) == paths_offering(objects@.take(i as int), name@),
        decreases objects@.len() - i,
    {
        let ghost before = r@;
        assert(objects@.take(i + 1).drop_last() =~= objects@.take(i as int));
        assert(objects@.take(i + 1).last() == objects@[i as int]);
        if object_offers(&objects[i], name) {
            r.push(objects[i].path.clone());
            assert(views(r@) =~= views(before).push(objects@[i as int].path@));
        }
        i = i + 1;
    }
    assert(objects@.take(objects@.len() as int) =~= objects@);
    r
}

/// Whether any listed object offers the interface `name`.
pub fn interface_offered(objects: &Vec<ManagedObject>, name: &str) -> (r: bool)
    ensures
        r == (paths_offering(objects@, name@).len() > 0),
{
    paths_with_interface(objects, name).len() > 0
}

/// The message for an interface that no object offers.
pub open spec fn missing_interface_text(name: Seq<char>) -> Seq<char> {
    "asusd interface '"@ + name + "' is unavailable"@
}

/// The first of the paths in sorting order; an error naming the interface
/// when there is none.
pub fn first_interface_path(paths: &Vec<String>, name: &str) -> (r: Result<String, String>)
    ensures
        match r {
            Ok(p) => {
                &&& exists|i: int| 0 <= i < paths@.len() && (#[trigger] paths@[i])@ == p@
                &&& forall|j: int| 0 <= j < paths@.len() ==> !lex_lt((#[trigger] paths@[j])@, p@)
            },
            Err(e) => paths@.len() == 0 && e@ == missing_interface_text(name@),
        },
{
    if paths.len() == 0 {
        let mut e = owned("asusd interface '");
        e.append(name);
        e.append("' is unavailable");
        return Err(e);
    }
    let mut best: usize = 0;
    let mut best_chars = chars_of(paths[0].as_str());
    proof {
        crate::tray::lemma_lex_irreflexive(best_chars@);
    }
    let mut i: usize = 1;
    while i < paths.len()
        invariant
            1 <= i <= paths@.len(),
            best < paths@.len(),
            best_chars@ == paths@[best as int]@,
            forall|j: int| 0 <= j < i ==> !lex_lt((#[trigger] paths@[j])@, best_chars@),
        decreases paths@.len() - i,
    {
        let c = chars_of(paths[i].as_str());
        if lex_less(&c, &best_chars) {
            proof {
                assert forall|j: int| 0 <= j < i + 1 implies !lex_lt(
                    (#[trigger] paths@[j])@,
                    c@,
                ) by {
                    if j < i && lex_lt(paths@[j]@, c@) {
                        lemma_lex_transitive(paths@[j]@, c@, best_chars@);
                    }
                    if j == i {
                        crate::tray::lemma_lex_irreflexive(c@);
                    }
                }
            }
            best = i;
            best_chars = c;
        }
        i = i + 1;
    }
    Ok(paths[best].clone())
}

/// Whether a path lies under asusd's firmware-attribute objects.
pub open spec fn armoury_path(p: Seq<char>) -> bool {
    starts_with(p, "/xyz/ljones/asus_armoury/"@)
}

/// The objects the firmware-attribute section shows: those offering the
/// attribute interface whose path lies under the attribute objects, sorted.
pub open spec fn armoury_paths_of(objs: Seq<ManagedObject>) -> Set<Seq<char>> {
    paths_offering(objs, "xyz.ljones.AsusArmoury"@).to_set().filter(|p: Seq<char>| armoury_path(p))
}

/// The firmware-attribute objects' paths, sorted.
pub fn armoury_paths(objects: &Vec<ManagedObject>) -> (r: Vec<String>)
    ensures
        strictly_sorted(views(r@)),
        views(r@).to_set() == armoury_paths_of(objects@),
{
    let candidates = paths_with_interface(objects, "xyz.ljones.AsusArmoury");
    let ghost cv = views(candidates@);
    let prefix = chars_of("/xyz/ljones/asus_armoury/");
    let mut kept: Vec<Vec<char>> = Vec::new();
    let mut i: usize = 0;
    while i < candidates.len()
        invariant
            i <= candidates@.len(),
            cv == views(candidates@),
            prefix@ == "/xyz/ljones/asus_armoury/"@,
            kept@.map_values(|t: Vec<char>| t@).to_set() == cv.take(i as int).to_set().filter(
                |p: Seq<char>| armoury_path(p),
            ),
        decreases candidates@.len() - i,
    {
        let c = chars_of(candidates[i].as_str());
        let ghost k0 = kept@.map_values(|t: Vec<char>| t@);
        proof {
            crate::text::lemma_push_to_set(cv.take(i as int), cv[i as int]);
            assert(cv.take(i + 1) =~= cv.take(i as int).push(cv[i as int]));
        }
        if has_prefix(&c, &prefix) {
            kept.push(c);
            proof {
                assert(kept@.map_values(|t: Vec<char>| t@) =~= k0.push(cv[i as int]));
                crate::text::lemma_push_to_set(k0, cv[i as int]);
                assert(kept@.map_values(|t: Vec<char>| t@).to_set() =~= cv.take(i + 1).to_set().filter(
                    |p: Seq<char>| armoury_path(p),
                ));
            }
        } else {
            assert(k0.to_set() =~= cv.take(i + 1).to_set().filter(|p: Seq<char>| armoury_path(p)));
        }
        i = i + 1;
    }
    assert(cv.take(candidates@.len() as int) =~= cv);
    sort_unique(&kept)
}

} // verus!
