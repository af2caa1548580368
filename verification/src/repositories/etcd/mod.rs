//! The etcd repository: key layout and the decisions taken on what etcd
//! answers.  The calls to etcd and the JSON encoding of records are made by the
//! caller, which hands the decoded records to these functions.

pub mod scenes;

use vstd::prelude::*;

use crate::entity::Id;

verus! {

/// The etcd key of a scene, or the prefix of all scene keys.
pub open spec fn scene_key(partial: Option<Seq<char>>) -> Seq<char> {
    match partial {
        Some(id) => "/scenes/"@ + id,
        None => "/scenes/"@,
    }
}

/// The etcd key of a subroutine, or the prefix of all subroutine keys.
pub open spec fn subroutine_key(partial: Option<Seq<char>>) -> Seq<char> {
    match partial {
        Some(id) => "/subroutines/"@ + id,
        None => "/subroutines/"@,
    }
}

/// Every scene key lies under the prefix of all scene keys, so watching the
/// prefix sees every scene; and distinct ids give distinct keys.
pub proof fn lemma_scene_keys_under_prefix(id: Seq<char>, other: Seq<char>)
    ensures
        scene_key(None).is_prefix_of(scene_key(Some(id))),
        scene_key(Some(id)) == scene_key(Some(other)) ==> id == other,
{
    let p = scene_key(None);
    assert(scene_key(Some(id)).subrange(0, p.len() as int) =~= p);
    if scene_key(Some(id)) == scene_key(Some(other)) {
        assert(id =~= scene_key(Some(id)).subrange(p.len() as int, scene_key(Some(id)).len() as int));
        assert(other =~= scene_key(Some(other)).subrange(p.len() as int, scene_key(Some(other)).len() as int));
    }
}

/// The etcd key of a scene (or, given no id, the prefix of all scene keys).
pub fn etcd_scene_key(partial: Option<&Id>) -> (k: String)
    ensures
        k@ == scene_key(
            match partial {
                Some(id) => Some(id@),
                None => None,
            },
        ),
{
    match partial {
        Some(id) => "/scenes/".to_owned().concat(id.as_str()),
        None => "/scenes/".to_owned(),
    }
}

/// The etcd key of a subroutine (or, given no id, the prefix of all subroutine keys).
pub fn etcd_subroutine_key(partial: Option<&Id>) -> (k: String)
    ensures
        k@ == subroutine_key(
            match partial {
                Some(id) => Some(id@),
                None => None,
            },
        ),
{
    match partial {
        Some(id) => "/subroutines/".to_owned().concat(id.as_str()),
        None => "/subroutines/".to_owned(),
    }
}

} // verus!
