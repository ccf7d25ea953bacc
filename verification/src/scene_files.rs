//! How a scene file names its model and its diffuse texture.

use vstd::prelude::*;
use vstd::string::{StrSliceExecFns, StringExecFns};

verus! {

/// Whether two dots in a row stand at place `p` of the path.
pub open spec fn dots_at(path: Seq<char>, p: int) -> bool {
    0 <= p && p + 1 < path.len() && path[p] == '.' && path[p + 1] == '.'
}

/// Whether `local` is `path` as seen from one directory further up: with
/// the first two dots in a row made one, or `path` itself where it holds no
/// two dots in a row.
pub open spec fn is_local(local: Seq<char>, path: Seq<char>) -> bool {
    &&& (forall|p: int| !dots_at(path, p)) ==> local == path
    &&& forall|p: int|
        #[trigger] dots_at(path, p) && (forall|q: int| 0 <= q < p ==> !dots_at(path, q))
            ==> local == path.subrange(0, p) + seq!['.'] + path.subrange(
            p + 2,
            path.len() as int,
        )
}

/// A path that a material file gives, as seen from the directory above the
/// material file's own: the first `..` in it becomes `.`.
pub fn local_path(path: &str) -> (local: String)
    ensures
        is_local(local@, path@),
{
    let len: usize = path.unicode_len();
    let mut p: usize = 0;
    while p < len && p + 1 < len
        invariant
            len == path@.len(),
            forall|q: int| 0 <= q < p ==> !dots_at(path@, q),
        decreases len - p,
    {
        if path.get_char(p) == '.' && path.get_char(p + 1) == '.' {
            let local: String = String::from_str(path.substring_char(0, p)).concat(".").concat(
                path.substring_char(p + 2, len),
            );
            proof {
                reveal_strlit(".");
                assert("."@ =~= seq!['.']);
                assert(dots_at(path@, p as int));
            }
            return local;
        }
        p += 1;
    }
    String::from_str(path)
}

/// Whether the material at place `i` names a diffuse texture.
pub open spec fn names_texture(named: Seq<Option<String>>, i: int) -> bool {
    0 <= i < named.len() && named[i] is Some
}

/// The path of a model's diffuse texture. `named` holds, for each material
/// of the scene file in turn, the diffuse texture that it names, if any.
/// The last material that names one decides, and its path is taken as
/// [`local_path`] gives it; where no material names one, the path is empty.
pub fn diffuse_texture_path(named: &Vec<Option<String>>) -> (path: String)
    ensures
        (forall|i: int| !names_texture(named@, i)) ==> path@ == Seq::<char>::empty(),
        forall|i: int|
            #[trigger] names_texture(named@, i) && (forall|k: int|
                i < k < named@.len() ==> !names_texture(named@, k)) ==> is_local(
                path@,
                named@[i]->0@,
            ),
{
    let mut path: String = String::new();
    let mut i: usize = 0;
    while i < named.len()
        invariant
            i <= named@.len(),
            (forall|k: int| 0 <= k < i ==> !names_texture(named@, k)) ==> path@ == Seq::<
                char,
            >::empty(),
            forall|k: int|
                0 <= k < i && #[trigger] names_texture(named@, k) && (forall|m: int|
                    k < m < i ==> !names_texture(named@, m)) ==> is_local(path@, named@[k]->0@),
        decreases named.len() - i,
    {
        match &named[i] {
            Some(texture) => {
                path = local_path(texture.as_str());
                assert(names_texture(named@, i as int));
            },
            None => {},
        }
        i += 1;
    }
    path
}

/// Whether `.obj` stands at place `p` of the text.
pub open spec fn obj_at(text: Seq<char>, p: int) -> bool {
    &&& 0 <= p
    &&& p + 4 <= text.len()
    &&& text[p] == '.'
    &&& text[p + 1] == 'o'
    &&& text[p + 2] == 'b'
    &&& text[p + 3] == 'j'
}

/// The text from place `p` on without `.obj`, wherever it stands when the
/// text is read from left to right.
pub open spec fn without_obj(text: Seq<char>, p: int) -> Seq<char>
    decreases text.len() - p,
{
    if p < 0 || p >= text.len() {
        Seq::empty()
    } else if obj_at(text, p) {
        without_obj(text, p + 4)
    } else {
        seq![text[p]] + without_obj(text, p + 1)
    }
}

/// The name of the model of a scene file: the file's name without `.obj`,
/// wherever it stands in the name.
pub fn model_name(file_name: &str) -> (name: String)
    ensures
        name@ == without_obj(file_name@, 0),
{
    let len: usize = file_name.unicode_len();
    let mut name: String = String::new();
    let mut p: usize = 0;
    while p < len
        invariant
            p <= len,
            len == file_name@.len(),
            name@ + without_obj(file_name@, p as int) == without_obj(file_name@, 0),
        decreases len - p,
    {
        if len - p >= 4 && file_name.get_char(p) == '.' && file_name.get_char(p + 1) == 'o'
            && file_name.get_char(p + 2) == 'b' && file_name.get_char(p + 3) == 'j' {
            p += 4;
        } else {
            let ghost before = name@;
            let ghost rest = without_obj(file_name@, p + 1);
            name.append(file_name.substring_char(p, p + 1));
            assert(name@ + rest =~= before + (seq![file_name@[p as int]] + rest));
            p += 1;
        }
    }
    assert(name@ + Seq::<char>::empty() =~= name@);
    name
}

} // verus!
