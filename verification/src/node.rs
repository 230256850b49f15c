//! Paths of nodes in a hierarchy, and the store keys of their metadata.

use crate::storage::{spec_valid_key, StoreKey};
use vstd::prelude::*;
use vstd::string::*;

verus! {

/// Whether `path` is the path of a node: the root `/`, or a text that starts
/// with a slash, does not end with one, and holds no two slashes in a row.
pub open spec fn spec_valid_node_path(path: Seq<char>) -> bool {
    path == seq!['/'] || (path.len() > 0 && path[0] == '/' && path[path.len() - 1] != '/'
        && forall|i: int| 0 <= i < path.len() - 1 ==> !(#[trigger] path[i] == '/' && path[i + 1]
            == '/'))
}

/// The path of a node.
#[derive(Debug, PartialEq, Eq)]
pub struct NodePath {
    path: String,
}

/// A text that is not the path of a node.
#[derive(Debug, PartialEq, Eq)]
pub struct NodePathError {
    /// The rejected text.
    pub path: String,
}

impl View for NodePath {
    type V = Seq<char>;

    closed spec fn view(&self) -> Seq<char> {
        self.path@
    }
}

impl Clone for NodePath {
    fn clone(&self) -> (copy: Self)
        ensures
            copy@ == self@,
    {
        proof {
            use_type_invariant(self);
        }
        NodePath { path: self.path.clone() }
    }
}

impl NodePathError {
    /// The message of the error.
    pub fn to_string(&self) -> (text: String)
        ensures
            text@ == "invalid node path "@ + self.path@,
    {
        let mut text = String::from_str("invalid node path ");
        text.append(self.path.as_str());
        text
    }
}

impl NodePath {
    #[verifier::type_invariant]
    spec fn valid(self) -> bool {
        spec_valid_node_path(self.path@)
    }

    /// Tells whether `path` is the path of a node.
    pub fn validate(path: &str) -> (valid: bool)
        ensures
            valid == spec_valid_node_path(path@),
    {
        let n = path.unicode_len();
        if n == 0 {
            return false;
        }
        if path.get_char(0) != '/' {
            return false;
        }
        if n == 1 {
            assert(path@ =~= seq!['/']);
            return true;
        }
        if path.get_char(n - 1) == '/' {
            return false;
        }
        let mut i: usize = 0;
        while i < n - 1
            invariant
                n == path@.len(),
                n >= 2,
                i <= n - 1,
                forall|k: int| 0 <= k < i ==> !(#[trigger] path@[k] == '/' && path@[k + 1] == '/'),
            decreases n - 1 - i,
        {
            if path.get_char(i) == '/' && path.get_char(i + 1) == '/' {
                return false;
            }
            i += 1;
        }
        true
    }

    /// Makes the path `path`, or rejects a text that is not the path of a
    /// node.
    pub fn new(path: &str) -> (made: Result<NodePath, NodePathError>)
        ensures
            spec_valid_node_path(path@) ==> (made matches Ok(p) && p@ == path@),
            !spec_valid_node_path(path@) ==> (made matches Err(e) && e.path@ == path@),
    {
        if NodePath::validate(path) {
            Ok(NodePath { path: String::from_str(path) })
        } else {
            Err(NodePathError { path: String::from_str(path) })
        }
    }

    /// The path of the root.
    pub fn root() -> (made: NodePath)
        ensures
            made@ == seq!['/'],
    {
        proof {
            reveal_strlit("/");
        }
        let path = String::from_str("/");
        assert(path@ =~= seq!['/']);
        NodePath { path }
    }

    /// The text of the path, which is the path of a node.
    pub fn as_str(&self) -> (text: &str)
        ensures
            text@ == self@,
            spec_valid_node_path(self@),
    {
        proof {
            use_type_invariant(self);
        }
        self.path.as_str()
    }
}

/// The key of the file `name` of the node at `path`: for the root the name
/// itself, for any other node the path without its first slash, a slash, and
/// the name.
pub open spec fn spec_node_key(path: Seq<char>, name: Seq<char>) -> Seq<char> {
    if path == seq!['/'] {
        name
    } else {
        path.subrange(1, path.len() as int) + seq!['/'] + name
    }
}

/// The key of the file `name` of a node is a key, where `name` is one and is
/// not empty.
pub proof fn lemma_node_key_is_valid(path: Seq<char>, name: Seq<char>)
    requires
        spec_valid_node_path(path),
        name.len() > 0,
        spec_valid_key(name),
    ensures
        spec_valid_key(spec_node_key(path, name)),
{
    if path != seq!['/'] {
        let key = spec_node_key(path, name);
        assert(path.len() >= 2) by {
            if path.len() == 1 {
                assert(path =~= seq!['/']);
            }
        }
        assert(key[0] == path[1]);
        assert(!(path[0int] == '/' && path[0int + 1] == '/'));
        assert(key[key.len() - 1] == name[name.len() - 1]);
    }
}

/// Makes the key of the file `name` of the node at `path`.
fn node_key(path: &NodePath, name: &str) -> (key: StoreKey)
    requires
        name@.len() > 0,
        spec_valid_key(name@),
    ensures
        key@ == spec_node_key(path@, name@),
{
    let text = path.as_str();
    proof {
        lemma_node_key_is_valid(path@, name@);
        reveal_strlit("/");
    }
    let n = text.unicode_len();
    if n == 1 {
        assert(text@ =~= seq!['/']);
        StoreKey::new_unchecked(String::from_str(name))
    } else {
        assert(text@ != seq!['/']);
        let mut key = String::from_str(text.substring_char(1, n));
        key.append("/");
        key.append(name);
        assert("/"@ =~= seq!['/']);
        StoreKey::new_unchecked(key)
    }
}

/// The name of the file that holds the metadata of a node.
pub open spec fn spec_meta_name() -> Seq<char> {
    "zarr.json"@
}

/// The name of the file that holds the metadata of a group in the older
/// layout.
pub open spec fn spec_meta_name_v2_group() -> Seq<char> {
    ".zgroup"@
}

/// The name of the file that holds the attributes of a node in the older
/// layout.
pub open spec fn spec_meta_name_v2_attributes() -> Seq<char> {
    ".zattrs"@
}

/// The key of the metadata of the node at `path`.
pub fn meta_key(path: &NodePath) -> (key: StoreKey)
    ensures
        key@ == spec_node_key(path@, spec_meta_name()),
{
    proof {
        reveal_strlit("zarr.json");
    }
    node_key(path, "zarr.json")
}

/// The key of the metadata of the group at `path` in the older layout.
pub fn meta_key_v2_group(path: &NodePath) -> (key: StoreKey)
    ensures
        key@ == spec_node_key(path@, spec_meta_name_v2_group()),
{
    proof {
        reveal_strlit(".zgroup");
    }
    node_key(path, ".zgroup")
}

/// The key of the attributes of the node at `path` in the older layout.
pub fn meta_key_v2_attributes(path: &NodePath) -> (key: StoreKey)
    ensures
        key@ == spec_node_key(path@, spec_meta_name_v2_attributes()),
{
    proof {
        reveal_strlit(".zattrs");
    }
    node_key(path, ".zattrs")
}

} // verus!
