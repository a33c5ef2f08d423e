//! Temp file manager: decodes a base64 payload into a file of scratch
//! storage and removes it on request.
//!
//! The store here is the bridge's model of the scratch directory: a set of
//! named byte files. The caller doing the real filesystem work mirrors each
//! successful operation one to one (write the returned bytes under the
//! returned path, delete the named file), so what is proved of the model —
//! when an operation succeeds, what it writes, that a failed decode writes
//! nothing — is exactly the decision the bridge makes for the disk.

use vstd::prelude::*;

use crate::base64;
use crate::error::PrintError;

verus! {

/// One scratch file: its name and its decoded contents.
#[derive(Debug)]
pub struct TempFile {
    pub name: String,
    pub data: Vec<u8>,
}

/// The bridge's model of the scratch directory.
#[derive(Debug)]
pub struct TempStore {
    pub files: Vec<TempFile>,
}

impl TempStore {
    /// File names are unique, as they are in a directory.
    pub open spec fn wf(self) -> bool {
        forall|i: int, j: int|
            0 <= i < j < self.files@.len() ==> (#[trigger] self.files@[i]).name@ != (
            #[trigger] self.files@[j]).name@
    }

    /// The directory as a map from file name to contents.
    pub open spec fn contents(self) -> Map<Seq<char>, Seq<u8>> {
        Map::new(
            |k: Seq<char>|
                exists|i: int| 0 <= i < self.files@.len() && (#[trigger] self.files@[i]).name@ == k,
            |k: Seq<char>|
                {
                    let i = choose|i: int|
                        0 <= i < self.files@.len() && (#[trigger] self.files@[i]).name@ == k;
                    self.files@[i].data@
                },
        )
    }

    pub fn new() -> (r: TempStore)
        ensures
            r.wf(),
            r.contents() == Map::<Seq<char>, Seq<u8>>::empty(),
    {
        let r = TempStore { files: Vec::new() };
        proof {
            assert(r.contents() =~= Map::<Seq<char>, Seq<u8>>::empty());
        }
        r
    }

    /// Whether a file of this name is stored.
    pub fn contains_file(&self, filename: &String) -> (r: bool)
        ensures
            r == self.contents().contains_key(filename@),
    {
        let n = self.files.len();
        let mut i: usize = 0;
        while i < n
            invariant
                n == self.files@.len(),
                i <= n,
                forall|j: int| 0 <= j < i ==> (#[trigger] self.files@[j]).name@ != filename@,
            decreases n - i,
        {
            if self.files[i].name == *filename {
                proof {
                    assert(self.files@[i as int].name@ == filename@);
                }
                return true;
            }
            i = i + 1;
        }
        proof {
            if self.contents().contains_key(filename@) {
                let w = choose|w: int|
                    0 <= w < self.files@.len() && (#[trigger] self.files@[w]).name@ == filename@;
                assert(false);
            }
        }
        false
    }

    /// The stored contents of the named file, if any.
    pub fn read_file(&self, filename: &String) -> (r: Option<&Vec<u8>>)
        requires
            self.wf(),
        ensures
            r is Some <==> self.contents().contains_key(filename@),
            r is Some ==> r->0@ == self.contents()[filename@],
    {
        let n = self.files.len();
        let mut i: usize = 0;
        while i < n
            invariant
                self.wf(),
                n == self.files@.len(),
                i <= n,
                forall|j: int| 0 <= j < i ==> (#[trigger] self.files@[j]).name@ != filename@,
            decreases n - i,
        {
            if self.files[i].name == *filename {
                proof {
                    assert(self.files@[i as int].name@ == filename@);
                    let w = choose|w: int|
                        0 <= w < self.files@.len() && (#[trigger] self.files@[w]).name@
                            == filename@;
                    assert(w == i);
                }
                return Some(&self.files[i].data);
            }
            i = i + 1;
        }
        proof {
            if self.contents().contains_key(filename@) {
                let w = choose|w: int|
                    0 <= w < self.files@.len() && (#[trigger] self.files@[w]).name@ == filename@;
                assert(false);
            }
        }
        None
    }

    /// Decodes `payload` and stores it under `filename`; returns the full
    /// path (`dir` followed by `filename`) of the new file.
    ///
    /// Fails with `DecodeError` — leaving the store untouched, so no file
    /// appears — exactly when the payload is not well-formed base64.
    /// The caller must avoid name collisions.
    pub fn create(&mut self, dir: &str, payload: &Vec<u8>, filename: &String) -> (r: Result<
        String,
        PrintError,
    >)
        requires
            old(self).wf(),
            !old(self).contents().contains_key(filename@),
        ensures
            final(self).wf(),
            r is Ok <==> base64::valid_base64(payload@),
            r is Ok ==> final(self).contents() == old(self).contents().insert(
                filename@,
                base64::decoded(payload@),
            ),
            r is Ok ==> r->Ok_0@ == dir@ + filename@,
            r is Err ==> r->Err_0 == PrintError::DecodeError && *final(self) == *old(self),
    {
        let data = match base64::decode(payload) {
            Ok(data) => data,
            Err(e) => {
                return Err(e);
            },
        };
        let ghost pre = *self;
        let entry = TempFile { name: filename.clone(), data };
        self.files.push(entry);
        proof {
            let n = pre.files@.len() as int;
            assert forall|i: int, j: int| 0 <= i < j < self.files@.len() implies (
            #[trigger] self.files@[i]).name@ != (#[trigger] self.files@[j]).name@ by {
                if j < n {
                    assert(self.files@[i] == pre.files@[i] && self.files@[j] == pre.files@[j]);
                } else {
                    // The new entry's name collides with no stored one, else
                    // `contents` would already contain the key.
                    assert(self.files@[i] == pre.files@[i]);
                    if pre.files@[i].name@ == filename@ {
                        assert(pre.contents().contains_key(filename@));
                    }
                }
            }
            assert forall|k: Seq<char>| true implies self.contents().contains_key(k)
                == pre.contents().insert(filename@, base64::decoded(payload@)).contains_key(k) by {
                if k == filename@ {
                    assert(self.files@[n].name@ == k);
                } else {
                    if self.contents().contains_key(k) {
                        let i = choose|i: int|
                            0 <= i < self.files@.len() && (#[trigger] self.files@[i]).name@ == k;
                        assert(i < n && pre.files@[i].name@ == k);
                    }
                    if pre.contents().contains_key(k) {
                        let i = choose|i: int|
                            0 <= i < pre.files@.len() && (#[trigger] pre.files@[i]).name@ == k;
                        assert(self.files@[i].name@ == k);
                    }
                }
            }
            assert forall|k: Seq<char>| self.contents().contains_key(k) implies self.contents()[k]
                == pre.contents().insert(filename@, base64::decoded(payload@))[k] by {
                let i = choose|i: int|
                    0 <= i < self.files@.len() && (#[trigger] self.files@[i]).name@ == k;
                if k == filename@ {
                    // Uniqueness pins the chosen entry to the new one.
                    if i < n {
                        assert(pre.contents().contains_key(filename@));
                    }
                    assert(self.files@[i].data@ == base64::decoded(payload@));
                } else {
                    assert(i < n);
                    assert(pre.files@[i].name@ == k);
                    let w = choose|w: int|
                        0 <= w < pre.files@.len() && (#[trigger] pre.files@[w]).name@ == k;
                    assert(pre.files@[w].name@ == k);
                    assert(w == i);
                }
            }
            assert(self.contents() =~= pre.contents().insert(
                filename@,
                base64::decoded(payload@),
            ));
        }
        let mut path = String::new();
        path.append(dir);
        path.append(filename.as_str());
        Ok(path)
    }

    /// Deletes the file named `filename` from the store; reports `false` —
    /// and changes nothing — when no such file exists.
    pub fn remove(&mut self, filename: &String) -> (r: bool)
        requires
            old(self).wf(),
        ensures
            final(self).wf(),
            r == old(self).contents().contains_key(filename@),
            final(self).contents() == old(self).contents().remove(filename@),
    {
        let n = self.files.len();
        let mut i: usize = 0;
        while i < n
            invariant
                *self == *old(self),
                self.wf(),
                n == self.files@.len(),
                i <= n,
                forall|j: int| 0 <= j < i ==> (#[trigger] self.files@[j]).name@ != filename@,
            decreases n - i,
        {
            if self.files[i].name == *filename {
                let ghost pre = *self;
                self.files.remove(i);
                proof {
                    assert(pre.files@[i as int].name@ == filename@);
                    assert(pre.contents().contains_key(filename@));
                    lemma_remove_entry(pre, *self, i as int, filename@);
                }
                return true;
            }
            i = i + 1;
        }
        proof {
            if self.contents().contains_key(filename@) {
                let w = choose|w: int|
                    0 <= w < self.files@.len() && (#[trigger] self.files@[w]).name@ == filename@;
                assert(false);
            }
            assert(self.contents() =~= self.contents().remove(filename@));
        }
        false
    }
}

/// Dropping the entry at index `k` (the one named `name`, in a store with
/// unique names) removes exactly that key from the contents map.
proof fn lemma_remove_entry(pre: TempStore, post: TempStore, k: int, name: Seq<char>)
    requires
        pre.wf(),
        0 <= k < pre.files@.len(),
        pre.files@[k].name@ == name,
        post.files@ == pre.files@.remove(k),
    ensures
        post.wf(),
        post.contents() == pre.contents().remove(name),
{
    let n = pre.files@.len() as int;
    assert(post.files@.len() == n - 1);
    assert forall|i: int| 0 <= i < n - 1 implies #[trigger] post.files@[i] == (if i < k {
        pre.files@[i]
    } else {
        pre.files@[i + 1]
    }) by {}
    assert forall|i: int, j: int| 0 <= i < j < post.files@.len() implies (
    #[trigger] post.files@[i]).name@ != (#[trigger] post.files@[j]).name@ by {}
    assert forall|key: Seq<char>| true implies post.contents().contains_key(key)
        == pre.contents().remove(name).contains_key(key) by {
        if key == name {
            if post.contents().contains_key(key) {
                let i = choose|i: int|
                    0 <= i < post.files@.len() && (#[trigger] post.files@[i]).name@ == key;
                let oi = if i < k {
                    i
                } else {
                    i + 1
                };
                assert(pre.files@[oi].name@ == key && oi != k);
            }
        } else {
            if post.contents().contains_key(key) {
                let i = choose|i: int|
                    0 <= i < post.files@.len() && (#[trigger] post.files@[i]).name@ == key;
                let oi = if i < k {
                    i
                } else {
                    i + 1
                };
                assert(pre.files@[oi].name@ == key);
            }
            if pre.contents().contains_key(key) {
                let i = choose|i: int|
                    0 <= i < pre.files@.len() && (#[trigger] pre.files@[i]).name@ == key;
                assert(i != k);
                let pi = if i < k {
                    i
                } else {
                    i - 1
                };
                assert(post.files@[pi].name@ == key);
            }
        }
    }
    assert forall|key: Seq<char>| post.contents().contains_key(key) implies post.contents()[key]
        == pre.contents().remove(name)[key] by {
        let i = choose|i: int|
            0 <= i < post.files@.len() && (#[trigger] post.files@[i]).name@ == key;
        let oi = if i < k {
            i
        } else {
            i + 1
        };
        assert(pre.files@[oi].name@ == key);
        let w = choose|w: int|
            0 <= w < pre.files@.len() && (#[trigger] pre.files@[w]).name@ == key;
        assert(w == oi);
        assert(post.contents()[key] == post.files@[i].data@);
        assert(pre.contents()[key] == pre.files@[oi].data@);
    }
    assert(post.contents() =~= pre.contents().remove(name));
}

/// Round trip of the temp-file manager: storing a decoded payload under a
/// fresh name and then removing that name leaves scratch storage exactly as
/// it was — `create` followed by `remove` is a no-op.
pub proof fn lemma_create_remove_roundtrip(
    before: Map<Seq<char>, Seq<u8>>,
    name: Seq<char>,
    data: Seq<u8>,
)
    requires
        !before.contains_key(name),
    ensures
        before.insert(name, data).remove(name) == before,
{
    assert(before.insert(name, data).remove(name) =~= before);
}

} // verus!
