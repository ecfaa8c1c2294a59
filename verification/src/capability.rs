//! The typed request/response shapes of the exposed capabilities, and the
//! capability-check result map.
//!
//! Each capability takes a typed request and answers a typed payload inside
//! the outcome envelope. Requests and responses cross the host boundary in
//! an opaque serialized form; this crate holds the typed shapes, and an
//! embedding converts at the boundary.

use vstd::prelude::*;

verus! {

/// Request of the image picker: how many images the user may pick.
#[derive(Debug)]
pub struct ChooseImageOptions {
    pub count: u8,
}

impl Default for ChooseImageOptions {
    /// The host's default: up to nine images.
    fn default() -> (r: Self)
        ensures
            r.count == 9,
    {
        ChooseImageOptions { count: 9 }
    }
}

/// Successful payload of the image picker: the picked images' local
/// identifiers, in order.
#[derive(Debug)]
pub struct ChooseImageResult {
    pub local_ids: Vec<String>,
}

/// Request of the image upload: which local image to upload.
#[derive(Debug)]
pub struct UploadImageOptions {
    pub local_id: String,
}

/// Successful payload of the image upload: the server-side identifier.
#[derive(Debug)]
pub struct UploadImageResult {
    pub server_id: String,
}

/// The fields a page hands to the host to start a payment.
#[derive(Debug)]
pub struct PayRequest {
    pub app_id: String,
    pub time_stamp: String,
    pub nonce_str: String,
    pub package: String,
    pub sign_type: String,
    pub pay_sign: String,
}

/// A capability name occurs among the entries.
spec fn keyed(s: Seq<(String, bool)>, k: Seq<char>) -> bool {
    exists|i: int| 0 <= i < s.len() && (#[trigger] s[i]).0@ == k
}

/// The entry index of a capability name that occurs among the entries.
spec fn key_index(s: Seq<(String, bool)>, k: Seq<char>) -> int {
    choose|i: int| 0 <= i < s.len() && (#[trigger] s[i]).0@ == k
}

/// No capability name occurs twice.
spec fn entries_wf(s: Seq<(String, bool)>) -> bool {
    forall|i: int, j: int|
        0 <= i < j < s.len() ==> (#[trigger] s[i]).0@ != (#[trigger] s[j]).0@
}

/// The entries as a mapping from capability name to its probe answer.
spec fn entries_view(s: Seq<(String, bool)>) -> Map<Seq<char>, bool> {
    Map::new(|k: Seq<char>| keyed(s, k), |k: Seq<char>| s[key_index(s, k)].1)
}

/// With no name occurring twice, an entry is exactly what the mapping says
/// of its name.
proof fn lemma_entry_lookup(s: Seq<(String, bool)>, j: int)
    requires
        entries_wf(s),
        0 <= j < s.len(),
    ensures
        entries_view(s).contains_key(s[j].0@),
        entries_view(s)[s[j].0@] == s[j].1,
{
    assert(keyed(s, s[j].0@));
    let j2 = key_index(s, s[j].0@);
    assert(0 <= j2 < s.len() && s[j2].0@ == s[j].0@);
    assert(j2 == j);
}

/// Answer of the capability probe: for each queried capability name,
/// whether the host supports it. Viewed as a mapping from name to answer;
/// no name occurs twice.
#[derive(Debug)]
pub struct CheckJsApiResult {
    entries: Vec<(String, bool)>,
}

impl View for CheckJsApiResult {
    type V = Map<Seq<char>, bool>;

    closed spec fn view(&self) -> Map<Seq<char>, bool> {
        entries_view(self.entries@)
    }
}

impl CheckJsApiResult {
    /// No capability name occurs twice among the entries.
    pub closed spec fn wf(self) -> bool {
        entries_wf(self.entries@)
    }

    /// An empty probe answer.
    pub fn new() -> (r: Self)
        ensures
            r.wf(),
            r@ == Map::<Seq<char>, bool>::empty(),
    {
        let r = CheckJsApiResult { entries: Vec::new() };
        proof {
            assert(r@ =~= Map::<Seq<char>, bool>::empty());
        }
        r
    }

    /// How many capability names the answer covers.
    pub fn len(&self) -> (n: usize)
        requires
            self.wf(),
        ensures
            n == self@.dom().len(),
    {
        proof {
            lemma_entries_dom_len(self.entries@);
        }
        self.entries.len()
    }

    /// Record the probe answer for one capability name, replacing any
    /// earlier answer for the same name.
    pub fn set(&mut self, name: String, supported: bool)
        requires
            old(self).wf(),
        ensures
            final(self).wf(),
            final(self)@ == old(self)@.insert(name@, supported),
    {
        let n = self.entries.len();
        let mut i: usize = 0;
        while i < n
            invariant
                *self == *old(self),
                self.wf(),
                n == self.entries@.len(),
                i <= n,
                forall|j: int| 0 <= j < i ==> (#[trigger] self.entries@[j]).0@ != name@,
            decreases n - i,
        {
            if self.entries[i].0 == name {
                self.entries[i] = (name, supported);
                proof {
                    let s = old(self).entries@;
                    let s2 = self.entries@;
                    let m2 = entries_view(s2);
                    let mi = entries_view(s).insert(name@, supported);
                    assert(forall|j: int|
                        0 <= j < s2.len() ==> (#[trigger] s2[j]).0@ == s[j].0@);
                    assert(entries_wf(s2));
                    assert forall|k: Seq<char>| m2.contains_key(k) implies mi.contains_key(k)
                        && m2[k] == mi[k] by {
                        let j = key_index(s2, k);
                        assert(0 <= j < s2.len() && s2[j].0@ == k);
                        lemma_entry_lookup(s2, j);
                        if j == i as int {
                            assert(k == name@);
                        } else {
                            assert(s[j].0@ == k);
                            lemma_entry_lookup(s, j);
                        }
                    }
                    assert forall|k: Seq<char>| mi.contains_key(k) implies m2.contains_key(
                        k,
                    ) by {
                        if k == name@ {
                            lemma_entry_lookup(s2, i as int);
                        } else {
                            let j = key_index(s, k);
                            assert(0 <= j < s.len() && s[j].0@ == k);
                            assert(s2[j].0@ == k);
                            lemma_entry_lookup(s2, j);
                        }
                    }
                    assert(m2 =~= mi);
                }
                return ;
            }
            i += 1;
        }
        self.entries.push((name, supported));
        proof {
            let s = old(self).entries@;
            let s2 = self.entries@;
            let m2 = entries_view(s2);
            let mi = entries_view(s).insert(name@, supported);
            assert(forall|j: int| 0 <= j < s.len() ==> s2[j] == #[trigger] s[j]);
            assert(s2[s.len() as int].0@ == name@);
            assert(entries_wf(s2));
            assert forall|k: Seq<char>| m2.contains_key(k) implies mi.contains_key(k) && m2[k]
                == mi[k] by {
                let j = key_index(s2, k);
                assert(0 <= j < s2.len() && s2[j].0@ == k);
                lemma_entry_lookup(s2, j);
                if j < s.len() {
                    assert(s[j].0@ == k);
                    lemma_entry_lookup(s, j);
                } else {
                    assert(k == name@);
                }
            }
            assert forall|k: Seq<char>| mi.contains_key(k) implies m2.contains_key(k) by {
                if k == name@ {
                    lemma_entry_lookup(s2, s.len() as int);
                } else {
                    let j = key_index(s, k);
                    assert(0 <= j < s.len() && s[j].0@ == k);
                    assert(s2[j].0@ == k);
                    lemma_entry_lookup(s2, j);
                }
            }
            assert(m2 =~= mi);
        }
    }

    /// The recorded probe answer for a capability name, or `None` when the
    /// probe did not cover it.
    pub fn get(&self, name: &String) -> (r: Option<bool>)
        requires
            self.wf(),
        ensures
            match r {
                Some(b) => self@.contains_key(name@) && self@[name@] == b,
                None => !self@.contains_key(name@),
            },
    {
        let n = self.entries.len();
        let mut i: usize = 0;
        while i < n
            invariant
                self.wf(),
                n == self.entries@.len(),
                i <= n,
                forall|j: int| 0 <= j < i ==> (#[trigger] self.entries@[j]).0@ != name@,
            decreases n - i,
        {
            if self.entries[i].0 == *name {
                proof {
                    lemma_entry_lookup(self.entries@, i as int);
                }
                return Some(self.entries[i].1);
            }
            i += 1;
        }
        None
    }
}

/// With no name occurring twice, the mapping covers exactly as many names
/// as there are entries.
proof fn lemma_entries_dom_len(s: Seq<(String, bool)>)
    requires
        entries_wf(s),
    ensures
        entries_view(s).dom().finite(),
        entries_view(s).dom().len() == s.len(),
    decreases s.len(),
{
    if s.len() == 0 {
        assert(entries_view(s).dom() =~= Set::<Seq<char>>::empty());
    } else {
        let s0 = s.drop_last();
        lemma_entries_dom_len(s0);
        assert(forall|j: int| 0 <= j < s0.len() ==> s0[j] == #[trigger] s[j]);
        assert(entries_view(s).dom() =~= entries_view(s0).dom().insert(s.last().0@)) by {
            assert forall|k: Seq<char>| keyed(s, k) implies keyed(s0, k) || k == s.last().0@ by {
                let j = key_index(s, k);
                assert(0 <= j < s.len() && s[j].0@ == k);
                if j < s0.len() {
                    assert(s0[j].0@ == k);
                }
            }
            assert forall|k: Seq<char>| keyed(s0, k) implies keyed(s, k) by {
                let j = key_index(s0, k);
                assert(0 <= j < s0.len() && s0[j].0@ == k);
                assert(s[j].0@ == k);
            }
            assert(keyed(s, s.last().0@)) by {
                assert(s[s.len() - 1].0@ == s.last().0@);
            }
        }
        assert(!entries_view(s0).dom().contains(s.last().0@)) by {
            if keyed(s0, s.last().0@) {
                let j = key_index(s0, s.last().0@);
                assert(0 <= j < s0.len() && s0[j].0@ == s.last().0@);
                assert(s[j].0@ == s[s.len() - 1].0@);
            }
        }
    }
}

} // verus!
