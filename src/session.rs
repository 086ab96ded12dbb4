use vstd::prelude::*;

verus! {

/// Key under which the signed-in user's token is kept.
pub open spec fn auth_token_key() -> Seq<char> {
    "authToken"@
}

/// Session facts kept across restarts: a map from string keys to string
/// values.  The map is mirrored into the durable store after each change.
pub struct SessionStore {
    keys: Vec<String>,
    values: Vec<String>,
    contents: Ghost<Map<Seq<char>, Seq<char>>>,
}

impl View for SessionStore {
    type V = Map<Seq<char>, Seq<char>>;

    closed spec fn view(&self) -> Map<Seq<char>, Seq<char>> {
        self.contents@
    }
}

impl SessionStore {
    /// Each key is held once, beside its value, and the map holds exactly the
    /// held pairs.
    pub closed spec fn wf(&self) -> bool {
        &&& self.keys@.len() == self.values@.len()
        &&& forall|i: int|
            0 <= i < self.keys@.len() ==> #[trigger] self.contents@.contains_key(self.keys@[i]@)
                && self.contents@[self.keys@[i]@] == self.values@[i]@
        &&& forall|k: Seq<char>|
            #[trigger] self.contents@.contains_key(k) ==> exists|i: int|
                0 <= i < self.keys@.len() && #[trigger] self.keys@[i]@ == k
        &&& forall|i: int, j: int|
            0 <= i < self.keys@.len() && 0 <= j < self.keys@.len() && i != j
                ==> #[trigger] self.keys@[i]@ != #[trigger] self.keys@[j]@
    }

    /// An empty store.
    pub fn new() -> (r: SessionStore)
        ensures
            r.wf(),
            r@ == Map::<Seq<char>, Seq<char>>::empty(),
    {
        SessionStore { keys: Vec::new(), values: Vec::new(), contents: Ghost(Map::empty()) }
    }

    fn find(&self, key: &String) -> (r: Option<usize>)
        requires
            self.wf(),
        ensures
            r matches Some(i) ==> i < self.keys@.len() && self.keys@[i as int]@ == key@,
            r is None ==> forall|i: int| 0 <= i < self.keys@.len() ==> self.keys@[i]@ != key@,
            r is None <==> !self@.contains_key(key@),
    {
        let mut i: usize = 0;
        while i < self.keys.len()
            invariant
                self.wf(),
                i <= self.keys@.len(),
                forall|j: int| 0 <= j < i ==> self.keys@[j]@ != key@,
            decreases self.keys@.len() - i,
        {
            if self.keys[i] == *key {
                return Some(i);
            }
            i = i + 1;
        }
        proof {
            if self@.contains_key(key@) {
                let j = choose|j: int| 0 <= j < self.keys@.len() && #[trigger] self.keys@[j]@ == key@;
                assert(self.keys@[j]@ == key@);
            }
        }
        None
    }

    /// The value stored under `key`, if any.
    pub fn get(&self, key: &str) -> (r: Option<String>)
        requires
            self.wf(),
        ensures
            r is None <==> !self@.contains_key(key@),
            r matches Some(v) ==> self@[key@] == v@,
    {
        let k = String::from_str(key);
        match self.find(&k) {
            Some(i) => Some(self.values[i].clone()),
            None => None,
        }
    }

    /// Stores `value` under `key`, replacing what was there.
    pub fn set(&mut self, key: String, value: String)
        requires
            old(self).wf(),
        ensures
            final(self).wf(),
            final(self)@ == old(self)@.insert(key@, value@),
    {
        let ghost new_map = self@.insert(key@, value@);
        match self.find(&key) {
            Some(i) => {
                self.values[i] = value;
                self.contents = Ghost(new_map);
                assert forall|k: Seq<char>| #[trigger] self.contents@.contains_key(k) implies exists|j: int|
                    0 <= j < self.keys@.len() && #[trigger] self.keys@[j]@ == k by {
                    if k == key@ {
                        assert(self.keys@[i as int]@ == k);
                    }
                }
            },
            None => {
                let ghost n = self.keys@.len() as int;
                self.keys.push(key);
                self.values.push(value);
                self.contents = Ghost(new_map);
                assert forall|k: Seq<char>| #[trigger] self.contents@.contains_key(k) implies exists|j: int|
                    0 <= j < self.keys@.len() && #[trigger] self.keys@[j]@ == k by {
                    if k == self.keys@[n]@ {
                    } else {
                        let j = choose|j: int| 0 <= j < n && #[trigger] old(self).keys@[j]@ == k;
                        assert(self.keys@[j]@ == k);
                    }
                }
            },
        }
    }

    /// Removes `key` and its value; nothing changes where `key` is absent.
    pub fn delete(&mut self, key: &str)
        requires
            old(self).wf(),
        ensures
            final(self).wf(),
            final(self)@ == old(self)@.remove(key@),
    {
        let k = String::from_str(key);
        let ghost new_map = self@.remove(key@);
        match self.find(&k) {
            Some(i) => {
                let ghost ok = self.keys@;
                let ghost ov = self.values@;
                self.keys.remove(i);
                self.values.remove(i);
                self.contents = Ghost(new_map);
                assert forall|j: int| 0 <= j < self.keys@.len() implies #[trigger] self.contents@.contains_key(
                    self.keys@[j]@,
                ) && self.contents@[self.keys@[j]@] == self.values@[j]@ by {
                    let oj = if j < i { j } else { j + 1 };
                    assert(self.keys@[j] == ok[oj]);
                    assert(self.values@[j] == ov[oj]);
                    assert(ok[oj]@ != ok[i as int]@);
                    assert(old(self).contents@.contains_key(ok[oj]@));
                    assert(old(self).contents@[ok[oj]@] == ov[oj]@);
                }
                assert forall|x: Seq<char>| #[trigger] self.contents@.contains_key(x) implies exists|j: int|
                    0 <= j < self.keys@.len() && #[trigger] self.keys@[j]@ == x by {
                    let oj = choose|j: int| 0 <= j < ok.len() && #[trigger] ok[j]@ == x;
                    assert(oj != i);
                    let j = if oj < i { oj } else { oj - 1 };
                    assert(self.keys@[j] == ok[oj]);
                }
                assert forall|a: int, b: int|
                    0 <= a < self.keys@.len() && 0 <= b < self.keys@.len() && a != b
                        implies #[trigger] self.keys@[a]@ != #[trigger] self.keys@[b]@ by {
                    let oa = if a < i { a } else { a + 1 };
                    let ob = if b < i { b } else { b + 1 };
                    assert(self.keys@[a] == ok[oa]);
                    assert(self.keys@[b] == ok[ob]);
                }
            },
            None => {
                assert(self@ =~= new_map);
            },
        }
    }

    /// Removes every key.
    pub fn clear(&mut self)
        requires
            old(self).wf(),
        ensures
            final(self).wf(),
            final(self)@ == Map::<Seq<char>, Seq<char>>::empty(),
    {
        self.keys.clear();
        self.values.clear();
        self.contents = Ghost(Map::empty());
    }

    /// The stored token, if one is set.
    pub fn get_token(&self) -> (r: Option<String>)
        requires
            self.wf(),
        ensures
            r is None <==> !self@.contains_key(auth_token_key()),
            r matches Some(v) ==> self@[auth_token_key()] == v@,
    {
        self.get("authToken")
    }

    /// Stores the token, replacing any earlier one.
    pub fn set_token(&mut self, token: String)
        requires
            old(self).wf(),
        ensures
            final(self).wf(),
            final(self)@ == old(self)@.insert(auth_token_key(), token@),
    {
        self.set(String::from_str("authToken"), token);
    }

    /// Forgets the token.
    pub fn delete_token(&mut self)
        requires
            old(self).wf(),
        ensures
            final(self).wf(),
            final(self)@ == old(self)@.remove(auth_token_key()),
    {
        self.delete("authToken");
    }
}

/// Reading a key right after storing a value under it gives that value;
/// reading it right after deleting it gives nothing; and after clearing, no
/// key that was set before can be read.
pub proof fn lemma_session_round_trip(
    before: Map<Seq<char>, Seq<char>>,
    key: Seq<char>,
    value: Seq<char>,
)
    ensures
        before.insert(key, value).contains_key(key),
        before.insert(key, value)[key] == value,
        !before.remove(key).contains_key(key),
        forall|k: Seq<char>|
            before.contains_key(k) ==> !(#[trigger] Map::<Seq<char>, Seq<char>>::empty().contains_key(k)),
{
}

} // verus!
