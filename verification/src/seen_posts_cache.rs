//! A bounded memory of seen posts: for each chat and subreddit the last few
//! posts, least recently marked first to go. A post that has fallen out of the
//! window is new again; the store forgets nothing and is the one to rely on.

use vstd::prelude::*;

verus! {

/// How many posts are remembered for a chat and subreddit.
pub const REMEMBERED_POSTS_COUNT: usize = 10;

/// `lru::LruCache`, taken as it is: nothing inside it is read here.
#[verifier::external_type_specification]
#[verifier::external_body]
#[verifier::reject_recursive_types(K)]
#[verifier::reject_recursive_types(V)]
#[verifier::reject_recursive_types(S)]
pub struct ExLruCache<K, V, S>(lru::LruCache<K, V, S>);

/// The hasher that `lru::LruCache` takes where none is named.
#[verifier::external_type_specification]
#[verifier::external_body]
pub struct ExDefaultHasher(lru::DefaultHasher);

/// The keys that a cache holds, the most recently put first.
pub uninterp spec fn lru_keys(cache: lru::LruCache<String, bool>) -> Seq<Seq<char>>;

/// The number of keys that a cache holds at most.
pub uninterp spec fn lru_cap(cache: lru::LruCache<String, bool>) -> nat;

/// The keys but one, in their order.
pub open spec fn without(keys: Seq<Seq<char>>, key: Seq<char>) -> Seq<Seq<char>> {
    keys.filter(|k: Seq<char>| k != key)
}

/// Whether the keys are those of a cache of a capacity: none twice, and no
/// more than the capacity.
pub open spec fn is_window(keys: Seq<Seq<char>>, cap: nat) -> bool {
    keys.no_duplicates() && keys.len() <= cap
}

/// The keys after one is put into a cache of a capacity: a key that is there
/// moves to the front; a new key comes to the front, and where the cache is
/// full the key at the back leaves; a cache without room takes nothing.
pub open spec fn keys_after_put(keys: Seq<Seq<char>>, key: Seq<char>, cap: nat) -> Seq<Seq<char>> {
    if keys.contains(key) {
        seq![key] + without(keys, key)
    } else if cap == 0 {
        keys
    } else if keys.len() >= cap {
        seq![key] + keys.drop_last()
    } else {
        seq![key] + keys
    }
}

/// What is left of keys when one is taken out: the others, each as often as
/// before and in their order.
pub proof fn lemma_without(keys: Seq<Seq<char>>, key: Seq<char>)
    ensures
        !without(keys, key).contains(key),
        forall|k: Seq<char>| k != key ==> without(keys, key).contains(k) == keys.contains(k),
        keys.no_duplicates() ==> without(keys, key).no_duplicates(),
        keys.no_duplicates() && keys.contains(key) ==> without(keys, key).len() + 1 == keys.len(),
        !keys.contains(key) ==> without(keys, key) == keys,
    decreases keys.len(),
{
    reveal(Seq::filter);
    let rest = without(keys, key);
    if keys.len() > 0 {
        let front = keys.drop_last();
        let last = keys.last();
        lemma_without(front, key);
        let kept = without(front, key);
        assert forall|k: Seq<char>| k != key implies rest.contains(k) == keys.contains(k) by {
            if rest.contains(k) {
                let i = choose|i: int| 0 <= i < rest.len() && rest[i] == k;
                if i < kept.len() {
                    assert(kept[i] == k);
                    assert(without(front, key).contains(k));
                    assert(front.contains(k));
                    let j = choose|j: int| 0 <= j < front.len() && front[j] == k;
                    assert(keys[j] == k);
                } else {
                    assert(keys[keys.len() - 1] == k);
                }
            }
            if keys.contains(k) {
                let j = choose|j: int| 0 <= j < keys.len() && keys[j] == k;
                if j < front.len() {
                    assert(front[j] == k);
                    assert(front.contains(k));
                    assert(without(front, key).contains(k));
                    let i = choose|i: int| 0 <= i < kept.len() && kept[i] == k;
                    assert(rest[i] == k);
                } else {
                    assert(rest[rest.len() - 1] == k);
                }
            }
        }
        if rest.contains(key) {
            let i = choose|i: int| 0 <= i < rest.len() && rest[i] == key;
            if i < kept.len() {
                assert(kept[i] == key);
            }
        }
        if keys.no_duplicates() {
            assert(front.no_duplicates()) by {
                assert forall|i: int, j: int| 0 <= i < front.len() && 0 <= j < front.len() && i
                    != j implies front[i] != front[j] by {
                    assert(keys[i] != keys[j]);
                }
            }
            assert(!front.contains(last)) by {
                if front.contains(last) {
                    let j = choose|j: int| 0 <= j < front.len() && front[j] == last;
                    assert(keys[j] == keys[keys.len() - 1]);
                }
            }
            assert forall|i: int, j: int| 0 <= i < rest.len() && 0 <= j < rest.len() && i
                != j implies rest[i] != rest[j] by {
                if i < kept.len() && j < kept.len() {
                    assert(kept[i] != kept[j]);
                } else if i < kept.len() {
                    assert(kept.contains(kept[i]));
                } else if j < kept.len() {
                    assert(kept.contains(kept[j]));
                }
            }
            if keys.contains(key) {
                if last == key {
                    assert(!front.contains(key));
                } else {
                    let j = choose|j: int| 0 <= j < keys.len() && keys[j] == key;
                    assert(front[j] == key);
                }
            }
        }
        if !keys.contains(key) {
            assert(!front.contains(key)) by {
                if front.contains(key) {
                    let j = choose|j: int| 0 <= j < front.len() && front[j] == key;
                    assert(keys[j] == key);
                }
            }
            assert(keys[keys.len() - 1] != key);
            assert(rest =~= keys);
        }
    }
}

/// Putting a key into a cache leaves it a cache of the same capacity, with the
/// key at its front if there is room at all.
pub proof fn lemma_put_keeps_window(keys: Seq<Seq<char>>, key: Seq<char>, cap: nat)
    requires
        is_window(keys, cap),
    ensures
        is_window(keys_after_put(keys, key, cap), cap),
        cap > 0 ==> keys_after_put(keys, key, cap).len() > 0 && keys_after_put(keys, key, cap)[0]
            == key,
        cap > 0 ==> keys_after_put(keys, key, cap).contains(key),
{
    lemma_without(keys, key);
    let after = keys_after_put(keys, key, cap);
    if keys.contains(key) {
        let rest = without(keys, key);
        assert forall|i: int, j: int| 0 <= i < after.len() && 0 <= j < after.len() && i
            != j implies after[i] != after[j] by {
            if i > 0 && j > 0 {
                assert(rest[i - 1] != rest[j - 1]);
            } else if i > 0 {
                assert(rest.contains(rest[i - 1]));
            } else {
                assert(rest.contains(rest[j - 1]));
            }
        }
        assert(after[0] == key);
    } else if cap > 0 {
        let rest = if keys.len() >= cap {
            keys.drop_last()
        } else {
            keys
        };
        assert forall|i: int, j: int| 0 <= i < after.len() && 0 <= j < after.len() && i
            != j implies after[i] != after[j] by {
            if i > 0 && j > 0 {
                assert(keys[i - 1] != keys[j - 1]);
            } else if i > 0 {
                assert(keys.contains(keys[i - 1]));
            } else {
                assert(keys.contains(keys[j - 1]));
            }
        }
        assert(after[0] == key);
    }
}

/// A post that is marked is remembered, and its chat and subreddit count as
/// marked from then on.
pub proof fn lemma_marked_is_seen(
    before: Remembered,
    chat_id: i64,
    subreddit: Seq<char>,
    post_id: Seq<char>,
)
    requires
        before.dom().contains((chat_id, subreddit)) ==> is_window(
            before[(chat_id, subreddit)],
            REMEMBERED_POSTS_COUNT as nat,
        ),
    ensures
        ({
            let after = SeenPostsCache::marked(before, chat_id, subreddit, post_id);
            &&& after.dom().contains((chat_id, subreddit))
            &&& after[(chat_id, subreddit)].contains(post_id)
            &&& is_window(after[(chat_id, subreddit)], REMEMBERED_POSTS_COUNT as nat)
            &&& forall|key: (i64, Seq<char>)|
                key != (chat_id, subreddit) ==> after.dom().contains(key) == before.dom().contains(
                    key,
                ) && (before.dom().contains(key) ==> after[key] == before[key])
        }),
{
    let keys = if before.dom().contains((chat_id, subreddit)) {
        before[(chat_id, subreddit)]
    } else {
        Seq::empty()
    };
    lemma_put_keeps_window(keys, post_id, REMEMBERED_POSTS_COUNT as nat);
}

/// `lru::LruCache::new`: a cache of the given capacity that holds no key.
#[verifier::external_body]
fn new_lru(cap: usize) -> (cache: lru::LruCache<String, bool>)
    ensures
        lru_keys(cache).len() == 0,
        lru_cap(cache) == cap,
{
    lru::LruCache::new(cap)
}

/// `LruCache::contains`: whether the key is in the cache. The order of the
/// keys is not touched.
#[verifier::external_body]
fn lru_contains(cache: &lru::LruCache<String, bool>, key: &str) -> (r: bool)
    ensures
        r == lru_keys(*cache).contains(key@),
{
    cache.contains(key)
}

/// `LruCache::put`, with `true` for the value: the key is at the front
/// afterwards, and where a new key found the cache full, the key that was put
/// least recently has left. The capacity stays.
#[verifier::external_body]
fn lru_put(cache: &mut lru::LruCache<String, bool>, key: String)
    ensures
        lru_cap(*final(cache)) == lru_cap(*old(cache)),
        lru_keys(*final(cache)) == keys_after_put(lru_keys(*old(cache)), key@, lru_cap(*old(cache))),
{
    cache.put(key, true);
}

/// The posts remembered for one chat and subreddit.
pub struct SubredditPosts {
    chat_id: i64,
    subreddit: String,
    posts: lru::LruCache<String, bool>,
}

/// The memory of seen posts.
pub struct SeenPostsCache {
    entries: Vec<SubredditPosts>,
}

/// What is remembered: for each chat and subreddit that was ever marked, the
/// remembered posts, the most recently marked first.
pub type Remembered = Map<(i64, Seq<char>), Seq<Seq<char>>>;

impl SubredditPosts {
    pub closed spec fn key(self) -> (i64, Seq<char>) {
        (self.chat_id, self.subreddit@)
    }

    pub closed spec fn remembered(self) -> Seq<Seq<char>> {
        lru_keys(self.posts)
    }

    pub closed spec fn well_formed(self) -> bool {
        lru_cap(self.posts) == REMEMBERED_POSTS_COUNT && is_window(
            lru_keys(self.posts),
            REMEMBERED_POSTS_COUNT as nat,
        )
    }
}

impl SeenPostsCache {
    /// No chat and subreddit has two entries, and every entry has the capacity
    /// of the constant.
    pub closed spec fn well_formed(self) -> bool {
        &&& forall|i: int| 0 <= i < self.entries@.len() ==> (#[trigger] self.entries@[i]).well_formed()
        &&& forall|i: int, j: int|
            0 <= i < j < self.entries@.len() ==> (#[trigger] self.entries@[i]).key() != (
            #[trigger] self.entries@[j]).key()
    }

    closed spec fn index_of(self, key: (i64, Seq<char>)) -> Option<int> {
        if exists|i: int| 0 <= i < self.entries@.len() && (#[trigger] self.entries@[i]).key() == key {
            Some(
                choose|i: int|
                    0 <= i < self.entries@.len() && (#[trigger] self.entries@[i]).key() == key,
            )
        } else {
            None
        }
    }

    /// Whether the subreddit was never marked for the chat.
    pub open spec fn uninitialized(self, chat_id: i64, subreddit: Seq<char>) -> bool {
        !self@.dom().contains((chat_id, subreddit))
    }

    /// Whether the post is remembered for the chat and subreddit.
    pub open spec fn seen(self, chat_id: i64, subreddit: Seq<char>, post_id: Seq<char>) -> bool {
        self@.dom().contains((chat_id, subreddit)) && self@[(chat_id, subreddit)].contains(post_id)
    }

    /// What is remembered after a post is marked.
    pub open spec fn marked(
        before: Remembered,
        chat_id: i64,
        subreddit: Seq<char>,
        post_id: Seq<char>,
    ) -> Remembered {
        before.insert(
            (chat_id, subreddit),
            keys_after_put(
                if before.dom().contains((chat_id, subreddit)) {
                    before[(chat_id, subreddit)]
                } else {
                    Seq::empty()
                },
                post_id,
                REMEMBERED_POSTS_COUNT as nat,
            ),
        )
    }

    pub fn new() -> (cache: SeenPostsCache)
        ensures
            cache.well_formed(),
            cache@ == Map::<(i64, Seq<char>), Seq<Seq<char>>>::empty(),
    {
        let cache = SeenPostsCache { entries: Vec::new() };
        assert(cache@ =~= Map::<(i64, Seq<char>), Seq<Seq<char>>>::empty());
        cache
    }

    fn find(&self, chat_id: i64, subreddit: &str) -> (r: Option<usize>)
        requires
            self.well_formed(),
        ensures
            r is Some == self@.dom().contains((chat_id, subreddit@)),
            r matches Some(i) ==> i < self.entries@.len() && self.entries@[i as int].key() == (
                chat_id,
                subreddit@,
            ) && self@[(chat_id, subreddit@)] == self.entries@[i as int].remembered(),
    {
        let mut i: usize = 0;
        while i < self.entries.len()
            invariant
                i <= self.entries.len(),
                self.well_formed(),
                forall|j: int| 0 <= j < i ==> (#[trigger] self.entries@[j]).key() != (chat_id, subreddit@),
            decreases self.entries.len() - i,
        {
            if self.entries[i].chat_id == chat_id && crate::text::str_eq(
                self.entries[i].subreddit.as_str(),
                subreddit,
            ) {
                proof {
                    let key = (chat_id, subreddit@);
                    assert(self.entries@[i as int].key() == key);
                    let k = self.index_of(key)->0;
                    assert(self.entries@[k].key() == key);
                    assert(k == i);
                }
                return Some(i);
            }
            i += 1;
        }
        None
    }

    pub fn is_seen_post(&self, chat_id: i64, subreddit: &str, post_id: &str) -> (r: bool)
        requires
            self.well_formed(),
        ensures
            r == self.seen(chat_id, subreddit@, post_id@),
    {
        match self.find(chat_id, subreddit) {
            Some(i) => lru_contains(&self.entries[i].posts, post_id),
            None => false,
        }
    }

    pub fn is_uninitialized(&self, chat_id: i64, subreddit: &str) -> (r: bool)
        requires
            self.well_formed(),
        ensures
            r == self.uninitialized(chat_id, subreddit@),
    {
        self.find(chat_id, subreddit).is_none()
    }

    /// Remembers the post for the chat and subreddit.
    pub fn mark_seen(&mut self, chat_id: i64, subreddit: &str, post_id: &str)
        requires
            old(self).well_formed(),
        ensures
            final(self).well_formed(),
            final(self)@ == SeenPostsCache::marked(old(self)@, chat_id, subreddit@, post_id@),
    {
        let ghost key = (chat_id, subreddit@);
        let index = match self.find(chat_id, subreddit) {
            Some(i) => i,
            None => {
                let entry = SubredditPosts {
                    chat_id,
                    subreddit: String::from_str(subreddit),
                    posts: new_lru(REMEMBERED_POSTS_COUNT),
                };
                self.entries.push(entry);
                self.entries.len() - 1
            },
        };
        let ghost middle = *self;
        assert(middle.well_formed());
        assert(middle.entries@[index as int].key() == key);
        let mut entry = self.entries.remove(index);
        proof {
            lemma_put_keeps_window(entry.remembered(), post_id@, REMEMBERED_POSTS_COUNT as nat);
        }
        lru_put(&mut entry.posts, String::from_str(post_id));
        self.entries.insert(index, entry);
        proof {
            assert(self.entries@.len() == middle.entries@.len());
            assert forall|i: int| 0 <= i < self.entries@.len() implies (#[trigger] self.entries@[i]).key()
                == middle.entries@[i].key() by {}
            assert forall|i: int| 0 <= i < self.entries@.len() && i != index implies (
            #[trigger] self.entries@[i]) == middle.entries@[i] by {}
            assert(self.well_formed());
            let goal = SeenPostsCache::marked(old(self)@, chat_id, subreddit@, post_id@);
            assert forall|k: (i64, Seq<char>)| #[trigger] self@.dom().contains(k) == goal.dom().contains(k) by {
                if self@.dom().contains(k) {
                    let i = self.index_of(k)->0;
                    assert(middle.entries@[i].key() == k);
                    if k != key {
                        assert(i < old(self).entries@.len());
                        assert(old(self).entries@[i].key() == k);
                    }
                }
                if goal.dom().contains(k) {
                    if k == key {
                        assert(self.entries@[index as int].key() == k);
                    } else {
                        let i = old(self).index_of(k)->0;
                        assert(self.entries@[i].key() == k);
                    }
                }
            }
            assert forall|k: (i64, Seq<char>)| self@.dom().contains(k) implies #[trigger] self@[k]
                == goal[k] by {
                let i = self.index_of(k)->0;
                if k == key {
                    assert(i == index);
                } else {
                    assert(i != index);
                    assert(i < old(self).entries@.len());
                    assert(old(self).entries@[i].key() == k);
                    let j = old(self).index_of(k)->0;
                    assert(j == i);
                }
            }
            assert(self@ =~= goal);
        }
    }
}

impl View for SeenPostsCache {
    type V = Remembered;

    closed spec fn view(&self) -> Remembered {
        Map::new(
            |key: (i64, Seq<char>)| self.index_of(key) is Some,
            |key: (i64, Seq<char>)| self.entries@[self.index_of(key)->0].remembered(),
        )
    }
}

} // verus!
