//! The data store behind the demo GraphQL service: users and blog posts, with
//! the lookups and updates that its queries and mutations perform.
use vstd::prelude::*;

use crate::span::{decimal_text, u64_to_decimal};
use crate::text::{chars_of, owned, push_char, spec_to_lowercase, to_lowercase};

verus! {

/// A user.
#[derive(Debug)]
pub struct User {
    /// The user's id (a decimal number)
    pub id: String,
    /// The user's name
    pub name: String,
    /// The user's email address, if known
    pub email: Option<String>,
}

/// A blog post.
#[derive(Debug)]
pub struct Post {
    /// The post's id (a decimal number)
    pub id: String,
    /// The title
    pub title: String,
    /// The body
    pub content: String,
    /// The id of the user who wrote it
    pub author_id: String,
}

/// A user as character sequences: id, name, email.
pub open spec fn user_view(u: User) -> (Seq<char>, Seq<char>, Option<Seq<char>>) {
    (
        u.id@,
        u.name@,
        match u.email {
            Some(e) => Some(e@),
            None => None,
        },
    )
}

/// A post as character sequences: id, title, content, author id.
pub open spec fn post_view(p: Post) -> (Seq<char>, Seq<char>, Seq<char>, Seq<char>) {
    (p.id@, p.title@, p.content@, p.author_id@)
}

/// The views of a list of users.
pub open spec fn users_view(v: Seq<User>) -> Seq<(Seq<char>, Seq<char>, Option<Seq<char>>)> {
    v.map_values(|u: User| user_view(u))
}

/// The views of a list of posts.
pub open spec fn posts_view(v: Seq<Post>) -> Seq<(Seq<char>, Seq<char>, Seq<char>, Seq<char>)> {
    v.map_values(|p: Post| post_view(p))
}

impl User {
    /// A copy of the user.
    pub fn duplicate(&self) -> (r: User)
        ensures
            user_view(r) == user_view(*self),
    {
        User {
            id: owned(self.id.as_str()),
            name: owned(self.name.as_str()),
            email: match &self.email {
                Some(e) => Some(owned(e.as_str())),
                None => None,
            },
        }
    }
}

impl Post {
    /// A copy of the post.
    pub fn duplicate(&self) -> (r: Post)
        ensures
            post_view(r) == post_view(*self),
    {
        Post {
            id: owned(self.id.as_str()),
            title: owned(self.title.as_str()),
            content: owned(self.content.as_str()),
            author_id: owned(self.author_id.as_str()),
        }
    }
}

/// `n` in decimal, with a leading `-` when negative (what `i32::to_string` gives).
pub open spec fn signed_decimal_text(n: int) -> Seq<char> {
    if n < 0 {
        seq!['-'] + decimal_text((-n) as nat)
    } else {
        decimal_text(n as nat)
    }
}

/// An `i32` in decimal, with a leading `-` when negative (as `to_string`
/// writes it).
fn i32_to_decimal(n: i32) -> (r: String)
    ensures
        r@ == signed_decimal_text(n as int),
{
    if n < 0 {
        let mut out = String::new();
        push_char(&mut out, '-');
        let magnitude: u64 = (-(n as i64)) as u64;
        let digits = u64_to_decimal(magnitude);
        out.append(digits.as_str());
        assert(out@ =~= signed_decimal_text(n as int));
        out
    } else {
        u64_to_decimal(n as u64)
    }
}

/// A `usize` in decimal (as `to_string` writes it).
fn usize_to_decimal(n: usize) -> (r: String)
    ensures
        r@ == decimal_text(n as nat),
{
    u64_to_decimal(n as u64)
}

/// `needle` occurs in `hay` as a contiguous run (what `str::contains` tests).
pub open spec fn contains_seq(hay: Seq<char>, needle: Seq<char>) -> bool {
    exists|i: int| 0 <= i <= hay.len() - needle.len() && #[trigger] occurs_at_spec(hay, needle, i)
}

/// `needle` occurs in `hay` starting at `i`.
pub open spec fn occurs_at_spec(hay: Seq<char>, needle: Seq<char>, i: int) -> bool {
    hay.subrange(i, i + needle.len()) == needle
}

fn occurs_at(hay: &Vec<char>, needle: &Vec<char>, i: usize) -> (r: bool)
    requires
        i + needle@.len() <= hay@.len(),
    ensures
        r == occurs_at_spec(hay@, needle@, i as int),
{
    let mut k: usize = 0;
    while k < needle.len()
        invariant
            i + needle@.len() <= hay@.len(),
            i + needle.len() <= hay.len(),
            k <= needle@.len(),
            forall|m: int| 0 <= m < k ==> hay@[i + m] == needle@[m],
        decreases needle@.len() - k,
    {
        if hay[i + k] != needle[k] {
            assert(hay@.subrange(i as int, i + needle@.len())[k as int] != needle@[k as int]);
            return false;
        }
        k = k + 1;
    }
    assert(hay@.subrange(i as int, i + needle@.len()) =~= needle@);
    true
}

/// Whether `needle` occurs in `hay`.
pub fn contains_chars(hay: &Vec<char>, needle: &Vec<char>) -> (r: bool)
    ensures
        r == contains_seq(hay@, needle@),
{
    if needle.len() > hay.len() {
        return false;
    }
    let last = hay.len() - needle.len();
    let mut i: usize = 0;
    loop
        invariant
            last + needle@.len() == hay@.len(),
            i <= last,
            forall|j: int| 0 <= j < i ==> !#[trigger] occurs_at_spec(hay@, needle@, j),
        decreases last - i,
    {
        if occurs_at(hay, needle, i) {
            return true;
        }
        if i == last {
            return false;
        }
        i = i + 1;
    }
}

/// The users with the given id, in order.
pub open spec fn users_with_id(us: Seq<(Seq<char>, Seq<char>, Option<Seq<char>>)>, id: Seq<char>) -> Seq<
    (Seq<char>, Seq<char>, Option<Seq<char>>),
>
    decreases us.len(),
{
    if us.len() == 0 {
        us
    } else {
        users_with_id(us.drop_last(), id) + if us.last().0 == id {
            seq![us.last()]
        } else {
            Seq::empty()
        }
    }
}

/// The users whose id is not the given one, in order.
pub open spec fn users_without_id(us: Seq<(Seq<char>, Seq<char>, Option<Seq<char>>)>, id: Seq<char>) -> Seq<
    (Seq<char>, Seq<char>, Option<Seq<char>>),
>
    decreases us.len(),
{
    if us.len() == 0 {
        us
    } else {
        users_without_id(us.drop_last(), id) + if us.last().0 != id {
            seq![us.last()]
        } else {
            Seq::empty()
        }
    }
}

/// The users whose lower-cased name contains `q`, in order.
pub open spec fn users_matching(us: Seq<(Seq<char>, Seq<char>, Option<Seq<char>>)>, q: Seq<char>) -> Seq<
    (Seq<char>, Seq<char>, Option<Seq<char>>),
>
    decreases us.len(),
{
    if us.len() == 0 {
        us
    } else {
        users_matching(us.drop_last(), q) + if contains_seq(spec_to_lowercase(us.last().1), q) {
            seq![us.last()]
        } else {
            Seq::empty()
        }
    }
}

/// The posts by the given author, in order.
pub open spec fn posts_by(ps: Seq<(Seq<char>, Seq<char>, Seq<char>, Seq<char>)>, author: Seq<char>) -> Seq<
    (Seq<char>, Seq<char>, Seq<char>, Seq<char>),
>
    decreases ps.len(),
{
    if ps.len() == 0 {
        ps
    } else {
        posts_by(ps.drop_last(), author) + if ps.last().3 == author {
            seq![ps.last()]
        } else {
            Seq::empty()
        }
    }
}

/// Application data store.
pub struct DataStore {
    /// The users, in creation order
    pub users: Vec<User>,
    /// The posts, in creation order
    pub posts: Vec<Post>,
}

fn user(id: &str, name: &str, email: Option<&str>) -> (r: User)
    ensures
        user_view(r) == (id@, name@, match email {
            Some(e) => Some(e@),
            None => None,
        }),
{
    User {
        id: owned(id),
        name: owned(name),
        email: match email {
            Some(e) => Some(owned(e)),
            None => None,
        },
    }
}

fn post(id: &str, title: &str, content: &str, author_id: &str) -> (r: Post)
    ensures
        post_view(r) == (id@, title@, content@, author_id@),
{
    Post { id: owned(id), title: owned(title), content: owned(content), author_id: owned(author_id) }
}

impl Default for DataStore {
    fn default() -> (r: Self)
        ensures
            users_view(r.users@) == seq![
                ("1"@, "Alice"@, Some("alice@example.com"@)),
                ("2"@, "Bob"@, Some("bob@example.com"@)),
                ("3"@, "Charlie"@, None),
            ],
            posts_view(r.posts@) == seq![
                ("1"@, "Introduction to GraphQL"@, "GraphQL is a query language for APIs..."@, "1"@),
                (
                    "2"@,
                    "OpenTelemetry Best Practices"@,
                    "When implementing distributed tracing..."@,
                    "1"@,
                ),
                ("3"@, "Rust Performance Tips"@, "Rust provides zero-cost abstractions..."@, "2"@),
            ],
    {
        let mut users = Vec::new();
        users.push(user("1", "Alice", Some("alice@example.com")));
        users.push(user("2", "Bob", Some("bob@example.com")));
        users.push(user("3", "Charlie", None));
        let mut posts = Vec::new();
        posts.push(
            post("1", "Introduction to GraphQL", "GraphQL is a query language for APIs...", "1"),
        );
        posts.push(
            post(
                "2",
                "OpenTelemetry Best Practices",
                "When implementing distributed tracing...",
                "1",
            ),
        );
        posts.push(post("3", "Rust Performance Tips", "Rust provides zero-cost abstractions...", "2"));
        let r = DataStore { users, posts };
        assert(users_view(r.users@) =~= seq![
            ("1"@, "Alice"@, Some("alice@example.com"@)),
            ("2"@, "Bob"@, Some("bob@example.com"@)),
            ("3"@, "Charlie"@, None),
        ]);
        assert(posts_view(r.posts@) =~= seq![
            ("1"@, "Introduction to GraphQL"@, "GraphQL is a query language for APIs..."@, "1"@),
            ("2"@, "OpenTelemetry Best Practices"@, "When implementing distributed tracing..."@, "1"@),
            ("3"@, "Rust Performance Tips"@, "Rust provides zero-cost abstractions..."@, "2"@),
        ]);
        r
    }
}

impl DataStore {
    /// All users.
    pub fn users(&self) -> (r: Vec<User>)
        ensures
            users_view(r@) == users_view(self.users@),
    {
        let mut out: Vec<User> = Vec::new();
        let mut i: usize = 0;
        while i < self.users.len()
            invariant
                i <= self.users@.len(),
                users_view(out@) == users_view(self.users@).take(i as int),
            decreases self.users@.len() - i,
        {
            let ghost before = users_view(out@);
            let d = self.users[i].duplicate();
            assert(user_view(d) == users_view(self.users@)[i as int]);
            out.push(d);
            assert(users_view(out@) =~= before.push(users_view(self.users@)[i as int]));
            assert(users_view(out@) =~= users_view(self.users@).take(i + 1));
            i = i + 1;
        }
        assert(users_view(self.users@).take(i as int) =~= users_view(self.users@));
        out
    }

    /// All posts.
    pub fn posts(&self) -> (r: Vec<Post>)
        ensures
            posts_view(r@) == posts_view(self.posts@),
    {
        let mut out: Vec<Post> = Vec::new();
        let mut i: usize = 0;
        while i < self.posts.len()
            invariant
                i <= self.posts@.len(),
                posts_view(out@) == posts_view(self.posts@).take(i as int),
            decreases self.posts@.len() - i,
        {
            let ghost before = posts_view(out@);
            let d = self.posts[i].duplicate();
            assert(post_view(d) == posts_view(self.posts@)[i as int]);
            out.push(d);
            assert(posts_view(out@) =~= before.push(posts_view(self.posts@)[i as int]));
            assert(posts_view(out@) =~= posts_view(self.posts@).take(i + 1));
            i = i + 1;
        }
        assert(posts_view(self.posts@).take(i as int) =~= posts_view(self.posts@));
        out
    }

    /// The first user whose id is the decimal text of `id`.
    pub fn user(&self, id: i32) -> (r: Option<User>)
        ensures
            match r {
                Some(u) => users_with_id(users_view(self.users@), signed_decimal_text(id as int)).len()
                    > 0 && user_view(u) == users_with_id(
                    users_view(self.users@),
                    signed_decimal_text(id as int),
                )[0],
                None => users_with_id(
                    users_view(self.users@),
                    signed_decimal_text(id as int),
                ).len() == 0,
            },
    {
        let wanted = i32_to_decimal(id);
        let ghost uv = users_view(self.users@);
        let ghost key = wanted@;
        let mut i: usize = 0;
        assert(uv.take(0) =~= Seq::<(Seq<char>, Seq<char>, Option<Seq<char>>)>::empty());
        while i < self.users.len()
            invariant
                i <= self.users@.len(),
                uv == users_view(self.users@),
                key == wanted@,
                wanted@ == signed_decimal_text(id as int),
                users_with_id(uv.take(i as int), key).len() == 0,
            decreases self.users@.len() - i,
        {
            assert(uv.take(i + 1).drop_last() =~= uv.take(i as int));
            if self.users[i].id == wanted {
                assert(uv[i as int] == user_view(self.users@[i as int]));
                assert(uv[i as int].0 == key);
                proof {
                    lemma_users_with_id_prefix(uv, key, i as int);
                }
                let d = self.users[i].duplicate();
                assert(user_view(d) == users_with_id(uv, key)[0]);
                return Some(d);
            }
            assert(users_with_id(uv.take(i + 1), key) =~= users_with_id(uv.take(i as int), key));
            i = i + 1;
        }
        assert(uv.take(i as int) =~= uv);
        None
    }

    /// The posts written by the user with the given id.
    pub fn posts_by_user(&self, user_id: i32) -> (r: Vec<Post>)
        ensures
            posts_view(r@) == posts_by(posts_view(self.posts@), signed_decimal_text(user_id as int)),
    {
        let wanted = i32_to_decimal(user_id);
        let ghost pv = posts_view(self.posts@);
        let mut out: Vec<Post> = Vec::new();
        let mut i: usize = 0;
        assert(pv.take(0) =~= Seq::<(Seq<char>, Seq<char>, Seq<char>, Seq<char>)>::empty());
        while i < self.posts.len()
            invariant
                i <= self.posts@.len(),
                pv == posts_view(self.posts@),
                posts_view(out@) == posts_by(pv.take(i as int), wanted@),
            decreases self.posts@.len() - i,
        {
            let ghost before = posts_view(out@);
            assert(pv.take(i + 1).drop_last() =~= pv.take(i as int));
            assert(pv.take(i + 1).last() == post_view(self.posts@[i as int]));
            if self.posts[i].author_id == wanted {
                out.push(self.posts[i].duplicate());
                assert(posts_view(out@) =~= before + seq![pv[i as int]]);
            } else {
                assert(before + Seq::<(Seq<char>, Seq<char>, Seq<char>, Seq<char>)>::empty()
                    =~= before);
            }
            i = i + 1;
        }
        assert(pv.take(i as int) =~= pv);
        out
    }

    /// The users whose name contains the query, both compared lower-cased.
    pub fn search_users(&self, query: &str) -> (r: Vec<User>)
        ensures
            users_view(r@) == users_matching(users_view(self.users@), spec_to_lowercase(query@)),
    {
        let query_lower = to_lowercase(query);
        let q = chars_of(query_lower.as_str());
        let ghost uv = users_view(self.users@);
        let mut out: Vec<User> = Vec::new();
        let mut i: usize = 0;
        assert(uv.take(0) =~= Seq::<(Seq<char>, Seq<char>, Option<Seq<char>>)>::empty());
        while i < self.users.len()
            invariant
                i <= self.users@.len(),
                uv == users_view(self.users@),
                q@ == spec_to_lowercase(query@),
                users_view(out@) == users_matching(uv.take(i as int), q@),
            decreases self.users@.len() - i,
        {
            let ghost before = users_view(out@);
            assert(uv.take(i + 1).drop_last() =~= uv.take(i as int));
            assert(uv.take(i + 1).last() == user_view(self.users@[i as int]));
            let name_lower = to_lowercase(self.users[i].name.as_str());
            let n = chars_of(name_lower.as_str());
            if contains_chars(&n, &q) {
                out.push(self.users[i].duplicate());
                assert(users_view(out@) =~= before + seq![uv[i as int]]);
            } else {
                assert(before + Seq::<(Seq<char>, Seq<char>, Option<Seq<char>>)>::empty()
                    =~= before);
            }
            i = i + 1;
        }
        assert(uv.take(i as int) =~= uv);
        out
    }

    /// Adds a user whose id is one more than the number of users, and returns it.
    pub fn create_user(&mut self, name: String, email: Option<String>) -> (r: User)
        requires
            old(self).users@.len() < usize::MAX,
        ensures
            user_view(r) == (
                decimal_text((old(self).users@.len() + 1) as nat),
                name@,
                match email {
                    Some(e) => Some(e@),
                    None => None,
                },
            ),
            users_view(final(self).users@) == users_view(old(self).users@).push(user_view(r)),
            posts_view(final(self).posts@) == posts_view(old(self).posts@),
    {
        let new_id = usize_to_decimal(self.users.len() + 1);
        let u = User { id: new_id, name, email };
        let copy = u.duplicate();
        let ghost before = users_view(self.users@);
        self.users.push(u);
        assert(users_view(self.users@) =~= before.push(user_view(copy)));
        copy
    }

    /// Adds a post whose id is one more than the number of posts, and returns it.
    pub fn create_post(&mut self, title: String, content: String, author_id: i32) -> (r: Post)
        requires
            old(self).posts@.len() < usize::MAX,
        ensures
            post_view(r) == (
                decimal_text((old(self).posts@.len() + 1) as nat),
                title@,
                content@,
                signed_decimal_text(author_id as int),
            ),
            posts_view(final(self).posts@) == posts_view(old(self).posts@).push(post_view(r)),
            users_view(final(self).users@) == users_view(old(self).users@),
    {
        let new_id = usize_to_decimal(self.posts.len() + 1);
        let p = Post { id: new_id, title, content, author_id: i32_to_decimal(author_id) };
        let copy = p.duplicate();
        let ghost before = posts_view(self.posts@);
        self.posts.push(p);
        assert(posts_view(self.posts@) =~= before.push(post_view(copy)));
        copy
    }

    /// Removes every user with the given id; whether any was removed.
    pub fn delete_user(&mut self, id: i32) -> (r: bool)
        ensures
            users_view(final(self).users@) == users_without_id(
                users_view(old(self).users@),
                signed_decimal_text(id as int),
            ),
            r == (final(self).users@.len() < old(self).users@.len()),
            posts_view(final(self).posts@) == posts_view(old(self).posts@),
    {
        let wanted = i32_to_decimal(id);
        let ghost uv = users_view(self.users@);
        let initial_len = self.users.len();
        let mut kept: Vec<User> = Vec::new();
        let mut i: usize = 0;
        assert(uv.take(0) =~= Seq::<(Seq<char>, Seq<char>, Option<Seq<char>>)>::empty());
        while i < self.users.len()
            invariant
                i <= self.users@.len(),
                uv == users_view(self.users@),
                kept@.len() <= i,
                users_view(kept@) == users_without_id(uv.take(i as int), wanted@),
            decreases self.users@.len() - i,
        {
            let ghost before = users_view(kept@);
            assert(uv.take(i + 1).drop_last() =~= uv.take(i as int));
            assert(uv.take(i + 1).last() == user_view(self.users@[i as int]));
            if self.users[i].id != wanted {
                kept.push(self.users[i].duplicate());
                assert(users_view(kept@) =~= before + seq![uv[i as int]]);
            } else {
                assert(before + Seq::<(Seq<char>, Seq<char>, Option<Seq<char>>)>::empty()
                    =~= before);
            }
            i = i + 1;
        }
        assert(uv.take(i as int) =~= uv);
        self.users = kept;
        self.users.len() < initial_len
    }
}

proof fn lemma_users_with_id_prefix(
    uv: Seq<(Seq<char>, Seq<char>, Option<Seq<char>>)>,
    key: Seq<char>,
    i: int,
)
    requires
        0 <= i < uv.len(),
        users_with_id(uv.take(i), key).len() == 0,
        uv[i].0 == key,
    ensures
        users_with_id(uv, key).len() > 0,
        users_with_id(uv, key)[0] == uv[i],
{
    lemma_users_with_id_extend(uv, key, i, i + 1);
    assert(uv.take(i + 1).drop_last() =~= uv.take(i));
    assert(users_with_id(uv.take(i + 1), key) =~= seq![uv[i]]);
    assert(uv.take(uv.len() as int) =~= uv);
    lemma_users_with_id_extend(uv, key, i + 1, uv.len() as int);
}

proof fn lemma_users_with_id_extend(
    uv: Seq<(Seq<char>, Seq<char>, Option<Seq<char>>)>,
    key: Seq<char>,
    a: int,
    b: int,
)
    requires
        0 <= a <= b <= uv.len(),
    ensures
        users_with_id(uv.take(b), key).len() >= users_with_id(uv.take(a), key).len(),
        forall|k: int|
            0 <= k < users_with_id(uv.take(a), key).len() ==> users_with_id(uv.take(b), key)[k]
                == users_with_id(uv.take(a), key)[k],
    decreases b - a,
{
    if a < b {
        lemma_users_with_id_extend(uv, key, a, b - 1);
        assert(uv.take(b).drop_last() =~= uv.take(b - 1));
    }
}

/// Deleting by id splits the users: those kept and those with the id together
/// are all of them, and none of those kept has the id.  So a deletion reports
/// removal exactly when some user had the id.
pub proof fn lemma_delete_partitions(us: Seq<(Seq<char>, Seq<char>, Option<Seq<char>>)>, id: Seq<char>)
    ensures
        users_without_id(us, id).len() + users_with_id(us, id).len() == us.len(),
        users_with_id(users_without_id(us, id), id).len() == 0,
        (users_without_id(us, id).len() < us.len()) <==> (exists|i: int|
            0 <= i < us.len() && (#[trigger] us[i]).0 == id),
    decreases us.len(),
{
    if us.len() > 0 {
        let init = us.drop_last();
        lemma_delete_partitions(init, id);
        let kept = users_without_id(us, id);
        if us.last().0 != id {
            assert(kept.drop_last() =~= users_without_id(init, id));
            assert(kept.last() == us.last());
        } else {
            assert(kept =~= users_without_id(init, id));
        }
        if exists|i: int| 0 <= i < init.len() && (#[trigger] init[i]).0 == id {
            let i = choose|i: int| 0 <= i < init.len() && (#[trigger] init[i]).0 == id;
            assert(us[i] == init[i]);
        }
        if exists|i: int| 0 <= i < us.len() && (#[trigger] us[i]).0 == id {
            let i = choose|i: int| 0 <= i < us.len() && (#[trigger] us[i]).0 == id;
            if i < init.len() {
                assert(init[i] == us[i]);
            }
        }
    }
}

} // verus!
