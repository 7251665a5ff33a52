use vstd::prelude::*;
use crate::user::{User, UserId, parse_object_id, is_object_id_str, hex_value};
use crate::validate::{validate, valid_user, validation_of};
use crate::errors::RequestError;

verus! {

/// A stored document: a user together with its server-assigned identifier.
pub struct StoredUser {
    pub id: UserId,
    pub name: String,
    pub email: String,
    pub age: i32,
}

/// The mathematical content of one stored document.
pub ghost struct UserData {
    pub id: u128,
    pub name: Seq<char>,
    pub email: Seq<char>,
    pub age: int,
}

impl View for StoredUser {
    type V = UserData;

    open spec fn view(&self) -> UserData {
        UserData { id: self.id.value, name: self.name@, email: self.email@, age: self.age as int }
    }
}

/// The document that a create with the given fields persists under the
/// given identifier. A client-supplied identifier is not among its
/// arguments: the stored identifier is always the server-assigned one.
pub open spec fn new_doc(id: u128, name: Seq<char>, email: Seq<char>, age: int) -> UserData {
    UserData { id, name, email, age }
}

/// Whether some document of `s` carries identifier `id`.
pub open spec fn has_id(s: Seq<UserData>, id: u128) -> bool {
    exists|i: int| 0 <= i < s.len() && (#[trigger] s[i]).id == id
}

/// No two documents of `s` share an identifier.
pub open spec fn unique_ids(s: Seq<UserData>) -> bool {
    forall|i: int, j: int| 0 <= i < j < s.len() ==> (#[trigger] s[i]).id != (#[trigger] s[j]).id
}

/// `post` is `pre` with the document at identifier `id` overwritten with
/// the given fields, and every other document untouched.
pub open spec fn updated_at_id(
    pre: Seq<UserData>,
    post: Seq<UserData>,
    id: u128,
    name: Seq<char>,
    email: Seq<char>,
    age: int,
) -> bool {
    &&& post.len() == pre.len()
    &&& (forall|i: int| 0 <= i < pre.len() && (#[trigger] pre[i]).id != id ==> post[i] == pre[i])
    &&& (forall|i: int|
        0 <= i < pre.len() && (#[trigger] pre[i]).id == id ==> post[i] == new_doc(
            id,
            name,
            email,
            age,
        ))
}

/// `post` is `pre` with the one document at identifier `id` removed.
pub open spec fn removed_at_id(pre: Seq<UserData>, post: Seq<UserData>, id: u128) -> bool {
    exists|k: int| 0 <= k < pre.len() && (#[trigger] pre[k]).id == id && post == pre.remove(k)
}

/// The collection of user documents, with server-side identifier
/// assignment. Its view is the stored documents in insertion order. It
/// captures what the handlers rely on: identifiers are unique and never
/// reused, only validated documents are written, and the identifier under
/// which a document is stored comes from the store itself.
pub struct UserStore {
    docs: Vec<StoredUser>,
    next: u64,
}

impl View for UserStore {
    type V = Seq<UserData>;

    closed spec fn view(&self) -> Seq<UserData> {
        self.docs@.map_values(|d: StoredUser| d@)
    }
}

impl UserStore {
    /// The identifier the next successful create will assign.
    pub closed spec fn next_id(self) -> u128 {
        self.next as u128
    }

    /// The store can still assign a fresh identifier.
    pub closed spec fn can_assign(self) -> bool {
        self.next < u64::MAX
    }

    /// Well-formed: identifiers are unique, all lie below the assignment
    /// counter and within the 96-bit identifier space, and every stored
    /// document satisfies the field constraints.
    pub closed spec fn wf(self) -> bool {
        &&& unique_ids(self@)
        &&& (forall|i: int| 0 <= i < self@.len() ==> (#[trigger] self@[i]).id < self.next as u128)
        &&& (forall|i: int|
            0 <= i < self@.len() ==> valid_user(
                (#[trigger] self@[i]).name,
                self@[i].email,
                self@[i].age,
            ))
    }

    /// An empty store.
    pub fn new() -> (s: Self)
        ensures
            s.wf(),
            s@ == Seq::<UserData>::empty(),
            s.next_id() == 0,
            s.can_assign(),
    {
        let s = UserStore { docs: Vec::new(), next: 0 };
        proof {
            assert(s@ =~= Seq::<UserData>::empty());
        }
        s
    }

    /// The index of the document carrying `idv`, if any.
    fn find_index(&self, idv: u128) -> (r: Option<usize>)
        ensures
            r matches Some(k) ==> k < self@.len() && self@[k as int].id == idv,
            r is None ==> !has_id(self@, idv),
    {
        let mut i: usize = 0;
        while i < self.docs.len()
            invariant
                0 <= i <= self.docs@.len(),
                self@.len() == self.docs@.len(),
                forall|j: int| 0 <= j < i ==> (#[trigger] self@[j]).id != idv,
            decreases self.docs@.len() - i,
        {
            if self.docs[i].id.value == idv {
                return Some(i);
            }
            i += 1;
        }
        None
    }

    /// Validates the body, discards any client-supplied identifier, and
    /// persists the document under a fresh server-assigned identifier,
    /// which it returns. An invalid body is rejected before anything is
    /// written; exhaustion of the identifier space is the one persistence
    /// failure the store itself can suffer.
    pub fn create_user(&mut self, user: User) -> (r: Result<UserId, RequestError>)
        requires
            old(self).wf(),
        ensures
            final(self).wf(),
            r is Ok <==> valid_user(user.name@, user.email@, user.age as int)
                && old(self).can_assign(),
            r matches Ok(id) ==> {
                &&& id.value == old(self).next_id()
                &&& id.wf()
                &&& !has_id(old(self)@, id.value)
                &&& final(self)@ == old(self)@.push(
                    new_doc(old(self).next_id(), user.name@, user.email@, user.age as int),
                )
                &&& final(self).next_id() == old(self).next_id() + 1
            },
            r is Err ==> final(self)@ == old(self)@ && final(self).next_id() == old(self).next_id(),
            r matches Err(RequestError::Validation(v)) ==> validation_of(
                v,
                user.name@,
                user.email@,
                user.age as int,
            ),
            !valid_user(user.name@, user.email@, user.age as int) ==> r matches Err(
                RequestError::Validation(_),
            ),
            valid_user(user.name@, user.email@, user.age as int) && !old(self).can_assign()
                ==> r == Err::<UserId, RequestError>(RequestError::Storage),
    {
        let errs = validate(&user);
        if !errs.is_ok() {
            return Err(RequestError::Validation(errs));
        }
        if self.next == u64::MAX {
            return Err(RequestError::Storage);
        }
        let id = UserId { value: self.next as u128 };
        let doc = StoredUser { id, name: user.name, email: user.email, age: user.age };
        let ghost pre = self@;
        self.docs.push(doc);
        self.next = self.next + 1;
        proof {
            assert(self@ =~= pre.push(doc@));
        }
        Ok(id)
    }

    /// Every stored document, in insertion order.
    pub fn get_users(&self) -> (r: &Vec<StoredUser>)
        ensures
            r@.len() == self@.len(),
            forall|i: int| 0 <= i < r@.len() ==> (#[trigger] r@[i])@ == self@[i],
    {
        &self.docs
    }

    /// Validates the body, then parses the identifier, then overwrites all
    /// three fields of the matching document at once, keeping its
    /// identifier. Failures come in that order: an invalid body is a
    /// validation failure even when the identifier is also malformed, a
    /// malformed identifier is rejected without touching the store, and a
    /// well-formed identifier without a matching document is not found.
    pub fn update_user(&mut self, id: &str, user: User) -> (r: Result<(), RequestError>)
        requires
            old(self).wf(),
        ensures
            final(self).wf(),
            final(self).next_id() == old(self).next_id(),
            r is Err ==> final(self)@ == old(self)@,
            r is Ok <==> valid_user(user.name@, user.email@, user.age as int)
                && is_object_id_str(id@) && has_id(old(self)@, hex_value(id@) as u128),
            !valid_user(user.name@, user.email@, user.age as int) ==> r matches Err(
                RequestError::Validation(_),
            ),
            r matches Err(RequestError::Validation(v)) ==> validation_of(
                v,
                user.name@,
                user.email@,
                user.age as int,
            ),
            valid_user(user.name@, user.email@, user.age as int) && !is_object_id_str(id@)
                ==> r == Err::<(), RequestError>(RequestError::InvalidId),
            valid_user(user.name@, user.email@, user.age as int) && is_object_id_str(id@)
                && !has_id(old(self)@, hex_value(id@) as u128) ==> r == Err::<(), RequestError>(
                RequestError::NotFound,
            ),
            r is Ok ==> updated_at_id(
                old(self)@,
                final(self)@,
                hex_value(id@) as u128,
                user.name@,
                user.email@,
                user.age as int,
            ),
    {
        let errs = validate(&user);
        if !errs.is_ok() {
            return Err(RequestError::Validation(errs));
        }
        let oid = match parse_object_id(id) {
            None => {
                return Err(RequestError::InvalidId);
            },
            Some(o) => o,
        };
        let k = match self.find_index(oid.value) {
            None => {
                return Err(RequestError::NotFound);
            },
            Some(k) => k,
        };
        let doc = StoredUser { id: oid, name: user.name, email: user.email, age: user.age };
        let ghost pre = self@;
        let ghost d0 = self.docs@;
        self.docs.remove(k);
        let ghost d1 = self.docs@;
        self.docs.insert(k, doc);
        proof {
            d0.remove_ensures(k as int);
            d1.insert_ensures(k as int, doc);
            assert forall|i: int|
                0 <= i < pre.len() && (#[trigger] pre[i]).id != oid.value implies self@[i]
                == pre[i] by {
                if i < k {
                    assert(self.docs@[i] == d0[i]);
                } else if i == k {
                    assert(false);
                } else {
                    assert(d1[i - 1] == d0[i]);
                    assert(self.docs@[i] == d1[i - 1]);
                }
            }
            assert forall|i: int|
                0 <= i < pre.len() && (#[trigger] pre[i]).id == oid.value implies self@[i]
                == new_doc(
                oid.value,
                user.name@,
                user.email@,
                user.age as int,
            ) by {
                if i != k {
                    assert(pre[k as int].id == oid.value);
                    if i < k {
                        assert(pre[i].id != pre[k as int].id);
                    } else {
                        assert(pre[k as int].id != pre[i].id);
                    }
                    assert(false);
                }
                assert(self.docs@[k as int] == doc);
            }
            assert forall|i: int| 0 <= i < self@.len() implies (#[trigger] self@[i]).id
                == pre[i].id by {
                if pre[i].id == oid.value {
                } else {
                }
            }
        }
        Ok(())
    }

    /// Parses the identifier and removes the matching document. A
    /// malformed identifier is rejected without touching the store; a
    /// well-formed identifier without a matching document is not found.
    pub fn delete_user(&mut self, id: &str) -> (r: Result<(), RequestError>)
        requires
            old(self).wf(),
        ensures
            final(self).wf(),
            final(self).next_id() == old(self).next_id(),
            r is Err ==> final(self)@ == old(self)@,
            r is Ok <==> is_object_id_str(id@) && has_id(old(self)@, hex_value(id@) as u128),
            !is_object_id_str(id@) ==> r == Err::<(), RequestError>(RequestError::InvalidId),
            is_object_id_str(id@) && !has_id(old(self)@, hex_value(id@) as u128) ==> r == Err::<
                (),
                RequestError,
            >(RequestError::NotFound),
            r is Ok ==> removed_at_id(old(self)@, final(self)@, hex_value(id@) as u128),
    {
        let oid = match parse_object_id(id) {
            None => {
                return Err(RequestError::InvalidId);
            },
            Some(o) => o,
        };
        let k = match self.find_index(oid.value) {
            None => {
                return Err(RequestError::NotFound);
            },
            Some(k) => k,
        };
        let ghost pre = self@;
        let ghost d0 = self.docs@;
        self.docs.remove(k);
        proof {
            d0.remove_ensures(k as int);
            assert(self@ =~= pre.remove(k as int));
            pre.remove_ensures(k as int);
            assert(pre[k as int].id == oid.value);
            assert forall|i: int, j: int|
                0 <= i < j < self@.len() implies (#[trigger] self@[i]).id != (#[trigger] self@[j]).id by {
                let pi: int = if i < k { i } else { i + 1 };
                let pj: int = if j < k { j } else { j + 1 };
                assert(self@[i] == pre[pi]);
                assert(self@[j] == pre[pj]);
            }
        }
        Ok(())
    }
}

/// Law: every document a well-formed store lists satisfies the three field
/// constraints, because validation happens before any write.
pub proof fn lemma_listed_documents_are_valid(s: &UserStore)
    requires
        s.wf(),
    ensures
        forall|i: int|
            0 <= i < s@.len() ==> valid_user(
                (#[trigger] s@[i]).name,
                s@[i].email,
                s@[i].age,
            ),
{
}

/// Law: a document just created is in the listing that follows, with the
/// creation's fields, at the assigned identifier.
pub proof fn lemma_create_then_list(
    pre: Seq<UserData>,
    id: u128,
    name: Seq<char>,
    email: Seq<char>,
    age: int,
)
    ensures
        has_id(pre.push(new_doc(id, name, email, age)), id),
        pre.push(new_doc(id, name, email, age))[pre.len() as int] == new_doc(
            id,
            name,
            email,
            age,
        ),
{
    let post = pre.push(new_doc(id, name, email, age));
    assert(post[pre.len() as int] == new_doc(id, name, email, age));
}

/// Law: after an update at an identifier, the listing still carries that
/// identifier, every document carrying it shows the new fields, and every
/// other document is unchanged.
pub proof fn lemma_update_then_list(
    pre: Seq<UserData>,
    post: Seq<UserData>,
    id: u128,
    name: Seq<char>,
    email: Seq<char>,
    age: int,
)
    requires
        has_id(pre, id),
        updated_at_id(pre, post, id, name, email, age),
    ensures
        has_id(post, id),
        forall|i: int|
            0 <= i < post.len() && (#[trigger] post[i]).id == id ==> post[i] == new_doc(
                id,
                name,
                email,
                age,
            ),
{
    let k = choose|k: int| 0 <= k < pre.len() && (#[trigger] pre[k]).id == id;
    assert(post[k] == new_doc(id, name, email, age));
    assert forall|i: int|
        0 <= i < post.len() && (#[trigger] post[i]).id == id implies post[i] == new_doc(
        id,
        name,
        email,
        age,
    ) by {
        if pre[i].id == id {
        } else {
            assert(post[i] == pre[i]);
        }
    }
}

/// Law: after a delete at an identifier, no listed document carries it.
pub proof fn lemma_delete_then_list(pre: Seq<UserData>, post: Seq<UserData>, id: u128)
    requires
        unique_ids(pre),
        removed_at_id(pre, post, id),
    ensures
        !has_id(post, id),
{
    let k = choose|k: int|
        0 <= k < pre.len() && (#[trigger] pre[k]).id == id && post == pre.remove(k);
    pre.remove_ensures(k);
    assert forall|i: int| 0 <= i < post.len() implies (#[trigger] post[i]).id != id by {
        if i < k {
            assert(post[i] == pre[i]);
            assert(pre[i].id != pre[k].id);
        } else {
            assert(post[i] == pre[i + 1]);
            assert(pre[k].id != pre[i + 1].id);
        }
    }
}

} // verus!
