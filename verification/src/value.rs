//! Trees of keyed values, the shape a comparison reports its findings in, and
//! the deep merge of one such tree into another.

use vstd::prelude::*;
use vstd::string::*;

use crate::text::{
    before, decimal_i64, lemma_before_is_one_way, lemma_not_after_chains, same, spec_before,
    spec_decimal,
};

verus! {

/// A value of a comparison result: a scalar, a list, or members under keys.
/// The members of an object keep the order in which they were added; as
/// text they are written in the order of their keys.
#[derive(Debug, PartialEq, Eq)]
pub enum Value {
    Null,
    Bool(bool),
    Number(i64),
    String(String),
    Array(Vec<Value>),
    Object(Vec<(String, Value)>),
}

/// A [`Value`] as plain values.
pub enum Tree {
    Null,
    Bool(bool),
    Number(int),
    Text(Seq<char>),
    List(Seq<Tree>),
    Node(Seq<(Seq<char>, Tree)>),
}

/// The plain value that `v` stands for.
pub open spec fn spec_tree(v: Value) -> Tree
    decreases v,
{
    match v {
        Value::Null => Tree::Null,
        Value::Bool(b) => Tree::Bool(b),
        Value::Number(n) => Tree::Number(n as int),
        Value::String(s) => Tree::Text(s@),
        Value::Array(items) => Tree::List(
            Seq::new(
                items@.len(),
                |i: int|
                    if 0 <= i < items@.len() {
                        spec_tree(items@[i])
                    } else {
                        Tree::Null
                    },
            ),
        ),
        Value::Object(members) => Tree::Node(
            Seq::new(
                members@.len(),
                |i: int|
                    if 0 <= i < members@.len() {
                        (members@[i].0@, spec_tree(members@[i].1))
                    } else {
                        (Seq::empty(), Tree::Null)
                    },
            ),
        ),
    }
}

impl View for Value {
    type V = Tree;

    open spec fn view(&self) -> Tree {
        spec_tree(*self)
    }
}

/// The items of a list as plain values.
pub open spec fn spec_items(items: Seq<Value>) -> Seq<Tree> {
    Seq::new(items.len(), |i: int| items[i]@)
}

/// The members of an object as plain values.
pub open spec fn spec_members(members: Seq<(String, Value)>) -> Seq<(Seq<char>, Tree)> {
    Seq::new(members.len(), |i: int| (members[i].0@, members[i].1@))
}

/// The view of a list is the list of its items' views.
pub proof fn lemma_view_array(items: Vec<Value>)
    ensures
        Value::Array(items)@ == Tree::List(spec_items(items@)),
{
    assert(Value::Array(items)@->List_0 =~= spec_items(items@));
}

/// The view of an object is the list of its members' keys and views.
pub proof fn lemma_view_object(members: Vec<(String, Value)>)
    ensures
        Value::Object(members)@ == Tree::Node(spec_members(members@)),
{
    assert(Value::Object(members)@->Node_0 =~= spec_members(members@));
}

/// The position of the first member under `key`.
pub open spec fn spec_position(members: Seq<(Seq<char>, Tree)>, key: Seq<char>) -> Option<int>
    decreases members.len(),
{
    if members.len() == 0 {
        None
    } else {
        match spec_position(members.drop_last(), key) {
            Some(i) => Some(i),
            None => if members.last().0 == key {
                Some(members.len() - 1)
            } else {
                None
            },
        }
    }
}

/// The number of members of a node; 0 for any other tree.
pub open spec fn spec_width(t: Tree) -> nat {
    match t {
        Tree::Node(members) => members.len(),
        _ => 0,
    }
}

/// `b` merged into `a`. Where both are nodes, each member of `b` is merged, in
/// order, into the member of `a` under the same key, or into `Null` under a
/// new key at the end. In every other case `b` takes the place of `a`.
pub open spec fn spec_merge(a: Tree, b: Tree) -> Tree
    decreases b, spec_width(b) + 1,
{
    match (a, b) {
        (Tree::Node(am), Tree::Node(bm)) => Tree::Node(spec_merge_members(am, b, bm.len())),
        _ => b,
    }
}

/// The members `am` after the first `n` members of the node `b` have been
/// merged into them.
pub open spec fn spec_merge_members(am: Seq<(Seq<char>, Tree)>, b: Tree, n: nat) -> Seq<
    (Seq<char>, Tree),
>
    decreases b, n,
{
    match b {
        Tree::Node(bm) => if 0 < n <= bm.len() {
            let acc = spec_merge_members(am, b, (n - 1) as nat);
            let key = bm[n - 1].0;
            let value = bm[n - 1].1;
            match spec_position(acc, key) {
                Some(i) => acc.update(i, (key, spec_merge(acc[i].1, value))),
                None => acc.push((key, spec_merge(Tree::Null, value))),
            }
        } else {
            am
        },
        _ => am,
    }
}

/// A copy of a run of values.
fn clone_items(items: &Vec<Value>) -> (r: Vec<Value>)
    ensures
        spec_items(r@) == spec_items(items@),
    decreases items,
{
    let mut r: Vec<Value> = Vec::new();
    let mut i: usize = 0;
    while i < items.len()
        invariant
            i <= items.len(),
            r@.len() == i,
            forall|j: int| 0 <= j < i ==> r@[j]@ == items@[j]@,
        decreases items.len() - i,
    {
        r.push(clone_value(&items[i]));
        i = i + 1;
    }
    assert(spec_items(r@) =~= spec_items(items@));
    r
}

/// A copy of the members of an object.
fn clone_members(members: &Vec<(String, Value)>) -> (r: Vec<(String, Value)>)
    ensures
        spec_members(r@) == spec_members(members@),
    decreases members,
{
    let mut r: Vec<(String, Value)> = Vec::new();
    let mut i: usize = 0;
    while i < members.len()
        invariant
            i <= members.len(),
            r@.len() == i,
            forall|j: int|
                0 <= j < i ==> r@[j].0@ == members@[j].0@ && r@[j].1@ == members@[j].1@,
        decreases members.len() - i,
    {
        r.push((members[i].0.clone(), clone_value(&members[i].1)));
        i = i + 1;
    }
    assert(spec_members(r@) =~= spec_members(members@));
    r
}

/// A copy of a value.
fn clone_value(v: &Value) -> (r: Value)
    ensures
        r@ == v@,
    decreases v,
{
    match v {
        Value::Null => Value::Null,
        Value::Bool(b) => Value::Bool(*b),
        Value::Number(n) => Value::Number(*n),
        Value::String(s) => Value::String(s.clone()),
        Value::Array(items) => {
            let copy = clone_items(items);
            proof {
                lemma_view_array(copy);
                lemma_view_array(*items);
            }
            Value::Array(copy)
        },
        Value::Object(members) => {
            let copy = clone_members(members);
            proof {
                lemma_view_object(copy);
                lemma_view_object(*members);
            }
            Value::Object(copy)
        },
    }
}

impl Clone for Value {
    fn clone(&self) -> (r: Self)
        ensures
            r@ == self@,
    {
        clone_value(self)
    }
}

/// The position of the first member under `key`; see [`spec_position`].
pub fn position(members: &Vec<(String, Value)>, key: &str) -> (r: Option<usize>)
    ensures
        match r {
            Some(i) => spec_position(spec_members(members@), key@) == Some(i as int)
                && i < members.len() && members@[i as int].0@ == key@,
            None => spec_position(spec_members(members@), key@) is None,
        },
{
    let ghost all = spec_members(members@);
    let mut i: usize = 0;
    assert(all.take(0).len() == 0);
    while i < members.len()
        invariant
            i <= members.len(),
            all == spec_members(members@),
            spec_position(all.take(i as int), key@) is None,
        decreases members.len() - i,
    {
        let ghost next = all.take(i + 1);
        assert(next.drop_last() =~= all.take(i as int));
        assert(next.last() == all[i as int]);
        if same(members[i].0.as_str(), key) {
            proof {
                lemma_position_prefix(all, key@, i + 1);
            }
            return Some(i);
        }
        i = i + 1;
    }
    assert(all.take(i as int) =~= all);
    None
}

/// A position found among the first `k` members is the position among all.
proof fn lemma_position_prefix(members: Seq<(Seq<char>, Tree)>, key: Seq<char>, k: int)
    requires
        0 <= k <= members.len(),
        spec_position(members.take(k), key) is Some,
    ensures
        spec_position(members, key) == spec_position(members.take(k), key),
    decreases members.len(),
{
    if k == members.len() {
        assert(members.take(k) =~= members);
    } else {
        assert(members.drop_last().take(k) =~= members.take(k));
        lemma_position_prefix(members.drop_last(), key, k);
    }
}

/// Whether no node of the tree holds two members under one key.
pub open spec fn spec_unique_keys(t: Tree) -> bool
    decreases t,
{
    match t {
        Tree::Node(members) => {
            &&& forall|i: int, j: int|
                0 <= i < j < members.len() ==> members[i].0 != members[j].0
            &&& forall|i: int| 0 <= i < members.len() ==> spec_unique_keys(members[i].1)
        },
        Tree::List(items) => forall|i: int| 0 <= i < items.len() ==> spec_unique_keys(items[i]),
        _ => true,
    }
}

/// The member of a node under `key`, if the tree is a node and has one.
pub open spec fn spec_get(t: Tree, key: Seq<char>) -> Option<Tree> {
    match t {
        Tree::Node(members) => match spec_position(members, key) {
            Some(i) => Some(members[i].1),
            None => None,
        },
        _ => None,
    }
}

/// What a position says: the member there has the key and none before it
/// has; without a position no member has the key.
pub proof fn lemma_position_means(members: Seq<(Seq<char>, Tree)>, key: Seq<char>)
    ensures
        match spec_position(members, key) {
            Some(i) => 0 <= i < members.len() && members[i].0 == key && forall|j: int|
                0 <= j < i ==> members[j].0 != key,
            None => forall|j: int| 0 <= j < members.len() ==> members[j].0 != key,
        },
    decreases members.len(),
{
    if members.len() > 0 {
        lemma_position_means(members.drop_last(), key);
        assert(forall|j: int|
            0 <= j < members.len() - 1 ==> members.drop_last()[j] == members[j]);
    }
}

/// The first member under a key is at the position of that key.
pub proof fn lemma_position_is_first(members: Seq<(Seq<char>, Tree)>, key: Seq<char>, i: int)
    requires
        0 <= i < members.len(),
        members[i].0 == key,
        forall|j: int| 0 <= j < i ==> members[j].0 != key,
    ensures
        spec_position(members, key) == Some(i),
{
    lemma_position_means(members, key);
}

/// Where `b` is no node, or `a` is none, merging `b` into `a` leaves `b`.
pub proof fn lemma_merge_replaces(a: Tree, b: Tree)
    requires
        !(a is Node) || !(b is Node),
    ensures
        spec_merge(a, b) == b,
{
}

/// Merging the first `n` members of a node into that node changes nothing.
proof fn lemma_merge_members_self(a: Tree, n: nat)
    requires
        a is Node,
        spec_unique_keys(a),
        n <= spec_width(a),
    ensures
        spec_merge_members(a->Node_0, a, n) == a->Node_0,
    decreases a, n,
{
    let members = a->Node_0;
    if n > 0 {
        lemma_merge_members_self(a, (n - 1) as nat);
        lemma_merge_self(members[n - 1].1);
        lemma_position_is_first(members, members[n - 1].0, n - 1);
        assert(members.update(n - 1, members[n - 1]) =~= members);
    }
}

/// Merging a tree into itself changes nothing, as long as no node holds two
/// members under one key.
pub proof fn lemma_merge_self(a: Tree)
    requires
        spec_unique_keys(a),
    ensures
        spec_merge(a, a) == a,
    decreases a, spec_width(a) + 1,
{
    if a is Node {
        lemma_merge_members_self(a, spec_width(a));
    }
}

/// What unique keys mean for the members of a node.
proof fn lemma_unique_keys_means(members: Seq<(Seq<char>, Tree)>)
    requires
        spec_unique_keys(Tree::Node(members)),
    ensures
        forall|i: int, j: int| 0 <= i < j < members.len() ==> members[i].0 != members[j].0,
        forall|i: int| 0 <= i < members.len() ==> spec_unique_keys(#[trigger] members[i].1),
{
    let t = Tree::Node(members);
    assert(t->Node_0 == members);
    assert forall|i: int, j: int| 0 <= i < j < members.len() implies members[i].0
        != members[j].0 by {
        assert(t->Node_0[i].0 != t->Node_0[j].0);
    }
    assert forall|i: int| 0 <= i < members.len() implies spec_unique_keys(
        #[trigger] members[i].1,
    ) by {
        assert(spec_unique_keys(t->Node_0[i].1));
    }
}

/// Members with different keys, each with unique keys, make a node with
/// unique keys.
proof fn lemma_unique_keys_from(members: Seq<(Seq<char>, Tree)>)
    requires
        forall|i: int, j: int| 0 <= i < j < members.len() ==> members[i].0 != members[j].0,
        forall|i: int| 0 <= i < members.len() ==> spec_unique_keys(#[trigger] members[i].1),
    ensures
        spec_unique_keys(Tree::Node(members)),
{
}

proof fn lemma_merge_members_unique(am: Seq<(Seq<char>, Tree)>, b: Tree, n: nat)
    requires
        b is Node,
        spec_unique_keys(b),
        spec_unique_keys(Tree::Node(am)),
        n <= spec_width(b),
    ensures
        spec_unique_keys(Tree::Node(spec_merge_members(am, b, n))),
    decreases b, n,
{
    if n > 0 {
        let bm = b->Node_0;
        let acc = spec_merge_members(am, b, (n - 1) as nat);
        let after = spec_merge_members(am, b, n);
        let key = bm[n - 1].0;
        let value = bm[n - 1].1;
        lemma_merge_members_unique(am, b, (n - 1) as nat);
        lemma_position_means(acc, key);
        lemma_unique_keys_means(bm);
        lemma_unique_keys_means(acc);
        assert(spec_unique_keys(value));
        match spec_position(acc, key) {
            Some(i) => {
                assert(spec_unique_keys(acc[i].1));
                lemma_merge_keeps_unique_keys(acc[i].1, value);
                assert(after == acc.update(i, (key, spec_merge(acc[i].1, value))));
                assert(after.len() == acc.len());
                assert forall|x: int, y: int| 0 <= x < y < after.len() implies after[x].0
                    != after[y].0 by {
                    assert(after[x].0 == acc[x].0);
                    assert(after[y].0 == acc[y].0);
                }
                assert forall|x: int| 0 <= x < after.len() implies spec_unique_keys(
                    after[x].1,
                ) by {
                    if x != i {
                        assert(after[x] == acc[x]);
                    }
                }
                lemma_unique_keys_from(after);
            },
            None => {
                assert(after == acc.push((key, spec_merge(Tree::Null, value))));
                assert(after.len() == acc.len() + 1);
                assert(after[acc.len() as int] == (key, value));
                assert forall|x: int, y: int| 0 <= x < y < after.len() implies after[x].0
                    != after[y].0 by {
                    assert(after[x] == acc[x]);
                    if y < acc.len() {
                        assert(after[y] == acc[y]);
                    }
                }
                assert forall|x: int| 0 <= x < after.len() implies spec_unique_keys(
                    after[x].1,
                ) by {
                    if x < acc.len() {
                        assert(after[x] == acc[x]);
                    }
                }
                lemma_unique_keys_from(after);
            },
        }
    }
}

/// A merge of two trees in which no node holds two members under one key is
/// such a tree again.
pub proof fn lemma_merge_keeps_unique_keys(a: Tree, b: Tree)
    requires
        spec_unique_keys(a),
        spec_unique_keys(b),
    ensures
        spec_unique_keys(spec_merge(a, b)),
    decreases b, spec_width(b) + 1,
{
    if a is Node && b is Node {
        lemma_merge_members_unique(a->Node_0, b, spec_width(b));
    }
}

/// The member under `key` among `members`, if there is one.
pub open spec fn spec_member(members: Seq<(Seq<char>, Tree)>, key: Seq<char>) -> Option<Tree> {
    match spec_position(members, key) {
        Some(i) => Some(members[i].1),
        None => None,
    }
}

/// What a merge leaves under `key`: where `incoming` has a member under the
/// key, that member merged into the one `members` has, or into `Null`; where
/// it has none, what `members` has.
pub open spec fn spec_merged_member(
    members: Seq<(Seq<char>, Tree)>,
    incoming: Seq<(Seq<char>, Tree)>,
    key: Seq<char>,
) -> Option<Tree> {
    match spec_member(incoming, key) {
        Some(value) => Some(
            spec_merge(
                match spec_member(members, key) {
                    Some(old) => old,
                    None => Tree::Null,
                },
                value,
            ),
        ),
        None => spec_member(members, key),
    }
}

proof fn lemma_merge_members_member(am: Seq<(Seq<char>, Tree)>, b: Tree, n: nat, key: Seq<char>)
    requires
        b is Node,
        n <= spec_width(b),
        forall|i: int, j: int| 0 <= i < j < spec_width(b) ==> b->Node_0[i].0 != b->Node_0[j].0,
    ensures
        spec_member(spec_merge_members(am, b, n), key) == spec_merged_member(
            am,
            b->Node_0.take(n as int),
            key,
        ),
    decreases n,
{
    let bm = b->Node_0;
    if n == 0 {
        assert(bm.take(0).len() == 0);
    } else {
        let acc = spec_merge_members(am, b, (n - 1) as nat);
        let after = spec_merge_members(am, b, n);
        let k = bm[n - 1].0;
        let v = bm[n - 1].1;
        let seen = bm.take(n - 1);
        let next = bm.take(n as int);
        assert(next.drop_last() =~= seen);
        assert(next.last() == bm[n - 1]);
        lemma_merge_members_member(am, b, (n - 1) as nat, key);
        lemma_merge_members_member(am, b, (n - 1) as nat, k);
        lemma_position_means(seen, k);
        lemma_position_means(seen, key);
        lemma_position_means(acc, k);
        lemma_position_means(acc, key);
        assert(spec_position(seen, k) is None) by {
            if spec_position(seen, k) is Some {
                let i = spec_position(seen, k)->0;
                assert(bm[i].0 == seen[i].0);
            }
        }
        match spec_position(acc, k) {
            Some(i) => {
                assert(after == acc.update(i, (k, spec_merge(acc[i].1, v))));
                if key == k {
                    lemma_position_is_first(after, key, i);
                } else {
                    match spec_position(acc, key) {
                        Some(j) => {
                            lemma_position_is_first(after, key, j);
                        },
                        None => {
                            lemma_position_means(after, key);
                        },
                    }
                }
            },
            None => {
                assert(after == acc.push((k, spec_merge(Tree::Null, v))));
                if key == k {
                    lemma_position_is_first(after, key, acc.len() as int);
                } else {
                    match spec_position(acc, key) {
                        Some(j) => {
                            lemma_position_is_first(after, key, j);
                        },
                        None => {
                            lemma_position_means(after, key);
                        },
                    }
                }
            },
        }
    }
}

/// The deep merge, member by member: under each key the merge of two nodes
/// holds the member of `b` merged into the member of `a`, or into `Null`
/// where `a` has none, and where `b` has no member the member of `a` as it
/// was. It holds where no two members of `b` share a key.
pub proof fn lemma_merge_member(a: Tree, b: Tree, key: Seq<char>)
    requires
        a is Node,
        b is Node,
        forall|i: int, j: int| 0 <= i < j < spec_width(b) ==> b->Node_0[i].0 != b->Node_0[j].0,
    ensures
        spec_get(spec_merge(a, b), key) == spec_merged_member(a->Node_0, b->Node_0, key),
{
    lemma_merge_members_member(a->Node_0, b, spec_width(b), key);
    assert(b->Node_0.take(spec_width(b) as int) =~= b->Node_0);
}

/// Merging into `Null` yields what is merged in.
pub proof fn lemma_merge_into_null(b: Tree)
    ensures
        spec_merge(Tree::Null, b) == b,
{
}

/// `b` merged into `a`; see [`spec_merge`].
pub fn merged(a: Value, b: &Value) -> (r: Value)
    ensures
        r@ == spec_merge(a@, b@),
    decreases b,
{
    match b {
        Value::Object(incoming) => {
            match a {
                Value::Object(members) => {
                    let ghost start = spec_members(members@);
                    let mut acc = members;
                    let mut n: usize = 0;
                    proof {
                        lemma_view_object(*incoming);
                        lemma_view_object(members);
                    }
                    while n < incoming.len()
                        invariant
                            n <= incoming.len(),
                            *b == Value::Object(*incoming),
                            b@ == Tree::Node(spec_members(incoming@)),
                            spec_members(acc@) == spec_merge_members(start, b@, n as nat),
                        decreases incoming.len() - n,
                    {
                        let ghost before = spec_members(acc@);
                        let key = &incoming[n].0;
                        let value = &incoming[n].1;
                        match position(&acc, key.as_str()) {
                            Some(i) => {
                                let (kept, old_value) = acc.remove(i);
                                let new_value = merged(old_value, value);
                                acc.insert(i, (kept, new_value));
                                assert(spec_members(acc@) =~= before.update(
                                    i as int,
                                    (key@, spec_merge(before[i as int].1, value@)),
                                ));
                            },
                            None => {
                                let new_value = merged(Value::Null, value);
                                acc.push((key.clone(), new_value));
                                assert(spec_members(acc@) =~= before.push(
                                    (key@, spec_merge(Tree::Null, value@)),
                                ));
                            },
                        }
                        n = n + 1;
                    }
                    proof {
                        lemma_view_object(acc);
                    }
                    Value::Object(acc)
                },
                _ => b.clone(),
            }
        },
        _ => b.clone(),
    }
}

impl Value {
    /// The member under `key`, if the value is an object and has one; see
    /// [`spec_get`].
    pub fn get(&self, key: &str) -> (r: Option<&Value>)
        ensures
            match r {
                Some(v) => spec_get(self@, key@) == Some(v@),
                None => spec_get(self@, key@) is None,
            },
    {
        match self {
            Value::Object(members) => {
                proof {
                    lemma_view_object(*members);
                }
                match position(members, key) {
                    Some(i) => Some(&members[i].1),
                    None => None,
                }
            },
            _ => None,
        }
    }

    /// Merges `b` into `self`; see [`spec_merge`].
    pub fn merge(&mut self, b: &Value)
        ensures
            final(self)@ == spec_merge(old(self)@, b@),
    {
        let mut taken = Value::Null;
        core::mem::swap(self, &mut taken);
        *self = merged(taken, b);
    }
}

/// A text between double quotes, as a JSON document writes it: what
/// `serde_json` makes of a string value, escapes included.
pub uninterp spec fn spec_json_quoted(text: Seq<char>) -> Seq<char>;

/// Writes `text` as a JSON string. The quoted form is the Display form of
/// `serde_json::Value::String`; nothing more is claimed of it than that it
/// depends on the text alone.
#[verifier::external_body]
fn json_quoted(text: &str) -> (r: String)
    ensures
        r@ == spec_json_quoted(text@),
{
    serde_json::Value::String(text.to_owned()).to_string()
}

/// The number of items of a list; 0 for any other tree.
pub open spec fn spec_length(t: Tree) -> nat {
    match t {
        Tree::List(items) => items.len(),
        _ => 0,
    }
}

/// The keys of the members of a node, in the order of the members.
pub open spec fn spec_keys(members: Seq<(Seq<char>, Tree)>) -> Seq<Seq<char>> {
    Seq::new(members.len(), |i: int| members[i].0)
}

/// The positions `order`, which are in the order of their keys, with the
/// position `i` placed among them: before the positions whose keys come
/// after its key, and after every other.
pub open spec fn spec_place(order: Seq<int>, keys: Seq<Seq<char>>, i: int) -> Seq<int>
    decreases order.len(),
{
    if order.len() == 0 {
        seq![i]
    } else {
        let last = order.last();
        if 0 <= last < keys.len() && 0 <= i < keys.len() && spec_before(keys[i], keys[last]) {
            spec_place(order.drop_last(), keys, i).push(last)
        } else {
            order.push(i)
        }
    }
}

/// The positions of the first `n` of `keys` in the order of the keys; equal
/// keys stay in the order they have.
pub open spec fn spec_order(keys: Seq<Seq<char>>, n: nat) -> Seq<int>
    decreases n,
{
    if n == 0 || n > keys.len() {
        Seq::empty()
    } else {
        spec_place(spec_order(keys, (n - 1) as nat), keys, n - 1)
    }
}

/// Whether `order` holds positions of `keys`, and no key at an earlier
/// place of `order` comes after a key at a later one.
pub open spec fn spec_in_key_order(order: Seq<int>, keys: Seq<Seq<char>>) -> bool {
    &&& forall|k: int| 0 <= k < order.len() ==> 0 <= #[trigger] order[k] < keys.len()
    &&& forall|a: int, b: int|
        0 <= a < b < order.len() ==> !spec_before(keys[order[b]], keys[order[a]])
}

proof fn lemma_place_keeps_order(order: Seq<int>, keys: Seq<Seq<char>>, i: int)
    requires
        spec_in_key_order(order, keys),
        0 <= i < keys.len(),
    ensures
        spec_in_key_order(spec_place(order, keys, i), keys),
        spec_place(order, keys, i).len() == order.len() + 1,
        forall|x: int|
            #![trigger spec_place(order, keys, i).contains(x)]
            #![trigger order.contains(x)]
            spec_place(order, keys, i).contains(x) <==> order.contains(x) || x == i,
    decreases order.len(),
{
    let placed = spec_place(order, keys, i);
    if order.len() == 0 {
        assert(placed[0] == i);
        assert forall|x: int| #[trigger] placed.contains(x) <==> order.contains(x) || x == i by {
            if x == i {
                assert(placed[0] == x);
            }
        }
    } else {
        let last = order.last();
        let rest = order.drop_last();
        assert(order[order.len() - 1] == last);
        assert(spec_in_key_order(rest, keys)) by {
            assert forall|k: int| 0 <= k < rest.len() implies 0 <= #[trigger] rest[k]
                < keys.len() by {
                assert(rest[k] == order[k]);
            }
            assert forall|a: int, b: int| 0 <= a < b < rest.len() implies !spec_before(
                keys[rest[b]],
                keys[rest[a]],
            ) by {
                assert(rest[a] == order[a] && rest[b] == order[b]);
            }
        }
        if spec_before(keys[i], keys[last]) {
            lemma_place_keeps_order(rest, keys, i);
            let inner = spec_place(rest, keys, i);
            assert(placed == inner.push(last));
            lemma_before_is_one_way(keys[i], keys[last]);
            assert forall|k: int| 0 <= k < placed.len() implies 0 <= #[trigger] placed[k]
                < keys.len() by {
                if k < inner.len() {
                    assert(placed[k] == inner[k]);
                }
            }
            assert forall|a: int, b: int| 0 <= a < b < placed.len() implies !spec_before(
                keys[placed[b]],
                keys[placed[a]],
            ) by {
                assert(placed[a] == inner[a]);
                if b < inner.len() {
                    assert(placed[b] == inner[b]);
                } else {
                    assert(placed[b] == last);
                    assert(inner.contains(inner[a]));
                    if inner[a] != i {
                        assert(rest.contains(inner[a]));
                        let at = choose|at: int| 0 <= at < rest.len() && rest[at] == inner[a];
                        assert(order[at] == inner[a]);
                    }
                }
            }
            assert forall|x: int| #[trigger] placed.contains(x) <==> order.contains(x) || x == i by {
                if placed.contains(x) {
                    let at = choose|at: int| 0 <= at < placed.len() && placed[at] == x;
                    if at < inner.len() {
                        assert(inner[at] == x);
                        assert(inner.contains(x));
                        if x != i {
                            let w = choose|w: int| 0 <= w < rest.len() && rest[w] == x;
                            assert(order[w] == x);
                        }
                    }
                }
                if order.contains(x) || x == i {
                    if x == i {
                        assert(inner.contains(i));
                        let w = choose|w: int| 0 <= w < inner.len() && inner[w] == i;
                        assert(placed[w] == i);
                    } else {
                        let w = choose|w: int| 0 <= w < order.len() && order[w] == x;
                        if w < rest.len() {
                            assert(rest[w] == x);
                            assert(rest.contains(x));
                            assert(inner.contains(x));
                            let u = choose|u: int| 0 <= u < inner.len() && inner[u] == x;
                            assert(placed[u] == x);
                        } else {
                            assert(placed[inner.len() as int] == last);
                        }
                    }
                }
            }
        } else {
            assert(placed == order.push(i));
            assert forall|k: int| 0 <= k < placed.len() implies 0 <= #[trigger] placed[k]
                < keys.len() by {
                if k < order.len() {
                    assert(placed[k] == order[k]);
                }
            }
            assert forall|a: int, b: int| 0 <= a < b < placed.len() implies !spec_before(
                keys[placed[b]],
                keys[placed[a]],
            ) by {
                assert(placed[a] == order[a]);
                if b < order.len() {
                    assert(placed[b] == order[b]);
                } else {
                    assert(placed[b] == i);
                    if a < order.len() - 1 {
                        lemma_not_after_chains(keys[order[a]], keys[last], keys[i]);
                    }
                }
            }
            assert forall|x: int| #[trigger] placed.contains(x) <==> order.contains(x) || x == i by {
                if placed.contains(x) {
                    let at = choose|at: int| 0 <= at < placed.len() && placed[at] == x;
                    if at < order.len() {
                        assert(order[at] == x);
                    }
                }
                if order.contains(x) {
                    let w = choose|w: int| 0 <= w < order.len() && order[w] == x;
                    assert(placed[w] == x);
                }
                if x == i {
                    assert(placed[order.len() as int] == i);
                }
            }
        }
    }
}

/// The members of a node are written in the order of their keys: the order
/// holds every position once, and no key in it comes after a later one.
pub proof fn lemma_order_is_by_key(keys: Seq<Seq<char>>, n: nat)
    requires
        n <= keys.len(),
    ensures
        spec_in_key_order(spec_order(keys, n), keys),
        spec_order(keys, n).len() == n,
        forall|x: int| #[trigger] spec_order(keys, n).contains(x) <==> 0 <= x < n,
    decreases n,
{
    if n > 0 {
        let before = spec_order(keys, (n - 1) as nat);
        lemma_order_is_by_key(keys, (n - 1) as nat);
        lemma_place_keeps_order(before, keys, n - 1);
        assert forall|x: int| #[trigger] spec_order(keys, n).contains(x) <==> 0 <= x < n by {
            assert(before.contains(x) <==> 0 <= x < n - 1);
        }
    } else {
        assert forall|x: int| #[trigger] spec_order(keys, n).contains(x) <==> 0 <= x < n by {
            if spec_order(keys, n).contains(x) {
                let at = choose|at: int|
                    0 <= at < spec_order(keys, n).len() && spec_order(keys, n)[at] == x;
            }
        }
    }
}

/// A tree as compact JSON text: no spaces, and the members of a node in the
/// order of their keys.
pub open spec fn spec_json(t: Tree) -> Seq<char>
    decreases t, spec_width(t) + spec_length(t) + 1,
{
    match t {
        Tree::Null => "null"@,
        Tree::Bool(b) => if b {
            "true"@
        } else {
            "false"@
        },
        Tree::Number(n) => spec_decimal(n),
        Tree::Text(s) => spec_json_quoted(s),
        Tree::List(items) => "["@ + spec_json_items(t, items.len()) + "]"@,
        Tree::Node(members) => "{"@ + spec_json_members(t, members.len()) + "}"@,
    }
}

/// The first `n` items of the list `t` as JSON text, with commas between.
pub open spec fn spec_json_items(t: Tree, n: nat) -> Seq<char>
    decreases t, n,
{
    match t {
        Tree::List(items) => if 0 < n <= items.len() {
            let head = spec_json_items(t, (n - 1) as nat);
            let item = spec_json(items[n - 1]);
            if n == 1 {
                item
            } else {
                head + ","@ + item
            }
        } else {
            Seq::empty()
        },
        _ => Seq::empty(),
    }
}

/// The first `n` members of the node `t`, taken in the order of their keys,
/// as JSON text, with commas between.
pub open spec fn spec_json_members(t: Tree, n: nat) -> Seq<char>
    decreases t, n,
{
    match t {
        Tree::Node(members) => {
            let order = spec_order(spec_keys(members), members.len());
            if 0 < n <= members.len() && n <= order.len() && 0 <= order[n - 1] < members.len() {
                let head = spec_json_members(t, (n - 1) as nat);
                let at = order[n - 1];
                let member = spec_json_quoted(members[at].0) + ":"@ + spec_json(members[at].1);
                if n == 1 {
                    member
                } else {
                    head + ","@ + member
                }
            } else {
                Seq::empty()
            }
        },
        _ => Seq::empty(),
    }
}

/// Positions as plain values.
pub open spec fn spec_positions(order: Seq<usize>) -> Seq<int> {
    Seq::new(order.len(), |k: int| order[k] as int)
}

/// Places the position `i` among `order`; see [`spec_place`].
fn place(order: &mut Vec<usize>, members: &Vec<(String, Value)>, i: usize)
    requires
        i < members.len(),
        forall|k: int| 0 <= k < old(order)@.len() ==> old(order)@[k] < members.len(),
    ensures
        spec_positions(final(order)@) == spec_place(
            spec_positions(old(order)@),
            spec_keys(spec_members(members@)),
            i as int,
        ),
        final(order)@.len() == old(order)@.len() + 1,
        forall|k: int| 0 <= k < final(order)@.len() ==> final(order)@[k] < members.len(),
    decreases old(order)@.len(),
{
    let ghost keys = spec_keys(spec_members(members@));
    let ghost start = spec_positions(order@);
    if order.len() == 0 {
        order.push(i);
        assert(spec_positions(order@) =~= seq![i as int]);
    } else {
        let last: usize = order[order.len() - 1];
        assert(start.last() == last as int);
        assert(keys[i as int] == members@[i as int].0@);
        assert(keys[last as int] == members@[last as int].0@);
        if before(members[i].0.as_str(), members[last].0.as_str()) {
            order.pop();
            assert(spec_positions(order@) =~= start.drop_last());
            place(order, members, i);
            let ghost placed = spec_positions(order@);
            order.push(last);
            assert(spec_positions(order@) =~= placed.push(last as int));
        } else {
            order.push(i);
            assert(spec_positions(order@) =~= start.push(i as int));
        }
    }
}

/// The positions of `members` in the order of their keys; see
/// [`spec_order`].
fn order_of(members: &Vec<(String, Value)>) -> (order: Vec<usize>)
    ensures
        spec_positions(order@) == spec_order(
            spec_keys(spec_members(members@)),
            members@.len(),
        ),
        order@.len() == members@.len(),
        forall|k: int| 0 <= k < order@.len() ==> order@[k] < members.len(),
{
    let ghost keys = spec_keys(spec_members(members@));
    let mut order: Vec<usize> = Vec::new();
    let mut i: usize = 0;
    assert(spec_positions(order@) =~= spec_order(keys, 0));
    while i < members.len()
        invariant
            i <= members.len(),
            keys == spec_keys(spec_members(members@)),
            keys.len() == members@.len(),
            order@.len() == i,
            spec_positions(order@) == spec_order(keys, i as nat),
            forall|k: int| 0 <= k < order@.len() ==> order@[k] < members.len(),
        decreases members.len() - i,
    {
        place(&mut order, members, i);
        i = i + 1;
    }
    order
}

/// Appends the JSON text of `v` to `out`.
fn write_json(v: &Value, out: &mut String)
    ensures
        final(out)@ == old(out)@ + spec_json(v@),
    decreases v,
{
    let ghost start = out@;
    match v {
        Value::Null => {
            out.append("null");
        },
        Value::Bool(b) => {
            if *b {
                out.append("true");
            } else {
                out.append("false");
            }
        },
        Value::Number(n) => {
            let digits = decimal_i64(*n);
            out.append(digits.as_str());
        },
        Value::String(s) => {
            let quoted = json_quoted(s.as_str());
            out.append(quoted.as_str());
        },
        Value::Array(items) => {
            proof {
                lemma_view_array(*items);
            }
            out.append("[");
            let mut i: usize = 0;
            while i < items.len()
                invariant
                    i <= items.len(),
                    *v == Value::Array(*items),
                    v@ == Tree::List(spec_items(items@)),
                    out@ == start + "["@ + spec_json_items(v@, i as nat),
                decreases items.len() - i,
            {
                let ghost before = out@;
                if i > 0 {
                    out.append(",");
                }
                write_json(&items[i], out);
                i = i + 1;
                assert(out@ =~= start + "["@ + spec_json_items(v@, i as nat));
            }
            out.append("]");
            assert(out@ =~= start + spec_json(v@));
        },
        Value::Object(members) => {
            proof {
                lemma_view_object(*members);
            }
            out.append("{");
            let order = order_of(members);
            let mut i: usize = 0;
            while i < members.len()
                invariant
                    i <= members.len(),
                    *v == Value::Object(*members),
                    v@ == Tree::Node(spec_members(members@)),
                    order@.len() == members@.len(),
                    spec_positions(order@) == spec_order(
                        spec_keys(spec_members(members@)),
                        members@.len(),
                    ),
                    forall|k: int| 0 <= k < order@.len() ==> order@[k] < members.len(),
                    out@ == start + "{"@ + spec_json_members(v@, i as nat),
                decreases members.len() - i,
            {
                if i > 0 {
                    out.append(",");
                }
                let at: usize = order[i];
                assert(spec_positions(order@)[i as int] == at as int);
                assert(spec_members(members@)[at as int] == (
                    members@[at as int].0@,
                    members@[at as int].1@,
                ));
                let key = json_quoted(members[at].0.as_str());
                out.append(key.as_str());
                out.append(":");
                write_json(&members[at].1, out);
                i = i + 1;
                assert(out@ =~= start + "{"@ + spec_json_members(v@, i as nat));
            }
            out.append("}");
            assert(out@ =~= start + spec_json(v@));
        },
    }
}

impl Value {
    /// The value as compact JSON text; see [`spec_json`].
    pub fn to_text(&self) -> (r: String)
        ensures
            r@ == spec_json(self@),
    {
        let mut out = String::new();
        write_json(self, &mut out);
        assert(out@ =~= spec_json(self@));
        out
    }
}

} // verus!
