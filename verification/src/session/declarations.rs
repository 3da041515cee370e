//! Local declarations that must survive a transport reconnect.
//!
//! A session lives longer than any one transport. Subscribers, queryables and interests belong to
//! the session, so a replacement transport must announce the same declarations before normal traffic
//! resumes.
use std::collections::BTreeMap;

use vstd::prelude::*;

use crate::error::CollectionError;
use crate::exts::{NodeId, QoS, QueryableInfo};
use crate::fields::{Reliability, WireExpr};
use crate::keyexpr::KeyExpr;
use crate::msgs::declare::{Declare, DeclareBody, DeclareQueryable, DeclareSubscriber};
use crate::msgs::interest::{Interest, InterestInner, InterestMode, InterestOptions};
use crate::msgs::network::{NetworkBody, NetworkMessage};
use crate::storage::{vec_as_slice, vec_new, vec_push, vec_swap_remove};

verus! {

/// One declaration owned by the local session.
#[derive(Clone, Copy, Debug, PartialEq)]
pub enum Declaration {
    Subscriber { id: u32, key: KeyExpr<'static> },
    Queryable { id: u32, key: KeyExpr<'static> },
    Interest { id: u32, key: KeyExpr<'static>, mode: InterestMode, options: InterestOptions },
}

impl Declaration {
    /// The number the declaration goes by.
    pub open spec fn number(self) -> u32 {
        match self {
            Declaration::Subscriber { id, .. } => id,
            Declaration::Queryable { id, .. } => id,
            Declaration::Interest { id, .. } => id,
        }
    }

    /// What the declaration is about, as the application names it.
    pub open spec fn subject(self) -> KeyExpr<'static> {
        match self {
            Declaration::Subscriber { key, .. } => key,
            Declaration::Queryable { key, .. } => key,
            Declaration::Interest { key, .. } => key,
        }
    }

    /// The message that announces the declaration under the expression `wire_expr`.
    pub open spec fn announcement<'a>(self, wire_expr: WireExpr<'a>) -> NetworkMessage<'a> {
        NetworkMessage {
            reliability: Reliability::Reliable,
            qos: QoS::Declare,
            body: match self {
                Declaration::Subscriber { id, .. } => NetworkBody::Declare(
                    Declare {
                        id: None,
                        qos: QoS::Declare,
                        timestamp: None,
                        nodeid: NodeId { node_id: 0 },
                        body: DeclareBody::DeclareSubscriber(DeclareSubscriber { id, wire_expr }),
                    },
                ),
                Declaration::Queryable { id, .. } => NetworkBody::Declare(
                    Declare {
                        id: None,
                        qos: QoS::Declare,
                        timestamp: None,
                        nodeid: NodeId { node_id: 0 },
                        body: DeclareBody::DeclareQueryable(
                            DeclareQueryable {
                                id,
                                wire_expr,
                                qinfo: QueryableInfo { complete: false, distance: 0 },
                            },
                        ),
                    },
                ),
                Declaration::Interest { id, mode, options, .. } => NetworkBody::Interest(
                    Interest {
                        id,
                        mode,
                        qos: QoS::Declare,
                        inner: InterestInner {
                            options: options.options,
                            wire_expr: Some(wire_expr),
                        },
                    },
                ),
            },
        }
    }

    pub fn id(self) -> (id: u32)
        ensures
            id == self.number(),
    {
        match self {
            Declaration::Subscriber { id, .. } => id,
            Declaration::Queryable { id, .. } => id,
            Declaration::Interest { id, .. } => id,
        }
    }

    pub fn key(self) -> (key: KeyExpr<'static>)
        ensures
            key == self.subject(),
    {
        match self {
            Declaration::Subscriber { key, .. } => key,
            Declaration::Queryable { key, .. } => key,
            Declaration::Interest { key, .. } => key,
        }
    }

    /// The message that announces the declaration under its own key.
    pub fn message(self) -> (message: NetworkMessage<'static>)
        ensures
            exists|expr: WireExpr<'static>| expr.spells(self.subject()@) && message
                == #[trigger] self.announcement(expr),
    {
        self.message_under(WireExpr::literal(self.key()))
    }

    /// The message that announces the declaration under the expression `wire_expr`.
    pub fn message_under<'a>(self, wire_expr: WireExpr<'a>) -> (message: NetworkMessage<'a>)
        ensures
            message == self.announcement(wire_expr),
    {
        let body = match self {
            Declaration::Subscriber { id, .. } => NetworkBody::Declare(
                Declare {
                    id: None,
                    qos: QoS::declare(),
                    timestamp: None,
                    nodeid: NodeId::default(),
                    body: DeclareBody::DeclareSubscriber(DeclareSubscriber { id, wire_expr }),
                },
            ),
            Declaration::Queryable { id, .. } => NetworkBody::Declare(
                Declare {
                    id: None,
                    qos: QoS::declare(),
                    timestamp: None,
                    nodeid: NodeId::default(),
                    body: DeclareBody::DeclareQueryable(
                        DeclareQueryable { id, wire_expr, qinfo: QueryableInfo::default() },
                    ),
                },
            ),
            Declaration::Interest { id, mode, options, .. } => NetworkBody::Interest(
                Interest {
                    id,
                    mode,
                    qos: QoS::declare(),
                    inner: InterestInner { options: options.options, wire_expr: Some(wire_expr) },
                },
            ),
        };
        NetworkMessage { reliability: Reliability::default(), qos: QoS::declare(), body }
    }
}

/// Every declaration stands under its own number.
pub open spec fn numbered(declared: Map<u32, Declaration>) -> bool {
    forall|id: u32| #[trigger]
        declared.contains_key(id) ==> declared[id].number() == id
}

/// `list` names every declaration of the table once.
pub open spec fn lists(list: Seq<Declaration>, declared: Map<u32, Declaration>) -> bool {
    &&& forall|i: int|
        0 <= i < list.len() ==> declared.contains_key(#[trigger] list[i].number())
            && declared[list[i].number()] == list[i]
    &&& forall|id: u32| #[trigger]
        declared.contains_key(id) ==> exists|i: int|
            0 <= i < list.len() && #[trigger] list[i].number() == id
    &&& forall|i: int, j: int|
        0 <= i < j < list.len() ==> #[trigger] list[i].number() != #[trigger] list[j].number()
}

/// A table of `capacity` places, or of as many as it takes, can hold another declaration beside those
/// it holds.
pub open spec fn room(capacity: Option<nat>, declared: Map<u32, Declaration>) -> bool {
    match capacity {
        Some(places) => declared.dom().len() < places,
        None => true,
    }
}

/// The declarations are as many as a table of `capacity` places, or of as many as it takes, can hold.
pub open spec fn fits(capacity: Option<nat>, declared: Map<u32, Declaration>) -> bool {
    &&& declared.dom().finite()
    &&& capacity matches Some(places) ==> declared.dom().len() <= places
}

/// A table that holds nothing has room, unless it has no place at all.
pub proof fn law_an_empty_table_has_room(capacity: Option<nat>)
    ensures
        fits(capacity, Map::<u32, Declaration>::empty()),
        room(capacity, Map::<u32, Declaration>::empty()) <==> capacity != Some(0nat),
{
}

/// Holding a declaration takes one place and exceeds no capacity, and forgetting one that is held
/// gives its place back.
pub proof fn law_a_declaration_takes_one_place(
    capacity: Option<nat>,
    declared: Map<u32, Declaration>,
    declaration: Declaration,
    id: u32,
)
    requires
        fits(capacity, declared),
    ensures
        !declared.contains_key(declaration.number()) ==> declared.insert(
            declaration.number(),
            declaration,
        ).dom().len() == declared.dom().len() + 1,
        !declared.contains_key(declaration.number()) && room(capacity, declared) ==> fits(
            capacity,
            declared.insert(declaration.number(), declaration),
        ),
        fits(capacity, declared.remove(id)),
        declared.contains_key(id) ==> declared.remove(id).dom().len() == declared.dom().len() - 1,
        declared.contains_key(id) ==> room(capacity, declared.remove(id)),
{
}

/// Storage policy for local session declarations.
pub trait ZDeclarations: Sized {
    /// How many declarations a table can hold, if there is a limit.
    spec fn capacity() -> Option<nat>;

    /// The table is in order.
    spec fn wf(&self) -> bool;

    /// The declarations held, by number.
    spec fn declared(&self) -> Map<u32, Declaration>;

    /// A table in order holds no more than its capacity.
    proof fn law_capacity_is_kept(&self)
        requires
            self.wf(),
        ensures
            fits(Self::capacity(), self.declared()),
    ;

    fn empty() -> (table: Self)
        ensures
            table.wf(),
            table.declared() == Map::<u32, Declaration>::empty(),
    ;

    /// Holds `declaration`, unless its number is in use or there is no room.
    fn insert(&mut self, declaration: Declaration) -> (inserted: Result<(), CollectionError>)
        requires
            old(self).wf(),
        ensures
            final(self).wf(),
            inserted == (if old(self).declared().contains_key(declaration.number()) {
                Err::<(), CollectionError>(CollectionError::KeyAlreadyExists)
            } else if !room(Self::capacity(), old(self).declared()) {
                Err::<(), CollectionError>(CollectionError::CollectionIsFull)
            } else {
                Ok::<(), CollectionError>(())
            }),
            final(self).declared() == if inserted is Ok {
                old(self).declared().insert(declaration.number(), declaration)
            } else {
                old(self).declared()
            },
    ;

    /// Forgets the declaration `id`.
    fn remove(&mut self, id: u32)
        requires
            old(self).wf(),
        ensures
            final(self).wf(),
            final(self).declared() == old(self).declared().remove(id),
    ;

    /// The declarations held.
    fn iter(&self) -> (list: Vec<Declaration>)
        requires
            self.wf(),
        ensures
            lists(list@, self.declared()),
    ;
}

/// A bounded declaration table for allocator-free targets.
pub struct FixedCapacityDeclarations<const CAPACITY: usize> {
    declarations: heapless::Vec<Declaration, CAPACITY>,
}

/// The declarations of `list`, by number.
pub open spec fn by_number(list: Seq<Declaration>) -> Map<u32, Declaration> {
    Map::new(
        |id: u32| exists|i: int| 0 <= i < list.len() && #[trigger] list[i].number() == id,
        |id: u32|
            {
                let i = choose|i: int| 0 <= i < list.len() && #[trigger] list[i].number() == id;
                list[i]
            },
    )
}

/// No two declarations of `list` have one number.
pub open spec fn distinct(list: Seq<Declaration>) -> bool {
    forall|i: int, j: int|
        0 <= i < j < list.len() ==> #[trigger] list[i].number() != #[trigger] list[j].number()
}

/// `list` without its element at `at`, whose place the last one takes.
pub open spec fn swap_removed(list: Seq<Declaration>, at: int) -> Seq<Declaration> {
    list.update(at, list.last()).drop_last()
}

proof fn lemma_by_number(list: Seq<Declaration>)
    requires
        distinct(list),
    ensures
        numbered(by_number(list)),
        lists(list, by_number(list)),
{
    let table = by_number(list);
    assert forall|i: int| 0 <= i < list.len() implies table.contains_key(
        #[trigger] list[i].number(),
    ) && table[list[i].number()] == list[i] by {
        let id = list[i].number();
        assert(table.contains_key(id));
        let j = choose|j: int| 0 <= j < list.len() && #[trigger] list[j].number() == id;
        assert(list[j].number() == id);
        assert(i == j);
    }
}

proof fn lemma_by_number_push(list: Seq<Declaration>, declaration: Declaration)
    requires
        distinct(list),
        !by_number(list).contains_key(declaration.number()),
    ensures
        distinct(list.push(declaration)),
        by_number(list.push(declaration)) == by_number(list).insert(
            declaration.number(),
            declaration,
        ),
{
    let longer = list.push(declaration);
    let new = declaration.number();
    assert forall|i: int, j: int| 0 <= i < j < longer.len() implies #[trigger] longer[i].number()
        != #[trigger] longer[j].number() by {
        assert(list[i].number() == longer[i].number());
        if j == list.len() {
            assert(by_number(list).contains_key(list[i].number()));
        }
    }
    lemma_by_number(list);
    lemma_by_number(longer);
    assert forall|id: u32| by_number(longer).contains_key(id) <==> by_number(list).insert(
        new,
        declaration,
    ).contains_key(id) by {
        if by_number(longer).contains_key(id) {
            let i = choose|i: int| 0 <= i < longer.len() && #[trigger] longer[i].number() == id;
            if i < list.len() {
                assert(list[i].number() == id);
            }
        }
        if by_number(list).contains_key(id) {
            let i = choose|i: int| 0 <= i < list.len() && #[trigger] list[i].number() == id;
            assert(longer[i].number() == id);
        }
        assert(longer[list.len() as int].number() == new);
    }
    assert forall|id: u32| by_number(longer).contains_key(id) implies #[trigger] by_number(
        longer,
    )[id] == by_number(list).insert(new, declaration)[id] by {
        let i = choose|i: int| 0 <= i < longer.len() && #[trigger] longer[i].number() == id;
        assert(longer[i].number() == id);
        if i < list.len() {
            assert(list[i].number() == id);
        }
    }
    assert(by_number(longer) == by_number(list).insert(new, declaration));
}

proof fn lemma_by_number_len(list: Seq<Declaration>)
    requires
        distinct(list),
    ensures
        by_number(list).dom().finite(),
        by_number(list).dom().len() == list.len(),
    decreases list.len(),
{
    if list.len() == 0 {
        assert(by_number(list) == Map::<u32, Declaration>::empty());
    } else {
        let shorter = list.drop_last();
        assert(distinct(shorter)) by {
            assert forall|i: int, j: int| 0 <= i < j < shorter.len() implies #[trigger]
            shorter[i].number() != #[trigger] shorter[j].number() by {
                assert(list[i].number() != list[j].number());
            }
        }
        if by_number(shorter).contains_key(list.last().number()) {
            let i = choose|i: int|
                0 <= i < shorter.len() && #[trigger] shorter[i].number() == list.last().number();
            assert(list[i].number() != list[list.len() - 1].number());
        }
        lemma_by_number_push(shorter, list.last());
        assert(shorter.push(list.last()) == list);
        lemma_by_number_len(shorter);
    }
}

proof fn lemma_by_number_swap_removed(list: Seq<Declaration>, at: int)
    requires
        distinct(list),
        0 <= at < list.len(),
    ensures
        distinct(swap_removed(list, at)),
        by_number(swap_removed(list, at)) == by_number(list).remove(list[at].number()),
{
    let shorter = swap_removed(list, at);
    let last = list.len() - 1;
    let gone = list[at].number();
    assert forall|i: int| 0 <= i < shorter.len() implies #[trigger] shorter[i] == if i == at {
        list[last]
    } else {
        list[i]
    } by {}
    assert forall|i: int, j: int| 0 <= i < j < shorter.len() implies #[trigger] shorter[i].number()
        != #[trigger] shorter[j].number() by {
        assert(list[i].number() != list[j].number());
        assert(list[i].number() != list[last].number());
        assert(list[j].number() != list[last].number());
    }
    lemma_by_number(list);
    lemma_by_number(shorter);
    assert forall|id: u32| by_number(shorter).contains_key(id) <==> by_number(list).remove(
        gone,
    ).contains_key(id) by {
        if by_number(shorter).contains_key(id) {
            let i = choose|i: int| 0 <= i < shorter.len() && #[trigger] shorter[i].number() == id;
            let from = if i == at {
                last
            } else {
                i
            };
            assert(list[from].number() == id);
            assert(from != at);
            assert(list[at].number() != list[from].number());
        }
        if by_number(list).remove(gone).contains_key(id) {
            let i = choose|i: int| 0 <= i < list.len() && #[trigger] list[i].number() == id;
            let to = if i == last {
                at
            } else {
                i
            };
            assert(shorter[to].number() == id);
        }
    }
    assert forall|id: u32| by_number(shorter).contains_key(id) implies #[trigger] by_number(
        shorter,
    )[id] == by_number(list).remove(gone)[id] by {
        let i = choose|i: int| 0 <= i < shorter.len() && #[trigger] shorter[i].number() == id;
        let from = if i == at {
            last
        } else {
            i
        };
        assert(shorter[i].number() == id);
        assert(list[from].number() == id);
    }
    assert(by_number(shorter) == by_number(list).remove(gone));
}

impl<const CAPACITY: usize> FixedCapacityDeclarations<CAPACITY> {
    /// The declarations in the order they are listed.
    pub closed spec fn listed(&self) -> Seq<Declaration> {
        crate::storage::elements(self.declarations)
    }

    fn position(&self, id: u32) -> (at: Option<usize>)
        ensures
            match at {
                Some(at) => at < self.listed().len() && self.listed()[at as int].number() == id,
                None => !by_number(self.listed()).contains_key(id),
            },
    {
        let declarations: &[Declaration] = vec_as_slice(&self.declarations);
        let mut at: usize = 0;
        while at < declarations.len()
            invariant
                at <= declarations@.len(),
                declarations@ == self.listed(),
                forall|i: int| 0 <= i < at ==> #[trigger] declarations@[i].number() != id,
            decreases declarations.len() - at,
        {
            if declarations[at].id() == id {
                return Some(at);
            }
            at = at + 1;
        }
        None
    }
}

impl<const CAPACITY: usize> ZDeclarations for FixedCapacityDeclarations<CAPACITY> {
    open spec fn capacity() -> Option<nat> {
        Some(CAPACITY as nat)
    }

    closed spec fn wf(&self) -> bool {
        distinct(self.listed()) && self.listed().len() <= CAPACITY
    }

    open spec fn declared(&self) -> Map<u32, Declaration> {
        by_number(self.listed())
    }

    proof fn law_capacity_is_kept(&self) {
        lemma_by_number_len(self.listed());
    }

    fn empty() -> (table: Self)
        ensures
            table.listed() == Seq::<Declaration>::empty(),
    {
        let table = FixedCapacityDeclarations { declarations: vec_new() };
        assert(table.declared() == Map::<u32, Declaration>::empty());
        table
    }

    fn insert(&mut self, declaration: Declaration) -> (inserted: Result<(), CollectionError>)
        ensures
            final(self).listed() == if inserted is Ok {
                old(self).listed().push(declaration)
            } else {
                old(self).listed()
            },
    {
        if let Some(at) = self.position(declaration.id()) {
            assert(self.listed()[at as int].number() == declaration.number());
            return Err(CollectionError::KeyAlreadyExists);
        }
        proof {
            lemma_by_number_push(self.listed(), declaration);
            lemma_by_number_len(self.listed());
        }
        match vec_push(&mut self.declarations, declaration) {
            Ok(_) => Ok(()),
            Err(_) => Err(CollectionError::CollectionIsFull),
        }
    }

    fn remove(&mut self, id: u32)
        ensures
            old(self).declared().contains_key(id) ==> exists|at: int|
                0 <= at < old(self).listed().len() && #[trigger] old(self).listed()[at].number()
                    == id && final(self).listed() == swap_removed(old(self).listed(), at),
            !old(self).declared().contains_key(id) ==> final(self).listed() == old(self).listed(),
    {
        match self.position(id) {
            Some(at) => {
                proof {
                    lemma_by_number_swap_removed(self.listed(), at as int);
                }
                vec_swap_remove(&mut self.declarations, at);
                assert(self.listed() == swap_removed(old(self).listed(), at as int));
                assert(old(self).listed()[at as int].number() == id);
            },
            None => {
                assert(self.declared() == self.declared().remove(id));
            },
        }
    }

    fn iter(&self) -> (list: Vec<Declaration>)
        ensures
            list@ == self.listed(),
            list@.len() <= CAPACITY,
    {
        proof {
            lemma_by_number(self.listed());
        }
        let declarations: &[Declaration] = vec_as_slice(&self.declarations);
        let mut list: Vec<Declaration> = Vec::new();
        let mut at: usize = 0;
        while at < declarations.len()
            invariant
                at <= declarations@.len(),
                list@ == declarations@.take(at as int),
            decreases declarations.len() - at,
        {
            list.push(declarations[at]);
            at = at + 1;
        }
        assert(list@ == declarations@);
        list
    }
}

/// A declaration table that grows as needed.
pub struct AllocDeclarations {
    declarations: BTreeMap<u32, Declaration>,
}

impl AllocDeclarations {
    /// The declarations held, by number.
    pub closed spec fn table(&self) -> Map<u32, Declaration> {
        self.declarations@
    }
}

impl ZDeclarations for AllocDeclarations {
    open spec fn capacity() -> Option<nat> {
        None
    }

    closed spec fn wf(&self) -> bool {
        numbered(self.declarations@)
    }

    open spec fn declared(&self) -> Map<u32, Declaration> {
        self.table()
    }

    proof fn law_capacity_is_kept(&self) {
        broadcast use vstd::std_specs::btree::group_btree_axioms;

    }

    fn empty() -> (table: Self) {
        AllocDeclarations { declarations: BTreeMap::new() }
    }

    fn insert(&mut self, declaration: Declaration) -> (inserted: Result<(), CollectionError>) {
        broadcast use vstd::std_specs::btree::group_btree_axioms;

        if self.declarations.contains_key(&declaration.id()) {
            return Err(CollectionError::KeyAlreadyExists);
        }
        self.declarations.insert(declaration.id(), declaration);
        Ok(())
    }

    fn remove(&mut self, id: u32) {
        broadcast use vstd::std_specs::btree::group_btree_axioms;

        self.declarations.remove(&id);
    }

    fn iter(&self) -> (list: Vec<Declaration>)
        ensures
            forall|i: int, j: int|
                0 <= i < j < list@.len() ==> #[trigger] list@[i].number()
                    < #[trigger] list@[j].number(),
    {
        broadcast use vstd::std_specs::btree::group_btree_axioms;

        let mut list: Vec<Declaration> = Vec::new();
        let entries = self.declarations.iter();
        let ghost pairs = vstd::std_specs::iter::IteratorSpec::remaining(&entries);
        for entry in it: entries
            invariant
                it.seq() == pairs,
                list@.len() == it.index(),
                forall|i: int| 0 <= i < list@.len() ==> list@[i] == *(#[trigger] pairs[i]).1,
        {
            list.push(*entry.1);
        }
        proof {
            let table = self.declarations@;
            let keys = pairs.map_values(|kv: (&u32, &Declaration)| *kv.0);
            assert(vstd::std_specs::btree::increasing_seq(keys));
            assert forall|i: int| 0 <= i < list@.len() implies #[trigger] list@[i].number()
                == keys[i] && table.contains_key(keys[i]) && table[keys[i]] == list@[i] by {
                assert(table.contains_key(*pairs[i].0));
                assert(list@[i] == *pairs[i].1);
            }
            assert forall|i: int, j: int| 0 <= i < j < list@.len() implies #[trigger]
            list@[i].number() < #[trigger] list@[j].number() by {
                assert(vstd::std_specs::cmp::OrdSpec::cmp_spec(&keys[i], &keys[j]) is Less);
            }
            assert forall|id: u32| #[trigger] table.contains_key(id) implies exists|i: int|
                0 <= i < list@.len() && #[trigger] list@[i].number() == id by {
                assert(pairs.contains((&id, &table[id])));
                let i = choose|i: int| 0 <= i < pairs.len() && pairs[i] == (&id, &table[id]);
                assert(list@[i].number() == id);
            }
        }
        list
    }
}

/// An announcement says what is declared: a subscriber, a queryable or an interest, under the number
/// of the declaration and the expression it is given, reliably and with the priority of declarations.
/// It answers no interest of the peer. A queryable claims nothing beyond answering, and an interest
/// asks for what it was declared with.
pub proof fn law_an_announcement_says_what_is_declared<'a>(
    declaration: Declaration,
    expr: WireExpr<'a>,
)
    ensures
        ({
            let message = declaration.announcement(expr);
            &&& message.reliability == Reliability::Reliable
            &&& message.qos == QoS::Declare
            &&& message.body matches NetworkBody::Declare(declare) ==> {
                &&& declare.id is None
                &&& declare.qos == QoS::Declare
                &&& declare.timestamp is None
                &&& declare.nodeid.node_id == 0
            }
            &&& declaration is Subscriber ==> {
                &&& message.body matches NetworkBody::Declare(declare)
                &&& declare.body matches DeclareBody::DeclareSubscriber(subscriber)
                &&& subscriber.id == declaration->Subscriber_id
                &&& subscriber.wire_expr == expr
            }
            &&& declaration is Queryable ==> {
                &&& message.body matches NetworkBody::Declare(declare)
                &&& declare.body matches DeclareBody::DeclareQueryable(queryable)
                &&& queryable.id == declaration->Queryable_id
                &&& queryable.wire_expr == expr
                &&& !queryable.qinfo.complete
                &&& queryable.qinfo.distance == 0
            }
            &&& declaration is Interest ==> {
                &&& message.body matches NetworkBody::Interest(interest)
                &&& interest.id == declaration->Interest_id
                &&& interest.mode == declaration->mode
                &&& interest.qos == QoS::Declare
                &&& interest.inner.options == declaration->options.options
                &&& interest.inner.wire_expr == Some(expr)
            }
        }),
{
}

/// Every declaration goes by its own number and is about its own key, whatever its kind.
pub proof fn law_a_declaration_has_its_number_and_key(
    id: u32,
    key: KeyExpr<'static>,
    mode: InterestMode,
    options: InterestOptions,
)
    ensures
        (Declaration::Subscriber { id, key }).number() == id,
        (Declaration::Queryable { id, key }).number() == id,
        (Declaration::Interest { id, key, mode, options }).number() == id,
        (Declaration::Subscriber { id, key }).subject() == key,
        (Declaration::Queryable { id, key }).subject() == key,
        (Declaration::Interest { id, key, mode, options }).subject() == key,
{
}

/// Two declarations that are announced alike are of one kind, with one number, and interests ask for
/// the same: a peer can tell declarations apart.
pub proof fn law_announcements_tell_declarations_apart<'a>(
    first: Declaration,
    second: Declaration,
    expr: WireExpr<'a>,
)
    requires
        first.announcement(expr) == second.announcement(expr),
    ensures
        first.number() == second.number(),
        first is Subscriber <==> second is Subscriber,
        first is Queryable <==> second is Queryable,
        first is Interest && second is Interest ==> first->mode == second->mode
            && first->options.options == second->options.options,
{
}

/// A list names the declarations of a table if and only if it holds each of them once and nothing
/// else: it is as long as the table is large, and what it holds the table holds.
pub proof fn law_a_list_of_declarations_is_exact(
    list: Seq<Declaration>,
    declared: Map<u32, Declaration>,
    at: int,
    id: u32,
)
    requires
        lists(list, declared),
    ensures
        0 <= at < list.len() ==> declared.contains_key(list[at].number())
            && declared[list[at].number()] == list[at],
        declared.contains_key(id) ==> list.contains(declared[id]),
        list.no_duplicates(),
        numbered(declared),
        declared.dom().finite() && declared.dom().len() == list.len(),
{
    if declared.contains_key(id) {
        let i = choose|i: int| 0 <= i < list.len() && #[trigger] list[i].number() == id;
        assert(list[i] == declared[id]);
    }
    assert forall|i: int, j: int| 0 <= i < list.len() && 0 <= j < list.len() && i
        != j implies list[i] != list[j] by {
        if i < j {
            assert(list[i].number() != list[j].number());
        } else {
            assert(list[j].number() != list[i].number());
        }
    }
    assert forall|other: u32| #[trigger] declared.contains_key(other) implies declared[
        other
    ].number() == other by {
        let i = choose|i: int| 0 <= i < list.len() && #[trigger] list[i].number() == other;
        assert(list[i] == declared[other]);
    }
    lemma_by_number(list);
    lemma_by_number_len(list);
    assert(by_number(list).dom() == declared.dom()) by {
        assert forall|other: u32| by_number(list).dom().contains(other)
            <==> declared.dom().contains(other) by {
            if by_number(list).contains_key(other) {
                let i = choose|i: int| 0 <= i < list.len() && #[trigger] list[i].number() == other;
                assert(declared.contains_key(list[i].number()));
            }
            if declared.contains_key(other) {
                let i = choose|i: int| 0 <= i < list.len() && #[trigger] list[i].number() == other;
                assert(list[i].number() == other);
            }
        }
    }
}

/// A table of so many places has room exactly while fewer are taken, and one without a limit always.
pub proof fn law_room_is_a_free_place(places: nat, declared: Map<u32, Declaration>)
    ensures
        room(Some(places), declared) <==> declared.dom().len() < places,
        room(None, declared),
        fits(Some(places), declared) <==> declared.dom().finite() && declared.dom().len() <= places,
        fits(None, declared) <==> declared.dom().finite(),
{
}

/// A bounded table has as many places as its type says, and the other one no limit.
pub proof fn law_how_many_declarations_a_table_holds<const CAPACITY: usize>()
    ensures
        FixedCapacityDeclarations::<CAPACITY>::capacity() == Some(CAPACITY as nat),
        AllocDeclarations::capacity() is None,
{
}

} // verus!
