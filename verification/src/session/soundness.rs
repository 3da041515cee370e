//! What holds of the memory of a session, whatever it does.
use vstd::prelude::*;

use crate::msgs::network::NetworkBody;
use crate::session::declarations::Declaration;
use crate::session::declaring::{Draft, Event, Phase};
use crate::session::managed::Slot;
use crate::session::reconnect::{ReconnectEvent, ReconnectPhase};
use crate::session::StateView;

verus! {

/// A table of what the peer refers to by number: bounded, without a number zero, and with nothing
/// longer than it can hold.
pub open spec fn table_is_sound(table: Map<u32, Seq<char>>, capacity: nat) -> bool {
    &&& table.dom().finite()
    &&& table.dom().len() <= capacity
    &&& !table.contains_key(0)
    &&& forall|id: u32| #[trigger]
        table.contains_key(id) ==> crate::text::utf8_len(table[id])
            <= crate::session::keyexprs::MAX_MAPPED_KEYEXPR
}

/// Both tables of what the peer refers to by number are sound, and tokens keep key expressions alive.
pub open spec fn tables_are_sound(memory: StateView) -> bool {
    &&& table_is_sound(memory.keyexprs, crate::session::keyexprs::MAX_KEYEXPR_MAPPINGS as nat)
    &&& table_is_sound(memory.tokens, crate::session::keyexprs::MAX_LIVELINESS_TOKENS as nat)
    &&& crate::session::exchange::tokens_are_keyexprs(memory.tokens)
}

/// The memory of a session is sound: its tables are, and its declarations stand under their own
/// numbers, all of which have been given out.
pub open spec fn sound(memory: StateView) -> bool {
    &&& tables_are_sound(memory)
    &&& crate::session::declarations::numbered(memory.declared)
    &&& crate::session::declaring::fresh(memory)
}

/// A new session is sound.
pub proof fn law_a_new_session_is_sound()
    ensures
        sound(StateView::blank()),
{
}

/// Recording what a sound table has room for keeps it sound.
pub proof fn lemma_table_update(table: Map<u32, Seq<char>>, id: u32, key: Seq<char>, capacity: nat)
    requires
        table_is_sound(table, capacity),
    ensures
        id != 0 && crate::text::utf8_len(key) <= crate::session::keyexprs::MAX_MAPPED_KEYEXPR
            && crate::session::keyexprs::has_room(table, id, capacity) ==> table_is_sound(
            table.insert(id, key),
            capacity,
        ),
{
    if crate::session::keyexprs::has_room(table, id, capacity) {
        crate::session::keyexprs::law_tables_stay_within_their_capacity(table, id, key, capacity);
    }
}

/// Forgetting a number keeps a sound table sound.
pub proof fn lemma_table_removal(table: Map<u32, Seq<char>>, id: u32, capacity: nat)
    requires
        table_is_sound(table, capacity),
    ensures
        table_is_sound(table.remove(id), capacity),
{
    assert(table.remove(id).dom() == table.dom().remove(id));
}

/// A session that receives stays sound, whatever it receives.
pub proof fn law_receiving_keeps_a_session_sound<'a>(
    namespace: Option<Seq<char>>,
    memory: StateView,
    body: NetworkBody<'a>,
)
    requires
        sound(memory),
    ensures
        sound(crate::session::run::received(namespace, memory, body).memory),
{
    lemma_receiving_keeps_tables_sound(namespace, memory, body);
}

pub(crate) proof fn lemma_receiving_keeps_tables_sound<'a>(
    namespace: Option<Seq<char>>,
    memory: StateView,
    body: NetworkBody<'a>,
)
    requires
        tables_are_sound(memory),
    ensures
        tables_are_sound(crate::session::run::received(namespace, memory, body).memory),
{
    let mappings = crate::session::keyexprs::MAX_KEYEXPR_MAPPINGS as nat;
    let tokens = crate::session::keyexprs::MAX_LIVELINESS_TOKENS as nat;
    if let NetworkBody::Declare(declare) = body {
        match declare.body {
            crate::msgs::declare::DeclareBody::DeclareKeyExpr(mapping) => {
                if let Some(key) = crate::session::keyexprs::resolved(
                    memory.keyexprs,
                    mapping.wire_expr.scope,
                    mapping.wire_expr.suffix@,
                ) {
                    if crate::session::keyexprs::accepts_mapping(memory.keyexprs, mapping.id, key) {
                        lemma_table_update(memory.keyexprs, mapping.id as u32, key, mappings);
                    }
                }
            },
            crate::msgs::declare::DeclareBody::UndeclareKeyExpr(mapping) => {
                lemma_table_removal(memory.keyexprs, mapping.id as u32, mappings);
            },
            crate::msgs::declare::DeclareBody::DeclareToken(token) => {
                if let Ok(Some(key)) = crate::session::named_key(
                    namespace,
                    memory.keyexprs,
                    token.wire_expr,
                ) {
                    if crate::session::keyexprs::accepts_token(memory.tokens, token.id, key) {
                        lemma_table_update(memory.tokens, token.id, key, tokens);
                    }
                }
            },
            crate::msgs::declare::DeclareBody::UndeclareToken(token) => {
                lemma_table_removal(memory.tokens, token.id, tokens);
            },
            _ => {},
        }
    }
}

/// A session that starts a declaration stays sound, whether that succeeds or not.
pub proof fn law_starting_a_declaration_keeps_a_session_sound(
    draft: Draft,
    namespace: Option<Seq<char>>,
    closed: bool,
    memory: StateView,
    has_room: bool,
)
    requires
        sound(memory),
        memory.next < u32::MAX,
    ensures
        sound(
            crate::session::declaring::started(draft, namespace, closed, memory, has_room).1,
        ),
{
}

/// A session stays sound through every step of a declaration that it has started.
pub proof fn law_a_declaration_keeps_a_session_sound(
    declaration: Declaration,
    phase: Phase,
    event: Event,
    memory: StateView,
    has_room: bool,
)
    requires
        sound(memory),
        declaration.number() < memory.next,
    ensures
        sound(
            crate::session::declaring::step(declaration, phase, event, memory, has_room).memory,
        ),
{
}

/// A session that withdraws a declaration stays sound, and so does one that replaces its transport.
pub proof fn law_withdrawing_and_reconnecting_keep_a_session_sound<T>(
    memory: StateView,
    id: u32,
    phase: ReconnectPhase,
    event: ReconnectEvent<T>,
    slot: Slot<T>,
)
    requires
        sound(memory),
    ensures
        sound(crate::session::declaring::without_declaration(memory, id)),
        sound(crate::session::reconnect::reconnect_step(phase, event, slot, memory).memory),
{
}

} // verus!
