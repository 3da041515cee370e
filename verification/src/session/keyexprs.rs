//! Tables of what a peer refers to by number: key expressions and liveliness tokens.
//!
//! A peer may declare a long key once and refer to it by a numeric scope afterwards, with only the
//! part that differs in the suffix. Without the table such a reference cannot be read.
//!
//! Both tables have a fixed capacity. When one is full, a new entry is refused rather than an old
//! one evicted: a number that is still in use must not become unreadable in silence.
use vstd::prelude::*;
use vstd::string::StrSliceExecFns;

use crate::error::KeyexprError;
use crate::fields::WireExpr;
use crate::keyexpr::KeyExpr;
use crate::storage::{
    id_map_get, id_map_insert, id_map_len, id_map_new, id_map_remove, string_as_str, string_clear,
    string_from, string_push_str, IdMap,
};
use crate::text::same_text;

verus! {

/// How many mappings one session remembers.
pub const MAX_KEYEXPR_MAPPINGS: usize = 16;

/// The longest key expression a mapping can hold, in bytes.
pub const MAX_MAPPED_KEYEXPR: usize = 256;

/// How many live tokens one session remembers.
pub const MAX_LIVELINESS_TOKENS: usize = 16;

/// The longest key that one operation of a session can carry, in bytes.
pub const MAX_SESSION_KEYEXPR: usize = 512;

/// What comes between a mapped expression and a suffix: a separator, unless the suffix is empty or
/// one of the two brings it.
pub open spec fn bridge(prefix: Seq<char>, suffix: Seq<char>) -> Seq<char> {
    if suffix.len() == 0 || suffix[0] == '/' || (prefix.len() > 0 && prefix.last() == '/') {
        seq![]
    } else {
        seq!['/']
    }
}

/// What of a suffix follows a mapped expression: all of it, but for a separator that the expression
/// brings already.
pub open spec fn tail(prefix: Seq<char>, suffix: Seq<char>) -> Seq<char> {
    if prefix.len() > 0 && prefix.last() == '/' && suffix.len() > 0 && suffix[0] == '/' {
        suffix.skip(1)
    } else {
        suffix
    }
}

/// A mapped expression completed by a suffix, with one separator between the two.
pub open spec fn completed(prefix: Seq<char>, suffix: Seq<char>) -> Seq<char> {
    prefix + bridge(prefix, suffix) + tail(prefix, suffix)
}

/// The key that a wire expression names, given the mappings, whatever its length.
pub open spec fn expanded(
    mappings: Map<u32, Seq<char>>,
    scope: u16,
    suffix: Seq<char>,
) -> Option<Seq<char>> {
    if scope == 0 {
        Some(suffix)
    } else if mappings.contains_key(scope as u32) {
        Some(completed(mappings[scope as u32], suffix))
    } else {
        None
    }
}

/// The key that a wire expression names, given the mappings, if it fits the session's buffer.
pub open spec fn resolved(
    mappings: Map<u32, Seq<char>>,
    scope: u16,
    suffix: Seq<char>,
) -> Option<Seq<char>> {
    match expanded(mappings, scope, suffix) {
        Some(key) if crate::text::utf8_len(key) <= MAX_SESSION_KEYEXPR => Some(key),
        _ => None,
    }
}

/// What resolving a wire expression leaves in the buffer: the key, or as much of it as comes before
/// the suffix that does not fit.
pub open spec fn written(
    mappings: Map<u32, Seq<char>>,
    scope: u16,
    suffix: Seq<char>,
) -> Seq<char> {
    match resolved(mappings, scope, suffix) {
        Some(key) => key,
        None => if scope != 0 && mappings.contains_key(scope as u32) {
            mappings[scope as u32] + bridge(mappings[scope as u32], suffix)
        } else {
            seq![]
        },
    }
}

/// A table with room for another entry, or with an entry to replace, under `id`.
pub open spec fn has_room(table: Map<u32, Seq<char>>, id: u32, capacity: nat) -> bool {
    table.contains_key(id) || table.dom().len() < capacity
}

/// The mapping table takes `key` under `id`.
pub open spec fn accepts_mapping(table: Map<u32, Seq<char>>, id: u16, key: Seq<char>) -> bool {
    &&& id != 0
    &&& crate::text::utf8_len(key) <= MAX_MAPPED_KEYEXPR
    &&& has_room(table, id as u32, MAX_KEYEXPR_MAPPINGS as nat)
}

/// Numeric key-expression ids to the expressions they stand for.
pub struct KeyExprTable {
    map: IdMap,
}

impl View for KeyExprTable {
    type V = Map<u32, Seq<char>>;

    closed spec fn view(&self) -> Map<u32, Seq<char>> {
        crate::storage::entries(self.map)
    }
}

impl KeyExprTable {
    #[verifier::type_invariant]
    spec fn sound(self) -> bool {
        crate::session::soundness::table_is_sound(crate::storage::entries(self.map), MAX_KEYEXPR_MAPPINGS as nat)
    }

    pub fn new() -> (table: Self)
        ensures
            table@ == Map::<u32, Seq<char>>::empty(),
    {
        KeyExprTable { map: id_map_new() }
    }

    /// Records that `id` stands for `ke`.
    ///
    /// Returns `false`, with nothing recorded, when the table is full, the expression does not fit,
    /// or the id is zero: a zero scope says that an expression refers to nothing.
    pub fn declare(&mut self, id: u16, ke: &str) -> (recorded: bool)
        ensures
            recorded <==> accepts_mapping(old(self)@, id, ke@),
            final(self)@ == if recorded {
                old(self)@.insert(id as u32, ke@)
            } else {
                old(self)@
            },
            crate::session::soundness::table_is_sound(final(self)@, MAX_KEYEXPR_MAPPINGS as nat),
    {
        proof {
            use_type_invariant(&*self);
            crate::session::soundness::lemma_table_update(
                self@,
                id as u32,
                ke@,
                MAX_KEYEXPR_MAPPINGS as nat,
            );
        }
        if id == 0 {
            return false;
        }
        match string_from::<256>(ke) {
            Ok(owned) => id_map_insert(&mut self.map, id as u32, owned).is_ok(),
            Err(_) => false,
        }
    }

    /// Forgets `id`.
    pub fn undeclare(&mut self, id: u16)
        ensures
            final(self)@ == old(self)@.remove(id as u32),
            crate::session::soundness::table_is_sound(final(self)@, MAX_KEYEXPR_MAPPINGS as nat),
    {
        proof {
            use_type_invariant(&*self);
            crate::session::soundness::lemma_table_removal(
                self@,
                id as u32,
                MAX_KEYEXPR_MAPPINGS as nat,
            );
        }
        id_map_remove(&mut self.map, id as u32);
    }

    /// Writes the key expression that `wire_expr` names into `out`.
    ///
    /// With a zero scope that is the suffix. Otherwise it is the mapped expression, completed by the
    /// suffix with one separator between the two. There is none when the scope names no mapping of this table, or the expression is
    /// longer than `out`.
    pub fn resolve<'b>(
        &self,
        wire_expr: &WireExpr<'_>,
        out: &'b mut heapless::String<512>,
    ) -> (key: Option<&'b str>)
        ensures
            match resolved(self@, wire_expr.scope, wire_expr.suffix@) {
                Some(expected) => key matches Some(key) && key@ == expected,
                None => key is None,
            },
            crate::storage::text(*final(out)) == written(
                self@,
                wire_expr.scope,
                wire_expr.suffix@,
            ),
    {
        string_clear(out);
        proof {
            let suffix = wire_expr.suffix@;
            crate::text::lemma_utf8_len_ascii(Seq::<char>::empty());
            assert(Seq::<char>::empty() + suffix == suffix);
        }
        if wire_expr.scope == 0 {
            if string_push_str(out, wire_expr.suffix).is_err() {
                return None;
            }
            return Some(string_as_str(out));
        }
        let prefix: &str = match id_map_get(&self.map, wire_expr.scope as u32) {
            Some(prefix) => string_as_str(prefix),
            None => return None,
        };
        proof {
            let suffix = wire_expr.suffix@;
            assert(Seq::<char>::empty() + prefix@ == prefix@);
            assert(prefix@ + seq![] == prefix@);
            assert(suffix.len() == 0 ==> prefix@ + seq![] + suffix == prefix@);
            crate::text::lemma_utf8_len_concat(prefix@, tail(prefix@, suffix));
            crate::text::lemma_utf8_len_concat(prefix@, seq!['/']);
            crate::text::lemma_utf8_len_concat(prefix@ + seq!['/'], suffix);
            crate::text::lemma_utf8_len_ascii(seq!['/']);
            reveal_strlit("/");
            assert("/"@ == seq!['/']);
        }
        if string_push_str(out, prefix).is_err() {
            return None;
        }
        let suffix_len: usize = wire_expr.suffix.unicode_len();
        if suffix_len > 0 {
            let prefix_len: usize = prefix.unicode_len();
            let ends: bool = prefix_len > 0 && prefix.get_char(prefix_len - 1) == '/';
            let starts: bool = wire_expr.suffix.get_char(0) == '/';
            if !ends && !starts && string_push_str(out, "/").is_err() {
                return None;
            }
            let rest: &str = if ends && starts {
                wire_expr.suffix.substring_char(1, suffix_len)
            } else {
                wire_expr.suffix
            };
            assert(rest@ == tail(prefix@, wire_expr.suffix@));
            if string_push_str(out, rest).is_err() {
                return None;
            }
        }
        Some(string_as_str(out))
    }

    /// Resolves a wire expression and checks that it names a key expression.
    pub fn resolve_keyexpr<'b>(
        &self,
        wire_expr: &WireExpr<'_>,
        out: &'b mut heapless::String<512>,
    ) -> (key: Result<Option<KeyExpr<'b>>, KeyexprError>)
        ensures
            match resolved(self@, wire_expr.scope, wire_expr.suffix@) {
                Some(expected) => if crate::keyexpr::is_keyexpr(expected) {
                    key matches Ok(Some(ke)) && ke@ == expected
                } else {
                    key == Err::<Option<KeyExpr<'b>>, KeyexprError>(KeyexprError::NotCanonical)
                },
                None => key matches Ok(None),
            },
            crate::storage::text(*final(out)) == written(
                self@,
                wire_expr.scope,
                wire_expr.suffix@,
            ),
    {
        match self.resolve(wire_expr, out) {
            Some(key) => match KeyExpr::new(key) {
                Ok(ke) => Ok(Some(ke)),
                Err(error) => Err(error),
            },
            None => Ok(None),
        }
    }

    /// How many mappings are held.
    pub fn len(&self) -> (len: usize)
        ensures
            len == self@.dom().len(),
            len <= MAX_KEYEXPR_MAPPINGS,
            crate::session::soundness::table_is_sound(self@, MAX_KEYEXPR_MAPPINGS as nat),
    {
        proof {
            use_type_invariant(self);
        }
        id_map_len(&self.map)
    }

    pub fn is_empty(&self) -> (empty: bool)
        ensures
            empty <==> self@.dom().len() == 0,
    {
        self.len() == 0
    }
}

/// Token ids to the expressions they keep alive.
///
/// A token may be undeclared by its id alone. Remembering the declaration is the only way to turn
/// that id back into the deletion that subscribers expect.
pub struct TokenTable {
    map: IdMap,
}

impl View for TokenTable {
    type V = Map<u32, Seq<char>>;

    closed spec fn view(&self) -> Map<u32, Seq<char>> {
        crate::storage::entries(self.map)
    }
}

/// The token table takes `key` under `id`.
pub open spec fn accepts_token(table: Map<u32, Seq<char>>, id: u32, key: Seq<char>) -> bool {
    &&& id != 0
    &&& !table.contains_key(id)
    &&& crate::text::utf8_len(key) <= MAX_MAPPED_KEYEXPR
    &&& table.dom().len() < MAX_LIVELINESS_TOKENS
}

impl TokenTable {
    #[verifier::type_invariant]
    spec fn sound(self) -> bool {
        crate::session::soundness::table_is_sound(crate::storage::entries(self.map), MAX_LIVELINESS_TOKENS as nat)
    }

    pub fn new() -> (table: Self)
        ensures
            table@ == Map::<u32, Seq<char>>::empty(),
    {
        TokenTable { map: id_map_new() }
    }

    /// Remembers that the token `id` keeps `keyexpr` alive.
    ///
    /// Returns `false`, with nothing recorded, when the id is zero or in use, the expression does not
    /// fit, or the table is full.
    pub fn declare(&mut self, id: u32, keyexpr: &str) -> (recorded: bool)
        ensures
            recorded <==> accepts_token(old(self)@, id, keyexpr@),
            final(self)@ == if recorded {
                old(self)@.insert(id, keyexpr@)
            } else {
                old(self)@
            },
            crate::session::soundness::table_is_sound(final(self)@, MAX_LIVELINESS_TOKENS as nat),
    {
        proof {
            use_type_invariant(&*self);
            crate::session::soundness::lemma_table_update(
                self@,
                id,
                keyexpr@,
                MAX_LIVELINESS_TOKENS as nat,
            );
        }
        if id == 0 || id_map_get(&self.map, id).is_some() {
            return false;
        }
        match string_from::<256>(keyexpr) {
            Ok(owned) => id_map_insert(&mut self.map, id, owned).is_ok(),
            Err(_) => false,
        }
    }

    /// Forgets the token `id` and returns the expression it kept alive.
    pub fn undeclare(&mut self, id: u32) -> (removed: Option<heapless::String<256>>)
        ensures
            removed is Some <==> old(self)@.contains_key(id),
            removed matches Some(removed) ==> crate::storage::text(removed) == old(self)@[id],
            final(self)@ == old(self)@.remove(id),
            crate::session::soundness::table_is_sound(final(self)@, MAX_LIVELINESS_TOKENS as nat),
    {
        proof {
            use_type_invariant(&*self);
            crate::session::soundness::lemma_table_removal(
                self@,
                id,
                MAX_LIVELINESS_TOKENS as nat,
            );
        }
        id_map_remove(&mut self.map, id)
    }

    /// Whether the token `id` is known and keeps `key` alive.
    pub fn matches(&self, id: u32, key: &str) -> (same: bool)
        ensures
            same <==> self@.contains_key(id) && self@[id] == key@,
            crate::session::soundness::table_is_sound(self@, MAX_LIVELINESS_TOKENS as nat),
    {
        proof {
            use_type_invariant(self);
        }
        match id_map_get(&self.map, id) {
            Some(held) => same_text(string_as_str(held), key),
            None => false,
        }
    }
}

/// Two separators stand next to each other.
pub open spec fn doubled(key: Seq<char>) -> bool {
    exists|i: int| 0 <= i < key.len() - 1 && #[trigger] key[i] == '/' && key[i + 1] == '/'
}

/// Completing a mapped expression leaves one separator between it and the suffix, and doubles none.
pub proof fn law_joining_never_doubles_the_separator(prefix: Seq<char>, suffix: Seq<char>)
    requires
        !doubled(prefix),
        !doubled(suffix),
    ensures
        !doubled(completed(prefix, suffix)),
        prefix.len() > 0 && suffix.len() > 0 ==> prefix.last() == '/' || completed(
            prefix,
            suffix,
        )[prefix.len() as int] == '/',
{
    let key = completed(prefix, suffix);
    let cut = prefix.len() as int;
    let rest = tail(prefix, suffix);
    let start = cut + bridge(prefix, suffix).len();
    let skipped = suffix.len() - rest.len();
    assert forall|i: int| 0 <= i < key.len() - 1 && #[trigger] key[i] == '/' implies key[i + 1]
        != '/' by {
        if i + 1 < cut {
            assert(prefix[i] == key[i] && prefix[i + 1] == key[i + 1]);
        } else if i >= start {
            let at = i - start + skipped;
            assert(rest[i - start] == suffix[at] && rest[i - start + 1] == suffix[at + 1]);
            assert(rest[i - start] == key[i] && rest[i - start + 1] == key[i + 1]);
        } else if rest.len() < suffix.len() {
            assert(suffix[0] == '/' && suffix[1] == key[i + 1]);
        }
    }
}

/// A mapping that was recorded is what a reference to it resolves to, alone or completed by a
/// suffix, and a mapping that was forgotten resolves to nothing.
pub proof fn law_references_resolve_to_their_mapping(
    table: Map<u32, Seq<char>>,
    id: u16,
    key: Seq<char>,
    suffix: Seq<char>,
)
    requires
        id != 0,
        crate::text::utf8_len(key) <= MAX_MAPPED_KEYEXPR,
    ensures
        resolved(table.insert(id as u32, key), id, seq![]) == Some(key),
        crate::text::utf8_len(completed(key, suffix)) <= MAX_SESSION_KEYEXPR ==> resolved(
            table.insert(id as u32, key),
            id,
            suffix,
        ) == Some(completed(key, suffix)),
        resolved(table.remove(id as u32), id, suffix) is None,
{
    assert(completed(key, seq![]) == key);
}

/// Recording and forgetting one id leaves what every other id stands for as it is.
pub proof fn law_other_references_are_undisturbed(
    table: Map<u32, Seq<char>>,
    id: u16,
    key: Seq<char>,
    other: u16,
    suffix: Seq<char>,
)
    requires
        other != id,
    ensures
        resolved(table.insert(id as u32, key), other, suffix) == resolved(table, other, suffix),
        resolved(table.remove(id as u32), other, suffix) == resolved(table, other, suffix),
{
}

/// A table that takes an entry only when it has room never outgrows its capacity.
pub proof fn law_tables_stay_within_their_capacity(
    table: Map<u32, Seq<char>>,
    id: u32,
    key: Seq<char>,
    capacity: nat,
)
    requires
        table.dom().finite(),
        table.dom().len() <= capacity,
        has_room(table, id, capacity),
    ensures
        table.insert(id, key).dom().finite(),
        table.insert(id, key).dom().len() <= capacity,
        table.remove(id).dom().finite(),
        table.remove(id).dom().len() <= capacity,
{
    assert(table.insert(id, key).dom() == table.dom().insert(id));
    assert(table.remove(id).dom() == table.dom().remove(id));
}

/// What the two tables take: a mapping under a number other than zero, of no more than 256 bytes, if
/// its number is known or fewer than sixteen are held; and a token in the same way, but never under a
/// number that is known.
pub proof fn law_tables_take_what_fits(
    table: Map<u32, Seq<char>>,
    mapping: u16,
    token: u32,
    key: Seq<char>,
)
    ensures
        accepts_mapping(table, mapping, key) <==> mapping != 0 && vstd::utf8::encode_utf8(key).len()
            <= 256 && (table.contains_key(mapping as u32) || table.dom().len() < 16),
        accepts_token(table, token, key) <==> token != 0 && vstd::utf8::encode_utf8(key).len()
            <= 256 && !table.contains_key(token) && table.dom().len() < 16,
{
}

/// What a wire expression names: its suffix if it refers to nothing, and otherwise the mapping
/// followed by the suffix, with the separator between them written once whichever of the two brings
/// it, or neither, or both. It names nothing if its mapping is unknown or the whole takes more than
/// 512 bytes. Then the buffer holds no more than a part of it.
pub proof fn law_an_expression_names_its_mapping_and_suffix(
    mappings: Map<u32, Seq<char>>,
    scope: u16,
    suffix: Seq<char>,
)
    ensures
        ({
            let prefix = mappings[scope as u32];
            let ends = prefix.len() > 0 && prefix.last() == '/';
            let starts = suffix.len() > 0 && suffix[0] == '/';
            let whole = if scope == 0 {
                suffix
            } else if suffix.len() == 0 {
                prefix
            } else if ends && starts {
                prefix + suffix.skip(1)
            } else if ends || starts {
                prefix + suffix
            } else {
                prefix + seq!['/'] + suffix
            };
            let known = scope == 0 || mappings.contains_key(scope as u32);
            let short = vstd::utf8::encode_utf8(whole).len() <= 512;
            &&& known && short ==> resolved(mappings, scope, suffix) == Some(whole)
            &&& !(known && short) ==> resolved(mappings, scope, suffix) is None
            &&& known && short ==> written(mappings, scope, suffix) == whole
            &&& !(known && short) ==> written(mappings, scope, suffix).is_prefix_of(whole)
        }),
{
    let prefix = mappings[scope as u32];
    if scope != 0 && mappings.contains_key(scope as u32) {
        assert(prefix + seq![] == prefix);
        if suffix.len() == 0 {
            assert(completed(prefix, suffix) == prefix);
        } else if prefix.len() > 0 && prefix.last() == '/' && suffix[0] == '/' {
            assert(completed(prefix, suffix) == prefix + suffix.skip(1));
        } else if (prefix.len() > 0 && prefix.last() == '/') || suffix[0] == '/' {
            assert(completed(prefix, suffix) == prefix + suffix);
        } else {
            assert(completed(prefix, suffix) == prefix + seq!['/'] + suffix);
        }
    }
}

/// A mapping that a table has taken is what a reference to it resolves to, as long as it is not
/// withdrawn, and afterwards such a reference resolves to nothing.
pub proof fn law_a_table_gives_back_what_it_took<'b>()
    ensures
        forall|
            table: &mut KeyExprTable,
            id: u16,
            key: &str,
            recorded: bool,
            read: &KeyExprTable,
            reference: &WireExpr<'_>,
            out: &'b mut heapless::String<512>,
            found: Option<&'b str>,
        |
            #[trigger] call_ensures(KeyExprTable::declare, (table, id, key), recorded)
                && #[trigger] call_ensures(
                KeyExprTable::resolve,
                (read, reference, out),
                found,
            ) && *read == *final(table) && recorded && reference.scope == id
                && reference.suffix@.len() == 0 ==> found is Some && found->0@ == key@,
        forall|
            table: &mut KeyExprTable,
            id: u16,
            nothing: (),
            read: &KeyExprTable,
            reference: &WireExpr<'_>,
            out: &'b mut heapless::String<512>,
            found: Option<&'b str>,
        |
            #[trigger] call_ensures(KeyExprTable::undeclare, (table, id), nothing)
                && #[trigger] call_ensures(
                KeyExprTable::resolve,
                (read, reference, out),
                found,
            ) && *read == *final(table) && reference.scope == id && id != 0 ==> found is None,
{
    assert forall|
        table: &mut KeyExprTable,
        id: u16,
        key: &str,
        recorded: bool,
        read: &KeyExprTable,
        reference: &WireExpr<'_>,
        out: &'b mut heapless::String<512>,
        found: Option<&'b str>,
    |
        #[trigger] call_ensures(KeyExprTable::declare, (table, id, key), recorded)
            && #[trigger] call_ensures(KeyExprTable::resolve, (read, reference, out), found)
            && *read == *final(table) && recorded && reference.scope == id
            && reference.suffix@.len() == 0 implies found is Some && found->0@ == key@ by {
        law_tables_take_what_fits((*table)@, id, 0, key@);
        law_an_expression_names_its_mapping_and_suffix(
            (*final(table))@,
            reference.scope,
            reference.suffix@,
        );
    }
}

/// A token that a table has taken is given back when it is withdrawn, once.
pub proof fn law_a_token_is_given_back_once()
    ensures
        forall|
            table: &mut TokenTable,
            id: u32,
            key: &str,
            recorded: bool,
            later: &mut TokenTable,
            removed: Option<heapless::String<256>>,
        |
            #[trigger] call_ensures(TokenTable::declare, (table, id, key), recorded)
                && #[trigger] call_ensures(TokenTable::undeclare, (later, id), removed) && *later
                == *final(table) && recorded ==> {
                &&& removed is Some
                &&& crate::storage::text(removed->0) == key@
                &&& !(*final(later))@.contains_key(id)
            },
        forall|table: &TokenTable, id: u32, key: &str, same: bool| #[trigger]
            call_ensures(TokenTable::matches, (table, id, key), same) ==> (same
                <==> table@.contains_key(id) && table@[id] == key@),
{
}

} // verus!
