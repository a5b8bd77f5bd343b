//! Secret entries and the secrets manager interface.
//!
//! A [`SecretEntry`] holds a secret's metadata (name, type, provider, scope)
//! and its key-value fields. Its textual renderings never show field values:
//! both depend only on the metadata and on the field keys.

use vstd::prelude::*;
use crate::text::{
    debug_quoted, debug_text, decimal, lemma_middle_determined, lemma_occurs_in_context, occurs_in,
    push_decimal, str_eq,
};

verus! {

/// No two fields share a key.
pub open spec fn keys_distinct(f: Seq<(Seq<char>, Seq<char>)>) -> bool {
    forall|i: int, j: int|
        0 <= i < f.len() && 0 <= j < f.len() && i != j ==> #[trigger] f[i].0 != #[trigger] f[j].0
}

/// Some field has key `k`.
pub open spec fn has_key(f: Seq<(Seq<char>, Seq<char>)>, k: Seq<char>) -> bool {
    exists|i: int| 0 <= i < f.len() && #[trigger] f[i].0 == k
}

/// The position of the field with key `k` (meaningful when `has_key(f, k)`).
pub open spec fn key_index(f: Seq<(Seq<char>, Seq<char>)>, k: Seq<char>) -> int {
    choose|i: int| 0 <= i < f.len() && #[trigger] f[i].0 == k
}

/// The value stored under key `k`, if any.
pub open spec fn field_value(f: Seq<(Seq<char>, Seq<char>)>, k: Seq<char>) -> Option<Seq<char>> {
    if has_key(f, k) {
        Some(f[key_index(f, k)].1)
    } else {
        None
    }
}

/// The fields after storing `v` under `k`: an existing field with key `k`
/// gets the new value in place, otherwise the field is added at the end.
pub open spec fn set_field(f: Seq<(Seq<char>, Seq<char>)>, k: Seq<char>, v: Seq<char>) -> Seq<
    (Seq<char>, Seq<char>),
> {
    if has_key(f, k) {
        f.update(key_index(f, k), (k, v))
    } else {
        f.push((k, v))
    }
}

/// The keys of the fields, in order.
pub open spec fn keys_of(f: Seq<(Seq<char>, Seq<char>)>) -> Seq<Seq<char>> {
    f.map_values(|p: (Seq<char>, Seq<char>)| p.0)
}

/// The fields as a map from key to value.
pub open spec fn field_map(f: Seq<(Seq<char>, Seq<char>)>) -> Map<Seq<char>, Seq<char>> {
    Map::new(|k: Seq<char>| has_key(f, k), |k: Seq<char>| field_value(f, k).unwrap())
}

/// The abstract content of a [`SecretEntry`].
pub struct SecretEntryView {
    pub name: Seq<char>,
    pub secret_type: Seq<char>,
    pub provider: Seq<char>,
    pub scope: Seq<char>,
    /// The fields in the order their keys were first added; keys are distinct.
    pub fields: Seq<(Seq<char>, Seq<char>)>,
}

/// A single secret entry retrieved from a secrets manager.
///
/// Holds the secret's metadata and its key-value fields (for example
/// `"token"`, `"username"`, `"password"`). No two fields share a key.
/// There is no `==` on entries: compare individual fields where needed.
///
/// Dropping an entry frees its memory without overwriting it first: callers
/// that need secrets wiped from memory must arrange it themselves.
pub struct SecretEntry {
    name: String,
    secret_type: String,
    provider: String,
    scope: String,
    fields: Vec<(String, String)>,
}

pub open spec fn pair_view(p: (String, String)) -> (Seq<char>, Seq<char>) {
    (p.0@, p.1@)
}

impl View for SecretEntry {
    type V = SecretEntryView;

    closed spec fn view(&self) -> SecretEntryView {
        SecretEntryView {
            name: self.name@,
            secret_type: self.secret_type@,
            provider: self.provider@,
            scope: self.scope@,
            fields: self.fields@.map_values(|p: (String, String)| pair_view(p)),
        }
    }
}

impl SecretEntry {
    #[verifier::type_invariant]
    closed spec fn well_formed(self) -> bool {
        keys_distinct(self@.fields)
    }

    /// Creates a new entry with the given name and type, an empty provider
    /// and scope, and no fields.
    pub fn new(name: &str, secret_type: &str) -> (e: Self)
        ensures
            keys_distinct(e@.fields),
            e@.name == name@,
            e@.secret_type == secret_type@,
            e@.provider == Seq::<char>::empty(),
            e@.scope == Seq::<char>::empty(),
            e@.fields == Seq::<(Seq<char>, Seq<char>)>::empty(),
    {
        let e = SecretEntry {
            name: String::from_str(name),
            secret_type: String::from_str(secret_type),
            provider: String::new(),
            scope: String::new(),
            fields: Vec::new(),
        };
        assert(e@.fields =~= Seq::<(Seq<char>, Seq<char>)>::empty());
        e
    }

    /// Returns the name of this secret.
    pub fn name(&self) -> (r: &str)
        ensures
            keys_distinct(self@.fields),
            r@ == self@.name,
    {
        proof {
            use_type_invariant(self);
        }
        self.name.as_str()
    }

    /// Returns the secret type (e.g. `"bearer"`, `"s3"`, `"gcs"`).
    pub fn secret_type(&self) -> (r: &str)
        ensures
            keys_distinct(self@.fields),
            r@ == self@.secret_type,
    {
        proof {
            use_type_invariant(self);
        }
        self.secret_type.as_str()
    }

    /// Returns the provider that created this secret.
    pub fn provider(&self) -> (r: &str)
        ensures
            keys_distinct(self@.fields),
            r@ == self@.provider,
    {
        proof {
            use_type_invariant(self);
        }
        self.provider.as_str()
    }

    /// Returns the scope this secret applies to.
    pub fn scope(&self) -> (r: &str)
        ensures
            keys_distinct(self@.fields),
            r@ == self@.scope,
    {
        proof {
            use_type_invariant(self);
        }
        self.scope.as_str()
    }

    /// Returns the field keys, in order, without exposing values.
    pub fn field_keys(&self) -> (r: Vec<&str>)
        ensures
            keys_distinct(self@.fields),
            r.len() == self@.fields.len(),
            forall|i: int| 0 <= i < r.len() ==> #[trigger] r@[i]@ == self@.fields[i].0,
    {
        proof {
            use_type_invariant(self);
        }
        let mut keys: Vec<&str> = Vec::new();
        let n = self.fields.len();
        for i in 0..n
            invariant
                n == self.fields.len(),
                keys.len() == i,
                forall|j: int| 0 <= j < i ==> #[trigger] keys@[j]@ == self@.fields[j].0,
        {
            keys.push(self.fields[i].0.as_str());
        }
        keys
    }

    /// Sets the provider of this secret entry.
    pub fn with_provider(self, provider: &str) -> (e: Self)
        ensures
            keys_distinct(e@.fields),
            e@.provider == provider@,
            e@.name == self@.name,
            e@.secret_type == self@.secret_type,
            e@.scope == self@.scope,
            e@.fields == self@.fields,
    {
        proof {
            use_type_invariant(&self);
        }
        let SecretEntry { name, secret_type, provider: _, scope, fields } = self;
        SecretEntry { name, secret_type, provider: String::from_str(provider), scope, fields }
    }

    /// Sets the scope of this secret entry.
    pub fn with_scope(self, scope: &str) -> (e: Self)
        ensures
            keys_distinct(e@.fields),
            e@.scope == scope@,
            e@.name == self@.name,
            e@.secret_type == self@.secret_type,
            e@.provider == self@.provider,
            e@.fields == self@.fields,
    {
        proof {
            use_type_invariant(&self);
        }
        let SecretEntry { name, secret_type, provider, scope: _, fields } = self;
        SecretEntry { name, secret_type, provider, scope: String::from_str(scope), fields }
    }

    /// Stores `value` under `key`: a field with that key gets the new value,
    /// otherwise a new field is added.
    pub fn with_field(self, key: &str, value: &str) -> (e: Self)
        ensures
            keys_distinct(e@.fields),
            e@.fields == set_field(self@.fields, key@, value@),
            e@.name == self@.name,
            e@.secret_type == self@.secret_type,
            e@.provider == self@.provider,
            e@.scope == self@.scope,
    {
        proof {
            use_type_invariant(&self);
        }
        let ghost old_view = self@;
        let SecretEntry { name, secret_type, provider, scope, mut fields } = self;
        let ghost f0 = old_view.fields;
        assert(fields@.map_values(|p: (String, String)| pair_view(p)) == f0);
        let n = fields.len();
        let mut i: usize = 0;
        while i < n
            invariant
                n == fields.len(),
                i <= n,
                fields@.map_values(|p: (String, String)| pair_view(p)) == f0,
                keys_distinct(f0),
                forall|j: int| 0 <= j < i ==> (#[trigger] f0[j]).0 != key@,
                old_view == self@,
                f0 == old_view.fields,
                name@ == old_view.name,
                secret_type@ == old_view.secret_type,
                provider@ == old_view.provider,
                scope@ == old_view.scope,
            decreases n - i,
        {
            assert(f0[i as int] == pair_view(fields@[i as int]));
            if str_eq(fields[i].0.as_str(), key) {
                proof {
                    assert(f0[i as int].0 == key@);
                    assert(has_key(f0, key@));
                    let k = key_index(f0, key@);
                    assert(f0[k].0 == key@);
                    assert(k == i);
                }
                fields.set(i, (String::from_str(key), String::from_str(value)));
                let ghost f1 = f0.update(i as int, (key@, value@));
                assert(fields@.map_values(|p: (String, String)| pair_view(p)) =~= f1);
                assert(set_field(f0, key@, value@) == f1);
                assert forall|a: int, b: int|
                    0 <= a < f1.len() && 0 <= b < f1.len() && a != b implies #[trigger] f1[a].0
                    != #[trigger] f1[b].0 by {
                    assert(f0[a].0 != f0[b].0);
                }
                let e = SecretEntry { name, secret_type, provider, scope, fields };
                return e;
            }
            i = i + 1;
        }
        assert(!has_key(f0, key@));
        fields.push((String::from_str(key), String::from_str(value)));
        let ghost f1 = f0.push((key@, value@));
        assert(fields@.map_values(|p: (String, String)| pair_view(p)) =~= f1);
        assert forall|a: int, b: int|
            0 <= a < f1.len() && 0 <= b < f1.len() && a != b implies #[trigger] f1[a].0
            != #[trigger] f1[b].0 by {
            if a < f0.len() && b < f0.len() {
                assert(f0[a].0 != f0[b].0);
            } else if a < f0.len() {
                assert(f0[a].0 != key@);
            } else {
                assert(f0[b].0 != key@);
            }
        }
        SecretEntry { name, secret_type, provider, scope, fields }
    }

    /// Returns the value of the field with the given key, if present.
    pub fn get_field(&self, key: &str) -> (r: Option<&str>)
        ensures
            keys_distinct(self@.fields),
            match r {
                Some(v) => field_value(self@.fields, key@) == Some(v@),
                None => field_value(self@.fields, key@) is None,
            },
    {
        proof {
            use_type_invariant(self);
        }
        let ghost f0 = self@.fields;
        let n = self.fields.len();
        for i in 0..n
            invariant
                n == self.fields.len(),
                f0 == self@.fields,
                keys_distinct(f0),
                forall|j: int| 0 <= j < i ==> (#[trigger] f0[j]).0 != key@,
        {
            assert(f0[i as int] == pair_view(self.fields@[i as int]));
            if str_eq(self.fields[i].0.as_str(), key) {
                proof {
                    assert(f0[i as int].0 == key@);
                    assert(has_key(f0, key@));
                    let k = key_index(f0, key@);
                    assert(f0[k].0 == key@);
                    assert(k == i);
                }
                return Some(self.fields[i].1.as_str());
            }
        }
        None
    }

    /// Returns the number of fields.
    pub fn field_count(&self) -> (r: usize)
        ensures
            keys_distinct(self@.fields),
            r == self@.fields.len(),
    {
        proof {
            use_type_invariant(self);
        }
        self.fields.len()
    }

    /// Returns `true` if this entry has no fields.
    pub fn is_empty(&self) -> (r: bool)
        ensures
            keys_distinct(self@.fields),
            r == (self@.fields.len() == 0),
    {
        proof {
            use_type_invariant(self);
        }
        self.fields.len() == 0
    }
}

/// `"<key>": "[REDACTED]"`, the redacted rendering of one field.
pub open spec fn redacted_field(k: Seq<char>) -> Seq<char> {
    debug_text(k) + ": \"[REDACTED]\""@
}

/// The redacted renderings of the given keys, separated by `", "`.
pub open spec fn redacted_fields(keys: Seq<Seq<char>>) -> Seq<char>
    decreases keys.len(),
{
    if keys.len() == 0 {
        Seq::empty()
    } else if keys.len() == 1 {
        redacted_field(keys[0])
    } else {
        redacted_fields(keys.drop_last()) + ", "@ + redacted_field(keys.last())
    }
}

/// The `Debug`-style rendering of an entry with the given metadata whose
/// fields have the given keys, every value shown as `"[REDACTED]"`.
pub open spec fn debug_rendering_of(
    name: Seq<char>,
    secret_type: Seq<char>,
    provider: Seq<char>,
    scope: Seq<char>,
    keys: Seq<Seq<char>>,
) -> Seq<char> {
    "SecretEntry { name: "@ + debug_text(name) + ", secret_type: "@ + debug_text(secret_type)
        + ", provider: "@ + debug_text(provider) + ", scope: "@ + debug_text(scope)
        + ", fields: {"@ + redacted_fields(keys) + "} }"@
}

/// The `Debug`-style rendering of an entry, with every field value replaced
/// by `"[REDACTED]"`.
pub open spec fn debug_rendering(e: SecretEntryView) -> Seq<char> {
    debug_rendering_of(e.name, e.secret_type, e.provider, e.scope, keys_of(e.fields))
}

/// The human-readable summary of an entry: its metadata and the number of
/// fields, never a field value.
pub open spec fn summary_rendering(e: SecretEntryView) -> Seq<char> {
    "Secret(name="@ + debug_text(e.name) + ", type="@ + debug_text(e.secret_type)
        + ", provider="@ + debug_text(e.provider) + ", fields="@ + decimal(e.fields.len())
        + ")"@
}

impl SecretEntry {
    /// Renders the entry for debugging: the metadata and the field keys, with
    /// every field value shown as `"[REDACTED]"`.
    pub fn debug_string(&self) -> (r: String)
        ensures
            keys_distinct(self@.fields),
            r@ == debug_rendering(self@),
    {
        proof {
            use_type_invariant(self);
        }
        let ghost keys = keys_of(self@.fields);
        let mut out = String::from_str("SecretEntry { name: ");
        out.append(debug_quoted(self.name.as_str()).as_str());
        out.append(", secret_type: ");
        out.append(debug_quoted(self.secret_type.as_str()).as_str());
        out.append(", provider: ");
        out.append(debug_quoted(self.provider.as_str()).as_str());
        out.append(", scope: ");
        out.append(debug_quoted(self.scope.as_str()).as_str());
        out.append(", fields: {");
        let ghost prefix = out@;
        let n = self.fields.len();
        for i in 0..n
            invariant
                n == self.fields.len(),
                keys == keys_of(self@.fields),
                keys.len() == n,
                out@ == prefix + redacted_fields(keys.take(i as int)),
        {
            assert(keys[i as int] == self.fields@[i as int].0@);
            let ghost before = out@;
            if i > 0 {
                out.append(", ");
            }
            out.append(debug_quoted(self.fields[i].0.as_str()).as_str());
            out.append(": \"[REDACTED]\"");
            proof {
                let t = keys.take(i + 1);
                assert(t.drop_last() =~= keys.take(i as int));
                assert(t.last() == keys[i as int]);
                if i == 0 {
                    assert(redacted_fields(keys.take(0)) =~= Seq::<char>::empty());
                    assert(out@ =~= prefix + redacted_fields(t));
                } else {
                    assert(out@ =~= prefix + redacted_fields(t));
                }
            }
        }
        assert(keys.take(n as int) =~= keys);
        out.append("} }");
        assert(out@ =~= debug_rendering(self@));
        out
    }

    /// Renders a human-readable summary: name, type, provider and the number
    /// of fields, never a field value.
    pub fn to_string(&self) -> (r: String)
        ensures
            keys_distinct(self@.fields),
            r@ == summary_rendering(self@),
    {
        proof {
            use_type_invariant(self);
        }
        let mut out = String::from_str("Secret(name=");
        out.append(debug_quoted(self.name.as_str()).as_str());
        out.append(", type=");
        out.append(debug_quoted(self.secret_type.as_str()).as_str());
        out.append(", provider=");
        out.append(debug_quoted(self.provider.as_str()).as_str());
        out.append(", fields=");
        push_decimal(&mut out, self.fields.len());
        out.append(")");
        assert(out@ =~= summary_rendering(self@));
        out
    }
}

impl Clone for SecretEntry {
    /// Clones this secret entry, duplicating its sensitive material in memory.
    fn clone(&self) -> (r: Self)
        ensures
            keys_distinct(r@.fields),
            r@ == self@,
    {
        proof {
            use_type_invariant(self);
        }
        let mut fields: Vec<(String, String)> = Vec::new();
        let n = self.fields.len();
        for i in 0..n
            invariant
                n == self.fields.len(),
                fields.len() == i,
                forall|j: int| 0 <= j < i ==> #[trigger] fields@[j] == self.fields@[j],
        {
            let k = self.fields[i].0.clone();
            let v = self.fields[i].1.clone();
            fields.push((k, v));
        }
        assert(fields@ =~= self.fields@);
        SecretEntry {
            name: self.name.clone(),
            secret_type: self.secret_type.clone(),
            provider: self.provider.clone(),
            scope: self.scope.clone(),
            fields,
        }
    }
}

/// Access to a store of secrets, implemented by extensions.
///
/// Implementations must be safe to call from several threads, should never
/// log field values, and should zeroize removed secrets.
pub trait SecretsManager: Send + Sync {
    /// Retrieves a secret by name and type; `None` if no such secret exists.
    fn get_secret(&self, name: &str, secret_type: &str) -> Option<SecretEntry>;

    /// Lists all secrets, or only those of the given type.
    fn list_secrets(&self, secret_type: Option<&str>) -> Vec<SecretEntry>;

    /// Removes a secret by name and type; `true` if it was found and removed.
    fn remove_secret(&self, name: &str, secret_type: &str) -> bool;
}

/// A value stored by `with_field` is what `get_field` then returns for its key.
pub proof fn law_get_after_with_field(e: SecretEntryView, k: Seq<char>, v: Seq<char>)
    requires
        keys_distinct(e.fields),
    ensures
        field_value(set_field(e.fields, k, v), k) == Some(v),
{
    let f = e.fields;
    let f1 = set_field(f, k, v);
    if has_key(f, k) {
        let i = key_index(f, k);
        assert(f1[i].0 == k);
        assert(has_key(f1, k));
        let j = key_index(f1, k);
        assert(f1[j].0 == k);
        if j != i {
            assert(f1[j] == f[j]);
            assert(f[i].0 == f[j].0);
        }
    } else {
        let i = f.len() as int;
        assert(f1[i].0 == k);
        assert(has_key(f1, k));
        let j = key_index(f1, k);
        assert(f1[j].0 == k);
        if j != i {
            assert(f1[j] == f[j]);
            assert(has_key(f, k));
        }
    }
}

/// `with_field` leaves the value under every other key as it was.
pub proof fn law_with_field_keeps_other_keys(
    e: SecretEntryView,
    k: Seq<char>,
    v: Seq<char>,
    other: Seq<char>,
)
    requires
        keys_distinct(e.fields),
        other != k,
    ensures
        field_value(set_field(e.fields, k, v), other) == field_value(e.fields, other),
{
    let f = e.fields;
    let f1 = set_field(f, k, v);
    if has_key(f, other) {
        let i = key_index(f, other);
        assert(f[i].0 == other);
        if has_key(f, k) {
            assert(f1[i] == f[i]);
        } else {
            assert(f1[i] == f[i]);
        }
        assert(has_key(f1, other));
        let j = key_index(f1, other);
        assert(f1[j].0 == other);
        assert(f1[j] == f[j]);
        if j != i {
            assert(f[i].0 == f[j].0);
        }
    } else {
        if has_key(f1, other) {
            let j = key_index(f1, other);
            assert(f1[j].0 == other);
            if has_key(f, k) {
                assert(f1[j] == f[j]);
            } else if j < f.len() {
                assert(f1[j] == f[j]);
            }
            assert(has_key(f, other));
        }
    }
}

/// `with_field` keeps the keys distinct, adds one field for a new key and
/// none for a key already present.
pub proof fn law_with_field_count(e: SecretEntryView, k: Seq<char>, v: Seq<char>)
    requires
        keys_distinct(e.fields),
    ensures
        keys_distinct(set_field(e.fields, k, v)),
        set_field(e.fields, k, v).len() == e.fields.len() + if has_key(e.fields, k) {
            0int
        } else {
            1int
        },
{
    let f = e.fields;
    let f1 = set_field(f, k, v);
    if has_key(f, k) {
        let i = key_index(f, k);
        assert forall|a: int, b: int|
            0 <= a < f1.len() && 0 <= b < f1.len() && a != b implies #[trigger] f1[a].0
            != #[trigger] f1[b].0 by {
            assert(f[a].0 != f[b].0);
            assert(f[i].0 == k);
        }
    } else {
        assert forall|a: int, b: int|
            0 <= a < f1.len() && 0 <= b < f1.len() && a != b implies #[trigger] f1[a].0
            != #[trigger] f1[b].0 by {
            if a < f.len() && b < f.len() {
                assert(f[a].0 != f[b].0);
            } else if a < f.len() {
                assert(f[a].0 != k);
            } else {
                assert(f[b].0 != k);
            }
        }
    }
}

/// Seen as a map from key to value, the fields after `with_field(k, v)` are
/// the fields before with `k` mapped to `v`.
pub proof fn law_with_field_is_map_insert(e: SecretEntryView, k: Seq<char>, v: Seq<char>)
    requires
        keys_distinct(e.fields),
    ensures
        field_map(set_field(e.fields, k, v)) == field_map(e.fields).insert(k, v),
{
    let f = e.fields;
    let f1 = set_field(f, k, v);
    assert forall|x: Seq<char>| #[trigger] field_map(f1).contains_key(x) == field_map(f).insert(
        k,
        v,
    ).contains_key(x) && (field_map(f1).contains_key(x) ==> field_map(f1)[x] == field_map(
        f,
    ).insert(k, v)[x]) by {
        if x == k {
            law_get_after_with_field(e, k, v);
        } else {
            law_with_field_keeps_other_keys(e, k, v, x);
        }
    }
    assert(field_map(f1) =~= field_map(f).insert(k, v));
}

/// Storing twice under one key is the same as storing the second value once.
pub proof fn law_with_field_overwrites(
    e: SecretEntryView,
    k: Seq<char>,
    v1: Seq<char>,
    v2: Seq<char>,
)
    requires
        keys_distinct(e.fields),
    ensures
        set_field(set_field(e.fields, k, v1), k, v2) == set_field(e.fields, k, v2),
{
    let f = e.fields;
    let f1 = set_field(f, k, v1);
    law_with_field_count(e, k, v1);
    let i = if has_key(f, k) {
        key_index(f, k)
    } else {
        f.len() as int
    };
    assert(f1[i].0 == k);
    assert(has_key(f1, k));
    let j = key_index(f1, k);
    assert(f1[j].0 == k);
    assert(j == i);
    assert(set_field(f1, k, v2) =~= set_field(f, k, v2));
}

/// The keys handed out are exactly the keys of the map, each once.
pub proof fn law_keys_match_fields(e: SecretEntryView)
    requires
        keys_distinct(e.fields),
    ensures
        keys_of(e.fields).no_duplicates(),
        keys_of(e.fields).to_set() == field_map(e.fields).dom(),
        keys_of(e.fields).len() == e.fields.len(),
        keys_of(e.fields).to_set().len() == e.fields.len(),
        field_map(e.fields).dom().len() == e.fields.len(),
{
    let f = e.fields;
    let ks = keys_of(f);
    assert forall|a: int, b: int| 0 <= a < ks.len() && 0 <= b < ks.len() && a != b implies ks[a]
        != ks[b] by {
        assert(f[a].0 != f[b].0);
    }
    assert forall|x: Seq<char>| #[trigger] ks.to_set().contains(x) == field_map(f).dom().contains(
        x,
    ) by {
        if ks.to_set().contains(x) {
            let i = choose|i: int| 0 <= i < ks.len() && ks[i] == x;
            assert(f[i].0 == x);
        }
        if has_key(f, x) {
            let i = key_index(f, x);
            assert(ks[i] == x);
        }
    }
    assert(ks.to_set() =~= field_map(f).dom());
    ks.unique_seq_to_set();
}

/// Both renderings of an entry depend only on its metadata and on the keys of
/// its fields: entries that differ only in field values render alike.
pub proof fn law_renderings_hide_values(e1: SecretEntryView, e2: SecretEntryView)
    requires
        e1.name == e2.name,
        e1.secret_type == e2.secret_type,
        e1.provider == e2.provider,
        e1.scope == e2.scope,
        keys_of(e1.fields) == keys_of(e2.fields),
    ensures
        debug_rendering(e1) == debug_rendering(e2),
        summary_rendering(e1) == summary_rendering(e2),
{
    assert(keys_of(e1.fields).len() == e1.fields.len());
    assert(keys_of(e2.fields).len() == e2.fields.len());
}

/// The fields after storing each (key, value) pair of `ops` in turn with
/// `with_field`, starting from the fields `f`.
pub open spec fn set_fields(
    f: Seq<(Seq<char>, Seq<char>)>,
    ops: Seq<(Seq<char>, Seq<char>)>,
) -> Seq<(Seq<char>, Seq<char>)>
    decreases ops.len(),
{
    if ops.len() == 0 {
        f
    } else {
        set_field(set_fields(f, ops.drop_last()), ops.last().0, ops.last().1)
    }
}

/// The keys of a field list seen as a set, after storing one more field.
proof fn lemma_set_field_keys(f: Seq<(Seq<char>, Seq<char>)>, k: Seq<char>, v: Seq<char>)
    requires
        keys_distinct(f),
    ensures
        keys_of(set_field(f, k, v)).to_set() == keys_of(f).to_set().insert(k),
{
    let f1 = set_field(f, k, v);
    let ks = keys_of(f);
    let ks1 = keys_of(f1);
    if has_key(f, k) {
        let i = key_index(f, k);
        assert(f[i].0 == k);
        assert(ks1 =~= ks);
        assert(ks[i] == k);
        assert(ks.to_set().contains(k));
        assert(ks.to_set().insert(k) =~= ks.to_set());
    } else {
        assert(ks1 =~= ks.push(k));
        assert forall|x: Seq<char>| #[trigger] ks1.to_set().contains(x) == ks.to_set().insert(
            k,
        ).contains(x) by {
            if ks1.to_set().contains(x) {
                let j = choose|j: int| 0 <= j < ks1.len() && ks1[j] == x;
                if j < ks.len() {
                    assert(ks[j] == x);
                }
            }
            if ks.to_set().contains(x) {
                let j = choose|j: int| 0 <= j < ks.len() && ks[j] == x;
                assert(ks1[j] == x);
            }
            if x == k {
                assert(ks1[ks.len() as int] == k);
            }
        }
        assert(ks1.to_set() =~= ks.to_set().insert(k));
    }
}

/// Starting from a new entry and storing any sequence of (key, value) pairs
/// with `with_field` (with `with_provider` and `with_scope`, which keep the
/// fields, interleaved at will), the fields hold each key stored exactly
/// once, and `field_count` is the number of distinct keys stored.
pub proof fn law_field_count_is_distinct_keys(ops: Seq<(Seq<char>, Seq<char>)>)
    ensures
        keys_distinct(set_fields(Seq::empty(), ops)),
        keys_of(set_fields(Seq::empty(), ops)).to_set() == keys_of(ops).to_set(),
        set_fields(Seq::empty(), ops).len() == keys_of(ops).to_set().len(),
    decreases ops.len(),
{
    let f = set_fields(Seq::empty(), ops);
    if ops.len() == 0 {
        assert(keys_of(ops) =~= Seq::<Seq<char>>::empty());
        assert(keys_of(f) =~= Seq::<Seq<char>>::empty());
        assert(keys_of(ops).to_set() =~= Set::<Seq<char>>::empty());
        assert(keys_of(f).to_set() =~= Set::<Seq<char>>::empty());
    } else {
        let prev_ops = ops.drop_last();
        law_field_count_is_distinct_keys(prev_ops);
        let prev = set_fields(Seq::empty(), prev_ops);
        let k = ops.last().0;
        let v = ops.last().1;
        let pv = SecretEntryView {
            name: Seq::empty(),
            secret_type: Seq::empty(),
            provider: Seq::empty(),
            scope: Seq::empty(),
            fields: prev,
        };
        law_with_field_count(pv, k, v);
        lemma_set_field_keys(prev, k, v);
        assert(keys_of(ops) =~= keys_of(prev_ops).push(k));
        let kp = keys_of(prev_ops);
        assert forall|x: Seq<char>| #[trigger] keys_of(ops).to_set().contains(x)
            == kp.to_set().insert(k).contains(x) by {
            let ko = keys_of(ops);
            if ko.to_set().contains(x) {
                let j = choose|j: int| 0 <= j < ko.len() && ko[j] == x;
                if j < kp.len() {
                    assert(kp[j] == x);
                }
            }
            if kp.to_set().contains(x) {
                let j = choose|j: int| 0 <= j < kp.len() && kp[j] == x;
                assert(ko[j] == x);
            }
            if x == k {
                assert(ko[kp.len() as int] == k);
            }
        }
        assert(keys_of(ops).to_set() =~= kp.to_set().insert(k));
        let fv = SecretEntryView {
            name: Seq::empty(),
            secret_type: Seq::empty(),
            provider: Seq::empty(),
            scope: Seq::empty(),
            fields: f,
        };
        law_keys_match_fields(fv);
    }
}

/// Entries with the same metadata and the same set of field keys render
/// alike up to the order in which the fields are listed: the second
/// renders as the first's metadata with a reordering of the first's keys,
/// each key shown once and mapped to `"[REDACTED]"`. Their summaries are
/// equal.
pub proof fn law_debug_rendering_up_to_key_order(e1: SecretEntryView, e2: SecretEntryView)
    requires
        keys_distinct(e1.fields),
        keys_distinct(e2.fields),
        e1.name == e2.name,
        e1.secret_type == e2.secret_type,
        e1.provider == e2.provider,
        e1.scope == e2.scope,
        keys_of(e1.fields).to_set() == keys_of(e2.fields).to_set(),
    ensures
        debug_rendering(e1) == debug_rendering_of(
            e1.name,
            e1.secret_type,
            e1.provider,
            e1.scope,
            keys_of(e1.fields),
        ),
        exists|keys: Seq<Seq<char>>|
            keys.to_multiset() == keys_of(e1.fields).to_multiset() && debug_rendering(e2)
                == #[trigger] debug_rendering_of(
                e1.name,
                e1.secret_type,
                e1.provider,
                e1.scope,
                keys,
            ),
        summary_rendering(e1) == summary_rendering(e2),
{
    broadcast use vstd::seq_lib::group_to_multiset_ensures;

    let k1 = keys_of(e1.fields);
    let k2 = keys_of(e2.fields);
    law_keys_match_fields(e1);
    law_keys_match_fields(e2);
    k1.lemma_multiset_has_no_duplicates();
    k2.lemma_multiset_has_no_duplicates();
    assert forall|x: Seq<char>| #[trigger] k2.to_multiset().count(x) == k1.to_multiset().count(x) by {
        assert(k1.contains(x) == k1.to_set().contains(x));
        assert(k2.contains(x) == k2.to_set().contains(x));
        if k1.contains(x) {
            assert(k1.to_multiset().contains(x));
            assert(k2.to_multiset().contains(x));
        }
    }
    assert(k2.to_multiset() =~= k1.to_multiset());
    assert(debug_rendering(e2) == debug_rendering_of(e1.name, e1.secret_type, e1.provider, e1.scope, k2));
}

/// Listing one more key after at least one other adds `", "` and that key's
/// redacted rendering at the end; a single key is listed alone.
pub proof fn law_redacted_fields_step(ks: Seq<Seq<char>>, k: Seq<char>)
    ensures
        redacted_fields(seq![k]) == redacted_field(k),
        ks.len() > 0 ==> redacted_fields(ks.push(k)) == redacted_fields(ks) + ", "@ + redacted_field(
            k,
        ),
{
    assert(ks.push(k).drop_last() =~= ks);
}

proof fn lemma_each_key_listed(keys: Seq<Seq<char>>, i: int)
    requires
        0 <= i < keys.len(),
    ensures
        occurs_in(redacted_field(keys[i]), redacted_fields(keys)),
    decreases keys.len(),
{
    let t = redacted_field(keys[i]);
    let r = redacted_fields(keys);
    if keys.len() == 1 {
        let j0: int = 0;
        assert(r.subrange(j0, j0 + t.len()) =~= t);
        assert(occurs_in(t, r));
    } else if i == keys.len() - 1 {
        let front = redacted_fields(keys.drop_last()) + ", "@;
        assert(r == front + t);
        let j = front.len() as int;
        assert(r.subrange(j, j + t.len()) =~= t);
        assert(occurs_in(t, r));
    } else {
        lemma_each_key_listed(keys.drop_last(), i);
        assert(keys.drop_last()[i] == keys[i]);
        lemma_occurs_in_context(
            t,
            Seq::empty(),
            redacted_fields(keys.drop_last()),
            ", "@ + redacted_field(keys.last()),
        );
        assert(r =~= Seq::<char>::empty() + redacted_fields(keys.drop_last()) + (", "@
            + redacted_field(keys.last())));
        assert(occurs_in(t, r));
    }
}

/// Every field key of an entry appears in its debug rendering, mapped to
/// `"[REDACTED]"`.
pub proof fn law_debug_rendering_lists_every_key(e: SecretEntryView, i: int)
    requires
        0 <= i < e.fields.len(),
    ensures
        occurs_in(redacted_field(e.fields[i].0), debug_rendering(e)),
{
    let keys = keys_of(e.fields);
    assert(keys[i] == e.fields[i].0);
    lemma_each_key_listed(keys, i);
    let a = "SecretEntry { name: "@ + debug_text(e.name) + ", secret_type: "@ + debug_text(
        e.secret_type,
    ) + ", provider: "@ + debug_text(e.provider) + ", scope: "@ + debug_text(e.scope)
        + ", fields: {"@;
    lemma_occurs_in_context(redacted_field(keys[i]), a, redacted_fields(keys), "} }"@);
    assert(debug_rendering(e) == a + redacted_fields(keys) + "} }"@);
}

/// The debug rendering shows each piece of metadata in its own place: two
/// entries with the same keys that differ in one of name, type, provider or
/// scope (as rendered), and agree on the rest, render differently.
pub proof fn law_debug_rendering_shows_each_part(e1: SecretEntryView, e2: SecretEntryView)
    requires
        keys_of(e1.fields) == keys_of(e2.fields),
    ensures
        e1.secret_type == e2.secret_type && e1.provider == e2.provider && e1.scope == e2.scope
            && debug_text(e1.name) != debug_text(e2.name) ==> debug_rendering(e1) != debug_rendering(
            e2,
        ),
        e1.name == e2.name && e1.provider == e2.provider && e1.scope == e2.scope && debug_text(
            e1.secret_type,
        ) != debug_text(e2.secret_type) ==> debug_rendering(e1) != debug_rendering(e2),
        e1.name == e2.name && e1.secret_type == e2.secret_type && e1.scope == e2.scope
            && debug_text(e1.provider) != debug_text(e2.provider) ==> debug_rendering(e1)
            != debug_rendering(e2),
        e1.name == e2.name && e1.secret_type == e2.secret_type && e1.provider == e2.provider
            && debug_text(e1.scope) != debug_text(e2.scope) ==> debug_rendering(e1)
            != debug_rendering(e2),
{
    let ks = keys_of(e1.fields);
    let tail = ", fields: {"@ + redacted_fields(ks) + "} }"@;
    let d1 = debug_rendering(e1);
    let d2 = debug_rendering(e2);
    let q1n = debug_text(e1.name);
    let q2n = debug_text(e2.name);
    let q1t = debug_text(e1.secret_type);
    let q2t = debug_text(e2.secret_type);
    let q1p = debug_text(e1.provider);
    let q2p = debug_text(e2.provider);
    let q1s = debug_text(e1.scope);
    let q2s = debug_text(e2.scope);
    let m1 = "SecretEntry { name: "@;
    let m2 = ", secret_type: "@;
    let m3 = ", provider: "@;
    let m4 = ", scope: "@;
    assert(d1 == m1 + q1n + m2 + q1t + m3 + q1p + m4 + q1s + tail);
    assert(d2 == m1 + q2n + m2 + q2t + m3 + q2p + m4 + q2s + tail);
    if d1 == d2 {
        if e1.secret_type == e2.secret_type && e1.provider == e2.provider && e1.scope == e2.scope {
            let b = m2 + q1t + m3 + q1p + m4 + q1s + tail;
            assert(d1 =~= m1 + q1n + b);
            assert(d2 =~= m1 + q2n + b);
            lemma_middle_determined(m1, q1n, q2n, b);
        }
        if e1.name == e2.name && e1.provider == e2.provider && e1.scope == e2.scope {
            let a = m1 + q1n + m2;
            let b = m3 + q1p + m4 + q1s + tail;
            assert(d1 =~= a + q1t + b);
            assert(d2 =~= a + q2t + b);
            lemma_middle_determined(a, q1t, q2t, b);
        }
        if e1.name == e2.name && e1.secret_type == e2.secret_type && e1.scope == e2.scope {
            let a = m1 + q1n + m2 + q1t + m3;
            let b = m4 + q1s + tail;
            assert(d1 =~= a + q1p + b);
            assert(d2 =~= a + q2p + b);
            lemma_middle_determined(a, q1p, q2p, b);
        }
        if e1.name == e2.name && e1.secret_type == e2.secret_type && e1.provider == e2.provider {
            let a = m1 + q1n + m2 + q1t + m3 + q1p + m4;
            assert(d1 =~= a + q1s + tail);
            assert(d2 =~= a + q2s + tail);
            lemma_middle_determined(a, q1s, q2s, tail);
        }
    }
}

/// The summary ends with the number of fields in decimal, shows the
/// entry's name, type and provider each in its own place, and never shows
/// the scope: entries that differ only in scope have the same summary, and
/// entries that differ in exactly one of name, type or provider (as
/// rendered) have different summaries.
pub proof fn law_summary_shows_its_parts(e1: SecretEntryView, e2: SecretEntryView)
    ensures
        exists|p: Seq<char>| summary_rendering(e1) == p + ", fields="@ + decimal(e1.fields.len()) + ")"@,
        e1.name == e2.name && e1.secret_type == e2.secret_type && e1.provider == e2.provider
            && e1.fields.len() == e2.fields.len() ==> summary_rendering(e1) == summary_rendering(e2),
        e1.secret_type == e2.secret_type && e1.provider == e2.provider && e1.fields.len()
            == e2.fields.len() && debug_text(e1.name) != debug_text(e2.name) ==> summary_rendering(
            e1,
        ) != summary_rendering(e2),
        e1.name == e2.name && e1.provider == e2.provider && e1.fields.len() == e2.fields.len()
            && debug_text(e1.secret_type) != debug_text(e2.secret_type) ==> summary_rendering(e1)
            != summary_rendering(e2),
        e1.name == e2.name && e1.secret_type == e2.secret_type && e1.fields.len()
            == e2.fields.len() && debug_text(e1.provider) != debug_text(e2.provider)
            ==> summary_rendering(e1) != summary_rendering(e2),
{
    let s1 = summary_rendering(e1);
    let s2 = summary_rendering(e2);
    let p1 = "Secret(name="@ + debug_text(e1.name) + ", type="@ + debug_text(e1.secret_type)
        + ", provider="@ + debug_text(e1.provider);
    assert(s1 =~= p1 + ", fields="@ + decimal(e1.fields.len()) + ")"@);
    let tail = ", fields="@ + decimal(e1.fields.len()) + ")"@;
    if s1 == s2 && e1.fields.len() == e2.fields.len() {
        if e1.secret_type == e2.secret_type && e1.provider == e2.provider {
            let a = "Secret(name="@;
            let b = ", type="@ + debug_text(e1.secret_type) + ", provider="@ + debug_text(
                e1.provider,
            ) + tail;
            assert(s1 =~= a + debug_text(e1.name) + b);
            assert(s2 =~= a + debug_text(e2.name) + b);
            lemma_middle_determined(a, debug_text(e1.name), debug_text(e2.name), b);
        }
        if e1.name == e2.name && e1.provider == e2.provider {
            let a = "Secret(name="@ + debug_text(e1.name) + ", type="@;
            let b = ", provider="@ + debug_text(e1.provider) + tail;
            assert(s1 =~= a + debug_text(e1.secret_type) + b);
            assert(s2 =~= a + debug_text(e2.secret_type) + b);
            lemma_middle_determined(a, debug_text(e1.secret_type), debug_text(e2.secret_type), b);
        }
        if e1.name == e2.name && e1.secret_type == e2.secret_type {
            let a = "Secret(name="@ + debug_text(e1.name) + ", type="@ + debug_text(e1.secret_type)
                + ", provider="@;
            assert(s1 =~= a + debug_text(e1.provider) + tail);
            assert(s2 =~= a + debug_text(e2.provider) + tail);
            lemma_middle_determined(a, debug_text(e1.provider), debug_text(e2.provider), tail);
        }
    }
}

/// The layout of the two renderings: the debug rendering lists name, type,
/// provider and scope in that order, quoted, then each key mapped to
/// `"[REDACTED]"`; the summary lists name, type and provider, quoted, then the
/// number of fields in decimal.
pub proof fn law_rendering_layouts(e: SecretEntryView, k: Seq<char>)
    ensures
        debug_rendering(e) == "SecretEntry { name: "@ + debug_text(e.name) + ", secret_type: "@
            + debug_text(e.secret_type) + ", provider: "@ + debug_text(e.provider) + ", scope: "@
            + debug_text(e.scope) + ", fields: {"@ + redacted_fields(keys_of(e.fields)) + "} }"@,
        redacted_field(k) == debug_text(k) + ": \"[REDACTED]\""@,
        summary_rendering(e) == "Secret(name="@ + debug_text(e.name) + ", type="@ + debug_text(
            e.secret_type,
        ) + ", provider="@ + debug_text(e.provider) + ", fields="@ + decimal(e.fields.len())
            + ")"@,
{
}

} // verus!
