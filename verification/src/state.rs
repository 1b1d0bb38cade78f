//! Shared shell state: the alias table, the modelled environment, and the
//! fields the signal forwarder and the status responder read.
//!
//! The environment and the working directory are deliberately modelled as
//! explicit values inside [`State`] rather than read from ambient process
//! globals, so that every evaluation step is a function of the state it is
//! handed; the embedding program mirrors changes into the real process
//! environment when it performs the actions the engine requests.

use vstd::prelude::*;

use crate::command::{render_args_from, sp_render_args, view_args, view_opt_string, Arg, ArgV};

verus! {

/// A user-defined rewrite rule: invoking `alias` runs `command` with `args`
/// prepended to the invocation's own arguments.
#[derive(Debug)]
pub struct Alias {
    /// The name the user types.
    pub alias: String,
    /// The command the name rewrites to.
    pub command: String,
    /// Arguments prepended to the invocation's own.
    pub args: Vec<Arg>,
}

/// The mathematical shape of an [`Alias`].
pub struct AliasV {
    pub alias: Seq<char>,
    pub command: Seq<char>,
    pub args: Seq<ArgV>,
}

impl View for Alias {
    type V = AliasV;

    open spec fn view(&self) -> AliasV {
        AliasV { alias: self.alias@, command: self.command@, args: view_args(self.args@) }
    }
}

impl Clone for Alias {
    /// A deep copy whose view is the view of the original.
    fn clone(&self) -> (res: Self)
        ensures
            res@ == self@,
    {
        let args = clone_args(&self.args);
        Alias { alias: self.alias.clone(), command: self.command.clone(), args }
    }
}

/// The textual form of an alias definition, as the `alias` builtin lists it
/// and as the alias-definition file spells it: `name -> command arg...`.
pub open spec fn sp_display_alias(a: AliasV) -> Seq<char> {
    a.alias + " -> "@ + a.command + sp_render_args(a.args)
}

impl Alias {
    /// Renders the definition as [`sp_display_alias`] describes.
    pub fn display(&self) -> (r: String)
        ensures
            r@ == sp_display_alias(self@),
    {
        let mut s = self.alias.clone();
        s.append(" -> ");
        s.append(self.command.as_str());
        proof {
            let av = view_args(self.args@);
            assert(av.subrange(0, av.len() as int) =~= av);
            crate::command::lemma_view_args_len(self.args@);
        }
        let rest = render_args_from(&self.args, 0);
        s.append(rest.as_str());
        s
    }
}

/// Deep-copies a vector of arguments, preserving its view.
pub fn clone_args(args: &Vec<Arg>) -> (res: Vec<Arg>)
    ensures
        view_args(res@) == view_args(args@),
        res@.len() == args@.len(),
{
    let mut res: Vec<Arg> = Vec::new();
    let n = args.len();
    let mut i: usize = 0;
    while i < n
        invariant
            n == args@.len(),
            i <= n,
            res@.len() == i,
            forall|j: int| 0 <= j < i ==> #[trigger] res@[j]@ == args@[j]@,
        decreases n - i,
    {
        let a = args[i].clone();
        res.push(a);
        i += 1;
    }
    proof {
        assert(view_args(res@) =~= view_args(args@)) by {
            crate::command::lemma_view_args_len(res@);
            crate::command::lemma_view_args_len(args@);
            assert forall|j: int| 0 <= j < args@.len() implies view_args(res@)[j] == view_args(
                args@,
            )[j] by {
                crate::command::lemma_view_args_index(res@, j);
                crate::command::lemma_view_args_index(args@, j);
                assert(res@[j]@ == args@[j]@);
            }
        }
    }
    res
}

/// Looks a name up in a sequence of aliases: the first entry whose name
/// matches, if any.  The table's invariant keeps names unique, so the first
/// match is the only one.
pub open spec fn spec_lookup_alias(entries: Seq<AliasV>, name: Seq<char>) -> Option<AliasV>
    decreases entries,
{
    if entries.len() == 0 {
        Option::None
    } else if entries[0].alias == name {
        Option::Some(entries[0])
    } else {
        spec_lookup_alias(entries.subrange(1, entries.len() as int), name)
    }
}

/// The table after defining `a`: the first entry of the same name is
/// replaced in place; with no such entry, `a` is appended.
pub open spec fn sp_alias_insert(entries: Seq<AliasV>, a: AliasV) -> Seq<AliasV>
    decreases entries,
{
    if entries.len() == 0 {
        seq![a]
    } else if entries[0].alias == a.alias {
        seq![a] + entries.subrange(1, entries.len() as int)
    } else {
        seq![entries[0]] + sp_alias_insert(entries.subrange(1, entries.len() as int), a)
    }
}

proof fn lemma_alias_insert_at(entries: Seq<AliasV>, idx: int, a: AliasV)
    requires
        0 <= idx < entries.len(),
        entries[idx].alias == a.alias,
        forall|j: int| 0 <= j < idx ==> #[trigger] entries[j].alias != a.alias,
    ensures
        sp_alias_insert(entries, a) == entries.update(idx, a),
    decreases idx,
{
    if idx == 0 {
        assert(sp_alias_insert(entries, a) =~= entries.update(0, a));
    } else {
        let tail = entries.subrange(1, entries.len() as int);
        lemma_alias_insert_at(tail, idx - 1, a);
        assert(tail.update(idx - 1, a) =~= entries.update(idx, a).subrange(
            1,
            entries.len() as int,
        ));
        assert(sp_alias_insert(entries, a) =~= entries.update(idx, a));
    }
}

proof fn lemma_alias_insert_new(entries: Seq<AliasV>, a: AliasV)
    requires
        forall|j: int| 0 <= j < entries.len() ==> #[trigger] entries[j].alias != a.alias,
    ensures
        sp_alias_insert(entries, a) == entries.push(a),
    decreases entries.len(),
{
    if entries.len() == 0 {
        assert(sp_alias_insert(entries, a) =~= entries.push(a));
    } else {
        let tail = entries.subrange(1, entries.len() as int);
        lemma_alias_insert_new(tail, a);
        assert(tail.push(a) =~= entries.push(a).subrange(1, entries.push(a).len() as int));
        assert(sp_alias_insert(entries, a) =~= entries.push(a));
    }
}

/// The alias table: a mapping from alias name to its definition, redefinition
/// overwriting (never merging) the earlier entry.
#[derive(Debug)]
pub struct AliasTable {
    entries: Vec<Alias>,
}

impl View for AliasTable {
    type V = Seq<AliasV>;

    closed spec fn view(&self) -> Seq<AliasV> {
        Seq::new(self.entries@.len(), |i: int| self.entries@[i]@)
    }
}

impl AliasTable {
    /// Names are pairwise distinct.
    pub open spec fn wf(&self) -> bool {
        forall|i: int, j: int|
            0 <= i < j < self@.len() ==> #[trigger] self@[i].alias != #[trigger] self@[j].alias
    }

    /// An empty table.
    pub fn new() -> (res: Self)
        ensures
            res@ == Seq::<AliasV>::empty(),
            res.wf(),
    {
        let res = AliasTable { entries: Vec::new() };
        proof {
            assert(res@ =~= Seq::<AliasV>::empty());
        }
        res
    }

    /// How many aliases are defined.
    pub fn len(&self) -> (r: usize)
        ensures
            r == self@.len(),
    {
        self.entries.len()
    }

    /// The definition at a position, for listing.
    pub fn get_at(&self, i: usize) -> (r: &Alias)
        requires
            i < self@.len(),
        ensures
            r@ == self@[i as int],
    {
        &self.entries[i]
    }

    /// A deep copy of the definition a name maps to, if the name is aliased.
    pub fn lookup(&self, name: &String) -> (r: Option<Alias>)
        ensures
            match r {
                Option::Some(a) => spec_lookup_alias(self@, name@) == Option::Some(a@),
                Option::None => spec_lookup_alias(self@, name@) is None,
            },
    {
        let n = self.entries.len();
        proof {
            assert(self@.subrange(0, n as int) =~= self@);
        }
        let mut i: usize = 0;
        while i < n
            invariant
                n == self@.len(),
                i <= n,
                spec_lookup_alias(self@, name@) == spec_lookup_alias(
                    self@.subrange(i as int, n as int),
                    name@,
                ),
            decreases n - i,
        {
            proof {
                assert(self@.subrange(i as int, n as int)[0] == self@[i as int]);
            }
            if self.entries[i].alias.eq(name) {
                let found = self.entries[i].clone();
                return Option::Some(found);
            }
            proof {
                assert(self@.subrange(i as int, n as int).subrange(
                    1,
                    (n - i) as int,
                ) =~= self@.subrange(i + 1, n as int));
            }
            i += 1;
        }
        proof {
            assert(self@.subrange(n as int, n as int) =~= Seq::<AliasV>::empty());
        }
        Option::None
    }

    /// Defines or overwrites an alias.  An existing entry of the same name is
    /// replaced in place; otherwise the definition is appended.
    pub fn insert(&mut self, a: Alias)
        requires
            old(self).wf(),
        ensures
            final(self).wf(),
            final(self)@ == sp_alias_insert(old(self)@, a@),
            spec_lookup_alias(final(self)@, a@.alias) == Option::Some(a@),
            final(self)@.len() <= old(self)@.len() + 1,
            // every other name still maps to what it mapped to
            forall|name: Seq<char>|
                name != a@.alias ==> #[trigger] spec_lookup_alias(final(self)@, name)
                    == spec_lookup_alias(old(self)@, name),
    {
        let ghost old_view = self@;
        let n = self.entries.len();
        let mut i: usize = 0;
        while i < n
            invariant
                n == self@.len(),
                self@ == old_view,
                old(self)@ == old_view,
                self.wf(),
                i <= n,
                forall|j: int| 0 <= j < i ==> #[trigger] self@[j].alias != a@.alias,
            decreases n - i,
        {
            if self.entries[i].alias.eq(&a.alias) {
                let ghost idx = i as int;
                self.entries.set(i, a);
                proof {
                    assert(self@ =~= old_view.update(idx, a@));
                    lemma_alias_insert_at(old_view, idx, a@);
                    lemma_lookup_update(old_view, idx, a@);
                    assert forall|name: Seq<char>| name != a@.alias implies #[trigger] spec_lookup_alias(
                        self@,
                        name,
                    ) == spec_lookup_alias(old_view, name) by {
                        lemma_lookup_update_other(old_view, idx, a@, name);
                    }
                    assert forall|p: int, q: int|
                        0 <= p < q < self@.len() implies #[trigger] self@[p].alias
                        != #[trigger] self@[q].alias by {
                        assert(old_view[p].alias != old_view[q].alias);
                    }
                }
                return ;
            }
            i += 1;
        }
        self.entries.push(a);
        proof {
            assert(self@ =~= old_view.push(a@));
            lemma_alias_insert_new(old_view, a@);
            lemma_lookup_push_new(old_view, a@);
            assert forall|p: int, q: int|
                0 <= p < q < self@.len() implies #[trigger] self@[p].alias
                != #[trigger] self@[q].alias by {
                if q == old_view.len() {
                    assert(old_view[p].alias != a@.alias);
                } else {
                    assert(old_view[p].alias != old_view[q].alias);
                }
            }
        }
    }
}

/// Looking up the name of an updated entry finds the update, provided no
/// earlier entry shares that name.
proof fn lemma_lookup_update(entries: Seq<AliasV>, idx: int, a: AliasV)
    requires
        0 <= idx < entries.len(),
        forall|j: int| 0 <= j < idx ==> #[trigger] entries[j].alias != a.alias,
    ensures
        spec_lookup_alias(entries.update(idx, a), a.alias) == Option::Some(a),
    decreases idx,
{
    let updated = entries.update(idx, a);
    if idx == 0 {
        assert(updated[0] == a);
    } else {
        assert(updated[0] == entries[0]);
        assert(updated.subrange(1, updated.len() as int) =~= entries.subrange(
            1,
            entries.len() as int,
        ).update(idx - 1, a));
        lemma_lookup_update(entries.subrange(1, entries.len() as int), idx - 1, a);
    }
}

/// Updating one entry leaves the lookup of every other name unchanged.
proof fn lemma_lookup_update_other(entries: Seq<AliasV>, idx: int, a: AliasV, name: Seq<char>)
    requires
        0 <= idx < entries.len(),
        entries[idx].alias == a.alias,
        name != a.alias,
    ensures
        spec_lookup_alias(entries.update(idx, a), name) == spec_lookup_alias(entries, name),
    decreases idx,
{
    let updated = entries.update(idx, a);
    if idx == 0 {
        assert(updated[0] == a);
        assert(updated.subrange(1, updated.len() as int) =~= entries.subrange(
            1,
            entries.len() as int,
        ));
    } else {
        assert(updated[0] == entries[0]);
        if updated[0].alias != name {
            assert(updated.subrange(1, updated.len() as int) =~= entries.subrange(
                1,
                entries.len() as int,
            ).update(idx - 1, a));
            lemma_lookup_update_other(
                entries.subrange(1, entries.len() as int),
                idx - 1,
                a,
                name,
            );
        }
    }
}

/// Appending a fresh name finds it, and leaves every other lookup unchanged.
proof fn lemma_lookup_push_new(entries: Seq<AliasV>, a: AliasV)
    requires
        forall|j: int| 0 <= j < entries.len() ==> #[trigger] entries[j].alias != a.alias,
    ensures
        spec_lookup_alias(entries.push(a), a.alias) == Option::Some(a),
        forall|name: Seq<char>|
            name != a.alias ==> #[trigger] spec_lookup_alias(entries.push(a), name)
                == spec_lookup_alias(entries, name),
    decreases entries.len(),
{
    let pushed = entries.push(a);
    if entries.len() == 0 {
        assert(pushed[0] == a);
        assert(pushed.subrange(1, 1) =~= Seq::<AliasV>::empty());
        assert forall|name: Seq<char>| name != a.alias implies #[trigger] spec_lookup_alias(
            pushed,
            name,
        ) == spec_lookup_alias(entries, name) by {
            assert(spec_lookup_alias(pushed.subrange(1, 1), name) is None);
        }
    } else {
        let tail = entries.subrange(1, entries.len() as int);
        assert(pushed[0] == entries[0]);
        assert(pushed.subrange(1, pushed.len() as int) =~= tail.push(a));
        lemma_lookup_push_new(tail, a);
        assert forall|name: Seq<char>| name != a.alias implies #[trigger] spec_lookup_alias(
            pushed,
            name,
        ) == spec_lookup_alias(entries, name) by {
            if entries[0].alias != name {
                assert(spec_lookup_alias(tail.push(a), name) == spec_lookup_alias(tail, name));
            }
        }
    }
}

/// Looks a key up in a sequence of environment bindings.
pub open spec fn spec_lookup_env(entries: Seq<(Seq<char>, Seq<char>)>, key: Seq<char>) -> Option<
    Seq<char>,
>
    decreases entries,
{
    if entries.len() == 0 {
        Option::None
    } else if entries[0].0 == key {
        Option::Some(entries[0].1)
    } else {
        spec_lookup_env(entries.subrange(1, entries.len() as int), key)
    }
}

/// The environment after setting `kv`: the first binding of the same key is
/// replaced in place; with no such binding, `kv` is appended.
pub open spec fn sp_env_set(
    entries: Seq<(Seq<char>, Seq<char>)>,
    kv: (Seq<char>, Seq<char>),
) -> Seq<(Seq<char>, Seq<char>)>
    decreases entries,
{
    if entries.len() == 0 {
        seq![kv]
    } else if entries[0].0 == kv.0 {
        seq![kv] + entries.subrange(1, entries.len() as int)
    } else {
        seq![entries[0]] + sp_env_set(entries.subrange(1, entries.len() as int), kv)
    }
}

proof fn lemma_env_set_at(entries: Seq<(Seq<char>, Seq<char>)>, idx: int, kv: (Seq<char>, Seq<char>))
    requires
        0 <= idx < entries.len(),
        entries[idx].0 == kv.0,
        forall|j: int| 0 <= j < idx ==> #[trigger] entries[j].0 != kv.0,
    ensures
        sp_env_set(entries, kv) == entries.update(idx, kv),
    decreases idx,
{
    if idx == 0 {
        assert(sp_env_set(entries, kv) =~= entries.update(0, kv));
    } else {
        let tail = entries.subrange(1, entries.len() as int);
        lemma_env_set_at(tail, idx - 1, kv);
        assert(tail.update(idx - 1, kv) =~= entries.update(idx, kv).subrange(
            1,
            entries.len() as int,
        ));
        assert(sp_env_set(entries, kv) =~= entries.update(idx, kv));
    }
}

proof fn lemma_env_set_new(entries: Seq<(Seq<char>, Seq<char>)>, kv: (Seq<char>, Seq<char>))
    requires
        forall|j: int| 0 <= j < entries.len() ==> #[trigger] entries[j].0 != kv.0,
    ensures
        sp_env_set(entries, kv) == entries.push(kv),
    decreases entries.len(),
{
    if entries.len() == 0 {
        assert(sp_env_set(entries, kv) =~= entries.push(kv));
    } else {
        let tail = entries.subrange(1, entries.len() as int);
        lemma_env_set_new(tail, kv);
        assert(tail.push(kv) =~= entries.push(kv).subrange(1, entries.push(kv).len() as int));
        assert(sp_env_set(entries, kv) =~= entries.push(kv));
    }
}

/// One environment binding.
#[derive(Debug, PartialEq)]
pub struct EnvVar {
    pub key: String,
    pub value: String,
}

impl View for EnvVar {
    type V = (Seq<char>, Seq<char>);

    open spec fn view(&self) -> (Seq<char>, Seq<char>) {
        (self.key@, self.value@)
    }
}

impl Clone for EnvVar {
    /// A copy whose view is the view of the original.
    fn clone(&self) -> (res: Self)
        ensures
            res@ == self@,
    {
        EnvVar { key: self.key.clone(), value: self.value.clone() }
    }
}

/// The modelled environment of the shell process: a mapping from variable
/// name to value, keys unique.
#[derive(Debug)]
pub struct EnvTable {
    entries: Vec<EnvVar>,
}

impl View for EnvTable {
    type V = Seq<(Seq<char>, Seq<char>)>;

    closed spec fn view(&self) -> Seq<(Seq<char>, Seq<char>)> {
        Seq::new(self.entries@.len(), |i: int| self.entries@[i]@)
    }
}

impl EnvTable {
    /// Keys are pairwise distinct.
    pub open spec fn wf(&self) -> bool {
        forall|i: int, j: int|
            0 <= i < j < self@.len() ==> #[trigger] self@[i].0 != #[trigger] self@[j].0
    }

    /// An empty environment.
    pub fn new() -> (res: Self)
        ensures
            res@ == Seq::<(Seq<char>, Seq<char>)>::empty(),
            res.wf(),
    {
        let res = EnvTable { entries: Vec::new() };
        proof {
            assert(res@ =~= Seq::<(Seq<char>, Seq<char>)>::empty());
        }
        res
    }

    /// How many variables are set.
    pub fn len(&self) -> (r: usize)
        ensures
            r == self@.len(),
    {
        self.entries.len()
    }

    /// The binding at a position, for enumeration.
    pub fn get_at(&self, i: usize) -> (r: &EnvVar)
        requires
            i < self@.len(),
        ensures
            r@ == self@[i as int],
    {
        &self.entries[i]
    }

    /// The value a variable is set to, if it is set.
    pub fn get(&self, key: &String) -> (r: Option<String>)
        ensures
            match r {
                Option::Some(v) => spec_lookup_env(self@, key@) == Option::Some(v@),
                Option::None => spec_lookup_env(self@, key@) is None,
            },
    {
        let n = self.entries.len();
        proof {
            assert(self@.subrange(0, n as int) =~= self@);
        }
        let mut i: usize = 0;
        while i < n
            invariant
                n == self@.len(),
                i <= n,
                spec_lookup_env(self@, key@) == spec_lookup_env(
                    self@.subrange(i as int, n as int),
                    key@,
                ),
            decreases n - i,
        {
            proof {
                assert(self@.subrange(i as int, n as int)[0] == self@[i as int]);
            }
            if self.entries[i].key.eq(key) {
                return Option::Some(self.entries[i].value.clone());
            }
            proof {
                assert(self@.subrange(i as int, n as int).subrange(
                    1,
                    (n - i) as int,
                ) =~= self@.subrange(i + 1, n as int));
            }
            i += 1;
        }
        proof {
            assert(self@.subrange(n as int, n as int) =~= Seq::<(Seq<char>, Seq<char>)>::empty());
        }
        Option::None
    }

    /// Sets a variable, overwriting any earlier value of the same key.
    pub fn set(&mut self, key: String, value: String)
        requires
            old(self).wf(),
        ensures
            final(self).wf(),
            final(self)@ == sp_env_set(old(self)@, (key@, value@)),
            spec_lookup_env(final(self)@, key@) == Option::Some(value@),
            final(self)@.len() <= old(self)@.len() + 1,
            forall|k: Seq<char>|
                k != key@ ==> #[trigger] spec_lookup_env(final(self)@, k) == spec_lookup_env(
                    old(self)@,
                    k,
                ),
    {
        let ghost old_view = self@;
        let n = self.entries.len();
        let mut i: usize = 0;
        while i < n
            invariant
                n == self@.len(),
                self@ == old_view,
                old(self)@ == old_view,
                self.wf(),
                i <= n,
                forall|j: int| 0 <= j < i ==> #[trigger] self@[j].0 != key@,
            decreases n - i,
        {
            if self.entries[i].key.eq(&key) {
                let ghost idx = i as int;
                self.entries.set(i, EnvVar { key, value });
                proof {
                    assert(self@ =~= old_view.update(idx, (key@, value@)));
                    lemma_env_set_at(old_view, idx, (key@, value@));
                    lemma_env_update(old_view, idx, (key@, value@));
                    assert forall|k: Seq<char>| k != key@ implies #[trigger] spec_lookup_env(
                        self@,
                        k,
                    ) == spec_lookup_env(old_view, k) by {
                        lemma_env_update_other(old_view, idx, (key@, value@), k);
                    }
                    assert forall|p: int, q: int|
                        0 <= p < q < self@.len() implies #[trigger] self@[p].0
                        != #[trigger] self@[q].0 by {
                        assert(old_view[p].0 != old_view[q].0);
                    }
                }
                return ;
            }
            i += 1;
        }
        self.entries.push(EnvVar { key, value });
        proof {
            assert(self@ =~= old_view.push((key@, value@)));
            lemma_env_set_new(old_view, (key@, value@));
            lemma_env_push_new(old_view, (key@, value@));
            assert forall|p: int, q: int|
                0 <= p < q < self@.len() implies #[trigger] self@[p].0
                != #[trigger] self@[q].0 by {
                if q == old_view.len() {
                    assert(old_view[p].0 != key@);
                } else {
                    assert(old_view[p].0 != old_view[q].0);
                }
            }
        }
    }
}

proof fn lemma_env_update(entries: Seq<(Seq<char>, Seq<char>)>, idx: int, a: (Seq<char>, Seq<char>))
    requires
        0 <= idx < entries.len(),
        forall|j: int| 0 <= j < idx ==> #[trigger] entries[j].0 != a.0,
    ensures
        spec_lookup_env(entries.update(idx, a), a.0) == Option::Some(a.1),
    decreases idx,
{
    let updated = entries.update(idx, a);
    if idx == 0 {
        assert(updated[0] == a);
    } else {
        assert(updated[0] == entries[0]);
        assert(updated.subrange(1, updated.len() as int) =~= entries.subrange(
            1,
            entries.len() as int,
        ).update(idx - 1, a));
        lemma_env_update(entries.subrange(1, entries.len() as int), idx - 1, a);
    }
}

proof fn lemma_env_update_other(
    entries: Seq<(Seq<char>, Seq<char>)>,
    idx: int,
    a: (Seq<char>, Seq<char>),
    k: Seq<char>,
)
    requires
        0 <= idx < entries.len(),
        entries[idx].0 == a.0,
        k != a.0,
    ensures
        spec_lookup_env(entries.update(idx, a), k) == spec_lookup_env(entries, k),
    decreases idx,
{
    let updated = entries.update(idx, a);
    if idx == 0 {
        assert(updated[0] == a);
        assert(updated.subrange(1, updated.len() as int) =~= entries.subrange(
            1,
            entries.len() as int,
        ));
    } else {
        assert(updated[0] == entries[0]);
        if updated[0].0 != k {
            assert(updated.subrange(1, updated.len() as int) =~= entries.subrange(
                1,
                entries.len() as int,
            ).update(idx - 1, a));
            lemma_env_update_other(entries.subrange(1, entries.len() as int), idx - 1, a, k);
        }
    }
}

proof fn lemma_env_push_new(entries: Seq<(Seq<char>, Seq<char>)>, a: (Seq<char>, Seq<char>))
    requires
        forall|j: int| 0 <= j < entries.len() ==> #[trigger] entries[j].0 != a.0,
    ensures
        spec_lookup_env(entries.push(a), a.0) == Option::Some(a.1),
        forall|k: Seq<char>|
            k != a.0 ==> #[trigger] spec_lookup_env(entries.push(a), k) == spec_lookup_env(
                entries,
                k,
            ),
    decreases entries.len(),
{
    let pushed = entries.push(a);
    if entries.len() == 0 {
        assert(pushed[0] == a);
        assert(pushed.subrange(1, 1) =~= Seq::<(Seq<char>, Seq<char>)>::empty());
        assert forall|k: Seq<char>| k != a.0 implies #[trigger] spec_lookup_env(pushed, k)
            == spec_lookup_env(entries, k) by {
            assert(spec_lookup_env(pushed.subrange(1, 1), k) is None);
        }
    } else {
        let tail = entries.subrange(1, entries.len() as int);
        assert(pushed[0] == entries[0]);
        assert(pushed.subrange(1, pushed.len() as int) =~= tail.push(a));
        lemma_env_push_new(tail, a);
        assert forall|k: Seq<char>| k != a.0 implies #[trigger] spec_lookup_env(pushed, k)
            == spec_lookup_env(entries, k) by {
            if entries[0].0 != k {
                assert(spec_lookup_env(tail.push(a), k) == spec_lookup_env(tail, k));
            }
        }
    }
}

/// The mutable record visible to the execution engine, the signal forwarder
/// and the status responder.
#[derive(Debug)]
pub struct State {
    /// The alias table.
    pub aliases: AliasTable,
    /// The modelled process environment.
    pub env: EnvTable,
    /// Where the line editor persists history.
    pub history_path: String,
    /// The name of the command currently being run, if any.
    pub current_command: Option<String>,
    /// The process id of the currently running foreground process, if any.
    pub running_pid: Option<u32>,
    /// This shell process's own id, used to skip itself when listing peers.
    pub own_pid: u32,
}

impl Clone for AliasTable {
    /// A copy whose view is the view of the original.
    fn clone(&self) -> (res: Self)
        ensures
            res@ == self@,
    {
        let mut entries: Vec<Alias> = Vec::new();
        let mut i: usize = 0;
        while i < self.entries.len()
            invariant
                i <= self.entries@.len(),
                entries@.len() == i,
                forall|j: int| 0 <= j < i ==> #[trigger] entries@[j]@ == self.entries@[j]@,
            decreases self.entries@.len() - i,
        {
            let a = self.entries[i].clone();
            entries.push(a);
            i += 1;
        }
        let res = AliasTable { entries };
        proof {
            assert(res@ =~= self@);
        }
        res
    }
}

impl Clone for EnvTable {
    /// A copy whose view is the view of the original.
    fn clone(&self) -> (res: Self)
        ensures
            res@ == self@,
    {
        let mut entries: Vec<EnvVar> = Vec::new();
        let mut i: usize = 0;
        while i < self.entries.len()
            invariant
                i <= self.entries@.len(),
                entries@.len() == i,
                forall|j: int| 0 <= j < i ==> #[trigger] entries@[j]@ == self.entries@[j]@,
            decreases self.entries@.len() - i,
        {
            let a = self.entries[i].clone();
            entries.push(a);
            i += 1;
        }
        let res = EnvTable { entries };
        proof {
            assert(res@ =~= self@);
        }
        res
    }
}

/// The mathematical shape of a [`State`].
pub struct StateV {
    pub aliases: Seq<AliasV>,
    pub env: Seq<(Seq<char>, Seq<char>)>,
    pub history_path: Seq<char>,
    pub current_command: Option<Seq<char>>,
    pub running_pid: Option<u32>,
    pub own_pid: u32,
}

impl View for State {
    type V = StateV;

    open spec fn view(&self) -> StateV {
        StateV {
            aliases: self.aliases@,
            env: self.env@,
            history_path: self.history_path@,
            current_command: view_opt_string(self.current_command),
            running_pid: self.running_pid,
            own_pid: self.own_pid,
        }
    }
}

impl Clone for State {
    /// A copy whose view is the view of the original.
    fn clone(&self) -> (res: Self)
        ensures
            res@ == self@,
    {
        State {
            aliases: self.aliases.clone(),
            env: self.env.clone(),
            history_path: self.history_path.clone(),
            current_command: match &self.current_command {
                Option::Some(c) => Option::Some(c.clone()),
                Option::None => Option::None,
            },
            running_pid: self.running_pid,
            own_pid: self.own_pid,
        }
    }
}

impl State {
    /// Both tables keep their keys unique.
    pub open spec fn wf(&self) -> bool {
        self.aliases.wf() && self.env.wf()
    }
}

} // verus!
