//! The native-function registry: a mapping from call-site name to a
//! host-chosen handler, built once at startup.
//!
//! Handlers form a tagged dispatch table: each registered name is bound to
//! one member of [`NativeFn`], and the virtual machine interprets that tag
//! when a call instruction resolves to it. The large unimplemented part of
//! the native surface shares the single [`NativeFn::NotImplemented`] entry.

use vstd::prelude::*;

verus! {

/// The behaviour bound to a registered native-function name.
#[derive(Clone, Copy, PartialEq, Eq, Structural, Debug)]
pub enum NativeFn {
    /// The deliberate stub for the unimplemented native surface: consumes
    /// nothing and has no effect.
    NotImplemented,
    /// An intentionally empty handler: consumes nothing and has no effect.
    Noop,
    /// Pulls one real and two integers; no further effect.
    FlashOutBlack,
    /// Pulls one integer naming the movie text slot; no further effect.
    PlayMovie,
    /// Pulls one integer flag; no further effect.
    OpenMovieFlag,
    /// Pulls one real and suspends the machine for that long.
    Wait,
    /// Pulls one integer percentage; no further effect.
    AddQuestCompletePercentage,
    /// Pulls three texts and one integer, then redirects the active frame to
    /// the named module's composed entry point.
    ArenaLoad,
}

/// How many argument slots a handler pulls, in declared order.
pub open spec fn arity(f: NativeFn) -> nat {
    match f {
        NativeFn::NotImplemented => 0,
        NativeFn::Noop => 0,
        NativeFn::FlashOutBlack => 3,
        NativeFn::PlayMovie => 1,
        NativeFn::OpenMovieFlag => 1,
        NativeFn::Wait => 1,
        NativeFn::AddQuestCompletePercentage => 1,
        NativeFn::ArenaLoad => 4,
    }
}

/// One registered binding.
pub struct RegEntry {
    pub name: String,
    pub func: NativeFn,
}

/// The mathematical shape of a [`RegEntry`].
pub struct RegEntryModel {
    pub name: Seq<char>,
    pub func: NativeFn,
}

impl View for RegEntry {
    type V = RegEntryModel;

    open spec fn view(&self) -> RegEntryModel {
        RegEntryModel { name: self.name@, func: self.func }
    }
}

/// The handler bound to `name` in `entries`: the first binding with that
/// name, if one is there.
pub open spec fn spec_lookup(entries: Seq<RegEntryModel>, name: Seq<char>) -> Option<NativeFn>
    decreases entries.len(),
{
    if entries.len() == 0 {
        None
    } else if entries[0].name == name {
        Some(entries[0].func)
    } else {
        spec_lookup(entries.drop_first(), name)
    }
}

/// The registry of native functions, keyed by exact, case-sensitive name.
pub struct NativeRegistry {
    entries: Vec<RegEntry>,
}

impl View for NativeRegistry {
    type V = Seq<RegEntryModel>;

    closed spec fn view(&self) -> Seq<RegEntryModel> {
        self.entries@.map_values(|e: RegEntry| e@)
    }
}

impl NativeRegistry {
    /// An empty registry.
    pub fn new() -> (r: NativeRegistry)
        ensures
            r@ == Seq::<RegEntryModel>::empty(),
    {
        let r = NativeRegistry { entries: Vec::new() };
        proof {
            assert(r@ =~= Seq::<RegEntryModel>::empty());
        }
        r
    }

    pub open spec fn len_spec(&self) -> nat {
        self@.len()
    }

    /// How many names are registered.
    pub fn len(&self) -> (n: usize)
        ensures
            n == self.len_spec(),
    {
        self.entries.len()
    }

    /// Resolves a call-site name; an unresolved name returns `None` and is
    /// never a crash.
    pub fn lookup(&self, name: &str) -> (r: Option<NativeFn>)
        ensures
            r == spec_lookup(self@, name@),
    {
        let key: String = name.to_owned();
        proof {
            assert(self@.skip(0) =~= self@);
        }
        let mut i: usize = 0;
        while i < self.entries.len()
            invariant
                i <= self.entries@.len(),
                key@ == name@,
                spec_lookup(self@, name@) == spec_lookup(self@.skip(i as int), name@),
            decreases self.entries@.len() - i,
        {
            proof {
                assert(self@.skip(i as int)[0] == self@[i as int]);
                assert(self@.skip(i as int).drop_first() =~= self@.skip(i + 1));
            }
            if self.entries[i].name == key {
                proof {
                    assert(self@[i as int].name == name@);
                }
                return Some(self.entries[i].func);
            }
            proof {
                assert(self@[i as int].name != name@);
            }
            i += 1;
        }
        proof {
            assert(self@.skip(i as int).len() == 0);
        }
        None
    }

    /// Registers a handler under `name`. A name that is already bound is
    /// rejected, deterministically: the first registration wins and the
    /// call returns `false`.
    pub fn register(&mut self, name: String, func: NativeFn) -> (added: bool)
        ensures
            added == (spec_lookup(old(self)@, name@) is None),
            added ==> final(self)@ == old(self)@.push(
                RegEntryModel { name: name@, func: func },
            ),
            !added ==> final(self)@ == old(self)@,
            forall|n: Seq<char>|
                n != name@ ==> #[trigger] spec_lookup(final(self)@, n) == spec_lookup(
                    old(self)@,
                    n,
                ),
            spec_lookup(final(self)@, name@) == if spec_lookup(old(self)@, name@) is None {
                Some(func)
            } else {
                spec_lookup(old(self)@, name@)
            },
    {
        if self.lookup(name.as_str()).is_some() {
            return false;
        }
        let ghost pre = self@;
        self.entries.push(RegEntry { name, func });
        proof {
            assert(self@ =~= pre.push(RegEntryModel { name: name@, func: func }));
            lemma_lookup_push(pre, RegEntryModel { name: name@, func: func });
        }
        true
    }
}

/// Appending a binding changes only lookups of its own name, and those only
/// when the name was free.
proof fn lemma_lookup_push(entries: Seq<RegEntryModel>, e: RegEntryModel)
    ensures
        forall|n: Seq<char>|
            n != e.name ==> #[trigger] spec_lookup(entries.push(e), n) == spec_lookup(entries, n),
        spec_lookup(entries.push(e), e.name) == if spec_lookup(entries, e.name) is None {
            Some(e.func)
        } else {
            spec_lookup(entries, e.name)
        },
    decreases entries.len(),
{
    if entries.len() == 0 {
        assert(entries.push(e)[0] == e);
        assert(entries.push(e).drop_first() =~= Seq::<RegEntryModel>::empty());
        assert forall|n: Seq<char>| n != e.name implies #[trigger] spec_lookup(
            entries.push(e),
            n,
        ) == spec_lookup(entries, n) by {
            assert(spec_lookup(entries.push(e), n) == spec_lookup(
                entries.push(e).drop_first(),
                n,
            ));
        }
    } else {
        assert(entries.push(e)[0] == entries[0]);
        assert(entries.push(e).drop_first() =~= entries.drop_first().push(e));
        lemma_lookup_push(entries.drop_first(), e);
        assert forall|n: Seq<char>| n != e.name implies #[trigger] spec_lookup(
            entries.push(e),
            n,
        ) == spec_lookup(entries, n) by {
            assert(spec_lookup(entries.drop_first().push(e), n) == spec_lookup(
                entries.drop_first(),
                n,
            ));
            if entries[0].name != n {
                assert(spec_lookup(entries.push(e), n) == spec_lookup(
                    entries.push(e).drop_first(),
                    n,
                ));
                assert(spec_lookup(entries, n) == spec_lookup(entries.drop_first(), n));
            }
        }
        if entries[0].name != e.name {
            assert(spec_lookup(entries.push(e), e.name) == spec_lookup(
                entries.drop_first().push(e),
                e.name,
            ));
            assert(spec_lookup(entries, e.name) == spec_lookup(entries.drop_first(), e.name));
        }
    }
}

} // verus!
