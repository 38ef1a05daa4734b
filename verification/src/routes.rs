//! The routing rule: which handler answers which verb and function name.

use vstd::prelude::*;
use crate::request::Verb;

verus! {

/// The handlers that are registered, one table for each verb.
pub struct Routes<H> {
    pub get: Map<Seq<char>, H>,
    pub post: Map<Seq<char>, H>,
}

/// One registration: a verb, a function name and the handler for them.
pub struct Registration<H> {
    pub verb: Verb,
    pub name: Seq<char>,
    pub handler: H,
}

impl<H> Routes<H> {
    /// No handler at all.
    pub open spec fn empty() -> Self {
        Routes { get: Map::empty(), post: Map::empty() }
    }

    /// The table of one verb.
    pub open spec fn table(self, verb: Verb) -> Map<Seq<char>, H> {
        match verb {
            Verb::Get => self.get,
            Verb::Post => self.post,
        }
    }

    /// The routes after `handler` is registered for `verb` and `name`,
    /// in place of any handler registered for them before.
    pub open spec fn register(self, verb: Verb, name: Seq<char>, handler: H) -> Self {
        match verb {
            Verb::Get => Routes { get: self.get.insert(name, handler), post: self.post },
            Verb::Post => Routes { get: self.get, post: self.post.insert(name, handler) },
        }
    }

    /// The handler for `verb` and `name`, if one is registered.
    pub open spec fn resolve(self, verb: Verb, name: Seq<char>) -> Option<H> {
        if self.table(verb).contains_key(name) {
            Some(self.table(verb)[name])
        } else {
            None
        }
    }

    /// The routes after each of `registrations` is made, in order.
    pub open spec fn register_all(self, registrations: Seq<Registration<H>>) -> Self
        decreases registrations.len(),
    {
        if registrations.len() == 0 {
            self
        } else {
            let last = registrations.last();
            self.register_all(registrations.drop_last()).register(
                last.verb,
                last.name,
                last.handler,
            )
        }
    }
}

/// Whether registration `i` of `registrations` is for `verb` and `name`.
pub open spec fn registers<H>(
    registrations: Seq<Registration<H>>,
    i: int,
    verb: Verb,
    name: Seq<char>,
) -> bool {
    0 <= i < registrations.len() && registrations[i].verb == verb && registrations[i].name == name
}

/// Nothing resolves before anything is registered.
pub proof fn law_empty_resolves_nothing<H>(verb: Verb, name: Seq<char>)
    ensures
        Routes::<H>::empty().resolve(verb, name) is None,
{
}

/// Right after a handler is registered for a verb and a name, that verb
/// and name resolve to it, and every other pair resolves as it did before.
pub proof fn law_register_then_resolve<H>(
    routes: Routes<H>,
    verb: Verb,
    name: Seq<char>,
    handler: H,
    other_verb: Verb,
    other_name: Seq<char>,
)
    ensures
        routes.register(verb, name, handler).resolve(verb, name) == Some(handler),
        other_verb != verb || other_name != name ==> routes.register(verb, name, handler).resolve(
            other_verb,
            other_name,
        ) == routes.resolve(other_verb, other_name),
{
}

/// After any number of registrations, starting from none, a verb and a
/// name resolve to the handler of the last registration made for them, and
/// to nothing where no registration was made for them.
pub proof fn law_resolve_after_registrations<H>(
    registrations: Seq<Registration<H>>,
    verb: Verb,
    name: Seq<char>,
)
    ensures
        match Routes::<H>::empty().register_all(registrations).resolve(verb, name) {
            Some(handler) => exists|i: int|
                {
                    &&& #[trigger] registers(registrations, i, verb, name)
                    &&& registrations[i].handler == handler
                    &&& forall|j: int| i < j ==> !registers(registrations, j, verb, name)
                },
            None => forall|i: int| !registers(registrations, i, verb, name),
        },
    decreases registrations.len(),
{
    if registrations.len() > 0 {
        let front = registrations.drop_last();
        let last = registrations.last();
        let end = registrations.len() - 1;
        law_resolve_after_registrations(front, verb, name);
        assert forall|i: int| registers(front, i, verb, name) == (i < end && registers(
            registrations,
            i,
            verb,
            name,
        )) by {
            if 0 <= i < end {
                assert(front[i] == registrations[i]);
            }
        }
        if last.verb == verb && last.name == name {
            assert(registers(registrations, end, verb, name));
        } else {
            match Routes::<H>::empty().register_all(front).resolve(verb, name) {
                Some(handler) => {
                    let i = choose|i: int|
                        {
                            &&& #[trigger] registers(front, i, verb, name)
                            &&& front[i].handler == handler
                            &&& forall|j: int| i < j ==> !registers(front, j, verb, name)
                        };
                    assert(registers(registrations, i, verb, name));
                },
                None => {},
            }
        }
    }
}

/// Registering twice for the same verb and name leaves the routes as if
/// only the second registration had been made: the first handler is gone.
pub proof fn law_second_registration_wins<H>(
    routes: Routes<H>,
    verb: Verb,
    name: Seq<char>,
    first: H,
    second: H,
)
    ensures
        routes.register(verb, name, first).register(verb, name, second) == routes.register(
            verb,
            name,
            second,
        ),
        routes.register(verb, name, first).register(verb, name, second).resolve(verb, name)
            == Some(second),
{
    let twice = routes.register(verb, name, first).register(verb, name, second);
    let once = routes.register(verb, name, second);
    assert(twice.get =~= once.get);
    assert(twice.post =~= once.post);
}

} // verus!
