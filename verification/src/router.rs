//! The action router: installs the menu once — a one-way transition from
//! uninstalled to installed, performed at startup before any activation can be
//! dispatched — and turns each activation of an action leaf into exactly one
//! event carrying that leaf's stable identifier, in activation order.

use vstd::prelude::*;
use crate::actions::{ActionId, action_id_chars, action_id_str, lemma_action_ids_injective, parse_action_id};
use crate::menu::Menu;

verus! {

/// Routes menu activations to the frontend. Holds the installed menu, if any,
/// and the log of identifiers emitted so far, oldest first.
pub struct Router {
    /// The installed menu; absent while the router is still uninstalled.
    pub menu: Option<Menu>,
    /// Identifiers emitted to the frontend, in activation order.
    pub events: Vec<String>,
}

impl Router {
    /// Whether the one-way transition to the installed state has happened.
    pub open spec fn installed(self) -> bool {
        self.menu is Some
    }

    /// The router's invariant: an installed menu is well formed.
    pub open spec fn wf(self) -> bool {
        self.menu matches Some(m) ==> m.wf()
    }

    /// A fresh router: uninstalled, nothing emitted.
    pub fn new() -> (r: Self)
        ensures
            !r.installed(),
            r.wf(),
            r.events@ == Seq::<String>::empty(),
    {
        Router { menu: None, events: Vec::new() }
    }

    /// Installs the menu: performed exactly once, at startup; there is no way
    /// back to the uninstalled state.
    pub fn install(&mut self, menu: Menu)
        requires
            !old(self).installed(),
            menu.wf(),
        ensures
            final(self).installed(),
            final(self).wf(),
            final(self).menu == Some(menu),
            final(self).events@ == old(self).events@,
    {
        self.menu = Some(menu);
    }

    /// Delivers one user activation. No activation can be dispatched before
    /// installation. When `id` is an action of the installed menu, exactly one
    /// event equal to its identifier is emitted; otherwise nothing is.
    pub fn activate(&mut self, id: ActionId) -> (emitted: bool)
        requires
            old(self).installed(),
            old(self).wf(),
        ensures
            final(self).installed(),
            final(self).wf(),
            final(self).menu == old(self).menu,
            emitted == old(self).menu.unwrap().action_ids@.contains(id),
            emitted ==> final(self).events@.len() == old(self).events@.len() + 1,
            emitted ==> final(self).events@.last()@ == action_id_chars(id),
            emitted ==> final(self).events@.drop_last() == old(self).events@,
            !emitted ==> final(self).events@ == old(self).events@,
    {
        let present = match &self.menu {
            Some(m) => m.contains_action(id),
            None => false,
        };
        if present {
            self.events.push(action_id_str(id));
            proof {
                assert(self.events@.drop_last() =~= old(self).events@);
            }
            true
        } else {
            false
        }
    }

    /// Delivers one user activation named by its wire identifier, as the OS
    /// shell reports it. Exactly one event equal to `name` is emitted when
    /// `name` is the identifier of an action of the installed menu; otherwise
    /// nothing is.
    pub fn activate_named(&mut self, name: &str) -> (emitted: bool)
        requires
            old(self).installed(),
            old(self).wf(),
        ensures
            final(self).installed(),
            final(self).wf(),
            final(self).menu == old(self).menu,
            emitted == exists|a: ActionId|
                old(self).menu.unwrap().action_ids@.contains(a) && name@ == action_id_chars(a),
            emitted ==> final(self).events@.len() == old(self).events@.len() + 1,
            emitted ==> final(self).events@.last()@ == name@,
            emitted ==> final(self).events@.drop_last() == old(self).events@,
            !emitted ==> final(self).events@ == old(self).events@,
    {
        match parse_action_id(name) {
            Some(a) => {
                let r = self.activate(a);
                proof {
                    lemma_action_ids_injective();
                    if r {
                        assert(old(self).menu.unwrap().action_ids@.contains(a) && name@
                            == action_id_chars(a));
                    }
                }
                r
            },
            None => false,
        }
    }
}

} // verus!
