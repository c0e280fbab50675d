//! The one browser that a process shares: when it is reused, when it is
//! replaced, and how it is probed.

use vstd::prelude::*;
use vstd::string::*;
use crate::protocol::{no_params, no_params_text, one_text_param, one_text_param_text};
use crate::reply::{page_target, page_target_of};
use crate::tab::{browser_call, BrowserCall};
use crate::transport::{command_frame, IdCounter};

verus! {

/// The slot of the one browser that a process shares.
#[derive(Debug)]
pub struct Registry<B> {
    slot: Option<B>,
}

impl<B> View for Registry<B> {
    type V = Option<B>;

    /// The browser held, if one is.
    closed spec fn view(&self) -> Option<B> {
        self.slot
    }
}

/// What an access has to do first, given what is held.
pub open spec fn first_step<B>(slot: Option<B>) -> Access {
    if slot is Some {
        Access::Probe
    } else {
        Access::Launch
    }
}

/// What is held after the probe of the browser held: the same where it is
/// alive, nothing where it is dead.
pub open spec fn probed_slot<B>(slot: Option<B>, alive: bool) -> Option<B> {
    if alive {
        slot
    } else {
        None
    }
}

/// What is held once `fresh` has been launched: `fresh`, whatever was held.
pub open spec fn installed<B>(slot: Option<B>, fresh: B) -> Option<B> {
    Some(fresh)
}

/// What an access to the shared browser has to do first.
#[derive(Debug, Clone, Copy, PartialEq, Eq, Structural)]
pub enum Access {
    /// A browser is held: find out whether it is alive.
    Probe,
    /// None is held: launch one.
    Launch,
}

impl<B> Registry<B> {
    /// The registry that holds no browser.
    pub fn new() -> (registry: Registry<B>)
        ensures
            registry@ is None,
    {
        Registry { slot: None }
    }

    /// Tells what an access has to do first.
    pub fn on_access(&self) -> (access: Access)
        ensures
            access == first_step(self@),
    {
        if self.slot.is_some() {
            Access::Probe
        } else {
            Access::Launch
        }
    }

    /// The browser held, if one is.
    pub fn held(&self) -> (browser: Option<&B>)
        ensures
            browser is Some == self@ is Some,
            browser matches Some(b) ==> self@ == Some(*b),
    {
        self.slot.as_ref()
    }

    /// Takes the result of the probe of the browser held. A live browser
    /// stays; a dead one is handed out, for closing, and is held no more.
    pub fn after_probe(&mut self, alive: bool) -> (dead: Option<B>)
        ensures
            final(self)@ == probed_slot(old(self)@, alive),
            dead == (if alive {
                None
            } else {
                old(self)@
            }),
    {
        if alive {
            None
        } else {
            self.slot.take()
        }
    }

    /// Holds `fresh` from now on. A browser held before is handed out.
    pub fn install(&mut self, fresh: B) -> (displaced: Option<B>)
        ensures
            final(self)@ == installed(old(self)@, fresh),
            displaced == old(self)@,
    {
        let displaced = self.slot.take();
        self.slot = Some(fresh);
        displaced
    }

    /// Empties the registry and hands out the browser held, for closing.
    pub fn shutdown(&mut self) -> (held: Option<B>)
        ensures
            final(self)@ is None,
            held == old(self)@,
    {
        self.slot.take()
    }
}

/// A dead browser is never handed out again: once the probe of the browser
/// held has failed, the registry holds nothing and asks for a launch, and
/// after the launch it holds the browser that was launched.
pub proof fn lemma_dead_browser_is_replaced<B>(held: B, fresh: B)
    ensures
        probed_slot(Some(held), false) is None,
        first_step(probed_slot(Some(held), false)) == Access::Launch,
        installed(probed_slot(Some(held), false), fresh) == Some(fresh),
        probed_slot(Some(held), true) == Some(held),
{
}

/// The frame that asks the browser for its targets, under `id`. Its reply
/// tells that the browser is alive, and which pages it has open.
pub open spec fn targets_frame(id: u64) -> Seq<char> {
    command_frame(id, "Target.getTargets"@, no_params())
}

/// Frames the request for the browser's targets: the probe that tells
/// whether the browser is alive. A reply, whatever it says, means alive; an
/// error or no reply in time means dead.
pub fn is_alive(counter: &mut IdCounter) -> (call: BrowserCall)
    requires
        old(counter).last_issued() < u64::MAX,
    ensures
        call.id == old(counter).last_issued() + 1,
        final(counter).last_issued() == call.id,
        call.frame@ == targets_frame(call.id),
{
    let params = no_params_text();
    browser_call(counter, "Target.getTargets", params.as_str())
}

/// The frame that closes the target `target_id`, under `id`.
pub open spec fn close_target_frame(id: u64, target_id: Seq<char>) -> Seq<char> {
    command_frame(id, "Target.closeTarget"@, one_text_param("targetId"@, target_id))
}

/// Frames the closing of the blank page that a fresh browser opens by
/// itself, given the reply that lists the browser's targets: `None` where
/// the reply names no page.
pub fn close_blank_page(counter: &mut IdCounter, targets_reply: &str) -> (call: Option<BrowserCall>)
    requires
        old(counter).last_issued() < u64::MAX,
    ensures
        match call {
            Some(c) => {
                &&& page_target_of(targets_reply@) is Some
                &&& c.id == old(counter).last_issued() + 1
                &&& final(counter).last_issued() == c.id
                &&& c.frame@ == close_target_frame(c.id, page_target_of(targets_reply@)->0)
            },
            None => {
                &&& page_target_of(targets_reply@) is None
                &&& final(counter).last_issued() == old(counter).last_issued()
            },
        },
{
    match page_target(targets_reply) {
        Some(target_id) => {
            let params = one_text_param_text("targetId", target_id.as_str());
            Some(browser_call(counter, "Target.closeTarget", params.as_str()))
        },
        None => None,
    }
}

} // verus!
