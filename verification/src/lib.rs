//! A minimal reactive UI component: a display buffer driven by discrete
//! messages, together with the data record it is meant to eventually display.
//!
//! The component (`Model`) owns a single piece of state, the accumulated
//! display text, plus a capturing buffer for its diagnostic log entries.
//! The host runtime delivers one message at a time through [`Model::update`],
//! asks for a fresh render through [`Model::view`], and drains the log
//! through [`Model::take_log`].

use vstd::prelude::*;
use vstd::string::StringExecFns;

pub mod html;
pub mod npc;

use crate::html::{Button, Html, Menu, rendering_of};

verus! {

/// A discrete input event delivered to the component by the host runtime.
///
/// The set of variants is closed and matched exhaustively, so further
/// commands can be added later without breaking the existing handling logic.
#[derive(Debug, Clone, Copy, PartialEq, Eq)]
pub enum Msg {
    /// Append the literal `"Goblin"` to the display text.
    AddGoblin,
}

/// The display text that processing one message leaves, given the text
/// before it.
pub open spec fn text_after(text: Seq<char>, msg: Msg) -> Seq<char> {
    match msg {
        Msg::AddGoblin => text + "Goblin"@,
    }
}

/// The diagnostic entries that processing one message leaves, given the
/// entries before it.
pub open spec fn log_after(log: Seq<Seq<char>>, msg: Msg) -> Seq<Seq<char>> {
    match msg {
        Msg::AddGoblin => log.push("Added goblin"@),
    }
}

/// The content of the diagnostic sink, entry by entry.
pub open spec fn log_entries(log: Seq<String>) -> Seq<Seq<char>> {
    log.map_values(|s: String| s@)
}

/// The reactive component's state.
///
/// `text` is the accumulated display buffer; it is mutated only by message
/// handling, and always equals the concatenation of what the messages
/// processed so far appended, in processing order. `log` is the diagnostic
/// sink, modelled as a capturing buffer: the component only appends to it,
/// and the host drains it with [`Model::take_log`].
pub struct Model {
    pub text: String,
    pub log: Vec<String>,
}

impl Model {
    /// Construct a freshly mounted component: empty display text, empty log.
    pub fn create() -> (m: Model)
        ensures
            m.text@ == Seq::<char>::empty(),
            m.log@ == Seq::<String>::empty(),
    {
        Model { text: String::new(), log: Vec::new() }
    }

    /// Process one message: mutate the display text as the message demands,
    /// record one diagnostic entry, and report whether the host must
    /// re-render. Every accepted message asks for a re-render.
    pub fn update(&mut self, msg: Msg) -> (render: bool)
        ensures
            render == true,
            final(self).text@ == text_after(old(self).text@, msg),
            log_entries(final(self).log@) == log_after(log_entries(old(self).log@), msg),
    {
        match msg {
            Msg::AddGoblin => {
                self.text.append("Goblin");
                self.log.push("Added goblin".to_owned());
            }
        }
        proof {
            assert(log_entries(self.log@) =~= log_after(log_entries(old(self).log@), msg));
        }
        true
    }

    /// Project the current state to a render output: the fixed navigation
    /// region next to the display text, verbatim. A pure query: the same
    /// state always yields the same tree.
    pub fn view(&self) -> (h: Html)
        ensures
            h@ == rendering_of(self.text@),
    {
        let mut buttons: Vec<Button> = Vec::new();
        buttons.push(Button { label: "Add Goblin".to_owned(), on_click: Msg::AddGoblin });
        let h = Html { menu: Menu { buttons }, display: self.text.clone() };
        proof {
            assert(h@.buttons =~= rendering_of(self.text@).buttons);
        }
        h
    }

    /// Hand the accumulated diagnostic entries to the host, oldest first,
    /// and leave the sink empty. The display text is untouched.
    pub fn take_log(&mut self) -> (entries: Vec<String>)
        ensures
            final(self).text == old(self).text,
            final(self).log@ == Seq::<String>::empty(),
            entries@ == old(self).log@,
    {
        let mut entries: Vec<String> = Vec::new();
        core::mem::swap(&mut entries, &mut self.log);
        entries
    }
}

/// The display text after a whole sequence of messages, processed strictly
/// one at a time, in order.
pub open spec fn text_after_all(text: Seq<char>, msgs: Seq<Msg>) -> Seq<char>
    decreases msgs.len(),
{
    if msgs.len() == 0 {
        text
    } else {
        text_after_all(text_after(text, msgs[0]), msgs.drop_first())
    }
}

/// The literal `"Goblin"` repeated `n` times, with no separators.
pub open spec fn goblins(n: nat) -> Seq<char>
    decreases n,
{
    if n == 0 {
        Seq::<char>::empty()
    } else {
        goblins((n - 1) as nat) + "Goblin"@
    }
}

proof fn lemma_goblins_step(start: nat, msgs: Seq<Msg>)
    ensures
        text_after_all(goblins(start), msgs) == goblins(start + msgs.len()),
    decreases msgs.len(),
{
    if msgs.len() != 0 {
        assert(text_after(goblins(start), msgs[0]) == goblins(start + 1));
        lemma_goblins_step(start + 1, msgs.drop_first());
    }
}

/// Processing any sequence of messages from the initial state leaves
/// `"Goblin"` repeated once per message, with no separators.
pub proof fn lemma_goblin_accumulation(msgs: Seq<Msg>)
    ensures
        text_after_all(Seq::<char>::empty(), msgs) == goblins(msgs.len()),
{
    lemma_goblins_step(0, msgs);
}

} // verus!
