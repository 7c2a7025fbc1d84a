//! The conversation transcript: an append-only sequence of messages, seeded
//! with four fixed system instructions, sent whole on every request.

use vstd::prelude::*;
use crate::error::ChatError;
use crate::message::{system_message, user_message, Message, MessageView};

verus! {

/// The instruction used when no general prompt is given on the command line.
pub open spec fn default_general() -> Seq<char> {
    "Please translate the following statement from Japanese to English. The answer should be only the English sentences."@
}

/// The fixed note telling the user about the `reset` command.
pub open spec fn reset_note() -> Seq<char> {
    "The user can reset the current state of the chat by inputting 'reset'."@
}

/// The fixed note telling the user about the `v` command.
pub open spec fn editor_note() -> Seq<char> {
    "The user can activate the editor by entering 'v', allowing them to input multiple lines of prompts."@
}

/// The fixed note telling the user how to leave.
pub open spec fn exit_note() -> Seq<char> {
    "To terminate, the user needs to input \"exit\"."@
}

/// The views of a sequence of messages.
pub open spec fn views_of(v: Seq<Message>) -> Seq<MessageView> {
    v.map_values(|m: Message| m@)
}

/// The transcript a session starts from: the general instruction (given or
/// default), then the three fixed notes, all spoken by the system.
pub open spec fn spec_seed(general: Seq<char>) -> Seq<MessageView> {
    seq![
        system_message(general),
        system_message(reset_note()),
        system_message(editor_note()),
        system_message(exit_note()),
    ]
}

/// The general instruction actually used for an optional override.
pub open spec fn general_text(general: Option<String>) -> Seq<char> {
    match general {
        Some(s) => s@,
        None => default_general(),
    }
}

/// The running conversation: the transcript so far, and a snapshot of the
/// startup seed that `reset` restores.
pub struct Conversation {
    seed: Vec<Message>,
    messages: Vec<Message>,
}

/// A copy, message by message, with the same views.
fn clone_messages(v: &Vec<Message>) -> (r: Vec<Message>)
    ensures
        views_of(r@) == views_of(v@),
{
    let mut r: Vec<Message> = Vec::new();
    let mut i: usize = 0;
    while i < v.len()
        invariant
            i <= v@.len(),
            r@.len() == i,
            forall|j: int| 0 <= j < i ==> r@[j]@ == v@[j]@,
        decreases v@.len() - i,
    {
        r.push(v[i].duplicate());
        i = i + 1;
    }
    proof {
        assert(views_of(r@) =~= views_of(v@));
    }
    r
}

impl Conversation {
    /// The seed snapshot, as message views.
    pub closed spec fn seed_view(self) -> Seq<MessageView> {
        views_of(self.seed@)
    }

    /// The transcript so far, as message views, oldest first.
    pub closed spec fn history(self) -> Seq<MessageView> {
        views_of(self.messages@)
    }

    /// The seed snapshot is a startup transcript for some general instruction.
    pub open spec fn wf(self) -> bool {
        exists|g: Seq<char>| self.seed_view() == spec_seed(g)
    }

    /// Start a conversation: the seed holds the given general instruction (or
    /// the default) and the three fixed notes, and the transcript equals it.
    pub fn new(general: Option<String>) -> (c: Conversation)
        ensures
            c.wf(),
            c.seed_view() == spec_seed(general_text(general)),
            c.history() == c.seed_view(),
    {
        let ghost g = general_text(general);
        let content: String = match general {
            Some(s) => s,
            None => "Please translate the following statement from Japanese to English. The answer should be only the English sentences.".to_owned(),
        };
        let mut seed: Vec<Message> = Vec::new();
        seed.push(Message::system(content));
        seed.push(
            Message::system(
                "The user can reset the current state of the chat by inputting 'reset'.".to_owned(),
            ),
        );
        seed.push(
            Message::system(
                "The user can activate the editor by entering 'v', allowing them to input multiple lines of prompts.".to_owned(),
            ),
        );
        seed.push(Message::system("To terminate, the user needs to input \"exit\".".to_owned()));
        let messages = clone_messages(&seed);
        let c = Conversation { seed, messages };
        proof {
            assert(c.seed_view() =~= spec_seed(g));
        }
        c
    }

    /// How many messages the transcript holds.
    pub fn history_len(&self) -> (n: usize)
        ensures
            n == self.history().len(),
    {
        self.messages.len()
    }

    /// The transcript entry at a position, oldest first.
    pub fn message_at(&self, i: usize) -> (m: &Message)
        requires
            i < self.history().len(),
        ensures
            m@ == self.history()[i as int],
    {
        &self.messages[i]
    }

    /// Replace the transcript wholesale with the startup seed.
    pub fn reset(&mut self)
        ensures
            final(self).history() == old(self).seed_view(),
            final(self).seed_view() == old(self).seed_view(),
            old(self).wf() ==> final(self).wf(),
    {
        self.messages = clone_messages(&self.seed);
    }

    /// Record one turn of user text and hand back the payload for the
    /// request: the text becomes exactly one User message at the end of the
    /// transcript, and the payload is the full transcript at that moment.
    pub fn prepare_request(&mut self, input: String) -> (payload: Vec<Message>)
        ensures
            final(self).history() == old(self).history().push(user_message(input@)),
            final(self).seed_view() == old(self).seed_view(),
            old(self).wf() ==> final(self).wf(),
            views_of(payload@) == final(self).history(),
    {
        let ghost before = self.messages@;
        self.messages.push(Message::user(input));
        proof {
            assert(views_of(self.messages@) =~= views_of(before).push(
                self.messages@[before.len() as int]@,
            ));
        }
        clone_messages(&self.messages)
    }

    /// Absorb the endpoint's answer. With no choices, report the failure and
    /// leave the transcript exactly as it was; otherwise append the first
    /// choice to the transcript and return it.
    pub fn absorb_choices(&mut self, choices: Vec<Message>) -> (r: Result<Message, ChatError>)
        ensures
            final(self).seed_view() == old(self).seed_view(),
            old(self).wf() ==> final(self).wf(),
            choices@.len() == 0 ==> r is Err && r->Err_0 == ChatError::NoChoices
                && final(self).history() == old(self).history(),
            choices@.len() > 0 ==> r is Ok && r->Ok_0@ == choices@[0]@ && final(self).history()
                == old(self).history().push(choices@[0]@),
    {
        let mut choices = choices;
        if choices.len() == 0 {
            Err(ChatError::NoChoices)
        } else {
            let ghost before = self.messages@;
            let answer = choices.remove(0);
            self.messages.push(answer.duplicate());
            proof {
                assert(views_of(self.messages@) =~= views_of(before).push(
                    self.messages@[before.len() as int]@,
                ));
            }
            Ok(answer)
        }
    }
}

/// After a reset the transcript is the startup seed again — the general
/// instruction followed by the three fixed notes — however many turns came
/// before. The hypotheses are the contracts of `Conversation::new` (the seed
/// is a startup transcript) and `Conversation::reset` (the transcript becomes
/// the seed).
pub proof fn lemma_reset_restores_seed(
    before: Conversation,
    after: Conversation,
    g: Seq<char>,
)
    requires
        before.seed_view() == spec_seed(g),
        after.history() == before.seed_view(),
    ensures
        after.history() == spec_seed(g),
        after.history().len() == 4,
        after.history()[0] == system_message(g),
        after.history()[1] == system_message(reset_note()),
        after.history()[2] == system_message(editor_note()),
        after.history()[3] == system_message(exit_note()),
{
}

/// Once an editor session has yielded its text, the turn it makes is the
/// turn a plain line with the same text makes: the same transcript grows by
/// the same single User message.
pub proof fn lemma_turn_depends_on_text_alone(
    h: Seq<MessageView>,
    line: Seq<char>,
    edited: Seq<char>,
)
    requires
        line == edited,
    ensures
        h.push(user_message(line)) == h.push(user_message(edited)),
{
}

} // verus!
