//! The connection of an SV1 downstream, from its first message to its last.
//!
//! The downstream has to say soon which token it mines for. What it says until then is answered
//! here or kept, and once it is attached to the upstream of its token everything that was kept is
//! passed on, and everything that follows.
use std::collections::VecDeque;
use vstd::prelude::*;

use crate::sv1::blank;
use crate::token_router::token::{read_greeting, Greeting, SubscribeAnswer};

verus! {

/// How long a downstream has to say which token it mines for, in nanoseconds: ten seconds.
pub const TOKEN_TIMEOUT: u128 = 10_000_000_000;

/// Why no token was learned.
#[derive(Clone, Copy, Debug, PartialEq, Eq, Structural)]
pub enum TokenError {
    /// The downstream asked to be authorized without one.
    Missing,
    /// The downstream did not ask in time.
    Timeout,
    /// The downstream hung up.
    Disconnected,
}

/// How far a connection is.
#[derive(Clone, Copy, Debug, PartialEq, Eq, Structural)]
pub enum Stage {
    /// The token is not known yet.
    Waiting,
    /// The upstream of the token is being looked for.
    Finding,
    /// The downstream is being attached to it.
    Attaching,
    /// Messages are passed on.
    Forwarding,
    /// The connection is over.
    Closed,
}

/// What is to be done next.
pub enum Action {
    /// Receive the next message.
    Receive,
    /// Take down that the extranonce of the downstream has to be replaced, send the response,
    /// which may fail, and receive the next message.
    Answer(SubscribeAnswer),
    /// Find or create the upstream of the token.
    Find(String),
    /// Attach the downstream to the upstream that was found.
    Attach,
    /// Pass a message on.
    Forward(String),
    /// Ban the address of the downstream and drop the connection.
    Ban,
    /// Drop the connection.
    Close,
    /// Drop the connection of a downstream whose message cannot be answered.
    Abort,
}

/// The texts of messages.
pub open spec fn texts(messages: Seq<String>) -> Seq<Seq<char>> {
    messages.map_values(|m: String| m@)
}

/// A message of a downstream that was taken, with whether it was answered on the spot.
pub ghost struct Heard {
    pub text: Seq<char>,
    pub answered: bool,
}

/// The texts of the messages that were not answered on the spot, in order.
pub open spec fn unanswered(heard: Seq<Heard>) -> Seq<Seq<char>> {
    heard.filter(|m: Heard| !m.answered).map_values(|m: Heard| m.text)
}

/// A message that was answered adds nothing to those that were not, and any other one adds itself.
proof fn lemma_unanswered_push(heard: Seq<Heard>, message: Heard)
    ensures
        unanswered(heard.push(message)) == (if message.answered {
            unanswered(heard)
        } else {
            unanswered(heard).push(message.text)
        }),
{
    reveal(Seq::filter);
    assert(heard.push(message).drop_last() =~= heard);
    assert(unanswered(heard.push(message)) =~= (if message.answered {
        unanswered(heard)
    } else {
        unanswered(heard).push(message.text)
    }));
}

/// A connection of a downstream.
pub struct Connection {
    stage: Stage,
    deadline: u128,
    queue: VecDeque<String>,
    heard: Ghost<Seq<Heard>>,
    kept: Ghost<Seq<Seq<char>>>,
    forwarded: Ghost<Seq<Seq<char>>>,
}

impl Connection {
    /// How far the connection is.
    pub closed spec fn stage(&self) -> Stage {
        self.stage
    }

    /// By when the token has to be known.
    pub closed spec fn deadline(&self) -> u128 {
        self.deadline
    }

    /// The messages that wait to be passed on.
    pub closed spec fn queue(&self) -> Seq<Seq<char>> {
        texts(self.queue@)
    }

    /// All messages that were taken so far, in the order in which they came, but for one that ended
    /// the connection.
    pub closed spec fn heard(&self) -> Seq<Heard> {
        self.heard@
    }

    /// All messages so far that are the business of the upstream, in the order in which they came.
    pub closed spec fn kept(&self) -> Seq<Seq<char>> {
        self.kept@
    }

    /// All messages so far that were given out to be passed on, in this order.
    pub closed spec fn forwarded(&self) -> Seq<Seq<char>> {
        self.forwarded@
    }

    /// No message is lost, invented or passed on out of turn: what came and was not answered on the
    /// spot is what was passed on, followed by what waits. Nothing is passed on before the
    /// downstream is attached.
    pub open spec fn wf(&self) -> bool {
        &&& self.kept() == unanswered(self.heard())
        &&& self.kept() == self.forwarded() + self.queue()
        &&& (self.stage() == Stage::Waiting || self.stage() == Stage::Finding || self.stage()
            == Stage::Attaching) ==> self.forwarded().len() == 0
    }

    /// Whether only the stage differs.
    pub open spec fn only_stage_differs(&self, other: &Self) -> bool {
        &&& self.deadline() == other.deadline()
        &&& self.queue() == other.queue()
        &&& self.kept() == other.kept()
        &&& self.forwarded() == other.forwarded()
    }

    /// Whether the connection was moved on from another state of it, with the action: it passes on
    /// the first message that waits, or receives the next one where none does.
    pub open spec fn advanced(&self, before: &Self, action: Action) -> bool {
        &&& self.stage() == Stage::Forwarding
        &&& self.deadline() == before.deadline()
        &&& self.kept() == before.kept()
        &&& if before.queue().len() > 0 {
            &&& action matches Action::Forward(message)
            &&& message@ == before.queue()[0]
            &&& self.queue() == before.queue().skip(1)
            &&& self.forwarded() == before.forwarded().push(before.queue()[0])
        } else {
            &&& action is Receive
            &&& self.queue() == before.queue()
            &&& self.forwarded() == before.forwarded()
        }
    }

    /// Whether exactly the message of the action was given out since another state of the connection.
    pub open spec fn gives_out(&self, before: &Self, action: Action) -> bool {
        match action {
            Action::Forward(message) => self.forwarded() == before.forwarded().push(message@),
            _ => self.forwarded() == before.forwarded(),
        }
    }

    /// Whether the connection took a message that is the given thing, while the token was not
    /// known, with the action. A request to subscribe is answered and not kept; a request to be
    /// authorized tells the token, and is kept; anything else is kept. A blank token is none.
    pub open spec fn greeted(
        &self,
        before: &Self,
        message: Seq<char>,
        greeting: Greeting,
        action: Action,
    ) -> bool {
        match greeting {
            Greeting::Subscribe(answer) => {
                &&& action == Action::Answer(answer)
                &&& self.stage() == Stage::Waiting
                &&& self.only_stage_differs(before)
            },
            Greeting::Authorize(token) => if crate::sv1::is_blank(token@) {
                &&& action is Ban
                &&& self.stage() == Stage::Closed
                &&& self.only_stage_differs(before)
            } else {
                &&& action == Action::Find(token)
                &&& self.stage() == Stage::Finding
                &&& self.keeps(before, message)
            },
            Greeting::Other => {
                &&& action is Receive
                &&& self.stage() == Stage::Waiting
                &&& self.keeps(before, message)
            },
            Greeting::Oversized => {
                &&& action is Abort
                &&& self.stage() == Stage::Closed
                &&& self.only_stage_differs(before)
            },
        }
    }

    /// Whether, apart from the stage, only a message was kept.
    pub open spec fn keeps(&self, before: &Self, message: Seq<char>) -> bool {
        &&& self.deadline() == before.deadline()
        &&& self.queue() == before.queue().push(message)
        &&& self.kept() == before.kept().push(message)
        &&& self.forwarded() == before.forwarded()
    }

    /// A connection that was just accepted.
    pub fn new(now: u128) -> (connection: Self)
        requires
            now + TOKEN_TIMEOUT <= u128::MAX,
        ensures
            connection.wf(),
            connection.stage() == Stage::Waiting,
            connection.deadline() == now + TOKEN_TIMEOUT,
            connection.heard() == Seq::<Heard>::empty(),
            connection.kept() == Seq::<Seq<char>>::empty(),
            connection.forwarded() == Seq::<Seq<char>>::empty(),
            connection.queue() == Seq::<Seq<char>>::empty(),
    {
        let connection = Connection {
            stage: Stage::Waiting,
            deadline: now + TOKEN_TIMEOUT,
            queue: VecDeque::new(),
            heard: Ghost(Seq::empty()),
            kept: Ghost(Seq::empty()),
            forwarded: Ghost(Seq::empty()),
        };
        proof {
            reveal(Seq::filter);
            assert(connection.queue() =~= Seq::<Seq<char>>::empty());
            assert(unanswered(connection.heard()) =~= Seq::<Seq<char>>::empty());
        }
        connection
    }

    /// How far the connection is.
    pub fn current_stage(&self) -> (stage: Stage)
        ensures
            stage == self.stage(),
    {
        self.stage
    }

    /// How long to wait for the next message, as long as the token is not known. There is no more
    /// time once the deadline is reached.
    pub fn time_left(&self, now: u128) -> (left: Option<u128>)
        ensures
            left == (if now < self.deadline() {
                Some((self.deadline() - now) as u128)
            } else {
                None
            }),
    {
        if now < self.deadline {
            Some(self.deadline - now)
        } else {
            None
        }
    }

    /// Keeps a message for the upstream.
    fn keep(&mut self, message: String)
        requires
            old(self).wf(),
        ensures
            final(self).wf(),
            final(self).stage() == old(self).stage(),
            final(self).heard() == old(self).heard().push((Heard { text: message@, answered: false })),
            final(self).keeps(old(self), message@),
    {
        let ghost text = message@;
        self.queue.push_back(message);
        self.heard = Ghost(self.heard@.push(Heard { text, answered: false }));
        self.kept = Ghost(self.kept@.push(text));
        proof {
            lemma_unanswered_push(old(self).heard(), Heard { text, answered: false });
            assert(self.queue() =~= old(self).queue().push(text));
            assert(self.kept() =~= self.forwarded() + self.queue());
        }
    }

    /// Takes a message that has been read, while the token is not known.
    pub fn on_greeting(&mut self, message: String, greeting: Greeting) -> (action: Action)
        requires
            old(self).wf(),
            old(self).stage() == Stage::Waiting,
        ensures
            final(self).wf(),
            final(self).greeted(old(self), message@, greeting, action),
            final(self).stage() != Stage::Closed ==> final(self).heard() == old(self).heard().push(
                (Heard { text: message@, answered: greeting is Subscribe }),
            ),
            final(self).stage() == Stage::Closed ==> final(self).heard() == old(self).heard(),
            final(self).stage() == Stage::Closed <==> (greeting is Oversized || (
            greeting matches Greeting::Authorize(token) && crate::sv1::is_blank(token@))),
    {
        match greeting {
            Greeting::Subscribe(answer) => {
                self.heard = Ghost(self.heard@.push(Heard { text: message@, answered: true }));
                proof {
                    lemma_unanswered_push(
                        old(self).heard(),
                        Heard { text: message@, answered: true },
                    );
                }
                Action::Answer(answer)
            },
            Greeting::Authorize(token) => {
                if blank(&token) {
                    return self.on_token_error(TokenError::Missing);
                }
                self.keep(message);
                self.stage = Stage::Finding;
                Action::Find(token)
            },
            Greeting::Other => {
                self.keep(message);
                Action::Receive
            },
            Greeting::Oversized => {
                self.stage = Stage::Closed;
                Action::Abort
            },
        }
    }

    /// Reads and takes a message while the token is not known. `extranonce2_size` is what the
    /// answer to a request to subscribe says about the part of the extranonce that is left to the
    /// downstream.
    pub fn on_message(&mut self, message: String, extranonce2_size: usize) -> (action: Action)
        requires
            old(self).wf(),
            old(self).stage() == Stage::Waiting,
        ensures
            final(self).wf(),
            exists|greeting: Greeting|
                {
                    &&& #[trigger] crate::token_router::token::is_greeting(
                        greeting,
                        crate::sv1::sv1_message(message@),
                        extranonce2_size,
                    )
                    &&& final(self).greeted(old(self), message@, greeting, action)
                    &&& final(self).stage() != Stage::Closed ==> final(self).heard() == old(
                        self,
                    ).heard().push((Heard { text: message@, answered: greeting is Subscribe }))
                    &&& final(self).stage() == Stage::Closed ==> final(self).heard() == old(
                        self,
                    ).heard()
                    &&& final(self).stage() == Stage::Closed <==> (greeting is Oversized || (
                    greeting matches Greeting::Authorize(token) && crate::sv1::is_blank(token@)))
                },
    {
        let greeting = read_greeting(&message, extranonce2_size);
        self.on_greeting(message, greeting)
    }

    /// Ends a connection on which no token was learned. A downstream that has none is banned.
    pub fn on_token_error(&mut self, error: TokenError) -> (action: Action)
        requires
            old(self).wf(),
            old(self).stage() == Stage::Waiting,
        ensures
            final(self).wf(),
            final(self).stage() == Stage::Closed,
            final(self).heard() == old(self).heard(),
            final(self).only_stage_differs(old(self)),
            match error {
                TokenError::Missing => action is Ban,
                TokenError::Timeout => action is Close,
                TokenError::Disconnected => action is Close,
            },
    {
        self.stage = Stage::Closed;
        match error {
            TokenError::Missing => Action::Ban,
            TokenError::Timeout => Action::Close,
            TokenError::Disconnected => Action::Close,
        }
    }

    /// Takes whether the upstream of the token was found or created. A downstream whose token has
    /// none is banned.
    pub fn on_instance(&mut self, found: bool) -> (action: Action)
        requires
            old(self).wf(),
            old(self).stage() == Stage::Finding,
        ensures
            final(self).wf(),
            final(self).heard() == old(self).heard(),
            final(self).only_stage_differs(old(self)),
            if found {
                action is Attach && final(self).stage() == Stage::Attaching
            } else {
                action is Ban && final(self).stage() == Stage::Closed
            },
    {
        if found {
            self.stage = Stage::Attaching;
            Action::Attach
        } else {
            self.stage = Stage::Closed;
            Action::Ban
        }
    }

    /// Passes on the first message that waits, or receives the next one where none does.
    fn advance(&mut self) -> (action: Action)
        requires
            old(self).wf(),
            old(self).stage() == Stage::Attaching || old(self).stage() == Stage::Forwarding,
        ensures
            final(self).wf(),
            final(self).heard() == old(self).heard(),
            final(self).advanced(old(self), action),
            final(self).gives_out(old(self), action),
    {
        self.stage = Stage::Forwarding;
        match self.queue.pop_front() {
            Some(message) => {
                self.forwarded = Ghost(self.forwarded@.push(message@));
                proof {
                    assert(old(self).queue()[0] == message@);
                    assert(self.queue() =~= old(self).queue().skip(1));
                    assert(self.kept() =~= self.forwarded() + self.queue());
                }
                Action::Forward(message)
            },
            None => Action::Receive,
        }
    }

    /// Takes whether the downstream was attached to the upstream.
    pub fn on_attached(&mut self, attached: bool) -> (action: Action)
        requires
            old(self).wf(),
            old(self).stage() == Stage::Attaching,
        ensures
            final(self).wf(),
            final(self).heard() == old(self).heard(),
            final(self).gives_out(old(self), action),
            if attached {
                final(self).advanced(old(self), action)
            } else {
                &&& action is Close
                &&& final(self).stage() == Stage::Closed
                &&& final(self).only_stage_differs(old(self))
            },
    {
        if attached {
            self.advance()
        } else {
            self.stage = Stage::Closed;
            Action::Close
        }
    }

    /// Takes whether the last message was passed on.
    pub fn on_forwarded(&mut self, sent: bool) -> (action: Action)
        requires
            old(self).wf(),
            old(self).stage() == Stage::Forwarding,
        ensures
            final(self).wf(),
            final(self).heard() == old(self).heard(),
            final(self).gives_out(old(self), action),
            if sent {
                final(self).advanced(old(self), action)
            } else {
                &&& action is Close
                &&& final(self).stage() == Stage::Closed
                &&& final(self).only_stage_differs(old(self))
            },
    {
        if sent {
            self.advance()
        } else {
            self.stage = Stage::Closed;
            Action::Close
        }
    }

    /// Takes a message of a downstream that is attached, or that there are no more.
    pub fn on_received(&mut self, message: Option<String>) -> (action: Action)
        requires
            old(self).wf(),
            old(self).stage() == Stage::Forwarding,
            old(self).queue().len() == 0,
        ensures
            final(self).wf(),
            final(self).gives_out(old(self), action),
            final(self).heard() == (match message {
                Some(message) => old(self).heard().push(
                    (Heard { text: message@, answered: false }),
                ),
                None => old(self).heard(),
            }),
            match message {
                Some(message) => {
                    &&& action == Action::Forward(message)
                    &&& final(self).stage() == Stage::Forwarding
                    &&& final(self).deadline() == old(self).deadline()
                    &&& final(self).queue() == old(self).queue()
                    &&& final(self).kept() == old(self).kept().push(message@)
                    &&& final(self).forwarded() == old(self).forwarded().push(message@)
                },
                None => {
                    &&& action is Close
                    &&& final(self).stage() == Stage::Closed
                    &&& final(self).only_stage_differs(old(self))
                },
            },
    {
        match message {
            Some(message) => {
                self.heard = Ghost(self.heard@.push(Heard { text: message@, answered: false }));
                self.kept = Ghost(self.kept@.push(message@));
                self.forwarded = Ghost(self.forwarded@.push(message@));
                proof {
                    lemma_unanswered_push(
                        old(self).heard(),
                        Heard { text: message@, answered: false },
                    );
                    assert(self.kept() =~= self.forwarded() + self.queue());
                }
                Action::Forward(message)
            },
            None => {
                self.stage = Stage::Closed;
                Action::Close
            },
        }
    }
}

/// What a downstream said and was not answered on the spot is passed on: all of it, whatever it is,
/// and nothing else, in the order in which it came. At any time the first part of it has been passed
/// on and the rest waits, and where nothing waits all of it has been.
pub proof fn law_messages_are_passed_on_in_order(connection: Connection)
    requires
        connection.wf(),
    ensures
        connection.forwarded() + connection.queue() == connection.heard().filter(
            |m: Heard| !m.answered,
        ).map_values(|m: Heard| m.text),
        connection.forwarded().len() <= connection.kept().len(),
        connection.forwarded() == connection.kept().take(connection.forwarded().len() as int),
        connection.queue().len() == 0 ==> connection.forwarded() == connection.kept(),
{
    assert(connection.forwarded() =~= connection.kept().take(
        connection.forwarded().len() as int,
    ));
    if connection.queue().len() == 0 {
        assert(connection.forwarded() =~= connection.kept());
    }
}

/// A message that is taken while the token is not known, and does not end the connection, is kept
/// for the upstream whatever its text, unless it was answered. Then it is kept by nobody.
pub proof fn law_messages_are_kept(
    before: Connection,
    after: Connection,
    message: Seq<char>,
    greeting: Greeting,
    action: Action,
)
    requires
        after.greeted(&before, message, greeting, action),
    ensures
        greeting is Other ==> after.queue() == before.queue().push(message) && after.kept()
            == before.kept().push(message),
        greeting is Authorize && after.stage() != Stage::Closed ==> after.queue()
            == before.queue().push(message) && after.kept() == before.kept().push(message),
        greeting is Subscribe ==> after.queue() == before.queue() && after.kept() == before.kept(),
        after.forwarded() == before.forwarded(),
        after.deadline() == before.deadline(),
{
}

/// Over a run of messages that tell no token, whatever their texts, those wait for the upstream that
/// were no requests to subscribe, all of them and in the order in which they came, behind what
/// waited before.
pub proof fn law_everything_said_waits(
    states: Seq<Connection>,
    messages: Seq<Seq<char>>,
    greetings: Seq<Greeting>,
    actions: Seq<Action>,
)
    requires
        states.len() == messages.len() + 1,
        greetings.len() == messages.len(),
        actions.len() == messages.len(),
        forall|i: int|
            0 <= i < messages.len() ==> (#[trigger] states[i + 1]).greeted(
                &states[i],
                messages[i],
                greetings[i],
                actions[i],
            ),
        forall|i: int|
            0 <= i < messages.len() ==> (#[trigger] greetings[i]) is Subscribe || greetings[i]
                is Other,
    ensures
        states.last().queue() == states[0].queue() + unanswered(
            Seq::new(
                messages.len(),
                |i: int| Heard { text: messages[i], answered: greetings[i] is Subscribe },
            ),
        ),
        states.last().forwarded() == states[0].forwarded(),
    decreases messages.len(),
{
    let heard = Seq::new(
        messages.len(),
        |i: int| Heard { text: messages[i], answered: greetings[i] is Subscribe },
    );
    reveal(Seq::filter);
    if messages.len() == 0 {
        assert(unanswered(heard) =~= Seq::<Seq<char>>::empty());
        assert(states[0].queue() + unanswered(heard) =~= states[0].queue());
    } else {
        let n = messages.len() - 1;
        let earlier = states.drop_last();
        assert forall|i: int| 0 <= i < n implies (#[trigger] earlier[i + 1]).greeted(
            &earlier[i],
            messages.drop_last()[i],
            greetings.drop_last()[i],
            actions.drop_last()[i],
        ) by {
            assert(states[i + 1].greeted(&states[i], messages[i], greetings[i], actions[i]));
        }
        assert forall|i: int| 0 <= i < n implies (#[trigger] greetings.drop_last()[i]) is Subscribe
            || greetings.drop_last()[i] is Other by {
            assert(greetings[i] is Subscribe || greetings[i] is Other);
        }
        law_everything_said_waits(
            earlier,
            messages.drop_last(),
            greetings.drop_last(),
            actions.drop_last(),
        );
        let before = Seq::new(
            messages.drop_last().len(),
            |i: int|
                Heard {
                    text: messages.drop_last()[i],
                    answered: greetings.drop_last()[i] is Subscribe,
                },
        );
        assert(heard.drop_last() =~= before);
        assert(heard =~= before.push(heard.last()));
        lemma_unanswered_push(before, heard.last());
        assert(states[n + 1].greeted(&states[n], messages[n], greetings[n], actions[n]));
        assert(greetings[n] is Subscribe || greetings[n] is Other);
        assert(states.last().queue() =~= states[0].queue() + unanswered(heard));
    }
}

/// What is done about a message while the token is not known follows from what it is: a request to
/// subscribe gets its own answer, an upstream is looked for exactly for a token with something in it,
/// and for that very token, a downstream without one is banned, and everything else is only kept.
pub proof fn law_what_is_done_about_a_greeting(
    before: Connection,
    after: Connection,
    message: Seq<char>,
    greeting: Greeting,
    action: Action,
    token: String,
    answer: SubscribeAnswer,
)
    requires
        after.greeted(&before, message, greeting, action),
    ensures
        action == Action::Answer(answer) <==> greeting == Greeting::Subscribe(answer),
        action == Action::Find(token) <==> greeting == Greeting::Authorize(token)
            && !crate::sv1::is_blank(token@),
        action is Ban <==> (greeting matches Greeting::Authorize(t) && crate::sv1::is_blank(t@)),
        action is Receive <==> greeting is Other,
        action is Abort <==> greeting is Oversized,
        action !is Attach && action !is Forward && action !is Close,
        after.stage() == Stage::Finding <==> action is Find,
        after.stage() == Stage::Closed <==> action is Ban || action is Abort,
        after.stage() == Stage::Waiting <==> action is Answer || action is Receive,
{
}

/// Once a downstream is attached, the message that waits longest is passed on next, as it is, and
/// the others move up. Only where nothing waits is there nothing to pass on.
pub proof fn law_longest_waiting_is_next(before: Connection, after: Connection, action: Action)
    requires
        after.advanced(&before, action),
    ensures
        after.stage() == Stage::Forwarding,
        before.queue().len() == 0 <==> action is Receive,
        before.queue().len() > 0 <==> action is Forward,
        action matches Action::Forward(message) ==> {
            &&& before.queue() == seq![message@] + after.queue()
            &&& after.forwarded() == before.forwarded().push(message@)
        },
        action is Receive ==> after.queue().len() == 0 && after.forwarded() == before.forwarded(),
        after.forwarded() + after.queue() == before.forwarded() + before.queue(),
        after.kept() == before.kept(),
{
    if let Action::Forward(message) = action {
        assert(before.queue() =~= seq![message@] + after.queue());
        assert(after.forwarded() + after.queue() =~= before.forwarded() + before.queue());
    }
}

/// The texts of messages are their own, one for one.
pub proof fn law_texts_are_their_own(messages: Seq<String>)
    ensures
        texts(messages).len() == messages.len(),
        forall|i: int| 0 <= i < messages.len() ==> #[trigger] texts(messages)[i] == messages[i]@,
{
}

/// What a downstream says before its token is known reaches its upstream, whatever it is: a message
/// that is neither a request to subscribe nor one to be authorized, and then the request that tells
/// the token, are passed on in this order and as they are, once the downstream is attached to the
/// upstream of that very token.
pub proof fn law_first_words_reach_the_upstream(
    now: u128,
    c1: &mut Connection,
    message: String,
    a1: Action,
    c2: &mut Connection,
    request: String,
    token: String,
    a2: Action,
    c3: &mut Connection,
    a3: Action,
    c4: &mut Connection,
    a4: Action,
    c5: &mut Connection,
    a5: Action,
    c6: &mut Connection,
    a6: Action,
)
    requires
        call_ensures(Connection::new, (now,), *old(c1)),
        call_ensures(Connection::on_greeting, (c1, message, Greeting::Other), a1),
        *old(c2) == *final(c1),
        !crate::sv1::is_blank(token@),
        call_ensures(Connection::on_greeting, (c2, request, Greeting::Authorize(token)), a2),
        *old(c3) == *final(c2),
        call_ensures(Connection::on_instance, (c3, true), a3),
        *old(c4) == *final(c3),
        call_ensures(Connection::on_attached, (c4, true), a4),
        *old(c5) == *final(c4),
        call_ensures(Connection::on_forwarded, (c5, true), a5),
        *old(c6) == *final(c5),
        call_ensures(Connection::on_forwarded, (c6, true), a6),
    ensures
        a1 is Receive,
        a2 == Action::Find(token),
        a3 is Attach,
        a4 matches Action::Forward(first) && first@ == message@,
        a5 matches Action::Forward(second) && second@ == request@,
        a6 is Receive,
{
}

/// A connection that is just accepted waits for ten seconds to learn the token, and not any longer.
pub proof fn law_time_to_tell_a_token(
    start: u128,
    connection: Connection,
    now: u128,
    left: Option<u128>,
)
    requires
        start + 10_000_000_000 <= u128::MAX,
        call_ensures(Connection::new, (start,), connection),
        call_ensures(Connection::time_left, (&connection, now), left),
    ensures
        left is Some <==> now < start + 10_000_000_000,
        left matches Some(t) ==> t == start + 10_000_000_000 - now,
{
}

/// Whatever a message is, it is passed on or waits unless it was answered or ended the connection,
/// and it is the last of those that wait. Nothing that waited before is lost or passed over.
pub proof fn law_greeting_is_kept(
    connection: &mut Connection,
    message: String,
    greeting: Greeting,
    action: Action,
)
    requires
        call_ensures(Connection::on_greeting, (connection, message, greeting), action),
    ensures
        action is Receive || action is Find ==> final(connection).queue() == old(
            connection,
        ).queue().push(message@),
        action is Answer || action is Ban || action is Abort ==> final(connection).queue() == old(
            connection,
        ).queue(),
        action is Receive <==> greeting is Other,
        action is Answer <==> greeting is Subscribe,
        action is Abort <==> greeting is Oversized,
        action is Find || action is Ban <==> greeting is Authorize,
        final(connection).forwarded() == old(connection).forwarded(),
{
}

/// A message of a downstream whose token is not known is acted on for what is in it: a request for
/// `mining.authorize` with a name and a password finds the upstream of the token in it, or gets a
/// downstream banned that names none, and a request for any other method but `mining.subscribe` is
/// kept, whatever its text.
pub proof fn law_message_is_acted_on(
    connection: &mut Connection,
    message: String,
    extranonce2_size: usize,
    action: Action,
    id: u64,
    method: Seq<char>,
    params: Option<Seq<crate::sv1::JsonView>>,
    name: Seq<char>,
    password: Seq<char>,
)
    requires
        call_ensures(Connection::on_message, (connection, message, extranonce2_size), action),
        crate::sv1::sv1_message(message@) == Some(
            crate::sv1::Sv1MessageView::Request { id, method, params },
        ),
    ensures
        method != "mining.authorize"@ && method != "mining.subscribe"@ ==> action is Receive
            && final(connection).queue() == old(connection).queue().push(message@),
        method == "mining.authorize"@ && params == Some(
            seq![crate::sv1::JsonView::Text(name), crate::sv1::JsonView::Text(password)],
        ) ==> {
            &&& crate::sv1::is_blank(name) && crate::sv1::is_blank(password) <==> action is Ban
            &&& action is Ban || action is Find
            &&& action matches Action::Find(token) ==> {
                &&& token@ == if crate::sv1::is_blank(password) {
                    name
                } else {
                    password
                }
                &&& final(connection).queue() == old(connection).queue().push(message@)
            }
        },
{
    let greeting = choose|greeting: Greeting|
        {
            &&& #[trigger] crate::token_router::token::is_greeting(
                greeting,
                crate::sv1::sv1_message(message@),
                extranonce2_size,
            )
            &&& final(connection).greeted(old(connection), message@, greeting, action)
        };
    crate::token_router::token::law_greetings_are_told_apart(
        greeting,
        crate::sv1::sv1_message(message@),
        extranonce2_size,
    );
    crate::token_router::token::law_token_of_a_request(id, name, password);
}

/// A downstream that is attached has each message passed on as it is. It is over when there are no
/// more, when a message could not be passed on, and when it could not be attached; an address is
/// banned only where there was no token or no upstream for it.
pub proof fn law_ends_of_a_connection(
    receiving: &mut Connection,
    message: Option<String>,
    received: Action,
    finding: &mut Connection,
    found: bool,
    searched: Action,
    attaching: &mut Connection,
    not_attached: Action,
    sending: &mut Connection,
    not_sent: Action,
    waiting: &mut Connection,
    error: TokenError,
    failed: Action,
)
    requires
        call_ensures(Connection::on_received, (receiving, message), received),
        call_ensures(Connection::on_instance, (finding, found), searched),
        call_ensures(Connection::on_attached, (attaching, false), not_attached),
        call_ensures(Connection::on_forwarded, (sending, false), not_sent),
        call_ensures(Connection::on_token_error, (waiting, error), failed),
    ensures
        message matches Some(text) ==> received == Action::Forward(text),
        message is None <==> received is Close,
        received is Close <==> final(receiving).stage() == Stage::Closed,
        found <==> searched is Attach,
        !found <==> searched is Ban,
        not_attached is Close && final(attaching).stage() == Stage::Closed,
        not_sent is Close && final(sending).stage() == Stage::Closed,
        failed is Ban <==> error == TokenError::Missing,
        failed is Close <==> error != TokenError::Missing,
        final(waiting).stage() == Stage::Closed,
{
}

/// The stage of a connection is the one that it is in.
pub proof fn law_stage_is_told(connection: Connection, stage: Stage)
    requires
        call_ensures(Connection::current_stage, (&connection,), stage),
    ensures
        stage == connection.stage(),
{
}

} // verus!
